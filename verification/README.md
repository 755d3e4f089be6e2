# srvcs-exponent

Arithmetic microservice: raises a `base` to an `exp` (real exponentiation) by
delegating the arithmetic to `srvcs-floatpower`, and forwards that service's
verdicts (`422`) or reports it degraded (`503`) or malformed (`500`).

- `src/` — the verified decision core: the service identity, the call
  made to `srvcs-floatpower`, the answer for every outcome of that call, the
  reading of a raw HTTP answer, and the OpenAPI document with the laws that tie
  the answers to it. Numbers travel as binary64 bit patterns.
- `app/` — the axum binary: routes, the socket-level client, JSON encoding.
- `tests/` — tests of the library.
