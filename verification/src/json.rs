use vstd::prelude::*;

verus! {

/// The number that the JSON text `body` holds under `key` at its top level,
/// as the bit pattern of the IEEE-754 binary64 value that `serde_json` reads
/// for it; `None` where `body` is no JSON text, is no object, has no `key`,
/// or holds something other than a number there.
pub uninterp spec fn json_number_at(body: Seq<u8>, key: Seq<char>) -> Option<u64>;

/// `serde_json::from_slice` into a `serde_json::Value`, then `Value::get`
/// with `key` and `Value::as_f64`: the number under `key`, by its bit pattern.
/// The contract only names that result; what `serde_json` reads is not restated.
#[verifier::external_body]
pub(crate) fn number_at(body: &[u8], key: &str) -> (r: Option<u64>)
    ensures
        r == json_number_at(body@, key@),
{
    match serde_json::from_slice::<serde_json::Value>(body) {
        Ok(value) => match value.get(key).and_then(serde_json::Value::as_f64) {
            Some(number) => Some(number.to_bits()),
            None => None,
        },
        Err(_) => None,
    }
}

} // verus!
