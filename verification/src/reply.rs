use vstd::prelude::*;

verus! {

/// `200 OK`.
pub const STATUS_OK: u16 = 200;

/// `422 Unprocessable Entity`: what the dependency answers when it rejects the input.
pub const STATUS_UNPROCESSABLE: u16 = 422;

/// `500 Internal Server Error`.
pub const STATUS_INTERNAL_ERROR: u16 = 500;

/// `502 Bad Gateway`: stands in for a forwarded status that is no status code.
pub const STATUS_BAD_GATEWAY: u16 = 502;

/// `503 Service Unavailable`.
pub const STATUS_UNAVAILABLE: u16 = 503;

/// The `error` text of a degraded answer.
pub const UNAVAILABLE_ERROR: &'static str = "dependency unavailable";

/// The `error` text of an answer to a malformed dependency result.
pub const MALFORMED_ERROR: &'static str = "dependency returned a malformed result";

/// A successful evaluation: `{"base", "exp", "result"}`.
///
/// Each number is the bit pattern of an IEEE-754 binary64 value; this crate
/// carries them unchanged and never computes with them.
#[derive(Clone, Copy, Debug, PartialEq, Eq, Structural)]
pub struct ExponentResponse {
    pub base: u64,
    pub exp: u64,
    pub result: u64,
}

/// The JSON body of an answer.
#[derive(Clone, Debug, PartialEq, Eq)]
pub enum Body {
    /// `{"base", "exp", "result"}`.
    Exponent(ExponentResponse),
    /// `{"error", "dependency"}`.
    Failure { error: &'static str, dependency: String },
    /// A dependency's JSON body, passed on as it came.
    Forwarded(Vec<u8>),
}

/// An HTTP answer: status code and JSON body.
#[derive(Clone, Debug, PartialEq, Eq)]
pub struct Response {
    pub status: u16,
    pub body: Body,
}

/// The body of an answer as mathematical values.
pub enum BodyView {
    Exponent { base: u64, exp: u64, result: u64 },
    Failure { error: Seq<char>, dependency: Seq<char> },
    Forwarded(Seq<u8>),
}

/// An answer as mathematical values.
pub struct ResponseView {
    pub status: u16,
    pub body: BodyView,
}

impl View for Body {
    type V = BodyView;

    open spec fn view(&self) -> BodyView {
        match self {
            Body::Exponent(e) => BodyView::Exponent { base: e.base, exp: e.exp, result: e.result },
            Body::Failure { error, dependency } => BodyView::Failure {
                error: error@,
                dependency: dependency@,
            },
            Body::Forwarded(bytes) => BodyView::Forwarded(bytes@),
        }
    }
}

impl View for Response {
    type V = ResponseView;

    open spec fn view(&self) -> ResponseView {
        ResponseView { status: self.status, body: self.body@ }
    }
}

/// `200` with `{"base", "exp", "result"}`.
pub open spec fn ok_view(base: u64, exp: u64, result: u64) -> ResponseView {
    ResponseView { status: STATUS_OK, body: BodyView::Exponent { base, exp, result } }
}

/// `503` naming the dependency that could not be reached.
pub open spec fn degraded_view(dependency: Seq<char>) -> ResponseView {
    ResponseView {
        status: STATUS_UNAVAILABLE,
        body: BodyView::Failure { error: UNAVAILABLE_ERROR@, dependency },
    }
}

/// Whether `code` is an HTTP status code: three decimal digits, `100..=999`.
pub open spec fn is_status_code(code: u16) -> bool {
    100 <= code <= 999
}

/// The dependency's status and body, passed on; a number that is no status
/// code becomes `502`.
pub open spec fn forward_view(status: u16, body: Seq<u8>) -> ResponseView {
    ResponseView {
        status: if is_status_code(status) { status } else { STATUS_BAD_GATEWAY },
        body: BodyView::Forwarded(body),
    }
}

/// `500` naming the dependency whose `200` answer held no numeric result.
pub open spec fn malformed_view(dependency: Seq<char>) -> ResponseView {
    ResponseView {
        status: STATUS_INTERNAL_ERROR,
        body: BodyView::Failure { error: MALFORMED_ERROR@, dependency },
    }
}

/// `http::StatusCode::from_u16` then `StatusCode::as_u16`: `from_u16`
/// accepts exactly `100..=999` and keeps the number; `as_u16` gives it back.
#[verifier::external_body]
fn status_code(code: u16) -> (r: Option<u16>)
    ensures
        r == (if is_status_code(code) { Some(code) } else { None::<u16> }),
{
    match axum::http::StatusCode::from_u16(code) {
        Ok(status) => Some(status.as_u16()),
        Err(_) => None,
    }
}

/// `200` with the evaluated numbers.
pub fn ok(base: u64, exp: u64, result: u64) -> (r: Response)
    ensures
        r@ == ok_view(base, exp, result),
{
    Response { status: STATUS_OK, body: Body::Exponent(ExponentResponse { base, exp, result }) }
}

/// `503`: the dependency is unavailable.
pub fn degraded(dependency: &str) -> (r: Response)
    ensures
        r@ == degraded_view(dependency@),
{
    Response {
        status: STATUS_UNAVAILABLE,
        body: Body::Failure { error: UNAVAILABLE_ERROR, dependency: dependency.to_owned() },
    }
}

/// Passes a dependency's answer on with its own status.
pub fn forward(status: u16, body: Vec<u8>) -> (r: Response)
    ensures
        r@ == forward_view(status, body@),
{
    let code = match status_code(status) {
        Some(code) => code,
        None => STATUS_BAD_GATEWAY,
    };
    Response { status: code, body: Body::Forwarded(body) }
}

/// `500`: a reachable dependency answered `200` without a numeric `result`,
/// a broken contract that is reported rather than guessed around.
pub fn malformed(dependency: &str) -> (r: Response)
    ensures
        r@ == malformed_view(dependency@),
{
    Response {
        status: STATUS_INTERNAL_ERROR,
        body: Body::Failure { error: MALFORMED_ERROR, dependency: dependency.to_owned() },
    }
}

} // verus!
