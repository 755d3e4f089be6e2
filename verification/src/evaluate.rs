use vstd::prelude::*;

use crate::identity::FLOATPOWER;
use crate::json::{json_number_at, number_at};
use crate::reply::{
    degraded, degraded_view, forward, forward_view, malformed, malformed_view, ok, ok_view,
    Response, ResponseView, STATUS_OK, STATUS_UNPROCESSABLE,
};

verus! {

/// The field of the dependency's answer that holds the power.
pub const RESULT_FIELD: &'static str = "result";

/// Where the dependencies are reached.
#[derive(Clone, Debug)]
pub struct Deps {
    pub floatpower_url: String,
}

/// `POST /` body: `{"base", "exp"}`, each the bit pattern of an IEEE-754
/// binary64 value.
#[derive(Clone, Copy, Debug, PartialEq, Eq, Structural)]
pub struct EvalRequest {
    pub base: u64,
    pub exp: u64,
}

/// Why a dependency gave no answer.
#[derive(Clone, Copy, Debug, PartialEq, Eq, Structural)]
pub enum DepError {
    /// No connection, or no HTTP answer over it.
    Unreachable,
}

/// A call to make: `POST` `{"base", "exp"}` to `url`, the address of `dependency`.
#[derive(Clone, Debug)]
pub struct DepCall {
    pub url: String,
    pub dependency: &'static str,
    pub base: u64,
    pub exp: u64,
}

/// What a dependency call came to: its status and JSON body, or no answer.
pub open spec fn outcome_view(outcome: Result<(u16, Vec<u8>), DepError>) -> Result<(u16, Seq<u8>), DepError> {
    match outcome {
        Ok((status, body)) => Ok((status, body@)),
        Err(e) => Err(e),
    }
}

/// How a dependency's outcome is taken: a `200` body goes on to be read;
/// a `422` is forwarded; anything else, or no answer, degrades the service.
pub open spec fn ask_view(outcome: Result<(u16, Seq<u8>), DepError>, dependency: Seq<char>) -> Result<Seq<u8>, ResponseView> {
    match outcome {
        Err(_) => Err(degraded_view(dependency)),
        Ok((status, body)) => if status == STATUS_OK {
            Ok(body)
        } else if status == STATUS_UNPROCESSABLE {
            Err(forward_view(STATUS_UNPROCESSABLE, body))
        } else {
            Err(degraded_view(dependency))
        },
    }
}

/// The answer to `req` once the dependency's `result` has been read:
/// the evaluation where it is a number, `500` where it is not.
pub open spec fn conclude_view(req: EvalRequest, result: Option<u64>) -> ResponseView {
    match result {
        Some(power) => ok_view(req.base, req.exp, power),
        None => malformed_view(FLOATPOWER@),
    }
}

/// The answer to `req` for each outcome of the call to `srvcs-floatpower`.
pub open spec fn evaluate_view(req: EvalRequest, outcome: Result<(u16, Seq<u8>), DepError>) -> ResponseView {
    match ask_view(outcome, FLOATPOWER@) {
        Err(answer) => answer,
        Ok(body) => conclude_view(req, json_number_at(body, RESULT_FIELD@)),
    }
}

/// Takes the outcome of a call to `dependency`: `Ok` with the body of a `200`,
/// or `Err` with the answer to give at once.
pub fn ask(outcome: Result<(u16, Vec<u8>), DepError>, dependency: &str) -> (r: Result<Vec<u8>, Response>)
    ensures
        match (r, ask_view(outcome_view(outcome), dependency@)) {
            (Ok(body), Ok(expected)) => body@ == expected,
            (Err(answer), Err(expected)) => answer@ == expected,
            _ => false,
        },
{
    match outcome {
        Err(DepError::Unreachable) => Err(degraded(dependency)),
        Ok((status, body)) => {
            if status == STATUS_OK {
                Ok(body)
            } else if status == STATUS_UNPROCESSABLE {
                Err(forward(STATUS_UNPROCESSABLE, body))
            } else {
                Err(degraded(dependency))
            }
        },
    }
}

/// The call that evaluating `req` makes: `srvcs-floatpower` at its configured
/// address, with `base` and `exp` exactly as given. No input is refused here;
/// validation is the dependency's.
pub fn floatpower_call(deps: &Deps, req: &EvalRequest) -> (call: DepCall)
    ensures
        call.url@ == deps.floatpower_url@,
        call.dependency@ == FLOATPOWER@,
        call.base == req.base,
        call.exp == req.exp,
{
    DepCall { url: deps.floatpower_url.clone(), dependency: FLOATPOWER, base: req.base, exp: req.exp }
}

/// The answer to `req` given what `srvcs-floatpower`'s `result` field held.
pub fn conclude(req: &EvalRequest, result: Option<u64>) -> (r: Response)
    ensures
        r@ == conclude_view(*req, result),
{
    match result {
        Some(power) => ok(req.base, req.exp, power),
        None => malformed(FLOATPOWER),
    }
}

/// `POST /`: the answer to `req`, given the outcome of the call that
/// [`floatpower_call`] describes.
pub fn evaluate(req: &EvalRequest, outcome: Result<(u16, Vec<u8>), DepError>) -> (r: Response)
    ensures
        r@ == evaluate_view(*req, outcome_view(outcome)),
{
    match ask(outcome, FLOATPOWER) {
        Err(answer) => answer,
        Ok(body) => {
            let result = number_at(body.as_slice(), RESULT_FIELD);
            conclude(req, result)
        },
    }
}

/// What an evaluation is told: that it begins, or what its call came to.
pub enum Event {
    Start,
    Outcome(Result<(u16, Vec<u8>), DepError>),
}

/// What an evaluation does next: make a call, or give its answer.
pub enum Step {
    Call(DepCall),
    Reply(Response),
}

/// Whether `call` is the call that evaluating `req` makes: to
/// `srvcs-floatpower` at its configured address, with `base` and `exp` each
/// in its own place, exactly as given.
pub open spec fn is_floatpower_call(call: DepCall, deps: Deps, req: EvalRequest) -> bool {
    &&& call.url@ == deps.floatpower_url@
    &&& call.dependency@ == FLOATPOWER@
    &&& call.base == req.base
    &&& call.exp == req.exp
}

/// `POST /` as steps: at the start, the one call to `srvcs-floatpower`; once
/// that call's outcome is in, the answer, and never another call. So an
/// evaluation makes exactly one dependency call, to no other service, and
/// retries nothing.
pub fn next_step(deps: &Deps, req: &EvalRequest, event: Event) -> (step: Step)
    ensures
        match event {
            Event::Start => step matches Step::Call(call) && is_floatpower_call(call, *deps, *req),
            Event::Outcome(outcome) => step matches Step::Reply(answer)
                && answer@ == evaluate_view(*req, outcome_view(outcome)),
        },
{
    match event {
        Event::Start => Step::Call(floatpower_call(deps, req)),
        Event::Outcome(outcome) => Step::Reply(evaluate(req, outcome)),
    }
}

} // verus!
