use srvcs_exponent::apidoc::ApiDoc;
use srvcs_exponent::openapi::Method;
use srvcs_exponent::{
    ask, conclude, degraded, evaluate, floatpower_call, forward, malformed, next_step, ok, Body, DepError, Event, Step,
    Deps, EvalRequest, ExponentResponse, Response,
};

fn request(base: f64, exp: f64) -> EvalRequest {
    EvalRequest { base: base.to_bits(), exp: exp.to_bits() }
}

fn json_object(entries: Vec<(&str, serde_json::Value)>) -> Vec<u8> {
    let mut map = serde_json::Map::new();
    for (key, value) in entries {
        map.insert(key.to_string(), value);
    }
    serde_json::to_vec(&serde_json::Value::Object(map)).unwrap()
}

/// What `srvcs-floatpower` answers to the call: `{"result": base.powf(exp)}`.
fn floatpower(req: &EvalRequest) -> Result<(u16, Vec<u8>), DepError> {
    let call = floatpower_call(&Deps { floatpower_url: "http://127.0.0.1:8090".to_string() }, req);
    let base = f64::from_bits(call.base);
    let exp = f64::from_bits(call.exp);
    Ok((200, json_object(vec![("result", serde_json::Value::from(base.powf(exp)))])))
}

fn result_of(response: &Response) -> f64 {
    match &response.body {
        Body::Exponent(e) => f64::from_bits(e.result),
        other => panic!("not an evaluation: {:?}", other),
    }
}

fn dependency_of(response: &Response) -> String {
    match &response.body {
        Body::Failure { dependency, .. } => dependency.clone(),
        other => panic!("not a failure: {:?}", other),
    }
}

fn exponent(base: f64, exp: f64) -> Response {
    let req = request(base, exp);
    evaluate(&req, floatpower(&req))
}

#[test]
fn exponent_2_10_is_1024() {
    let response = exponent(2.0, 10.0);
    assert_eq!(response.status, 200);
    match &response.body {
        Body::Exponent(e) => {
            assert_eq!(f64::from_bits(e.base), 2.0);
            assert_eq!(f64::from_bits(e.exp), 10.0);
        }
        other => panic!("not an evaluation: {:?}", other),
    }
    assert!((result_of(&response) - 1024.0).abs() < 1e-9);
}

#[test]
fn exponent_9_half_is_3() {
    let response = exponent(9.0, 0.5);
    assert_eq!(response.status, 200);
    assert!((result_of(&response) - 3.0).abs() < 1e-9);
}

#[test]
fn exponent_anything_to_zero_is_one() {
    let response = exponent(7.5, 0.0);
    assert_eq!(response.status, 200);
    assert!((result_of(&response) - 1.0).abs() < 1e-9);
}

#[test]
fn exponent_negative_exp_is_reciprocal_power() {
    let response = exponent(2.0, -2.0);
    assert_eq!(response.status, 200);
    assert!((result_of(&response) - 0.25).abs() < 1e-9);
}

#[test]
fn exponent_fractional_base_and_exp() {
    let response = exponent(2.5, 1.5);
    assert_eq!(response.status, 200);
    let expected = 2.5_f64.powf(1.5);
    assert!((result_of(&response) - expected).abs() < 1e-9);
}

#[test]
fn degrades_when_floatpower_unreachable() {
    let response = evaluate(&request(2.0, 10.0), Err(DepError::Unreachable));
    assert_eq!(response.status, 503);
    assert_eq!(dependency_of(&response), "srvcs-floatpower");
}

#[test]
fn forwards_422_from_floatpower() {
    let body = json_object(vec![("error", serde_json::Value::from("value is not a number"))]);
    let response = evaluate(&request(2.0, 10.0), Ok((422, body.clone())));
    assert_eq!(response.status, 422);
    assert_eq!(response.body, Body::Forwarded(body));
}

#[test]
fn malformed_floatpower_result_is_500() {
    let body = json_object(vec![("result", serde_json::Value::from("not-a-number"))]);
    let response = evaluate(&request(2.0, 10.0), Ok((200, body)));
    assert_eq!(response.status, 500);
    assert_eq!(dependency_of(&response), "srvcs-floatpower");
}

#[test]
fn missing_result_is_500() {
    let body = json_object(vec![("value", serde_json::Value::from(3.0))]);
    let response = evaluate(&request(2.0, 10.0), Ok((200, body)));
    assert_eq!(response, malformed("srvcs-floatpower"));
}

#[test]
fn body_that_is_no_json_is_500() {
    let response = evaluate(&request(2.0, 10.0), Ok((200, b"1024 or so".to_vec())));
    assert_eq!(response.status, 500);
    match &response.body {
        Body::Failure { error, .. } => assert_eq!(*error, "dependency returned a malformed result"),
        other => panic!("not a failure: {:?}", other),
    }
}

#[test]
fn integer_result_is_read_as_a_number() {
    let body = json_object(vec![("result", serde_json::Value::from(8))]);
    let response = evaluate(&request(2.0, 3.0), Ok((200, body)));
    assert_eq!(response, ok(2.0_f64.to_bits(), 3.0_f64.to_bits(), 8.0_f64.to_bits()));
}

#[test]
fn unexpected_dependency_status_degrades() {
    for status in [201u16, 400, 404, 500, 502, 503] {
        let body = json_object(vec![("result", serde_json::Value::from(1.0))]);
        let response = evaluate(&request(2.0, 10.0), Ok((status, body)));
        assert_eq!(response, degraded("srvcs-floatpower"));
    }
}

#[test]
fn degraded_body_names_error_and_dependency() {
    let response = degraded("srvcs-floatpower");
    assert_eq!(response.status, 503);
    assert_eq!(
        response.body,
        Body::Failure { error: "dependency unavailable", dependency: "srvcs-floatpower".to_string() }
    );
}

#[test]
fn malformed_body_names_error_and_dependency() {
    let response = malformed("srvcs-floatpower");
    assert_eq!(response.status, 500);
    assert_eq!(
        response.body,
        Body::Failure {
            error: "dependency returned a malformed result",
            dependency: "srvcs-floatpower".to_string(),
        }
    );
}

#[test]
fn forward_keeps_status_codes_and_maps_others_to_502() {
    assert_eq!(forward(422, vec![1, 2]).status, 422);
    assert_eq!(forward(100, vec![]).status, 100);
    assert_eq!(forward(999, vec![]).status, 999);
    assert_eq!(forward(99, vec![]).status, 502);
    assert_eq!(forward(1000, vec![]).status, 502);
    assert_eq!(forward(0, vec![7]).body, Body::Forwarded(vec![7]));
}

#[test]
fn ask_hands_on_a_200_body() {
    assert_eq!(ask(Ok((200, vec![1, 2, 3])), "dep"), Ok(vec![1, 2, 3]));
    assert_eq!(ask(Err(DepError::Unreachable), "dep"), Err(degraded("dep")));
    assert_eq!(ask(Ok((422, vec![9])), "dep"), Err(forward(422, vec![9])));
    assert_eq!(ask(Ok((404, vec![9])), "dep"), Err(degraded("dep")));
}

#[test]
fn call_carries_the_inputs_unchanged() {
    let deps = Deps { floatpower_url: "http://floatpower:8090".to_string() };
    let req = request(f64::NAN, -0.0);
    let call = floatpower_call(&deps, &req);
    assert_eq!(call.url, "http://floatpower:8090");
    assert_eq!(call.dependency, "srvcs-floatpower");
    assert_eq!(call.base, f64::NAN.to_bits());
    assert_eq!(call.exp, (-0.0_f64).to_bits());
}

#[test]
fn conclude_answers_the_result_or_500() {
    let req = request(2.0, 10.0);
    let answer = conclude(&req, Some(1024.0_f64.to_bits()));
    assert_eq!(answer.status, 200);
    assert_eq!(
        answer.body,
        Body::Exponent(ExponentResponse {
            base: 2.0_f64.to_bits(),
            exp: 10.0_f64.to_bits(),
            result: 1024.0_f64.to_bits(),
        })
    );
    assert_eq!(conclude(&req, None), malformed("srvcs-floatpower"));
}

#[test]
fn status_does_not_depend_on_the_inputs() {
    let outcomes: Vec<Result<(u16, Vec<u8>), DepError>> = vec![
        Err(DepError::Unreachable),
        Ok((200, json_object(vec![("result", serde_json::Value::from(4.0))]))),
        Ok((200, b"[]".to_vec())),
        Ok((422, b"{}".to_vec())),
        Ok((418, b"{}".to_vec())),
    ];
    for outcome in outcomes {
        let a = evaluate(&request(1.0, 2.0), outcome.clone());
        let b = evaluate(&request(-3.5, 1e300), outcome);
        assert_eq!(a.status, b.status);
    }
}

#[test]
fn every_answer_is_documented() {
    let routes = ApiDoc::routes();
    let post = routes.iter().find(|r| r.method == Method::Post && r.path == "/").unwrap();
    let documented: Vec<u16> = post.responses.iter().map(|r| r.status).collect();
    let outcomes: Vec<Result<(u16, Vec<u8>), DepError>> = vec![
        Err(DepError::Unreachable),
        Ok((200, json_object(vec![("result", serde_json::Value::from(4.0))]))),
        Ok((200, b"null".to_vec())),
        Ok((422, b"{}".to_vec())),
        Ok((301, b"{}".to_vec())),
    ];
    for outcome in outcomes {
        let answer = evaluate(&request(2.0, 2.0), outcome);
        assert!(documented.contains(&answer.status));
    }
}

#[test]
fn evaluation_makes_one_call_then_answers() {
    let deps = Deps { floatpower_url: "http://127.0.0.1:8090".to_string() };
    let req = request(2.0, 10.0);
    let call = match next_step(&deps, &req, Event::Start) {
        Step::Call(call) => call,
        Step::Reply(answer) => panic!("answered before calling: {:?}", answer),
    };
    assert_eq!(call.url, "http://127.0.0.1:8090");
    assert_eq!(call.dependency, "srvcs-floatpower");
    assert_eq!((call.base, call.exp), (req.base, req.exp));
    let outcomes: Vec<Result<(u16, Vec<u8>), DepError>> =
        vec![floatpower(&req), Err(DepError::Unreachable), Ok((422, b"{}".to_vec()))];
    for outcome in outcomes {
        match next_step(&deps, &req, Event::Outcome(outcome.clone())) {
            Step::Reply(answer) => assert_eq!(answer, evaluate(&req, outcome)),
            Step::Call(_) => panic!("a second call"),
        }
    }
}
