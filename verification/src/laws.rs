//! What holds of every evaluation, whatever the request and whatever the
//! dependency answers.
use vstd::prelude::*;

use crate::apidoc::{
    api_routes, api_schemas, documents_status, json_body, lemma_responses_map_statuses,
    lemma_routes_contents, responses_map, routes_map, schema_parts, schemas_map, ResponseDocView,
    SchemaDocView, EVAL_REQUEST_SCHEMA, EXPONENT_RESPONSE_SCHEMA, INFO_SCHEMA, JSON_MEDIA_TYPE,
    OK_DESCRIPTION, ROOT, REJECTED_DESCRIPTION, MALFORMED_DESCRIPTION, UNAVAILABLE_DESCRIPTION,
    fields_map, field_names, FieldDocView, FieldKind,
};
use crate::openapi::{ListedResponse, SchemaParts};
use crate::evaluate::{evaluate_view, DepError, EvalRequest, RESULT_FIELD};
use crate::identity::FLOATPOWER;
use crate::http::{answer_view, is_break_at, is_first_break, is_first_space, is_status_at, status_value};
use crate::json::json_number_at;
use crate::openapi::Method;
use crate::reply::{
    degraded_view, malformed_view, BodyView, ResponseView, STATUS_INTERNAL_ERROR, STATUS_OK,
    STATUS_UNAVAILABLE, STATUS_UNPROCESSABLE,
};

verus! {

/// An unreachable `srvcs-floatpower` degrades the service: `503`, naming it.
pub proof fn law_unreachable_degrades(req: EvalRequest)
    ensures
        evaluate_view(req, Err(DepError::Unreachable)) == degraded_view(FLOATPOWER@),
{
}

/// Validation propagates from the dependency: its `422` is answered with
/// status `422` and its body, unchanged.
pub proof fn law_rejection_is_forwarded(req: EvalRequest, body: Seq<u8>)
    ensures
        evaluate_view(req, Ok((STATUS_UNPROCESSABLE, body)))
            == (ResponseView { status: STATUS_UNPROCESSABLE, body: BodyView::Forwarded(body) }),
{
}

/// Any dependency status other than `200` and `422` degrades the service.
pub proof fn law_unexpected_status_degrades(req: EvalRequest, status: u16, body: Seq<u8>)
    requires
        status != STATUS_OK,
        status != STATUS_UNPROCESSABLE,
    ensures
        evaluate_view(req, Ok((status, body))) == degraded_view(FLOATPOWER@),
{
}

/// A `200` whose body holds no numeric `result` is answered with `500`,
/// naming the dependency.
pub proof fn law_malformed_result_is_500(req: EvalRequest, body: Seq<u8>)
    requires
        json_number_at(body, RESULT_FIELD@) is None,
    ensures
        evaluate_view(req, Ok((STATUS_OK, body))) == malformed_view(FLOATPOWER@),
{
}

/// The service succeeds exactly when the dependency answers `200` with a
/// numeric `result`; it then answers the request's `base` and `exp` as given
/// and the dependency's `result` as read.
pub proof fn law_success_is_the_dependency_result(
    req: EvalRequest,
    outcome: Result<(u16, Seq<u8>), DepError>,
)
    ensures
        (evaluate_view(req, outcome).status == STATUS_OK) <==> (outcome matches Ok((status, body))
            && status == STATUS_OK && json_number_at(body, RESULT_FIELD@) is Some),
        match outcome {
            Ok((status, body)) => status == STATUS_OK && json_number_at(body, RESULT_FIELD@) is Some
                ==> evaluate_view(req, outcome) == (ResponseView {
                status: STATUS_OK,
                body: BodyView::Exponent {
                    base: req.base,
                    exp: req.exp,
                    result: json_number_at(body, RESULT_FIELD@).unwrap(),
                },
            }),
            Err(_) => true,
        },
{
}

/// The service validates nothing itself: which answer it gives depends on
/// the dependency's outcome alone, never on the request's numbers.
pub proof fn law_status_ignores_inputs(
    a: EvalRequest,
    b: EvalRequest,
    outcome: Result<(u16, Seq<u8>), DepError>,
)
    ensures
        evaluate_view(a, outcome).status == evaluate_view(b, outcome).status,
{
}

/// Every answer that evaluation gives is one that the served API document
/// lists for `POST /`.
pub proof fn law_answers_are_documented(req: EvalRequest, outcome: Result<(u16, Seq<u8>), DepError>)
    ensures
        documents_status(ROOT@, Method::Post, evaluate_view(req, outcome).status),
{
    let status = evaluate_view(req, outcome).status;
    let post = api_routes()[1];
    lemma_routes_contents();
    lemma_responses_map_statuses(post.responses, status);
    if status == STATUS_OK {
        assert(post.responses[0].status == status);
    } else if status == STATUS_UNPROCESSABLE {
        assert(post.responses[1].status == status);
    } else if status == STATUS_INTERNAL_ERROR {
        assert(post.responses[2].status == status);
    } else {
        assert(post.responses[3].status == status);
    }
}

/// The served API document lists, for `GET /`, the answer `200` with an
/// `Info` body; for `POST /`, a required `EvalRequest` body and exactly the
/// answers `200` (with an `ExponentResponse` body), `422`, `500` and `503`;
/// and the schemas `Info`, `EvalRequest` and `ExponentResponse`.
pub proof fn law_document_lists_the_api()
    ensures
        routes_map(api_routes())[(ROOT@, Method::Get)].4[STATUS_OK]
            == (OK_DESCRIPTION@, Some((JSON_MEDIA_TYPE@, INFO_SCHEMA@))),
        routes_map(api_routes())[(ROOT@, Method::Post)].3 == Some((JSON_MEDIA_TYPE@, EVAL_REQUEST_SCHEMA@, true)),
        routes_map(api_routes())[(ROOT@, Method::Post)].4.dom() == set![
            STATUS_OK,
            STATUS_UNPROCESSABLE,
            STATUS_INTERNAL_ERROR,
            STATUS_UNAVAILABLE,
        ],
        routes_map(api_routes())[(ROOT@, Method::Post)].4[STATUS_OK]
            == (OK_DESCRIPTION@, Some((JSON_MEDIA_TYPE@, EXPONENT_RESPONSE_SCHEMA@))),
        schemas_map(api_schemas()).dom() == set![INFO_SCHEMA@, EVAL_REQUEST_SCHEMA@, EXPONENT_RESPONSE_SCHEMA@],
{
    lemma_routes_contents();
    let get = api_routes()[0].responses;
    assert(get.drop_last() =~= Seq::<ResponseDocView>::empty());
    assert(responses_map(get) == responses_map(get.drop_last()).insert(get.last().status, (get.last().description, json_body(get.last().schema))));
    let post = api_routes()[1].responses;
    let p3 = post.drop_last();
    let p2 = p3.drop_last();
    let p1 = p2.drop_last();
    assert(p1.drop_last() =~= Seq::<ResponseDocView>::empty());
    assert(p1.last() == post[0]);
    assert(p2.last() == post[1]);
    assert(p3.last() == post[2]);
    assert(responses_map(p1.drop_last()) == Map::<u16, ListedResponse>::empty());
    assert(responses_map(p1) == responses_map(p1.drop_last()).insert(post[0].status, (post[0].description, json_body(post[0].schema))));
    assert(responses_map(p2) == responses_map(p1).insert(post[1].status, (post[1].description, json_body(post[1].schema))));
    assert(responses_map(p3) == responses_map(p2).insert(post[2].status, (post[2].description, json_body(post[2].schema))));
    assert(responses_map(post) == responses_map(p3).insert(post[3].status, (post[3].description, json_body(post[3].schema))));
    assert(responses_map(post).dom() =~= set![STATUS_OK, STATUS_UNPROCESSABLE, STATUS_INTERNAL_ERROR, STATUS_UNAVAILABLE]);
    let schemas = api_schemas();
    let s2 = schemas.drop_last();
    let s1 = s2.drop_last();
    assert(s1.drop_last() =~= Seq::<SchemaDocView>::empty());
    assert(s1.last() == schemas[0]);
    assert(s2.last() == schemas[1]);
    assert(schemas_map(s1.drop_last()) == Map::<Seq<char>, SchemaParts>::empty());
    assert(schemas_map(s1) == schemas_map(s1.drop_last()).insert(schemas[0].name, schema_parts(schemas[0])));
    assert(schemas_map(s2) == schemas_map(s1).insert(schemas[1].name, schema_parts(schemas[1])));
    assert(schemas_map(schemas) == schemas_map(s2).insert(schemas[2].name, schema_parts(schemas[2])));
    assert(schemas_map(schemas).dom() =~= set![INFO_SCHEMA@, EVAL_REQUEST_SCHEMA@, EXPONENT_RESPONSE_SCHEMA@]);
}


/// The responses that the served API document lists for `GET /` and for
/// `POST /`, each with its description and, where it has one, its JSON body.
proof fn lemma_listed_responses()
    ensures
        routes_map(api_routes())[(ROOT@, Method::Get)].4 == map![
            STATUS_OK => (OK_DESCRIPTION@, Some((JSON_MEDIA_TYPE@, INFO_SCHEMA@))),
        ],
        routes_map(api_routes())[(ROOT@, Method::Post)].4 == map![
            STATUS_OK => (OK_DESCRIPTION@, Some((JSON_MEDIA_TYPE@, EXPONENT_RESPONSE_SCHEMA@))),
            STATUS_UNPROCESSABLE => (REJECTED_DESCRIPTION@, None),
            STATUS_INTERNAL_ERROR => (MALFORMED_DESCRIPTION@, None),
            STATUS_UNAVAILABLE => (UNAVAILABLE_DESCRIPTION@, None),
        ],
{
    lemma_routes_contents();
    let get = api_routes()[0].responses;
    assert(get.drop_last() =~= Seq::<ResponseDocView>::empty());
    assert(responses_map(get.drop_last()) == Map::<u16, ListedResponse>::empty());
    assert(responses_map(get) == responses_map(get.drop_last()).insert(get.last().status, (get.last().description, json_body(get.last().schema))));
    let post = api_routes()[1].responses;
    let p3 = post.drop_last();
    let p2 = p3.drop_last();
    let p1 = p2.drop_last();
    assert(p1.drop_last() =~= Seq::<ResponseDocView>::empty());
    assert(p1.last() == post[0]);
    assert(p2.last() == post[1]);
    assert(p3.last() == post[2]);
    assert(responses_map(p1.drop_last()) == Map::<u16, ListedResponse>::empty());
    assert(responses_map(p1) == responses_map(p1.drop_last()).insert(post[0].status, (post[0].description, json_body(post[0].schema))));
    assert(responses_map(p2) == responses_map(p1).insert(post[1].status, (post[1].description, json_body(post[1].schema))));
    assert(responses_map(p3) == responses_map(p2).insert(post[2].status, (post[2].description, json_body(post[2].schema))));
    assert(responses_map(post) == responses_map(p3).insert(post[3].status, (post[3].description, json_body(post[3].schema))));
    assert(responses_map(get) =~= map![
        STATUS_OK => (OK_DESCRIPTION@, Some((JSON_MEDIA_TYPE@, INFO_SCHEMA@))),
    ]);
    assert(responses_map(post) =~= map![
        STATUS_OK => (OK_DESCRIPTION@, Some((JSON_MEDIA_TYPE@, EXPONENT_RESPONSE_SCHEMA@))),
        STATUS_UNPROCESSABLE => (REJECTED_DESCRIPTION@, None),
        STATUS_INTERNAL_ERROR => (MALFORMED_DESCRIPTION@, None),
        STATUS_UNAVAILABLE => (UNAVAILABLE_DESCRIPTION@, None),
    ]);
}

/// Each answer of `POST /` is documented with the body that it carries: the
/// `ExponentResponse` schema exactly for an evaluation, and no schema for an
/// error (`{"error", "dependency"}`) or a forwarded rejection. The `GET /`
/// answer is documented with the `Info` schema. Every description is the
/// one that the API gives for that status.
pub proof fn law_documented_bodies_match_answers(req: EvalRequest, outcome: Result<(u16, Seq<u8>), DepError>)
    ensures
        ({
            let answer = evaluate_view(req, outcome);
            let listed = routes_map(api_routes())[(ROOT@, Method::Post)].4[answer.status];
            &&& (answer.body is Exponent) ==> listed.1 == Some((JSON_MEDIA_TYPE@, EXPONENT_RESPONSE_SCHEMA@))
            &&& !(answer.body is Exponent) ==> listed.1 is None
        }),
        routes_map(api_routes())[(ROOT@, Method::Get)].4 == map![
            STATUS_OK => (OK_DESCRIPTION@, Some((JSON_MEDIA_TYPE@, INFO_SCHEMA@))),
        ],
        routes_map(api_routes())[(ROOT@, Method::Post)].4 == map![
            STATUS_OK => (OK_DESCRIPTION@, Some((JSON_MEDIA_TYPE@, EXPONENT_RESPONSE_SCHEMA@))),
            STATUS_UNPROCESSABLE => (REJECTED_DESCRIPTION@, None),
            STATUS_INTERNAL_ERROR => (MALFORMED_DESCRIPTION@, None),
            STATUS_UNAVAILABLE => (UNAVAILABLE_DESCRIPTION@, None),
        ],
{
    lemma_listed_responses();
}

/// The properties, with their kinds, and the required names of the fields
/// `fields` when they are two.
proof fn lemma_two_fields(a: FieldDocView, b: FieldDocView)
    ensures
        schema_parts(SchemaDocView { name: Seq::empty(), fields: seq![a, b] }).0 == map![a.name => a.kind, b.name => b.kind],
        schema_parts(SchemaDocView { name: Seq::empty(), fields: seq![a, b] }).1 == seq![a.name, b.name],
{
    let f = seq![a, b];
    assert(f.drop_last() =~= seq![a]);
    assert(f.drop_last().drop_last() =~= Seq::<FieldDocView>::empty());
    assert(fields_map(f.drop_last().drop_last()) == Map::<Seq<char>, FieldKind>::empty());
    assert(fields_map(f.drop_last()) == fields_map(f.drop_last().drop_last()).insert(a.name, a.kind));
    assert(fields_map(f) == fields_map(f.drop_last()).insert(b.name, b.kind));
    assert(fields_map(f) =~= map![a.name => a.kind, b.name => b.kind]);
    assert(field_names(f) =~= seq![a.name, b.name]);
}

/// The same for three fields.
proof fn lemma_three_fields(a: FieldDocView, b: FieldDocView, c: FieldDocView)
    ensures
        schema_parts(SchemaDocView { name: Seq::empty(), fields: seq![a, b, c] }).0
            == map![a.name => a.kind, b.name => b.kind, c.name => c.kind],
        schema_parts(SchemaDocView { name: Seq::empty(), fields: seq![a, b, c] }).1 == seq![a.name, b.name, c.name],
{
    let f = seq![a, b, c];
    lemma_two_fields(a, b);
    assert(f.drop_last() =~= seq![a, b]);
    assert(fields_map(f) == fields_map(f.drop_last()).insert(c.name, c.kind));
    assert(fields_map(f) =~= map![a.name => a.kind, b.name => b.kind, c.name => c.kind]);
    assert(field_names(f) =~= seq![a.name, b.name, c.name]);
}

/// The schemas of the served API document: `Info` holds the strings
/// `service` and `concern` and the string array `depends_on`; `EvalRequest`
/// the numbers `base` and `exp`; `ExponentResponse` the numbers `base`, `exp`
/// and `result`; every field required, in that order. So every number that
/// the API takes or gives is documented as a number.
pub proof fn law_document_schemas()
    ensures
        schemas_map(api_schemas()) == map![
            INFO_SCHEMA@ => (
                map!["service"@ => FieldKind::Text, "concern"@ => FieldKind::Text, "depends_on"@ => FieldKind::TextList],
                seq!["service"@, "concern"@, "depends_on"@],
            ),
            EVAL_REQUEST_SCHEMA@ => (
                map!["base"@ => FieldKind::Number, "exp"@ => FieldKind::Number],
                seq!["base"@, "exp"@],
            ),
            EXPONENT_RESPONSE_SCHEMA@ => (
                map!["base"@ => FieldKind::Number, "exp"@ => FieldKind::Number, "result"@ => FieldKind::Number],
                seq!["base"@, "exp"@, "result"@],
            ),
        ],
{
    let schemas = api_schemas();
    lemma_three_fields(schemas[0].fields[0], schemas[0].fields[1], schemas[0].fields[2]);
    lemma_two_fields(schemas[1].fields[0], schemas[1].fields[1]);
    lemma_three_fields(schemas[2].fields[0], schemas[2].fields[1], schemas[2].fields[2]);
    assert(schemas[0].fields =~= seq![schemas[0].fields[0], schemas[0].fields[1], schemas[0].fields[2]]);
    assert(schemas[1].fields =~= seq![schemas[1].fields[0], schemas[1].fields[1]]);
    assert(schemas[2].fields =~= seq![schemas[2].fields[0], schemas[2].fields[1], schemas[2].fields[2]]);
    let s2 = schemas.drop_last();
    let s1 = s2.drop_last();
    assert(s1.drop_last() =~= Seq::<SchemaDocView>::empty());
    assert(s1.last() == schemas[0]);
    assert(s2.last() == schemas[1]);
    assert(schemas_map(s1.drop_last()) == Map::<Seq<char>, SchemaParts>::empty());
    assert(schemas_map(s1) == schemas_map(s1.drop_last()).insert(schemas[0].name, schema_parts(schemas[0])));
    assert(schemas_map(s2) == schemas_map(s1).insert(schemas[1].name, schema_parts(schemas[1])));
    assert(schemas_map(schemas) == schemas_map(s2).insert(schemas[2].name, schema_parts(schemas[2])));
    assert(schemas_map(schemas) =~= map![
        INFO_SCHEMA@ => (
            map!["service"@ => FieldKind::Text, "concern"@ => FieldKind::Text, "depends_on"@ => FieldKind::TextList],
            seq!["service"@, "concern"@, "depends_on"@],
        ),
        EVAL_REQUEST_SCHEMA@ => (
            map!["base"@ => FieldKind::Number, "exp"@ => FieldKind::Number],
            seq!["base"@, "exp"@],
        ),
        EXPONENT_RESPONSE_SCHEMA@ => (
            map!["base"@ => FieldKind::Number, "exp"@ => FieldKind::Number, "result"@ => FieldKind::Number],
            seq!["base"@, "exp"@, "result"@],
        ),
    ]);
}


/// The bytes `HTTP/1.1 ` that begin a status line.
pub open spec fn http11_prefix() -> Seq<u8> {
    seq![72u8, 84u8, 84u8, 80u8, 47u8, 49u8, 46u8, 49u8, 32u8]
}

/// The three decimal digits that write `status`, most significant first.
pub open spec fn status_digits(status: u16) -> Seq<u8> {
    seq![(48 + status / 100) as u8, (48 + (status / 10) % 10) as u8, (48 + status % 10) as u8]
}

/// An HTTP/1.1 answer with status `status`, reason phrase `reason`, no
/// header and body `body`.
pub open spec fn http11_answer(status: u16, reason: Seq<u8>, body: Seq<u8>) -> Seq<u8> {
    http11_prefix() + status_digits(status) + seq![32u8] + reason + seq![13u8, 10u8, 13u8, 10u8] + body
}

/// Reading an answer gives back the status code that its status line
/// writes, whatever the code, and the body after the blank line, whatever
/// the body holds: for every code from `100` to `999`, every reason phrase
/// without a carriage return, and every body.
pub proof fn law_answer_reads_back_status_and_body(status: u16, reason: Seq<u8>, body: Seq<u8>)
    requires
        100 <= status <= 999,
        forall|j: int| 0 <= j < reason.len() ==> #[trigger] reason[j] != 13,
    ensures
        answer_view(http11_answer(status, reason, body)) == Some((status, body)),
{
    let raw = http11_answer(status, reason, body);
    let n = reason.len() as int;
    let brk = 13 + n;
    let d = status_digits(status);
    assert(0 <= status / 100 <= 9);
    assert(0 <= (status / 10) % 10 <= 9);
    assert(0 <= status % 10 <= 9);
    assert(raw.len() == brk + 4 + body.len());
    assert forall|j: int| 0 <= j < 9 implies raw[j] == #[trigger] http11_prefix()[j] by {}
    assert forall|j: int| 9 <= j < 12 implies raw[j] == #[trigger] d[j - 9] by {}
    assert(raw[12] == 32u8);
    assert forall|j: int| 13 <= j < brk implies raw[j] == #[trigger] reason[j - 13] by {}
    assert(raw[brk] == 13u8 && raw[brk + 1] == 10u8 && raw[brk + 2] == 13u8 && raw[brk + 3] == 10u8);
    assert forall|j: int| 0 <= j < body.len() implies raw[brk + 4 + j] == #[trigger] body[j] by {}
    // The first blank line starts right after the reason phrase.
    assert forall|j: int| 0 <= j < brk implies #[trigger] raw[j] != 13 by {
        if j < 9 {
            assert(raw[j] == http11_prefix()[j]);
        } else if j < 12 {
            assert(raw[j] == d[j - 9]);
        } else if j == 12 {
        } else {
            assert(raw[j] == reason[j - 13]);
        }
    }
    assert(is_break_at(raw, brk));
    assert(is_first_break(raw, brk)) by {
        assert forall|j: int| 0 <= j < brk implies !#[trigger] is_break_at(raw, j) by {
            assert(raw[j] != 13);
        }
    }
    assert forall|k: int| #[trigger] is_first_break(raw, k) implies k == brk by {
        if k < brk {
            assert(raw[k] != 13);
        } else if k > brk {
            assert(is_break_at(raw, brk));
        }
    }
    // The first space is the one after the version.
    assert(is_first_space(raw, 8)) by {
        assert forall|j: int| 0 <= j < 8 implies #[trigger] raw[j] != 32 by {
            assert(raw[j] == http11_prefix()[j]);
        }
    }
    assert forall|q: int| #[trigger] is_first_space(raw, q) implies q == 8 by {
        if q > 8 {
            assert(raw[8] != 32);
        } else if q < 8 {
            assert(raw[q] == http11_prefix()[q]);
        }
    }
    assert(is_status_at(raw, 8));
    assert(status_value(raw, 8) == status) by {
        assert(raw[9] == d[0] && raw[10] == d[1] && raw[11] == d[2]);
        let s = status as int;
        assert(s == (s / 100) * 100 + ((s / 10) % 10) * 10 + s % 10) by (nonlinear_arith)
            requires 0 <= s;
    }
    assert(raw.subrange(brk + 4, raw.len() as int) =~= body);
}

} // verus!
