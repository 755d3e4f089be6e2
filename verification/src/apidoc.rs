use vstd::prelude::*;

use crate::identity::SERVICE;
use crate::openapi::{
    add_body_response, add_component_schema, add_get_operation, add_number_property,
    add_post_operation, add_response, add_text_list_property, add_text_property, document,
    required_request_body, new_components, new_object, new_paths, new_responses, object_schema, document_operations, document_schemas, document_info, OperationParts, listed_responses,
    operation_parts, object_fields, schema_fields, component_schemas, ListedResponse,
    operation, path_operations, Method,
};
use crate::reply::{STATUS_INTERNAL_ERROR, STATUS_OK, STATUS_UNAVAILABLE, STATUS_UNPROCESSABLE};
use utoipa::openapi::path::{Operation, Paths};
use utoipa::openapi::request_body::RequestBody;
use utoipa::openapi::schema::{ComponentsBuilder, ObjectBuilder, Schema};
use utoipa::openapi::{OpenApi, ResponsesBuilder};

verus! {

/// Version of the API that the document describes.
pub const API_VERSION: &'static str = "0.1.0";

/// The media type of every documented body.
pub const JSON_MEDIA_TYPE: &'static str = "application/json";

/// The path that both operations are served on.
pub const ROOT: &'static str = "/";

pub const INFO_SCHEMA: &'static str = "Info";
pub const EVAL_REQUEST_SCHEMA: &'static str = "EvalRequest";
pub const EXPONENT_RESPONSE_SCHEMA: &'static str = "ExponentResponse";

pub const INDEX_ID: &'static str = "index";
pub const INDEX_SUMMARY: &'static str = "`GET /` — service identity (srvcs service standard).";
pub const EVALUATE_ID: &'static str = "evaluate";
pub const EVALUATE_SUMMARY: &'static str = "`POST /` — compute `base ^ exp` (real exponentiation) by delegating to\n`srvcs-floatpower`.";
pub const EVALUATE_DESCRIPTION: &'static str = "This service owns the *control flow* but delegates the arithmetic to its\ndependency, exactly as specified:\n\n1. ask `srvcs-floatpower` for `result = base.powf(exp)`.\n\nIf the dependency is unreachable it reports itself degraded (`503`); if the\ndependency rejects the input it forwards the `422`. Validation propagates\nfrom the dependency — this orchestrator does not validate inputs itself.";

pub const OK_DESCRIPTION: &'static str = "";
pub const REJECTED_DESCRIPTION: &'static str = "a dependency rejected the input (forwarded)";
pub const MALFORMED_DESCRIPTION: &'static str = "a dependency returned a malformed result";
pub const UNAVAILABLE_DESCRIPTION: &'static str = "a dependency is unavailable";

/// What the value of a documented field is.
#[derive(Clone, Copy, Debug, PartialEq, Eq, Structural)]
pub enum FieldKind {
    /// A string.
    Text,
    /// A binary64 number.
    Number,
    /// An array of strings.
    TextList,
}

/// A documented answer of an operation.
#[derive(Clone, Copy, Debug, PartialEq, Eq)]
pub struct ResponseDoc {
    pub status: u16,
    pub description: &'static str,
    /// The schema of the JSON body, where the answer documents one.
    pub schema: Option<&'static str>,
}

/// A documented operation.
#[derive(Clone, Debug, PartialEq, Eq)]
pub struct RouteDoc {
    pub path: &'static str,
    pub method: Method,
    pub operation_id: &'static str,
    pub summary: &'static str,
    pub description: Option<&'static str>,
    /// The schema of the JSON request body, where the operation takes one.
    pub request_schema: Option<&'static str>,
    pub responses: Vec<ResponseDoc>,
}

/// A documented field of a schema.
#[derive(Clone, Copy, Debug, PartialEq, Eq)]
pub struct FieldDoc {
    pub name: &'static str,
    pub kind: FieldKind,
}

/// A documented object schema; every field is required.
#[derive(Clone, Debug, PartialEq, Eq)]
pub struct SchemaDoc {
    pub name: &'static str,
    pub fields: Vec<FieldDoc>,
}

pub struct ResponseDocView {
    pub status: u16,
    pub description: Seq<char>,
    pub schema: Option<Seq<char>>,
}

pub struct RouteDocView {
    pub path: Seq<char>,
    pub method: Method,
    pub operation_id: Seq<char>,
    pub summary: Seq<char>,
    pub description: Option<Seq<char>>,
    pub request_schema: Option<Seq<char>>,
    pub responses: Seq<ResponseDocView>,
}

pub struct FieldDocView {
    pub name: Seq<char>,
    pub kind: FieldKind,
}

pub struct SchemaDocView {
    pub name: Seq<char>,
    pub fields: Seq<FieldDocView>,
}

pub open spec fn opt_text_view(s: Option<&'static str>) -> Option<Seq<char>> {
    match s {
        Some(t) => Some(t@),
        None => None,
    }
}

impl View for ResponseDoc {
    type V = ResponseDocView;

    open spec fn view(&self) -> ResponseDocView {
        ResponseDocView {
            status: self.status,
            description: self.description@,
            schema: opt_text_view(self.schema),
        }
    }
}

impl View for RouteDoc {
    type V = RouteDocView;

    open spec fn view(&self) -> RouteDocView {
        RouteDocView {
            path: self.path@,
            method: self.method,
            operation_id: self.operation_id@,
            summary: self.summary@,
            description: opt_text_view(self.description),
            request_schema: opt_text_view(self.request_schema),
            responses: self.responses@.map_values(|r: ResponseDoc| r@),
        }
    }
}

impl View for FieldDoc {
    type V = FieldDocView;

    open spec fn view(&self) -> FieldDocView {
        FieldDocView { name: self.name@, kind: self.kind }
    }
}

impl View for SchemaDoc {
    type V = SchemaDocView;

    open spec fn view(&self) -> SchemaDocView {
        SchemaDocView { name: self.name@, fields: self.fields@.map_values(|f: FieldDoc| f@) }
    }
}

pub open spec fn response_doc(status: u16, description: Seq<char>, schema: Option<Seq<char>>) -> ResponseDocView {
    ResponseDocView { status, description, schema }
}

/// The operations of the API: `GET /` answers the identity; `POST /`
/// evaluates, and answers `200`, `422`, `500` or `503`.
pub open spec fn api_routes() -> Seq<RouteDocView> {
    seq![
        RouteDocView {
            path: ROOT@,
            method: Method::Get,
            operation_id: INDEX_ID@,
            summary: INDEX_SUMMARY@,
            description: None,
            request_schema: None,
            responses: seq![response_doc(STATUS_OK, OK_DESCRIPTION@, Some(INFO_SCHEMA@))],
        },
        RouteDocView {
            path: ROOT@,
            method: Method::Post,
            operation_id: EVALUATE_ID@,
            summary: EVALUATE_SUMMARY@,
            description: Some(EVALUATE_DESCRIPTION@),
            request_schema: Some(EVAL_REQUEST_SCHEMA@),
            responses: seq![
                response_doc(STATUS_OK, OK_DESCRIPTION@, Some(EXPONENT_RESPONSE_SCHEMA@)),
                response_doc(STATUS_UNPROCESSABLE, REJECTED_DESCRIPTION@, None),
                response_doc(STATUS_INTERNAL_ERROR, MALFORMED_DESCRIPTION@, None),
                response_doc(STATUS_UNAVAILABLE, UNAVAILABLE_DESCRIPTION@, None),
            ],
        },
    ]
}

pub open spec fn field_doc(name: Seq<char>, kind: FieldKind) -> FieldDocView {
    FieldDocView { name, kind }
}

/// The schemas of the API's bodies.
pub open spec fn api_schemas() -> Seq<SchemaDocView> {
    seq![
        SchemaDocView {
            name: INFO_SCHEMA@,
            fields: seq![
                field_doc("service"@, FieldKind::Text),
                field_doc("concern"@, FieldKind::Text),
                field_doc("depends_on"@, FieldKind::TextList),
            ],
        },
        SchemaDocView {
            name: EVAL_REQUEST_SCHEMA@,
            fields: seq![field_doc("base"@, FieldKind::Number), field_doc("exp"@, FieldKind::Number)],
        },
        SchemaDocView {
            name: EXPONENT_RESPONSE_SCHEMA@,
            fields: seq![
                field_doc("base"@, FieldKind::Number),
                field_doc("exp"@, FieldKind::Number),
                field_doc("result"@, FieldKind::Number),
            ],
        },
    ]
}

/// Whether the API document lists the answer `status` for `method` on `path`.
pub open spec fn documents_status(path: Seq<char>, method: Method, status: u16) -> bool {
    &&& routes_map(api_routes()).dom().contains((path, method))
    &&& routes_map(api_routes())[(path, method)].4.dom().contains(status)
}

/// The documented routes map `GET /` to the first documented operation and
/// `POST /` to the second, and list nothing else.
pub proof fn lemma_routes_contents()
    ensures
        routes_map(api_routes()) == map![
            (ROOT@, Method::Get) => operation_view(api_routes()[0]),
            (ROOT@, Method::Post) => operation_view(api_routes()[1]),
        ],
        routes_map(api_routes()).dom() == set![(ROOT@, Method::Get), (ROOT@, Method::Post)],
{
    let routes = api_routes();
    let first = routes.drop_last();
    assert(first.drop_last() =~= Seq::<RouteDocView>::empty());
    assert(first.last() == routes[0]);
    assert(routes_map(first.drop_last()) == Map::<(Seq<char>, Method), OperationParts>::empty());
    assert(routes_map(first) == routes_map(first.drop_last()).insert((routes[0].path, routes[0].method), operation_view(routes[0])));
    assert(routes_map(routes) == routes_map(first).insert((routes[1].path, routes[1].method), operation_view(routes[1])));
    assert(routes_map(routes) =~= map![
        (ROOT@, Method::Get) => operation_view(routes[0]),
        (ROOT@, Method::Post) => operation_view(routes[1]),
    ]);
    assert(routes_map(routes).dom() =~= set![(ROOT@, Method::Get), (ROOT@, Method::Post)]);
}

/// A status is listed among the responses that `docs` document exactly when
/// one of them is for that status.
pub proof fn lemma_responses_map_statuses(docs: Seq<ResponseDocView>, status: u16)
    ensures
        responses_map(docs).dom().contains(status) <==> exists|i: int| 0 <= i < docs.len() && #[trigger] docs[i].status == status,
    decreases docs.len(),
{
    if docs.len() > 0 {
        let rest = docs.drop_last();
        lemma_responses_map_statuses(rest, status);
        if responses_map(docs).dom().contains(status) {
            if status != docs.last().status {
                let i = choose|i: int| 0 <= i < rest.len() && #[trigger] rest[i].status == status;
                assert(docs[i].status == status);
            } else {
                assert(docs[docs.len() - 1].status == status);
            }
        }
        if exists|i: int| 0 <= i < docs.len() && #[trigger] docs[i].status == status {
            let i = choose|i: int| 0 <= i < docs.len() && #[trigger] docs[i].status == status;
            if i < docs.len() - 1 {
                assert(rest[i].status == status);
            }
        }
    }
}

/// The API's OpenAPI document.
pub struct ApiDoc;

impl ApiDoc {
    /// The documented operations, in order.
    pub fn routes() -> (routes: Vec<RouteDoc>)
        ensures
            routes@.map_values(|r: RouteDoc| r@) == api_routes(),
    {
        let mut index_responses: Vec<ResponseDoc> = Vec::new();
        index_responses.push(ResponseDoc { status: STATUS_OK, description: OK_DESCRIPTION, schema: Some(INFO_SCHEMA) });
        let mut evaluate_responses: Vec<ResponseDoc> = Vec::new();
        evaluate_responses.push(ResponseDoc { status: STATUS_OK, description: OK_DESCRIPTION, schema: Some(EXPONENT_RESPONSE_SCHEMA) });
        evaluate_responses.push(ResponseDoc { status: STATUS_UNPROCESSABLE, description: REJECTED_DESCRIPTION, schema: None });
        evaluate_responses.push(ResponseDoc { status: STATUS_INTERNAL_ERROR, description: MALFORMED_DESCRIPTION, schema: None });
        evaluate_responses.push(ResponseDoc { status: STATUS_UNAVAILABLE, description: UNAVAILABLE_DESCRIPTION, schema: None });
        let mut routes: Vec<RouteDoc> = Vec::new();
        routes.push(RouteDoc {
            path: ROOT,
            method: Method::Get,
            operation_id: INDEX_ID,
            summary: INDEX_SUMMARY,
            description: None,
            request_schema: None,
            responses: index_responses,
        });
        routes.push(RouteDoc {
            path: ROOT,
            method: Method::Post,
            operation_id: EVALUATE_ID,
            summary: EVALUATE_SUMMARY,
            description: Some(EVALUATE_DESCRIPTION),
            request_schema: Some(EVAL_REQUEST_SCHEMA),
            responses: evaluate_responses,
        });
        assert(routes@[0]@.responses =~= api_routes()[0].responses);
        assert(routes@[1]@.responses =~= api_routes()[1].responses);
        assert(routes@.map_values(|r: RouteDoc| r@) =~= api_routes());
        routes
    }

    /// The documented schemas, in order.
    pub fn schemas() -> (schemas: Vec<SchemaDoc>)
        ensures
            schemas@.map_values(|s: SchemaDoc| s@) == api_schemas(),
    {
        let mut info: Vec<FieldDoc> = Vec::new();
        info.push(FieldDoc { name: "service", kind: FieldKind::Text });
        info.push(FieldDoc { name: "concern", kind: FieldKind::Text });
        info.push(FieldDoc { name: "depends_on", kind: FieldKind::TextList });
        let mut request: Vec<FieldDoc> = Vec::new();
        request.push(FieldDoc { name: "base", kind: FieldKind::Number });
        request.push(FieldDoc { name: "exp", kind: FieldKind::Number });
        let mut response: Vec<FieldDoc> = Vec::new();
        response.push(FieldDoc { name: "base", kind: FieldKind::Number });
        response.push(FieldDoc { name: "exp", kind: FieldKind::Number });
        response.push(FieldDoc { name: "result", kind: FieldKind::Number });
        let mut schemas: Vec<SchemaDoc> = Vec::new();
        schemas.push(SchemaDoc { name: INFO_SCHEMA, fields: info });
        schemas.push(SchemaDoc { name: EVAL_REQUEST_SCHEMA, fields: request });
        schemas.push(SchemaDoc { name: EXPONENT_RESPONSE_SCHEMA, fields: response });
        assert(schemas@[0]@.fields =~= api_schemas()[0].fields);
        assert(schemas@[1]@.fields =~= api_schemas()[1].fields);
        assert(schemas@[2]@.fields =~= api_schemas()[2].fields);
        assert(schemas@.map_values(|s: SchemaDoc| s@) =~= api_schemas());
        schemas
    }
}


/// The operation that `route` documents, as [`OperationParts`] lists it.
pub open spec fn operation_view(route: RouteDocView) -> OperationParts {
    (
        route.operation_id,
        route.summary,
        route.description,
        json_request(route.request_schema),
        responses_map(route.responses),
    )
}

/// The operations that `routes` document, under each path and method; a
/// later route for the same path and method replaces an earlier one.
pub open spec fn routes_map(routes: Seq<RouteDocView>) -> Map<(Seq<char>, Method), OperationParts>
    decreases routes.len(),
{
    if routes.len() == 0 {
        Map::empty()
    } else {
        routes_map(routes.drop_last()).insert(
            (routes.last().path, routes.last().method),
            operation_view(routes.last()),
        )
    }
}

/// A documented body, as a listed body: the JSON media type and the schema.
pub open spec fn json_body(schema: Option<Seq<char>>) -> Option<(Seq<char>, Seq<char>)> {
    match schema {
        Some(name) => Some((JSON_MEDIA_TYPE@, name)),
        None => None,
    }
}

/// A documented request body, as a listed request body: the JSON media
/// type, the schema, and marked required.
pub open spec fn json_request(schema: Option<Seq<char>>) -> Option<(Seq<char>, Seq<char>, bool)> {
    match schema {
        Some(name) => Some((JSON_MEDIA_TYPE@, name, true)),
        None => None,
    }
}

/// The responses that `docs` document, by status; a later entry for a status
/// replaces an earlier one.
pub open spec fn responses_map(docs: Seq<ResponseDocView>) -> Map<u16, ListedResponse>
    decreases docs.len(),
{
    if docs.len() == 0 {
        Map::empty()
    } else {
        responses_map(docs.drop_last()).insert(
            docs.last().status,
            (docs.last().description, json_body(docs.last().schema)),
        )
    }
}

/// The properties that `fields` document, by name, with their kinds.
pub open spec fn fields_map(fields: Seq<FieldDocView>) -> Map<Seq<char>, FieldKind>
    decreases fields.len(),
{
    if fields.len() == 0 {
        Map::empty()
    } else {
        fields_map(fields.drop_last()).insert(fields.last().name, fields.last().kind)
    }
}

/// The names of `fields`, in order.
pub open spec fn field_names(fields: Seq<FieldDocView>) -> Seq<Seq<char>> {
    fields.map_values(|f: FieldDocView| f.name)
}

/// The object schema that `schema` documents: its properties and, in order,
/// the required names.
pub open spec fn schema_parts(schema: SchemaDocView) -> (Map<Seq<char>, FieldKind>, Seq<Seq<char>>) {
    (fields_map(schema.fields), field_names(schema.fields))
}

/// The schemas that `schemas` document, by name.
pub open spec fn schemas_map(schemas: Seq<SchemaDocView>) -> Map<Seq<char>, (Map<Seq<char>, FieldKind>, Seq<Seq<char>>)>
    decreases schemas.len(),
{
    if schemas.len() == 0 {
        Map::empty()
    } else {
        schemas_map(schemas.drop_last()).insert(schemas.last().name, schema_parts(schemas.last()))
    }
}

/// The `utoipa` operation that `route` documents: its id, summary,
/// description, JSON request body and responses.
fn route_operation(route: &RouteDoc) -> (op: Operation)
    ensures
        operation_parts(op) == operation_view(route@),
{
    let mut responses: ResponsesBuilder = new_responses();
    let n = route.responses.len();
    assert(route@.responses.take(0) =~= Seq::<ResponseDocView>::empty());
    for i in 0..n
        invariant
            n == route.responses.len(),
            route@.responses == route.responses@.map_values(|r: ResponseDoc| r@),
            listed_responses(responses) == responses_map(route@.responses.take(i as int)),
    {
        let doc = route.responses[i];
        proof {
            assert(route@.responses.take(i + 1).drop_last() =~= route@.responses.take(i as int));
            assert(route@.responses.take(i + 1).last() == doc@);
        }
        responses = match doc.schema {
            Some(schema) => add_body_response(responses, doc.status, doc.description, JSON_MEDIA_TYPE, schema),
            None => add_response(responses, doc.status, doc.description),
        };
    }
    assert(route@.responses.take(n as int) =~= route@.responses);
    let body: Option<RequestBody> = match route.request_schema {
        Some(schema) => Some(required_request_body(JSON_MEDIA_TYPE, schema)),
        None => None,
    };
    operation(route.operation_id, route.summary, route.description, body, responses)
}

/// The `utoipa` object schema that `schema` documents, every field required.
fn object_of(schema: &SchemaDoc) -> (r: Schema)
    ensures
        schema_fields(r) == schema_parts(schema@),
{
    let mut object: ObjectBuilder = new_object();
    let n = schema.fields.len();
    assert(schema@.fields.take(0) =~= Seq::<FieldDocView>::empty());
    assert(field_names(schema@.fields.take(0)) =~= Seq::<Seq<char>>::empty());
    for i in 0..n
        invariant
            n == schema.fields.len(),
            schema@.fields == schema.fields@.map_values(|f: FieldDoc| f@),
            object_fields(object) == schema_parts(SchemaDocView { name: schema@.name, fields: schema@.fields.take(i as int) }),
    {
        let field = schema.fields[i];
        proof {
            let prefix = schema@.fields.take(i + 1);
            assert(prefix.drop_last() =~= schema@.fields.take(i as int));
            assert(prefix.last() == field@);
            assert(field_names(prefix) =~= field_names(schema@.fields.take(i as int)).push(field.name@));
        }
        object = match field.kind {
            FieldKind::Text => add_text_property(object, field.name),
            FieldKind::Number => add_number_property(object, field.name),
            FieldKind::TextList => add_text_list_property(object, field.name),
        };
    }
    assert(schema@.fields.take(n as int) =~= schema@.fields);
    object_schema(object)
}

impl ApiDoc {
    /// The document's paths: under each documented route's path and method,
    /// the operation that the route documents, and nothing else.
    pub fn paths() -> (paths: Paths)
        ensures
            path_operations(paths) == routes_map(api_routes()),
            path_operations(paths).dom() == set![(ROOT@, Method::Get), (ROOT@, Method::Post)],
    {
        let routes = Self::routes();
        let ghost spec_routes = routes@.map_values(|r: RouteDoc| r@);
        let mut paths = new_paths();
        assert(spec_routes.take(0) =~= Seq::<RouteDocView>::empty());
        let n = routes.len();
        for i in 0..n
            invariant
                n == routes.len(),
                spec_routes == routes@.map_values(|r: RouteDoc| r@),
                path_operations(paths) == routes_map(spec_routes.take(i as int)),
        {
            let route = &routes[i];
            proof {
                assert(spec_routes.take(i + 1).drop_last() =~= spec_routes.take(i as int));
                assert(spec_routes.take(i + 1).last() == route@);
            }
            let op = route_operation(route);
            match route.method {
                Method::Get => add_get_operation(&mut paths, route.path, op),
                Method::Post => add_post_operation(&mut paths, route.path, op),
            }
        }
        assert(spec_routes.take(n as int) =~= spec_routes);
        proof {
            lemma_routes_contents();
        }
        paths
    }

    /// The document's reusable schemas, one for each documented schema.
    fn components() -> (r: ComponentsBuilder)
        ensures
            component_schemas(r) == schemas_map(api_schemas()),
    {
        let schemas = Self::schemas();
        let ghost spec_schemas = schemas@.map_values(|s: SchemaDoc| s@);
        let mut components: ComponentsBuilder = new_components();
        let n = schemas.len();
        assert(spec_schemas.take(0) =~= Seq::<SchemaDocView>::empty());
        for i in 0..n
            invariant
                n == schemas.len(),
                spec_schemas == schemas@.map_values(|s: SchemaDoc| s@),
                component_schemas(components) == schemas_map(spec_schemas.take(i as int)),
        {
            let schema = &schemas[i];
            proof {
                assert(spec_schemas.take(i + 1).drop_last() =~= spec_schemas.take(i as int));
                assert(spec_schemas.take(i + 1).last() == schema@);
            }
            components = add_component_schema(components, schema.name, object_of(schema));
        }
        assert(spec_schemas.take(n as int) =~= spec_schemas);
        components
    }

    /// The OpenAPI document: this service's title and API version, the paths
    /// of [`ApiDoc::paths`] and the schemas of [`ApiDoc::schemas`].
    pub fn openapi() -> (doc: OpenApi)
        ensures
            document_operations(doc) == routes_map(api_routes()),
            document_schemas(doc) == schemas_map(api_schemas()),
            document_info(doc) == (SERVICE@, API_VERSION@),
    {
        let paths = Self::paths();
        let components = Self::components();
        document(SERVICE, API_VERSION, paths, components)
    }
}

} // verus!
