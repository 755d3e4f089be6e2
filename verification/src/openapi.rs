//! The parts of `utoipa`'s OpenAPI model that the API document is built from.
//!
//! Each item here calls one `utoipa` builder step. What each value holds is
//! stated over a name for its contents: the operations of a `Paths` object or
//! document, the document's schemas and title and version, the responses of a responses builder, the parts of an operation
//! or request body, the properties of an object schema, the schemas of the
//! components. The rest of a value (such as the exact JSON schema written for
//! a kind of property) is not restated.
use vstd::prelude::*;

use crate::apidoc::FieldKind;

use utoipa::openapi::path::{HttpMethod, Operation, OperationBuilder, Paths};
use utoipa::openapi::request_body::{RequestBody, RequestBodyBuilder};
use utoipa::openapi::schema::{
    Array, ComponentsBuilder, KnownFormat, Object, ObjectBuilder, Schema, SchemaFormat, Type,
};
use utoipa::openapi::{Content, Info, OpenApi, OpenApiBuilder, Ref, Required, ResponseBuilder, ResponsesBuilder};

verus! {

/// An HTTP method that the document lists an operation under.
#[derive(Clone, Copy, Debug, PartialEq, Eq, Structural)]
pub enum Method {
    Get,
    Post,
}

#[verifier::external_type_specification]
#[verifier::external_body]
pub struct ExPaths(Paths);

#[verifier::external_type_specification]
#[verifier::external_body]
pub struct ExOperation(Operation);

#[verifier::external_type_specification]
#[verifier::external_body]
pub struct ExResponsesBuilder(ResponsesBuilder);

#[verifier::external_type_specification]
#[verifier::external_body]
pub struct ExRequestBody(RequestBody);

#[verifier::external_type_specification]
#[verifier::external_body]
pub struct ExObjectBuilder(ObjectBuilder);

#[verifier::external_type_specification]
#[verifier::external_body]
pub struct ExSchema(Schema);

#[verifier::external_type_specification]
#[verifier::external_body]
pub struct ExComponentsBuilder(ComponentsBuilder);

#[verifier::external_type_specification]
#[verifier::external_body]
pub struct ExOpenApi(OpenApi);

/// The parts of an operation: its id, its summary, its description where it
/// has one, its request body's parts where it has one, and its responses.
pub type OperationParts = (
    Seq<char>,
    Seq<char>,
    Option<Seq<char>>,
    Option<(Seq<char>, Seq<char>, bool)>,
    Map<u16, ListedResponse>,
);

/// A schema's properties, each with the kind of schema that this module's
/// property steps write for it, and its required names in order.
pub type SchemaParts = (Map<Seq<char>, FieldKind>, Seq<Seq<char>>);

/// The operations that a `Paths` object lists: under each path and each
/// method that the path has an operation for, the operation's parts.
pub uninterp spec fn path_operations(paths: Paths) -> Map<(Seq<char>, Method), OperationParts>;

/// `Paths::new`: a `Paths` object with no path in it.
#[verifier::external_body]
pub(crate) fn new_paths() -> (paths: Paths)
    ensures
        path_operations(paths) == (Map::<(Seq<char>, Method), OperationParts>::empty()),
{
    Paths::new()
}

/// `Paths::add_path_operation` with the one method `GET`: afterwards `path`
/// has `operation` as its `GET` operation, and every other operation listed
/// before is still listed.
#[verifier::external_body]
pub(crate) fn add_get_operation(paths: &mut Paths, path: &str, operation: Operation)
    ensures
        path_operations(*final(paths)) == path_operations(*old(paths)).insert(
            (path@, Method::Get),
            operation_parts(operation),
        ),
{
    paths.add_path_operation(path, vec![HttpMethod::Get], operation)
}

/// `Paths::add_path_operation` with the one method `POST`: afterwards `path`
/// has `operation` as its `POST` operation, and every other operation listed
/// before is still listed.
#[verifier::external_body]
pub(crate) fn add_post_operation(paths: &mut Paths, path: &str, operation: Operation)
    ensures
        path_operations(*final(paths)) == path_operations(*old(paths)).insert(
            (path@, Method::Post),
            operation_parts(operation),
        ),
{
    paths.add_path_operation(path, vec![HttpMethod::Post], operation)
}

/// A response as listed: its description, and where it has a body, the
/// body's media type and the name of the schema that the body refers to.
pub type ListedResponse = (Seq<char>, Option<(Seq<char>, Seq<char>)>);

/// The responses that a responses builder holds, by status code: under the
/// decimal text of each code, the response as [`ListedResponse`] reads it.
pub uninterp spec fn listed_responses(responses: ResponsesBuilder) -> Map<u16, ListedResponse>;

/// The parts of a request body: its media type, the name of the schema it
/// refers to, and whether it is marked required (`required` is
/// `Some(Required::True)`).
pub uninterp spec fn request_body_parts(body: RequestBody) -> (Seq<char>, Seq<char>, bool);

/// The parts of an operation, as [`OperationParts`] lists them.
pub uninterp spec fn operation_parts(op: Operation) -> OperationParts;

/// The properties of an object schema being built, each with the kind of
/// schema that this module's property steps write for it, and its list of
/// required property names, in the order they were added.
pub uninterp spec fn object_fields(object: ObjectBuilder) -> SchemaParts;

/// The properties and required names of a schema, as [`object_fields`] reads them.
pub uninterp spec fn schema_fields(schema: Schema) -> SchemaParts;

/// The schemas that a components builder holds, by name, as [`schema_fields`] reads them.
pub uninterp spec fn component_schemas(components: ComponentsBuilder) -> Map<Seq<char>, SchemaParts>;

/// `ResponsesBuilder::new`: no response yet.
#[verifier::external_body]
pub(crate) fn new_responses() -> (r: ResponsesBuilder)
    ensures
        listed_responses(r) == (Map::<u16, ListedResponse>::empty()),
{
    ResponsesBuilder::new()
}

/// `ResponsesBuilder::response` under the decimal status code, with a
/// response that has a description and no body.
#[verifier::external_body]
pub(crate) fn add_response(responses: ResponsesBuilder, status: u16, description: &str) -> (r: ResponsesBuilder)
    ensures
        listed_responses(r) == listed_responses(responses).insert(status, (description@, None)),
{
    responses.response(status.to_string(), ResponseBuilder::new().description(description))
}

/// `ResponsesBuilder::response` under the decimal status code, with a
/// response whose body of type `media_type` refers to the schema `schema_name`.
#[verifier::external_body]
pub(crate) fn add_body_response(
    responses: ResponsesBuilder,
    status: u16,
    description: &str,
    media_type: &str,
    schema_name: &str,
) -> (r: ResponsesBuilder)
    ensures
        listed_responses(r) == listed_responses(responses).insert(
            status,
            (description@, Some((media_type@, schema_name@))),
        ),
{
    let content = Content::new(Some(Ref::from_schema_name(schema_name)));
    let response = ResponseBuilder::new().description(description).content(media_type, content);
    responses.response(status.to_string(), response)
}

/// `RequestBodyBuilder`: a required body of type `media_type` that refers to
/// the schema `schema_name`.
#[verifier::external_body]
pub(crate) fn required_request_body(media_type: &str, schema_name: &str) -> (body: RequestBody)
    ensures
        request_body_parts(body) == (media_type@, schema_name@, true),
{
    let content = Content::new(Some(Ref::from_schema_name(schema_name)));
    RequestBodyBuilder::new().content(media_type, content).required(Some(Required::True)).build()
}

/// `OperationBuilder`: an operation with its id, summary, description,
/// request body and responses.
#[verifier::external_body]
pub(crate) fn operation(
    operation_id: &str,
    summary: &str,
    description: Option<&str>,
    request_body: Option<RequestBody>,
    responses: ResponsesBuilder,
) -> (op: Operation)
    ensures
        operation_parts(op) == (
            operation_id@,
            summary@,
            match description {
                Some(text) => Some(text@),
                None => None,
            },
            match request_body {
                Some(body) => Some(request_body_parts(body)),
                None => None,
            },
            listed_responses(responses),
        ),
{
    OperationBuilder::new()
        .operation_id(Some(operation_id))
        .summary(Some(summary))
        .description(description)
        .request_body(request_body)
        .responses(responses)
        .build()
}

/// `ObjectBuilder::new`: an object schema with no property yet.
#[verifier::external_body]
pub(crate) fn new_object() -> (object: ObjectBuilder)
    ensures
        object_fields(object) == (Map::<Seq<char>, FieldKind>::empty(), Seq::<Seq<char>>::empty()),
{
    ObjectBuilder::new()
}

/// `ObjectBuilder::property` and `required`: a required string property.
#[verifier::external_body]
pub(crate) fn add_text_property(object: ObjectBuilder, name: &str) -> (r: ObjectBuilder)
    ensures
        object_fields(r) == (
            object_fields(object).0.insert(name@, FieldKind::Text),
            object_fields(object).1.push(name@),
        ),
{
    object.property(name, Object::with_type(Type::String)).required(name)
}

/// `ObjectBuilder::property` and `required`: a required property holding a
/// binary64 number (`number`, format `double`).
#[verifier::external_body]
pub(crate) fn add_number_property(object: ObjectBuilder, name: &str) -> (r: ObjectBuilder)
    ensures
        object_fields(r) == (
            object_fields(object).0.insert(name@, FieldKind::Number),
            object_fields(object).1.push(name@),
        ),
{
    let number = ObjectBuilder::new().schema_type(Type::Number).format(Some(SchemaFormat::KnownFormat(KnownFormat::Double)));
    object.property(name, number).required(name)
}

/// `ObjectBuilder::property` and `required`: a required array-of-strings property.
#[verifier::external_body]
pub(crate) fn add_text_list_property(object: ObjectBuilder, name: &str) -> (r: ObjectBuilder)
    ensures
        object_fields(r) == (
            object_fields(object).0.insert(name@, FieldKind::TextList),
            object_fields(object).1.push(name@),
        ),
{
    object.property(name, Array::new(Object::with_type(Type::String))).required(name)
}

/// `ObjectBuilder::build`, as a `Schema`.
#[verifier::external_body]
pub(crate) fn object_schema(object: ObjectBuilder) -> (schema: Schema)
    ensures
        schema_fields(schema) == object_fields(object),
{
    Schema::Object(object.build())
}

/// `ComponentsBuilder::new`: no schema yet.
#[verifier::external_body]
pub(crate) fn new_components() -> (r: ComponentsBuilder)
    ensures
        component_schemas(r) == (Map::<Seq<char>, SchemaParts>::empty()),
{
    ComponentsBuilder::new()
}

/// `ComponentsBuilder::schema`: the schema under its name.
#[verifier::external_body]
pub(crate) fn add_component_schema(components: ComponentsBuilder, name: &str, schema: Schema) -> (r: ComponentsBuilder)
    ensures
        component_schemas(r) == component_schemas(components).insert(name@, schema_fields(schema)),
{
    components.schema(name, schema)
}

/// The operations that an OpenAPI document lists: those of its `paths`
/// field, as [`path_operations`] reads them.
pub uninterp spec fn document_operations(doc: OpenApi) -> Map<(Seq<char>, Method), OperationParts>;

/// The schemas of an OpenAPI document's components, as [`component_schemas`]
/// reads them (empty where it has no components).
pub uninterp spec fn document_schemas(doc: OpenApi) -> Map<Seq<char>, SchemaParts>;

/// The title and version of an OpenAPI document's `info`.
pub uninterp spec fn document_info(doc: OpenApi) -> (Seq<char>, Seq<char>);

/// `OpenApiBuilder`: the document with its title and version, paths and
/// components. `OpenApiBuilder::info`, `paths` and `components` store their
/// arguments as the document's fields, so the document lists what `paths` and
/// `components` hold, under `Info::new(title, version)`.
#[verifier::external_body]
pub(crate) fn document(title: &str, version: &str, paths: Paths, components: ComponentsBuilder) -> (doc: OpenApi)
    ensures
        document_operations(doc) == path_operations(paths),
        document_schemas(doc) == component_schemas(components),
        document_info(doc) == (title@, version@),
{
    OpenApiBuilder::new()
        .info(Info::new(title, version))
        .paths(paths)
        .components(Some(components.build()))
        .build()
}

} // verus!
