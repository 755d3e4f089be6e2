use srvcs_exponent::apidoc::FieldKind;
use srvcs_exponent::openapi::Method;
use srvcs_exponent::ApiDoc;

#[test]
fn openapi_documents_routes() {
    let doc = ApiDoc::openapi();
    let root = doc.paths.paths.get("/").expect("path / present");
    assert!(root.get.is_some());
    assert!(root.post.is_some());
}

#[test]
fn openapi_lists_only_the_root_path() {
    let doc = ApiDoc::openapi();
    let paths: Vec<&String> = doc.paths.paths.keys().collect();
    assert_eq!(paths, vec!["/"]);
    let root = doc.paths.paths.get("/").unwrap();
    assert!(root.put.is_none());
    assert!(root.delete.is_none());
}

#[test]
fn openapi_operations_carry_ids_and_statuses() {
    let doc = ApiDoc::openapi();
    let root = doc.paths.paths.get("/").unwrap();
    let get = root.get.as_ref().unwrap();
    assert_eq!(get.operation_id.as_deref(), Some("index"));
    let get_codes: Vec<&String> = get.responses.responses.keys().collect();
    assert_eq!(get_codes, vec!["200"]);
    let post = root.post.as_ref().unwrap();
    assert_eq!(post.operation_id.as_deref(), Some("evaluate"));
    assert!(post.request_body.is_some());
    let post_codes: Vec<&String> = post.responses.responses.keys().collect();
    assert_eq!(post_codes, vec!["200", "422", "500", "503"]);
}

#[test]
fn openapi_names_the_service_and_its_schemas() {
    let doc = ApiDoc::openapi();
    assert_eq!(doc.info.title, "srvcs-exponent");
    let components = doc.components.expect("components present");
    let names: Vec<&String> = components.schemas.keys().collect();
    assert_eq!(names, vec!["EvalRequest", "ExponentResponse", "Info"]);
}

#[test]
fn routes_table_lists_index_and_evaluate() {
    let routes = ApiDoc::routes();
    assert_eq!(routes.len(), 2);
    assert_eq!(routes[0].path, "/");
    assert_eq!(routes[0].method, Method::Get);
    assert_eq!(routes[0].operation_id, "index");
    assert_eq!(routes[0].request_schema, None);
    assert_eq!(routes[0].responses.len(), 1);
    assert_eq!(routes[0].responses[0].status, 200);
    assert_eq!(routes[0].responses[0].schema, Some("Info"));
    assert_eq!(routes[1].method, Method::Post);
    assert_eq!(routes[1].operation_id, "evaluate");
    assert_eq!(routes[1].request_schema, Some("EvalRequest"));
    let statuses: Vec<u16> = routes[1].responses.iter().map(|r| r.status).collect();
    assert_eq!(statuses, vec![200, 422, 500, 503]);
    assert_eq!(routes[1].responses[1].description, "a dependency rejected the input (forwarded)");
    assert_eq!(routes[1].responses[2].description, "a dependency returned a malformed result");
    assert_eq!(routes[1].responses[3].description, "a dependency is unavailable");
}

#[test]
fn schemas_table_lists_the_bodies() {
    let schemas = ApiDoc::schemas();
    assert_eq!(schemas.len(), 3);
    assert_eq!(schemas[0].name, "Info");
    let info: Vec<(&str, FieldKind)> = schemas[0].fields.iter().map(|f| (f.name, f.kind)).collect();
    assert_eq!(
        info,
        vec![("service", FieldKind::Text), ("concern", FieldKind::Text), ("depends_on", FieldKind::TextList)]
    );
    assert_eq!(schemas[1].name, "EvalRequest");
    assert_eq!(schemas[1].fields.len(), 2);
    assert_eq!(schemas[2].name, "ExponentResponse");
    let fields: Vec<&str> = schemas[2].fields.iter().map(|f| f.name).collect();
    assert_eq!(fields, vec!["base", "exp", "result"]);
    assert!(schemas[2].fields.iter().all(|f| f.kind == FieldKind::Number));
}

#[test]
fn paths_hold_one_operation_per_route() {
    let paths = ApiDoc::paths();
    assert_eq!(paths.paths.len(), 1);
    let root = paths.paths.get("/").unwrap();
    assert!(root.get.is_some() && root.post.is_some());
}

#[test]
fn openapi_operation_texts_follow_the_handlers() {
    let doc = ApiDoc::openapi();
    let root = doc.paths.paths.get("/").unwrap();
    let get = root.get.as_ref().unwrap();
    assert_eq!(get.summary.as_deref(), Some("`GET /` — service identity (srvcs service standard)."));
    assert_eq!(get.description, None);
    let post = root.post.as_ref().unwrap();
    assert_eq!(
        post.summary.as_deref(),
        Some("`POST /` — compute `base ^ exp` (real exponentiation) by delegating to\n`srvcs-floatpower`.")
    );
    let description = post.description.as_deref().unwrap();
    assert!(description.starts_with("This service owns the *control flow*"));
    assert!(description.ends_with("this orchestrator does not validate inputs itself."));
    assert_eq!(doc.info.version, "0.1.0");
}

#[test]
fn openapi_bodies_refer_to_their_schemas() {
    let text = ApiDoc::openapi().to_json().unwrap();
    let value: serde_json::Value = serde_json::from_str(&text).unwrap();
    let post = &value["paths"]["/"]["post"];
    assert_eq!(
        post["requestBody"]["content"]["application/json"]["schema"]["$ref"],
        "#/components/schemas/EvalRequest"
    );
    assert_eq!(post["requestBody"]["required"], true);
    assert_eq!(
        post["responses"]["200"]["content"]["application/json"]["schema"]["$ref"],
        "#/components/schemas/ExponentResponse"
    );
    assert_eq!(post["responses"]["503"]["description"], "a dependency is unavailable");
    let get = &value["paths"]["/"]["get"];
    assert_eq!(
        get["responses"]["200"]["content"]["application/json"]["schema"]["$ref"],
        "#/components/schemas/Info"
    );
    let info = &value["components"]["schemas"]["Info"];
    assert_eq!(info["properties"]["depends_on"]["type"], "array");
    assert_eq!(info["properties"]["depends_on"]["items"]["type"], "string");
    let response = &value["components"]["schemas"]["ExponentResponse"];
    assert_eq!(response["properties"]["result"]["type"], "number");
    assert_eq!(response["properties"]["result"]["format"], "double");
    let required: Vec<&str> =
        response["required"].as_array().unwrap().iter().map(|v| v.as_str().unwrap()).collect();
    assert_eq!(required, vec!["base", "exp", "result"]);
}
