use fastrust::document_json::openapi_text_or_empty;
use fastrust::extractor::ExtractorKind;
use fastrust::json::JsonValue;
use fastrust::{APIApp, APIRouter, RouteConfig};
use serde_json::Value;

fn s(text: &str) -> JsonValue {
    JsonValue::String(text.to_string())
}

fn obj(members: Vec<(&str, JsonValue)>) -> JsonValue {
    JsonValue::Object(members.into_iter().map(|(k, v)| (k.to_string(), v)).collect())
}

fn id_schema() -> JsonValue {
    obj(vec![
        ("type", s("object")),
        ("properties", obj(vec![("value", obj(vec![("type", s("integer")), ("format", s("int32"))]))])),
        ("required", JsonValue::Array(vec![s("value")])),
    ])
}

fn user_schema() -> JsonValue {
    obj(vec![
        ("type", s("object")),
        (
            "properties",
            obj(vec![
                ("id", obj(vec![("type", s("integer")), ("format", s("int64"))])),
                ("name", obj(vec![("type", s("string"))])),
            ]),
        ),
        ("required", JsonValue::Array(vec![s("id")])),
    ])
}

#[test]
fn empty_app_spec_text() {
    let app: APIApp<(), u8> = APIApp::new();
    assert_eq!(
        app.generate_openapi_str(),
        "{\n  \"openapi\": \"3.0.3\",\n  \"info\": {\n    \"title\": \"Axum API\",\n    \"version\": \"0.0.1\"\n  },\n  \"paths\": {}\n}"
    );
}

#[test]
fn spec_documents_info_servers_and_summary() {
    let app: APIApp<(), u8> = APIApp::new()
        .set_title("My \"API\"")
        .set_summary("Short")
        .set_description("Long\ntext")
        .set_version("1.2.3")
        .set_host("localhost")
        .set_port(8080);
    let spec: Value = serde_json::from_str(&app.generate_openapi_str()).expect("valid JSON");
    assert_eq!(spec["info"]["title"], "My \"API\"");
    assert_eq!(spec["info"]["description"], "Long\ntext");
    assert_eq!(spec["info"]["version"], "1.2.3");
    assert_eq!(spec["info"]["x-summary"], "Short");
    assert_eq!(spec["servers"][0]["url"], "http://localhost:8080");
    assert_eq!(spec["servers"][0]["description"], "Application Server");
}

#[test]
fn spec_documents_routes() {
    let mut api: APIRouter<u8> = APIRouter::new("/api");
    let config = RouteConfig::new()
        .summary("Get a user")
        .tag("users")
        .response(200, "User found", user_schema())
        .empty_response(404, "User not found");
    api.get("/user/{id}", 0, vec![ExtractorKind::Path(id_schema()), ExtractorKind::Query(user_schema())], config);
    api.post("/user/{id}", 1, vec![ExtractorKind::Json(user_schema())], RouteConfig::new());
    let app: APIApp<(), u8> = APIApp::new().register_router(api);
    let spec: Value = serde_json::from_str(&app.generate_openapi_str()).expect("valid JSON");
    let item = &spec["paths"]["/api/user/{id}"];
    let get = &item["get"];
    assert_eq!(get["summary"], "Get a user");
    assert_eq!(get["tags"][0], "users");
    assert_eq!(get["parameters"][0]["in"], "path");
    assert_eq!(get["parameters"][0]["name"], "value");
    assert_eq!(get["parameters"][0]["required"], true);
    assert_eq!(get["parameters"][0]["style"], "simple");
    assert_eq!(get["parameters"][0]["schema"]["type"], "integer");
    assert_eq!(get["parameters"][0]["schema"]["format"], "int32");
    assert_eq!(get["parameters"][1]["in"], "query");
    assert_eq!(get["parameters"][1]["name"], "id");
    assert_eq!(get["parameters"][1]["style"], "form");
    assert_eq!(get["parameters"][2]["name"], "name");
    assert!(get["parameters"][2].get("required").is_none());
    let ok = &get["responses"]["200"];
    assert_eq!(ok["description"], "User found");
    let body = &ok["content"]["application/json"]["schema"];
    assert_eq!(body["type"], "object");
    assert_eq!(body["properties"]["id"]["format"], "int64");
    assert_eq!(body["required"][0], "id");
    assert_eq!(get["responses"]["404"]["description"], "User not found");
    assert!(get["responses"]["404"].get("content").is_none());
    let post = &item["post"];
    assert_eq!(post["requestBody"]["description"], "JSON payload");
    assert_eq!(post["requestBody"]["required"], true);
    assert_eq!(post["requestBody"]["content"]["application/json"]["schema"]["properties"]["name"]["type"], "string");
    assert!(item.get("put").is_none());
}

#[test]
fn failed_rendering_gives_empty_text() {
    assert_eq!(openapi_text_or_empty(None), "");
    assert_eq!(openapi_text_or_empty(Some("{}".to_string())), "{}");
}
