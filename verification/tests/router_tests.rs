use fastrust::converter::OpenApiConverter;
use fastrust::extractor::ExtractorKind;
use fastrust::json::JsonValue;
use fastrust::openapi::{
    IntegerFormat, ParamSchema, ParameterLocation, ParameterStyle, VariantOrUnknownOrEmpty,
};
use fastrust::route::{Method, Route};
use fastrust::{APIRouter, RouteConfig};

fn s(text: &str) -> JsonValue {
    JsonValue::String(text.to_string())
}

fn obj(members: Vec<(&str, JsonValue)>) -> JsonValue {
    JsonValue::Object(members.into_iter().map(|(k, v)| (k.to_string(), v)).collect())
}

fn id_schema() -> JsonValue {
    obj(vec![("type", s("integer")), ("format", s("int32"))])
}

fn user_schema() -> JsonValue {
    obj(vec![
        ("type", s("object")),
        (
            "properties",
            obj(vec![
                ("id", obj(vec![("type", s("integer")), ("format", s("int32"))])),
                ("name", obj(vec![("type", s("string"))])),
            ]),
        ),
        ("required", JsonValue::Array(vec![s("id")])),
    ])
}

#[test]
fn router_prefix_is_canonical() {
    let r: APIRouter<u32> = APIRouter::new("/api//");
    assert_eq!(r.prefix, "/api");
    assert!(r.routes.is_empty());
    let root: APIRouter<u32> = APIRouter::new("");
    assert_eq!(root.prefix, "/");
}

#[test]
fn readme_router_example() {
    let mut api: APIRouter<&str> = APIRouter::new("/api");
    api.get("/hello/{name}", "hello", vec![], RouteConfig::default());
    assert_eq!(api.routes[0].path, "/api/hello/{name}");

    let mut v1: APIRouter<&str> = APIRouter::new("/v1");
    v1.get("/", "root", vec![], RouteConfig::default());
    assert_eq!(v1.routes[0].path, "/v1");

    v1.include_router(api);
    assert_eq!(v1.routes.len(), 2);
    assert_eq!(v1.routes[1].path, "/v1/api/hello/{name}");
    assert_eq!(v1.routes[1].method, Method::Get);
    assert_eq!(v1.routes[1].handler, "hello");
}

#[test]
fn include_router_does_not_canonicalize() {
    let mut root: APIRouter<u8> = APIRouter::new("/");
    let mut api: APIRouter<u8> = APIRouter::new("/api");
    api.post("/users", 7, vec![], RouteConfig::new().summary("Create"));
    root.include_router(api);
    assert_eq!(root.routes[0].path, "//api/users");
    assert_eq!(root.routes[0].method, Method::Post);
    assert_eq!(root.routes[0].handler, 7);
    assert_eq!(root.routes[0].operation.summary.as_deref(), Some("Create"));
}

#[test]
fn include_router_keeps_documentation() {
    let mut api: APIRouter<u8> = APIRouter::new("/api");
    let config = RouteConfig::new().tag("users").empty_response(404, "Missing");
    api.get("/user/{id}", 3, vec![ExtractorKind::Path(id_schema())], config);
    let mut v1: APIRouter<u8> = APIRouter::new("/v1");
    v1.include_router(api);
    let op = &v1.routes[0].operation;
    assert_eq!(v1.routes[0].path, "/v1/api/user/{id}");
    assert_eq!(op.tags, vec!["users".to_string()]);
    assert_eq!(op.parameters.len(), 1);
    assert_eq!(op.parameters[0].location, ParameterLocation::Path);
    assert_eq!(op.responses.responses[&404].description, "Missing");
}

#[test]
fn every_method_registers_its_route() {
    let mut r: APIRouter<u8> = APIRouter::new("/x");
    r.get("/a", 0, vec![], RouteConfig::new())
        .post("/a", 1, vec![], RouteConfig::new())
        .put("/a/", 2, vec![], RouteConfig::new())
        .patch("//a", 3, vec![], RouteConfig::new())
        .delete("/a", 4, vec![], RouteConfig::new())
        .head("/a", 5, vec![], RouteConfig::new())
        .options("/a", 6, vec![], RouteConfig::new())
        .trace("/a", 7, vec![], RouteConfig::new())
        .connect("/a", 8, vec![], RouteConfig::new())
        .get_dbg("/b", 9, vec![], RouteConfig::new())
        .post_dbg("/b", 10, vec![], RouteConfig::new());
    let methods: Vec<Method> = r.routes.iter().map(|rt| rt.method).collect();
    assert_eq!(
        methods,
        vec![
            Method::Get,
            Method::Post,
            Method::Put,
            Method::Patch,
            Method::Delete,
            Method::Head,
            Method::Options,
            Method::Trace,
            Method::Connect,
            Method::Get,
            Method::Post
        ]
    );
    for (i, rt) in r.routes.iter().enumerate() {
        assert_eq!(rt.handler as usize, i);
        assert_eq!(rt.path, if i < 9 { "/x/a" } else { "/x/b" });
    }
}

#[test]
fn add_route_keeps_route_as_is() {
    let mut r: APIRouter<u8> = APIRouter::new("/x");
    r.add_route(Route::new(Method::Get, "raw//path/".to_string(), 1));
    assert_eq!(r.routes[0].path, "raw//path/");
}

#[test]
fn extractors_document_parameters_and_body() {
    let mut r: APIRouter<u8> = APIRouter::new("/api");
    let kinds = vec![
        ExtractorKind::Path(id_schema()),
        ExtractorKind::State("AppState"),
        ExtractorKind::Query(user_schema()),
        ExtractorKind::Json(user_schema()),
    ];
    r.post("/user/{id}", 1, kinds, RouteConfig::new());
    let op = &r.routes[0].operation;
    assert_eq!(op.parameters.len(), 3);
    assert_eq!(op.parameters[0].location, ParameterLocation::Path);
    assert_eq!(op.parameters[0].name, "value");
    assert!(op.parameters[0].required);
    assert!(matches!(
        op.parameters[0].schema,
        ParamSchema::Integer(VariantOrUnknownOrEmpty::Item(IntegerFormat::Int32))
    ));
    assert_eq!(op.parameters[1].location, ParameterLocation::Query);
    assert_eq!(op.parameters[1].name, "id");
    assert!(op.parameters[1].required);
    assert_eq!(op.parameters[2].name, "name");
    assert!(!op.parameters[2].required);
    assert_eq!(op.parameters[0].style, ParameterStyle::Simple);
    assert_eq!(op.parameters[1].style, ParameterStyle::Form);
    assert!(!op.parameters[1].allow_reserved);
    let body = op.request_body.as_ref().expect("JSON body documented");
    assert_eq!(body.description.as_deref(), Some("JSON payload"));
    assert!(body.required);
    assert_eq!(body.content.media_type, "application/json");
    let keys: Vec<&String> = body.content.schema.properties.keys().collect();
    assert_eq!(keys, vec!["id", "name"]);
    assert_eq!(body.content.schema.required, vec!["id".to_string()]);
}

#[test]
fn route_config_sets_metadata_and_sorted_responses() {
    let config = RouteConfig::default()
        .summary("Get a user")
        .description("Returns a user by ID")
        .tag("users")
        .tag("public")
        .empty_response(404, "User not found")
        .response(200, "User found", user_schema())
        .empty_response(204, "No content");
    assert_eq!(config.tags, vec!["users".to_string(), "public".to_string()]);
    let mut r: APIRouter<u8> = APIRouter::new("/api");
    r.get("/user/{id}", 0, vec![ExtractorKind::Path(id_schema())], config);
    let op = &r.routes[0].operation;
    assert_eq!(op.summary.as_deref(), Some("Get a user"));
    assert_eq!(op.description.as_deref(), Some("Returns a user by ID"));
    assert_eq!(op.tags, vec!["users".to_string(), "public".to_string()]);
    assert_eq!(op.parameters.len(), 1);
    let statuses: Vec<u16> = op.responses.responses.keys().copied().collect();
    assert_eq!(statuses, vec![200, 204, 404]);
    let ok = &op.responses.responses[&200];
    assert_eq!(ok.description, "User found");
    let content = ok.content.as_ref().expect("JSON body");
    assert_eq!(content.media_type, "application/json");
    assert_eq!(content.schema.properties.len(), 2);
    assert_eq!(content.schema.required, vec!["id".to_string()]);
    assert!(op.responses.responses[&404].content.is_none());
}

#[test]
fn later_response_replaces_earlier_for_same_status() {
    let config = RouteConfig::new().empty_response(200, "first").ok(user_schema());
    assert_eq!(config.responses.len(), 1);
    assert_eq!(config.responses[&200].description, "Success");
    assert!(config.responses[&200].schema.is_some());
}

#[test]
fn converter_builds_operation() {
    let mut c = OpenApiConverter::new();
    c.process_extractor_kind(ExtractorKind::Query(user_schema()));
    c.process_extractor_kind(ExtractorKind::State("S"));
    let body = OpenApiConverter::convert_schemars_to_oa(&user_schema());
    assert_eq!(body.properties.len(), 2);
    let op = c.into_operation();
    assert_eq!(op.parameters.len(), 2);
    assert!(op.request_body.is_none());
    let responses = OpenApiConverter::build_responses(indexmap::IndexMap::new());
    assert!(responses.responses.is_empty());
}

#[test]
fn duplicate_property_keeps_first_place_and_last_schema() {
    let schema = obj(vec![
        ("type", s("object")),
        (
            "properties",
            obj(vec![
                ("a", obj(vec![("type", s("string"))])),
                ("b", obj(vec![("type", s("string"))])),
                ("a", obj(vec![("type", s("boolean"))])),
            ]),
        ),
        ("required", JsonValue::Array(vec![s("a")])),
    ]);
    let body = OpenApiConverter::convert_schemars_to_oa(&schema);
    let keys: Vec<&String> = body.properties.keys().collect();
    assert_eq!(keys, vec!["a", "b"]);
    assert!(matches!(body.properties["a"], ParamSchema::Boolean));
    assert_eq!(body.required, vec!["a".to_string(), "a".to_string()]);
}

#[test]
fn router_clone_keeps_routes() {
    let mut r: APIRouter<u8> = APIRouter::new("/api");
    r.get("/a", 4, vec![], RouteConfig::new().summary("A"));
    let copy = r.clone();
    assert_eq!(copy.prefix, "/api");
    assert_eq!(copy.routes.len(), 1);
    assert_eq!(copy.routes[0].path, "/api/a");
    assert_eq!(copy.routes[0].handler, 4);
    assert_eq!(copy.routes[0].operation.summary.as_deref(), Some("A"));
}
