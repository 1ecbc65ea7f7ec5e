use fastrust::app::SWAGGER_HEAD;
use fastrust::openapi::RouteRef;
use fastrust::{APIApp, APIRouter, RouteConfig};

#[test]
fn new_app_defaults() {
    let app: APIApp<(), u8> = APIApp::new();
    assert_eq!(app.title, None);
    assert_eq!(app.summary, None);
    assert_eq!(app.description, None);
    assert_eq!(app.version, "0.0.1");
    assert_eq!(app.openapi_path, "/openapi.json");
    assert_eq!(app.docs_path, "/docs");
    assert_eq!(app.host, None);
    assert_eq!(app.port, None);
    assert!(app.routers.is_empty());
    let d: APIApp<(), u8> = APIApp::default();
    assert_eq!(d.version, "0.0.1");
}

#[test]
fn builder_sets_each_setting() {
    let app: APIApp<i32, u8> = APIApp::new_with_state(42)
        .set_title("My API")
        .set_summary("Short")
        .set_description("Long")
        .set_version("1.0.0")
        .set_openapi_path("/api-spec.json")
        .set_docs_path("/swagger")
        .set_host("localhost")
        .set_port(8080);
    assert_eq!(app.state, 42);
    assert_eq!(app.title.as_deref(), Some("My API"));
    assert_eq!(app.summary.as_deref(), Some("Short"));
    assert_eq!(app.description.as_deref(), Some("Long"));
    assert_eq!(app.version, "1.0.0");
    assert_eq!(app.openapi_path, "/api-spec.json");
    assert_eq!(app.docs_path, "/swagger");
    assert_eq!(app.host.as_deref(), Some("localhost"));
    assert_eq!(app.port, Some(8080));
}

#[test]
fn swagger_page_loads_the_spec_path() {
    let html = APIApp::<(), u8>::swagger_html("/openapi.json");
    assert!(html.contains("Swagger UI"));
    assert!(html.contains("url: \"/openapi.json\""));
    assert!(html.starts_with("<!DOCTYPE html>"));
    assert!(html.ends_with("</html>"));
    assert!(html.contains("body { margin: 0; padding: 0; }"));
    assert_eq!(html.len(), SWAGGER_HEAD.len() + "/openapi.json".len() + 328);
}

#[test]
fn document_info_and_servers() {
    let app: APIApp<(), u8> = APIApp::new();
    let doc = app.openapi_document();
    assert_eq!(doc.openapi, "3.0.3");
    assert_eq!(doc.info.title, "Axum API");
    assert_eq!(doc.info.summary, None);
    assert_eq!(doc.info.description, None);
    assert_eq!(doc.info.version, "0.0.1");
    assert!(doc.paths.is_empty());
    assert!(doc.servers.is_empty());

    let app: APIApp<(), u8> = APIApp::new().set_title("My API").set_description("d").set_version("1.0.0").set_host("localhost");
    assert!(app.openapi_document().servers.is_empty());
    let app = app.set_port(8080);
    let doc = app.openapi_document();
    assert_eq!(doc.info.title, "My API");
    assert_eq!(doc.info.description.as_deref(), Some("d"));
    assert_eq!(doc.servers.len(), 1);
    assert_eq!(doc.servers[0].url, "http://localhost:8080");
    assert_eq!(doc.servers[0].description.as_deref(), Some("Application Server"));
}

#[test]
fn summary_reaches_the_document() {
    let first: APIApp<(), u8> = APIApp::new().set_summary("One line");
    let second: APIApp<(), u8> = APIApp::new().set_summary("Another line");
    assert_eq!(first.openapi_document().info.summary.as_deref(), Some("One line"));
    assert_eq!(second.openapi_document().info.summary.as_deref(), Some("Another line"));
}

#[test]
fn negative_port_in_server_url() {
    let app: APIApp<(), u8> = APIApp::new().set_host("h").set_port(-1);
    assert_eq!(app.openapi_document().servers[0].url, "http://h:-1");
}

#[test]
fn document_groups_routes_by_path() {
    let mut api: APIRouter<u8> = APIRouter::new("/api");
    api.get("/user/{id}", 0, vec![], RouteConfig::new())
        .post("/user", 1, vec![], RouteConfig::new())
        .delete("/user/{id}", 2, vec![], RouteConfig::new())
        .connect("/tunnel", 3, vec![], RouteConfig::new());
    let mut other: APIRouter<u8> = APIRouter::new("/");
    other.get("/api/user/{id}/", 4, vec![], RouteConfig::new());
    let app: APIApp<(), u8> = APIApp::new().register_router(api).register_router(other);
    let doc = app.openapi_document();
    let keys: Vec<&String> = doc.paths.keys().collect();
    assert_eq!(keys, vec!["/api/user/{id}", "/api/user", "/api/tunnel"]);
    let item = doc.paths["/api/user/{id}"];
    assert_eq!(item.get, Some(RouteRef { router: 1, route: 0 }));
    assert_eq!(item.delete, Some(RouteRef { router: 0, route: 2 }));
    assert_eq!(item.post, None);
    let user = doc.paths["/api/user"];
    assert_eq!(user.post, Some(RouteRef { router: 0, route: 1 }));
    let tunnel = doc.paths["/api/tunnel"];
    assert_eq!(tunnel.get, None);
    assert_eq!(tunnel.post, None);
    assert_eq!(tunnel.trace, None);
}

#[test]
fn register_router_keeps_order() {
    let a: APIRouter<u8> = APIRouter::new("/a");
    let b: APIRouter<u8> = APIRouter::new("/b");
    let app: APIApp<(), u8> = APIApp::new().register_router(a).register_router(b);
    assert_eq!(app.routers.len(), 2);
    assert_eq!(app.routers[0].prefix, "/a");
    assert_eq!(app.routers[1].prefix, "/b");
}

#[test]
fn bind_address_defaults() {
    let app: APIApp<(), u8> = APIApp::new();
    assert_eq!(app.address(), "127.0.0.1:6969");
    let app = app.set_host("0.0.0.0");
    assert_eq!(app.address(), "0.0.0.0:6969");
    let app = app.set_port(8080);
    assert_eq!(app.address(), "0.0.0.0:8080");
    let app: APIApp<(), u8> = APIApp::new().set_port(1);
    assert_eq!(app.address(), "127.0.0.1:1");
}
