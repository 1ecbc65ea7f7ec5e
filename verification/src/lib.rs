//! fastrust: the core of a FastAPI-inspired web framework.
//!
//! The library holds the route table (routers, routes, methods and paths),
//! the OpenAPI 3.0 documentation built from handler extractors and route
//! configurations, and the application settings. Handlers are carried as
//! values of a type parameter; serving them is left to the program.

pub mod app;
pub mod converter;
pub mod document_json;
pub mod error;
pub mod extractor;
pub mod index_map;
pub mod json;
pub mod json_text;
pub mod openapi;
pub mod path;
pub mod responses;
pub mod route;
pub mod route_config;
pub mod router;
pub mod schema;
pub mod text;

pub use app::APIApp;
pub use error::Error;
pub use path::canonicalize_path;
pub use route::Method;
pub use route_config::RouteConfig;
pub use router::APIRouter;
