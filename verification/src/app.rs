//! The application: its settings, its routers, its OpenAPI document and its
//! documentation page.
use vstd::prelude::*;
use indexmap::IndexMap;
use crate::index_map::{
    entries_insert, entries_lookup, get_path, insert_path, key_index, keys_distinct, lemma_insert_keeps_distinct, lemma_key_index,
    lemma_lookup_after_insert, new_path_map, path_entries,
};
use crate::openapi::{empty_path_item, PathItem, RouteRef};
use crate::route::Method;
use crate::router::APIRouter;
use crate::schema::opt_view;
use crate::text::{decimal_text, push_signed_decimal};

verus! {

/// The Swagger UI page up to the place of the specification's URL.
pub const SWAGGER_HEAD: &'static str = "<!DOCTYPE html>\n<html>\n<head>\n    <title>Swagger UI</title>\n    <meta charset=\"utf-8\" />\n    <meta name=\"viewport\" content=\"width=device-width, initial-scale=1\" />\n    <link rel=\"stylesheet\" href=\"https://unpkg.com/swagger-ui-dist@5/swagger-ui.css\" />\n    <style>\n        body { margin: 0; padding: 0; }\n    </style>\n</head>\n<body>\n    <div id=\"swagger-ui\"></div>\n    <script src=\"https://unpkg.com/swagger-ui-dist@5/swagger-ui-bundle.js\"></script>\n    <script>\n        window.onload = function() {\n            SwaggerUIBundle({\n                url: \"";

/// The Swagger UI page after the specification's URL.
pub const SWAGGER_TAIL: &'static str = "\",\n                dom_id: '#swagger-ui',\n                presets: [\n                    SwaggerUIBundle.presets.apis,\n                    SwaggerUIBundle.SwaggerUIStandalonePreset\n                ],\n                layout: \"BaseLayout\",\n                deepLinking: true\n            });\n        };\n    </script>\n</body>\n</html>";

/// The main application: its OpenAPI metadata, the paths of its
/// specification and documentation page, its state, its address, and the
/// routers registered with it, in order.
#[derive(Debug)]
pub struct APIApp<S, H> {
    pub title: Option<String>,
    pub summary: Option<String>,
    pub description: Option<String>,
    pub version: String,
    pub openapi_path: String,
    pub docs_path: String,
    pub state: S,
    pub host: Option<String>,
    pub port: Option<i32>,
    pub routers: Vec<APIRouter<H>>,
}

/// The settings of an application that its builder methods change.
#[derive(Clone, Copy, Debug, PartialEq, Eq, Structural)]
pub enum Setting {
    Title,
    Summary,
    Description,
    Version,
    OpenapiPath,
    DocsPath,
    Host,
    Port,
    Routers,
}

/// General information of an OpenAPI document. OpenAPI 3.0 has no field for
/// a summary; the document carries it as the `x-summary` extension.
#[derive(Debug)]
pub struct Info {
    pub title: String,
    pub summary: Option<String>,
    pub description: Option<String>,
    pub version: String,
}

/// A server of an OpenAPI document.
#[derive(Debug)]
pub struct Server {
    pub url: String,
    pub description: Option<String>,
}

/// An OpenAPI 3.0 document: its version, general information, one item per
/// path with the routes documented there, and the servers.
#[derive(Debug)]
pub struct OpenApiDocument {
    pub openapi: String,
    pub info: Info,
    pub paths: IndexMap<String, PathItem>,
    pub servers: Vec<Server>,
}

impl<S, H> APIApp<S, H> {
    /// The settings of a new application around `state`: no title, summary,
    /// description, host or port, version `0.0.1`, the specification at
    /// `/openapi.json`, the documentation page at `/docs`, and no routers.
    pub open spec fn is_new(&self, state: S) -> bool {
        &&& self.title is None
        &&& self.summary is None
        &&& self.description is None
        &&& self.version@ == "0.0.1"@
        &&& self.openapi_path@ == "/openapi.json"@
        &&& self.docs_path@ == "/docs"@
        &&& self.state == state
        &&& self.host is None
        &&& self.port is None
        &&& self.routers@.len() == 0
    }

    /// `self` and `other` have the same settings, state and routers, except
    /// possibly for the one that `changed` names.
    pub open spec fn same_except(&self, other: &Self, changed: Setting) -> bool {
        &&& changed != Setting::Title ==> self.title == other.title
        &&& changed != Setting::Summary ==> self.summary == other.summary
        &&& changed != Setting::Description ==> self.description == other.description
        &&& changed != Setting::Version ==> self.version == other.version
        &&& changed != Setting::OpenapiPath ==> self.openapi_path == other.openapi_path
        &&& changed != Setting::DocsPath ==> self.docs_path == other.docs_path
        &&& self.state == other.state
        &&& changed != Setting::Host ==> self.host == other.host
        &&& changed != Setting::Port ==> self.port == other.port
        &&& changed != Setting::Routers ==> self.routers == other.routers
    }

    /// Creates an application around `state`, with the default settings.
    pub fn new_with_state(state: S) -> (r: APIApp<S, H>)
        ensures
            r.is_new(state),
    {
        APIApp {
            title: None,
            summary: None,
            description: None,
            version: "0.0.1".to_string(),
            openapi_path: "/openapi.json".to_string(),
            docs_path: "/docs".to_string(),
            state,
            host: None,
            port: None,
            routers: Vec::new(),
        }
    }

    /// Sets the API title.
    pub fn set_title(self, title: &str) -> (r: APIApp<S, H>)
        ensures
            r.title matches Some(t) && t@ == title@,
            r.same_except(&self, Setting::Title),
    {
        let mut app = self;
        app.title = Some(title.to_string());
        app
    }

    /// Sets the API summary: a short description of the API, carried into
    /// the info of the OpenAPI document (as its `x-summary` extension) and so
    /// shown on the Swagger UI page.
    pub fn set_summary(self, summary: &str) -> (r: APIApp<S, H>)
        ensures
            r.summary matches Some(t) && t@ == summary@,
            r.same_except(&self, Setting::Summary),
    {
        let mut app = self;
        app.summary = Some(summary.to_string());
        app
    }

    /// Sets the API description.
    pub fn set_description(self, description: &str) -> (r: APIApp<S, H>)
        ensures
            r.description matches Some(t) && t@ == description@,
            r.same_except(&self, Setting::Description),
    {
        let mut app = self;
        app.description = Some(description.to_string());
        app
    }

    /// Sets the API version.
    pub fn set_version(self, version: &str) -> (r: APIApp<S, H>)
        ensures
            r.version@ == version@,
            r.same_except(&self, Setting::Version),
    {
        let mut app = self;
        app.version = version.to_string();
        app
    }

    /// Sets the path at which the OpenAPI specification is served.
    pub fn set_openapi_path(self, openapi_path: &str) -> (r: APIApp<S, H>)
        ensures
            r.openapi_path@ == openapi_path@,
            r.same_except(&self, Setting::OpenapiPath),
    {
        let mut app = self;
        app.openapi_path = openapi_path.to_string();
        app
    }

    /// Sets the path at which the Swagger UI page is served.
    pub fn set_docs_path(self, docs_path: &str) -> (r: APIApp<S, H>)
        ensures
            r.docs_path@ == docs_path@,
            r.same_except(&self, Setting::DocsPath),
    {
        let mut app = self;
        app.docs_path = docs_path.to_string();
        app
    }

    /// Sets the server host.
    pub fn set_host(self, host: &str) -> (r: APIApp<S, H>)
        ensures
            r.host matches Some(t) && t@ == host@,
            r.same_except(&self, Setting::Host),
    {
        let mut app = self;
        app.host = Some(host.to_string());
        app
    }

    /// Sets the server port.
    pub fn set_port(self, port: i32) -> (r: APIApp<S, H>)
        ensures
            r.port == Some(port),
            r.same_except(&self, Setting::Port),
    {
        let mut app = self;
        app.port = Some(port);
        app
    }

    /// Registers a router; routers are documented and served in the order
    /// in which they are registered.
    pub fn register_router(self, router: APIRouter<H>) -> (r: APIApp<S, H>)
        ensures
            r.routers@ == self.routers@.push(router),
            r.same_except(&self, Setting::Routers),
    {
        let mut app = self;
        app.routers.push(router);
        app
    }

    /// The servers of the document: one, `http://host:port`, when both host
    /// and port are set, and none otherwise.
    pub fn servers(&self) -> (r: Vec<Server>)
        ensures
            documents_servers(self.host, self.port, r@),
    {
        let mut servers: Vec<Server> = Vec::new();
        match (&self.host, self.port) {
            (Some(host), Some(port)) => {
                let mut url = String::new();
                url.append("http://");
                url.append(host.as_str());
                url.append(":");
                push_signed_decimal(&mut url, port as i64);
                servers.push(Server { url, description: Some("Application Server".to_string()) });
            },
            _ => {},
        }
        servers
    }

    /// The OpenAPI 3.0.3 document of the application: its title (`Axum API`
    /// when none is set), summary, description and version; one item per route path,
    /// in the order in which paths first appear across the routers, where
    /// each method's slot refers to the last route with that path and method;
    /// and the servers.
    pub fn openapi_document(&self) -> (doc: OpenApiDocument)
        ensures
            doc.openapi@ == "3.0.3"@,
            doc.info.title@ == document_title(self.title),
            opt_view(doc.info.summary) == opt_view(self.summary),
            opt_view(doc.info.description) == opt_view(self.description),
            doc.info.version@ == self.version@,
            path_entries(doc.paths) == paths_of(app_entries(self.routers@)),
            documents_servers(self.host, self.port, doc.servers@),
    {
        let mut paths = new_path_map();
        for i in 0..self.routers.len()
            invariant
                path_entries(paths) == paths_of(app_entries(self.routers@.take(i as int))),
        {
            let router = &self.routers[i];
            assert(self.routers@.take(i + 1).drop_last() =~= self.routers@.take(i as int));
            let ghost before = app_entries(self.routers@.take(i as int));
            let ghost mine = router_entries(*router, i as int);
            for j in 0..router.routes.len()
                invariant
                    before == app_entries(self.routers@.take(i as int)),
                    mine == router_entries(*router, i as int),
                    path_entries(paths) == paths_of(before + mine.take(j as int)),
            {
                let route = &router.routes[j];
                let item = match get_path(&paths, route.path.as_str()) {
                    Some(it) => *it,
                    None => PathItem::empty(),
                };
                let at = RouteRef { router: i, route: j };
                let item = item.with_method(route.method, at);
                insert_path(&mut paths, route.path.clone(), item);
                assert((before + mine.take(j + 1)).drop_last() =~= before + mine.take(j as int));
            }
            assert(mine.take(router.routes@.len() as int) =~= mine);
        }
        assert(self.routers@.take(self.routers@.len() as int) =~= self.routers@);
        let title = match &self.title {
            Some(t) => t.clone(),
            None => "Axum API".to_string(),
        };
        let summary = match &self.summary {
            Some(s) => Some(s.clone()),
            None => None,
        };
        let description = match &self.description {
            Some(d) => Some(d.clone()),
            None => None,
        };
        OpenApiDocument {
            openapi: "3.0.3".to_string(),
            info: Info { title, summary, description, version: self.version.clone() },
            paths,
            servers: self.servers(),
        }
    }

    /// The address the server binds: `host:port`, with host `127.0.0.1` and
    /// port `6969` when they are not set.
    pub fn address(&self) -> (r: String)
        ensures
            r@ == bind_address(self.host, self.port),
    {
        let mut addr = String::new();
        match &self.host {
            Some(h) => addr.append(h.as_str()),
            None => addr.append("127.0.0.1"),
        }
        addr.append(":");
        let port: i32 = match self.port {
            Some(p) => p,
            None => 6969,
        };
        push_signed_decimal(&mut addr, port as i64);
        addr
    }

    /// The Swagger UI page that loads the specification served at
    /// `openapi_path`.
    pub fn swagger_html(openapi_path: &str) -> (r: String)
        ensures
            r@ == swagger_page(openapi_path@),
    {
        let mut html = String::new();
        html.append(SWAGGER_HEAD);
        html.append(openapi_path);
        html.append(SWAGGER_TAIL);
        html
    }
}

impl<H> APIApp<(), H> {
    /// Creates an application with no state and the default settings.
    pub fn new() -> (r: APIApp<(), H>)
        ensures
            r.is_new(()),
    {
        APIApp::new_with_state(())
    }
}

impl<H> Default for APIApp<(), H> {
    fn default() -> (r: APIApp<(), H>)
        ensures
            r.is_new(()),
    {
        APIApp::new_with_state(())
    }
}

/// The slot of `item` for the method `m`; `CONNECT` has no slot.
pub open spec fn slot(item: PathItem, m: Method) -> Option<RouteRef> {
    match m {
        Method::Get => item.get,
        Method::Post => item.post,
        Method::Put => item.put,
        Method::Delete => item.delete,
        Method::Patch => item.patch,
        Method::Head => item.head,
        Method::Trace => item.trace,
        Method::Options => item.options,
        Method::Connect => None,
    }
}

/// `item` with the slot for `m` set to `r`; `CONNECT` leaves it unchanged.
pub open spec fn with_slot(item: PathItem, m: Method, r: RouteRef) -> PathItem {
    match m {
        Method::Get => PathItem { get: Some(r), ..item },
        Method::Post => PathItem { post: Some(r), ..item },
        Method::Put => PathItem { put: Some(r), ..item },
        Method::Delete => PathItem { delete: Some(r), ..item },
        Method::Patch => PathItem { patch: Some(r), ..item },
        Method::Head => PathItem { head: Some(r), ..item },
        Method::Trace => PathItem { trace: Some(r), ..item },
        Method::Options => PathItem { options: Some(r), ..item },
        Method::Connect => item,
    }
}

impl PathItem {
    /// A path item with every slot empty.
    pub fn empty() -> (r: PathItem)
        ensures
            r == empty_path_item(),
    {
        PathItem {
            get: None,
            put: None,
            post: None,
            delete: None,
            options: None,
            head: None,
            patch: None,
            trace: None,
        }
    }

    /// This item with the slot for `m` set to `r` (see [`with_slot`]).
    pub fn with_method(self, m: Method, r: RouteRef) -> (out: PathItem)
        ensures
            out == with_slot(self, m, r),
    {
        let mut item = self;
        match m {
            Method::Get => item.get = Some(r),
            Method::Post => item.post = Some(r),
            Method::Put => item.put = Some(r),
            Method::Delete => item.delete = Some(r),
            Method::Patch => item.patch = Some(r),
            Method::Head => item.head = Some(r),
            Method::Trace => item.trace = Some(r),
            Method::Options => item.options = Some(r),
            Method::Connect => {},
        }
        item
    }
}

/// A route as the document sees it: its path, its method and where it is.
pub struct RouteEntry {
    pub path: Seq<char>,
    pub method: Method,
    pub at: RouteRef,
}

/// The routes of `router`, the router at position `index`, in order.
pub open spec fn router_entries<H>(router: APIRouter<H>, index: int) -> Seq<RouteEntry> {
    router.routes@.map(
        |j: int, route: crate::route::Route<H>|
            RouteEntry { path: route.path@, method: route.method, at: RouteRef { router: index as usize, route: j as usize } },
    )
}

/// The routes of all `routers`, router by router, in order.
pub open spec fn app_entries<H>(routers: Seq<APIRouter<H>>) -> Seq<RouteEntry>
    decreases routers.len(),
{
    if routers.len() == 0 {
        Seq::empty()
    } else {
        app_entries(routers.drop_last()) + router_entries(routers.last(), routers.len() - 1)
    }
}

/// The path entries after documenting the route `e`: the item of its path
/// (a new, empty one when the path is new) gets `e` in the slot of its
/// method.
pub open spec fn add_route_entry(entries: Seq<(Seq<char>, PathItem)>, e: RouteEntry) -> Seq<(Seq<char>, PathItem)> {
    let item = match entries_lookup(entries, e.path) {
        Some(it) => it,
        None => empty_path_item(),
    };
    entries_insert(entries, e.path, with_slot(item, e.method, e.at))
}

/// The path entries of a document of the routes `es`, documented in order.
pub open spec fn paths_of(es: Seq<RouteEntry>) -> Seq<(Seq<char>, PathItem)>
    decreases es.len(),
{
    if es.len() == 0 {
        Seq::empty()
    } else {
        add_route_entry(paths_of(es.drop_last()), es.last())
    }
}

/// The last route of `es` with path `p` and method `m`, if any.
pub open spec fn last_route(es: Seq<RouteEntry>, p: Seq<char>, m: Method) -> Option<RouteRef>
    decreases es.len(),
{
    if es.len() == 0 {
        None
    } else if es.last().path == p && es.last().method == m {
        Some(es.last().at)
    } else {
        last_route(es.drop_last(), p, m)
    }
}

/// The paths of a document: no path has two items, every route's path has
/// an item and no other path has one, and at each path the slot of every
/// method but `CONNECT` refers to the last route with that path and method,
/// or is empty when there is none.
pub proof fn lemma_document_paths(es: Seq<RouteEntry>)
    ensures
        keys_distinct(paths_of(es)),
        forall|i: int| 0 <= i < es.len() ==> entries_lookup(paths_of(es), #[trigger] es[i].path) is Some,
        forall|p: Seq<char>|
            #![trigger entries_lookup(paths_of(es), p)]
            entries_lookup(paths_of(es), p) is Some ==> exists|i: int| 0 <= i < es.len() && es[i].path == p,
        forall|p: Seq<char>, m: Method|
            #![trigger last_route(es, p, m)]
            m != Method::Connect ==> match entries_lookup(paths_of(es), p) {
                Some(item) => slot(item, m) == last_route(es, p, m),
                None => last_route(es, p, m) is None,
            },
    decreases es.len(),
{
    if es.len() > 0 {
        let prev_es = es.drop_last();
        let e = es.last();
        lemma_document_paths(prev_es);
        let prev = paths_of(prev_es);
        let item = match entries_lookup(prev, e.path) {
            Some(it) => it,
            None => empty_path_item(),
        };
        let new_item = with_slot(item, e.method, e.at);
        lemma_insert_keeps_distinct(prev, e.path, new_item);
        assert forall|i: int| 0 <= i < es.len() implies entries_lookup(paths_of(es), #[trigger] es[i].path) is Some by {
            lemma_lookup_after_insert(prev, e.path, new_item, es[i].path);
            if i < es.len() - 1 {
                assert(es[i] == prev_es[i]);
            }
        }
        assert forall|p: Seq<char>|
            #![trigger entries_lookup(paths_of(es), p)]
            entries_lookup(paths_of(es), p) is Some implies exists|i: int| 0 <= i < es.len() && es[i].path == p by {
            lemma_lookup_after_insert(prev, e.path, new_item, p);
            if p != e.path {
                assert(entries_lookup(prev, p) is Some);
                let i = choose|i: int| 0 <= i < prev_es.len() && prev_es[i].path == p;
                assert(es[i] == prev_es[i]);
            } else {
                assert(es[es.len() - 1].path == p);
            }
        }
        assert forall|p: Seq<char>, m: Method|
            #![trigger last_route(es, p, m)]
            m != Method::Connect implies match entries_lookup(paths_of(es), p) {
                Some(it) => slot(it, m) == last_route(es, p, m),
                None => last_route(es, p, m) is None,
            } by {
            lemma_lookup_after_insert(prev, e.path, new_item, p);
            assert(last_route(prev_es, p, m) == last_route(prev_es, p, m));
        }
    }
}

/// `at` names an existing route of `routers`, and that route has path `p`
/// and method `m`.
pub open spec fn refers_to<H>(routers: Seq<APIRouter<H>>, at: RouteRef, p: Seq<char>, m: Method) -> bool {
    &&& at.router < routers.len()
    &&& at.route < routers[at.router as int].routes@.len()
    &&& routers[at.router as int].routes@[at.route as int].path@ == p
    &&& routers[at.router as int].routes@[at.route as int].method == m
}

/// Every route entry of `routers` refers to an existing route with the
/// entry's path and method.
pub proof fn lemma_entries_refer<H>(routers: Seq<APIRouter<H>>)
    requires
        routers.len() <= usize::MAX,
    ensures
        forall|i: int|
            0 <= i < app_entries(routers).len() ==> refers_to(
                routers,
                #[trigger] app_entries(routers)[i].at,
                app_entries(routers)[i].path,
                app_entries(routers)[i].method,
            ),
    decreases routers.len(),
{
    if routers.len() > 0 {
        let prev = routers.drop_last();
        lemma_entries_refer(prev);
        let es = app_entries(routers);
        let before = app_entries(prev);
        let mine = router_entries(routers.last(), routers.len() - 1);
        assert(es == before + mine);
        assert forall|i: int| 0 <= i < es.len() implies refers_to(routers, #[trigger] es[i].at, es[i].path, es[i].method) by {
            if i < before.len() {
                assert(es[i] == before[i]);
                assert(prev[before[i].at.router as int] == routers[before[i].at.router as int]);
            } else {
                let j = i - before.len();
                let last = routers.last();
                vstd::std_specs::vec::axiom_spec_len(&last.routes);
                assert(es[i] == mine[j]);
                assert(mine[j].at.router as int == routers.len() - 1);
                assert(mine[j].at.route as int == j);
            }
        }
    }
}

/// The last route with a path and a method is one of the routes, with that
/// path and method.
pub proof fn lemma_last_route_found(es: Seq<RouteEntry>, p: Seq<char>, m: Method)
    ensures
        last_route(es, p, m) matches Some(at) ==> exists|i: int|
            0 <= i < es.len() && es[i].at == at && es[i].path == p && es[i].method == m,
    decreases es.len(),
{
    if es.len() > 0 {
        lemma_last_route_found(es.drop_last(), p, m);
        if !(es.last().path == p && es.last().method == m) {
            if last_route(es, p, m) is Some {
                let i = choose|i: int|
                    0 <= i < es.len() - 1 && es.drop_last()[i].at == last_route(es, p, m)->0
                        && es.drop_last()[i].path == p && es.drop_last()[i].method == m;
                assert(es[i] == es.drop_last()[i]);
            }
        }
    }
}

/// Every slot of a document of `routers` refers to an existing route, and
/// that route has the item's path and the slot's method.
pub proof fn lemma_document_refs<H>(routers: Seq<APIRouter<H>>)
    requires
        routers.len() <= usize::MAX,
    ensures
        forall|i: int, m: Method|
            #![trigger slot(paths_of(app_entries(routers))[i].1, m)]
            0 <= i < paths_of(app_entries(routers)).len() ==> match slot(paths_of(app_entries(routers))[i].1, m) {
                Some(at) => refers_to(routers, at, paths_of(app_entries(routers))[i].0, m),
                None => true,
            },
{
    let es = app_entries(routers);
    let paths = paths_of(es);
    lemma_document_paths(es);
    lemma_entries_refer(routers);
    assert forall|i: int, m: Method|
        #![trigger slot(paths[i].1, m)]
        0 <= i < paths.len() implies match slot(paths[i].1, m) {
        Some(at) => refers_to(routers, at, paths[i].0, m),
        None => true,
    } by {
        let p = paths[i].0;
        lemma_key_index(paths, p);
        if key_index(paths, p) != Some(i) {
            let k = key_index(paths, p)->0;
            assert(k < i || k > i);
        }
        assert(entries_lookup(paths, p) == Some(paths[i].1));
        if m != Method::Connect {
            assert(slot(paths[i].1, m) == last_route(es, p, m));
            lemma_last_route_found(es, p, m);
        }
    }
}

/// The position of the first route of `es` with path `p`, or `-1` when no
/// route has that path.
pub open spec fn first_route_index(es: Seq<RouteEntry>, p: Seq<char>) -> int
    decreases es.len(),
{
    if es.len() == 0 {
        -1
    } else {
        let f = first_route_index(es.drop_last(), p);
        if f >= 0 {
            f
        } else if es.last().path == p {
            es.len() - 1
        } else {
            -1
        }
    }
}

proof fn lemma_first_route_index(es: Seq<RouteEntry>, p: Seq<char>)
    ensures
        -1 <= first_route_index(es, p) < es.len(),
        first_route_index(es, p) >= 0 ==> es[first_route_index(es, p)].path == p,
        first_route_index(es, p) >= 0 <==> exists|i: int| 0 <= i < es.len() && es[i].path == p,
    decreases es.len(),
{
    if es.len() > 0 {
        let prev = es.drop_last();
        lemma_first_route_index(prev, p);
        if first_route_index(prev, p) >= 0 {
            assert(es[first_route_index(prev, p)] == prev[first_route_index(prev, p)]);
        } else if es.last().path != p {
            assert forall|i: int| 0 <= i < es.len() implies es[i].path != p by {
                if i < es.len() - 1 {
                    assert(es[i] == prev[i]);
                }
            }
        }
        if exists|i: int| 0 <= i < es.len() && es[i].path == p {
            let i = choose|i: int| 0 <= i < es.len() && es[i].path == p;
            if i < es.len() - 1 {
                assert(prev[i].path == p);
            }
        }
    }
}

/// The paths of a document come in the order in which they first appear
/// among its routes.
pub proof fn lemma_document_path_order(es: Seq<RouteEntry>)
    ensures
        forall|a: int, b: int|
            0 <= a < b < paths_of(es).len() ==> 0 <= first_route_index(es, #[trigger] paths_of(es)[a].0)
                < first_route_index(es, #[trigger] paths_of(es)[b].0),
    decreases es.len(),
{
    if es.len() > 0 {
        let prev_es = es.drop_last();
        let e = es.last();
        lemma_document_path_order(prev_es);
        lemma_document_paths(prev_es);
        let prev = paths_of(prev_es);
        let item = match entries_lookup(prev, e.path) {
            Some(it) => it,
            None => empty_path_item(),
        };
        let new_item = with_slot(item, e.method, e.at);
        let cur = paths_of(es);
        lemma_key_index(prev, e.path);
        // every key of the previous document first appears before the last route
        assert forall|a: int| 0 <= a < prev.len() implies 0 <= first_route_index(es, #[trigger] prev[a].0)
            == first_route_index(prev_es, prev[a].0) < prev_es.len() by {
            let k = prev[a].0;
            lemma_key_index(prev, k);
            let ki = key_index(prev, k);
            assert(ki is Some);
            assert(entries_lookup(prev, k) is Some);
            lemma_first_route_index(prev_es, k);
        }
        match key_index(prev, e.path) {
            Some(i) => {
                assert(cur == prev.update(i, (prev[i].0, new_item)));
                assert forall|a: int, b: int|
                    0 <= a < b < cur.len() implies 0 <= first_route_index(es, #[trigger] cur[a].0)
                        < first_route_index(es, #[trigger] cur[b].0) by {
                    assert(cur[a].0 == prev[a].0);
                    assert(cur[b].0 == prev[b].0);
                    assert(first_route_index(prev_es, prev[a].0) < first_route_index(prev_es, prev[b].0));
                }
            },
            None => {
                assert(cur == prev.push((e.path, new_item)));
                assert(entries_lookup(prev, e.path) is None);
                lemma_first_route_index(prev_es, e.path);
                assert(first_route_index(prev_es, e.path) == -1) by {
                    if first_route_index(prev_es, e.path) >= 0 {
                        let i = first_route_index(prev_es, e.path);
                        assert(entries_lookup(prev, prev_es[i].path) is Some);
                    }
                }
                assert forall|a: int, b: int|
                    0 <= a < b < cur.len() implies 0 <= first_route_index(es, #[trigger] cur[a].0)
                        < first_route_index(es, #[trigger] cur[b].0) by {
                    assert(cur[a].0 == prev[a].0);
                    if b < prev.len() {
                        assert(cur[b].0 == prev[b].0);
                        assert(first_route_index(prev_es, prev[a].0) < first_route_index(prev_es, prev[b].0));
                    } else {
                        assert(cur[b].0 == e.path);
                    }
                }
            },
        }
    }
}

/// The title of the document: the app's title, `Axum API` when it has none.
pub open spec fn document_title(title: Option<String>) -> Seq<char> {
    match title {
        Some(t) => t@,
        None => "Axum API"@,
    }
}

/// The URL of the server at `host` and `port`.
pub open spec fn server_url(host: Seq<char>, port: i32) -> Seq<char> {
    "http://"@ + host + ":"@ + decimal_text(port as int)
}

/// The address `host:port` that the server binds, with host `127.0.0.1` and
/// port `6969` when they are not set.
pub open spec fn bind_address(host: Option<String>, port: Option<i32>) -> Seq<char> {
    let h = match host {
        Some(h) => h@,
        None => "127.0.0.1"@,
    };
    let p: i32 = match port {
        Some(p) => p,
        None => 6969,
    };
    h + ":"@ + decimal_text(p as int)
}

/// `servers` lists one server, `http://host:port` described as
/// `Application Server`, when both `host` and `port` are set, and none
/// otherwise.
pub open spec fn documents_servers(host: Option<String>, port: Option<i32>, servers: Seq<Server>) -> bool {
    match (host, port) {
        (Some(h), Some(p)) => {
            &&& servers.len() == 1
            &&& servers[0].url@ == server_url(h@, p)
            &&& opt_view(servers[0].description) == Some("Application Server"@)
        },
        _ => servers.len() == 0,
    }
}

/// The Swagger UI page for the specification at `openapi_path`.
pub open spec fn swagger_page(openapi_path: Seq<char>) -> Seq<char> {
    SWAGGER_HEAD@ + openapi_path + SWAGGER_TAIL@
}

/// The Swagger UI page embeds the specification path it is given: the path
/// stands right after the page's head, the page is as long as head, path
/// and tail together, and pages for different paths differ.
pub proof fn lemma_swagger_page_embeds_path(p: Seq<char>, q: Seq<char>)
    ensures
        swagger_page(p).len() == SWAGGER_HEAD@.len() + p.len() + SWAGGER_TAIL@.len(),
        swagger_page(p).subrange(SWAGGER_HEAD@.len() as int, (SWAGGER_HEAD@.len() + p.len()) as int) == p,
        swagger_page(p) == swagger_page(q) ==> p == q,
{
    let h = SWAGGER_HEAD@.len() as int;
    assert(swagger_page(p).subrange(h, h + p.len()) =~= p);
    if swagger_page(p) == swagger_page(q) {
        assert(swagger_page(q).subrange(h, h + q.len()) =~= q);
    }
}

} // verus!
