//! Routers: a path prefix and the routes registered under it.
use vstd::prelude::*;
use crate::extractor::{with_extractors, ExtractorKind};
use crate::openapi::empty_operation;
use crate::path::{
    canonical_path, canonicalize_path, lemma_canonical_idempotent, lemma_canonical_shape, no_double_slash,
};
use crate::route::{configured, Method, Route};
use crate::route_config::RouteConfig;

verus! {

/// A router: routes bound to HTTP methods under a common prefix.
///
/// The paths of `routes` already include `prefix`; the prefix is kept for
/// routers that include this one.
#[derive(Debug, Clone)]
pub struct APIRouter<H> {
    pub prefix: String,
    pub routes: Vec<Route<H>>,
}

/// `new` is the route that a method registration appends: its method, the
/// canonical form of `prefix + path`, the handler, and the operation that
/// documents the extractors and then applies the configuration.
pub open spec fn registered_route<H>(
    new: Route<H>,
    prefix: Seq<char>,
    method: Method,
    path: Seq<char>,
    handler: H,
    extractor_kinds: Seq<ExtractorKind>,
    route_config: RouteConfig,
) -> bool {
    &&& new.method == method
    &&& new.path@ == canonical_path(prefix + path)
    &&& new.handler == handler
    &&& configured(with_extractors(empty_operation(), extractor_kinds), new.operation@, route_config)
}

/// `new` is `old` with one route appended as [`registered_route`] says, and
/// the same prefix.
pub open spec fn registered<H>(
    old: APIRouter<H>,
    new: APIRouter<H>,
    method: Method,
    path: Seq<char>,
    handler: H,
    extractor_kinds: Seq<ExtractorKind>,
    route_config: RouteConfig,
) -> bool {
    &&& new.prefix == old.prefix
    &&& new.routes@.len() == old.routes@.len() + 1
    &&& new.routes@.drop_last() == old.routes@
    &&& registered_route(
        new.routes@.last(),
        old.prefix@,
        method,
        path,
        handler,
        extractor_kinds,
        route_config,
    )
}

/// A route registered through a method of a router has a canonical path:
/// non-empty, with no doubled slash, with no trailing slash unless it is `/`,
/// and equal to its own canonical form.
pub proof fn lemma_registered_path_canonical<H>(
    new: Route<H>,
    prefix: Seq<char>,
    method: Method,
    path: Seq<char>,
    handler: H,
    extractor_kinds: Seq<ExtractorKind>,
    route_config: RouteConfig,
)
    requires
        registered_route(new, prefix, method, path, handler, extractor_kinds, route_config),
    ensures
        canonical_path(new.path@) == new.path@,
        new.path@.len() > 0,
        no_double_slash(new.path@),
        new.path@.last() == '/' ==> new.path@ == seq!['/'],
{
    lemma_canonical_idempotent(prefix + path);
    lemma_canonical_shape(prefix + path);
}

impl<H> APIRouter<H> {
    /// Creates a router whose prefix is the canonical form of `prefix`.
    pub fn new(prefix: &str) -> (r: APIRouter<H>)
        ensures
            r.prefix@ == canonical_path(prefix@),
            r.routes@.len() == 0,
    {
        APIRouter { prefix: canonicalize_path(prefix), routes: Vec::new() }
    }

    /// Appends a route as it is.
    pub fn add_route(&mut self, route: Route<H>)
        ensures
            final(self).prefix == old(self).prefix,
            final(self).routes@ == old(self).routes@.push(route),
    {
        self.routes.push(route);
    }

    fn add_method_route(
        &mut self,
        method: Method,
        path: &str,
        handler: H,
        extractor_kinds: Vec<ExtractorKind>,
        route_config: RouteConfig,
    ) -> (r: &mut Self)
        ensures
            registered(*old(self), *r, method, path@, handler, extractor_kinds@, route_config),
            *final(self) == *final(r),
    {
        let mut combined_path = String::new();
        combined_path.append(self.prefix.as_str());
        combined_path.append(path);
        let mut new_route = Route::new(method, canonicalize_path(combined_path.as_str()), handler);
        new_route.set_openapi_operation(extractor_kinds).set_route_config(route_config);
        let ghost before = self.routes@;
        self.routes.push(new_route);
        assert(self.routes@.drop_last() =~= before);
        self
    }

    /// Registers a `GET` route at `prefix + path` (canonicalized), documented
    /// by the handler's extractors and by `route_config`.
    pub fn get(&mut self, path: &str, handler: H, extractor_kinds: Vec<ExtractorKind>, route_config: RouteConfig) -> (r: &mut Self)
        ensures
            registered(*old(self), *r, Method::Get, path@, handler, extractor_kinds@, route_config),
            *final(self) == *final(r),
    {
        self.add_method_route(Method::Get, path, handler, extractor_kinds, route_config)
    }

    /// Registers a `POST` route at `prefix + path` (canonicalized).
    pub fn post(&mut self, path: &str, handler: H, extractor_kinds: Vec<ExtractorKind>, route_config: RouteConfig) -> (r: &mut Self)
        ensures
            registered(*old(self), *r, Method::Post, path@, handler, extractor_kinds@, route_config),
            *final(self) == *final(r),
    {
        self.add_method_route(Method::Post, path, handler, extractor_kinds, route_config)
    }

    /// Registers a `PUT` route at `prefix + path` (canonicalized).
    pub fn put(&mut self, path: &str, handler: H, extractor_kinds: Vec<ExtractorKind>, route_config: RouteConfig) -> (r: &mut Self)
        ensures
            registered(*old(self), *r, Method::Put, path@, handler, extractor_kinds@, route_config),
            *final(self) == *final(r),
    {
        self.add_method_route(Method::Put, path, handler, extractor_kinds, route_config)
    }

    /// Registers a `PATCH` route at `prefix + path` (canonicalized).
    pub fn patch(&mut self, path: &str, handler: H, extractor_kinds: Vec<ExtractorKind>, route_config: RouteConfig) -> (r: &mut Self)
        ensures
            registered(*old(self), *r, Method::Patch, path@, handler, extractor_kinds@, route_config),
            *final(self) == *final(r),
    {
        self.add_method_route(Method::Patch, path, handler, extractor_kinds, route_config)
    }

    /// Registers a `DELETE` route at `prefix + path` (canonicalized).
    pub fn delete(&mut self, path: &str, handler: H, extractor_kinds: Vec<ExtractorKind>, route_config: RouteConfig) -> (r: &mut Self)
        ensures
            registered(*old(self), *r, Method::Delete, path@, handler, extractor_kinds@, route_config),
            *final(self) == *final(r),
    {
        self.add_method_route(Method::Delete, path, handler, extractor_kinds, route_config)
    }

    /// Registers a `HEAD` route at `prefix + path` (canonicalized).
    pub fn head(&mut self, path: &str, handler: H, extractor_kinds: Vec<ExtractorKind>, route_config: RouteConfig) -> (r: &mut Self)
        ensures
            registered(*old(self), *r, Method::Head, path@, handler, extractor_kinds@, route_config),
            *final(self) == *final(r),
    {
        self.add_method_route(Method::Head, path, handler, extractor_kinds, route_config)
    }

    /// Registers an `OPTIONS` route at `prefix + path` (canonicalized).
    pub fn options(&mut self, path: &str, handler: H, extractor_kinds: Vec<ExtractorKind>, route_config: RouteConfig) -> (r: &mut Self)
        ensures
            registered(*old(self), *r, Method::Options, path@, handler, extractor_kinds@, route_config),
            *final(self) == *final(r),
    {
        self.add_method_route(Method::Options, path, handler, extractor_kinds, route_config)
    }

    /// Registers a `TRACE` route at `prefix + path` (canonicalized).
    pub fn trace(&mut self, path: &str, handler: H, extractor_kinds: Vec<ExtractorKind>, route_config: RouteConfig) -> (r: &mut Self)
        ensures
            registered(*old(self), *r, Method::Trace, path@, handler, extractor_kinds@, route_config),
            *final(self) == *final(r),
    {
        self.add_method_route(Method::Trace, path, handler, extractor_kinds, route_config)
    }

    /// Registers a `CONNECT` route at `prefix + path` (canonicalized).
    pub fn connect(&mut self, path: &str, handler: H, extractor_kinds: Vec<ExtractorKind>, route_config: RouteConfig) -> (r: &mut Self)
        ensures
            registered(*old(self), *r, Method::Connect, path@, handler, extractor_kinds@, route_config),
            *final(self) == *final(r),
    {
        self.add_method_route(Method::Connect, path, handler, extractor_kinds, route_config)
    }

    /// Registers a `GET` route, as [`APIRouter::get`] does.
    pub fn get_dbg(&mut self, path: &str, handler: H, extractor_kinds: Vec<ExtractorKind>, route_config: RouteConfig) -> (r: &mut Self)
        ensures
            registered(*old(self), *r, Method::Get, path@, handler, extractor_kinds@, route_config),
            *final(self) == *final(r),
    {
        self.add_method_route(Method::Get, path, handler, extractor_kinds, route_config)
    }

    /// Registers a `POST` route, as [`APIRouter::post`] does.
    pub fn post_dbg(&mut self, path: &str, handler: H, extractor_kinds: Vec<ExtractorKind>, route_config: RouteConfig) -> (r: &mut Self)
        ensures
            registered(*old(self), *r, Method::Post, path@, handler, extractor_kinds@, route_config),
            *final(self) == *final(r),
    {
        self.add_method_route(Method::Post, path, handler, extractor_kinds, route_config)
    }
}

/// `new` is the route that including another router appends for `route`:
/// the same method, handler and operation, and the path `prefix +
/// route.path` as it is.
pub open spec fn included_route<H>(new: Route<H>, prefix: Seq<char>, route: Route<H>) -> bool {
    &&& new.method == route.method
    &&& new.path@ == prefix + route.path@
    &&& new.handler == route.handler
    &&& new.operation == route.operation
}

impl<H> APIRouter<H> {
    /// Consumes `router` and appends each of its routes, in order, with this
    /// router's prefix put before its path. Each route keeps its method, its
    /// handler and its documentation.
    pub fn include_router(&mut self, router: APIRouter<H>)
        ensures
            final(self).prefix == old(self).prefix,
            final(self).routes@.len() == old(self).routes@.len() + router.routes@.len(),
            final(self).routes@.take(old(self).routes@.len() as int) == old(self).routes@,
            forall|j: int|
                0 <= j < router.routes@.len() ==> included_route(
                    #[trigger] final(self).routes@[old(self).routes@.len() + j],
                    old(self).prefix@,
                    router.routes@[j],
                ),
    {
        let ghost start = self.routes@;
        let ghost included = router.routes@;
        let mut rest = router.routes;
        let mut k: usize = 0;
        let total: usize = rest.len();
        assert(rest@.skip(0) =~= rest@);
        while rest.len() > 0
            invariant
                self.prefix == old(self).prefix,
                start == old(self).routes@,
                k <= included.len(),
                included.len() == total,
                rest@ == included.skip(k as int),
                self.routes@.len() == start.len() + k,
                self.routes@.take(start.len() as int) == start,
                forall|j: int|
                    0 <= j < k ==> included_route(
                        #[trigger] self.routes@[start.len() + j],
                        old(self).prefix@,
                        included[j],
                    ),
            decreases rest@.len(),
        {
            let mut route = rest.remove(0);
            assert(route == included[k as int]);
            let mut combined_path = String::new();
            combined_path.append(self.prefix.as_str());
            combined_path.append(route.path.as_str());
            route.path = combined_path;
            let ghost before = self.routes@;
            self.add_route(route);
            assert(self.routes@.take(start.len() as int) =~= before.take(start.len() as int));
            k = k + 1;
            assert(rest@ =~= included.skip(k as int));
        }
    }
}

} // verus!
