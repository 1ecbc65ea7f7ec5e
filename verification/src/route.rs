//! Routes: an HTTP method, a path, a handler and the route's documentation.
use vstd::prelude::*;
use vstd::std_specs::iter::IteratorSpec;
use crate::extractor::{document_extractor, with_extractor, with_extractors, ExtractorKind};
use crate::index_map::{insert_response, key_index, lemma_key_index, new_response_map, response_entries};
use crate::json::JsonValue;
use crate::openapi::{
    empty_operation, json_content_of, object_of_fields, string_views, ObjectSchema, Operation, OperationView, Response,
    Responses,
};
use crate::responses::{response_body_schema, response_of_config, responses_documented};
use crate::route_config::{ResponseConfig, RouteConfig};
use crate::schema::{opt_view, schema_fields};

verus! {

/// An HTTP method.
#[derive(Clone, Copy, Debug, PartialEq, Eq, Structural)]
pub enum Method {
    Get,
    Post,
    Put,
    Patch,
    Delete,
    Head,
    Options,
    Trace,
    Connect,
}

/// The name of an HTTP method, in capitals.
pub open spec fn method_name(m: Method) -> Seq<char> {
    match m {
        Method::Get => "GET"@,
        Method::Post => "POST"@,
        Method::Put => "PUT"@,
        Method::Patch => "PATCH"@,
        Method::Delete => "DELETE"@,
        Method::Options => "OPTIONS"@,
        Method::Head => "HEAD"@,
        Method::Trace => "TRACE"@,
        Method::Connect => "CONNECT"@,
    }
}

impl Method {
    /// The name of the method, in capitals (`GET`, `POST`, ...).
    pub fn as_str(&self) -> (r: &'static str)
        ensures
            r@ == method_name(*self),
    {
        match self {
            Method::Get => "GET",
            Method::Post => "POST",
            Method::Put => "PUT",
            Method::Patch => "PATCH",
            Method::Delete => "DELETE",
            Method::Options => "OPTIONS",
            Method::Head => "HEAD",
            Method::Trace => "TRACE",
            Method::Connect => "CONNECT",
        }
    }
}

/// The operation after applying a route configuration: summary,
/// description and tags are taken from the configuration, the responses are
/// rebuilt from it, and parameters and request body are kept.
pub open spec fn configured(op: OperationView, new_op: OperationView, config: RouteConfig) -> bool {
    &&& new_op.summary == opt_view(config.summary)
    &&& new_op.description == opt_view(config.description)
    &&& new_op.tags == string_views(config.tags@)
    &&& new_op.parameters == op.parameters
    &&& new_op.request_body == op.request_body
    &&& responses_documented(new_op.responses, config.responses@)
}

/// A route: an HTTP method, a path, the handler that serves it, and the
/// OpenAPI operation that documents it.
#[derive(Debug, Clone)]
pub struct Route<H> {
    pub method: Method,
    pub path: String,
    pub handler: H,
    pub operation: Operation,
}

impl<H> Route<H> {
    /// Creates a route whose operation documents nothing yet.
    pub fn new(method: Method, path: String, handler: H) -> (r: Route<H>)
        ensures
            r.method == method,
            r.path == path,
            r.handler == handler,
            r.operation@ == empty_operation(),
    {
        Route { method, path, handler, operation: Operation::new() }
    }

    fn process_extractor_kind(&mut self, extractor_kind: ExtractorKind)
        ensures
            final(self).operation@ == with_extractor(old(self).operation@, extractor_kind),
            final(self).method == old(self).method,
            final(self).path == old(self).path,
            final(self).handler == old(self).handler,
    {
        document_extractor(&mut self.operation, extractor_kind);
    }

    /// Documents the extractors of the route's handler, in order: path and
    /// query extractors add parameters, a JSON extractor sets the request
    /// body, state is not documented.
    pub fn set_openapi_operation(&mut self, extractor_kinds: Vec<ExtractorKind>) -> (r: &mut Self)
        ensures
            r.operation@ == with_extractors(old(self).operation@, extractor_kinds@),
            r.method == old(self).method,
            r.path == old(self).path,
            r.handler == old(self).handler,
            *final(self) == *final(r),
    {
        let ghost all = extractor_kinds@;
        let total = extractor_kinds.len();
        let mut rest = extractor_kinds;
        let mut done: usize = 0;
        assert(all.skip(0) =~= all);
        while rest.len() > 0
            invariant
                done <= all.len(),
                all.len() == total,
                rest@ == all.skip(done as int),
                self.operation@ == with_extractors(old(self).operation@, all.take(done as int)),
                self.method == old(self).method,
                self.path == old(self).path,
                self.handler == old(self).handler,
            decreases rest@.len(),
        {
            let kind = rest.remove(0);
            proof {
                assert(kind == all[done as int]);
                assert(all.take(done + 1).drop_last() =~= all.take(done as int));
                assert(rest@ =~= all.skip(done + 1));
            }
            self.process_extractor_kind(kind);
            done = done + 1;
        }
        assert(all.take(all.len() as int) =~= all);
        self
    }

    /// Applies a route configuration: summary, description and tags are
    /// taken from it, the responses are rebuilt from it in increasing status
    /// order, and the documented parameters and request body are kept.
    pub fn set_route_config(&mut self, route_config: RouteConfig) -> (r: &mut Self)
        ensures
            configured(old(self).operation@, r.operation@, route_config),
            r.method == old(self).method,
            r.path == old(self).path,
            r.handler == old(self).handler,
            *final(self) == *final(r),
    {
        broadcast use vstd::std_specs::btree::group_btree_axioms, vstd::laws_cmp::group_laws_cmp;

        let mut out = new_response_map();
        let iter = route_config.responses.iter();
        let ghost items = iter.remaining();
        let ghost m = route_config.responses@;
        proof {
            assert(vstd::std_specs::btree::key_obeys_cmp_spec::<u16>());
            assert(items.len() == m.dom().len());
        }
        assert(forall|i: int, j: int| 0 <= i < j < items.len() ==> *items[i].0 < *items[j].0) by {
            let keys = items.map_values(|kv: (&u16, &ResponseConfig)| *kv.0);
            assert(vstd::std_specs::btree::increasing_seq(keys));
            vstd::std_specs::btree::axiom_increasing_seq_meaning(keys);
            assert forall|i: int, j: int| 0 <= i < j < items.len() implies *items[i].0 < *items[j].0 by {
                assert(keys[i] == *items[i].0 && keys[j] == *items[j].0);
                assert(vstd::std_specs::cmp::OrdSpec::cmp_spec(&keys[i], &keys[j]) is Less);
            }
        }
        for entry in it: iter
            invariant
                it.seq() == items,
                forall|i: int, j: int| 0 <= i < j < items.len() ==> *items[i].0 < *items[j].0,
                response_entries(out).len() == it.index(),
                forall|j: int| 0 <= j < it.index() ==> (#[trigger] response_entries(out)[j]).0 == *items[j].0
                    && response_entries(out)[j].1@ == response_of_config(*items[j].1),
        {
            let (status, config) = entry;
            let content = match &config.schema {
                Some(s) => Some(json_content_of(self.convert_schemars_to_oa(s))),
                None => None,
            };
            let response = Response { description: config.description.clone(), content };
            let ghost prev = response_entries(out);
            proof {
                lemma_key_index(prev, *status);
                if key_index(prev, *status) is Some {
                    let i = key_index(prev, *status)->0;
                    assert(*items[i].0 < *items[it.index()].0);
                }
            }
            insert_response(&mut out, *status, response);
            assert(response_entries(out) == prev.push((*status, response)));
        }
        let responses = Responses { responses: out };
        assert forall|k: u16| m.contains_key(k) implies exists|i: int|
            0 <= i < responses@.len() && #[trigger] responses@[i].0 == k by {
            assert(items.contains((&k, &m[k])));
            let i = choose|i: int| 0 <= i < items.len() && items[i] == (&k, &m[k]);
            assert(responses@[i].0 == k);
        }
        self.operation.summary = route_config.summary;
        self.operation.description = route_config.description;
        self.operation.tags = route_config.tags;
        self.operation.responses = responses;
        self
    }

    /// Converts the JSON schema of a response body into an object schema.
    fn convert_schemars_to_oa(&self, js_schema: &JsonValue) -> (r: ObjectSchema)
        ensures
            r@ == object_of_fields(schema_fields(*js_schema)),
    {
        response_body_schema(js_schema)
    }
}

} // verus!
