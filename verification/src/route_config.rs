//! Per-route documentation settings.
use vstd::prelude::*;
use std::collections::BTreeMap;
use crate::json::JsonValue;

verus! {

/// Configuration for a single response in the documentation.
#[derive(Debug, Clone)]
pub struct ResponseConfig {
    /// Description of the response.
    pub description: String,
    /// Optional JSON schema for the response body.
    pub schema: Option<JsonValue>,
}

/// Configuration for a route's OpenAPI documentation.
#[derive(Debug, Clone)]
pub struct RouteConfig {
    /// Short summary of the route.
    pub summary: Option<String>,
    /// Long description (supports Markdown).
    pub description: Option<String>,
    /// Tags for grouping routes in documentation.
    pub tags: Vec<String>,
    /// Response definitions by status code.
    pub responses: BTreeMap<u16, ResponseConfig>,
}

impl RouteConfig {
    /// The configuration with nothing set.
    pub open spec fn is_empty(&self) -> bool {
        &&& self.summary is None
        &&& self.description is None
        &&& self.tags@.len() == 0
        &&& self.responses@ == Map::<u16, ResponseConfig>::empty()
    }

    /// Creates a new empty `RouteConfig`.
    pub fn new() -> (r: RouteConfig)
        ensures
            r.is_empty(),
    {
        RouteConfig {
            summary: None,
            description: None,
            tags: Vec::new(),
            responses: BTreeMap::new(),
        }
    }

    /// Sets the route description.
    pub fn description(self, description: &str) -> (r: RouteConfig)
        ensures
            r.description matches Some(d) && d@ == description@,
            r.summary == self.summary,
            r.tags == self.tags,
            r.responses == self.responses,
    {
        let mut c = self;
        c.description = Some(description.to_string());
        c
    }

    /// Sets the route summary.
    pub fn summary(self, summary: &str) -> (r: RouteConfig)
        ensures
            r.summary matches Some(s) && s@ == summary@,
            r.description == self.description,
            r.tags == self.tags,
            r.responses == self.responses,
    {
        let mut c = self;
        c.summary = Some(summary.to_string());
        c
    }

    /// Adds a tag to the route; tags keep the order in which they were added.
    pub fn tag(self, tag: &str) -> (r: RouteConfig)
        ensures
            r.tags@.len() == self.tags@.len() + 1,
            r.tags@.drop_last() == self.tags@,
            r.tags@.last()@ == tag@,
            r.summary == self.summary,
            r.description == self.description,
            r.responses == self.responses,
    {
        let mut c = self;
        c.tags.push(tag.to_string());
        assert(c.tags@.drop_last() =~= self.tags@);
        c
    }

    /// Adds a response with a status code and a JSON body of the given
    /// schema; a response already set for that status is replaced.
    pub fn response(self, status: u16, description: &str, schema: JsonValue) -> (r: RouteConfig)
        ensures
            r.responses@ == self.responses@.insert(status, r.responses@[status]),
            r.responses@[status].description@ == description@,
            r.responses@[status].schema == Some(schema),
            r.summary == self.summary,
            r.description == self.description,
            r.tags == self.tags,
    {
        let mut c = self;
        c.responses.insert(status, ResponseConfig { description: description.to_string(), schema: Some(schema) });
        c
    }

    /// Adds a `200` response described as `Success` with a JSON body of the
    /// given schema.
    pub fn ok(self, schema: JsonValue) -> (r: RouteConfig)
        ensures
            r.responses@ == self.responses@.insert(200, r.responses@[200]),
            r.responses@[200].description@ == "Success"@,
            r.responses@[200].schema == Some(schema),
            r.summary == self.summary,
            r.description == self.description,
            r.tags == self.tags,
    {
        self.response(200, "Success", schema)
    }

    /// Adds a response with no body (e.g. 204 No Content, 404 Not Found);
    /// a response already set for that status is replaced.
    pub fn empty_response(self, status: u16, description: &str) -> (r: RouteConfig)
        ensures
            r.responses@ == self.responses@.insert(status, r.responses@[status]),
            r.responses@[status].description@ == description@,
            r.responses@[status].schema is None,
            r.summary == self.summary,
            r.description == self.description,
            r.tags == self.tags,
    {
        let mut c = self;
        c.responses.insert(status, ResponseConfig { description: description.to_string(), schema: None });
        c
    }
}

impl Default for RouteConfig {
    fn default() -> (r: RouteConfig)
        ensures
            r.is_empty(),
    {
        RouteConfig::new()
    }
}

} // verus!
