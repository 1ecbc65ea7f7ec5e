//! Building OpenAPI operations from extractor metadata.
use vstd::prelude::*;
use indexmap::IndexMap;
use crate::extractor::{document_extractor, with_extractor, ExtractorKind};
use crate::index_map::response_entries;
use crate::json::JsonValue;
use crate::openapi::{empty_operation, object_of_fields, response_views, ObjectSchema, Operation, OperationView, Response, Responses};
use crate::responses::response_body_schema;
use crate::schema::schema_fields;

verus! {

/// Builds the OpenAPI operation of a handler from its extractors.
pub struct OpenApiConverter {
    operation: Operation,
}

impl View for OpenApiConverter {
    type V = OperationView;

    closed spec fn view(&self) -> OperationView {
        self.operation@
    }
}

impl OpenApiConverter {
    /// Creates a converter whose operation documents nothing.
    pub fn new() -> (r: OpenApiConverter)
        ensures
            r@ == empty_operation(),
    {
        OpenApiConverter { operation: Operation::new() }
    }

    /// Documents one extractor: path and query extractors add parameters, a
    /// JSON extractor sets the request body, state is not documented.
    pub fn process_extractor_kind(&mut self, extractor_kind: ExtractorKind)
        ensures
            final(self)@ == with_extractor(old(self)@, extractor_kind),
    {
        document_extractor(&mut self.operation, extractor_kind);
    }

    /// The responses object holding `responses`.
    pub fn build_responses(responses: IndexMap<u16, Response>) -> (r: Responses)
        ensures
            r@ == response_views(response_entries(responses)),
    {
        Responses { responses }
    }

    /// Converts the JSON schema of a type into an object schema with one
    /// property per field of the schema.
    pub fn convert_schemars_to_oa(js_schema: &JsonValue) -> (r: ObjectSchema)
        ensures
            r@ == object_of_fields(schema_fields(*js_schema)),
    {
        response_body_schema(js_schema)
    }

    /// Consumes the converter and returns the operation it built.
    pub fn into_operation(self) -> (r: Operation)
        ensures
            r@ == self@,
    {
        self.operation
    }
}

} // verus!
