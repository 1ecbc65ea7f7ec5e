//! The request extractors of a handler, as the documentation sees them.
use vstd::prelude::*;
use crate::json::JsonValue;
use crate::openapi::{
    json_request_body, json_request_body_of, object_of_fields, object_schema_from_fields, parameters_of, push_parameters, Operation,
    OperationView, ParameterLocation,
};
use crate::schema::{schema_fields, schema_to_fields};

verus! {

/// Represents the kind of extractor used in a handler, with the JSON schema
/// of the extracted type.
#[derive(Debug)]
pub enum ExtractorKind {
    /// Path parameter extractor (e.g. `Path<i32>` for `/user/{id}`).
    Path(JsonValue),
    /// JSON body extractor (e.g. `Json<User>` for a POST body).
    Json(JsonValue),
    /// Query parameter extractor (e.g. `Query<Params>` for `?name=value`).
    Query(JsonValue),
    /// Application state extractor, with the name of the state type.
    State(&'static str),
}

/// The operation after documenting one extractor: path and query extractors
/// append one parameter per field of their schema, a JSON extractor sets the
/// request body to a required JSON payload of the object schema of its fields, and state is not
/// documented.
pub open spec fn with_extractor(op: OperationView, kind: ExtractorKind) -> OperationView {
    match kind {
        ExtractorKind::Path(schema) => OperationView {
            parameters: op.parameters + parameters_of(ParameterLocation::Path, schema_fields(schema)),
            ..op
        },
        ExtractorKind::Query(schema) => OperationView {
            parameters: op.parameters + parameters_of(ParameterLocation::Query, schema_fields(schema)),
            ..op
        },
        ExtractorKind::Json(schema) => OperationView {
            request_body: Some(json_request_body(object_of_fields(schema_fields(schema)))),
            ..op
        },
        ExtractorKind::State(_) => op,
    }
}

/// The operation after documenting `kinds` in order.
pub open spec fn with_extractors(op: OperationView, kinds: Seq<ExtractorKind>) -> OperationView
    decreases kinds.len(),
{
    if kinds.len() == 0 {
        op
    } else {
        with_extractor(with_extractors(op, kinds.drop_last()), kinds.last())
    }
}

/// Documents one extractor in `op` (see [`with_extractor`]).
pub fn document_extractor(op: &mut Operation, kind: ExtractorKind)
    ensures
        final(op)@ == with_extractor(old(op)@, kind),
{
    match kind {
        ExtractorKind::Path(schema) => {
            let fields = schema_to_fields(&schema);
            push_parameters(&mut op.parameters, ParameterLocation::Path, &fields);
        },
        ExtractorKind::Json(schema) => {
            let fields = schema_to_fields(&schema);
            op.request_body = Some(json_request_body_of(object_schema_from_fields(&fields)));
        },
        ExtractorKind::Query(schema) => {
            let fields = schema_to_fields(&schema);
            push_parameters(&mut op.parameters, ParameterLocation::Query, &fields);
        },
        ExtractorKind::State(_) => {},
    }
}

} // verus!
