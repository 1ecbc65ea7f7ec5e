//! The documented responses of a route, built from its configuration.
use vstd::prelude::*;
use crate::json::JsonValue;
use crate::openapi::{json_content, object_of_fields, object_schema_from_fields, ObjectSchema, ResponseView};
use crate::route_config::ResponseConfig;
use crate::schema::{schema_fields, schema_to_fields};

verus! {

/// The documented response of a response configuration: its description,
/// and for a body schema a JSON body of the object schema of its fields.
pub open spec fn response_of_config(c: ResponseConfig) -> ResponseView {
    ResponseView {
        description: c.description@,
        content: match c.schema {
            Some(s) => Some(json_content(object_of_fields(schema_fields(s)))),
            None => None,
        },
    }
}

/// `rs` lists the responses of `m`, one per status, in increasing status
/// order.
pub open spec fn responses_documented(rs: Seq<(u16, ResponseView)>, m: Map<u16, ResponseConfig>) -> bool {
    &&& rs.len() == m.dom().len()
    &&& forall|i: int, j: int| 0 <= i < j < rs.len() ==> rs[i].0 < rs[j].0
    &&& forall|i: int|
        0 <= i < rs.len() ==> m.contains_key(#[trigger] rs[i].0) && rs[i].1 == response_of_config(m[rs[i].0])
    &&& forall|k: u16| m.contains_key(k) ==> exists|i: int| 0 <= i < rs.len() && #[trigger] rs[i].0 == k
}

proof fn lemma_same_status_at(a: Seq<(u16, ResponseView)>, b: Seq<(u16, ResponseView)>, m: Map<u16, ResponseConfig>, i: int)
    requires
        responses_documented(a, m),
        responses_documented(b, m),
        0 <= i < a.len(),
        forall|j: int| 0 <= j < i ==> a[j].0 == b[j].0,
    ensures
        a[i].0 == b[i].0,
{
    assert(m.contains_key(a[i].0));
    assert(m.contains_key(b[i].0));
    let ja = choose|j: int| 0 <= j < b.len() && #[trigger] b[j].0 == a[i].0;
    let jb = choose|j: int| 0 <= j < a.len() && #[trigger] a[j].0 == b[i].0;
    if a[i].0 < b[i].0 {
        if ja < i {
            assert(a[ja].0 == b[ja].0);
        } else if ja > i {
            assert(b[ja].0 > b[i].0);
        }
    } else if b[i].0 < a[i].0 {
        if jb < i {
            assert(b[jb].0 == a[jb].0);
        } else if jb > i {
            assert(a[jb].0 > a[i].0);
        }
    }
}

proof fn lemma_same_statuses_below(a: Seq<(u16, ResponseView)>, b: Seq<(u16, ResponseView)>, m: Map<u16, ResponseConfig>, n: int)
    requires
        responses_documented(a, m),
        responses_documented(b, m),
        0 <= n <= a.len(),
    ensures
        forall|j: int| 0 <= j < n ==> a[j].0 == b[j].0,
    decreases n,
{
    if n > 0 {
        lemma_same_statuses_below(a, b, m, n - 1);
        lemma_same_status_at(a, b, m, n - 1);
    }
}

/// The documented responses of a configuration are determined by it: two
/// listings that both document the same responses are equal.
pub proof fn lemma_responses_documented_unique(a: Seq<(u16, ResponseView)>, b: Seq<(u16, ResponseView)>, m: Map<u16, ResponseConfig>)
    requires
        responses_documented(a, m),
        responses_documented(b, m),
    ensures
        a == b,
{
    lemma_same_statuses_below(a, b, m, a.len() as int);
    assert forall|j: int| 0 <= j < a.len() implies a[j] == b[j] by {
        assert(m.contains_key(a[j].0));
    }
    assert(a =~= b);
}

/// Converts the JSON schema of a response body into an object schema with
/// one property per field of the schema.
pub fn response_body_schema(js_schema: &JsonValue) -> (r: ObjectSchema)
    ensures
        r@ == object_of_fields(schema_fields(*js_schema)),
{
    let fields = schema_to_fields(js_schema);
    object_schema_from_fields(&fields)
}

} // verus!
