//! Field information read from the JSON schema of a request or response type.
use vstd::prelude::*;
use crate::json::{json_as_str, json_get, json_str_member, JsonValue};
use crate::text::{decimal_digits, push_decimal, str_eq};

verus! {

/// Represents the high-level type category of a parameter in OpenAPI.
#[derive(Clone, Copy, Debug, PartialEq, Eq, Structural)]
pub enum ParamType {
    /// String type (e.g., `String`, `&str`).
    String,
    /// Integer type (e.g., `i32`, `i64`, `u32`).
    Integer,
    /// Number type (e.g., `f32`, `f64`).
    Number,
    /// Boolean type (`bool`).
    Boolean,
    /// Array type (e.g., `Vec<T>`, slices).
    Array,
    /// Object type (e.g., structs, maps).
    Object,
    /// Unknown or unsupported type.
    Unknown,
}

/// The category named by a JSON schema `type` keyword.
pub open spec fn param_type_of(name: Seq<char>) -> ParamType {
    if name == "string"@ {
        ParamType::String
    } else if name == "integer"@ {
        ParamType::Integer
    } else if name == "number"@ {
        ParamType::Number
    } else if name == "boolean"@ {
        ParamType::Boolean
    } else if name == "array"@ {
        ParamType::Array
    } else if name == "object"@ {
        ParamType::Object
    } else {
        ParamType::Unknown
    }
}

impl<'a> From<&'a str> for ParamType {
    fn from(s: &'a str) -> (r: ParamType) {
        if str_eq(s, "string") {
            ParamType::String
        } else if str_eq(s, "integer") {
            ParamType::Integer
        } else if str_eq(s, "number") {
            ParamType::Number
        } else if str_eq(s, "boolean") {
            ParamType::Boolean
        } else if str_eq(s, "array") {
            ParamType::Array
        } else if str_eq(s, "object") {
            ParamType::Object
        } else {
            ParamType::Unknown
        }
    }
}

impl<'a> vstd::std_specs::convert::FromSpecImpl<&'a str> for ParamType {
    open spec fn obeys_from_spec() -> bool {
        true
    }

    open spec fn from_spec(s: &'a str) -> ParamType {
        param_type_of(s@)
    }
}

/// Information about a field extracted from a schema.
#[derive(Debug)]
pub struct FieldInfo {
    /// The name of the field.
    pub name: String,
    /// The type category of the field.
    pub kind: ParamType,
    /// Optional format specifier (e.g., "int32", "uuid", "date-time").
    pub format: Option<String>,
    /// Whether the field is required.
    pub is_required: bool,
}

/// The contents of a [`FieldInfo`].
pub struct FieldView {
    pub name: Seq<char>,
    pub kind: ParamType,
    pub format: Option<Seq<char>>,
    pub is_required: bool,
}

/// The view of an optional string.
pub open spec fn opt_view(o: Option<String>) -> Option<Seq<char>> {
    match o {
        Some(s) => Some(s@),
        None => None,
    }
}

impl View for FieldInfo {
    type V = FieldView;

    open spec fn view(&self) -> FieldView {
        FieldView {
            name: self.name@,
            kind: self.kind,
            format: opt_view(self.format),
            is_required: self.is_required,
        }
    }
}

/// The `type` keyword of a schema, or `unknown` when it is not a string.
pub open spec fn schema_type_name(v: JsonValue) -> Seq<char> {
    match json_str_member(v, "type"@) {
        Some(t) => t,
        None => "unknown"@,
    }
}

/// The strings among `items`, in order.
pub open spec fn string_items(items: Seq<JsonValue>) -> Seq<Seq<char>>
    decreases items.len(),
{
    if items.len() == 0 {
        Seq::empty()
    } else {
        let r = string_items(items.drop_last());
        match json_as_str(items.last()) {
            Some(s) => r.push(s),
            None => r,
        }
    }
}

/// The names listed under the `required` keyword of a schema.
pub open spec fn required_names(v: JsonValue) -> Seq<Seq<char>> {
    match json_get(v, "required"@) {
        Some(JsonValue::Array(items)) => string_items(items@),
        _ => Seq::empty(),
    }
}

/// The field described by the property `member` of an object schema.
pub open spec fn property_field(member: (String, JsonValue), required: Seq<Seq<char>>) -> FieldView {
    FieldView {
        name: member.0@,
        kind: param_type_of(schema_type_name(member.1)),
        format: json_str_member(member.1, "format"@),
        is_required: required.contains(member.0@),
    }
}

/// The field described by the element at `index` of a tuple schema.
pub open spec fn tuple_field(index: int, item: JsonValue) -> FieldView {
    FieldView {
        name: "item_"@ + decimal_digits(index as nat),
        kind: param_type_of(schema_type_name(item)),
        format: json_str_member(item, "format"@),
        is_required: true,
    }
}

/// The fields of a schema: one per property of an object schema, one per
/// element of a tuple schema, or a single required field `value` for any
/// other schema.
pub open spec fn schema_fields(v: JsonValue) -> Seq<FieldView> {
    let t = schema_type_name(v);
    if t == "object"@ {
        match json_get(v, "properties"@) {
            Some(JsonValue::Object(members)) => members@.map(
                |i: int, m: (String, JsonValue)| property_field(m, required_names(v)),
            ),
            _ => Seq::empty(),
        }
    } else if t == "array"@ {
        match json_get(v, "prefixItems"@) {
            Some(JsonValue::Array(items)) => items@.map(|i: int, it: JsonValue| tuple_field(i, it)),
            _ => Seq::empty(),
        }
    } else {
        seq![
            FieldView {
                name: "value"@,
                kind: param_type_of(t),
                format: json_str_member(v, "format"@),
                is_required: true,
            },
        ]
    }
}

/// `name` is one of the strings listed under the `required` keyword of `v`;
/// never so when `v` has no `required` array.
pub open spec fn listed_as_required(v: JsonValue, name: Seq<char>) -> bool {
    match json_get(v, "required"@) {
        Some(JsonValue::Array(items)) => exists|j: int|
            0 <= j < items@.len() && #[trigger] json_as_str(items@[j]) == Some(name),
        _ => false,
    }
}

proof fn lemma_string_items_contains(items: Seq<JsonValue>, name: Seq<char>)
    ensures
        string_items(items).contains(name) <==> exists|j: int|
            0 <= j < items.len() && #[trigger] json_as_str(items[j]) == Some(name),
    decreases items.len(),
{
    if items.len() > 0 {
        let prev = items.drop_last();
        lemma_string_items_contains(prev, name);
        let r = string_items(prev);
        if exists|j: int| 0 <= j < items.len() && #[trigger] json_as_str(items[j]) == Some(name) {
            let j = choose|j: int| 0 <= j < items.len() && #[trigger] json_as_str(items[j]) == Some(name);
            if j < items.len() - 1 {
                assert(json_as_str(prev[j]) == Some(name));
                let k = choose|k: int| 0 <= k < r.len() && r[k] == name;
                match json_as_str(items.last()) {
                    Some(t) => assert(r.push(t)[k] == name),
                    None => {},
                }
            } else {
                assert(string_items(items) == r.push(name));
                assert(r.push(name)[r.len() as int] == name);
            }
        }
        if string_items(items).contains(name) {
            match json_as_str(items.last()) {
                Some(t) => {
                    let k = choose|k: int| 0 <= k < r.push(t).len() && r.push(t)[k] == name;
                    if k == r.len() {
                        assert(json_as_str(items[items.len() - 1]) == Some(name));
                    } else {
                        assert(r[k] == name);
                        let j = choose|j: int| 0 <= j < prev.len() && #[trigger] json_as_str(prev[j]) == Some(name);
                        assert(json_as_str(items[j]) == Some(name));
                    }
                },
                None => {
                    let j = choose|j: int| 0 <= j < prev.len() && #[trigger] json_as_str(prev[j]) == Some(name);
                    assert(json_as_str(items[j]) == Some(name));
                },
            }
        }
    }
}

/// The fields of an object schema are its properties, in order, and a
/// field is required exactly when its name is listed under `required`; in
/// particular, without a `required` array no field is required.
pub proof fn lemma_object_fields_required(v: JsonValue)
    requires
        schema_type_name(v) == "object"@,
    ensures
        match json_get(v, "properties"@) {
            Some(JsonValue::Object(members)) => {
                &&& schema_fields(v).len() == members@.len()
                &&& forall|i: int|
                    0 <= i < members@.len() ==> (#[trigger] schema_fields(v)[i]).name == members@[i].0@
                        && (schema_fields(v)[i].is_required <==> listed_as_required(v, members@[i].0@))
                &&& !(json_get(v, "required"@) matches Some(JsonValue::Array(_))) ==> forall|i: int|
                    0 <= i < members@.len() ==> !(#[trigger] schema_fields(v)[i]).is_required
            },
            _ => schema_fields(v).len() == 0,
        },
{
    match json_get(v, "properties"@) {
        Some(JsonValue::Object(members)) => {
            assert forall|i: int| 0 <= i < members@.len() implies (#[trigger] schema_fields(v)[i]).name
                == members@[i].0@ && (schema_fields(v)[i].is_required <==> listed_as_required(
                v,
                members@[i].0@,
            )) by {
                match json_get(v, "required"@) {
                    Some(JsonValue::Array(items)) => {
                        lemma_string_items_contains(items@, members@[i].0@);
                    },
                    _ => {},
                }
            }
        },
        _ => {},
    }
}

fn type_name_of(v: &JsonValue) -> (r: &str)
    ensures
        r@ == schema_type_name(*v),
{
    match v.str_member("type") {
        Some(t) => t,
        None => "unknown",
    }
}

fn format_of(v: &JsonValue) -> (r: Option<String>)
    ensures
        opt_view(r) == json_str_member(*v, "format"@),
{
    match v.str_member("format") {
        Some(f) => Some(f.to_string()),
        None => None,
    }
}

fn collect_required(v: &JsonValue) -> (r: Vec<&str>)
    ensures
        r@.map_values(|s: &str| s@) == required_names(*v),
{
    let mut names: Vec<&str> = Vec::new();
    match v.get("required") {
        Some(JsonValue::Array(items)) => {
            for k in 0..items.len()
                invariant
                    names@.map_values(|s: &str| s@) == string_items(items@.take(k as int)),
            {
                assert(items@.take(k + 1).drop_last() =~= items@.take(k as int));
                match items[k].as_str() {
                    Some(s) => {
                        names.push(s);
                    },
                    None => {},
                }
                assert(names@.map_values(|s: &str| s@) =~= string_items(items@.take(k + 1)));
            }
            assert(items@.take(items@.len() as int) =~= items@);
        },
        _ => {},
    }
    names
}

fn contains_name(names: &Vec<&str>, name: &str) -> (r: bool)
    ensures
        r == names@.map_values(|s: &str| s@).contains(name@),
{
    let ghost views = names@.map_values(|s: &str| s@);
    for k in 0..names.len()
        invariant
            views == names@.map_values(|s: &str| s@),
            forall|j: int| 0 <= j < k ==> views[j] != name@,
    {
        if str_eq(names[k], name) {
            assert(views[k as int] == name@);
            return true;
        }
    }
    false
}

/// Extracts field information from a JSON schema: one field per property of
/// an object schema (required when listed under `required`), one field
/// `item_<index>` per element of a tuple schema, and otherwise a single
/// required field `value`.
pub fn schema_to_fields(schema: &JsonValue) -> (fields: Vec<FieldInfo>)
    ensures
        fields@.map_values(|f: FieldInfo| f@) == schema_fields(*schema),
{
    broadcast use vstd::string::to_string_from_display_ensures_for_str;

    let mut fields: Vec<FieldInfo> = Vec::new();
    let schema_type = type_name_of(schema);
    if str_eq(schema_type, "object") {
        let required = collect_required(schema);
        match schema.get("properties") {
            Some(JsonValue::Object(members)) => {
                for k in 0..members.len()
                    invariant
                        required@.map_values(|s: &str| s@) == required_names(*schema),
                        fields@.len() == k,
                        forall|j: int| 0 <= j < k ==> (#[trigger] fields@[j])@ == property_field(
                            members@[j],
                            required_names(*schema),
                        ),
                {
                    let name = &members[k].0;
                    let details = &members[k].1;
                    let is_required = contains_name(&required, name.as_str());
                    fields.push(FieldInfo {
                        name: name.clone(),
                        kind: ParamType::from(type_name_of(details)),
                        format: format_of(details),
                        is_required,
                    });
                }
                assert(fields@.map_values(|f: FieldInfo| f@) =~= schema_fields(*schema));
            },
            _ => {
                assert(fields@.map_values(|f: FieldInfo| f@) =~= schema_fields(*schema));
            },
        }
    } else if str_eq(schema_type, "array") {
        match schema.get("prefixItems") {
            Some(JsonValue::Array(items)) => {
                for k in 0..items.len()
                    invariant
                        fields@.len() == k,
                        forall|j: int| 0 <= j < k ==> (#[trigger] fields@[j])@ == tuple_field(
                            j,
                            items@[j],
                        ),
                {
                    let mut name = String::new();
                    name.append("item_");
                    push_decimal(&mut name, k as u64);
                    let item = &items[k];
                    fields.push(FieldInfo {
                        name,
                        kind: ParamType::from(type_name_of(item)),
                        format: format_of(item),
                        is_required: true,
                    });
                }
                assert(fields@.map_values(|f: FieldInfo| f@) =~= schema_fields(*schema));
            },
            _ => {
                assert(fields@.map_values(|f: FieldInfo| f@) =~= schema_fields(*schema));
            },
        }
    } else {
        fields.push(FieldInfo {
            name: "value".to_string(),
            kind: ParamType::from(schema_type),
            format: format_of(schema),
            is_required: true,
        });
        assert(fields@.map_values(|f: FieldInfo| f@) =~= schema_fields(*schema));
    }
    fields
}

} // verus!
