use fastrust::json::JsonValue;
use fastrust::openapi::{
    format_to_integer, format_to_number, format_to_string, param_type_to_openapi_schema,
    IntegerFormat, NumberFormat, ParamSchema, StringFormat, VariantOrUnknownOrEmpty,
};
use fastrust::schema::{schema_to_fields, ParamType};

fn s(text: &str) -> JsonValue {
    JsonValue::String(text.to_string())
}

fn obj(members: Vec<(&str, JsonValue)>) -> JsonValue {
    JsonValue::Object(members.into_iter().map(|(k, v)| (k.to_string(), v)).collect())
}

fn user_schema() -> JsonValue {
    obj(vec![
        ("$schema", s("https://json-schema.org/draft/2020-12/schema")),
        ("title", s("User")),
        ("type", s("object")),
        (
            "properties",
            obj(vec![
                ("id", obj(vec![("type", s("integer")), ("format", s("int32"))])),
                ("name", obj(vec![("type", s("string"))])),
                ("nickname", obj(vec![("type", JsonValue::Array(vec![s("string"), s("null")]))])),
            ]),
        ),
        ("required", JsonValue::Array(vec![s("id"), s("name")])),
    ])
}

#[test]
fn param_type_from_names() {
    assert_eq!(ParamType::from("string"), ParamType::String);
    assert_eq!(ParamType::from("integer"), ParamType::Integer);
    assert_eq!(ParamType::from("number"), ParamType::Number);
    assert_eq!(ParamType::from("boolean"), ParamType::Boolean);
    assert_eq!(ParamType::from("array"), ParamType::Array);
    assert_eq!(ParamType::from("object"), ParamType::Object);
    assert_eq!(ParamType::from("null"), ParamType::Unknown);
    assert_eq!(ParamType::from("String"), ParamType::Unknown);
}

#[test]
fn object_schema_fields() {
    let fields = schema_to_fields(&user_schema());
    assert_eq!(fields.len(), 3);
    assert_eq!(fields[0].name, "id");
    assert_eq!(fields[0].kind, ParamType::Integer);
    assert_eq!(fields[0].format.as_deref(), Some("int32"));
    assert!(fields[0].is_required);
    assert_eq!(fields[1].name, "name");
    assert_eq!(fields[1].kind, ParamType::String);
    assert_eq!(fields[1].format, None);
    assert!(fields[1].is_required);
    assert_eq!(fields[2].name, "nickname");
    assert_eq!(fields[2].kind, ParamType::Unknown);
    assert!(!fields[2].is_required);
}

#[test]
fn object_schema_without_properties_has_no_fields() {
    let fields = schema_to_fields(&obj(vec![("type", s("object"))]));
    assert!(fields.is_empty());
}

#[test]
fn tuple_schema_fields() {
    let schema = obj(vec![
        ("type", s("array")),
        (
            "prefixItems",
            JsonValue::Array(vec![
                obj(vec![("type", s("integer")), ("format", s("int64"))]),
                obj(vec![("type", s("string"))]),
            ]),
        ),
    ]);
    let fields = schema_to_fields(&schema);
    assert_eq!(fields.len(), 2);
    assert_eq!(fields[0].name, "item_0");
    assert_eq!(fields[0].kind, ParamType::Integer);
    assert_eq!(fields[0].format.as_deref(), Some("int64"));
    assert!(fields[0].is_required);
    assert_eq!(fields[1].name, "item_1");
    assert_eq!(fields[1].kind, ParamType::String);
}

#[test]
fn array_schema_without_prefix_items_has_no_fields() {
    let fields = schema_to_fields(&obj(vec![("type", s("array")), ("items", obj(vec![]))]));
    assert!(fields.is_empty());
}

#[test]
fn primitive_schema_is_one_value_field() {
    let fields = schema_to_fields(&obj(vec![("type", s("integer")), ("format", s("uint32"))]));
    assert_eq!(fields.len(), 1);
    assert_eq!(fields[0].name, "value");
    assert_eq!(fields[0].kind, ParamType::Integer);
    assert_eq!(fields[0].format.as_deref(), Some("uint32"));
    assert!(fields[0].is_required);
}

#[test]
fn schema_without_type_is_unknown_value() {
    let fields = schema_to_fields(&JsonValue::Null);
    assert_eq!(fields.len(), 1);
    assert_eq!(fields[0].name, "value");
    assert_eq!(fields[0].kind, ParamType::Unknown);
    assert_eq!(fields[0].format, None);
}

#[test]
fn integer_formats() {
    assert!(matches!(format_to_integer(&Some("int32".into())), VariantOrUnknownOrEmpty::Item(IntegerFormat::Int32)));
    assert!(matches!(format_to_integer(&Some("int64".into())), VariantOrUnknownOrEmpty::Item(IntegerFormat::Int64)));
    match format_to_integer(&Some("uint8".into())) {
        VariantOrUnknownOrEmpty::Unknown(f) => assert_eq!(f, "uint8"),
        other => panic!("unexpected {:?}", other),
    }
    assert!(matches!(format_to_integer(&None), VariantOrUnknownOrEmpty::Empty));
}

#[test]
fn string_formats() {
    let cases = [
        ("date", StringFormat::Date),
        ("date-time", StringFormat::DateTime),
        ("password", StringFormat::Password),
        ("byte", StringFormat::Byte),
        ("binary", StringFormat::Binary),
    ];
    for (name, f) in cases {
        match format_to_string(&Some(name.to_string())) {
            VariantOrUnknownOrEmpty::Item(g) => assert_eq!(g, f),
            other => panic!("unexpected {:?}", other),
        }
    }
    match format_to_string(&Some("uuid".into())) {
        VariantOrUnknownOrEmpty::Unknown(f) => assert_eq!(f, "uuid"),
        other => panic!("unexpected {:?}", other),
    }
    assert!(matches!(format_to_string(&None), VariantOrUnknownOrEmpty::Empty));
}

#[test]
fn number_formats() {
    assert!(matches!(format_to_number(&Some("float".into())), VariantOrUnknownOrEmpty::Item(NumberFormat::Float)));
    assert!(matches!(format_to_number(&Some("double".into())), VariantOrUnknownOrEmpty::Item(NumberFormat::Double)));
    assert!(matches!(format_to_number(&Some("decimal".into())), VariantOrUnknownOrEmpty::Unknown(_)));
    assert!(matches!(format_to_number(&None), VariantOrUnknownOrEmpty::Empty));
}

#[test]
fn parameter_schemas() {
    assert!(matches!(
        param_type_to_openapi_schema(&ParamType::Integer, &Some("int32".into())),
        ParamSchema::Integer(VariantOrUnknownOrEmpty::Item(IntegerFormat::Int32))
    ));
    assert!(matches!(
        param_type_to_openapi_schema(&ParamType::String, &None),
        ParamSchema::String(VariantOrUnknownOrEmpty::Empty)
    ));
    assert!(matches!(
        param_type_to_openapi_schema(&ParamType::Number, &Some("double".into())),
        ParamSchema::Number(VariantOrUnknownOrEmpty::Item(NumberFormat::Double))
    ));
    assert!(matches!(param_type_to_openapi_schema(&ParamType::Boolean, &None), ParamSchema::Boolean));
    assert!(matches!(param_type_to_openapi_schema(&ParamType::Array, &None), ParamSchema::Array));
    assert!(matches!(param_type_to_openapi_schema(&ParamType::Object, &None), ParamSchema::Object));
    assert!(matches!(param_type_to_openapi_schema(&ParamType::Unknown, &Some("x".into())), ParamSchema::Object));
}

#[test]
fn json_member_lookup() {
    let v = user_schema();
    assert_eq!(v.str_member("title"), Some("User"));
    assert_eq!(v.str_member("missing"), None);
    assert!(v.get("properties").is_some());
    assert_eq!(s("x").get("type"), None);
    assert_eq!(v.get("required").and_then(|r| r.as_str()), None);
}

#[test]
fn json_value_clone_is_equal() {
    let value = obj(vec![
        ("type", s("object")),
        ("items", JsonValue::Array(vec![JsonValue::Null, JsonValue::Bool(true), JsonValue::Number("1.5".to_string())])),
    ]);
    let copy = value.clone();
    assert_eq!(copy, value);
    assert_eq!(copy.str_member("type"), Some("object"));
}
