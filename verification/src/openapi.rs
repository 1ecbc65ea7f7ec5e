//! The OpenAPI 3.0 model that the library builds for routes and apps, and the
//! conversion of schema fields into it.
use vstd::prelude::*;
use indexmap::IndexMap;
use crate::index_map::{
    entries_insert, entries_lookup, insert_property, key_index, keys_distinct, lemma_insert_keeps_distinct,
    lemma_key_index, lemma_lookup_after_insert, new_property_map, property_entries, response_entries,
};
use crate::schema::{opt_view, FieldInfo, FieldView, ParamType};
use crate::text::str_eq;

verus! {

/// OpenAPI integer formats.
#[derive(Clone, Copy, Debug, PartialEq, Eq, Structural)]
pub enum IntegerFormat {
    Int32,
    Int64,
}

/// OpenAPI string formats.
#[derive(Clone, Copy, Debug, PartialEq, Eq, Structural)]
pub enum StringFormat {
    Date,
    DateTime,
    Password,
    Byte,
    Binary,
}

/// OpenAPI number formats.
#[derive(Clone, Copy, Debug, PartialEq, Eq, Structural)]
pub enum NumberFormat {
    Float,
    Double,
}

/// A schema format: a known variant, an unknown format by name, or none.
#[derive(Debug, Clone)]
pub enum VariantOrUnknownOrEmpty<T> {
    Item(T),
    Unknown(String),
    Empty,
}

/// The contents of a [`VariantOrUnknownOrEmpty`].
pub enum FormatView<T> {
    Item(T),
    Unknown(Seq<char>),
    Empty,
}

impl<T: Copy> View for VariantOrUnknownOrEmpty<T> {
    type V = FormatView<T>;

    open spec fn view(&self) -> FormatView<T> {
        match self {
            VariantOrUnknownOrEmpty::Item(t) => FormatView::Item(*t),
            VariantOrUnknownOrEmpty::Unknown(s) => FormatView::Unknown(s@),
            VariantOrUnknownOrEmpty::Empty => FormatView::Empty,
        }
    }
}

/// The schema of a single parameter or property.
#[derive(Debug, Clone)]
pub enum ParamSchema {
    Integer(VariantOrUnknownOrEmpty<IntegerFormat>),
    String(VariantOrUnknownOrEmpty<StringFormat>),
    Number(VariantOrUnknownOrEmpty<NumberFormat>),
    Boolean,
    /// An array whose items may be anything.
    Array,
    /// An object with no declared properties.
    Object,
}

/// The contents of a [`ParamSchema`].
pub enum SchemaView {
    Integer(FormatView<IntegerFormat>),
    String(FormatView<StringFormat>),
    Number(FormatView<NumberFormat>),
    Boolean,
    Array,
    Object,
}

impl View for ParamSchema {
    type V = SchemaView;

    open spec fn view(&self) -> SchemaView {
        match self {
            ParamSchema::Integer(f) => SchemaView::Integer(f@),
            ParamSchema::String(f) => SchemaView::String(f@),
            ParamSchema::Number(f) => SchemaView::Number(f@),
            ParamSchema::Boolean => SchemaView::Boolean,
            ParamSchema::Array => SchemaView::Array,
            ParamSchema::Object => SchemaView::Object,
        }
    }
}

/// The integer format named by `f`.
pub open spec fn integer_format(f: Option<Seq<char>>) -> FormatView<IntegerFormat> {
    match f {
        Some(s) => if s == "int32"@ {
            FormatView::Item(IntegerFormat::Int32)
        } else if s == "int64"@ {
            FormatView::Item(IntegerFormat::Int64)
        } else {
            FormatView::Unknown(s)
        },
        None => FormatView::Empty,
    }
}

/// The string format named by `f`.
pub open spec fn string_format(f: Option<Seq<char>>) -> FormatView<StringFormat> {
    match f {
        Some(s) => if s == "date"@ {
            FormatView::Item(StringFormat::Date)
        } else if s == "date-time"@ {
            FormatView::Item(StringFormat::DateTime)
        } else if s == "password"@ {
            FormatView::Item(StringFormat::Password)
        } else if s == "byte"@ {
            FormatView::Item(StringFormat::Byte)
        } else if s == "binary"@ {
            FormatView::Item(StringFormat::Binary)
        } else {
            FormatView::Unknown(s)
        },
        None => FormatView::Empty,
    }
}

/// The number format named by `f`.
pub open spec fn number_format(f: Option<Seq<char>>) -> FormatView<NumberFormat> {
    match f {
        Some(s) => if s == "float"@ {
            FormatView::Item(NumberFormat::Float)
        } else if s == "double"@ {
            FormatView::Item(NumberFormat::Double)
        } else {
            FormatView::Unknown(s)
        },
        None => FormatView::Empty,
    }
}

/// The schema of a parameter of category `kind` with format `format`.
pub open spec fn schema_for(kind: ParamType, format: Option<Seq<char>>) -> SchemaView {
    match kind {
        ParamType::Integer => SchemaView::Integer(integer_format(format)),
        ParamType::String => SchemaView::String(string_format(format)),
        ParamType::Number => SchemaView::Number(number_format(format)),
        ParamType::Boolean => SchemaView::Boolean,
        ParamType::Array => SchemaView::Array,
        ParamType::Object => SchemaView::Object,
        ParamType::Unknown => SchemaView::Object,
    }
}

/// The name of an integer format.
pub open spec fn integer_format_name(f: IntegerFormat) -> Seq<char> {
    match f {
        IntegerFormat::Int32 => "int32"@,
        IntegerFormat::Int64 => "int64"@,
    }
}

/// The name of a string format.
pub open spec fn string_format_name(f: StringFormat) -> Seq<char> {
    match f {
        StringFormat::Date => "date"@,
        StringFormat::DateTime => "date-time"@,
        StringFormat::Password => "password"@,
        StringFormat::Byte => "byte"@,
        StringFormat::Binary => "binary"@,
    }
}

/// The name of a number format.
pub open spec fn number_format_name(f: NumberFormat) -> Seq<char> {
    match f {
        NumberFormat::Float => "float"@,
        NumberFormat::Double => "double"@,
    }
}

/// The format text a schema carries: the name of its format, or the
/// unknown format's own text; `None` for no format or a schema without one.
pub open spec fn schema_format_text(s: SchemaView) -> Option<Seq<char>> {
    match s {
        SchemaView::Integer(FormatView::Item(t)) => Some(integer_format_name(t)),
        SchemaView::String(FormatView::Item(t)) => Some(string_format_name(t)),
        SchemaView::Number(FormatView::Item(t)) => Some(number_format_name(t)),
        SchemaView::Integer(FormatView::Unknown(u)) => Some(u),
        SchemaView::String(FormatView::Unknown(u)) => Some(u),
        SchemaView::Number(FormatView::Unknown(u)) => Some(u),
        _ => None,
    }
}

/// The category of values a schema describes.
pub open spec fn schema_kind(s: SchemaView) -> ParamType {
    match s {
        SchemaView::Integer(_) => ParamType::Integer,
        SchemaView::String(_) => ParamType::String,
        SchemaView::Number(_) => ParamType::Number,
        SchemaView::Boolean => ParamType::Boolean,
        SchemaView::Array => ParamType::Array,
        SchemaView::Object => ParamType::Object,
    }
}

/// The schema of a field describes the field's category (an unknown
/// category becomes an object), and for integers, strings and numbers it
/// carries the field's format text unchanged: a known name as that format,
/// any other text as an unknown format, and no format as none.
pub proof fn lemma_schema_keeps_kind_and_format(kind: ParamType, format: Option<Seq<char>>)
    ensures
        schema_kind(schema_for(kind, format)) == (if kind == ParamType::Unknown {
            ParamType::Object
        } else {
            kind
        }),
        kind == ParamType::Integer || kind == ParamType::String || kind == ParamType::Number
            ==> schema_format_text(schema_for(kind, format)) == format,
        !(kind == ParamType::Integer || kind == ParamType::String || kind == ParamType::Number)
            ==> schema_format_text(schema_for(kind, format)) is None,
{
}

/// Converts an optional format string to an OpenAPI integer format.
pub fn format_to_integer(f: &Option<String>) -> (r: VariantOrUnknownOrEmpty<IntegerFormat>)
    ensures
        r@ == integer_format(opt_view(*f)),
{
    match f {
        Some(s) => if str_eq(s.as_str(), "int32") {
            VariantOrUnknownOrEmpty::Item(IntegerFormat::Int32)
        } else if str_eq(s.as_str(), "int64") {
            VariantOrUnknownOrEmpty::Item(IntegerFormat::Int64)
        } else {
            VariantOrUnknownOrEmpty::Unknown(s.clone())
        },
        None => VariantOrUnknownOrEmpty::Empty,
    }
}

/// Converts an optional format string to an OpenAPI string format.
pub fn format_to_string(f: &Option<String>) -> (r: VariantOrUnknownOrEmpty<StringFormat>)
    ensures
        r@ == string_format(opt_view(*f)),
{
    match f {
        Some(s) => if str_eq(s.as_str(), "date") {
            VariantOrUnknownOrEmpty::Item(StringFormat::Date)
        } else if str_eq(s.as_str(), "date-time") {
            VariantOrUnknownOrEmpty::Item(StringFormat::DateTime)
        } else if str_eq(s.as_str(), "password") {
            VariantOrUnknownOrEmpty::Item(StringFormat::Password)
        } else if str_eq(s.as_str(), "byte") {
            VariantOrUnknownOrEmpty::Item(StringFormat::Byte)
        } else if str_eq(s.as_str(), "binary") {
            VariantOrUnknownOrEmpty::Item(StringFormat::Binary)
        } else {
            VariantOrUnknownOrEmpty::Unknown(s.clone())
        },
        None => VariantOrUnknownOrEmpty::Empty,
    }
}

/// Converts an optional format string to an OpenAPI number format.
pub fn format_to_number(f: &Option<String>) -> (r: VariantOrUnknownOrEmpty<NumberFormat>)
    ensures
        r@ == number_format(opt_view(*f)),
{
    match f {
        Some(s) => if str_eq(s.as_str(), "float") {
            VariantOrUnknownOrEmpty::Item(NumberFormat::Float)
        } else if str_eq(s.as_str(), "double") {
            VariantOrUnknownOrEmpty::Item(NumberFormat::Double)
        } else {
            VariantOrUnknownOrEmpty::Unknown(s.clone())
        },
        None => VariantOrUnknownOrEmpty::Empty,
    }
}

/// Converts a [`ParamType`] and an optional format into the schema of a
/// parameter: integers, strings and numbers carry their format, arrays accept
/// any item, and objects and unknown types become objects without properties.
pub fn param_type_to_openapi_schema(kind: &ParamType, format: &Option<String>) -> (r: ParamSchema)
    ensures
        r@ == schema_for(*kind, opt_view(*format)),
{
    match kind {
        ParamType::Integer => ParamSchema::Integer(format_to_integer(format)),
        ParamType::String => ParamSchema::String(format_to_string(format)),
        ParamType::Number => ParamSchema::Number(format_to_number(format)),
        ParamType::Boolean => ParamSchema::Boolean,
        ParamType::Array => ParamSchema::Array,
        ParamType::Object => ParamSchema::Object,
        ParamType::Unknown => ParamSchema::Object,
    }
}

/// An object schema: its properties in order and its required names.
#[derive(Debug, Clone)]
pub struct ObjectSchema {
    pub properties: IndexMap<String, ParamSchema>,
    pub required: Vec<String>,
}

/// The contents of an [`ObjectSchema`].
pub struct ObjectView {
    pub properties: Seq<(Seq<char>, SchemaView)>,
    pub required: Seq<Seq<char>>,
}

/// The views of the schemas in a property map's entries.
pub open spec fn property_views(es: Seq<(Seq<char>, ParamSchema)>) -> Seq<(Seq<char>, SchemaView)> {
    es.map_values(|e: (Seq<char>, ParamSchema)| (e.0, e.1@))
}

/// The views of the strings of `v`.
pub open spec fn string_views(v: Seq<String>) -> Seq<Seq<char>> {
    v.map_values(|s: String| s@)
}

impl View for ObjectSchema {
    type V = ObjectView;

    open spec fn view(&self) -> ObjectView {
        ObjectView {
            properties: property_views(property_entries(self.properties)),
            required: string_views(self.required@),
        }
    }
}

/// The object schema built from `fields`, one at a time: each field sets its
/// property (a repeated name keeps its first place and takes the later
/// schema) and each required field appends its name to `required`.
pub open spec fn object_of_fields(fields: Seq<FieldView>) -> ObjectView
    decreases fields.len(),
{
    if fields.len() == 0 {
        ObjectView { properties: Seq::empty(), required: Seq::empty() }
    } else {
        let o = object_of_fields(fields.drop_last());
        let f = fields.last();
        ObjectView {
            properties: entries_insert(o.properties, f.name, schema_for(f.kind, f.format)),
            required: if f.is_required {
                o.required.push(f.name)
            } else {
                o.required
            },
        }
    }
}

proof fn lemma_property_views_insert(es: Seq<(Seq<char>, ParamSchema)>, k: Seq<char>, v: ParamSchema)
    ensures
        property_views(entries_insert(es, k, v)) == entries_insert(property_views(es), k, v@),
{
    let vs = property_views(es);
    lemma_key_index(es, k);
    lemma_key_index(vs, k);
    assert forall|j: int| 0 <= j < es.len() implies #[trigger] vs[j].0 == es[j].0 by {}
    match key_index(es, k) {
        Some(i) => {
            assert(key_index(vs, k) == Some(i)) by {
                if key_index(vs, k) is None {
                    assert(vs[i].0 == k);
                } else {
                    let i2 = key_index(vs, k)->0;
                    if i2 < i {
                        assert(es[i2].0 == k);
                    } else if i < i2 {
                        assert(vs[i].0 == k);
                    }
                }
            }
            assert(property_views(entries_insert(es, k, v)) =~= entries_insert(vs, k, v@));
        },
        None => {
            assert(key_index(vs, k) is None) by {
                if key_index(vs, k) is Some {
                    let i2 = key_index(vs, k)->0;
                    assert(es[i2].0 == k);
                }
            }
            assert(property_views(entries_insert(es, k, v)) =~= entries_insert(vs, k, v@));
        },
    }
}

/// An object schema built from fields has no property twice, and every name
/// it lists as required is one of its properties.
pub proof fn lemma_object_of_fields(fields: Seq<FieldView>)
    ensures
        keys_distinct(object_of_fields(fields).properties),
        forall|i: int|
            0 <= i < object_of_fields(fields).required.len() ==> entries_lookup(
                object_of_fields(fields).properties,
                #[trigger] object_of_fields(fields).required[i],
            ) is Some,
    decreases fields.len(),
{
    if fields.len() > 0 {
        let prev = object_of_fields(fields.drop_last());
        let f = fields.last();
        let schema = schema_for(f.kind, f.format);
        lemma_object_of_fields(fields.drop_last());
        lemma_insert_keeps_distinct(prev.properties, f.name, schema);
        let o = object_of_fields(fields);
        assert forall|i: int| 0 <= i < o.required.len() implies entries_lookup(
            o.properties,
            #[trigger] o.required[i],
        ) is Some by {
            lemma_lookup_after_insert(prev.properties, f.name, schema, o.required[i]);
            if i < prev.required.len() {
                assert(o.required[i] == prev.required[i]);
            }
        }
    }
}

/// Builds the object schema of a list of fields: every field becomes a
/// property and every required field is listed under `required`.
pub fn object_schema_from_fields(fields: &Vec<FieldInfo>) -> (r: ObjectSchema)
    ensures
        r@ == object_of_fields(fields@.map_values(|f: FieldInfo| f@)),
{
    let ghost fv = fields@.map_values(|f: FieldInfo| f@);
    let mut properties = new_property_map();
    let mut required: Vec<String> = Vec::new();
    for k in 0..fields.len()
        invariant
            fv == fields@.map_values(|f: FieldInfo| f@),
            property_views(property_entries(properties)) == object_of_fields(fv.take(k as int)).properties,
            string_views(required@) == object_of_fields(fv.take(k as int)).required,
    {
        let field = &fields[k];
        assert(fv.take(k + 1).drop_last() =~= fv.take(k as int));
        assert(fv.take(k + 1).last() == field@);
        let schema = param_type_to_openapi_schema(&field.kind, &field.format);
        proof {
            lemma_property_views_insert(property_entries(properties), field.name@, schema);
        }
        insert_property(&mut properties, field.name.clone(), schema);
        if field.is_required {
            required.push(field.name.clone());
            assert(string_views(required@) =~= object_of_fields(fv.take(k + 1)).required);
        }
    }
    assert(fv.take(fields@.len() as int) =~= fv);
    ObjectSchema { properties, required }
}

/// Where a parameter is read from.
#[derive(Clone, Copy, Debug, PartialEq, Eq, Structural)]
pub enum ParameterLocation {
    /// A segment of the request path.
    Path,
    /// A query string pair.
    Query,
}

/// How a parameter value is serialized (the OpenAPI `style`).
#[derive(Clone, Copy, Debug, PartialEq, Eq, Structural)]
pub enum ParameterStyle {
    /// `simple`, the style of path parameters.
    Simple,
    /// `form`, the style of query parameters (`?name=value&age=10`).
    Form,
}

/// The style of the parameters read at `location`: `simple` for the path,
/// `form` for the query.
pub open spec fn style_of(location: ParameterLocation) -> ParameterStyle {
    match location {
        ParameterLocation::Path => ParameterStyle::Simple,
        ParameterLocation::Query => ParameterStyle::Form,
    }
}

/// The style of the parameters read at `location`.
pub fn parameter_style(location: ParameterLocation) -> (r: ParameterStyle)
    ensures
        r == style_of(location),
{
    match location {
        ParameterLocation::Path => ParameterStyle::Simple,
        ParameterLocation::Query => ParameterStyle::Form,
    }
}

/// An operation parameter.
#[derive(Debug, Clone)]
pub struct Parameter {
    pub location: ParameterLocation,
    pub name: String,
    pub required: bool,
    pub schema: ParamSchema,
    pub style: ParameterStyle,
    /// Whether reserved characters may appear unencoded (query only).
    pub allow_reserved: bool,
}

/// The contents of a [`Parameter`].
pub struct ParameterView {
    pub location: ParameterLocation,
    pub name: Seq<char>,
    pub required: bool,
    pub schema: SchemaView,
    pub style: ParameterStyle,
    pub allow_reserved: bool,
}

impl View for Parameter {
    type V = ParameterView;

    open spec fn view(&self) -> ParameterView {
        ParameterView {
            location: self.location,
            name: self.name@,
            required: self.required,
            schema: self.schema@,
            style: self.style,
            allow_reserved: self.allow_reserved,
        }
    }
}

/// A body of one media type with its object schema.
#[derive(Debug, Clone)]
pub struct Content {
    pub media_type: String,
    pub schema: ObjectSchema,
}

/// The contents of a [`Content`].
pub struct ContentView {
    pub media_type: Seq<char>,
    pub schema: ObjectView,
}

impl View for Content {
    type V = ContentView;

    open spec fn view(&self) -> ContentView {
        ContentView { media_type: self.media_type@, schema: self.schema@ }
    }
}

/// A JSON body (`application/json`) of the given schema.
pub open spec fn json_content(schema: ObjectView) -> ContentView {
    ContentView { media_type: "application/json"@, schema }
}

/// The JSON body (`application/json`) of `schema`.
pub fn json_content_of(schema: ObjectSchema) -> (r: Content)
    ensures
        r@ == json_content(schema@),
{
    Content { media_type: "application/json".to_string(), schema }
}

/// A request body: its description, whether it is required, and its content.
#[derive(Debug, Clone)]
pub struct RequestBody {
    pub description: Option<String>,
    pub required: bool,
    pub content: Content,
}

/// The contents of a [`RequestBody`].
pub struct RequestBodyView {
    pub description: Option<Seq<char>>,
    pub required: bool,
    pub content: ContentView,
}

impl View for RequestBody {
    type V = RequestBodyView;

    open spec fn view(&self) -> RequestBodyView {
        RequestBodyView { description: opt_view(self.description), required: self.required, content: self.content@ }
    }
}

/// The request body of a JSON extractor: described as `JSON payload`,
/// required, with a JSON body of the given schema.
pub open spec fn json_request_body(schema: ObjectView) -> RequestBodyView {
    RequestBodyView { description: Some("JSON payload"@), required: true, content: json_content(schema) }
}

/// The request body of a JSON extractor whose type has the object schema
/// `schema`.
pub fn json_request_body_of(schema: ObjectSchema) -> (r: RequestBody)
    ensures
        r@ == json_request_body(schema@),
{
    RequestBody { description: Some("JSON payload".to_string()), required: true, content: json_content_of(schema) }
}

/// The view of an optional request body.
pub open spec fn opt_request_body_view(o: Option<RequestBody>) -> Option<RequestBodyView> {
    match o {
        Some(b) => Some(b@),
        None => None,
    }
}

/// A documented response: its description and, for a response with a body,
/// its content.
#[derive(Debug, Clone)]
pub struct Response {
    pub description: String,
    pub content: Option<Content>,
}

/// The contents of a [`Response`].
pub struct ResponseView {
    pub description: Seq<char>,
    pub content: Option<ContentView>,
}

/// The view of an optional content.
pub open spec fn opt_content_view(o: Option<Content>) -> Option<ContentView> {
    match o {
        Some(c) => Some(c@),
        None => None,
    }
}

impl View for Response {
    type V = ResponseView;

    open spec fn view(&self) -> ResponseView {
        ResponseView { description: self.description@, content: opt_content_view(self.content) }
    }
}

/// The responses of an operation, by status code.
#[derive(Debug, Clone)]
pub struct Responses {
    pub responses: IndexMap<u16, Response>,
}

/// The views of the responses in a response map's entries.
pub open spec fn response_views(es: Seq<(u16, Response)>) -> Seq<(u16, ResponseView)> {
    es.map_values(|e: (u16, Response)| (e.0, e.1@))
}

impl View for Responses {
    type V = Seq<(u16, ResponseView)>;

    open spec fn view(&self) -> Seq<(u16, ResponseView)> {
        response_views(response_entries(self.responses))
    }
}

/// An OpenAPI operation: the documentation of one route.
#[derive(Debug, Clone)]
pub struct Operation {
    pub summary: Option<String>,
    pub description: Option<String>,
    pub tags: Vec<String>,
    pub parameters: Vec<Parameter>,
    /// The object schema of a required JSON request body.
    pub request_body: Option<RequestBody>,
    pub responses: Responses,
}

/// The contents of an [`Operation`].
pub struct OperationView {
    pub summary: Option<Seq<char>>,
    pub description: Option<Seq<char>>,
    pub tags: Seq<Seq<char>>,
    pub parameters: Seq<ParameterView>,
    pub request_body: Option<RequestBodyView>,
    pub responses: Seq<(u16, ResponseView)>,
}

impl View for Operation {
    type V = OperationView;

    open spec fn view(&self) -> OperationView {
        OperationView {
            summary: opt_view(self.summary),
            description: opt_view(self.description),
            tags: string_views(self.tags@),
            parameters: self.parameters@.map_values(|p: Parameter| p@),
            request_body: opt_request_body_view(self.request_body),
            responses: self.responses@,
        }
    }
}

/// The operation with nothing documented.
pub open spec fn empty_operation() -> OperationView {
    OperationView {
        summary: None,
        description: None,
        tags: Seq::empty(),
        parameters: Seq::empty(),
        request_body: None,
        responses: Seq::empty(),
    }
}

impl Operation {
    /// An operation with nothing documented.
    pub fn new() -> (r: Operation)
        ensures
            r@ == empty_operation(),
    {
        let r = Operation {
            summary: None,
            description: None,
            tags: Vec::new(),
            parameters: Vec::new(),
            request_body: None,
            responses: Responses { responses: crate::index_map::new_response_map() },
        };
        assert(r@.tags =~= Seq::<Seq<char>>::empty());
        assert(r@.parameters =~= Seq::<ParameterView>::empty());
        assert(r@.responses =~= Seq::<(u16, ResponseView)>::empty());
        r
    }
}

/// The parameters read from `fields` at `location`, in order, each in the
/// style of its location and without reserved characters.
pub open spec fn parameters_of(location: ParameterLocation, fields: Seq<FieldView>) -> Seq<ParameterView> {
    fields.map_values(
        |f: FieldView|
            ParameterView {
                location,
                name: f.name,
                required: f.is_required,
                schema: schema_for(f.kind, f.format),
                style: style_of(location),
                allow_reserved: false,
            },
    )
}

/// Each field gives one parameter, in order: at the given location and in
/// its style, with the field's name and required flag, and with a schema of
/// the field's category that carries the field's format, for path and query
/// parameters alike.
pub proof fn lemma_parameters_follow_fields(location: ParameterLocation, fields: Seq<FieldView>)
    ensures
        parameters_of(location, fields).len() == fields.len(),
        forall|i: int|
            0 <= i < fields.len() ==> {
                let p = #[trigger] parameters_of(location, fields)[i];
                &&& p.location == location
                &&& p.style == style_of(location)
                &&& p.name == fields[i].name
                &&& p.required == fields[i].is_required
                &&& p.schema == schema_for(fields[i].kind, fields[i].format)
                &&& schema_kind(p.schema) == (if fields[i].kind == ParamType::Unknown {
                    ParamType::Object
                } else {
                    fields[i].kind
                })
                &&& (fields[i].kind == ParamType::Integer || fields[i].kind == ParamType::String
                    || fields[i].kind == ParamType::Number) ==> schema_format_text(p.schema) == fields[i].format
            },
{
    assert forall|i: int| 0 <= i < fields.len() implies {
        let p = #[trigger] parameters_of(location, fields)[i];
        &&& p.location == location
        &&& p.style == style_of(location)
        &&& p.name == fields[i].name
        &&& p.required == fields[i].is_required
        &&& p.schema == schema_for(fields[i].kind, fields[i].format)
        &&& schema_kind(p.schema) == (if fields[i].kind == ParamType::Unknown {
            ParamType::Object
        } else {
            fields[i].kind
        })
        &&& (fields[i].kind == ParamType::Integer || fields[i].kind == ParamType::String
            || fields[i].kind == ParamType::Number) ==> schema_format_text(p.schema) == fields[i].format
    } by {
        lemma_schema_keeps_kind_and_format(fields[i].kind, fields[i].format);
    }
}

/// Appends one parameter at `location` per field, in order.
pub fn push_parameters(parameters: &mut Vec<Parameter>, location: ParameterLocation, fields: &Vec<FieldInfo>)
    ensures
        final(parameters)@.map_values(|p: Parameter| p@) == old(parameters)@.map_values(|p: Parameter| p@)
            + parameters_of(location, fields@.map_values(|f: FieldInfo| f@)),
{
    let ghost start = old(parameters)@.map_values(|p: Parameter| p@);
    let ghost fv = fields@.map_values(|f: FieldInfo| f@);
    for k in 0..fields.len()
        invariant
            start == old(parameters)@.map_values(|p: Parameter| p@),
            fv == fields@.map_values(|f: FieldInfo| f@),
            parameters@.map_values(|p: Parameter| p@) == start + parameters_of(location, fv.take(k as int)),
    {
        let field = &fields[k];
        let parameter = Parameter {
            location,
            name: field.name.clone(),
            required: field.is_required,
            schema: param_type_to_openapi_schema(&field.kind, &field.format),
            style: parameter_style(location),
            allow_reserved: false,
        };
        let ghost pv = parameter@;
        assert(fv[k as int] == field@);
        assert(pv == parameters_of(location, fv.take(k + 1))[k as int]);
        assert(parameters_of(location, fv.take(k + 1)) =~= parameters_of(location, fv.take(k as int)).push(pv));
        let ghost before = parameters@;
        parameters.push(parameter);
        assert(parameters@ == before.push(parameter));
        assert(parameters@.map_values(|p: Parameter| p@) =~= before.map_values(|p: Parameter| p@).push(pv));
        assert(parameters@.map_values(|p: Parameter| p@) =~= start + parameters_of(location, fv.take(k + 1)));
    }
    assert(fv.take(fields@.len() as int) =~= fv);
}

/// A reference to a route: its router and its place in that router.
#[derive(Clone, Copy, Debug, PartialEq, Eq, Structural)]
pub struct RouteRef {
    pub router: usize,
    pub route: usize,
}

/// The operations documented under one path, one slot per HTTP method; each
/// slot refers to the route whose operation it shows.
#[derive(Clone, Copy, Debug, PartialEq, Eq, Structural)]
pub struct PathItem {
    pub get: Option<RouteRef>,
    pub put: Option<RouteRef>,
    pub post: Option<RouteRef>,
    pub delete: Option<RouteRef>,
    pub options: Option<RouteRef>,
    pub head: Option<RouteRef>,
    pub patch: Option<RouteRef>,
    pub trace: Option<RouteRef>,
}

/// A path item with every slot empty.
pub open spec fn empty_path_item() -> PathItem {
    PathItem {
        get: None,
        put: None,
        post: None,
        delete: None,
        options: None,
        head: None,
        patch: None,
        trace: None,
    }
}

} // verus!
