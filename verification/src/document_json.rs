//! The OpenAPI document of an application as JSON, and its text as
//! `openapiv3` and `serde_json` write it.
use vstd::prelude::*;
use crate::app::{
    app_entries, last_route, lemma_document_paths, lemma_entries_refer, lemma_last_route_found, document_title, documents_servers, lemma_document_refs, paths_of, refers_to, server_url, slot,
    APIApp, OpenApiDocument, Server,
};
use crate::index_map::{
    entries_lookup, key_index, lemma_key_index,
    path_at, path_count, path_entries, property_at, property_count, property_entries, response_at, response_count,
    response_entries,
};
use crate::json::{json_view, JsonValue, JsonView};
use crate::json_text::{
    items_view, json_text, lemma_array_view, lemma_object_view, members_view, write_json,
};
pub use crate::openapi::{integer_format_name, number_format_name, string_format_name};
use crate::openapi::{
    Content, ContentView, FormatView, IntegerFormat, NumberFormat, ObjectSchema, ObjectView, Operation,
    OperationView, ParamSchema, Parameter, ParameterLocation, ParameterStyle, ParameterView, PathItem,
    RequestBody, RequestBodyView, Response, ResponseView, Responses, RouteRef, SchemaView, StringFormat,
    VariantOrUnknownOrEmpty, property_views, response_views, string_views,
};
use crate::route::Method;
use crate::router::APIRouter;
use crate::schema::opt_view;
use crate::text::{decimal_text, push_signed_decimal};

verus! {

// ---------------------------------------------------------------------------
// The JSON of the OpenAPI document, as a specification.
// ---------------------------------------------------------------------------

/// A JSON string.
pub open spec fn jstr(s: Seq<char>) -> JsonView {
    JsonView::String(s)
}

/// The member `key` with the string `o`, or nothing when `o` is `None`.
pub open spec fn opt_member(key: Seq<char>, o: Option<Seq<char>>) -> Seq<(Seq<char>, JsonView)> {
    match o {
        Some(s) => seq![(key, jstr(s))],
        None => Seq::empty(),
    }
}

/// The `format` member of an integer schema, if it has a format.
pub open spec fn integer_format_member(f: FormatView<IntegerFormat>) -> Seq<(Seq<char>, JsonView)> {
    match f {
        FormatView::Item(t) => seq![("format"@, jstr(integer_format_name(t)))],
        FormatView::Unknown(s) => seq![("format"@, jstr(s))],
        FormatView::Empty => Seq::empty(),
    }
}

/// The `format` member of a string schema, if it has a format.
pub open spec fn string_format_member(f: FormatView<StringFormat>) -> Seq<(Seq<char>, JsonView)> {
    match f {
        FormatView::Item(t) => seq![("format"@, jstr(string_format_name(t)))],
        FormatView::Unknown(s) => seq![("format"@, jstr(s))],
        FormatView::Empty => Seq::empty(),
    }
}

/// The `format` member of a number schema, if it has a format.
pub open spec fn number_format_member(f: FormatView<NumberFormat>) -> Seq<(Seq<char>, JsonView)> {
    match f {
        FormatView::Item(t) => seq![("format"@, jstr(number_format_name(t)))],
        FormatView::Unknown(s) => seq![("format"@, jstr(s))],
        FormatView::Empty => Seq::empty(),
    }
}

/// The JSON of a parameter or property schema: its `type`, with its
/// `format` where it has one, and `items` of any schema for an array.
pub open spec fn schema_json(s: SchemaView) -> JsonView {
    match s {
        SchemaView::Integer(f) => JsonView::Object(seq![("type"@, jstr("integer"@))] + integer_format_member(f)),
        SchemaView::String(f) => JsonView::Object(seq![("type"@, jstr("string"@))] + string_format_member(f)),
        SchemaView::Number(f) => JsonView::Object(seq![("type"@, jstr("number"@))] + number_format_member(f)),
        SchemaView::Boolean => JsonView::Object(seq![("type"@, jstr("boolean"@))]),
        SchemaView::Array => JsonView::Object(
            seq![("type"@, jstr("array"@)), ("items"@, JsonView::Object(Seq::empty()))],
        ),
        SchemaView::Object => JsonView::Object(seq![("type"@, jstr("object"@))]),
    }
}

/// The members of an object schema's `properties`.
pub open spec fn properties_json(ps: Seq<(Seq<char>, SchemaView)>) -> Seq<(Seq<char>, JsonView)> {
    ps.map_values(|p: (Seq<char>, SchemaView)| (p.0, schema_json(p.1)))
}

/// A list of JSON strings.
pub open spec fn strings_json(ss: Seq<Seq<char>>) -> Seq<JsonView> {
    ss.map_values(|s: Seq<char>| jstr(s))
}

/// The JSON of an object schema: type `object`, its properties in order and
/// its required names.
pub open spec fn object_json(o: ObjectView) -> JsonView {
    JsonView::Object(
        seq![
            ("type"@, jstr("object"@)),
            ("properties"@, JsonView::Object(properties_json(o.properties))),
            ("required"@, JsonView::Array(strings_json(o.required))),
        ],
    )
}

/// The JSON of a parameter: where it is read, its name, whether it is
/// required, its schema and style, and for the query whether reserved
/// characters are allowed.
pub open spec fn parameter_json(p: ParameterView) -> JsonView {
    JsonView::Object(
        seq![
            ("in"@, jstr(
                match p.location {
                    ParameterLocation::Path => "path"@,
                    ParameterLocation::Query => "query"@,
                },
            )),
            ("name"@, jstr(p.name)),
            ("required"@, JsonView::Bool(p.required)),
            ("schema"@, schema_json(p.schema)),
            ("style"@, jstr(
                match p.style {
                    ParameterStyle::Simple => "simple"@,
                    ParameterStyle::Form => "form"@,
                },
            )),
        ] + match p.location {
            ParameterLocation::Query => seq![("allowReserved"@, JsonView::Bool(p.allow_reserved))],
            ParameterLocation::Path => Seq::empty(),
        },
    )
}

/// The JSON of a content: its media type with the schema of the body.
pub open spec fn content_json(c: ContentView) -> JsonView {
    JsonView::Object(seq![(c.media_type, JsonView::Object(seq![("schema"@, object_json(c.schema))]))])
}

/// The JSON of a request body.
pub open spec fn request_body_json(b: RequestBodyView) -> JsonView {
    JsonView::Object(
        opt_member("description"@, b.description) + seq![
            ("required"@, JsonView::Bool(b.required)),
            ("content"@, content_json(b.content)),
        ],
    )
}

/// The JSON of a response: its description and its content, empty for a
/// response without a body.
pub open spec fn response_json(r: ResponseView) -> JsonView {
    JsonView::Object(
        seq![
            ("description"@, jstr(r.description)),
            ("content"@, match r.content {
                Some(c) => content_json(c),
                None => JsonView::Object(Seq::empty()),
            }),
        ],
    )
}

/// The members of the responses of an operation, keyed by the decimal text
/// of their status codes.
pub open spec fn responses_json(rs: Seq<(u16, ResponseView)>) -> Seq<(Seq<char>, JsonView)> {
    rs.map_values(|e: (u16, ResponseView)| (decimal_text(e.0 as int), response_json(e.1)))
}

/// The JSON of the parameters of an operation.
pub open spec fn parameters_json(ps: Seq<ParameterView>) -> Seq<JsonView> {
    ps.map_values(|p: ParameterView| parameter_json(p))
}

/// The JSON of an operation.
pub open spec fn operation_json(op: OperationView) -> JsonView {
    JsonView::Object(
        opt_member("summary"@, op.summary) + opt_member("description"@, op.description) + seq![
            ("tags"@, JsonView::Array(strings_json(op.tags))),
            ("parameters"@, JsonView::Array(parameters_json(op.parameters))),
        ] + match op.request_body {
            Some(b) => seq![("requestBody"@, request_body_json(b))],
            None => Seq::empty(),
        } + seq![("responses"@, JsonView::Object(responses_json(op.responses)))],
    )
}

/// The member `name` with the operation of the route that `s` refers to, or
/// nothing for an empty slot.
pub open spec fn slot_member<H>(routers: Seq<APIRouter<H>>, name: Seq<char>, s: Option<RouteRef>) -> Seq<(Seq<char>, JsonView)> {
    match s {
        Some(at) => seq![(name, operation_json(routers[at.router as int].routes@[at.route as int].operation@))],
        None => Seq::empty(),
    }
}

/// The JSON of a path item: the operation of each route it refers to, under
/// the name of its method.
pub open spec fn path_item_json<H>(routers: Seq<APIRouter<H>>, item: PathItem) -> JsonView {
    JsonView::Object(
        slot_member(routers, "get"@, item.get) + slot_member(routers, "put"@, item.put) + slot_member(
            routers,
            "post"@,
            item.post,
        ) + slot_member(routers, "delete"@, item.delete) + slot_member(routers, "options"@, item.options)
            + slot_member(routers, "head"@, item.head) + slot_member(routers, "patch"@, item.patch)
            + slot_member(routers, "trace"@, item.trace),
    )
}

/// The members of the paths of a document.
pub open spec fn paths_json<H>(routers: Seq<APIRouter<H>>, paths: Seq<(Seq<char>, PathItem)>) -> Seq<(Seq<char>, JsonView)> {
    paths.map_values(|e: (Seq<char>, PathItem)| (e.0, path_item_json(routers, e.1)))
}

/// The JSON of a document's info; the summary goes in the `x-summary`
/// extension.
pub open spec fn info_json<S, H>(app: APIApp<S, H>) -> JsonView {
    JsonView::Object(
        seq![("title"@, jstr(document_title(app.title)))] + opt_member("description"@, opt_view(app.description))
            + seq![("version"@, jstr(app.version@))] + opt_member("x-summary"@, opt_view(app.summary)),
    )
}

/// The JSON of the servers of a document.
pub open spec fn servers_json(host: Option<String>, port: Option<i32>) -> Seq<JsonView> {
    match (host, port) {
        (Some(h), Some(p)) => seq![
            JsonView::Object(
                seq![("url"@, jstr(server_url(h@, p))), ("description"@, jstr("Application Server"@))],
            ),
        ],
        _ => Seq::empty(),
    }
}

/// The JSON of the OpenAPI document of `app` (see
/// [`APIApp::openapi_document`]), with each route's operation in the slot
/// that refers to it.
pub open spec fn openapi_json<S, H>(app: APIApp<S, H>) -> JsonView {
    JsonView::Object(
        seq![
            ("openapi"@, jstr("3.0.3"@)),
            ("info"@, info_json(app)),
            ("servers"@, JsonView::Array(servers_json(app.host, app.port))),
            ("paths"@, JsonView::Object(paths_json(app.routers@, paths_of(app_entries(app.routers@))))),
        ],
    )
}

// ---------------------------------------------------------------------------
// What the JSON of the document holds.
// ---------------------------------------------------------------------------

/// The value of the first member of `ms` with key `k`.
pub open spec fn member_of(ms: Seq<(Seq<char>, JsonView)>, k: Seq<char>) -> Option<JsonView>
    decreases ms.len(),
{
    if ms.len() == 0 {
        None
    } else if ms[0].0 == k {
        Some(ms[0].1)
    } else {
        member_of(ms.drop_first(), k)
    }
}

/// The name of the path-item member that documents method `m`, the method's
/// name in lower case.
pub open spec fn method_member_name(m: Method) -> Seq<char> {
    match m {
        Method::Get => "get"@,
        Method::Post => "post"@,
        Method::Put => "put"@,
        Method::Patch => "patch"@,
        Method::Delete => "delete"@,
        Method::Head => "head"@,
        Method::Options => "options"@,
        Method::Trace => "trace"@,
        Method::Connect => "connect"@,
    }
}

proof fn lemma_member_of_concat(a: Seq<(Seq<char>, JsonView)>, b: Seq<(Seq<char>, JsonView)>, k: Seq<char>)
    ensures
        member_of(a + b, k) == match member_of(a, k) {
            Some(v) => Some(v),
            None => member_of(b, k),
        },
    decreases a.len(),
{
    if a.len() > 0 {
        assert((a + b).drop_first() =~= a.drop_first() + b);
        assert((a + b)[0] == a[0]);
        lemma_member_of_concat(a.drop_first(), b, k);
    } else {
        assert(a + b =~= b);
    }
}

proof fn lemma_member_of_slot<H>(routers: Seq<APIRouter<H>>, name: Seq<char>, s: Option<RouteRef>, k: Seq<char>)
    ensures
        member_of(slot_member(routers, name, s), k) == match s {
            Some(at) => if name == k {
                Some(operation_json(routers[at.router as int].routes@[at.route as int].operation@))
            } else {
                None
            },
            None => None,
        },
{
    let ms = slot_member(routers, name, s);
    let none = Seq::<(Seq<char>, JsonView)>::empty();
    assert(member_of(none, k) is None);
    if ms.len() > 0 {
        assert(ms.drop_first() =~= none);
        assert(ms[0].0 == name);
    } else {
        assert(ms =~= none);
    }
}

/// The member of a path item's JSON named after a method holds the
/// operation of the route that the item's slot for that method refers to,
/// and there is no such member when the slot is empty.
pub proof fn lemma_path_item_members<H>(routers: Seq<APIRouter<H>>, item: PathItem, m: Method)
    requires
        m != Method::Connect,
    ensures
        member_of(path_item_json(routers, item)->Object_0, method_member_name(m)) == match slot(item, m) {
            Some(at) => Some(operation_json(routers[at.router as int].routes@[at.route as int].operation@)),
            None => None,
        },
{
    reveal_strlit("get");
    reveal_strlit("put");
    reveal_strlit("post");
    reveal_strlit("delete");
    reveal_strlit("options");
    reveal_strlit("head");
    reveal_strlit("patch");
    reveal_strlit("trace");
    assert("get"@.len() == 3 && "get"@[0] == 'g');
    assert("put"@.len() == 3 && "put"@[0] == 'p');
    assert("post"@.len() == 4 && "post"@[0] == 'p');
    assert("delete"@.len() == 6 && "delete"@[0] == 'd');
    assert("options"@.len() == 7 && "options"@[0] == 'o');
    assert("head"@.len() == 4 && "head"@[0] == 'h');
    assert("patch"@.len() == 5 && "patch"@[0] == 'p');
    assert("trace"@.len() == 5 && "trace"@[0] == 't');
    let k = method_member_name(m);
    let s1 = slot_member(routers, "get"@, item.get);
    let s2 = slot_member(routers, "put"@, item.put);
    let s3 = slot_member(routers, "post"@, item.post);
    let s4 = slot_member(routers, "delete"@, item.delete);
    let s5 = slot_member(routers, "options"@, item.options);
    let s6 = slot_member(routers, "head"@, item.head);
    let s7 = slot_member(routers, "patch"@, item.patch);
    let s8 = slot_member(routers, "trace"@, item.trace);
    lemma_member_of_concat(s1, s2, k);
    lemma_member_of_concat(s1 + s2, s3, k);
    lemma_member_of_concat(s1 + s2 + s3, s4, k);
    lemma_member_of_concat(s1 + s2 + s3 + s4, s5, k);
    lemma_member_of_concat(s1 + s2 + s3 + s4 + s5, s6, k);
    lemma_member_of_concat(s1 + s2 + s3 + s4 + s5 + s6, s7, k);
    lemma_member_of_concat(s1 + s2 + s3 + s4 + s5 + s6 + s7, s8, k);
    lemma_member_of_slot(routers, "get"@, item.get, k);
    lemma_member_of_slot(routers, "put"@, item.put, k);
    lemma_member_of_slot(routers, "post"@, item.post, k);
    lemma_member_of_slot(routers, "delete"@, item.delete, k);
    lemma_member_of_slot(routers, "options"@, item.options, k);
    lemma_member_of_slot(routers, "head"@, item.head, k);
    lemma_member_of_slot(routers, "patch"@, item.patch, k);
    lemma_member_of_slot(routers, "trace"@, item.trace, k);
    assert(path_item_json(routers, item)->Object_0 == s1 + s2 + s3 + s4 + s5 + s6 + s7 + s8);
    match m {
        Method::Get => assert(k == "get"@),
        Method::Put => assert(k == "put"@),
        Method::Post => assert(k == "post"@),
        Method::Delete => assert(k == "delete"@),
        Method::Options => assert(k == "options"@),
        Method::Head => assert(k == "head"@),
        Method::Patch => assert(k == "patch"@),
        Method::Trace => assert(k == "trace"@),
        Method::Connect => {},
    }
}

proof fn lemma_member_of_paths<H>(routers: Seq<APIRouter<H>>, paths: Seq<(Seq<char>, PathItem)>, p: Seq<char>)
    ensures
        member_of(paths_json(routers, paths), p) == match entries_lookup(paths, p) {
            Some(item) => Some(path_item_json(routers, item)),
            None => None,
        },
    decreases paths.len(),
{
    if paths.len() > 0 {
        assert(paths_json(routers, paths).drop_first() =~= paths_json(routers, paths.drop_first()));
        lemma_member_of_paths(routers, paths.drop_first(), p);
        if paths[0].0 != p {
            match key_index(paths.drop_first(), p) {
                Some(i) => {
                    lemma_key_index(paths.drop_first(), p);
                    assert(paths.drop_first()[i] == paths[i + 1]);
                },
                None => {},
            }
        }
    }
}

/// In the JSON of an application's document, the item under path `p` has,
/// for every method `m` but `CONNECT`, a member named after `m` exactly when
/// some route has path `p` and method `m`; it holds the operation of the
/// last such route, which is an existing route with that path and method.
pub proof fn lemma_openapi_json_operations<S, H>(app: APIApp<S, H>, p: Seq<char>, m: Method)
    requires
        app.routers@.len() <= usize::MAX,
        m != Method::Connect,
    ensures
        openapi_json(app)->Object_0[3] == ("paths"@, JsonView::Object(
            paths_json(app.routers@, paths_of(app_entries(app.routers@))),
        )),
        match last_route(app_entries(app.routers@), p, m) {
            Some(at) => {
                &&& refers_to(app.routers@, at, p, m)
                &&& member_of(paths_json(app.routers@, paths_of(app_entries(app.routers@))), p) matches Some(
                    item_json,
                ) && member_of(item_json->Object_0, method_member_name(m)) == Some(
                    operation_json(app.routers@[at.router as int].routes@[at.route as int].operation@),
                )
            },
            None => member_of(paths_json(app.routers@, paths_of(app_entries(app.routers@))), p) matches Some(
                item_json,
            ) ==> member_of(item_json->Object_0, method_member_name(m)) is None,
        },
{
    let routers = app.routers@;
    let es = app_entries(routers);
    let paths = paths_of(es);
    lemma_document_paths(es);
    lemma_entries_refer(routers);
    lemma_last_route_found(es, p, m);
    lemma_member_of_paths(routers, paths, p);
    assert(last_route(es, p, m) == last_route(es, p, m));
    match entries_lookup(paths, p) {
        Some(item) => {
            lemma_path_item_members(routers, item, m);
        },
        None => {},
    }
}

// ---------------------------------------------------------------------------
// Building JSON values.
// ---------------------------------------------------------------------------

fn text_value(s: &str) -> (r: JsonValue)
    ensures
        json_view(r) == jstr(s@),
{
    JsonValue::String(s.to_string())
}

fn string_value(s: &String) -> (r: JsonValue)
    ensures
        json_view(r) == jstr(s@),
{
    JsonValue::String(s.clone())
}

fn push_member(ms: &mut Vec<(String, JsonValue)>, key: &str, v: JsonValue)
    ensures
        members_view(final(ms)@) == members_view(old(ms)@).push((key@, json_view(v))),
{
    ms.push((key.to_string(), v));
    assert(members_view(ms@) =~= members_view(old(ms)@).push((key@, json_view(v))));
}

fn push_keyed_member(ms: &mut Vec<(String, JsonValue)>, key: String, v: JsonValue)
    ensures
        members_view(final(ms)@) == members_view(old(ms)@).push((key@, json_view(v))),
{
    let ghost k = key@;
    ms.push((key, v));
    assert(members_view(ms@) =~= members_view(old(ms)@).push((k, json_view(v))));
}

fn push_opt_member(ms: &mut Vec<(String, JsonValue)>, key: &str, o: &Option<String>)
    ensures
        members_view(final(ms)@) == members_view(old(ms)@) + opt_member(key@, opt_view(*o)),
{
    match o {
        Some(s) => push_member(ms, key, string_value(s)),
        None => {},
    }
    assert(members_view(ms@) =~= members_view(old(ms)@) + opt_member(key@, opt_view(*o)));
}

fn empty_object() -> (r: JsonValue)
    ensures
        json_view(r) == JsonView::Object(Seq::empty()),
{
    let r = object_value(Vec::new());
    assert(members_view(Seq::<(String, JsonValue)>::empty()) =~= Seq::empty());
    r
}

fn push_item(items: &mut Vec<JsonValue>, v: JsonValue)
    ensures
        items_view(final(items)@) == items_view(old(items)@).push(json_view(v)),
{
    items.push(v);
    assert(items_view(items@) =~= items_view(old(items)@).push(json_view(v)));
}

fn object_value(ms: Vec<(String, JsonValue)>) -> (r: JsonValue)
    ensures
        json_view(r) == JsonView::Object(members_view(ms@)),
{
    proof {
        lemma_object_view(ms);
    }
    JsonValue::Object(ms)
}

fn array_value(items: Vec<JsonValue>) -> (r: JsonValue)
    ensures
        json_view(r) == JsonView::Array(items_view(items@)),
{
    proof {
        lemma_array_view(items);
    }
    JsonValue::Array(items)
}

fn strings_value(ss: &Vec<String>) -> (r: JsonValue)
    ensures
        json_view(r) == JsonView::Array(strings_json(string_views(ss@))),
{
    let mut items: Vec<JsonValue> = Vec::new();
    for k in 0..ss.len()
        invariant
            items_view(items@) == strings_json(string_views(ss@.take(k as int))),
    {
        push_item(&mut items, string_value(&ss[k]));
        assert(strings_json(string_views(ss@.take(k + 1))) =~= strings_json(string_views(ss@.take(k as int))).push(
            jstr(ss@[k as int]@),
        ));
    }
    assert(ss@.take(ss@.len() as int) =~= ss@);
    array_value(items)
}

// ---------------------------------------------------------------------------
// The JSON of the model.
// ---------------------------------------------------------------------------

fn schema_value(s: &ParamSchema) -> (r: JsonValue)
    ensures
        json_view(r) == schema_json(s@),
{
    let mut ms: Vec<(String, JsonValue)> = Vec::new();
    match s {
        ParamSchema::Integer(f) => {
            push_member(&mut ms, "type", text_value("integer"));
            match f {
                VariantOrUnknownOrEmpty::Item(IntegerFormat::Int32) => push_member(&mut ms, "format", text_value("int32")),
                VariantOrUnknownOrEmpty::Item(IntegerFormat::Int64) => push_member(&mut ms, "format", text_value("int64")),
                VariantOrUnknownOrEmpty::Unknown(u) => push_member(&mut ms, "format", string_value(u)),
                VariantOrUnknownOrEmpty::Empty => {},
            }
        },
        ParamSchema::String(f) => {
            push_member(&mut ms, "type", text_value("string"));
            match f {
                VariantOrUnknownOrEmpty::Item(StringFormat::Date) => push_member(&mut ms, "format", text_value("date")),
                VariantOrUnknownOrEmpty::Item(StringFormat::DateTime) => push_member(
                    &mut ms,
                    "format",
                    text_value("date-time"),
                ),
                VariantOrUnknownOrEmpty::Item(StringFormat::Password) => push_member(
                    &mut ms,
                    "format",
                    text_value("password"),
                ),
                VariantOrUnknownOrEmpty::Item(StringFormat::Byte) => push_member(&mut ms, "format", text_value("byte")),
                VariantOrUnknownOrEmpty::Item(StringFormat::Binary) => push_member(
                    &mut ms,
                    "format",
                    text_value("binary"),
                ),
                VariantOrUnknownOrEmpty::Unknown(u) => push_member(&mut ms, "format", string_value(u)),
                VariantOrUnknownOrEmpty::Empty => {},
            }
        },
        ParamSchema::Number(f) => {
            push_member(&mut ms, "type", text_value("number"));
            match f {
                VariantOrUnknownOrEmpty::Item(NumberFormat::Float) => push_member(&mut ms, "format", text_value("float")),
                VariantOrUnknownOrEmpty::Item(NumberFormat::Double) => push_member(
                    &mut ms,
                    "format",
                    text_value("double"),
                ),
                VariantOrUnknownOrEmpty::Unknown(u) => push_member(&mut ms, "format", string_value(u)),
                VariantOrUnknownOrEmpty::Empty => {},
            }
        },
        ParamSchema::Boolean => {
            push_member(&mut ms, "type", text_value("boolean"));
        },
        ParamSchema::Array => {
            push_member(&mut ms, "type", text_value("array"));
            push_member(&mut ms, "items", empty_object());
        },
        ParamSchema::Object => {
            push_member(&mut ms, "type", text_value("object"));
        },
    }
    let r = object_value(ms);
    assert(members_view(ms@) =~= schema_json(s@)->Object_0);
    r
}

fn object_schema_value(o: &ObjectSchema) -> (r: JsonValue)
    ensures
        json_view(r) == object_json(o@),
{
    let ghost pv = property_views(property_entries(o.properties));
    let n = property_count(&o.properties);
    let mut props: Vec<(String, JsonValue)> = Vec::new();
    for k in 0..n
        invariant
            n == pv.len(),
            pv == property_views(property_entries(o.properties)),
            members_view(props@) == properties_json(pv.take(k as int)),
    {
        let (name, schema) = property_at(&o.properties, k).unwrap();
        push_keyed_member(&mut props, name.clone(), schema_value(schema));
        assert(properties_json(pv.take(k + 1)) =~= properties_json(pv.take(k as int)).push(
            (pv[k as int].0, schema_json(pv[k as int].1)),
        ));
    }
    assert(pv.take(n as int) =~= pv);
    let mut ms: Vec<(String, JsonValue)> = Vec::new();
    push_member(&mut ms, "type", text_value("object"));
    push_member(&mut ms, "properties", object_value(props));
    push_member(&mut ms, "required", strings_value(&o.required));
    let r = object_value(ms);
    assert(members_view(ms@) =~= object_json(o@)->Object_0);
    r
}

fn parameter_value(p: &Parameter) -> (r: JsonValue)
    ensures
        json_view(r) == parameter_json(p@),
{
    let mut ms: Vec<(String, JsonValue)> = Vec::new();
    match p.location {
        ParameterLocation::Path => push_member(&mut ms, "in", text_value("path")),
        ParameterLocation::Query => push_member(&mut ms, "in", text_value("query")),
    }
    push_member(&mut ms, "name", string_value(&p.name));
    push_member(&mut ms, "required", JsonValue::Bool(p.required));
    push_member(&mut ms, "schema", schema_value(&p.schema));
    match p.style {
        ParameterStyle::Simple => push_member(&mut ms, "style", text_value("simple")),
        ParameterStyle::Form => push_member(&mut ms, "style", text_value("form")),
    }
    match p.location {
        ParameterLocation::Query => push_member(&mut ms, "allowReserved", JsonValue::Bool(p.allow_reserved)),
        ParameterLocation::Path => {},
    }
    let r = object_value(ms);
    assert(members_view(ms@) =~= parameter_json(p@)->Object_0);
    r
}

fn content_value(c: &Content) -> (r: JsonValue)
    ensures
        json_view(r) == content_json(c@),
{
    let mut media: Vec<(String, JsonValue)> = Vec::new();
    push_member(&mut media, "schema", object_schema_value(&c.schema));
    assert(members_view(media@) =~= seq![("schema"@, object_json(c@.schema))]);
    let mut ms: Vec<(String, JsonValue)> = Vec::new();
    push_keyed_member(&mut ms, c.media_type.clone(), object_value(media));
    let r = object_value(ms);
    assert(members_view(ms@) =~= content_json(c@)->Object_0);
    r
}

fn request_body_value(b: &RequestBody) -> (r: JsonValue)
    ensures
        json_view(r) == request_body_json(b@),
{
    let mut ms: Vec<(String, JsonValue)> = Vec::new();
    push_opt_member(&mut ms, "description", &b.description);
    push_member(&mut ms, "required", JsonValue::Bool(b.required));
    push_member(&mut ms, "content", content_value(&b.content));
    let r = object_value(ms);
    assert(members_view(ms@) =~= request_body_json(b@)->Object_0);
    r
}

fn response_value(resp: &Response) -> (r: JsonValue)
    ensures
        json_view(r) == response_json(resp@),
{
    let mut ms: Vec<(String, JsonValue)> = Vec::new();
    push_member(&mut ms, "description", string_value(&resp.description));
    match &resp.content {
        Some(c) => push_member(&mut ms, "content", content_value(c)),
        None => push_member(&mut ms, "content", empty_object()),
    }
    let r = object_value(ms);
    assert(members_view(ms@) =~= response_json(resp@)->Object_0);
    r
}

fn responses_value(rs: &Responses) -> (r: JsonValue)
    ensures
        json_view(r) == JsonView::Object(responses_json(rs@)),
{
    let ghost rv = rs@;
    let n = response_count(&rs.responses);
    let mut ms: Vec<(String, JsonValue)> = Vec::new();
    for k in 0..n
        invariant
            n == rv.len(),
            rv == response_views(response_entries(rs.responses)),
            members_view(ms@) == responses_json(rv.take(k as int)),
    {
        let (status, resp) = response_at(&rs.responses, k).unwrap();
        let mut key = String::new();
        push_signed_decimal(&mut key, *status as i64);
        push_keyed_member(&mut ms, key, response_value(resp));
        assert(responses_json(rv.take(k + 1)) =~= responses_json(rv.take(k as int)).push(
            (decimal_text(rv[k as int].0 as int), response_json(rv[k as int].1)),
        ));
    }
    assert(rv.take(n as int) =~= rv);
    object_value(ms)
}

fn operation_value(op: &Operation) -> (r: JsonValue)
    ensures
        json_view(r) == operation_json(op@),
{
    let ghost pv = op@.parameters;
    let mut params: Vec<JsonValue> = Vec::new();
    for k in 0..op.parameters.len()
        invariant
            pv == op@.parameters,
            pv.len() == op.parameters@.len(),
            items_view(params@) == parameters_json(pv.take(k as int)),
    {
        push_item(&mut params, parameter_value(&op.parameters[k]));
        assert(pv[k as int] == op.parameters@[k as int]@);
        assert(parameters_json(pv.take(k + 1)) =~= parameters_json(pv.take(k as int)).push(
            parameter_json(pv[k as int]),
        ));
    }
    assert(pv.take(pv.len() as int) =~= pv);
    let mut ms: Vec<(String, JsonValue)> = Vec::new();
    push_opt_member(&mut ms, "summary", &op.summary);
    push_opt_member(&mut ms, "description", &op.description);
    push_member(&mut ms, "tags", strings_value(&op.tags));
    push_member(&mut ms, "parameters", array_value(params));
    match &op.request_body {
        Some(b) => push_member(&mut ms, "requestBody", request_body_value(b)),
        None => {},
    }
    push_member(&mut ms, "responses", responses_value(&op.responses));
    let r = object_value(ms);
    assert(members_view(ms@) =~= operation_json(op@)->Object_0);
    r
}

/// `s` is empty or refers to an existing route of `routers`.
pub open spec fn slot_in_range<H>(routers: Seq<APIRouter<H>>, s: Option<RouteRef>) -> bool {
    s matches Some(at) ==> at.router < routers.len() && at.route < routers[at.router as int].routes@.len()
}

fn push_slot<H>(routers: &Vec<APIRouter<H>>, ms: &mut Vec<(String, JsonValue)>, name: &str, s: Option<RouteRef>)
    requires
        slot_in_range(routers@, s),
    ensures
        members_view(final(ms)@) == members_view(old(ms)@) + slot_member(routers@, name@, s),
{
    match s {
        Some(at) => {
            let op = &routers[at.router].routes[at.route].operation;
            push_member(ms, name, operation_value(op));
        },
        None => {},
    }
    assert(members_view(ms@) =~= members_view(old(ms)@) + slot_member(routers@, name@, s));
}

fn path_item_value<H>(routers: &Vec<APIRouter<H>>, item: &PathItem) -> (r: JsonValue)
    requires
        forall|m: Method| #[trigger] slot_in_range(routers@, slot(*item, m)),
    ensures
        json_view(r) == path_item_json(routers@, *item),
{
    assert(slot_in_range(routers@, slot(*item, Method::Get)));
    assert(slot_in_range(routers@, slot(*item, Method::Put)));
    assert(slot_in_range(routers@, slot(*item, Method::Post)));
    assert(slot_in_range(routers@, slot(*item, Method::Delete)));
    assert(slot_in_range(routers@, slot(*item, Method::Options)));
    assert(slot_in_range(routers@, slot(*item, Method::Head)));
    assert(slot_in_range(routers@, slot(*item, Method::Patch)));
    assert(slot_in_range(routers@, slot(*item, Method::Trace)));
    let mut ms: Vec<(String, JsonValue)> = Vec::new();
    push_slot(routers, &mut ms, "get", item.get);
    push_slot(routers, &mut ms, "put", item.put);
    push_slot(routers, &mut ms, "post", item.post);
    push_slot(routers, &mut ms, "delete", item.delete);
    push_slot(routers, &mut ms, "options", item.options);
    push_slot(routers, &mut ms, "head", item.head);
    push_slot(routers, &mut ms, "patch", item.patch);
    push_slot(routers, &mut ms, "trace", item.trace);
    let r = object_value(ms);
    assert(members_view(ms@) =~= path_item_json(routers@, *item)->Object_0);
    r
}

fn servers_value(host: &Option<String>, port: Option<i32>, servers: &Vec<Server>) -> (r: JsonValue)
    requires
        documents_servers(*host, port, servers@),
    ensures
        json_view(r) == JsonView::Array(servers_json(*host, port)),
{
    let mut items: Vec<JsonValue> = Vec::new();
    if servers.len() == 1 {
        let server = &servers[0];
        let mut ms: Vec<(String, JsonValue)> = Vec::new();
        push_member(&mut ms, "url", string_value(&server.url));
        push_opt_member(&mut ms, "description", &server.description);
        push_item(&mut items, object_value(ms));
        assert(members_view(ms@) =~= servers_json(*host, port)[0]->Object_0);
    }
    let r = array_value(items);
    assert(items_view(items@) =~= servers_json(*host, port));
    r
}

/// The JSON of the OpenAPI document `doc` of `app`.
fn document_value<S, H>(app: &APIApp<S, H>, doc: &OpenApiDocument) -> (r: JsonValue)
    requires
        doc.openapi@ == "3.0.3"@,
        doc.info.title@ == document_title(app.title),
        opt_view(doc.info.summary) == opt_view(app.summary),
        opt_view(doc.info.description) == opt_view(app.description),
        doc.info.version@ == app.version@,
        path_entries(doc.paths) == paths_of(app_entries(app.routers@)),
        documents_servers(app.host, app.port, doc.servers@),
    ensures
        json_view(r) == openapi_json(*app),
{
    let ghost routers = app.routers@;
    let ghost paths = paths_of(app_entries(routers));
    proof {
        vstd::std_specs::vec::axiom_spec_len(&app.routers);
        lemma_document_refs(routers);
    }
    let n = path_count(&doc.paths);
    let mut pm: Vec<(String, JsonValue)> = Vec::new();
    for k in 0..n
        invariant
            n == paths.len(),
            routers == app.routers@,
            paths == path_entries(doc.paths),
            paths == paths_of(app_entries(routers)),
            forall|i: int, m: Method|
                #![trigger slot(paths[i].1, m)]
                0 <= i < paths.len() ==> match slot(paths[i].1, m) {
                    Some(at) => refers_to(routers, at, paths[i].0, m),
                    None => true,
                },
            members_view(pm@) == paths_json(routers, paths.take(k as int)),
    {
        let (path, item) = path_at(&doc.paths, k).unwrap();
        assert forall|m: Method| #[trigger] slot_in_range(app.routers@, slot(*item, m)) by {
            assert(*item == paths[k as int].1);
            match slot(paths[k as int].1, m) {
                Some(at) => {},
                None => {},
            }
        }
        push_keyed_member(&mut pm, path.clone(), path_item_value(&app.routers, item));
        assert(paths_json(routers, paths.take(k + 1)) =~= paths_json(routers, paths.take(k as int)).push(
            (paths[k as int].0, path_item_json(routers, paths[k as int].1)),
        ));
    }
    assert(paths.take(n as int) =~= paths);
    let mut info: Vec<(String, JsonValue)> = Vec::new();
    push_member(&mut info, "title", string_value(&doc.info.title));
    push_opt_member(&mut info, "description", &doc.info.description);
    push_member(&mut info, "version", string_value(&doc.info.version));
    push_opt_member(&mut info, "x-summary", &doc.info.summary);
    assert(members_view(info@) =~= info_json(*app)->Object_0);
    let mut ms: Vec<(String, JsonValue)> = Vec::new();
    push_member(&mut ms, "openapi", string_value(&doc.openapi));
    push_member(&mut ms, "info", object_value(info));
    push_member(&mut ms, "servers", servers_value(&app.host, app.port, &doc.servers));
    push_member(&mut ms, "paths", object_value(pm));
    let r = object_value(ms);
    assert(members_view(ms@) =~= openapi_json(*app)->Object_0);
    r
}

// ---------------------------------------------------------------------------
// The text of the specification.
// ---------------------------------------------------------------------------

/// The pretty JSON text that `serde_json::to_string_pretty` writes of the
/// `openapiv3::OpenAPI` document that `serde_json::from_str` reads from
/// `json`; `None` when `json` does not read as such a document or writing
/// it fails.
pub uninterp spec fn openapi_pretty(json: Seq<char>) -> Option<Seq<char>>;

/// Reads `json` as an `openapiv3::OpenAPI` document with
/// `serde_json::from_str` and writes it with `serde_json::to_string_pretty`.
/// The contract only names the result (see [`openapi_pretty`]): the text
/// that these two calls give for `json`, or `None` when either fails.
#[verifier::external_body]
fn render_openapi(json: &str) -> (r: Option<String>)
    ensures
        opt_view(r) == openapi_pretty(json@),
{
    match serde_json::from_str::<openapiv3::OpenAPI>(json) {
        Ok(spec) => serde_json::to_string_pretty(&spec).ok(),
        Err(_) => None,
    }
}

/// The specification text from a rendering: the rendered text, or the
/// empty string when rendering failed.
pub fn openapi_text_or_empty(rendered: Option<String>) -> (r: String)
    ensures
        r@ == match opt_view(rendered) {
            Some(t) => t,
            None => Seq::empty(),
        },
{
    match rendered {
        Some(t) => t,
        None => String::new(),
    }
}

impl<S, H> APIApp<S, H> {
    /// The OpenAPI 3.0 specification of the application as pretty JSON, as
    /// `openapiv3` and `serde_json` write it; the empty string if that
    /// fails. The document is [`APIApp::openapi_document`], with each
    /// route's operation in the slot that refers to it and the summary as
    /// the `x-summary` extension of the info.
    pub fn generate_openapi_str(&self) -> (r: String)
        ensures
            r@ == match openapi_pretty(json_text(openapi_json(*self))) {
                Some(t) => t,
                None => Seq::empty(),
            },
    {
        let doc = self.openapi_document();
        let json = document_value(self, &doc);
        let mut text = String::new();
        write_json(&mut text, &json);
        assert(text@ =~= json_text(openapi_json(*self)));
        openapi_text_or_empty(render_openapi(text.as_str()))
    }
}

} // verus!
