//! JSON text of the library's JSON values (RFC 8259, without whitespace).
use vstd::prelude::*;
use crate::json::{json_view, JsonValue, JsonView};
use crate::text::push_char;

verus! {

/// The lower-case hexadecimal digit of `n` (`0 <= n < 16`).
pub open spec fn hex_char(n: int) -> char {
    if n == 0 { '0' }
    else if n == 1 { '1' }
    else if n == 2 { '2' }
    else if n == 3 { '3' }
    else if n == 4 { '4' }
    else if n == 5 { '5' }
    else if n == 6 { '6' }
    else if n == 7 { '7' }
    else if n == 8 { '8' }
    else if n == 9 { '9' }
    else if n == 10 { 'a' }
    else if n == 11 { 'b' }
    else if n == 12 { 'c' }
    else if n == 13 { 'd' }
    else if n == 14 { 'e' }
    else { 'f' }
}

/// The text of `c` inside a JSON string: `"` and `\` are escaped with a
/// backslash, control characters as `\u00XX`, anything else stands as is.
pub open spec fn escape_char(c: char) -> Seq<char> {
    if c == '"' {
        seq!['\\', '"']
    } else if c == '\\' {
        seq!['\\', '\\']
    } else if (c as int) < 32 {
        seq!['\\', 'u', '0', '0', if (c as int) < 16 { '0' } else { '1' }, hex_char((c as int) % 16)]
    } else {
        seq![c]
    }
}

/// The characters of `s`, each escaped.
pub open spec fn escaped(s: Seq<char>) -> Seq<char>
    decreases s.len(),
{
    if s.len() == 0 {
        Seq::empty()
    } else {
        escaped(s.drop_last()) + escape_char(s.last())
    }
}

/// `s` as a JSON string.
pub open spec fn quoted(s: Seq<char>) -> Seq<char> {
    seq!['"'] + escaped(s) + seq!['"']
}

/// The JSON text of `v`: `null`, `true`, `false`, a number's own text, a
/// quoted string, or the elements and members between brackets and braces,
/// separated by commas, each member as its quoted key, `:` and its value.
pub open spec fn json_text(v: JsonView) -> Seq<char>
    decreases v, 0nat,
{
    match v {
        JsonView::Null => seq!['n', 'u', 'l', 'l'],
        JsonView::Bool(b) => if b {
            seq!['t', 'r', 'u', 'e']
        } else {
            seq!['f', 'a', 'l', 's', 'e']
        },
        JsonView::Number(n) => n,
        JsonView::String(s) => quoted(s),
        JsonView::Array(items) => seq!['['] + items_text(items, items.len()) + seq![']'],
        JsonView::Object(members) => seq!['{'] + members_text(members, members.len()) + seq!['}'],
    }
}

/// The texts of the first `n` elements of `items`, separated by commas.
pub open spec fn items_text(items: Seq<JsonView>, n: nat) -> Seq<char>
    decreases items, n,
{
    if n == 0 || n > items.len() {
        Seq::empty()
    } else {
        let prev = items_text(items, (n - 1) as nat);
        (if n == 1 { prev } else { prev + seq![','] }) + json_text(items[n - 1])
    }
}

/// The texts of the first `n` members of `members`, separated by commas.
pub open spec fn members_text(members: Seq<(Seq<char>, JsonView)>, n: nat) -> Seq<char>
    decreases members, n,
{
    if n == 0 || n > members.len() {
        Seq::empty()
    } else {
        let prev = members_text(members, (n - 1) as nat);
        let m = members[n - 1];
        proof {
            assert(decreases_to!(members => members[n - 1]));
        }
        (if n == 1 { prev } else { prev + seq![','] }) + quoted(m.0) + seq![':'] + json_text(m.1)
    }
}

/// The views of `items`.
pub open spec fn items_view(items: Seq<JsonValue>) -> Seq<JsonView> {
    Seq::new(items.len(), |i: int| json_view(items[i]))
}

/// The views of `members`, keys by their text.
pub open spec fn members_view(members: Seq<(String, JsonValue)>) -> Seq<(Seq<char>, JsonView)> {
    Seq::new(members.len(), |i: int| (members[i].0@, json_view(members[i].1)))
}

/// An array's view is the views of its elements.
pub proof fn lemma_array_view(items: Vec<JsonValue>)
    ensures
        json_view(JsonValue::Array(items)) == JsonView::Array(items_view(items@)),
{
    let a = json_view(JsonValue::Array(items));
    assert(a->Array_0 =~= items_view(items@));
}

/// An object's view is the views of its members.
pub proof fn lemma_object_view(members: Vec<(String, JsonValue)>)
    ensures
        json_view(JsonValue::Object(members)) == JsonView::Object(members_view(members@)),
{
    let o = json_view(JsonValue::Object(members));
    assert(o->Object_0 =~= members_view(members@));
}

fn push_hex(out: &mut String, n: u32)
    requires
        n < 16,
    ensures
        final(out)@ == old(out)@.push(hex_char(n as int)),
{
    let c = if n == 0 { '0' }
    else if n == 1 { '1' }
    else if n == 2 { '2' }
    else if n == 3 { '3' }
    else if n == 4 { '4' }
    else if n == 5 { '5' }
    else if n == 6 { '6' }
    else if n == 7 { '7' }
    else if n == 8 { '8' }
    else if n == 9 { '9' }
    else if n == 10 { 'a' }
    else if n == 11 { 'b' }
    else if n == 12 { 'c' }
    else if n == 13 { 'd' }
    else if n == 14 { 'e' }
    else { 'f' };
    push_char(out, c);
}

fn push_escaped_char(out: &mut String, c: char)
    ensures
        final(out)@ == old(out)@ + escape_char(c),
{
    let code = c as u32;
    if c == '"' {
        push_char(out, '\\');
        push_char(out, '"');
    } else if c == '\\' {
        push_char(out, '\\');
        push_char(out, '\\');
    } else if code < 32 {
        push_char(out, '\\');
        push_char(out, 'u');
        push_char(out, '0');
        push_char(out, '0');
        push_char(out, if code < 16 { '0' } else { '1' });
        push_hex(out, code % 16);
    } else {
        push_char(out, c);
    }
    assert(final(out)@ =~= old(out)@ + escape_char(c));
}

/// Appends `s` as a JSON string.
pub fn push_quoted(out: &mut String, s: &str)
    ensures
        final(out)@ == old(out)@ + quoted(s@),
{
    let ghost start = out@;
    push_char(out, '"');
    for c in iter: s.chars()
        invariant
            iter.seq() == s@,
            out@ == start + seq!['"'] + escaped(s@.take(iter.index() as int)),
    {
        assert(s@.take(iter.index() + 1).drop_last() =~= s@.take(iter.index() as int));
        push_escaped_char(out, c);
    }
    assert(s@.take(s@.len() as int) =~= s@);
    push_char(out, '"');
    assert(out@ =~= start + quoted(s@));
}

/// Appends the JSON text of `v`.
pub fn write_json(out: &mut String, v: &JsonValue)
    ensures
        final(out)@ == old(out)@ + json_text(json_view(*v)),
    decreases v, 0nat,
{
    let ghost start = out@;
    match v {
        JsonValue::Null => {
            push_char(out, 'n');
            push_char(out, 'u');
            push_char(out, 'l');
            push_char(out, 'l');
        },
        JsonValue::Bool(b) => {
            if *b {
                push_char(out, 't');
                push_char(out, 'r');
                push_char(out, 'u');
                push_char(out, 'e');
            } else {
                push_char(out, 'f');
                push_char(out, 'a');
                push_char(out, 'l');
                push_char(out, 's');
                push_char(out, 'e');
            }
        },
        JsonValue::Number(n) => {
            out.append(n.as_str());
        },
        JsonValue::String(s) => {
            push_quoted(out, s.as_str());
        },
        JsonValue::Array(items) => {
            proof {
                lemma_array_view(*items);
            }
            push_char(out, '[');
            write_items(out, items);
            push_char(out, ']');
        },
        JsonValue::Object(members) => {
            proof {
                lemma_object_view(*members);
            }
            push_char(out, '{');
            write_members(out, members);
            push_char(out, '}');
        },
    }
    assert(out@ =~= start + json_text(json_view(*v)));
}

fn write_items(out: &mut String, items: &Vec<JsonValue>)
    ensures
        final(out)@ == old(out)@ + items_text(items_view(items@), items@.len()),
    decreases items@, 1nat,
{
    let ghost start = out@;
    let ghost iv = items_view(items@);
    for k in 0..items.len()
        invariant
            iv == items_view(items@),
            out@ == start + items_text(iv, k as nat),
    {
        let ghost before = out@;
        if k > 0 {
            push_char(out, ',');
        }
        assert(decreases_to!(items@ => items@[k as int]));
        write_json(out, &items[k]);
        assert(iv[k as int] == json_view(items@[k as int]));
        assert(out@ =~= start + items_text(iv, (k + 1) as nat));
    }
}

fn write_members(out: &mut String, members: &Vec<(String, JsonValue)>)
    ensures
        final(out)@ == old(out)@ + members_text(members_view(members@), members@.len()),
    decreases members@, 1nat,
{
    let ghost start = out@;
    let ghost mv = members_view(members@);
    for k in 0..members.len()
        invariant
            mv == members_view(members@),
            out@ == start + members_text(mv, k as nat),
    {
        if k > 0 {
            push_char(out, ',');
        }
        let (key, value) = &members[k];
        push_quoted(out, key.as_str());
        push_char(out, ':');
        assert(decreases_to!(members@ => members@[k as int]));
        write_json(out, value);
        assert(mv[k as int] == (key@, json_view(*value)));
        assert(out@ =~= start + members_text(mv, (k + 1) as nat));
    }
}

} // verus!
