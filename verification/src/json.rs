//! JSON values for the outbound payload, and their exact wire text.
//!
//! Custom properties arrive as strings and are coerced to a typed JSON value:
//! the literals "true" and "false" become booleans, a string that parses as a
//! number becomes that number, and anything else stays a string. The
//! serializer here produces the exact text for those values, with standard
//! JSON string escaping.

use vstd::prelude::*;
use vstd::string::StrSliceExecFns;
use vstd::string::StringExecFns;

use crate::strutil::{push_char, push_str, str_eq};

verus! {

/// Ghost counterpart of `JsonValue`.
pub ghost enum JsonV {
    Bool(bool),
    Num(Seq<char>),
    Str(Seq<char>),
}

/// A typed custom-property value. A number is carried as the exact text it
/// serializes to.
#[derive(Debug)]
pub enum JsonValue {
    Bool(bool),
    Num(String),
    Str(String),
}

impl View for JsonValue {
    type V = JsonV;

    open spec fn view(&self) -> JsonV {
        match self {
            JsonValue::Bool(b) => JsonV::Bool(*b),
            JsonValue::Num(t) => JsonV::Num(t@),
            JsonValue::Str(s) => JsonV::Str(s@),
        }
    }
}

/// What a JSON-number parse of the string yields: `None` when the string is
/// not a number, and otherwise the text the parsed number renders back to.
pub uninterp spec fn json_number_text(s: Seq<char>) -> Option<Seq<char>>;

/// Relies on serde_json::Number (its FromStr parse and its Display
/// rendering): both depend on the characters of the string alone.
#[verifier::external_body]
fn number_text(value: &str) -> (r: Option<String>)
    ensures
        r is Some <==> json_number_text(value@) is Some,
        r matches Some(t) ==> json_number_text(value@) == Some(t@),
{
    match value.parse::<serde_json::Number>() {
        Ok(n) => Some(n.to_string()),
        Err(_) => None,
    }
}

/// The coercion applied to every incoming property value.
pub open spec fn spec_parse_value(s: Seq<char>) -> JsonV {
    if s == "true"@ {
        JsonV::Bool(true)
    } else if s == "false"@ {
        JsonV::Bool(false)
    } else {
        match json_number_text(s) {
            Some(t) => JsonV::Num(t),
            None => JsonV::Str(s),
        }
    }
}

/// Coerces a property value string to a typed JSON value.
pub fn parse_value(value: &str) -> (r: JsonValue)
    ensures
        r@ == spec_parse_value(value@),
{
    if str_eq(value, "true") {
        JsonValue::Bool(true)
    } else if str_eq(value, "false") {
        JsonValue::Bool(false)
    } else {
        match number_text(value) {
            Some(t) => JsonValue::Num(t),
            None => JsonValue::Str(String::from_str(value)),
        }
    }
}

/// The lowercase hexadecimal digit characters, in order.
pub open spec fn hex_digit(d: int) -> char {
    if d == 0 {
        '0'
    } else if d == 1 {
        '1'
    } else if d == 2 {
        '2'
    } else if d == 3 {
        '3'
    } else if d == 4 {
        '4'
    } else if d == 5 {
        '5'
    } else if d == 6 {
        '6'
    } else if d == 7 {
        '7'
    } else if d == 8 {
        '8'
    } else if d == 9 {
        '9'
    } else if d == 10 {
        'a'
    } else if d == 11 {
        'b'
    } else if d == 12 {
        'c'
    } else if d == 13 {
        'd'
    } else if d == 14 {
        'e'
    } else {
        'f'
    }
}

/// The escape of one character inside a JSON string: quote and backslash get
/// a backslash escape, the usual control characters get their short form,
/// the remaining control characters get a `\u00..` escape, and everything
/// else stands as itself.
pub open spec fn json_escape_char(c: char) -> Seq<char> {
    if c == '"' {
        seq!['\\', '"']
    } else if c == '\\' {
        seq!['\\', '\\']
    } else if c == '\u{8}' {
        seq!['\\', 'b']
    } else if c == '\t' {
        seq!['\\', 't']
    } else if c == '\n' {
        seq!['\\', 'n']
    } else if c == '\u{c}' {
        seq!['\\', 'f']
    } else if c == '\r' {
        seq!['\\', 'r']
    } else if (c as u32) < 0x20 {
        seq!['\\', 'u', '0', '0', hex_digit(c as u32 as int / 16), hex_digit(c as u32 as int % 16)]
    } else {
        seq![c]
    }
}

/// The escaped form of a whole string body.
pub open spec fn json_escape(s: Seq<char>) -> Seq<char>
    decreases s.len(),
{
    if s.len() == 0 {
        Seq::empty()
    } else {
        json_escape(s.drop_last()) + json_escape_char(s.last())
    }
}

/// A JSON string literal: the escaped body between double quotes.
pub open spec fn json_string(s: Seq<char>) -> Seq<char> {
    seq!['"'] + json_escape(s) + seq!['"']
}

fn hex_digit_char(d: u32) -> (c: char)
    requires
        d < 16,
    ensures
        c == hex_digit(d as int),
{
    if d == 0 {
        '0'
    } else if d == 1 {
        '1'
    } else if d == 2 {
        '2'
    } else if d == 3 {
        '3'
    } else if d == 4 {
        '4'
    } else if d == 5 {
        '5'
    } else if d == 6 {
        '6'
    } else if d == 7 {
        '7'
    } else if d == 8 {
        '8'
    } else if d == 9 {
        '9'
    } else if d == 10 {
        'a'
    } else if d == 11 {
        'b'
    } else if d == 12 {
        'c'
    } else if d == 13 {
        'd'
    } else if d == 14 {
        'e'
    } else {
        'f'
    }
}

fn write_escaped_char(out: &mut String, c: char)
    ensures
        final(out)@ == old(out)@ + json_escape_char(c),
{
    if c == '"' {
        push_char(out, '\\');
        push_char(out, '"');
        proof {
            assert(old(out)@.push('\\').push('"') =~= old(out)@ + json_escape_char(c));
        }
    } else if c == '\\' {
        push_char(out, '\\');
        push_char(out, '\\');
        proof {
            assert(old(out)@.push('\\').push('\\') =~= old(out)@ + json_escape_char(c));
        }
    } else if c == '\u{8}' {
        push_char(out, '\\');
        push_char(out, 'b');
        proof {
            assert(old(out)@.push('\\').push('b') =~= old(out)@ + json_escape_char(c));
        }
    } else if c == '\t' {
        push_char(out, '\\');
        push_char(out, 't');
        proof {
            assert(old(out)@.push('\\').push('t') =~= old(out)@ + json_escape_char(c));
        }
    } else if c == '\n' {
        push_char(out, '\\');
        push_char(out, 'n');
        proof {
            assert(old(out)@.push('\\').push('n') =~= old(out)@ + json_escape_char(c));
        }
    } else if c == '\u{c}' {
        push_char(out, '\\');
        push_char(out, 'f');
        proof {
            assert(old(out)@.push('\\').push('f') =~= old(out)@ + json_escape_char(c));
        }
    } else if c == '\r' {
        push_char(out, '\\');
        push_char(out, 'r');
        proof {
            assert(old(out)@.push('\\').push('r') =~= old(out)@ + json_escape_char(c));
        }
    } else {
        let u = c as u32;
        if u < 0x20 {
            push_char(out, '\\');
            push_char(out, 'u');
            push_char(out, '0');
            push_char(out, '0');
            push_char(out, hex_digit_char(u / 16));
            push_char(out, hex_digit_char(u % 16));
            proof {
                assert(old(out)@.push('\\').push('u').push('0').push('0').push(
                    hex_digit(u as int / 16),
                ).push(hex_digit(u as int % 16)) =~= old(out)@ + json_escape_char(c));
            }
        } else {
            push_char(out, c);
            proof {
                assert(old(out)@.push(c) =~= old(out)@ + json_escape_char(c));
            }
        }
    }
}

/// Appends the escaped body of `s`.
fn write_escaped(out: &mut String, s: &str)
    ensures
        final(out)@ == old(out)@ + json_escape(s@),
{
    let n = s.unicode_len();
    let mut i: usize = 0;
    proof {
        assert(s@.take(0) =~= Seq::<char>::empty());
    }
    while i < n
        invariant
            n == s@.len(),
            i <= n,
            out@ == old(out)@ + json_escape(s@.take(i as int)),
        decreases n - i,
    {
        let c = s.get_char(i);
        write_escaped_char(out, c);
        proof {
            assert(s@.take(i as int + 1).drop_last() =~= s@.take(i as int));
            assert(s@.take(i as int + 1).last() == c);
        }
        i = i + 1;
    }
    proof {
        assert(s@.take(n as int) =~= s@);
    }
}

/// Appends the JSON string literal for `s`.
pub fn write_json_string(out: &mut String, s: &str)
    ensures
        final(out)@ == old(out)@ + json_string(s@),
{
    push_char(out, '"');
    write_escaped(out, s);
    push_char(out, '"');
    proof {
        assert((old(out)@.push('"') + json_escape(s@)).push('"') =~= old(out)@ + json_string(s@));
    }
}

/// The wire text of one JSON value.
pub open spec fn json_value_text(v: JsonV) -> Seq<char> {
    match v {
        JsonV::Bool(b) => if b {
            "true"@
        } else {
            "false"@
        },
        JsonV::Num(t) => t,
        JsonV::Str(s) => json_string(s),
    }
}

/// Appends the wire text of `v`.
pub fn write_json_value(out: &mut String, v: &JsonValue)
    ensures
        final(out)@ == old(out)@ + json_value_text(v@),
{
    match v {
        JsonValue::Bool(b) => {
            if *b {
                push_str(out, "true");
            } else {
                push_str(out, "false");
            }
        },
        JsonValue::Num(t) => {
            push_str(out, t.as_str());
        },
        JsonValue::Str(s) => {
            write_json_string(out, s.as_str());
        },
    }
}

/// The view of an ordered list of object entries.
pub open spec fn entries_view(m: Seq<(String, JsonValue)>) -> Seq<(Seq<char>, JsonV)> {
    m.map_values(|e: (String, JsonValue)| (e.0@, e.1@))
}

/// The wire text of one object member.
pub open spec fn json_member(e: (Seq<char>, JsonV)) -> Seq<char> {
    json_string(e.0) + seq![':'] + json_value_text(e.1)
}

/// The comma-joined members of an object body, in order.
pub open spec fn json_object_body(m: Seq<(Seq<char>, JsonV)>) -> Seq<char>
    decreases m.len(),
{
    if m.len() == 0 {
        Seq::empty()
    } else if m.len() == 1 {
        json_member(m[0])
    } else {
        json_object_body(m.drop_last()) + seq![','] + json_member(m.last())
    }
}

/// The wire text of a whole JSON object.
pub open spec fn json_object(m: Seq<(Seq<char>, JsonV)>) -> Seq<char> {
    seq!['{'] + json_object_body(m) + seq!['}']
}

/// Appends the wire text of the object whose ordered entries are `m`.
pub fn write_json_object(out: &mut String, m: &Vec<(String, JsonValue)>)
    ensures
        final(out)@ == old(out)@ + json_object(entries_view(m@)),
{
    push_char(out, '{');
    let n = m.len();
    let mut i: usize = 0;
    proof {
        assert(entries_view(m@).take(0) =~= Seq::<(Seq<char>, JsonV)>::empty());
    }
    while i < n
        invariant
            n == m.len(),
            i <= n,
            out@ == old(out)@ + seq!['{'] + json_object_body(entries_view(m@).take(i as int)),
        decreases n - i,
    {
        proof {
            assert(entries_view(m@).take(i as int + 1).drop_last() =~= entries_view(m@).take(
                i as int,
            ));
            assert(entries_view(m@).take(i as int + 1).last() == entries_view(m@)[i as int]);
            assert(entries_view(m@)[i as int] == (m@[i as int].0@, m@[i as int].1@));
        }
        if i > 0 {
            push_char(out, ',');
        }
        write_json_string(out, m[i].0.as_str());
        push_char(out, ':');
        write_json_value(out, &m[i].1);
        i = i + 1;
    }
    push_char(out, '}');
    proof {
        assert(entries_view(m@).take(n as int) =~= entries_view(m@));
        assert((old(out)@ + seq!['{'] + json_object_body(entries_view(m@))).push('}') =~= old(out)@
            + json_object(entries_view(m@)));
    }
}

/// Insertion with overwrite: a repeated key replaces the value in place, a
/// new key goes to the end.
pub open spec fn upsert(m: Seq<(Seq<char>, JsonV)>, k: Seq<char>, v: JsonV) -> Seq<
    (Seq<char>, JsonV),
>
    decreases m.len(),
{
    if m.len() == 0 {
        seq![(k, v)]
    } else if m[0].0 == k {
        seq![(k, v)] + m.drop_first()
    } else {
        seq![m[0]] + upsert(m.drop_first(), k, v)
    }
}

proof fn lemma_upsert_found(m: Seq<(Seq<char>, JsonV)>, k: Seq<char>, v: JsonV, i: int)
    requires
        0 <= i < m.len(),
        m[i].0 == k,
        forall|j: int| 0 <= j < i ==> m[j].0 != k,
    ensures
        upsert(m, k, v) =~= m.update(i, (k, v)),
    decreases i,
{
    if i == 0 {
        assert(upsert(m, k, v) =~= m.update(0, (k, v)));
    } else {
        assert(m[0].0 != k);
        lemma_upsert_found(m.drop_first(), k, v, i - 1);
        assert(seq![m[0]] + m.drop_first().update(i - 1, (k, v)) =~= m.update(i, (k, v)));
    }
}

proof fn lemma_upsert_absent(m: Seq<(Seq<char>, JsonV)>, k: Seq<char>, v: JsonV)
    requires
        forall|j: int| 0 <= j < m.len() ==> m[j].0 != k,
    ensures
        upsert(m, k, v) =~= m.push((k, v)),
    decreases m.len(),
{
    if m.len() == 0 {
        assert(upsert(m, k, v) =~= m.push((k, v)));
    } else {
        lemma_upsert_absent(m.drop_first(), k, v);
        assert(seq![m[0]] + m.drop_first().push((k, v)) =~= m.push((k, v)));
    }
}

/// Inserts `key` with `value`, replacing the value in place when the key is
/// already present.
pub fn upsert_entry(m: &mut Vec<(String, JsonValue)>, key: &str, value: JsonValue)
    ensures
        entries_view(final(m)@) == upsert(entries_view(old(m)@), key@, value@),
{
    let n = m.len();
    let mut i: usize = 0;
    while i < n
        invariant
            n == m.len(),
            i <= n,
            m@ == old(m)@,
            forall|j: int| 0 <= j < i ==> entries_view(m@)[j].0 != key@,
        decreases n - i,
    {
        if str_eq(m[i].0.as_str(), key) {
            proof {
                assert(entries_view(m@)[i as int].0 == key@);
                lemma_upsert_found(entries_view(old(m)@), key@, value@, i as int);
            }
            let ghost target = upsert(entries_view(old(m)@), key@, value@);
            m[i] = (String::from_str(key), value);
            proof {
                assert(entries_view(m@) =~= target);
            }
            return ;
        }
        i = i + 1;
    }
    proof {
        lemma_upsert_absent(entries_view(old(m)@), key@, value@);
    }
    let ghost target = upsert(entries_view(old(m)@), key@, value@);
    m.push((String::from_str(key), value));
    proof {
        assert(entries_view(m@) =~= target);
    }
}

} // verus!
