//! A plain JSON value model, its canonical text form, and lookups.

use vstd::prelude::*;

verus! {

/// A JSON value with integer numbers; objects keep their members in order.
#[derive(Debug)]
pub enum JsonValue {
    Null,
    Bool(bool),
    Int(i64),
    Str(String),
    Array(Vec<JsonValue>),
    Object(Vec<(String, JsonValue)>),
}

/// A lowercase hexadecimal digit.
pub open spec fn hex_digit(d: nat) -> char {
    seq!['0', '1', '2', '3', '4', '5', '6', '7', '8', '9', 'a', 'b', 'c', 'd', 'e', 'f'][d as int]
}

/// How one character is written inside a JSON string: quote and
/// backslash are escaped, control characters take their short escape or
/// `\u00XX`, everything else stands as it is.
pub open spec fn escape_char(c: char) -> Seq<char> {
    let n = c as u32;
    if c == '"' {
        seq!['\\', '"']
    } else if c == '\\' {
        seq!['\\', '\\']
    } else if n == 0x08 {
        seq!['\\', 'b']
    } else if n == 0x09 {
        seq!['\\', 't']
    } else if n == 0x0a {
        seq!['\\', 'n']
    } else if n == 0x0c {
        seq!['\\', 'f']
    } else if n == 0x0d {
        seq!['\\', 'r']
    } else if n < 0x20 {
        seq!['\\', 'u', '0', '0', hex_digit((n / 16) as nat), hex_digit((n % 16) as nat)]
    } else {
        seq![c]
    }
}

/// The escaped characters of a string, in order.
pub open spec fn escaped(s: Seq<char>) -> Seq<char>
    decreases s.len(),
{
    if s.len() == 0 {
        seq![]
    } else {
        escaped(s.drop_last()) + escape_char(s.last())
    }
}

/// The JSON string literal for a string: quotes around its escaped
/// characters.
pub open spec fn json_quoted(s: Seq<char>) -> Seq<char> {
    seq!['"'] + escaped(s) + seq!['"']
}

/// Text without quotes, backslashes or control characters is written as
/// it stands.
pub proof fn lemma_plain_text_unescaped(s: Seq<char>)
    requires
        forall|i: int|
            0 <= i < s.len() ==> #[trigger] s[i] != '"' && s[i] != '\\' && (s[i] as u32) >= 0x20,
    ensures
        escaped(s) == s,
    decreases s.len(),
{
    if s.len() > 0 {
        lemma_plain_text_unescaped(s.drop_last());
        assert(escaped(s) =~= s);
    }
}

/// Relies on serde_json::to_string on a `str`: it writes the string
/// between quotes, escaping each character as `escape_char` says
/// (`format_escaped_str` and its escape table), and serialising a `str`
/// into memory cannot fail.
#[verifier::external_body]
pub(crate) fn quote_json(s: &str) -> (r: String)
    ensures
        r@ == json_quoted(s@),
{
    serde_json::to_string(s).unwrap_or_default()
}

pub open spec fn digit_char(d: nat) -> char {
    seq!['0', '1', '2', '3', '4', '5', '6', '7', '8', '9'][d as int]
}

/// Decimal digits of a natural number, most significant first.
pub open spec fn digits(n: nat) -> Seq<char>
    decreases n,
{
    if n < 10 {
        seq![digit_char(n)]
    } else {
        digits(n / 10) + seq![digit_char(n % 10)]
    }
}

/// Decimal text of an integer, with a leading `-` when negative.
pub open spec fn decimal(i: int) -> Seq<char> {
    if i < 0 {
        seq!['-'] + digits((-i) as nat)
    } else {
        digits(i as nat)
    }
}

pub open spec fn true_text() -> Seq<char> {
    seq!['t', 'r', 'u', 'e']
}

pub open spec fn false_text() -> Seq<char> {
    seq!['f', 'a', 'l', 's', 'e']
}

pub open spec fn bool_text(b: bool) -> Seq<char> {
    if b {
        true_text()
    } else {
        false_text()
    }
}

/// The compact JSON text of a value.
pub open spec fn json_text(v: JsonValue) -> Seq<char>
    decreases v,
{
    match v {
        JsonValue::Null => seq!['n', 'u', 'l', 'l'],
        JsonValue::Bool(b) => bool_text(b),
        JsonValue::Int(i) => decimal(i as int),
        JsonValue::Str(s) => json_quoted(s@),
        JsonValue::Array(items) => seq!['['] + items_text(items@) + seq![']'],
        JsonValue::Object(members) => seq!['{'] + members_text(members@) + seq!['}'],
    }
}

/// Comma-separated texts of array items.
pub open spec fn items_text(s: Seq<JsonValue>) -> Seq<char>
    decreases s,
{
    if s.len() == 0 {
        seq![]
    } else {
        items_text(s.drop_last()) + (if s.len() > 1 {
            seq![',']
        } else {
            seq![]
        }) + json_text(s.last())
    }
}

/// Text of one object member: quoted key, colon, value.
pub open spec fn member_text(m: (String, JsonValue)) -> Seq<char>
    decreases m,
{
    json_quoted(m.0@) + seq![':'] + json_text(m.1)
}

/// Comma-separated texts of object members.
pub open spec fn members_text(s: Seq<(String, JsonValue)>) -> Seq<char>
    decreases s,
{
    if s.len() == 0 {
        seq![]
    } else {
        members_text(s.drop_last()) + (if s.len() > 1 {
            seq![',']
        } else {
            seq![]
        }) + member_text(s.last())
    }
}

fn digit_str(d: u64) -> (r: &'static str)
    requires
        d < 10,
    ensures
        r@ == seq![digit_char(d as nat)],
{
    proof {
        reveal_strlit("0");
        reveal_strlit("1");
        reveal_strlit("2");
        reveal_strlit("3");
        reveal_strlit("4");
        reveal_strlit("5");
        reveal_strlit("6");
        reveal_strlit("7");
        reveal_strlit("8");
        reveal_strlit("9");
    }
    if d == 0 {
        "0"
    } else if d == 1 {
        "1"
    } else if d == 2 {
        "2"
    } else if d == 3 {
        "3"
    } else if d == 4 {
        "4"
    } else if d == 5 {
        "5"
    } else if d == 6 {
        "6"
    } else if d == 7 {
        "7"
    } else if d == 8 {
        "8"
    } else {
        "9"
    }
}

fn write_digits(n: u64, out: &mut String)
    ensures
        final(out)@ == old(out)@ + digits(n as nat),
    decreases n,
{
    if n < 10 {
        out.append(digit_str(n));
    } else {
        write_digits(n / 10, out);
        out.append(digit_str(n % 10));
        assert(final(out)@ =~= old(out)@ + digits(n as nat));
    }
}

/// Appends the decimal text of `i`.
pub fn write_int(i: i64, out: &mut String)
    ensures
        final(out)@ == old(out)@ + decimal(i as int),
{
    if i < 0 {
        proof {
            reveal_strlit("-");
        }
        out.append("-");
        let m: u64 = if i == i64::MIN {
            9223372036854775808u64
        } else {
            (-i) as u64
        };
        write_digits(m, out);
        assert(final(out)@ =~= old(out)@ + decimal(i as int));
    } else {
        write_digits(i as u64, out);
    }
}

/// The decimal text of `i`.
pub fn int_text(i: i64) -> (r: String)
    ensures
        r@ == decimal(i as int),
{
    let mut s = String::new();
    write_int(i, &mut s);
    assert(s@ =~= decimal(i as int));
    s
}

/// The text `true` or `false`.
pub fn bool_str(b: bool) -> (r: &'static str)
    ensures
        r@ == bool_text(b),
{
    proof {
        reveal_strlit("true");
        reveal_strlit("false");
    }
    if b {
        "true"
    } else {
        "false"
    }
}

/// Appends the compact JSON text of `v`.
pub fn write_json(v: &JsonValue, out: &mut String)
    ensures
        final(out)@ == old(out)@ + json_text(*v),
    decreases v,
{
    proof {
        reveal_strlit("null");
        reveal_strlit("[");
        reveal_strlit("]");
        reveal_strlit("{");
        reveal_strlit("}");
    }
    match v {
        JsonValue::Null => {
            out.append("null");
        },
        JsonValue::Bool(b) => {
            out.append(bool_str(*b));
        },
        JsonValue::Int(i) => {
            write_int(*i, out);
        },
        JsonValue::Str(s) => {
            let q = quote_json(s.as_str());
            out.append(q.as_str());
        },
        JsonValue::Array(items) => {
            out.append("[");
            let ghost start = out@;
            let mut i: usize = 0;
            while i < items.len()
                invariant
                    i <= items@.len(),
                    *v is Array && v->Array_0 == *items,
                    out@ == start + items_text(items@.take(i as int)),
                decreases items@.len() - i,
            {
                let ghost before = out@;
                proof {
                    reveal_strlit(",");
                    reveal_strlit(":");
                }
                if i > 0 {
                    out.append(",");
                }
                let ghost mid = out@;
                proof {
                    assert(decreases_to!(*v => v->Array_0));
                    assert(decreases_to!(*items => items[i as int]));
                }
                write_json(&items[i], out);
                proof {
                    let t = items@.take(i as int + 1);
                    assert(t.drop_last() =~= items@.take(i as int));
                    assert(t.last() == items@[i as int]);
                    assert(mid =~= before + (if i > 0 { seq![','] } else { seq![] }));
                    assert(out@ =~= mid + json_text(items@[i as int]));
                    assert(items_text(t) == items_text(t.drop_last()) + (if t.len() > 1 { seq![','] } else { seq![] }) + json_text(t.last()));
                    assert(out@ =~= start + items_text(t));
                }
                i = i + 1;
            }
            assert(items@.take(i as int) =~= items@);
            out.append("]");
            assert(final(out)@ =~= old(out)@ + json_text(*v));
        },
        JsonValue::Object(members) => {
            out.append("{");
            let ghost start = out@;
            let mut i: usize = 0;
            while i < members.len()
                invariant
                    i <= members@.len(),
                    *v is Object && v->Object_0 == *members,
                    out@ == start + members_text(members@.take(i as int)),
                decreases members@.len() - i,
            {
                proof {
                    reveal_strlit(",");
                    reveal_strlit(":");
                }
                if i > 0 {
                    out.append(",");
                }
                let ghost mid = out@;
                let q = quote_json(members[i].0.as_str());
                out.append(q.as_str());
                out.append(":");
                proof {
                    assert(decreases_to!(*v => v->Object_0));
                    assert(decreases_to!(*members => members[i as int]));
                    assert(decreases_to!(members[i as int] => members[i as int].1));
                }
                write_json(&members[i].1, out);
                proof {
                    let t = members@.take(i as int + 1);
                    assert(t.drop_last() =~= members@.take(i as int));
                    assert(t.last() == members@[i as int]);
                    assert(out@ =~= mid + member_text(members@[i as int]));
                    assert(members_text(t) == members_text(t.drop_last()) + (if t.len() > 1 { seq![','] } else { seq![] }) + member_text(t.last()));
                    assert(out@ =~= start + members_text(t));
                }
                i = i + 1;
            }
            assert(members@.take(i as int) =~= members@);
            out.append("}");
            assert(final(out)@ =~= old(out)@ + json_text(*v));
        },
    }
}

/// The compact JSON text of `v`.
pub fn to_json_text(v: &JsonValue) -> (r: String)
    ensures
        r@ == json_text(*v),
{
    let mut s = String::new();
    write_json(v, &mut s);
    assert(s@ =~= json_text(*v));
    s
}

/// The value of the first member named `key`, if any.
pub open spec fn lookup(ms: Seq<(String, JsonValue)>, key: Seq<char>) -> Option<JsonValue>
    decreases ms.len(),
{
    if ms.len() == 0 {
        None
    } else if ms[0].0@ == key {
        Some(ms[0].1)
    } else {
        lookup(ms.drop_first(), key)
    }
}

/// The member `key` of `v` when `v` is an object.
pub open spec fn member(v: JsonValue, key: Seq<char>) -> Option<JsonValue> {
    match v {
        JsonValue::Object(ms) => lookup(ms@, key),
        _ => None,
    }
}

/// Looks up the member named `key` of an object; `None` on other values.
pub fn get<'a>(v: &'a JsonValue, key: &str) -> (r: Option<&'a JsonValue>)
    ensures
        match r {
            Some(x) => member(*v, key@) == Some(*x),
            None => member(*v, key@) is None,
        },
{
    match v {
        JsonValue::Object(ms) => {
            let k = String::from_str(key);
            let mut i: usize = 0;
            assert(ms@.skip(0) =~= ms@);
            while i < ms.len()
                invariant
                    i <= ms@.len(),
                    k@ == key@,
                    *v is Object && v->Object_0 == *ms,
                    lookup(ms@, key@) == lookup(ms@.skip(i as int), key@),
                decreases ms@.len() - i,
            {
                proof {
                    assert(ms@.skip(i as int).drop_first() =~= ms@.skip(i as int + 1));
                    assert(ms@.skip(i as int)[0] == ms@[i as int]);
                }
                if ms[i].0 == k {
                    return Some(&ms[i].1);
                }
                i = i + 1;
            }
            None
        },
        _ => None,
    }
}

/// The integer at `key`, when present and an integer.
pub open spec fn int_member(v: JsonValue, key: Seq<char>) -> Option<i64> {
    match member(v, key) {
        Some(JsonValue::Int(i)) => Some(i),
        _ => None,
    }
}

/// The string at `key`, when present and a string.
pub open spec fn str_member(v: JsonValue, key: Seq<char>) -> Option<String> {
    match member(v, key) {
        Some(JsonValue::Str(s)) => Some(s),
        _ => None,
    }
}

/// The optional string at `key`: `Some(None)` when absent or null,
/// `None` when present with another kind of value.
pub open spec fn opt_str_member(v: JsonValue, key: Seq<char>) -> Option<Option<String>> {
    match member(v, key) {
        None => Some(None),
        Some(JsonValue::Null) => Some(None),
        Some(JsonValue::Str(s)) => Some(Some(s)),
        _ => None,
    }
}

pub fn get_int(v: &JsonValue, key: &str) -> (r: Option<i64>)
    ensures
        r == int_member(*v, key@),
{
    match get(v, key) {
        Some(JsonValue::Int(i)) => Some(*i),
        _ => None,
    }
}

pub fn get_str(v: &JsonValue, key: &str) -> (r: Option<String>)
    ensures
        r == str_member(*v, key@),
{
    match get(v, key) {
        Some(JsonValue::Str(s)) => Some(s.clone()),
        _ => None,
    }
}

pub fn get_opt_str(v: &JsonValue, key: &str) -> (r: Option<Option<String>>)
    ensures
        r == opt_str_member(*v, key@),
{
    match get(v, key) {
        None => Some(None),
        Some(JsonValue::Null) => Some(None),
        Some(JsonValue::Str(s)) => Some(Some(s.clone())),
        _ => None,
    }
}

/// The optional integer at `key`: `Some(None)` when absent or null,
/// `None` when present with another kind of value.
pub open spec fn opt_int_member(v: JsonValue, key: Seq<char>) -> Option<Option<i64>> {
    match member(v, key) {
        None => Some(None),
        Some(JsonValue::Null) => Some(None),
        Some(JsonValue::Int(i)) => Some(Some(i)),
        _ => None,
    }
}

pub fn get_opt_int(v: &JsonValue, key: &str) -> (r: Option<Option<i64>>)
    ensures
        r == opt_int_member(*v, key@),
{
    match get(v, key) {
        None => Some(None),
        Some(JsonValue::Null) => Some(None),
        Some(JsonValue::Int(i)) => Some(Some(*i)),
        _ => None,
    }
}

/// `v` is an object whose members are, in order, the given keys with
/// string values.
pub open spec fn is_str_object(v: JsonValue, kv: Seq<(Seq<char>, Seq<char>)>) -> bool {
    &&& v is Object
    &&& v->Object_0@.len() == kv.len()
    &&& forall|i: int|
        0 <= i < kv.len() ==> {
            &&& (#[trigger] v->Object_0@[i]).0@ == kv[i].0
            &&& v->Object_0@[i].1 is Str
            &&& v->Object_0@[i].1->Str_0@ == kv[i].1
        }
}

/// A member `key` with a string value.
pub fn str_pair(key: &str, val: &str) -> (r: (String, JsonValue))
    ensures
        r.0@ == key@,
        r.1 is Str,
        r.1->Str_0@ == val@,
{
    (String::from_str(key), JsonValue::Str(String::from_str(val)))
}

} // verus!
