//! The library's model of a JSON document.
//!
//! Admission requests, policy settings, guest verdicts and the policy
//! metadata document are all JSON-shaped. This module holds the tree
//! type the rest of the library computes on, structural equality over
//! it, and first-match member lookup.
//!
//! Numbers are restricted to signed 64-bit integers: admission
//! documents carry uids, status codes and object fields, none of which
//! need fractions. A document with a fractional number does not decode.

use vstd::prelude::*;

verus! {

broadcast use vstd::std_specs::vec::group_vec_axioms;

/// A JSON document. Object members keep their textual order; lookup
/// returns the first binding of a key.
#[derive(Debug)]
pub enum JsonValue {
    Null,
    Bool(bool),
    Int(i64),
    Str(String),
    Arr(Vec<JsonValue>),
    Obj(Vec<(String, JsonValue)>),
}

/// Structural equality of two JSON documents: same shape, same
/// scalars, object members equal pairwise and in order.
pub open spec fn jeq(a: JsonValue, b: JsonValue) -> bool
    decreases a,
{
    match (a, b) {
        (JsonValue::Null, JsonValue::Null) => true,
        (JsonValue::Bool(x), JsonValue::Bool(y)) => x == y,
        (JsonValue::Int(x), JsonValue::Int(y)) => x == y,
        (JsonValue::Str(x), JsonValue::Str(y)) => x@ == y@,
        (JsonValue::Arr(x), JsonValue::Arr(y)) => {
            &&& x.len() == y.len()
            &&& forall|i: int| 0 <= i < x.len() ==> jeq(#[trigger] x[i], y[i])
        },
        (JsonValue::Obj(x), JsonValue::Obj(y)) => {
            &&& x.len() == y.len()
            &&& forall|i: int|
                0 <= i < x.len() ==> (#[trigger] x[i]).0@ == y[i].0@ && jeq(x[i].1, y[i].1)
        },
        _ => false,
    }
}

/// The first binding of `key` among `members`, if any.
pub open spec fn member_of(members: Seq<(String, JsonValue)>, key: Seq<char>) -> Option<JsonValue>
    decreases members.len(),
{
    if members.len() == 0 {
        None
    } else if members[0].0@ == key {
        Some(members[0].1)
    } else {
        member_of(members.skip(1), key)
    }
}

/// The member named `key` of an object document; `None` on any other
/// shape of document.
pub open spec fn json_member(v: JsonValue, key: Seq<char>) -> Option<JsonValue> {
    match v {
        JsonValue::Obj(members) => member_of(members@, key),
        _ => None,
    }
}

/// Whether two string slices hold the same characters.
pub fn str_eq(a: &str, b: &str) -> (r: bool)
    ensures
        r == (a@ == b@),
{
    let sa = String::from_str(a);
    let sb = String::from_str(b);
    sa == sb
}

/// Decides structural equality of two JSON documents.
#[verifier::loop_isolation(false)]
pub fn json_eq(a: &JsonValue, b: &JsonValue) -> (r: bool)
    ensures
        r == jeq(*a, *b),
    decreases *a,
{
    match a {
        JsonValue::Null => match b {
            JsonValue::Null => true,
            _ => false,
        },
        JsonValue::Bool(x) => match b {
            JsonValue::Bool(y) => x == y,
            _ => false,
        },
        JsonValue::Int(x) => match b {
            JsonValue::Int(y) => x == y,
            _ => false,
        },
        JsonValue::Str(x) => match b {
            JsonValue::Str(y) => str_eq(x.as_str(), y.as_str()),
            _ => false,
        },
        JsonValue::Arr(x) => match b {
            JsonValue::Arr(y) => {
                if x.len() != y.len() {
                    return false;
                }
                let mut i: usize = 0;
                while i < x.len()
                    invariant
                        i <= x.len(),
                        forall|j: int| 0 <= j < i ==> jeq(#[trigger] x[j], y[j]),
                    decreases x.len() - i,
                {
                    proof {
                        assert(decreases_to!(*a => a->Arr_0));
                        assert(decreases_to!(a->Arr_0 => a->Arr_0@));
                        assert(decreases_to!(a->Arr_0@ => a->Arr_0@[i as int]));
                    }
                    if !json_eq(&x[i], &y[i]) {
                        return false;
                    }
                    i += 1;
                }
                true
            },
            _ => false,
        },
        JsonValue::Obj(x) => match b {
            JsonValue::Obj(y) => {
                if x.len() != y.len() {
                    return false;
                }
                let mut i: usize = 0;
                while i < x.len()
                    invariant
                        i <= x.len(),
                        forall|j: int|
                            0 <= j < i ==> (#[trigger] x[j]).0@ == y[j].0@ && jeq(x[j].1, y[j].1),
                    decreases x.len() - i,
                {
                    if !str_eq(x[i].0.as_str(), y[i].0.as_str()) {
                        return false;
                    }
                    proof {
                        assert(decreases_to!(*a => a->Obj_0));
                        assert(decreases_to!(a->Obj_0 => a->Obj_0@));
                        assert(decreases_to!(a->Obj_0@ => a->Obj_0@[i as int]));
                        assert(decreases_to!(a->Obj_0@[i as int] => a->Obj_0@[i as int].1));
                    }
                    if !json_eq(&x[i].1, &y[i].1) {
                        return false;
                    }
                    i += 1;
                }
                true
            },
            _ => false,
        },
    }
}

/// The character for a hexadecimal digit, lower case.
pub open spec fn hex_char(d: nat) -> char {
    if d == 0 {
        '0'
    } else if d == 1 {
        '1'
    } else if d == 2 {
        '2'
    } else if d == 3 {
        '3'
    } else if d == 4 {
        '4'
    } else if d == 5 {
        '5'
    } else if d == 6 {
        '6'
    } else if d == 7 {
        '7'
    } else if d == 8 {
        '8'
    } else if d == 9 {
        '9'
    } else if d == 10 {
        'a'
    } else if d == 11 {
        'b'
    } else if d == 12 {
        'c'
    } else if d == 13 {
        'd'
    } else if d == 14 {
        'e'
    } else {
        'f'
    }
}

/// The decimal rendering of a natural number, most significant digit
/// first, without leading zeroes.
pub open spec fn dec_digits(n: nat) -> Seq<char>
    decreases n,
{
    if n < 10 {
        seq![hex_char(n)]
    } else {
        dec_digits(n / 10).push(hex_char(n % 10))
    }
}

/// The decimal rendering of an integer, with a leading minus sign when
/// negative.
pub open spec fn int_chars(n: int) -> Seq<char> {
    if n < 0 {
        seq!['-'] + dec_digits((-n) as nat)
    } else {
        dec_digits(n as nat)
    }
}

/// How one character of a JSON string is written: quotes, backslashes
/// and control characters are escaped, everything else stands as it is.
pub open spec fn esc_chars(c: char) -> Seq<char> {
    if c == '"' {
        seq!['\\', '"']
    } else if c == '\\' {
        seq!['\\', '\\']
    } else if c == '\n' {
        seq!['\\', 'n']
    } else if c == '\r' {
        seq!['\\', 'r']
    } else if c == '\t' {
        seq!['\\', 't']
    } else if (c as nat) < 32 {
        seq!['\\', 'u', '0', '0', hex_char((c as nat) / 16), hex_char((c as nat) % 16)]
    } else {
        seq![c]
    }
}

/// The body of a JSON string from character `i` on, escaped.
pub open spec fn str_chars(s: Seq<char>, i: int) -> Seq<char>
    decreases s.len() - i,
{
    if i < 0 || i >= s.len() {
        Seq::empty()
    } else {
        esc_chars(s[i]) + str_chars(s, i + 1)
    }
}

/// A JSON string literal: the escaped body between double quotes.
pub open spec fn quoted_chars(s: Seq<char>) -> Seq<char> {
    seq!['"'] + str_chars(s, 0) + seq!['"']
}

/// The text of a JSON document, without any inter-token whitespace.
pub open spec fn json_chars(v: JsonValue) -> Seq<char>
    decreases v, 0nat,
{
    match v {
        JsonValue::Null => seq!['n', 'u', 'l', 'l'],
        JsonValue::Bool(b) => if b {
            seq!['t', 'r', 'u', 'e']
        } else {
            seq!['f', 'a', 'l', 's', 'e']
        },
        JsonValue::Int(n) => int_chars(n as int),
        JsonValue::Str(s) => quoted_chars(s@),
        JsonValue::Arr(xs) => seq!['['] + arr_chars(xs@, 0) + seq![']'],
        JsonValue::Obj(ms) => seq!['{'] + obj_chars(ms@, 0) + seq!['}'],
    }
}

/// The comma-separated items of a JSON array from index `i` on.
pub open spec fn arr_chars(elems: Seq<JsonValue>, i: int) -> Seq<char>
    decreases elems, elems.len() - i,
{
    if i < 0 || i >= elems.len() {
        Seq::empty()
    } else if i == elems.len() - 1 {
        json_chars(elems[i])
    } else {
        json_chars(elems[i]) + seq![','] + arr_chars(elems, i + 1)
    }
}

/// The comma-separated members of a JSON object from index `i` on.
pub open spec fn obj_chars(members: Seq<(String, JsonValue)>, i: int) -> Seq<char>
    decreases members, members.len() - i,
{
    if i < 0 || i >= members.len() {
        Seq::empty()
    } else if i == members.len() - 1 {
        quoted_chars(members[i].0@) + seq![':'] + json_chars(members[i].1)
    } else {
        quoted_chars(members[i].0@) + seq![':'] + json_chars(members[i].1) + seq![',']
            + obj_chars(members, i + 1)
    }
}

/// Writes the character for a hexadecimal digit.
fn push_hex_char(out: &mut Vec<char>, d: u8)
    requires
        d < 16,
    ensures
        final(out)@ == old(out)@.push(hex_char(d as nat)),
{
    let c: char = match d {
        0 => '0',
        1 => '1',
        2 => '2',
        3 => '3',
        4 => '4',
        5 => '5',
        6 => '6',
        7 => '7',
        8 => '8',
        9 => '9',
        10 => 'a',
        11 => 'b',
        12 => 'c',
        13 => 'd',
        14 => 'e',
        _ => 'f',
    };
    out.push(c);
}

/// Writes the decimal rendering of an unsigned number.
pub(crate) fn push_dec(out: &mut Vec<char>, n: u64)
    ensures
        final(out)@ == old(out)@ + dec_digits(n as nat),
    decreases n,
{
    if n < 10 {
        push_hex_char(out, n as u8);
        proof {
            assert(out@ =~= old(out)@ + dec_digits(n as nat));
        }
    } else {
        push_dec(out, n / 10);
        push_hex_char(out, (n % 10) as u8);
        proof {
            assert(out@ =~= old(out)@ + dec_digits(n as nat));
        }
    }
}

/// Writes the decimal rendering of a signed number.
fn push_int(out: &mut Vec<char>, n: i64)
    ensures
        final(out)@ == old(out)@ + int_chars(n as int),
{
    if n >= 0 {
        push_dec(out, n as u64);
    } else {
        out.push('-');
        let magnitude: u64 = if n == i64::MIN {
            9223372036854775808u64
        } else {
            (-n) as u64
        };
        push_dec(out, magnitude);
        proof {
            assert(out@ =~= old(out)@ + int_chars(n as int));
        }
    }
}

/// Writes the escaped body of a JSON string.
#[verifier::loop_isolation(false)]
fn push_str_body(out: &mut Vec<char>, s: &str)
    ensures
        final(out)@ == old(out)@ + str_chars(s@, 0),
{
    let len = s.unicode_len();
    let mut i: usize = 0;
    while i < len
        invariant
            i <= len,
            out@ + str_chars(s@, i as int) == old(out)@ + str_chars(s@, 0),
        decreases len - i,
    {
        let c = s.get_char(i);
        let ghost prev = out@;
        if c == '"' {
            out.push('\\');
            out.push('"');
        } else if c == '\\' {
            out.push('\\');
            out.push('\\');
        } else if c == '\n' {
            out.push('\\');
            out.push('n');
        } else if c == '\r' {
            out.push('\\');
            out.push('r');
        } else if c == '\t' {
            out.push('\\');
            out.push('t');
        } else if (c as u32) < 32 {
            out.push('\\');
            out.push('u');
            out.push('0');
            out.push('0');
            push_hex_char(out, ((c as u32) / 16) as u8);
            push_hex_char(out, ((c as u32) % 16) as u8);
        } else {
            out.push(c);
        }
        proof {
            assert(out@ =~= prev + esc_chars(s@[i as int]));
            assert(out@ + str_chars(s@, i + 1) =~= prev + str_chars(s@, i as int));
        }
        i += 1;
    }
}

/// Writes a JSON string literal.
fn push_quoted(out: &mut Vec<char>, s: &str)
    ensures
        final(out)@ == old(out)@ + quoted_chars(s@),
{
    out.push('"');
    push_str_body(out, s);
    out.push('"');
    proof {
        assert(out@ =~= old(out)@ + quoted_chars(s@));
    }
}

/// Writes the text of a JSON document after what `out` already holds.
#[verifier::loop_isolation(false)]
pub fn write_json(v: &JsonValue, out: &mut Vec<char>)
    ensures
        final(out)@ == old(out)@ + json_chars(*v),
    decreases *v,
{
    match v {
        JsonValue::Null => {
            out.push('n');
            out.push('u');
            out.push('l');
            out.push('l');
            proof {
                assert(out@ =~= old(out)@ + json_chars(*v));
            }
        },
        JsonValue::Bool(b) => {
            if *b {
                out.push('t');
                out.push('r');
                out.push('u');
                out.push('e');
            } else {
                out.push('f');
                out.push('a');
                out.push('l');
                out.push('s');
                out.push('e');
            }
            proof {
                assert(out@ =~= old(out)@ + json_chars(*v));
            }
        },
        JsonValue::Int(n) => {
            push_int(out, *n);
        },
        JsonValue::Str(s) => {
            push_quoted(out, s.as_str());
        },
        JsonValue::Arr(xs) => {
            out.push('[');
            let ghost base = out@;
            let mut i: usize = 0;
            while i < xs.len()
                invariant
                    i <= xs.len(),
                    out@ + arr_chars(xs@, i as int) == base + arr_chars(xs@, 0),
                decreases xs.len() - i,
            {
                let ghost prev = out@;
                proof {
                    assert(decreases_to!(*v => v->Arr_0));
                    assert(decreases_to!(v->Arr_0 => v->Arr_0@));
                    assert(decreases_to!(v->Arr_0@ => v->Arr_0@[i as int]));
                }
                write_json(&xs[i], out);
                if i + 1 < xs.len() {
                    out.push(',');
                    proof {
                        assert(out@ + arr_chars(xs@, i + 1) =~= prev + arr_chars(xs@, i as int));
                    }
                } else {
                    proof {
                        assert(out@ + arr_chars(xs@, i + 1) =~= prev + arr_chars(xs@, i as int));
                    }
                }
                i += 1;
            }
            out.push(']');
            proof {
                assert(out@ =~= old(out)@ + json_chars(*v));
            }
        },
        JsonValue::Obj(ms) => {
            out.push('{');
            let ghost base = out@;
            let mut i: usize = 0;
            while i < ms.len()
                invariant
                    i <= ms.len(),
                    out@ + obj_chars(ms@, i as int) == base + obj_chars(ms@, 0),
                decreases ms.len() - i,
            {
                let ghost prev = out@;
                push_quoted(out, ms[i].0.as_str());
                out.push(':');
                proof {
                    assert(decreases_to!(*v => v->Obj_0));
                    assert(decreases_to!(v->Obj_0 => v->Obj_0@));
                    assert(decreases_to!(v->Obj_0@ => v->Obj_0@[i as int]));
                    assert(decreases_to!(v->Obj_0@[i as int] => v->Obj_0@[i as int].1));
                }
                write_json(&ms[i].1, out);
                if i + 1 < ms.len() {
                    out.push(',');
                    proof {
                        assert(out@ + obj_chars(ms@, i + 1) =~= prev + obj_chars(ms@, i as int));
                    }
                } else {
                    proof {
                        assert(out@ + obj_chars(ms@, i + 1) =~= prev + obj_chars(ms@, i as int));
                    }
                }
                i += 1;
            }
            out.push('}');
            proof {
                assert(out@ =~= old(out)@ + json_chars(*v));
            }
        },
    }
}

/// Relies on `String::from_iter` over `char`: the returned string
/// holds exactly the characters of the vector, in order.
#[verifier::external_body]
pub(crate) fn chars_to_string(chars: &Vec<char>) -> (r: String)
    ensures
        r@ == chars@,
{
    chars.iter().collect()
}

/// The text of a JSON document as a string.
pub fn to_json_string(v: &JsonValue) -> (r: String)
    ensures
        r@ == json_chars(*v),
{
    let mut out: Vec<char> = Vec::new();
    write_json(v, &mut out);
    chars_to_string(&out)
}

/// What the JSON decoder returns on a given byte sequence: the decoded
/// document, or `None` where the bytes are not a JSON document whose
/// numbers all fit a signed 64-bit integer.
pub uninterp spec fn json_of(bytes: Seq<u8>) -> Option<JsonValue>;

/// Relies on `serde_json::from_slice::<serde_json::Value>`: parses a
/// JSON document, deterministically in the bytes (object members come
/// back sorted by key). The parsed tree is carried over variant by
/// variant; a number that does not fit a signed 64-bit integer makes
/// the whole decode return `None`.
#[verifier::external_body]
pub(crate) fn decode_json(bytes: &[u8]) -> (r: Option<JsonValue>)
    ensures
        r == json_of(bytes@),
{
    match serde_json::from_slice::<serde_json::Value>(bytes) {
        Ok(v) => from_serde(v),
        Err(_) => None,
    }
}

/// Declares serde_json's document type so that the converter below can
/// take it; the library never looks inside such a value.
#[verifier::external_type_specification]
#[verifier::external_body]
pub struct ExSerdeValue(serde_json::Value);

/// Relies on the variant structure of `serde_json::Value`: each variant
/// is carried to the library's corresponding one, fields moved as they
/// are; integral numbers are read with `as_i64`.
#[verifier::external_body]
fn from_serde(v: serde_json::Value) -> (r: Option<JsonValue>)
{
    match v {
        serde_json::Value::Null => Some(JsonValue::Null),
        serde_json::Value::Bool(b) => Some(JsonValue::Bool(b)),
        serde_json::Value::Number(n) => n.as_i64().map(JsonValue::Int),
        serde_json::Value::String(s) => Some(JsonValue::Str(s)),
        serde_json::Value::Array(xs) => {
            let conv: Option<Vec<JsonValue>> = xs.into_iter().map(from_serde).collect();
            conv.map(JsonValue::Arr)
        },
        serde_json::Value::Object(ms) => {
            let conv: Option<Vec<(String, JsonValue)>> =
                ms.into_iter().map(|(k, x)| Some((k, from_serde(x)?))).collect();
            conv.map(JsonValue::Obj)
        },
    }
}


/// The text of a JSON object with the given members.
pub open spec fn obj_text(members: Seq<(String, JsonValue)>) -> Seq<char> {
    seq!['{'] + obj_chars(members, 0) + seq!['}']
}

/// Writes the characters of a string slice, unescaped.
#[verifier::loop_isolation(false)]
pub(crate) fn push_chars(out: &mut Vec<char>, s: &str)
    ensures
        final(out)@ == old(out)@ + s@,
{
    let len = s.unicode_len();
    let mut i: usize = 0;
    while i < len
        invariant
            i <= len,
            out@ == old(out)@ + s@.subrange(0, i as int),
        decreases len - i,
    {
        out.push(s.get_char(i));
        proof {
            assert(out@ =~= old(out)@ + s@.subrange(0, i + 1));
        }
        i += 1;
    }
    proof {
        assert(s@.subrange(0, s@.len() as int) =~= s@);
    }
}

/// Writes a JSON object with the given members after what `out`
/// already holds.
#[verifier::loop_isolation(false)]
pub fn write_obj(members: &Vec<(String, JsonValue)>, out: &mut Vec<char>)
    ensures
        final(out)@ == old(out)@ + obj_text(members@),
{
    out.push('{');
    let ghost base = out@;
    let mut i: usize = 0;
    while i < members.len()
        invariant
            i <= members.len(),
            out@ + obj_chars(members@, i as int) == base + obj_chars(members@, 0),
        decreases members.len() - i,
    {
        let ghost prev = out@;
        push_quoted(out, members[i].0.as_str());
        out.push(':');
        write_json(&members[i].1, out);
        if i + 1 < members.len() {
            out.push(',');
            proof {
                assert(out@ + obj_chars(members@, i + 1) =~= prev + obj_chars(members@, i as int));
            }
        } else {
            proof {
                assert(out@ + obj_chars(members@, i + 1) =~= prev + obj_chars(members@, i as int));
            }
        }
        i += 1;
    }
    out.push('}');
    proof {
        assert(out@ =~= old(out)@ + obj_text(members@));
    }
}

/// Looks up the first binding of `key` in an object document.
#[verifier::loop_isolation(false)]
pub fn member<'a>(v: &'a JsonValue, key: &str) -> (r: Option<&'a JsonValue>)
    ensures
        match r {
            Some(m) => json_member(*v, key@) == Some(*m),
            None => json_member(*v, key@) is None,
        },
{
    match v {
        JsonValue::Obj(members) => {
            proof {
                assert(members@.skip(0) =~= members@);
            }
            let mut i: usize = 0;
            while i < members.len()
                invariant
                    i <= members.len(),
                    member_of(members@, key@) == member_of(members@.skip(i as int), key@),
                decreases members.len() - i,
            {
                if str_eq(members[i].0.as_str(), key) {
                    proof {
                        assert(members@.skip(i as int)[0] == members@[i as int]);
                    }
                    return Some(&members[i].1);
                }
                proof {
                    assert(members@.skip(i as int)[0] == members@[i as int]);
                    assert(members@.skip(i as int).skip(1) =~= members@.skip(i as int + 1));
                }
                i += 1;
            }
            None
        },
        _ => None,
    }
}

} // verus!
