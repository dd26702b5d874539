//! Canonical JSON documents.
//!
//! A [`Json`] value is the store's own representation of a JSON
//! document. Numbers carry their literal text, so no value of this
//! type holds a float; object members are kept in sorted,
//! duplicate-free order. [`canonical`] states that form exactly: on
//! canonical values, plain equality is deep structural JSON equality
//! (object member order irrelevant, array order relevant), and
//! equality of serializations coincides with it.
//!
//! [`to_text`] renders a value as its canonical serialization, the
//! exact text that the store persists; [`ser`] is its specification.

use vstd::prelude::*;

verus! {

/// A JSON document in canonical form.
#[derive(Debug, PartialEq, Eq)]
pub enum Json {
    Null,
    Bool(bool),
    /// A number, as its literal decimal text (for example `-12`, `3.5`, `1e9`).
    Num(String),
    Str(String),
    Arr(Vec<Json>),
    Obj(Vec<(String, Json)>),
}

/// The hexadecimal digit for `d`.
pub open spec fn hex_digit(d: int) -> char {
    if d == 0 { '0' } else if d == 1 { '1' } else if d == 2 { '2' } else if d == 3 { '3' }
    else if d == 4 { '4' } else if d == 5 { '5' } else if d == 6 { '6' } else if d == 7 { '7' }
    else if d == 8 { '8' } else if d == 9 { '9' } else if d == 10 { 'a' } else if d == 11 { 'b' }
    else if d == 12 { 'c' } else if d == 13 { 'd' } else if d == 14 { 'e' } else { 'f' }
}

/// How one character of a JSON string is written inside double quotes.
pub open spec fn esc_char(c: char) -> Seq<char> {
    if c == '"' { seq!['\\', '"'] }
    else if c == '\\' { seq!['\\', '\\'] }
    else if c == '\n' { seq!['\\', 'n'] }
    else if c == '\r' { seq!['\\', 'r'] }
    else if c == '\t' { seq!['\\', 't'] }
    else if c == '\u{8}' { seq!['\\', 'b'] }
    else if c == '\u{c}' { seq!['\\', 'f'] }
    else if (c as u32) < 0x20 {
        seq!['\\', 'u', '0', '0', hex_digit(c as u32 as int / 16), hex_digit(c as u32 as int % 16)]
    } else {
        seq![c]
    }
}

/// The body of a serialized JSON string, from position `i` on.
pub open spec fn esc_from(s: Seq<char>, i: int) -> Seq<char>
    decreases s.len() - i,
{
    if i < 0 || i >= s.len() {
        Seq::empty()
    } else {
        esc_char(s[i]) + esc_from(s, i + 1)
    }
}

/// The body of a serialized JSON string.
pub open spec fn esc(s: Seq<char>) -> Seq<char> {
    esc_from(s, 0)
}

/// The canonical serialization of a JSON value.
pub open spec fn ser(v: Json) -> Seq<char>
    decreases v, 0int,
{
    match v {
        Json::Null => seq!['n', 'u', 'l', 'l'],
        Json::Bool(b) => if b {
            seq!['t', 'r', 'u', 'e']
        } else {
            seq!['f', 'a', 'l', 's', 'e']
        },
        Json::Num(t) => t@,
        Json::Str(s) => seq!['"'] + esc(s@) + seq!['"'],
        Json::Arr(elems) => seq!['['] + ser_items(elems@, 0) + seq![']'],
        Json::Obj(fields) => seq!['{'] + ser_fields(fields@, 0) + seq!['}'],
    }
}

/// The comma-separated serialization of array elements from `i` on.
pub open spec fn ser_items(elems: Seq<Json>, i: int) -> Seq<char>
    decreases elems, elems.len() - i,
{
    if i < 0 || i >= elems.len() {
        Seq::empty()
    } else {
        let sep: Seq<char> = if i == 0 { Seq::empty() } else { seq![','] };
        sep + ser(elems[i]) + ser_items(elems, i + 1)
    }
}

/// The comma-separated serialization of object members from `i` on.
pub open spec fn ser_fields(fields: Seq<(String, Json)>, i: int) -> Seq<char>
    decreases fields, fields.len() - i,
{
    if i < 0 || i >= fields.len() {
        Seq::empty()
    } else {
        let sep: Seq<char> = if i == 0 { Seq::empty() } else { seq![','] };
        sep + seq!['"'] + esc(fields[i].0@) + seq!['"', ':'] + ser(fields[i].1)
            + ser_fields(fields, i + 1)
    }
}

/// Strict lexicographic order on character sequences, by code point.
pub open spec fn lex_lt(a: Seq<char>, b: Seq<char>) -> bool
    decreases a.len(),
{
    if b.len() == 0 {
        false
    } else if a.len() == 0 {
        true
    } else if a[0] != b[0] {
        (a[0] as u32) < (b[0] as u32)
    } else {
        lex_lt(a.drop_first(), b.drop_first())
    }
}

/// No sequence precedes itself in the lexicographic order.
pub proof fn lemma_lex_lt_irreflexive(a: Seq<char>)
    ensures
        !lex_lt(a, a),
    decreases a.len(),
{
    if a.len() > 0 {
        lemma_lex_lt_irreflexive(a.drop_first());
    }
}

/// A decimal digit.
pub open spec fn is_digit(c: char) -> bool {
    '0' as u32 <= c as u32 <= '9' as u32
}

/// One or more decimal digits.
pub open spec fn all_digits(t: Seq<char>) -> bool {
    t.len() > 0 && forall|i: int| 0 <= i < t.len() ==> is_digit(#[trigger] t[i])
}

/// The integer part of a JSON number: `0`, or digits without a
/// leading zero.
pub open spec fn is_int_part(t: Seq<char>) -> bool {
    t == seq!['0'] || (all_digits(t) && t[0] != '0')
}

/// The integer part with its optional leading minus.
pub open spec fn is_signed_int_part(t: Seq<char>) -> bool {
    if t.len() > 0 && t[0] == '-' {
        is_int_part(t.drop_first())
    } else {
        is_int_part(t)
    }
}

/// An optional fraction part: empty, or a dot followed by digits.
pub open spec fn is_frac_part(t: Seq<char>) -> bool {
    t.len() == 0 || (t[0] == '.' && all_digits(t.drop_first()))
}

/// Digits with an optional leading sign.
pub open spec fn is_signed_digits(t: Seq<char>) -> bool {
    if t.len() > 0 && (t[0] == '+' || t[0] == '-') {
        all_digits(t.drop_first())
    } else {
        all_digits(t)
    }
}

/// An optional exponent part: empty, or `e`/`E` with signed digits.
pub open spec fn is_exp_part(t: Seq<char>) -> bool {
    t.len() == 0 || ((t[0] == 'e' || t[0] == 'E') && is_signed_digits(t.drop_first()))
}

/// The shape of a JSON number literal: an optional minus, an integer
/// part, an optional fraction, an optional exponent.
pub open spec fn is_num_literal(t: Seq<char>) -> bool {
    exists|a: Seq<char>, b: Seq<char>, c: Seq<char>|
        {
            &&& t == a + b + c
            &&& #[trigger] is_signed_int_part(a)
            &&& #[trigger] is_frac_part(b)
            &&& #[trigger] is_exp_part(c)
        }
}

/// A document in canonical form: every number carries a JSON number
/// literal, and every object keeps its members in strictly ascending
/// key order — so it holds no duplicate key, and two canonical
/// documents that are structurally equal (deep equality, object
/// member order irrelevant) are one and the same value, with one and
/// the same serialization. The boundary produces this form.
pub open spec fn canonical(v: Json) -> bool
    decreases v, 0int,
{
    match v {
        Json::Null => true,
        Json::Bool(_) => true,
        Json::Num(t) => is_num_literal(t@),
        Json::Str(_) => true,
        Json::Arr(elems) => canonical_items(elems@, 0),
        Json::Obj(fields) => canonical_fields(fields@, 0),
    }
}

/// The array elements from `i` on are canonical.
pub open spec fn canonical_items(elems: Seq<Json>, i: int) -> bool
    decreases elems, elems.len() - i,
{
    i < 0 || i >= elems.len() || (canonical(elems[i]) && canonical_items(elems, i + 1))
}

/// The object members from `i` on are canonical, their keys strictly
/// ascending.
pub open spec fn canonical_fields(fields: Seq<(String, Json)>, i: int) -> bool
    decreases fields, fields.len() - i,
{
    if i < 0 || i >= fields.len() {
        true
    } else {
        &&& canonical(fields[i].1)
        &&& forall|j: int| i < j < fields.len() ==> lex_lt(fields[i].0@, #[trigger] fields[j].0@)
        &&& canonical_fields(fields, i + 1)
    }
}

/// Every suffix of a canonical member list orders its keys pairwise.
proof fn lemma_canonical_fields_pairwise(fields: Seq<(String, Json)>, i: int)
    requires
        0 <= i,
        canonical_fields(fields, i),
    ensures
        forall|p: int, q: int|
            i <= p < q < fields.len() ==> lex_lt(#[trigger] fields[p].0@, #[trigger] fields[q].0@),
    decreases fields.len() - i,
{
    if i < fields.len() {
        lemma_canonical_fields_pairwise(fields, i + 1);
    }
}

/// Law: a canonical object carries pairwise distinct keys — its
/// strictly ascending member order leaves no room for a duplicate, so
/// object member order cannot distinguish two canonical documents.
pub proof fn lemma_canonical_keys_distinct(fields: Seq<(String, Json)>)
    requires
        canonical_fields(fields, 0),
    ensures
        forall|p: int, q: int|
            0 <= p < q < fields.len() ==> #[trigger] fields[p].0@ != #[trigger] fields[q].0@,
{
    lemma_canonical_fields_pairwise(fields, 0);
    assert forall|p: int, q: int|
        0 <= p < q < fields.len() implies #[trigger] fields[p].0@ != #[trigger] fields[q].0@ by {
        lemma_lex_lt_irreflexive(fields[p].0@);
    }
}

/// Relies on `String::push`: appends exactly the one character.
#[verifier::external_body]
pub(crate) fn push_char(out: &mut String, c: char)
    ensures
        final(out)@ == old(out)@.push(c),
{
    out.push(c);
}

/// The character for the hexadecimal digit `d`.
fn hex_digit_char(d: u32) -> (r: char)
    requires
        d < 16,
    ensures
        r == hex_digit(d as int),
{
    if d == 0 { '0' } else if d == 1 { '1' } else if d == 2 { '2' } else if d == 3 { '3' }
    else if d == 4 { '4' } else if d == 5 { '5' } else if d == 6 { '6' } else if d == 7 { '7' }
    else if d == 8 { '8' } else if d == 9 { '9' } else if d == 10 { 'a' } else if d == 11 { 'b' }
    else if d == 12 { 'c' } else if d == 13 { 'd' } else if d == 14 { 'e' } else { 'f' }
}

/// Appends the serialized body of a JSON string (escapes applied, no quotes).
fn write_escaped(s: &str, out: &mut String)
    ensures
        final(out)@ == old(out)@ + esc(s@),
{
    let n = s.unicode_len();
    let mut i: usize = 0;
    while i < n
        invariant
            n == s@.len(),
            i <= n,
            out@ + esc_from(s@, i as int) == old(out)@ + esc(s@),
        decreases n - i,
    {
        let ghost prev = out@;
        let c = s.get_char(i);
        if c == '"' {
            push_char(out, '\\');
            push_char(out, '"');
        } else if c == '\\' {
            push_char(out, '\\');
            push_char(out, '\\');
        } else if c == '\n' {
            push_char(out, '\\');
            push_char(out, 'n');
        } else if c == '\r' {
            push_char(out, '\\');
            push_char(out, 'r');
        } else if c == '\t' {
            push_char(out, '\\');
            push_char(out, 't');
        } else if c == '\u{8}' {
            push_char(out, '\\');
            push_char(out, 'b');
        } else if c == '\u{c}' {
            push_char(out, '\\');
            push_char(out, 'f');
        } else if (c as u32) < 0x20 {
            push_char(out, '\\');
            push_char(out, 'u');
            push_char(out, '0');
            push_char(out, '0');
            push_char(out, hex_digit_char((c as u32) / 16));
            push_char(out, hex_digit_char((c as u32) % 16));
        } else {
            push_char(out, c);
        }
        proof {
            assert(out@ =~= prev + esc_char(s@[i as int]));
            assert(out@ + esc_from(s@, i as int + 1) =~= prev + esc_from(s@, i as int));
        }
        i += 1;
    }
}

/// Appends the canonical serialization of `v`.
fn write_value(v: &Json, out: &mut String)
    ensures
        final(out)@ == old(out)@ + ser(*v),
    decreases *v,
{
    match v {
        Json::Null => {
            out.append("null");
            proof {
                reveal_strlit("null");
                assert("null"@ =~= seq!['n', 'u', 'l', 'l']);
            }
        },
        Json::Bool(b) => {
            if *b {
                out.append("true");
                proof {
                    reveal_strlit("true");
                    assert("true"@ =~= seq!['t', 'r', 'u', 'e']);
                }
            } else {
                out.append("false");
                proof {
                    reveal_strlit("false");
                    assert("false"@ =~= seq!['f', 'a', 'l', 's', 'e']);
                }
            }
        },
        Json::Num(t) => {
            out.append(t.as_str());
        },
        Json::Str(s) => {
            push_char(out, '"');
            write_escaped(s.as_str(), out);
            push_char(out, '"');
            proof {
                assert(out@ =~= old(out)@ + ser(*v));
            }
        },
        Json::Arr(elems) => {
            push_char(out, '[');
            let n = elems.len();
            let mut i: usize = 0;
            while i < n
                invariant
                    *v == Json::Arr(*elems),
                    n == elems@.len(),
                    i <= n,
                    out@ + ser_items(elems@, i as int) == old(out)@.push('[') + ser_items(
                        elems@,
                        0,
                    ),
                decreases n - i,
            {
                let ghost prev = out@;
                if i > 0 {
                    push_char(out, ',');
                }
                proof {
                    assert(decreases_to!(*v => v->Arr_0));
                    assert(v->Arr_0 == *elems);
                    assert(decreases_to!(*elems => elems@));
                    assert(decreases_to!(elems@ => elems@[i as int]));
                }
                write_value(&elems[i], out);
                proof {
                    let sep: Seq<char> = if i == 0 { Seq::empty() } else { seq![','] };
                    assert(out@ =~= prev + sep + ser(elems@[i as int]));
                    assert(out@ + ser_items(elems@, i as int + 1) =~= prev + ser_items(
                        elems@,
                        i as int,
                    ));
                }
                i += 1;
            }
            push_char(out, ']');
            proof {
                assert(out@ =~= old(out)@ + ser(*v));
            }
        },
        Json::Obj(fields) => {
            push_char(out, '{');
            let n = fields.len();
            let mut i: usize = 0;
            while i < n
                invariant
                    *v == Json::Obj(*fields),
                    n == fields@.len(),
                    i <= n,
                    out@ + ser_fields(fields@, i as int) == old(out)@.push('{') + ser_fields(
                        fields@,
                        0,
                    ),
                decreases n - i,
            {
                let ghost prev = out@;
                if i > 0 {
                    push_char(out, ',');
                }
                push_char(out, '"');
                write_escaped(fields[i].0.as_str(), out);
                push_char(out, '"');
                push_char(out, ':');
                proof {
                    assert(decreases_to!(*v => v->Obj_0));
                    assert(v->Obj_0 == *fields);
                    assert(decreases_to!(*fields => fields@));
                    assert(decreases_to!(fields@ => fields@[i as int]));
                    assert(decreases_to!(fields@[i as int] => fields@[i as int].1));
                }
                write_value(&fields[i].1, out);
                proof {
                    let sep: Seq<char> = if i == 0 { Seq::empty() } else { seq![','] };
                    assert(out@ =~= prev + sep + seq!['"'] + esc(fields@[i as int].0@)
                        + seq!['"', ':'] + ser(fields@[i as int].1));
                    assert(out@ + ser_fields(fields@, i as int + 1) =~= prev + ser_fields(
                        fields@,
                        i as int,
                    ));
                }
                i += 1;
            }
            push_char(out, '}');
            proof {
                assert(out@ =~= old(out)@ + ser(*v));
            }
        },
    }
}

/// The canonical serialization of `v`, the exact text the store persists.
pub fn to_text(v: &Json) -> (r: String)
    ensures
        r@ == ser(*v),
{
    let mut out = String::new();
    write_value(v, &mut out);
    out
}

} // verus!
