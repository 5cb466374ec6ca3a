//! Classification of typed text into JSON values.
//!
//! A value is kept as a `serde_json::Value`, which the editor carries
//! through without looking inside; the decisions around parsing it are
//! verified here.
use vstd::prelude::*;
use serde_json::{Error, Value};
use crate::text::{trim, trimmed};

verus! {

#[verifier::external_type_specification]
#[verifier::external_body]
pub struct ExValue(serde_json::Value);

#[verifier::external_type_specification]
#[verifier::external_body]
pub struct ExError(serde_json::Error);

/// What a strict JSON parse makes of a text.
pub uninterp spec fn json_parse(s: Seq<char>) -> Result<Value, Error>;

/// The JSON string value that holds the given characters.
pub uninterp spec fn json_string_value(s: Seq<char>) -> Value;

/// The message that an error of the JSON parser displays.
pub uninterp spec fn json_error_text(e: Error) -> Seq<char>;

/// Relies on `serde_json::from_str::<Value>`: a strict parse of the text,
/// whose outcome depends on the text alone.
#[verifier::external_body]
fn parse_json(s: &str) -> (r: Result<Value, Error>)
    ensures
        r == json_parse(s@),
{
    serde_json::from_str::<Value>(s)
}

/// Relies on `serde_json::Value::Null` being what `serde_json::from_str`
/// makes of the text `null`.
#[verifier::external_body]
fn null_value() -> (r: Value)
    ensures
        json_parse(null_text()) == ok_value(r),
{
    Value::Null
}

/// Relies on `serde_json::Value::String`: the string value of `s`.
#[verifier::external_body]
fn string_value(s: String) -> (r: Value)
    ensures
        r == json_string_value(s@),
{
    Value::String(s)
}

/// Relies on `Display` of `serde_json::Error`: the message of the error.
#[verifier::external_body]
pub(crate) fn error_text(e: &Error) -> (r: String)
    ensures
        r@ == json_error_text(*e),
{
    e.to_string()
}

/// A successful parse of `v`.
pub open spec fn ok_value(v: Value) -> Result<Value, Error> {
    Ok(v)
}

/// The text of the JSON literal `null`.
pub open spec fn null_text() -> Seq<char> {
    seq!['n', 'u', 'l', 'l']
}

/// A decimal digit.
pub open spec fn is_digit(c: char) -> bool {
    '0' <= c <= '9'
}

/// One or more decimal digits.
pub open spec fn digits(s: Seq<char>) -> bool {
    s.len() > 0 && forall|i: int| 0 <= i < s.len() ==> is_digit(#[trigger] s[i])
}

/// Digits with at most one decimal point and at least one digit.
pub open spec fn mantissa(s: Seq<char>) -> bool {
    &&& forall|i: int| 0 <= i < s.len() ==> is_digit(#[trigger] s[i]) || s[i] == '.'
    &&& forall|i: int, j: int|
        0 <= i < s.len() && 0 <= j < s.len() && #[trigger] s[i] == '.' && #[trigger] s[j] == '.'
            ==> i == j
    &&& exists|i: int| 0 <= i < s.len() && is_digit(#[trigger] s[i])
}

/// A sign in front of a number or an exponent.
pub open spec fn is_sign(c: char) -> bool {
    c == '+' || c == '-'
}

/// An exponent: `e` or `E`, an optional sign, and digits.
pub open spec fn exponent(s: Seq<char>) -> bool {
    &&& s.len() > 0
    &&& s[0] == 'e' || s[0] == 'E'
    &&& digits(s.drop_first()) || (s.len() > 1 && is_sign(s[1]) && digits(s.skip(2)))
}

/// A mantissa with an optional exponent.
pub open spec fn number(s: Seq<char>) -> bool {
    ||| mantissa(s)
    ||| exists|k: int| 0 < k < s.len() && mantissa(s.take(k)) && #[trigger] exponent(s.skip(k))
}

/// `c` is the lower-case letter `l`, or its upper-case form.
pub open spec fn letter_matches(c: char, l: char) -> bool {
    c == l || c as int + 32 == l as int
}

/// `s` spells the lower-case word `w`, ignoring ASCII case.
pub open spec fn spells(s: Seq<char>, w: Seq<char>) -> bool {
    s.len() == w.len() && forall|i: int| 0 <= i < s.len() ==> letter_matches(#[trigger] s[i], w[i])
}

/// A floating-point literal without a sign.
pub open spec fn unsigned_float(s: Seq<char>) -> bool {
    ||| spells(s, seq!['i', 'n', 'f'])
    ||| spells(s, seq!['i', 'n', 'f', 'i', 'n', 'i', 't', 'y'])
    ||| spells(s, seq!['n', 'a', 'n'])
    ||| number(s)
}

/// A text that std reads as a 64-bit floating-point number: an optional
/// sign, then `inf`, `infinity` or `nan` in any case, or a decimal number
/// with an optional exponent.
pub open spec fn float_literal(s: Seq<char>) -> bool {
    unsigned_float(s) || (s.len() > 0 && is_sign(s[0]) && unsigned_float(s.drop_first()))
}

/// A text that reads as an attempt at structured JSON: it opens an object,
/// an array or a quoted string, is a number, or is one of the literals.
pub open spec fn looks_structured_spec(t: Seq<char>) -> bool {
    ||| t.len() > 0 && (t[0] == '{' || t[0] == '[' || t[0] == '"')
    ||| float_literal(t)
    ||| t == seq!['t', 'r', 'u', 'e']
    ||| t == seq!['f', 'a', 'l', 's', 'e']
    ||| t == null_text()
}

/// The classification of trimmed, non-empty text `t` given what the strict
/// parse made of it: the parse where it succeeded or where `t` looks
/// structured, else `t` itself as a string value.
pub open spec fn decide(t: Seq<char>, parsed: Result<Value, Error>) -> Result<Value, Error> {
    if parsed is Ok || looks_structured_spec(t) {
        parsed
    } else {
        Ok(json_string_value(t))
    }
}

/// The classification of raw value text: blank text is null, the rest is
/// decided on the trimmed text.
pub open spec fn classification(s: Seq<char>) -> Result<Value, Error> {
    let t = trimmed(s);
    if t.len() == 0 {
        json_parse(null_text())
    } else {
        decide(t, json_parse(t))
    }
}

fn digit_char(c: char) -> (r: bool)
    ensures
        r == is_digit(c),
{
    '0' <= c && c <= '9'
}

fn sign_char(c: char) -> (r: bool)
    ensures
        r == is_sign(c),
{
    c == '+' || c == '-'
}

fn letter_eq(c: char, l: char) -> (r: bool)
    ensures
        r == letter_matches(c, l),
{
    c == l || (l as u32 >= 32 && c as u32 == l as u32 - 32)
}

/// Whether `s` is one or more decimal digits.
fn is_digits(s: &str) -> (r: bool)
    ensures
        r == digits(s@),
{
    let n = s.unicode_len();
    if n == 0 {
        return false;
    }
    let mut i: usize = 0;
    while i < n
        invariant
            n == s@.len(),
            i <= n,
            forall|j: int| 0 <= j < i ==> is_digit(#[trigger] s@[j]),
        decreases n - i,
    {
        if !digit_char(s.get_char(i)) {
            return false;
        }
        i += 1;
    }
    true
}

/// Whether `s` is digits with at most one decimal point and at least one
/// digit.
fn is_mantissa(s: &str) -> (r: bool)
    ensures
        r == mantissa(s@),
{
    let n = s.unicode_len();
    let mut dot: Option<usize> = None;
    let mut seen_digit = false;
    let mut i: usize = 0;
    while i < n
        invariant
            n == s@.len(),
            i <= n,
            forall|j: int| 0 <= j < i ==> is_digit(#[trigger] s@[j]) || s@[j] == '.',
            match dot {
                Some(d) => d < i && s@[d as int] == '.' && forall|j: int|
                    0 <= j < i && #[trigger] s@[j] == '.' ==> j == d,
                None => forall|j: int| 0 <= j < i ==> #[trigger] s@[j] != '.',
            },
            seen_digit <==> exists|j: int| 0 <= j < i && is_digit(#[trigger] s@[j]),
        decreases n - i,
    {
        let c = s.get_char(i);
        if c == '.' {
            if let Some(d) = dot {
                assert(s@[d as int] == '.' && s@[i as int] == '.');
                return false;
            }
            dot = Some(i);
        } else if digit_char(c) {
            seen_digit = true;
        } else {
            assert(!(is_digit(s@[i as int]) || s@[i as int] == '.'));
            return false;
        }
        i += 1;
    }
    seen_digit
}

/// Whether `s` is an exponent: `e` or `E`, an optional sign, and digits.
fn is_exponent(s: &str) -> (r: bool)
    ensures
        r == exponent(s@),
{
    let n = s.unicode_len();
    if n == 0 {
        return false;
    }
    let c = s.get_char(0);
    if !(c == 'e' || c == 'E') {
        return false;
    }
    if n > 1 && sign_char(s.get_char(1)) {
        let rest = s.substring_char(2, n);
        assert(rest@ == s@.skip(2));
        assert(!digits(s@.drop_first())) by {
            assert(s@.drop_first()[0] == s@[1]);
        }
        is_digits(rest)
    } else {
        let rest = s.substring_char(1, n);
        assert(rest@ == s@.drop_first());
        is_digits(rest)
    }
}

/// The index of the first `e` or `E` in `s`, or its length where there is
/// none.
fn exponent_mark(s: &str) -> (k: usize)
    ensures
        k <= s@.len(),
        forall|j: int| 0 <= j < k ==> #[trigger] s@[j] != 'e' && s@[j] != 'E',
        k < s@.len() ==> s@[k as int] == 'e' || s@[k as int] == 'E',
{
    let n = s.unicode_len();
    let mut k: usize = 0;
    while k < n
        invariant
            n == s@.len(),
            k <= n,
            forall|j: int| 0 <= j < k ==> #[trigger] s@[j] != 'e' && s@[j] != 'E',
        decreases n - k,
    {
        let c = s.get_char(k);
        if c == 'e' || c == 'E' {
            return k;
        }
        k += 1;
    }
    k
}

/// Whether `s` is a decimal number with an optional exponent.
fn is_number(s: &str) -> (r: bool)
    ensures
        r == number(s@),
{
    let n = s.unicode_len();
    let k = exponent_mark(s);
    if k == n {
        assert forall|m: int| 0 < m < s@.len() implies !#[trigger] exponent(s@.skip(m)) by {
            assert(s@.skip(m)[0] == s@[m]);
        }
        is_mantissa(s)
    } else {
        assert(!mantissa(s@)) by {
            assert(!is_digit(s@[k as int]) && s@[k as int] != '.');
        }
        assert forall|m: int| 0 < m < s@.len() && m != k implies !(mantissa(s@.take(m))
            && #[trigger] exponent(s@.skip(m))) by {
            if m < k {
                assert(s@.skip(m)[0] == s@[m]);
            } else {
                assert(s@.take(m)[k as int] == s@[k as int]);
                assert(!is_digit(s@.take(m)[k as int]) && s@.take(m)[k as int] != '.');
            }
        }
        if k == 0 {
            false
        } else {
            let head = s.substring_char(0, k);
            let tail = s.substring_char(k, n);
            assert(head@ == s@.take(k as int));
            assert(tail@ == s@.skip(k as int));
            is_mantissa(head) && is_exponent(tail)
        }
    }
}

/// Whether `s` spells the lower-case word `w`, ignoring ASCII case.
fn spells_word(s: &str, w: &str) -> (r: bool)
    ensures
        r == spells(s@, w@),
{
    let n = s.unicode_len();
    if n != w.unicode_len() {
        return false;
    }
    let mut i: usize = 0;
    while i < n
        invariant
            n == s@.len(),
            n == w@.len(),
            i <= n,
            forall|j: int| 0 <= j < i ==> letter_matches(#[trigger] s@[j], w@[j]),
        decreases n - i,
    {
        if !letter_eq(s.get_char(i), w.get_char(i)) {
            return false;
        }
        i += 1;
    }
    true
}

/// Whether `s` and `w` hold the same characters.
fn same_text(s: &str, w: &str) -> (r: bool)
    ensures
        r == (s@ == w@),
{
    let n = s.unicode_len();
    if n != w.unicode_len() {
        return false;
    }
    let mut i: usize = 0;
    while i < n
        invariant
            n == s@.len(),
            n == w@.len(),
            i <= n,
            forall|j: int| 0 <= j < i ==> s@[j] == w@[j],
        decreases n - i,
    {
        if s.get_char(i) != w.get_char(i) {
            return false;
        }
        i += 1;
    }
    assert(s@ =~= w@);
    true
}

fn is_unsigned_float(s: &str) -> (r: bool)
    ensures
        r == unsigned_float(s@),
{
    proof {
        reveal_strlit("inf");
        reveal_strlit("infinity");
        reveal_strlit("nan");
    }
    spells_word(s, "inf") || spells_word(s, "infinity") || spells_word(s, "nan") || is_number(s)
}

/// Whether std reads `s` as a 64-bit floating-point number.
pub fn is_float_literal(s: &str) -> (r: bool)
    ensures
        r == float_literal(s@),
{
    if is_unsigned_float(s) {
        return true;
    }
    let n = s.unicode_len();
    if n > 0 && sign_char(s.get_char(0)) {
        let rest = s.substring_char(1, n);
        assert(rest@ == s@.drop_first());
        is_unsigned_float(rest)
    } else {
        false
    }
}

/// Whether trimmed text reads as an attempt at structured JSON.
pub fn looks_structured(t: &str) -> (r: bool)
    ensures
        r == looks_structured_spec(t@),
{
    proof {
        reveal_strlit("true");
        reveal_strlit("false");
        reveal_strlit("null");
        assert("true"@ =~= seq!['t', 'r', 'u', 'e']);
        assert("false"@ =~= seq!['f', 'a', 'l', 's', 'e']);
        assert("null"@ =~= null_text());
    }
    let n = t.unicode_len();
    if n > 0 {
        let c = t.get_char(0);
        if c == '{' || c == '[' || c == '"' {
            return true;
        }
    }
    is_float_literal(t) || same_text(t, "true") || same_text(t, "false") || same_text(t, "null")
}

/// Classifies trimmed, non-empty text `t` from what the strict JSON parse
/// made of it.
pub fn classify_parsed(t: &str, parsed: Result<Value, Error>) -> (r: Result<Value, Error>)
    ensures
        r == decide(t@, parsed),
{
    if parsed.is_ok() || looks_structured(t) {
        parsed
    } else {
        Ok(string_value(t.to_owned()))
    }
}

/// Classifies raw value text into a JSON value, or the parse error of text
/// that looks structured but is malformed.
pub fn classify_value(text: &str) -> (r: Result<Value, Error>)
    ensures
        r == classification(text@),
{
    let t = trim(text);
    if t.unicode_len() == 0 {
        Ok(null_value())
    } else {
        classify_parsed(t, parse_json(t))
    }
}

} // verus!
