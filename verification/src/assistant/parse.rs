//! Readings of model output and of numeric settings, through serde_json and
//! the standard library.  Model output is free-form text; each reading is
//! total, and every caller supplies an explicit fallback for `None`.

use vstd::prelude::*;

verus! {

/// What parsing the text as JSON yields for a string under the key "query":
/// `Some` exactly when the text is valid JSON whose top level holds a string
/// at that key.
pub uninterp spec fn query_field(s: Seq<char>) -> Option<Seq<char>>;

/// Relies on `serde_json::from_str::<Value>`, `Value::get` and
/// `Value::as_str`: the string under the top-level key "query", when the
/// text is JSON and holds one.
#[verifier::external_body]
pub(crate) fn parse_query_field(s: &str) -> (r: Option<String>)
    ensures
        r is Some <==> query_field(s@) is Some,
        r matches Some(q) ==> query_field(s@) == Some(q@),
{
    match serde_json::from_str::<serde_json::Value>(s) {
        Ok(v) => v.get("query").and_then(|q| q.as_str()).map(|q| q.to_string()),
        Err(_) => None,
    }
}

/// What parsing the text as JSON yields for a string under the key
/// "follow_up_query", as for `query_field`.
pub uninterp spec fn follow_up_field(s: Seq<char>) -> Option<Seq<char>>;

/// Relies on `serde_json::from_str::<Value>`, `Value::get` and
/// `Value::as_str`: the string under the top-level key "follow_up_query",
/// when the text is JSON and holds one.
#[verifier::external_body]
pub(crate) fn parse_follow_up_field(s: &str) -> (r: Option<String>)
    ensures
        r is Some <==> follow_up_field(s@) is Some,
        r matches Some(q) ==> follow_up_field(s@) == Some(q@),
{
    match serde_json::from_str::<serde_json::Value>(s) {
        Ok(v) => v.get("follow_up_query").and_then(|q| q.as_str()).map(|q| q.to_string()),
        Err(_) => None,
    }
}

/// What parsing the text as JSON yields for the three perspective fields:
/// `Some` exactly when the text is valid JSON whose top level holds strings
/// under all of "topic", "perspective_one" and "perspective_two".
pub uninterp spec fn perspective_fields(s: Seq<char>) -> Option<
    (Seq<char>, Seq<char>, Seq<char>),
>;

/// Relies on `serde_json::from_str::<Value>`, `Value::get` and
/// `Value::as_str`: the strings under the keys "topic", "perspective_one"
/// and "perspective_two", when the text is JSON and holds all three.
#[verifier::external_body]
pub(crate) fn parse_perspective_fields(s: &str) -> (r: Option<(String, String, String)>)
    ensures
        r is Some <==> perspective_fields(s@) is Some,
        r matches Some(p) ==> perspective_fields(s@) == Some((p.0@, p.1@, p.2@)),
{
    let v: serde_json::Value = match serde_json::from_str(s) {
        Ok(v) => v,
        Err(_) => return None,
    };
    let topic = v.get("topic").and_then(|x| x.as_str())?;
    let one = v.get("perspective_one").and_then(|x| x.as_str())?;
    let two = v.get("perspective_two").and_then(|x| x.as_str())?;
    Some((topic.to_string(), one.to_string(), two.to_string()))
}

/// Whether every character is an ASCII decimal digit.
pub open spec fn spec_all_dec_digits(s: Seq<char>) -> bool {
    forall|i: int| 0 <= i < s.len() ==> 0x30 <= (#[trigger] s[i]) as u32 <= 0x39
}

/// The numeric value of a string of decimal digits.
pub open spec fn spec_dec_value(s: Seq<char>) -> nat
    decreases s.len(),
{
    if s.len() == 0 {
        0
    } else {
        spec_dec_value(s.drop_last()) * 10 + ((s.last() as u32) - 0x30) as nat
    }
}

/// What `str::parse::<i32>` yields for the text: an optional ASCII sign
/// followed by one or more ASCII decimal digits, read as a decimal number,
/// exactly when the whole text has that shape and the value fits the type.
pub open spec fn spec_parsed_i32(s: Seq<char>) -> Option<i32> {
    let negative = s.len() > 0 && s[0] == '-';
    let digits = if s.len() > 0 && (s[0] == '+' || s[0] == '-') {
        s.drop_first()
    } else {
        s
    };
    if digits.len() == 0 || !spec_all_dec_digits(digits) {
        None
    } else {
        let v = spec_dec_value(digits);
        if negative {
            if v <= 0x8000_0000 {
                Some((-(v as int)) as i32)
            } else {
                None
            }
        } else {
            if v <= 0x7fff_ffff {
                Some(v as i32)
            } else {
                None
            }
        }
    }
}

/// Relies on `str::parse::<i32>`: the sign-and-digits decimal reading of
/// the text, `None` on any other shape or an out-of-range value.
#[verifier::external_body]
pub(crate) fn parse_i32_str(s: &str) -> (r: Option<i32>)
    ensures
        r == spec_parsed_i32(s@),
{
    s.parse::<i32>().ok()
}

} // verus!
