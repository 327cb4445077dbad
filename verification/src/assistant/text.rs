//! Character-level text utilities: substring search, deletion of
//! `<think>...</think>` diagnostic spans, joining, trimming and decimal
//! rendering, all specified over `Seq<char>` views.

use vstd::prelude::*;

verus! {

/// True when `pat` occurs in `s` starting at position `i`.
pub open spec fn matches_at(s: Seq<char>, pat: Seq<char>, i: int) -> bool {
    0 <= i && i + pat.len() <= s.len() && s.subrange(i, i + pat.len() as int) == pat
}

/// The first position at or after `from` where `pat` occurs in `s`.
pub open spec fn spec_find_from(s: Seq<char>, pat: Seq<char>, from: int) -> Option<int>
    decreases s.len() - from,
    via spec_find_from_decreases
{
    if from + pat.len() <= s.len() {
        if matches_at(s, pat, from) {
            Some(from)
        } else {
            spec_find_from(s, pat, from + 1)
        }
    } else {
        None
    }
}

#[via_fn]
proof fn spec_find_from_decreases(s: Seq<char>, pat: Seq<char>, from: int) {
    if from + pat.len() <= s.len() && !matches_at(s, pat, from) {
        if pat.len() == 0 {
            if 0 <= from {
                assert(s.subrange(from, from + pat.len() as int) =~= pat);
            }
            assert(from < 0);
        }
    }
}

pub proof fn lemma_find_from_bounds(s: Seq<char>, pat: Seq<char>, from: int)
    requires
        0 <= from,
        spec_find_from(s, pat, from) is Some,
    ensures
        from <= spec_find_from(s, pat, from)->0,
        matches_at(s, pat, spec_find_from(s, pat, from)->0),
    decreases s.len() - from,
{
    if from + pat.len() <= s.len() && !matches_at(s, pat, from) {
        if pat.len() == 0 {
            assert(s.subrange(from, from + pat.len() as int) =~= pat);
        }
        lemma_find_from_bounds(s, pat, from + 1);
    }
}

/// Whether `pat` occurs in `s` at position `i`, decided character by character.
fn match_at(s: &str, pat: &str, i: usize) -> (r: bool)
    requires
        i + pat@.len() <= s@.len(),
        s@.len() <= usize::MAX,
    ensures
        r == matches_at(s@, pat@, i as int),
{
    let m = pat.unicode_len();
    let mut k: usize = 0;
    while k < m
        invariant
            0 <= k <= m,
            m == pat@.len(),
            i + m <= s@.len(),
            s@.len() <= usize::MAX,
            forall|l: int| 0 <= l < k ==> s@[i + l] == pat@[l],
        decreases m - k,
    {
        if s.get_char(i + k) != pat.get_char(k) {
            proof {
                assert(s@.subrange(i as int, i + m as int)[k as int] == s@[i + k]);
            }
            return false;
        }
        k += 1;
    }
    proof {
        assert(s@.subrange(i as int, i + m as int) =~= pat@);
    }
    true
}

/// The first occurrence of `pat` in `s` at or after `from`.
pub fn find_from(s: &str, pat: &str, from: usize) -> (r: Option<usize>)
    requires
        from <= s@.len(),
    ensures
        r matches Some(i) ==> spec_find_from(s@, pat@, from as int) == Some(i as int),
        r is None ==> spec_find_from(s@, pat@, from as int) is None,
{
    let n = s.unicode_len();
    let m = pat.unicode_len();
    if m > n {
        return None;
    }
    if m == 0 {
        proof {
            assert(s@.subrange(from as int, from as int) =~= pat@);
        }
        return Some(from);
    }
    let mut i = from;
    while i <= n - m
        invariant
            from <= i,
            1 <= m <= n,
            i <= n,
            n == s@.len(),
            m == pat@.len(),
            spec_find_from(s@, pat@, from as int) == spec_find_from(s@, pat@, i as int),
        decreases n - i,
    {
        if match_at(s, pat, i) {
            return Some(i);
        }
        i += 1;
    }
    None
}

/// `s` with the span `[a, b)` deleted.
pub open spec fn remove_span(s: Seq<char>, a: int, b: int) -> Seq<char> {
    s.subrange(0, a) + s.subrange(b, s.len() as int)
}

pub open spec fn think_open() -> Seq<char> {
    seq!['<', 't', 'h', 'i', 'n', 'k', '>']
}

pub open spec fn think_close() -> Seq<char> {
    seq!['<', '/', 't', 'h', 'i', 'n', 'k', '>']
}

/// The text with every `<think>...</think>` span deleted: repeatedly, the
/// earliest opening tag and the earliest closing tag at or after it are
/// found and the enclosed span is removed, until no such pair remains.
pub open spec fn spec_strip_think(s: Seq<char>) -> Seq<char>
    decreases s.len(),
    via spec_strip_think_decreases
{
    match spec_find_from(s, think_open(), 0) {
        Some(o) => match spec_find_from(s, think_close(), o) {
            Some(c) => spec_strip_think(remove_span(s, o, c + 8)),
            None => s,
        },
        None => s,
    }
}

#[via_fn]
proof fn spec_strip_think_decreases(s: Seq<char>) {
    match spec_find_from(s, think_open(), 0) {
        Some(o) => {
            lemma_find_from_bounds(s, think_open(), 0);
            match spec_find_from(s, think_close(), o) {
                Some(c) => {
                    lemma_find_from_bounds(s, think_close(), o);
                },
                None => {},
            }
        },
        None => {},
    }
}

/// Tag stripping is idempotent: re-applying it to an already stripped text,
/// in particular to any clean text with no remaining tag pair, is a no-op.
pub proof fn lemma_strip_think_idempotent(s: Seq<char>)
    ensures
        spec_strip_think(spec_strip_think(s)) == spec_strip_think(s),
    decreases s.len(),
{
    match spec_find_from(s, think_open(), 0) {
        Some(o) => {
            match spec_find_from(s, think_close(), o) {
                Some(c) => {
                    lemma_find_from_bounds(s, think_open(), 0);
                    lemma_find_from_bounds(s, think_close(), o);
                    lemma_strip_think_idempotent(remove_span(s, o, c + 8));
                },
                None => {},
            }
        },
        None => {},
    }
}

/// Deletes every `<think>...</think>` span from the text.
pub fn strip_think_spans(s: String) -> (r: String)
    ensures
        r@ == spec_strip_think(s@),
{
    let mut cur = s;
    loop
        invariant
            spec_strip_think(cur@) == spec_strip_think(s@),
        decreases cur@.len(),
    {
        proof {
            reveal_strlit("<think>");
            reveal_strlit("</think>");
            assert("<think>"@ =~= think_open());
            assert("</think>"@ =~= think_close());
        }
        let open = find_from(cur.as_str(), "<think>", 0);
        match open {
            None => {
                return cur;
            },
            Some(o) => {
                proof {
                    lemma_find_from_bounds(cur@, think_open(), 0);
                }
                let close = find_from(cur.as_str(), "</think>", o);
                match close {
                    None => {
                        return cur;
                    },
                    Some(c) => {
                        proof {
                            lemma_find_from_bounds(cur@, think_close(), o as int);
                        }
                        let n = cur.as_str().unicode_len();
                        let prefix = cur.as_str().substring_char(0, o);
                        let suffix = cur.as_str().substring_char(c + 8, n);
                        let next = String::from_str(prefix).concat(suffix);
                        proof {
                            assert(next@ =~= remove_span(cur@, o as int, c + 8));
                        }
                        cur = next;
                    },
                }
            },
        }
    }
}

/// Whether the two texts hold the same characters.
pub fn str_eq(a: &str, b: &str) -> (r: bool)
    ensures
        r == (a@ == b@),
{
    let n = a.unicode_len();
    let m = b.unicode_len();
    if n != m {
        return false;
    }
    let mut i: usize = 0;
    while i < n
        invariant
            0 <= i <= n,
            n == a@.len(),
            n == b@.len(),
            forall|l: int| 0 <= l < i ==> a@[l] == b@[l],
        decreases n - i,
    {
        if a.get_char(i) != b.get_char(i) {
            return false;
        }
        i += 1;
    }
    proof {
        assert(a@ =~= b@);
    }
    true
}

/// The pieces joined with the separator between consecutive pieces.
pub open spec fn spec_join(xs: Seq<Seq<char>>, sep: Seq<char>) -> Seq<char>
    decreases xs.len(),
{
    if xs.len() == 0 {
        Seq::empty()
    } else if xs.len() == 1 {
        xs[0]
    } else {
        spec_join(xs.drop_last(), sep) + sep + xs.last()
    }
}

/// Joins the strings with the separator between consecutive entries.
pub fn join_strings(xs: &Vec<String>, sep: &str) -> (r: String)
    ensures
        r@ == spec_join(xs.deep_view(), sep@),
{
    let mut r = String::new();
    let mut i: usize = 0;
    while i < xs.len()
        invariant
            0 <= i <= xs.deep_view().len(),
            xs.deep_view().len() == xs.len(),
            r@ == spec_join(xs.deep_view().take(i as int), sep@),
        decreases xs.len() - i,
    {
        if i > 0 {
            r.append(sep);
        }
        r.append(xs[i].as_str());
        proof {
            let dv = xs.deep_view();
            assert(dv.take(i + 1).drop_last() =~= dv.take(i as int));
            assert(dv.take(i + 1).last() == dv[i as int]);
            assert(dv[i as int] == xs[i as int]@);
        }
        i += 1;
    }
    proof {
        assert(xs.deep_view().take(xs.deep_view().len() as int) =~= xs.deep_view());
    }
    r
}

/// The decimal digit character for a value below ten.
pub open spec fn spec_digit_char(d: nat) -> char {
    ((0x30 + d) as u8) as char
}

/// The decimal rendering of a number, most significant digit first.
pub open spec fn spec_dec_str(n: nat) -> Seq<char>
    decreases n,
    via spec_dec_str_decreases
{
    if n < 10 {
        seq![spec_digit_char(n)]
    } else {
        spec_dec_str(n / 10).push(spec_digit_char(n % 10))
    }
}

#[via_fn]
proof fn spec_dec_str_decreases(n: nat) {
    if n >= 10 {
        assert(n / 10 < n) by (nonlinear_arith)
            requires n >= 10;
    }
}

fn push_dec_digit(s: &mut String, d: u64)
    requires
        d < 10,
    ensures
        final(s)@ == old(s)@ + seq![spec_digit_char(d as nat)],
{
    let lit = match d {
        0 => "0",
        1 => "1",
        2 => "2",
        3 => "3",
        4 => "4",
        5 => "5",
        6 => "6",
        7 => "7",
        8 => "8",
        _ => "9",
    };
    proof {
        reveal_strlit("0");
        reveal_strlit("1");
        reveal_strlit("2");
        reveal_strlit("3");
        reveal_strlit("4");
        reveal_strlit("5");
        reveal_strlit("6");
        reveal_strlit("7");
        reveal_strlit("8");
        reveal_strlit("9");
        assert(lit@ =~= seq![spec_digit_char(d as nat)]);
    }
    s.append(lit);
}

/// Renders a number in decimal, most significant digit first.
pub(crate) fn u64_to_string(n: u64) -> (s: String)
    ensures
        s@ == spec_dec_str(n as nat),
    decreases n,
{
    if n < 10 {
        let mut s = String::new();
        push_dec_digit(&mut s, n);
        s
    } else {
        proof {
            assert(n / 10 < n) by (nonlinear_arith)
                requires n >= 10;
        }
        let mut s = u64_to_string(n / 10);
        push_dec_digit(&mut s, n % 10);
        proof {
            assert(spec_dec_str((n / 10) as nat).push(spec_digit_char((n % 10) as nat))
                =~= spec_dec_str((n / 10) as nat) + seq![spec_digit_char((n % 10) as nat)]);
        }
        s
    }
}

/// The hexadecimal digit character for a value below sixteen, lower case.
pub open spec fn spec_hex_digit_char(d: nat) -> char {
    if d < 10 {
        ((0x30 + d) as u8) as char
    } else {
        ((0x61 + (d - 10)) as u8) as char
    }
}

/// How one character appears inside a JSON string literal: quote and
/// backslash take a backslash, the five control characters with short
/// escapes use them, every other control character becomes a four-digit
/// escape, and everything else stands as itself.
pub open spec fn spec_json_escaped_char(c: char) -> Seq<char> {
    if c == '"' {
        seq!['\\', '"']
    } else if c == '\\' {
        seq!['\\', '\\']
    } else if c == '\u{8}' {
        seq!['\\', 'b']
    } else if c == '\t' {
        seq!['\\', 't']
    } else if c == '\n' {
        seq!['\\', 'n']
    } else if c == '\u{c}' {
        seq!['\\', 'f']
    } else if c == '\r' {
        seq!['\\', 'r']
    } else if (c as u32) < 0x20 {
        seq!['\\', 'u', '0', '0'] + seq![
            spec_hex_digit_char(((c as u32) / 16) as nat),
            spec_hex_digit_char(((c as u32) % 16) as nat),
        ]
    } else {
        seq![c]
    }
}

/// The body of a JSON string literal holding the text.
pub open spec fn spec_json_escaped(s: Seq<char>) -> Seq<char>
    decreases s.len(),
{
    if s.len() == 0 {
        Seq::empty()
    } else {
        spec_json_escaped(s.drop_last()) + spec_json_escaped_char(s.last())
    }
}

/// The JSON string literal holding the text, quotes included.
pub open spec fn spec_json_string(s: Seq<char>) -> Seq<char> {
    seq!['"'] + spec_json_escaped(s) + seq!['"']
}

fn push_hex_digit(out: &mut String, d: u32)
    requires
        d < 16,
    ensures
        final(out)@ == old(out)@ + seq![spec_hex_digit_char(d as nat)],
{
    let lit = match d {
        0 => "0",
        1 => "1",
        2 => "2",
        3 => "3",
        4 => "4",
        5 => "5",
        6 => "6",
        7 => "7",
        8 => "8",
        9 => "9",
        10 => "a",
        11 => "b",
        12 => "c",
        13 => "d",
        14 => "e",
        _ => "f",
    };
    proof {
        reveal_strlit("0");
        reveal_strlit("1");
        reveal_strlit("2");
        reveal_strlit("3");
        reveal_strlit("4");
        reveal_strlit("5");
        reveal_strlit("6");
        reveal_strlit("7");
        reveal_strlit("8");
        reveal_strlit("9");
        reveal_strlit("a");
        reveal_strlit("b");
        reveal_strlit("c");
        reveal_strlit("d");
        reveal_strlit("e");
        reveal_strlit("f");
        assert(lit@ =~= seq![spec_hex_digit_char(d as nat)]);
    }
    out.append(lit);
}

/// Writes the text as a JSON string literal, quotes included.
pub fn json_string_literal(s: &str) -> (r: String)
    ensures
        r@ == spec_json_string(s@),
{
    let n = s.unicode_len();
    let mut out = String::new();
    proof {
        reveal_strlit("\"");
        assert("\""@ =~= seq!['"']);
    }
    out.append("\"");
    let mut i: usize = 0;
    while i < n
        invariant
            0 <= i <= n,
            n == s@.len(),
            out@ == seq!['"'] + spec_json_escaped(s@.take(i as int)),
        decreases n - i,
    {
        let c = s.get_char(i);
        if c == '"' {
            proof {
                reveal_strlit("\\\"");
                assert("\\\""@ =~= spec_json_escaped_char('"'));
            }
            out.append("\\\"");
        } else if c == '\\' {
            proof {
                reveal_strlit("\\\\");
                assert("\\\\"@ =~= spec_json_escaped_char('\\'));
            }
            out.append("\\\\");
        } else if c == '\u{8}' {
            proof {
                reveal_strlit("\\b");
                assert("\\b"@ =~= spec_json_escaped_char('\u{8}'));
            }
            out.append("\\b");
        } else if c == '\t' {
            proof {
                reveal_strlit("\\t");
                assert("\\t"@ =~= spec_json_escaped_char('\t'));
            }
            out.append("\\t");
        } else if c == '\n' {
            proof {
                reveal_strlit("\\n");
                assert("\\n"@ =~= spec_json_escaped_char('\n'));
            }
            out.append("\\n");
        } else if c == '\u{c}' {
            proof {
                reveal_strlit("\\f");
                assert("\\f"@ =~= spec_json_escaped_char('\u{c}'));
            }
            out.append("\\f");
        } else if c == '\r' {
            proof {
                reveal_strlit("\\r");
                assert("\\r"@ =~= spec_json_escaped_char('\r'));
            }
            out.append("\\r");
        } else if (c as u32) < 0x20 {
            proof {
                reveal_strlit("\\u00");
                assert("\\u00"@ =~= seq!['\\', 'u', '0', '0']);
            }
            out.append("\\u00");
            let code = c as u32;
            push_hex_digit(&mut out, code / 16);
            push_hex_digit(&mut out, code % 16);
            proof {
                assert(out@ =~= seq!['"'] + spec_json_escaped(s@.take(i as int))
                    + spec_json_escaped_char(c));
            }
        } else {
            let piece = s.substring_char(i, i + 1);
            proof {
                assert(piece@ =~= seq![c]);
            }
            out.append(piece);
        }
        proof {
            assert(s@.take(i + 1).drop_last() =~= s@.take(i as int));
            assert(s@.take(i + 1).last() == s@[i as int]);
        }
        i += 1;
    }
    proof {
        assert(s@.take(n as int) =~= s@);
    }
    out.append("\"");
    out
}

} // verus!
