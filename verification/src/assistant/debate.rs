//! Debate mode: two contrasting perspectives on one topic, generated once
//! per session before any track executes.

use vstd::prelude::*;
use crate::assistant::parse::{perspective_fields, parse_perspective_fields};
use crate::assistant::text::{spec_find_from, find_from, lemma_find_from_bounds};

verus! {

/// Two contrasting stances on a research topic.  Created once, before track
/// execution begins, and never mutated afterwards.
#[derive(Debug, Clone)]
pub struct DebatePerspectives {
    pub topic: String,
    pub perspective_one: String,
    pub perspective_two: String,
}

#[verifier::ext_equal]
pub struct PerspectivesView {
    pub topic: Seq<char>,
    pub perspective_one: Seq<char>,
    pub perspective_two: Seq<char>,
}

impl View for DebatePerspectives {
    type V = PerspectivesView;

    open spec fn view(&self) -> PerspectivesView {
        PerspectivesView {
            topic: self.topic@,
            perspective_one: self.perspective_one@,
            perspective_two: self.perspective_two@,
        }
    }
}

/// Text of the debate prompt that precedes the research topic.
pub const DEBATE_PROMPT_PREFIX: &'static str = "You are a debate coach helping to frame different perspectives on a topic.\nGiven this research topic, generate two distinct, well-reasoned perspectives that could form the basis of a debate.\nEach perspective should be factual, balanced, and supported by evidence.\n\nResearch Topic: ";

/// Text of the debate prompt that follows the research topic.
pub const DEBATE_PROMPT_SUFFIX: &'static str = "\n\nFormat your response as a JSON object with these exact keys:\n{\n    \"topic\": \"the research topic\",\n    \"perspective_one\": \"first perspective\",\n    \"perspective_two\": \"second perspective\"\n}\n\nEnsure all quotes and special characters in the perspectives are properly escaped.";

/// The debate prompt with the topic interpolated.
pub open spec fn spec_debate_prompt(topic: Seq<char>) -> Seq<char> {
    DEBATE_PROMPT_PREFIX@ + topic + DEBATE_PROMPT_SUFFIX@
}

pub fn format_debate_prompt(topic: &str) -> (s: String)
    ensures
        s@ == spec_debate_prompt(topic@),
{
    let mut s = DEBATE_PROMPT_PREFIX.to_string();
    s.append(topic);
    s.append(DEBATE_PROMPT_SUFFIX);
    s
}

/// The span of `s` from its first `{` through its last `}`: the best-effort
/// extraction of a JSON object from free-form model output.  Without a first
/// `{` the span starts at the beginning; without a last `}` it runs to the
/// end; an empty span is returned when the two bounds cross.
pub open spec fn spec_json_span(s: Seq<char>) -> Seq<char> {
    let start = match spec_find_from(s, seq!['{'], 0) {
        Some(i) => i,
        None => 0,
    };
    let end = match spec_rfind(s, '}') {
        Some(i) => i + 1,
        None => s.len() as int,
    };
    if start <= end {
        s.subrange(start, end)
    } else {
        Seq::empty()
    }
}

/// The last position of `c` in `s` strictly before `upto`.
pub open spec fn spec_rfind_upto(s: Seq<char>, c: char, upto: int) -> Option<int>
    decreases upto,
{
    if upto <= 0 || upto > s.len() {
        None
    } else if s[upto - 1] == c {
        Some(upto - 1)
    } else {
        spec_rfind_upto(s, c, upto - 1)
    }
}

/// The last position of `c` in `s`.
pub open spec fn spec_rfind(s: Seq<char>, c: char) -> Option<int> {
    spec_rfind_upto(s, c, s.len() as int)
}

fn rfind_char(s: &str, c: char) -> (r: Option<usize>)
    ensures
        r matches Some(i) ==> spec_rfind(s@, c) == Some(i as int),
        r is None ==> spec_rfind(s@, c) is None,
{
    let n = s.unicode_len();
    let mut upto = n;
    while upto > 0
        invariant
            upto <= n,
            n == s@.len(),
            spec_rfind(s@, c) == spec_rfind_upto(s@, c, upto as int),
        decreases upto,
    {
        if s.get_char(upto - 1) == c {
            return Some(upto - 1);
        }
        upto -= 1;
    }
    None
}

proof fn lemma_rfind_bounds(s: Seq<char>, c: char, upto: int)
    requires
        spec_rfind_upto(s, c, upto) is Some,
    ensures
        0 <= spec_rfind_upto(s, c, upto)->0 < s.len(),
    decreases upto,
{
    if !(upto <= 0 || upto > s.len()) && s[upto - 1] != c {
        lemma_rfind_bounds(s, c, upto - 1);
    }
}

/// Extracts the best-effort JSON object span from free-form model output.
pub fn extract_json_span(response: &str) -> (r: String)
    ensures
        r@ == spec_json_span(response@),
{
    let n = response.unicode_len();
    proof {
        reveal_strlit("{");
        assert("{"@ =~= seq!['{']);
    }
    let start = match find_from(response, "{", 0) {
        Some(i) => {
            proof {
                lemma_find_from_bounds(response@, seq!['{'], 0);
            }
            i
        },
        None => 0,
    };
    let end = match rfind_char(response, '}') {
        Some(i) => {
            proof {
                lemma_rfind_bounds(response@, '}', n as int);
            }
            i + 1
        },
        None => n,
    };
    if start <= end {
        String::from_str(response.substring_char(start, end))
    } else {
        String::new()
    }
}

/// Parses a perspectives object out of free-form model output: the JSON span
/// is extracted first, and the three stance fields are read from it.  `None`
/// reports a malformed response, which is fatal for a debate-mode request.
pub fn parse_perspectives_response(response: &str) -> (r: Option<DebatePerspectives>)
    ensures
        r is Some <==> perspective_fields(spec_json_span(response@)) is Some,
        r matches Some(p) ==> perspective_fields(spec_json_span(response@)) == Some(
            (p.topic@, p.perspective_one@, p.perspective_two@),
        ),
{
    let span = extract_json_span(response);
    match parse_perspective_fields(span.as_str()) {
        Some(fields) => Some(
            DebatePerspectives {
                topic: fields.0,
                perspective_one: fields.1,
                perspective_two: fields.2,
            },
        ),
        None => None,
    }
}

} // verus!
