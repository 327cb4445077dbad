//! Prompt templates: pure functions that interpolate a topic or summary into
//! fixed instruction strings handed to the generation gateway.

use vstd::prelude::*;

verus! {

/// Instructions for the query-writing step.  This template mentions no
/// placeholder, so the formatted instructions are the template itself.
pub const QUERY_WRITER_INSTRUCTIONS: &'static str = "You are a research assistant tasked with generating effective search queries.\nYour goal is to create a search query that will help gather relevant information about the research topic.\nFormat your response as JSON with a single key 'query' containing the search query.";

/// Instructions for the summarization step.
pub const SUMMARIZER_INSTRUCTIONS: &'static str = "You are a research assistant tasked with summarizing information.\nAnalyze the search results and create a comprehensive summary that addresses the research topic.\nIf there's an existing summary, integrate the new information with it.";

/// Text of the reflection instructions that precedes the research topic.
pub const REFLECTION_INSTRUCTIONS_PREFIX: &'static str = "You are a research assistant tasked with identifying knowledge gaps.\nAnalyze the current summary and identify what important aspects of ";

/// Text of the reflection instructions that follows the research topic.
pub const REFLECTION_INSTRUCTIONS_SUFFIX: &'static str = " still need to be explored.\nGenerate a follow-up search query to fill these gaps.\nFormat your response as JSON with a single key 'follow_up_query' containing the search query.";

/// The query-writer instructions for a topic.
pub open spec fn spec_query_writer_instructions(research_topic: Seq<char>) -> Seq<char> {
    QUERY_WRITER_INSTRUCTIONS@
}

/// The reflection instructions with the topic interpolated.
pub open spec fn spec_reflection_instructions(research_topic: Seq<char>) -> Seq<char> {
    REFLECTION_INSTRUCTIONS_PREFIX@ + research_topic + REFLECTION_INSTRUCTIONS_SUFFIX@
}

pub fn format_query_writer_instructions(research_topic: &str) -> (s: String)
    ensures
        s@ == spec_query_writer_instructions(research_topic@),
{
    QUERY_WRITER_INSTRUCTIONS.to_string()
}

pub fn format_reflection_instructions(research_topic: &str) -> (s: String)
    ensures
        s@ == spec_reflection_instructions(research_topic@),
{
    let mut s = REFLECTION_INSTRUCTIONS_PREFIX.to_string();
    s.append(research_topic);
    s.append(REFLECTION_INSTRUCTIONS_SUFFIX);
    s
}

} // verus!
