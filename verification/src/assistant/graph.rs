//! The research pipeline: the five nodes (query, retrieve, summarize,
//! reflect, finalize) as pure transformations, and the orchestrator that
//! sequences them over a bounded number of loops, in single-track or
//! dual-track (debate) mode, through an action/reply protocol whose
//! gateway calls are performed by the caller.

use vstd::prelude::*;
use crate::assistant::configuration::{Configuration, ResearchMode};
use crate::assistant::debate::{
    PerspectivesView,
    spec_debate_prompt,
    format_debate_prompt,
    spec_json_span,
    parse_perspectives_response,
};
use crate::assistant::parse::{
    query_field,
    parse_query_field,
    follow_up_field,
    parse_follow_up_field,
    perspective_fields,
};
use crate::assistant::prompts::{
    SUMMARIZER_INSTRUCTIONS,
    spec_query_writer_instructions,
    spec_reflection_instructions,
    format_query_writer_instructions,
    format_reflection_instructions,
};
use crate::assistant::state::{
    ResearchTrack,
    TrackView,
    TrackId,
    SummaryState,
    SummaryStateView,
    SummaryStateInput,
    SummaryStateOutput,
    Phase,
    ProgressEvent,
    is_event,
};
use crate::assistant::text::{
    spec_strip_think,
    strip_think_spans,
    spec_join,
    join_strings,
    spec_dec_str,
    u64_to_string,
    spec_json_string,
    json_string_literal,
};
use crate::assistant::utils::{SearchResult, SearchResultView, SearchResponse};

verus! {

/// One structured source of a retrieval, as recorded in progress details
/// and citations.
#[derive(Debug, Clone)]
pub struct ResearchSource {
    pub title: String,
    pub url: String,
    pub content: String,
}

#[verifier::ext_equal]
pub struct ResearchSourceView {
    pub title: Seq<char>,
    pub url: Seq<char>,
    pub content: Seq<char>,
}

impl View for ResearchSource {
    type V = ResearchSourceView;

    open spec fn view(&self) -> ResearchSourceView {
        ResearchSourceView { title: self.title@, url: self.url@, content: self.content@ }
    }
}

/// The one-line human-readable citation for a source.
pub open spec fn spec_citation(title: Seq<char>, url: Seq<char>) -> Seq<char> {
    "- "@ + title + " ("@ + url + ")"@
}

impl ResearchSource {
    /// The structured source of one search hit.
    pub fn from_result(r: &SearchResult) -> (s: Self)
        ensures
            s@ == (ResearchSourceView { title: r@.title, url: r@.url, content: r@.content }),
    {
        ResearchSource { title: r.title.clone(), url: r.url.clone(), content: r.content.clone() }
    }

    /// The citation line recorded in a track's sources.
    pub fn citation(&self) -> (r: String)
        ensures
            r@ == spec_citation(self@.title, self@.url),
    {
        let mut line = "- ".to_string();
        line.append(self.title.as_str());
        line.append(" (");
        line.append(self.url.as_str());
        line.append(")");
        line
    }
}

// ---------------------------------------------------------------------------
// Pipeline nodes
// ---------------------------------------------------------------------------

/// Builds the initial search query from the topic; malformed model output
/// falls back to the topic itself.
pub struct QueryGeneratorNode;

/// Runs a web search and records sources and content on a track.
pub struct WebResearchNode;

/// Folds the latest retrieval into a track's cumulative summary.
pub struct SummarizerNode;

/// Asks for a knowledge gap and the next query; malformed model output
/// falls back to a fixed topic question.
pub struct ReflectionNode;

/// Wraps the tracks' summaries and sources into the final report.
pub struct FinalizerNode;

/// The generation prompt of the query node.
pub open spec fn spec_query_prompt(topic: Seq<char>) -> Seq<char> {
    spec_query_writer_instructions(topic)
        + "\n\nEnhance this search query while preserving its core meaning. Original query: "@
        + topic
}

/// The query selected from a model response: the response's `query` field,
/// or the topic unchanged when the response does not parse as JSON or has
/// no such field.
pub open spec fn spec_selected_query(response: Seq<char>, topic: Seq<char>) -> Seq<char> {
    match query_field(response) {
        Some(q) => q,
        None => topic,
    }
}

impl QueryGeneratorNode {
    pub fn build_prompt(research_topic: &str) -> (r: String)
        ensures
            r@ == spec_query_prompt(research_topic@),
    {
        let mut r = format_query_writer_instructions(research_topic);
        r.append(
            "\n\nEnhance this search query while preserving its core meaning. Original query: ",
        );
        r.append(research_topic);
        r
    }

    /// Selects the search query from the model's response, falling back to
    /// the topic on malformed output.  The fallback is policy, not an
    /// error: query drift never aborts the pipeline.
    pub fn select_query(response: &str, research_topic: &str) -> (r: String)
        ensures
            r@ == spec_selected_query(response@, research_topic@),
    {
        match parse_query_field(response) {
            Some(q) => q,
            None => String::from_str(research_topic),
        }
    }
}

/// The retrieved content of a search: its first hit's content, or empty
/// when the search returned nothing.
pub open spec fn spec_first_content(rs: Seq<SearchResultView>) -> Seq<char> {
    if rs.len() > 0 {
        rs[0].content
    } else {
        Seq::empty()
    }
}

/// A track after one retrieval: one citation appended per hit, and the
/// retrieved content appended to the research results; the loop counter is
/// the orchestrator's to advance, never this node's.
pub open spec fn spec_track_after_search(t: TrackView, rs: Seq<SearchResultView>) -> TrackView {
    TrackView {
        sources: t.sources + spec_citations(rs),
        web_research_results: t.web_research_results.push(spec_first_content(rs)),
        ..t
    }
}

/// The citation lines of the hits, in order.
pub open spec fn spec_citations(rs: Seq<SearchResultView>) -> Seq<Seq<char>> {
    rs.map_values(|r: SearchResultView| spec_citation(r.title, r.url))
}

/// One hit as a JSON object, its keys in alphabetical order.
pub open spec fn spec_source_json(r: SearchResultView) -> Seq<char> {
    "{\"content\":"@ + spec_json_string(r.content) + ",\"title\":"@ + spec_json_string(r.title)
        + ",\"url\":"@ + spec_json_string(r.url) + "}"@
}

/// The hits as JSON objects, in order.
pub open spec fn spec_source_jsons(rs: Seq<SearchResultView>) -> Seq<Seq<char>> {
    rs.map_values(|r: SearchResultView| spec_source_json(r))
}

/// The observable output of one retrieval: a JSON object carrying the
/// retrieved content and the structured sources.
pub open spec fn spec_research_detail(rs: Seq<SearchResultView>) -> Seq<char> {
    "{\"content\":"@ + spec_json_string(spec_first_content(rs)) + ",\"sources\":["@ + spec_join(
        spec_source_jsons(rs),
        ","@,
    ) + "]}"@
}

impl WebResearchNode {
    /// Applies one search's results to a track.
    pub fn apply_to_track(track: &mut ResearchTrack, results: &SearchResponse) -> (detail: String)
        ensures
            final(track)@ == spec_track_after_search(old(track)@, results@),
            detail@ == spec_research_detail(results@),
    {
        let rs = &results.results;
        let ghost dv = results@;
        let mut source_jsons: Vec<String> = Vec::new();
        let mut i: usize = 0;
        while i < rs.len()
            invariant
                0 <= i <= rs.len(),
                dv == rs.deep_view(),
                dv.len() == rs.len(),
                source_jsons@.len() == i,
                forall|k: int|
                    0 <= k < i ==> (#[trigger] source_jsons@[k])@ == spec_source_jsons(dv)[k],
                track@ == (TrackView {
                    sources: old(track)@.sources + spec_citations(dv).take(i as int),
                    ..old(track)@
                }),
            decreases rs.len() - i,
        {
            let source = ResearchSource::from_result(&rs[i]);
            let line = source.citation();
            proof {
                assert(dv[i as int] == rs[i as int]@);
                assert(spec_citations(dv)[i as int] == spec_citation(
                    dv[i as int].title,
                    dv[i as int].url,
                ));
                assert(line@ == spec_citations(dv)[i as int]);
            }
            track.sources.push(line);
            let mut obj = "{\"content\":".to_string();
            let content_literal = json_string_literal(rs[i].content.as_str());
            obj.append(content_literal.as_str());
            obj.append(",\"title\":");
            let title_literal = json_string_literal(rs[i].title.as_str());
            obj.append(title_literal.as_str());
            obj.append(",\"url\":");
            let url_literal = json_string_literal(rs[i].url.as_str());
            obj.append(url_literal.as_str());
            obj.append("}");
            proof {
                assert(spec_source_jsons(dv)[i as int] == spec_source_json(dv[i as int]));
                assert(obj@ == spec_source_jsons(dv)[i as int]);
            }
            source_jsons.push(obj);
            proof {
                assert(old(track)@.sources + spec_citations(dv).take(i as int + 1)
                    =~= (old(track)@.sources + spec_citations(dv).take(i as int)).push(
                    spec_citations(dv)[i as int],
                ));
                assert(track@ =~= (TrackView {
                    sources: old(track)@.sources + spec_citations(dv).take(i as int + 1),
                    ..old(track)@
                }));
            }
            i += 1;
        }
        proof {
            assert(spec_citations(dv).take(dv.len() as int) =~= spec_citations(dv));
        }
        let content = if rs.len() > 0 {
            rs[0].content.clone()
        } else {
            String::new()
        };
        proof {
            assert(content@ == spec_first_content(dv));
        }
        track.web_research_results.push(content.clone());
        proof {
            assert(track@ =~= spec_track_after_search(old(track)@, dv));
            assert forall|k: int| 0 <= k < dv.len() implies source_jsons.deep_view()[k]
                == spec_source_jsons(dv)[k] by {
                assert(source_jsons.deep_view()[k] == source_jsons@[k].deep_view());
            }
            assert(source_jsons.deep_view() =~= spec_source_jsons(dv));
        }
        let mut detail = "{\"content\":".to_string();
        let content_literal = json_string_literal(content.as_str());
        detail.append(content_literal.as_str());
        detail.append(",\"sources\":[");
        let joined = join_strings(&source_jsons, ",");
        detail.append(joined.as_str());
        detail.append("]}");
        detail
    }
}

/// The human message of the summarization prompt: the topic, the existing
/// summary when there is one, and the latest search results.
pub open spec fn spec_summarize_human_message(
    topic: Seq<char>,
    summary: Seq<char>,
    latest: Seq<char>,
) -> Seq<char> {
    if summary.len() > 0 {
        "<User Input> \n "@ + topic + " \n </User Input>\n\n<Existing Summary> \n "@ + summary
            + " \n </Existing Summary>\n\n<New Search Results> \n "@ + latest
            + " \n </New Search Results>"@
    } else {
        "<User Input> \n "@ + topic + " \n </User Input>\n\n<Search Results> \n "@ + latest
            + " \n </Search Results>"@
    }
}

/// The generation prompt of the summarizer node.
pub open spec fn spec_summarize_prompt(
    topic: Seq<char>,
    summary: Seq<char>,
    latest: Seq<char>,
) -> Seq<char> {
    SUMMARIZER_INSTRUCTIONS@ + "\n\n"@ + spec_summarize_human_message(topic, summary, latest)
}

/// The observable output of one summarization: a JSON object carrying the
/// stored summary.  Its sources list is empty: the research results the
/// summary drew on are recorded on the track, not re-read from the text.
pub open spec fn spec_summary_detail(summary: Seq<char>) -> Seq<char> {
    "{\"sources\":[],\"summary\":"@ + spec_json_string(summary) + "}"@
}

impl SummarizerNode {
    pub fn build_prompt(research_topic: &str, running_summary: &str, latest: &str) -> (r: String)
        ensures
            r@ == spec_summarize_prompt(research_topic@, running_summary@, latest@),
    {
        let mut r = SUMMARIZER_INSTRUCTIONS.to_string();
        r.append("\n\n");
        if !running_summary.is_empty() {
            r.append("<User Input> \n ");
            r.append(research_topic);
            r.append(" \n </User Input>\n\n<Existing Summary> \n ");
            r.append(running_summary);
            r.append(" \n </Existing Summary>\n\n<New Search Results> \n ");
            r.append(latest);
            r.append(" \n </New Search Results>");
        } else {
            r.append("<User Input> \n ");
            r.append(research_topic);
            r.append(" \n </User Input>\n\n<Search Results> \n ");
            r.append(latest);
            r.append(" \n </Search Results>");
        }
        r
    }

    /// Stores the model's summary on the track, with any
    /// `<think>...</think>` diagnostic spans stripped first.
    pub fn apply_to_track(track: &mut ResearchTrack, response: String) -> (detail: String)
        ensures
            final(track)@ == (TrackView {
                running_summary: spec_strip_think(response@),
                ..old(track)@
            }),
            detail@ == spec_summary_detail(spec_strip_think(response@)),
    {
        let cleaned = strip_think_spans(response);
        track.running_summary = cleaned.clone();
        let mut detail = "{\"sources\":[],\"summary\":".to_string();
        let summary_literal = json_string_literal(cleaned.as_str());
        detail.append(summary_literal.as_str());
        detail.append("}");
        detail
    }
}

/// The generation prompt of the reflection node.
pub open spec fn spec_reflection_prompt(topic: Seq<char>, summary: Seq<char>) -> Seq<char> {
    spec_reflection_instructions(topic) + "\n\n"@
        + "Identify a knowledge gap and generate a follow-up web search query based on our existing knowledge: "@
        + summary
}

/// The follow-up query selected from a model response: the response's
/// `follow_up_query` field, or a fixed question about the topic when the
/// response does not parse as JSON or has no such field.
pub open spec fn spec_follow_up_query(response: Seq<char>, topic: Seq<char>) -> Seq<char> {
    match follow_up_field(response) {
        Some(q) => q,
        None => "Tell me more about "@ + topic,
    }
}

impl ReflectionNode {
    pub fn build_prompt(research_topic: &str, running_summary: &str) -> (r: String)
        ensures
            r@ == spec_reflection_prompt(research_topic@, running_summary@),
    {
        let mut r = format_reflection_instructions(research_topic);
        r.append("\n\n");
        r.append(
            "Identify a knowledge gap and generate a follow-up web search query based on our existing knowledge: ",
        );
        r.append(running_summary);
        r
    }

    /// Selects the next query from the model's response, falling back to a
    /// fixed question about the topic on malformed output.  The caller, not
    /// this node, applies the result to the track.
    pub fn select_follow_up(response: &str, research_topic: &str) -> (r: String)
        ensures
            r@ == spec_follow_up_query(response@, research_topic@),
    {
        match parse_follow_up_field(response) {
            Some(q) => q,
            None => {
                let mut r = "Tell me more about ".to_string();
                r.append(research_topic);
                r
            },
        }
    }
}

/// The single-track final report: the one track's summary and its joined
/// sources under fixed headings.
pub open spec fn spec_single_report(t: TrackView) -> Seq<char> {
    "### Summary\n"@ + t.running_summary + "\n\n### Sources:\n"@ + spec_join(t.sources, "\n"@)
}

/// The debate final report: both tracks' summaries and joined sources
/// under labeled headings.
pub open spec fn spec_debate_report(one: TrackView, two: TrackView) -> Seq<char> {
    "### Track One\n"@ + one.running_summary + "\n\n### Track One Sources:\n"@ + spec_join(
        one.sources,
        "\n"@,
    ) + "\n\n### Track Two\n"@ + two.running_summary + "\n\n### Track Two Sources:\n"@ + spec_join(
        two.sources,
        "\n"@,
    )
}

impl FinalizerNode {
    pub fn single_report(track: &ResearchTrack) -> (r: String)
        ensures
            r@ == spec_single_report(track@),
    {
        let mut r = "### Summary\n".to_string();
        r.append(track.running_summary.as_str());
        r.append("\n\n### Sources:\n");
        let joined = join_strings(&track.sources, "\n");
        r.append(joined.as_str());
        r
    }

    pub fn debate_report(one: &ResearchTrack, two: &ResearchTrack) -> (r: String)
        ensures
            r@ == spec_debate_report(one@, two@),
    {
        let mut r = "### Track One\n".to_string();
        r.append(one.running_summary.as_str());
        r.append("\n\n### Track One Sources:\n");
        let joined_one = join_strings(&one.sources, "\n");
        r.append(joined_one.as_str());
        r.append("\n\n### Track Two\n");
        r.append(two.running_summary.as_str());
        r.append("\n\n### Track Two Sources:\n");
        let joined_two = join_strings(&two.sources, "\n");
        r.append(joined_two.as_str());
        r
    }
}

// ---------------------------------------------------------------------------
// Gateway protocol
// ---------------------------------------------------------------------------

/// What an outstanding gateway call came back with: generated text, search
/// results, or a failure, which is fatal for the current request.
pub enum GatewayReply {
    Text(String),
    Search(SearchResponse),
    Failure(String),
}

#[verifier::ext_equal]
pub enum ReplyView {
    Text(Seq<char>),
    Search(Seq<SearchResultView>),
    Failure(Seq<char>),
}

impl View for GatewayReply {
    type V = ReplyView;

    open spec fn view(&self) -> ReplyView {
        match self {
            GatewayReply::Text(s) => ReplyView::Text(s@),
            GatewayReply::Search(r) => ReplyView::Search(r@),
            GatewayReply::Failure(s) => ReplyView::Failure(s@),
        }
    }
}

/// What the orchestrator asks the caller to do next: send a prompt to the
/// generation gateway, or run a web search.  The reply is handed back to
/// the machine tagged with the same track.
pub enum Action {
    Generate { prompt: String, track: Option<TrackId> },
    Search { query: String, loop_index: usize, track: TrackId },
}

#[verifier::ext_equal]
pub enum ActionView {
    Generate { prompt: Seq<char>, track: Option<TrackId> },
    Search { query: Seq<char>, loop_index: nat, track: TrackId },
}

impl View for Action {
    type V = ActionView;

    open spec fn view(&self) -> ActionView {
        match self {
            Action::Generate { prompt, track } => ActionView::Generate {
                prompt: prompt@,
                track: *track,
            },
            Action::Search { query, loop_index, track } => ActionView::Search {
                query: query@,
                loop_index: *loop_index as nat,
                track: *track,
            },
        }
    }
}

/// The textual name of a track, as used in messages and the state API.
pub open spec fn spec_track_name(id: TrackId) -> Seq<char> {
    match id {
        TrackId::One => "one"@,
        TrackId::Two => "two"@,
    }
}

pub fn track_name(id: TrackId) -> (r: &'static str)
    ensures
        r@ == spec_track_name(id),
{
    match id {
        TrackId::One => "one",
        TrackId::Two => "two",
    }
}

/// The message of a loop-boundary event: the 1-based loop index and the
/// configured maximum.
pub open spec fn spec_loop_message(index: nat, max: nat, id: TrackId) -> Seq<char> {
    "Starting research loop "@ + spec_dec_str(index) + " of "@ + spec_dec_str(max)
        + " for track "@ + spec_track_name(id)
}

fn make_loop_message(index: u64, max: u64, id: TrackId) -> (r: String)
    ensures
        r@ == spec_loop_message(index as nat, max as nat, id),
{
    let mut r = "Starting research loop ".to_string();
    let index_text = u64_to_string(index);
    r.append(index_text.as_str());
    r.append(" of ");
    let max_text = u64_to_string(max);
    r.append(max_text.as_str());
    r.append(" for track ");
    r.append(track_name(id));
    r
}

/// The message of the error event a failed or mismatched gateway reply
/// produces.
pub open spec fn spec_reply_error_message(reply: ReplyView) -> Seq<char> {
    match reply {
        ReplyView::Failure(m) => "Error: "@ + m,
        _ => "Unexpected gateway reply"@,
    }
}

fn make_error_message(reply: &GatewayReply) -> (r: String)
    ensures
        r@ == spec_reply_error_message(reply@),
{
    match reply {
        GatewayReply::Failure(m) => {
            let mut r = "Error: ".to_string();
            r.append(m.as_str());
            r
        },
        _ => "Unexpected gateway reply".to_string(),
    }
}

// ---------------------------------------------------------------------------
// The per-track iteration state machine
// ---------------------------------------------------------------------------

/// Where a track stands: which gateway reply it is waiting for, or that it
/// has run all its loops (`Done`), or that a gateway call failed (`Failed`).
#[derive(Clone, Copy, PartialEq, Eq, Structural, Debug)]
pub enum RunnerPhase {
    AwaitSearch,
    AwaitSummary,
    AwaitReflection,
    Done,
    Failed,
}

/// Drives one track through its retrieval, summarization and reflection
/// loops.  The track itself lives in the session state; the runner holds
/// the loop bookkeeping: how many of each gateway call completed.
pub struct TrackRunner {
    pub id: TrackId,
    pub max_loops: usize,
    pub searches: usize,
    pub summaries: usize,
    pub reflections: usize,
    pub phase: RunnerPhase,
}

/// A runner together with its track, the unit the machine's mathematics
/// speaks about.
#[verifier::ext_equal]
pub struct RunnerView {
    pub id: TrackId,
    pub max_loops: nat,
    pub searches: nat,
    pub summaries: nat,
    pub reflections: nat,
    pub phase: RunnerPhase,
    pub track: TrackView,
}

/// One machine step's outcome: the next bundled state and the next gateway
/// call to make, if any.
#[verifier::ext_equal]
pub struct RunnerStep {
    pub state: RunnerView,
    pub action: Option<ActionView>,
}

impl TrackRunner {
    /// The runner bundled with its track.
    pub open spec fn view_with(self, t: TrackView) -> RunnerView {
        RunnerView {
            id: self.id,
            max_loops: self.max_loops as nat,
            searches: self.searches as nat,
            summaries: self.summaries as nat,
            reflections: self.reflections as nat,
            phase: self.phase,
            track: t,
        }
    }
}

/// A freshly started runner: no call completed; with a zero loop budget it
/// is done at once, else it awaits its first search.
pub open spec fn spec_runner_start(id: TrackId, max_loops: nat, t: TrackView) -> RunnerView {
    RunnerView {
        id,
        max_loops,
        searches: 0,
        summaries: 0,
        reflections: 0,
        phase: if max_loops == 0 {
            RunnerPhase::Done
        } else {
            RunnerPhase::AwaitSearch
        },
        track: t,
    }
}

/// The machine's bookkeeping invariant: the completed-call counters agree
/// with the track's loop counter and the phase, the retrieval record is
/// aligned with the completed searches — its length can exceed the loop
/// counter only transiently, between a retrieval and its summarization —
/// and a done runner has run exactly its budget of loops.
pub open spec fn spec_runner_inv(r: RunnerView) -> bool {
    match r.phase {
        RunnerPhase::AwaitSearch => {
            &&& r.track.research_loop_count < r.max_loops
            &&& r.searches == r.track.research_loop_count
            &&& r.summaries == r.track.research_loop_count
            &&& r.reflections == r.track.research_loop_count
            &&& r.track.web_research_results.len() == r.searches
        },
        RunnerPhase::AwaitSummary => {
            &&& r.track.research_loop_count < r.max_loops
            &&& r.searches == r.track.research_loop_count + 1
            &&& r.summaries == r.track.research_loop_count
            &&& r.reflections == r.track.research_loop_count
            &&& r.track.web_research_results.len() == r.searches
        },
        RunnerPhase::AwaitReflection => {
            &&& 1 <= r.track.research_loop_count < r.max_loops
            &&& r.searches == r.track.research_loop_count
            &&& r.summaries == r.track.research_loop_count
            &&& r.reflections == r.track.research_loop_count - 1
            &&& r.track.web_research_results.len() == r.searches
        },
        RunnerPhase::Done => {
            &&& r.track.research_loop_count == r.max_loops
            &&& r.searches == r.max_loops
            &&& r.summaries == r.max_loops
            &&& r.reflections == (if r.max_loops == 0 {
                0nat
            } else {
                (r.max_loops - 1) as nat
            })
            &&& r.track.web_research_results.len() == r.searches
        },
        RunnerPhase::Failed => true,
    }
}

/// One step of the track machine: what consuming a gateway reply does to
/// the bundled state and which call comes next.  A failure, or a reply of
/// the wrong kind for the phase, fails the track; a done or failed track
/// ignores further replies.
pub open spec fn spec_runner_step(r: RunnerView, topic: Seq<char>, reply: ReplyView) -> RunnerStep {
    match r.phase {
        RunnerPhase::AwaitSearch => match reply {
            ReplyView::Search(results) => {
                let t = spec_track_after_search(r.track, results);
                RunnerStep {
                    state: RunnerView {
                        searches: r.searches + 1,
                        phase: RunnerPhase::AwaitSummary,
                        track: t,
                        ..r
                    },
                    action: Some(
                        ActionView::Generate {
                            prompt: spec_summarize_prompt(
                                topic,
                                t.running_summary,
                                t.web_research_results.last(),
                            ),
                            track: Some(r.id),
                        },
                    ),
                }
            },
            _ => RunnerStep {
                state: RunnerView { phase: RunnerPhase::Failed, ..r },
                action: None,
            },
        },
        RunnerPhase::AwaitSummary => match reply {
            ReplyView::Text(resp) => {
                let t = TrackView {
                    running_summary: spec_strip_think(resp),
                    research_loop_count: r.track.research_loop_count + 1,
                    ..r.track
                };
                if t.research_loop_count < r.max_loops {
                    RunnerStep {
                        state: RunnerView {
                            summaries: r.summaries + 1,
                            phase: RunnerPhase::AwaitReflection,
                            track: t,
                            ..r
                        },
                        action: Some(
                            ActionView::Generate {
                                prompt: spec_reflection_prompt(topic, t.running_summary),
                                track: Some(r.id),
                            },
                        ),
                    }
                } else {
                    RunnerStep {
                        state: RunnerView {
                            summaries: r.summaries + 1,
                            phase: RunnerPhase::Done,
                            track: t,
                            ..r
                        },
                        action: None,
                    }
                }
            },
            _ => RunnerStep {
                state: RunnerView { phase: RunnerPhase::Failed, ..r },
                action: None,
            },
        },
        RunnerPhase::AwaitReflection => match reply {
            ReplyView::Text(resp) => {
                let q = spec_follow_up_query(resp, topic);
                let t = TrackView { search_query: q, ..r.track };
                RunnerStep {
                    state: RunnerView {
                        reflections: r.reflections + 1,
                        phase: RunnerPhase::AwaitSearch,
                        track: t,
                        ..r
                    },
                    action: Some(
                        ActionView::Search {
                            query: q,
                            loop_index: t.research_loop_count,
                            track: r.id,
                        },
                    ),
                }
            },
            _ => RunnerStep {
                state: RunnerView { phase: RunnerPhase::Failed, ..r },
                action: None,
            },
        },
        RunnerPhase::Done | RunnerPhase::Failed => RunnerStep { state: r, action: None },
    }
}

/// Stepping preserves the bookkeeping invariant, and never changes the
/// track's identity or its loop budget.
pub proof fn lemma_runner_step_preserves_inv(r: RunnerView, topic: Seq<char>, reply: ReplyView)
    requires
        spec_runner_inv(r),
    ensures
        spec_runner_inv(spec_runner_step(r, topic, reply).state),
        spec_runner_step(r, topic, reply).state.id == r.id,
        spec_runner_step(r, topic, reply).state.max_loops == r.max_loops,
{
}

/// A track's citation and retrieval records are append-only: no step of
/// the machine ever rewrites or drops what an earlier loop recorded.
pub proof fn lemma_runner_step_records_append_only(
    r: RunnerView,
    topic: Seq<char>,
    reply: ReplyView,
)
    ensures
        ({
            let t = spec_runner_step(r, topic, reply).state.track;
            &&& t.sources.len() >= r.track.sources.len()
            &&& t.sources.subrange(0, r.track.sources.len() as int) == r.track.sources
            &&& t.web_research_results.len() >= r.track.web_research_results.len()
            &&& t.web_research_results.subrange(0, r.track.web_research_results.len() as int)
                == r.track.web_research_results
        }),
{
    let t = spec_runner_step(r, topic, reply).state.track;
    assert(t.sources.subrange(0, r.track.sources.len() as int) =~= r.track.sources);
    assert(t.web_research_results.subrange(0, r.track.web_research_results.len() as int)
        =~= r.track.web_research_results);
}

impl TrackRunner {
    /// Starts a track's loop machine.  The track must be fresh; its query
    /// has been seeded by the orchestrator.  Returns the runner, the first
    /// search to run (none when the loop budget is zero), and the loop
    /// boundary events.
    pub fn start(id: TrackId, max_loops: usize, state: &SummaryState, now: u64) -> (r: (
        TrackRunner,
        Option<Action>,
        Vec<ProgressEvent>,
    ))
        requires
            state@.track(id).research_loop_count == 0,
            state@.track(id).web_research_results.len() == 0,
        ensures
            r.0.view_with(state@.track(id)) == spec_runner_start(
                id,
                max_loops as nat,
                state@.track(id),
            ),
            spec_runner_inv(r.0.view_with(state@.track(id))),
            max_loops == 0 ==> r.1 is None && r.2@.len() == 0,
            max_loops > 0 ==> {
                &&& r.1 matches Some(a) && a@ == (ActionView::Search {
                    query: state@.track(id).search_query,
                    loop_index: 0,
                    track: id,
                })
                &&& r.2@.len() == 2
                &&& is_event(
                    r.2@[0],
                    Phase::Loop,
                    spec_loop_message(1, max_loops as nat, id),
                    None,
                    Some(id),
                    now,
                )
                &&& is_event(
                    r.2@[1],
                    Phase::Research,
                    "Starting web research..."@,
                    None,
                    Some(id),
                    now,
                )
            },
    {
        let runner = TrackRunner {
            id,
            max_loops,
            searches: 0,
            summaries: 0,
            reflections: 0,
            phase: if max_loops == 0 {
                RunnerPhase::Done
            } else {
                RunnerPhase::AwaitSearch
            },
        };
        if max_loops == 0 {
            (runner, None, Vec::new())
        } else {
            let query = match id {
                TrackId::One => state.track_one.search_query.clone(),
                TrackId::Two => state.track_two.search_query.clone(),
            };
            let mut evs: Vec<ProgressEvent> = Vec::new();
            evs.push(
                ProgressEvent::new(
                    Phase::Loop,
                    make_loop_message(1, max_loops as u64, id),
                    None,
                    Some(id),
                    now,
                ),
            );
            evs.push(
                ProgressEvent::new(
                    Phase::Research,
                    "Starting web research...".to_string(),
                    None,
                    Some(id),
                    now,
                ),
            );
            (runner, Some(Action::Search { query, loop_index: 0, track: id }), evs)
        }
    }

    /// Consumes one gateway reply for this track and says what to do next.
    /// Everything of the session but this runner's own track is left
    /// untouched: debate-mode tracks never read or write each other's
    /// state.
    pub fn step(&mut self, state: &mut SummaryState, reply: GatewayReply, now: u64) -> (r: (
        Option<Action>,
        Vec<ProgressEvent>,
    ))
        requires
            spec_runner_inv(old(self).view_with(old(state)@.track(old(self).id))),
        ensures
            final(self).id == old(self).id,
            ({
                let pre = old(self).view_with(old(state)@.track(old(self).id));
                let post = spec_runner_step(pre, old(state)@.research_topic, reply@);
                &&& final(self).view_with(final(state)@.track(old(self).id)) == post.state
                &&& match (r.0, post.action) {
                    (Some(a), Some(av)) => a@ == av,
                    (None, None) => true,
                    _ => false,
                }
                &&& spec_runner_inv(final(self).view_with(final(state)@.track(old(self).id)))
            }),
            final(state)@.research_topic == old(state)@.research_topic,
            final(state)@.final_summary == old(state)@.final_summary,
            final(state)@.debate_perspectives == old(state)@.debate_perspectives,
            old(self).id == TrackId::One ==> final(state)@.track_two == old(state)@.track_two,
            old(self).id == TrackId::Two ==> final(state)@.track_one == old(state)@.track_one,
            ({
                let pre = old(self).view_with(old(state)@.track(old(self).id));
                &&& (pre.phase == RunnerPhase::AwaitSearch ==> (reply@ matches ReplyView::Search(
                    results,
                ) ==> {
                    &&& r.1@.len() == 2
                    &&& is_event(
                        r.1@[0],
                        Phase::Research,
                        "Completed web research"@,
                        Some(spec_research_detail(results)),
                        Some(pre.id),
                        now,
                    )
                    &&& is_event(
                        r.1@[1],
                        Phase::Summary,
                        "Starting summarization..."@,
                        None,
                        Some(pre.id),
                        now,
                    )
                }))
                &&& (pre.phase == RunnerPhase::AwaitSummary ==> (reply@ matches ReplyView::Text(
                    resp,
                ) ==> {
                    &&& r.1@.len() == (if pre.track.research_loop_count + 1 < pre.max_loops {
                        2int
                    } else {
                        1int
                    })
                    &&& is_event(
                        r.1@[0],
                        Phase::Summary,
                        "Completed summarization"@,
                        Some(spec_summary_detail(spec_strip_think(resp))),
                        Some(pre.id),
                        now,
                    )
                    &&& (pre.track.research_loop_count + 1 < pre.max_loops ==> is_event(
                        r.1@[1],
                        Phase::Reflection,
                        "Starting reflection..."@,
                        None,
                        Some(pre.id),
                        now,
                    ))
                }))
                &&& (pre.phase == RunnerPhase::AwaitReflection ==> (reply@ matches ReplyView::Text(
                    resp,
                ) ==> {
                    &&& r.1@.len() == 3
                    &&& is_event(
                        r.1@[0],
                        Phase::Reflection,
                        "Completed reflection"@,
                        Some(spec_follow_up_query(resp, old(state)@.research_topic)),
                        Some(pre.id),
                        now,
                    )
                    &&& is_event(
                        r.1@[1],
                        Phase::Loop,
                        spec_loop_message(
                            pre.track.research_loop_count + 1,
                            pre.max_loops,
                            pre.id,
                        ),
                        None,
                        Some(pre.id),
                        now,
                    )
                    &&& is_event(
                        r.1@[2],
                        Phase::Research,
                        "Starting web research..."@,
                        None,
                        Some(pre.id),
                        now,
                    )
                }))
                &&& (spec_runner_step(pre, old(state)@.research_topic, reply@).state.phase
                    == RunnerPhase::Failed && pre.phase != RunnerPhase::Failed ==> {
                    &&& r.1@.len() == 1
                    &&& is_event(
                        r.1@[0],
                        Phase::Error,
                        spec_reply_error_message(reply@),
                        None,
                        Some(pre.id),
                        now,
                    )
                })
                &&& (pre.phase == RunnerPhase::Done || pre.phase == RunnerPhase::Failed
                    ==> r.1@.len() == 0)
            }),
    {
        let ghost pre = old(self).view_with(old(state)@.track(old(self).id));
        let topic = state.research_topic.clone();
        match self.phase {
            RunnerPhase::AwaitSearch => match reply {
                GatewayReply::Search(resp) => {
                    let detail = match self.id {
                        TrackId::One => WebResearchNode::apply_to_track(
                            &mut state.track_one,
                            &resp,
                        ),
                        TrackId::Two => WebResearchNode::apply_to_track(
                            &mut state.track_two,
                            &resp,
                        ),
                    };
                    self.searches = self.searches + 1;
                    self.phase = RunnerPhase::AwaitSummary;
                    let track = match self.id {
                        TrackId::One => &state.track_one,
                        TrackId::Two => &state.track_two,
                    };
                    let n = track.web_research_results.len();
                    let prompt = SummarizerNode::build_prompt(
                        topic.as_str(),
                        track.running_summary.as_str(),
                        track.web_research_results[n - 1].as_str(),
                    );
                    let mut evs: Vec<ProgressEvent> = Vec::new();
                    evs.push(
                        ProgressEvent::new(
                            Phase::Research,
                            "Completed web research".to_string(),
                            Some(detail),
                            Some(self.id),
                            now,
                        ),
                    );
                    evs.push(
                        ProgressEvent::new(
                            Phase::Summary,
                            "Starting summarization...".to_string(),
                            None,
                            Some(self.id),
                            now,
                        ),
                    );
                    proof {
                        let post = spec_runner_step(pre, old(state)@.research_topic, reply@);
                        assert(self.view_with(state@.track(pre.id)) =~= post.state);
                    }
                    (Some(Action::Generate { prompt, track: Some(self.id) }), evs)
                },
                other => {
                    self.phase = RunnerPhase::Failed;
                    let msg = make_error_message(&other);
                    let mut evs: Vec<ProgressEvent> = Vec::new();
                    evs.push(ProgressEvent::new(Phase::Error, msg, None, Some(self.id), now));
                    proof {
                        let post = spec_runner_step(pre, old(state)@.research_topic, other@);
                        assert(self.view_with(state@.track(pre.id)) =~= post.state);
                    }
                    (None, evs)
                },
            },
            RunnerPhase::AwaitSummary => match reply {
                GatewayReply::Text(resp) => {
                    let detail = match self.id {
                        TrackId::One => SummarizerNode::apply_to_track(&mut state.track_one, resp),
                        TrackId::Two => SummarizerNode::apply_to_track(&mut state.track_two, resp),
                    };
                    match self.id {
                        TrackId::One => {
                            state.track_one.research_loop_count =
                                state.track_one.research_loop_count + 1;
                        },
                        TrackId::Two => {
                            state.track_two.research_loop_count =
                                state.track_two.research_loop_count + 1;
                        },
                    }
                    self.summaries = self.summaries + 1;
                    let track = match self.id {
                        TrackId::One => &state.track_one,
                        TrackId::Two => &state.track_two,
                    };
                    let count = track.research_loop_count;
                    let mut evs: Vec<ProgressEvent> = Vec::new();
                    evs.push(
                        ProgressEvent::new(
                            Phase::Summary,
                            "Completed summarization".to_string(),
                            Some(detail),
                            Some(self.id),
                            now,
                        ),
                    );
                    if count < self.max_loops {
                        self.phase = RunnerPhase::AwaitReflection;
                        let prompt = ReflectionNode::build_prompt(
                            topic.as_str(),
                            track.running_summary.as_str(),
                        );
                        evs.push(
                            ProgressEvent::new(
                                Phase::Reflection,
                                "Starting reflection...".to_string(),
                                None,
                                Some(self.id),
                                now,
                            ),
                        );
                        proof {
                            let post = spec_runner_step(pre, old(state)@.research_topic, reply@);
                            assert(self.view_with(state@.track(pre.id)) =~= post.state);
                        }
                        (Some(Action::Generate { prompt, track: Some(self.id) }), evs)
                    } else {
                        self.phase = RunnerPhase::Done;
                        proof {
                            let post = spec_runner_step(pre, old(state)@.research_topic, reply@);
                            assert(self.view_with(state@.track(pre.id)) =~= post.state);
                        }
                        (None, evs)
                    }
                },
                other => {
                    self.phase = RunnerPhase::Failed;
                    let msg = make_error_message(&other);
                    let mut evs: Vec<ProgressEvent> = Vec::new();
                    evs.push(ProgressEvent::new(Phase::Error, msg, None, Some(self.id), now));
                    proof {
                        let post = spec_runner_step(pre, old(state)@.research_topic, other@);
                        assert(self.view_with(state@.track(pre.id)) =~= post.state);
                    }
                    (None, evs)
                },
            },
            RunnerPhase::AwaitReflection => match reply {
                GatewayReply::Text(resp) => {
                    let q = ReflectionNode::select_follow_up(resp.as_str(), topic.as_str());
                    match self.id {
                        TrackId::One => {
                            state.track_one.search_query = q.clone();
                        },
                        TrackId::Two => {
                            state.track_two.search_query = q.clone();
                        },
                    }
                    self.reflections = self.reflections + 1;
                    self.phase = RunnerPhase::AwaitSearch;
                    let count = match self.id {
                        TrackId::One => state.track_one.research_loop_count,
                        TrackId::Two => state.track_two.research_loop_count,
                    };
                    let mut evs: Vec<ProgressEvent> = Vec::new();
                    evs.push(
                        ProgressEvent::new(
                            Phase::Reflection,
                            "Completed reflection".to_string(),
                            Some(q.clone()),
                            Some(self.id),
                            now,
                        ),
                    );
                    evs.push(
                        ProgressEvent::new(
                            Phase::Loop,
                            make_loop_message((count as u64) + 1, self.max_loops as u64, self.id),
                            None,
                            Some(self.id),
                            now,
                        ),
                    );
                    evs.push(
                        ProgressEvent::new(
                            Phase::Research,
                            "Starting web research...".to_string(),
                            None,
                            Some(self.id),
                            now,
                        ),
                    );
                    proof {
                        let post = spec_runner_step(pre, old(state)@.research_topic, reply@);
                        assert(self.view_with(state@.track(pre.id)) =~= post.state);
                    }
                    (Some(Action::Search { query: q, loop_index: count, track: self.id }), evs)
                },
                other => {
                    self.phase = RunnerPhase::Failed;
                    let msg = make_error_message(&other);
                    let mut evs: Vec<ProgressEvent> = Vec::new();
                    evs.push(ProgressEvent::new(Phase::Error, msg, None, Some(self.id), now));
                    proof {
                        let post = spec_runner_step(pre, old(state)@.research_topic, other@);
                        assert(self.view_with(state@.track(pre.id)) =~= post.state);
                    }
                    (None, evs)
                },
            },
            RunnerPhase::Done | RunnerPhase::Failed => (None, Vec::new()),
        }
    }
}

// ---------------------------------------------------------------------------
// The session orchestrator
// ---------------------------------------------------------------------------

/// Where a session stands: bootstrapping its first query or its
/// perspectives, running its track loops, or terminated.
#[derive(Clone, Copy, PartialEq, Eq, Structural, Debug)]
pub enum OrchestratorPhase {
    AwaitInitialQuery,
    AwaitPerspectives,
    Running,
    Complete,
    Failed,
}

/// The loop budget a configured value selects: non-positive values run
/// zero loops and proceed straight to an empty report.
pub open spec fn spec_loop_budget(m: i32) -> nat {
    if m <= 0 {
        0nat
    } else {
        m as nat
    }
}

/// Drives one research request: seeds the track queries (from the query
/// node in single-track mode, from the generated stances in debate mode),
/// runs the per-track loop machines, and finalizes the report.  Gateway
/// calls are returned as actions; the caller performs them and hands the
/// replies back.
pub struct Orchestrator {
    pub state: SummaryState,
    pub mode: ResearchMode,
    pub max_loops: usize,
    pub phase: OrchestratorPhase,
    pub runner_one: TrackRunner,
    pub runner_two: TrackRunner,
}

impl Orchestrator {
    /// The orchestrator's own invariant: runners belong to their tracks,
    /// keep their bookkeeping invariant while running, and a complete
    /// session has its final summary set.
    pub open spec fn wf(self) -> bool {
        &&& self.runner_one.id == TrackId::One
        &&& self.runner_two.id == TrackId::Two
        &&& spec_runner_inv(self.runner_one.view_with(self.state@.track_one))
        &&& spec_runner_inv(self.runner_two.view_with(self.state@.track_two))
        &&& (self.phase == OrchestratorPhase::AwaitInitialQuery || self.phase
            == OrchestratorPhase::AwaitPerspectives ==> self.state@.track_one.research_loop_count
            == 0 && self.state@.track_two.research_loop_count == 0
            && self.state@.track_one.web_research_results.len() == 0
            && self.state@.track_two.web_research_results.len() == 0)
        &&& (self.phase == OrchestratorPhase::Complete ==> self.state@.final_summary is Some)
    }

    /// Opens a session on a topic.  In single-track mode the first action
    /// asks the generation gateway for the initial query; in debate mode it
    /// asks for the two perspectives, whose failure is fatal.
    pub fn start(config: &Configuration, input: SummaryStateInput, now: u64) -> (r: (
        Orchestrator,
        Action,
        Vec<ProgressEvent>,
    ))
        ensures
            r.0.wf(),
            r.0.mode == config.research_mode,
            r.0.max_loops as nat == spec_loop_budget(config.max_web_research_loops),
            r.0.state@.research_topic == input.research_topic@,
            r.0.state@.track_one == TrackView::empty(),
            r.0.state@.track_two == TrackView::empty(),
            r.0.state@.final_summary is None,
            r.0.state@.debate_perspectives is None,
            config.research_mode == ResearchMode::Local ==> {
                &&& r.0.phase == OrchestratorPhase::AwaitInitialQuery
                &&& r.1@ == (ActionView::Generate {
                    prompt: spec_query_prompt(input.research_topic@),
                    track: None,
                })
                &&& r.2@.len() == 2
                &&& is_event(
                    r.2@[0],
                    Phase::Init,
                    "Starting research on topic: "@ + input.research_topic@,
                    None,
                    None,
                    now,
                )
                &&& is_event(
                    r.2@[1],
                    Phase::Query,
                    "Starting query generation..."@,
                    None,
                    Some(TrackId::One),
                    now,
                )
            },
            config.research_mode == ResearchMode::Remote ==> {
                &&& r.0.phase == OrchestratorPhase::AwaitPerspectives
                &&& r.1@ == (ActionView::Generate {
                    prompt: spec_debate_prompt(input.research_topic@),
                    track: None,
                })
                &&& r.2@.len() == 1
                &&& is_event(
                    r.2@[0],
                    Phase::Init,
                    "Generating debate perspectives..."@,
                    None,
                    None,
                    now,
                )
            },
    {
        let max_loops: usize = if config.max_web_research_loops <= 0 {
            0
        } else {
            config.max_web_research_loops as usize
        };
        let state = SummaryState::with_research_topic(input.research_topic);
        let topic = state.research_topic.clone();
        let placeholder_one = TrackRunner {
            id: TrackId::One,
            max_loops,
            searches: 0,
            summaries: 0,
            reflections: 0,
            phase: RunnerPhase::Failed,
        };
        let placeholder_two = TrackRunner {
            id: TrackId::Two,
            max_loops,
            searches: 0,
            summaries: 0,
            reflections: 0,
            phase: RunnerPhase::Failed,
        };
        match config.research_mode {
            ResearchMode::Local => {
                let prompt = QueryGeneratorNode::build_prompt(topic.as_str());
                let mut message = "Starting research on topic: ".to_string();
                message.append(topic.as_str());
                let mut evs: Vec<ProgressEvent> = Vec::new();
                evs.push(ProgressEvent::new(Phase::Init, message, None, None, now));
                evs.push(
                    ProgressEvent::new(
                        Phase::Query,
                        "Starting query generation...".to_string(),
                        None,
                        Some(TrackId::One),
                        now,
                    ),
                );
                let orch = Orchestrator {
                    state,
                    mode: ResearchMode::Local,
                    max_loops,
                    phase: OrchestratorPhase::AwaitInitialQuery,
                    runner_one: placeholder_one,
                    runner_two: placeholder_two,
                };
                (orch, Action::Generate { prompt, track: None }, evs)
            },
            ResearchMode::Remote => {
                let prompt = format_debate_prompt(topic.as_str());
                let mut evs: Vec<ProgressEvent> = Vec::new();
                evs.push(
                    ProgressEvent::new(
                        Phase::Init,
                        "Generating debate perspectives...".to_string(),
                        None,
                        None,
                        now,
                    ),
                );
                let orch = Orchestrator {
                    state,
                    mode: ResearchMode::Remote,
                    max_loops,
                    phase: OrchestratorPhase::AwaitPerspectives,
                    runner_one: placeholder_one,
                    runner_two: placeholder_two,
                };
                (orch, Action::Generate { prompt, track: None }, evs)
            },
        }
    }

    /// Finalizes a single-track session: wraps the one track's summary and
    /// sources into the report, the session's terminal write.
    fn finalize_single(&mut self, now: u64) -> (evs: Vec<ProgressEvent>)
        ensures
            final(self).state@ == (SummaryStateView {
                final_summary: Some(spec_single_report(old(self).state@.track_one)),
                ..old(self).state@
            }),
            final(self).phase == OrchestratorPhase::Complete,
            final(self).mode == old(self).mode,
            final(self).max_loops == old(self).max_loops,
            final(self).runner_one == old(self).runner_one,
            final(self).runner_two == old(self).runner_two,
            evs@.len() == 3,
            is_event(
                evs@[0],
                Phase::Final,
                "Starting final summary compilation..."@,
                None,
                None,
                now,
            ),
            is_event(
                evs@[1],
                Phase::Final,
                "Completed final summary compilation"@,
                None,
                None,
                now,
            ),
            is_event(
                evs@[2],
                Phase::Complete,
                spec_single_report(old(self).state@.track_one),
                None,
                None,
                now,
            ),
    {
        let report = FinalizerNode::single_report(&self.state.track_one);
        let mut evs: Vec<ProgressEvent> = Vec::new();
        evs.push(
            ProgressEvent::new(
                Phase::Final,
                "Starting final summary compilation...".to_string(),
                None,
                None,
                now,
            ),
        );
        evs.push(
            ProgressEvent::new(
                Phase::Final,
                "Completed final summary compilation".to_string(),
                None,
                None,
                now,
            ),
        );
        evs.push(ProgressEvent::new(Phase::Complete, report.clone(), None, None, now));
        self.state.final_summary = Some(report);
        self.phase = OrchestratorPhase::Complete;
        (evs)
    }

    /// Finalizes a debate session: both tracks' summaries and sources under
    /// labeled headings, read together here and nowhere else.
    fn finalize_debate(&mut self, now: u64) -> (evs: Vec<ProgressEvent>)
        ensures
            final(self).state@ == (SummaryStateView {
                final_summary: Some(
                    spec_debate_report(old(self).state@.track_one, old(self).state@.track_two),
                ),
                ..old(self).state@
            }),
            final(self).phase == OrchestratorPhase::Complete,
            final(self).mode == old(self).mode,
            final(self).max_loops == old(self).max_loops,
            final(self).runner_one == old(self).runner_one,
            final(self).runner_two == old(self).runner_two,
            evs@.len() == 3,
            is_event(
                evs@[0],
                Phase::Final,
                "Starting final summary compilation..."@,
                None,
                None,
                now,
            ),
            is_event(
                evs@[1],
                Phase::Final,
                "Completed final summary compilation"@,
                None,
                None,
                now,
            ),
            is_event(
                evs@[2],
                Phase::Complete,
                spec_debate_report(old(self).state@.track_one, old(self).state@.track_two),
                None,
                None,
                now,
            ),
    {
        let report = FinalizerNode::debate_report(&self.state.track_one, &self.state.track_two);
        let mut evs: Vec<ProgressEvent> = Vec::new();
        evs.push(
            ProgressEvent::new(
                Phase::Final,
                "Starting final summary compilation...".to_string(),
                None,
                None,
                now,
            ),
        );
        evs.push(
            ProgressEvent::new(
                Phase::Final,
                "Completed final summary compilation".to_string(),
                None,
                None,
                now,
            ),
        );
        evs.push(ProgressEvent::new(Phase::Complete, report.clone(), None, None, now));
        self.state.final_summary = Some(report);
        self.phase = OrchestratorPhase::Complete;
        (evs)
    }

    /// Consumes one gateway reply, routed to the track whose action it
    /// answers (none during bootstrap), and returns the next actions to
    /// perform and the progress events to publish.
    pub fn on_reply(&mut self, track: Option<TrackId>, reply: GatewayReply, now: u64) -> (r: (
        Vec<Action>,
        Vec<ProgressEvent>,
    ))
        requires
            old(self).wf(),
        ensures
            final(self).wf(),
            final(self).mode == old(self).mode,
            final(self).max_loops == old(self).max_loops,
            final(self).state@.research_topic == old(self).state@.research_topic,
            // no partial commit: the final summary changes only on the
            // completing transition, and the perspectives only on a
            // successful perspectives parse
            final(self).state@.final_summary != old(self).state@.final_summary ==> final(self).phase == OrchestratorPhase::Complete,
            final(self).state@.debate_perspectives != old(self).state@.debate_perspectives ==> old(self).phase == OrchestratorPhase::AwaitPerspectives && final(self).phase
                != OrchestratorPhase::Failed,
            // single-track bootstrap: the query node's fallback policy
            old(self).phase == OrchestratorPhase::AwaitInitialQuery ==> (reply@
                matches ReplyView::Text(resp) ==> {
                let q = spec_selected_query(resp, old(self).state@.research_topic);
                let seeded = TrackView { search_query: q, ..old(self).state@.track_one };
                &&& final(self).state@.track_one == seeded
                &&& final(self).state@.track_two == old(self).state@.track_two
                &&& final(self).state@.debate_perspectives == old(self).state@.debate_perspectives
                &&& final(self).runner_one.view_with(seeded) == spec_runner_start(
                    TrackId::One,
                    old(self).max_loops as nat,
                    seeded,
                )
                &&& final(self).runner_two == old(self).runner_two
                &&& (old(self).max_loops > 0 ==> {
                    &&& final(self).phase == OrchestratorPhase::Running
                    &&& final(self).state@.final_summary == old(self).state@.final_summary
                    &&& r.0@.len() == 1
                    &&& r.0@[0]@ == (ActionView::Search {
                        query: q,
                        loop_index: 0,
                        track: TrackId::One,
                    })
                    &&& r.1@.len() == 3
                    &&& is_event(
                        r.1@[0],
                        Phase::Query,
                        "Generated next query"@,
                        Some(q),
                        Some(TrackId::One),
                        now,
                    )
                    &&& is_event(
                        r.1@[1],
                        Phase::Loop,
                        spec_loop_message(1, old(self).max_loops as nat, TrackId::One),
                        None,
                        Some(TrackId::One),
                        now,
                    )
                    &&& is_event(
                        r.1@[2],
                        Phase::Research,
                        "Starting web research..."@,
                        None,
                        Some(TrackId::One),
                        now,
                    )
                })
                &&& (old(self).max_loops == 0 ==> {
                    &&& final(self).phase == OrchestratorPhase::Complete
                    &&& r.0@.len() == 0
                    &&& final(self).state@.final_summary == Some(spec_single_report(seeded))
                })
            }),
            old(self).phase == OrchestratorPhase::AwaitInitialQuery && !(reply@ is Text)
                ==> final(self).phase == OrchestratorPhase::Failed && r.0@.len() == 0 && final(self).state@ == old(self).state@,
            // debate bootstrap: perspectives parse, fatal on failure
            old(self).phase == OrchestratorPhase::AwaitPerspectives ==> (reply@
                matches ReplyView::Text(resp) ==> {
                match perspective_fields(spec_json_span(resp)) {
                    Some(fields) => {
                        &&& final(self).state@.debate_perspectives == Some(
                            PerspectivesView {
                                topic: fields.0,
                                perspective_one: fields.1,
                                perspective_two: fields.2,
                            },
                        )
                        &&& final(self).state@.track_one == (TrackView {
                            search_query: fields.1,
                            ..old(self).state@.track_one
                        })
                        &&& final(self).state@.track_two == (TrackView {
                            search_query: fields.2,
                            ..old(self).state@.track_two
                        })
                        &&& final(self).runner_one.view_with(final(self).state@.track_one)
                            == spec_runner_start(
                            TrackId::One,
                            old(self).max_loops as nat,
                            final(self).state@.track_one,
                        )
                        &&& final(self).runner_two.view_with(final(self).state@.track_two)
                            == spec_runner_start(
                            TrackId::Two,
                            old(self).max_loops as nat,
                            final(self).state@.track_two,
                        )
                        &&& (old(self).max_loops > 0 ==> {
                            &&& final(self).phase == OrchestratorPhase::Running
                            &&& r.0@.len() == 2
                            &&& r.0@[0]@ == (ActionView::Search {
                                query: fields.1,
                                loop_index: 0,
                                track: TrackId::One,
                            })
                            &&& r.0@[1]@ == (ActionView::Search {
                                query: fields.2,
                                loop_index: 0,
                                track: TrackId::Two,
                            })
                            &&& r.1@.len() == 5
                        })
                        &&& is_event(
                            r.1@[0],
                            Phase::Perspectives,
                            "Generated debate perspectives"@,
                            Some(resp),
                            None,
                            now,
                        )
                        &&& (old(self).max_loops == 0 ==> final(self).phase
                            == OrchestratorPhase::Complete && final(self).state@.final_summary
                            is Some)
                    },
                    None => {
                        &&& final(self).phase == OrchestratorPhase::Failed
                        &&& final(self).state@ == old(self).state@
                        &&& r.0@.len() == 0
                        &&& r.1@.len() == 1
                        &&& is_event(
                            r.1@[0],
                            Phase::Error,
                            "Failed to parse debate perspectives"@,
                            Some(resp),
                            None,
                            now,
                        )
                    },
                }
            }),
            old(self).phase == OrchestratorPhase::AwaitPerspectives && !(reply@ is Text)
                ==> final(self).phase == OrchestratorPhase::Failed && r.0@.len() == 0 && final(self).state@ == old(self).state@,
            // running: the reply is the selected runner's business alone
            old(self).phase == OrchestratorPhase::Running ==> ({
                let id = match track {
                    Some(TrackId::Two) => TrackId::Two,
                    _ => TrackId::One,
                };
                let pre = match id {
                    TrackId::One => old(self).runner_one.view_with(old(self).state@.track_one),
                    TrackId::Two => old(self).runner_two.view_with(old(self).state@.track_two),
                };
                let post = spec_runner_step(pre, old(self).state@.research_topic, reply@);
                &&& final(self).state@.track(id) == post.state.track
                &&& (id == TrackId::One ==> final(self).runner_one.view_with(
                    final(self).state@.track_one,
                ) == post.state)
                &&& (id == TrackId::Two ==> final(self).runner_two.view_with(
                    final(self).state@.track_two,
                ) == post.state)
                &&& (id == TrackId::One ==> final(self).state@.track_two == old(self).state@.track_two && final(self).runner_two == old(self).runner_two)
                &&& (id == TrackId::Two ==> final(self).state@.track_one == old(self).state@.track_one && final(self).runner_one == old(self).runner_one)
                &&& final(self).state@.debate_perspectives == old(self).state@.debate_perspectives
                &&& (post.state.phase == RunnerPhase::Failed ==> final(self).phase
                    == OrchestratorPhase::Failed && r.0@.len() == 0 && final(self).state@.final_summary == old(self).state@.final_summary)
                &&& (post.state.phase == RunnerPhase::AwaitSummary || post.state.phase
                    == RunnerPhase::AwaitReflection || post.state.phase == RunnerPhase::AwaitSearch
                    ==> {
                    &&& final(self).phase == OrchestratorPhase::Running
                    &&& final(self).state@.final_summary == old(self).state@.final_summary
                    &&& r.0@.len() == 1
                    &&& (post.action matches Some(av) && r.0@[0]@ == av)
                })
                &&& (post.state.phase == RunnerPhase::Done ==> {
                    &&& r.0@.len() == 0
                    &&& (old(self).mode == ResearchMode::Local ==> {
                        &&& final(self).phase == OrchestratorPhase::Complete
                        &&& final(self).state@.final_summary == Some(
                            spec_single_report(final(self).state@.track_one),
                        )
                        &&& is_event(
                            r.1@[r.1@.len() - 1],
                            Phase::Complete,
                            spec_single_report(final(self).state@.track_one),
                            None,
                            None,
                            now,
                        )
                    })
                    &&& (old(self).mode == ResearchMode::Remote ==> {
                        let other_done = match id {
                            TrackId::One => old(self).runner_two.phase == RunnerPhase::Done,
                            TrackId::Two => old(self).runner_one.phase == RunnerPhase::Done,
                        };
                        &&& (other_done ==> {
                            &&& final(self).phase == OrchestratorPhase::Complete
                            &&& final(self).state@.final_summary == Some(
                                spec_debate_report(
                                    final(self).state@.track_one,
                                    final(self).state@.track_two,
                                ),
                            )
                            &&& is_event(
                                r.1@[r.1@.len() - 1],
                                Phase::Complete,
                                spec_debate_report(
                                    final(self).state@.track_one,
                                    final(self).state@.track_two,
                                ),
                                None,
                                None,
                                now,
                            )
                        })
                        &&& (!other_done ==> final(self).phase == OrchestratorPhase::Running
                            && final(self).state@.final_summary == old(self).state@.final_summary)
                    })
                })
            }),
            // terminal phases ignore further replies
            old(self).phase == OrchestratorPhase::Complete || old(self).phase
                == OrchestratorPhase::Failed ==> final(self).phase == old(self).phase && final(self).state@ == old(self).state@ && r.0@.len() == 0 && r.1@.len() == 0,
    {
        match self.phase {
            OrchestratorPhase::AwaitInitialQuery => match reply {
                GatewayReply::Text(resp) => {
                    let q = QueryGeneratorNode::select_query(
                        resp.as_str(),
                        self.state.research_topic.as_str(),
                    );
                    self.state.track_one.search_query = q.clone();
                    let mut evs: Vec<ProgressEvent> = Vec::new();
                    evs.push(
                        ProgressEvent::new(
                            Phase::Query,
                            "Generated next query".to_string(),
                            Some(q),
                            Some(TrackId::One),
                            now,
                        ),
                    );
                    let (runner, action, mut run_evs) = TrackRunner::start(
                        TrackId::One,
                        self.max_loops,
                        &self.state,
                        now,
                    );
                    self.runner_one = runner;
                    evs.append(&mut run_evs);
                    match action {
                        Some(a) => {
                            self.phase = OrchestratorPhase::Running;
                            let mut actions: Vec<Action> = Vec::new();
                            actions.push(a);
                            (actions, evs)
                        },
                        None => {
                            let mut fin_evs = self.finalize_single(now);
                            evs.append(&mut fin_evs);
                            (Vec::new(), evs)
                        },
                    }
                },
                other => {
                    self.phase = OrchestratorPhase::Failed;
                    let msg = make_error_message(&other);
                    let mut evs: Vec<ProgressEvent> = Vec::new();
                    evs.push(ProgressEvent::new(Phase::Error, msg, None, None, now));
                    (Vec::new(), evs)
                },
            },
            OrchestratorPhase::AwaitPerspectives => match reply {
                GatewayReply::Text(resp) => {
                    match parse_perspectives_response(resp.as_str()) {
                        Some(perspectives) => {
                            self.state.track_one.search_query =
                                perspectives.perspective_one.clone();
                            self.state.track_two.search_query =
                                perspectives.perspective_two.clone();
                            self.state.debate_perspectives = Some(perspectives);
                            let mut evs: Vec<ProgressEvent> = Vec::new();
                            evs.push(
                                ProgressEvent::new(
                                    Phase::Perspectives,
                                    "Generated debate perspectives".to_string(),
                                    Some(resp),
                                    None,
                                    now,
                                ),
                            );
                            let (runner_one, action_one, mut evs_one) = TrackRunner::start(
                                TrackId::One,
                                self.max_loops,
                                &self.state,
                                now,
                            );
                            let (runner_two, action_two, mut evs_two) = TrackRunner::start(
                                TrackId::Two,
                                self.max_loops,
                                &self.state,
                                now,
                            );
                            self.runner_one = runner_one;
                            self.runner_two = runner_two;
                            evs.append(&mut evs_one);
                            evs.append(&mut evs_two);
                            match (action_one, action_two) {
                                (Some(a1), Some(a2)) => {
                                    self.phase = OrchestratorPhase::Running;
                                    let mut actions: Vec<Action> = Vec::new();
                                    actions.push(a1);
                                    actions.push(a2);
                                    (actions, evs)
                                },
                                _ => {
                                    let mut fin_evs = self.finalize_debate(now);
                                    evs.append(&mut fin_evs);
                                    (Vec::new(), evs)
                                },
                            }
                        },
                        None => {
                            self.phase = OrchestratorPhase::Failed;
                            let mut evs: Vec<ProgressEvent> = Vec::new();
                            evs.push(
                                ProgressEvent::new(
                                    Phase::Error,
                                    "Failed to parse debate perspectives".to_string(),
                                    Some(resp),
                                    None,
                                    now,
                                ),
                            );
                            (Vec::new(), evs)
                        },
                    }
                },
                other => {
                    self.phase = OrchestratorPhase::Failed;
                    let msg = make_error_message(&other);
                    let mut evs: Vec<ProgressEvent> = Vec::new();
                    evs.push(ProgressEvent::new(Phase::Error, msg, None, None, now));
                    (Vec::new(), evs)
                },
            },
            OrchestratorPhase::Running => {
                let id = match track {
                    Some(TrackId::Two) => TrackId::Two,
                    _ => TrackId::One,
                };
                let (action, mut evs) = match id {
                    TrackId::One => self.runner_one.step(&mut self.state, reply, now),
                    TrackId::Two => self.runner_two.step(&mut self.state, reply, now),
                };
                let stepped_phase = match id {
                    TrackId::One => self.runner_one.phase,
                    TrackId::Two => self.runner_two.phase,
                };
                match stepped_phase {
                    RunnerPhase::Failed => {
                        self.phase = OrchestratorPhase::Failed;
                        (Vec::new(), evs)
                    },
                    RunnerPhase::Done => {
                        match self.mode {
                            ResearchMode::Local => {
                                let mut fin_evs = self.finalize_single(now);
                                evs.append(&mut fin_evs);
                                (Vec::new(), evs)
                            },
                            ResearchMode::Remote => {
                                let other_done = match id {
                                    TrackId::One => self.runner_two.phase == RunnerPhase::Done,
                                    TrackId::Two => self.runner_one.phase == RunnerPhase::Done,
                                };
                                if other_done {
                                    let mut fin_evs = self.finalize_debate(now);
                                    evs.append(&mut fin_evs);
                                    (Vec::new(), evs)
                                } else {
                                    (Vec::new(), evs)
                                }
                            },
                        }
                    },
                    _ => {
                        let mut actions: Vec<Action> = Vec::new();
                        match action {
                            Some(a) => {
                                actions.push(a);
                            },
                            None => {
                            },
                        }
                        (actions, evs)
                    },
                }
            },
            OrchestratorPhase::Complete | OrchestratorPhase::Failed => (Vec::new(), Vec::new()),
        }
    }

    /// The session's result, available once it is complete.
    pub fn output(&self) -> (r: Option<SummaryStateOutput>)
        ensures
            match r {
                Some(o) => self.phase == OrchestratorPhase::Complete
                    && self.state@.final_summary == Some(o.running_summary@),
                None => self.phase != OrchestratorPhase::Complete || self.state@.final_summary
                    is None,
            },
    {
        match self.phase {
            OrchestratorPhase::Complete => match &self.state.final_summary {
                Some(summary) => Some(SummaryStateOutput { running_summary: summary.clone() }),
                None => None,
            },
            _ => None,
        }
    }
}

// ---------------------------------------------------------------------------
// The research graph: configuration holder and session factory
// ---------------------------------------------------------------------------

/// The long-lived research service: holds the configuration between
/// requests and opens one orchestrator per request.  Configuration updates
/// take effect on the next request, never on an in-flight one, because the
/// orchestrator snapshots its mode and loop budget at start.
pub struct ResearchGraph {
    pub config: Configuration,
}

impl ResearchGraph {
    pub fn new(config: Configuration) -> (r: Self)
        ensures
            r.config == config,
    {
        ResearchGraph { config }
    }

    pub fn get_llm_model(&self) -> (r: &str)
        ensures
            r@ == self.config.local_llm@,
    {
        self.config.local_llm.as_str()
    }

    pub fn get_max_loops(&self) -> (r: i32)
        ensures
            r == self.config.max_web_research_loops,
    {
        self.config.max_web_research_loops
    }

    pub fn update_llm(&mut self, new_llm: String)
        ensures
            final(self).config == (Configuration { local_llm: new_llm, ..old(self).config }),
    {
        self.config.local_llm = new_llm;
    }

    pub fn update_max_loops(&mut self, new_max: i32)
        ensures
            final(self).config == (Configuration {
                max_web_research_loops: new_max,
                ..old(self).config
            }),
    {
        self.config.max_web_research_loops = new_max;
    }

    pub fn update_research_mode(&mut self, mode: ResearchMode)
        ensures
            final(self).config == (Configuration { research_mode: mode, ..old(self).config }),
    {
        self.config.research_mode = mode;
    }

    pub fn get_research_mode(&self) -> (r: ResearchMode)
        ensures
            r == self.config.research_mode,
    {
        self.config.research_mode
    }

    pub fn get_groq_model(&self) -> (r: &str)
        ensures
            r@ == self.config.groq_model@,
    {
        self.config.groq_model.as_str()
    }

    /// Opens one research session under the current configuration.
    pub fn start_research(&self, input: SummaryStateInput, now: u64) -> (r: (
        Orchestrator,
        Action,
        Vec<ProgressEvent>,
    ))
        ensures
            r.0.wf(),
            r.0.mode == self.config.research_mode,
            r.0.max_loops as nat == spec_loop_budget(self.config.max_web_research_loops),
            r.0.state@.research_topic == input.research_topic@,
    {
        Orchestrator::start(&self.config, input, now)
    }
}

// ---------------------------------------------------------------------------
// Laws of the iteration machine
// ---------------------------------------------------------------------------

/// The bundled state after a track's machine consumes a sequence of
/// gateway replies, one step each.
pub open spec fn spec_runner_run(
    r: RunnerView,
    topic: Seq<char>,
    replies: Seq<ReplyView>,
) -> RunnerView
    decreases replies.len(),
{
    if replies.len() == 0 {
        r
    } else {
        spec_runner_run(
            spec_runner_step(r, topic, replies[0]).state,
            topic,
            replies.drop_first(),
        )
    }
}

/// A whole run preserves the bookkeeping invariant.
pub proof fn lemma_runner_run_preserves_inv(
    r: RunnerView,
    topic: Seq<char>,
    replies: Seq<ReplyView>,
)
    requires
        spec_runner_inv(r),
    ensures
        spec_runner_inv(spec_runner_run(r, topic, replies)),
        spec_runner_run(r, topic, replies).id == r.id,
        spec_runner_run(r, topic, replies).max_loops == r.max_loops,
    decreases replies.len(),
{
    if replies.len() > 0 {
        lemma_runner_step_preserves_inv(r, topic, replies[0]);
        lemma_runner_run_preserves_inv(
            spec_runner_step(r, topic, replies[0]).state,
            topic,
            replies.drop_first(),
        );
    }
}

/// However the gateways reply, a track with loop budget `n` that runs to
/// completion has performed exactly `n` retrieval calls and `n`
/// summarization calls, its loop counter ends at exactly `n` — neither
/// `n + 1` nor `n - 1` — and it has made exactly `n - 1` reflection calls
/// (none when the budget is zero): reflection only ever chooses the query
/// of a subsequent cycle and is skipped on the last one.
pub proof fn lemma_completed_track_counts(
    id: TrackId,
    max_loops: nat,
    t: TrackView,
    topic: Seq<char>,
    replies: Seq<ReplyView>,
)
    requires
        t.research_loop_count == 0,
        t.web_research_results.len() == 0,
    ensures
        ({
            let fin = spec_runner_run(spec_runner_start(id, max_loops, t), topic, replies);
            fin.phase == RunnerPhase::Done ==> {
                &&& fin.track.research_loop_count == max_loops
                &&& fin.searches == max_loops
                &&& fin.summaries == max_loops
                &&& (max_loops >= 1 ==> fin.reflections == max_loops - 1)
                &&& (max_loops == 0 ==> fin.reflections == 0)
            }
        }),
{
    lemma_runner_run_preserves_inv(spec_runner_start(id, max_loops, t), topic, replies);
}

/// Debate-mode isolation: one track's step is a function of that track,
/// the topic and its own reply alone, and writes only that track.  So the
/// two tracks' steps commute on the session: whichever track's gateway
/// call returns first, the resulting session — and with it the final
/// report, a function of the two finished tracks — is the same.
pub proof fn lemma_track_steps_commute(
    s: SummaryStateView,
    one: RunnerView,
    two: RunnerView,
    topic: Seq<char>,
    reply_one: ReplyView,
    reply_two: ReplyView,
)
    ensures
        ({
            let one_first = {
                let s1 = s.with_track(
                    TrackId::One,
                    spec_runner_step(
                        RunnerView { track: s.track_one, ..one },
                        topic,
                        reply_one,
                    ).state.track,
                );
                s1.with_track(
                    TrackId::Two,
                    spec_runner_step(
                        RunnerView { track: s1.track_two, ..two },
                        topic,
                        reply_two,
                    ).state.track,
                )
            };
            let two_first = {
                let s2 = s.with_track(
                    TrackId::Two,
                    spec_runner_step(
                        RunnerView { track: s.track_two, ..two },
                        topic,
                        reply_two,
                    ).state.track,
                );
                s2.with_track(
                    TrackId::One,
                    spec_runner_step(
                        RunnerView { track: s2.track_one, ..one },
                        topic,
                        reply_one,
                    ).state.track,
                )
            };
            one_first == two_first
        }),
{
    let t1 = spec_runner_step(RunnerView { track: s.track_one, ..one }, topic, reply_one).state.track;
    let t2 = spec_runner_step(RunnerView { track: s.track_two, ..two }, topic, reply_two).state.track;
    assert(s.with_track(TrackId::One, t1).with_track(TrackId::Two, t2) =~= s.with_track(
        TrackId::Two,
        t2,
    ).with_track(TrackId::One, t1));
}

} // verus!
