//! Session state: one research request's topic, its one or two research
//! tracks, and the progress events the orchestrator emits while it runs.

use vstd::prelude::*;
use crate::assistant::debate::{DebatePerspectives, PerspectivesView};
use crate::assistant::text::str_eq;

verus! {

/// One research lineage: its current query, completed loop count, cumulative
/// summary, and append-only source and retrieval records.
#[derive(Debug, Clone)]
pub struct ResearchTrack {
    pub search_query: String,
    pub research_loop_count: usize,
    pub running_summary: String,
    pub sources: Vec<String>,
    pub web_research_results: Vec<String>,
}

#[verifier::ext_equal]
pub struct TrackView {
    pub search_query: Seq<char>,
    pub research_loop_count: nat,
    pub running_summary: Seq<char>,
    pub sources: Seq<Seq<char>>,
    pub web_research_results: Seq<Seq<char>>,
}

impl TrackView {
    /// A freshly created track: everything empty, no loop completed.
    pub open spec fn empty() -> TrackView {
        TrackView {
            search_query: Seq::empty(),
            research_loop_count: 0,
            running_summary: Seq::empty(),
            sources: Seq::empty(),
            web_research_results: Seq::empty(),
        }
    }
}

impl View for ResearchTrack {
    type V = TrackView;

    open spec fn view(&self) -> TrackView {
        TrackView {
            search_query: self.search_query@,
            research_loop_count: self.research_loop_count as nat,
            running_summary: self.running_summary@,
            sources: self.sources.deep_view(),
            web_research_results: self.web_research_results.deep_view(),
        }
    }
}

/// Whether a track warrants further research: either nothing has been
/// gathered yet, or there is meaningful content and fewer than three loops
/// have completed.
pub open spec fn spec_should_continue(t: TrackView) -> bool {
    (t.running_summary.len() == 0 && t.web_research_results.len() == 0) || (
    t.running_summary.len() > 0 && t.web_research_results.len() > 0 && t.research_loop_count < 3)
}

impl ResearchTrack {
    pub fn new() -> (r: Self)
        ensures
            r@ == TrackView::empty(),
    {
        let r = ResearchTrack {
            search_query: String::new(),
            research_loop_count: 0,
            running_summary: String::new(),
            sources: Vec::new(),
            web_research_results: Vec::new(),
        };
        proof {
            assert(r@ =~= TrackView::empty());
        }
        r
    }

    pub fn should_continue_research(&self) -> (r: bool)
        ensures
            r == spec_should_continue(self@),
    {
        (self.running_summary.as_str().is_empty() && self.web_research_results.len() == 0) || (
        !self.running_summary.as_str().is_empty() && self.web_research_results.len() > 0
            && self.research_loop_count < 3)
    }
}

/// Names one of the at most two research tracks of a session.
#[derive(Clone, Copy, PartialEq, Eq, Structural, Debug)]
pub enum TrackId {
    One,
    Two,
}

/// The track a textual track name selects: "two" names the second track and
/// any other name falls back to the first.
pub open spec fn track_id_of_str(s: Seq<char>) -> TrackId {
    if s == "two"@ {
        TrackId::Two
    } else {
        TrackId::One
    }
}

/// One research request: the immutable topic, the two tracks (debate mode
/// uses both, single-track mode only the first), the optional perspectives
/// and the final summary, set exactly once by finalization.
#[derive(Debug, Clone)]
pub struct SummaryState {
    pub research_topic: String,
    pub track_one: ResearchTrack,
    pub track_two: ResearchTrack,
    pub final_summary: Option<String>,
    pub debate_perspectives: Option<DebatePerspectives>,
}

#[verifier::ext_equal]
pub struct SummaryStateView {
    pub research_topic: Seq<char>,
    pub track_one: TrackView,
    pub track_two: TrackView,
    pub final_summary: Option<Seq<char>>,
    pub debate_perspectives: Option<PerspectivesView>,
}

impl SummaryStateView {
    /// The named track.
    pub open spec fn track(self, id: TrackId) -> TrackView {
        match id {
            TrackId::One => self.track_one,
            TrackId::Two => self.track_two,
        }
    }

    /// The state with the named track replaced.
    pub open spec fn with_track(self, id: TrackId, t: TrackView) -> SummaryStateView {
        match id {
            TrackId::One => SummaryStateView { track_one: t, ..self },
            TrackId::Two => SummaryStateView { track_two: t, ..self },
        }
    }
}

impl View for SummaryState {
    type V = SummaryStateView;

    open spec fn view(&self) -> SummaryStateView {
        SummaryStateView {
            research_topic: self.research_topic@,
            track_one: self.track_one@,
            track_two: self.track_two@,
            final_summary: match self.final_summary {
                Some(s) => Some(s@),
                None => None,
            },
            debate_perspectives: match self.debate_perspectives {
                Some(p) => Some(p@),
                None => None,
            },
        }
    }
}

impl SummaryState {
    /// A fresh session on the given topic: both tracks empty, no
    /// perspectives, no final summary.
    pub fn with_research_topic(topic: String) -> (r: Self)
        ensures
            r@ == (SummaryStateView {
                research_topic: topic@,
                track_one: TrackView::empty(),
                track_two: TrackView::empty(),
                final_summary: None,
                debate_perspectives: None,
            }),
    {
        let r = SummaryState {
            research_topic: topic,
            track_one: ResearchTrack::new(),
            track_two: ResearchTrack::new(),
            final_summary: None,
            debate_perspectives: None,
        };
        proof {
            assert(r@ =~= (SummaryStateView {
                research_topic: r.research_topic@,
                track_one: TrackView::empty(),
                track_two: TrackView::empty(),
                final_summary: None,
                debate_perspectives: None,
            }));
        }
        r
    }

    pub fn set_debate_perspectives(&mut self, perspectives: DebatePerspectives)
        ensures
            final(self)@ == (SummaryStateView {
                debate_perspectives: Some(perspectives@),
                ..old(self)@
            }),
    {
        self.debate_perspectives = Some(perspectives);
    }

    /// The named track; any name but "one" and "two" falls back to track one.
    pub fn get_track(&self, track: &str) -> (r: &ResearchTrack)
        ensures
            r@ == self@.track(track_id_of_str(track@)),
    {
        if str_eq(track, "two") {
            &self.track_two
        } else {
            &self.track_one
        }
    }

    /// Mutable access to the named track; any name but "one" and "two"
    /// falls back to track one.
    pub fn get_track_mut(&mut self, track: &str) -> (r: &mut ResearchTrack)
        ensures
            (*r)@ == old(self)@.track(track_id_of_str(track@)),
            final(self)@ == old(self)@.with_track(track_id_of_str(track@), (*final(r))@),
    {
        if str_eq(track, "two") {
            &mut self.track_two
        } else {
            &mut self.track_one
        }
    }

    /// Replaces the named track's current search query.
    pub fn set_search_query(&mut self, track: &str, query: String)
        ensures
            final(self)@ == old(self)@.with_track(
                track_id_of_str(track@),
                TrackView { search_query: query@, ..old(self)@.track(track_id_of_str(track@)) },
            ),
    {
        if str_eq(track, "two") {
            self.track_two.search_query = query;
        } else {
            self.track_one.search_query = query;
        }
        proof {
            assert(self@ =~= old(self)@.with_track(
                track_id_of_str(track@),
                TrackView { search_query: self@.track(track_id_of_str(track@)).search_query, ..old(self)@.track(track_id_of_str(track@)) },
            ));
        }
    }

    /// Records one more completed research loop on the named track.
    pub fn increment_loop_count(&mut self, track: &str)
        requires
            old(self)@.track(track_id_of_str(track@)).research_loop_count < usize::MAX,
        ensures
            final(self)@ == old(self)@.with_track(
                track_id_of_str(track@),
                TrackView {
                    research_loop_count: old(self)@.track(track_id_of_str(track@)).research_loop_count + 1,
                    ..old(self)@.track(track_id_of_str(track@))
                },
            ),
    {
        if str_eq(track, "two") {
            self.track_two.research_loop_count = self.track_two.research_loop_count + 1;
        } else {
            self.track_one.research_loop_count = self.track_one.research_loop_count + 1;
        }
        proof {
            assert(self@ =~= old(self)@.with_track(
                track_id_of_str(track@),
                TrackView {
                    research_loop_count: old(self)@.track(track_id_of_str(track@)).research_loop_count + 1,
                    ..old(self)@.track(track_id_of_str(track@))
                },
            ));
        }
    }

    /// Appends one human-readable citation to the named track.
    pub fn add_source(&mut self, track: &str, source: String)
        ensures
            final(self)@ == old(self)@.with_track(
                track_id_of_str(track@),
                TrackView {
                    sources: old(self)@.track(track_id_of_str(track@)).sources.push(source@),
                    ..old(self)@.track(track_id_of_str(track@))
                },
            ),
    {
        if str_eq(track, "two") {
            self.track_two.sources.push(source);
        } else {
            self.track_one.sources.push(source);
        }
        proof {
            assert(self@ =~= old(self)@.with_track(
                track_id_of_str(track@),
                TrackView {
                    sources: old(self)@.track(track_id_of_str(track@)).sources.push(source@),
                    ..old(self)@.track(track_id_of_str(track@))
                },
            ));
        }
    }

    /// Appends one raw retrieval payload to the named track.
    pub fn add_web_research_result(&mut self, track: &str, result: String)
        ensures
            final(self)@ == old(self)@.with_track(
                track_id_of_str(track@),
                TrackView {
                    web_research_results: old(self)@.track(
                        track_id_of_str(track@),
                    ).web_research_results.push(result@),
                    ..old(self)@.track(track_id_of_str(track@))
                },
            ),
    {
        if str_eq(track, "two") {
            self.track_two.web_research_results.push(result);
        } else {
            self.track_one.web_research_results.push(result);
        }
        proof {
            assert(self@ =~= old(self)@.with_track(
                track_id_of_str(track@),
                TrackView {
                    web_research_results: old(self)@.track(
                        track_id_of_str(track@),
                    ).web_research_results.push(result@),
                    ..old(self)@.track(track_id_of_str(track@))
                },
            ));
        }
    }

    /// Replaces the named track's cumulative summary.
    pub fn set_running_summary(&mut self, track: &str, summary: String)
        ensures
            final(self)@ == old(self)@.with_track(
                track_id_of_str(track@),
                TrackView {
                    running_summary: summary@,
                    ..old(self)@.track(track_id_of_str(track@))
                },
            ),
    {
        if str_eq(track, "two") {
            self.track_two.running_summary = summary;
        } else {
            self.track_one.running_summary = summary;
        }
        proof {
            assert(self@ =~= old(self)@.with_track(
                track_id_of_str(track@),
                TrackView {
                    running_summary: self@.track(track_id_of_str(track@)).running_summary,
                    ..old(self)@.track(track_id_of_str(track@))
                },
            ));
        }
    }

    /// Sets the session's final summary, the terminal write of a request.
    pub fn set_final_summary(&mut self, summary: String)
        ensures
            final(self)@ == (SummaryStateView { final_summary: Some(summary@), ..old(self)@ }),
    {
        self.final_summary = Some(summary);
    }
}

/// The inbound request: a research topic.
#[derive(Debug, Clone)]
pub struct SummaryStateInput {
    pub research_topic: String,
}

/// The outbound result: the synthesized summary.
#[derive(Debug, Clone)]
pub struct SummaryStateOutput {
    pub running_summary: String,
}

/// The pipeline stage a progress event reports on.
#[derive(Clone, Copy, PartialEq, Eq, Structural, Debug)]
pub enum Phase {
    Init,
    Perspectives,
    Query,
    Research,
    Summary,
    Reflection,
    Loop,
    Final,
    Complete,
    Error,
    Config,
}

/// One observability message: emitted, never stored, and never used for
/// control decisions.
#[derive(Debug, Clone)]
pub struct ProgressEvent {
    pub phase: Phase,
    pub message: String,
    pub track: Option<TrackId>,
    pub detail: Option<String>,
    pub timestamp: u64,
}

/// Whether an event carries exactly the given fields.
pub open spec fn is_event(
    e: ProgressEvent,
    phase: Phase,
    message: Seq<char>,
    detail: Option<Seq<char>>,
    track: Option<TrackId>,
    timestamp: u64,
) -> bool {
    &&& e.phase == phase
    &&& e.message@ == message
    &&& match (e.detail, detail) {
        (Some(d), Some(dv)) => d@ == dv,
        (None, None) => true,
        _ => false,
    }
    &&& e.track == track
    &&& e.timestamp == timestamp
}

impl ProgressEvent {
    pub fn new(
        phase: Phase,
        message: String,
        detail: Option<String>,
        track: Option<TrackId>,
        timestamp: u64,
    ) -> (e: ProgressEvent)
        ensures
            is_event(
                e,
                phase,
                message@,
                match detail {
                    Some(d) => Some(d@),
                    None => None,
                },
                track,
                timestamp,
            ),
    {
        ProgressEvent { phase, message, track, detail, timestamp }
    }
}

} // verus!
