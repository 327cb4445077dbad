//! The simpler, single-track research graph's state model: one lineage of
//! query, sources, results and summary, without tracks or debate mode.

use vstd::prelude::*;
use crate::configuration::Configuration;

verus! {

/// The simpler pipeline's whole state: one research lineage.
#[derive(Debug, Clone)]
pub struct SummaryState {
    pub research_topic: String,
    pub search_query: Option<String>,
    pub sources_gathered: Vec<String>,
    pub research_loop_count: i32,
    pub web_research_results: Vec<String>,
    pub running_summary: Option<String>,
}

impl SummaryState {
    /// A fresh state on a topic: no query, no sources, no results, no
    /// summary, zero loops.
    pub fn on_topic(research_topic: String) -> (r: Self)
        ensures
            r.research_topic@ == research_topic@,
            r.search_query is None,
            r.sources_gathered@.len() == 0,
            r.research_loop_count == 0,
            r.web_research_results@.len() == 0,
            r.running_summary is None,
    {
        SummaryState {
            research_topic,
            search_query: None,
            sources_gathered: Vec::new(),
            research_loop_count: 0,
            web_research_results: Vec::new(),
            running_summary: None,
        }
    }
}

/// The inbound request of the simpler graph.
#[derive(Debug, Clone)]
pub struct SummaryStateInput {
    pub research_topic: String,
}

/// The outbound result of the simpler graph.
#[derive(Debug, Clone)]
pub struct SummaryStateOutput {
    pub running_summary: String,
}

/// The simpler graph's retrieval node: holds the configuration that picks
/// the search provider.  The searches themselves are network calls and are
/// performed outside this crate.
pub struct WebResearcher {
    pub config: Configuration,
}

impl WebResearcher {
    pub fn new(config: Configuration) -> (r: Self)
        ensures
            r.config == config,
    {
        WebResearcher { config }
    }

    /// Records one completed retrieval: the results are appended and the
    /// loop counter advances, provided a query was set.
    pub fn record_results(state: &mut SummaryState, results: String)
        requires
            old(state).research_loop_count < i32::MAX,
        ensures
            old(state).search_query is Some ==> final(state).web_research_results.deep_view()
                == old(state).web_research_results.deep_view().push(results@) && final(state).research_loop_count == old(state).research_loop_count + 1,
            old(state).search_query is None ==> final(state).web_research_results.deep_view()
                == old(state).web_research_results.deep_view() && final(state).research_loop_count
                == old(state).research_loop_count,
            final(state).research_topic@ == old(state).research_topic@,
            final(state).sources_gathered.deep_view() == old(state).sources_gathered.deep_view(),
    {
        match &state.search_query {
            Some(_) => {
                state.web_research_results.push(results);
                state.research_loop_count = state.research_loop_count + 1;
            },
            None => {},
        }
    }
}

} // verus!
