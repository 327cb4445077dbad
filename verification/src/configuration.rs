//! Configuration of the simpler, single-track research graph: loop budget,
//! local model name and search provider, resolved from environment values
//! and per-request settings handed in by the caller.

use vstd::prelude::*;
use crate::assistant::parse::{spec_parsed_i32, parse_i32_str};
use crate::assistant::text::str_eq;

verus! {

/// The web-search provider of the simpler graph.
#[derive(Clone, Copy, PartialEq, Eq, Structural, Debug)]
pub enum SearchAPI {
    Perplexity,
    Tavily,
}

impl Default for SearchAPI {
    fn default() -> (r: Self)
        ensures
            r == SearchAPI::Tavily,
    {
        SearchAPI::Tavily
    }
}

/// Settings of the simpler graph.
#[derive(Debug, Clone)]
pub struct Configuration {
    pub max_web_research_loops: i32,
    pub local_llm: String,
    pub search_api: SearchAPI,
}

pub fn default_max_web_research_loops() -> (r: i32)
    ensures
        r == 3,
{
    3
}

pub fn default_local_llm() -> (r: String)
    ensures
        r@ == "llama3.2"@,
{
    "llama3.2".to_string()
}

/// The provider a textual setting names, if any.
pub open spec fn spec_search_api_of(s: Seq<char>) -> Option<SearchAPI> {
    if s == "perplexity"@ {
        Some(SearchAPI::Perplexity)
    } else if s == "tavily"@ {
        Some(SearchAPI::Tavily)
    } else {
        None
    }
}

fn search_api_of(s: &str) -> (r: Option<SearchAPI>)
    ensures
        r == spec_search_api_of(s@),
{
    if str_eq(s, "perplexity") {
        Some(SearchAPI::Perplexity)
    } else if str_eq(s, "tavily") {
        Some(SearchAPI::Tavily)
    } else {
        None
    }
}

/// The loop budget two layered settings select: the environment value's
/// decimal reading where it has one, else the per-request setting, else
/// the default of three.
pub open spec fn spec_resolved_max_loops(env: Option<Seq<char>>, cfg: Option<i32>) -> i32 {
    let fallback = match cfg {
        Some(n) => n,
        None => 3,
    };
    match env {
        Some(s) => match spec_parsed_i32(s) {
            Some(n) => n,
            None => fallback,
        },
        None => fallback,
    }
}

/// The provider two layered settings select: the environment value where
/// it names one, else the per-request setting where it does, else Tavily.
pub open spec fn spec_resolved_search_api(
    env: Option<Seq<char>>,
    cfg: Option<Seq<char>>,
) -> SearchAPI {
    let fallback = match cfg {
        Some(s) => match spec_search_api_of(s) {
            Some(a) => a,
            None => SearchAPI::Tavily,
        },
        None => SearchAPI::Tavily,
    };
    match env {
        Some(s) => match spec_search_api_of(s) {
            Some(a) => a,
            None => fallback,
        },
        None => fallback,
    }
}

impl Configuration {
    /// Resolves a configuration from the environment values and the
    /// per-request settings, the former taking precedence, with every
    /// field defaulted when neither source provides it.
    pub fn from_settings(
        env_max_loops: Option<String>,
        cfg_max_loops: Option<i32>,
        env_local_llm: Option<String>,
        cfg_local_llm: Option<String>,
        env_search_api: Option<String>,
        cfg_search_api: Option<String>,
    ) -> (r: Configuration)
        ensures
            r.max_web_research_loops == spec_resolved_max_loops(
                match env_max_loops {
                    Some(s) => Some(s@),
                    None => None,
                },
                cfg_max_loops,
            ),
            r.local_llm@ == match (env_local_llm, cfg_local_llm) {
                (Some(s), _) => s@,
                (None, Some(s)) => s@,
                (None, None) => "llama3.2"@,
            },
            r.search_api == spec_resolved_search_api(
                match env_search_api {
                    Some(s) => Some(s@),
                    None => None,
                },
                match cfg_search_api {
                    Some(s) => Some(s@),
                    None => None,
                },
            ),
    {
        let max_fallback = match cfg_max_loops {
            Some(n) => n,
            None => default_max_web_research_loops(),
        };
        let max_web_research_loops = match env_max_loops {
            Some(s) => match parse_i32_str(s.as_str()) {
                Some(n) => n,
                None => max_fallback,
            },
            None => max_fallback,
        };
        let local_llm = match env_local_llm {
            Some(s) => s,
            None => match cfg_local_llm {
                Some(s) => s,
                None => default_local_llm(),
            },
        };
        let api_fallback = match cfg_search_api {
            Some(s) => match search_api_of(s.as_str()) {
                Some(a) => a,
                None => SearchAPI::Tavily,
            },
            None => SearchAPI::Tavily,
        };
        let search_api = match env_search_api {
            Some(s) => match search_api_of(s.as_str()) {
                Some(a) => a,
                None => api_fallback,
            },
            None => api_fallback,
        };
        Configuration { max_web_research_loops, local_llm, search_api }
    }
}

} // verus!
