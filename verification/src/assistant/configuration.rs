//! Configuration of the research assistant: model names, loop budget,
//! search provider and execution mode.  Values are assembled from plain
//! environment values handed in by the caller; reading the environment
//! itself is not this crate's business.

use vstd::prelude::*;
use crate::assistant::parse::{spec_parsed_i32, parse_i32_str};
use crate::assistant::text::str_eq;

verus! {

/// The web-search provider.
#[derive(Clone, Copy, PartialEq, Eq, Structural, Debug)]
pub enum SearchAPI {
    Perplexity,
}

impl Default for SearchAPI {
    fn default() -> (r: Self)
        ensures
            r == SearchAPI::Perplexity,
    {
        SearchAPI::Perplexity
    }
}

/// Whether generation runs against the local model or the remote one.
#[derive(Clone, Copy, PartialEq, Eq, Structural, Debug)]
pub enum ResearchMode {
    Local,
    Remote,
}

impl Default for ResearchMode {
    fn default() -> (r: Self)
        ensures
            r == ResearchMode::Local,
    {
        ResearchMode::Local
    }
}

/// Settings of one orchestrator instance.  Mutations take effect on the
/// next request, never retroactively on an in-flight one: the orchestrator
/// snapshots what it needs when a request starts.
#[derive(Debug, Clone)]
pub struct Configuration {
    pub max_web_research_loops: i32,
    pub local_llm: String,
    pub search_api: SearchAPI,
    pub perplexity_api_key: String,
    pub research_mode: ResearchMode,
    pub groq_api_key: Option<String>,
    pub groq_model: String,
}

pub fn default_max_web_research_loops() -> (r: i32)
    ensures
        r == 3,
{
    3
}

pub fn default_local_llm() -> (r: String)
    ensures
        r@ == "deepseek-r1:8b"@,
{
    "deepseek-r1:8b".to_string()
}

pub fn default_groq_model() -> (r: String)
    ensures
        r@ == "mixtral-8x7b-32768"@,
{
    "mixtral-8x7b-32768".to_string()
}

/// A required setting that was missing when the assistant started; fatal,
/// the process does not serve requests.
#[derive(Clone, Copy, PartialEq, Eq, Structural, Debug)]
pub enum ConfigError {
    MissingPerplexityApiKey,
    MissingLocalLlm,
}

impl ConfigError {
    /// A human-readable account of the missing setting.
    pub fn message(&self) -> (r: String)
        ensures
            *self == ConfigError::MissingPerplexityApiKey ==> r@
                == "PERPLEXITY_API_KEY environment variable not found - please add this to your .env file"@,
            *self == ConfigError::MissingLocalLlm ==> r@
                == "LOCAL_LLM environment variable not found - please add this to your .env file"@,
    {
        match self {
            ConfigError::MissingPerplexityApiKey => "PERPLEXITY_API_KEY environment variable not found - please add this to your .env file".to_string(),
            ConfigError::MissingLocalLlm => "LOCAL_LLM environment variable not found - please add this to your .env file".to_string(),
        }
    }
}

/// The loop budget a textual setting selects: its decimal reading, or three
/// where the setting is absent or unreadable.
pub open spec fn spec_max_loops_of(v: Option<Seq<char>>) -> i32 {
    match v {
        Some(s) => match spec_parsed_i32(s) {
            Some(n) => n,
            None => 3,
        },
        None => 3,
    }
}

/// The research mode a textual setting selects: remote exactly for the
/// value "remote".
pub open spec fn spec_research_mode_of(v: Option<Seq<char>>) -> ResearchMode {
    match v {
        Some(s) => if s == "remote"@ {
            ResearchMode::Remote
        } else {
            ResearchMode::Local
        },
        None => ResearchMode::Local,
    }
}

impl Configuration {
    /// Assembles a configuration from plain environment values.  The
    /// Perplexity key and the local model name are required; the loop
    /// budget falls back to its default when absent or unreadable; the
    /// mode is remote exactly when so requested; the Groq model name
    /// falls back to its default.
    pub fn from_env_values(
        perplexity_api_key: Option<String>,
        local_llm: Option<String>,
        max_web_research_loops: Option<String>,
        groq_api_key: Option<String>,
        groq_model: Option<String>,
        research_mode: Option<String>,
    ) -> (r: Result<Configuration, ConfigError>)
        ensures
            perplexity_api_key is None ==> r == Result::<Configuration, ConfigError>::Err(
                ConfigError::MissingPerplexityApiKey,
            ),
            perplexity_api_key is Some && local_llm is None ==> r == Result::<
                Configuration,
                ConfigError,
            >::Err(ConfigError::MissingLocalLlm),
            r matches Ok(c) ==> {
                &&& perplexity_api_key matches Some(k) && c.perplexity_api_key@ == k@
                &&& local_llm matches Some(m) && c.local_llm@ == m@
                &&& c.max_web_research_loops == spec_max_loops_of(
                    match max_web_research_loops {
                        Some(s) => Some(s@),
                        None => None,
                    },
                )
                &&& c.search_api == SearchAPI::Perplexity
                &&& c.research_mode == spec_research_mode_of(
                    match research_mode {
                        Some(s) => Some(s@),
                        None => None,
                    },
                )
                &&& match (c.groq_api_key, groq_api_key) {
                    (Some(a), Some(b)) => a@ == b@,
                    (None, None) => true,
                    _ => false,
                }
                &&& c.groq_model@ == match groq_model {
                    Some(m) => m@,
                    None => "mixtral-8x7b-32768"@,
                }
            },
            r is Ok <==> perplexity_api_key is Some && local_llm is Some,
    {
        let perplexity_api_key = match perplexity_api_key {
            Some(k) => k,
            None => {
                return Err(ConfigError::MissingPerplexityApiKey);
            },
        };
        let local_llm = match local_llm {
            Some(m) => m,
            None => {
                return Err(ConfigError::MissingLocalLlm);
            },
        };
        let max_web_research_loops = match max_web_research_loops {
            Some(s) => match parse_i32_str(s.as_str()) {
                Some(n) => n,
                None => default_max_web_research_loops(),
            },
            None => default_max_web_research_loops(),
        };
        let research_mode = match &research_mode {
            Some(s) => if str_eq(s.as_str(), "remote") {
                ResearchMode::Remote
            } else {
                ResearchMode::Local
            },
            None => ResearchMode::Local,
        };
        let groq_model = match groq_model {
            Some(m) => m,
            None => default_groq_model(),
        };
        Ok(
            Configuration {
                max_web_research_loops,
                local_llm,
                search_api: SearchAPI::Perplexity,
                perplexity_api_key,
                research_mode,
                groq_api_key,
                groq_model,
            },
        )
    }
}

} // verus!
