use ollama_deep_researcher::configuration::{Configuration, SearchAPI};
use ollama_deep_researcher::assistant::configuration::{
    Configuration as AssistantConfiguration, ConfigError, ResearchMode,
    SearchAPI as AssistantSearchAPI,
};

#[test]
fn test_default_configuration() {
    let config = Configuration::from_settings(None, None, None, None, None, None);
    assert_eq!(config.max_web_research_loops, 3);
    assert_eq!(config.local_llm, "llama3.2");
    assert_eq!(config.search_api, SearchAPI::Tavily);
}

#[test]
fn test_configuration_from_runnable_config() {
    let config = Configuration::from_settings(
        None,
        Some(5),
        None,
        Some("gpt4".to_string()),
        None,
        Some("perplexity".to_string()),
    );
    assert_eq!(config.max_web_research_loops, 5);
    assert_eq!(config.local_llm, "gpt4");
    assert_eq!(config.search_api, SearchAPI::Perplexity);
}

#[test]
fn environment_takes_precedence_over_settings() {
    let config = Configuration::from_settings(
        Some("7".to_string()),
        Some(5),
        Some("mistral".to_string()),
        Some("gpt4".to_string()),
        Some("tavily".to_string()),
        Some("perplexity".to_string()),
    );
    assert_eq!(config.max_web_research_loops, 7);
    assert_eq!(config.local_llm, "mistral");
    assert_eq!(config.search_api, SearchAPI::Tavily);
}

#[test]
fn unreadable_environment_loops_fall_back() {
    let config = Configuration::from_settings(
        Some("many".to_string()),
        Some(4),
        None,
        None,
        Some("bing".to_string()),
        None,
    );
    assert_eq!(config.max_web_research_loops, 4);
    assert_eq!(config.search_api, SearchAPI::Tavily);
}

fn full_env(
    max_loops: Option<&str>,
    mode: Option<&str>,
) -> Result<AssistantConfiguration, ConfigError> {
    AssistantConfiguration::from_env_values(
        Some("SECRET-REDACTED".to_string()),
        Some("deepseek-r1:8b".to_string()),
        max_loops.map(|s| s.to_string()),
        None,
        None,
        mode.map(|s| s.to_string()),
    )
}

#[test]
fn assistant_configuration_reads_all_values() {
    let config = AssistantConfiguration::from_env_values(
        Some("SECRET-REDACTED".to_string()),
        Some("llama3.2".to_string()),
        Some("5".to_string()),
        Some("SECRET-REDACTED".to_string()),
        Some("mixtral".to_string()),
        Some("remote".to_string()),
    )
    .unwrap();
    assert_eq!(config.max_web_research_loops, 5);
    assert_eq!(config.local_llm, "llama3.2");
    assert_eq!(config.search_api, AssistantSearchAPI::Perplexity);
    assert_eq!(config.research_mode, ResearchMode::Remote);
    assert_eq!(config.groq_model, "mixtral");
}

#[test]
fn assistant_configuration_defaults() {
    let config = full_env(None, None).unwrap();
    assert_eq!(config.max_web_research_loops, 3);
    assert_eq!(config.research_mode, ResearchMode::Local);
    assert_eq!(config.groq_model, "mixtral-8x7b-32768");
    assert!(config.groq_api_key.is_none());
}

#[test]
fn assistant_configuration_parses_loop_budget() {
    assert_eq!(full_env(Some("9"), None).unwrap().max_web_research_loops, 9);
    assert_eq!(full_env(Some("-2"), None).unwrap().max_web_research_loops, -2);
    assert_eq!(full_env(Some("nine"), None).unwrap().max_web_research_loops, 3);
    assert_eq!(full_env(Some(""), None).unwrap().max_web_research_loops, 3);
}

#[test]
fn assistant_configuration_research_mode() {
    assert_eq!(full_env(None, Some("remote")).unwrap().research_mode, ResearchMode::Remote);
    assert_eq!(full_env(None, Some("local")).unwrap().research_mode, ResearchMode::Local);
    assert_eq!(full_env(None, Some("Remote")).unwrap().research_mode, ResearchMode::Local);
}

#[test]
fn assistant_configuration_missing_perplexity_key() {
    let err = AssistantConfiguration::from_env_values(
        None,
        Some("llama3.2".to_string()),
        None,
        None,
        None,
        None,
    )
    .unwrap_err();
    assert_eq!(err, ConfigError::MissingPerplexityApiKey);
    assert_eq!(
        err.message(),
        "PERPLEXITY_API_KEY environment variable not found - please add this to your .env file"
    );
}

#[test]
fn assistant_configuration_missing_local_llm() {
    let err = AssistantConfiguration::from_env_values(
        Some("SECRET-REDACTED".to_string()),
        None,
        None,
        None,
        None,
        None,
    )
    .unwrap_err();
    assert_eq!(err, ConfigError::MissingLocalLlm);
    assert_eq!(
        err.message(),
        "LOCAL_LLM environment variable not found - please add this to your .env file"
    );
}
