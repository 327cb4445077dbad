use ollama_deep_researcher::assistant::text::{find_from, join_strings, str_eq, strip_think_spans};
use ollama_deep_researcher::assistant::utils::{
    deduplicate_and_format_sources, format_sources, trim_whitespace, SearchResponse, SearchResult,
};

#[test]
fn strip_removes_one_span() {
    let out = strip_think_spans("A<think>hidden</think>B".to_string());
    assert_eq!(out, "AB");
}

#[test]
fn strip_is_idempotent_on_clean_text() {
    let once = strip_think_spans("A<think>hidden</think>B".to_string());
    let twice = strip_think_spans(once.clone());
    assert_eq!(once, twice);
}

#[test]
fn strip_leaves_clean_text_alone() {
    let out = strip_think_spans("nothing to remove".to_string());
    assert_eq!(out, "nothing to remove");
}

#[test]
fn strip_removes_several_spans() {
    let out = strip_think_spans("x<think>a</think>y<think>b</think>z".to_string());
    assert_eq!(out, "xyz");
}

#[test]
fn strip_keeps_unpaired_tags() {
    assert_eq!(strip_think_spans("open<think>only".to_string()), "open<think>only");
    assert_eq!(strip_think_spans("close</think>only".to_string()), "close</think>only");
    assert_eq!(
        strip_think_spans("a</think>b<think>c".to_string()),
        "a</think>b<think>c"
    );
}

#[test]
fn strip_empty_string() {
    assert_eq!(strip_think_spans(String::new()), "");
}

#[test]
fn find_from_locates_first_occurrence() {
    assert_eq!(find_from("abcabc", "bc", 0), Some(1));
    assert_eq!(find_from("abcabc", "bc", 2), Some(4));
    assert_eq!(find_from("abcabc", "zz", 0), None);
}

#[test]
fn str_eq_compares_contents() {
    assert!(str_eq("same", "same"));
    assert!(!str_eq("same", "Same"));
    assert!(!str_eq("short", "shorter"));
}

#[test]
fn join_strings_separates_entries() {
    let parts = vec!["a".to_string(), "b".to_string(), "c".to_string()];
    assert_eq!(join_strings(&parts, "\n"), "a\nb\nc");
    assert_eq!(join_strings(&vec![], ", "), "");
    assert_eq!(join_strings(&vec!["only".to_string()], ", "), "only");
}

#[test]
fn trim_removes_surrounding_whitespace() {
    assert_eq!(trim_whitespace("  \n hello world \t\r\n"), "hello world");
    assert_eq!(trim_whitespace("untouched"), "untouched");
    assert_eq!(trim_whitespace(" \n\t "), "");
}

fn hit(title: &str, url: &str, content: &str, raw: Option<&str>) -> SearchResult {
    SearchResult {
        title: title.to_string(),
        url: url.to_string(),
        content: content.to_string(),
        raw_content: raw.map(|s| s.to_string()),
    }
}

#[test]
fn format_sources_lists_every_hit() {
    let response = SearchResponse {
        results: vec![hit("T1", "http://a", "c1", None), hit("T2", "http://b", "c2", None)],
    };
    assert_eq!(format_sources(&response), "* T1 : http://a\n* T2 : http://b");
}

#[test]
fn format_sources_of_nothing_is_empty() {
    let response = SearchResponse { results: vec![] };
    assert_eq!(format_sources(&response), "");
}

#[test]
fn dedupe_keeps_last_hit_per_url() {
    let response = SearchResponse {
        results: vec![
            hit("First", "http://a", "one", None),
            hit("Second", "http://a", "two", None),
            hit("Third", "http://b", "three", None),
        ],
    };
    let out = deduplicate_and_format_sources(&response, 100, false);
    assert!(out.starts_with("Sources:"));
    assert!(!out.contains("Source First:"));
    assert!(out.contains("Source Second:"));
    assert!(out.contains("Most relevant content from source: two"));
    assert!(out.contains("Source Third:"));
    // one block per URL
    assert_eq!(out.matches("URL: http://a").count(), 1);
    assert_eq!(out.matches("URL: http://b").count(), 1);
}

#[test]
fn dedupe_formats_one_entry_exactly() {
    let response = SearchResponse { results: vec![hit("T", "http://a", "C", None)] };
    let out = deduplicate_and_format_sources(&response, 100, false);
    assert_eq!(
        out,
        "Sources:\n\nSource T:\n===\nURL: http://a\n===\nMost relevant content from source: C\n==="
    );
}

#[test]
fn dedupe_truncates_raw_content_to_token_budget() {
    let response = SearchResponse {
        results: vec![hit("T", "http://a", "C", Some("abcdefghijklmnop"))],
    };
    let out = deduplicate_and_format_sources(&response, 2, true);
    assert!(out.contains("Full source content limited to 2 tokens: abcdefgh... [truncated]"));

    let short = SearchResponse { results: vec![hit("T", "http://a", "C", Some("tiny"))] };
    let out_short = deduplicate_and_format_sources(&short, 2, true);
    assert!(out_short.contains("Full source content limited to 2 tokens: tiny"));
    assert!(!out_short.contains("[truncated]"));
}

#[test]
fn dedupe_ignores_raw_content_when_not_asked() {
    let response = SearchResponse {
        results: vec![hit("T", "http://a", "C", Some("raw text"))],
    };
    let out = deduplicate_and_format_sources(&response, 2, false);
    assert!(!out.contains("Full source content"));
}

use ollama_deep_researcher::assistant::utils::build_search_response;

#[test]
fn search_response_from_answer_and_citations() {
    let response = build_search_response(
        "the answer".to_string(),
        vec!["http://a".to_string(), "http://b".to_string()],
        0,
    );
    assert_eq!(response.results.len(), 2);
    assert_eq!(response.results[0].title, "Perplexity Search 1, Source 1");
    assert_eq!(response.results[0].url, "http://a");
    assert_eq!(response.results[0].content, "the answer");
    assert_eq!(response.results[0].raw_content.as_deref(), Some("the answer"));
    assert_eq!(response.results[1].title, "Perplexity Search 1, Source 2");
    assert_eq!(response.results[1].url, "http://b");
    assert_eq!(response.results[1].content, "See above for full content");
    assert!(response.results[1].raw_content.is_none());
}

#[test]
fn search_response_without_citations_uses_fixed_url() {
    let response = build_search_response("answer".to_string(), vec![], 2);
    assert_eq!(response.results.len(), 1);
    assert_eq!(response.results[0].title, "Perplexity Search 3, Source 1");
    assert_eq!(response.results[0].url, "https://perplexity.ai");
}
