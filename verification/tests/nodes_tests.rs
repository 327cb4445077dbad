use ollama_deep_researcher::assistant::debate::{
    extract_json_span, format_debate_prompt, parse_perspectives_response,
};
use ollama_deep_researcher::assistant::graph::{
    FinalizerNode, QueryGeneratorNode, ReflectionNode, ResearchSource, SummarizerNode,
    WebResearchNode,
};
use ollama_deep_researcher::assistant::prompts::{
    format_query_writer_instructions, format_reflection_instructions, QUERY_WRITER_INSTRUCTIONS,
};
use ollama_deep_researcher::assistant::state::ResearchTrack;
use ollama_deep_researcher::assistant::utils::{SearchResponse, SearchResult};

fn hit(title: &str, url: &str, content: &str) -> SearchResult {
    SearchResult {
        title: title.to_string(),
        url: url.to_string(),
        content: content.to_string(),
        raw_content: None,
    }
}

#[test]
fn query_node_falls_back_to_topic_on_malformed_output() {
    let q = QueryGeneratorNode::select_query("not json", "rust ownership");
    assert_eq!(q, "rust ownership");
}

#[test]
fn query_node_reads_query_field() {
    let q = QueryGeneratorNode::select_query("{\"query\": \"rust borrow checker\"}", "rust");
    assert_eq!(q, "rust borrow checker");
}

#[test]
fn query_node_falls_back_when_field_is_missing() {
    assert_eq!(QueryGeneratorNode::select_query("{}", "rust"), "rust");
    assert_eq!(QueryGeneratorNode::select_query("{\"query\": 7}", "rust"), "rust");
}

#[test]
fn query_prompt_embeds_topic() {
    let prompt = QueryGeneratorNode::build_prompt("rust");
    let mut expected = QUERY_WRITER_INSTRUCTIONS.to_string();
    expected.push_str(
        "\n\nEnhance this search query while preserving its core meaning. Original query: rust",
    );
    assert_eq!(prompt, expected);
}

#[test]
fn query_writer_instructions_are_fixed() {
    assert_eq!(format_query_writer_instructions("anything"), QUERY_WRITER_INSTRUCTIONS);
}

#[test]
fn reflection_instructions_interpolate_topic() {
    let text = format_reflection_instructions("ferris");
    assert!(text.contains("what important aspects of ferris still need to be explored"));
}

#[test]
fn reflection_node_falls_back_on_missing_field() {
    let q = ReflectionNode::select_follow_up("{}", "rust ownership");
    assert_eq!(q, "Tell me more about rust ownership");
}

#[test]
fn reflection_node_falls_back_on_malformed_output() {
    let q = ReflectionNode::select_follow_up("no json here", "birds");
    assert_eq!(q, "Tell me more about birds");
}

#[test]
fn reflection_node_reads_follow_up_field() {
    let q = ReflectionNode::select_follow_up("{\"follow_up_query\": \"next question\"}", "t");
    assert_eq!(q, "next question");
}

#[test]
fn web_research_records_sources_and_content() {
    let mut track = ResearchTrack::new();
    let results = SearchResponse {
        results: vec![hit("T1", "http://a", "first content"), hit("T2", "http://b", "other")],
    };
    let detail = WebResearchNode::apply_to_track(&mut track, &results);
    assert_eq!(
        track.sources,
        vec!["- T1 (http://a)".to_string(), "- T2 (http://b)".to_string()]
    );
    assert_eq!(track.web_research_results, vec!["first content".to_string()]);
    assert_eq!(
        detail,
        "{\"content\":\"first content\",\"sources\":[{\"content\":\"first content\",\"title\":\"T1\",\"url\":\"http://a\"},{\"content\":\"other\",\"title\":\"T2\",\"url\":\"http://b\"}]}"
    );
}

#[test]
fn web_research_with_no_hits_records_empty_content() {
    let mut track = ResearchTrack::new();
    let results = SearchResponse { results: vec![] };
    let detail = WebResearchNode::apply_to_track(&mut track, &results);
    assert!(track.sources.is_empty());
    assert_eq!(track.web_research_results, vec![String::new()]);
    assert_eq!(detail, "{\"content\":\"\",\"sources\":[]}");
}

#[test]
fn summarizer_strips_think_spans_before_storing() {
    let mut track = ResearchTrack::new();
    let detail = SummarizerNode::apply_to_track(&mut track, "A<think>hidden</think>B".to_string());
    assert_eq!(track.running_summary, "AB");
    assert_eq!(detail, "{\"sources\":[],\"summary\":\"AB\"}");
}

#[test]
fn summarizer_detail_escapes_the_summary() {
    let mut track = ResearchTrack::new();
    let detail = SummarizerNode::apply_to_track(
        &mut track,
        "say \"hi\" \\ twice\nplease\u{1b}".to_string(),
    );
    assert_eq!(
        detail,
        "{\"sources\":[],\"summary\":\"say \\\"hi\\\" \\\\ twice\\nplease\\u001b\"}"
    );
    // the escaping agrees with a JSON serializer's string form
    let serialized_summary = serde_json::to_string(&track.running_summary).unwrap();
    let expected = format!("{{\"sources\":[],\"summary\":{}}}", serialized_summary);
    assert_eq!(detail, expected);
}

#[test]
fn summarizer_prompt_mentions_existing_summary_only_when_present() {
    let fresh = SummarizerNode::build_prompt("topic", "", "latest");
    assert!(fresh.contains("<Search Results> \n latest \n </Search Results>"));
    assert!(!fresh.contains("Existing Summary"));
    let followup = SummarizerNode::build_prompt("topic", "so far", "latest");
    assert!(followup.contains("<Existing Summary> \n so far \n </Existing Summary>"));
    assert!(followup.contains("<New Search Results> \n latest \n </New Search Results>"));
}

#[test]
fn research_source_citation_format() {
    let source = ResearchSource::from_result(&hit("Title", "http://x", "c"));
    assert_eq!(source.citation(), "- Title (http://x)");
}

#[test]
fn finalizer_single_report_format() {
    let mut track = ResearchTrack::new();
    track.running_summary = "S".to_string();
    track.sources.push("- T (U)".to_string());
    track.sources.push("- T2 (U2)".to_string());
    assert_eq!(
        FinalizerNode::single_report(&track),
        "### Summary\nS\n\n### Sources:\n- T (U)\n- T2 (U2)"
    );
}

#[test]
fn finalizer_debate_report_labels_both_tracks() {
    let mut one = ResearchTrack::new();
    one.running_summary = "S1".to_string();
    one.sources.push("- A (u1)".to_string());
    let mut two = ResearchTrack::new();
    two.running_summary = "S2".to_string();
    two.sources.push("- B (u2)".to_string());
    assert_eq!(
        FinalizerNode::debate_report(&one, &two),
        "### Track One\nS1\n\n### Track One Sources:\n- A (u1)\n\n### Track Two\nS2\n\n### Track Two Sources:\n- B (u2)"
    );
}

#[test]
fn debate_prompt_embeds_topic() {
    let prompt = format_debate_prompt("cats");
    assert!(prompt.contains("Research Topic: cats"));
    assert!(prompt.starts_with("You are a debate coach"));
}

#[test]
fn json_span_extraction() {
    assert_eq!(extract_json_span("noise {\"a\": 1} trailing"), "{\"a\": 1}");
    assert_eq!(extract_json_span("no braces at all"), "no braces at all");
    assert_eq!(extract_json_span("} reversed {"), "");
}

#[test]
fn perspectives_parse_from_noisy_response() {
    let response = "Sure! Here you go: {\"topic\": \"cats\", \"perspective_one\": \"pro\", \"perspective_two\": \"con\"} hope that helps";
    let p = parse_perspectives_response(response).unwrap();
    assert_eq!(p.topic, "cats");
    assert_eq!(p.perspective_one, "pro");
    assert_eq!(p.perspective_two, "con");
}

#[test]
fn perspectives_parse_rejects_incomplete_objects() {
    assert!(parse_perspectives_response("not json").is_none());
    assert!(parse_perspectives_response("{\"topic\": \"t\"}").is_none());
    assert!(
        parse_perspectives_response("{\"topic\": \"t\", \"perspective_one\": \"a\"}").is_none()
    );
}
