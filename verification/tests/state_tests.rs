use ollama_deep_researcher::assistant::debate::DebatePerspectives;
use ollama_deep_researcher::assistant::state::{ResearchTrack, SummaryState};

#[test]
fn new_track_is_empty() {
    let track = ResearchTrack::new();
    assert_eq!(track.search_query, "");
    assert_eq!(track.research_loop_count, 0);
    assert_eq!(track.running_summary, "");
    assert!(track.sources.is_empty());
    assert!(track.web_research_results.is_empty());
}

#[test]
fn fresh_track_continues_research() {
    let track = ResearchTrack::new();
    assert!(track.should_continue_research());
}

#[test]
fn track_with_content_continues_until_three_loops() {
    let mut track = ResearchTrack::new();
    track.running_summary = "something".to_string();
    track.web_research_results.push("result".to_string());
    track.research_loop_count = 2;
    assert!(track.should_continue_research());
    track.research_loop_count = 3;
    assert!(!track.should_continue_research());
}

#[test]
fn track_with_results_but_no_summary_stops() {
    let mut track = ResearchTrack::new();
    track.web_research_results.push("result".to_string());
    assert!(!track.should_continue_research());
}

#[test]
fn with_research_topic_starts_fresh() {
    let state = SummaryState::with_research_topic("rust".to_string());
    assert_eq!(state.research_topic, "rust");
    assert_eq!(state.track_one.research_loop_count, 0);
    assert_eq!(state.track_two.research_loop_count, 0);
    assert!(state.final_summary.is_none());
    assert!(state.debate_perspectives.is_none());
}

#[test]
fn get_track_selects_by_name() {
    let mut state = SummaryState::with_research_topic("t".to_string());
    state.track_one.search_query = "first".to_string();
    state.track_two.search_query = "second".to_string();
    assert_eq!(state.get_track("one").search_query, "first");
    assert_eq!(state.get_track("two").search_query, "second");
    assert_eq!(state.get_track("three").search_query, "first");
}

#[test]
fn get_track_mut_mutates_named_track() {
    let mut state = SummaryState::with_research_topic("t".to_string());
    state.get_track_mut("two").running_summary = "s2".to_string();
    assert_eq!(state.track_two.running_summary, "s2");
    assert_eq!(state.track_one.running_summary, "");
}

#[test]
fn track_mutators_touch_only_the_named_track() {
    let mut state = SummaryState::with_research_topic("t".to_string());
    state.set_search_query("one", "q1".to_string());
    state.increment_loop_count("one");
    state.add_source("one", "- a (u)".to_string());
    state.add_web_research_result("one", "payload".to_string());
    state.set_running_summary("one", "sum".to_string());
    assert_eq!(state.track_one.search_query, "q1");
    assert_eq!(state.track_one.research_loop_count, 1);
    assert_eq!(state.track_one.sources, vec!["- a (u)".to_string()]);
    assert_eq!(state.track_one.web_research_results, vec!["payload".to_string()]);
    assert_eq!(state.track_one.running_summary, "sum");
    assert_eq!(state.track_two.search_query, "");
    assert_eq!(state.track_two.research_loop_count, 0);
    assert!(state.track_two.sources.is_empty());
}

#[test]
fn unknown_track_name_defaults_to_track_one() {
    let mut state = SummaryState::with_research_topic("t".to_string());
    state.set_search_query("elsewhere", "q".to_string());
    assert_eq!(state.track_one.search_query, "q");
    assert_eq!(state.track_two.search_query, "");
}

#[test]
fn final_summary_and_perspectives_are_stored() {
    let mut state = SummaryState::with_research_topic("t".to_string());
    state.set_debate_perspectives(DebatePerspectives {
        topic: "t".to_string(),
        perspective_one: "a".to_string(),
        perspective_two: "b".to_string(),
    });
    state.set_final_summary("done".to_string());
    assert_eq!(state.final_summary.as_deref(), Some("done"));
    let p = state.debate_perspectives.as_ref().unwrap();
    assert_eq!(p.perspective_one, "a");
    assert_eq!(p.perspective_two, "b");
}
