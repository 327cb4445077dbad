use ollama_deep_researcher::assistant::configuration::{Configuration, ResearchMode, SearchAPI};
use ollama_deep_researcher::assistant::graph::{
    Action, GatewayReply, Orchestrator, OrchestratorPhase, ResearchGraph, RunnerPhase,
};
use ollama_deep_researcher::assistant::state::{Phase, SummaryStateInput, TrackId};
use ollama_deep_researcher::assistant::utils::{SearchResponse, SearchResult};
use ollama_deep_researcher::server::research_response_of;

fn config(mode: ResearchMode, max_loops: i32) -> Configuration {
    Configuration {
        max_web_research_loops: max_loops,
        local_llm: "deepseek-r1:8b".to_string(),
        search_api: SearchAPI::Perplexity,
        perplexity_api_key: "SECRET-REDACTED".to_string(),
        research_mode: mode,
        groq_api_key: None,
        groq_model: "mixtral-8x7b-32768".to_string(),
    }
}

fn canned_search(title: &str, url: &str, content: &str) -> GatewayReply {
    GatewayReply::Search(SearchResponse {
        results: vec![SearchResult {
            title: title.to_string(),
            url: url.to_string(),
            content: content.to_string(),
            raw_content: None,
        }],
    })
}

/// Answers one action with canned text, returning the reply and the track
/// the action belongs to.
fn canned_reply(action: &Action) -> (Option<TrackId>, GatewayReply) {
    match action {
        Action::Search { track, .. } => (
            Some(*track),
            canned_search("T", "http://u", "C"),
        ),
        Action::Generate { track, .. } => (*track, GatewayReply::Text("S".to_string())),
    }
}

/// Drives a session to its end with canned replies, counting the gateway
/// calls it was asked to make.
fn run_to_end(orch: &mut Orchestrator, first: Action) -> (usize, usize) {
    let mut pending = vec![first];
    let mut searches = 0usize;
    let mut generations = 0usize;
    let mut steps = 0;
    while let Some(action) = pending.pop() {
        steps += 1;
        assert!(steps < 1000, "session did not terminate");
        match &action {
            Action::Search { .. } => searches += 1,
            Action::Generate { .. } => generations += 1,
        }
        let (track, reply) = canned_reply(&action);
        let (next, _events) = orch.on_reply(track, reply, 7);
        pending.extend(next);
    }
    (searches, generations)
}

#[test]
fn single_track_runs_exactly_max_loops_cycles() {
    let graph = ResearchGraph::new(config(ResearchMode::Local, 3));
    let (mut orch, first, _events) =
        graph.start_research(SummaryStateInput { research_topic: "X".to_string() }, 7);
    let (searches, generations) = run_to_end(&mut orch, first);
    assert_eq!(orch.phase, OrchestratorPhase::Complete);
    // exactly three retrieval+summarize cycles
    assert_eq!(searches, 3);
    assert_eq!(orch.runner_one.searches, 3);
    assert_eq!(orch.runner_one.summaries, 3);
    // exactly two reflection calls, plus the initial query and three
    // summaries among the generation calls
    assert_eq!(orch.runner_one.reflections, 2);
    assert_eq!(generations, 1 + 3 + 2);
    // the loop counter ends at exactly three
    assert_eq!(orch.state.track_one.research_loop_count, 3);
    assert_eq!(orch.runner_one.phase, RunnerPhase::Done);
}

#[test]
fn single_track_loop_counter_is_not_off_by_one() {
    for n in 1..=4 {
        let graph = ResearchGraph::new(config(ResearchMode::Local, n));
        let (mut orch, first, _events) =
            graph.start_research(SummaryStateInput { research_topic: "X".to_string() }, 7);
        run_to_end(&mut orch, first);
        assert_eq!(orch.state.track_one.research_loop_count as i32, n);
        assert_eq!(orch.runner_one.reflections as i32, n - 1);
    }
}

#[test]
fn end_to_end_single_track_report_is_deterministic() {
    let graph = ResearchGraph::new(config(ResearchMode::Local, 1));
    let (mut orch, first, _events) =
        graph.start_research(SummaryStateInput { research_topic: "X".to_string() }, 7);
    // initial query generation: malformed output falls back to the topic
    match &first {
        Action::Generate { track, .. } => assert_eq!(*track, None),
        _ => panic!("expected a generation action first"),
    }
    let (actions, _events) = orch.on_reply(None, GatewayReply::Text("not json".to_string()), 7);
    assert_eq!(actions.len(), 1);
    match &actions[0] {
        Action::Search { query, loop_index, track } => {
            assert_eq!(query, "X");
            assert_eq!(*loop_index, 0);
            assert_eq!(*track, TrackId::One);
        },
        _ => panic!("expected a search action"),
    }
    let (actions, _events) = orch.on_reply(
        Some(TrackId::One),
        canned_search("T", "http://u", "canned content"),
        7,
    );
    assert_eq!(actions.len(), 1);
    let (actions, events) = orch.on_reply(
        Some(TrackId::One),
        GatewayReply::Text("canned summary".to_string()),
        7,
    );
    assert!(actions.is_empty());
    assert_eq!(orch.phase, OrchestratorPhase::Complete);
    let expected = "### Summary\ncanned summary\n\n### Sources:\n- T (http://u)";
    assert_eq!(orch.output().unwrap().running_summary, expected);
    assert_eq!(orch.state.final_summary.as_deref(), Some(expected));
    let last = events.last().unwrap();
    assert_eq!(last.phase, Phase::Complete);
    assert_eq!(last.message, expected);
    let response = research_response_of(Ok(expected.to_string()));
    assert_eq!(response.summary, expected);
    assert_eq!(response.status, "Research completed");
}

const PERSPECTIVES: &str =
    "{\"topic\": \"X\", \"perspective_one\": \"pro X\", \"perspective_two\": \"con X\"}";

fn start_debate() -> (Orchestrator, Vec<Action>) {
    let graph = ResearchGraph::new(config(ResearchMode::Remote, 1));
    let (mut orch, first, _events) =
        graph.start_research(SummaryStateInput { research_topic: "X".to_string() }, 7);
    match &first {
        Action::Generate { .. } => {},
        _ => panic!("expected the perspectives generation first"),
    }
    let (actions, _events) =
        orch.on_reply(None, GatewayReply::Text(PERSPECTIVES.to_string()), 7);
    (orch, actions)
}

fn finish_track(orch: &mut Orchestrator, id: TrackId, summary: &str) {
    let (actions, _events) =
        orch.on_reply(Some(id), canned_search("T", "http://u", "C"), 7);
    assert_eq!(actions.len(), 1);
    let (actions, _events) =
        orch.on_reply(Some(id), GatewayReply::Text(summary.to_string()), 7);
    assert!(actions.is_empty());
}

#[test]
fn debate_seeds_each_track_from_its_stance() {
    let (orch, actions) = start_debate();
    assert_eq!(orch.state.track_one.search_query, "pro X");
    assert_eq!(orch.state.track_two.search_query, "con X");
    assert_eq!(actions.len(), 2);
    let p = orch.state.debate_perspectives.as_ref().unwrap();
    assert_eq!(p.topic, "X");
}

#[test]
fn debate_report_does_not_depend_on_completion_order() {
    let (mut first_one, _) = start_debate();
    finish_track(&mut first_one, TrackId::One, "S1");
    assert_eq!(first_one.phase, OrchestratorPhase::Running);
    finish_track(&mut first_one, TrackId::Two, "S2");
    assert_eq!(first_one.phase, OrchestratorPhase::Complete);

    let (mut first_two, _) = start_debate();
    finish_track(&mut first_two, TrackId::Two, "S2");
    finish_track(&mut first_two, TrackId::One, "S1");
    assert_eq!(first_two.phase, OrchestratorPhase::Complete);

    let report_a = first_one.output().unwrap().running_summary;
    let report_b = first_two.output().unwrap().running_summary;
    assert_eq!(report_a, report_b);
    assert!(report_a.contains("### Track One\nS1"));
    assert!(report_a.contains("### Track Two\nS2"));
}

#[test]
fn debate_fails_fast_on_malformed_perspectives() {
    let graph = ResearchGraph::new(config(ResearchMode::Remote, 1));
    let (mut orch, _first, _events) =
        graph.start_research(SummaryStateInput { research_topic: "X".to_string() }, 7);
    let (actions, events) =
        orch.on_reply(None, GatewayReply::Text("no braces here".to_string()), 7);
    assert!(actions.is_empty());
    assert_eq!(orch.phase, OrchestratorPhase::Failed);
    assert_eq!(events.len(), 1);
    assert_eq!(events[0].phase, Phase::Error);
    assert!(orch.output().is_none());
}

#[test]
fn zero_loop_budget_yields_an_empty_report() {
    let graph = ResearchGraph::new(config(ResearchMode::Local, 0));
    let (mut orch, _first, _events) =
        graph.start_research(SummaryStateInput { research_topic: "X".to_string() }, 7);
    let (actions, _events) = orch.on_reply(None, GatewayReply::Text("not json".to_string()), 7);
    assert!(actions.is_empty());
    assert_eq!(orch.phase, OrchestratorPhase::Complete);
    assert_eq!(
        orch.output().unwrap().running_summary,
        "### Summary\n\n\n### Sources:\n"
    );
}

#[test]
fn gateway_failure_is_fatal_for_the_request() {
    let graph = ResearchGraph::new(config(ResearchMode::Local, 2));
    let (mut orch, _first, _events) =
        graph.start_research(SummaryStateInput { research_topic: "X".to_string() }, 7);
    orch.on_reply(None, GatewayReply::Text("not json".to_string()), 7);
    let (actions, events) = orch.on_reply(
        Some(TrackId::One),
        GatewayReply::Failure("boom".to_string()),
        7,
    );
    assert!(actions.is_empty());
    assert_eq!(orch.phase, OrchestratorPhase::Failed);
    assert_eq!(events[0].phase, Phase::Error);
    assert_eq!(events[0].message, "Error: boom");
    assert!(orch.output().is_none());
    let response = research_response_of(Err("boom".to_string()));
    assert_eq!(response.summary, "Error: boom");
    assert_eq!(response.status, "Error occurred");
}

#[test]
fn loop_events_carry_one_based_index_and_maximum() {
    let graph = ResearchGraph::new(config(ResearchMode::Local, 2));
    let (mut orch, _first, _events) =
        graph.start_research(SummaryStateInput { research_topic: "X".to_string() }, 7);
    let (_actions, events) = orch.on_reply(None, GatewayReply::Text("not json".to_string()), 7);
    let loop_events: Vec<_> = events.iter().filter(|e| e.phase == Phase::Loop).collect();
    assert_eq!(loop_events.len(), 1);
    assert_eq!(
        loop_events[0].message,
        "Starting research loop 1 of 2 for track one"
    );
    assert_eq!(loop_events[0].track, Some(TrackId::One));
    assert_eq!(loop_events[0].timestamp, 7);
    orch.on_reply(Some(TrackId::One), canned_search("T", "http://u", "C"), 7);
    let (_actions, events) =
        orch.on_reply(Some(TrackId::One), GatewayReply::Text("S".to_string()), 7);
    // summarization done; reflection next, no loop boundary yet
    assert!(events.iter().all(|e| e.phase != Phase::Loop));
    let (_actions, events) = orch.on_reply(
        Some(TrackId::One),
        GatewayReply::Text("{\"follow_up_query\": \"more\"}".to_string()),
        7,
    );
    let loop_events: Vec<_> = events.iter().filter(|e| e.phase == Phase::Loop).collect();
    assert_eq!(
        loop_events[0].message,
        "Starting research loop 2 of 2 for track one"
    );
    assert_eq!(orch.state.track_one.search_query, "more");
}

#[test]
fn configuration_updates_take_effect_on_the_next_request() {
    let mut graph = ResearchGraph::new(config(ResearchMode::Local, 3));
    let (orch, _first, _events) =
        graph.start_research(SummaryStateInput { research_topic: "X".to_string() }, 7);
    graph.update_max_loops(9);
    graph.update_llm("other-model".to_string());
    graph.update_research_mode(ResearchMode::Remote);
    // the in-flight session keeps its snapshot
    assert_eq!(orch.max_loops, 3);
    assert_eq!(orch.mode, ResearchMode::Local);
    // the next request sees the update
    assert_eq!(graph.get_max_loops(), 9);
    assert_eq!(graph.get_llm_model(), "other-model");
    assert_eq!(graph.get_research_mode(), ResearchMode::Remote);
    assert_eq!(graph.get_groq_model(), "mixtral-8x7b-32768");
    let (orch2, _first, _events) =
        graph.start_research(SummaryStateInput { research_topic: "Y".to_string() }, 7);
    assert_eq!(orch2.max_loops, 9);
    assert_eq!(orch2.mode, ResearchMode::Remote);
}
