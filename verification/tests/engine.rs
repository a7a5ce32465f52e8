use mwb_agent::dispatch::{ArgField, RawArgs, RunError, ToolInvocation, ToolName, tool_schemas, validate_invocation};
use mwb_agent::episodes::Episode;
use mwb_agent::orchestrator::{
    Candidate, LlmResponse, Part, RawCall, RawPart, Role, StepOutcome, advance,
    record_tool_result, start_run,
};

fn no_args() -> RawArgs {
    RawArgs { query: None, url: None, episodes: None, playlist_name: None }
}

fn text_response(text: &str) -> LlmResponse {
    LlmResponse {
        candidates: vec![Candidate {
            parts: vec![RawPart { text: Some(text.to_string()), call: None }],
        }],
    }
}

fn call_response(name: &str, args: RawArgs) -> LlmResponse {
    LlmResponse {
        candidates: vec![Candidate {
            parts: vec![RawPart {
                text: None,
                call: Some(RawCall { name: name.to_string(), args }),
            }],
        }],
    }
}

fn one_episode() -> Episode {
    Episode {
        title: "Pilot".to_string(),
        url: "https://example.org/pilot.mp4".to_string(),
        description: None,
        duration_seconds: Some(90),
        channel: Some("ARD".to_string()),
        topic: None,
    }
}

#[test]
fn start_seeds_single_user_turn() {
    let state = start_run("You sort episodes.", &vec![one_episode()]);
    assert_eq!(state.iteration, 0);
    assert!(!state.search_succeeded);
    assert_eq!(state.history.len(), 1);
    assert!(state.history[0].role == Role::User);
    assert_eq!(state.history[0].parts.len(), 1);
    match &state.history[0].parts[0] {
        Part::Text { text } => {
            assert!(text.starts_with("You sort episodes."));
            assert!(text.contains("\"title\":\"Pilot\""));
        }
        _ => panic!("first turn must be text"),
    }
}

#[test]
fn first_iteration_text_gets_search_corrective() {
    let mut state = start_run("prompt", &vec![one_episode()]);
    let outcome = advance(&mut state, &text_response("Here is my analysis."));
    assert!(matches!(outcome, StepOutcome::Corrective));
    assert_eq!(state.iteration, 1);
    assert_eq!(state.history.len(), 3);
    assert!(state.history[1].role == Role::Model);
    assert!(state.history[2].role == Role::User);
    match &state.history[2].parts[0] {
        Part::Text { text } => assert!(text.contains("search")),
        _ => panic!("corrective turn must be text"),
    }
}

#[test]
fn early_text_without_marker_gets_workflow_nudge() {
    let mut state = start_run("prompt", &vec![one_episode()]);
    state.search_succeeded = true;
    state.iteration = 1;
    let outcome = advance(&mut state, &text_response("Still thinking about the order."));
    assert!(matches!(outcome, StepOutcome::Corrective));
    match &state.history[state.history.len() - 1].parts[0] {
        Part::Text { text } => assert!(text.contains("mandatory workflow")),
        _ => panic!("corrective turn must be text"),
    }
}

#[test]
fn early_text_with_marker_is_accepted() {
    let mut state = start_run("prompt", &vec![one_episode()]);
    state.search_succeeded = true;
    state.iteration = 1;
    let outcome = advance(&mut state, &text_response("The Playlist was created."));
    match outcome {
        StepOutcome::Accepted { text } => assert_eq!(text, "The Playlist was created."),
        _ => panic!("text with the completion marker must be accepted"),
    }
}

#[test]
fn late_text_is_accepted_without_marker() {
    let mut state = start_run("prompt", &vec![one_episode()]);
    state.search_succeeded = true;
    state.iteration = 5;
    let outcome = advance(&mut state, &text_response("All done."));
    assert!(matches!(outcome, StepOutcome::Accepted { .. }));
}

#[test]
fn iteration_ceiling_fails_with_limit_error() {
    let mut state = start_run("prompt", &vec![one_episode()]);
    state.iteration = 8;
    let outcome = advance(&mut state, &text_response("anything"));
    assert!(matches!(outcome, StepOutcome::Failed { error: RunError::IterationLimitExceeded }));
    assert_eq!(state.iteration, 8);
    assert_eq!(state.history.len(), 1);
}

#[test]
fn empty_candidates_is_protocol_error() {
    let mut state = start_run("prompt", &vec![one_episode()]);
    let outcome = advance(&mut state, &LlmResponse { candidates: vec![] });
    assert!(matches!(outcome, StepOutcome::Failed { error: RunError::ProtocolError }));
}

#[test]
fn both_fields_present_is_protocol_error() {
    let mut state = start_run("prompt", &vec![one_episode()]);
    let response = LlmResponse {
        candidates: vec![Candidate {
            parts: vec![RawPart {
                text: Some("t".to_string()),
                call: Some(RawCall { name: "search".to_string(), args: no_args() }),
            }],
        }],
    };
    let outcome = advance(&mut state, &response);
    assert!(matches!(outcome, StepOutcome::Failed { error: RunError::ProtocolError }));
}

#[test]
fn read_before_search_aborts_the_run() {
    let mut state = start_run("prompt", &vec![one_episode()]);
    let mut args = no_args();
    args.url = Some("https://de.wikipedia.org/wiki/X".to_string());
    let outcome = advance(&mut state, &call_response("read-content", args));
    assert!(matches!(outcome, StepOutcome::Failed { error: RunError::OrderingViolation }));
    assert_eq!(state.history.len(), 1);
}

#[test]
fn search_call_is_dispatched_and_recorded() {
    let mut state = start_run("prompt", &vec![one_episode()]);
    let mut args = no_args();
    args.query = Some("Show X episode order".to_string());
    let outcome = advance(&mut state, &call_response("search", args));
    match outcome {
        StepOutcome::ToolRequest { invocation: ToolInvocation::Search { query } } => {
            assert_eq!(query, "Show X episode order");
        }
        _ => panic!("a valid search call must be handed back for execution"),
    }
    assert_eq!(state.history.len(), 2);
    assert!(state.history[1].role == Role::Model);
    assert!(!state.search_succeeded);
    record_tool_result(&mut state, "search", "three results");
    assert!(state.search_succeeded);
    assert_eq!(state.history.len(), 3);
    match &state.history[2].parts[0] {
        Part::FunctionResponse { name, response } => {
            assert_eq!(name, "search");
            assert_eq!(response, "three results");
        }
        _ => panic!("the tool result must be a function response"),
    }
}

#[test]
fn read_after_search_is_dispatched() {
    let mut state = start_run("prompt", &vec![one_episode()]);
    state.search_succeeded = true;
    let mut args = no_args();
    args.url = Some("https://de.wikipedia.org/wiki/X".to_string());
    let outcome = advance(&mut state, &call_response("read-content", args));
    match outcome {
        StepOutcome::ToolRequest { invocation: ToolInvocation::ReadContent { url } } => {
            assert_eq!(url, "https://de.wikipedia.org/wiki/X");
        }
        _ => panic!("a valid read call must be handed back for execution"),
    }
}

#[test]
fn unknown_tool_aborts_with_its_name() {
    let mut state = start_run("prompt", &vec![one_episode()]);
    let outcome = advance(&mut state, &call_response("delete-everything", no_args()));
    match outcome {
        StepOutcome::Failed { error: RunError::UnknownTool { name } } => {
            assert_eq!(name, "delete-everything");
        }
        _ => panic!("an unknown tool must abort with its name"),
    }
}

#[test]
fn missing_query_aborts() {
    let mut state = start_run("prompt", &vec![one_episode()]);
    let outcome = advance(&mut state, &call_response("search", no_args()));
    assert!(matches!(
        outcome,
        StepOutcome::Failed {
            error: RunError::MissingArgument { tool: ToolName::Search, field: ArgField::Query }
        }
    ));
}

#[test]
fn missing_playlist_name_aborts() {
    let mut state = start_run("prompt", &vec![one_episode()]);
    let mut args = no_args();
    args.episodes = Some(vec![one_episode()]);
    let outcome = advance(&mut state, &call_response("build-playlist", args));
    assert!(matches!(
        outcome,
        StepOutcome::Failed {
            error: RunError::MissingArgument {
                tool: ToolName::BuildPlaylist,
                field: ArgField::PlaylistName
            }
        }
    ));
}

#[test]
fn validate_build_playlist_passes_arguments_through() {
    let mut args = no_args();
    args.episodes = Some(vec![one_episode()]);
    args.playlist_name = Some("sorted".to_string());
    match validate_invocation("build-playlist", args, true) {
        Ok(ToolInvocation::BuildPlaylist { episodes, playlist_name }) => {
            assert_eq!(episodes.len(), 1);
            assert_eq!(episodes[0].title, "Pilot");
            assert_eq!(playlist_name, "sorted");
        }
        _ => panic!("a complete build-playlist call must validate"),
    }
}

#[test]
fn history_roles_alternate_through_a_run() {
    let mut state = start_run("prompt", &vec![one_episode()]);
    let mut args = no_args();
    args.query = Some("q".to_string());
    let _ = advance(&mut state, &call_response("search", args));
    record_tool_result(&mut state, "search", "result");
    let _ = advance(&mut state, &text_response("no marker yet"));
    for (i, turn) in state.history.iter().enumerate() {
        if i % 2 == 0 {
            assert!(turn.role == Role::User);
        } else {
            assert!(turn.role == Role::Model);
        }
        assert_eq!(turn.parts.len(), 1);
    }
    for i in 0..state.history.len() - 1 {
        if let Part::FunctionCall { name, .. } = &state.history[i].parts[0] {
            match &state.history[i + 1].parts[0] {
                Part::FunctionResponse { name: rn, .. } => assert_eq!(rn, name),
                _ => panic!("every call turn must be answered next"),
            }
        }
    }
}

#[test]
fn full_workflow_runs_to_acceptance() {
    let mut state = start_run("prompt", &vec![one_episode()]);

    let mut search_args = no_args();
    search_args.query = Some("Show X episode order".to_string());
    let out = advance(&mut state, &call_response("search", search_args));
    assert!(matches!(out, StepOutcome::ToolRequest { .. }));
    record_tool_result(&mut state, "search", "Source: https://de.wikipedia.org/wiki/X");

    let mut read_args = no_args();
    read_args.url = Some("https://de.wikipedia.org/wiki/X".to_string());
    let out = advance(&mut state, &call_response("read-content", read_args));
    assert!(matches!(out, StepOutcome::ToolRequest { .. }));
    record_tool_result(&mut state, "read-content", "Folge 1 | 2019\n\nFolge 2 | 2020");

    let mut build_args = no_args();
    build_args.episodes = Some(vec![one_episode()]);
    build_args.playlist_name = Some("Show X sorted".to_string());
    let out = advance(&mut state, &call_response("build-playlist", build_args));
    assert!(matches!(out, StepOutcome::ToolRequest { .. }));
    record_tool_result(&mut state, "build-playlist", "XSPF playlist created");

    let out = advance(&mut state, &text_response("The playlist was created in order."));
    match out {
        StepOutcome::Accepted { text } => assert_eq!(text, "The playlist was created in order."),
        _ => panic!("the grounded final answer must be accepted"),
    }
    assert_eq!(state.iteration, 4);
    assert_eq!(state.history.len(), 7);
    for (i, turn) in state.history.iter().enumerate() {
        assert!(turn.role == if i % 2 == 0 { Role::User } else { Role::Model });
    }
}

#[test]
fn schemas_register_three_tools() {
    let schemas = tool_schemas();
    assert_eq!(schemas.len(), 3);
    assert_eq!(schemas[0].name, "search");
    assert_eq!(schemas[0].required, vec!["query".to_string()]);
    assert_eq!(schemas[1].name, "read-content");
    assert_eq!(schemas[1].required, vec!["url".to_string()]);
    assert_eq!(schemas[2].name, "build-playlist");
    assert_eq!(
        schemas[2].required,
        vec!["episodes".to_string(), "playlist_name".to_string()]
    );
    assert_eq!(schemas[2].params[0].ptype, "array");
}
