use agent_core::agent::Role;
use agent_core::guardrail::{
    GuardrailChain, GuardrailContext, GuardrailContextView, GuardrailResult, PlausibilityGuard,
    SemanticGuardrail, Verdict,
};
use agent_core::json::Json;
use agent_core::llm::{
    advance_position, is_complete_given, is_generation_complete, Cursor, LLMBackend, LLMInput,
    LLMOutput,
};
use agent_core::orchestrator::{
    execute_extraction_skill, extraction_call, finish_extraction, run_agent, Action, AgentLoop,
    Attempt, Failure, Outcome, Phase, ToolExecutor,
};
use agent_core::protocol::ParseResult;
use agent_core::skill::{ExtractionInput, ExtractionTarget, SkillRequest};
use agent_core::tool::{ToolRequest, ToolResult};

struct Script {
    outputs: Vec<&'static str>,
    inputs: Vec<LLMInput>,
}

impl Script {
    fn new(outputs: &[&'static str]) -> Self {
        Script { outputs: outputs.to_vec(), inputs: Vec::new() }
    }
}

impl LLMBackend for Script {
    fn infer(&mut self, input: LLMInput) -> Result<LLMOutput, anyhow::Error> {
        let n = self.inputs.len();
        self.inputs.push(input);
        match self.outputs.get(n) {
            Some(text) => Ok(LLMOutput { text: text.to_string(), tokens_processed: 10 }),
            None => Err(anyhow::Error::msg("script exhausted")),
        }
    }
}

struct Tools {
    results: Vec<ToolResult>,
    requests: Vec<ToolRequest>,
}

impl Tools {
    fn new(results: Vec<ToolResult>) -> Self {
        Tools { results, requests: Vec::new() }
    }
}

impl ToolExecutor for Tools {
    fn execute(&mut self, request: &ToolRequest) -> Result<ToolResult, anyhow::Error> {
        let n = self.requests.len();
        self.requests.push(request.clone());
        match self.results.get(n) {
            Some(result) => Ok(result.clone()),
            None => Err(anyhow::Error::msg("no more tool results")),
        }
    }
}

struct CountingReject {
    reasons: Vec<&'static str>,
    asked: std::cell::Cell<usize>,
}

impl SemanticGuardrail for CountingReject {
    fn verdict(&self, _: GuardrailContextView) -> Verdict {
        unreachable!("a guardrail's model is never run")
    }

    fn validate(&self, _: &GuardrailContext) -> GuardrailResult {
        let n = self.asked.get();
        self.asked.set(n + 1);
        GuardrailResult::reject(self.reasons[n % self.reasons.len()])
    }
}

fn plausibility() -> GuardrailChain {
    GuardrailChain::new().add(Box::new(PlausibilityGuard::new()))
}

fn outcome_of(session: &AgentLoop) -> Outcome {
    session.outcome().expect("the session is over").clone()
}

const LS: &str = r#"{"tool":"shell","command":"ls"}"#;
const EXTRACT: &str = r#"{"skill":"extract","text":"Mail hello@agent.rs","target":"email"}"#;

#[test]
fn answer_at_once_ends_in_success() {
    let mut backend = Script::new(&["The answer is 4."]);
    let mut tools = Tools::new(vec![]);
    let session =
        run_agent("What is 2+2?", "SYSTEM", 5, 64, &mut backend, &mut tools, &plausibility())
            .unwrap().session;

    assert_eq!(outcome_of(&session), Outcome::Success("The answer is 4.".to_string()));
    assert_eq!(session.iterations, 1);
    assert_eq!(backend.inputs.len(), 1);
    assert!(tools.requests.is_empty());
    assert!(session.state.is_complete);
    assert_eq!(session.state.final_answer, Some("The answer is 4.".to_string()));
    assert_eq!(session.state.history.len(), 2);
    assert_eq!(outcome_of(&session).exit_code(), 0);
}

#[test]
fn accepted_tool_then_answer_takes_two_iterations() {
    let mut backend = Script::new(&[LS, "There are two files."]);
    let mut tools = Tools::new(vec![ToolResult::success("a.txt\nb.txt\n")]);
    let session =
        run_agent("List files", "SYSTEM", 5, 64, &mut backend, &mut tools, &plausibility())
            .unwrap().session;

    assert_eq!(outcome_of(&session), Outcome::Success("There are two files.".to_string()));
    assert_eq!(session.iterations, 2);
    assert!(session.tool_used);
    assert_eq!(backend.inputs.len(), 2);
    assert_eq!(tools.requests.len(), 1);
    assert_eq!(tools.requests[0].tool, "shell");
    assert_eq!(tools.requests[0].params.get_str("command"), Some("ls"));

    let history = &session.state.history;
    assert_eq!(history.len(), 4);
    assert_eq!((history[0].role, history[0].content.as_str()), (Role::User, "List files"));
    assert_eq!((history[1].role, history[1].content.as_str()), (Role::Assistant, LS));
    assert_eq!(
        (history[2].role, history[2].content.as_str()),
        (Role::Tool, "Tool output:\na.txt\nb.txt\n")
    );
    assert_eq!(
        (history[3].role, history[3].content.as_str()),
        (Role::Assistant, "There are two files.")
    );

    assert!(!backend.inputs[0].prompt.contains("OBSERVATIONS"));
    assert!(backend.inputs[1].prompt.contains("OBSERVATIONS"));
    assert!(backend.inputs[0].first_generation);
    assert!(!backend.inputs[1].first_generation);
    assert_eq!(backend.inputs[0].current_pos, 0);
    assert_eq!(backend.inputs[1].current_pos, 10);
    assert_eq!(backend.inputs[1].max_tokens, 64);
}

#[test]
fn two_rejections_end_in_failure_with_both_reasons() {
    let guard = CountingReject { reasons: vec!["first reason", "second reason"], asked: 0.into() };
    let chain = GuardrailChain::new().add(Box::new(guard));
    let mut backend = Script::new(&[LS, r#"{"tool":"shell","command":"ls -l"}"#]);
    let mut tools =
        Tools::new(vec![ToolResult::success("total 1"), ToolResult::success("total 2")]);
    let session = run_agent("List files", "SYS", 5, 64, &mut backend, &mut tools, &chain).unwrap().session;

    let outcome = outcome_of(&session);
    assert_eq!(
        outcome,
        Outcome::Failure(Failure::GuardrailRejectedTwice {
            initial_reason: "first reason".to_string(),
            retry_reason: "second reason".to_string(),
        })
    );
    assert_eq!(outcome.exit_code(), 1);
    assert_eq!(session.iterations, 1);
    assert_eq!(tools.requests.len(), 2);
    assert!(!session.state.is_complete);
    assert!(!session.tool_used);
    assert_eq!(session.state.history.len(), 3);

    if let Outcome::Failure(failure) = outcome {
        let report = failure.diagnostic();
        assert!(report.contains("first reason"));
        assert!(report.contains("second reason"));
        assert!(report.contains("Initial attempt: first reason\n"));
        assert!(report.contains("Retry attempt:   second reason\n"));
        assert!(report.contains("TASK FAILED: Agent could not produce valid output"));
    }
    assert!(!backend.inputs[0].prompt.contains("CRITICAL"));
    assert!(backend.inputs[1].prompt.contains("CRITICAL"));
}

#[test]
fn plausibility_rejecting_twice_ends_in_failure() {
    let mut backend = Script::new(&[LS, LS]);
    let mut tools = Tools::new(vec![ToolResult::success("total 123"), ToolResult::success("")]);
    let session =
        run_agent("List files", "SYS", 5, 64, &mut backend, &mut tools, &plausibility()).unwrap().session;
    assert_eq!(
        outcome_of(&session),
        Outcome::Failure(Failure::GuardrailRejectedTwice {
            initial_reason:
                "Tool output contains only metadata (e.g. 'total' line), not actual data"
                    .to_string(),
            retry_reason: "Tool output is empty - no data returned".to_string(),
        })
    );
}

#[test]
fn inconclusive_retry_fails_as_such_with_one_iteration() {
    let mut backend = Script::new(&["I will run ls now", "Let me think about it\nmore"]);
    let mut tools = Tools::new(vec![]);
    let session =
        run_agent("List files", "SYS", 1, 64, &mut backend, &mut tools, &plausibility()).unwrap().session;

    let outcome = outcome_of(&session);
    assert_eq!(
        outcome,
        Outcome::Failure(Failure::InconclusiveAfterRetry {
            first: "I will run ls now".to_string(),
            retry: "Let me think about it\nmore".to_string(),
        })
    );
    assert_ne!(outcome, Outcome::Failure(Failure::IterationsExhausted));
    assert_eq!(session.iterations, 1);
    assert_eq!(backend.inputs.len(), 2);
    assert_eq!(session.state.history.len(), 1);
    if let Outcome::Failure(failure) = outcome {
        let report = failure.diagnostic();
        assert!(report.contains("Original output: \"I will run ls now\"\n"));
        assert!(report.contains("Retry output:    \"Let me think about it\nmore\"\n"));
        assert!(report.contains("Model failed to produce a valid response after retry."));
    }
}

#[test]
fn no_iteration_allowed_asks_nobody() {
    let mut backend = Script::new(&[]);
    let mut tools = Tools::new(vec![]);
    let session = run_agent("q", "SYS", 0, 64, &mut backend, &mut tools, &plausibility()).unwrap().session;
    assert_eq!(outcome_of(&session), Outcome::Failure(Failure::IterationsExhausted));
    assert_eq!(session.iterations, 0);
    assert!(backend.inputs.is_empty());
    assert_eq!(
        Failure::IterationsExhausted.diagnostic(),
        "\n\u{26a0}\u{fe0f}  Warning: Agent reached maximum iterations without completing."
    );
}

#[test]
fn iterations_run_out() {
    let mut backend = Script::new(&[LS, LS, LS]);
    let mut tools = Tools::new(vec![
        ToolResult::success("a.txt"),
        ToolResult::failure("denied"),
        ToolResult::success("b.txt"),
    ]);
    let session =
        run_agent("q", "SYS", 3, 64, &mut backend, &mut tools, &plausibility()).unwrap().session;
    assert_eq!(outcome_of(&session), Outcome::Failure(Failure::IterationsExhausted));
    assert_eq!(session.iterations, 3);
    assert_eq!(backend.inputs.len(), 3);
    assert_eq!(session.state.history.len(), 7);
    assert_eq!(session.state.history[4].content, "Tool failed: denied");
    assert!(!session.state.is_complete);
}

#[test]
fn retry_after_rejection_can_recover() {
    let mut backend = Script::new(&[LS, LS, "Done: a.txt"]);
    let mut tools = Tools::new(vec![ToolResult::success("total 5"), ToolResult::success("a.txt")]);
    let session =
        run_agent("q", "SYS", 2, 64, &mut backend, &mut tools, &plausibility()).unwrap().session;
    assert_eq!(outcome_of(&session), Outcome::Success("Done: a.txt".to_string()));
    assert_eq!(session.iterations, 2);
    assert_eq!(backend.inputs.len(), 3);
    let history = &session.state.history;
    assert_eq!(history.len(), 5);
    assert_eq!(history[3].content, "Tool output:\na.txt");
}

#[test]
fn retry_after_rejection_may_answer() {
    let mut backend = Script::new(&[LS, "It is a.txt"]);
    let mut tools = Tools::new(vec![ToolResult::success("  ")]);
    let session =
        run_agent("q", "SYS", 1, 64, &mut backend, &mut tools, &plausibility()).unwrap().session;
    assert_eq!(outcome_of(&session), Outcome::Success("It is a.txt".to_string()));
    assert_eq!(session.iterations, 1);
}

#[test]
fn inconclusive_after_rejection_is_its_own_failure() {
    let mut backend = Script::new(&[LS, "Let me try again\nwith more words"]);
    let mut tools = Tools::new(vec![ToolResult::success("total 5")]);
    let session =
        run_agent("q", "SYS", 4, 64, &mut backend, &mut tools, &plausibility()).unwrap().session;
    let outcome = outcome_of(&session);
    assert_eq!(
        outcome,
        Outcome::Failure(Failure::InconclusiveAfterRejection {
            reason: "Tool output contains only metadata (e.g. 'total' line), not actual data"
                .to_string(),
            output: "Let me try again\nwith more words".to_string(),
        })
    );
    if let Outcome::Failure(failure) = outcome {
        let report = failure.diagnostic();
        assert!(report.contains(
            "Guardrail rejection: Tool output contains only metadata (e.g. 'total' line), not actual data\n"
        ));
        assert!(report.contains("Model output: \"Let me try again\nwith more words\"\n"));
        assert!(report.contains("TASK FAILED: Model could not recover from validation failure"));
    }
}

#[test]
fn tool_after_inconclusive_passes_the_guardrails() {
    let mut backend = Script::new(&["I will list the files", LS, "Let me see", "x"]);
    let mut tools = Tools::new(vec![ToolResult::success("total 9")]);
    let session =
        run_agent("q", "SYS", 1, 64, &mut backend, &mut tools, &plausibility()).unwrap().session;
    assert_eq!(
        outcome_of(&session),
        Outcome::Failure(Failure::InconclusiveAfterRejection {
            reason: "Tool output contains only metadata (e.g. 'total' line), not actual data"
                .to_string(),
            output: "Let me see".to_string(),
        })
    );
    assert_eq!(session.iterations, 1);
    assert_eq!(backend.inputs.len(), 3);

    let mut backend = Script::new(&["I will list the files", LS, "Two files."]);
    let mut tools = Tools::new(vec![ToolResult::success("a\nb")]);
    let session =
        run_agent("q", "SYS", 2, 64, &mut backend, &mut tools, &plausibility()).unwrap().session;
    assert_eq!(outcome_of(&session), Outcome::Success("Two files.".to_string()));
    assert_eq!(session.iterations, 2);
    assert!(backend.inputs[1].prompt.contains("CRITICAL"));
    assert!(!backend.inputs[2].prompt.contains("CRITICAL"));
}

#[test]
fn skill_runs_and_reports_into_the_history() {
    let mut backend = Script::new(&[EXTRACT, r#"{"email": ["hello@agent.rs"]}"#, "Found it."]);
    let mut tools = Tools::new(vec![]);
    let session =
        run_agent("q", "SYS", 3, 64, &mut backend, &mut tools, &plausibility()).unwrap().session;
    assert_eq!(outcome_of(&session), Outcome::Success("Found it.".to_string()));
    assert_eq!(session.iterations, 2);
    assert!(!session.tool_used);
    let history = &session.state.history;
    assert_eq!(history.len(), 4);
    assert_eq!(history[1].content, EXTRACT);
    assert_eq!(history[2].role, Role::Tool);
    assert_eq!(history[2].content, "Skill output:\n{\"email\":[\"hello@agent.rs\"]}");
    assert!(backend.inputs[1].prompt.starts_with("Extract email addresses from the following"));
    assert!(backend.inputs[1].prompt.contains("Text: \"Mail hello@agent.rs\""));
}

#[test]
fn skill_failure_is_recorded_and_the_loop_goes_on() {
    let mut backend = Script::new(&[EXTRACT, r#"{"email": ["fake@example.com"]}"#, "Nothing."]);
    let mut tools = Tools::new(vec![]);
    let session =
        run_agent("q", "SYS", 3, 64, &mut backend, &mut tools, &plausibility()).unwrap().session;
    assert_eq!(outcome_of(&session), Outcome::Success("Nothing.".to_string()));
    assert_eq!(
        session.state.history[2].content,
        "Skill failed: HallucinationDetected: 'fake@example.com' not found in source text"
    );

    let bad_target = r#"{"skill":"extract","text":"abc","target":"phone"}"#;
    let mut backend = Script::new(&[bad_target, "Nothing."]);
    let session =
        run_agent("q", "SYS", 3, 64, &mut backend, &mut tools, &plausibility()).unwrap().session;
    assert_eq!(backend.inputs.len(), 2);
    assert_eq!(
        session.state.history[2].content,
        "Skill failed: InvalidTarget: unknown target 'phone'"
    );
    assert_eq!(session.iterations, 2);
}

#[test]
fn backend_error_ends_the_run() {
    let mut backend = Script::new(&[LS]);
    let mut tools = Tools::new(vec![ToolResult::success("a.txt")]);
    let err = run_agent("q", "SYS", 3, 64, &mut backend, &mut tools, &plausibility()).unwrap_err();
    assert_eq!(err.to_string(), "script exhausted");

    let mut backend = Script::new(&[LS]);
    let mut tools = Tools::new(vec![]);
    let err = run_agent("q", "SYS", 3, 64, &mut backend, &mut tools, &plausibility()).unwrap_err();
    assert_eq!(err.to_string(), "no more tool results");
}

#[test]
fn session_steps_by_hand() {
    let session = AgentLoop::new("q", 2);
    assert!(session.awaits_generation());
    assert!(!session.awaits_tool());
    assert!(!session.is_terminated());
    assert!(session.outcome().is_none());
    assert!(matches!(session.phase, Phase::Generating(Attempt::Primary)));
    match session.next_action("SYS") {
        Action::Generate { prompt } => assert_eq!(prompt, "SYS\n\nUser: q\n\nAssistant: "),
        _ => panic!("a generation is awaited"),
    }

    let session = session.on_generation(LS);
    assert!(session.awaits_tool());
    match session.next_action("SYS") {
        Action::RunTool { request } => assert_eq!(request.tool, "shell"),
        _ => panic!("a tool is awaited"),
    }

    let session = session.on_verdict(&ToolResult::success("x"), GuardrailResult::reject("no"));
    assert!(matches!(&session.phase, Phase::Generating(Attempt::AfterRejection { reason }) if reason == "no"));
    assert_eq!(session.iterations, 1);

    let session = session.on_parsed(
        "whatever",
        ParseResult::ToolCall(ToolRequest { tool: "shell".to_string(), params: Json::Null }),
    );
    let session = session.on_tool_result(&plausibility(), &ToolResult::success("file.txt"));
    assert!(matches!(session.phase, Phase::Generating(Attempt::Primary)));
    assert_eq!(session.iterations, 2);
    assert!(session.tool_used);

    let session = session.on_generation("All done.");
    assert!(session.is_terminated());
    assert!(!session.awaits_generation());
    match session.next_action("SYS") {
        Action::Stop { outcome } => assert_eq!(outcome, Outcome::Success("All done.".to_string())),
        _ => panic!("the session is over"),
    }
}

#[test]
fn skill_steps_by_hand() {
    let session = AgentLoop::new("q", 1).on_generation(EXTRACT);
    assert!(session.awaits_skill_output());
    assert!(session.awaits_generation());
    let session = session.on_skill_generation("not json");
    assert_eq!(
        session.state.history[2].content,
        "Skill failed: MalformedOutput: invalid JSON: expected ident at line 1 column 2"
    );
    assert_eq!(outcome_of(&session), Outcome::Failure(Failure::IterationsExhausted));
}

#[test]
fn extraction_is_all_or_nothing() {
    let input = ExtractionInput::new("Mail hello@agent.rs or see http://agent.rs", "email");
    let ok = finish_extraction(&input, ExtractionTarget::Email, " {\"email\": \"hello@agent.rs\"} ");
    assert!(ok.success);
    assert_eq!(ok.output, Some(Json::Object(vec![("email".to_string(), Json::Str("hello@agent.rs".to_string()))])));
    assert_eq!(ok.error, None);

    let partly = finish_extraction(
        &input,
        ExtractionTarget::Email,
        r#"{"email": ["hello@agent.rs", "other@agent.rs"]}"#,
    );
    assert!(!partly.success);
    assert_eq!(partly.output, None);
    assert_eq!(
        partly.error,
        Some("HallucinationDetected: 'other@agent.rs' not found in source text".to_string())
    );

    let schema = finish_extraction(&input, ExtractionTarget::Url, r#"{"email": []}"#);
    assert_eq!(
        schema.error,
        Some("SchemaViolation: output missing 'url' field".to_string())
    );
}

#[test]
fn extraction_skill_alone() {
    let request = SkillRequest::new(
        "extract",
        Json::Object(vec![
            ("text".to_string(), Json::Str("See http://agent.rs".to_string())),
            ("target".to_string(), Json::Str("url".to_string())),
        ]),
    );
    let mut backend = Script::new(&[r#"{"url": ["http://agent.rs"]}"#]);
    let mut pos = 7;
    let response = execute_extraction_skill(&request, &mut backend, 32, &mut pos).unwrap();
    assert!(response.success);
    assert_eq!(response.to_json(), r#"{"url":["http://agent.rs"]}"#);
    assert_eq!(pos, 17);
    assert_eq!(backend.inputs[0].current_pos, 7);
    assert_eq!(backend.inputs[0].max_tokens, 32);
    assert!(!backend.inputs[0].first_generation);

    let refused = SkillRequest::new("extract", Json::Object(vec![]));
    let mut silent = Script::new(&[]);
    let response = execute_extraction_skill(&refused, &mut silent, 32, &mut pos).unwrap();
    assert!(!response.success);
    assert_eq!(response.error, Some("SchemaViolation: missing 'text' field".to_string()));
    assert!(silent.inputs.is_empty());
    assert_eq!(pos, 17);

    let empty = SkillRequest::new(
        "extract",
        Json::Object(vec![
            ("text".to_string(), Json::Str(String::new())),
            ("target".to_string(), Json::Str("url".to_string())),
        ]),
    );
    let response = execute_extraction_skill(&empty, &mut silent, 32, &mut pos).unwrap();
    assert_eq!(response.error, Some("EmptyInput: the input text is empty".to_string()));

    let err = execute_extraction_skill(&request, &mut silent, 32, &mut pos).unwrap_err();
    assert_eq!(err.to_string(), "script exhausted");
}

#[test]
fn position_stays_in_range() {
    assert_eq!(advance_position(0, 10), 10);
    assert_eq!(advance_position(5, -3), 2);
    assert_eq!(advance_position(i32::MAX - 1, 5), i32::MAX);
    assert_eq!(advance_position(i32::MIN + 1, -5), i32::MIN);
}

#[test]
fn generation_stops_at_complete_json_or_a_finished_paragraph() {
    assert!(is_generation_complete("{\"tool\": \"shell\", \"command\": \"ls\"}"));
    assert!(is_generation_complete("  {\"a\": {}}\n"));
    assert!(!is_generation_complete("{\"tool\": \"shell\", \"command\": \"ls\""));
    assert!(!is_generation_complete("{\"a\": {}"));
    assert!(!is_generation_complete("{ not json }\n\nDone."));

    assert!(is_generation_complete("First paragraph.\n\n"));
    assert!(is_generation_complete("One.\n\nTwo!  \n"));
    assert!(is_generation_complete("Is it?\n\nIs it really?"));
    assert!(!is_generation_complete("First paragraph.\n"));
    assert!(!is_generation_complete("First paragraph.\n\nSecond, unfinished"));
    assert!(!is_generation_complete("\n\n"));
    assert!(!is_generation_complete(""));
    assert!(!is_generation_complete("[1, 2]"));

    assert!(is_complete_given("{}", true));
    assert!(!is_complete_given("{}", false));
    assert!(!is_complete_given("{", true));
    assert!(is_complete_given("a.\n\n", false));
}

#[test]
fn reports_hold_the_texts_whole() {
    let one = Failure::InconclusiveAfterRetry {
        first: "I will look\nfirst here".to_string(),
        retry: "Let me see\r\nagain".to_string(),
    };
    let other = Failure::InconclusiveAfterRetry {
        first: "I will look\nthen there".to_string(),
        retry: "Let me see\r\nagain".to_string(),
    };
    assert!(one.diagnostic().contains("\"I will look\nfirst here\""));
    assert!(one.diagnostic().contains("\"Let me see\r\nagain\""));
    assert_ne!(one.diagnostic(), other.diagnostic());

    let rejected = Failure::InconclusiveAfterRejection {
        reason: "no data\nat all".to_string(),
        output: "Let me try\nonce more".to_string(),
    };
    let report = rejected.diagnostic();
    assert!(report.contains("Guardrail rejection: no data\nat all\n"));
    assert!(report.contains("Model output: \"Let me try\nonce more\"\n"));
    let shorter = Failure::InconclusiveAfterRejection {
        reason: "no data\nat all".to_string(),
        output: "Let me try\n".to_string(),
    };
    assert_ne!(report, shorter.diagnostic());

    let empty = Failure::InconclusiveAfterRetry { first: String::new(), retry: String::new() };
    assert!(empty.diagnostic().contains("Original output: \"\"\nRetry output:    \"\"\n"));
}

#[test]
fn every_call_is_given_the_limit_and_the_cursor() {
    let mut backend = Script::new(&["I will list", LS, EXTRACT, "{\"email\": []}", "Done."]);
    let mut tools = Tools::new(vec![ToolResult::success("a.txt")]);
    let run = run_agent("q", "SYS", 4, 99, &mut backend, &mut tools, &plausibility()).unwrap();
    assert_eq!(
        run.session.outcome().cloned(),
        Some(Outcome::Success("Done.".to_string()))
    );
    assert_eq!(backend.inputs.len(), 5);
    for (i, input) in backend.inputs.iter().enumerate() {
        assert_eq!(input.max_tokens, 99);
        assert_eq!(input.current_pos, 10 * i as i32);
        assert_eq!(input.first_generation, i == 0);
    }
    assert_eq!(run.cursor, Cursor { position: 50, first_generation: false });

    let mut silent = Script::new(&[]);
    let run = run_agent("q", "SYS", 0, 99, &mut silent, &mut tools, &plausibility()).unwrap();
    assert_eq!(run.cursor, Cursor { position: 0, first_generation: true });
}

#[test]
fn cursor_moves_by_the_tokens_of_each_call() {
    let mut cursor = Cursor::new();
    assert_eq!(cursor, Cursor { position: 0, first_generation: true });
    let first = cursor.call("one".to_string(), 7);
    assert_eq!(first.prompt, "one");
    assert_eq!(first.max_tokens, 7);
    assert_eq!(first.current_pos, 0);
    assert!(first.first_generation);

    cursor.advance(12);
    assert_eq!(cursor, Cursor { position: 12, first_generation: false });
    let second = cursor.call("two".to_string(), 8);
    assert_eq!(second.current_pos, 12);
    assert!(!second.first_generation);

    cursor.advance(i32::MAX);
    assert_eq!(cursor.position, i32::MAX);
    cursor.advance(0);
    assert_eq!(cursor, Cursor { position: i32::MAX, first_generation: false });
}

#[test]
fn extraction_call_is_never_the_first() {
    let input = ExtractionInput::new("See http://agent.rs", "url");
    let call = extraction_call(&input, ExtractionTarget::Url, 32, 7);
    assert!(call.prompt.starts_with("Extract URLs from the following text."));
    assert!(call.prompt.contains("Text: \"See http://agent.rs\""));
    assert_eq!(call.max_tokens, 32);
    assert_eq!(call.current_pos, 7);
    assert!(!call.first_generation);
}

#[test]
fn failed_extraction_call_leaves_the_position() {
    let request = SkillRequest::new(
        "extract",
        Json::Object(vec![
            ("text".to_string(), Json::Str("See http://agent.rs".to_string())),
            ("target".to_string(), Json::Str("url".to_string())),
        ]),
    );
    let mut silent = Script::new(&[]);
    let mut pos = 41;
    assert!(execute_extraction_skill(&request, &mut silent, 32, &mut pos).is_err());
    assert_eq!(pos, 41);
    assert_eq!(silent.inputs[0].current_pos, 41);
}
