use agent_core::agent::AgentState;
use agent_core::guardrail::{
    GuardrailChain, GuardrailContext, GuardrailContextView, GuardrailResult, PlausibilityGuard,
    SemanticGuardrail, Verdict,
};
use agent_core::json::Json;
use agent_core::tool::{ToolRequest, ToolResult};

fn shell_request(command: &str) -> ToolRequest {
    ToolRequest {
        tool: "shell".to_string(),
        params: Json::Object(vec![("command".to_string(), Json::Str(command.to_string()))]),
    }
}

struct AlwaysReject;

impl SemanticGuardrail for AlwaysReject {
    fn verdict(&self, _: GuardrailContextView) -> Verdict {
        unreachable!("a guardrail's model is never run")
    }

    fn validate(&self, _: &GuardrailContext) -> GuardrailResult {
        GuardrailResult::reject("first reject")
    }
}

struct NeverCalled;

impl SemanticGuardrail for NeverCalled {
    fn verdict(&self, _: GuardrailContextView) -> Verdict {
        unreachable!("a guardrail's model is never run")
    }

    fn validate(&self, _: &GuardrailContext) -> GuardrailResult {
        panic!("Should not be called");
    }
}

#[test]
fn test_plausibility_guard_accepts_valid_output() {
    let state = AgentState::new("test");
    let request = shell_request("ls");
    let result = ToolResult::success("file1.txt\nfile2.txt\n");

    let guard = PlausibilityGuard::new();
    let ctx = GuardrailContext { state: &state, tool_request: &request, tool_result: &result };
    let validation = guard.validate(&ctx);

    assert!(validation.is_accept());
}

#[test]
fn test_plausibility_guard_rejects_empty() {
    let state = AgentState::new("test");
    let request = shell_request("ls");
    let result = ToolResult::success("");

    let guard = PlausibilityGuard::new();
    let ctx = GuardrailContext { state: &state, tool_request: &request, tool_result: &result };
    let validation = guard.validate(&ctx);

    assert!(validation.is_reject());
}

#[test]
fn test_plausibility_guard_rejects_total_line() {
    let state = AgentState::new("test");
    let request = shell_request("ls -l");
    let result = ToolResult::success("total 7079928");

    let guard = PlausibilityGuard::new();
    let ctx = GuardrailContext { state: &state, tool_request: &request, tool_result: &result };
    let validation = guard.validate(&ctx);

    assert!(validation.is_reject());
    if let GuardrailResult::Reject { reason } = validation {
        assert!(reason.contains("metadata"));
    }
}

#[test]
fn test_plausibility_guard_accepts_with_total_plus_data() {
    let state = AgentState::new("test");
    let request = shell_request("ls -l");
    let result = ToolResult::success("total 8\n-rw-r--r-- 1 user group 1234 file.txt");

    let guard = PlausibilityGuard::new();
    let ctx = GuardrailContext { state: &state, tool_request: &request, tool_result: &result };
    let validation = guard.validate(&ctx);

    assert!(validation.is_accept());
}

#[test]
fn test_guardrail_chain() {
    let state = AgentState::new("test");
    let request = shell_request("ls");
    let result = ToolResult::success("total 123");

    let chain = GuardrailChain::new().add(Box::new(PlausibilityGuard::new()));

    let ctx = GuardrailContext { state: &state, tool_request: &request, tool_result: &result };
    let validation = chain.validate(&ctx);

    assert!(validation.is_reject());
}

#[test]
fn test_guardrail_chain_stops_on_first_reject() {
    let state = AgentState::new("test");
    let request = shell_request("ls");
    let result = ToolResult::success("data");

    let chain = GuardrailChain::new().add(Box::new(AlwaysReject)).add(Box::new(NeverCalled));

    let ctx = GuardrailContext { state: &state, tool_request: &request, tool_result: &result };
    let validation = chain.validate(&ctx);

    assert!(validation.is_reject());
}

#[test]
fn chain_of_three_asks_nobody_behind_the_first_rejection() {
    let state = AgentState::new("test");
    let request = shell_request("ls");
    let result = ToolResult::success("data");

    let chain = GuardrailChain::new()
        .add(Box::new(AlwaysReject))
        .add(Box::new(NeverCalled))
        .add(Box::new(NeverCalled));
    assert_eq!(chain.len(), 3);

    let ctx = GuardrailContext { state: &state, tool_request: &request, tool_result: &result };
    match chain.validate(&ctx) {
        GuardrailResult::Reject { reason } => assert_eq!(reason, "first reject"),
        GuardrailResult::Accept => panic!("the first guardrail rejects"),
    }
}

fn verdict_on(result: &ToolResult) -> GuardrailResult {
    PlausibilityGuard::judge(result)
}

fn reason_of(result: &ToolResult) -> Option<String> {
    match verdict_on(result) {
        GuardrailResult::Accept => None,
        GuardrailResult::Reject { reason } => Some(reason),
    }
}

#[test]
fn plausibility_examples() {
    assert!(verdict_on(&ToolResult::success("")).is_reject());
    assert!(verdict_on(&ToolResult::success("total 123")).is_reject());
    assert!(verdict_on(&ToolResult::success("total 8\n-rw-r--r-- 1 user group 1234 file.txt"))
        .is_accept());
}

#[test]
fn plausibility_reasons_in_order() {
    let empty = Some("Tool output is empty - no data returned".to_string());
    let metadata =
        Some("Tool output contains only metadata (e.g. 'total' line), not actual data".to_string());
    let substance = Some("Tool output lacks substantive content".to_string());

    assert_eq!(reason_of(&ToolResult::success("")), empty);
    assert_eq!(reason_of(&ToolResult::success(" \n\t ")), empty);
    assert_eq!(reason_of(&ToolResult::success("total 0")), metadata);
    assert_eq!(reason_of(&ToolResult::success("  TOTAL   42 \n")), metadata);
    assert_eq!(reason_of(&ToolResult::success("Total\t7")), metadata);
    assert_eq!(reason_of(&ToolResult::success("ab")), substance);
    assert_eq!(reason_of(&ToolResult::success("-----")), substance);
    assert_eq!(reason_of(&ToolResult::success("\u{e9}a")), substance);
    assert_eq!(reason_of(&ToolResult::success("abc")), None);
    assert_eq!(reason_of(&ToolResult::success("--1")), None);
    assert_eq!(reason_of(&ToolResult::success("\u{e9}\u{e9}\u{e9}")), None);
}

#[test]
fn total_line_must_be_exact() {
    assert_eq!(reason_of(&ToolResult::success("total 12 files")), None);
    assert_eq!(reason_of(&ToolResult::success("total 12a")), None);
    assert_eq!(reason_of(&ToolResult::success("total")), None);
    assert_eq!(reason_of(&ToolResult::success("totals 12")), None);
    assert_eq!(reason_of(&ToolResult::success("total -12")), None);
    assert_eq!(reason_of(&ToolResult::success("total\n12")), None);
    assert_eq!(reason_of(&ToolResult::success("12 total")), None);
    assert!(PlausibilityGuard::is_metadata_only("total 5"));
    assert!(PlausibilityGuard::is_metadata_only("   "));
    assert!(!PlausibilityGuard::is_metadata_only("total 5\nfile"));
    assert!(PlausibilityGuard::has_minimal_substance(" abc "));
    assert!(!PlausibilityGuard::has_minimal_substance(" ab "));
    assert!(!PlausibilityGuard::has_minimal_substance("..."));
}

#[test]
fn failed_outcome_passes_as_it_is() {
    assert!(verdict_on(&ToolResult::failure("boom")).is_accept());
    let odd = ToolResult { success: false, output: "total 5".to_string(), error: None };
    assert!(verdict_on(&odd).is_accept());
}

#[test]
fn verdict_builders_and_names() {
    assert!(GuardrailResult::accept().is_accept());
    assert!(!GuardrailResult::accept().is_reject());
    let rejected = GuardrailResult::reject("why");
    assert!(rejected.is_reject());
    assert!(!rejected.is_accept());
    match rejected.clone() {
        GuardrailResult::Reject { reason } => assert_eq!(reason, "why"),
        GuardrailResult::Accept => panic!("a rejection"),
    }
    assert_eq!(PlausibilityGuard::new().name(), "plausibility_guard");
    assert_eq!(AlwaysReject.name(), "unnamed_guardrail");
}

#[test]
fn empty_chain_accepts() {
    let state = AgentState::new("test");
    let request = shell_request("ls");
    let result = ToolResult::success("");
    let chain = GuardrailChain::new();
    assert!(chain.is_empty());
    assert_eq!(chain.len(), 0);
    let ctx = GuardrailContext { state: &state, tool_request: &request, tool_result: &result };
    assert!(chain.validate(&ctx).is_accept());
    assert!(GuardrailChain::default().is_empty());
}

#[test]
fn chain_reports_the_first_rejection_of_several() {
    let state = AgentState::new("test");
    let request = shell_request("ls");
    let result = ToolResult::success("total 5");
    let chain = GuardrailChain::new()
        .add(Box::new(PlausibilityGuard::new()))
        .add(Box::new(AlwaysReject));
    assert!(!chain.is_empty());
    let ctx = GuardrailContext { state: &state, tool_request: &request, tool_result: &result };
    match chain.validate(&ctx) {
        GuardrailResult::Reject { reason } => assert!(reason.contains("metadata")),
        GuardrailResult::Accept => panic!("a rejection"),
    }
    let fine = ToolResult::success("file.txt");
    let ctx = GuardrailContext { state: &state, tool_request: &request, tool_result: &fine };
    match chain.validate(&ctx) {
        GuardrailResult::Reject { reason } => assert_eq!(reason, "first reject"),
        GuardrailResult::Accept => panic!("a rejection"),
    }
}

#[test]
fn chain_is_a_guardrail_itself() {
    let state = AgentState::new("test");
    let request = shell_request("ls");
    let result = ToolResult::success("total 5");
    let ctx = GuardrailContext { state: &state, tool_request: &request, tool_result: &result };

    let inner = GuardrailChain::new().add(Box::new(PlausibilityGuard::new()));
    assert_eq!(SemanticGuardrail::name(&inner), "guardrail_chain");
    let outer = GuardrailChain::new().add(Box::new(inner)).add(Box::new(NeverCalled));
    assert_eq!(outer.len(), 2);
    match SemanticGuardrail::validate(&outer, &ctx) {
        GuardrailResult::Reject { reason } => assert!(reason.contains("metadata")),
        GuardrailResult::Accept => panic!("a rejection"),
    }
}
