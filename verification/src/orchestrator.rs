//! The agent's loop as a state machine: what is awaited, and what each
//! event leads to. A failure event (a guardrail's rejection, or an
//! output that is neither action nor answer) earns one corrective retry,
//! which is no iteration of the budget; a second failure on the retry
//! ends the session.

use crate::agent::{
    after_decision, apply_tool_result, record_decision, tool_message, AgentDecision, AgentState,
    ConversationView, Role,
};
use crate::guardrail::{
    GuardrailContext, GuardrailContextView, GuardrailResult, SemanticGuardrail, Verdict,
};
use crate::json::json_parse;
use crate::llm::{advance_position, advanced, Cursor, LLMBackend, LLMInput, LLMInputView};
use crate::prompt::{
    before_llm_call, build_extraction_prompt, extraction_prompt_text, prompt_text,
};
use crate::protocol::{classify, parse_model_output, DecisionView, ParseResult};
use crate::skill::{
    parse_skill_output, parsed_output, validate_extraction_output, validation_of,
    ExtractionInput, ExtractionInputView, ExtractionTarget, SkillError,
    SkillErrorView, SkillRequest, SkillRequestView, SkillResponse, SkillResponseView,
};
use crate::text::{contains, occurs_at, trimmed};
use crate::tool::{ToolRequest, ToolRequestView, ToolResult, ToolResultView};
use vstd::prelude::*;
use vstd::string::StringExecFns;

verus! {

/// Model of an [`Attempt`].
pub ghost enum AttemptView {
    Primary,
    AfterRejection { reason: Seq<char> },
    AfterInconclusive { output: Seq<char> },
}

/// Which generation is under way: an iteration's own, or the one
/// corrective retry that a failure event earned.
#[derive(Debug)]
pub enum Attempt {
    /// The generation that opens an iteration.
    Primary,
    /// The retry after a guardrail rejected a tool's outcome.
    AfterRejection { reason: String },
    /// The retry after an inconclusive output.
    AfterInconclusive { output: String },
}

impl View for Attempt {
    type V = AttemptView;

    open spec fn view(&self) -> AttemptView {
        match self {
            Attempt::Primary => AttemptView::Primary,
            Attempt::AfterRejection { reason } => AttemptView::AfterRejection { reason: reason@ },
            Attempt::AfterInconclusive { output } => AttemptView::AfterInconclusive {
                output: output@,
            },
        }
    }
}

impl Clone for Attempt {
    fn clone(&self) -> (r: Self)
        ensures
            r@ == self@,
    {
        match self {
            Attempt::Primary => Attempt::Primary,
            Attempt::AfterRejection { reason } => Attempt::AfterRejection { reason: reason.clone() },
            Attempt::AfterInconclusive { output } => Attempt::AfterInconclusive {
                output: output.clone(),
            },
        }
    }
}

/// Model of a [`Failure`].
pub ghost enum FailureView {
    GuardrailRejectedTwice { initial_reason: Seq<char>, retry_reason: Seq<char> },
    InconclusiveAfterRejection { reason: Seq<char>, output: Seq<char> },
    InconclusiveAfterRetry { first: Seq<char>, retry: Seq<char> },
    IterationsExhausted,
}

/// Why a session failed.
#[derive(Debug, PartialEq, Eq)]
pub enum Failure {
    /// A guardrail rejected a tool's outcome, and the retry's too.
    GuardrailRejectedTwice { initial_reason: String, retry_reason: String },
    /// A guardrail rejected a tool's outcome, and the retry was
    /// inconclusive.
    InconclusiveAfterRejection { reason: String, output: String },
    /// An output was inconclusive, and the retry's too.
    InconclusiveAfterRetry { first: String, retry: String },
    /// The iterations ran out before an answer.
    IterationsExhausted,
}

impl View for Failure {
    type V = FailureView;

    open spec fn view(&self) -> FailureView {
        match self {
            Failure::GuardrailRejectedTwice { initial_reason, retry_reason } =>
                FailureView::GuardrailRejectedTwice {
                initial_reason: initial_reason@,
                retry_reason: retry_reason@,
            },
            Failure::InconclusiveAfterRejection { reason, output } =>
                FailureView::InconclusiveAfterRejection { reason: reason@, output: output@ },
            Failure::InconclusiveAfterRetry { first, retry } =>
                FailureView::InconclusiveAfterRetry { first: first@, retry: retry@ },
            Failure::IterationsExhausted => FailureView::IterationsExhausted,
        }
    }
}

impl Clone for Failure {
    fn clone(&self) -> (r: Self)
        ensures
            r@ == self@,
    {
        match self {
            Failure::GuardrailRejectedTwice { initial_reason, retry_reason } =>
                Failure::GuardrailRejectedTwice {
                initial_reason: initial_reason.clone(),
                retry_reason: retry_reason.clone(),
            },
            Failure::InconclusiveAfterRejection { reason, output } =>
                Failure::InconclusiveAfterRejection {
                reason: reason.clone(),
                output: output.clone(),
            },
            Failure::InconclusiveAfterRetry { first, retry } => Failure::InconclusiveAfterRetry {
                first: first.clone(),
                retry: retry.clone(),
            },
            Failure::IterationsExhausted => Failure::IterationsExhausted,
        }
    }
}

/// The first part of the report of a double rejection.
pub const REJECTED_TWICE_HEAD: &'static str =
    "\n❌ TASK FAILED: Agent could not produce valid output\
     \n\nWhat happened:\
     \n  • The agent attempted to complete your task\
     \n  • Tool commands were executed successfully\
     \n  • However, the tool outputs were semantically invalid\
     \n  • A corrective retry was attempted\
     \n  • The retry also produced invalid output\
     \n\nValidation failures:\
     \n  Initial attempt: ";

/// What stands between the two reasons of a double rejection.
pub const REJECTED_TWICE_MIDDLE: &'static str = "\n  Retry attempt:   ";

/// The end of the report of a double rejection.
pub const REJECTED_TWICE_TAIL: &'static str =
    "\n\nWhy this happened:\
     \n  This model lacks sufficient tool-reasoning capability for this \
     task.\
     \n  The system refused to return incorrect results (this is by design).\
     \n\nWhat you can do:\
     \n  • Use a larger model (7B+ parameters recommended)\
     \n  • Use a model specifically fine-tuned for tool use\
     \n  • Simplify the query to reduce reasoning complexity\
     \n  • Verify the task is achievable with available tools\
     \n\nNote: A correct system that fails honestly is better than one that\
     \n      returns plausible-looking but incorrect results.\
     \n";

/// The first part of the report of a retry that brought no action.
pub const NO_RECOVERY_HEAD: &'static str =
    "\n❌ TASK FAILED: Model could not recover from validation failure\
     \n\nWhat happened:\
     \n  • A tool was executed but its output was rejected by validation\
     \n  • Guardrail rejection: ";

/// What stands between the reason and the model's output there.
pub const NO_RECOVERY_MIDDLE: &'static str =
    "\n  • A corrective retry was attempted\
     \n  • The model failed to produce a valid tool call\
     \n  • Model output: \"";

/// The end of the report of a retry that brought no action.
pub const NO_RECOVERY_TAIL: &'static str =
    "\"\
     \n\nWhy this happened:\
     \n  The model cannot adjust its approach in response to validation feedback.\
     \n  This indicates insufficient tool-reasoning capability.\
     \n\nWhat you can do:\
     \n  • Use a larger model (7B+ parameters recommended)\
     \n  • Use a model specifically fine-tuned for tool use\
     \n  • Simplify the query\
     \n";

/// The first part of the report of two inconclusive outputs.
pub const STILL_INCONCLUSIVE_HEAD: &'static str =
    "\n\u{274c} ERROR: Model failed to produce a valid response after retry.\
     \n\nOriginal output: \"";

/// What stands between the two outputs there.
pub const STILL_INCONCLUSIVE_MIDDLE: &'static str = "\"\nRetry output:    \"";

/// The end of the report of two inconclusive outputs.
pub const STILL_INCONCLUSIVE_TAIL: &'static str =
    "\"\
     \n\nThe model did not invoke a tool/skill or provide a complete answer.\
     \nThis is common with small models (3-4B parameters).\
     \n\nSuggestions:\
     \n  - Use a larger model (7B+ parameters)\
     \n  - Use a model specifically tuned for tool use\
     \n  - Simplify the query";

/// The report of a budget that ran out.
pub const EXHAUSTED_REPORT: &'static str =
    "\n\u{26a0}\u{fe0f}  Warning: Agent reached maximum iterations without completing.";

impl FailureView {
    /// The report of a failure: which of the failures it is, and the
    /// texts that led to it, each of them whole.
    pub open spec fn diagnostic(self) -> Seq<char> {
        match self {
            FailureView::GuardrailRejectedTwice { initial_reason, retry_reason } =>
                REJECTED_TWICE_HEAD@ + initial_reason + REJECTED_TWICE_MIDDLE@ + retry_reason
                    + REJECTED_TWICE_TAIL@,
            FailureView::InconclusiveAfterRejection { reason, output } => NO_RECOVERY_HEAD@
                + reason + NO_RECOVERY_MIDDLE@ + output + NO_RECOVERY_TAIL@,
            FailureView::InconclusiveAfterRetry { first, retry } => STILL_INCONCLUSIVE_HEAD@
                + first + STILL_INCONCLUSIVE_MIDDLE@ + retry + STILL_INCONCLUSIVE_TAIL@,
            FailureView::IterationsExhausted => EXHAUSTED_REPORT@,
        }
    }
}

impl Failure {
    /// The report of the failure.
    pub fn diagnostic(&self) -> (r: String)
        ensures
            r@ == self@.diagnostic(),
    {
        match self {
            Failure::GuardrailRejectedTwice { initial_reason, retry_reason } => String::from_str(
                REJECTED_TWICE_HEAD,
            ).concat(initial_reason.as_str()).concat(REJECTED_TWICE_MIDDLE).concat(
                retry_reason.as_str(),
            ).concat(REJECTED_TWICE_TAIL),
            Failure::InconclusiveAfterRejection { reason, output } => String::from_str(
                NO_RECOVERY_HEAD,
            ).concat(reason.as_str()).concat(NO_RECOVERY_MIDDLE).concat(output.as_str()).concat(
                NO_RECOVERY_TAIL,
            ),
            Failure::InconclusiveAfterRetry { first, retry } => String::from_str(
                STILL_INCONCLUSIVE_HEAD,
            ).concat(first.as_str()).concat(STILL_INCONCLUSIVE_MIDDLE).concat(
                retry.as_str(),
            ).concat(STILL_INCONCLUSIVE_TAIL),
            Failure::IterationsExhausted => String::from_str(EXHAUSTED_REPORT),
        }
    }
}

/// Model of an [`Outcome`].
pub ghost enum OutcomeView {
    Success(Seq<char>),
    Failure(FailureView),
}

/// How a session ended.
#[derive(Debug, PartialEq, Eq)]
pub enum Outcome {
    /// With the final answer.
    Success(String),
    /// Without one.
    Failure(Failure),
}

impl View for Outcome {
    type V = OutcomeView;

    open spec fn view(&self) -> OutcomeView {
        match self {
            Outcome::Success(answer) => OutcomeView::Success(answer@),
            Outcome::Failure(failure) => OutcomeView::Failure(failure@),
        }
    }
}

impl Clone for Outcome {
    fn clone(&self) -> (r: Self)
        ensures
            r@ == self@,
    {
        match self {
            Outcome::Success(answer) => Outcome::Success(answer.clone()),
            Outcome::Failure(failure) => Outcome::Failure(failure.clone()),
        }
    }
}

impl Outcome {
    /// The exit code of a process that ran the session: 0 for success,
    /// 1 for every failure.
    pub fn exit_code(&self) -> (r: i32)
        ensures
            r == if self@ is Success {
                0i32
            } else {
                1i32
            },
    {
        match self {
            Outcome::Success(_) => 0,
            Outcome::Failure(_) => 1,
        }
    }
}

/// Model of a [`Phase`].
pub ghost enum PhaseView {
    Generating(AttemptView),
    RunningTool { attempt: AttemptView, request: ToolRequestView },
    RunningSkill { input: ExtractionInputView, target: ExtractionTarget },
    Terminated(OutcomeView),
}

/// Where a session stands. All but `Terminated` are the session
/// iterating, each waiting for one thing from outside.
#[derive(Debug)]
pub enum Phase {
    /// The model's next output is awaited.
    Generating(Attempt),
    /// The outcome of a tool is awaited.
    RunningTool { attempt: Attempt, request: ToolRequest },
    /// The model's output for an extraction is awaited.
    RunningSkill { input: ExtractionInput, target: ExtractionTarget },
    /// The session is over.
    Terminated(Outcome),
}

impl View for Phase {
    type V = PhaseView;

    open spec fn view(&self) -> PhaseView {
        match self {
            Phase::Generating(attempt) => PhaseView::Generating(attempt@),
            Phase::RunningTool { attempt, request } => PhaseView::RunningTool {
                attempt: attempt@,
                request: request@,
            },
            Phase::RunningSkill { input, target } => PhaseView::RunningSkill {
                input: input@,
                target: *target,
            },
            Phase::Terminated(outcome) => PhaseView::Terminated(outcome@),
        }
    }
}

/// Model of an [`AgentLoop`].
pub ghost struct LoopView {
    pub state: ConversationView,
    pub phase: PhaseView,
    pub iterations: nat,
    pub max_iterations: nat,
    pub tool_used: bool,
}

/// The response of an extraction: what reading and checking the model's
/// output gave.
pub open spec fn extraction_response(
    input: ExtractionInputView,
    target: ExtractionTarget,
    generated: Seq<char>,
) -> SkillResponseView {
    match parsed_output(json_parse(trimmed(generated)), target) {
        Err(e) => SkillResponseView { success: false, output: None, error: Some(e.describe()) },
        Ok(doc) => match validation_of(input.text, doc, target) {
            Err(e) => SkillResponseView { success: false, output: None, error: Some(e.describe()) },
            Ok(_) => SkillResponseView { success: true, output: Some(doc), error: None },
        },
    }
}

impl LoopView {
    /// The conversation is well formed, the budget is not overdrawn, and
    /// the conversation is complete exactly where the session ended in
    /// success, with the answer it ended with.
    pub open spec fn wf(self) -> bool {
        &&& self.state.wf()
        &&& self.iterations <= self.max_iterations
        &&& match self.phase {
            PhaseView::Terminated(OutcomeView::Success(answer)) => self.state.is_complete
                && self.state.final_answer == Some(answer),
            _ => !self.state.is_complete,
        }
    }

    /// The session is not over.
    pub open spec fn iterating(self) -> bool {
        !(self.phase is Terminated)
    }

    /// A session at its start: where the budget allows an iteration, the
    /// first one is under way.
    pub open spec fn start(query: Seq<char>, max_iterations: nat) -> LoopView {
        LoopView {
            state: ConversationView::starting(query),
            phase: PhaseView::Generating(AttemptView::Primary),
            iterations: 0,
            max_iterations,
            tool_used: false,
        }.proceed()
    }

    /// The next iteration begins, or the session ends for want of one.
    pub open spec fn proceed(self) -> LoopView {
        if self.iterations < self.max_iterations {
            LoopView {
                phase: PhaseView::Generating(AttemptView::Primary),
                iterations: self.iterations + 1,
                ..self
            }
        } else {
            LoopView {
                phase: PhaseView::Terminated(OutcomeView::Failure(FailureView::IterationsExhausted)),
                ..self
            }
        }
    }

    /// A message of a tool or skill is recorded, and the loop goes on.
    pub open spec fn observed(self, content: Seq<char>) -> LoopView {
        LoopView { state: self.state.appended(Role::Tool, content), ..self }.proceed()
    }

    /// The session ends.
    pub open spec fn ended(self, outcome: OutcomeView) -> LoopView {
        LoopView { phase: PhaseView::Terminated(outcome), ..self }
    }

    /// The session after the awaited output `raw` was read as `decision`.
    pub open spec fn after_generation(self, raw: Seq<char>, decision: DecisionView) -> LoopView
        recommends
            self.phase is Generating,
    {
        let attempt = self.phase->Generating_0;
        let recorded = LoopView { state: after_decision(self.state, raw, decision), ..self };
        match decision {
            DecisionView::Done(answer) => recorded.ended(OutcomeView::Success(answer)),
            DecisionView::InvokeTool(request) => LoopView {
                phase: PhaseView::RunningTool { attempt, request },
                ..recorded
            },
            DecisionView::InvokeSkill(request) => match request.extraction_input() {
                Err(e) => recorded.observed("Skill failed: "@ + e.describe()),
                Ok(input) => match input.validated() {
                    Err(e) => recorded.observed("Skill failed: "@ + e.describe()),
                    Ok(target) => LoopView {
                        phase: PhaseView::RunningSkill { input, target },
                        ..recorded
                    },
                },
            },
            DecisionView::Inconclusive(text) => match attempt {
                AttemptView::Primary => LoopView {
                    phase: PhaseView::Generating(AttemptView::AfterInconclusive { output: text }),
                    ..recorded
                },
                AttemptView::AfterRejection { reason } => recorded.ended(
                    OutcomeView::Failure(
                        FailureView::InconclusiveAfterRejection { reason, output: text },
                    ),
                ),
                AttemptView::AfterInconclusive { output } => recorded.ended(
                    OutcomeView::Failure(
                        FailureView::InconclusiveAfterRetry { first: output, retry: text },
                    ),
                ),
            },
        }
    }

    /// The session after the guardrails gave `verdict` on the awaited
    /// outcome of a tool.
    pub open spec fn after_tool(self, result: ToolResultView, verdict: Verdict) -> LoopView
        recommends
            self.phase is RunningTool,
    {
        match verdict {
            Verdict::Accept => LoopView { tool_used: true, ..self }.observed(tool_message(result)),
            Verdict::Reject { reason } => match self.phase->RunningTool_attempt {
                AttemptView::AfterRejection { reason: initial_reason } => self.ended(
                    OutcomeView::Failure(
                        FailureView::GuardrailRejectedTwice { initial_reason, retry_reason: reason },
                    ),
                ),
                _ => LoopView {
                    phase: PhaseView::Generating(AttemptView::AfterRejection { reason }),
                    ..self
                },
            },
        }
    }

    /// The session after the awaited extraction gave `response`.
    pub open spec fn after_skill(self, response: SkillResponseView) -> LoopView
        recommends
            self.phase is RunningSkill,
    {
        self.observed(response.message())
    }

    /// How far the session is from its end at most: each event brings it
    /// closer.
    pub open spec fn distance(self) -> nat {
        ((self.max_iterations - self.iterations) * 8 + match self.phase {
            PhaseView::Generating(AttemptView::Primary) => 6int,
            PhaseView::Generating(AttemptView::AfterInconclusive { .. }) => 5,
            PhaseView::RunningTool { attempt: AttemptView::AfterRejection { .. }, .. } => 2,
            PhaseView::RunningTool { .. } => 4,
            PhaseView::Generating(AttemptView::AfterRejection { .. }) => 3,
            PhaseView::RunningSkill { .. } => 1,
            PhaseView::Terminated(_) => 0,
        }) as nat
    }
}

/// An agent's session: the conversation, where the loop stands, and the
/// iterations used of those allowed.
#[derive(Debug)]
pub struct AgentLoop {
    /// The conversation so far.
    pub state: AgentState,
    /// What the session waits for, or how it ended.
    pub phase: Phase,
    /// The iterations begun so far. A corrective retry is none.
    pub iterations: usize,
    /// The iterations allowed.
    pub max_iterations: usize,
    /// Whether the guardrails have accepted a tool's outcome.
    pub tool_used: bool,
}

impl View for AgentLoop {
    type V = LoopView;

    open spec fn view(&self) -> LoopView {
        LoopView {
            state: self.state@,
            phase: self.phase@,
            iterations: self.iterations as nat,
            max_iterations: self.max_iterations as nat,
            tool_used: self.tool_used,
        }
    }
}

/// What the session asks of the outside next.
#[derive(Debug)]
pub enum Action {
    /// Run the model on this prompt, and hand its output to the session.
    Generate { prompt: String },
    /// Run this tool, and hand its outcome to the session.
    RunTool { request: ToolRequest },
    /// Nothing: the session is over.
    Stop { outcome: Outcome },
}

/// Model of an [`Action`].
pub ghost enum ActionView {
    Generate { prompt: Seq<char> },
    RunTool { request: ToolRequestView },
    Stop { outcome: OutcomeView },
}

impl View for Action {
    type V = ActionView;

    open spec fn view(&self) -> ActionView {
        match self {
            Action::Generate { prompt } => ActionView::Generate { prompt: prompt@ },
            Action::RunTool { request } => ActionView::RunTool { request: request@ },
            Action::Stop { outcome } => ActionView::Stop { outcome: outcome@ },
        }
    }
}

/// What a session asks for: a generation on the conversation's prompt,
/// with the stricter instructions on a retry; a tool's run; a generation
/// on the extraction's prompt; or nothing.
pub open spec fn action_for(session: LoopView, system_prompt: Seq<char>) -> ActionView {
    match session.phase {
        PhaseView::Generating(attempt) => ActionView::Generate {
            prompt: prompt_text(
                session.state,
                session.tool_used,
                !(attempt is Primary),
                system_prompt,
            ),
        },
        PhaseView::RunningTool { request, .. } => ActionView::RunTool { request },
        PhaseView::RunningSkill { input, target } => ActionView::Generate {
            prompt: extraction_prompt_text(input.text, target),
        },
        PhaseView::Terminated(outcome) => ActionView::Stop { outcome },
    }
}

/// What the guardrails are shown of a tool's run.
pub open spec fn context_view(
    state: ConversationView,
    request: ToolRequestView,
    result: ToolResultView,
) -> GuardrailContextView {
    GuardrailContextView { state, tool_request: request, tool_result: result }
}

/// Reads and checks the model's output for an extraction. The first
/// failure is the response; there is no partial success.
pub fn finish_extraction(input: &ExtractionInput, target: ExtractionTarget, generated: &str) -> (r:
    SkillResponse)
    ensures
        r@ == extraction_response(input@, target, generated@),
{
    let output = match parse_skill_output(generated, target) {
        Ok(output) => output,
        Err(e) => {
            return SkillResponse::failure(e);
        },
    };
    match validate_extraction_output(input, &output, target) {
        Ok(_) => SkillResponse::success(output),
        Err(e) => SkillResponse::failure(e),
    }
}

impl AgentLoop {
    /// A session on the user's query, with its first iteration under way
    /// where `max_iterations` allows one.
    pub fn new(query: &str, max_iterations: usize) -> (r: Self)
        ensures
            r@ == LoopView::start(query@, max_iterations as nat),
            r@.wf(),
    {
        let session = AgentLoop {
            state: AgentState::new(query),
            phase: Phase::Generating(Attempt::Primary),
            iterations: 0,
            max_iterations,
            tool_used: false,
        };
        session.proceed()
    }

    /// Begins the next iteration, or ends the session for want of one.
    fn proceed(self) -> (r: Self)
        requires
            self.iterations <= self.max_iterations,
        ensures
            r@ == self@.proceed(),
    {
        let AgentLoop { state, phase, iterations, max_iterations, tool_used } = self;
        if iterations < max_iterations {
            AgentLoop {
                state,
                phase: Phase::Generating(Attempt::Primary),
                iterations: iterations + 1,
                max_iterations,
                tool_used,
            }
        } else {
            AgentLoop {
                state,
                phase: Phase::Terminated(Outcome::Failure(Failure::IterationsExhausted)),
                iterations,
                max_iterations,
                tool_used,
            }
        }
    }

    /// Records a message of a tool or skill and goes on with the loop.
    fn observe(self, content: &str) -> (r: Self)
        requires
            self.iterations <= self.max_iterations,
            !self.state.is_complete,
        ensures
            r@ == self@.observed(content@),
    {
        let mut session = self;
        session.state.add_message(Role::Tool, content);
        session.proceed()
    }

    /// Whether the session is over.
    pub fn is_terminated(&self) -> (r: bool)
        ensures
            r == !self@.iterating(),
    {
        match &self.phase {
            Phase::Terminated(_) => true,
            _ => false,
        }
    }

    /// Whether the session waits for the model's output.
    pub fn awaits_generation(&self) -> (r: bool)
        ensures
            r == (self@.phase is Generating || self@.phase is RunningSkill),
    {
        match &self.phase {
            Phase::Generating(_) => true,
            Phase::RunningSkill { .. } => true,
            _ => false,
        }
    }

    /// Whether the session waits for the model's output for an
    /// extraction.
    pub fn awaits_skill_output(&self) -> (r: bool)
        ensures
            r == (self@.phase is RunningSkill),
    {
        match &self.phase {
            Phase::RunningSkill { .. } => true,
            _ => false,
        }
    }

    /// Whether the session waits for a tool's outcome.
    pub fn awaits_tool(&self) -> (r: bool)
        ensures
            r == (self@.phase is RunningTool),
    {
        match &self.phase {
            Phase::RunningTool { .. } => true,
            _ => false,
        }
    }

    /// How the session ended, once it is over.
    pub fn outcome(&self) -> (r: Option<&Outcome>)
        ensures
            match r {
                Some(outcome) => self@.phase == PhaseView::Terminated(outcome@),
                None => self@.iterating(),
            },
    {
        match &self.phase {
            Phase::Terminated(outcome) => Some(outcome),
            _ => None,
        }
    }

    /// What the session asks of the outside next.
    pub fn next_action(&self, system_prompt: &str) -> (r: Action)
        ensures
            r@ == action_for(self@, system_prompt@),
    {
        match &self.phase {
            Phase::Generating(attempt) => {
                let corrective = match attempt {
                    Attempt::Primary => false,
                    _ => true,
                };
                Action::Generate {
                    prompt: before_llm_call(&self.state, self.tool_used, corrective, system_prompt),
                }
            },
            Phase::RunningTool { request, .. } => Action::RunTool { request: request.clone() },
            Phase::RunningSkill { input, target } => Action::Generate {
                prompt: build_extraction_prompt(input, *target),
            },
            Phase::Terminated(outcome) => Action::Stop { outcome: outcome.clone() },
        }
    }

    /// The session after the awaited output `raw` was read as `parsed`.
    pub fn on_parsed(self, raw: &str, parsed: ParseResult) -> (r: Self)
        requires
            self@.wf(),
            self@.phase is Generating,
        ensures
            r@ == self@.after_generation(raw@, parsed@),
            r@.wf(),
    {
        let AgentLoop { state, phase, iterations, max_iterations, tool_used } = self;
        let mut state = state;
        let attempt = match phase {
            Phase::Generating(attempt) => attempt,
            _ => Attempt::Primary,
        };
        let decision = record_decision(&mut state, raw, parsed);
        match decision {
            AgentDecision::Done(answer) => AgentLoop {
                state,
                phase: Phase::Terminated(Outcome::Success(answer)),
                iterations,
                max_iterations,
                tool_used,
            },
            AgentDecision::InvokeTool(request) => AgentLoop {
                state,
                phase: Phase::RunningTool { attempt, request },
                iterations,
                max_iterations,
                tool_used,
            },
            AgentDecision::InvokeSkill(request) => {
                let recorded = AgentLoop {
                    state,
                    phase: Phase::Generating(attempt),
                    iterations,
                    max_iterations,
                    tool_used,
                };
                recorded.begin_skill(&request)
            },
            AgentDecision::Inconclusive(text) => {
                let phase = match attempt {
                    Attempt::Primary => Phase::Generating(Attempt::AfterInconclusive { output: text }),
                    Attempt::AfterRejection { reason } => Phase::Terminated(
                        Outcome::Failure(Failure::InconclusiveAfterRejection { reason, output: text }),
                    ),
                    Attempt::AfterInconclusive { output } => Phase::Terminated(
                        Outcome::Failure(
                            Failure::InconclusiveAfterRetry { first: output, retry: text },
                        ),
                    ),
                };
                AgentLoop { state, phase, iterations, max_iterations, tool_used }
            },
        }
    }

    /// Takes up a skill request: where its input is refused, the refusal
    /// is recorded and the loop goes on; else the extraction is awaited.
    fn begin_skill(self, request: &SkillRequest) -> (r: Self)
        requires
            self.iterations <= self.max_iterations,
            !self.state.is_complete,
        ensures
            r@ == match request@.extraction_input() {
                Err(e) => self@.observed("Skill failed: "@ + e.describe()),
                Ok(input) => match input.validated() {
                    Err(e) => self@.observed("Skill failed: "@ + e.describe()),
                    Ok(target) => LoopView {
                        phase: PhaseView::RunningSkill { input, target },
                        ..self@
                    },
                },
            },
    {
        let input = match request.parse_extraction_input() {
            Ok(input) => input,
            Err(e) => {
                let response = SkillResponse::failure(e);
                return self.observe(response.to_message().as_str());
            },
        };
        let target = match input.validate() {
            Ok(target) => target,
            Err(e) => {
                let response = SkillResponse::failure(e);
                return self.observe(response.to_message().as_str());
            },
        };
        let AgentLoop { state, phase, iterations, max_iterations, tool_used } = self;
        AgentLoop {
            state,
            phase: Phase::RunningSkill { input, target },
            iterations,
            max_iterations,
            tool_used,
        }
    }

    /// The session after the model's output for the conversation came.
    pub fn on_generation(self, text: &str) -> (r: Self)
        requires
            self@.wf(),
            self@.phase is Generating,
        ensures
            r@ == self@.after_generation(text@, classify(text@)),
            r@.wf(),
    {
        let parsed = parse_model_output(text);
        self.on_parsed(text, parsed)
    }

    /// The session after the extraction gave `response`.
    pub fn on_skill_response(self, response: &SkillResponse) -> (r: Self)
        requires
            self@.wf(),
            self@.phase is RunningSkill,
        ensures
            r@ == self@.after_skill(response@),
            r@.wf(),
    {
        self.observe(response.to_message().as_str())
    }

    /// The session after the model's output for the extraction came.
    pub fn on_skill_generation(self, text: &str) -> (r: Self)
        requires
            self@.wf(),
            self@.phase is RunningSkill,
        ensures
            r@ == self@.after_skill(
                extraction_response(
                    self@.phase->RunningSkill_input,
                    self@.phase->RunningSkill_target,
                    text@,
                ),
            ),
            r@.wf(),
    {
        let response = match &self.phase {
            Phase::RunningSkill { input, target } => finish_extraction(input, *target, text),
            _ => SkillResponse::failure(SkillError::EmptyInput),
        };
        self.on_skill_response(&response)
    }

    /// The session after the guardrails gave `verdict` on the tool's
    /// outcome.
    pub fn on_verdict(self, result: &ToolResult, verdict: GuardrailResult) -> (r: Self)
        requires
            self@.wf(),
            self@.phase is RunningTool,
        ensures
            r@ == self@.after_tool(result@, verdict@),
            r@.wf(),
    {
        let AgentLoop { state, phase, iterations, max_iterations, tool_used } = self;
        let mut state = state;
        match verdict {
            GuardrailResult::Accept => {
                apply_tool_result(&mut state, result);
                let session = AgentLoop { state, phase, iterations, max_iterations, tool_used: true };
                session.proceed()
            },
            GuardrailResult::Reject { reason } => {
                let attempt = match phase {
                    Phase::RunningTool { attempt, .. } => attempt,
                    _ => Attempt::Primary,
                };
                let phase = match attempt {
                    Attempt::AfterRejection { reason: initial_reason } => Phase::Terminated(
                        Outcome::Failure(
                            Failure::GuardrailRejectedTwice { initial_reason, retry_reason: reason },
                        ),
                    ),
                    _ => Phase::Generating(Attempt::AfterRejection { reason }),
                };
                AgentLoop { state, phase, iterations, max_iterations, tool_used }
            },
        }
    }

    /// The session after the tool's outcome came: the guardrail judges
    /// it, once. The guardrail may be a chain.
    pub fn on_tool_result<G: SemanticGuardrail>(self, guard: &G, result: &ToolResult) -> (r: Self)
        requires
            self@.wf(),
            self@.phase is RunningTool,
            guard.relies_on(context_view(self@.state, self@.phase->RunningTool_request, result@)),
        ensures
            r@ == self@.after_tool(
                result@,
                guard.verdict(
                    context_view(self@.state, self@.phase->RunningTool_request, result@),
                ),
            ),
            r@.wf(),
    {
        let verdict = match &self.phase {
            Phase::RunningTool { request, .. } => {
                let context = GuardrailContext {
                    state: &self.state,
                    tool_request: request,
                    tool_result: result,
                };
                guard.validate(&context)
            },
            _ => GuardrailResult::Accept,
        };
        self.on_verdict(result, verdict)
    }
}

/// What comes to a session from outside.
pub ghost enum EventView {
    /// The model's output, and the tokens that the call processed.
    Generated { text: Seq<char>, tokens: i32 },
    /// A tool's outcome.
    ToolRan(ToolResultView),
}

/// Whether a session waits for this kind of event.
pub open spec fn awaited(session: LoopView, event: EventView) -> bool {
    match event {
        EventView::Generated { .. } => session.phase is Generating || session.phase
            is RunningSkill,
        EventView::ToolRan(_) => session.phase is RunningTool,
    }
}

/// The session after an event that it waited for. The model's output is
/// read as a decision, or as an extraction's result where one is under
/// way; a tool's outcome is judged by the guardrails.
pub open spec fn after_event<G: SemanticGuardrail>(
    session: LoopView,
    guard: &G,
    event: EventView,
) -> LoopView {
    match event {
        EventView::Generated { text, .. } => match session.phase {
            PhaseView::RunningSkill { input, target } => session.after_skill(
                extraction_response(input, target, text),
            ),
            _ => session.after_generation(text, classify(text)),
        },
        EventView::ToolRan(result) => session.after_tool(
            result,
            guard.verdict(context_view(session.state, session.phase->RunningTool_request, result)),
        ),
    }
}

/// The session after a run of events, each awaited when it came.
pub open spec fn after_events<G: SemanticGuardrail>(
    start: LoopView,
    guard: &G,
    events: Seq<EventView>,
) -> LoopView
    decreases events.len(),
{
    if events.len() == 0 {
        start
    } else {
        after_event(after_events(start, guard, events.drop_last()), guard, events.last())
    }
}

/// The cursor after a run of events: each output of the model moves it
/// on by the tokens of its call; a tool's outcome leaves it.
pub open spec fn cursor_after(cursor: Cursor, events: Seq<EventView>) -> Cursor
    decreases events.len(),
{
    if events.len() == 0 {
        cursor
    } else {
        match events.last() {
            EventView::Generated { tokens, .. } => cursor_after(cursor, events.drop_last()).after(
                tokens,
            ),
            EventView::ToolRan(_) => cursor_after(cursor, events.drop_last()),
        }
    }
}

/// Every event of a run came when the session waited for its kind.
pub open spec fn all_awaited<G: SemanticGuardrail>(
    start: LoopView,
    guard: &G,
    events: Seq<EventView>,
) -> bool {
    forall|k: int|
        0 <= k < events.len() ==> awaited(
            after_events(start, guard, #[trigger] events.take(k)),
            events[k],
        )
}

/// Reading the model's output keeps a session well formed, keeps what
/// the conversation held, and brings the session closer to its end.
pub proof fn lemma_generation_step(session: LoopView, raw: Seq<char>, decision: DecisionView)
    requires
        session.wf(),
        session.phase is Generating,
    ensures
        session.after_generation(raw, decision).wf(),
        session.after_generation(raw, decision).state.extends(session.state),
        session.after_generation(raw, decision).distance() < session.distance(),
        session.after_generation(raw, decision).max_iterations == session.max_iterations,
{
    let next = session.after_generation(raw, decision);
    let recorded = after_decision(session.state, raw, decision);
    assert(recorded.extends(session.state));
    assert(next.state.extends(recorded)) by {
        assert(recorded.history.is_prefix_of(next.state.history));
    }
    assert(session.state.history.is_prefix_of(next.state.history));
    assert((session.max_iterations - session.iterations) * 8 >= 0) by (nonlinear_arith)
        requires
            session.max_iterations >= session.iterations,
    ;
}

/// A tool's judged outcome keeps a session well formed, keeps what the
/// conversation held, and brings the session closer to its end.
pub proof fn lemma_tool_step(session: LoopView, result: ToolResultView, verdict: Verdict)
    requires
        session.wf(),
        session.phase is RunningTool,
    ensures
        session.after_tool(result, verdict).wf(),
        session.after_tool(result, verdict).state.extends(session.state),
        session.after_tool(result, verdict).distance() < session.distance(),
        session.after_tool(result, verdict).max_iterations == session.max_iterations,
{
    let next = session.after_tool(result, verdict);
    assert(session.state.history.is_prefix_of(next.state.history));
}

/// An extraction's response keeps a session well formed, keeps what the
/// conversation held, and brings the session closer to its end.
pub proof fn lemma_skill_step(session: LoopView, response: SkillResponseView)
    requires
        session.wf(),
        session.phase is RunningSkill,
    ensures
        session.after_skill(response).wf(),
        session.after_skill(response).state.extends(session.state),
        session.after_skill(response).distance() < session.distance(),
        session.after_skill(response).max_iterations == session.max_iterations,
{
    let next = session.after_skill(response);
    assert(session.state.history.is_prefix_of(next.state.history));
}

/// A corrective retry costs no iteration: where an event leaves the
/// session waiting for a retry's output, the count of iterations is what
/// it was.
pub proof fn lemma_retry_costs_no_iteration<G: SemanticGuardrail>(
    session: LoopView,
    guard: &G,
    event: EventView,
)
    requires
        session.wf(),
        awaited(session, event),
        after_event(session, guard, event).phase is Generating,
        !(after_event(session, guard, event).phase->Generating_0 is Primary),
    ensures
        after_event(session, guard, event).iterations == session.iterations,
{
}

/// The count of iterations grows by one exactly where an event opens a
/// new iteration, and not at all else.
pub proof fn lemma_iterations_count_primary_generations<G: SemanticGuardrail>(
    session: LoopView,
    guard: &G,
    event: EventView,
)
    requires
        session.wf(),
        awaited(session, event),
    ensures
        after_event(session, guard, event).iterations == session.iterations + (if after_event(
            session,
            guard,
            event,
        ).phase == PhaseView::Generating(AttemptView::Primary) {
            1nat
        } else {
            0nat
        }),
{
}

/// A failure event on a corrective retry ends the session: an
/// inconclusive output ends it as inconclusive after the retry that the
/// attempt stands for, whatever the budget holds yet.
pub proof fn lemma_inconclusive_retry_is_final(session: LoopView, raw: Seq<char>, text: Seq<char>)
    requires
        session.phase is Generating,
        !(session.phase->Generating_0 is Primary),
    ensures
        session.after_generation(raw, DecisionView::Inconclusive(text)).phase is Terminated,
        session.phase->Generating_0 matches AttemptView::AfterInconclusive { output }
            ==> session.after_generation(raw, DecisionView::Inconclusive(text)).phase
            == PhaseView::Terminated(
            OutcomeView::Failure(
                FailureView::InconclusiveAfterRetry { first: output, retry: text },
            ),
        ),
        session.phase->Generating_0 matches AttemptView::AfterRejection { reason }
            ==> session.after_generation(raw, DecisionView::Inconclusive(text)).phase
            == PhaseView::Terminated(
            OutcomeView::Failure(FailureView::InconclusiveAfterRejection { reason, output: text }),
        ),
{
}

/// A rejection of the tool that a retry after a rejection asked for ends
/// the session, with both reasons.
pub proof fn lemma_second_rejection_is_final(
    session: LoopView,
    result: ToolResultView,
    initial_reason: Seq<char>,
    retry_reason: Seq<char>,
)
    requires
        session.phase is RunningTool,
        session.phase->RunningTool_attempt == (AttemptView::AfterRejection {
            reason: initial_reason,
        }),
    ensures
        session.after_tool(result, Verdict::Reject { reason: retry_reason }).phase
            == PhaseView::Terminated(
            OutcomeView::Failure(
                FailureView::GuardrailRejectedTwice { initial_reason, retry_reason },
            ),
        ),
{
}

/// A first failure event does not end the session: it earns the retry.
pub proof fn lemma_first_failure_earns_retry(
    session: LoopView,
    raw: Seq<char>,
    text: Seq<char>,
    result: ToolResultView,
    reason: Seq<char>,
)
    ensures
        session.phase == PhaseView::Generating(AttemptView::Primary) ==> session.after_generation(
            raw,
            DecisionView::Inconclusive(text),
        ).phase == PhaseView::Generating(AttemptView::AfterInconclusive { output: text }),
        session.phase is RunningTool && !(session.phase->RunningTool_attempt is AfterRejection)
            ==> session.after_tool(result, Verdict::Reject { reason }).phase
            == PhaseView::Generating(AttemptView::AfterRejection { reason }),
{
}

/// The report of a double rejection holds both reasons word for word.
pub proof fn lemma_report_holds_both_reasons(initial_reason: Seq<char>, retry_reason: Seq<char>)
    ensures
        contains(
            (FailureView::GuardrailRejectedTwice { initial_reason, retry_reason }).diagnostic(),
            initial_reason,
        ),
        contains(
            (FailureView::GuardrailRejectedTwice { initial_reason, retry_reason }).diagnostic(),
            retry_reason,
        ),
{
    let report = (FailureView::GuardrailRejectedTwice { initial_reason, retry_reason }).diagnostic();
    let a = REJECTED_TWICE_HEAD@.len() as int;
    let b = a + initial_reason.len() + REJECTED_TWICE_MIDDLE@.len();
    assert(report.subrange(a, a + initial_reason.len()) =~= initial_reason);
    assert(occurs_at(report, initial_reason, a));
    assert(report.subrange(b, b + retry_reason.len()) =~= retry_reason);
    assert(occurs_at(report, retry_reason, b));
}

/// The report of two inconclusive outputs holds both of them word for
/// word, from their first character to their last.
pub proof fn lemma_report_holds_both_outputs(first: Seq<char>, retry: Seq<char>)
    ensures
        contains((FailureView::InconclusiveAfterRetry { first, retry }).diagnostic(), first),
        contains((FailureView::InconclusiveAfterRetry { first, retry }).diagnostic(), retry),
{
    let report = (FailureView::InconclusiveAfterRetry { first, retry }).diagnostic();
    let a = STILL_INCONCLUSIVE_HEAD@.len() as int;
    let b = a + first.len() + STILL_INCONCLUSIVE_MIDDLE@.len();
    assert(report.subrange(a, a + first.len()) =~= first);
    assert(occurs_at(report, first, a));
    assert(report.subrange(b, b + retry.len()) =~= retry);
    assert(occurs_at(report, retry, b));
}

/// The report of a rejection that the retry did not mend holds the
/// guardrail's reason and the model's output, both word for word.
pub proof fn lemma_report_holds_reason_and_output(reason: Seq<char>, output: Seq<char>)
    ensures
        contains((FailureView::InconclusiveAfterRejection { reason, output }).diagnostic(), reason),
        contains((FailureView::InconclusiveAfterRejection { reason, output }).diagnostic(), output),
{
    let report = (FailureView::InconclusiveAfterRejection { reason, output }).diagnostic();
    let a = NO_RECOVERY_HEAD@.len() as int;
    let b = a + reason.len() + NO_RECOVERY_MIDDLE@.len();
    assert(report.subrange(a, a + reason.len()) =~= reason);
    assert(occurs_at(report, reason, a));
    assert(report.subrange(b, b + output.len()) =~= output);
    assert(occurs_at(report, output, b));
}

/// A run of awaited events keeps a session well formed and keeps what
/// the conversation held at its start; each event brings the session
/// closer to its end, so a run is no longer than the start's distance.
pub proof fn lemma_run_is_bounded<G: SemanticGuardrail>(
    start: LoopView,
    guard: &G,
    events: Seq<EventView>,
)
    requires
        start.wf(),
        all_awaited(start, guard, events),
    ensures
        after_events(start, guard, events).wf(),
        after_events(start, guard, events).state.extends(start.state),
        after_events(start, guard, events).distance() + events.len() <= start.distance(),
        after_events(start, guard, events).max_iterations == start.max_iterations,
    decreases events.len(),
{
    if events.len() > 0 {
        let front = events.drop_last();
        assert forall|k: int| 0 <= k < front.len() implies awaited(
            after_events(start, guard, #[trigger] front.take(k)),
            front[k],
        ) by {
            assert(front.take(k) =~= events.take(k));
        }
        lemma_run_is_bounded(start, guard, front);
        let before = after_events(start, guard, front);
        assert(events.take(events.len() - 1) =~= front);
        assert(awaited(before, events.last()));
        lemma_event_step(before, guard, events.last());
        let after = after_event(before, guard, events.last());
        assert(start.state.history.is_prefix_of(after.state.history));
    }
}

/// An awaited event keeps a session well formed, keeps what the
/// conversation held, and brings the session closer to its end.
pub proof fn lemma_event_step<G: SemanticGuardrail>(
    session: LoopView,
    guard: &G,
    event: EventView,
)
    requires
        session.wf(),
        awaited(session, event),
    ensures
        after_event(session, guard, event).wf(),
        after_event(session, guard, event).state.extends(session.state),
        after_event(session, guard, event).distance() < session.distance(),
        after_event(session, guard, event).max_iterations == session.max_iterations,
{
    match event {
        EventView::Generated { text, .. } => match session.phase {
            PhaseView::RunningSkill { input, target } => {
                lemma_skill_step(session, extraction_response(input, target, text));
            },
            _ => {
                lemma_generation_step(session, text, classify(text));
            },
        },
        EventView::ToolRan(result) => {
            lemma_tool_step(
                session,
                result,
                guard.verdict(context_view(session.state, session.phase->RunningTool_request, result)),
            );
        },
    }
}

/// A session that is over waits for nothing: no event is awaited.
pub proof fn lemma_terminated_awaits_nothing(session: LoopView, event: EventView)
    requires
        !session.iterating(),
    ensures
        !awaited(session, event),
{
}


/// What runs a tool for the agent. Nothing is promised of the outcome it
/// reports; a tool it does not know is reported as a failed outcome.
pub trait ToolExecutor {
    /// Runs the tool that the request names, with its parameters.
    fn execute(&mut self, request: &ToolRequest) -> Result<ToolResult, anyhow::Error>;
}

/// The guardrail relies on nothing, whatever it is shown.
pub open spec fn always_ready<G: SemanticGuardrail>(guard: &G) -> bool {
    forall|context: GuardrailContextView| #[trigger] guard.relies_on(context)
}

/// A session that ran to its end, and where the backend's context
/// stands behind it.
#[derive(Debug)]
pub struct Run {
    pub session: AgentLoop,
    pub cursor: Cursor,
}

/// Runs a session to its end: asks the backend for each generation and
/// the executor for each tool, holds each tool's outcome to the
/// guardrail, which may be a chain, and hands what they return to the
/// session. Each call of the backend is given the prompt that the
/// session asks for, the token limit, and the cursor as the calls
/// before left it. An error of either ends the run at once and is
/// returned.
///
/// The session returned is over, and is the session that the events of
/// the run lead to from the start, as the cursor is the cursor that they
/// lead to; with no iteration allowed, neither the backend nor the
/// executor is asked.
pub fn run_agent<B: LLMBackend, E: ToolExecutor, G: SemanticGuardrail>(
    query: &str,
    system_prompt: &str,
    max_iterations: usize,
    max_tokens: usize,
    backend: &mut B,
    executor: &mut E,
    guard: &G,
) -> (r: Result<Run, anyhow::Error>)
    requires
        always_ready(guard),
    ensures
        max_iterations == 0 ==> r is Ok,
        r matches Ok(run) ==> {
            &&& run.session@.wf()
            &&& !run.session@.iterating()
            &&& run.session@.state.extends(ConversationView::starting(query@))
            &&& ran(LoopView::start(query@, max_iterations as nat), guard, run.session@, run.cursor)
        },
{
    let ghost start = LoopView::start(query@, max_iterations as nat);
    let ghost mut events: Seq<EventView> = Seq::empty();
    let mut session = AgentLoop::new(query, max_iterations);
    let mut cursor = Cursor::new();
    loop
        invariant
            always_ready(guard),
            start == LoopView::start(query@, max_iterations as nat),
            start.wf(),
            session@.wf(),
            all_awaited(start, guard, events),
            session@ == after_events(start, guard, events),
            cursor == cursor_after(Cursor::start(), events),
            max_iterations == 0 ==> !session@.iterating(),
        decreases session@.distance(),
    {
        let ghost before = session@;
        match session.next_action(system_prompt) {
            Action::Stop { .. } => {
                proof {
                    lemma_run_is_bounded(start, guard, events);
                }
                return Ok(Run { session, cursor });
            },
            Action::Generate { prompt } => {
                let input = cursor.call(prompt, max_tokens);
                let output = match backend.infer(input) {
                    Ok(output) => output,
                    Err(e) => {
                        return Err(e);
                    },
                };
                cursor.advance(output.tokens_processed);
                let ghost event = EventView::Generated {
                    text: output.text@,
                    tokens: output.tokens_processed,
                };
                session = if session.awaits_skill_output() {
                    session.on_skill_generation(output.text.as_str())
                } else {
                    session.on_generation(output.text.as_str())
                };
                proof {
                    lemma_event_step(before, guard, event);
                    lemma_run_extended(start, guard, events, event);
                    assert(events.push(event).drop_last() =~= events);
                    events = events.push(event);
                }
            },
            Action::RunTool { request } => {
                let result = match executor.execute(&request) {
                    Ok(result) => result,
                    Err(e) => {
                        return Err(e);
                    },
                };
                let ghost event = EventView::ToolRan(result@);
                assert(guard.relies_on(
                    context_view(before.state, before.phase->RunningTool_request, result@),
                ));
                session = session.on_tool_result(guard, &result);
                proof {
                    lemma_event_step(before, guard, event);
                    lemma_run_extended(start, guard, events, event);
                    assert(events.push(event).drop_last() =~= events);
                    events = events.push(event);
                }
            },
        }
    }
}

/// Some run of events, each awaited when it came, leads from `start` to
/// `session`, and from the cursor before the first call to `cursor`.
pub open spec fn ran<G: SemanticGuardrail>(
    start: LoopView,
    guard: &G,
    session: LoopView,
    cursor: Cursor,
) -> bool {
    exists|events: Seq<EventView>|
        all_awaited(start, guard, events) && session == #[trigger] after_events(
            start,
            guard,
            events,
        ) && cursor == cursor_after(Cursor::start(), events)
}

/// A run with one more awaited event behind it is a run of awaited
/// events, and leads to what the event makes of where the run led.
pub proof fn lemma_run_extended<G: SemanticGuardrail>(
    start: LoopView,
    guard: &G,
    events: Seq<EventView>,
    event: EventView,
)
    requires
        all_awaited(start, guard, events),
        awaited(after_events(start, guard, events), event),
    ensures
        all_awaited(start, guard, events.push(event)),
        after_events(start, guard, events.push(event)) == after_event(
            after_events(start, guard, events),
            guard,
            event,
        ),
{
    let longer = events.push(event);
    assert(longer.drop_last() =~= events);
    assert forall|k: int| 0 <= k < longer.len() implies awaited(
        after_events(start, guard, #[trigger] longer.take(k)),
        longer[k],
    ) by {
        if k < events.len() {
            assert(longer.take(k) =~= events.take(k));
        } else {
            assert(longer.take(k) =~= events);
        }
    }
}

/// What the backend is given for an extraction: the extraction's
/// prompt, the token limit and the position, in a call that is not the
/// first.
pub open spec fn extraction_call_view(
    input: ExtractionInputView,
    target: ExtractionTarget,
    max_tokens: usize,
    position: i32,
) -> LLMInputView {
    LLMInputView {
        prompt: extraction_prompt_text(input.text, target),
        max_tokens,
        current_pos: position,
        first_generation: false,
    }
}

/// Builds what the backend is given for an extraction.
pub fn extraction_call(
    input: &ExtractionInput,
    target: ExtractionTarget,
    max_tokens: usize,
    position: i32,
) -> (r: LLMInput)
    ensures
        r@ == extraction_call_view(input@, target, max_tokens, position),
{
    let cursor = Cursor { position, first_generation: false };
    cursor.call(build_extraction_prompt(input, target), max_tokens)
}

/// Runs the extraction skill on a request: the input is validated, the
/// backend is asked with the extraction's prompt, and its output is read
/// and checked. An input that is refused is answered without the
/// backend; the backend's error is returned as it is. The position moves
/// on by the tokens of the call, and stays where no call succeeded.
pub fn execute_extraction_skill<B: LLMBackend>(
    request: &SkillRequest,
    backend: &mut B,
    max_tokens: usize,
    current_pos: &mut i32,
) -> (r: Result<SkillResponse, anyhow::Error>)
    ensures
        match prepared(request@) {
            Err(e) => r matches Ok(response) && response@ == refusal(e) && *final(current_pos)
                == *old(current_pos),
            Ok(work) => r is Ok ==> answers(
                r->Ok_0@,
                work.0,
                work.1,
                *old(current_pos),
                *final(current_pos),
            ),
        },
        r is Err ==> *final(current_pos) == *old(current_pos),
{
    let input = match request.parse_extraction_input() {
        Ok(input) => input,
        Err(e) => {
            return Ok(SkillResponse::failure(e));
        },
    };
    let target = match input.validate() {
        Ok(target) => target,
        Err(e) => {
            return Ok(SkillResponse::failure(e));
        },
    };
    let call = extraction_call(&input, target, max_tokens, *current_pos);
    let output = match backend.infer(call) {
        Ok(output) => output,
        Err(e) => {
            return Err(e);
        },
    };
    *current_pos = advance_position(*current_pos, output.tokens_processed);
    let response = finish_extraction(&input, target, output.text.as_str());
    assert(prepared(request@) == Ok::<(ExtractionInputView, ExtractionTarget), SkillErrorView>(
        (input@, target),
    ));
    assert(response@ == extraction_response(input@, target, output.text@));
    Ok(response)
}

/// What an extraction works on: the request's input and its target, or
/// why the request is refused.
pub open spec fn prepared(request: SkillRequestView) -> Result<
    (ExtractionInputView, ExtractionTarget),
    SkillErrorView,
> {
    match request.extraction_input() {
        Err(e) => Err(e),
        Ok(input) => match input.validated() {
            Err(e) => Err(e),
            Ok(target) => Ok((input, target)),
        },
    }
}

/// `response` is what the extraction makes of some output of the model,
/// and the position moved from `before` to `after` by the tokens of the
/// call that gave it.
pub open spec fn answers(
    response: SkillResponseView,
    input: ExtractionInputView,
    target: ExtractionTarget,
    before: i32,
    after: i32,
) -> bool {
    exists|generated: Seq<char>, tokens: i32|
        response == #[trigger] extraction_response(input, target, generated) && after
            == #[trigger] advanced(before, tokens)
}

/// The response to a request that is refused for `error`.
pub open spec fn refusal(error: SkillErrorView) -> SkillResponseView {
    SkillResponseView { success: false, output: None, error: Some(error.describe()) }
}


} // verus!
