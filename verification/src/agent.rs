//! The conversation: an append-only log of messages and its completion.

use crate::protocol::{classify, parse_model_output, DecisionView, ParseResult};
use crate::skill::SkillRequest;
use crate::tool::{ToolRequest, ToolResult, ToolResultView};
use vstd::prelude::*;
use vstd::string::StringExecFns;

verus! {

/// Who wrote a message.
#[derive(Clone, Copy, Debug, PartialEq, Eq, Structural)]
pub enum Role {
    User,
    Assistant,
    Tool,
}

/// Model of a [`Message`].
pub ghost struct MessageView {
    pub role: Role,
    pub content: Seq<char>,
}

/// One entry of the conversation.
#[derive(Debug)]
pub struct Message {
    pub role: Role,
    pub content: String,
}

impl View for Message {
    type V = MessageView;

    open spec fn view(&self) -> MessageView {
        MessageView { role: self.role, content: self.content@ }
    }
}

impl Clone for Message {
    fn clone(&self) -> (r: Self)
        ensures
            r@ == self@,
    {
        Message { role: self.role, content: self.content.clone() }
    }
}

/// Model of an [`AgentState`].
pub ghost struct ConversationView {
    pub history: Seq<MessageView>,
    pub is_complete: bool,
    pub final_answer: Option<Seq<char>>,
}

impl ConversationView {
    /// A final answer is present exactly when the conversation is complete.
    pub open spec fn wf(self) -> bool {
        self.is_complete <==> self.final_answer is Some
    }

    /// The conversation that a session starts with.
    pub open spec fn starting(query: Seq<char>) -> ConversationView {
        ConversationView {
            history: seq![MessageView { role: Role::User, content: query }],
            is_complete: false,
            final_answer: None,
        }
    }

    /// The conversation with one more message at its end.
    pub open spec fn appended(self, role: Role, content: Seq<char>) -> ConversationView {
        ConversationView { history: self.history.push(MessageView { role, content }), ..self }
    }

    /// The conversation with each of `messages` added at its end, in order.
    pub open spec fn appended_all(self, messages: Seq<MessageView>) -> ConversationView
        decreases messages.len(),
    {
        if messages.len() == 0 {
            self
        } else {
            self.appended(messages[0].role, messages[0].content).appended_all(
                messages.drop_first(),
            )
        }
    }

    /// The conversation closed with `answer`.
    pub open spec fn completed(self, answer: Seq<char>) -> ConversationView {
        ConversationView { is_complete: true, final_answer: Some(answer), ..self }
    }

    /// `self` holds all of `earlier`'s messages, in order, at its start.
    pub open spec fn extends(self, earlier: ConversationView) -> bool {
        earlier.history.is_prefix_of(self.history)
    }
}

/// The state of an agent's session.
#[derive(Debug)]
pub struct AgentState {
    /// User messages, model responses and tool results, oldest first.
    pub history: Vec<Message>,
    /// Whether a final answer was reached.
    pub is_complete: bool,
    /// The final answer, once reached.
    pub final_answer: Option<String>,
}

impl View for AgentState {
    type V = ConversationView;

    open spec fn view(&self) -> ConversationView {
        ConversationView {
            history: self.history@.map_values(|m: Message| m@),
            is_complete: self.is_complete,
            final_answer: match self.final_answer {
                Some(a) => Some(a@),
                None => None,
            },
        }
    }
}

impl AgentState {
    /// A session that holds the user's query and nothing else.
    pub fn new(query: &str) -> (r: Self)
        ensures
            r@ == ConversationView::starting(query@),
            r@.wf(),
    {
        let mut history: Vec<Message> = Vec::new();
        history.push(Message { role: Role::User, content: query.to_owned() });
        let r = AgentState { history, is_complete: false, final_answer: None };
        assert(r@.history =~= ConversationView::starting(query@).history);
        r
    }

    /// Adds a message at the end of the history. A completed conversation
    /// takes no more messages: it stays as it is.
    pub fn add_message(&mut self, role: Role, content: &str)
        ensures
            !old(self).is_complete ==> final(self)@ == old(self)@.appended(role, content@),
            old(self).is_complete ==> *final(self) == *old(self),
    {
        if !self.is_complete {
            self.history.push(Message { role, content: content.to_owned() });
            assert(self@.history =~= old(self)@.appended(role, content@).history);
        }
    }

    /// Closes the conversation with `answer`. Where it is closed already,
    /// nothing changes and the result is `false`.
    pub fn mark_complete(&mut self, answer: &str) -> (done: bool)
        ensures
            done == !old(self).is_complete,
            done ==> final(self)@ == old(self)@.completed(answer@),
            !done ==> *final(self) == *old(self),
    {
        if self.is_complete {
            false
        } else {
            self.is_complete = true;
            self.final_answer = Some(answer.to_owned());
            true
        }
    }
}

impl Clone for AgentState {
    fn clone(&self) -> (r: Self)
        ensures
            r@ == self@,
    {
        let mut history: Vec<Message> = Vec::new();
        let mut i: usize = 0;
        while i < self.history.len()
            invariant
                i <= self.history.len(),
                history.len() == i,
                forall|j: int| 0 <= j < i ==> (#[trigger] history@[j])@ == self.history@[j]@,
            decreases self.history.len() - i,
        {
            history.push(self.history[i].clone());
            i += 1;
        }
        let final_answer = match &self.final_answer {
            Some(a) => Some(a.clone()),
            None => None,
        };
        let r = AgentState { history, is_complete: self.is_complete, final_answer };
        assert(r@.history =~= self@.history);
        r
    }
}

/// What a tool's outcome reads as in the conversation.
pub open spec fn tool_message(result: ToolResultView) -> Seq<char> {
    if result.success {
        "Tool output:\n"@ + result.output
    } else {
        "Tool failed: "@ + match result.error {
            Some(e) => e,
            None => "unknown error"@,
        }
    }
}

/// Adds a tool's outcome to the conversation, as a message of the tool.
/// A completed conversation stays as it is.
pub fn apply_tool_result(state: &mut AgentState, result: &ToolResult)
    ensures
        !old(state).is_complete ==> final(state)@ == old(state)@.appended(
            Role::Tool,
            tool_message(result@),
        ),
        old(state).is_complete ==> *final(state) == *old(state),
{
    let content = if result.success {
        String::from_str("Tool output:\n").concat(result.output.as_str())
    } else {
        let reason = match &result.error {
            Some(e) => e.as_str(),
            None => "unknown error",
        };
        String::from_str("Tool failed: ").concat(reason)
    };
    state.add_message(Role::Tool, content.as_str());
}

/// Appending messages one after another keeps every earlier message in
/// place and puts the new ones behind them in the order given.
pub proof fn lemma_appends_keep_order(start: ConversationView, messages: Seq<MessageView>)
    ensures
        start.appended_all(messages).history == start.history + messages,
        start.appended_all(messages).is_complete == start.is_complete,
        start.appended_all(messages).final_answer == start.final_answer,
    decreases messages.len(),
{
    if messages.len() == 0 {
        assert(start.history + messages =~= start.history);
    } else {
        let next = start.appended(messages[0].role, messages[0].content);
        lemma_appends_keep_order(next, messages.drop_first());
        assert(next.history + messages.drop_first() =~= start.history + messages);
    }
}

/// What the agent does next.
#[derive(Debug)]
pub enum AgentDecision {
    /// Run a tool.
    InvokeTool(ToolRequest),
    /// Run a skill.
    InvokeSkill(SkillRequest),
    /// Give the final answer.
    Done(String),
    /// The model neither acted nor answered.
    Inconclusive(String),
}

impl View for AgentDecision {
    type V = DecisionView;

    open spec fn view(&self) -> DecisionView {
        match self {
            AgentDecision::InvokeTool(r) => DecisionView::InvokeTool(r@),
            AgentDecision::InvokeSkill(r) => DecisionView::InvokeSkill(r@),
            AgentDecision::Done(a) => DecisionView::Done(a@),
            AgentDecision::Inconclusive(t) => DecisionView::Inconclusive(t@),
        }
    }
}

impl Clone for AgentDecision {
    fn clone(&self) -> (r: Self)
        ensures
            r@ == self@,
    {
        match self {
            AgentDecision::InvokeTool(r) => AgentDecision::InvokeTool(r.clone()),
            AgentDecision::InvokeSkill(r) => AgentDecision::InvokeSkill(r.clone()),
            AgentDecision::Done(a) => AgentDecision::Done(a.clone()),
            AgentDecision::Inconclusive(t) => AgentDecision::Inconclusive(t.clone()),
        }
    }
}

/// The conversation after the model's output `raw` was read as
/// `decision`: a call is recorded as the assistant's message, as the
/// model wrote it; an answer is recorded and closes the conversation;
/// an inconclusive output leaves no trace.
pub open spec fn after_decision(
    state: ConversationView,
    raw: Seq<char>,
    decision: DecisionView,
) -> ConversationView {
    match decision {
        DecisionView::InvokeTool(_) => state.appended(Role::Assistant, raw),
        DecisionView::InvokeSkill(_) => state.appended(Role::Assistant, raw),
        DecisionView::Done(answer) => state.appended(Role::Assistant, answer).completed(answer),
        DecisionView::Inconclusive(_) => state,
    }
}

/// Records in the conversation what the model's output `raw` was read
/// as, and hands on the decision. A completed conversation stays as it
/// is.
pub fn record_decision(state: &mut AgentState, raw: &str, parsed: ParseResult) -> (r: AgentDecision)
    ensures
        r@ == parsed@,
        !old(state).is_complete ==> final(state)@ == after_decision(old(state)@, raw@, parsed@),
        old(state).is_complete ==> *final(state) == *old(state),
        old(state)@.wf() ==> final(state)@.wf(),
{
    match parsed {
        ParseResult::ToolCall(request) => {
            state.add_message(Role::Assistant, raw);
            AgentDecision::InvokeTool(request)
        },
        ParseResult::SkillCall(request) => {
            state.add_message(Role::Assistant, raw);
            AgentDecision::InvokeSkill(request)
        },
        ParseResult::FinalAnswer(answer) => {
            state.add_message(Role::Assistant, answer.as_str());
            state.mark_complete(answer.as_str());
            AgentDecision::Done(answer)
        },
        ParseResult::Inconclusive(text) => AgentDecision::Inconclusive(text),
    }
}

/// Reads the model's output, records it in the conversation, and says
/// what to do next. A completed conversation stays as it is.
pub fn process_model_output(state: &mut AgentState, model_output: &str) -> (r: AgentDecision)
    ensures
        r@ == classify(model_output@),
        !old(state).is_complete ==> final(state)@ == after_decision(
            old(state)@,
            model_output@,
            classify(model_output@),
        ),
        old(state).is_complete ==> *final(state) == *old(state),
        old(state)@.wf() ==> final(state)@.wf(),
{
    let parsed = parse_model_output(model_output);
    record_decision(state, model_output, parsed)
}


} // verus!
