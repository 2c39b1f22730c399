//! Reading the model's raw output: a tool call, a skill call, a final
//! answer, or text that is neither an action nor an answer.

use crate::json::{json_parse, Json, JsonValue};
use crate::skill::{is_valid_skill, valid_skill, SkillRequest, SkillRequestView};
use crate::text::{chars_of, contains, contains_chars, lowercase, trim, trimmed};
use crate::tool::{ToolRequest, ToolRequestView};
use vstd::prelude::*;
use vstd::string::StrSliceExecFns;

verus! {

/// Model of what the model's output was read as.
pub ghost enum DecisionView {
    InvokeTool(ToolRequestView),
    InvokeSkill(SkillRequestView),
    Done(Seq<char>),
    Inconclusive(Seq<char>),
}

/// What the model's output was read as.
#[derive(Debug)]
pub enum ParseResult {
    /// The model asks for a tool.
    ToolCall(ToolRequest),
    /// The model asks for a skill.
    SkillCall(SkillRequest),
    /// The model gave its final answer.
    FinalAnswer(String),
    /// The model neither acted nor answered.
    Inconclusive(String),
}

impl View for ParseResult {
    type V = DecisionView;

    open spec fn view(&self) -> DecisionView {
        match self {
            ParseResult::ToolCall(r) => DecisionView::InvokeTool(r@),
            ParseResult::SkillCall(r) => DecisionView::InvokeSkill(r@),
            ParseResult::FinalAnswer(a) => DecisionView::Done(a@),
            ParseResult::Inconclusive(t) => DecisionView::Inconclusive(t@),
        }
    }
}

impl Clone for ParseResult {
    fn clone(&self) -> (r: Self)
        ensures
            r@ == self@,
    {
        match self {
            ParseResult::ToolCall(r) => ParseResult::ToolCall(r.clone()),
            ParseResult::SkillCall(r) => ParseResult::SkillCall(r.clone()),
            ParseResult::FinalAnswer(a) => ParseResult::FinalAnswer(a.clone()),
            ParseResult::Inconclusive(t) => ParseResult::Inconclusive(t.clone()),
        }
    }
}

/// An output shorter than this many characters may be a plan.
pub const PLAN_LENGTH_LIMIT: usize = 300;

/// The phrases, in lower case, by which a plan is told from an answer.
pub open spec fn planning_phrases() -> Seq<Seq<char>> {
    seq![
        "i will"@,
        "i'll"@,
        "let me"@,
        "let's"@,
        "we can"@,
        "we will"@,
        "to do this"@,
        "first,"@,
        "step 1"@,
        "the command"@,
        "using the"@,
        "by using"@,
    ]
}

/// Some planning phrase occurs in `lower`.
pub open spec fn has_planning_phrase(lower: Seq<char>) -> bool {
    exists|k: int| 0 <= k < planning_phrases().len() && contains(lower, planning_phrases()[k])
}

/// A text is inconclusive where it is shorter than the limit and its
/// lowercase form `lower` holds a planning phrase.
pub open spec fn inconclusive(text: Seq<char>, lower: Seq<char>) -> bool {
    text.len() < PLAN_LENGTH_LIMIT && has_planning_phrase(lower)
}

/// The action that a JSON document asks for: a tool where member `tool`
/// is a string, else a skill where member `skill` is a string that names
/// a skill of this library. The parameters are the document's other
/// members.
pub open spec fn action_of(doc: JsonValue) -> Option<DecisionView> {
    match doc.text_member("tool"@) {
        Some(name) => Some(
            DecisionView::InvokeTool(ToolRequestView { tool: name, params: doc.without("tool"@) }),
        ),
        None => match doc.text_member("skill"@) {
            Some(name) => if valid_skill(name) {
                Some(
                    DecisionView::InvokeSkill(
                        SkillRequestView { skill: name, params: doc.without("skill"@) },
                    ),
                )
            } else {
                None
            },
            None => None,
        },
    }
}

/// What a trimmed output is read as, given its lowercase form and what
/// the JSON parser made of it.
pub open spec fn decision_of(
    text: Seq<char>,
    lower: Seq<char>,
    parsed: Result<JsonValue, Seq<char>>,
) -> DecisionView {
    let action = match parsed {
        Ok(doc) => action_of(doc),
        Err(_) => None,
    };
    match action {
        Some(decision) => decision,
        None => if inconclusive(text, lower) {
            DecisionView::Inconclusive(text)
        } else {
            DecisionView::Done(text)
        },
    }
}

/// What a raw output is read as.
pub open spec fn classify(raw: Seq<char>) -> DecisionView {
    let text = trimmed(raw);
    decision_of(text, lowercase(text), json_parse(text))
}

/// Every raw output is read as exactly one of the four kinds.
pub proof fn lemma_classify_is_total(raw: Seq<char>)
    ensures
        (classify(raw) is InvokeTool) || (classify(raw) is InvokeSkill) || (classify(raw) is Done)
            || (classify(raw) is Inconclusive),
        !((classify(raw) is InvokeTool) && (classify(raw) is InvokeSkill)),
        !((classify(raw) is InvokeTool) && (classify(raw) is Done)),
        !((classify(raw) is InvokeTool) && (classify(raw) is Inconclusive)),
        !((classify(raw) is InvokeSkill) && (classify(raw) is Done)),
        !((classify(raw) is InvokeSkill) && (classify(raw) is Inconclusive)),
        !((classify(raw) is Done) && (classify(raw) is Inconclusive)),
        classify(raw) is Done ==> classify(raw)->Done_0 == trimmed(raw),
        classify(raw) is Inconclusive ==> classify(raw)->Inconclusive_0 == trimmed(raw),
{
}

/// The same result with the document as its model.
pub open spec fn parsed_view(parsed: Result<Json, String>) -> Result<JsonValue, Seq<char>> {
    match parsed {
        Ok(doc) => Ok(doc@),
        Err(message) => Err(message@),
    }
}

/// Whether a text in lower case holds a planning phrase.
pub fn has_planning_marker(lower: &str) -> (r: bool)
    ensures
        r == has_planning_phrase(lower@),
{
    let phrases: [&str; 12] = [
        "i will",
        "i'll",
        "let me",
        "let's",
        "we can",
        "we will",
        "to do this",
        "first,",
        "step 1",
        "the command",
        "using the",
        "by using",
    ];
    let hay = chars_of(lower);
    let mut k: usize = 0;
    while k < 12
        invariant
            k <= 12,
            hay@ == lower@,
            forall|j: int| 0 <= j < 12 ==> (#[trigger] phrases@[j])@ == planning_phrases()[j],
            forall|j: int| 0 <= j < k ==> !contains(lower@, #[trigger] planning_phrases()[j]),
        decreases 12 - k,
    {
        let needle = chars_of(phrases[k]);
        if contains_chars(&hay, &needle) {
            return true;
        }
        k += 1;
    }
    false
}

/// Whether an output describes what the model means to do in place of
/// doing it: it is short, and holds a planning phrase in any case.
pub fn is_inconclusive(output: &str) -> (r: bool)
    ensures
        r == inconclusive(output@, lowercase(output@)),
{
    if output.unicode_len() < PLAN_LENGTH_LIMIT {
        let lower = output.to_lowercase();
        has_planning_marker(lower.as_str())
    } else {
        false
    }
}

/// The action that a JSON document asks for.
pub fn action_in(doc: &Json) -> (r: Option<ParseResult>)
    ensures
        match r {
            Some(decision) => action_of(doc@) == Some(decision@),
            None => action_of(doc@) is None,
        },
{
    match doc.get_str("tool") {
        Some(name) => Some(
            ParseResult::ToolCall(ToolRequest { tool: name.to_owned(), params: doc.without("tool") }),
        ),
        None => match doc.get_str("skill") {
            Some(name) => if is_valid_skill(name) {
                Some(ParseResult::SkillCall(SkillRequest::new(name, doc.without("skill"))))
            } else {
                None
            },
            None => None,
        },
    }
}

/// What a trimmed output is read as, given its lowercase form and what
/// the JSON parser made of it.
pub fn decide(text: &str, lower: &str, parsed: &Result<Json, String>) -> (r: ParseResult)
    ensures
        r@ == decision_of(text@, lower@, parsed_view(*parsed)),
{
    let action = match parsed {
        Ok(doc) => action_in(doc),
        Err(_) => None,
    };
    match action {
        Some(decision) => decision,
        None => if text.unicode_len() < PLAN_LENGTH_LIMIT && has_planning_marker(lower) {
            ParseResult::Inconclusive(text.to_owned())
        } else {
            ParseResult::FinalAnswer(text.to_owned())
        },
    }
}

/// Reads the model's raw output. Every text is read as exactly one of
/// the four kinds.
pub fn parse_model_output(output: &str) -> (r: ParseResult)
    ensures
        r@ == classify(output@),
{
    let text = trim(output);
    let parsed = Json::parse(text);
    let lower = text.to_lowercase();
    decide(text, lower.as_str(), &parsed)
}

} // verus!
