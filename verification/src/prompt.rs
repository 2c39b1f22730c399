//! The prompts that the agent sends to the model.

use crate::agent::{AgentState, ConversationView, MessageView, Role};
use crate::skill::{ExtractionInput, ExtractionTarget};
use crate::text::{chars_of, contains, is_blank, occurs_at, trim_bounds};
use vstd::prelude::*;
use vstd::string::StringExecFns;

verus! {

/// What the model is told of its tools, its skills and the two forms of
/// reply.
pub const BASE_SYSTEM_PROMPT: &'static str =
    "You are a helpful AI agent with access to tools and skills.\
     \n\nAvailable tools:\
     \n- shell: Execute shell commands\
     \n\nAvailable skills:\
     \n- extract: Extract structured information from text (email, url, date, entity, name)\
     \n\nTo invoke a tool, respond with JSON:\
     \n{\"tool\": \"shell\", \"command\": \"your command here\"}\
     \n\nTo invoke a skill, respond with JSON:\
     \n{\"skill\": \"extract\", \"text\": \"the text to extract from\", \"target\": \"email\"}\
     \n\nSupported extraction targets: email, url, date, entity, name\
     \n\nIMPORTANT:\
     \n- Only output JSON when you want to invoke a tool or skill\
     \n- For final answers, respond in plain text (no JSON)\
     \n- Be concise and helpful\
     \n\nExample tool invocation:\
     \n{\"tool\": \"shell\", \"command\": \"ls -la\"}\
     \n\nExample skill invocation:\
     \n{\"skill\": \"extract\", \"text\": \"Contact us at hello@agent.rs\", \"target\": \"email\"}\
     \n\nExample final answer:\
     \nThe directory contains 5 files including README.md and src/.";

/// The shape asked of a reply that follows a tool's use.
pub const TOOL_RESPONSE_SCHEMA: &'static str =
    "When responding after tool usage:\
     \n- First provide an OBSERVATIONS section containing factual information derived directly from tool output.\
     \n- Then provide a FINAL ANSWER section that directly answers the user request.\
     \n\nBoth sections are required.";

/// The stricter instructions of a corrective retry.
pub const CORRECTIVE_INSTRUCTIONS: &'static str =
    "CRITICAL: You MUST call a tool to complete this \
     task.\
     \nRespond ONLY with valid JSON in the exact format shown above.\
     \nDo NOT explain what you will do. Do NOT use plain text. Output JSON only.\
     \n\nIMPORTANT: The tool command must directly produce the final answer.\
     \nAvoid commands that output headers, summaries, or non-answer lines.\
     \nThe tool output should be the actual data requested, not metadata about it.\
     \n\n";

/// The system prompt: the base text, and behind it the catalogue of
/// skills where that is not blank.
pub open spec fn system_prompt_text(available_skills: Seq<char>) -> Seq<char> {
    if is_blank(available_skills) {
        BASE_SYSTEM_PROMPT@
    } else {
        BASE_SYSTEM_PROMPT@ + "\n\n"@ + available_skills
    }
}

/// The system prompt for a catalogue of skills.
pub fn build_system_prompt(available_skills_prompt: &str) -> (r: String)
    ensures
        r@ == system_prompt_text(available_skills_prompt@),
{
    let cs = chars_of(available_skills_prompt);
    let (a, b) = trim_bounds(&cs);
    let base = String::from_str(BASE_SYSTEM_PROMPT);
    if a == b {
        base
    } else {
        base.concat("\n\n").concat(available_skills_prompt)
    }
}

/// How one message reads in a prompt: the user's and the assistant's
/// under their names, a tool's as it is.
pub open spec fn rendered_message(message: MessageView) -> Seq<char> {
    match message.role {
        Role::User => "User: "@ + message.content + "\n\n"@,
        Role::Assistant => "Assistant: "@ + message.content + "\n\n"@,
        Role::Tool => message.content + "\n\n"@,
    }
}

/// How a history reads in a prompt: its messages, oldest first.
pub open spec fn rendered_history(history: Seq<MessageView>) -> Seq<char>
    decreases history.len(),
{
    if history.len() == 0 {
        Seq::empty()
    } else {
        rendered_history(history.drop_last()) + rendered_message(history.last())
    }
}

/// The prompt for the next generation: the system prompt, the history,
/// the reply's shape once a tool was used, the stricter instructions on
/// a corrective retry, and the assistant's turn marker.
pub open spec fn prompt_text(
    state: ConversationView,
    tool_used: bool,
    corrective: bool,
    system_prompt: Seq<char>,
) -> Seq<char> {
    system_prompt + "\n\n"@ + rendered_history(state.history) + (if tool_used {
        TOOL_RESPONSE_SCHEMA@ + "\n\n"@
    } else {
        Seq::empty()
    }) + (if corrective {
        CORRECTIVE_INSTRUCTIONS@
    } else {
        Seq::empty()
    }) + "Assistant: "@
}

/// Builds the prompt for the next generation.
pub fn before_llm_call(
    state: &AgentState,
    tool_used: bool,
    corrective: bool,
    system_prompt: &str,
) -> (r: String)
    ensures
        r@ == prompt_text(state@, tool_used, corrective, system_prompt@),
{
    let mut prompt = String::from_str(system_prompt);
    prompt.append("\n\n");
    let ghost head = system_prompt@ + "\n\n"@;
    let ghost history = state@.history;
    let mut i: usize = 0;
    assert(history.take(0) =~= Seq::empty());
    assert(prompt@ =~= head + rendered_history(history.take(0)));
    while i < state.history.len()
        invariant
            i <= state.history.len(),
            history == state@.history,
            history.len() == state.history.len(),
            head == system_prompt@ + "\n\n"@,
            prompt@ == head + rendered_history(history.take(i as int)),
        decreases state.history.len() - i,
    {
        let msg = &state.history[i];
        let ghost before = prompt@;
        proof {
            assert(history.take(i + 1).drop_last() =~= history.take(i as int));
            assert(history.take(i + 1).last() == msg@);
        }
        match msg.role {
            Role::User => {
                prompt.append("User: ");
                prompt.append(msg.content.as_str());
                prompt.append("\n\n");
            },
            Role::Assistant => {
                prompt.append("Assistant: ");
                prompt.append(msg.content.as_str());
                prompt.append("\n\n");
            },
            Role::Tool => {
                prompt.append(msg.content.as_str());
                prompt.append("\n\n");
            },
        }
        assert(prompt@ =~= before + rendered_message(msg@));
        assert(prompt@ =~= head + rendered_history(history.take(i + 1)));
        i += 1;
    }
    assert(history.take(state.history.len() as int) =~= history);
    let ghost body = prompt@;
    if tool_used {
        prompt.append(TOOL_RESPONSE_SCHEMA);
        prompt.append("\n\n");
        assert(prompt@ =~= body + (TOOL_RESPONSE_SCHEMA@ + "\n\n"@));
    } else {
        assert(prompt@ =~= body + Seq::<char>::empty());
    }
    let ghost with_shape = prompt@;
    if corrective {
        prompt.append(CORRECTIVE_INSTRUCTIONS);
    } else {
        assert(prompt@ =~= with_shape + Seq::<char>::empty());
    }
    prompt.append("Assistant: ");
    prompt
}

/// What an extraction is asked to find, in words.
pub open spec fn target_description(target: ExtractionTarget) -> Seq<char> {
    match target {
        ExtractionTarget::Email => "email addresses"@,
        ExtractionTarget::Url => "URLs"@,
        ExtractionTarget::Date => "dates (in ISO format YYYY-MM-DD)"@,
        ExtractionTarget::Entity => "named entities (people, organizations, locations)"@,
        ExtractionTarget::Name => "person names (first name, last name, full names)"@,
    }
}

/// What the one field of an extraction's output holds: three lists for
/// an entity, a list for every other target.
pub open spec fn field_shape(target: ExtractionTarget) -> Seq<char> {
    match target {
        ExtractionTarget::Entity =>
            "{\"people\": [...], \"organizations\": [...], \"locations\": [...]}"@,
        _ => "[...]"@,
    }
}

/// The shape of the JSON that an extraction must return: an object of
/// one field, named after the target.
pub open spec fn output_format(target: ExtractionTarget) -> Seq<char> {
    "{\""@ + target.name() + "\": "@ + field_shape(target) + "}"@
}

/// The first part of an extraction prompt.
pub const EXTRACTION_HEAD: &'static str = "Extract ";

/// The first rules of an extraction.
pub const EXTRACTION_RULES: &'static str =
    " from the following text.\
     \n\nIMPORTANT:\
     \n- Output ONLY valid JSON\
     \n- Only include values that ACTUALLY APPEAR in the text\
     \n- ";

/// The rule that no value may be invented.
pub const NO_INVENTION_RULE: &'static str = "Do NOT invent or hallucinate values";

/// The last rule of an extraction, and the label of the text.
pub const EXTRACTION_TEXT_LABEL: &'static str =
    "\n- If no matches found, return an empty array\n\nText: \"";

/// What stands between the text and the output's shape.
pub const EXTRACTION_FORMAT_LABEL: &'static str = "\"\n\nOutput format: ";

/// The end of an extraction prompt.
pub const EXTRACTION_TAIL: &'static str = "\n\nJSON output:";

/// The prompt of an extraction: what to find, the rules, the text, and
/// the shape of the output.
pub open spec fn extraction_prompt_text(text: Seq<char>, target: ExtractionTarget) -> Seq<char> {
    EXTRACTION_HEAD@ + target_description(target) + EXTRACTION_RULES@ + NO_INVENTION_RULE@
        + EXTRACTION_TEXT_LABEL@ + text + EXTRACTION_FORMAT_LABEL@ + output_format(target)
        + EXTRACTION_TAIL@
}

/// Builds the prompt of an extraction.
pub fn build_extraction_prompt(input: &ExtractionInput, target: ExtractionTarget) -> (r: String)
    ensures
        r@ == extraction_prompt_text(input@.text, target),
{
    let target_desc = match target {
        ExtractionTarget::Email => "email addresses",
        ExtractionTarget::Url => "URLs",
        ExtractionTarget::Date => "dates (in ISO format YYYY-MM-DD)",
        ExtractionTarget::Entity => "named entities (people, organizations, locations)",
        ExtractionTarget::Name => "person names (first name, last name, full names)",
    };
    let shape = match target {
        ExtractionTarget::Entity =>
            "{\"people\": [...], \"organizations\": [...], \"locations\": [...]}",
        _ => "[...]",
    };
    let format = String::from_str("{\"").concat(target.as_str()).concat("\": ").concat(
        shape,
    ).concat("}");
    String::from_str(EXTRACTION_HEAD).concat(target_desc).concat(EXTRACTION_RULES).concat(
        NO_INVENTION_RULE,
    ).concat(EXTRACTION_TEXT_LABEL).concat(input.text.as_str()).concat(
        EXTRACTION_FORMAT_LABEL,
    ).concat(format.as_str()).concat(EXTRACTION_TAIL)
}

/// An extraction's prompt holds the source text, the rule that no value
/// may be invented, and the request for a field named after the target.
pub proof fn lemma_extraction_prompt_states_the_contract(text: Seq<char>, target: ExtractionTarget)
    ensures
        contains(extraction_prompt_text(text, target), text),
        contains(extraction_prompt_text(text, target), NO_INVENTION_RULE@),
        contains(extraction_prompt_text(text, target), "{\""@ + target.name() + "\": "@),
{
    let prompt = extraction_prompt_text(text, target);
    let rule_at = (EXTRACTION_HEAD@ + target_description(target) + EXTRACTION_RULES@).len() as int;
    let text_at = rule_at + NO_INVENTION_RULE@.len() + EXTRACTION_TEXT_LABEL@.len();
    let field_at = text_at + text.len() + EXTRACTION_FORMAT_LABEL@.len();
    let field = "{\""@ + target.name() + "\": "@;
    assert(prompt.subrange(rule_at, rule_at + NO_INVENTION_RULE@.len()) =~= NO_INVENTION_RULE@);
    assert(occurs_at(prompt, NO_INVENTION_RULE@, rule_at));
    assert(prompt.subrange(text_at, text_at + text.len()) =~= text);
    assert(occurs_at(prompt, text, text_at));
    assert(prompt.subrange(field_at, field_at + field.len()) =~= field);
    assert(occurs_at(prompt, field, field_at));
}

} // verus!
