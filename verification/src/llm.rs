//! The inference backend, as the agent sees it: a prompt goes in, text
//! comes out.

use crate::json::{json_parse, Json};
use crate::text::{
    chars_of, contains, contains_chars, holds_char, trim_bounds, trim_end, trim_end_bound, trimmed,
};
use vstd::prelude::*;
use vstd::string::StrSliceExecFns;

verus! {

/// `anyhow::Error`, of which nothing is known here but that it is a
/// type: a backend's or an executor's error is handed on as it came.
#[verifier::external_type_specification]
#[verifier::external_body]
pub struct ExBackendError(anyhow::Error);

/// What one inference call is given.
#[derive(Debug)]
pub struct LLMInput {
    /// The full prompt.
    pub prompt: String,
    /// The most tokens to generate.
    pub max_tokens: usize,
    /// Where the backend's context stands.
    pub current_pos: i32,
    /// Whether this is the session's first generation.
    pub first_generation: bool,
}

/// Model of an [`LLMInput`].
pub ghost struct LLMInputView {
    pub prompt: Seq<char>,
    pub max_tokens: usize,
    pub current_pos: i32,
    pub first_generation: bool,
}

impl View for LLMInput {
    type V = LLMInputView;

    open spec fn view(&self) -> LLMInputView {
        LLMInputView {
            prompt: self.prompt@,
            max_tokens: self.max_tokens,
            current_pos: self.current_pos,
            first_generation: self.first_generation,
        }
    }
}

/// What one inference call returns.
#[derive(Debug)]
pub struct LLMOutput {
    /// The generated text.
    pub text: String,
    /// The tokens processed: those of the prompt and those generated.
    pub tokens_processed: i32,
}

/// An inference backend. Nothing is promised of what it generates.
pub trait LLMBackend {
    /// Runs the model on the prompt.
    fn infer(&mut self, input: LLMInput) -> Result<LLMOutput, anyhow::Error>;
}

/// The context position after `tokens` more tokens: their sum, held
/// within the range of `i32`.
pub open spec fn advanced(pos: i32, tokens: i32) -> i32 {
    if pos + tokens > i32::MAX {
        i32::MAX
    } else if pos + tokens < i32::MIN {
        i32::MIN
    } else {
        (pos + tokens) as i32
    }
}

/// Moves the context position on by the tokens that a call processed.
pub fn advance_position(pos: i32, tokens: i32) -> (r: i32)
    ensures
        r == advanced(pos, tokens),
{
    match pos.checked_add(tokens) {
        Some(next) => next,
        None => if tokens > 0 {
            i32::MAX
        } else {
            i32::MIN
        },
    }
}

/// Where the backend's context stands between calls: the position
/// that the next call begins at, and whether no call was made yet.
#[derive(Clone, Copy, Debug, PartialEq, Eq, Structural)]
pub struct Cursor {
    pub position: i32,
    pub first_generation: bool,
}

impl Cursor {
    /// The cursor before the first call.
    pub open spec fn start() -> Cursor {
        Cursor { position: 0, first_generation: true }
    }

    /// The cursor after a call that processed `tokens` tokens.
    pub open spec fn after(self, tokens: i32) -> Cursor {
        Cursor { position: advanced(self.position, tokens), first_generation: false }
    }

    /// What the next call is given: the prompt, the token limit, and
    /// the cursor's position and flag.
    pub open spec fn input(self, prompt: Seq<char>, max_tokens: usize) -> LLMInputView {
        LLMInputView {
            prompt,
            max_tokens,
            current_pos: self.position,
            first_generation: self.first_generation,
        }
    }

    /// The cursor before the first call.
    pub fn new() -> (r: Cursor)
        ensures
            r == Cursor::start(),
    {
        Cursor { position: 0, first_generation: true }
    }

    /// The input of the next call.
    pub fn call(&self, prompt: String, max_tokens: usize) -> (r: LLMInput)
        ensures
            r@ == self.input(prompt@, max_tokens),
    {
        LLMInput {
            prompt,
            max_tokens,
            current_pos: self.position,
            first_generation: self.first_generation,
        }
    }

    /// Moves the cursor behind a call that processed `tokens` tokens.
    pub fn advance(&mut self, tokens: i32)
        ensures
            *final(self) == old(self).after(tokens),
    {
        self.position = advance_position(self.position, tokens);
        self.first_generation = false;
    }
}

/// A text ends a sentence: its last character is a full stop, an
/// exclamation mark or a question mark.
pub open spec fn ends_sentence(s: Seq<char>) -> bool {
    s.len() > 0 && (s.last() == '.' || s.last() == '!' || s.last() == '?')
}

/// Whether what was generated so far is complete, given whether its
/// trimmed form is valid JSON. What begins as a JSON object is complete
/// once it holds a closing brace and is valid JSON; any other text once
/// it holds an empty line and, but for trailing whitespace, ends a
/// sentence.
pub open spec fn complete_given(text: Seq<char>, valid_json: bool) -> bool {
    if trimmed(text).len() > 0 && trimmed(text)[0] == '{' {
        text.contains('}') && valid_json
    } else {
        contains(text, "\n\n"@) && ends_sentence(trim_end(text))
    }
}

/// Whether what was generated so far is complete.
pub open spec fn generation_complete(text: Seq<char>) -> bool {
    complete_given(text, json_parse(trimmed(text)) is Ok)
}

/// Whether what was generated so far is complete, given whether its
/// trimmed form is valid JSON.
pub fn is_complete_given(text: &str, valid_json: bool) -> (r: bool)
    ensures
        r == complete_given(text@, valid_json),
{
    let cs = chars_of(text);
    let (a, b) = trim_bounds(&cs);
    if a < b && cs[a] == '{' {
        assert(cs@.subrange(a as int, b as int)[0] == cs@[a as int]);
        holds_char(&cs, '}') && valid_json
    } else {
        proof {
            if a < b {
                assert(cs@.subrange(a as int, b as int)[0] == cs@[a as int]);
            }
        }
        let gap = chars_of("\n\n");
        if !contains_chars(&cs, &gap) {
            return false;
        }
        let end = trim_end_bound(&cs);
        if end == 0 {
            return false;
        }
        let last = cs[end - 1];
        assert(cs@.take(end as int).last() == last);
        last == '.' || last == '!' || last == '?'
    }
}

/// Whether what was generated so far is complete, so that generation
/// may stop before the token limit.
pub fn is_generation_complete(text: &str) -> (r: bool)
    ensures
        r == generation_complete(text@),
{
    let cs = chars_of(text);
    let (a, b) = trim_bounds(&cs);
    let valid_json = Json::parse(text.substring_char(a, b)).is_ok();
    is_complete_given(text, valid_json)
}


} // verus!
