//! Guardrails: checks that a tool's outcome is worth accepting, run one
//! after another until the first that rejects.

use crate::agent::{AgentState, ConversationView};
use crate::text::{
    all_ascii_digits, any_alphanumeric, chars_of, eq_ignore_ascii_case, eq_ignoring_ascii_case,
    has_alphanumeric, holds_char, is_all_ascii_digits, is_blank, lemma_trim_start, slice_chars,
    trim_bounds, trimmed, word_bounds, words,
};
use crate::tool::{ToolRequest, ToolRequestView, ToolResult, ToolResultView};
use vstd::prelude::*;

verus! {

/// Model of a [`GuardrailResult`].
pub ghost enum Verdict {
    Accept,
    Reject { reason: Seq<char> },
}

/// What a guardrail says of a tool's outcome.
#[derive(Debug)]
pub enum GuardrailResult {
    /// The outcome is plausible.
    Accept,
    /// The outcome is refused, for the reason given.
    Reject { reason: String },
}

impl View for GuardrailResult {
    type V = Verdict;

    open spec fn view(&self) -> Verdict {
        match self {
            GuardrailResult::Accept => Verdict::Accept,
            GuardrailResult::Reject { reason } => Verdict::Reject { reason: reason@ },
        }
    }
}

impl Clone for GuardrailResult {
    fn clone(&self) -> (r: Self)
        ensures
            r@ == self@,
    {
        match self {
            GuardrailResult::Accept => GuardrailResult::Accept,
            GuardrailResult::Reject { reason } => GuardrailResult::Reject { reason: reason.clone() },
        }
    }
}

impl GuardrailResult {
    /// The verdict that accepts.
    pub fn accept() -> (r: Self)
        ensures
            r@ == Verdict::Accept,
    {
        GuardrailResult::Accept
    }

    /// The verdict that rejects for `reason`.
    pub fn reject(reason: &str) -> (r: Self)
        ensures
            r@ == (Verdict::Reject { reason: reason@ }),
    {
        GuardrailResult::Reject { reason: reason.to_owned() }
    }

    /// Whether the verdict accepts.
    pub fn is_accept(&self) -> (r: bool)
        ensures
            r == (self@ is Accept),
    {
        match self {
            GuardrailResult::Accept => true,
            GuardrailResult::Reject { .. } => false,
        }
    }

    /// Whether the verdict rejects.
    pub fn is_reject(&self) -> (r: bool)
        ensures
            r == (self@ is Reject),
    {
        match self {
            GuardrailResult::Accept => false,
            GuardrailResult::Reject { .. } => true,
        }
    }
}

/// Model of a [`GuardrailContext`].
pub ghost struct GuardrailContextView {
    pub state: ConversationView,
    pub tool_request: ToolRequestView,
    pub tool_result: ToolResultView,
}

/// What a guardrail is shown: the conversation, the tool that was asked
/// for, and what running it gave.
#[derive(Debug)]
pub struct GuardrailContext<'a> {
    pub state: &'a AgentState,
    pub tool_request: &'a ToolRequest,
    pub tool_result: &'a ToolResult,
}

impl<'a> View for GuardrailContext<'a> {
    type V = GuardrailContextView;

    open spec fn view(&self) -> GuardrailContextView {
        GuardrailContextView {
            state: self.state@,
            tool_request: self.tool_request@,
            tool_result: self.tool_result@,
        }
    }
}

/// A check of a tool's outcome. Its verdict is a function of the context;
/// it may rely on a condition of its own, which a chain owes it only
/// where every guardrail before it has accepted.
pub trait SemanticGuardrail {
    /// The verdict that the guardrail gives on a context.
    spec fn verdict(&self, context: GuardrailContextView) -> Verdict;

    /// What the guardrail relies on when it is asked. A guardrail that
    /// states nothing relies on nothing.
    open spec fn relies_on(&self, context: GuardrailContextView) -> bool {
        true
    }

    /// Judges a tool's outcome.
    fn validate(&self, context: &GuardrailContext) -> (r: GuardrailResult)
        requires
            self.relies_on(context@),
        ensures
            r@ == self.verdict(context@),
    ;

    /// A name for diagnostics: `unnamed_guardrail` for a guardrail that
    /// gives itself none.
    fn name(&self) -> (r: &str)
        default_ensures
            r@ == "unnamed_guardrail"@,
    {
        "unnamed_guardrail"
    }
}

/// The verdict of a chain: that of its first guardrail that rejects, and
/// acceptance where none does.
pub open spec fn chain_verdict(
    guards: Seq<Box<dyn SemanticGuardrail>>,
    context: GuardrailContextView,
) -> Verdict
    decreases guards.len(),
{
    if guards.len() == 0 {
        Verdict::Accept
    } else if guards[0].verdict(context) is Reject {
        guards[0].verdict(context)
    } else {
        chain_verdict(guards.drop_first(), context)
    }
}

/// Every guardrail before index `n` accepts the context.
pub open spec fn all_accept_before(
    guards: Seq<Box<dyn SemanticGuardrail>>,
    context: GuardrailContextView,
    n: int,
) -> bool {
    forall|j: int|
        0 <= j < n && j < guards.len() ==> (#[trigger] guards[j]).verdict(context) is Accept
}

/// What a chain owes its guardrails: each one that is reached, which is
/// each one whose predecessors all accept, finds what it relies on.
pub open spec fn chain_ready(
    guards: Seq<Box<dyn SemanticGuardrail>>,
    context: GuardrailContextView,
) -> bool {
    forall|i: int|
        0 <= i < guards.len() && all_accept_before(guards, context, i) ==> (
        #[trigger] guards[i]).relies_on(context)
}

/// Guardrails in the order in which they were added.
pub struct GuardrailChain {
    guards: Vec<Box<dyn SemanticGuardrail>>,
}

impl View for GuardrailChain {
    type V = Seq<Box<dyn SemanticGuardrail>>;

    closed spec fn view(&self) -> Seq<Box<dyn SemanticGuardrail>> {
        self.guards@
    }
}

impl GuardrailChain {
    /// A chain without guardrails.
    pub fn new() -> (r: Self)
        ensures
            r@ == Seq::<Box<dyn SemanticGuardrail>>::empty(),
            r@.len() == 0,
    {
        GuardrailChain { guards: Vec::new() }
    }

    /// The chain with `guard` behind the guardrails it holds already.
    ///
    /// The length is stated beside the sequence because the prover does
    /// not derive facts of a sequence of trait objects by itself. For
    /// the same reason a verified caller does not learn from this
    /// contract what the guardrail at the end says: where it needs to
    /// know the verdict, it hands the session a guardrail of a type of
    /// its own in place of a chain.
    pub fn add(self, guard: Box<dyn SemanticGuardrail>) -> (r: Self)
        ensures
            r@ == self@.push(guard),
            r@.len() == self@.len() + 1,
    {
        let mut chain = self;
        proof {
            vstd::seq::axiom_seq_push_len(chain.guards@, guard);
        }
        chain.guards.push(guard);
        chain
    }

    /// Asks the guardrails in order and stops at the first that rejects:
    /// no guardrail behind it is asked. Accepts where none rejects.
    pub fn validate(&self, context: &GuardrailContext) -> (r: GuardrailResult)
        requires
            chain_ready(self@, context@),
        ensures
            r@ == chain_verdict(self@, context@),
    {
        let mut i: usize = 0;
        assert(self.guards@.skip(0) =~= self.guards@);
        while i < self.guards.len()
            invariant
                i <= self.guards.len(),
                chain_ready(self@, context@),
                all_accept_before(self@, context@, i as int),
                chain_verdict(self@, context@) == chain_verdict(
                    self.guards@.skip(i as int),
                    context@,
                ),
            decreases self.guards.len() - i,
        {
            let ghost rest = self.guards@.skip(i as int);
            assert(rest[0] == self.guards@[i as int]);
            assert(rest.drop_first() =~= self.guards@.skip(i + 1));
            let result = self.guards[i].validate(context);
            if result.is_reject() {
                return result;
            }
            i += 1;
        }
        GuardrailResult::Accept
    }

    /// Whether the chain holds no guardrail.
    pub fn is_empty(&self) -> (r: bool)
        ensures
            r == (self@.len() == 0),
    {
        self.guards.len() == 0
    }

    /// The number of guardrails.
    pub fn len(&self) -> (r: usize)
        ensures
            r == self@.len(),
    {
        self.guards.len()
    }
}

/// A chain is a guardrail: its verdict is that of its first guardrail
/// that rejects, and it relies on what it owes its guardrails.
impl SemanticGuardrail for GuardrailChain {
    open spec fn verdict(&self, context: GuardrailContextView) -> Verdict {
        chain_verdict(self@, context)
    }

    open spec fn relies_on(&self, context: GuardrailContextView) -> bool {
        chain_ready(self@, context)
    }

    fn validate(&self, context: &GuardrailContext) -> (r: GuardrailResult) {
        GuardrailChain::validate(self, context)
    }

    fn name(&self) -> (r: &str)
        ensures
            r@ == "guardrail_chain"@,
    {
        "guardrail_chain"
    }
}

impl Default for GuardrailChain {
    fn default() -> (r: Self)
        ensures
            r@ == Seq::<Box<dyn SemanticGuardrail>>::empty(),
    {
        GuardrailChain::new()
    }
}

/// Where a guardrail rejects, the chain's verdict is that rejection
/// whatever stands behind it, and the chain owes nothing to the
/// guardrails behind it: they are not asked.
pub proof fn lemma_rejection_shields_rest(
    guards: Seq<Box<dyn SemanticGuardrail>>,
    context: GuardrailContextView,
    k: int,
)
    requires
        0 <= k < guards.len(),
        all_accept_before(guards, context, k),
        guards[k].verdict(context) is Reject,
        forall|i: int| 0 <= i <= k ==> (#[trigger] guards[i]).relies_on(context),
    ensures
        chain_ready(guards, context),
        chain_verdict(guards, context) == guards[k].verdict(context),
        chain_verdict(guards, context) == chain_verdict(guards.take(k + 1), context),
{
    assert forall|i: int|
        0 <= i < guards.len() && all_accept_before(guards, context, i) implies (
    #[trigger] guards[i]).relies_on(context) by {
        if i > k {
            assert(guards[k].verdict(context) is Accept);
        }
    }
    lemma_chain_verdict_at(guards, context, k);
    let front = guards.take(k + 1);
    assert forall|j: int| 0 <= j < k && j < front.len() implies (#[trigger] front[j]).verdict(
        context,
    ) is Accept by {
        assert(front[j] == guards[j]);
    }
    assert(front[k] == guards[k]);
    lemma_chain_verdict_at(front, context, k);
}

/// The verdict of a chain whose guardrails before `k` accept is the
/// verdict of the chain from `k` on.
pub proof fn lemma_chain_verdict_at(
    guards: Seq<Box<dyn SemanticGuardrail>>,
    context: GuardrailContextView,
    k: int,
)
    requires
        0 <= k <= guards.len(),
        all_accept_before(guards, context, k),
    ensures
        chain_verdict(guards, context) == chain_verdict(guards.skip(k), context),
        k < guards.len() && guards[k].verdict(context) is Reject ==> chain_verdict(guards, context)
            == guards[k].verdict(context),
        k == guards.len() ==> chain_verdict(guards, context) is Accept,
    decreases k,
{
    if k == 0 {
        assert(guards.skip(0) =~= guards);
    } else {
        let rest = guards.drop_first();
        assert(guards[0].verdict(context) is Accept);
        assert forall|j: int| 0 <= j < k - 1 && j < rest.len() implies (#[trigger] rest[j]).verdict(
            context,
        ) is Accept by {
            assert(rest[j] == guards[j + 1]);
        }
        lemma_chain_verdict_at(rest, context, k - 1);
        assert(rest.skip(k - 1) =~= guards.skip(k));
        if k < guards.len() {
            assert(rest[k - 1] == guards[k]);
        }
    }
}

/// The plain checks of a tool's output: that it is not empty, not a lone
/// `total` line, and not without substance.
#[derive(Clone, Copy, Debug)]
pub struct PlausibilityGuard;

/// The reason given for an empty output.
pub const EMPTY_OUTPUT_REASON: &'static str = "Tool output is empty - no data returned";

/// The reason given for an output that is a `total` line and no more.
pub const METADATA_ONLY_REASON: &'static str =
    "Tool output contains only metadata (e.g. 'total' line), not actual data";

/// The reason given for an output without substance.
pub const NO_SUBSTANCE_REASON: &'static str = "Tool output lacks substantive content";

/// A trimmed text is one line of exactly two words: `total`, in any mix
/// of upper and lower case, and a number written in digits.
pub open spec fn total_line(text: Seq<char>) -> bool {
    &&& !text.contains('\n')
    &&& words(text).len() == 2
    &&& eq_ignore_ascii_case(words(text)[0], "total"@)
    &&& all_ascii_digits(words(text)[1])
}

/// An output holds nothing, or nothing but a `total` line.
pub open spec fn metadata_only(output: Seq<char>) -> bool {
    trimmed(output).len() == 0 || total_line(trimmed(output))
}

/// An output holds, once trimmed, at least three characters, one of them
/// alphanumeric.
pub open spec fn minimal_substance(output: Seq<char>) -> bool {
    trimmed(output).len() >= 3 && has_alphanumeric(trimmed(output))
}

/// The verdict of the plausibility check. A failed outcome is accepted
/// as it is; a successful one is rejected where its output is blank, is
/// a lone `total` line, or lacks substance, in this order.
pub open spec fn plausibility(result: ToolResultView) -> Verdict {
    if !result.success {
        Verdict::Accept
    } else if trimmed(result.output).len() == 0 {
        Verdict::Reject { reason: EMPTY_OUTPUT_REASON@ }
    } else if metadata_only(result.output) {
        Verdict::Reject { reason: METADATA_ONLY_REASON@ }
    } else if !minimal_substance(result.output) {
        Verdict::Reject { reason: NO_SUBSTANCE_REASON@ }
    } else {
        Verdict::Accept
    }
}

/// A failed outcome passes the plausibility check whatever it holds, and
/// a successful one whose output is blank is rejected as empty.
pub proof fn lemma_plausibility_of_failed_and_blank(result: ToolResultView)
    ensures
        !result.success ==> plausibility(result) is Accept,
        result.success && is_blank(result.output) ==> plausibility(result) == (Verdict::Reject {
            reason: EMPTY_OUTPUT_REASON@,
        }),
{
    if result.success && is_blank(result.output) {
        let s = result.output;
        lemma_trim_start(s, s.len() as int);
        assert(s.skip(s.len() as int) =~= Seq::<char>::empty());
    }
}

impl PlausibilityGuard {
    /// The plausibility check.
    pub fn new() -> (r: Self) {
        PlausibilityGuard
    }

    /// Whether an output holds nothing, or nothing but a `total` line.
    pub fn is_metadata_only(output: &str) -> (r: bool)
        ensures
            r == metadata_only(output@),
    {
        let cs = chars_of(output);
        let (a, b) = trim_bounds(&cs);
        if a == b {
            return true;
        }
        let text = slice_chars(&cs, a, b);
        if holds_char(&text, '\n') {
            return false;
        }
        let bounds = word_bounds(&text);
        if bounds.len() != 2 {
            return false;
        }
        let first = slice_chars(&text, bounds[0].0, bounds[0].1);
        let second = slice_chars(&text, bounds[1].0, bounds[1].1);
        let total = chars_of("total");
        eq_ignoring_ascii_case(&first, &total) && is_all_ascii_digits(&second)
    }

    /// Whether an output holds, once trimmed, at least three characters,
    /// one of them alphanumeric.
    pub fn has_minimal_substance(output: &str) -> (r: bool)
        ensures
            r == minimal_substance(output@),
    {
        let cs = chars_of(output);
        let (a, b) = trim_bounds(&cs);
        if b - a < 3 {
            return false;
        }
        let text = slice_chars(&cs, a, b);
        any_alphanumeric(&text)
    }

    /// The verdict on a tool's outcome.
    pub fn judge(result: &ToolResult) -> (r: GuardrailResult)
        ensures
            r@ == plausibility(result@),
    {
        if !result.success {
            return GuardrailResult::Accept;
        }
        let cs = chars_of(result.output.as_str());
        let (a, b) = trim_bounds(&cs);
        if a == b {
            return GuardrailResult::reject(EMPTY_OUTPUT_REASON);
        }
        if Self::is_metadata_only(result.output.as_str()) {
            return GuardrailResult::reject(METADATA_ONLY_REASON);
        }
        if !Self::has_minimal_substance(result.output.as_str()) {
            return GuardrailResult::reject(NO_SUBSTANCE_REASON);
        }
        GuardrailResult::Accept
    }
}

impl Default for PlausibilityGuard {
    fn default() -> (r: Self) {
        PlausibilityGuard
    }
}

impl SemanticGuardrail for PlausibilityGuard {
    open spec fn verdict(&self, context: GuardrailContextView) -> Verdict {
        plausibility(context.tool_result)
    }

    fn validate(&self, context: &GuardrailContext) -> (r: GuardrailResult) {
        Self::judge(context.tool_result)
    }

    fn name(&self) -> (r: &str)
        ensures
            r@ == "plausibility_guard"@,
    {
        "plausibility_guard"
    }
}

} // verus!
