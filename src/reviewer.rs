//! The judge: the decision it returns, the prompt it is given, the
//! one-line summaries of its decisions and the policy for retrying it.

use vstd::prelude::*;
use vstd::string::*;
use vstd::arithmetic::power2::{lemma2_to64, lemma2_to64_rest, lemma_pow2_strictly_increases, lemma_pow2_unfold, pow2};
use crate::text::{decimal, decimal_of, join_lines, joined, lines_of, same_text, split_lines, views};

verus! {

/// What the judge tells the loop to do.
#[derive(Debug, Clone, Copy, PartialEq, Eq, Structural)]
pub enum ReviewerAction {
    /// The worker is making progress: keep going.
    Continue,
    /// The worker is stuck or looping: stop the run.
    Abort,
}

/// How the action is written in the judge's JSON.
pub open spec fn label_of(a: ReviewerAction) -> Seq<char> {
    match a {
        ReviewerAction::Continue => "continue"@,
        ReviewerAction::Abort => "abort"@,
    }
}

/// How the action is named in summaries and logs.
pub open spec fn name_of(a: ReviewerAction) -> Seq<char> {
    match a {
        ReviewerAction::Continue => "Continue"@,
        ReviewerAction::Abort => "Abort"@,
    }
}

/// The action that a JSON label stands for, if any.
pub open spec fn action_for_label(s: Seq<char>) -> Option<ReviewerAction> {
    if s == "continue"@ {
        Some(ReviewerAction::Continue)
    } else if s == "abort"@ {
        Some(ReviewerAction::Abort)
    } else {
        None
    }
}

impl ReviewerAction {
    /// The action's label in the judge's JSON: `continue` or `abort`.
    pub fn label(&self) -> (r: &'static str)
        ensures
            r@ == label_of(*self),
    {
        match self {
            ReviewerAction::Continue => "continue",
            ReviewerAction::Abort => "abort",
        }
    }

    /// The action's name in summaries: `Continue` or `Abort`.
    pub fn name(&self) -> (r: &'static str)
        ensures
            r@ == name_of(*self),
    {
        match self {
            ReviewerAction::Continue => "Continue",
            ReviewerAction::Abort => "Abort",
        }
    }

    /// The action a JSON label stands for; any other label is refused.
    pub fn from_label(label: &str) -> (r: Option<ReviewerAction>)
        ensures
            r == action_for_label(label@),
    {
        if same_text(label, "continue") {
            Some(ReviewerAction::Continue)
        } else if same_text(label, "abort") {
            Some(ReviewerAction::Abort)
        } else {
            None
        }
    }
}

/// Why one call of the judge gave no decision.
#[derive(Debug, Clone)]
pub enum JudgeError {
    /// The request could not be sent, or its reply could not be read.
    Transport { message: String },
    /// The endpoint answered with a status outside 200..=299.
    Status { code: u16 },
    /// The reply held no choices.
    NoChoices,
    /// The reply, or the decision inside it, is not the expected JSON shape.
    Malformed { message: String },
    /// The decision's action is neither `continue` nor `abort`.
    UnknownAction { action: String },
}

/// Whether an HTTP status code counts as success.
pub fn status_ok(code: u16) -> (r: bool)
    ensures
        r == (200 <= code <= 299),
{
    200 <= code && code <= 299
}

/// A decision of the judge.
#[derive(Debug, Clone)]
pub struct ReviewerDecision {
    pub action: ReviewerAction,
    pub reason: String,
}

impl PartialEq for ReviewerDecision {
    fn eq(&self, other: &ReviewerDecision) -> (r: bool) {
        self.action == other.action && self.reason == other.reason
    }
}

impl vstd::std_specs::cmp::PartialEqSpecImpl for ReviewerDecision {
    open spec fn obeys_eq_spec() -> bool {
        true
    }

    open spec fn eq_spec(&self, other: &ReviewerDecision) -> bool {
        self.action == other.action && self.reason@ == other.reason@
    }
}

/// The decision that a label and a reason make, if the label names an
/// action.
pub open spec fn decision_from_parts_spec(action: Seq<char>, reason: Seq<char>) -> Option<(ReviewerAction, Seq<char>)> {
    match action_for_label(action) {
        Some(a) => Some((a, reason)),
        None => None,
    }
}

impl ReviewerDecision {
    /// The decision with the action that `action` labels and the given
    /// reason; an unknown label is an error that carries it.
    pub fn from_parts(action: &str, reason: String) -> (r: Result<ReviewerDecision, JudgeError>)
        ensures
            match decision_from_parts_spec(action@, reason@) {
                Some((a, why)) => r is Ok && r->Ok_0.action == a && r->Ok_0.reason@ == why,
                None => r is Err && r->Err_0 is UnknownAction && r->Err_0->UnknownAction_action@ == action@,
            },
    {
        match ReviewerAction::from_label(action) {
            Some(a) => Ok(ReviewerDecision { action: a, reason }),
            None => Err(JudgeError::UnknownAction { action: String::from_str(action) }),
        }
    }
}

/// Each label is read back as the action it was written for, and no other
/// text is read as an action; so a decision written as its label and reason
/// is read back as the same decision.
pub proof fn lemma_decision_round_trip(d: ReviewerDecision, other: Seq<char>)
    requires
        other != "continue"@,
        other != "abort"@,
    ensures
        action_for_label(label_of(d.action)) == Some(d.action),
        decision_from_parts_spec(label_of(d.action), d.reason@) == Some((d.action, d.reason@)),
        action_for_label(other) is None,
        decision_from_parts_spec(other, d.reason@) is None,
{
    reveal_strlit("continue");
    reveal_strlit("abort");
    assert("continue"@ != "abort"@) by {
        assert("continue"@.len() != "abort"@.len());
    }
}

/// What the judge is told in one review.
#[derive(Debug, Clone)]
pub struct ReviewerContext {
    /// The task the worker was given.
    pub task_description: String,
    /// The number of the iteration under review.
    pub iteration: usize,
    /// Summaries of the latest earlier decisions, oldest first.
    pub previous_summaries: Vec<String>,
    /// The sample of the worker's output.
    pub current_sample: String,
}

/// The system message sent with every review.
pub const SYSTEM_PROMPT: &'static str = "You are a progress monitoring assistant. Analyze the AI assistant's work and determine if it is making progress or stuck in a loop.";

/// The prompt's opening, up to the task.
pub const PROMPT_HEAD: &'static str = "You are monitoring an AI assistant's progress on a task.\n\nTask: ";

/// Between the task and the iteration number.
pub const PROMPT_ITERATION: &'static str = "\n\nCurrent iteration: ";

/// Between the iteration number and the earlier assessments.
pub const PROMPT_PREVIOUS: &'static str = "\n\nPrevious progress assessments:\n";

/// Stands for the earlier assessments when there are none.
pub const NO_PREVIOUS: &'static str = "No previous assessments.";

/// Between the earlier assessments and the sample's line count.
pub const PROMPT_OUTPUT: &'static str = "\n\nCurrent output (last ";

/// Between the line count and the sample, opening its code fence.
pub const PROMPT_FENCE: &'static str = " lines):\n```\n";

/// After the sample: the closing fence and the instructions.
pub const PROMPT_TAIL: &'static str = "\n```\n\nAssess whether the assistant is:\n1. Making meaningful progress (continue) - the assistant is generating code, making changes, or working toward the goal\n2. Stuck in a loop or not progressing (abort) - the assistant is repeating itself, going in circles, or clearly failing to make progress\n\nRespond with JSON in this exact format:\n{\n  \"action\": \"continue|abort\",\n  \"reason\": \"Brief explanation of your assessment\"\n}";

/// The summaries numbered from one: `1. first`, `2. second`, ...
pub open spec fn numbered(ss: Seq<Seq<char>>) -> Seq<Seq<char>> {
    Seq::new(ss.len(), |i: int| decimal_of((i + 1) as nat) + ". "@ + ss[i])
}

/// The earlier assessments as the prompt shows them.
pub open spec fn assessments(ss: Seq<Seq<char>>) -> Seq<char> {
    if ss.len() == 0 {
        NO_PREVIOUS@
    } else {
        joined(numbered(ss))
    }
}

/// The prompt for one review.
pub open spec fn prompt_text(task: Seq<char>, iteration: nat, summaries: Seq<Seq<char>>, sample: Seq<char>) -> Seq<char> {
    PROMPT_HEAD@ + task + PROMPT_ITERATION@ + decimal_of(iteration) + PROMPT_PREVIOUS@
        + assessments(summaries) + PROMPT_OUTPUT@ + decimal_of(lines_of(sample).len()) + PROMPT_FENCE@
        + sample + PROMPT_TAIL@
}

/// The one-line summary of a decision taken at an iteration.
pub open spec fn decision_summary(action: ReviewerAction, reason: Seq<char>, iteration: nat) -> Seq<char> {
    "Iter "@ + decimal_of(iteration) + ": "@ + name_of(action) + " - "@ + reason
}

/// The reason given when the judge could not be reached.
pub open spec fn fallback_reason(max_retries: nat) -> Seq<char> {
    "Judge API unavailable after "@ + decimal_of(max_retries)
        + " retries, continuing based on last known state"@
}

/// The wait before the next attempt after `failures` failed ones:
/// `2^failures` seconds, capped at the largest `u64`.
pub open spec fn backoff_secs(failures: nat) -> nat {
    if pow2(failures) > u64::MAX {
        u64::MAX as nat
    } else {
        pow2(failures)
    }
}

/// What to do next in a review, after some failed attempts.
#[derive(Debug, Clone)]
pub enum RetryStep {
    /// Wait `delay_secs` seconds, then call the judge again.
    Attempt { delay_secs: u64 },
    /// Stop calling: use this decision.
    GiveUp { decision: ReviewerDecision },
}

/// The next step after `failures` failed attempts out of `max`: another
/// attempt (at once the first time, after the backoff later), or, once all
/// attempts have failed, a `Continue` that says the judge was unavailable.
pub open spec fn next_step_spec(max: nat, failures: nat, step: RetryStep) -> bool {
    if failures >= max {
        step is GiveUp && step->GiveUp_decision.action == ReviewerAction::Continue
            && step->GiveUp_decision.reason@ == fallback_reason(max)
    } else {
        step is Attempt && step->Attempt_delay_secs == (if failures == 0 { 0 } else { backoff_secs(failures) })
    }
}

/// The decision, the number of failed attempts and the total wait of a
/// review in which attempt `k` (from zero) gives `outcomes[k]`: a decision,
/// or `None` for a failure.
pub open spec fn retry_run(max: nat, failures: nat, outcomes: Seq<Option<(ReviewerAction, Seq<char>)>>)
    -> ((ReviewerAction, Seq<char>), nat, nat)
    decreases max - failures,
{
    if failures >= max {
        ((ReviewerAction::Continue, fallback_reason(max)), failures, 0)
    } else {
        let wait: nat = if failures == 0 { 0 } else { backoff_secs(failures) };
        match outcomes[failures as int] {
            Some(d) => (d, failures, wait),
            None => {
                let rest = retry_run(max, failures + 1, outcomes);
                (rest.0, rest.1, rest.2 + wait)
            },
        }
    }
}

proof fn lemma_pow2_small(k: nat)
    requires
        k < 63,
    ensures
        pow2(k) <= u64::MAX / 2,
        pow2(k + 1) == 2 * pow2(k),
{
    lemma2_to64_rest();
    if k < 62 {
        lemma_pow2_strictly_increases(k, 62);
    }
    lemma_pow2_unfold(k + 1);
}

/// `retry_run` is what following `next_step` gives: once every attempt has
/// failed, the step's decision ends the run with no more waiting; otherwise
/// the step waits as long as the run does before attempt `failures`, and that
/// attempt's decision ends the run, or its failure leads on to the run after
/// one more failure.
pub proof fn lemma_retry_run_follows_next_step(
    max: nat,
    failures: nat,
    outcomes: Seq<Option<(ReviewerAction, Seq<char>)>>,
    step: RetryStep,
)
    requires
        next_step_spec(max, failures, step),
    ensures
        step is GiveUp ==> retry_run(max, failures, outcomes)
            == ((step->GiveUp_decision.action, step->GiveUp_decision.reason@), failures, 0nat),
        step is Attempt ==> match outcomes[failures as int] {
            Some(d) => retry_run(max, failures, outcomes) == (d, failures, step->Attempt_delay_secs as nat),
            None => retry_run(max, failures, outcomes) == (
                retry_run(max, failures + 1, outcomes).0,
                retry_run(max, failures + 1, outcomes).1,
                (retry_run(max, failures + 1, outcomes).2 + step->Attempt_delay_secs) as nat,
            ),
        },
{
}

proof fn lemma_all_failing(max: nat, failures: nat, outcomes: Seq<Option<(ReviewerAction, Seq<char>)>>)
    requires
        1 <= failures <= max,
        max < 63,
        forall|i: int| 0 <= i < outcomes.len() ==> #[trigger] outcomes[i] is None,
        outcomes.len() >= max,
    ensures
        retry_run(max, failures, outcomes).0 == (ReviewerAction::Continue, fallback_reason(max)),
        retry_run(max, failures, outcomes).1 == max,
        retry_run(max, failures, outcomes).2 + pow2(failures) == pow2(max),
    decreases max - failures,
{
    if failures < max {
        lemma_all_failing(max, failures + 1, outcomes);
        lemma_pow2_small(failures);
    }
}

/// A review whose every attempt fails ends, after `max` attempts, in a
/// `Continue` that says the judge was unavailable, never in an `Abort`;
/// the waits between attempts add up to `2^max - 2` seconds, six for three
/// attempts, below the fourteen of waits of two, four and eight seconds.
pub proof fn lemma_unavailable_reviewer_continues(max: nat, outcomes: Seq<Option<(ReviewerAction, Seq<char>)>>)
    requires
        1 <= max < 63,
        outcomes.len() >= max,
        forall|i: int| 0 <= i < outcomes.len() ==> #[trigger] outcomes[i] is None,
    ensures
        retry_run(max, 0, outcomes).0 == (ReviewerAction::Continue, fallback_reason(max)),
        retry_run(max, 0, outcomes).0.0 != ReviewerAction::Abort,
        retry_run(max, 0, outcomes).1 == max,
        retry_run(max, 0, outcomes).2 + 2 == pow2(max),
        max == 3 ==> retry_run(max, 0, outcomes).2 == 6 && retry_run(max, 0, outcomes).2 <= 2 + 4 + 8,
{
    assert(outcomes[0] is None);
    lemma_all_failing(max, 1, outcomes);
    lemma2_to64();
}

/// The judge's endpoint and model, and how many attempts one review may
/// make.
#[derive(Debug, Clone)]
pub struct ReviewerClient {
    pub base_url: String,
    pub model: String,
    pub max_retries: u8,
}

impl ReviewerClient {
    /// A client for the endpoint at `base_url` that asks `model`, with three
    /// attempts per review.
    pub fn new(base_url: String, model: String) -> (r: Self)
        ensures
            r.base_url@ == base_url@,
            r.model@ == model@,
            r.max_retries == 3,
    {
        ReviewerClient { base_url, model, max_retries: 3 }
    }

    /// The URL that reviews are posted to.
    pub fn completions_url(&self) -> (r: String)
        ensures
            r@ == self.base_url@ + "/chat/completions"@,
    {
        let mut r = self.base_url.clone();
        r.append("/chat/completions");
        r
    }

    /// The prompt for a review in `context`.
    pub fn build_prompt(&self, context: &ReviewerContext) -> (r: String)
        ensures
            r@ == prompt_text(context.task_description@, context.iteration as nat,
                views(context.previous_summaries@), context.current_sample@),
    {
        let mut r = String::from_str(PROMPT_HEAD);
        r.append(context.task_description.as_str());
        r.append(PROMPT_ITERATION);
        r.append(decimal(context.iteration).as_str());
        r.append(PROMPT_PREVIOUS);
        r.append(previous_assessments(&context.previous_summaries).as_str());
        r.append(PROMPT_OUTPUT);
        let count = split_lines(context.current_sample.as_str()).len();
        r.append(decimal(count).as_str());
        r.append(PROMPT_FENCE);
        r.append(context.current_sample.as_str());
        r.append(PROMPT_TAIL);
        r
    }

    /// The one-line summary of `decision`, taken at `iteration`, for the
    /// activity log: `Iter 3: Continue - reason`.
    pub fn format_decision_summary(decision: &ReviewerDecision, iteration: usize) -> (r: String)
        ensures
            r@ == decision_summary(decision.action, decision.reason@, iteration as nat),
    {
        let mut r = String::from_str("Iter ");
        r.append(decimal(iteration).as_str());
        r.append(": ");
        r.append(decision.action.name());
        r.append(" - ");
        r.append(decision.reason.as_str());
        r
    }

    /// The decision used when every attempt failed: `Continue`, with a
    /// reason that says the judge was unavailable.
    pub fn fallback_decision(&self) -> (r: ReviewerDecision)
        ensures
            r.action == ReviewerAction::Continue,
            r.reason@ == fallback_reason(self.max_retries as nat),
    {
        let mut reason = String::from_str("Judge API unavailable after ");
        reason.append(decimal(self.max_retries as usize).as_str());
        reason.append(" retries, continuing based on last known state");
        ReviewerDecision { action: ReviewerAction::Continue, reason }
    }

    /// What to do after `failures` failed attempts, as `next_step_spec`
    /// says.
    pub fn next_step(&self, failures: u8) -> (r: RetryStep)
        ensures
            next_step_spec(self.max_retries as nat, failures as nat, r),
    {
        if failures >= self.max_retries {
            RetryStep::GiveUp { decision: self.fallback_decision() }
        } else if failures == 0 {
            RetryStep::Attempt { delay_secs: 0 }
        } else {
            RetryStep::Attempt { delay_secs: backoff(failures) }
        }
    }
}

/// `2^failures`, capped at the largest `u64`.
pub fn backoff(failures: u8) -> (r: u64)
    ensures
        r == backoff_secs(failures as nat),
{
    let mut r: u64 = 1;
    let mut i: u8 = 0;
    proof {
        lemma2_to64();
    }
    while i < failures
        invariant
            i <= failures,
            r == backoff_secs(i as nat),
        decreases failures - i,
    {
        proof {
            lemma_pow2_unfold((i + 1) as nat);
        }
        if r > u64::MAX / 2 {
            r = u64::MAX;
        } else {
            r = r * 2;
        }
        i = i + 1;
    }
    r
}

/// The earlier assessments as the prompt shows them.
fn previous_assessments(summaries: &Vec<String>) -> (r: String)
    ensures
        r@ == assessments(views(summaries@)),
{
    if summaries.len() == 0 {
        return String::from_str(NO_PREVIOUS);
    }
    let mut items: Vec<String> = Vec::new();
    let mut i: usize = 0;
    while i < summaries.len()
        invariant
            i <= summaries.len(),
            views(items@) =~= numbered(views(summaries@)).subrange(0, i as int),
        decreases summaries.len() - i,
    {
        let mut item = decimal(i + 1);
        item.append(". ");
        item.append(summaries[i].as_str());
        let ghost before = items@;
        items.push(item);
        proof {
            assert(views(items@) =~= views(before).push(item@));
            assert(numbered(views(summaries@)).subrange(0, i + 1)
                =~= numbered(views(summaries@)).subrange(0, i as int).push(item@));
        }
        i = i + 1;
    }
    assert(numbered(views(summaries@)).subrange(0, summaries.len() as int) =~= numbered(views(summaries@)));
    join_lines(&items)
}

} // verus!
