//! The control loop as a state machine. Whoever runs the loop performs each
//! action it asks for (stream the worker's events, call the judge, pause,
//! stop) and hands back what happened as the next event; every decision is
//! taken here.

use vstd::prelude::*;
use vstd::string::*;
use crate::config::ControlConfig;
use crate::reviewer::{ReviewerAction, ReviewerContext, ReviewerDecision};
use crate::sampler::{is_completion_event, is_completion_spec, observe_spec, Sampler, SamplerEvent};
use crate::state::{summaries_spec, Iteration, State};
use crate::text::{decimal, decimal_of, joined, views};

verus! {

/// How a run ended.
#[derive(Debug, Clone)]
pub enum RunResult {
    /// The task completed.
    Completed,
    /// The judge aborted the run, for the reason given.
    Aborted(String),
    /// The iteration budget is spent.
    MaxIterations,
}

/// A notification for an observer of the run.
#[derive(Debug, Clone)]
pub enum UiEvent {
    /// Output of the worker.
    WorkerOutput(String),
    /// A decision of the judge.
    ReviewerDecision(ReviewerDecision),
    /// A line of status.
    StatusUpdate(String),
}

/// How many earlier summaries each review is given.
pub const SUMMARY_WINDOW: usize = 5;

/// How long to wait, in milliseconds, before streaming again when there was
/// nothing to review.
pub const EMPTY_SAMPLE_PAUSE_MS: u64 = 1000;

/// How long to wait, in milliseconds, between iterations.
pub const ITERATION_PAUSE_MS: u64 = 100;

/// Where the loop stands.
#[derive(Debug, Clone, Copy, PartialEq, Eq, Structural)]
pub enum Phase {
    /// Between iterations. With `resume`, the current iteration had nothing
    /// to review and its slot is tried again.
    Ready { resume: bool },
    /// Collecting the worker's events.
    Streaming,
    /// Waiting for the judge's decision on a sample of `sample_size` lines.
    Reviewing { sample_size: usize },
    /// The run is over.
    Finished,
}

/// What happened, as told to the loop.
#[derive(Debug, Clone)]
pub enum LoopEvent {
    /// Go on from where the loop stands (first, and after each pause).
    Start,
    /// The worker emitted an event.
    Worker(SamplerEvent),
    /// No event came for a polling slice; the worker has been silent for
    /// `idle_ms` milliseconds.
    Quiet { idle_ms: u64 },
    /// The event stream closed or failed.
    StreamEnded,
    /// The judge decided, after `retries` failed attempts.
    Judged { decision: ReviewerDecision, retries: u8 },
}

/// What the loop asks for next.
#[derive(Debug, Clone)]
pub enum LoopAction {
    /// Iteration `iteration` begins (or its slot is tried again): report
    /// `status` and stream the worker's events.
    Stream { iteration: usize, status: String },
    /// Go on streaming.
    KeepStreaming,
    /// Ask the judge about `context`.
    Review { context: ReviewerContext },
    /// Wait `millis` milliseconds, then send `Start`.
    Pause { millis: u64 },
    /// The run is over.
    Finish { result: RunResult },
    /// The event does not apply where the loop stands; nothing changed.
    Ignored,
}

/// The status reported when an iteration begins: `Iteration 2/10`.
pub open spec fn status_line(iteration: nat, max: nat) -> Seq<char> {
    "Iteration "@ + decimal_of(iteration) + "/"@ + decimal_of(max)
}

/// Drives one run: its sample buffer, its ledger and where it stands.
pub struct ControlLoop {
    sampler: Sampler,
    state: State,
    config: ControlConfig,
    phase: Phase,
}

impl ControlLoop {
    /// Where the loop stands.
    pub closed spec fn phase(&self) -> Phase {
        self.phase
    }

    /// The run's configuration.
    pub closed spec fn config(&self) -> ControlConfig {
        self.config
    }

    /// The buffered lines of the worker's output.
    pub closed spec fn lines(&self) -> Seq<Seq<char>> {
        self.sampler.lines()
    }

    /// The sample buffer's capacity.
    pub closed spec fn capacity(&self) -> nat {
        self.sampler.capacity()
    }

    /// The ledger of reviewed iterations.
    pub closed spec fn ledger(&self) -> Seq<Iteration> {
        self.state.ledger()
    }

    /// The iteration counter.
    pub closed spec fn counter(&self) -> nat {
        self.state.counter()
    }

    /// Whether an iteration is open: begun and not yet recorded.
    pub open spec fn slot_open(&self) -> bool {
        match self.phase() {
            Phase::Ready { resume } => resume,
            Phase::Streaming => true,
            Phase::Reviewing { .. } => true,
            Phase::Finished => false,
        }
    }

    /// The loop's invariant: the ledger numbers the iterations from one with
    /// no gap, the counter is one past it while an iteration is open, the
    /// budget is never exceeded, and a review's sample size is the buffer's
    /// line count.
    pub closed spec fn wf(&self) -> bool {
        &&& self.sampler.wf()
        &&& self.counter() == self.ledger().len() + (if self.slot_open() { 1nat } else { 0nat })
        &&& self.ledger().len() <= self.config().max_iterations
        &&& self.slot_open() ==> self.ledger().len() < self.config().max_iterations
        &&& forall|i: int| 0 <= i < self.ledger().len() ==> #[trigger] self.ledger()[i].number == i + 1
        &&& match self.phase() {
            Phase::Reviewing { sample_size } => sample_size == self.lines().len() && sample_size > 0,
            _ => true,
        }
    }

    /// A loop at its start, with a fresh ledger.
    pub fn new(sampler: Sampler, state: State, config: ControlConfig) -> (r: Self)
        requires
            sampler.wf(),
            config.is_valid(),
            state.ledger().len() == 0,
            state.counter() == 0,
        ensures
            r.wf(),
            r.phase() == (Phase::Ready { resume: false }),
            r.config() == config,
            r.lines() == sampler.lines(),
            r.capacity() == sampler.capacity(),
            r.ledger().len() == 0,
    {
        ControlLoop { sampler, state, config, phase: Phase::Ready { resume: false } }
    }

    /// The run's ledger (for observers).
    pub fn state(&self) -> (r: &State)
        ensures
            r.ledger() == self.ledger(),
            r.counter() == self.counter(),
    {
        &self.state
    }

    /// The sample buffer (for observers).
    pub fn sampler(&self) -> (r: &Sampler)
        requires
            self.wf(),
        ensures
            r.lines() == self.lines(),
            r.capacity() == self.capacity(),
            r.wf(),
    {
        &self.sampler
    }

    /// Where the loop stands.
    pub fn current_phase(&self) -> (r: Phase)
        ensures
            r == self.phase(),
    {
        self.phase
    }

    /// Whether `other` is this loop with nothing changed.
    pub open spec fn same_as(&self, other: &ControlLoop) -> bool {
        &&& other.phase() == self.phase()
        &&& other.lines() == self.lines()
        &&& other.ledger() == self.ledger()
        &&& other.counter() == self.counter()
    }

    /// The end of streaming, from this loop with `lines` buffered: with
    /// nothing buffered the slot is tried again after a pause, and no record
    /// is made; otherwise the judge is asked about the buffered lines.
    pub open spec fn review_triggered(&self, lines: Seq<Seq<char>>, next: &ControlLoop, action: LoopAction) -> bool {
        &&& next.ledger() == self.ledger()
        &&& next.counter() == self.counter()
        &&& next.lines() == lines
        &&& if lines.len() == 0 {
            &&& next.phase() == (Phase::Ready { resume: true })
            &&& action is Pause && action->Pause_millis == EMPTY_SAMPLE_PAUSE_MS
        } else {
            &&& next.phase() == (Phase::Reviewing { sample_size: lines.len() as usize })
            &&& action is Review
            &&& action->Review_context.task_description@ == self.config().task@
            &&& action->Review_context.iteration == self.counter()
            &&& views(action->Review_context.previous_summaries@) == summaries_spec(self.ledger(), SUMMARY_WINDOW as nat)
            &&& action->Review_context.current_sample@ == joined(lines)
        }
    }

    /// What `step` does with `event`, from this loop to `next`, asking for
    /// `action`.
    pub open spec fn step_spec(&self, event: LoopEvent, next: &ControlLoop, action: LoopAction) -> bool {
        match (self.phase(), event) {
            (Phase::Ready { resume }, LoopEvent::Start) => {
                if self.ledger().len() >= self.config().max_iterations {
                    &&& next.phase() == Phase::Finished
                    &&& next.lines() == self.lines()
                    &&& next.ledger() == self.ledger()
                    &&& action is Finish && action->Finish_result is MaxIterations
                } else {
                    &&& next.phase() == Phase::Streaming
                    &&& next.lines() == self.lines()
                    &&& next.ledger() == self.ledger()
                    &&& next.counter() == self.counter() + (if resume { 0nat } else { 1nat })
                    &&& action is Stream && action->Stream_iteration == next.counter()
                    &&& action->Stream_status@ == status_line(next.counter(), self.config().max_iterations as nat)
                }
            },
            (Phase::Streaming, LoopEvent::Worker(e)) => {
                let lines = observe_spec(self.lines(), self.capacity(), e);
                if is_completion_spec(e) {
                    self.review_triggered(lines, next, action)
                } else {
                    &&& next.phase() == Phase::Streaming
                    &&& next.lines() == lines
                    &&& next.ledger() == self.ledger()
                    &&& next.counter() == self.counter()
                    &&& action is KeepStreaming
                }
            },
            (Phase::Streaming, LoopEvent::Quiet { idle_ms }) => {
                if idle_ms > self.config().inactivity_timeout_secs * 1000 {
                    self.review_triggered(self.lines(), next, action)
                } else {
                    self.same_as(next) && action is KeepStreaming
                }
            },
            (Phase::Streaming, LoopEvent::StreamEnded) => self.review_triggered(self.lines(), next, action),
            (Phase::Reviewing { sample_size }, LoopEvent::Judged { decision, retries }) => {
                &&& next.counter() == self.counter()
                &&& next.ledger().len() == self.ledger().len() + 1
                &&& next.ledger().drop_last() == self.ledger()
                &&& next.ledger().last().number == self.counter()
                &&& next.ledger().last().sample_size == sample_size
                &&& next.ledger().last().decision == decision
                &&& next.ledger().last().reviewer_retry_count == retries
                &&& match decision.action {
                    ReviewerAction::Continue => {
                        &&& next.phase() == (Phase::Ready { resume: false })
                        &&& next.lines() == Seq::<Seq<char>>::empty()
                        &&& action is Pause && action->Pause_millis == ITERATION_PAUSE_MS
                    },
                    ReviewerAction::Abort => {
                        &&& next.phase() == Phase::Finished
                        &&& next.lines() == self.lines()
                        &&& action is Finish && action->Finish_result is Aborted
                        &&& action->Finish_result->Aborted_0@ == decision.reason@
                    },
                }
            },
            _ => self.same_as(next) && action is Ignored,
        }
    }

    /// Takes `event` where the loop stands and says what to do next, as
    /// `step_spec` describes.
    pub fn step(&mut self, event: LoopEvent) -> (action: LoopAction)
        requires
            old(self).wf(),
        ensures
            final(self).wf(),
            final(self).config() == old(self).config(),
            final(self).capacity() == old(self).capacity(),
            old(self).step_spec(event, &*final(self), action),
    {
        match (self.phase, event) {
            (Phase::Ready { resume }, LoopEvent::Start) => self.start(resume),
            (Phase::Streaming, LoopEvent::Worker(e)) => {
                self.sampler.process_event(&e);
                if is_completion_event(&e) {
                    self.end_streaming()
                } else {
                    LoopAction::KeepStreaming
                }
            },
            (Phase::Streaming, LoopEvent::Quiet { idle_ms }) => {
                if idle_ms as u128 > self.config.inactivity_timeout_secs as u128 * 1000 {
                    self.end_streaming()
                } else {
                    LoopAction::KeepStreaming
                }
            },
            (Phase::Streaming, LoopEvent::StreamEnded) => self.end_streaming(),
            (Phase::Reviewing { sample_size }, LoopEvent::Judged { decision, retries }) => {
                self.judged(sample_size, decision, retries)
            },
            _ => LoopAction::Ignored,
        }
    }

    fn start(&mut self, resume: bool) -> (action: LoopAction)
        requires
            old(self).wf(),
            old(self).phase() == (Phase::Ready { resume }),
        ensures
            final(self).wf(),
            final(self).config() == old(self).config(),
            final(self).capacity() == old(self).capacity(),
            old(self).step_spec(LoopEvent::Start, &*final(self), action),
    {
        if self.state.iterations().len() >= self.config.max_iterations {
            self.phase = Phase::Finished;
            return LoopAction::Finish { result: RunResult::MaxIterations };
        }
        if !resume {
            self.state.start_iteration();
        }
        self.phase = Phase::Streaming;
        let iteration = self.state.current_iteration();
        let mut status = String::from_str("Iteration ");
        status.append(decimal(iteration).as_str());
        status.append("/");
        status.append(decimal(self.config.max_iterations).as_str());
        LoopAction::Stream { iteration, status }
    }

    fn end_streaming(&mut self) -> (action: LoopAction)
        requires
            old(self).wf(),
            old(self).phase() == Phase::Streaming,
        ensures
            final(self).wf(),
            final(self).config() == old(self).config(),
            final(self).capacity() == old(self).capacity(),
            old(self).review_triggered(old(self).lines(), &*final(self), action),
    {
        let sample_size = self.sampler.line_count();
        if sample_size == 0 {
            self.phase = Phase::Ready { resume: true };
            return LoopAction::Pause { millis: EMPTY_SAMPLE_PAUSE_MS };
        }
        let context = ReviewerContext {
            task_description: self.config.task.clone(),
            iteration: self.state.current_iteration(),
            previous_summaries: self.state.get_previous_summaries(SUMMARY_WINDOW),
            current_sample: self.sampler.sample(),
        };
        self.phase = Phase::Reviewing { sample_size };
        LoopAction::Review { context }
    }

    fn judged(&mut self, sample_size: usize, decision: ReviewerDecision, retries: u8) -> (action: LoopAction)
        requires
            old(self).wf(),
            old(self).phase() == (Phase::Reviewing { sample_size }),
        ensures
            final(self).wf(),
            final(self).config() == old(self).config(),
            final(self).capacity() == old(self).capacity(),
            old(self).step_spec(LoopEvent::Judged { decision, retries }, &*final(self), action),
    {
        let action = decision.action;
        let reason = decision.reason.clone();
        self.state.record_decision(sample_size, decision, retries);
        assert forall|i: int| 0 <= i < self.ledger().len() implies #[trigger] self.ledger()[i].number == i + 1 by {
            if i < old(self).ledger().len() {
                assert(self.ledger()[i] == self.ledger().drop_last()[i]);
            }
        }
        match action {
            ReviewerAction::Continue => {
                self.sampler.clear();
                self.phase = Phase::Ready { resume: false };
                LoopAction::Pause { millis: ITERATION_PAUSE_MS }
            },
            ReviewerAction::Abort => {
                self.phase = Phase::Finished;
                LoopAction::Finish { result: RunResult::Aborted(reason) }
            },
        }
    }
}

/// In every state the loop reaches, the ledger numbers the reviewed
/// iterations one, two, three and so on, each once, so no iteration is
/// reviewed twice; it never holds more records than the budget; and the
/// counter is one past the ledger exactly while an iteration is open, and
/// an open iteration is always within the budget, so a retried slot streams
/// again.
pub proof fn lemma_one_record_per_iteration(s: &ControlLoop)
    requires
        s.wf(),
    ensures
        forall|i: int| 0 <= i < s.ledger().len() ==> #[trigger] s.ledger()[i].number == i + 1,
        s.ledger().len() <= s.config().max_iterations,
        s.counter() == s.ledger().len() + (if s.slot_open() { 1nat } else { 0nat }),
        s.slot_open() ==> s.ledger().len() < s.config().max_iterations,
{
}

} // verus!
