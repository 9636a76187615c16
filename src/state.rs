//! The run's ledger: an append-only record of the iterations reviewed so far,
//! with the summaries and totals derived from it.

use vstd::prelude::*;
use vstd::string::*;
use crate::clock::{clock_text, unix_now, utc_clock_text, LATEST_STAMP};
use crate::reviewer::{name_of, ReviewerAction, ReviewerDecision};
use crate::text::{decimal, decimal_of, join_lines, joined, views};

verus! {

/// The record of one reviewed iteration.
#[derive(Debug, Clone)]
pub struct Iteration {
    /// The iteration's number, from one.
    pub number: usize,
    /// When it was recorded, in seconds since the Unix epoch.
    pub timestamp: i64,
    /// How many lines the reviewed sample held.
    pub sample_size: usize,
    /// The judge's decision.
    pub decision: ReviewerDecision,
    /// How many attempts at the review failed before it gave its decision.
    pub reviewer_retry_count: u8,
}

/// The summary of an iteration given to the judge:
/// `Iteration 2 (10 lines): Continue - reason`.
pub open spec fn summary_line(it: Iteration) -> Seq<char> {
    "Iteration "@ + decimal_of(it.number as nat) + " ("@ + decimal_of(it.sample_size as nat) + " lines): "@
        + name_of(it.decision.action) + " - "@ + it.decision.reason@
}

/// The summaries of the last `count` records of `ledger`, oldest first.
pub open spec fn summaries_spec(ledger: Seq<Iteration>, count: nat) -> Seq<Seq<char>> {
    let start = if ledger.len() > count { ledger.len() - count } else { 0 };
    ledger.subrange(start, ledger.len() as int).map_values(|it: Iteration| summary_line(it))
}

/// How a record's time of day is shown: `HH:MM:SS`, or dashes for a
/// timestamp outside the years 1970 to 9999.
pub open spec fn stamp_text(ts: i64) -> Seq<char> {
    if 0 <= ts <= LATEST_STAMP {
        clock_text(ts as int)
    } else {
        "--:--:--"@
    }
}

/// How the activity log marks an action.
pub open spec fn mark_of(a: ReviewerAction) -> Seq<char> {
    match a {
        ReviewerAction::Continue => "✓ Continue"@,
        ReviewerAction::Abort => "✗ Abort"@,
    }
}

/// One line of the activity log:
/// `[12:00:00] Iter 1/3: ✓ Continue - reason (10 lines, 0 retries)`.
pub open spec fn activity_line(it: Iteration, current: nat) -> Seq<char> {
    "["@ + stamp_text(it.timestamp) + "] Iter "@ + decimal_of(it.number as nat) + "/"@ + decimal_of(current)
        + ": "@ + mark_of(it.decision.action) + " - "@ + it.decision.reason@ + " ("@
        + decimal_of(it.sample_size as nat) + " lines, "@ + decimal_of(it.reviewer_retry_count as nat)
        + " retries)"@
}

/// The activity log of `ledger` at iteration `current`.
pub open spec fn activity_log(ledger: Seq<Iteration>, current: nat) -> Seq<char> {
    if ledger.len() == 0 {
        "No iterations yet"@
    } else {
        joined(ledger.map_values(|it: Iteration| activity_line(it, current)))
    }
}

/// The one-line status of the run.
pub open spec fn status_text(ledger: Seq<Iteration>, current: nat) -> Seq<char> {
    if ledger.len() == 0 {
        "Initializing..."@
    } else {
        match ledger.last().decision.action {
            ReviewerAction::Continue => "Iteration "@ + decimal_of(current) + " - Continuing: "@
                + ledger.last().decision.reason@,
            ReviewerAction::Abort => "Iteration "@ + decimal_of(current) + " - Abort: "@
                + ledger.last().decision.reason@,
        }
    }
}

/// The total of the sample sizes in `ledger`.
pub open spec fn total_lines(ledger: Seq<Iteration>) -> nat
    decreases ledger.len(),
{
    if ledger.len() == 0 {
        0
    } else {
        total_lines(ledger.drop_last()) + ledger.last().sample_size as nat
    }
}

/// The total of the retry counts in `ledger`.
pub open spec fn total_retry_count(ledger: Seq<Iteration>) -> nat
    decreases ledger.len(),
{
    if ledger.len() == 0 {
        0
    } else {
        total_retry_count(ledger.drop_last()) + ledger.last().reviewer_retry_count as nat
    }
}

/// `d` within the range of `i64`.
pub open spec fn clamp_i64(d: int) -> i64 {
    if d > i64::MAX {
        i64::MAX
    } else if d < i64::MIN {
        i64::MIN
    } else {
        d as i64
    }
}

/// The state of one run: the iteration counter and the ledger of reviewed
/// iterations.
pub struct State {
    iterations: Vec<Iteration>,
    current_iteration: usize,
    start_time: i64,
}

impl State {
    /// The records, in the order they were appended.
    pub closed spec fn ledger(&self) -> Seq<Iteration> {
        self.iterations@
    }

    /// The iteration counter.
    pub closed spec fn counter(&self) -> nat {
        self.current_iteration as nat
    }

    /// When the run started, in seconds since the Unix epoch.
    pub closed spec fn started(&self) -> i64 {
        self.start_time
    }

    /// A run that starts now, with no iterations.
    pub fn new() -> (r: Self)
        ensures
            r.ledger() == Seq::<Iteration>::empty(),
            r.counter() == 0,
    {
        State::starting_at(unix_now())
    }

    /// A run that started at `start_time`, with no iterations.
    pub fn starting_at(start_time: i64) -> (r: Self)
        ensures
            r.ledger() == Seq::<Iteration>::empty(),
            r.counter() == 0,
            r.started() == start_time,
    {
        let r = State { iterations: Vec::new(), current_iteration: 0, start_time };
        assert(r.ledger() =~= Seq::<Iteration>::empty());
        r
    }

    /// Moves the counter on by one.
    pub fn start_iteration(&mut self)
        requires
            old(self).counter() < usize::MAX,
        ensures
            final(self).counter() == old(self).counter() + 1,
            final(self).ledger() == old(self).ledger(),
            final(self).started() == old(self).started(),
    {
        self.current_iteration = self.current_iteration + 1;
    }

    /// The iteration counter.
    pub fn current_iteration(&self) -> (r: usize)
        ensures
            r == self.counter(),
    {
        self.current_iteration
    }

    /// Appends the record of the current iteration, stamped now.
    pub fn record_decision(&mut self, sample_size: usize, decision: ReviewerDecision, retry_count: u8)
        ensures
            final(self).counter() == old(self).counter(),
            final(self).started() == old(self).started(),
            final(self).ledger().len() == old(self).ledger().len() + 1,
            final(self).ledger().drop_last() == old(self).ledger(),
            final(self).ledger().last().number == old(self).counter(),
            final(self).ledger().last().sample_size == sample_size,
            final(self).ledger().last().decision == decision,
            final(self).ledger().last().reviewer_retry_count == retry_count,
    {
        let now = unix_now();
        self.record_decision_at(sample_size, decision, retry_count, now);
    }

    /// Appends the record of the current iteration, stamped `timestamp`.
    pub fn record_decision_at(&mut self, sample_size: usize, decision: ReviewerDecision, retry_count: u8, timestamp: i64)
        ensures
            final(self).counter() == old(self).counter(),
            final(self).started() == old(self).started(),
            final(self).ledger() == old(self).ledger().push(
                Iteration {
                    number: old(self).counter() as usize,
                    timestamp,
                    sample_size,
                    decision,
                    reviewer_retry_count: retry_count,
                },
            ),
    {
        let iteration = Iteration {
            number: self.current_iteration,
            timestamp,
            sample_size,
            decision,
            reviewer_retry_count: retry_count,
        };
        self.iterations.push(iteration);
        assert(self.ledger().drop_last() =~= old(self).ledger());
    }

    /// The summaries of the last `count` records, oldest first.
    pub fn get_previous_summaries(&self, count: usize) -> (r: Vec<String>)
        ensures
            views(r@) == summaries_spec(self.ledger(), count as nat),
    {
        let n = self.iterations.len();
        let start: usize = if n > count { n - count } else { 0 };
        let mut r: Vec<String> = Vec::new();
        let mut i: usize = start;
        let ghost picked = self.ledger().subrange(start as int, n as int);
        while i < n
            invariant
                n == self.iterations.len(),
                start <= i <= n,
                picked == self.ledger().subrange(start as int, n as int),
                views(r@) =~= picked.subrange(0, i - start).map_values(|it: Iteration| summary_line(it)),
            decreases n - i,
        {
            let line = summary_of(&self.iterations[i]);
            let ghost before = r@;
            r.push(line);
            proof {
                assert(views(r@) =~= views(before).push(line@));
                assert(picked.subrange(0, i + 1 - start) =~= picked.subrange(0, i - start).push(picked[i - start]));
            }
            i = i + 1;
        }
        assert(picked.subrange(0, n - start) =~= picked);
        r
    }

    /// Whether the counter has reached `max`.
    pub fn is_max_iterations(&self, max: usize) -> (r: bool)
        ensures
            r == (self.counter() >= max),
    {
        self.current_iteration >= max
    }

    /// Seconds from the start of the run to `now`.
    pub fn runtime_at(&self, now: i64) -> (r: i64)
        ensures
            r == clamp_i64(now - self.started()),
    {
        match now.checked_sub(self.start_time) {
            Some(d) => d,
            None => if now < self.start_time { i64::MIN } else { i64::MAX },
        }
    }

    /// Seconds from the start of the run to now.
    pub fn runtime(&self) -> (r: i64) {
        self.runtime_at(unix_now())
    }

    /// The records, in the order they were appended.
    pub fn iterations(&self) -> (r: &[Iteration])
        ensures
            r@ == self.ledger(),
    {
        self.iterations.as_slice()
    }

    /// The latest record, if there is one.
    pub fn last_iteration(&self) -> (r: Option<&Iteration>)
        ensures
            r == (if self.ledger().len() == 0 { None } else { Some(&self.ledger().last()) }),
    {
        let n = self.iterations.len();
        if n == 0 {
            None
        } else {
            Some(&self.iterations[n - 1])
        }
    }

    /// When the run started, in seconds since the Unix epoch.
    pub fn start_time(&self) -> (r: i64)
        ensures
            r == self.started(),
    {
        self.start_time
    }

    /// The activity log: one line per record, or `No iterations yet`.
    pub fn format_activity_log(&self) -> (r: String)
        ensures
            r@ == activity_log(self.ledger(), self.counter()),
    {
        let n = self.iterations.len();
        if n == 0 {
            return String::from_str("No iterations yet");
        }
        let mut lines: Vec<String> = Vec::new();
        let mut i: usize = 0;
        while i < n
            invariant
                n == self.iterations.len(),
                i <= n,
                views(lines@) =~= self.ledger().subrange(0, i as int).map_values(
                    |it: Iteration| activity_line(it, self.counter()),
                ),
            decreases n - i,
        {
            let line = activity_line_of(&self.iterations[i], self.current_iteration);
            let ghost before = lines@;
            lines.push(line);
            proof {
                assert(views(lines@) =~= views(before).push(line@));
                assert(self.ledger().subrange(0, i + 1) =~= self.ledger().subrange(0, i as int).push(self.ledger()[i as int]));
            }
            i = i + 1;
        }
        assert(self.ledger().subrange(0, n as int) =~= self.ledger());
        join_lines(&lines)
    }

    /// The one-line status: the latest decision, or `Initializing...`.
    pub fn status_summary(&self) -> (r: String)
        ensures
            r@ == status_text(self.ledger(), self.counter()),
    {
        let n = self.iterations.len();
        if n == 0 {
            return String::from_str("Initializing...");
        }
        let last = &self.iterations[n - 1];
        let mut r = String::from_str("Iteration ");
        r.append(decimal(self.current_iteration).as_str());
        match last.decision.action {
            ReviewerAction::Continue => r.append(" - Continuing: "),
            ReviewerAction::Abort => r.append(" - Abort: "),
        }
        r.append(last.decision.reason.as_str());
        r
    }

    /// The total of the recorded sample sizes.
    pub fn total_lines_sampled(&self) -> (r: usize)
        requires
            total_lines(self.ledger()) <= usize::MAX,
        ensures
            r == total_lines(self.ledger()),
    {
        let n = self.iterations.len();
        let mut sum: usize = 0;
        let mut i: usize = 0;
        while i < n
            invariant
                n == self.iterations.len(),
                i <= n,
                sum == total_lines(self.ledger().subrange(0, i as int)),
                total_lines(self.ledger()) <= usize::MAX,
            decreases n - i,
        {
            proof {
                assert(self.ledger().subrange(0, i + 1).drop_last() =~= self.ledger().subrange(0, i as int));
                lemma_total_lines_prefix(self.ledger(), i + 1);
            }
            sum = sum + self.iterations[i].sample_size;
            i = i + 1;
        }
        assert(self.ledger().subrange(0, n as int) =~= self.ledger());
        sum
    }

    /// The total of the recorded retry counts.
    pub fn total_retries(&self) -> (r: u32)
        requires
            total_retry_count(self.ledger()) <= u32::MAX,
        ensures
            r == total_retry_count(self.ledger()),
    {
        let n = self.iterations.len();
        let mut sum: u32 = 0;
        let mut i: usize = 0;
        while i < n
            invariant
                n == self.iterations.len(),
                i <= n,
                sum == total_retry_count(self.ledger().subrange(0, i as int)),
                total_retry_count(self.ledger()) <= u32::MAX,
            decreases n - i,
        {
            proof {
                assert(self.ledger().subrange(0, i + 1).drop_last() =~= self.ledger().subrange(0, i as int));
                lemma_total_retries_prefix(self.ledger(), i + 1);
            }
            sum = sum + self.iterations[i].reviewer_retry_count as u32;
            i = i + 1;
        }
        assert(self.ledger().subrange(0, n as int) =~= self.ledger());
        sum
    }
}

impl Default for State {
    fn default() -> (r: Self)
        ensures
            r.ledger() == Seq::<Iteration>::empty(),
            r.counter() == 0,
    {
        State::new()
    }
}

proof fn lemma_total_lines_prefix(ledger: Seq<Iteration>, k: int)
    requires
        0 <= k <= ledger.len(),
    ensures
        total_lines(ledger.subrange(0, k)) <= total_lines(ledger),
    decreases ledger.len() - k,
{
    if k < ledger.len() {
        lemma_total_lines_prefix(ledger, k + 1);
        assert(ledger.subrange(0, k + 1).drop_last() =~= ledger.subrange(0, k));
    } else {
        assert(ledger.subrange(0, k) =~= ledger);
    }
}

proof fn lemma_total_retries_prefix(ledger: Seq<Iteration>, k: int)
    requires
        0 <= k <= ledger.len(),
    ensures
        total_retry_count(ledger.subrange(0, k)) <= total_retry_count(ledger),
    decreases ledger.len() - k,
{
    if k < ledger.len() {
        lemma_total_retries_prefix(ledger, k + 1);
        assert(ledger.subrange(0, k + 1).drop_last() =~= ledger.subrange(0, k));
    } else {
        assert(ledger.subrange(0, k) =~= ledger);
    }
}

/// The summary of one record for the judge.
fn summary_of(it: &Iteration) -> (r: String)
    ensures
        r@ == summary_line(*it),
{
    let mut r = String::from_str("Iteration ");
    r.append(decimal(it.number).as_str());
    r.append(" (");
    r.append(decimal(it.sample_size).as_str());
    r.append(" lines): ");
    r.append(it.decision.action.name());
    r.append(" - ");
    r.append(it.decision.reason.as_str());
    r
}

/// One line of the activity log.
fn activity_line_of(it: &Iteration, current: usize) -> (r: String)
    ensures
        r@ == activity_line(*it, current as nat),
{
    let mut r = String::from_str("[");
    if 0 <= it.timestamp && it.timestamp <= LATEST_STAMP {
        r.append(utc_clock_text(it.timestamp).as_str());
    } else {
        r.append("--:--:--");
    }
    r.append("] Iter ");
    r.append(decimal(it.number).as_str());
    r.append("/");
    r.append(decimal(current).as_str());
    r.append(": ");
    match it.decision.action {
        ReviewerAction::Continue => r.append("✓ Continue"),
        ReviewerAction::Abort => r.append("✗ Abort"),
    }
    r.append(" - ");
    r.append(it.decision.reason.as_str());
    r.append(" (");
    r.append(decimal(it.sample_size).as_str());
    r.append(" lines, ");
    r.append(decimal(it.reviewer_retry_count as usize).as_str());
    r.append(" retries)");
    r
}

} // verus!
