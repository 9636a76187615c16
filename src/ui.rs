//! What an observer of the run shows: the worker's recent output, the log of
//! decisions, a status line and the iteration, kept from the loop's
//! notifications.

use vstd::prelude::*;
use vstd::string::*;
use crate::clock::local_clock_text;
use crate::control_loop::UiEvent;
use crate::reviewer::name_of;
use crate::text::{chars_of, views};

verus! {

/// How many lines of worker output the observer keeps.
pub const OUTPUT_LINES: usize = 100;

/// How many characters of a line of output are shown.
pub const DISPLAY_WIDTH: usize = 200;

/// The observer's view of the run.
#[derive(Debug, Clone)]
pub struct UiState {
    worker_output: Vec<String>,
    activity_log: Vec<String>,
    status: String,
    iteration: usize,
    max_iterations: usize,
    completed: bool,
    final_result: Option<String>,
}

/// `lines` after `text` is added: at the end, dropping the oldest line once
/// the window is full.
pub open spec fn output_after(lines: Seq<Seq<char>>, text: Seq<char>) -> Seq<Seq<char>> {
    if lines.len() >= OUTPUT_LINES {
        lines.drop_first().push(text)
    } else {
        lines.push(text)
    }
}

/// The activity-log entry for a decision taken at local time `clock`.
pub open spec fn decision_entry(clock: Seq<char>, name: Seq<char>, reason: Seq<char>) -> Seq<char> {
    "["@ + clock + "] "@ + name + ": "@ + reason
}

impl UiState {
    /// The kept worker output, oldest first.
    pub closed spec fn output(&self) -> Seq<Seq<char>> {
        views(self.worker_output@)
    }

    /// The activity log, oldest first.
    pub closed spec fn log(&self) -> Seq<Seq<char>> {
        views(self.activity_log@)
    }

    /// The status line.
    pub closed spec fn status_view(&self) -> Seq<char> {
        self.status@
    }

    /// The iteration shown, and the budget beside it.
    pub closed spec fn progress(&self) -> (nat, nat) {
        (self.iteration as nat, self.max_iterations as nat)
    }

    /// Whether the run is over.
    pub closed spec fn done(&self) -> bool {
        self.completed
    }

    /// The message shown when the run is over, if any.
    pub closed spec fn result_view(&self) -> Option<Seq<char>> {
        match self.final_result {
            Some(s) => Some(s@),
            None => None,
        }
    }

    /// The observer's view before anything happened.
    pub fn new() -> (r: Self)
        ensures
            r.output() == Seq::<Seq<char>>::empty(),
            r.log() == Seq::<Seq<char>>::empty(),
            r.status_view() == "Initializing..."@,
            r.progress() == (0nat, 10nat),
            !r.done(),
            r.result_view() is None,
    {
        let r = UiState {
            worker_output: Vec::new(),
            activity_log: Vec::new(),
            status: String::from_str("Initializing..."),
            iteration: 0,
            max_iterations: 10,
            completed: false,
            final_result: None,
        };
        assert(r.output() =~= Seq::<Seq<char>>::empty());
        assert(r.log() =~= Seq::<Seq<char>>::empty());
        r
    }

    /// Adds a line of worker output, keeping the latest hundred.
    pub fn add_worker_output(&mut self, text: String)
        ensures
            final(self).output() == output_after(old(self).output(), text@),
            old(self).output().len() <= OUTPUT_LINES ==> final(self).output().len() <= OUTPUT_LINES,
            final(self).log() == old(self).log(),
            final(self).status_view() == old(self).status_view(),
            final(self).progress() == old(self).progress(),
            final(self).done() == old(self).done(),
            final(self).result_view() == old(self).result_view(),
    {
        let ghost t = text@;
        if self.worker_output.len() >= OUTPUT_LINES {
            let ghost before = self.worker_output@;
            self.worker_output.remove(0);
            assert(views(self.worker_output@) =~= views(before).drop_first());
        }
        let ghost mid = self.worker_output@;
        self.worker_output.push(text);
        assert(views(self.worker_output@) =~= views(mid).push(t));
    }

    /// Appends an entry to the activity log.
    pub fn add_activity(&mut self, text: String)
        ensures
            final(self).log() == old(self).log().push(text@),
            final(self).output() == old(self).output(),
            final(self).status_view() == old(self).status_view(),
            final(self).progress() == old(self).progress(),
            final(self).done() == old(self).done(),
            final(self).result_view() == old(self).result_view(),
    {
        let ghost t = text@;
        self.activity_log.push(text);
        assert(views(self.activity_log@) =~= views(old(self).activity_log@).push(t));
    }

    /// Replaces the status line.
    pub fn set_status(&mut self, status: String)
        ensures
            final(self).status_view() == status@,
            final(self).output() == old(self).output(),
            final(self).log() == old(self).log(),
            final(self).progress() == old(self).progress(),
            final(self).done() == old(self).done(),
            final(self).result_view() == old(self).result_view(),
    {
        self.status = status;
    }

    /// Shows iteration `current` of `max`.
    pub fn set_iteration(&mut self, current: usize, max: usize)
        ensures
            final(self).progress() == (current as nat, max as nat),
            final(self).output() == old(self).output(),
            final(self).log() == old(self).log(),
            final(self).status_view() == old(self).status_view(),
            final(self).done() == old(self).done(),
            final(self).result_view() == old(self).result_view(),
    {
        self.iteration = current;
        self.max_iterations = max;
    }

    /// Marks the run as over, with the message to show.
    pub fn set_completed(&mut self, result: Option<String>)
        ensures
            final(self).done(),
            final(self).result_view() == (match result {
                Some(s) => Some(s@),
                None => None::<Seq<char>>,
            }),
            final(self).output() == old(self).output(),
            final(self).log() == old(self).log(),
            final(self).status_view() == old(self).status_view(),
            final(self).progress() == old(self).progress(),
    {
        self.completed = true;
        self.final_result = result;
    }

    /// Whether the run is over.
    pub fn is_completed(&self) -> (r: bool)
        ensures
            r == self.done(),
    {
        self.completed
    }

    /// The kept worker output, oldest first.
    pub fn worker_lines(&self) -> (r: &[String])
        ensures
            views(r@) == self.output(),
    {
        self.worker_output.as_slice()
    }

    /// The activity log, oldest first.
    pub fn activity_entries(&self) -> (r: &[String])
        ensures
            views(r@) == self.log(),
    {
        self.activity_log.as_slice()
    }

    /// The status line.
    pub fn status(&self) -> (r: &str)
        ensures
            r@ == self.status_view(),
    {
        self.status.as_str()
    }

    /// The iteration shown, and the budget beside it.
    pub fn iteration(&self) -> (r: (usize, usize))
        ensures
            (r.0 as nat, r.1 as nat) == self.progress(),
    {
        (self.iteration, self.max_iterations)
    }

    /// The message shown when the run is over, if any.
    pub fn final_result(&self) -> (r: Option<&String>)
        ensures
            match r {
                Some(s) => self.result_view() == Some(s@),
                None => self.result_view() is None,
            },
    {
        match &self.final_result {
            Some(s) => Some(s),
            None => None,
        }
    }
}

impl Default for UiState {
    fn default() -> (r: Self)
        ensures
            r.output() == Seq::<Seq<char>>::empty(),
            r.log() == Seq::<Seq<char>>::empty(),
            !r.done(),
    {
        UiState::new()
    }
}

/// Takes a notification of the loop into the observer's view, with the
/// decision stamped at local time `clock`: output is kept, a decision is
/// logged and becomes the status, a status line replaces the status.
pub fn apply_ui_event(event: UiEvent, state: &mut UiState, clock: &str)
    ensures
        final(state).progress() == old(state).progress(),
        final(state).done() == old(state).done(),
        final(state).result_view() == old(state).result_view(),
        match event {
            UiEvent::WorkerOutput(text) => {
                &&& final(state).output() == output_after(old(state).output(), text@)
                &&& final(state).log() == old(state).log()
                &&& final(state).status_view() == old(state).status_view()
            },
            UiEvent::ReviewerDecision(d) => {
                &&& final(state).output() == old(state).output()
                &&& final(state).log() == old(state).log().push(
                    decision_entry(clock@, name_of(d.action), d.reason@))
                &&& final(state).status_view() == name_of(d.action) + ": "@ + d.reason@
            },
            UiEvent::StatusUpdate(s) => {
                &&& final(state).output() == old(state).output()
                &&& final(state).log() == old(state).log()
                &&& final(state).status_view() == s@
            },
        },
{
    match event {
        UiEvent::WorkerOutput(text) => {
            state.add_worker_output(text);
        },
        UiEvent::ReviewerDecision(decision) => {
            let name = decision.action.name();
            let mut entry = String::from_str("[");
            entry.append(clock);
            entry.append("] ");
            entry.append(name);
            entry.append(": ");
            entry.append(decision.reason.as_str());
            state.add_activity(entry);
            let mut status = String::from_str(name);
            status.append(": ");
            status.append(decision.reason.as_str());
            state.set_status(status);
        },
        UiEvent::StatusUpdate(status) => {
            state.set_status(status);
        },
    }
}

/// Takes a notification of the loop into the observer's view, stamping a
/// decision with the local time of day.
pub fn process_ui_event(event: UiEvent, state: &mut UiState)
    ensures
        final(state).progress() == old(state).progress(),
        final(state).done() == old(state).done(),
        final(state).result_view() == old(state).result_view(),
        match event {
            UiEvent::WorkerOutput(text) => {
                &&& final(state).output() == output_after(old(state).output(), text@)
                &&& final(state).log() == old(state).log()
                &&& final(state).status_view() == old(state).status_view()
            },
            UiEvent::ReviewerDecision(d) => {
                &&& final(state).output() == old(state).output()
                &&& final(state).log().len() == old(state).log().len() + 1
                &&& final(state).log().drop_last() == old(state).log()
                &&& exists|clock: Seq<char>| #[trigger] decision_entry(clock, name_of(d.action), d.reason@)
                    == final(state).log().last()
                &&& final(state).status_view() == name_of(d.action) + ": "@ + d.reason@
            },
            UiEvent::StatusUpdate(s) => {
                &&& final(state).output() == old(state).output()
                &&& final(state).log() == old(state).log()
                &&& final(state).status_view() == s@
            },
        },
{
    let clock = local_clock_text();
    let ghost e = event;
    apply_ui_event(event, state, clock.as_str());
    proof {
        if let UiEvent::ReviewerDecision(d) = e {
            assert(final(state).log().drop_last() =~= old(state).log());
            assert(decision_entry(clock@, name_of(d.action), d.reason@) == final(state).log().last());
        }
    }
}

/// A line of output as shown: its first two hundred characters, with `...`
/// after them when there were more.
pub open spec fn display_text(line: Seq<char>) -> Seq<char> {
    if line.len() > DISPLAY_WIDTH {
        line.subrange(0, DISPLAY_WIDTH as int) + "..."@
    } else {
        line
    }
}

/// A line of output as shown, cut to two hundred characters.
pub fn display_line(line: &str) -> (r: String)
    ensures
        r@ == display_text(line@),
{
    let n = chars_of(line).len();
    if n > DISPLAY_WIDTH {
        let mut r = String::from_str(line.substring_char(0, DISPLAY_WIDTH));
        r.append("...");
        r
    } else {
        String::from_str(line)
    }
}

} // verus!
