//! The sample buffer: a bounded, order-preserving window of the worker's most
//! recent output lines, fed by a classification of the worker's events.

use vstd::prelude::*;
use vstd::string::*;
use std::collections::VecDeque;
use crate::text::{joined, lemma_blank_trims_to_empty, lemma_trimmed_idem, lines_of, split_lines, trim, trimmed, views, white_space};

verus! {

/// An event of the worker's stream, in the one schema the library reads.
/// Anything the transport cannot map to a known kind arrives as
/// `Unrecognized` and is ignored.
#[derive(Debug, Clone)]
pub enum SamplerEvent {
    /// A text part was added to a message.
    PartAdded { text: String },
    /// More text streamed into a message part.
    PartUpdated { delta: String },
    /// A tool was invoked; `params` is its parameters as compact JSON text.
    ToolCall { name: String, params: String },
    /// A tool returned; `result` is its output as JSON text.
    ToolResult { result: String },
    /// The worker reported an error.
    Error { error: String },
    /// Reasoning that the worker emitted.
    Thinking { thought: String },
    /// A progress ping.
    Progress { message: String },
    /// A message is complete.
    MessageCompleted { message_id: String },
    /// The session is complete.
    SessionCompleted { session_id: String },
    /// An event of a kind the library does not know.
    Unrecognized,
}

/// The buffer after a raw line is offered to it: the trimmed line goes to the
/// tail, the head makes room when the buffer is full, and a blank line (or a
/// buffer of capacity zero) changes nothing.
pub open spec fn add_line_spec(lines: Seq<Seq<char>>, cap: nat, raw: Seq<char>) -> Seq<Seq<char>> {
    let t = trimmed(raw);
    if t.len() == 0 || cap == 0 {
        lines
    } else if lines.len() >= cap {
        lines.drop_first().push(t)
    } else {
        lines.push(t)
    }
}

/// The buffer after each of `raws` is offered to it in order.
pub open spec fn add_all_spec(lines: Seq<Seq<char>>, cap: nat, raws: Seq<Seq<char>>) -> Seq<Seq<char>>
    decreases raws.len(),
{
    if raws.len() == 0 {
        lines
    } else {
        add_line_spec(add_all_spec(lines, cap, raws.drop_last()), cap, raws.last())
    }
}

/// The one-line summary of a tool invocation.
pub open spec fn tool_line(name: Seq<char>, params: Seq<char>) -> Seq<char> {
    "[Tool: "@ + name + "("@ + params + ")]"@
}

/// The one-line summary of a worker error.
pub open spec fn error_line(error: Seq<char>) -> Seq<char> {
    "[Error: "@ + error + "]"@
}

/// The buffer after `event` is observed: text is captured line by line, a
/// tool invocation or an error as one bracketed line, everything else is
/// ignored.
pub open spec fn observe_spec(lines: Seq<Seq<char>>, cap: nat, event: SamplerEvent) -> Seq<Seq<char>> {
    match event {
        SamplerEvent::PartAdded { text } => add_all_spec(lines, cap, lines_of(text@)),
        SamplerEvent::PartUpdated { delta } => add_all_spec(lines, cap, lines_of(delta@)),
        SamplerEvent::ToolCall { name, params } => add_line_spec(lines, cap, tool_line(name@, params@)),
        SamplerEvent::Error { error } => add_line_spec(lines, cap, error_line(error@)),
        _ => lines,
    }
}

/// Offering any lines, one after another, never takes the buffer past its
/// capacity.
pub proof fn lemma_add_all_within_capacity(lines: Seq<Seq<char>>, cap: nat, raws: Seq<Seq<char>>)
    requires
        lines.len() <= cap,
    ensures
        add_all_spec(lines, cap, raws).len() <= cap,
    decreases raws.len(),
{
    if raws.len() > 0 {
        lemma_add_all_within_capacity(lines, cap, raws.drop_last());
    }
}

/// The last `cap` elements of `s`, or all of them when there are fewer.
pub open spec fn last_n(s: Seq<Seq<char>>, cap: nat) -> Seq<Seq<char>> {
    if s.len() <= cap {
        s
    } else {
        s.subrange(s.len() - cap, s.len() as int)
    }
}

/// Offering non-blank lines leaves in the buffer the last `cap` of what it
/// held followed by the trimmed lines.
pub proof fn lemma_add_all_window(lines: Seq<Seq<char>>, cap: nat, raws: Seq<Seq<char>>)
    requires
        lines.len() <= cap,
        forall|i: int| 0 <= i < raws.len() ==> #[trigger] trimmed(raws[i]).len() > 0,
    ensures
        add_all_spec(lines, cap, raws) == last_n(lines + raws.map_values(|r: Seq<char>| trimmed(r)), cap),
    decreases raws.len(),
{
    if raws.len() == 0 {
        assert(lines + raws.map_values(|r: Seq<char>| trimmed(r)) =~= lines);
    } else {
        let init = raws.drop_last();
        assert forall|i: int| 0 <= i < init.len() implies #[trigger] trimmed(init[i]).len() > 0 by {
            assert(init[i] == raws[i]);
        }
        lemma_add_all_window(lines, cap, init);
        lemma_add_all_within_capacity(lines, cap, init);
        let t = trimmed(raws.last());
        assert(trimmed(raws[raws.len() - 1]).len() > 0);
        let prev = lines + init.map_values(|r: Seq<char>| trimmed(r));
        let all = lines + raws.map_values(|r: Seq<char>| trimmed(r));
        assert(all =~= prev.push(t));
        let w = last_n(prev, cap);
        if cap == 0 {
            assert(last_n(all, cap) =~= Seq::<Seq<char>>::empty());
            assert(w =~= Seq::<Seq<char>>::empty());
        } else if w.len() >= cap {
            assert(w.drop_first().push(t) =~= last_n(all, cap));
        } else {
            assert(w.push(t) =~= last_n(all, cap));
        }
    }
}

/// Once more non-blank lines than the capacity have been offered, the buffer
/// holds exactly the last `cap` of them, trimmed, in the order given, and
/// the sample is those lines joined.
pub proof fn lemma_keeps_most_recent(lines: Seq<Seq<char>>, cap: nat, raws: Seq<Seq<char>>)
    requires
        lines.len() <= cap,
        raws.len() > cap,
        forall|i: int| 0 <= i < raws.len() ==> #[trigger] trimmed(raws[i]).len() > 0,
    ensures
        add_all_spec(lines, cap, raws)
            == raws.subrange(raws.len() - cap, raws.len() as int).map_values(|r: Seq<char>| trimmed(r)),
        joined(add_all_spec(lines, cap, raws))
            == joined(raws.subrange(raws.len() - cap, raws.len() as int).map_values(|r: Seq<char>| trimmed(r))),
{
    lemma_add_all_window(lines, cap, raws);
    let all = lines + raws.map_values(|r: Seq<char>| trimmed(r));
    assert(last_n(all, cap)
        =~= raws.subrange(raws.len() - cap, raws.len() as int).map_values(|r: Seq<char>| trimmed(r)));
}

/// Offering a blank or white-space-only line leaves the buffer, and so its
/// line count, unchanged.
pub proof fn lemma_blank_line_ignored(lines: Seq<Seq<char>>, cap: nat, raw: Seq<char>)
    requires
        forall|i: int| 0 <= i < raw.len() ==> white_space(#[trigger] raw[i]),
    ensures
        add_line_spec(lines, cap, raw) == lines,
        add_line_spec(lines, cap, raw).len() == lines.len(),
{
    lemma_blank_trims_to_empty(raw);
}

/// After `clear` the buffer has no lines and its sample is the empty text.
pub proof fn lemma_cleared_sample_empty(s: Sampler)
    requires
        s.lines() == Seq::<Seq<char>>::empty(),
    ensures
        joined(s.lines()) == Seq::<char>::empty(),
        s.lines().len() == 0,
{
}

/// The sample is a function of the buffered lines alone: two samples taken
/// with no change in between are equal.
pub proof fn lemma_sample_stable(s: Sampler, first: Seq<char>, second: Seq<char>)
    requires
        first == joined(s.lines()),
        second == joined(s.lines()),
    ensures
        first == second,
{
}

/// Whether the event ends the current streaming phase.
pub open spec fn is_completion_spec(event: SamplerEvent) -> bool {
    match event {
        SamplerEvent::MessageCompleted { .. } | SamplerEvent::SessionCompleted { .. } => true,
        _ => false,
    }
}

/// Whether the event ends the current streaming phase: a message or the
/// session is complete.
pub fn is_completion_event(event: &SamplerEvent) -> (r: bool)
    ensures
        r == is_completion_spec(*event),
{
    match event {
        SamplerEvent::MessageCompleted { .. } => true,
        SamplerEvent::SessionCompleted { .. } => true,
        _ => false,
    }
}

/// Whether an observer should see the event: text and tool invocations only,
/// so that the observer is not flooded.
pub fn should_send_to_ui(event: &SamplerEvent) -> (r: bool)
    ensures
        r == (*event is PartAdded || *event is PartUpdated || *event is ToolCall),
{
    match event {
        SamplerEvent::PartAdded { .. } => true,
        SamplerEvent::PartUpdated { .. } => true,
        SamplerEvent::ToolCall { .. } => true,
        _ => false,
    }
}

/// Keeps the most recent trimmed, non-blank lines of the worker's output, at
/// most `max_lines` of them, oldest first.
pub struct Sampler {
    buffer: VecDeque<String>,
    max_lines: usize,
}

impl Sampler {
    /// The buffered lines, oldest first.
    pub closed spec fn lines(&self) -> Seq<Seq<char>> {
        views(self.buffer@)
    }

    /// The most lines the buffer holds.
    pub closed spec fn capacity(&self) -> nat {
        self.max_lines as nat
    }

    /// The buffer holds at most `capacity` lines, each trimmed and non-blank.
    pub closed spec fn wf(&self) -> bool {
        &&& self.buffer@.len() <= self.max_lines
        &&& forall|i: int| 0 <= i < self.buffer@.len() ==> #[trigger] self.buffer@[i]@.len() > 0
            && trimmed(self.buffer@[i]@) == self.buffer@[i]@
    }

    /// An empty buffer that keeps at most `max_lines` lines.
    pub fn new(max_lines: usize) -> (r: Self)
        ensures
            r.wf(),
            r.lines() == Seq::<Seq<char>>::empty(),
            r.capacity() == max_lines,
    {
        let r = Sampler { buffer: VecDeque::new(), max_lines };
        assert(r.lines() =~= Seq::<Seq<char>>::empty());
        r
    }

    /// The buffered lines, oldest first, joined by newlines.
    pub fn sample(&self) -> (r: String)
        requires
            self.wf(),
        ensures
            r@ == joined(self.lines()),
    {
        let mut r = String::new();
        let n = self.buffer.len();
        let mut i: usize = 0;
        assert(views(self.buffer@).subrange(0, 0) =~= Seq::<Seq<char>>::empty());
        while i < n
            invariant
                n == self.buffer@.len(),
                i <= n,
                r@ == joined(views(self.buffer@).subrange(0, i as int)),
            decreases n - i,
        {
            let ghost before = r@;
            let ghost done = views(self.buffer@).subrange(0, i as int);
            if i > 0 {
                proof {
                    reveal_strlit("\n");
                }
                r.append("\n");
            }
            r.append(self.buffer[i].as_str());
            proof {
                crate::text::lemma_join_step(done, before, self.buffer@[i as int]@,
                    if i == 0 { Seq::empty() } else { seq!['\n'] });
                assert(done.push(self.buffer@[i as int]@) =~= views(self.buffer@).subrange(0, i + 1));
                assert(r@ =~= before + (if i == 0 { Seq::<char>::empty() } else { seq!['\n'] }) + self.buffer@[i as int]@);
            }
            i = i + 1;
        }
        assert(views(self.buffer@).subrange(0, n as int) =~= views(self.buffer@));
        r
    }

    /// How many lines are buffered.
    pub fn line_count(&self) -> (r: usize)
        requires
            self.wf(),
        ensures
            r == self.lines().len(),
            r <= self.capacity(),
    {
        self.buffer.len()
    }

    /// Empties the buffer; the capacity stays.
    pub fn clear(&mut self)
        requires
            old(self).wf(),
        ensures
            final(self).wf(),
            final(self).lines() == Seq::<Seq<char>>::empty(),
            final(self).capacity() == old(self).capacity(),
    {
        self.buffer.clear();
        assert(self.lines() =~= Seq::<Seq<char>>::empty());
    }

    /// Offers each line of `text` to the buffer, in order.
    pub fn add_lines(&mut self, text: &str)
        requires
            old(self).wf(),
        ensures
            final(self).wf(),
            final(self).lines() == add_all_spec(old(self).lines(), old(self).capacity(), lines_of(text@)),
            final(self).capacity() == old(self).capacity(),
    {
        let ls = split_lines(text);
        let ghost raws = lines_of(text@);
        let ghost start = self.lines();
        let mut i: usize = 0;
        assert(raws.subrange(0, 0) =~= Seq::<Seq<char>>::empty());
        while i < ls.len()
            invariant
                views(ls@) == raws,
                i <= ls.len(),
                self.lines() == add_all_spec(start, self.capacity(), raws.subrange(0, i as int)),
                self.capacity() == old(self).capacity(),
                self.wf(),
            decreases ls.len() - i,
        {
            self.add_line(ls[i].as_str());
            assert(raws.subrange(0, i + 1).drop_last() =~= raws.subrange(0, i as int));
            i = i + 1;
        }
        assert(raws.subrange(0, ls.len() as int) =~= raws);
    }

    /// Trims `line` and, unless nothing is left, appends it, dropping the
    /// oldest line when the buffer is full.
    pub fn add_line(&mut self, line: &str)
        requires
            old(self).wf(),
        ensures
            final(self).wf(),
            final(self).lines() == add_line_spec(old(self).lines(), old(self).capacity(), line@),
            final(self).capacity() == old(self).capacity(),
            final(self).lines().len() <= final(self).capacity(),
    {
        let t = trim(line);
        if t.as_str().is_empty() || self.max_lines == 0 {
            return;
        }
        let ghost before = self.buffer@;
        if self.buffer.len() >= self.max_lines {
            self.buffer.pop_front();
            assert(views(self.buffer@) =~= views(before).drop_first());
        }
        let ghost mid = self.buffer@;
        self.buffer.push_back(t);
        assert(views(self.buffer@) =~= views(mid).push(t@));
        proof {
            lemma_trimmed_idem(line@);
        }
    }

    /// Captures what `event` says of the worker's progress, as
    /// `observe_spec` describes.
    pub fn process_event(&mut self, event: &SamplerEvent)
        requires
            old(self).wf(),
        ensures
            final(self).wf(),
            final(self).lines() == observe_spec(old(self).lines(), old(self).capacity(), *event),
            final(self).capacity() == old(self).capacity(),
    {
        match event {
            SamplerEvent::PartAdded { text } => {
                self.add_lines(text.as_str());
            },
            SamplerEvent::PartUpdated { delta } => {
                self.add_lines(delta.as_str());
            },
            SamplerEvent::ToolCall { name, params } => {
                let mut line = String::from_str("[Tool: ");
                line.append(name.as_str());
                line.append("(");
                line.append(params.as_str());
                line.append(")]");
                self.add_line(line.as_str());
            },
            SamplerEvent::Error { error } => {
                let mut line = String::from_str("[Error: ");
                line.append(error.as_str());
                line.append("]");
                self.add_line(line.as_str());
            },
            _ => {},
        }
    }
}

} // verus!
