//! The worker's side of the run, as far as the library needs it: the session
//! that a task opens, the request that opens it, and the replies and errors
//! of the worker's server.

use vstd::prelude::*;
use vstd::string::*;

verus! {

/// How many bytes of the task, in UTF-8, go into a session's title.
pub const TITLE_TASK_BYTES: u32 = 50;

/// A failure reported by the worker's server or its transport.
#[derive(Debug, Clone)]
pub enum OpencodeError {
    /// The server reported an error.
    Message(String),
    /// The HTTP exchange failed.
    Http(String),
    /// The operation is not available.
    NotSupported,
}

impl OpencodeError {
    /// The error as a line of text.
    pub fn message(&self) -> (r: String)
        ensures
            r@ == match *self {
                OpencodeError::Message(m) => "OpenCode error: "@ + m@,
                OpencodeError::Http(m) => "HTTP error: "@ + m@,
                OpencodeError::NotSupported => "Not supported"@,
            },
    {
        match self {
            OpencodeError::Message(m) => {
                let mut r = String::from_str("OpenCode error: ");
                r.append(m.as_str());
                r
            },
            OpencodeError::Http(m) => {
                let mut r = String::from_str("HTTP error: ");
                r.append(m.as_str());
                r
            },
            OpencodeError::NotSupported => String::from_str("Not supported"),
        }
    }
}

/// A session of the worker.
#[derive(Debug, Clone)]
pub struct Session {
    pub id: String,
    pub title: Option<String>,
    pub created_at: String,
}

/// The request that opens a session.
#[derive(Debug, Clone)]
pub struct CreateSessionRequest {
    pub title: Option<String>,
}

/// How many bytes `c` takes in UTF-8.
pub open spec fn utf8_width(c: char) -> nat {
    let v = c as u32;
    if v < 0x80 {
        1
    } else if v < 0x800 {
        2
    } else if v < 0x10000 {
        3
    } else {
        4
    }
}

/// How many characters of `s`, from its start, fit in `budget` bytes of
/// UTF-8: the longest prefix within the budget.
pub open spec fn chars_within(s: Seq<char>, budget: nat) -> nat
    decreases s.len(),
{
    if s.len() == 0 || utf8_width(s[0]) > budget {
        0
    } else {
        1 + chars_within(s.drop_first(), (budget - utf8_width(s[0])) as nat)
    }
}

/// The title of the session opened for `task`: `Runner task: ` and the
/// longest prefix of the task that takes at most fifty bytes in UTF-8.
pub open spec fn session_title(task: Seq<char>) -> Seq<char> {
    "Runner task: "@ + task.take(chars_within(task, TITLE_TASK_BYTES as nat) as int)
}

/// How many bytes `c` takes in UTF-8.
fn char_width(c: char) -> (r: u32)
    ensures
        r == utf8_width(c),
{
    let v = c as u32;
    if v < 0x80 {
        1
    } else if v < 0x800 {
        2
    } else if v < 0x10000 {
        3
    } else {
        4
    }
}

impl CreateSessionRequest {
    /// The request that opens a session for `task`, titled after it.
    pub fn for_task(task: &str) -> (r: Self)
        ensures
            r.title is Some && r.title->Some_0@ == session_title(task@),
    {
        let cs = crate::text::chars_of(task);
        let n = cs.len();
        let mut k: usize = 0;
        let mut budget: u32 = TITLE_TASK_BYTES;
        assert(task@.subrange(0, n as int) =~= task@);
        while k < n && char_width(cs[k]) <= budget
            invariant
                cs@ == task@,
                n == cs.len(),
                k <= n,
                chars_within(task@, TITLE_TASK_BYTES as nat)
                    == k + chars_within(task@.subrange(k as int, n as int), budget as nat),
            decreases n - k,
        {
            assert(task@.subrange(k as int, n as int).drop_first() =~= task@.subrange(k + 1, n as int));
            budget = budget - char_width(cs[k]);
            k = k + 1;
        }
        let mut title = String::from_str("Runner task: ");
        title.append(task.substring_char(0, k));
        assert(task@.subrange(0, k as int) =~= task@.take(k as int));
        CreateSessionRequest { title: Some(title) }
    }
}

/// Whether the worker's server has an active session.
#[derive(Debug, Clone)]
pub struct SessionStatus {
    pub active: bool,
}

/// The reply to a health check.
#[derive(Debug, Clone)]
pub struct HealthResponse {
    pub healthy: bool,
    pub version: String,
}

} // verus!
