//! The run's configuration and the rules that validate it.

use vstd::prelude::*;
use vstd::string::*;
use crate::text::same_text;

verus! {

/// What one run is asked to do.
#[derive(Debug, Clone)]
pub struct ControlConfig {
    /// The task given to the worker.
    pub task: String,
    /// The most iterations the run reviews.
    pub max_iterations: usize,
    /// How long, in seconds, the worker may stay silent before a review.
    pub inactivity_timeout_secs: u64,
}

/// Why a configuration was refused.
#[derive(Debug, Clone, Copy, PartialEq, Eq, Structural)]
pub enum ConfigError {
    /// The task is empty.
    EmptyTask,
    /// The iteration budget is zero.
    ZeroIterations,
    /// The inactivity timeout is zero.
    ZeroTimeout,
}

impl ConfigError {
    /// The message shown for the error.
    pub fn message(&self) -> (r: &'static str)
        ensures
            r@ == match *self {
                ConfigError::EmptyTask => "Task cannot be empty"@,
                ConfigError::ZeroIterations => "Max iterations must be greater than 0"@,
                ConfigError::ZeroTimeout => "Inactivity timeout must be greater than 0"@,
            },
    {
        match self {
            ConfigError::EmptyTask => "Task cannot be empty",
            ConfigError::ZeroIterations => "Max iterations must be greater than 0",
            ConfigError::ZeroTimeout => "Inactivity timeout must be greater than 0",
        }
    }
}

/// The first rule that the values break, checked in the order task,
/// iterations, timeout; `None` when they make a valid configuration.
pub open spec fn config_error(task: Seq<char>, max_iterations: nat, timeout: nat) -> Option<ConfigError> {
    if task.len() == 0 {
        Some(ConfigError::EmptyTask)
    } else if max_iterations == 0 {
        Some(ConfigError::ZeroIterations)
    } else if timeout == 0 {
        Some(ConfigError::ZeroTimeout)
    } else {
        None
    }
}

impl ControlConfig {
    /// A configuration with the given values, unchecked.
    pub fn new(task: String, max_iterations: usize, inactivity_timeout_secs: u64) -> (r: Self)
        ensures
            r.task@ == task@,
            r.max_iterations == max_iterations,
            r.inactivity_timeout_secs == inactivity_timeout_secs,
    {
        ControlConfig { task, max_iterations, inactivity_timeout_secs }
    }

    /// Whether the configuration is one a run may start with.
    pub open spec fn is_valid(&self) -> bool {
        config_error(self.task@, self.max_iterations as nat, self.inactivity_timeout_secs as nat) is None
    }

    /// The configuration for the given values, or the first rule they break.
    pub fn from_args(task: &str, max_iterations: usize, inactivity_timeout_secs: u64) -> (r: Result<Self, ConfigError>)
        ensures
            match config_error(task@, max_iterations as nat, inactivity_timeout_secs as nat) {
                Some(e) => r == Err::<ControlConfig, ConfigError>(e),
                None => r is Ok && r->Ok_0.task@ == task@ && r->Ok_0.max_iterations == max_iterations
                    && r->Ok_0.inactivity_timeout_secs == inactivity_timeout_secs,
            },
    {
        if task.is_empty() {
            return Err(ConfigError::EmptyTask);
        }
        if max_iterations == 0 {
            return Err(ConfigError::ZeroIterations);
        }
        if inactivity_timeout_secs == 0 {
            return Err(ConfigError::ZeroTimeout);
        }
        Ok(ControlConfig::new(String::from_str(task), max_iterations, inactivity_timeout_secs))
    }
}

/// The lower-case form of `s`, as `str::to_lowercase` gives it.
pub uninterp spec fn lower_of(s: Seq<char>) -> Seq<char>;

/// Relies on `str::to_lowercase`: the result depends on the characters of
/// `s` alone.
#[verifier::external_body]
fn lowercase(s: &str) -> (r: String)
    ensures
        r@ == lower_of(s@),
{
    s.to_lowercase()
}

/// The switch that a lower-case word stands for: `1`, `true` and `yes` turn
/// it on, `0`, `false` and `no` turn it off, and any other word says
/// nothing.
pub open spec fn flag_spec(word: Seq<char>) -> Option<bool> {
    if word == "1"@ || word == "true"@ || word == "yes"@ {
        Some(true)
    } else if word == "0"@ || word == "false"@ || word == "no"@ {
        Some(false)
    } else {
        None
    }
}

/// The switch that the lower-case `word` stands for.
pub fn flag_value(word: &str) -> (r: Option<bool>)
    ensures
        r == flag_spec(word@),
{
    if same_text(word, "1") || same_text(word, "true") || same_text(word, "yes") {
        Some(true)
    } else if same_text(word, "0") || same_text(word, "false") || same_text(word, "no") {
        Some(false)
    } else {
        None
    }
}

/// The switch that `raw` stands for, whatever its case.
pub fn parse_flag(raw: &str) -> (r: Option<bool>)
    ensures
        r == flag_spec(lower_of(raw@)),
{
    let word = lowercase(raw);
    flag_value(word.as_str())
}

} // verus!
