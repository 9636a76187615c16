//! Supervision of a long-running worker: a bounded sample of its recent
//! output, a ledger of review decisions, the judge's prompt and retry
//! policy, and the control loop that ties them together.

pub mod clock;
pub mod config;
pub mod control_loop;
pub mod reviewer;
pub mod state;
pub mod sampler;
pub mod text;
pub mod ui;
pub mod worker;

pub use config::ControlConfig;
pub use control_loop::{ControlLoop, LoopAction, LoopEvent, RunResult, UiEvent};
pub use reviewer::{ReviewerAction, ReviewerClient, ReviewerContext, ReviewerDecision};
pub use sampler::{Sampler, SamplerEvent};
pub use state::State;
