//! A step-execution and recovery engine for driving a remote browser
//! automation session through long, multi-step, partially non-deterministic
//! UI workflows.
//!
//! The engine is event-driven: every component is a state machine whose
//! transition takes the prior state and a classified reply from the remote
//! session and yields the next state and the action the driver must perform
//! (invoke a capability, sleep, run a recovery action). The driver that
//! actually talks to the session performs those actions and feeds the
//! replies back; the decisions themselves are all made, and verified, here.

pub mod classify;
pub mod listing;
pub mod recovery;
pub mod session;
pub mod step;
pub mod tabs;
pub mod text;
pub mod workflow;
