//! Authorization-gated control of a fan's duty cycle.
//!
//! The library decides, for each privileged command, whether it may run and
//! what the single shared control state becomes. The authority round trip,
//! the exclusive-access guard and the device write are performed by the
//! caller, which hands the outcomes to these functions.

pub mod authorization;
pub mod command;
pub mod gateway;
pub mod laws;
pub mod state;

pub use authorization::{
    check_decision, begin_authorization, decision_from_reply, AuthStep, AuthorityFailure,
    AuthorizationDecision, FanError, DAEMON_PID,
};
pub use gateway::FanDbus;
pub use command::{Command, FULL_SPEED_ACTION, SET_AUTO_ACTION, SET_DUTY_ACTION};
pub use state::{ControlState, MAX_DUTY};
