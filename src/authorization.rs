use vstd::prelude::*;
use crate::command::Command;

verus! {

/// The process identity reserved for the control daemon itself; its own
/// requests are trusted without asking the authority.
pub const DAEMON_PID: u32 = 0;

/// Where a round trip to the authority failed.
#[derive(Clone, Copy, Debug, PartialEq, Eq, Structural)]
pub enum AuthorityFailure {
    /// The connection to the authority service could not be made.
    Connect,
    /// The subject describing the caller could not be built.
    Subject,
    /// The authorization query itself failed.
    Query,
}

/// The outcome of one authorization check.
#[derive(Clone, Copy, Debug, PartialEq, Eq, Structural)]
pub enum AuthorizationDecision {
    Permitted,
    Denied,
    Unavailable(AuthorityFailure),
}

/// The errors a command reports to its caller.
#[derive(Clone, Copy, Debug, PartialEq, Eq, Structural)]
pub enum FanError {
    /// The authority denied the action.
    Unauthorized,
    /// The authority could not be reached or did not answer.
    AuthorityUnavailable(AuthorityFailure),
    /// Exclusive access to the control state could not be obtained.
    StateUnavailable,
}

/// What to do first for a command: either it is permitted outright, or the
/// authority must be asked about the given action.
#[derive(Clone, Copy, Debug)]
pub enum AuthStep {
    Permit,
    AskAuthority(&'static str),
}

/// The decision for a reply of the authority: its flag when it answered,
/// the failure when it did not. A failure is never read as a denial.
pub open spec fn decision_of(reply: Result<bool, AuthorityFailure>) -> AuthorizationDecision {
    match reply {
        Ok(true) => AuthorizationDecision::Permitted,
        Ok(false) => AuthorizationDecision::Denied,
        Err(f) => AuthorizationDecision::Unavailable(f),
    }
}

/// The result owed to the caller for a decision, before any state change.
pub open spec fn admission(decision: AuthorizationDecision) -> Result<(), FanError> {
    match decision {
        AuthorizationDecision::Permitted => Ok(()),
        AuthorizationDecision::Denied => Err(FanError::Unauthorized),
        AuthorizationDecision::Unavailable(f) => Err(FanError::AuthorityUnavailable(f)),
    }
}

/// Decides how `cmd`, sent by the process `caller_pid`, gets authorized: the
/// daemon's own identity is trusted, every other caller is checked under
/// the command's action identifier.
pub fn begin_authorization(caller_pid: u32, cmd: &Command) -> (r: AuthStep)
    ensures
        caller_pid == DAEMON_PID ==> r is Permit,
        caller_pid != DAEMON_PID ==> (r matches AuthStep::AskAuthority(a) && a@ == cmd.action()),
{
    if caller_pid == DAEMON_PID {
        AuthStep::Permit
    } else {
        AuthStep::AskAuthority(cmd.action_id())
    }
}

/// Turns the authority's reply into a decision.
pub fn decision_from_reply(reply: Result<bool, AuthorityFailure>) -> (r: AuthorizationDecision)
    ensures
        r == decision_of(reply),
{
    match reply {
        Ok(true) => AuthorizationDecision::Permitted,
        Ok(false) => AuthorizationDecision::Denied,
        Err(f) => AuthorizationDecision::Unavailable(f),
    }
}

/// Whether a decision lets the command run, and the error otherwise.
pub fn check_decision(decision: AuthorizationDecision) -> (r: Result<(), FanError>)
    ensures
        r == admission(decision),
        r is Ok <==> decision is Permitted,
{
    match decision {
        AuthorizationDecision::Permitted => Ok(()),
        AuthorizationDecision::Denied => Err(FanError::Unauthorized),
        AuthorizationDecision::Unavailable(f) => Err(FanError::AuthorityUnavailable(f)),
    }
}

impl FanError {
    /// The text reported to the caller for this error.
    pub open spec fn text(self) -> Seq<char> {
        match self {
            FanError::Unauthorized => "Operation not permitted by Polkit"@,
            FanError::AuthorityUnavailable(AuthorityFailure::Connect) =>
                "could not connect to polkit authority daemon"@,
            FanError::AuthorityUnavailable(AuthorityFailure::Subject) =>
                "could not create policykit1 subject"@,
            FanError::AuthorityUnavailable(AuthorityFailure::Query) =>
                "could not check policykit authorization"@,
            FanError::StateUnavailable => "Failed to acquire fan lock"@,
        }
    }

    /// The text reported to the caller for this error.
    pub fn message(&self) -> (r: &'static str)
        ensures
            r@ == self.text(),
    {
        match self {
            FanError::Unauthorized => "Operation not permitted by Polkit",
            FanError::AuthorityUnavailable(AuthorityFailure::Connect) =>
                "could not connect to polkit authority daemon",
            FanError::AuthorityUnavailable(AuthorityFailure::Subject) =>
                "could not create policykit1 subject",
            FanError::AuthorityUnavailable(AuthorityFailure::Query) =>
                "could not check policykit authorization",
            FanError::StateUnavailable => "Failed to acquire fan lock",
        }
    }
}

} // verus!
