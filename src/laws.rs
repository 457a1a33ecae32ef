use vstd::prelude::*;
use crate::authorization::{AuthorizationDecision, FanError};
use crate::command::Command;
use crate::gateway::{command_result, next_state};
use crate::state::{ControlState, MAX_DUTY};

verus! {

/// Whatever the command and its decision, the state it leaves behind is
/// automatic control or an override with a duty from 0 to 255.
pub proof fn lemma_command_keeps_state_valid(
    s: ControlState,
    cmd: Command,
    decision: AuthorizationDecision,
)
    ensures
        next_state(s, cmd, decision).is_valid(),
{
}

/// A command that was not permitted, whether denied or left undecided by an
/// unreachable authority, leaves the state exactly as it was and reports
/// the decision's error.
pub proof fn lemma_refused_command_keeps_state(
    s: ControlState,
    cmd: Command,
    decision: AuthorizationDecision,
)
    requires
        !(decision is Permitted),
    ensures
        next_state(s, cmd, decision) == s,
        decision is Denied ==> command_result(cmd, decision) == Err::<ControlState, FanError>(
            FanError::Unauthorized,
        ),
        decision matches AuthorizationDecision::Unavailable(f) ==> command_result(cmd, decision)
            == Err::<ControlState, FanError>(FanError::AuthorityUnavailable(f)),
{
}

/// Full speed and a forced duty of 255, both permitted, leave the same
/// state and return the same result, from any starting states.
pub proof fn lemma_full_speed_is_largest_duty(s1: ControlState, s2: ControlState)
    ensures
        next_state(s1, Command::FullSpeed, AuthorizationDecision::Permitted) == next_state(
            s2,
            Command::SetDuty(MAX_DUTY),
            AuthorizationDecision::Permitted,
        ),
        next_state(s1, Command::FullSpeed, AuthorizationDecision::Permitted)
            == ControlState::Override(255),
        command_result(Command::FullSpeed, AuthorizationDecision::Permitted) == command_result(
            Command::SetDuty(MAX_DUTY),
            AuthorizationDecision::Permitted,
        ),
{
}

/// After a permitted return to automatic control and then a permitted
/// forced duty `d`, the state is the override of `d`, whatever came before.
pub proof fn lemma_last_writer_wins(s: ControlState, d: u8)
    ensures
        next_state(
            next_state(s, Command::SetAuto, AuthorizationDecision::Permitted),
            Command::SetDuty(d),
            AuthorizationDecision::Permitted,
        ) == ControlState::Override(d),
{
}

/// Two permitted commands from different callers are applied one after the
/// other under exclusive access. In either order the final state is exactly
/// the target of one of the two commands, the one applied last.
pub proof fn lemma_concurrent_commands_resolve(s: ControlState, a: Command, b: Command)
    ensures
        ({
            let ab = next_state(
                next_state(s, a, AuthorizationDecision::Permitted),
                b,
                AuthorizationDecision::Permitted,
            );
            let ba = next_state(
                next_state(s, b, AuthorizationDecision::Permitted),
                a,
                AuthorizationDecision::Permitted,
            );
            &&& ab == b.target()
            &&& ba == a.target()
            &&& (ab == a.target() || ab == b.target())
            &&& (ba == a.target() || ba == b.target())
        }),
{
}

} // verus!
