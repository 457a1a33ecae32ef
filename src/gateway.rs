use vstd::prelude::*;
use crate::authorization::{admission, check_decision, AuthorizationDecision, FanError};
use crate::command::Command;
use crate::state::{ControlState, MAX_DUTY};

verus! {

/// The state a command leaves behind: the command's target when it was
/// permitted, the state before it otherwise.
pub open spec fn next_state(
    s: ControlState,
    cmd: Command,
    decision: AuthorizationDecision,
) -> ControlState {
    if decision is Permitted {
        cmd.target()
    } else {
        s
    }
}

/// What a command returns: the state it applied, or the error of its
/// decision.
pub open spec fn command_result(
    cmd: Command,
    decision: AuthorizationDecision,
) -> Result<ControlState, FanError> {
    match admission(decision) {
        Ok(_) => Ok(cmd.target()),
        Err(e) => Err(e),
    }
}

/// The control state holder: the single source of truth for the duty mode
/// in effect. Callers keep it behind an exclusive-access guard and write
/// each state it returns to the device while they hold the guard.
pub struct FanDbus {
    nvidia_exists: bool,
    state: ControlState,
}

impl View for FanDbus {
    type V = ControlState;

    closed spec fn view(&self) -> ControlState {
        self.state
    }
}

impl FanDbus {
    /// Whether the secondary controller was reported present.
    pub closed spec fn secondary(&self) -> bool {
        self.nvidia_exists
    }

    /// A holder in automatic control.
    pub fn new(nvidia_exists: bool) -> (r: Self)
        ensures
            r@ == ControlState::Automatic,
            r.secondary() == nvidia_exists,
    {
        FanDbus { nvidia_exists, state: ControlState::Automatic }
    }

    /// The duty mode in effect.
    pub fn state(&self) -> (r: ControlState)
        ensures
            r == self@,
    {
        self.state
    }

    /// Whether the secondary controller was reported present.
    pub fn nvidia_exists(&self) -> (r: bool)
        ensures
            r == self.secondary(),
    {
        self.nvidia_exists
    }

    /// Runs `cmd` under `decision`. When permitted, the state becomes the
    /// command's target and is returned, for the caller to write to the
    /// device; otherwise nothing changes and the decision's error is
    /// returned.
    pub fn handle(&mut self, cmd: Command, decision: AuthorizationDecision) -> (r: Result<
        ControlState,
        FanError,
    >)
        ensures
            final(self)@ == next_state(old(self)@, cmd, decision),
            final(self).secondary() == old(self).secondary(),
            r == command_result(cmd, decision),
            r is Ok <==> decision is Permitted,
            r matches Ok(s) ==> s == final(self)@,
            final(self)@.is_valid(),
    {
        match check_decision(decision) {
            Ok(()) => {
                let s = cmd.target_state();
                self.state = s;
                Ok(s)
            },
            Err(e) => Err(e),
        }
    }

    /// Forces the duty to `duty` when permitted.
    pub fn set_duty(&mut self, duty: u8, decision: AuthorizationDecision) -> (r: Result<
        ControlState,
        FanError,
    >)
        ensures
            final(self)@ == next_state(old(self)@, Command::SetDuty(duty), decision),
            final(self).secondary() == old(self).secondary(),
            r == command_result(Command::SetDuty(duty), decision),
            decision is Permitted ==> final(self)@ == ControlState::Override(duty),
    {
        self.handle(Command::SetDuty(duty), decision)
    }

    /// Returns to automatic control when permitted.
    pub fn set_auto(&mut self, decision: AuthorizationDecision) -> (r: Result<
        ControlState,
        FanError,
    >)
        ensures
            final(self)@ == next_state(old(self)@, Command::SetAuto, decision),
            final(self).secondary() == old(self).secondary(),
            r == command_result(Command::SetAuto, decision),
            decision is Permitted ==> final(self)@ == ControlState::Automatic,
    {
        self.handle(Command::SetAuto, decision)
    }

    /// Pins the fan at the largest duty when permitted.
    pub fn full_speed(&mut self, decision: AuthorizationDecision) -> (r: Result<
        ControlState,
        FanError,
    >)
        ensures
            final(self)@ == next_state(old(self)@, Command::FullSpeed, decision),
            final(self).secondary() == old(self).secondary(),
            r == command_result(Command::FullSpeed, decision),
            decision is Permitted ==> final(self)@ == ControlState::Override(MAX_DUTY),
    {
        self.handle(Command::FullSpeed, decision)
    }
}

} // verus!
