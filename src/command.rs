use vstd::prelude::*;
use crate::state::{ControlState, MAX_DUTY};

verus! {

/// Policy action that allows forcing a duty value.
pub const SET_DUTY_ACTION: &'static str = "com.system76.powerdaemon.fan.set-duty";

/// Policy action that allows returning to automatic control.
pub const SET_AUTO_ACTION: &'static str = "com.system76.powerdaemon.fan.set-auto";

/// Policy action that allows pinning the fan at full speed.
pub const FULL_SPEED_ACTION: &'static str = "com.system76.powerdaemon.fan.full-speed";

/// One inbound request to change the fan's duty mode.
#[derive(Clone, Copy, Debug, PartialEq, Eq, Structural)]
pub enum Command {
    SetDuty(u8),
    SetAuto,
    FullSpeed,
}

impl Command {
    /// The state that an authorized run of this command leaves behind.
    pub open spec fn target(self) -> ControlState {
        match self {
            Command::SetDuty(d) => ControlState::Override(d),
            Command::SetAuto => ControlState::Automatic,
            Command::FullSpeed => ControlState::Override(MAX_DUTY),
        }
    }

    /// The policy action under which this command is authorized.
    pub open spec fn action(self) -> Seq<char> {
        match self {
            Command::SetDuty(_) => SET_DUTY_ACTION@,
            Command::SetAuto => SET_AUTO_ACTION@,
            Command::FullSpeed => FULL_SPEED_ACTION@,
        }
    }

    /// The state that an authorized run of this command leaves behind.
    pub fn target_state(&self) -> (r: ControlState)
        ensures
            r == self.target(),
    {
        match self {
            Command::SetDuty(d) => ControlState::Override(*d),
            Command::SetAuto => ControlState::Automatic,
            Command::FullSpeed => ControlState::Override(MAX_DUTY),
        }
    }

    /// The policy action identifier to check before running this command.
    pub fn action_id(&self) -> (r: &'static str)
        ensures
            r@ == self.action(),
    {
        match self {
            Command::SetDuty(_) => SET_DUTY_ACTION,
            Command::SetAuto => SET_AUTO_ACTION,
            Command::FullSpeed => FULL_SPEED_ACTION,
        }
    }
}

/// Each kind of command is authorized under its own action identifier:
/// two commands share an identifier exactly when they are of the same kind.
pub proof fn lemma_action_ids_distinct(a: Command, b: Command)
    ensures
        a.action() == b.action() <==> (
            (a is SetDuty && b is SetDuty)
            || (a is SetAuto && b is SetAuto)
            || (a is FullSpeed && b is FullSpeed)
        ),
{
    reveal_strlit("com.system76.powerdaemon.fan.set-duty");
    reveal_strlit("com.system76.powerdaemon.fan.set-auto");
    reveal_strlit("com.system76.powerdaemon.fan.full-speed");
    let sd = SET_DUTY_ACTION@;
    let sa = SET_AUTO_ACTION@;
    let fs = FULL_SPEED_ACTION@;
    assert(sd[33] != sa[33]);
    assert(sd.len() != fs.len());
    assert(sa.len() != fs.len());
}

} // verus!
