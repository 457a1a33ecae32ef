use fan_control::{
    begin_authorization, check_decision, decision_from_reply, AuthStep, AuthorityFailure,
    AuthorizationDecision, Command, ControlState, FanDbus, FanError, DAEMON_PID,
    FULL_SPEED_ACTION, SET_AUTO_ACTION, SET_DUTY_ACTION,
};

#[test]
fn new_holder_starts_automatic() {
    let fan = FanDbus::new(true);
    assert_eq!(fan.state(), ControlState::Automatic);
    assert!(fan.nvidia_exists());
    assert!(!FanDbus::new(false).nvidia_exists());
}

#[test]
fn denied_set_duty_leaves_automatic() {
    let mut fan = FanDbus::new(false);
    let decision = decision_from_reply(Ok(false));
    assert_eq!(decision, AuthorizationDecision::Denied);
    assert_eq!(fan.set_duty(100, decision), Err(FanError::Unauthorized));
    assert_eq!(fan.state(), ControlState::Automatic);
}

#[test]
fn unreachable_authority_set_auto_keeps_state() {
    let mut fan = FanDbus::new(false);
    assert_eq!(fan.set_duty(70, AuthorizationDecision::Permitted), Ok(ControlState::Override(70)));
    let decision = decision_from_reply(Err(AuthorityFailure::Connect));
    assert_eq!(
        fan.set_auto(decision),
        Err(FanError::AuthorityUnavailable(AuthorityFailure::Connect))
    );
    assert_eq!(fan.state(), ControlState::Override(70));
}

#[test]
fn daemon_caller_bypasses_authority() {
    let cmd = Command::SetDuty(50);
    let step = begin_authorization(DAEMON_PID, &cmd);
    assert!(matches!(step, AuthStep::Permit));
    let mut fan = FanDbus::new(false);
    assert_eq!(fan.set_duty(50, AuthorizationDecision::Permitted), Ok(ControlState::Override(50)));
    assert_eq!(fan.state(), ControlState::Override(50));
}

#[test]
fn other_callers_ask_under_the_command_action() {
    match begin_authorization(4242, &Command::SetDuty(9)) {
        AuthStep::AskAuthority(a) => assert_eq!(a, "com.system76.powerdaemon.fan.set-duty"),
        AuthStep::Permit => panic!("a foreign caller must be checked"),
    }
    match begin_authorization(1, &Command::SetAuto) {
        AuthStep::AskAuthority(a) => assert_eq!(a, "com.system76.powerdaemon.fan.set-auto"),
        AuthStep::Permit => panic!("a foreign caller must be checked"),
    }
    match begin_authorization(u32::MAX, &Command::FullSpeed) {
        AuthStep::AskAuthority(a) => assert_eq!(a, "com.system76.powerdaemon.fan.full-speed"),
        AuthStep::Permit => panic!("a foreign caller must be checked"),
    }
}

#[test]
fn action_ids_are_fixed_and_distinct() {
    assert_eq!(Command::SetDuty(0).action_id(), SET_DUTY_ACTION);
    assert_eq!(Command::SetDuty(255).action_id(), SET_DUTY_ACTION);
    assert_eq!(Command::SetAuto.action_id(), SET_AUTO_ACTION);
    assert_eq!(Command::FullSpeed.action_id(), FULL_SPEED_ACTION);
    assert_ne!(SET_DUTY_ACTION, SET_AUTO_ACTION);
    assert_ne!(SET_DUTY_ACTION, FULL_SPEED_ACTION);
    assert_ne!(SET_AUTO_ACTION, FULL_SPEED_ACTION);
}

#[test]
fn decisions_from_replies() {
    assert_eq!(decision_from_reply(Ok(true)), AuthorizationDecision::Permitted);
    assert_eq!(decision_from_reply(Ok(false)), AuthorizationDecision::Denied);
    assert_eq!(
        decision_from_reply(Err(AuthorityFailure::Subject)),
        AuthorizationDecision::Unavailable(AuthorityFailure::Subject)
    );
    assert_eq!(
        decision_from_reply(Err(AuthorityFailure::Query)),
        AuthorizationDecision::Unavailable(AuthorityFailure::Query)
    );
}

#[test]
fn check_decision_maps_each_error() {
    assert_eq!(check_decision(AuthorizationDecision::Permitted), Ok(()));
    assert_eq!(check_decision(AuthorizationDecision::Denied), Err(FanError::Unauthorized));
    assert_eq!(
        check_decision(AuthorizationDecision::Unavailable(AuthorityFailure::Query)),
        Err(FanError::AuthorityUnavailable(AuthorityFailure::Query))
    );
}

#[test]
fn full_speed_equals_set_duty_max() {
    let mut a = FanDbus::new(false);
    let mut b = FanDbus::new(false);
    assert_eq!(b.set_duty(3, AuthorizationDecision::Permitted), Ok(ControlState::Override(3)));
    let ra = a.full_speed(AuthorizationDecision::Permitted);
    let rb = b.set_duty(255, AuthorizationDecision::Permitted);
    assert_eq!(ra, rb);
    assert_eq!(a.state(), ControlState::Override(255));
    assert_eq!(a.state(), b.state());
}

#[test]
fn set_auto_then_set_duty_is_last_writer_wins() {
    let mut fan = FanDbus::new(false);
    assert!(fan.full_speed(AuthorizationDecision::Permitted).is_ok());
    assert_eq!(fan.set_auto(AuthorizationDecision::Permitted), Ok(ControlState::Automatic));
    assert_eq!(fan.state(), ControlState::Automatic);
    assert_eq!(fan.set_duty(17, AuthorizationDecision::Permitted), Ok(ControlState::Override(17)));
    assert_eq!(fan.state(), ControlState::Override(17));
}

#[test]
fn serialized_commands_end_in_one_requested_mode() {
    let a = Command::SetDuty(10);
    let b = Command::SetAuto;
    let mut first = FanDbus::new(false);
    first.handle(a, AuthorizationDecision::Permitted).unwrap();
    first.handle(b, AuthorizationDecision::Permitted).unwrap();
    assert_eq!(first.state(), ControlState::Automatic);
    let mut second = FanDbus::new(false);
    second.handle(b, AuthorizationDecision::Permitted).unwrap();
    second.handle(a, AuthorizationDecision::Permitted).unwrap();
    assert_eq!(second.state(), ControlState::Override(10));
}

#[test]
fn every_state_stays_in_range() {
    let mut fan = FanDbus::new(false);
    for d in [0u8, 1, 128, 254, 255] {
        assert_eq!(fan.set_duty(d, AuthorizationDecision::Permitted), Ok(ControlState::Override(d)));
        assert_eq!(fan.state().duty(), Some(d));
    }
    fan.set_auto(AuthorizationDecision::Permitted).unwrap();
    assert_eq!(fan.state().duty(), None);
}

#[test]
fn refused_full_speed_changes_nothing() {
    let mut fan = FanDbus::new(false);
    fan.set_duty(40, AuthorizationDecision::Permitted).unwrap();
    assert_eq!(fan.full_speed(AuthorizationDecision::Denied), Err(FanError::Unauthorized));
    assert_eq!(
        fan.handle(Command::SetAuto, AuthorizationDecision::Unavailable(AuthorityFailure::Subject)),
        Err(FanError::AuthorityUnavailable(AuthorityFailure::Subject))
    );
    assert_eq!(fan.state(), ControlState::Override(40));
}

#[test]
fn target_states_of_commands() {
    assert_eq!(Command::SetDuty(0).target_state(), ControlState::Override(0));
    assert_eq!(Command::SetAuto.target_state(), ControlState::Automatic);
    assert_eq!(Command::FullSpeed.target_state(), ControlState::Override(255));
}

#[test]
fn error_messages() {
    assert_eq!(FanError::Unauthorized.message(), "Operation not permitted by Polkit");
    assert_eq!(
        FanError::AuthorityUnavailable(AuthorityFailure::Connect).message(),
        "could not connect to polkit authority daemon"
    );
    assert_eq!(
        FanError::AuthorityUnavailable(AuthorityFailure::Subject).message(),
        "could not create policykit1 subject"
    );
    assert_eq!(
        FanError::AuthorityUnavailable(AuthorityFailure::Query).message(),
        "could not check policykit authorization"
    );
    assert_eq!(FanError::StateUnavailable.message(), "Failed to acquire fan lock");
}
