use audio_output_switcher::audio::{AudioDevice, Role, SwitchError, SwitchSession, SwitchStep};

/// Runs a session with the outcomes given for its calls, in order, and
/// returns the calls that were due together with the result.
fn run(outcomes: &[Result<(), i32>]) -> (Vec<SwitchStep>, Result<(), SwitchError>) {
    let mut session = SwitchSession::begin();
    let mut steps = Vec::new();
    let mut next = outcomes.iter();
    loop {
        match session.pending() {
            SwitchStep::Done(result) => return (steps, result),
            step => {
                steps.push(step);
                session.advance(*next.next().expect("an outcome for every call"));
            }
        }
    }
}

#[test]
fn a_session_starts_with_the_activation() {
    assert_eq!(SwitchSession::begin(), SwitchSession::Activating);
    assert_eq!(SwitchSession::begin().pending(), SwitchStep::Activate);
}

#[test]
fn a_switch_assigns_the_three_roles_in_order_and_releases() {
    let (steps, result) = run(&[Ok(()); 6]);
    assert_eq!(
        steps,
        vec![
            SwitchStep::Activate,
            SwitchStep::Negotiate,
            SwitchStep::Assign(Role::Console),
            SwitchStep::Assign(Role::Multimedia),
            SwitchStep::Assign(Role::Communications),
            SwitchStep::Release,
        ]
    );
    assert_eq!(result, Ok(()));
}

#[test]
fn a_failed_activation_ends_the_attempt() {
    let (steps, result) = run(&[Err(-5)]);
    assert_eq!(steps, vec![SwitchStep::Activate]);
    assert_eq!(result, Err(SwitchError::Activation { code: -5 }));
}

#[test]
fn a_refused_interface_is_an_error_of_its_own() {
    let (steps, result) = run(&[Ok(()), Err(-2147467262)]);
    assert_eq!(steps, vec![SwitchStep::Activate, SwitchStep::Negotiate]);
    assert_eq!(result, Err(SwitchError::InterfaceUnavailable { code: -2147467262 }));
}

#[test]
fn a_failure_at_the_second_role_names_the_second_role() {
    let (steps, result) = run(&[Ok(()), Ok(()), Ok(()), Err(7), Ok(())]);
    assert_eq!(
        steps,
        vec![
            SwitchStep::Activate,
            SwitchStep::Negotiate,
            SwitchStep::Assign(Role::Console),
            SwitchStep::Assign(Role::Multimedia),
            SwitchStep::Release,
        ]
    );
    assert_eq!(result, Err(SwitchError::RoleSet { role: Role::Multimedia, code: 7 }));
}

#[test]
fn a_failure_at_the_first_or_the_third_role_names_that_role() {
    let (steps, result) = run(&[Ok(()), Ok(()), Err(1), Ok(())]);
    assert_eq!(steps.len(), 4);
    assert_eq!(steps[3], SwitchStep::Release);
    assert_eq!(result, Err(SwitchError::RoleSet { role: Role::Console, code: 1 }));
    let (steps, result) = run(&[Ok(()), Ok(()), Ok(()), Ok(()), Err(3), Ok(())]);
    assert_eq!(steps.len(), 6);
    assert_eq!(steps[5], SwitchStep::Release);
    assert_eq!(result, Err(SwitchError::RoleSet { role: Role::Communications, code: 3 }));
}

#[test]
fn what_the_release_returns_changes_nothing() {
    assert_eq!(run(&[Ok(()), Ok(()), Ok(()), Ok(()), Ok(()), Err(9)]).1, Ok(()));
    assert_eq!(
        run(&[Ok(()), Ok(()), Ok(()), Err(7), Err(9)]).1,
        Err(SwitchError::RoleSet { role: Role::Multimedia, code: 7 })
    );
}

#[test]
fn the_interface_is_released_once_whenever_it_was_got() {
    let all: [Result<(), i32>; 2] = [Ok(()), Err(1)];
    for a in all {
        for n in all {
            for c in all {
                for m in all {
                    for k in all {
                        let mut outcomes = vec![a];
                        if a.is_ok() {
                            outcomes.push(n);
                            if n.is_ok() {
                                outcomes.push(c);
                                if c.is_ok() {
                                    outcomes.push(m);
                                    if m.is_ok() {
                                        outcomes.push(k);
                                    }
                                }
                                outcomes.push(Ok(()));
                            }
                        }
                        let (steps, result) = run(&outcomes);
                        let releases =
                            steps.iter().filter(|s| **s == SwitchStep::Release).count();
                        let negotiated = a.is_ok() && n.is_ok();
                        assert_eq!(releases, if negotiated { 1 } else { 0 });
                        if negotiated {
                            assert_eq!(steps.last(), Some(&SwitchStep::Release));
                        }
                        assert_eq!(
                            result.is_ok(),
                            a.is_ok() && n.is_ok() && c.is_ok() && m.is_ok() && k.is_ok()
                        );
                    }
                }
            }
        }
    }
}

#[test]
fn a_finished_session_stays_finished() {
    let mut session = SwitchSession::Finished(Err(SwitchError::Activation { code: 1 }));
    session.advance(Ok(()));
    assert_eq!(session, SwitchSession::Finished(Err(SwitchError::Activation { code: 1 })));
    session.advance(Err(2));
    assert_eq!(session.pending(), SwitchStep::Done(Err(SwitchError::Activation { code: 1 })));
}

#[test]
fn a_second_attempt_makes_the_same_calls_again() {
    let first = run(&[Ok(()), Ok(()), Ok(()), Err(7), Ok(())]);
    assert_eq!(first.1, Err(SwitchError::RoleSet { role: Role::Multimedia, code: 7 }));
    let second = run(&[Ok(()); 6]);
    assert_eq!(second.0[2], SwitchStep::Assign(Role::Console));
    assert_eq!(second.1, Ok(()));
}

#[test]
fn roles_have_the_numbers_of_the_platform() {
    assert_eq!(Role::Console.number(), 0);
    assert_eq!(Role::Multimedia.number(), 1);
    assert_eq!(Role::Communications.number(), 2);
    assert_eq!(Role::Console.next(), Some(Role::Multimedia));
    assert_eq!(Role::Multimedia.next(), Some(Role::Communications));
    assert_eq!(Role::Communications.next(), None);
}

#[test]
fn a_device_has_an_id_and_a_name() {
    let device = AudioDevice { id: "{0.0.0}.{a}".to_string(), name: "Speakers".to_string() };
    assert_eq!(device.id, "{0.0.0}.{a}");
    assert_eq!(device.name, "Speakers");
}
