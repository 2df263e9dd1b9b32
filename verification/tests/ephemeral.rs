use apple_intelligence::ephemeral::{
    ephemeral_step, EphemeralAction, EphemeralEvent, EphemeralState,
};

type State = EphemeralState<String, String>;
type Event = EphemeralEvent<String, String>;

#[test]
fn created_session_runs_then_closes_then_returns() {
    let (s, a) = ephemeral_step(State::Creating, Event::Created(Ok(7)));
    assert!(matches!(a, EphemeralAction::Run(7)));
    let (s, a) = ephemeral_step(s, Event::Ran(Err("boom".to_string())));
    assert!(matches!(a, EphemeralAction::Close(7)));
    let (s, a) = ephemeral_step(s, Event::Closed);
    assert!(matches!(s, EphemeralState::Done));
    match a {
        EphemeralAction::Return(Err(e)) => assert_eq!(e, "boom"),
        _ => panic!("expected the work's error"),
    }
}

#[test]
fn work_result_survives_closing() {
    let (s, _) = ephemeral_step(State::Creating, Event::Created(Ok(1)));
    let (s, _) = ephemeral_step(s, Event::Ran(Ok("hello".to_string())));
    let (_, a) = ephemeral_step(s, Event::Closed);
    match a {
        EphemeralAction::Return(Ok(text)) => assert_eq!(text, "hello"),
        _ => panic!("expected the work's result"),
    }
}

#[test]
fn failed_creation_returns_at_once() {
    let (s, a) = ephemeral_step(State::Creating, Event::Created(Err("no model".to_string())));
    assert!(matches!(s, EphemeralState::Done));
    match a {
        EphemeralAction::Return(Err(e)) => assert_eq!(e, "no model"),
        _ => panic!("expected the creation error"),
    }
}

#[test]
fn stray_events_change_nothing() {
    let (s, a) = ephemeral_step(State::Creating, Event::Closed);
    assert!(matches!(s, EphemeralState::Creating));
    assert!(matches!(a, EphemeralAction::Wait));
    let (s, a) = ephemeral_step(State::Done, Event::Ran(Ok("late".to_string())));
    assert!(matches!(s, EphemeralState::Done));
    assert!(matches!(a, EphemeralAction::Wait));
}
