use deployer::heartbeat::{
    replay_heartbeat, HeartBeat, HeartbeatAction, HeartbeatEvent, INITIAL_BUDGET_SECS,
    MAX_EXTENSIONS, RENEWED_BUDGET_SECS,
};

#[test]
fn completion_before_first_tick_extends_nothing() {
    let state = replay_heartbeat(&vec![HeartbeatEvent::WorkCompleted]);
    assert_eq!(state.extensions, 0);
    assert!(state.done);
}

#[test]
fn eleventh_tick_gives_up_without_extending() {
    let mut state = HeartBeat::new();
    for _ in 0..10 {
        let action = state.on_event(HeartbeatEvent::TimerFired);
        assert_eq!(action, HeartbeatAction::Extend);
    }
    assert_eq!(state.extensions, 10);
    assert!(!state.done);

    let action = state.on_event(HeartbeatEvent::TimerFired);
    assert_eq!(action, HeartbeatAction::GiveUp);
    assert_eq!(state.extensions, MAX_EXTENSIONS);
    assert!(state.done);
}

#[test]
fn replay_outliving_eleven_ticks_caps_at_ten() {
    let events = vec![HeartbeatEvent::TimerFired; 14];
    let state = replay_heartbeat(&events);
    assert_eq!(state.extensions, 10);
    assert!(state.done);
}

#[test]
fn first_delay_uses_initial_budget_then_renewed() {
    let mut state = HeartBeat::new();
    assert_eq!(state.budget_secs, INITIAL_BUDGET_SECS);
    assert_eq!(state.next_delay_secs(), 230);

    let action = state.on_event(HeartbeatEvent::TimerFired);
    assert_eq!(action, HeartbeatAction::Extend);
    assert_eq!(state.budget_secs, RENEWED_BUDGET_SECS);
    assert_eq!(state.next_delay_secs(), 50);
}

#[test]
fn completion_after_some_ticks_stops() {
    let events = vec![
        HeartbeatEvent::TimerFired,
        HeartbeatEvent::TimerFired,
        HeartbeatEvent::WorkCompleted,
        HeartbeatEvent::TimerFired,
    ];
    let state = replay_heartbeat(&events);
    assert_eq!(state.extensions, 2);
    assert!(state.done);
}
