use komari_monitor_rs::pty::FrameKind;
use komari_monitor_rs::supervisor::{
    classify_message, tick_delay, Action, Event, Phase, Supervisor, Task, RECONNECT_DELAY_MS,
};

fn publishing(interval_ms: u64, terminal: bool) -> Supervisor {
    let mut s = Supervisor::new(interval_ms, terminal);
    assert_eq!(s.step(Event::Connected), Action::PushBasicInfo);
    assert_eq!(s.step(Event::BasicInfoPushed), Action::Tick { delay_ms: 0 });
    assert_eq!(s.phase, Phase::Publishing);
    s
}

#[test]
fn slow_tick_starts_next_at_once_and_fast_tick_sleeps_the_rest() {
    let mut s = publishing(1000, false);
    assert_eq!(s.step(Event::TickSent { elapsed_ms: 1200 }), Action::Tick { delay_ms: 0 });
    assert_eq!(s.step(Event::TickSent { elapsed_ms: 200 }), Action::Tick { delay_ms: 800 });
}

#[test]
fn tick_delay_values() {
    assert_eq!(tick_delay(1000, 0), 1000);
    assert_eq!(tick_delay(1000, 999), 1);
    assert_eq!(tick_delay(1000, 1000), 0);
    assert_eq!(tick_delay(1000, u128::MAX), 0);
    assert_eq!(tick_delay(0, 0), 0);
}

#[test]
fn failed_dial_backs_off_then_dials() {
    let mut s = Supervisor::new(1000, false);
    assert_eq!(s.step(Event::DialFailed), Action::Backoff { delay_ms: RECONNECT_DELAY_MS });
    assert_eq!(RECONNECT_DELAY_MS, 5000);
    assert_eq!(s.phase, Phase::Dialing);
    assert_eq!(s.step(Event::Connected), Action::PushBasicInfo);
    assert_eq!(s.sessions, 1);
}

#[test]
fn send_failure_reconnects_without_cancelling_tasks() {
    let mut s = publishing(1000, false);
    let spawned = s.step(Event::Inbound { kind: FrameKind::Text, message: Some("exec".to_string()) });
    assert_eq!(spawned, Action::Spawn { task: Task::Exec });
    assert_eq!(s.tasks_started, 1);
    assert_eq!(s.step(Event::SendFailed), Action::Dial);
    assert_eq!(s.phase, Phase::Dialing);
    assert_eq!(s.tasks_started, 1);
    assert_eq!(s.step(Event::Connected), Action::PushBasicInfo);
    assert_eq!(s.sessions, 2);
}

#[test]
fn read_end_reconnects() {
    let mut s = publishing(1000, false);
    assert_eq!(s.step(Event::ReadEnded), Action::Dial);
    assert_eq!(s.phase, Phase::Dialing);
}

#[test]
fn unknown_envelope_leaves_state_unchanged() {
    let mut s = publishing(1000, true);
    let before = s;
    assert_eq!(s.step(Event::Inbound { kind: FrameKind::Text, message: Some("upgrade".to_string()) }), Action::Idle);
    assert_eq!(s, before);
    assert_eq!(s.step(Event::Inbound { kind: FrameKind::Text, message: None }), Action::Idle);
    assert_eq!(s, before);
}

#[test]
fn known_envelopes_spawn_tasks() {
    let mut s = publishing(1000, true);
    assert_eq!(s.step(Event::Inbound { kind: FrameKind::Text, message: Some("ping".to_string()) }), Action::Spawn { task: Task::Ping });
    assert_eq!(
        s.step(Event::Inbound { kind: FrameKind::Text, message: Some("terminal".to_string()) }),
        Action::Spawn { task: Task::Terminal }
    );
    assert_eq!(s.tasks_started, 2);
}

#[test]
fn terminal_request_refused_when_disabled() {
    let mut s = publishing(1000, false);
    let before = s;
    assert_eq!(s.step(Event::Inbound { kind: FrameKind::Text, message: Some("terminal".to_string()) }), Action::RefuseTerminal);
    assert_eq!(s, before);
}

#[test]
fn classify_message_values() {
    assert_eq!(classify_message("exec"), Some(Task::Exec));
    assert_eq!(classify_message("ping"), Some(Task::Ping));
    assert_eq!(classify_message("terminal"), Some(Task::Terminal));
    assert_eq!(classify_message("Exec"), None);
    assert_eq!(classify_message(""), None);
}

#[test]
fn non_text_frames_are_ignored() {
    let mut s = publishing(1000, true);
    let before = s;
    let exec = || Some("exec".to_string());
    assert_eq!(s.step(Event::Inbound { kind: FrameKind::Binary, message: exec() }), Action::Idle);
    assert_eq!(s.step(Event::Inbound { kind: FrameKind::Control, message: exec() }), Action::Idle);
    assert_eq!(s, before);
}

#[test]
fn close_frame_ends_session() {
    let mut s = publishing(1000, false);
    assert_eq!(s.step(Event::Inbound { kind: FrameKind::Close, message: None }), Action::Dial);
    assert_eq!(s.phase, Phase::Dialing);
}
