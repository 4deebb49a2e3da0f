use komari_monitor_rs::pty::{
    bridge_step, handle_ws_message, BridgeAction, BridgeEvent, BridgePhase, FrameKind, PtyInput,
};

#[test]
fn resize_frame_resizes() {
    assert_eq!(
        handle_ws_message(FrameKind::Text, false, Some((120, 40))),
        PtyInput::Resize { cols: 120, rows: 40 }
    );
}

#[test]
fn frame_handling() {
    assert_eq!(handle_ws_message(FrameKind::Text, true, Some((1, 1))), PtyInput::Discard);
    assert_eq!(handle_ws_message(FrameKind::Text, false, None), PtyInput::Write);
    assert_eq!(handle_ws_message(FrameKind::Binary, false, None), PtyInput::Write);
    assert_eq!(handle_ws_message(FrameKind::Close, false, None), PtyInput::Close);
    assert_eq!(handle_ws_message(FrameKind::Control, false, None), PtyInput::Ignore);
}

#[test]
fn bridge_lifecycle() {
    let mut p = BridgePhase::Starting;
    assert_eq!(bridge_step(&mut p, BridgeEvent::ChildReaped), BridgeAction::Idle);
    assert_eq!(bridge_step(&mut p, BridgeEvent::Opened), BridgeAction::StartPumps);
    assert_eq!(p, BridgePhase::Running);
    assert_eq!(bridge_step(&mut p, BridgeEvent::InputEnded), BridgeAction::KillChild);
    assert_eq!(p, BridgePhase::Draining);
    assert_eq!(bridge_step(&mut p, BridgeEvent::OutputEnded), BridgeAction::Idle);
    assert_eq!(bridge_step(&mut p, BridgeEvent::ChildReaped), BridgeAction::Finish);
    assert_eq!(p, BridgePhase::Closed);
}

#[test]
fn bridge_setup_failure_closes_socket() {
    let mut p = BridgePhase::Starting;
    assert_eq!(bridge_step(&mut p, BridgeEvent::SetupFailed), BridgeAction::CloseSocket);
    assert_eq!(p, BridgePhase::Closed);
}
