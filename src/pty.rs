//! The terminal bridge: how frames from the terminal socket are handled, and
//! the bridge's lifecycle from start to teardown.

use vstd::prelude::*;

verus! {

/// An inbound terminal request.
#[derive(Debug, Clone)]
pub struct TerminalEvent {
    pub message: String,
    pub request_id: String,
}

/// Initial terminal height, in rows.
pub const INITIAL_ROWS: u16 = 24;

/// Initial terminal width, in columns.
pub const INITIAL_COLS: u16 = 80;

/// The kind of a frame read from the terminal socket.
#[derive(Debug, Clone, Copy, PartialEq, Eq, Structural)]
pub enum FrameKind {
    Text,
    Binary,
    Close,
    /// A ping or pong frame.
    Control,
}

/// What to do with one frame from the terminal socket.
#[derive(Debug, Clone, Copy, PartialEq, Eq, Structural)]
pub enum PtyInput {
    /// A heartbeat: drop it.
    Discard,
    /// Resize the terminal.
    Resize { cols: u16, rows: u16 },
    /// Write the frame's bytes to the terminal.
    Write,
    /// The peer closed: end the bridge.
    Close,
    /// Nothing to do.
    Ignore,
}

/// What to do with a frame of kind `kind`. For a text frame, `heartbeat` says
/// whether it parses as a heartbeat message and `resize` holds the size it
/// asks for where it parses as a resize message; heartbeats win over resizes,
/// and text that is neither goes to the terminal as input.
pub open spec fn pty_input(kind: FrameKind, heartbeat: bool, resize: Option<(u16, u16)>) -> PtyInput {
    match kind {
        FrameKind::Text => if heartbeat {
            PtyInput::Discard
        } else {
            match resize {
                Some((cols, rows)) => PtyInput::Resize { cols, rows },
                None => PtyInput::Write,
            }
        },
        FrameKind::Binary => PtyInput::Write,
        FrameKind::Close => PtyInput::Close,
        FrameKind::Control => PtyInput::Ignore,
    }
}

/// What to do with one frame from the terminal socket, as `pty_input` states.
pub fn handle_ws_message(kind: FrameKind, heartbeat: bool, resize: Option<(u16, u16)>) -> (r: PtyInput)
    ensures
        r == pty_input(kind, heartbeat, resize),
{
    match kind {
        FrameKind::Text => {
            if heartbeat {
                PtyInput::Discard
            } else {
                match resize {
                    Some((cols, rows)) => PtyInput::Resize { cols, rows },
                    None => PtyInput::Write,
                }
            }
        },
        FrameKind::Binary => PtyInput::Write,
        FrameKind::Close => PtyInput::Close,
        FrameKind::Control => PtyInput::Ignore,
    }
}

/// Where a bridge stands.
#[derive(Debug, Clone, Copy, PartialEq, Eq, Structural)]
pub enum BridgePhase {
    /// The terminal and its process are being set up.
    Starting,
    /// Bytes flow both ways.
    Running,
    /// One direction ended: the process is being killed and reaped.
    Draining,
    /// The process is reaped; the bridge is over.
    Closed,
}

/// What happened to a bridge.
#[derive(Debug, Clone, Copy, PartialEq, Eq, Structural)]
pub enum BridgeEvent {
    /// The terminal opened and its process started.
    Opened,
    /// Opening the terminal or starting its process failed.
    SetupFailed,
    /// The terminal-to-socket direction ended: end of output, a read error,
    /// or a failed send.
    OutputEnded,
    /// The socket-to-terminal direction ended: a close frame, a read error,
    /// or a failed write.
    InputEnded,
    /// The process was killed and waited for.
    ChildReaped,
}

/// What the bridge's driver is to do next.
#[derive(Debug, Clone, Copy, PartialEq, Eq, Structural)]
pub enum BridgeAction {
    /// Start both directions.
    StartPumps,
    /// Close the terminal socket; the parent session is not touched.
    CloseSocket,
    /// Kill the process and wait for it.
    KillChild,
    /// Return.
    Finish,
    /// Nothing.
    Idle,
}

/// The phase and action that follow event `e` in phase `p`.
pub open spec fn bridge_next(p: BridgePhase, e: BridgeEvent) -> (BridgePhase, BridgeAction) {
    match (p, e) {
        (BridgePhase::Starting, BridgeEvent::Opened) => (BridgePhase::Running, BridgeAction::StartPumps),
        (BridgePhase::Starting, BridgeEvent::SetupFailed) => (
            BridgePhase::Closed,
            BridgeAction::CloseSocket,
        ),
        (BridgePhase::Running, BridgeEvent::OutputEnded) => (
            BridgePhase::Draining,
            BridgeAction::KillChild,
        ),
        (BridgePhase::Running, BridgeEvent::InputEnded) => (
            BridgePhase::Draining,
            BridgeAction::KillChild,
        ),
        (BridgePhase::Draining, BridgeEvent::ChildReaped) => (BridgePhase::Closed, BridgeAction::Finish),
        _ => (p, BridgeAction::Idle),
    }
}

/// Advances a bridge by one event and says what to do next.
pub fn bridge_step(p: &mut BridgePhase, e: BridgeEvent) -> (a: BridgeAction)
    ensures
        (*final(p), a) == bridge_next(*old(p), e),
{
    match (*p, e) {
        (BridgePhase::Starting, BridgeEvent::Opened) => {
            *p = BridgePhase::Running;
            BridgeAction::StartPumps
        },
        (BridgePhase::Starting, BridgeEvent::SetupFailed) => {
            *p = BridgePhase::Closed;
            BridgeAction::CloseSocket
        },
        (BridgePhase::Running, BridgeEvent::OutputEnded) => {
            *p = BridgePhase::Draining;
            BridgeAction::KillChild
        },
        (BridgePhase::Running, BridgeEvent::InputEnded) => {
            *p = BridgePhase::Draining;
            BridgeAction::KillChild
        },
        (BridgePhase::Draining, BridgeEvent::ChildReaped) => {
            *p = BridgePhase::Closed;
            BridgeAction::Finish
        },
        _ => BridgeAction::Idle,
    }
}

/// A running bridge closes only through draining: the first event that ends a
/// direction asks for the process to be killed, and the bridge is closed only
/// once the process has been reaped.
pub proof fn lemma_bridge_drains_before_close(e: BridgeEvent)
    ensures
        bridge_next(BridgePhase::Running, e).0 != BridgePhase::Closed,
        bridge_next(BridgePhase::Running, e).0 == BridgePhase::Draining ==> bridge_next(
            BridgePhase::Running,
            e,
        ).1 == BridgeAction::KillChild,
        bridge_next(BridgePhase::Draining, e).0 == BridgePhase::Closed <==> e
            == BridgeEvent::ChildReaped,
{
}

} // verus!
