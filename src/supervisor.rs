//! The agent's session supervisor as a state machine: the reconnect loop, the
//! self-correcting metrics ticker and the inbound command demultiplexer. The
//! caller performs each returned action and feeds back what happened.

use vstd::prelude::*;
use crate::pty::FrameKind;
use crate::text::same_text;

verus! {

/// How long a WebSocket handshake may take, in milliseconds.
pub const DIAL_TIMEOUT_MS: u64 = 10000;

/// How long to wait after a failed dial before dialing again, in milliseconds.
pub const RECONNECT_DELAY_MS: u64 = 5000;

/// The pause before the next tick: what is left of the interval after a tick
/// that took `elapsed_ms`, or nothing where the tick took the whole interval.
pub open spec fn pause_after(interval_ms: u64, elapsed_ms: u128) -> u64 {
    if elapsed_ms >= interval_ms {
        0
    } else {
        (interval_ms - elapsed_ms) as u64
    }
}

/// The pause before the next tick, as `pause_after` states.
pub fn tick_delay(interval_ms: u64, elapsed_ms: u128) -> (r: u64)
    ensures
        r == pause_after(interval_ms, elapsed_ms),
        elapsed_ms < interval_ms ==> r + elapsed_ms == interval_ms,
        elapsed_ms >= interval_ms ==> r == 0,
{
    if elapsed_ms >= interval_ms as u128 {
        0
    } else {
        interval_ms - (elapsed_ms as u64)
    }
}

/// A kind of task that an inbound command starts.
#[derive(Debug, Clone, Copy, PartialEq, Eq, Structural)]
pub enum Task {
    Exec,
    Ping,
    Terminal,
}

/// The task named by an inbound envelope's `message` field, if any.
pub open spec fn task_named(message: Seq<char>) -> Option<Task> {
    if message == "exec"@ {
        Some(Task::Exec)
    } else if message == "ping"@ {
        Some(Task::Ping)
    } else if message == "terminal"@ {
        Some(Task::Terminal)
    } else {
        None
    }
}

/// The task named by an inbound envelope's `message` field, if any.
pub fn classify_message(message: &str) -> (r: Option<Task>)
    ensures
        r == task_named(message@),
{
    if same_text(message, "exec") {
        Some(Task::Exec)
    } else if same_text(message, "ping") {
        Some(Task::Ping)
    } else if same_text(message, "terminal") {
        Some(Task::Terminal)
    } else {
        None
    }
}

/// Where the supervisor stands.
#[derive(Debug, Clone, Copy, PartialEq, Eq, Structural)]
pub enum Phase {
    /// No session: a dial is under way or due.
    Dialing,
    /// A session was just opened and the host descriptor is being pushed.
    Announcing,
    /// The session is open and the ticker publishes snapshots.
    Publishing,
}

/// The supervisor's state.
#[derive(Debug, Clone, Copy, PartialEq, Eq, Structural)]
pub struct Supervisor {
    pub phase: Phase,
    /// Target cadence of the ticker, in milliseconds.
    pub interval_ms: u64,
    /// Whether inbound terminal requests are served.
    pub terminal_enabled: bool,
    /// Sessions opened so far (saturating).
    pub sessions: u64,
    /// Tasks started so far (saturating).
    pub tasks_started: u64,
}

/// What happened since the last action.
#[derive(Debug, Clone)]
pub enum Event {
    /// The dial failed or timed out.
    DialFailed,
    /// The dial succeeded: a session is open.
    Connected,
    /// Pushing the host descriptor ended, whether or not it was delivered.
    BasicInfoPushed,
    /// A snapshot was sent; the tick took `elapsed_ms`.
    TickSent { elapsed_ms: u128 },
    /// Sending a snapshot failed.
    SendFailed,
    /// The session's inbound stream ended.
    ReadEnded,
    /// A frame of kind `kind` arrived on the session. For a text frame,
    /// `message` is its discriminator, or `None` where the frame is not an
    /// envelope with one; other frames carry no discriminator that counts.
    Inbound { kind: FrameKind, message: Option<String> },
}

/// What the caller is to do next.
#[derive(Debug, Clone, Copy, PartialEq, Eq, Structural)]
pub enum Action {
    /// Dial the realtime endpoint, bounded by `DIAL_TIMEOUT_MS`.
    Dial,
    /// Wait `delay_ms`, then dial.
    Backoff { delay_ms: u64 },
    /// Build the host descriptor and push it.
    PushBasicInfo,
    /// Wait `delay_ms`, then sample, build a snapshot and send it.
    Tick { delay_ms: u64 },
    /// Start a detached task; it outlives the session.
    Spawn { task: Task },
    /// A terminal was requested while terminals are disabled: log it.
    RefuseTerminal,
    /// Nothing.
    Idle,
}

/// `n + 1`, saturated at `u64::MAX`.
pub open spec fn bump(n: u64) -> u64 {
    if n == u64::MAX {
        n
    } else {
        (n + 1) as u64
    }
}

impl Supervisor {
    /// A supervisor that is about to dial for the first time.
    pub fn new(interval_ms: u64, terminal_enabled: bool) -> (r: Supervisor)
        ensures
            r.phase == Phase::Dialing,
            r.interval_ms == interval_ms,
            r.terminal_enabled == terminal_enabled,
            r.sessions == 0,
            r.tasks_started == 0,
    {
        Supervisor { phase: Phase::Dialing, interval_ms, terminal_enabled, sessions: 0, tasks_started: 0 }
    }

    /// Whether a session is open.
    pub open spec fn in_session(self) -> bool {
        self.phase != Phase::Dialing
    }

    /// The state and action that follow an inbound envelope whose
    /// discriminator is `message`.
    pub open spec fn after_inbound(self, message: Option<Seq<char>>) -> (Supervisor, Action) {
        let task = match message {
            Some(m) => task_named(m),
            None => None,
        };
        if !self.in_session() {
            (self, Action::Idle)
        } else {
            match task {
                None => (self, Action::Idle),
                Some(Task::Terminal) => if self.terminal_enabled {
                    (
                        Supervisor { tasks_started: bump(self.tasks_started), ..self },
                        Action::Spawn { task: Task::Terminal },
                    )
                } else {
                    (self, Action::RefuseTerminal)
                },
                Some(t) => (
                    Supervisor { tasks_started: bump(self.tasks_started), ..self },
                    Action::Spawn { task: t },
                ),
            }
        }
    }

    /// The state and action that follow event `e`.
    pub open spec fn next(self, e: Event) -> (Supervisor, Action) {
        match e {
            Event::DialFailed => if self.phase == Phase::Dialing {
                (self, Action::Backoff { delay_ms: RECONNECT_DELAY_MS })
            } else {
                (self, Action::Idle)
            },
            Event::Connected => if self.phase == Phase::Dialing {
                (
                    Supervisor { phase: Phase::Announcing, sessions: bump(self.sessions), ..self },
                    Action::PushBasicInfo,
                )
            } else {
                (self, Action::Idle)
            },
            Event::BasicInfoPushed => if self.phase == Phase::Announcing {
                (Supervisor { phase: Phase::Publishing, ..self }, Action::Tick { delay_ms: 0 })
            } else {
                (self, Action::Idle)
            },
            Event::TickSent { elapsed_ms } => if self.phase == Phase::Publishing {
                (self, Action::Tick { delay_ms: pause_after(self.interval_ms, elapsed_ms) })
            } else {
                (self, Action::Idle)
            },
            Event::SendFailed | Event::ReadEnded => if self.in_session() {
                (Supervisor { phase: Phase::Dialing, ..self }, Action::Dial)
            } else {
                (self, Action::Idle)
            },
            Event::Inbound { kind, message } => match kind {
                FrameKind::Text => self.after_inbound(
                    match message {
                        Some(m) => Some(m@),
                        None => None,
                    },
                ),
                FrameKind::Close => if self.in_session() {
                    (Supervisor { phase: Phase::Dialing, ..self }, Action::Dial)
                } else {
                    (self, Action::Idle)
                },
                FrameKind::Binary | FrameKind::Control => (self, Action::Idle),
            },
        }
    }

    /// Advances the supervisor by one event and says what to do next.
    pub fn step(&mut self, e: Event) -> (a: Action)
        ensures
            (*final(self), a) == old(self).next(e),
    {
        match e {
            Event::DialFailed => {
                if self.phase == Phase::Dialing {
                    Action::Backoff { delay_ms: RECONNECT_DELAY_MS }
                } else {
                    Action::Idle
                }
            },
            Event::Connected => {
                if self.phase == Phase::Dialing {
                    self.phase = Phase::Announcing;
                    if self.sessions < u64::MAX {
                        self.sessions = self.sessions + 1;
                    }
                    Action::PushBasicInfo
                } else {
                    Action::Idle
                }
            },
            Event::BasicInfoPushed => {
                if self.phase == Phase::Announcing {
                    self.phase = Phase::Publishing;
                    Action::Tick { delay_ms: 0 }
                } else {
                    Action::Idle
                }
            },
            Event::TickSent { elapsed_ms } => {
                if self.phase == Phase::Publishing {
                    Action::Tick { delay_ms: tick_delay(self.interval_ms, elapsed_ms) }
                } else {
                    Action::Idle
                }
            },
            Event::SendFailed | Event::ReadEnded => {
                if self.phase != Phase::Dialing {
                    self.phase = Phase::Dialing;
                    Action::Dial
                } else {
                    Action::Idle
                }
            },
            Event::Inbound { kind, message } => {
                if kind == FrameKind::Close {
                    if self.phase != Phase::Dialing {
                        self.phase = Phase::Dialing;
                        return Action::Dial;
                    }
                    return Action::Idle;
                }
                if kind != FrameKind::Text {
                    return Action::Idle;
                }
                let task = match &message {
                    Some(m) => classify_message(m.as_str()),
                    None => None,
                };
                if self.phase == Phase::Dialing {
                    return Action::Idle;
                }
                match task {
                    None => Action::Idle,
                    Some(t) => {
                        if t == Task::Terminal && !self.terminal_enabled {
                            Action::RefuseTerminal
                        } else {
                            if self.tasks_started < u64::MAX {
                                self.tasks_started = self.tasks_started + 1;
                            }
                            Action::Spawn { task: t }
                        }
                    },
                }
            },
        }
    }
}

/// After each tick, the ticker pauses for what is left of the interval when the
/// tick took less than the interval, and starts the next tick at once otherwise.
pub proof fn lemma_tick_pause(s: Supervisor, elapsed_ms: u128)
    requires
        s.phase == Phase::Publishing,
    ensures
        elapsed_ms < s.interval_ms ==> s.next(Event::TickSent { elapsed_ms }) == (
        s,
        Action::Tick { delay_ms: (s.interval_ms - elapsed_ms) as u64 },
        ),
        elapsed_ms >= s.interval_ms ==> s.next(Event::TickSent { elapsed_ms }) == (
        s,
        Action::Tick { delay_ms: 0 },
        ),
{
}

/// An inbound text frame that is not an envelope, or whose discriminator
/// names no task, leaves the supervisor's state exactly as it was and asks
/// for nothing.
pub proof fn lemma_unknown_envelope_ignored(s: Supervisor, message: Option<String>)
    requires
        match message {
            Some(m) => task_named(m@) is None,
            None => true,
        },
    ensures
        s.next(Event::Inbound { kind: FrameKind::Text, message }) == (s, Action::Idle),
{
}

/// Binary, ping and pong frames are ignored whatever they hold, and a close
/// frame ends the session like the end of the stream.
pub proof fn lemma_non_text_frames(s: Supervisor, message: Option<String>)
    ensures
        s.next(Event::Inbound { kind: FrameKind::Binary, message }) == (s, Action::Idle),
        s.next(Event::Inbound { kind: FrameKind::Control, message }) == (s, Action::Idle),
        s.next(Event::Inbound { kind: FrameKind::Close, message }) == s.next(Event::ReadEnded),
{
}

/// A failed send ends the session and asks for a new dial; started tasks are
/// left alone, and the next successful dial opens a new session.
pub proof fn lemma_send_failure_reconnects(s: Supervisor)
    requires
        s.in_session(),
    ensures
        s.next(Event::SendFailed) == (Supervisor { phase: Phase::Dialing, ..s }, Action::Dial),
        s.next(Event::SendFailed).0.tasks_started == s.tasks_started,
        s.next(Event::SendFailed).0.next(Event::Connected) == (
        Supervisor { phase: Phase::Announcing, sessions: bump(s.sessions), ..s },
        Action::PushBasicInfo,
        ),
{
}

} // verus!
