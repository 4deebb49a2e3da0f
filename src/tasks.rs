//! Control-plane task records: network probes and shell commands. The probes
//! and the child process run outside; these functions decide what is run and
//! build the records that are sent back.

use vstd::prelude::*;
use vstd::string::*;
use crate::text::same_text;

verus! {

/// An inbound probe request.
#[derive(Debug, Clone)]
pub struct PingEvent {
    pub message: String,
    pub ping_task_id: u64,
    pub ping_type: String,
    pub ping_target: String,
}

/// The record sent back after a probe; `value` is the round trip in
/// milliseconds, or `None` where the target was not reached.
#[derive(Debug, Clone)]
pub struct PingEventCallback {
    pub type_str: String,
    pub task_id: u64,
    pub ping_type: String,
    pub value: Option<i64>,
    pub finished_at: String,
}

/// A kind of probe.
#[derive(Debug, Clone, Copy, PartialEq, Eq, Structural)]
pub enum ProbeKind {
    Icmp,
    Tcp,
    Http,
}

/// The probe kind named by `t`, if any.
pub open spec fn probe_kind_named(t: Seq<char>) -> Option<ProbeKind> {
    if t == "icmp"@ {
        Some(ProbeKind::Icmp)
    } else if t == "tcp"@ {
        Some(ProbeKind::Tcp)
    } else if t == "http"@ {
        Some(ProbeKind::Http)
    } else {
        None
    }
}

/// The name under which a probe kind is reported.
pub open spec fn probe_kind_text(k: ProbeKind) -> Seq<char> {
    match k {
        ProbeKind::Icmp => "icmp"@,
        ProbeKind::Tcp => "tcp"@,
        ProbeKind::Http => "http"@,
    }
}

/// Why a probe could not be run at all. Such a probe sends no record back.
#[derive(Debug, Clone, Copy, PartialEq, Eq, Structural)]
pub enum ProbeError {
    /// The probe type is none of `icmp`, `tcp` and `http`.
    UnsupportedType,
    /// An ICMP probe was asked of a process that may not open raw sockets.
    Unprivileged,
}

/// The probe kind that `ping_type` names, if any.
pub fn probe_kind(ping_type: &str) -> (r: Option<ProbeKind>)
    ensures
        r == probe_kind_named(ping_type@),
{
    if same_text(ping_type, "icmp") {
        Some(ProbeKind::Icmp)
    } else if same_text(ping_type, "tcp") {
        Some(ProbeKind::Tcp)
    } else if same_text(ping_type, "http") {
        Some(ProbeKind::Http)
    } else {
        None
    }
}

/// Which probe to run for `event`. An ICMP probe needs raw sockets:
/// `may_open_raw_sockets` says whether this process may open them.
pub fn plan_probe(event: &PingEvent, may_open_raw_sockets: bool) -> (r: Result<ProbeKind, ProbeError>)
    ensures
        probe_kind_named(event.ping_type@) is None <==> r == Err::<ProbeKind, ProbeError>(
            ProbeError::UnsupportedType,
        ),
        probe_kind_named(event.ping_type@) == Some(ProbeKind::Icmp) && !may_open_raw_sockets
            <==> r == Err::<ProbeKind, ProbeError>(ProbeError::Unprivileged),
        r is Ok ==> Some(r->Ok_0) == probe_kind_named(event.ping_type@),
{
    match probe_kind(event.ping_type.as_str()) {
        None => Err(ProbeError::UnsupportedType),
        Some(ProbeKind::Icmp) => {
            if may_open_raw_sockets {
                Ok(ProbeKind::Icmp)
            } else {
                Err(ProbeError::Unprivileged)
            }
        },
        Some(k) => Ok(k),
    }
}

/// How a probe that ran went.
#[derive(Debug, Clone, Copy, PartialEq, Eq, Structural)]
pub enum ProbeOutcome {
    /// The target answered after `rtt_ms` milliseconds.
    Reached { rtt_ms: u128 },
    /// The target was not reached: timeout, refusal, an error status, or no reply.
    Unreached,
}

/// What an ICMP exchange gave: whether the request went out, and the reply
/// that came back in time, if any, with whether it is an echo reply.
pub fn icmp_outcome(sent: bool, reply: Option<(bool, u128)>) -> (r: ProbeOutcome)
    ensures
        r == (match reply {
            Some((true, rtt)) if sent => ProbeOutcome::Reached { rtt_ms: rtt },
            _ => ProbeOutcome::Unreached,
        }),
{
    if !sent {
        return ProbeOutcome::Unreached;
    }
    match reply {
        Some((is_echo_reply, rtt)) => {
            if is_echo_reply {
                ProbeOutcome::Reached { rtt_ms: rtt }
            } else {
                ProbeOutcome::Unreached
            }
        },
        None => ProbeOutcome::Unreached,
    }
}

/// The round trip reported for an outcome: the milliseconds where the target
/// was reached and they fit in an `i64`, `None` otherwise.
pub open spec fn reported_value(o: ProbeOutcome) -> Option<i64> {
    match o {
        ProbeOutcome::Reached { rtt_ms } => if rtt_ms <= i64::MAX {
            Some(rtt_ms as i64)
        } else {
            None
        },
        ProbeOutcome::Unreached => None,
    }
}

fn kind_text(k: ProbeKind) -> (r: String)
    ensures
        r@ == probe_kind_text(k),
{
    match k {
        ProbeKind::Icmp => String::from_str("icmp"),
        ProbeKind::Tcp => String::from_str("tcp"),
        ProbeKind::Http => String::from_str("http"),
    }
}

/// The record sent back for probe `task_id` of kind `kind`.
pub fn probe_result(task_id: u64, kind: ProbeKind, outcome: ProbeOutcome, finished_at: String) -> (r:
    PingEventCallback)
    ensures
        r.type_str@ == "ping_result"@,
        r.task_id == task_id,
        r.ping_type@ == probe_kind_text(kind),
        r.value == reported_value(outcome),
        r.finished_at == finished_at,
{
    let value = match outcome {
        ProbeOutcome::Reached { rtt_ms } => {
            if rtt_ms <= i64::MAX as u128 {
                Some(rtt_ms as i64)
            } else {
                None
            }
        },
        ProbeOutcome::Unreached => None,
    };
    PingEventCallback {
        type_str: String::from_str("ping_result"),
        task_id,
        ping_type: kind_text(kind),
        value,
        finished_at,
    }
}

/// The identifier carried by ICMP echo requests.
pub const ECHO_IDENTIFIER: u16 = 42;

/// The sequence number carried by ICMP echo requests.
pub const ECHO_SEQUENCE: u16 = 0;

/// The fixed 56-byte payload of ICMP echo requests.
pub open spec fn echo_payload_bytes() -> Seq<u8> {
    seq![
        0x20u8, 0x20u8, 0x75u8, 0x73u8, 0x74u8, 0x20u8, 0x61u8, 0x20u8, 0x66u8, 0x6cu8, 0x65u8, 0x73u8, 0x68u8, 0x20u8,
        0x77u8, 0x6fu8, 0x75u8, 0x6eu8, 0x64u8, 0x20u8, 0x20u8, 0x74u8, 0x69u8, 0x73u8, 0x20u8, 0x62u8, 0x75u8, 0x74u8,
        0x20u8, 0x61u8, 0x20u8, 0x73u8, 0x63u8, 0x72u8, 0x61u8, 0x74u8, 0x63u8, 0x68u8, 0x20u8, 0x20u8, 0x6bu8, 0x6eu8,
        0x69u8, 0x67u8, 0x68u8, 0x74u8, 0x73u8, 0x20u8, 0x6fu8, 0x66u8, 0x20u8, 0x6eu8, 0x69u8, 0x20u8, 0x20u8, 0x20u8,
    ]
}

/// The fixed payload of ICMP echo requests.
pub fn echo_payload() -> (r: Vec<u8>)
    ensures
        r@ == echo_payload_bytes(),
        r@.len() == 56,
{
    let r: Vec<u8> = vec![
        0x20, 0x20, 0x75, 0x73, 0x74, 0x20, 0x61, 0x20, 0x66, 0x6c, 0x65, 0x73, 0x68, 0x20,
        0x77, 0x6f, 0x75, 0x6e, 0x64, 0x20, 0x20, 0x74, 0x69, 0x73, 0x20, 0x62, 0x75, 0x74,
        0x20, 0x61, 0x20, 0x73, 0x63, 0x72, 0x61, 0x74, 0x63, 0x68, 0x20, 0x20, 0x6b, 0x6e,
        0x69, 0x67, 0x68, 0x74, 0x73, 0x20, 0x6f, 0x66, 0x20, 0x6e, 0x69, 0x20, 0x20, 0x20,
    ];
    assert(r@ =~= echo_payload_bytes());
    r
}

/// An inbound shell command request.
#[derive(Debug, Clone)]
pub struct RemoteExec {
    pub message: String,
    pub task_id: String,
    pub command: String,
}

/// The record posted back after a shell command finished.
#[derive(Debug, Clone)]
pub struct RemoteExecCallback {
    pub task_id: String,
    pub result: String,
    pub exit_code: i32,
    pub finished_at: String,
}

/// The record for command `task_id` whose child wrote `stdout` and `stderr`
/// and ended with `code` (none where a signal ended it).
pub fn exec_result(task_id: String, stdout: &str, stderr: &str, code: Option<i32>, finished_at: String) -> (r:
    RemoteExecCallback)
    ensures
        r.task_id == task_id,
        r.result@ == stdout@ + stderr@,
        r.exit_code == (match code {
            Some(c) => c,
            None => 1,
        }),
        r.finished_at == finished_at,
{
    let mut result = String::from_str(stdout);
    result.append(stderr);
    let exit_code = match code {
        Some(c) => c,
        None => 1,
    };
    RemoteExecCallback { task_id, result, exit_code, finished_at }
}

} // verus!
