use komari_monitor_rs::tasks::{
    echo_payload, exec_result, icmp_outcome, plan_probe, probe_kind, probe_result, PingEvent,
    ProbeError, ProbeKind, ProbeOutcome,
};

fn event(kind: &str) -> PingEvent {
    PingEvent {
        message: "ping".to_string(),
        ping_task_id: 7,
        ping_type: kind.to_string(),
        ping_target: "127.0.0.1:1".to_string(),
    }
}

#[test]
fn tcp_probe_to_closed_port_reports_null_value() {
    let kind = plan_probe(&event("tcp"), false).unwrap();
    assert_eq!(kind, ProbeKind::Tcp);
    let r = probe_result(7, kind, ProbeOutcome::Unreached, "2024-01-01T00:00:00Z".to_string());
    assert_eq!(r.type_str, "ping_result");
    assert_eq!(r.task_id, 7);
    assert_eq!(r.ping_type, "tcp");
    assert_eq!(r.value, None);
    assert_eq!(r.finished_at, "2024-01-01T00:00:00Z");
}

#[test]
fn reached_probe_reports_round_trip() {
    let r = probe_result(9, ProbeKind::Http, ProbeOutcome::Reached { rtt_ms: 42 }, String::new());
    assert_eq!(r.ping_type, "http");
    assert_eq!(r.value, Some(42));
    let r = probe_result(9, ProbeKind::Icmp, ProbeOutcome::Reached { rtt_ms: u128::MAX }, String::new());
    assert_eq!(r.ping_type, "icmp");
    assert_eq!(r.value, None);
}

#[test]
fn unsupported_probe_type_is_an_error() {
    assert_eq!(plan_probe(&event("udp"), true).unwrap_err(), ProbeError::UnsupportedType);
    assert_eq!(probe_kind("TCP"), None);
}

#[test]
fn icmp_needs_raw_sockets() {
    assert_eq!(plan_probe(&event("icmp"), false).unwrap_err(), ProbeError::Unprivileged);
    assert_eq!(plan_probe(&event("icmp"), true).unwrap(), ProbeKind::Icmp);
    assert_eq!(plan_probe(&event("http"), false).unwrap(), ProbeKind::Http);
}

#[test]
fn icmp_outcomes() {
    assert_eq!(icmp_outcome(false, None), ProbeOutcome::Unreached);
    assert_eq!(icmp_outcome(false, Some((true, 5))), ProbeOutcome::Unreached);
    assert_eq!(icmp_outcome(true, None), ProbeOutcome::Unreached);
    assert_eq!(icmp_outcome(true, Some((false, 5))), ProbeOutcome::Unreached);
    assert_eq!(icmp_outcome(true, Some((true, 5))), ProbeOutcome::Reached { rtt_ms: 5 });
}

#[test]
fn echo_payload_is_fixed() {
    let p = echo_payload();
    assert_eq!(p.len(), 56);
    assert_eq!(&p[..4], &[0x20, 0x20, 0x75, 0x73]);
}

#[test]
fn exec_result_concatenates_output_and_keeps_exit_code() {
    let r = exec_result("e1".to_string(), "hi\n", "", Some(3), "t".to_string());
    assert_eq!(r.task_id, "e1");
    assert_eq!(r.result, "hi\n");
    assert_eq!(r.exit_code, 3);
    assert_eq!(r.finished_at, "t");
}

#[test]
fn exec_result_without_code_reports_one() {
    let r = exec_result("e2".to_string(), "out", "err", None, String::new());
    assert_eq!(r.result, "outerr");
    assert_eq!(r.exit_code, 1);
}
