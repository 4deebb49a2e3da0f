use komari_monitor_rs::host::{cpu_info_without_usage, os_info, parses_as_u32, realtime_process, trace_ip};

#[test]
fn u32_text_values() {
    assert!(parses_as_u32("1"));
    assert!(parses_as_u32("+42"));
    assert!(parses_as_u32("0004294967295"));
    assert!(!parses_as_u32("4294967296"));
    assert!(!parses_as_u32(""));
    assert!(!parses_as_u32("+"));
    assert!(!parses_as_u32("-1"));
    assert!(!parses_as_u32("12a"));
    assert!(!parses_as_u32("self"));
}

#[test]
fn process_count_keeps_numeric_entries() {
    let names: Vec<String> =
        ["1", "self", "42", "sys", "99999999999", "7"].iter().map(|s| s.to_string()).collect();
    assert_eq!(realtime_process(&names), 3);
    assert_eq!(realtime_process(&Vec::new()), 0);
}

#[test]
fn cpu_summary_dedups_and_trims() {
    let brands: Vec<String> = [" Intel Xeon", "AMD EPYC", " Intel Xeon", "AMD EPYC "]
        .iter()
        .map(|s| s.to_string())
        .collect();
    let c = cpu_info_without_usage(&brands);
    assert_eq!(c.cores, 4);
    assert_eq!(c.name, "Intel Xeon, AMD EPYC, AMD EPYC");
    let c = cpu_info_without_usage(&Vec::new());
    assert_eq!((c.cores, c.name.as_str()), (0, ""));
}

#[test]
fn os_summary_fills_unknowns() {
    let o = os_info(Some("Debian".to_string()), Some("12".to_string()), None, "kvm".to_string());
    assert_eq!(o.os, "Debian 12");
    assert_eq!(o.version, "Unknown");
    assert_eq!(o.virtualization, "kvm");
    let o = os_info(None, None, Some("6.1".to_string()), "none".to_string());
    assert_eq!(o.os, " ");
    assert_eq!(o.version, "6.1");
}

#[test]
fn trace_address_is_first_ip_line() {
    let body = "fl=1\r\nh=www.cloudflare.com\r\nip=203.0.113.7\r\nts=1\r\nip=1.1.1.1\n";
    assert_eq!(trace_ip(body), "203.0.113.7");
    assert_eq!(trace_ip("h=x\nip=2001:db8::1"), "2001:db8::1");
    assert_eq!(trace_ip("h=x\nvip=1\n"), "");
    assert_eq!(trace_ip(""), "");
    assert_eq!(trace_ip("ip=1.2.ip=3"), "1.2.3");
}

#[test]
fn cpu_summary_trims_unicode_whitespace() {
    let brands = vec!["\u{3000}Ampere Altra\u{a0}\t".to_string()];
    assert_eq!(cpu_info_without_usage(&brands).name, "Ampere Altra");
}
