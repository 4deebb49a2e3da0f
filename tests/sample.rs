use komari_monitor_rs::sample::{
    disk_total, filter_disks, mem_info_without_usage, rate_per_second, realtime_connections,
    realtime_cpu, realtime_disk, realtime_mem, realtime_network, realtime_swap, virtual_interface,
    DiskSample, InterfaceSample,
};

fn iface(name: &str, tx: u64, rx: u64) -> InterfaceSample {
    InterfaceSample {
        name: name.to_string(),
        transmitted: tx,
        received: rx,
        total_transmitted: tx * 10,
        total_received: rx * 10,
    }
}

fn disk(fs: &str, total: u64, available: u64) -> DiskSample {
    DiskSample { file_system: fs.to_string(), total_space: total, available_space: available }
}

#[test]
fn network_rate_uses_configured_interval() {
    let ifs = vec![iface("eth0", 1500, 3001), iface("wlan0", 500, 0)];
    let n = realtime_network(&ifs, 1000);
    assert_eq!((n.up, n.down), (2000, 3001));
    assert_eq!((n.total_up, n.total_down), (20000, 30010));
    let n = realtime_network(&ifs, 3000);
    assert_eq!((n.up, n.down), (666, 1000));
}

#[test]
fn virtual_interfaces_are_excluded() {
    let ifs = vec![
        iface("lo", 1, 1),
        iface("docker0", 1, 1),
        iface("veth12", 1, 1),
        iface("br-1", 1, 1),
        iface("tun0", 1, 1),
        iface("tap3", 1, 1),
        iface("ens3", 7, 9),
    ];
    let n = realtime_network(&ifs, 1000);
    assert_eq!((n.up, n.down, n.total_up, n.total_down), (7, 9, 70, 90));
    assert!(virtual_interface("wlo1"));
    assert!(!virtual_interface("eth0"));
}

#[test]
fn empty_interface_list_reports_zero() {
    let n = realtime_network(&Vec::new(), 1000);
    assert_eq!((n.up, n.down, n.total_up, n.total_down), (0, 0, 0, 0));
}

#[test]
fn rate_edge_cases() {
    assert_eq!(rate_per_second(1, 3), 333);
    assert_eq!(rate_per_second(0, 0), 0);
    assert_eq!(rate_per_second(5, 0), u64::MAX);
    assert_eq!(rate_per_second(u64::MAX, 1), u64::MAX);
}

#[test]
fn disk_total_counts_allowed_file_systems_only() {
    let disks = vec![
        disk("ext4", 100, 10),
        disk("tmpfs", 1000, 0),
        disk("xfs", 50, 50),
        disk("overlay", 7, 0),
        disk("fuse.rclone", 5, 1),
        disk("EXT4", 9, 0),
    ];
    let kept = filter_disks(&disks);
    let names: Vec<&str> = kept.iter().map(|d| d.file_system.as_str()).collect();
    assert_eq!(names, vec!["ext4", "xfs", "fuse.rclone"]);
    assert_eq!(disk_total(&disks), 155);
    assert_eq!(realtime_disk(&disks).used, 94);
}

#[test]
fn disk_used_saturates() {
    let disks = vec![disk("btrfs", 10, 20), disk("zfs", u64::MAX, 0), disk("apfs", 5, 0)];
    assert_eq!(realtime_disk(&disks).used, u64::MAX);
    assert_eq!(disk_total(&disks), u64::MAX);
}

#[test]
fn memory_figures() {
    let m = mem_info_without_usage(16, 4, &vec![disk("ntfs", 30, 0), disk("proc", 1, 0)]);
    assert_eq!((m.mem_total, m.swap_total, m.disk_total), (16, 4, 30));
    assert_eq!(realtime_mem(10, 4).used, 6);
    assert_eq!(realtime_mem(4, 10).used, 0);
    assert_eq!(realtime_swap(12).used, 12);
}

#[test]
fn cpu_average() {
    assert_eq!(realtime_cpu(&vec![]).usage, 0);
    assert_eq!(realtime_cpu(&vec![100, 200, 301]).usage, 200);
    assert_eq!(realtime_cpu(&vec![u64::MAX, u64::MAX]).usage, u64::MAX);
}

#[test]
fn connection_counts_sum_families() {
    let c = realtime_connections(Some(3), Some(4), None, Some(2));
    assert_eq!((c.tcp, c.udp), (7, 2));
    let c = realtime_connections(None, None, None, None);
    assert_eq!((c.tcp, c.udp), (0, 0));
}
