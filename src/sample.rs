//! Aggregation of raw operating-system samples into metric records.

use vstd::prelude::*;
use crate::metrics::{clamp_u64, Connections, Cpu, Disk, Network, Ram, Swap};
use crate::text::{contains, has_substring, same_text};

verus! {

/// The counters of one network interface as the operating system reports them.
#[derive(Debug, Clone)]
pub struct InterfaceSample {
    pub name: String,
    /// Bytes sent since the previous refresh.
    pub transmitted: u64,
    /// Bytes received since the previous refresh.
    pub received: u64,
    pub total_transmitted: u64,
    pub total_received: u64,
}

/// One mounted disk as the operating system reports it.
#[derive(Debug, Clone)]
pub struct DiskSample {
    pub file_system: String,
    pub total_space: u64,
    pub available_space: u64,
}

/// Loopback, bridge, tunnel, tap, docker and veth interfaces, recognised by
/// a part of their name.
pub open spec fn is_virtual_interface(name: Seq<char>) -> bool {
    has_substring(name, "lo"@) || has_substring(name, "veth"@) || has_substring(name, "docker"@)
        || has_substring(name, "tun"@) || has_substring(name, "br"@) || has_substring(name, "tap"@)
}

/// Which of an interface's counters is meant.
pub enum Counter {
    Transmitted,
    Received,
    TotalTransmitted,
    TotalReceived,
}

pub open spec fn counter_of(i: InterfaceSample, c: Counter) -> u64 {
    match c {
        Counter::Transmitted => i.transmitted,
        Counter::Received => i.received,
        Counter::TotalTransmitted => i.total_transmitted,
        Counter::TotalReceived => i.total_received,
    }
}

/// The sum of counter `c` over the interfaces that are not virtual.
pub open spec fn physical_sum(s: Seq<InterfaceSample>, c: Counter) -> int
    decreases s.len(),
{
    if s.len() == 0 {
        0
    } else {
        physical_sum(s.drop_last(), c) + if is_virtual_interface(s.last().name@) {
            0
        } else {
            counter_of(s.last(), c) as int
        }
    }
}

proof fn lemma_physical_sum_nonneg(s: Seq<InterfaceSample>, c: Counter)
    ensures
        physical_sum(s, c) >= 0,
    decreases s.len(),
{
    if s.len() > 0 {
        lemma_physical_sum_nonneg(s.drop_last(), c);
    }
}

/// Bytes per second for `bytes` moved during an interval of `interval_ms`
/// milliseconds, rounded toward zero and saturated at `u64::MAX`. An empty
/// interval gives `0` when nothing moved and `u64::MAX` otherwise.
pub open spec fn per_second(bytes: u64, interval_ms: u64) -> u64 {
    if interval_ms == 0 {
        if bytes == 0 {
            0
        } else {
            u64::MAX
        }
    } else {
        clamp_u64(bytes as int * 1000 / interval_ms as int)
    }
}

/// `a + b`, saturated at `u64::MAX`.
pub fn add_saturating(a: u64, b: u64) -> (r: u64)
    ensures
        r == clamp_u64(a + b),
{
    if a > u64::MAX - b {
        u64::MAX
    } else {
        a + b
    }
}

/// `a - b`, or zero where `b` exceeds `a`.
pub fn sub_saturating(a: u64, b: u64) -> (r: u64)
    ensures
        r == clamp_u64(a - b),
{
    if b > a {
        0
    } else {
        a - b
    }
}

/// Bytes per second, as `per_second` states.
pub fn rate_per_second(bytes: u64, interval_ms: u64) -> (r: u64)
    ensures
        r == per_second(bytes, interval_ms),
{
    if interval_ms == 0 {
        if bytes == 0 {
            0
        } else {
            u64::MAX
        }
    } else {
        assert(0 <= bytes as int * 1000 <= u64::MAX as int * 1000) by (nonlinear_arith)
            requires
                0 <= bytes <= u64::MAX,
        ;
        let q: u128 = (bytes as u128) * 1000 / (interval_ms as u128);
        if q > u64::MAX as u128 {
            u64::MAX
        } else {
            q as u64
        }
    }
}

/// Whether `name` belongs to a virtual interface.
pub fn virtual_interface(name: &str) -> (r: bool)
    ensures
        r == is_virtual_interface(name@),
{
    contains(name, "lo") || contains(name, "veth") || contains(name, "docker") || contains(
        name,
        "tun",
    ) || contains(name, "br") || contains(name, "tap")
}

proof fn lemma_clamped_step(total: int, x: u64)
    requires
        total >= 0,
    ensures
        clamp_u64(clamp_u64(total) + x) == clamp_u64(total + x),
{
}

/// Network figures over the interfaces that are not virtual: rates over the
/// configured interval (not the measured one), and cumulative totals.
pub fn realtime_network(interfaces: &Vec<InterfaceSample>, interval_ms: u64) -> (r: Network)
    ensures
        r.up == per_second(clamp_u64(physical_sum(interfaces@, Counter::Transmitted)), interval_ms),
        r.down == per_second(clamp_u64(physical_sum(interfaces@, Counter::Received)), interval_ms),
        r.total_up == clamp_u64(physical_sum(interfaces@, Counter::TotalTransmitted)),
        r.total_down == clamp_u64(physical_sum(interfaces@, Counter::TotalReceived)),
{
    let mut up: u64 = 0;
    let mut down: u64 = 0;
    let mut total_up: u64 = 0;
    let mut total_down: u64 = 0;
    let mut i: usize = 0;
    while i < interfaces.len()
        invariant
            i <= interfaces@.len(),
            up == clamp_u64(physical_sum(interfaces@.take(i as int), Counter::Transmitted)),
            down == clamp_u64(physical_sum(interfaces@.take(i as int), Counter::Received)),
            total_up == clamp_u64(
                physical_sum(interfaces@.take(i as int), Counter::TotalTransmitted),
            ),
            total_down == clamp_u64(
                physical_sum(interfaces@.take(i as int), Counter::TotalReceived),
            ),
        decreases interfaces@.len() - i,
    {
        let it = &interfaces[i];
        let ghost s = interfaces@.take(i as int);
        let ghost t = interfaces@.take(i + 1);
        proof {
            assert(t.drop_last() =~= s);
            assert(t.last() == interfaces@[i as int]);
            lemma_physical_sum_nonneg(s, Counter::Transmitted);
            lemma_physical_sum_nonneg(s, Counter::Received);
            lemma_physical_sum_nonneg(s, Counter::TotalTransmitted);
            lemma_physical_sum_nonneg(s, Counter::TotalReceived);
        }
        if !virtual_interface(it.name.as_str()) {
            proof {
                lemma_clamped_step(physical_sum(s, Counter::Transmitted), it.transmitted);
                lemma_clamped_step(physical_sum(s, Counter::Received), it.received);
                lemma_clamped_step(physical_sum(s, Counter::TotalTransmitted), it.total_transmitted);
                lemma_clamped_step(physical_sum(s, Counter::TotalReceived), it.total_received);
            }
            up = add_saturating(up, it.transmitted);
            down = add_saturating(down, it.received);
            total_up = add_saturating(total_up, it.total_transmitted);
            total_down = add_saturating(total_down, it.total_received);
        }
        i = i + 1;
    }
    proof {
        assert(interfaces@.take(interfaces@.len() as int) =~= interfaces@);
    }
    Network {
        up: rate_per_second(up, interval_ms),
        down: rate_per_second(down, interval_ms),
        total_up,
        total_down,
    }
}

/// The file systems whose disks count toward disk totals.
pub open spec fn allowed_file_system(fs: Seq<char>) -> bool {
    fs == "apfs"@ || fs == "ext4"@ || fs == "ext3"@ || fs == "ext2"@ || fs == "f2fs"@ || fs
        == "reiserfs"@ || fs == "jfs"@ || fs == "btrfs"@ || fs == "fuseblk"@ || fs == "zfs"@ || fs
        == "simfs"@ || fs == "ntfs"@ || fs == "fat32"@ || fs == "exfat"@ || fs == "xfs"@ || fs
        == "fuse.rclone"@
}

/// The disks whose file system is allowed, in the order given.
pub open spec fn allowed_disks(s: Seq<DiskSample>) -> Seq<DiskSample> {
    s.filter(|d: DiskSample| allowed_file_system(d.file_system@))
}

/// The sum of the disks' total space.
pub open spec fn space_sum(s: Seq<DiskSample>) -> int
    decreases s.len(),
{
    if s.len() == 0 {
        0
    } else {
        space_sum(s.drop_last()) + s.last().total_space
    }
}

/// The sum of the disks' used space, where a disk uses its total space less
/// the available space (none if more is available than its total).
pub open spec fn used_sum(s: Seq<DiskSample>) -> int
    decreases s.len(),
{
    if s.len() == 0 {
        0
    } else {
        used_sum(s.drop_last()) + clamp_u64(s.last().total_space - s.last().available_space)
    }
}

proof fn lemma_disk_sums_nonneg(s: Seq<DiskSample>)
    ensures
        space_sum(s) >= 0,
        used_sum(s) >= 0,
    decreases s.len(),
{
    if s.len() > 0 {
        lemma_disk_sums_nonneg(s.drop_last());
    }
}

/// Whether disks of file system `fs` count toward disk totals.
pub fn allowed_fs(fs: &str) -> (r: bool)
    ensures
        r == allowed_file_system(fs@),
{
    same_text(fs, "apfs") || same_text(fs, "ext4") || same_text(fs, "ext3") || same_text(fs, "ext2")
        || same_text(fs, "f2fs") || same_text(fs, "reiserfs") || same_text(fs, "jfs") || same_text(
        fs,
        "btrfs",
    ) || same_text(fs, "fuseblk") || same_text(fs, "zfs") || same_text(fs, "simfs") || same_text(
        fs,
        "ntfs",
    ) || same_text(fs, "fat32") || same_text(fs, "exfat") || same_text(fs, "xfs") || same_text(
        fs,
        "fuse.rclone",
    )
}

/// The disks whose file system is in the allow-list, in the order given.
pub fn filter_disks(disks: &Vec<DiskSample>) -> (r: Vec<DiskSample>)
    ensures
        r@ == allowed_disks(disks@),
{
    let mut r: Vec<DiskSample> = Vec::new();
    let mut i: usize = 0;
    while i < disks.len()
        invariant
            i <= disks@.len(),
            r@ == allowed_disks(disks@.take(i as int)),
        decreases disks@.len() - i,
    {
        let d = &disks[i];
        proof {
            assert(disks@.take(i + 1).drop_last() =~= disks@.take(i as int));
            assert(disks@.take(i + 1).last() == disks@[i as int]);
            let t = disks@.take(i + 1);
            reveal(Seq::filter);
            assert(allowed_disks(t) == if allowed_file_system(t.last().file_system@) {
                allowed_disks(t.drop_last()).push(t.last())
            } else {
                allowed_disks(t.drop_last())
            });
        }
        if allowed_fs(d.file_system.as_str()) {
            let e = DiskSample {
                file_system: d.file_system.clone(),
                total_space: d.total_space,
                available_space: d.available_space,
            };
            assert(e == disks@[i as int]);
            r.push(e);
        }
        i = i + 1;
    }
    proof {
        assert(disks@.take(disks@.len() as int) =~= disks@);
    }
    r
}

/// Total space over the disks whose file system is in the allow-list,
/// saturated at `u64::MAX`.
pub fn disk_total(disks: &Vec<DiskSample>) -> (r: u64)
    ensures
        r == clamp_u64(space_sum(allowed_disks(disks@))),
{
    let kept = filter_disks(disks);
    let mut total: u64 = 0;
    let mut i: usize = 0;
    while i < kept.len()
        invariant
            i <= kept@.len(),
            total == clamp_u64(space_sum(kept@.take(i as int))),
        decreases kept@.len() - i,
    {
        proof {
            assert(kept@.take(i + 1).drop_last() =~= kept@.take(i as int));
            lemma_disk_sums_nonneg(kept@.take(i as int));
        }
        total = add_saturating(total, kept[i].total_space);
        i = i + 1;
    }
    proof {
        assert(kept@.take(kept@.len() as int) =~= kept@);
    }
    total
}

/// Used space over the disks whose file system is in the allow-list.
pub fn realtime_disk(disks: &Vec<DiskSample>) -> (r: Disk)
    ensures
        r.used == clamp_u64(used_sum(allowed_disks(disks@))),
{
    let kept = filter_disks(disks);
    let mut used: u64 = 0;
    let mut i: usize = 0;
    while i < kept.len()
        invariant
            i <= kept@.len(),
            used == clamp_u64(used_sum(kept@.take(i as int))),
        decreases kept@.len() - i,
    {
        proof {
            assert(kept@.take(i + 1).drop_last() =~= kept@.take(i as int));
            lemma_disk_sums_nonneg(kept@.take(i as int));
        }
        let d = &kept[i];
        used = add_saturating(used, sub_saturating(d.total_space, d.available_space));
        i = i + 1;
    }
    proof {
        assert(kept@.take(kept@.len() as int) =~= kept@);
    }
    Disk { used }
}

/// Total memory, total swap and total allowed disk space.
#[derive(Debug, Clone, Copy)]
pub struct MemDiskInfoWithOutUsage {
    pub mem_total: u64,
    pub swap_total: u64,
    pub disk_total: u64,
}

/// The host's memory, swap and disk capacity.
pub fn mem_info_without_usage(mem_total: u64, swap_total: u64, disks: &Vec<DiskSample>) -> (r:
    MemDiskInfoWithOutUsage)
    ensures
        r.mem_total == mem_total,
        r.swap_total == swap_total,
        r.disk_total == clamp_u64(space_sum(allowed_disks(disks@))),
{
    MemDiskInfoWithOutUsage { mem_total, swap_total, disk_total: disk_total(disks) }
}

/// Memory in use: the total less what is available.
pub fn realtime_mem(total_memory: u64, available_memory: u64) -> (r: Ram)
    ensures
        r.used == clamp_u64(total_memory - available_memory),
{
    Ram { used: sub_saturating(total_memory, available_memory) }
}

/// Swap in use, as reported.
pub fn realtime_swap(used_swap: u64) -> (r: Swap)
    ensures
        r.used == used_swap,
{
    Swap { used: used_swap }
}

/// The sum of a sequence of counts.
pub open spec fn seq_sum(s: Seq<u64>) -> int
    decreases s.len(),
{
    if s.len() == 0 {
        0
    } else {
        seq_sum(s.drop_last()) + s.last()
    }
}

proof fn lemma_seq_sum_bounds(s: Seq<u64>)
    ensures
        0 <= seq_sum(s) <= s.len() * u64::MAX,
    decreases s.len(),
{
    if s.len() > 0 {
        lemma_seq_sum_bounds(s.drop_last());
    }
}

/// The mean of the counts, rounded toward zero; zero for no counts.
pub open spec fn average(s: Seq<u64>) -> int {
    if s.len() == 0 {
        0
    } else {
        seq_sum(s) / (s.len() as int)
    }
}

/// CPU usage averaged over the cores, each given in hundredths of a percent;
/// zero where no core is reported.
pub fn realtime_cpu(per_core: &Vec<u64>) -> (r: Cpu)
    ensures
        r.usage == average(per_core@),
{
    let n = per_core.len();
    if n == 0 {
        return Cpu { usage: 0 };
    }
    let mut sum: u128 = 0;
    let mut i: usize = 0;
    while i < n
        invariant
            n == per_core@.len(),
            i <= n,
            sum == seq_sum(per_core@.take(i as int)),
        decreases n - i,
    {
        proof {
            assert(per_core@.take(i + 1).drop_last() =~= per_core@.take(i as int));
            lemma_seq_sum_bounds(per_core@.take(i as int));
            assert((i as int) * (u64::MAX as int) + u64::MAX as int <= (usize::MAX as int + 1) * (
            u64::MAX as int)) by (nonlinear_arith)
                requires
                    i < usize::MAX,
            ;
        }
        sum = sum + per_core[i] as u128;
        i = i + 1;
    }
    proof {
        assert(per_core@.take(n as int) =~= per_core@);
        lemma_seq_sum_bounds(per_core@);
        let t = seq_sum(per_core@);
        let k = n as int;
        assert(t / k <= u64::MAX) by (nonlinear_arith)
            requires
                0 <= t <= k * u64::MAX,
                k > 0,
        ;
    }
    Cpu { usage: (sum / (n as u128)) as u64 }
}

/// Connection counts over both address families; a family whose count could
/// not be read counts as zero.
pub fn realtime_connections(tcp4: Option<u64>, tcp6: Option<u64>, udp4: Option<u64>, udp6: Option<
    u64,
>) -> (r: Connections)
    ensures
        r.tcp == clamp_u64(tcp4.unwrap_or(0) + tcp6.unwrap_or(0)),
        r.udp == clamp_u64(udp4.unwrap_or(0) + udp6.unwrap_or(0)),
{
    let t4 = match tcp4 {
        Some(v) => v,
        None => 0,
    };
    let t6 = match tcp6 {
        Some(v) => v,
        None => 0,
    };
    let u4 = match udp4 {
        Some(v) => v,
        None => 0,
    };
    let u6 = match udp6 {
        Some(v) => v,
        None => 0,
    };
    Connections { tcp: add_saturating(t4, t6), udp: add_saturating(u4, u6) }
}

/// Where the result fits in a `u64`, the network rate is exactly the bytes
/// moved times 1000 over the configured interval, rounded toward zero.
pub proof fn lemma_rate_exact(bytes: u64, interval_ms: u64)
    requires
        interval_ms > 0,
        bytes as int * 1000 / interval_ms as int <= u64::MAX,
    ensures
        per_second(bytes, interval_ms) as int == bytes as int * 1000 / interval_ms as int,
{
    assert(bytes as int * 1000 / interval_ms as int >= 0) by (nonlinear_arith)
        requires
            bytes >= 0,
            interval_ms > 0,
    ;
}

/// Where the sum fits in a `u64`, the disk total is exactly the total space of
/// the disks whose file system is in the allow-list.
pub proof fn lemma_disk_total_exact(disks: Seq<DiskSample>)
    requires
        space_sum(allowed_disks(disks)) <= u64::MAX,
    ensures
        clamp_u64(space_sum(allowed_disks(disks))) as int == space_sum(allowed_disks(disks)),
{
    lemma_disk_sums_nonneg(allowed_disks(disks));
}

} // verus!
