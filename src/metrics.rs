//! Metric records, their aggregation from raw samples, and the configurable
//! scale factor applied before publishing.

use vstd::prelude::*;
use vstd::string::*;
use crate::sample::{
    allowed_disks, average, per_second, physical_sum, realtime_connections, realtime_cpu,
    realtime_disk, realtime_mem, realtime_network, realtime_swap, used_sum, Counter, DiskSample,
    InterfaceSample, MemDiskInfoWithOutUsage,
};

verus! {

/// `x` cut down to the range of `u64`.
pub open spec fn clamp_u64(x: int) -> u64 {
    if x > u64::MAX {
        u64::MAX
    } else if x < 0 {
        0
    } else {
        x as u64
    }
}

/// A non-negative scale factor `numer / denom`.
#[derive(Debug, Clone, Copy)]
pub struct Multiplier {
    pub numer: u64,
    pub denom: u64,
}

impl Multiplier {
    pub open spec fn wf(self) -> bool {
        self.denom > 0
    }

    /// The factor that leaves every value as it is.
    pub open spec fn is_identity(self) -> bool {
        self.denom > 0 && self.numer == self.denom
    }

    /// The factor `1`.
    pub fn identity() -> (r: Multiplier)
        ensures
            r.wf(),
            r.is_identity(),
    {
        Multiplier { numer: 1, denom: 1 }
    }

    /// The factor `numer / denom`, where `denom` is not zero.
    pub fn new(numer: u64, denom: u64) -> (r: Option<Multiplier>)
        ensures
            r is Some <==> denom > 0,
            r matches Some(m) ==> m.wf() && m.numer == numer && m.denom == denom,
    {
        if denom == 0 {
            None
        } else {
            Some(Multiplier { numer, denom })
        }
    }
}

/// `x` times the factor, rounded toward zero and saturated at `u64::MAX`.
pub open spec fn scaled(x: u64, m: Multiplier) -> u64 {
    clamp_u64((x as int * m.numer as int) / m.denom as int)
}

/// `x` times the factor, rounded toward zero and saturated at `u64::MAX`.
pub fn scale(x: u64, m: Multiplier) -> (r: u64)
    requires
        m.wf(),
    ensures
        r == scaled(x, m),
{
    assert((x as int) * (m.numer as int) <= (u64::MAX as int) * (u64::MAX as int)) by (nonlinear_arith)
        requires
            x <= u64::MAX,
            m.numer <= u64::MAX,
    ;
    assert(0 <= (x as int) * (m.numer as int)) by (nonlinear_arith);
    let prod: u128 = (x as u128) * (m.numer as u128);
    let q: u128 = prod / (m.denom as u128);
    if q > u64::MAX as u128 {
        u64::MAX
    } else {
        q as u64
    }
}

/// The identity factor leaves every value as it is.
pub proof fn lemma_scaled_identity(x: u64, m: Multiplier)
    requires
        m.is_identity(),
    ensures
        scaled(x, m) == x,
{
    let d = m.denom as int;
    assert((x as int * d) / d == x as int) by (nonlinear_arith)
        requires
            d > 0,
    ;
}

/// CPU usage averaged over the cores, in hundredths of a percent.
#[derive(Debug, Clone, Copy)]
pub struct Cpu {
    pub usage: u64,
}

#[derive(Debug, Clone, Copy)]
pub struct Ram {
    pub used: u64,
}

#[derive(Debug, Clone, Copy)]
pub struct Swap {
    pub used: u64,
}

#[derive(Debug, Clone, Copy)]
pub struct Disk {
    pub used: u64,
}

/// Load averages over one, five and fifteen minutes, in thousandths.
#[derive(Debug, Clone, Copy)]
pub struct Load {
    pub load1: u64,
    pub load5: u64,
    pub load15: u64,
}

/// Network rates in bytes per second over the last interval, and cumulative totals.
#[derive(Debug, Clone, Copy)]
pub struct Network {
    pub up: u64,
    pub down: u64,
    pub total_up: u64,
    pub total_down: u64,
}

#[derive(Debug, Clone, Copy)]
pub struct Connections {
    pub tcp: u64,
    pub udp: u64,
}

/// The per-tick metric snapshot.
#[derive(Debug, Clone)]
pub struct RealTimeInfo {
    pub cpu: Cpu,
    pub ram: Ram,
    pub swap: Swap,
    pub disk: Disk,
    pub load: Load,
    pub network: Network,
    pub connections: Connections,
    pub uptime: u64,
    pub process: u64,
    pub message: String,
}

impl RealTimeInfo {
    /// The snapshot with the factor applied to memory, swap, disk, load,
    /// network and connection figures and to the process count. CPU usage,
    /// uptime and the message stay as they are.
    pub open spec fn faked(self, m: Multiplier) -> RealTimeInfo {
        RealTimeInfo {
            ram: Ram { used: scaled(self.ram.used, m) },
            swap: Swap { used: scaled(self.swap.used, m) },
            disk: Disk { used: scaled(self.disk.used, m) },
            load: Load {
                load1: scaled(self.load.load1, m),
                load5: scaled(self.load.load5, m),
                load15: scaled(self.load.load15, m),
            },
            network: Network {
                up: scaled(self.network.up, m),
                down: scaled(self.network.down, m),
                total_up: scaled(self.network.total_up, m),
                total_down: scaled(self.network.total_down, m),
            },
            connections: Connections {
                tcp: scaled(self.connections.tcp, m),
                udp: scaled(self.connections.udp, m),
            },
            process: scaled(self.process, m),
            ..self
        }
    }

    /// Applies the factor as `faked` describes.
    pub fn apply_fake(&self, m: Multiplier) -> (r: RealTimeInfo)
        requires
            m.wf(),
        ensures
            r == self.faked(m),
    {
        RealTimeInfo {
            cpu: self.cpu,
            ram: Ram { used: scale(self.ram.used, m) },
            swap: Swap { used: scale(self.swap.used, m) },
            disk: Disk { used: scale(self.disk.used, m) },
            load: Load {
                load1: scale(self.load.load1, m),
                load5: scale(self.load.load5, m),
                load15: scale(self.load.load15, m),
            },
            network: Network {
                up: scale(self.network.up, m),
                down: scale(self.network.down, m),
                total_up: scale(self.network.total_up, m),
                total_down: scale(self.network.total_down, m),
            },
            connections: Connections {
                tcp: scale(self.connections.tcp, m),
                udp: scale(self.connections.udp, m),
            },
            uptime: self.uptime,
            process: scale(self.process, m),
            message: self.message.clone(),
        }
    }
}

/// A factor scales exactly the memory, swap, disk, load, network and
/// connection figures and the process count; CPU usage, uptime and the
/// message are left unchanged.
pub proof fn lemma_fake_fields(info: RealTimeInfo, m: Multiplier)
    ensures
        info.faked(m).cpu == info.cpu,
        info.faked(m).uptime == info.uptime,
        info.faked(m).message == info.message,
        info.faked(m).ram.used == scaled(info.ram.used, m),
        info.faked(m).swap.used == scaled(info.swap.used, m),
        info.faked(m).disk.used == scaled(info.disk.used, m),
        info.faked(m).load.load1 == scaled(info.load.load1, m),
        info.faked(m).load.load5 == scaled(info.load.load5, m),
        info.faked(m).load.load15 == scaled(info.load.load15, m),
        info.faked(m).network.up == scaled(info.network.up, m),
        info.faked(m).network.down == scaled(info.network.down, m),
        info.faked(m).network.total_up == scaled(info.network.total_up, m),
        info.faked(m).network.total_down == scaled(info.network.total_down, m),
        info.faked(m).connections.tcp == scaled(info.connections.tcp, m),
        info.faked(m).connections.udp == scaled(info.connections.udp, m),
        info.faked(m).process == scaled(info.process, m),
{
}

/// Applying the identity factor to a snapshot gives the same snapshot.
pub proof fn lemma_identity_fake_realtime(info: RealTimeInfo, m: Multiplier)
    requires
        m.is_identity(),
    ensures
        info.faked(m) == info,
{
    lemma_scaled_identity(info.ram.used, m);
    lemma_scaled_identity(info.swap.used, m);
    lemma_scaled_identity(info.disk.used, m);
    lemma_scaled_identity(info.load.load1, m);
    lemma_scaled_identity(info.load.load5, m);
    lemma_scaled_identity(info.load.load15, m);
    lemma_scaled_identity(info.network.up, m);
    lemma_scaled_identity(info.network.down, m);
    lemma_scaled_identity(info.network.total_up, m);
    lemma_scaled_identity(info.network.total_down, m);
    lemma_scaled_identity(info.connections.tcp, m);
    lemma_scaled_identity(info.connections.udp, m);
    lemma_scaled_identity(info.process, m);
}

/// What the operating system reports at one tick, before aggregation.
#[derive(Debug, Clone)]
pub struct SystemSample {
    /// Usage of each core, in hundredths of a percent.
    pub cpu_usages: Vec<u64>,
    pub total_memory: u64,
    pub available_memory: u64,
    pub used_swap: u64,
    pub disks: Vec<DiskSample>,
    /// Load averages in thousandths; zero where the platform has none.
    pub load: Load,
    pub interfaces: Vec<InterfaceSample>,
    pub connections: Connections,
    pub uptime: u64,
    pub process: u64,
}

impl RealTimeInfo {
    /// The snapshot of `s` before the factor is applied: CPU usage averaged,
    /// memory in use as total less available, disks and interfaces aggregated,
    /// network rates over `interval_ms`, other figures as reported.
    pub open spec fn aggregated(self, s: SystemSample, interval_ms: u64) -> bool {
        &&& self.cpu.usage == average(s.cpu_usages@)
        &&& self.ram.used == clamp_u64(s.total_memory - s.available_memory)
        &&& self.swap.used == s.used_swap
        &&& self.disk.used == clamp_u64(used_sum(allowed_disks(s.disks@)))
        &&& self.load == s.load
        &&& self.network.up == per_second(
            clamp_u64(physical_sum(s.interfaces@, Counter::Transmitted)),
            interval_ms,
        )
        &&& self.network.down == per_second(
            clamp_u64(physical_sum(s.interfaces@, Counter::Received)),
            interval_ms,
        )
        &&& self.network.total_up == clamp_u64(physical_sum(s.interfaces@, Counter::TotalTransmitted))
        &&& self.network.total_down == clamp_u64(physical_sum(s.interfaces@, Counter::TotalReceived))
        &&& self.connections == s.connections
        &&& self.uptime == s.uptime
        &&& self.process == s.process
        &&& self.message@ == Seq::<char>::empty()
    }

    /// The snapshot of one tick: `s` aggregated, then scaled by `fake`.
    pub fn build(s: &SystemSample, fake: Multiplier, interval_ms: u64) -> (r: RealTimeInfo)
        requires
            fake.wf(),
        ensures
            exists|raw: RealTimeInfo| raw.aggregated(*s, interval_ms) && r == raw.faked(fake),
    {
        let raw = RealTimeInfo {
            cpu: realtime_cpu(&s.cpu_usages),
            ram: realtime_mem(s.total_memory, s.available_memory),
            swap: realtime_swap(s.used_swap),
            disk: realtime_disk(&s.disks),
            load: s.load,
            network: realtime_network(&s.interfaces, interval_ms),
            connections: s.connections,
            uptime: s.uptime,
            process: s.process,
            message: String::new(),
        };
        let r = raw.apply_fake(fake);
        assert(raw.aggregated(*s, interval_ms));
        r
    }
}

/// CPU brand and core count.
#[derive(Debug, Clone)]
pub struct CPUInfoWithOutUsage {
    pub name: String,
    pub cores: u16,
}

/// Operating system name and version, kernel version and virtualization tag.
#[derive(Debug, Clone)]
pub struct OsInfo {
    pub os: String,
    pub version: String,
    pub virtualization: String,
}

/// The one-shot host descriptor sent once per connection.
#[derive(Debug, Clone)]
pub struct BasicInfo {
    pub arch: String,
    pub cpu_cores: u64,
    pub cpu_name: String,
    pub gpu_name: String,
    pub disk_total: u64,
    pub swap_total: u64,
    pub mem_total: u64,
    pub ipv4: Option<String>,
    pub ipv6: Option<String>,
    pub os: String,
    pub version: String,
    pub kernel_version: String,
    pub virtualization: String,
}

fn clone_text(s: &Option<String>) -> (r: Option<String>)
    ensures
        r == *s,
{
    match s {
        Some(t) => Some(t.clone()),
        None => None,
    }
}

impl BasicInfo {
    /// The descriptor with the factor applied to the core count and to the
    /// memory, swap and disk totals; every other field stays as it is.
    pub open spec fn faked(self, m: Multiplier) -> BasicInfo {
        BasicInfo {
            cpu_cores: scaled(self.cpu_cores, m),
            disk_total: scaled(self.disk_total, m),
            swap_total: scaled(self.swap_total, m),
            mem_total: scaled(self.mem_total, m),
            ..self
        }
    }

    /// Applies the factor as `faked` describes.
    pub fn apply_fake(&self, m: Multiplier) -> (r: BasicInfo)
        requires
            m.wf(),
        ensures
            r == self.faked(m),
    {
        BasicInfo {
            arch: self.arch.clone(),
            cpu_cores: scale(self.cpu_cores, m),
            cpu_name: self.cpu_name.clone(),
            gpu_name: self.gpu_name.clone(),
            disk_total: scale(self.disk_total, m),
            swap_total: scale(self.swap_total, m),
            mem_total: scale(self.mem_total, m),
            ipv4: clone_text(&self.ipv4),
            ipv6: clone_text(&self.ipv6),
            os: self.os.clone(),
            version: self.version.clone(),
            kernel_version: self.kernel_version.clone(),
            virtualization: self.virtualization.clone(),
        }
    }

    /// The descriptor assembled from its parts, before the factor is applied.
    /// No GPU is reported.
    pub open spec fn assembled(
        self,
        arch: Seq<char>,
        cpu: CPUInfoWithOutUsage,
        mem_disk: MemDiskInfoWithOutUsage,
        ipv4: Option<String>,
        ipv6: Option<String>,
        os: OsInfo,
        version: Seq<char>,
    ) -> bool {
        &&& self.arch@ == arch
        &&& self.cpu_cores == cpu.cores as u64
        &&& self.cpu_name == cpu.name
        &&& self.gpu_name@ == Seq::<char>::empty()
        &&& self.disk_total == mem_disk.disk_total
        &&& self.swap_total == mem_disk.swap_total
        &&& self.mem_total == mem_disk.mem_total
        &&& self.ipv4 == ipv4
        &&& self.ipv6 == ipv6
        &&& self.os == os.os
        &&& self.version@ == version
        &&& self.kernel_version == os.version
        &&& self.virtualization == os.virtualization
    }

    /// The host descriptor: its parts assembled, then scaled by `fake`.
    pub fn build(
        arch: &str,
        cpu: &CPUInfoWithOutUsage,
        mem_disk: &MemDiskInfoWithOutUsage,
        ipv4: Option<String>,
        ipv6: Option<String>,
        os: &OsInfo,
        version: &str,
        fake: Multiplier,
    ) -> (r: BasicInfo)
        requires
            fake.wf(),
        ensures
            exists|raw: BasicInfo|
                raw.assembled(arch@, *cpu, *mem_disk, ipv4, ipv6, *os, version@) && r == raw.faked(
                    fake,
                ),
    {
        let raw = BasicInfo {
            arch: String::from_str(arch),
            cpu_cores: cpu.cores as u64,
            cpu_name: cpu.name.clone(),
            gpu_name: String::new(),
            disk_total: mem_disk.disk_total,
            swap_total: mem_disk.swap_total,
            mem_total: mem_disk.mem_total,
            ipv4,
            ipv6,
            os: os.os.clone(),
            version: String::from_str(version),
            kernel_version: os.version.clone(),
            virtualization: os.virtualization.clone(),
        };
        let r = raw.apply_fake(fake);
        assert(raw.assembled(arch@, *cpu, *mem_disk, ipv4, ipv6, *os, version@));
        r
    }
}

/// Applying the identity factor to a host descriptor gives the same descriptor.
pub proof fn lemma_identity_fake_basic(info: BasicInfo, m: Multiplier)
    requires
        m.is_identity(),
    ensures
        info.faked(m) == info,
{
    lemma_scaled_identity(info.cpu_cores, m);
    lemma_scaled_identity(info.disk_total, m);
    lemma_scaled_identity(info.swap_total, m);
    lemma_scaled_identity(info.mem_total, m);
}

} // verus!
