//! The system snapshot and the periodic metric sampler.
//!
//! All quantities the original dashboard shows as fractional numbers are
//! held as scaled integers: CPU shares in tenths of a percent, memory and
//! swap sizes in hundredths of a GB, load averages in hundredths.  Times
//! are whole seconds since the Unix epoch.

use vstd::prelude::*;

use crate::clock;
use crate::history::{hist_step, HistoryBuffer, HISTORY_CAPACITY};
use crate::records::{
    FileSystem, FileSystemModel, LogEntry, LogEntryModel, NetworkInterface,
    NetworkInterfaceModel, Process, ProcessModel, ServiceStatus, ServiceStatusModel,
};
use crate::rng;
use crate::status::{flip, spec_flip, KernelStatus, Status, SubsystemStatus};
use crate::strbuild::{push_char, push_two_digits, two_digits};

verus! {

/// Smallest CPU usage the sampler lets stand, in tenths of a percent.
pub const CPU_MIN: u32 = 10;

/// Largest CPU usage the sampler lets stand, in tenths of a percent.
pub const CPU_MAX: u32 = 950;

/// Smallest used-memory reading, in hundredths of a GB.
pub const MEMORY_MIN: u32 = 80;

/// Largest used-memory reading, in hundredths of a GB.
pub const MEMORY_MAX: u32 = 380;

/// Total memory of the simulated machine, in hundredths of a GB.
pub const MEMORY_TOTAL: u32 = 400;

/// Floor under the IPC message counter.
pub const IPC_FLOOR: u32 = 500;

/// Floor under the filesystem read counter.
pub const FS_READS_FLOOR: u32 = 200;

/// Floor under the filesystem write counter.
pub const FS_WRITES_FLOOR: u32 = 50;

/// Largest CPU share of a single process, in tenths of a percent.
pub const PROCESS_CPU_MAX: u32 = 100;

/// `x` forced into the closed interval `[lo, hi]`.
pub open spec fn clamp_int(x: int, lo: int, hi: int) -> int {
    if x < lo {
        lo
    } else if x > hi {
        hi
    } else {
        x
    }
}

/// A counter nudged by `d` but never allowed below `floor` (and saturating
/// at the type's ceiling).
pub open spec fn counter_next(c: u32, d: int, floor: u32) -> u32 {
    clamp_int(c + d, floor as int, u32::MAX as int) as u32
}

/// Saturating addition of byte counters.
pub open spec fn sat_add_u64(c: u64, d: u64) -> u64 {
    if c + d > u64::MAX {
        u64::MAX
    } else {
        (c + d) as u64
    }
}

/// `a - b`, stopping at zero.
pub open spec fn monus64(a: u64, b: u64) -> u64 {
    if a >= b {
        (a - b) as u64
    } else {
        0
    }
}

/// Status text of the primary interface for a given network-stack status.
pub open spec fn eth_status_text(s: Status) -> Seq<char> {
    match s {
        Status::Online => "UP"@,
        Status::Offline => "DOWN"@,
    }
}

/// Address of the primary interface for a given network-stack status: the
/// fixed assigned address when the stack is up, the null address otherwise.
pub open spec fn eth_ip_text(s: Status) -> Seq<char> {
    match s {
        Status::Online => "192.168.1.100"@,
        Status::Offline => "0.0.0.0"@,
    }
}

/// Status text of the display server's service record for a given display
/// subsystem status.
pub open spec fn orbital_status_text(s: Status) -> Seq<char> {
    match s {
        Status::Online => "RUNNING"@,
        Status::Offline => "STOPPED"@,
    }
}

/// Uptime text of the display server's service record: a reset counter when
/// it was just started, unavailable when stopped.
pub open spec fn orbital_uptime_text(s: Status) -> Seq<char> {
    match s {
        Status::Online => "0m"@,
        Status::Offline => "-"@,
    }
}

/// Ghost model of a [`SystemState`]: the same fields over mathematical
/// sequences.
#[verifier::ext_equal]
pub ghost struct SystemModel {
    pub boot_time: u64,
    pub uptime: u64,
    pub cpu_usage: u32,
    pub memory_used: u32,
    pub memory_total: u32,
    pub memory_free: u32,
    pub swap_used: u32,
    pub swap_total: u32,
    pub load_average: Seq<u32>,
    pub kernel_threads: u32,
    pub user_processes: u32,
    pub ipc_messages: u32,
    pub fs_reads: u32,
    pub fs_writes: u32,
    pub network_rx: u64,
    pub network_tx: u64,
    pub kernel_status: KernelStatus,
    pub subsystem_status: SubsystemStatus,
    pub processes: Seq<ProcessModel>,
    pub filesystems: Seq<FileSystemModel>,
    pub logs: Seq<LogEntryModel>,
    pub services: Seq<ServiceStatusModel>,
    pub network_interfaces: Seq<NetworkInterfaceModel>,
    pub cpu_history: Seq<u32>,
    pub memory_history: Seq<u32>,
    pub network_history: Seq<(u64, u64)>,
}

impl SystemModel {
    /// Invariants of the snapshot: bounded gauges, an exactly recomputed
    /// free-memory figure, floored counters, bounded histories, and the
    /// couplings that make each toggle atomic — the network stack and its
    /// daemon agree, the display subsystem and its manager agree, the
    /// primary interface reflects the network status, and the display
    /// server's service record reflects the display status.
    pub open spec fn wf(self) -> bool {
        &&& CPU_MIN <= self.cpu_usage <= CPU_MAX
        &&& MEMORY_MIN <= self.memory_used <= MEMORY_MAX
        &&& self.memory_total == MEMORY_TOTAL
        &&& self.memory_free == self.memory_total - self.memory_used
        &&& self.ipc_messages >= IPC_FLOOR
        &&& self.fs_reads >= FS_READS_FLOOR
        &&& self.fs_writes >= FS_WRITES_FLOOR
        &&& self.cpu_history.len() <= HISTORY_CAPACITY
        &&& self.memory_history.len() <= HISTORY_CAPACITY
        &&& self.network_history.len() <= HISTORY_CAPACITY
        &&& forall|i: int|
            0 <= i < self.processes.len() ==> (#[trigger] self.processes[i]).cpu
                <= PROCESS_CPU_MAX
        &&& self.subsystem_status.netstack_daemon == self.kernel_status.network_stack
        &&& self.subsystem_status.display_manager == self.subsystem_status.gui_orbital
        &&& forall|i: int|
            0 <= i < self.network_interfaces.len()
                && (#[trigger] self.network_interfaces[i]).name == "eth0"@
                ==> self.network_interfaces[i].status == eth_status_text(
                self.kernel_status.network_stack,
            ) && self.network_interfaces[i].ip == eth_ip_text(self.kernel_status.network_stack)
        &&& forall|i: int|
            0 <= i < self.services.len() && (#[trigger] self.services[i]).name == "orbital"@
                ==> self.services[i].status == orbital_status_text(
                self.subsystem_status.gui_orbital,
            ) && self.services[i].uptime == orbital_uptime_text(self.subsystem_status.gui_orbital)
    }
}

/// The authoritative state value behind every view of the dashboard.
#[derive(Clone, Debug, PartialEq)]
pub struct SystemState {
    /// Boot instant, seconds since the Unix epoch.
    pub boot_time: u64,
    /// Seconds since boot, recomputed on every update.
    pub uptime: u64,
    /// Tenths of a percent.
    pub cpu_usage: u32,
    /// Hundredths of a GB.
    pub memory_used: u32,
    /// Hundredths of a GB.
    pub memory_total: u32,
    /// Hundredths of a GB; always `memory_total - memory_used`.
    pub memory_free: u32,
    /// Hundredths of a GB.
    pub swap_used: u32,
    /// Hundredths of a GB.
    pub swap_total: u32,
    /// One-, five- and fifteen-minute load, in hundredths.
    pub load_average: [u32; 3],
    pub kernel_threads: u32,
    pub user_processes: u32,
    pub ipc_messages: u32,
    pub fs_reads: u32,
    pub fs_writes: u32,
    pub network_rx: u64,
    pub network_tx: u64,
    pub kernel_status: KernelStatus,
    pub subsystem_status: SubsystemStatus,
    pub processes: Vec<Process>,
    pub filesystems: Vec<FileSystem>,
    pub logs: Vec<LogEntry>,
    pub services: Vec<ServiceStatus>,
    pub network_interfaces: Vec<NetworkInterface>,
    pub cpu_history: HistoryBuffer<u32>,
    pub memory_history: HistoryBuffer<u32>,
    pub network_history: HistoryBuffer<(u64, u64)>,
}

impl View for SystemState {
    type V = SystemModel;

    open spec fn view(&self) -> SystemModel {
        SystemModel {
            boot_time: self.boot_time,
            uptime: self.uptime,
            cpu_usage: self.cpu_usage,
            memory_used: self.memory_used,
            memory_total: self.memory_total,
            memory_free: self.memory_free,
            swap_used: self.swap_used,
            swap_total: self.swap_total,
            load_average: self.load_average@,
            kernel_threads: self.kernel_threads,
            user_processes: self.user_processes,
            ipc_messages: self.ipc_messages,
            fs_reads: self.fs_reads,
            fs_writes: self.fs_writes,
            network_rx: self.network_rx,
            network_tx: self.network_tx,
            kernel_status: self.kernel_status,
            subsystem_status: self.subsystem_status,
            processes: self.processes.deep_view(),
            filesystems: self.filesystems.deep_view(),
            logs: self.logs.deep_view(),
            services: self.services.deep_view(),
            network_interfaces: self.network_interfaces.deep_view(),
            cpu_history: self.cpu_history@,
            memory_history: self.memory_history@,
            network_history: self.network_history@,
        }
    }
}

/// The snapshot as seeded at process start, for a machine booted at
/// `boot_time` that has been up `uptime` seconds.
pub open spec fn spec_init(boot_time: u64, uptime: u64) -> SystemModel {
    let now = sat_add_u64(boot_time, uptime);
    SystemModel {
        boot_time,
        uptime,
        cpu_usage: 245,
        memory_used: 120,
        memory_total: MEMORY_TOTAL,
        memory_free: 280,
        swap_used: 10,
        swap_total: 200,
        load_average: seq![85u32, 112u32, 93u32],
        kernel_threads: 142,
        user_processes: 56,
        ipc_messages: 984,
        fs_reads: 812,
        fs_writes: 203,
        network_rx: 1024,
        network_tx: 2048,
        kernel_status: KernelStatus {
            scheduler: Status::Online,
            memory_manager: Status::Online,
            syscall_layer: Status::Online,
            driver_framework: Status::Online,
            network_stack: Status::Offline,
            security_sandbox: Status::Online,
            vfs_layer: Status::Online,
            process_manager: Status::Online,
        },
        subsystem_status: SubsystemStatus {
            ion_shell: Status::Online,
            package_manager: Status::Online,
            netstack_daemon: Status::Offline,
            gui_orbital: Status::Offline,
            userland_services: Status::Online,
            audio_daemon: Status::Online,
            display_manager: Status::Offline,
        },
        processes: seq![
            ProcessModel {
                pid: 1,
                name: "init"@,
                user: "root"@,
                cpu: 1,
                memory: "12 MB"@,
                status: "Running"@,
                command: "/bin/init"@,
            },
            ProcessModel {
                pid: 42,
                name: "ion"@,
                user: "bura"@,
                cpu: 12,
                memory: "45 MB"@,
                status: "Running"@,
                command: "/bin/ion"@,
            },
            ProcessModel {
                pid: 56,
                name: "pkg"@,
                user: "root"@,
                cpu: 3,
                memory: "20 MB"@,
                status: "Sleeping"@,
                command: "/usr/bin/pkg daemon"@,
            },
            ProcessModel {
                pid: 78,
                name: "editor"@,
                user: "bura"@,
                cpu: 21,
                memory: "73 MB"@,
                status: "Running"@,
                command: "/usr/bin/nano /home/bura/code.rs"@,
            },
            ProcessModel {
                pid: 102,
                name: "driver:disk"@,
                user: "root"@,
                cpu: 1,
                memory: "8 MB"@,
                status: "Running"@,
                command: "[kernel driver]"@,
            },
        ],
        filesystems: seq![
            FileSystemModel {
                mount: "/"@,
                fs_type: "RedoxFS"@,
                status: "ONLINE"@,
                used: "1.3 GB"@,
                free: "3.7 GB"@,
                usage_percent: 26,
            },
            FileSystemModel {
                mount: "/usr"@,
                fs_type: "RedoxFS"@,
                status: "ONLINE"@,
                used: "2.1 GB"@,
                free: "5.0 GB"@,
                usage_percent: 30,
            },
            FileSystemModel {
                mount: "/tmp"@,
                fs_type: "RamFS"@,
                status: "ONLINE"@,
                used: "45 MB"@,
                free: "955 MB"@,
                usage_percent: 4,
            },
            FileSystemModel {
                mount: "/mnt/net"@,
                fs_type: "NetFS"@,
                status: "OFFLINE"@,
                used: "-"@,
                free: "-"@,
                usage_percent: 0,
            },
        ],
        logs: seq![
            LogEntryModel {
                timestamp: monus64(now, 300),
                level: "WARN"@,
                source: "NetFS"@,
                message: "NetFS not mounted – subsystem offline"@,
            },
            LogEntryModel {
                timestamp: monus64(now, 600),
                level: "INFO"@,
                source: "Security"@,
                message: "Memory sandbox initialized and active"@,
            },
            LogEntryModel {
                timestamp: monus64(now, 900),
                level: "INFO"@,
                source: "TTY"@,
                message: "User 'bura' logged in from tty0"@,
            },
            LogEntryModel {
                timestamp: monus64(now, 3600),
                level: "INFO"@,
                source: "Kernel"@,
                message: "Boot sequence completed successfully"@,
            },
        ],
        services: seq![
            ServiceStatusModel {
                name: "redoxd"@,
                status: "RUNNING"@,
                uptime: "2h 15m"@,
                description: "Core system daemon"@,
            },
            ServiceStatusModel {
                name: "audiod"@,
                status: "RUNNING"@,
                uptime: "2h 14m"@,
                description: "Audio subsystem daemon"@,
            },
            ServiceStatusModel {
                name: "netstack"@,
                status: "STOPPED"@,
                uptime: "-"@,
                description: "Network stack service"@,
            },
            ServiceStatusModel {
                name: "orbital"@,
                status: "STOPPED"@,
                uptime: "-"@,
                description: "GUI display server"@,
            },
        ],
        network_interfaces: seq![
            NetworkInterfaceModel {
                name: "eth0"@,
                status: "DOWN"@,
                ip: "0.0.0.0"@,
                rx_bytes: 0,
                tx_bytes: 0,
                rx_packets: 0,
                tx_packets: 0,
            },
            NetworkInterfaceModel {
                name: "lo"@,
                status: "UP"@,
                ip: "127.0.0.1"@,
                rx_bytes: 1024,
                tx_bytes: 1024,
                rx_packets: 12,
                tx_packets: 12,
            },
        ],
        cpu_history: seq![200u32, 220u32, 245u32],
        memory_history: seq![100u32, 110u32, 120u32],
        network_history: seq![(800u64, 1200u64), (900u64, 1800u64), (1024u64, 2048u64)],
    }
}

/// Ghost model of one round of random draws: one bounded delta per scalar
/// metric and one per listed process.
#[verifier::ext_equal]
pub ghost struct DeltasModel {
    pub cpu: i32,
    pub memory: i32,
    pub ipc: i32,
    pub fs_reads: i32,
    pub fs_writes: i32,
    pub net_rx: u64,
    pub net_tx: u64,
    pub proc_cpu: Seq<i32>,
}

impl DeltasModel {
    /// Every delta lies in its field's fixed draw range.
    pub open spec fn in_range(self) -> bool {
        &&& -30 <= self.cpu < 30
        &&& -10 <= self.memory < 20
        &&& -50 <= self.ipc < 100
        &&& -30 <= self.fs_reads < 50
        &&& -20 <= self.fs_writes < 30
        &&& self.net_rx < 100
        &&& self.net_tx < 200
        &&& forall|i: int| 0 <= i < self.proc_cpu.len() ==> -5 <= #[trigger] self.proc_cpu[i] < 5
    }
}

/// One round of random draws, ready to be applied by
/// [`SystemState::update_with`].
pub struct MetricDeltas {
    pub cpu: i32,
    pub memory: i32,
    pub ipc: i32,
    pub fs_reads: i32,
    pub fs_writes: i32,
    pub net_rx: u64,
    pub net_tx: u64,
    pub proc_cpu: Vec<i32>,
}

impl View for MetricDeltas {
    type V = DeltasModel;

    open spec fn view(&self) -> DeltasModel {
        DeltasModel {
            cpu: self.cpu,
            memory: self.memory,
            ipc: self.ipc,
            fs_reads: self.fs_reads,
            fs_writes: self.fs_writes,
            net_rx: self.net_rx,
            net_tx: self.net_tx,
            proc_cpu: self.proc_cpu@,
        }
    }
}

impl MetricDeltas {
    /// Draws one delta per scalar metric and one per listed process, each
    /// from its field's fixed range.
    pub fn draw(process_count: usize) -> (d: MetricDeltas)
        ensures
            d@.in_range(),
            d@.proc_cpu.len() == process_count,
    {
        let mut proc_cpu: Vec<i32> = Vec::new();
        let mut i: usize = 0;
        while i < process_count
            invariant
                i <= process_count,
                proc_cpu@.len() == i,
                forall|j: int| 0 <= j < i ==> -5 <= #[trigger] proc_cpu@[j] < 5,
            decreases process_count - i,
        {
            let v: i32 = rng::random_in_range_i32(-5, 5);
            proc_cpu.push(v);
            i = i + 1;
        }
        MetricDeltas {
            cpu: rng::random_in_range_i32(-30, 30),
            memory: rng::random_in_range_i32(-10, 20),
            ipc: rng::random_in_range_i32(-50, 100),
            fs_reads: rng::random_in_range_i32(-30, 50),
            fs_writes: rng::random_in_range_i32(-20, 30),
            net_rx: rng::random_in_range_u64(0, 100),
            net_tx: rng::random_in_range_u64(0, 200),
            proc_cpu,
        }
    }

    /// A round of all-zero draws: applying it leaves every gauge where
    /// clamping puts it and adds nothing to any counter.
    pub fn zero(process_count: usize) -> (d: MetricDeltas)
        ensures
            d@.in_range(),
            d@.proc_cpu.len() == process_count,
            d@.cpu == 0 && d@.memory == 0 && d@.ipc == 0 && d@.fs_reads == 0 && d@.fs_writes
                == 0 && d@.net_rx == 0 && d@.net_tx == 0,
            forall|i: int| 0 <= i < process_count ==> #[trigger] d@.proc_cpu[i] == 0,
    {
        let mut proc_cpu: Vec<i32> = Vec::new();
        let mut i: usize = 0;
        while i < process_count
            invariant
                i <= process_count,
                proc_cpu@.len() == i,
                forall|j: int| 0 <= j < i ==> #[trigger] proc_cpu@[j] == 0,
            decreases process_count - i,
        {
            proc_cpu.push(0);
            i = i + 1;
        }
        MetricDeltas {
            cpu: 0,
            memory: 0,
            ipc: 0,
            fs_reads: 0,
            fs_writes: 0,
            net_rx: 0,
            net_tx: 0,
            proc_cpu,
        }
    }
}

/// The snapshot after one sampling round: every gauge nudged by its delta
/// and clamped to its range, counters floored, derived fields recomputed
/// from the perturbed primaries, and the three histories extended.
pub open spec fn spec_update(m: SystemModel, d: DeltasModel, now: u64) -> SystemModel {
    let cpu = clamp_int(m.cpu_usage + d.cpu, CPU_MIN as int, CPU_MAX as int) as u32;
    let mem = clamp_int(m.memory_used + d.memory, MEMORY_MIN as int, MEMORY_MAX as int) as u32;
    let rx = sat_add_u64(m.network_rx, d.net_rx);
    let tx = sat_add_u64(m.network_tx, d.net_tx);
    SystemModel {
        cpu_usage: cpu,
        memory_used: mem,
        memory_free: if m.memory_total >= mem {
            (m.memory_total - mem) as u32
        } else {
            0
        },
        ipc_messages: counter_next(m.ipc_messages, d.ipc as int, IPC_FLOOR),
        fs_reads: counter_next(m.fs_reads, d.fs_reads as int, FS_READS_FLOOR),
        fs_writes: counter_next(m.fs_writes, d.fs_writes as int, FS_WRITES_FLOOR),
        network_rx: rx,
        network_tx: tx,
        processes: Seq::new(
            m.processes.len(),
            |i: int|
                ProcessModel {
                    cpu: clamp_int(
                        m.processes[i].cpu + d.proc_cpu[i],
                        0,
                        PROCESS_CPU_MAX as int,
                    ) as u32,
                    ..m.processes[i]
                },
        ),
        uptime: monus64(now, m.boot_time),
        cpu_history: hist_step(m.cpu_history, cpu),
        memory_history: hist_step(m.memory_history, mem),
        network_history: hist_step(m.network_history, (rx, tx)),
        ..m
    }
}

/// One sampling round preserves every snapshot invariant, for any deltas
/// whatsoever and any clock reading: in particular the CPU gauge stays in
/// `[CPU_MIN, CPU_MAX]`, the used-memory gauge stays in
/// `[MEMORY_MIN, MEMORY_MAX]`, and the free-memory figure equals
/// total minus used exactly.
pub proof fn lemma_spec_update_wf(m: SystemModel, d: DeltasModel, now: u64)
    requires
        m.wf(),
    ensures
        spec_update(m, d, now).wf(),
        CPU_MIN <= spec_update(m, d, now).cpu_usage <= CPU_MAX,
        MEMORY_MIN <= spec_update(m, d, now).memory_used <= MEMORY_MAX,
        spec_update(m, d, now).memory_free == spec_update(m, d, now).memory_total - spec_update(
            m,
            d,
            now,
        ).memory_used,
{
    let u = spec_update(m, d, now);
    assert forall|i: int| 0 <= i < u.processes.len() implies (#[trigger] u.processes[i]).cpu
        <= PROCESS_CPU_MAX by {}
    assert forall|i: int|
        0 <= i < u.network_interfaces.len() && (#[trigger] u.network_interfaces[i]).name
            == "eth0"@ implies u.network_interfaces[i].status == eth_status_text(
        u.kernel_status.network_stack,
    ) && u.network_interfaces[i].ip == eth_ip_text(u.kernel_status.network_stack) by {
        assert(m.network_interfaces[i].name == "eth0"@);
    }
    assert forall|i: int|
        0 <= i < u.services.len() && (#[trigger] u.services[i]).name == "orbital"@
        implies u.services[i].status == orbital_status_text(u.subsystem_status.gui_orbital)
            && u.services[i].uptime == orbital_uptime_text(u.subsystem_status.gui_orbital) by {
        assert(m.services[i].name == "orbital"@);
    }
}

/// Nudges each listed process's CPU share by its own delta and clamps it
/// to `[0, PROCESS_CPU_MAX]`, touching nothing else.
fn perturb_processes(procs: &mut Vec<Process>, deltas: &Vec<i32>)
    requires
        deltas@.len() == old(procs)@.len(),
    ensures
        final(procs).deep_view() == Seq::new(
            old(procs)@.len() as nat,
            |i: int|
                (ProcessModel {
                    cpu: clamp_int(old(procs)@[i]@.cpu + deltas@[i], 0, PROCESS_CPU_MAX as int)
                        as u32,
                    ..old(procs)@[i]@
                }),
        ),
{
    let n: usize = procs.len();
    let mut i: usize = 0;
    while i < n
        invariant
            i <= n,
            n == procs@.len(),
            procs@.len() == old(procs)@.len(),
            deltas@.len() == n,
            forall|j: int| i <= j < n ==> procs@[j] == #[trigger] old(procs)@[j],
            forall|j: int|
                0 <= j < i ==> (#[trigger] procs@[j])@ == (ProcessModel {
                    cpu: clamp_int(old(procs)@[j]@.cpu + deltas@[j], 0, PROCESS_CPU_MAX as int)
                        as u32,
                    ..old(procs)@[j]@
                }),
        decreases n - i,
    {
        let base: i64 = procs[i].cpu as i64 + deltas[i] as i64;
        let nc: u32 = if base < 0 {
            0
        } else if base > PROCESS_CPU_MAX as i64 {
            PROCESS_CPU_MAX
        } else {
            base as u32
        };
        let p = &mut procs[i];
        p.cpu = nc;
        i = i + 1;
    }
    proof {
        assert(procs.deep_view() =~= Seq::new(
            old(procs)@.len() as nat,
            |i: int|
                (ProcessModel {
                    cpu: clamp_int(old(procs)@[i]@.cpu + deltas@[i], 0, PROCESS_CPU_MAX as int)
                        as u32,
                    ..old(procs)@[i]@
                }),
        ));
    }
}

/// The seeded snapshot satisfies every invariant, whatever boot instant and
/// uptime it is built for.
pub proof fn lemma_spec_init_wf(boot_time: u64, uptime: u64)
    ensures
        spec_init(boot_time, uptime).wf(),
{
    reveal_strlit("eth0");
    reveal_strlit("lo");
    reveal_strlit("orbital");
    reveal_strlit("redoxd");
    reveal_strlit("audiod");
    reveal_strlit("netstack");
    let m = spec_init(boot_time, uptime);
    assert forall|i: int|
        0 <= i < m.network_interfaces.len() && (#[trigger] m.network_interfaces[i]).name
            == "eth0"@ implies m.network_interfaces[i].status == eth_status_text(
        m.kernel_status.network_stack,
    ) && m.network_interfaces[i].ip == eth_ip_text(m.kernel_status.network_stack) by {
        assert("lo"@.len() == 2);
        assert("eth0"@.len() == 4);
        assert(i == 0);
    }
    assert forall|i: int|
        0 <= i < m.services.len() && (#[trigger] m.services[i]).name == "orbital"@
        implies m.services[i].status == orbital_status_text(m.subsystem_status.gui_orbital)
            && m.services[i].uptime == orbital_uptime_text(m.subsystem_status.gui_orbital) by {
        assert("redoxd"@.len() == 6);
        assert("audiod"@.len() == 6);
        assert("netstack"@.len() == 8);
        assert("orbital"@.len() == 7);
        assert(i == 3);
    }
}

impl SystemState {
    /// The snapshot invariants, stated over the ghost model.
    pub open spec fn wf(&self) -> bool {
        self@.wf()
    }

    /// Builds the seeded snapshot for a machine booted at `boot_time` that
    /// has been up `uptime` seconds.  Deterministic; [`SystemState::new`]
    /// draws the boot instant and delegates here.
    pub fn init(boot_time: u64, uptime: u64) -> (r: SystemState)
        ensures
            r@ == spec_init(boot_time, uptime),
            r.wf(),
    {
        let now: u64 = if boot_time <= u64::MAX - uptime {
            boot_time + uptime
        } else {
            u64::MAX
        };

        let mut processes: Vec<Process> = Vec::new();
        processes.push(Process {
            pid: 1,
            name: "init".to_owned(),
            user: "root".to_owned(),
            cpu: 1,
            memory: "12 MB".to_owned(),
            status: "Running".to_owned(),
            command: "/bin/init".to_owned(),
        });
        processes.push(Process {
            pid: 42,
            name: "ion".to_owned(),
            user: "bura".to_owned(),
            cpu: 12,
            memory: "45 MB".to_owned(),
            status: "Running".to_owned(),
            command: "/bin/ion".to_owned(),
        });
        processes.push(Process {
            pid: 56,
            name: "pkg".to_owned(),
            user: "root".to_owned(),
            cpu: 3,
            memory: "20 MB".to_owned(),
            status: "Sleeping".to_owned(),
            command: "/usr/bin/pkg daemon".to_owned(),
        });
        processes.push(Process {
            pid: 78,
            name: "editor".to_owned(),
            user: "bura".to_owned(),
            cpu: 21,
            memory: "73 MB".to_owned(),
            status: "Running".to_owned(),
            command: "/usr/bin/nano /home/bura/code.rs".to_owned(),
        });
        processes.push(Process {
            pid: 102,
            name: "driver:disk".to_owned(),
            user: "root".to_owned(),
            cpu: 1,
            memory: "8 MB".to_owned(),
            status: "Running".to_owned(),
            command: "[kernel driver]".to_owned(),
        });

        let mut filesystems: Vec<FileSystem> = Vec::new();
        filesystems.push(FileSystem {
            mount: "/".to_owned(),
            fs_type: "RedoxFS".to_owned(),
            status: "ONLINE".to_owned(),
            used: "1.3 GB".to_owned(),
            free: "3.7 GB".to_owned(),
            usage_percent: 26,
        });
        filesystems.push(FileSystem {
            mount: "/usr".to_owned(),
            fs_type: "RedoxFS".to_owned(),
            status: "ONLINE".to_owned(),
            used: "2.1 GB".to_owned(),
            free: "5.0 GB".to_owned(),
            usage_percent: 30,
        });
        filesystems.push(FileSystem {
            mount: "/tmp".to_owned(),
            fs_type: "RamFS".to_owned(),
            status: "ONLINE".to_owned(),
            used: "45 MB".to_owned(),
            free: "955 MB".to_owned(),
            usage_percent: 4,
        });
        filesystems.push(FileSystem {
            mount: "/mnt/net".to_owned(),
            fs_type: "NetFS".to_owned(),
            status: "OFFLINE".to_owned(),
            used: "-".to_owned(),
            free: "-".to_owned(),
            usage_percent: 0,
        });

        let mut logs: Vec<LogEntry> = Vec::new();
        logs.push(LogEntry {
            timestamp: if now >= 300 {
                now - 300
            } else {
                0
            },
            level: "WARN".to_owned(),
            source: "NetFS".to_owned(),
            message: "NetFS not mounted – subsystem offline".to_owned(),
        });
        logs.push(LogEntry {
            timestamp: if now >= 600 {
                now - 600
            } else {
                0
            },
            level: "INFO".to_owned(),
            source: "Security".to_owned(),
            message: "Memory sandbox initialized and active".to_owned(),
        });
        logs.push(LogEntry {
            timestamp: if now >= 900 {
                now - 900
            } else {
                0
            },
            level: "INFO".to_owned(),
            source: "TTY".to_owned(),
            message: "User 'bura' logged in from tty0".to_owned(),
        });
        logs.push(LogEntry {
            timestamp: if now >= 3600 {
                now - 3600
            } else {
                0
            },
            level: "INFO".to_owned(),
            source: "Kernel".to_owned(),
            message: "Boot sequence completed successfully".to_owned(),
        });

        let mut services: Vec<ServiceStatus> = Vec::new();
        services.push(ServiceStatus {
            name: "redoxd".to_owned(),
            status: "RUNNING".to_owned(),
            uptime: "2h 15m".to_owned(),
            description: "Core system daemon".to_owned(),
        });
        services.push(ServiceStatus {
            name: "audiod".to_owned(),
            status: "RUNNING".to_owned(),
            uptime: "2h 14m".to_owned(),
            description: "Audio subsystem daemon".to_owned(),
        });
        services.push(ServiceStatus {
            name: "netstack".to_owned(),
            status: "STOPPED".to_owned(),
            uptime: "-".to_owned(),
            description: "Network stack service".to_owned(),
        });
        services.push(ServiceStatus {
            name: "orbital".to_owned(),
            status: "STOPPED".to_owned(),
            uptime: "-".to_owned(),
            description: "GUI display server".to_owned(),
        });

        let mut network_interfaces: Vec<NetworkInterface> = Vec::new();
        network_interfaces.push(NetworkInterface {
            name: "eth0".to_owned(),
            status: "DOWN".to_owned(),
            ip: "0.0.0.0".to_owned(),
            rx_bytes: 0,
            tx_bytes: 0,
            rx_packets: 0,
            tx_packets: 0,
        });
        network_interfaces.push(NetworkInterface {
            name: "lo".to_owned(),
            status: "UP".to_owned(),
            ip: "127.0.0.1".to_owned(),
            rx_bytes: 1024,
            tx_bytes: 1024,
            rx_packets: 12,
            tx_packets: 12,
        });

        let mut cpu_samples: Vec<u32> = Vec::new();
        cpu_samples.push(200);
        cpu_samples.push(220);
        cpu_samples.push(245);
        let mut memory_samples: Vec<u32> = Vec::new();
        memory_samples.push(100);
        memory_samples.push(110);
        memory_samples.push(120);
        let mut network_samples: Vec<(u64, u64)> = Vec::new();
        network_samples.push((800, 1200));
        network_samples.push((900, 1800));
        network_samples.push((1024, 2048));

        let r = SystemState {
            boot_time,
            uptime,
            cpu_usage: 245,
            memory_used: 120,
            memory_total: MEMORY_TOTAL,
            memory_free: 280,
            swap_used: 10,
            swap_total: 200,
            load_average: [85, 112, 93],
            kernel_threads: 142,
            user_processes: 56,
            ipc_messages: 984,
            fs_reads: 812,
            fs_writes: 203,
            network_rx: 1024,
            network_tx: 2048,
            kernel_status: KernelStatus::boot_defaults(),
            subsystem_status: SubsystemStatus::boot_defaults(),
            processes,
            filesystems,
            logs,
            services,
            network_interfaces,
            cpu_history: HistoryBuffer::from_samples(cpu_samples),
            memory_history: HistoryBuffer::from_samples(memory_samples),
            network_history: HistoryBuffer::from_samples(network_samples),
        };
        proof {
            assert(r@ =~= spec_init(boot_time, uptime));
            lemma_spec_init_wf(boot_time, uptime);
        }
        r
    }

    /// Builds the starting snapshot, drawing a boot instant between 10 and
    /// 120 minutes before the current wall-clock reading, as reported at
    /// process start.
    pub fn new() -> (r: SystemState)
        ensures
            exists|boot: u64, up: u64| r@ == #[trigger] spec_init(boot, up),
            r.uptime < 7200,
            r.wf(),
    {
        let now_signed: i64 = clock::current_epoch_seconds();
        let now: u64 = if now_signed < 0 {
            0
        } else {
            now_signed as u64
        };
        let minutes: i32 = rng::random_in_range_i32(10, 120);
        let offset: u64 = (minutes as u64) * 60;
        let boot_time: u64 = if now >= offset {
            now - offset
        } else {
            0
        };
        let uptime: u64 = now - boot_time;
        let r = Self::init(boot_time, uptime);
        proof {
            assert(r@ == spec_init(boot_time, uptime));
        }
        r
    }

    /// Applies one round of deltas: the deterministic half of [`Self::update`].
    /// The new snapshot is exactly [`spec_update`] of the old one, so equal
    /// snapshots given equal draws and clock readings update to equal
    /// snapshots.
    pub fn update_with(&mut self, deltas: &MetricDeltas, now: u64)
        requires
            old(self).wf(),
            deltas@.proc_cpu.len() == old(self)@.processes.len(),
        ensures
            final(self)@ == spec_update(old(self)@, deltas@, now),
            final(self).wf(),
    {
        let cv: i64 = self.cpu_usage as i64 + deltas.cpu as i64;
        self.cpu_usage = if cv < CPU_MIN as i64 {
            CPU_MIN
        } else if cv > CPU_MAX as i64 {
            CPU_MAX
        } else {
            cv as u32
        };

        let mv: i64 = self.memory_used as i64 + deltas.memory as i64;
        self.memory_used = if mv < MEMORY_MIN as i64 {
            MEMORY_MIN
        } else if mv > MEMORY_MAX as i64 {
            MEMORY_MAX
        } else {
            mv as u32
        };
        self.memory_free = if self.memory_total >= self.memory_used {
            self.memory_total - self.memory_used
        } else {
            0
        };

        let iv: i64 = self.ipc_messages as i64 + deltas.ipc as i64;
        self.ipc_messages = if iv < IPC_FLOOR as i64 {
            IPC_FLOOR
        } else if iv > u32::MAX as i64 {
            u32::MAX
        } else {
            iv as u32
        };
        let rv: i64 = self.fs_reads as i64 + deltas.fs_reads as i64;
        self.fs_reads = if rv < FS_READS_FLOOR as i64 {
            FS_READS_FLOOR
        } else if rv > u32::MAX as i64 {
            u32::MAX
        } else {
            rv as u32
        };
        let wv: i64 = self.fs_writes as i64 + deltas.fs_writes as i64;
        self.fs_writes = if wv < FS_WRITES_FLOOR as i64 {
            FS_WRITES_FLOOR
        } else if wv > u32::MAX as i64 {
            u32::MAX
        } else {
            wv as u32
        };

        self.network_rx = if self.network_rx <= u64::MAX - deltas.net_rx {
            self.network_rx + deltas.net_rx
        } else {
            u64::MAX
        };
        self.network_tx = if self.network_tx <= u64::MAX - deltas.net_tx {
            self.network_tx + deltas.net_tx
        } else {
            u64::MAX
        };

        perturb_processes(&mut self.processes, &deltas.proc_cpu);

        self.uptime = if now >= self.boot_time {
            now - self.boot_time
        } else {
            0
        };

        let cpu_sample: u32 = self.cpu_usage;
        self.cpu_history.append(cpu_sample);
        let memory_sample: u32 = self.memory_used;
        self.memory_history.append(memory_sample);
        let network_sample: (u64, u64) = (self.network_rx, self.network_tx);
        self.network_history.append(network_sample);

        proof {
            assert(self@ =~= spec_update(old(self)@, deltas@, now));
            lemma_spec_update_wf(old(self)@, deltas@, now);
        }
    }

    /// One periodic sampling round: draws one bounded delta per metric and
    /// the current clock reading, then applies them with
    /// [`Self::update_with`].  Whatever the draws, the result is
    /// [`spec_update`] of the previous snapshot for some in-range deltas,
    /// so every invariant still holds.
    pub fn update(&mut self)
        requires
            old(self).wf(),
        ensures
            final(self).wf(),
            exists|d: DeltasModel, t: u64|
                d.in_range() && d.proc_cpu.len() == old(self)@.processes.len() && final(self)@
                    == #[trigger] spec_update(old(self)@, d, t),
    {
        let n: usize = self.processes.len();
        let deltas = MetricDeltas::draw(n);
        let now_signed: i64 = clock::current_epoch_seconds();
        let now: u64 = if now_signed < 0 {
            0
        } else {
            now_signed as u64
        };
        self.update_with(&deltas, now);
    }

    /// On-demand alias for [`Self::update`], triggered by the refresh key
    /// instead of the tick clock; the effect is identical.
    pub fn refresh(&mut self)
        requires
            old(self).wf(),
        ensures
            final(self).wf(),
            exists|d: DeltasModel, t: u64|
                d.in_range() && d.proc_cpu.len() == old(self)@.processes.len() && final(self)@
                    == #[trigger] spec_update(old(self)@, d, t),
    {
        self.update();
    }

    /// Toggles the network subsystem: flips the network stack and its
    /// daemon together and, in the same call, brings the primary interface
    /// up with the fixed assigned address or down with the null address.
    /// No intermediate state is observable.
    pub fn toggle_network(&mut self)
        requires
            old(self).wf(),
        ensures
            final(self)@ == spec_toggle_network(old(self)@),
            final(self).wf(),
    {
        let s2: Status = flip(self.kernel_status.network_stack);
        self.kernel_status.network_stack = s2;
        self.subsystem_status.netstack_daemon = s2;
        apply_eth0(&mut self.network_interfaces, s2);
        proof {
            assert(self@ =~= spec_toggle_network(old(self)@));
            lemma_spec_toggle_network_wf(old(self)@);
        }
    }

    /// Toggles the display subsystem: flips the GUI and the display manager
    /// together and, in the same call, marks the display server's service
    /// record running with a reset uptime or stopped with its uptime
    /// unavailable.  No intermediate state is observable.
    pub fn toggle_orbital(&mut self)
        requires
            old(self).wf(),
        ensures
            final(self)@ == spec_toggle_orbital(old(self)@),
            final(self).wf(),
    {
        let s2: Status = flip(self.subsystem_status.gui_orbital);
        self.subsystem_status.gui_orbital = s2;
        self.subsystem_status.display_manager = s2;
        apply_orbital(&mut self.services, s2);
        proof {
            assert(self@ =~= spec_toggle_orbital(old(self)@));
            lemma_spec_toggle_orbital_wf(old(self)@);
        }
    }

    /// The uptime as a `HH:MM:SS` clock string, each field zero-padded to
    /// two digits.
    pub fn get_uptime_string(&self) -> (r: String)
        ensures
            r@ == uptime_text(self.uptime),
    {
        let total: u64 = self.uptime;
        let hours: u64 = total / 3600;
        let minutes: u64 = (total % 3600) / 60;
        let seconds: u64 = total % 60;
        let mut out = String::new();
        push_two_digits(&mut out, hours);
        push_char(&mut out, ':');
        push_two_digits(&mut out, minutes);
        push_char(&mut out, ':');
        push_two_digits(&mut out, seconds);
        proof {
            assert(out@ =~= uptime_text(self.uptime));
        }
        out
    }
}

/// The uptime clock text for a given number of seconds since boot:
/// hours, minutes and seconds, each zero-padded to at least two digits and
/// separated by colons.
pub open spec fn uptime_text(secs: u64) -> Seq<char> {
    two_digits((secs / 3600) as nat) + seq![':'] + two_digits(((secs % 3600) / 60) as nat)
        + seq![':'] + two_digits((secs % 60) as nat)
}

/// The snapshot after one network toggle: the network stack and its daemon
/// flip together, and every interface named `eth0` is brought up with the
/// fixed assigned address or taken down with the null address, according to
/// the new status.  Nothing else moves.
pub open spec fn spec_toggle_network(m: SystemModel) -> SystemModel {
    let s2 = spec_flip(m.kernel_status.network_stack);
    SystemModel {
        kernel_status: KernelStatus { network_stack: s2, ..m.kernel_status },
        subsystem_status: SubsystemStatus { netstack_daemon: s2, ..m.subsystem_status },
        network_interfaces: Seq::new(
            m.network_interfaces.len(),
            |i: int|
                if m.network_interfaces[i].name == "eth0"@ {
                    NetworkInterfaceModel {
                        status: eth_status_text(s2),
                        ip: eth_ip_text(s2),
                        ..m.network_interfaces[i]
                    }
                } else {
                    m.network_interfaces[i]
                },
        ),
        ..m
    }
}

/// The snapshot after one display toggle: the display subsystem and its
/// manager flip together, and every service named `orbital` is marked
/// running with a reset uptime or stopped with its uptime unavailable,
/// according to the new status.  Nothing else moves.
pub open spec fn spec_toggle_orbital(m: SystemModel) -> SystemModel {
    let s2 = spec_flip(m.subsystem_status.gui_orbital);
    SystemModel {
        subsystem_status: SubsystemStatus {
            gui_orbital: s2,
            display_manager: s2,
            ..m.subsystem_status
        },
        services: Seq::new(
            m.services.len(),
            |i: int|
                if m.services[i].name == "orbital"@ {
                    ServiceStatusModel {
                        status: orbital_status_text(s2),
                        uptime: orbital_uptime_text(s2),
                        ..m.services[i]
                    }
                } else {
                    m.services[i]
                },
        ),
        ..m
    }
}

/// Sets every interface named `eth0` to the status and address dictated by
/// the new network-stack status, leaving other interfaces alone.
fn apply_eth0(interfaces: &mut Vec<NetworkInterface>, s2: Status)
    ensures
        final(interfaces).deep_view() == Seq::new(
            old(interfaces)@.len() as nat,
            |i: int|
                if old(interfaces)@[i]@.name == "eth0"@ {
                    NetworkInterfaceModel {
                        status: eth_status_text(s2),
                        ip: eth_ip_text(s2),
                        ..old(interfaces)@[i]@
                    }
                } else {
                    old(interfaces)@[i]@
                },
        ),
{
    let n: usize = interfaces.len();
    let mut i: usize = 0;
    while i < n
        invariant
            i <= n,
            n == interfaces@.len(),
            interfaces@.len() == old(interfaces)@.len(),
            forall|j: int| i <= j < n ==> interfaces@[j] == #[trigger] old(interfaces)@[j],
            forall|j: int|
                0 <= j < i ==> (#[trigger] interfaces@[j])@ == (if old(interfaces)@[j]@.name
                    == "eth0"@ {
                    NetworkInterfaceModel {
                        status: eth_status_text(s2),
                        ip: eth_ip_text(s2),
                        ..old(interfaces)@[j]@
                    }
                } else {
                    old(interfaces)@[j]@
                }),
        decreases n - i,
    {
        let is_primary: bool = {
            let target: String = "eth0".to_owned();
            interfaces[i].name == target
        };
        if is_primary {
            let p = &mut interfaces[i];
            match s2 {
                Status::Online => {
                    p.status = "UP".to_owned();
                    p.ip = "192.168.1.100".to_owned();
                },
                Status::Offline => {
                    p.status = "DOWN".to_owned();
                    p.ip = "0.0.0.0".to_owned();
                },
            }
        }
        i = i + 1;
    }
    proof {
        assert(interfaces.deep_view() =~= Seq::new(
            old(interfaces)@.len() as nat,
            |i: int|
                if old(interfaces)@[i]@.name == "eth0"@ {
                    NetworkInterfaceModel {
                        status: eth_status_text(s2),
                        ip: eth_ip_text(s2),
                        ..old(interfaces)@[i]@
                    }
                } else {
                    old(interfaces)@[i]@
                },
        ));
    }
}

/// Sets every service named `orbital` to the status and uptime dictated by
/// the new display status, leaving other services alone.
fn apply_orbital(services: &mut Vec<ServiceStatus>, s2: Status)
    ensures
        final(services).deep_view() == Seq::new(
            old(services)@.len() as nat,
            |i: int|
                if old(services)@[i]@.name == "orbital"@ {
                    ServiceStatusModel {
                        status: orbital_status_text(s2),
                        uptime: orbital_uptime_text(s2),
                        ..old(services)@[i]@
                    }
                } else {
                    old(services)@[i]@
                },
        ),
{
    let n: usize = services.len();
    let mut i: usize = 0;
    while i < n
        invariant
            i <= n,
            n == services@.len(),
            services@.len() == old(services)@.len(),
            forall|j: int| i <= j < n ==> services@[j] == #[trigger] old(services)@[j],
            forall|j: int|
                0 <= j < i ==> (#[trigger] services@[j])@ == (if old(services)@[j]@.name
                    == "orbital"@ {
                    ServiceStatusModel {
                        status: orbital_status_text(s2),
                        uptime: orbital_uptime_text(s2),
                        ..old(services)@[j]@
                    }
                } else {
                    old(services)@[j]@
                }),
        decreases n - i,
    {
        let is_orbital: bool = {
            let target: String = "orbital".to_owned();
            services[i].name == target
        };
        if is_orbital {
            let p = &mut services[i];
            match s2 {
                Status::Online => {
                    p.status = "RUNNING".to_owned();
                    p.uptime = "0m".to_owned();
                },
                Status::Offline => {
                    p.status = "STOPPED".to_owned();
                    p.uptime = "-".to_owned();
                },
            }
        }
        i = i + 1;
    }
    proof {
        assert(services.deep_view() =~= Seq::new(
            old(services)@.len() as nat,
            |i: int|
                if old(services)@[i]@.name == "orbital"@ {
                    ServiceStatusModel {
                        status: orbital_status_text(s2),
                        uptime: orbital_uptime_text(s2),
                        ..old(services)@[i]@
                    }
                } else {
                    old(services)@[i]@
                },
        ));
    }
}

/// A network toggle preserves every snapshot invariant.
pub proof fn lemma_spec_toggle_network_wf(m: SystemModel)
    requires
        m.wf(),
    ensures
        spec_toggle_network(m).wf(),
{
    let t = spec_toggle_network(m);
    assert forall|i: int|
        0 <= i < t.network_interfaces.len() && (#[trigger] t.network_interfaces[i]).name
            == "eth0"@ implies t.network_interfaces[i].status == eth_status_text(
        t.kernel_status.network_stack,
    ) && t.network_interfaces[i].ip == eth_ip_text(t.kernel_status.network_stack) by {}
    assert forall|i: int|
        0 <= i < t.services.len() && (#[trigger] t.services[i]).name == "orbital"@
        implies t.services[i].status == orbital_status_text(t.subsystem_status.gui_orbital)
            && t.services[i].uptime == orbital_uptime_text(t.subsystem_status.gui_orbital) by {
        assert(m.services[i].name == "orbital"@);
    }
}

/// A display toggle preserves every snapshot invariant.
pub proof fn lemma_spec_toggle_orbital_wf(m: SystemModel)
    requires
        m.wf(),
    ensures
        spec_toggle_orbital(m).wf(),
{
    let t = spec_toggle_orbital(m);
    assert forall|i: int|
        0 <= i < t.network_interfaces.len() && (#[trigger] t.network_interfaces[i]).name
            == "eth0"@ implies t.network_interfaces[i].status == eth_status_text(
        t.kernel_status.network_stack,
    ) && t.network_interfaces[i].ip == eth_ip_text(t.kernel_status.network_stack) by {
        assert(m.network_interfaces[i].name == "eth0"@);
    }
    assert forall|i: int|
        0 <= i < t.services.len() && (#[trigger] t.services[i]).name == "orbital"@
        implies t.services[i].status == orbital_status_text(t.subsystem_status.gui_orbital)
            && t.services[i].uptime == orbital_uptime_text(t.subsystem_status.gui_orbital) by {}
}

/// Two consecutive network toggles return every dependent field — both
/// status maps and the primary interface's status and address — to its
/// exact pre-toggle value.
pub proof fn lemma_toggle_network_round_trip(m: SystemModel)
    requires
        m.wf(),
    ensures
        spec_toggle_network(spec_toggle_network(m)) == m,
{
    let t1 = spec_toggle_network(m);
    let t2 = spec_toggle_network(t1);
    assert forall|i: int| 0 <= i < m.network_interfaces.len() implies t2.network_interfaces[i]
        == #[trigger] m.network_interfaces[i] by {
        if m.network_interfaces[i].name == "eth0"@ {
            assert(t2.network_interfaces[i] =~= m.network_interfaces[i]);
        }
    }
    assert(t2.network_interfaces =~= m.network_interfaces);
    assert(t2 =~= m);
}

/// Two consecutive display toggles return every dependent field — the
/// subsystem statuses and the display server's service record — to its
/// exact pre-toggle value.
pub proof fn lemma_toggle_orbital_round_trip(m: SystemModel)
    requires
        m.wf(),
    ensures
        spec_toggle_orbital(spec_toggle_orbital(m)) == m,
{
    let t1 = spec_toggle_orbital(m);
    let t2 = spec_toggle_orbital(t1);
    assert forall|i: int| 0 <= i < m.services.len() implies t2.services[i]
        == #[trigger] m.services[i] by {
        if m.services[i].name == "orbital"@ {
            assert(t2.services[i] =~= m.services[i]);
        }
    }
    assert(t2.services =~= m.services);
    assert(t2 =~= m);
}

} // verus!
