use crate::config::AppConfig;
use crate::container_monitor::{containers_after, ContainerListing, ContainerMonitor};
use crate::format::{
    decimal, decimal_string, duration_text, format_duration, format_hundredths, format_size,
    local_datetime_text, size_text, two_decimals,
};
use crate::gpu_monitor::{gpu_result, max_utilization, utilizations, GpuMonitor};
use crate::history::{pushed, update_history, zero_history_u32, zero_history_u64};
use crate::sort::{sort_processes, sorted_perm};
use crate::system_monitor::{
    capped, detail_row, disk_row, elapsed_since, lookup_name, lookup_pid, network_row, process_row, sum_of, visible_prefix, HostTotals, RawDisk,
    RawNetwork, RawProcess, RawProcessDetail, SystemMonitor,
};
use crate::types::{
    ContainerInfo, CoreInfo, DetailedDiskInfo, DetailedNetInfo, DetailedProcessInfo, GlobalUsage,
    GpuInfo, LoadAverage, ProcessInfo, ProcessSortBy, SystemTemperatures,
};
use vstd::prelude::*;
use vstd::string::*;

verus! {

/// Length of the histories of a fresh dashboard.
pub const DEFAULT_HISTORY: usize = 60;

/// One tick's merged result. It is replaced whole on every tick.
#[derive(Debug)]
pub struct DynamicData {
    pub processes: Vec<ProcessInfo>,
    pub detailed_process: Option<DetailedProcessInfo>,
    pub cores: Vec<CoreInfo>,
    pub disks: Vec<DetailedDiskInfo>,
    pub networks: Vec<DetailedNetInfo>,
    pub containers: Vec<ContainerInfo>,
    pub gpus: Result<Vec<GpuInfo>, String>,
    pub global_usage: GlobalUsage,
    pub temperatures: SystemTemperatures,
    pub last_update: u64,
}

/// How the container query of a tick ended.
#[derive(Clone, Debug)]
pub enum ContainerOutcome {
    /// It was not made.
    Skipped,
    /// It did not finish within the tick's budget.
    TimedOut,
    /// The runtime answered.
    Answered(ContainerListing),
}

/// Everything read from the machine for one tick.
pub struct HostReadings {
    pub now_ms: u64,
    pub processes: Vec<RawProcess>,
    pub logical_cores: u32,
    pub detail: Option<RawProcessDetail>,
    pub cores: Vec<CoreInfo>,
    pub disks: Vec<RawDisk>,
    pub networks: Vec<RawNetwork>,
    pub containers: ContainerOutcome,
    pub gpus: Result<Vec<Result<GpuInfo, String>>, String>,
    pub totals: HostTotals,
}

/// What a tick should read from the optional sources.
#[derive(Clone, Copy, Debug)]
pub struct TickPlan {
    pub read_networks: bool,
    pub query_containers: bool,
    pub container_timeout_ms: u64,
    pub query_gpu: bool,
}

/// Static facts about the host, read once.
pub struct HostFacts {
    pub os: Option<String>,
    pub kernel: Option<String>,
    pub hostname: Option<String>,
    pub cpu_brand: Option<String>,
    pub physical_cores: Option<u64>,
    pub logical_cores: u64,
    pub total_memory: u64,
    pub boot_time: Option<u64>,
    pub now_secs: u64,
    pub load_average: LoadAverage,
}

/// Merges the samplers' output into one snapshot per tick.
pub struct DataCollector {
    pub system_monitor: SystemMonitor,
    pub gpu_monitor: GpuMonitor,
    pub container_monitor: ContainerMonitor,
    pub config: AppConfig,
    pub last_update_ms: u64,
}

/// Memory use in hundredths of a percent; zero when the total is unknown.
pub open spec fn mem_percent(used: u64, total: u64) -> nat {
    if total == 0 {
        0
    } else {
        capped(used as nat * 10000 / total as nat)
    }
}

/// The GPU summary value: the largest utilization of a non-empty list.
pub open spec fn primary_utilization(gpus: Result<Vec<GpuInfo>, String>) -> Option<u32> {
    match gpus {
        Ok(v) => if v@.len() > 0 {
            Some(max_utilization(v@))
        } else {
            None
        },
        Err(_) => None,
    }
}

/// Histories of `prev` after one tick's values, each bounded by `len`; the
/// GPU history grows only when there is a GPU value.
pub open spec fn histories_follow(
    u: GlobalUsage,
    prev: GlobalUsage,
    cpu: u32,
    mem: u32,
    net_down: u64,
    net_up: u64,
    disk_read: u64,
    disk_write: u64,
    gpu: Option<u32>,
    len: nat,
) -> bool {
    &&& u.cpu_history@ == pushed(prev.cpu_history@, cpu, len)
    &&& u.mem_history@ == pushed(prev.mem_history@, mem, len)
    &&& u.net_down_history@ == pushed(prev.net_down_history@, net_down, len)
    &&& u.net_up_history@ == pushed(prev.net_up_history@, net_up, len)
    &&& u.disk_read_history@ == pushed(prev.disk_read_history@, disk_read, len)
    &&& u.disk_write_history@ == pushed(prev.disk_write_history@, disk_write, len)
    &&& u.gpu_history@ == pushed(
        prev.gpu_history@,
        match gpu {
            Some(g) => g,
            None => 0,
        },
        len,
    )
}

/// `table` is the CPU-descending table of `raws` as the host sampler in
/// state `m` lists them at `now_ms`.
pub open spec fn process_table(
    table: Seq<ProcessInfo>,
    raws: Seq<RawProcess>,
    m: SystemMonitor,
    now_ms: u64,
    show_system: bool,
    filter: Seq<char>,
    cores: u32,
) -> bool {
    let kept = visible_prefix(raws, raws.len() as int, m.self_pid, show_system, filter);
    exists|rows: Seq<ProcessInfo>, perm: Seq<int>|
        {
            &&& rows.len() == kept.len()
            &&& forall|j: int|
                0 <= j < rows.len() ==> process_row(
                    #[trigger] rows[j],
                    kept[j],
                    lookup_pid(m.prev_disk_usage@, kept[j].pid),
                    elapsed_since(now_ms, m.last_update_ms),
                    cores,
                )
            &&& sorted_perm(table, rows, perm, ProcessSortBy::Cpu, false)
        }
}

/// All figures zero and every one of the seven histories holding `len`
/// zeros.
pub open spec fn zero_usage(u: GlobalUsage, len: nat) -> bool {
    &&& u.cpu_history@ == Seq::new(len, |i: int| 0u32)
    &&& u.mem_history@ == Seq::new(len, |i: int| 0u32)
    &&& u.net_down_history@ == Seq::new(len, |i: int| 0u64)
    &&& u.net_up_history@ == Seq::new(len, |i: int| 0u64)
    &&& u.disk_read_history@ == Seq::new(len, |i: int| 0u64)
    &&& u.disk_write_history@ == Seq::new(len, |i: int| 0u64)
    &&& u.gpu_history@ == Seq::new(len, |i: int| 0u32)
    &&& u.cpu == 0 && u.mem_used == 0 && u.mem_total == 0 && u.gpu_util is None
    &&& u.net_down == 0 && u.net_up == 0 && u.disk_read == 0 && u.disk_write == 0
    &&& u.load_average == LoadAverage { one: 0, five: 0, fifteen: 0 }
    &&& u.uptime == 0 && u.boot_time == 0
}

impl GlobalUsage {
    /// Zero figures with every history holding `len` zeros.
    pub fn new(len: usize) -> (r: GlobalUsage)
        ensures
            zero_usage(r, len as nat),
    {
        GlobalUsage {
            cpu: 0,
            mem_used: 0,
            mem_total: 0,
            gpu_util: None,
            net_down: 0,
            net_up: 0,
            disk_read: 0,
            disk_write: 0,
            cpu_history: zero_history_u32(len),
            mem_history: zero_history_u32(len),
            net_down_history: zero_history_u64(len),
            net_up_history: zero_history_u64(len),
            disk_read_history: zero_history_u64(len),
            disk_write_history: zero_history_u64(len),
            gpu_history: zero_history_u32(len),
            load_average: LoadAverage { one: 0, five: 0, fifteen: 0 },
            uptime: 0,
            boot_time: 0,
        }
    }
}

impl Default for GlobalUsage {
    fn default() -> (r: GlobalUsage)
        ensures
            zero_usage(r, DEFAULT_HISTORY as nat),
    {
        GlobalUsage::new(DEFAULT_HISTORY)
    }
}

impl DynamicData {
    /// The snapshot shown before the first tick: empty lists, no GPU list,
    /// and histories of `history_length` zeros.
    pub fn empty(history_length: usize, now_ms: u64) -> (r: DynamicData)
        ensures
            r.processes@.len() == 0,
            r.containers@.len() == 0,
            r.networks@.len() == 0,
            r.cores@.len() == 0,
            r.disks@.len() == 0,
            r.detailed_process is None,
            r.gpus is Ok && r.gpus->Ok_0@.len() == 0,
            zero_usage(r.global_usage, history_length as nat),
            r.last_update == now_ms,
    {
        DynamicData {
            processes: Vec::new(),
            detailed_process: None,
            cores: Vec::new(),
            disks: Vec::new(),
            networks: Vec::new(),
            containers: Vec::new(),
            gpus: Ok(Vec::new()),
            global_usage: GlobalUsage::new(history_length),
            temperatures: SystemTemperatures { cpu_temp: None, gpu_temps: Vec::new(), motherboard_temp: None },
            last_update: now_ms,
        }
    }
}

/// Memory use in hundredths of a percent.
pub fn memory_percent(used: u64, total: u64) -> (r: u32)
    ensures
        r as nat == if mem_percent(used, total) > u32::MAX {
            u32::MAX as nat
        } else {
            mem_percent(used, total)
        },
{
    if total == 0 {
        return 0;
    }
    proof {
        assert(used as nat * 10000 <= u64::MAX as nat * 10000) by (nonlinear_arith)
            requires
                used <= u64::MAX,
        ;
    }
    let q = (used as u128) * 10000 / (total as u128);
    let c: u64 = if q > u64::MAX as u128 {
        u64::MAX
    } else {
        q as u64
    };
    if c > u32::MAX as u64 {
        u32::MAX
    } else {
        c as u32
    }
}

impl DataCollector {
    /// A collector for `config`, in a process with id `self_pid`, started at
    /// `now_ms`. `gpu_init_failure` is the GPU library's error when it could
    /// not be opened; `docker_connected` whether a runtime client was made.
    pub fn new(
        config: AppConfig,
        self_pid: u32,
        now_ms: u64,
        gpu_init_failure: Option<String>,
        docker_connected: bool,
    ) -> (r: DataCollector)
        ensures
            r.config == config,
            r.gpu_monitor.available() == gpu_init_failure.is_none(),
            gpu_init_failure.is_some() ==> r.gpu_monitor.cached_error()
                == "NVML initialization failed: "@ + gpu_init_failure->Some_0@,
            r.container_monitor.connected == docker_connected,
            r.system_monitor.self_pid == self_pid,
    {
        DataCollector {
            system_monitor: SystemMonitor::new(self_pid, now_ms),
            gpu_monitor: GpuMonitor::new(gpu_init_failure),
            container_monitor: ContainerMonitor::new(docker_connected, now_ms),
            config,
            last_update_ms: now_ms,
        }
    }

    /// What the next tick should read: networks only when enabled; containers
    /// only when enabled and a client exists, within half the sampling
    /// interval; GPUs only when enabled and the library was opened.
    pub fn plan(&self) -> (r: TickPlan)
        ensures
            r.read_networks == self.config.enable_network_monitoring,
            r.query_containers == (self.config.enable_docker && self.container_monitor.connected),
            r.container_timeout_ms == self.config.refresh_rate_ms / 2,
            r.query_gpu == (self.config.enable_gpu_monitoring && self.gpu_monitor.available()),
    {
        TickPlan {
            read_networks: self.config.enable_network_monitoring,
            query_containers: self.config.enable_docker && self.container_monitor.is_available(),
            container_timeout_ms: self.config.get_operation_timeout(),
            query_gpu: self.config.enable_gpu_monitoring && self.gpu_monitor.is_available(),
        }
    }

    /// One tick: the process table sorted by CPU, the selected process, cores,
    /// disks, networks, containers and GPUs as the settings allow, the
    /// whole-machine figures with their totals, and the histories carried
    /// over from `prev_global_usage` with this tick's values pushed.
    pub fn collect_data(
        &mut self,
        readings: HostReadings,
        show_system_processes: bool,
        filter: &str,
        prev_global_usage: GlobalUsage,
    ) -> (r: DynamicData)
        ensures
            final(self).config == old(self).config,
            final(self).last_update_ms == readings.now_ms,
            r.last_update == readings.now_ms,
            process_table(
                r.processes@,
                readings.processes@,
                old(self).system_monitor,
                readings.now_ms,
                show_system_processes,
                filter@,
                readings.logical_cores,
            ),
            r.detailed_process is Some <==> readings.detail is Some,
            readings.detail is Some ==> detail_row(
                r.detailed_process->Some_0,
                readings.detail->Some_0,
            ),
            r.cores@ == readings.cores@,
            r.disks@.len() == readings.disks@.len(),
            forall|j: int|
                0 <= j < r.disks@.len() ==> disk_row(#[trigger] r.disks@[j], readings.disks@[j]),
            !old(self).config.enable_network_monitoring ==> r.networks@.len() == 0,
            old(self).config.enable_network_monitoring ==> r.networks@.len() == readings.networks@.len(),
            old(self).config.enable_network_monitoring ==> forall|j: int|
                0 <= j < r.networks@.len() ==> network_row(
                    #[trigger] r.networks@[j],
                    readings.networks@[j],
                    lookup_name(old(self).system_monitor.prev_net_usage@, readings.networks@[j].name@),
                    elapsed_since(readings.now_ms, old(self).system_monitor.last_net_update_ms),
                ),
            !old(self).config.enable_docker ==> r.containers@.len() == 0,
            !old(self).container_monitor.connected ==> r.containers@.len() == 0,
            !(readings.containers is Answered) ==> r.containers@.len() == 0,
            old(self).config.enable_docker && readings.containers is Answered ==> containers_after(
                r.containers@,
                old(self).container_monitor,
                final(self).container_monitor,
                readings.containers->Answered_0,
                readings.now_ms,
            ),
            !(old(self).config.enable_docker && readings.containers is Answered)
                ==> final(self).container_monitor == old(self).container_monitor,
            !old(self).config.enable_gpu_monitoring ==> r.gpus is Err && r.gpus->Err_0@
                == "GPU monitoring disabled"@,
            old(self).config.enable_gpu_monitoring ==> gpu_result(
                old(self).gpu_monitor,
                readings.gpus,
                r.gpus,
            ),
            old(self).config.enable_gpu_monitoring && !old(self).gpu_monitor.available() ==> r.gpus is Err
                && r.gpus->Err_0@ == old(self).gpu_monitor.cached_error(),
            final(self).gpu_monitor.history() == match r.gpus {
                Ok(list) => pushed(
                    old(self).gpu_monitor.history(),
                    utilizations(list@),
                    old(self).config.history_length as nat,
                ),
                Err(_) => old(self).gpu_monitor.history(),
            },
            final(self).gpu_monitor.available() == old(self).gpu_monitor.available(),
            final(self).gpu_monitor.cached_error() == old(self).gpu_monitor.cached_error(),
            final(self).container_monitor.connected == old(self).container_monitor.connected,
            r.global_usage.gpu_util == primary_utilization(r.gpus),
            r.global_usage.cpu == readings.totals.cpu,
            r.global_usage.mem_used == readings.totals.mem_used,
            r.global_usage.mem_total == readings.totals.mem_total,
            r.global_usage.load_average == readings.totals.load_average,
            r.global_usage.net_down as nat == capped(
                sum_of(Seq::new(r.networks@.len(), |i: int| r.networks@[i].down_rate)),
            ),
            r.global_usage.net_up as nat == capped(
                sum_of(Seq::new(r.networks@.len(), |i: int| r.networks@[i].up_rate)),
            ),
            r.global_usage.disk_read as nat == capped(
                sum_of(Seq::new(r.processes@.len(), |i: int| r.processes@[i].disk_read_rate)),
            ),
            r.global_usage.disk_write as nat == capped(
                sum_of(Seq::new(r.processes@.len(), |i: int| r.processes@[i].disk_write_rate)),
            ),
            histories_follow(
                r.global_usage,
                prev_global_usage,
                readings.totals.cpu,
                if mem_percent(readings.totals.mem_used, readings.totals.mem_total) > u32::MAX {
                    u32::MAX
                } else {
                    mem_percent(readings.totals.mem_used, readings.totals.mem_total) as u32
                },
                r.global_usage.net_down,
                r.global_usage.net_up,
                r.global_usage.disk_read,
                r.global_usage.disk_write,
                r.global_usage.gpu_util,
                old(self).config.history_length as nat,
            ),
    {
        let now = readings.now_ms;
        self.last_update_ms = now;
        let ghost m0 = self.system_monitor;
        let mut processes = self.system_monitor.update_processes(
            &readings.processes,
            now,
            show_system_processes,
            filter,
            readings.logical_cores,
        );
        let ghost rows = processes@;
        sort_processes(&mut processes, &ProcessSortBy::Cpu, false);
        proof {
            let perm = choose|perm: Seq<int>| sorted_perm(processes@, rows, perm, ProcessSortBy::Cpu, false);
            assert(process_table(
                processes@,
                readings.processes@,
                m0,
                now,
                show_system_processes,
                filter@,
                readings.logical_cores,
            )) by {
                let kept = visible_prefix(
                    readings.processes@,
                    readings.processes@.len() as int,
                    m0.self_pid,
                    show_system_processes,
                    filter@,
                );
                assert(forall|j: int|
                    0 <= j < rows.len() ==> process_row(
                        #[trigger] rows[j],
                        kept[j],
                        lookup_pid(m0.prev_disk_usage@, kept[j].pid),
                        elapsed_since(now, m0.last_update_ms),
                        readings.logical_cores,
                    ));
            }
        }
        let detailed_process = self.system_monitor.get_detailed_process(readings.detail);
        let disks = self.system_monitor.get_disks(&readings.disks);
        let networks = if self.config.enable_network_monitoring {
            self.system_monitor.get_networks(&readings.networks, now)
        } else {
            Vec::new()
        };
        let (net_down, net_up) = self.system_monitor.calculate_total_network_io(&networks);
        let (disk_read, disk_write) = self.system_monitor.calculate_total_disk_io(&processes);
        let containers = if self.config.enable_docker && self.container_monitor.is_available() {
            match &readings.containers {
                ContainerOutcome::Answered(listing) => self.container_monitor.get_containers(
                    listing,
                    now,
                ),
                _ => Vec::new(),
            }
        } else {
            Vec::new()
        };
        let gpus = if self.config.enable_gpu_monitoring {
            self.gpu_monitor.get_gpu_info(readings.gpus)
        } else {
            Err(String::from_str("GPU monitoring disabled"))
        };
        let gpu_util = match &gpus {
            Ok(list) => self.gpu_monitor.get_primary_gpu_utilization(list),
            Err(_) => None,
        };
        match &gpus {
            Ok(list) => {
                self.gpu_monitor.update_gpu_history(list, self.config.history_length);
            },
            Err(_) => {},
        }
        let totals = readings.totals;
        let mem = memory_percent(totals.mem_used, totals.mem_total);
        let len = self.config.history_length;
        let mut global_usage = self.system_monitor.get_global_usage(
            &totals,
            net_down,
            net_up,
            disk_read,
            disk_write,
            gpu_util,
        );
        let mut prev = prev_global_usage;
        update_history(&mut prev.cpu_history, totals.cpu, len);
        update_history(&mut prev.mem_history, mem, len);
        update_history(&mut prev.net_down_history, net_down, len);
        update_history(&mut prev.net_up_history, net_up, len);
        update_history(&mut prev.disk_read_history, disk_read, len);
        update_history(&mut prev.disk_write_history, disk_write, len);
        let gpu_sample: u32 = match gpu_util {
            Some(g) => g,
            None => 0,
        };
        update_history(&mut prev.gpu_history, gpu_sample, len);
        global_usage.cpu_history = prev.cpu_history;
        global_usage.mem_history = prev.mem_history;
        global_usage.net_down_history = prev.net_down_history;
        global_usage.net_up_history = prev.net_up_history;
        global_usage.disk_read_history = prev.disk_read_history;
        global_usage.disk_write_history = prev.disk_write_history;
        global_usage.gpu_history = prev.gpu_history;
        let temperatures = self.system_monitor.get_temperatures();
        DynamicData {
            processes,
            detailed_process,
            cores: readings.cores,
            disks,
            networks,
            containers,
            gpus,
            global_usage,
            temperatures,
            last_update: now,
        }
    }
}

/// Labels and states of the health report.
pub open spec fn health_entries(config: AppConfig, docker_ok: bool, gpu_ok: bool) -> Seq<(Seq<char>, bool)> {
    seq![("System"@, true)] + (if config.enable_docker {
        seq![("Docker"@, docker_ok)]
    } else {
        seq![]
    }) + (if config.enable_gpu_monitoring {
        seq![("GPU"@, gpu_ok)]
    } else {
        seq![]
    }) + (if config.enable_network_monitoring {
        seq![("Network"@, true)]
    } else {
        seq![]
    })
}

/// A list of labelled states as texts.
pub open spec fn flag_view(v: Seq<(String, bool)>) -> Seq<(Seq<char>, bool)> {
    Seq::new(v.len(), |i: int| (v[i].0@, v[i].1))
}

/// A list of labelled texts as texts.
pub open spec fn pair_view(v: Seq<(String, String)>) -> Seq<(Seq<char>, Seq<char>)> {
    Seq::new(v.len(), |i: int| (v[i].0@, v[i].1@))
}

/// An optional text, empty when absent.
pub open spec fn or_empty(v: Option<String>) -> Seq<char> {
    match v {
        Some(s) => s@,
        None => seq![],
    }
}

/// Names of the optional sources that are on and reachable.
pub open spec fn feature_names(config: AppConfig, docker_ok: bool, gpu_ok: bool) -> Seq<Seq<char>> {
    (if config.enable_docker && docker_ok {
        seq!["Docker"@]
    } else {
        seq![]
    }) + (if config.enable_gpu_monitoring && gpu_ok {
        seq!["GPU"@]
    } else {
        seq![]
    }) + (if config.enable_network_monitoring {
        seq!["Network"@]
    } else {
        seq![]
    })
}

/// Names joined by `, `.
pub open spec fn join_names(names: Seq<Seq<char>>) -> Seq<char>
    decreases names.len(),
{
    if names.len() == 0 {
        seq![]
    } else if names.len() == 1 {
        names[0]
    } else {
        join_names(names.drop_last()) + ", "@ + names.last()
    }
}

/// The host facts shown at start-up, then the mode and the active sources.
pub open spec fn system_info_entries(
    facts: HostFacts,
    config: AppConfig,
    docker_ok: bool,
    gpu_ok: bool,
    boot_text: Seq<char>,
) -> Seq<(Seq<char>, Seq<char>)> {
    let physical: nat = match facts.physical_cores {
        Some(p) => p as nat,
        None => 0,
    };
    let uptime: Seq<char> = match facts.boot_time {
        Some(b) => duration_text(
            if facts.now_secs >= b {
                (facts.now_secs - b) as nat
            } else {
                0
            },
        ),
        None => "Unknown"@,
    };
    let base = seq![
        ("OS"@, or_empty(facts.os)),
        ("Kernel"@, or_empty(facts.kernel)),
        ("Hostname"@, or_empty(facts.hostname)),
        ("CPU"@, match facts.cpu_brand {
            Some(b) => b@,
            None => "N/A"@,
        }),
        ("Cores"@, decimal(physical) + " Physical / "@ + decimal(facts.logical_cores as nat)
            + " Logical"@),
        ("Total Memory"@, size_text(facts.total_memory as nat)),
        ("Boot Time"@, boot_text),
        ("Uptime"@, uptime),
        ("Load Average"@, two_decimals(facts.load_average.one as nat) + ", "@ + two_decimals(
            facts.load_average.five as nat,
        ) + ", "@ + two_decimals(facts.load_average.fifteen as nat)),
    ];
    let names = feature_names(config, docker_ok, gpu_ok);
    base + (if config.safe_mode {
        seq![("Mode"@, "Safe Mode"@)]
    } else {
        seq![]
    }) + (if names.len() > 0 {
        seq![("Features"@, join_names(names))]
    } else {
        seq![]
    })
}

fn pair(a: &str, b: String) -> (r: (String, String))
    ensures
        r.0@ == a@,
        r.1@ == b@,
{
    (String::from_str(a), b)
}

impl DataCollector {
    /// Availability of each subsystem: the host always; the container
    /// runtime, GPUs and networks only when enabled, the runtime as its
    /// liveness probe answered and GPUs as the library was opened.
    pub fn health_check(&self, docker_ping_ok: bool) -> (r: Vec<(String, bool)>)
        ensures
            flag_view(r@) == health_entries(self.config, docker_ping_ok, self.gpu_monitor.available()),
    {
        let mut out: Vec<(String, bool)> = Vec::new();
        out.push((String::from_str("System"), true));
        if self.config.enable_docker {
            out.push((String::from_str("Docker"), docker_ping_ok));
        }
        if self.config.enable_gpu_monitoring {
            out.push((String::from_str("GPU"), self.gpu_monitor.is_available()));
        }
        if self.config.enable_network_monitoring {
            out.push((String::from_str("Network"), true));
        }
        assert(flag_view(out@) =~= health_entries(
            self.config,
            docker_ping_ok,
            self.gpu_monitor.available(),
        ));
        out
    }

    /// Host facts for the start-up screen, then `Mode` in safe mode and the
    /// list of active sources when there is one. The boot time is shown in
    /// the machine's local time.
    pub fn get_system_info(&self, facts: &HostFacts) -> (r: Vec<(String, String)>)
        ensures
            exists|boot_text: Seq<char>|
                pair_view(r@) == system_info_entries(
                    *facts,
                    self.config,
                    self.container_monitor.connected,
                    self.gpu_monitor.available(),
                    boot_text,
                ),
            facts.boot_time is None ==> pair_view(r@) == system_info_entries(
                *facts,
                self.config,
                self.container_monitor.connected,
                self.gpu_monitor.available(),
                "Unknown"@,
            ),
    {
        let mut out: Vec<(String, String)> = Vec::new();
        let text_or = |v: &Option<String>, d: &str| -> (r: String)
            ensures
                r@ == match v {
                    Some(s) => s@,
                    None => d@,
                },
            {
                match v {
                    Some(s) => s.clone(),
                    None => String::from_str(d),
                }
            };
        proof {
            reveal_strlit("");
        }
        out.push(pair("OS", text_or(&facts.os, "")));
        out.push(pair("Kernel", text_or(&facts.kernel, "")));
        out.push(pair("Hostname", text_or(&facts.hostname, "")));
        out.push(pair("CPU", text_or(&facts.cpu_brand, "N/A")));
        let physical: u64 = match facts.physical_cores {
            Some(p) => p,
            None => 0,
        };
        let mut cores = decimal_string(physical as u128);
        cores.append(" Physical / ");
        cores.append(decimal_string(facts.logical_cores as u128).as_str());
        cores.append(" Logical");
        out.push(pair("Cores", cores));
        out.push(pair("Total Memory", format_size(facts.total_memory)));
        let boot = match facts.boot_time {
            Some(b) => match local_datetime_text(#[verifier::truncate] (b as i64)) {
                Some(t) => t,
                None => String::from_str("Unknown"),
            },
            None => String::from_str("Unknown"),
        };
        let ghost boot_text = boot@;
        out.push(pair("Boot Time", boot));
        let uptime = match facts.boot_time {
            Some(b) => format_duration(facts.now_secs.saturating_sub(b)),
            None => String::from_str("Unknown"),
        };
        out.push(pair("Uptime", uptime));
        let mut load = format_hundredths(facts.load_average.one);
        load.append(", ");
        load.append(format_hundredths(facts.load_average.five).as_str());
        load.append(", ");
        load.append(format_hundredths(facts.load_average.fifteen).as_str());
        out.push(pair("Load Average", load));
        if self.config.safe_mode {
            out.push(pair("Mode", String::from_str("Safe Mode")));
        }
        let docker = self.config.enable_docker && self.container_monitor.is_available();
        let gpu = self.config.enable_gpu_monitoring && self.gpu_monitor.is_available();
        let network = self.config.enable_network_monitoring;
        let ghost names = feature_names(
            self.config,
            self.container_monitor.connected,
            self.gpu_monitor.available(),
        );
        if docker || gpu || network {
            let mut list = String::new();
            let mut first = true;
            if docker {
                list.append("Docker");
                first = false;
            }
            if gpu {
                if !first {
                    list.append(", ");
                }
                list.append("GPU");
                first = false;
            }
            if network {
                if !first {
                    list.append(", ");
                }
                list.append("Network");
            }
            proof {
                reveal_with_fuel(join_names, 4);
                if docker && gpu && network {
                    assert(names =~= seq!["Docker"@, "GPU"@, "Network"@]);
                    assert(names.drop_last().drop_last() =~= seq!["Docker"@]);
                    assert(names.drop_last() =~= seq!["Docker"@, "GPU"@]);
                } else if docker && gpu {
                    assert(names =~= seq!["Docker"@, "GPU"@]);
                    assert(names.drop_last() =~= seq!["Docker"@]);
                } else if docker && network {
                    assert(names =~= seq!["Docker"@, "Network"@]);
                    assert(names.drop_last() =~= seq!["Docker"@]);
                } else if gpu && network {
                    assert(names =~= seq!["GPU"@, "Network"@]);
                    assert(names.drop_last() =~= seq!["GPU"@]);
                } else if docker {
                    assert(names =~= seq!["Docker"@]);
                } else if gpu {
                    assert(names =~= seq!["GPU"@]);
                } else {
                    assert(names =~= seq!["Network"@]);
                }
                assert(list@ =~= join_names(names));
            }
            out.push(pair("Features", list));
        }
        let ghost expected = system_info_entries(
            *facts,
            self.config,
            self.container_monitor.connected,
            self.gpu_monitor.available(),
            boot_text,
        );
        assert(pair_view(out@).len() == expected.len());
        assert(pair_view(out@)[0] == expected[0]);
        assert(pair_view(out@)[3] == expected[3]);
        assert(pair_view(out@)[4] == expected[4]);
        assert(pair_view(out@)[6] == expected[6]);
        assert(pair_view(out@)[7] == expected[7]);
        assert(pair_view(out@)[8] == expected[8]);
        assert(pair_view(out@)[1] == expected[1]);
        assert(pair_view(out@)[2] == expected[2]);
        assert(pair_view(out@)[5] == expected[5]);
        assert(expected.len() > 9 ==> pair_view(out@)[9] == expected[9]);
        assert(expected.len() > 10 ==> pair_view(out@)[10] == expected[10]);
        assert(pair_view(out@) =~= expected);
        out
    }
}

/// What the sampler needs from the shared state for one tick.
#[derive(Clone, Debug)]
pub struct SampleRequest {
    pub selected_pid: Option<u32>,
    pub show_system: bool,
    pub filter: String,
}

/// State shared by the sampler and the renderer: the latest snapshot and the
/// few fields the user changes.
pub struct AppState {
    pub active_tab: usize,
    pub selected_row: Option<usize>,
    pub selected_pid: Option<u32>,
    pub system_info: Vec<(String, String)>,
    pub dynamic_data: DynamicData,
    pub sort_by: ProcessSortBy,
    pub sort_ascending: bool,
    pub filter_text: String,
    pub show_system_processes: bool,
    pub paused: bool,
}

impl AppState {
    /// The state before the first tick, with histories of `history_length`
    /// zeros.
    pub fn new(history_length: usize, now_ms: u64) -> (r: AppState)
        ensures
            !r.paused,
            r.selected_row is None,
            r.selected_pid is None,
            r.dynamic_data.processes@.len() == 0,
            zero_usage(r.dynamic_data.global_usage, history_length as nat),
            r.filter_text@.len() == 0,
            !r.show_system_processes,
    {
        AppState {
            active_tab: 0,
            selected_row: None,
            selected_pid: None,
            system_info: Vec::new(),
            dynamic_data: DynamicData::empty(history_length, now_ms),
            sort_by: ProcessSortBy::Cpu,
            sort_ascending: false,
            filter_text: String::new(),
            show_system_processes: false,
            paused: false,
        }
    }

    /// The fields the sampler reads for a tick; none while paused, when the
    /// tick fetches nothing.
    pub fn sample_request(&self) -> (r: Option<SampleRequest>)
        ensures
            self.paused <==> r is None,
            r is Some ==> r->Some_0.selected_pid == self.selected_pid && r->Some_0.show_system
                == self.show_system_processes && r->Some_0.filter@ == self.filter_text@,
    {
        if self.paused {
            None
        } else {
            Some(
                SampleRequest {
                    selected_pid: self.selected_pid,
                    show_system: self.show_system_processes,
                    filter: self.filter_text.clone(),
                },
            )
        }
    }

    /// Ends a tick: while paused nothing changes; otherwise a fresh snapshot
    /// replaces the old one whole, and the first row is selected when none
    /// was.
    pub fn finish_tick(&mut self, fresh: Option<DynamicData>)
        ensures
            old(self).paused || fresh is None ==> *final(self) == *old(self),
            !old(self).paused && fresh is Some ==> {
                &&& final(self).dynamic_data == fresh->Some_0
                &&& final(self).selected_row == if old(self).selected_row is None
                    && fresh->Some_0.processes@.len() > 0 {
                    Some(0usize)
                } else {
                    old(self).selected_row
                }
                &&& final(self).paused == old(self).paused
                &&& final(self).selected_pid == old(self).selected_pid
                &&& final(self).filter_text == old(self).filter_text
                &&& final(self).show_system_processes == old(self).show_system_processes
            },
    {
        if self.paused {
            return;
        }
        match fresh {
            Some(data) => {
                let first = self.selected_row.is_none() && data.processes.len() > 0;
                self.dynamic_data = data;
                if first {
                    self.selected_row = Some(0);
                }
            },
            None => {},
        }
    }

    /// Moves the process selection one row down or up, wrapping around at
    /// either end; nothing happens on an empty table.
    pub fn handle_process_navigation(&mut self, down: bool)
        ensures
            final(self).dynamic_data == old(self).dynamic_data,
            final(self).paused == old(self).paused,
            old(self).dynamic_data.processes@.len() == 0 ==> final(self).selected_row
                == old(self).selected_row,
            old(self).dynamic_data.processes@.len() > 0 ==> {
                let n = old(self).dynamic_data.processes@.len();
                let cur: int = match old(self).selected_row {
                    Some(i) => i as int,
                    None => 0,
                };
                final(self).selected_row == Some(
                    (if down {
                        if cur >= n - 1 {
                            0
                        } else {
                            cur + 1
                        }
                    } else {
                        if cur == 0 {
                            n - 1
                        } else {
                            cur - 1
                        }
                    }) as usize,
                )
            },
    {
        let n = self.dynamic_data.processes.len();
        if n == 0 {
            return;
        }
        let cur = match self.selected_row {
            Some(i) => i,
            None => 0,
        };
        let next = if down {
            if cur >= n - 1 {
                0
            } else {
                cur + 1
            }
        } else {
            if cur == 0 {
                n - 1
            } else {
                cur - 1
            }
        };
        self.selected_row = Some(next);
    }

    /// Flips the pause flag and nothing else.
    pub fn toggle_pause(&mut self)
        ensures
            final(self).paused == !old(self).paused,
            final(self).dynamic_data == old(self).dynamic_data,
            final(self).selected_row == old(self).selected_row,
    {
        self.paused = !self.paused;
    }
}

} // verus!
