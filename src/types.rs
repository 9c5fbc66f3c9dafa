use std::collections::VecDeque;
use vstd::prelude::*;

verus! {

/// Cumulative received and transmitted byte counters of one interface.
#[derive(Clone, Copy, Debug, PartialEq, Eq, Structural)]
pub struct NetworkStats {
    pub rx: u64,
    pub tx: u64,
}

/// Cumulative I/O counters of one container.
#[derive(Clone, Copy, Debug, PartialEq, Eq, Structural)]
pub struct ContainerIoStats {
    pub net_rx: u64,
    pub net_tx: u64,
    pub disk_r: u64,
    pub disk_w: u64,
}

/// Cumulative disk counters of one process.
#[derive(Clone, Copy, Debug, PartialEq, Eq, Structural)]
pub struct DiskCounters {
    pub read: u64,
    pub written: u64,
}

/// One row of the process table. CPU is in hundredths of a percent of the
/// whole machine; rates are bytes per second.
#[derive(Clone, Debug)]
pub struct ProcessInfo {
    pub pid: String,
    pub pid_num: u32,
    pub name: String,
    pub cpu: u32,
    pub cpu_display: String,
    pub mem: u64,
    pub mem_display: String,
    pub disk_read_rate: u64,
    pub disk_write_rate: u64,
    pub disk_read: String,
    pub disk_write: String,
    pub user: String,
    pub status: String,
}

/// One row of the container table, already formatted.
#[derive(Clone, Debug)]
pub struct ContainerInfo {
    pub id: String,
    pub name: String,
    pub status: String,
    pub cpu: String,
    pub mem: String,
    pub net_down: String,
    pub net_up: String,
    pub disk_r: String,
    pub disk_w: String,
    pub image: String,
    pub ports: String,
}

/// One GPU's instantaneous counters.
#[derive(Clone, Debug, Default)]
pub struct GpuInfo {
    pub name: String,
    pub brand: String,
    pub utilization: u32,
    pub memory_used: u64,
    pub memory_total: u64,
    pub temperature: u32,
    pub power_usage: u32,
    pub graphics_clock: u32,
    pub memory_clock: u32,
    pub fan_speed: Option<u32>,
    pub driver_version: String,
}

/// Deep sample of one selected process.
#[derive(Clone, Debug)]
pub struct DetailedProcessInfo {
    pub pid: String,
    pub name: String,
    pub user: String,
    pub status: String,
    pub cpu_usage: u32,
    pub memory_rss: u64,
    pub memory_vms: u64,
    pub command: String,
    pub start_time: String,
    pub parent: Option<String>,
    pub environ: Vec<String>,
    pub threads: u32,
    pub file_descriptors: Option<u32>,
    pub cwd: Option<String>,
}

/// One logical core: usage in hundredths of a percent, frequency in Hz.
#[derive(Clone, Copy, Debug)]
pub struct CoreInfo {
    pub usage: u32,
    pub freq: u64,
    pub temp: Option<u32>,
}

/// One mounted disk.
#[derive(Clone, Debug)]
pub struct DetailedDiskInfo {
    pub name: String,
    pub device: String,
    pub fs: String,
    pub total: u64,
    pub free: u64,
    pub used: u64,
    pub read_rate: u64,
    pub write_rate: u64,
    pub read_ops: u64,
    pub write_ops: u64,
    pub is_ssd: Option<bool>,
}

/// One network interface with its rates in bytes per second.
#[derive(Clone, Debug)]
pub struct DetailedNetInfo {
    pub name: String,
    pub down_rate: u64,
    pub up_rate: u64,
    pub total_down: u64,
    pub total_up: u64,
    pub packets_rx: u64,
    pub packets_tx: u64,
    pub errors_rx: u64,
    pub errors_tx: u64,
    pub interface_type: String,
    pub is_up: bool,
}

/// Temperatures in hundredths of a degree Celsius, where known.
#[derive(Clone, Debug)]
pub struct SystemTemperatures {
    pub cpu_temp: Option<u32>,
    pub gpu_temps: Vec<u32>,
    pub motherboard_temp: Option<u32>,
}

/// Load averages over one, five and fifteen minutes, in hundredths.
#[derive(Clone, Copy, Debug, PartialEq, Eq, Structural)]
pub struct LoadAverage {
    pub one: u64,
    pub five: u64,
    pub fifteen: u64,
}

/// Whole-machine figures of one tick and the trend histories. Percentages
/// and load averages are in hundredths.
#[derive(Clone, Debug)]
pub struct GlobalUsage {
    pub cpu: u32,
    pub mem_used: u64,
    pub mem_total: u64,
    pub gpu_util: Option<u32>,
    pub net_down: u64,
    pub net_up: u64,
    pub disk_read: u64,
    pub disk_write: u64,
    pub cpu_history: VecDeque<u32>,
    pub mem_history: VecDeque<u32>,
    pub net_down_history: VecDeque<u64>,
    pub net_up_history: VecDeque<u64>,
    pub disk_read_history: VecDeque<u64>,
    pub disk_write_history: VecDeque<u64>,
    pub gpu_history: VecDeque<u32>,
    pub load_average: LoadAverage,
    pub uptime: u64,
    pub boot_time: u64,
}

/// Key a process table is sorted by.
#[derive(Clone, Copy, Debug, PartialEq, Eq, Structural)]
pub enum ProcessSortBy {
    Cpu,
    Memory,
    Name,
    Pid,
    DiskRead,
    DiskWrite,
}

impl Default for ProcessSortBy {
    fn default() -> (r: ProcessSortBy)
        ensures
            r == ProcessSortBy::Cpu,
    {
        ProcessSortBy::Cpu
    }
}

} // verus!
