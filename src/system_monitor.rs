use crate::format::{
    decimal, decimal_string, local_datetime_text, filter_accepts, format_percentage, format_rate, format_size,
    is_system_name, is_system_process, lower_of, matches_filter, percent_text, rate_text,
    size_text,
};
use crate::rate::{calculate_rate, rate_of};
use crate::types::{
    DetailedDiskInfo, DetailedProcessInfo, GlobalUsage, LoadAverage, SystemTemperatures, DetailedNetInfo, DiskCounters, NetworkStats, ProcessInfo,
};
use std::collections::{HashMap, VecDeque};
use vstd::prelude::*;
use vstd::string::*;

verus! {

broadcast use vstd::std_specs::hash::group_hash_axioms;

/// One process as the operating system reports it. CPU use is in
/// hundredths of a percent of one core; I/O counters are cumulative bytes.
#[derive(Clone, Debug)]
pub struct RawProcess {
    pub pid: u32,
    pub name: String,
    pub cpu_usage: u32,
    pub memory: u64,
    pub total_read_bytes: u64,
    pub total_written_bytes: u64,
    pub user: Option<String>,
    pub status: String,
}

/// One network interface as the operating system reports it, with
/// cumulative counters.
#[derive(Clone, Debug)]
pub struct RawNetwork {
    pub name: String,
    pub total_received: u64,
    pub total_transmitted: u64,
    pub packets_received: u64,
    pub packets_transmitted: u64,
    pub errors_received: u64,
    pub errors_transmitted: u64,
}

/// One mounted disk as the operating system reports it.
#[derive(Clone, Debug)]
pub struct RawDisk {
    pub mount_point: String,
    pub device: String,
    pub file_system: String,
    pub total_space: u64,
    pub available_space: u64,
}

/// Host sampler: keeps the previous tick's cumulative counters per process
/// and per interface, so that each tick can report rates.
pub struct SystemMonitor {
    pub prev_disk_usage: HashMap<u32, DiskCounters>,
    pub prev_net_usage: Vec<(String, NetworkStats)>,
    pub last_update_ms: u64,
    pub last_net_update_ms: u64,
    pub self_pid: u32,
}

/// Counters stored for `pid`, if any.
pub open spec fn lookup_pid(m: Map<u32, DiskCounters>, pid: u32) -> Option<DiskCounters> {
    if m.contains_key(pid) {
        Some(m[pid])
    } else {
        None
    }
}

/// Counters stored for the interface `name`: the first entry with that name.
pub open spec fn lookup_name(entries: Seq<(String, NetworkStats)>, name: Seq<char>) -> Option<
    NetworkStats,
>
    decreases entries.len(),
{
    if entries.len() == 0 {
        None
    } else if entries[0].0@ == name {
        Some(entries[0].1)
    } else {
        lookup_name(entries.drop_first(), name)
    }
}

/// Milliseconds from `then` to `now`; none when the clock went backwards.
pub open spec fn elapsed_since(now: u64, then: u64) -> u64 {
    if now >= then {
        (now - then) as u64
    } else {
        0
    }
}

/// Text a search filter is matched against: name, a space, and the id.
pub open spec fn search_text(p: RawProcess) -> Seq<char> {
    p.name@ + seq![' '] + decimal(p.pid as nat)
}

/// Whether a process is listed: not the sampler itself, not a system process
/// unless those are shown, and accepted by the search filter.
pub open spec fn process_visible(
    p: RawProcess,
    self_pid: u32,
    show_system: bool,
    filter: Seq<char>,
) -> bool {
    &&& p.pid != self_pid
    &&& show_system || !is_system_name(p.name@)
    &&& filter.len() == 0 || filter_accepts(lower_of(search_text(p)), lower_of(filter))
}

/// The processes among the first `n` that are listed, in their order.
pub open spec fn visible_prefix(
    raws: Seq<RawProcess>,
    n: int,
    self_pid: u32,
    show_system: bool,
    filter: Seq<char>,
) -> Seq<RawProcess>
    decreases n,
{
    if n <= 0 {
        seq![]
    } else {
        let before = visible_prefix(raws, n - 1, self_pid, show_system, filter);
        if process_visible(raws[n - 1], self_pid, show_system, filter) {
            before.push(raws[n - 1])
        } else {
            before
        }
    }
}

/// CPU use of one process as a share of the whole machine, in hundredths of
/// a percent, at most 100%.
pub open spec fn normalized_cpu(raw: u32, cores: u32) -> u32 {
    let c: u32 = if cores == 0 {
        1
    } else {
        cores
    };
    let v = raw / c;
    if v > 10000 {
        10000
    } else {
        v
    }
}

/// Read and write rates of a process; zero when it was not seen last tick.
pub open spec fn disk_rates(p: RawProcess, prev: Option<DiskCounters>, elapsed_ms: u64) -> (
    nat,
    nat,
) {
    match prev {
        Some(d) => (
            rate_of(p.total_read_bytes, d.read, elapsed_ms),
            rate_of(p.total_written_bytes, d.written, elapsed_ms),
        ),
        None => (0, 0),
    }
}

/// Name of a process's owner, `N/A` when unknown.
pub open spec fn user_text(u: Option<String>) -> Seq<char> {
    match u {
        Some(s) => s@,
        None => seq!['N', '/', 'A'],
    }
}

/// `row` is the table row of `p`, given the counters stored last tick.
pub open spec fn process_row(
    row: ProcessInfo,
    p: RawProcess,
    prev: Option<DiskCounters>,
    elapsed_ms: u64,
    cores: u32,
) -> bool {
    let (rr, wr) = disk_rates(p, prev, elapsed_ms);
    &&& row.pid@ == decimal(p.pid as nat)
    &&& row.pid_num == p.pid
    &&& row.name@ == p.name@
    &&& row.cpu == normalized_cpu(p.cpu_usage, cores)
    &&& row.cpu_display@ == percent_text(row.cpu as nat)
    &&& row.mem == p.memory
    &&& row.mem_display@ == size_text(p.memory as nat)
    &&& row.disk_read_rate as nat == rr
    &&& row.disk_write_rate as nat == wr
    &&& row.disk_read@ == rate_text(rr)
    &&& row.disk_write@ == rate_text(wr)
    &&& row.user@ == user_text(p.user)
    &&& row.status@ == p.status@
}

/// The counters to keep after a tick: those of every process seen, keyed by
/// id; a later reading of the same id wins.
pub open spec fn disk_table(raws: Seq<RawProcess>) -> Map<u32, DiskCounters>
    decreases raws.len(),
{
    if raws.len() == 0 {
        Map::empty()
    } else {
        disk_table(raws.drop_last()).insert(
            raws.last().pid,
            DiskCounters { read: raws.last().total_read_bytes, written: raws.last().total_written_bytes },
        )
    }
}

/// `row` is the table row of interface `n`, given the counters stored last tick.
pub open spec fn network_row(
    row: DetailedNetInfo,
    n: RawNetwork,
    prev: Option<NetworkStats>,
    elapsed_ms: u64,
) -> bool {
    &&& row.name@ == n.name@
    &&& row.down_rate as nat == match prev {
        Some(s) => rate_of(n.total_received, s.rx, elapsed_ms),
        None => 0,
    }
    &&& row.up_rate as nat == match prev {
        Some(s) => rate_of(n.total_transmitted, s.tx, elapsed_ms),
        None => 0,
    }
    &&& row.total_down == n.total_received
    &&& row.total_up == n.total_transmitted
    &&& row.packets_rx == n.packets_received
    &&& row.packets_tx == n.packets_transmitted
    &&& row.errors_rx == n.errors_received
    &&& row.errors_tx == n.errors_transmitted
    &&& row.interface_type@ == seq!['U', 'n', 'k', 'n', 'o', 'w', 'n']
    &&& row.is_up
}

/// Sum of a sequence of rates.
pub open spec fn sum_of(s: Seq<u64>) -> nat
    decreases s.len(),
{
    if s.len() == 0 {
        0
    } else {
        sum_of(s.drop_last()) + s.last() as nat
    }
}

/// `n`, or the largest `u64` when it is larger.
pub open spec fn capped(n: nat) -> nat {
    if n > u64::MAX {
        u64::MAX as nat
    } else {
        n
    }
}

fn find_disk(m: &HashMap<u32, DiskCounters>, pid: u32) -> (r: Option<DiskCounters>)
    ensures
        r == lookup_pid(m@, pid),
{
    match m.get(&pid) {
        Some(c) => Some(*c),
        None => None,
    }
}

fn find_net(entries: &Vec<(String, NetworkStats)>, name: &String) -> (r: Option<NetworkStats>)
    ensures
        r == lookup_name(entries@, name@),
{
    let mut i: usize = 0;
    assert(entries@.skip(0) =~= entries@);
    while i < entries.len()
        invariant
            i <= entries@.len(),
            lookup_name(entries@, name@) == lookup_name(entries@.skip(i as int), name@),
        decreases entries@.len() - i,
    {
        assert(entries@.skip(i as int)[0] == entries@[i as int]);
        if entries[i].0 == *name {
            return Some(entries[i].1);
        }
        assert(entries@.skip(i as int).drop_first() =~= entries@.skip(i + 1));
        i = i + 1;
    }
    None
}

/// Whether a process is listed under the given display options.
pub fn is_visible(p: &RawProcess, self_pid: u32, show_system: bool, filter: &str) -> (r: bool)
    ensures
        r == process_visible(*p, self_pid, show_system, filter@),
{
    if p.pid == self_pid {
        return false;
    }
    if !show_system && is_system_process(p.name.as_str()) {
        return false;
    }
    if !filter.is_empty() {
        let mut text = p.name.clone();
        proof {
            reveal_strlit(" ");
        }
        text.append(" ");
        let id = decimal_string(p.pid as u128);
        text.append(id.as_str());
        assert(text@ =~= search_text(*p));
        if !matches_filter(text.as_str(), filter) {
            return false;
        }
    }
    true
}

/// The table row of one process, given the counters stored for it last tick.
pub fn process_row_of(p: &RawProcess, prev: Option<DiskCounters>, elapsed_ms: u64, cores: u32) -> (r:
    ProcessInfo)
    ensures
        process_row(r, *p, prev, elapsed_ms, cores),
{
    let (rr, wr) = match prev {
        Some(d) => (
            calculate_rate(p.total_read_bytes, d.read, elapsed_ms),
            calculate_rate(p.total_written_bytes, d.written, elapsed_ms),
        ),
        None => (0, 0),
    };
    let c: u32 = if cores == 0 {
        1
    } else {
        cores
    };
    let v = p.cpu_usage / c;
    let cpu: u32 = if v > 10000 {
        10000
    } else {
        v
    };
    let user = match &p.user {
        Some(u) => u.clone(),
        None => {
            proof {
                reveal_strlit("N/A");
            }
            let s = String::from_str("N/A");
            assert(s@ =~= seq!['N', '/', 'A']);
            s
        },
    };
    ProcessInfo {
        pid: decimal_string(p.pid as u128),
        pid_num: p.pid,
        name: p.name.clone(),
        cpu,
        cpu_display: format_percentage(cpu as u64),
        mem: p.memory,
        mem_display: format_size(p.memory),
        disk_read_rate: rr,
        disk_write_rate: wr,
        disk_read: format_rate(rr),
        disk_write: format_rate(wr),
        user,
        status: p.status.clone(),
    }
}

/// `d` is the row of disk `s`: its names, sizes and used space; no rates
/// are measured.
pub open spec fn disk_row(d: DetailedDiskInfo, s: RawDisk) -> bool {
    &&& d.name@ == s.mount_point@
    &&& d.device@ == s.device@
    &&& d.fs@ == s.file_system@
    &&& d.total == s.total_space
    &&& d.free == s.available_space
    &&& d.used as int == if s.total_space >= s.available_space {
        s.total_space - s.available_space
    } else {
        0
    }
    &&& d.read_rate == 0 && d.write_rate == 0
    &&& d.read_ops == 0 && d.write_ops == 0
    &&& d.is_ssd.is_none()
}

/// Entries of a name-keyed table with their names as texts.
pub open spec fn named_view<V>(t: Seq<(String, V)>) -> Seq<(Seq<char>, V)> {
    Seq::new(t.len(), |i: int| (t[i].0@, t[i].1))
}

/// No two entries of a name-keyed table share a name.
pub open spec fn keys_unique<V>(t: Seq<(Seq<char>, V)>) -> bool {
    forall|a: int, b: int| 0 <= a < b < t.len() ==> t[a].0 != t[b].0
}

/// No later interface has the name of interface `i`.
pub open spec fn last_with_name(raws: Seq<RawNetwork>, i: int) -> bool {
    forall|j: int| i < j < raws.len() ==> raws[j].name@ != raws[i].name@
}

/// The counters to keep after a tick, from the first `n` interfaces: one
/// entry per name, from its last reading, in order.
pub open spec fn net_table(raws: Seq<RawNetwork>, n: int) -> Seq<(Seq<char>, NetworkStats)>
    decreases n,
{
    if n <= 0 {
        seq![]
    } else {
        let before = net_table(raws, n - 1);
        if last_with_name(raws, n - 1) {
            before.push(
                (
                    raws[n - 1].name@,
                    NetworkStats { rx: raws[n - 1].total_received, tx: raws[n - 1].total_transmitted },
                ),
            )
        } else {
            before
        }
    }
}

fn is_last_name(raws: &Vec<RawNetwork>, i: usize) -> (r: bool)
    requires
        i < raws@.len(),
    ensures
        r == last_with_name(raws@, i as int),
{
    let mut j: usize = i;
    while j < raws.len()
        invariant
            i <= j <= raws@.len(),
            forall|k: int| i < k < j ==> raws@[k].name@ != raws@[i as int].name@,
        decreases raws@.len() - j,
    {
        if j > i && raws[j].name == raws[i].name {
            return false;
        }
        j = j + 1;
    }
    true
}

impl SystemMonitor {
    /// A sampler with no stored counters, for a process with id `self_pid`,
    /// started at `now_ms`.
    pub fn new(self_pid: u32, now_ms: u64) -> (r: SystemMonitor)
        ensures
            r.prev_disk_usage@ == Map::<u32, DiskCounters>::empty(),
            r.prev_net_usage@.len() == 0,
            r.last_update_ms == now_ms,
            r.last_net_update_ms == now_ms,
            r.self_pid == self_pid,
    {
        SystemMonitor {
            prev_disk_usage: HashMap::new(),
            prev_net_usage: Vec::new(),
            last_update_ms: now_ms,
            last_net_update_ms: now_ms,
            self_pid,
        }
    }

    /// The process table of this tick, read at `now_ms` from `raws`: the
    /// listed processes in order, each with disk rates against last tick's
    /// counters. The stored counters are replaced by those of every process
    /// seen, so exited processes are forgotten.
    pub fn update_processes(
        &mut self,
        raws: &Vec<RawProcess>,
        now_ms: u64,
        show_system: bool,
        filter: &str,
        logical_cores: u32,
    ) -> (r: Vec<ProcessInfo>)
        ensures
            final(self).last_update_ms == now_ms,
            final(self).self_pid == old(self).self_pid,
            final(self).prev_net_usage == old(self).prev_net_usage,
            final(self).last_net_update_ms == old(self).last_net_update_ms,
            final(self).prev_disk_usage@ == disk_table(raws@),
            r@.len() == visible_prefix(
                raws@,
                raws@.len() as int,
                old(self).self_pid,
                show_system,
                filter@,
            ).len(),
            forall|j: int|
                0 <= j < r@.len() ==> {
                    let p = #[trigger] visible_prefix(
                        raws@,
                        raws@.len() as int,
                        old(self).self_pid,
                        show_system,
                        filter@,
                    )[j];
                    process_row(
                        r@[j],
                        p,
                        lookup_pid(old(self).prev_disk_usage@, p.pid),
                        elapsed_since(now_ms, old(self).last_update_ms),
                        logical_cores,
                    )
                },
    {
        let elapsed = now_ms.saturating_sub(self.last_update_ms);
        self.last_update_ms = now_ms;
        let ghost prev = self.prev_disk_usage@;
        let ghost self_pid = self.self_pid;
        let mut rows: Vec<ProcessInfo> = Vec::new();
        let mut table: HashMap<u32, DiskCounters> = HashMap::new();
        let mut i: usize = 0;
        while i < raws.len()
            invariant
                i <= raws@.len(),
                prev == old(self).prev_disk_usage@,
                self_pid == old(self).self_pid,
                self.self_pid == self_pid,
                self.prev_disk_usage@ == prev,
                self.last_update_ms == now_ms,
                self.prev_net_usage == old(self).prev_net_usage,
                self.last_net_update_ms == old(self).last_net_update_ms,
                elapsed == elapsed_since(now_ms, old(self).last_update_ms),
                table@ == disk_table(raws@.subrange(0, i as int)),
                rows@.len() == visible_prefix(raws@, i as int, self_pid, show_system, filter@).len(),
                forall|j: int|
                    0 <= j < rows@.len() ==> {
                        let p = #[trigger] visible_prefix(
                            raws@,
                            i as int,
                            self_pid,
                            show_system,
                            filter@,
                        )[j];
                        process_row(rows@[j], p, lookup_pid(prev, p.pid), elapsed, logical_cores)
                    },
            decreases raws@.len() - i,
        {
            let p = &raws[i];
            let counters = DiskCounters { read: p.total_read_bytes, written: p.total_written_bytes };
            let ghost before = visible_prefix(raws@, i as int, self_pid, show_system, filter@);
            if is_visible(p, self.self_pid, show_system, filter) {
                let prev_counters = find_disk(&self.prev_disk_usage, p.pid);
                let row = process_row_of(p, prev_counters, elapsed, logical_cores);
                rows.push(row);
                assert(visible_prefix(raws@, i + 1, self_pid, show_system, filter@) == before.push(
                    raws@[i as int],
                ));
            } else {
                assert(visible_prefix(raws@, i + 1, self_pid, show_system, filter@) == before);
            }
            table.insert(p.pid, counters);
            assert(raws@.subrange(0, i + 1).drop_last() =~= raws@.subrange(0, i as int));
            assert(table@ =~= disk_table(raws@.subrange(0, i + 1)));
            i = i + 1;
        }
        assert(raws@.subrange(0, raws@.len() as int) =~= raws@);
        self.prev_disk_usage = table;
        rows
    }

    /// Interfaces of this tick, read at `now_ms` from `raws`, each with rates
    /// against last tick's counters. The stored counters are replaced by
    /// those of every interface seen.
    pub fn get_networks(&mut self, raws: &Vec<RawNetwork>, now_ms: u64) -> (r: Vec<DetailedNetInfo>)
        ensures
            final(self).last_net_update_ms == now_ms,
            final(self).self_pid == old(self).self_pid,
            final(self).prev_disk_usage == old(self).prev_disk_usage,
            final(self).last_update_ms == old(self).last_update_ms,
            named_view(final(self).prev_net_usage@) == net_table(raws@, raws@.len() as int),
            keys_unique(named_view(final(self).prev_net_usage@)),
            r@.len() == raws@.len(),
            forall|j: int|
                0 <= j < r@.len() ==> network_row(
                    #[trigger] r@[j],
                    raws@[j],
                    lookup_name(old(self).prev_net_usage@, raws@[j].name@),
                    elapsed_since(now_ms, old(self).last_net_update_ms),
                ),
    {
        let elapsed = now_ms.saturating_sub(self.last_net_update_ms);
        self.last_net_update_ms = now_ms;
        let mut rows: Vec<DetailedNetInfo> = Vec::new();
        let mut table: Vec<(String, NetworkStats)> = Vec::new();
        let ghost mut src: Seq<int> = seq![];
        let mut i: usize = 0;
        assert(named_view(table@) =~= net_table(raws@, 0));
        while i < raws.len()
            invariant
                i <= raws@.len(),
                named_view(table@) == net_table(raws@, i as int),
                src.len() == table@.len(),
                forall|a: int|
                    0 <= a < src.len() ==> 0 <= #[trigger] src[a] < i && last_with_name(raws@, src[a])
                        && table@[a].0@ == raws@[src[a]].name@,
                forall|a: int, b: int| 0 <= a < b < src.len() ==> src[a] < src[b],
                keys_unique(named_view(table@)),
                self.prev_net_usage == old(self).prev_net_usage,
                self.self_pid == old(self).self_pid,
                self.prev_disk_usage == old(self).prev_disk_usage,
                self.last_update_ms == old(self).last_update_ms,
                self.last_net_update_ms == now_ms,
                elapsed == elapsed_since(now_ms, old(self).last_net_update_ms),
                rows@.len() == i,
                forall|j: int|
                    0 <= j < i ==> network_row(
                        #[trigger] rows@[j],
                        raws@[j],
                        lookup_name(old(self).prev_net_usage@, raws@[j].name@),
                        elapsed,
                    ),
            decreases raws@.len() - i,
        {
            let n = &raws[i];
            let prev = find_net(&self.prev_net_usage, &n.name);
            let (down, up) = match prev {
                Some(s) => (
                    calculate_rate(n.total_received, s.rx, elapsed),
                    calculate_rate(n.total_transmitted, s.tx, elapsed),
                ),
                None => (0, 0),
            };
            proof {
                reveal_strlit("Unknown");
            }
            let kind = String::from_str("Unknown");
            assert(kind@ =~= seq!['U', 'n', 'k', 'n', 'o', 'w', 'n']);
            rows.push(
                DetailedNetInfo {
                    name: n.name.clone(),
                    down_rate: down,
                    up_rate: up,
                    total_down: n.total_received,
                    total_up: n.total_transmitted,
                    packets_rx: n.packets_received,
                    packets_tx: n.packets_transmitted,
                    errors_rx: n.errors_received,
                    errors_tx: n.errors_transmitted,
                    interface_type: kind,
                    is_up: true,
                },
            );
            if is_last_name(raws, i) {
                let ghost before = table@;
                table.push((n.name.clone(), NetworkStats { rx: n.total_received, tx: n.total_transmitted }));
                proof {
                    src = src.push(i as int);
                    assert(named_view(table@) =~= named_view(before).push(
                        (raws@[i as int].name@, NetworkStats {
                            rx: raws@[i as int].total_received,
                            tx: raws@[i as int].total_transmitted,
                        }),
                    ));
                    assert forall|a: int, b: int|
                        0 <= a < b < named_view(table@).len() implies named_view(table@)[a].0
                        != named_view(table@)[b].0 by {
                        if b == before.len() {
                            assert(table@[a].0@ == raws@[src[a]].name@);
                            assert(src[a] < i);
                        } else {
                            assert(named_view(before)[a].0 != named_view(before)[b].0);
                        }
                    }
                }
            } else {
                assert(named_view(table@) =~= net_table(raws@, i + 1));
            }
            i = i + 1;
        }
        self.prev_net_usage = table;
        rows
    }

    /// Mounted disks with their used space.
    pub fn get_disks(&self, raws: &Vec<RawDisk>) -> (r: Vec<DetailedDiskInfo>)
        ensures
            r@.len() == raws@.len(),
            forall|j: int| 0 <= j < r@.len() ==> disk_row(#[trigger] r@[j], raws@[j]),
    {
        let mut rows: Vec<DetailedDiskInfo> = Vec::new();
        let mut i: usize = 0;
        while i < raws.len()
            invariant
                i <= raws@.len(),
                rows@.len() == i,
                forall|j: int|
                    0 <= j < i ==> {
                        let d = #[trigger] rows@[j];
                        let s = raws@[j];
                        &&& d.name@ == s.mount_point@
                        &&& d.device@ == s.device@
                        &&& d.fs@ == s.file_system@
                        &&& d.total == s.total_space
                        &&& d.free == s.available_space
                        &&& d.used as int == if s.total_space >= s.available_space {
                            s.total_space - s.available_space
                        } else {
                            0
                        }
                        &&& d.read_rate == 0 && d.write_rate == 0
                        &&& d.read_ops == 0 && d.write_ops == 0
                        &&& d.is_ssd.is_none()
                    },
            decreases raws@.len() - i,
        {
            let s = &raws[i];
            rows.push(
                DetailedDiskInfo {
                    name: s.mount_point.clone(),
                    device: s.device.clone(),
                    fs: s.file_system.clone(),
                    total: s.total_space,
                    free: s.available_space,
                    used: s.total_space.saturating_sub(s.available_space),
                    read_rate: 0,
                    write_rate: 0,
                    read_ops: 0,
                    write_ops: 0,
                    is_ssd: None,
                },
            );
            i = i + 1;
        }
        rows
    }

    /// Summed disk read and write rates of the listed processes, each capped
    /// at the largest `u64`.
    pub fn calculate_total_disk_io(&self, processes: &Vec<ProcessInfo>) -> (r: (u64, u64))
        ensures
            r.0 as nat == capped(
                sum_of(Seq::new(processes@.len(), |i: int| processes@[i].disk_read_rate)),
            ),
            r.1 as nat == capped(
                sum_of(Seq::new(processes@.len(), |i: int| processes@[i].disk_write_rate)),
            ),
    {
        let ghost reads = Seq::new(processes@.len(), |i: int| processes@[i].disk_read_rate);
        let ghost writes = Seq::new(processes@.len(), |i: int| processes@[i].disk_write_rate);
        let mut read: u64 = 0;
        let mut write: u64 = 0;
        let mut i: usize = 0;
        assert(reads.subrange(0, 0) =~= Seq::<u64>::empty());
        assert(writes.subrange(0, 0) =~= Seq::<u64>::empty());
        while i < processes.len()
            invariant
                i <= processes@.len(),
                reads == Seq::new(processes@.len(), |i: int| processes@[i].disk_read_rate),
                writes == Seq::new(processes@.len(), |i: int| processes@[i].disk_write_rate),
                read as nat == capped(sum_of(reads.subrange(0, i as int))),
                write as nat == capped(sum_of(writes.subrange(0, i as int))),
            decreases processes@.len() - i,
        {
            assert(reads.subrange(0, i + 1).drop_last() =~= reads.subrange(0, i as int));
            assert(writes.subrange(0, i + 1).drop_last() =~= writes.subrange(0, i as int));
            read = read.saturating_add(processes[i].disk_read_rate);
            write = write.saturating_add(processes[i].disk_write_rate);
            i = i + 1;
        }
        assert(reads.subrange(0, i as int) =~= reads);
        assert(writes.subrange(0, i as int) =~= writes);
        (read, write)
    }

    /// Summed download and upload rates of the interfaces, each capped at the
    /// largest `u64`.
    pub fn calculate_total_network_io(&self, networks: &Vec<DetailedNetInfo>) -> (r: (u64, u64))
        ensures
            r.0 as nat == capped(
                sum_of(Seq::new(networks@.len(), |i: int| networks@[i].down_rate)),
            ),
            r.1 as nat == capped(sum_of(Seq::new(networks@.len(), |i: int| networks@[i].up_rate))),
    {
        let ghost downs = Seq::new(networks@.len(), |i: int| networks@[i].down_rate);
        let ghost ups = Seq::new(networks@.len(), |i: int| networks@[i].up_rate);
        let mut down: u64 = 0;
        let mut up: u64 = 0;
        let mut i: usize = 0;
        assert(downs.subrange(0, 0) =~= Seq::<u64>::empty());
        assert(ups.subrange(0, 0) =~= Seq::<u64>::empty());
        while i < networks.len()
            invariant
                i <= networks@.len(),
                downs == Seq::new(networks@.len(), |i: int| networks@[i].down_rate),
                ups == Seq::new(networks@.len(), |i: int| networks@[i].up_rate),
                down as nat == capped(sum_of(downs.subrange(0, i as int))),
                up as nat == capped(sum_of(ups.subrange(0, i as int))),
            decreases networks@.len() - i,
        {
            assert(downs.subrange(0, i + 1).drop_last() =~= downs.subrange(0, i as int));
            assert(ups.subrange(0, i + 1).drop_last() =~= ups.subrange(0, i as int));
            down = down.saturating_add(networks[i].down_rate);
            up = up.saturating_add(networks[i].up_rate);
            i = i + 1;
        }
        assert(downs.subrange(0, i as int) =~= downs);
        assert(ups.subrange(0, i as int) =~= ups);
        (down, up)
    }
}

/// One process as the operating system reports it when it is inspected
/// closely. CPU use is in hundredths of a percent of one core; the start
/// time is in seconds since the Unix epoch.
#[derive(Clone, Debug)]
pub struct RawProcessDetail {
    pub pid: u32,
    pub name: String,
    pub user: Option<String>,
    pub status: String,
    pub cpu_usage: u32,
    pub memory: u64,
    pub virtual_memory: u64,
    pub cmd: Vec<String>,
    pub start_time: u64,
    pub parent: Option<u32>,
    pub environ: Vec<String>,
    pub threads: Option<u32>,
    pub cwd: Option<String>,
}

/// Words joined by single spaces.
pub open spec fn join_words(words: Seq<Seq<char>>) -> Seq<char>
    decreases words.len(),
{
    if words.len() == 0 {
        seq![]
    } else if words.len() == 1 {
        words[0]
    } else {
        join_words(words.drop_last()) + seq![' '] + words.last()
    }
}

/// The texts of a list of strings.
pub open spec fn texts(v: Seq<String>) -> Seq<Seq<char>> {
    Seq::new(v.len(), |i: int| v[i]@)
}

/// `d` is the deep sample of process `p`; the start time is local time and
/// depends on the machine, so it is not stated.
pub open spec fn detail_row(d: DetailedProcessInfo, p: RawProcessDetail) -> bool {
    &&& d.pid@ == decimal(p.pid as nat)
    &&& d.name@ == p.name@
    &&& d.user@ == user_text(p.user)
    &&& d.status@ == p.status@
    &&& d.cpu_usage == p.cpu_usage
    &&& d.memory_rss == p.memory
    &&& d.memory_vms == p.virtual_memory
    &&& d.command@ == join_words(texts(p.cmd@))
    &&& d.parent is Some <==> p.parent is Some
    &&& p.parent is Some ==> d.parent->Some_0@ == decimal(p.parent->Some_0 as nat)
    &&& d.environ@ == p.environ@
    &&& d.threads == match p.threads {
        Some(t) => t,
        None => 0,
    }
    &&& d.file_descriptors is None
    &&& d.cwd == p.cwd
}

/// The command line of a process: its words joined by spaces.
pub fn join_command(words: &Vec<String>) -> (r: String)
    ensures
        r@ == join_words(texts(words@)),
{
    let mut out = String::new();
    let mut i: usize = 0;
    assert(texts(words@.subrange(0, 0)) =~= Seq::<Seq<char>>::empty());
    while i < words.len()
        invariant
            i <= words@.len(),
            out@ == join_words(texts(words@.subrange(0, i as int))),
        decreases words@.len() - i,
    {
        let ghost before = out@;
        proof {
            reveal_strlit(" ");
        }
        if i > 0 {
            out.append(" ");
        }
        out.append(words[i].as_str());
        let ghost ts = texts(words@.subrange(0, i + 1));
        assert(ts.drop_last() =~= texts(words@.subrange(0, i as int)));
        assert(ts.last() == words@[i as int]@);
        if i == 0 {
            assert(before =~= Seq::<char>::empty());
            assert(out@ =~= ts[0]);
        }
        assert(out@ =~= join_words(texts(words@.subrange(0, i + 1))));
        i = i + 1;
    }
    assert(words@.subrange(0, i as int) =~= words@);
    out
}

fn copy_strings(v: &Vec<String>) -> (r: Vec<String>)
    ensures
        r@ == v@,
{
    let mut out: Vec<String> = Vec::new();
    let mut i: usize = 0;
    while i < v.len()
        invariant
            i <= v@.len(),
            out@ =~= v@.subrange(0, i as int),
        decreases v@.len() - i,
    {
        out.push(v[i].clone());
        i = i + 1;
    }
    assert(v@.subrange(0, i as int) =~= v@);
    out
}

impl SystemMonitor {
    /// Deep sample of the selected process; none when it no longer exists.
    pub fn get_detailed_process(&self, raw: Option<RawProcessDetail>) -> (r: Option<
        DetailedProcessInfo,
    >)
        ensures
            raw is None <==> r is None,
            raw is Some ==> detail_row(r->Some_0, raw->Some_0),
    {
        let p = match raw {
            Some(p) => p,
            None => {
                return None;
            },
        };
        let start_time = match local_datetime_text(p.start_time as i64) {
            Some(t) => t,
            None => String::from_str("Invalid time"),
        };
        let user = match &p.user {
            Some(u) => u.clone(),
            None => {
                proof {
                    reveal_strlit("N/A");
                }
                let s = String::from_str("N/A");
                assert(s@ =~= seq!['N', '/', 'A']);
                s
            },
        };
        let parent = match p.parent {
            Some(pp) => Some(decimal_string(pp as u128)),
            None => None,
        };
        let threads = match p.threads {
            Some(t) => t,
            None => 0,
        };
        Some(
            DetailedProcessInfo {
                pid: decimal_string(p.pid as u128),
                name: p.name,
                user,
                status: p.status,
                cpu_usage: p.cpu_usage,
                memory_rss: p.memory,
                memory_vms: p.virtual_memory,
                command: join_command(&p.cmd),
                start_time,
                parent,
                environ: p.environ,
                threads,
                file_descriptors: None,
                cwd: p.cwd,
            },
        )
    }
}

/// Whole-machine figures read this tick. CPU use is in hundredths of a
/// percent; times are in seconds since the Unix epoch.
#[derive(Clone, Copy, Debug)]
pub struct HostTotals {
    pub cpu: u32,
    pub mem_used: u64,
    pub mem_total: u64,
    pub load_average: LoadAverage,
    pub boot_time: Option<u64>,
    pub now_secs: u64,
}

impl SystemMonitor {
    /// Whole-machine figures of a tick with the totals the collector summed
    /// from the other samples; the histories are left empty for the caller.
    pub fn get_global_usage(
        &self,
        totals: &HostTotals,
        total_net_down: u64,
        total_net_up: u64,
        total_disk_read: u64,
        total_disk_write: u64,
        gpu_util: Option<u32>,
    ) -> (r: GlobalUsage)
        ensures
            r.cpu == totals.cpu,
            r.mem_used == totals.mem_used,
            r.mem_total == totals.mem_total,
            r.gpu_util == gpu_util,
            r.net_down == total_net_down,
            r.net_up == total_net_up,
            r.disk_read == total_disk_read,
            r.disk_write == total_disk_write,
            r.load_average == totals.load_average,
            r.boot_time == match totals.boot_time {
                Some(b) => b,
                None => 0,
            },
            r.uptime as int == if totals.now_secs >= r.boot_time {
                totals.now_secs - r.boot_time
            } else {
                0
            },
            r.cpu_history@.len() == 0 && r.mem_history@.len() == 0,
            r.net_down_history@.len() == 0 && r.net_up_history@.len() == 0,
            r.disk_read_history@.len() == 0 && r.disk_write_history@.len() == 0,
            r.gpu_history@.len() == 0,
    {
        let boot_time = match totals.boot_time {
            Some(b) => b,
            None => 0,
        };
        GlobalUsage {
            cpu: totals.cpu,
            mem_used: totals.mem_used,
            mem_total: totals.mem_total,
            gpu_util,
            net_down: total_net_down,
            net_up: total_net_up,
            disk_read: total_disk_read,
            disk_write: total_disk_write,
            cpu_history: VecDeque::new(),
            mem_history: VecDeque::new(),
            net_down_history: VecDeque::new(),
            net_up_history: VecDeque::new(),
            disk_read_history: VecDeque::new(),
            disk_write_history: VecDeque::new(),
            gpu_history: VecDeque::new(),
            load_average: totals.load_average,
            uptime: totals.now_secs.saturating_sub(boot_time),
            boot_time,
        }
    }

    /// Temperatures of the host; no sensor is read, so none is known.
    pub fn get_temperatures(&self) -> (r: SystemTemperatures)
        ensures
            r.cpu_temp is None,
            r.gpu_temps@.len() == 0,
            r.motherboard_temp is None,
    {
        SystemTemperatures { cpu_temp: None, gpu_temps: Vec::new(), motherboard_temp: None }
    }
}

} // verus!
