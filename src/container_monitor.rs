use crate::format::{
    decimal, decimal_string, format_percentage, format_rate, format_size, percent_text, rate_text,
    size_text,
};
use crate::rate::{calculate_rate, rate_of};
use crate::system_monitor::{capped, elapsed_since, keys_unique, sum_of};
use crate::types::{ContainerInfo, ContainerIoStats, NetworkStats};
use vstd::prelude::*;
use vstd::string::*;

verus! {

/// A published port of a container.
#[derive(Clone, Copy, Debug)]
pub struct RawPort {
    pub public_port: Option<u16>,
    pub private_port: u16,
}

/// One block-I/O record of a container: the operation and its byte count.
#[derive(Clone, Debug)]
pub struct BlkioEntry {
    pub op: String,
    pub value: u64,
}

/// Point-in-time statistics of one container as the runtime reports them.
#[derive(Clone, Debug)]
pub struct RawContainerStats {
    pub cpu_total_usage: u64,
    pub precpu_total_usage: u64,
    pub system_cpu_usage: Option<u64>,
    pub presystem_cpu_usage: Option<u64>,
    pub online_cpus: Option<u64>,
    pub memory_usage: Option<u64>,
    pub networks: Option<Vec<NetworkStats>>,
    pub blkio: Option<Vec<BlkioEntry>>,
}

/// One listed container, with its statistics when they arrived in time.
#[derive(Clone, Debug)]
pub struct RawContainer {
    pub id: Option<String>,
    pub names: Option<Vec<String>>,
    pub status: Option<String>,
    pub image: Option<String>,
    pub ports: Option<Vec<RawPort>>,
    pub stats: Option<RawContainerStats>,
}

/// What the runtime answered this tick.
#[derive(Clone, Debug)]
pub enum ContainerListing {
    /// The liveness probe or the listing failed or timed out.
    Unreachable,
    /// The running containers.
    Listed(Vec<RawContainer>),
}

/// Budgets of the steps of one container query, in milliseconds.
#[derive(Clone, Copy, Debug)]
pub struct StepTimeouts {
    pub ping_ms: u64,
    pub list_ms: u64,
    pub stats_ms: u64,
}

/// Container sampler: keeps each container's cumulative I/O counters of the
/// previous tick so that each tick can report rates.
pub struct ContainerMonitor {
    pub connected: bool,
    pub prev_container_stats: Vec<(String, ContainerIoStats)>,
    pub last_update_ms: u64,
}

/// Counters stored for container `id`: the first entry with that id.
pub open spec fn lookup_io(entries: Seq<(String, ContainerIoStats)>, id: Seq<char>) -> Option<
    ContainerIoStats,
>
    decreases entries.len(),
{
    if entries.len() == 0 {
        None
    } else if entries[0].0@ == id {
        Some(entries[0].1)
    } else {
        lookup_io(entries.drop_first(), id)
    }
}

/// `a - b`, or zero when `b` is larger.
pub open spec fn sat_sub(a: u64, b: u64) -> nat {
    if a >= b {
        (a - b) as nat
    } else {
        0
    }
}

/// An optional counter, zero when absent.
pub open spec fn or_zero(v: Option<u64>) -> u64 {
    match v {
        Some(x) => x,
        None => 0,
    }
}

/// CPU use of a container in hundredths of a percent: its usage growth over
/// the machine's, times the online CPUs; zero when either did not grow.
pub open spec fn container_cpu(s: RawContainerStats) -> nat {
    let cd = sat_sub(s.cpu_total_usage, s.precpu_total_usage);
    let sd = sat_sub(or_zero(s.system_cpu_usage), or_zero(s.presystem_cpu_usage));
    let n: nat = match s.online_cpus {
        Some(c) => c as nat,
        None => 1,
    };
    if sd > 0 && cd > 0 {
        let p = cd * n * 10000;
        let p2 = if p > u128::MAX {
            u128::MAX as nat
        } else {
            p
        };
        capped(p2 / sd)
    } else {
        0
    }
}

/// Received bytes of each network of a container.
pub open spec fn rx_values(nets: Seq<NetworkStats>) -> Seq<u64> {
    Seq::new(nets.len(), |i: int| nets[i].rx)
}

/// Transmitted bytes of each network of a container.
pub open spec fn tx_values(nets: Seq<NetworkStats>) -> Seq<u64> {
    Seq::new(nets.len(), |i: int| nets[i].tx)
}

/// Bytes of each block-I/O record of operation `op`, zero for the others.
pub open spec fn op_values(entries: Seq<BlkioEntry>, op: Seq<char>) -> Seq<u64> {
    Seq::new(entries.len(), |i: int| if entries[i].op@ == op { entries[i].value } else { 0 })
}

/// Cumulative counters of a container: network bytes summed over its
/// networks, disk bytes over its read and write records, each capped.
pub open spec fn io_totals(s: RawContainerStats) -> ContainerIoStats {
    let nets: Seq<NetworkStats> = match s.networks {
        Some(v) => v@,
        None => seq![],
    };
    let blk: Seq<BlkioEntry> = match s.blkio {
        Some(v) => v@,
        None => seq![],
    };
    ContainerIoStats {
        net_rx: capped(sum_of(rx_values(nets))) as u64,
        net_tx: capped(sum_of(tx_values(nets))) as u64,
        disk_r: capped(sum_of(op_values(blk, "Read"@))) as u64,
        disk_w: capped(sum_of(op_values(blk, "Write"@))) as u64,
    }
}

/// The shown id: the first twelve characters, `N/A` when shorter.
pub open spec fn short_id(id: Option<String>) -> Seq<char> {
    let s: Seq<char> = match id {
        Some(v) => v@,
        None => seq![],
    };
    if s.len() >= 12 {
        s.subrange(0, 12)
    } else {
        "N/A"@
    }
}

/// The shown name: the first name without its leading slash, or `unnamed`.
pub open spec fn name_text(names: Option<Vec<String>>) -> Seq<char> {
    match names {
        Some(v) => if v@.len() > 0 {
            let s = v@[0]@;
            if s.len() > 0 && s[0] == '/' {
                s.drop_first()
            } else {
                s
            }
        } else {
            "unnamed"@
        },
        None => "unnamed"@,
    }
}

/// An optional text, `unknown` when absent.
pub open spec fn or_unknown(v: Option<String>) -> Seq<char> {
    match v {
        Some(s) => s@,
        None => "unknown"@,
    }
}

/// One port: `public:private`, or the private port alone.
pub open spec fn port_text(p: RawPort) -> Seq<char> {
    match p.public_port {
        Some(pp) => decimal(pp as nat) + ":"@ + decimal(p.private_port as nat),
        None => decimal(p.private_port as nat),
    }
}

/// Ports joined by `, `.
pub open spec fn join_ports(ps: Seq<RawPort>) -> Seq<char>
    decreases ps.len(),
{
    if ps.len() == 0 {
        seq![]
    } else if ps.len() == 1 {
        port_text(ps[0])
    } else {
        join_ports(ps.drop_last()) + ", "@ + port_text(ps.last())
    }
}

/// The shown port summary, `none` when there is none.
pub open spec fn ports_text(ports: Option<Vec<RawPort>>) -> Seq<char> {
    match ports {
        Some(v) => if v@.len() > 0 {
            join_ports(v@)
        } else {
            "none"@
        },
        None => "none"@,
    }
}

/// Whether a container's statistics are used: it has an id and they arrived.
pub open spec fn has_stats(c: RawContainer) -> bool {
    c.id is Some && c.stats is Some
}

/// The zero counters.
pub open spec fn zero_io() -> ContainerIoStats {
    ContainerIoStats { net_rx: 0, net_tx: 0, disk_r: 0, disk_w: 0 }
}

/// `row` is the table row of `c`, given the counters stored last tick. A
/// container whose statistics did not arrive shows zero use and zero rates.
pub open spec fn container_row(
    row: ContainerInfo,
    c: RawContainer,
    stored: Seq<(String, ContainerIoStats)>,
    elapsed_ms: u64,
) -> bool {
    &&& row.id@ == short_id(c.id)
    &&& row.name@ == name_text(c.names)
    &&& row.status@ == or_unknown(c.status)
    &&& row.image@ == or_unknown(c.image)
    &&& row.ports@ == ports_text(c.ports)
    &&& if has_stats(c) {
        let s = c.stats->Some_0;
        let io = io_totals(s);
        let prev = match lookup_io(stored, c.id->Some_0@) {
            Some(p) => p,
            None => zero_io(),
        };
        &&& row.cpu@ == percent_text(container_cpu(s))
        &&& row.mem@ == size_text(or_zero(s.memory_usage) as nat)
        &&& row.net_down@ == rate_text(rate_of(io.net_rx, prev.net_rx, elapsed_ms))
        &&& row.net_up@ == rate_text(rate_of(io.net_tx, prev.net_tx, elapsed_ms))
        &&& row.disk_r@ == rate_text(rate_of(io.disk_r, prev.disk_r, elapsed_ms))
        &&& row.disk_w@ == rate_text(rate_of(io.disk_w, prev.disk_w, elapsed_ms))
    } else {
        &&& row.cpu@ == percent_text(0)
        &&& row.mem@ == size_text(0)
        &&& row.net_down@ == rate_text(0)
        &&& row.net_up@ == rate_text(0)
        &&& row.disk_r@ == rate_text(0)
        &&& row.disk_w@ == rate_text(0)
    }
}

/// Counters to keep after a tick: one entry per container whose statistics
/// arrived, among the first `n`, in order.
pub open spec fn stats_table(cs: Seq<RawContainer>, n: int) -> Seq<(Seq<char>, ContainerIoStats)>
    decreases n,
{
    if n <= 0 {
        seq![]
    } else {
        let before = stats_table(cs, n - 1);
        if has_stats(cs[n - 1]) && last_with_id(cs, n - 1) {
            before.push((cs[n - 1].id->Some_0@, io_totals(cs[n - 1].stats->Some_0)))
        } else {
            before
        }
    }
}

/// No later container with statistics has the id of container `i`.
pub open spec fn last_with_id(cs: Seq<RawContainer>, i: int) -> bool {
    forall|j: int| i < j < cs.len() && has_stats(cs[j]) ==> cs[j].id->Some_0@ != cs[i].id->Some_0@
}

fn is_last_id(cs: &Vec<RawContainer>, i: usize, id: &String) -> (r: bool)
    requires
        i < cs@.len(),
        cs@[i as int].id == Some(*id),
    ensures
        r == last_with_id(cs@, i as int),
{
    let mut j: usize = i;
    while j < cs.len()
        invariant
            i <= j <= cs@.len(),
            cs@[i as int].id == Some(*id),
            forall|k: int|
                i < k < j && has_stats(cs@[k]) ==> cs@[k].id->Some_0@ != cs@[i as int].id->Some_0@,
        decreases cs@.len() - j,
    {
        if j > i {
            match (&cs[j].id, &cs[j].stats) {
                (Some(other), Some(_)) => {
                    if *other == *id {
                        return false;
                    }
                },
                _ => {},
            }
        }
        j = j + 1;
    }
    true
}

/// The stored counters with ids as texts.
pub open spec fn table_view(t: Seq<(String, ContainerIoStats)>) -> Seq<(Seq<char>, ContainerIoStats)> {
    Seq::new(t.len(), |i: int| (t[i].0@, t[i].1))
}

fn find_io(entries: &Vec<(String, ContainerIoStats)>, id: &String) -> (r: Option<ContainerIoStats>)
    ensures
        r == lookup_io(entries@, id@),
{
    let mut i: usize = 0;
    assert(entries@.skip(0) =~= entries@);
    while i < entries.len()
        invariant
            i <= entries@.len(),
            lookup_io(entries@, id@) == lookup_io(entries@.skip(i as int), id@),
        decreases entries@.len() - i,
    {
        assert(entries@.skip(i as int)[0] == entries@[i as int]);
        if entries[i].0 == *id {
            return Some(entries[i].1);
        }
        assert(entries@.skip(i as int).drop_first() =~= entries@.skip(i + 1));
        i = i + 1;
    }
    None
}

fn sum_saturating(vals: &Vec<u64>) -> (r: u64)
    ensures
        r as nat == capped(sum_of(vals@)),
{
    let mut acc: u64 = 0;
    let mut i: usize = 0;
    assert(vals@.subrange(0, 0) =~= Seq::<u64>::empty());
    while i < vals.len()
        invariant
            i <= vals@.len(),
            acc as nat == capped(sum_of(vals@.subrange(0, i as int))),
        decreases vals@.len() - i,
    {
        assert(vals@.subrange(0, i + 1).drop_last() =~= vals@.subrange(0, i as int));
        acc = acc.saturating_add(vals[i]);
        i = i + 1;
    }
    assert(vals@.subrange(0, i as int) =~= vals@);
    acc
}

/// Cumulative counters of one container's statistics.
pub fn container_io_totals(s: &RawContainerStats) -> (r: ContainerIoStats)
    ensures
        r == io_totals(*s),
{
    let mut rx: Vec<u64> = Vec::new();
    let mut tx: Vec<u64> = Vec::new();
    match &s.networks {
        Some(nets) => {
            let mut i: usize = 0;
            while i < nets.len()
                invariant
                    i <= nets@.len(),
                    rx@ =~= rx_values(nets@.subrange(0, i as int)),
                    tx@ =~= tx_values(nets@.subrange(0, i as int)),
                decreases nets@.len() - i,
            {
                rx.push(nets[i].rx);
                tx.push(nets[i].tx);
                i = i + 1;
            }
            assert(nets@.subrange(0, i as int) =~= nets@);
        },
        None => {
            assert(rx@ =~= rx_values(seq![]));
            assert(tx@ =~= tx_values(seq![]));
        },
    }
    let mut reads: Vec<u64> = Vec::new();
    let mut writes: Vec<u64> = Vec::new();
    let read_op = String::from_str("Read");
    let write_op = String::from_str("Write");
    match &s.blkio {
        Some(entries) => {
            let mut i: usize = 0;
            while i < entries.len()
                invariant
                    i <= entries@.len(),
                    read_op@ == "Read"@,
                    write_op@ == "Write"@,
                    reads@ =~= op_values(entries@.subrange(0, i as int), "Read"@),
                    writes@ =~= op_values(entries@.subrange(0, i as int), "Write"@),
                decreases entries@.len() - i,
            {
                let e = &entries[i];
                reads.push(
                    if e.op == read_op {
                        e.value
                    } else {
                        0
                    },
                );
                writes.push(
                    if e.op == write_op {
                        e.value
                    } else {
                        0
                    },
                );
                i = i + 1;
            }
            assert(entries@.subrange(0, i as int) =~= entries@);
        },
        None => {
            assert(reads@ =~= op_values(seq![], "Read"@));
            assert(writes@ =~= op_values(seq![], "Write"@));
        },
    }
    ContainerIoStats {
        net_rx: sum_saturating(&rx),
        net_tx: sum_saturating(&tx),
        disk_r: sum_saturating(&reads),
        disk_w: sum_saturating(&writes),
    }
}

/// CPU use of a container in hundredths of a percent.
pub fn container_cpu_usage(s: &RawContainerStats) -> (r: u64)
    ensures
        r as nat == container_cpu(*s),
{
    let cd = s.cpu_total_usage.saturating_sub(s.precpu_total_usage);
    let sys = match s.system_cpu_usage {
        Some(v) => v,
        None => 0,
    };
    let presys = match s.presystem_cpu_usage {
        Some(v) => v,
        None => 0,
    };
    let sd = sys.saturating_sub(presys);
    let n: u64 = match s.online_cpus {
        Some(c) => c,
        None => 1,
    };
    if sd > 0 && cd > 0 {
        proof {
            assert(cd as nat * n as nat <= u64::MAX as nat * u64::MAX as nat) by (nonlinear_arith)
                requires
                    cd <= u64::MAX,
                    n <= u64::MAX,
            ;
        }
        let a = (cd as u128) * (n as u128);
        let p: u128 = if a > u128::MAX / 10000 {
            u128::MAX
        } else {
            a * 10000
        };
        let q = p / (sd as u128);
        if q > u64::MAX as u128 {
            u64::MAX
        } else {
            q as u64
        }
    } else {
        0
    }
}

/// The shown id: the first twelve characters, `N/A` when shorter.
pub fn short_container_id(id: &Option<String>) -> (r: String)
    ensures
        r@ == short_id(*id),
{
    let full: &str = match id {
        Some(v) => v.as_str(),
        None => "",
    };
    proof {
        reveal_strlit("");
    }
    if full.unicode_len() >= 12 {
        String::from_str(full.substring_char(0, 12))
    } else {
        String::from_str("N/A")
    }
}

/// The shown name: the first name without its leading slash, or `unnamed`.
pub fn container_name(names: &Option<Vec<String>>) -> (r: String)
    ensures
        r@ == name_text(*names),
{
    match names {
        Some(v) => {
            if v.len() > 0 {
                let s = v[0].as_str();
                let n = s.unicode_len();
                if n > 0 && s.get_char(0) == '/' {
                    let rest = s.substring_char(1, n);
                    assert(rest@ =~= s@.drop_first());
                    String::from_str(rest)
                } else {
                    String::from_str(s)
                }
            } else {
                String::from_str("unnamed")
            }
        },
        None => String::from_str("unnamed"),
    }
}

/// An optional text, `unknown` when absent.
pub fn text_or_unknown(v: &Option<String>) -> (r: String)
    ensures
        r@ == or_unknown(*v),
{
    match v {
        Some(s) => s.clone(),
        None => String::from_str("unknown"),
    }
}

fn push_port(out: &mut String, p: RawPort)
    ensures
        final(out)@ == old(out)@ + port_text(p),
{
    match p.public_port {
        Some(pp) => {
            out.append(decimal_string(pp as u128).as_str());
            out.append(":");
            out.append(decimal_string(p.private_port as u128).as_str());
        },
        None => {
            out.append(decimal_string(p.private_port as u128).as_str());
        },
    }
    assert(final(out)@ =~= old(out)@ + port_text(p));
}

/// The shown port summary: `public:private` or `private` for each port,
/// joined by `, `; `none` when there is none.
pub fn format_ports(ports: &Option<Vec<RawPort>>) -> (r: String)
    ensures
        r@ == ports_text(*ports),
{
    match ports {
        Some(v) => {
            if v.len() == 0 {
                return String::from_str("none");
            }
            let mut out = String::new();
            push_port(&mut out, v[0]);
            assert(v@.subrange(0, 1).drop_last() =~= Seq::<RawPort>::empty());
            assert(out@ =~= join_ports(v@.subrange(0, 1)));
            let mut i: usize = 1;
            while i < v.len()
                invariant
                    1 <= i <= v@.len(),
                    out@ == join_ports(v@.subrange(0, i as int)),
                decreases v@.len() - i,
            {
                out.append(", ");
                push_port(&mut out, v[i]);
                assert(v@.subrange(0, i + 1).drop_last() =~= v@.subrange(0, i as int));
                assert(out@ =~= join_ports(v@.subrange(0, i + 1)));
                i = i + 1;
            }
            assert(v@.subrange(0, i as int) =~= v@);
            out
        },
        None => String::from_str("none"),
    }
}

/// The table and the sampler's state after a query that answered
/// `listing` at `now_ms`, from state `before`: nothing without a client;
/// nothing, and the stored counters kept, when the runtime was unreachable or
/// listed nothing; else one row per container and the counters of those
/// whose statistics arrived.
pub open spec fn containers_after(
    r: Seq<ContainerInfo>,
    before: ContainerMonitor,
    after: ContainerMonitor,
    listing: ContainerListing,
    now_ms: u64,
) -> bool {
    &&& (after.connected == before.connected)
    &&& (!before.connected ==> r.len() == 0 && after == before)
    &&& (before.connected ==> after.last_update_ms == now_ms)
    &&& (before.connected && listing is Unreachable ==> r.len() == 0
            && after.prev_container_stats == before.prev_container_stats)
    &&& (before.connected && listing is Listed && listing->Listed_0@.len() == 0 ==> r.len()
            == 0 && after.prev_container_stats == before.prev_container_stats)
    &&& (before.connected && listing is Listed && listing->Listed_0@.len() > 0 ==> {
            let cs = listing->Listed_0@;
            &&& r.len() == cs.len()
            &&& forall|j: int|
                0 <= j < cs.len() ==> container_row(
                    #[trigger] r[j],
                    cs[j],
                    before.prev_container_stats@,
                    elapsed_since(now_ms, before.last_update_ms),
                )
            &&& table_view(after.prev_container_stats@) == stats_table(
                cs,
                cs.len() as int,
            )
            &&& keys_unique(table_view(after.prev_container_stats@))
        })
}

impl ContainerMonitor {
    /// A sampler; `connected` tells whether a runtime client could be made.
    pub fn new(connected: bool, now_ms: u64) -> (r: ContainerMonitor)
        ensures
            r.connected == connected,
            r.prev_container_stats@.len() == 0,
            r.last_update_ms == now_ms,
    {
        ContainerMonitor { connected, prev_container_stats: Vec::new(), last_update_ms: now_ms }
    }

    /// Whether a runtime client exists.
    pub fn is_available(&self) -> (r: bool)
        ensures
            r == self.connected,
    {
        self.connected
    }

    /// Budgets of the steps of a query bounded by `timeout_ms`: a quarter for
    /// the liveness probe, half for the listing, a quarter for each
    /// container's statistics.
    pub fn step_timeouts(timeout_ms: u64) -> (r: StepTimeouts)
        ensures
            r.ping_ms == timeout_ms / 4,
            r.list_ms == timeout_ms / 2,
            r.stats_ms == timeout_ms / 4,
    {
        StepTimeouts { ping_ms: timeout_ms / 4, list_ms: timeout_ms / 2, stats_ms: timeout_ms / 4 }
    }

    /// The table row of one container, given the counters stored last tick.
    pub fn container_row_of(&self, c: &RawContainer, elapsed_ms: u64) -> (r: ContainerInfo)
        ensures
            container_row(r, *c, self.prev_container_stats@, elapsed_ms),
    {
        let id = short_container_id(&c.id);
        let name = container_name(&c.names);
        let status = text_or_unknown(&c.status);
        let image = text_or_unknown(&c.image);
        let ports = format_ports(&c.ports);
        let (cpu, mem, nd, nu, dr, dw) = match (&c.id, &c.stats) {
            (Some(full), Some(s)) => {
                let io = container_io_totals(s);
                let prev = match find_io(&self.prev_container_stats, full) {
                    Some(p) => p,
                    None => ContainerIoStats { net_rx: 0, net_tx: 0, disk_r: 0, disk_w: 0 },
                };
                let mem = match s.memory_usage {
                    Some(m) => m,
                    None => 0,
                };
                (
                    container_cpu_usage(s),
                    mem,
                    calculate_rate(io.net_rx, prev.net_rx, elapsed_ms),
                    calculate_rate(io.net_tx, prev.net_tx, elapsed_ms),
                    calculate_rate(io.disk_r, prev.disk_r, elapsed_ms),
                    calculate_rate(io.disk_w, prev.disk_w, elapsed_ms),
                )
            },
            _ => (0, 0, 0, 0, 0, 0),
        };
        ContainerInfo {
            id,
            name,
            status,
            cpu: format_percentage(cpu),
            mem: format_size(mem),
            net_down: format_rate(nd),
            net_up: format_rate(nu),
            disk_r: format_rate(dr),
            disk_w: format_rate(dw),
            image,
            ports,
        }
    }

    /// The container table of this tick at `now_ms`. Without a client, or
    /// when the runtime is unreachable, the table is empty. Otherwise every
    /// listed container has a row, in order; one whose statistics did not
    /// arrive shows zeros while the others show their rates. When any
    /// container was listed, the stored counters are replaced by those of
    /// the containers whose statistics arrived.
    pub fn get_containers(&mut self, listing: &ContainerListing, now_ms: u64) -> (r: Vec<
        ContainerInfo,
    >)
        ensures
            containers_after(r@, *old(self), *final(self), *listing, now_ms),
    {
        if !self.connected {
            return Vec::new();
        }
        let elapsed = now_ms.saturating_sub(self.last_update_ms);
        self.last_update_ms = now_ms;
        let cs = match listing {
            ContainerListing::Unreachable => {
                return Vec::new();
            },
            ContainerListing::Listed(cs) => cs,
        };
        if cs.len() == 0 {
            return Vec::new();
        }
        let mut rows: Vec<ContainerInfo> = Vec::new();
        let mut table: Vec<(String, ContainerIoStats)> = Vec::new();
        let ghost mut src: Seq<int> = seq![];
        let mut i: usize = 0;
        assert(table_view(table@) =~= stats_table(cs@, 0));
        while i < cs.len()
            invariant
                i <= cs@.len(),
                src.len() == table@.len(),
                forall|a: int|
                    0 <= a < src.len() ==> 0 <= #[trigger] src[a] < i && has_stats(cs@[src[a]])
                        && last_with_id(cs@, src[a]) && table@[a].0@ == cs@[src[a]].id->Some_0@,
                keys_unique(table_view(table@)),
                self.prev_container_stats == old(self).prev_container_stats,
                self.connected == old(self).connected,
                self.last_update_ms == now_ms,
                elapsed == elapsed_since(now_ms, old(self).last_update_ms),
                rows@.len() == i,
                forall|j: int|
                    0 <= j < i ==> container_row(
                        #[trigger] rows@[j],
                        cs@[j],
                        old(self).prev_container_stats@,
                        elapsed,
                    ),
                table_view(table@) == stats_table(cs@, i as int),
            decreases cs@.len() - i,
        {
            let c = &cs[i];
            let row = self.container_row_of(c, elapsed);
            rows.push(row);
            match (&c.id, &c.stats) {
                (Some(full), Some(s)) => {
                    if is_last_id(cs, i, full) {
                        let io = container_io_totals(s);
                        let ghost before = table@;
                        table.push((full.clone(), io));
                        proof {
                            src = src.push(i as int);
                            assert(table_view(table@) =~= table_view(before).push(
                                (full@, io),
                            ));
                            assert forall|a: int, b: int|
                                0 <= a < b < table_view(table@).len() implies table_view(table@)[a].0
                                != table_view(table@)[b].0 by {
                                if b == before.len() {
                                    assert(table@[a].0@ == cs@[src[a]].id->Some_0@);
                                } else {
                                    assert(table_view(before)[a].0 != table_view(before)[b].0);
                                }
                            }
                        }
                    }
                    assert(table_view(table@) =~= stats_table(cs@, i + 1));
                },
                _ => {
                    assert(table_view(table@) =~= stats_table(cs@, i + 1));
                },
            }
            i = i + 1;
        }
        self.prev_container_stats = table;
        rows
    }
}

/// The runtime's description: `Docker <version> (API <api version>)`, each
/// `unknown` when absent; none when the version query failed.
pub fn runtime_info(answer: Option<(Option<String>, Option<String>)>) -> (r: Option<String>)
    ensures
        answer is None <==> r is None,
        answer is Some ==> r->Some_0@ == "Docker "@ + or_unknown(answer->Some_0.0) + " (API "@
            + or_unknown(answer->Some_0.1) + ")"@,
{
    match answer {
        Some((version, api)) => {
            let mut s = String::from_str("Docker ");
            s.append(text_or_unknown(&version).as_str());
            s.append(" (API ");
            s.append(text_or_unknown(&api).as_str());
            s.append(")");
            Some(s)
        },
        None => None,
    }
}

} // verus!
