use vstd::prelude::*;
use vstd::string::*;

verus! {

/// Shortest sampling interval, in milliseconds.
pub const MIN_REFRESH_MS: u64 = 100;

/// Longest sampling interval, in milliseconds.
pub const MAX_REFRESH_MS: u64 = 10000;

/// Fewest samples a trend history keeps.
pub const MIN_HISTORY: usize = 10;

/// Most samples a trend history keeps.
pub const MAX_HISTORY: usize = 300;

/// Fixed redraw period of the dashboard, in milliseconds.
pub const UI_REFRESH_MS: u64 = 16;

/// Options as the user gave them on the command line.
#[derive(Clone, Copy, Debug)]
pub struct Cli {
    pub safe: bool,
    pub refresh: u64,
    pub history: usize,
    pub show_system: bool,
    pub no_docker: bool,
    pub no_gpu: bool,
    pub no_network: bool,
    pub auto_scroll: bool,
    pub verbose: bool,
}

impl Cli {
    /// The options when none is given.
    pub fn defaults() -> (r: Cli)
        ensures
            !r.safe && r.refresh == 1000 && r.history == 60,
            !r.show_system && !r.no_docker && !r.no_gpu && !r.no_network,
            !r.auto_scroll && !r.verbose,
    {
        Cli {
            safe: false,
            refresh: 1000,
            history: 60,
            show_system: false,
            no_docker: false,
            no_gpu: false,
            no_network: false,
            auto_scroll: false,
            verbose: false,
        }
    }
}

/// Settings of one run; fixed once built.
#[derive(Clone, Copy, Debug)]
pub struct AppConfig {
    pub safe_mode: bool,
    pub refresh_rate_ms: u64,
    pub history_length: usize,
    pub enable_docker: bool,
    pub enable_gpu_monitoring: bool,
    pub enable_network_monitoring: bool,
    pub show_system_processes: bool,
    pub auto_scroll: bool,
}

/// `v` limited to `[lo, hi]`.
pub open spec fn clamped(v: int, lo: int, hi: int) -> int {
    if v < lo {
        lo
    } else if v > hi {
        hi
    } else {
        v
    }
}

/// The settings that the command-line options give: intervals and history
/// lengths clamped, and every optional source off in safe mode.
pub open spec fn config_of(cli: Cli) -> AppConfig {
    AppConfig {
        safe_mode: cli.safe,
        refresh_rate_ms: clamped(cli.refresh as int, MIN_REFRESH_MS as int, MAX_REFRESH_MS as int) as u64,
        history_length: clamped(cli.history as int, MIN_HISTORY as int, MAX_HISTORY as int) as usize,
        enable_docker: !cli.safe && !cli.no_docker,
        enable_gpu_monitoring: !cli.safe && !cli.no_gpu,
        enable_network_monitoring: !cli.safe && !cli.no_network,
        show_system_processes: cli.show_system,
        auto_scroll: cli.auto_scroll,
    }
}

impl AppConfig {
    /// Settings are well formed: values in range, and safe mode has switched
    /// off every optional source.
    pub open spec fn wf(&self) -> bool {
        &&& MIN_REFRESH_MS <= self.refresh_rate_ms <= MAX_REFRESH_MS
        &&& MIN_HISTORY <= self.history_length <= MAX_HISTORY
        &&& self.safe_mode ==> !self.enable_docker && !self.enable_gpu_monitoring
            && !self.enable_network_monitoring
    }

    /// Settings built from command-line options.
    pub fn from_cli(cli: Cli) -> (r: AppConfig)
        ensures
            r == config_of(cli),
            r.wf(),
    {
        let refresh = if cli.refresh < MIN_REFRESH_MS {
            MIN_REFRESH_MS
        } else if cli.refresh > MAX_REFRESH_MS {
            MAX_REFRESH_MS
        } else {
            cli.refresh
        };
        let history = if cli.history < MIN_HISTORY {
            MIN_HISTORY
        } else if cli.history > MAX_HISTORY {
            MAX_HISTORY
        } else {
            cli.history
        };
        AppConfig {
            safe_mode: cli.safe,
            refresh_rate_ms: refresh,
            history_length: history,
            enable_docker: !cli.safe && !cli.no_docker,
            enable_gpu_monitoring: !cli.safe && !cli.no_gpu,
            enable_network_monitoring: !cli.safe && !cli.no_network,
            show_system_processes: cli.show_system,
            auto_scroll: cli.auto_scroll,
        }
    }

    /// Redraw period of the dashboard, in milliseconds; not configurable.
    pub fn ui_refresh_rate_ms(&self) -> (r: u64)
        ensures
            r == UI_REFRESH_MS,
    {
        UI_REFRESH_MS
    }

    /// Sampling interval, in milliseconds.
    pub fn data_refresh_rate_ms(&self) -> (r: u64)
        ensures
            r == self.refresh_rate_ms,
    {
        self.refresh_rate_ms
    }

    /// Whether a named source is on; names other than `docker`, `gpu` and
    /// `network` are always on.
    pub fn is_feature_enabled(&self, feature: &str) -> (r: bool)
        ensures
            feature@ == "docker"@ ==> r == self.enable_docker,
            feature@ == "gpu"@ ==> r == self.enable_gpu_monitoring,
            feature@ == "network"@ ==> r == self.enable_network_monitoring,
            feature@ != "docker"@ && feature@ != "gpu"@ && feature@ != "network"@ ==> r,
    {
        proof {
            reveal_strlit("docker");
            reveal_strlit("gpu");
            reveal_strlit("network");
            assert("docker"@.len() == 6);
            assert("gpu"@.len() == 3);
            assert("network"@.len() == 7);
        }
        if str_eq(feature, "docker") {
            self.enable_docker
        } else if str_eq(feature, "gpu") {
            self.enable_gpu_monitoring
        } else if str_eq(feature, "network") {
            self.enable_network_monitoring
        } else {
            true
        }
    }

    /// Time between two samples, in milliseconds.
    pub fn get_collection_sleep_duration(&self) -> (r: u64)
        ensures
            r == self.refresh_rate_ms,
    {
        self.data_refresh_rate_ms()
    }

    /// Budget of one bounded outside call, in milliseconds: half the sampling
    /// interval.
    pub fn get_operation_timeout(&self) -> (r: u64)
        ensures
            r == self.refresh_rate_ms / 2,
    {
        self.refresh_rate_ms / 2
    }
}

impl From<Cli> for AppConfig {
    fn from(cli: Cli) -> (r: AppConfig) {
        AppConfig::from_cli(cli)
    }
}

impl vstd::std_specs::convert::FromSpecImpl<Cli> for AppConfig {
    open spec fn obeys_from_spec() -> bool {
        true
    }

    open spec fn from_spec(cli: Cli) -> AppConfig {
        config_of(cli)
    }
}

impl Default for AppConfig {
    fn default() -> (r: AppConfig)
        ensures
            r == config_of(Cli { safe: false, refresh: 1000, history: 60, show_system: false,
                no_docker: false, no_gpu: false, no_network: false, auto_scroll: false,
                verbose: false }),
    {
        AppConfig::from_cli(Cli::defaults())
    }
}

/// Two texts have the same characters.
fn str_eq(a: &str, b: &str) -> (r: bool)
    ensures
        r == (a@ == b@),
{
    let n = a.unicode_len();
    if n != b.unicode_len() {
        return false;
    }
    let mut i: usize = 0;
    while i < n
        invariant
            n == a@.len(),
            n == b@.len(),
            i <= n,
            a@.subrange(0, i as int) == b@.subrange(0, i as int),
        decreases n - i,
    {
        if a.get_char(i) != b.get_char(i) {
            assert(a@[i as int] != b@[i as int]);
            return false;
        }
        assert(a@.subrange(0, i + 1) =~= a@.subrange(0, i as int).push(a@[i as int]));
        assert(b@.subrange(0, i + 1) =~= b@.subrange(0, i as int).push(b@[i as int]));
        i = i + 1;
    }
    assert(a@ =~= a@.subrange(0, n as int));
    assert(b@ =~= b@.subrange(0, n as int));
    true
}

/// Which optional sources this build can reach.
pub struct Features;

impl Features {
    /// Container runtime support is built in.
    pub const DOCKER: bool = true;

    /// NVIDIA GPU support is built in.
    pub const NVIDIA_GPU: bool = true;

    /// AMD GPU support is built in.
    pub const AMD_GPU: bool = false;

    /// Whether any GPU vendor is supported.
    pub fn has_gpu_support() -> (r: bool)
        ensures
            r == (Self::NVIDIA_GPU || Self::AMD_GPU),
    {
        Self::NVIDIA_GPU || Self::AMD_GPU
    }

    /// Whether a container runtime is supported.
    pub fn has_container_support() -> (r: bool)
        ensures
            r == Self::DOCKER,
    {
        Self::DOCKER
    }
}

/// Sampling settings suited to the host's memory.
#[derive(Clone, Copy, Debug)]
pub struct PerformanceProfile {
    pub update_interval_ms: u64,
    pub history_size: usize,
    pub enable_expensive_ops: bool,
}

/// Bytes in a GiB.
pub const GIB: u64 = 1073741824;

impl PerformanceProfile {
    /// Profile for a host with `total_memory` bytes: frequent and long for
    /// 16 GiB and more, middling from 8 GiB, else the safe profile.
    pub fn detect(total_memory: u64) -> (r: PerformanceProfile)
        ensures
            total_memory / GIB >= 16 ==> r.update_interval_ms == 500 && r.history_size == 120
                && r.enable_expensive_ops,
            8 <= total_memory / GIB < 16 ==> r.update_interval_ms == 1000 && r.history_size == 60
                && r.enable_expensive_ops,
            total_memory / GIB < 8 ==> r.update_interval_ms == 2000 && r.history_size == 30
                && !r.enable_expensive_ops,
    {
        let gib = total_memory / GIB;
        if gib >= 16 {
            PerformanceProfile { update_interval_ms: 500, history_size: 120, enable_expensive_ops: true }
        } else if gib >= 8 {
            PerformanceProfile { update_interval_ms: 1000, history_size: 60, enable_expensive_ops: true }
        } else {
            PerformanceProfile::safe_mode()
        }
    }

    /// The conservative profile: slow updates, short histories, no costly probes.
    pub fn safe_mode() -> (r: PerformanceProfile)
        ensures
            r.update_interval_ms == 2000,
            r.history_size == 30,
            !r.enable_expensive_ops,
    {
        PerformanceProfile { update_interval_ms: 2000, history_size: 30, enable_expensive_ops: false }
    }
}

/// In safe mode every optional source is off, whatever the options ask for.
pub proof fn lemma_safe_mode_disables_sources(cli: Cli)
    requires
        cli.safe,
    ensures
        !config_of(cli).enable_docker,
        !config_of(cli).enable_gpu_monitoring,
        !config_of(cli).enable_network_monitoring,
{
}

/// The sampling interval is the requested one clamped to `[100, 10000]` ms.
pub proof fn lemma_refresh_clamped(cli: Cli)
    ensures
        cli.refresh < MIN_REFRESH_MS ==> config_of(cli).refresh_rate_ms == MIN_REFRESH_MS,
        cli.refresh > MAX_REFRESH_MS ==> config_of(cli).refresh_rate_ms == MAX_REFRESH_MS,
        MIN_REFRESH_MS <= cli.refresh <= MAX_REFRESH_MS ==> config_of(cli).refresh_rate_ms
            == cli.refresh,
        MIN_REFRESH_MS <= config_of(cli).refresh_rate_ms <= MAX_REFRESH_MS,
{
}

} // verus!
