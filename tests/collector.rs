use puls::collector::{
    AppState, ContainerOutcome, DataCollector, DynamicData, HostFacts, HostReadings,
};
use puls::config::{AppConfig, Cli, Features, PerformanceProfile};
use puls::container_monitor::{ContainerListing, RawContainer};
use puls::service::SystemManager;
use puls::system_monitor::{HostTotals, RawNetwork, RawProcess};
use puls::types::{GlobalUsage, GpuInfo, LoadAverage};

fn cli(safe: bool, no_docker: bool, no_gpu: bool, no_network: bool) -> Cli {
    Cli {
        safe,
        refresh: 1000,
        history: 60,
        show_system: false,
        no_docker,
        no_gpu,
        no_network,
        auto_scroll: false,
        verbose: false,
    }
}

fn totals() -> HostTotals {
    HostTotals {
        cpu: 2550,
        mem_used: 1024,
        mem_total: 4096,
        load_average: LoadAverage { one: 150, five: 75, fifteen: 5 },
        boot_time: Some(1000),
        now_secs: 4661,
    }
}

fn readings(now_ms: u64, read: u64, rx: u64) -> HostReadings {
    HostReadings {
        now_ms,
        processes: vec![RawProcess {
            pid: 10,
            name: "worker".to_string(),
            cpu_usage: 800,
            memory: 4096,
            total_read_bytes: read,
            total_written_bytes: 0,
            user: Some("bob".to_string()),
            status: "Running".to_string(),
        }],
        logical_cores: 2,
        detail: None,
        cores: vec![],
        disks: vec![],
        networks: vec![RawNetwork {
            name: "eth0".to_string(),
            total_received: rx,
            total_transmitted: 0,
            packets_received: 0,
            packets_transmitted: 0,
            errors_received: 0,
            errors_transmitted: 0,
        }],
        containers: ContainerOutcome::Skipped,
        gpus: Ok(vec![]),
        totals: totals(),
    }
}

#[test]
fn safe_mode_disables_every_optional_source() {
    for bits in 0..8u8 {
        let c = AppConfig::from(cli(true, bits & 1 != 0, bits & 2 != 0, bits & 4 != 0));
        assert!(c.safe_mode);
        assert!(!c.enable_docker && !c.enable_gpu_monitoring && !c.enable_network_monitoring);
        assert!(!c.is_feature_enabled("docker"));
        assert!(!c.is_feature_enabled("gpu"));
        assert!(!c.is_feature_enabled("network"));
        assert!(c.is_feature_enabled("other"));
    }
    let c = AppConfig::from(cli(false, false, true, false));
    assert!(c.enable_docker && !c.enable_gpu_monitoring && c.enable_network_monitoring);
}

#[test]
fn refresh_and_history_are_clamped() {
    let mut o = cli(false, false, false, false);
    o.refresh = 10;
    assert_eq!(AppConfig::from(o).refresh_rate_ms, 100);
    o.refresh = 999999;
    let c = AppConfig::from(o);
    assert_eq!(c.refresh_rate_ms, 10000);
    assert_eq!(c.data_refresh_rate_ms(), 10000);
    assert_eq!(c.get_collection_sleep_duration(), 10000);
    assert_eq!(c.get_operation_timeout(), 5000);
    assert_eq!(c.ui_refresh_rate_ms(), 16);
    o.history = 5;
    assert_eq!(AppConfig::from(o).history_length, 10);
    o.history = 500;
    assert_eq!(AppConfig::from(o).history_length, 300);
    let d = AppConfig::default();
    assert_eq!((d.refresh_rate_ms, d.history_length), (1000, 60));
}

#[test]
fn profiles_and_features() {
    let gib = 1u64 << 30;
    let p = PerformanceProfile::detect(32 * gib);
    assert_eq!((p.update_interval_ms, p.history_size, p.enable_expensive_ops), (500, 120, true));
    let p = PerformanceProfile::detect(8 * gib);
    assert_eq!((p.update_interval_ms, p.history_size), (1000, 60));
    let p = PerformanceProfile::detect(4 * gib);
    assert_eq!((p.update_interval_ms, p.history_size, p.enable_expensive_ops), (2000, 30, false));
    let s = PerformanceProfile::safe_mode();
    assert_eq!(s.update_interval_ms, 2000);
    assert!(Features::has_gpu_support());
    assert!(Features::has_container_support());
    assert!(SystemManager::new(true).has_sudo_privileges());
    assert!(!SystemManager::new(false).has_sudo_privileges());
}

#[test]
fn collect_end_to_end_rates_and_histories() {
    let config = AppConfig::from(cli(false, false, false, false));
    let mut c = DataCollector::new(config, 1, 0, None, false);
    let first = c.collect_data(readings(1000, 1000, 5_000_000), false, "", GlobalUsage::new(60));
    assert_eq!(first.processes[0].disk_read, "0 B/s");
    let second = c.collect_data(
        readings(2000, 3000, 1200),
        false,
        "",
        first.global_usage.clone(),
    );
    assert_eq!(second.processes[0].disk_read_rate, 2000);
    assert_eq!(second.processes[0].disk_read, "2.0 KB/s");
    assert_eq!(second.processes[0].cpu, 400);
    assert_eq!(second.networks[0].down_rate, 0);
    assert_eq!(second.global_usage.net_down, 0);
    assert_eq!(second.global_usage.disk_read, 2000);
    assert_eq!(second.global_usage.cpu_history.len(), 60);
    assert_eq!(second.global_usage.disk_read_history.back(), Some(&2000));
    assert_eq!(second.global_usage.mem_history.back(), Some(&2500));
    assert_eq!(second.global_usage.uptime, 3661);
    assert_eq!(second.last_update, 2000);
    assert!(second.containers.is_empty());
    assert_eq!(second.gpus.as_ref().unwrap_err(), "No supported GPUs found");
}

#[test]
fn gpu_failure_is_cached_across_ticks() {
    let config = AppConfig::from(cli(false, false, false, false));
    let mut c = DataCollector::new(config, 1, 0, Some("library not found".to_string()), false);
    assert!(!c.plan().query_gpu);
    let mut usage = GlobalUsage::new(60);
    for t in 1..=3u64 {
        let mut r = readings(t * 1000, 0, 0);
        r.gpus = Ok(vec![Ok(GpuInfo { utilization: 90, ..Default::default() })]);
        let snap = c.collect_data(r, false, "", usage.clone());
        assert_eq!(
            snap.gpus.as_ref().unwrap_err(),
            "NVML initialization failed: library not found"
        );
        assert_eq!(snap.global_usage.gpu_util, None);
        assert!(!c.plan().query_gpu);
        usage = snap.global_usage;
    }
}

#[test]
fn disabled_sources_are_never_filled() {
    let config = AppConfig::from(cli(true, false, false, false));
    let mut c = DataCollector::new(config, 1, 0, None, true);
    let plan = c.plan();
    assert!(!plan.read_networks && !plan.query_containers && !plan.query_gpu);
    let mut r = readings(1000, 0, 0);
    r.containers = ContainerOutcome::Answered(ContainerListing::Listed(vec![RawContainer {
        id: None,
        names: None,
        status: None,
        image: None,
        ports: None,
        stats: None,
    }]));
    r.gpus = Ok(vec![Ok(GpuInfo::default())]);
    let snap = c.collect_data(r, false, "", GlobalUsage::new(60));
    assert!(snap.networks.is_empty());
    assert!(snap.containers.is_empty());
    assert_eq!(snap.gpus.as_ref().unwrap_err(), "GPU monitoring disabled");
    assert_eq!(snap.global_usage.cpu_history.len(), 60);
    let mut prev = GlobalUsage::new(60);
    prev.gpu_history.push_back(77);
    let snap = c.collect_data(readings(2000, 0, 0), false, "", prev);
    assert_eq!(snap.global_usage.gpu_history.len(), 60);
    assert_eq!(snap.global_usage.gpu_history.back(), Some(&0));
}

#[test]
fn container_timeout_gives_empty_list() {
    let config = AppConfig::from(cli(false, false, true, false));
    let mut c = DataCollector::new(config, 1, 0, None, true);
    let plan = c.plan();
    assert!(plan.query_containers);
    assert_eq!(plan.container_timeout_ms, 500);
    let mut r = readings(1000, 0, 0);
    r.containers = ContainerOutcome::TimedOut;
    let snap = c.collect_data(r, false, "", GlobalUsage::new(60));
    assert!(snap.containers.is_empty());
}

#[test]
fn health_and_system_info() {
    let config = AppConfig::from(cli(false, false, false, true));
    let c = DataCollector::new(config, 1, 0, None, true);
    let h = c.health_check(false);
    assert_eq!(
        h,
        vec![("System".to_string(), true), ("Docker".to_string(), false), ("GPU".to_string(), true)]
    );
    let facts = HostFacts {
        os: Some("Linux 6.1".to_string()),
        kernel: None,
        hostname: Some("box".to_string()),
        cpu_brand: None,
        physical_cores: Some(4),
        logical_cores: 8,
        total_memory: 8589934592,
        boot_time: None,
        now_secs: 100,
        load_average: LoadAverage { one: 150, five: 75, fifteen: 5 },
    };
    let info = c.get_system_info(&facts);
    let get = |k: &str| info.iter().find(|(a, _)| a == k).map(|(_, b)| b.clone()).unwrap();
    assert_eq!(get("OS"), "Linux 6.1");
    assert_eq!(get("Kernel"), "");
    assert_eq!(get("CPU"), "N/A");
    assert_eq!(get("Cores"), "4 Physical / 8 Logical");
    assert_eq!(get("Total Memory"), "8.0 GiB");
    assert_eq!(get("Boot Time"), "Unknown");
    assert_eq!(get("Uptime"), "Unknown");
    assert_eq!(get("Load Average"), "1.50, 0.75, 0.05");
    assert_eq!(get("Features"), "Docker, GPU");
    assert!(info.iter().all(|(a, _)| a != "Mode"));
}

#[test]
fn pause_keeps_snapshot_unchanged() {
    let mut state = AppState::new(60, 0);
    let config = AppConfig::from(cli(false, false, false, false));
    let mut c = DataCollector::new(config, 1, 0, None, false);
    let req = state.sample_request().unwrap();
    let snap = c.collect_data(readings(1000, 0, 0), req.show_system, &req.filter, GlobalUsage::new(60));
    state.finish_tick(Some(snap));
    assert_eq!(state.selected_row, Some(0));
    let before = format!("{:?}", state.dynamic_data);
    state.toggle_pause();
    assert!(state.sample_request().is_none());
    let fresh = c.collect_data(readings(2000, 500, 0), false, "", GlobalUsage::new(60));
    state.finish_tick(Some(fresh));
    assert_eq!(format!("{:?}", state.dynamic_data), before);
    state.toggle_pause();
    assert_eq!(format!("{:?}", state.dynamic_data), before);
    assert!(state.sample_request().is_some());
    let empty = DynamicData::empty(60, 0);
    assert!(empty.processes.is_empty());
}

#[test]
fn navigation_wraps_around() {
    let config = AppConfig::from(cli(false, false, false, false));
    let mut c = DataCollector::new(config, 1, 0, None, false);
    let mut state = AppState::new(60, 0);
    state.handle_process_navigation(true);
    assert_eq!(state.selected_row, None);
    let mut r = readings(1000, 0, 0);
    let mut second = r.processes[0].clone();
    second.pid = 11;
    r.processes.push(second);
    let snap = c.collect_data(r, false, "", GlobalUsage::new(60));
    state.finish_tick(Some(snap));
    assert_eq!(state.selected_row, Some(0));
    state.handle_process_navigation(false);
    assert_eq!(state.selected_row, Some(1));
    state.handle_process_navigation(true);
    assert_eq!(state.selected_row, Some(0));
    state.handle_process_navigation(true);
    assert_eq!(state.selected_row, Some(1));
}

#[test]
fn global_usage_from_totals() {
    let m = puls::system_monitor::SystemMonitor::new(0, 0);
    let u = m.get_global_usage(&totals(), 1, 2, 3, 4, Some(50));
    assert_eq!((u.net_down, u.net_up, u.disk_read, u.disk_write), (1, 2, 3, 4));
    assert_eq!(u.gpu_util, Some(50));
    assert_eq!(u.boot_time, 1000);
    assert_eq!(u.uptime, 3661);
    assert!(u.cpu_history.is_empty());
    let t = m.get_temperatures();
    assert!(t.cpu_temp.is_none() && t.gpu_temps.is_empty());
}
