use puls::container_monitor::{
    runtime_info, ContainerListing, ContainerMonitor, RawContainer, RawContainerStats, RawPort, BlkioEntry,
};
use puls::gpu_monitor::GpuMonitor;
use puls::sort::sort_processes;
use puls::system_monitor::{RawNetwork, RawProcess, RawProcessDetail, SystemMonitor};
use puls::types::{GpuInfo, NetworkStats, ProcessInfo, ProcessSortBy};

fn raw_process(pid: u32, name: &str, read: u64, written: u64) -> RawProcess {
    RawProcess {
        pid,
        name: name.to_string(),
        cpu_usage: 400,
        memory: 2048,
        total_read_bytes: read,
        total_written_bytes: written,
        user: Some("alice".to_string()),
        status: "Running".to_string(),
    }
}

fn row(pid: &str, name: &str, cpu: u32, mem: u64) -> ProcessInfo {
    ProcessInfo {
        pid: pid.to_string(),
        pid_num: pid.parse().unwrap(),
        name: name.to_string(),
        cpu,
        cpu_display: String::new(),
        mem,
        mem_display: String::new(),
        disk_read_rate: 0,
        disk_write_rate: 0,
        disk_read: "0 B/s".to_string(),
        disk_write: "0 B/s".to_string(),
        user: "root".to_string(),
        status: "Running".to_string(),
    }
}

#[test]
fn test_process_sorting() {
    let mut processes = vec![
        ProcessInfo {
            pid: "1".to_string(),
            pid_num: 1,
            name: "init".to_string(),
            cpu: 100,
            cpu_display: "1.0%".to_string(),
            mem: 1024,
            mem_display: "1.0 KiB".to_string(),
            disk_read_rate: 0,
            disk_write_rate: 0,
            disk_read: "0 B/s".to_string(),
            disk_write: "0 B/s".to_string(),
            user: "root".to_string(),
            status: "Running".to_string(),
        },
        ProcessInfo {
            pid: "2".to_string(),
            pid_num: 2,
            name: "kthreadd".to_string(),
            cpu: 500,
            cpu_display: "5.0%".to_string(),
            mem: 2048,
            mem_display: "2.0 KiB".to_string(),
            disk_read_rate: 0,
            disk_write_rate: 0,
            disk_read: "0 B/s".to_string(),
            disk_write: "0 B/s".to_string(),
            user: "root".to_string(),
            status: "Running".to_string(),
        },
    ];

    sort_processes(&mut processes, &ProcessSortBy::Cpu, false);
    assert_eq!(processes[0].name, "kthreadd");

    sort_processes(&mut processes, &ProcessSortBy::Memory, false);
    assert_eq!(processes[0].name, "kthreadd");
}

#[test]
fn sort_directions_reverse_distinct_and_keep_ties() {
    let input = vec![
        row("1", "a", 300, 1),
        row("2", "b", 100, 2),
        row("3", "c", 300, 3),
        row("4", "d", 200, 4),
    ];
    let mut desc = input.clone();
    sort_processes(&mut desc, &ProcessSortBy::Cpu, false);
    let mut asc = input.clone();
    sort_processes(&mut asc, &ProcessSortBy::Cpu, true);
    let d: Vec<&str> = desc.iter().map(|p| p.name.as_str()).collect();
    let a: Vec<&str> = asc.iter().map(|p| p.name.as_str()).collect();
    assert_eq!(d, vec!["a", "c", "d", "b"]);
    assert_eq!(a, vec!["b", "d", "a", "c"]);
}

#[test]
fn sort_by_name_and_pid() {
    let mut v = vec![row("10", "zsh", 0, 0), row("2", "bash", 0, 0), row("7", "Xorg", 0, 0)];
    sort_processes(&mut v, &ProcessSortBy::Name, true);
    let names: Vec<&str> = v.iter().map(|p| p.name.as_str()).collect();
    assert_eq!(names, vec!["Xorg", "bash", "zsh"]);
    sort_processes(&mut v, &ProcessSortBy::Pid, true);
    let pids: Vec<u32> = v.iter().map(|p| p.pid_num).collect();
    assert_eq!(pids, vec![2, 7, 10]);
}

#[test]
fn test_system_monitor_rates_over_two_ticks() {
    let mut m = SystemMonitor::new(99, 0);
    let first = vec![raw_process(10, "worker", 1000, 0)];
    let rows = m.update_processes(&first, 1000, false, "", 4);
    assert_eq!(rows.len(), 1);
    assert_eq!(rows[0].disk_read_rate, 0);
    let second = vec![raw_process(10, "worker", 3000, 500)];
    let rows = m.update_processes(&second, 2000, false, "", 4);
    assert_eq!(rows[0].disk_read_rate, 2000);
    assert_eq!(rows[0].disk_read, "2.0 KB/s");
    assert_eq!(rows[0].disk_write_rate, 500);
    assert_eq!(rows[0].cpu, 100);
    assert_eq!(rows[0].cpu_display, "1.00%");
    assert_eq!(rows[0].mem_display, "2.0 KiB");
    assert_eq!(rows[0].user, "alice");
}

#[test]
fn process_filters_and_forgotten_pids() {
    let mut m = SystemMonitor::new(99, 0);
    let mut nobody = raw_process(7, "firefox", 0, 0);
    nobody.user = None;
    let raws = vec![
        raw_process(99, "puls", 0, 0),
        raw_process(1, "systemd", 0, 0),
        nobody,
        raw_process(8, "chrome", 0, 0),
    ];
    let rows = m.update_processes(&raws, 1000, false, "", 1);
    let names: Vec<&str> = rows.iter().map(|p| p.name.as_str()).collect();
    assert_eq!(names, vec!["firefox", "chrome"]);
    assert_eq!(rows[0].user, "N/A");
    let rows = m.update_processes(&raws, 2000, true, "FIRE", 1);
    assert_eq!(rows.len(), 1);
    assert_eq!(rows[0].pid, "7");
    let rows = m.update_processes(&raws, 3000, true, "8", 1);
    assert_eq!(rows.len(), 1);
    assert_eq!(rows[0].name, "chrome");
    assert_eq!(m.prev_disk_usage.len(), 4);
    let rows = m.update_processes(&vec![], 4000, true, "", 1);
    assert!(rows.is_empty());
    assert!(m.prev_disk_usage.is_empty());
}

#[test]
fn cpu_is_normalized_and_capped() {
    let mut m = SystemMonitor::new(0, 0);
    let mut p = raw_process(5, "busy", 0, 0);
    p.cpu_usage = 80000;
    let rows = m.update_processes(&vec![p], 1000, true, "", 4);
    assert_eq!(rows[0].cpu, 10000);
    assert_eq!(rows[0].cpu_display, "100.00%");
}

fn raw_net(name: &str, rx: u64, tx: u64) -> RawNetwork {
    RawNetwork {
        name: name.to_string(),
        total_received: rx,
        total_transmitted: tx,
        packets_received: 1,
        packets_transmitted: 2,
        errors_received: 0,
        errors_transmitted: 0,
    }
}

#[test]
fn network_counter_reset_reads_zero() {
    let mut m = SystemMonitor::new(0, 0);
    let first = m.get_networks(&vec![raw_net("eth0", 5_000_000, 100)], 1000);
    assert_eq!(first[0].down_rate, 0);
    let second = m.get_networks(&vec![raw_net("eth0", 1200, 2100)], 2000);
    assert_eq!(second[0].down_rate, 0);
    assert_eq!(second[0].up_rate, 2000);
    assert_eq!(second[0].interface_type, "Unknown");
    let (down, up) = m.calculate_total_network_io(&second);
    assert_eq!((down, up), (0, 2000));
}

#[test]
fn detailed_process_fields() {
    let m = SystemMonitor::new(0, 0);
    assert!(m.get_detailed_process(None).is_none());
    let raw = RawProcessDetail {
        pid: 42,
        name: "vim".to_string(),
        user: None,
        status: "Sleeping".to_string(),
        cpu_usage: 150,
        memory: 1,
        virtual_memory: 2,
        cmd: vec!["vim".to_string(), "notes.txt".to_string()],
        start_time: 1_700_000_000,
        parent: Some(1),
        environ: vec!["HOME=/root".to_string()],
        threads: None,
        cwd: None,
    };
    let d = m.get_detailed_process(Some(raw)).unwrap();
    assert_eq!(d.pid, "42");
    assert_eq!(d.user, "N/A");
    assert_eq!(d.command, "vim notes.txt");
    assert_eq!(d.parent, Some("1".to_string()));
    assert_eq!(d.threads, 0);
    assert_ne!(d.start_time, "Invalid time");
    assert_eq!(d.start_time.len(), 19);
}

#[test]
fn test_gpu_monitor_creation() {
    let monitor = GpuMonitor::new(None);
    assert!(monitor.is_available());
    let failed = GpuMonitor::new(Some("driver missing".to_string()));
    assert!(!failed.is_available());
}

#[test]
fn test_gpu_history() {
    let mut monitor = GpuMonitor::new(None);
    let fake_gpus = vec![GpuInfo { utilization: 50, ..Default::default() }];

    monitor.update_gpu_history(&fake_gpus, 10);
    assert_eq!(monitor.history_len(), 1);

    let history = monitor.get_gpu_history_flat();
    assert_eq!(history, vec![50u64]);
}

#[test]
fn gpu_history_is_bounded() {
    let mut monitor = GpuMonitor::new(None);
    for u in 0..5u32 {
        let gpus = vec![GpuInfo { utilization: u, ..Default::default() }, GpuInfo {
            utilization: u + 10,
            ..Default::default()
        }];
        monitor.update_gpu_history(&gpus, 2);
    }
    assert_eq!(monitor.history_len(), 2);
    assert_eq!(monitor.get_gpu_history_flat(), vec![3, 13, 4, 14]);
}

#[test]
fn gpu_info_errors_and_primary() {
    let failed = GpuMonitor::new(Some("no driver".to_string()));
    let e = failed.get_gpu_info(Ok(vec![Ok(GpuInfo::default())])).unwrap_err();
    assert_eq!(e, "NVML initialization failed: no driver");

    let m = GpuMonitor::new(None);
    assert_eq!(m.get_gpu_info(Err("count".to_string())).unwrap_err(), "NVIDIA GPU error: count");
    let e = m
        .get_gpu_info(Ok(vec![Ok(GpuInfo::default()), Err("temperature".to_string())]))
        .unwrap_err();
    assert_eq!(e, "NVIDIA GPU error: temperature");
    assert_eq!(m.get_gpu_info(Ok(vec![])).unwrap_err(), "No supported GPUs found");
    let gpus = m
        .get_gpu_info(Ok(vec![
            Ok(GpuInfo { utilization: 30, ..Default::default() }),
            Ok(GpuInfo { utilization: 70, ..Default::default() }),
        ]))
        .unwrap();
    assert_eq!(gpus.len(), 2);
    assert_eq!(m.get_primary_gpu_utilization(&gpus), Some(70));
    assert_eq!(m.get_primary_gpu_utilization(&vec![]), None);
}

fn stats(cpu: u64, precpu: u64, rx: u64, read: u64) -> RawContainerStats {
    RawContainerStats {
        cpu_total_usage: cpu,
        precpu_total_usage: precpu,
        system_cpu_usage: Some(2_000_000),
        presystem_cpu_usage: Some(1_000_000),
        online_cpus: Some(2),
        memory_usage: Some(1048576),
        networks: Some(vec![NetworkStats { rx, tx: 0 }, NetworkStats { rx, tx: 1000 }]),
        blkio: Some(vec![
            BlkioEntry { op: "Read".to_string(), value: read },
            BlkioEntry { op: "Write".to_string(), value: 0 },
            BlkioEntry { op: "Total".to_string(), value: 99 },
        ]),
    }
}

fn container(n: usize, with_stats: bool) -> RawContainer {
    RawContainer {
        id: Some(format!("{:0>64}", n)),
        names: Some(vec![format!("/app{}", n)]),
        status: Some("Up 2 hours".to_string()),
        image: None,
        ports: Some(vec![RawPort { public_port: Some(8080), private_port: 80 }, RawPort {
            public_port: None,
            private_port: 443,
        }]),
        stats: if with_stats {
            Some(stats(600_000, 100_000, 1000 * n as u64, 4000))
        } else {
            None
        },
    }
}

#[test]
fn test_container_monitor_creation() {
    let monitor = ContainerMonitor::new(false, 0);
    assert!(!monitor.is_available());
    let timeouts = ContainerMonitor::step_timeouts(500);
    assert_eq!((timeouts.ping_ms, timeouts.list_ms, timeouts.stats_ms), (125, 250, 125));
}

#[test]
fn container_stats_timeout_isolated() {
    let mut m = ContainerMonitor::new(true, 0);
    let listing: Vec<RawContainer> = (1..=5).map(|n| container(n, n != 3)).collect();
    let rows = m.get_containers(&ContainerListing::Listed(listing), 1000);
    assert_eq!(rows.len(), 5);
    let third = &rows[2];
    assert_eq!(third.cpu, "0.00%");
    assert_eq!(third.mem, "0 B");
    assert_eq!(
        (third.net_down.as_str(), third.net_up.as_str(), third.disk_r.as_str(), third.disk_w.as_str()),
        ("0 B/s", "0 B/s", "0 B/s", "0 B/s")
    );
    for (i, r) in rows.iter().enumerate() {
        if i == 2 {
            continue;
        }
        assert_eq!(r.cpu, "100.00%");
        assert_eq!(r.mem, "1.0 MiB");
        assert_eq!(r.disk_r, "4.0 KB/s");
        assert_eq!(r.net_up, "1.0 KB/s");
    }
    assert_eq!(rows[0].net_down, "2.0 KB/s");
    assert_eq!(rows[0].name, "app1");
    assert_eq!(rows[0].id, "000000000000");
    assert_eq!(rows[0].image, "unknown");
    assert_eq!(rows[0].ports, "8080:80, 443");
    assert_eq!(m.prev_container_stats.len(), 4);
}

#[test]
fn container_rates_against_previous_tick() {
    let mut m = ContainerMonitor::new(true, 0);
    m.get_containers(&ContainerListing::Listed(vec![container(1, true)]), 1000);
    let mut c = container(1, true);
    c.stats = Some(stats(600_000, 100_000, 3000, 10000));
    let rows = m.get_containers(&ContainerListing::Listed(vec![c]), 3000);
    assert_eq!(rows[0].net_down, "2.0 KB/s");
    assert_eq!(rows[0].disk_r, "3.0 KB/s");
    assert_eq!(rows[0].net_up, "0 B/s");
}

#[test]
fn container_unreachable_or_disconnected() {
    let mut m = ContainerMonitor::new(true, 0);
    assert!(m.get_containers(&ContainerListing::Unreachable, 1000).is_empty());
    let mut off = ContainerMonitor::new(false, 0);
    let rows = off.get_containers(&ContainerListing::Listed(vec![container(1, true)]), 1000);
    assert!(rows.is_empty());
    let mut short = container(2, false);
    short.id = Some("abc".to_string());
    short.names = None;
    short.ports = Some(vec![]);
    let rows = m.get_containers(&ContainerListing::Listed(vec![short]), 2000);
    assert_eq!(rows[0].id, "N/A");
    assert_eq!(rows[0].name, "unnamed");
    assert_eq!(rows[0].ports, "none");
}

#[test]
fn runtime_description() {
    assert_eq!(runtime_info(None), None);
    assert_eq!(
        runtime_info(Some((Some("24.0.7".to_string()), None))),
        Some("Docker 24.0.7 (API unknown)".to_string())
    );
}

#[test]
fn read_rate_at_any_table_position() {
    let mut m = SystemMonitor::new(99, 0);
    let first = vec![
        raw_process(3, "alpha", 10, 0),
        raw_process(4, "beta", 500, 0),
        raw_process(10, "worker", 1000, 0),
    ];
    m.update_processes(&first, 1000, false, "", 4);
    let second = vec![
        raw_process(4, "beta", 500, 0),
        raw_process(3, "alpha", 10, 0),
        raw_process(10, "worker", 3000, 0),
    ];
    let rows = m.update_processes(&second, 2000, false, "", 4);
    let worker = rows.iter().find(|p| p.pid_num == 10).unwrap();
    assert_eq!(worker.disk_read_rate, 2000);
    assert_eq!(worker.disk_read, "2.0 KB/s");
    assert!(rows.iter().filter(|p| p.pid_num != 10).all(|p| p.disk_read_rate == 0));
}
