use redox_console::status::Status;
use redox_console::system::{MetricDeltas, SystemState};

#[test]
fn seeded_snapshot_matches_the_boot_image() {
    let s = SystemState::init(1_000_000, 8_100);
    assert_eq!(s.boot_time, 1_000_000);
    assert_eq!(s.uptime, 8_100);
    assert_eq!(s.cpu_usage, 245);
    assert_eq!(s.memory_used, 120);
    assert_eq!(s.memory_total, 400);
    assert_eq!(s.memory_free, 280);
    assert_eq!(s.swap_used, 10);
    assert_eq!(s.swap_total, 200);
    assert_eq!(s.load_average, [85, 112, 93]);
    assert_eq!(s.kernel_threads, 142);
    assert_eq!(s.user_processes, 56);
    assert_eq!(s.ipc_messages, 984);
    assert_eq!(s.fs_reads, 812);
    assert_eq!(s.fs_writes, 203);
    assert_eq!(s.network_rx, 1024);
    assert_eq!(s.network_tx, 2048);
    assert_eq!(s.kernel_status.scheduler, Status::Online);
    assert_eq!(s.kernel_status.network_stack, Status::Offline);
    assert_eq!(s.subsystem_status.netstack_daemon, Status::Offline);
    assert_eq!(s.subsystem_status.gui_orbital, Status::Offline);
    assert_eq!(s.subsystem_status.display_manager, Status::Offline);
    assert_eq!(s.processes.len(), 5);
    assert_eq!(s.processes[0].name, "init");
    assert_eq!(s.processes[0].cpu, 1);
    assert_eq!(s.processes[3].command, "/usr/bin/nano /home/bura/code.rs");
    assert_eq!(s.filesystems.len(), 4);
    assert_eq!(s.filesystems[0].mount, "/");
    assert_eq!(s.filesystems[3].status, "OFFLINE");
    assert_eq!(s.logs.len(), 4);
    assert_eq!(s.logs[0].timestamp, 1_000_000 + 8_100 - 300);
    assert_eq!(s.services.len(), 4);
    assert_eq!(s.services[3].name, "orbital");
    assert_eq!(s.services[3].status, "STOPPED");
    assert_eq!(s.network_interfaces.len(), 2);
    assert_eq!(s.network_interfaces[0].name, "eth0");
    assert_eq!(s.network_interfaces[0].status, "DOWN");
    assert_eq!(s.network_interfaces[0].ip, "0.0.0.0");
    assert_eq!(s.network_interfaces[1].name, "lo");
    assert_eq!(s.cpu_history.samples(), &vec![200, 220, 245]);
    assert_eq!(s.memory_history.samples(), &vec![100, 110, 120]);
    assert_eq!(
        s.network_history.samples(),
        &vec![(800, 1200), (900, 1800), (1024, 2048)]
    );
}

#[test]
fn fresh_snapshot_booted_ten_to_onehundredtwenty_minutes_ago() {
    for _ in 0..20 {
        let s = SystemState::new();
        assert!(s.uptime >= 600);
        assert!(s.uptime < 7_200);
        assert_eq!(s.cpu_usage, 245);
    }
}

fn fixed_deltas(cpu: i32, memory: i32, per_process: i32) -> MetricDeltas {
    MetricDeltas {
        cpu,
        memory,
        ipc: 40,
        fs_reads: -20,
        fs_writes: 10,
        net_rx: 99,
        net_tx: 150,
        proc_cpu: vec![per_process; 5],
    }
}

#[test]
fn update_clamps_every_gauge_and_recomputes_free_memory() {
    let mut s = SystemState::init(0, 600);
    // Push every gauge to its ceiling...
    for _ in 0..100 {
        s.update_with(&fixed_deltas(29, 19, 4), 700);
        assert!((10..=950).contains(&s.cpu_usage));
        assert!((80..=380).contains(&s.memory_used));
        assert_eq!(s.memory_free, s.memory_total - s.memory_used);
        for p in &s.processes {
            assert!(p.cpu <= 100);
        }
    }
    assert_eq!(s.cpu_usage, 950);
    assert_eq!(s.memory_used, 380);
    assert_eq!(s.memory_free, 20);
    // ... and then to its floor.
    for _ in 0..100 {
        s.update_with(&fixed_deltas(-30, -10, -5), 800);
    }
    assert_eq!(s.cpu_usage, 10);
    assert_eq!(s.memory_used, 80);
    assert_eq!(s.memory_free, 320);
    for p in &s.processes {
        assert_eq!(p.cpu, 0);
    }
}

#[test]
fn counters_never_fall_below_their_floors() {
    let mut s = SystemState::init(0, 600);
    let d = MetricDeltas {
        cpu: 0,
        memory: 0,
        ipc: -50,
        fs_reads: -30,
        fs_writes: -20,
        net_rx: 0,
        net_tx: 0,
        proc_cpu: vec![0; 5],
    };
    for _ in 0..60 {
        s.update_with(&d, 700);
        assert!(s.ipc_messages >= 500);
        assert!(s.fs_reads >= 200);
        assert!(s.fs_writes >= 50);
    }
    assert_eq!(s.ipc_messages, 500);
    assert_eq!(s.fs_reads, 200);
    assert_eq!(s.fs_writes, 50);
}

#[test]
fn zero_deltas_give_a_reproducible_snapshot() {
    let mut a = SystemState::init(5_000, 1_200);
    let mut b = SystemState::init(5_000, 1_200);
    for k in 0..7u64 {
        let d = MetricDeltas::zero(a.processes.len());
        a.update_with(&d, 6_200 + k);
        let d = MetricDeltas::zero(b.processes.len());
        b.update_with(&d, 6_200 + k);
        assert_eq!(a, b);
    }
    // Regression fixture: with zero draws nothing drifts, only the
    // histories and the uptime move.
    assert_eq!(a.cpu_usage, 245);
    assert_eq!(a.memory_used, 120);
    assert_eq!(a.memory_free, 280);
    assert_eq!(a.ipc_messages, 984);
    assert_eq!(a.network_rx, 1024);
    assert_eq!(a.uptime, 1_206);
    assert_eq!(a.cpu_history.len(), 10);
    assert_eq!(a.cpu_history.samples()[9], 245);
    assert_eq!(a.memory_history.samples()[9], 120);
    assert_eq!(a.network_history.samples()[9], (1024, 2048));
    assert_eq!(a.processes[1].cpu, 12);
}

#[test]
fn histories_stay_bounded_under_real_updates() {
    let mut s = SystemState::new();
    for _ in 0..80 {
        s.update();
        assert!((10..=950).contains(&s.cpu_usage));
        assert!((80..=380).contains(&s.memory_used));
        assert_eq!(s.memory_free, s.memory_total - s.memory_used);
        assert!(s.cpu_history.len() <= 60);
        assert!(s.memory_history.len() <= 60);
        assert!(s.network_history.len() <= 60);
    }
    assert_eq!(s.cpu_history.len(), 60);
}

#[test]
fn refresh_acts_as_one_update() {
    let mut s = SystemState::init(0, 600);
    s.refresh();
    assert_eq!(s.cpu_history.len(), 4);
    assert!((10..=950).contains(&s.cpu_usage));
    assert_eq!(s.memory_free, s.memory_total - s.memory_used);
}

#[test]
fn network_toggle_drives_the_coupled_fields_both_ways() {
    let mut s = SystemState::init(1_000, 600);
    let before = s.clone();
    assert_eq!(s.kernel_status.network_stack, Status::Offline);

    s.toggle_network();
    assert_eq!(s.kernel_status.network_stack, Status::Online);
    assert_eq!(s.subsystem_status.netstack_daemon, Status::Online);
    assert_eq!(s.network_interfaces[0].status, "UP");
    assert_eq!(s.network_interfaces[0].ip, "192.168.1.100");
    // The loopback interface is untouched.
    assert_eq!(s.network_interfaces[1].status, "UP");
    assert_eq!(s.network_interfaces[1].ip, "127.0.0.1");

    s.toggle_network();
    assert_eq!(s.kernel_status.network_stack, Status::Offline);
    assert_eq!(s.subsystem_status.netstack_daemon, Status::Offline);
    assert_eq!(s.network_interfaces[0].status, "DOWN");
    assert_eq!(s.network_interfaces[0].ip, "0.0.0.0");
    assert_eq!(s, before);
}

#[test]
fn orbital_toggle_drives_the_coupled_fields_both_ways() {
    let mut s = SystemState::init(1_000, 600);
    let before = s.clone();
    assert_eq!(s.subsystem_status.gui_orbital, Status::Offline);

    s.toggle_orbital();
    assert_eq!(s.subsystem_status.gui_orbital, Status::Online);
    assert_eq!(s.subsystem_status.display_manager, Status::Online);
    assert_eq!(s.services[3].status, "RUNNING");
    assert_eq!(s.services[3].uptime, "0m");
    // The other services are untouched.
    assert_eq!(s.services[2].status, "STOPPED");

    s.toggle_orbital();
    assert_eq!(s.subsystem_status.gui_orbital, Status::Offline);
    assert_eq!(s.subsystem_status.display_manager, Status::Offline);
    assert_eq!(s.services[3].status, "STOPPED");
    assert_eq!(s.services[3].uptime, "-");
    assert_eq!(s, before);
}

#[test]
fn uptime_string_is_zero_padded_hh_mm_ss() {
    assert_eq!(SystemState::init(0, 8_100).get_uptime_string(), "02:15:00");
    assert_eq!(SystemState::init(0, 0).get_uptime_string(), "00:00:00");
    assert_eq!(SystemState::init(0, 59).get_uptime_string(), "00:00:59");
    assert_eq!(SystemState::init(0, 3_661).get_uptime_string(), "01:01:01");
    assert_eq!(SystemState::init(0, 360_000).get_uptime_string(), "100:00:00");
}
