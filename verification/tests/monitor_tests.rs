use swww_manager::debounce::{Debouncer, QUIET_PERIOD_MS, RECONNECT_DELAY_MS};
use swww_manager::error::{Error, ErrorKind};
use swww_manager::hyprland_event::{monitor_events, HyprlandEvent, StreamStep};
use swww_manager::hyprland_ipc::{runtime_dir, HyprlandIPC, Monitor};
use swww_manager::monitor::{
    compare_monitors, MonitorChanges, MonitorManager, StableSampler, REQUIRED_SAME,
    SAMPLE_STEP_MS, SAMPLE_WINDOW_MS,
};
use swww_manager::notify::{icon_for, send, send_error, send_success, NotificationKind};

fn monitor(name: &str, focused: bool, enabled: bool, width: i32, height: i32) -> Monitor {
    Monitor { name: name.to_string(), focused, enabled, width, height }
}

fn manager() -> MonitorManager {
    MonitorManager::new(HyprlandIPC::new(Some("sig"), Some("/run/user/7"), 7))
}

fn names(list: &[&str]) -> Vec<String> {
    list.iter().map(|s| s.to_string()).collect()
}

#[test]
fn test_get_monitors() {
    let listed = vec![
        monitor("DP-1", false, true, 1920, 1080),
        monitor("off", false, false, 1920, 1080),
        monitor("flat", false, true, 0, 1080),
        monitor("eDP-1", true, true, 1280, 720),
        monitor("thin", false, true, 10, 0),
    ];
    let monitors = manager().get_monitors(&listed).unwrap();
    assert!(!monitors.is_empty());
    assert_eq!(monitors, names(&["DP-1", "eDP-1"]));
    assert_eq!(manager().get_monitor_details(&listed).unwrap().len(), 2);
    assert_eq!(manager().get_focused_monitor(&listed).unwrap(), "eDP-1");
}

#[test]
fn no_focused_monitor_is_a_failure() {
    let listed = vec![monitor("DP-1", false, true, 1920, 1080)];
    let e = manager().get_focused_monitor(&listed).unwrap_err();
    assert_eq!(e.kind, ErrorKind::ExternalGatewayFailure);
    assert_eq!(e.message, "No focused monitor found");
}

#[test]
fn without_a_socket_monitors_are_not_read() {
    let none = MonitorManager::new(HyprlandIPC::new(None, None, 7));
    assert!(none.ipc().is_none());
    let listed = vec![monitor("DP-1", true, true, 1920, 1080)];
    let e = none.get_monitors(&listed).unwrap_err();
    assert_eq!(e.message, "Hyprland IPC not available");
    assert_eq!(none.get_monitor_details(&listed).unwrap_err().message, "Hyprland IPC not available");
    assert_eq!(none.get_focused_monitor(&listed).unwrap_err().message, "Hyprland IPC not available");
}

#[test]
fn command_socket_and_commands() {
    let ipc = HyprlandIPC::new(Some("abc"), Some("/run/user/7"), 1000).unwrap();
    assert_eq!(ipc.socket_path, "/run/user/7/hypr/abc/.socket.sock");
    let fallback = HyprlandIPC::new(Some("abc"), None, 1000).unwrap();
    assert_eq!(fallback.socket_path, "/run/user/1000/hypr/abc/.socket.sock");
    let e = HyprlandIPC::new(None, Some("/run/user/7"), 1000).unwrap_err();
    assert_eq!(e.message, "HYPRLAND_INSTANCE_SIGNATURE not set. Are you running under Hyprland?");
    assert_eq!(runtime_dir(None, 42), "/run/user/42");
    assert_eq!(ipc.dispatch_json("monitors"), "j/monitors");
    assert_eq!(ipc.get_monitors(), "j/monitors");
    assert_eq!(ipc.notify(1, 5000, "rgb(88ccff)", "hello there"), "notify 1 5000 rgb(88ccff) hello there");
    assert_eq!(ipc.notify(-1, 0, "c", "m"), "notify -1 0 c m");
    assert_eq!(ipc.notify(i32::MIN, 1, "c", "m"), "notify -2147483648 1 c m");
    let note = send_error("broken");
    assert_eq!(ipc.notification(&note), "notify 3 8000 rgb(ff8888) broken");
}

#[test]
fn notifications_by_kind() {
    assert_eq!(icon_for(NotificationKind::Warning), 0);
    assert_eq!(icon_for(NotificationKind::Info), 1);
    assert_eq!(icon_for(NotificationKind::Hint), 2);
    assert_eq!(icon_for(NotificationKind::Error), 3);
    assert_eq!(icon_for(NotificationKind::Success), 1);
    let n = send("Profile switched", "dual");
    assert_eq!(n.text, "Profile switched: dual");
    assert_eq!(n.color, "rgb(88ccff)");
    assert_eq!(n.duration_ms, 5000);
    assert_eq!(n.kind, NotificationKind::Info);
    let s = send_success("done");
    assert_eq!((s.text.as_str(), s.color.as_str(), s.duration_ms), ("done", "rgb(88ff88)", 3000));
    assert_eq!(s.kind, NotificationKind::Success);
}

#[test]
fn three_like_readings_settle() {
    let mut sampler = manager().get_stable_monitors();
    assert_eq!(sampler.observe(Ok(names(&["b", "a"]))), None);
    assert_eq!(sampler.observe(Ok(names(&["a", "b"]))), None);
    assert_eq!(sampler.observe(Ok(names(&["b", "a"]))), Some(names(&["a", "b"])));
    assert_eq!(REQUIRED_SAME, 3);
}

#[test]
fn a_change_starts_the_run_over() {
    let mut sampler = StableSampler::new();
    assert_eq!(sampler.finish(), Ok(Vec::<String>::new()));
    assert_eq!(sampler.observe(Ok(names(&["a"]))), None);
    assert_eq!(sampler.observe(Ok(names(&["a"]))), None);
    assert_eq!(sampler.observe(Ok(names(&["a", "b"]))), None);
    assert_eq!(sampler.observe(Ok(names(&["a", "b"]))), None);
    assert_eq!(sampler.finish(), Ok(names(&["a", "b"])));
    assert_eq!(sampler.observe(Ok(names(&["b", "a"]))), Some(names(&["a", "b"])));
    assert_eq!(sampler.observe(Ok(names(&["b", "a"]))), Some(names(&["a", "b"])));
}

#[test]
fn failed_readings_end_in_the_failure() {
    let failure = |text: &str| Error::new(ErrorKind::ExternalGatewayFailure, text.to_string());
    let mut sampler = StableSampler::new();
    assert_eq!(sampler.observe(Err(failure("one"))), None);
    assert_eq!(sampler.observe(Err(failure("two"))), None);
    assert_eq!(sampler.observe(Err(failure("three"))), None);
    assert_eq!(sampler.observe(Err(failure("four"))), None);
    let e = sampler.finish().unwrap_err();
    assert_eq!(e.kind, ErrorKind::ExternalGatewayFailure);
    assert_eq!(e.message, "four");
}

#[test]
fn a_failed_reading_interrupts_the_run() {
    let failure = || Error::new(ErrorKind::ExternalGatewayFailure, "x".to_string());
    let mut sampler = StableSampler::new();
    assert_eq!(sampler.observe(Ok(Vec::new())), None);
    assert_eq!(sampler.observe(Ok(Vec::new())), None);
    assert_eq!(sampler.observe(Err(failure())), None);
    assert_eq!(sampler.observe(Ok(Vec::new())), None);
    assert_eq!(sampler.observe(Ok(Vec::new())), None);
    assert_eq!(sampler.finish(), Ok(Vec::new()));
    assert_eq!(sampler.observe(Ok(Vec::new())), Some(Vec::new()));
    let mut other = StableSampler::new();
    assert_eq!(other.observe(Ok(names(&["a"]))), None);
    assert_eq!(other.observe(Err(failure())), None);
    assert_eq!(other.finish(), Ok(names(&["a"])));
}

#[test]
fn readings_end_with_the_window() {
    let sampler = StableSampler::new();
    assert!(sampler.should_continue(0));
    assert!(sampler.should_continue(1199));
    assert!(!sampler.should_continue(1200));
    assert_eq!(SAMPLE_WINDOW_MS, 1200);
    assert_eq!(SAMPLE_STEP_MS, 200);
}

#[test]
fn debounce_coalesces_a_burst() {
    let mut d = Debouncer::new();
    let mut fired = Vec::new();
    for now in 0..2000u64 {
        if now % 100 == 0 && now <= 400 {
            d.on_event(true, now);
        }
        if d.poll(now) {
            fired.push(now);
        }
    }
    assert_eq!(fired, vec![400 + QUIET_PERIOD_MS]);
    assert_eq!(QUIET_PERIOD_MS, 900);
}

#[test]
fn other_events_do_not_move_the_trigger() {
    let mut d = Debouncer::new();
    d.on_event(false, 10);
    assert_eq!(d.deadline(), None);
    assert!(!d.poll(5000));
    d.on_event(true, 100);
    d.on_event(false, 500);
    assert_eq!(d.deadline(), Some(1000));
    assert!(!d.poll(999));
    assert!(d.poll(1000));
    assert!(!d.poll(1001));
    d.on_event(true, u64::MAX - 5);
    assert_eq!(d.deadline(), Some(u64::MAX));
}

#[test]
fn lines_of_the_event_socket() {
    assert_eq!(
        HyprlandEvent::parse_event("monitoraddedv2>>1,DP-1,Dell Inc., U2720Q\n"),
        HyprlandEvent::MonitorAdded {
            id: "1".to_string(),
            name: "DP-1".to_string(),
            description: "Dell Inc., U2720Q".to_string(),
        }
    );
    assert_eq!(
        HyprlandEvent::parse_event("  monitorremovedv2>>2,HDMI-A-1,desc  "),
        HyprlandEvent::MonitorRemoved {
            id: "2".to_string(),
            name: "HDMI-A-1".to_string(),
            description: "desc".to_string(),
        }
    );
    assert_eq!(
        HyprlandEvent::parse_event("monitoraddedv2>>1,DP-1"),
        HyprlandEvent::Other("monitoraddedv2>>1,DP-1".to_string())
    );
    assert_eq!(
        HyprlandEvent::parse_event("workspacev2>>3,web,more\n"),
        HyprlandEvent::Workspace { id: "3".to_string(), name: "web".to_string() }
    );
    assert_eq!(
        HyprlandEvent::parse_event("focusedmon>>DP-1,2"),
        HyprlandEvent::FocusedMon { monitor: "DP-1".to_string(), workspace: "2".to_string() }
    );
    assert_eq!(
        HyprlandEvent::parse_event("focusedmon>>DP-1"),
        HyprlandEvent::Other("focusedmon>>DP-1".to_string())
    );
    assert_eq!(
        HyprlandEvent::parse_event("activewindow>>kitty,zsh"),
        HyprlandEvent::Other("activewindow>>kitty,zsh".to_string())
    );
    assert_eq!(HyprlandEvent::parse_event(" no mark \n"), HyprlandEvent::Other("no mark".to_string()));
    assert_eq!(HyprlandEvent::parse_event("\u{3000}\t\n"), HyprlandEvent::Other(String::new()));
    assert_eq!(
        HyprlandEvent::parse_event("monitoraddedv2>>a>>b,c,d"),
        HyprlandEvent::MonitorAdded {
            id: "a>>b".to_string(),
            name: "c".to_string(),
            description: "d".to_string(),
        }
    );
}

#[test]
fn stream_of_events() {
    assert_eq!(HyprlandEvent::next_event(0, ""), None);
    let e = HyprlandEvent::next_event(12, "workspacev2>>1,a\n").unwrap();
    assert!(!e.is_monitor_change());
    assert!(HyprlandEvent::parse_event("monitoraddedv2>>1,a,b").is_monitor_change());
    assert!(HyprlandEvent::parse_event("monitorremovedv2>>1,a,b").is_monitor_change());
    assert_eq!(
        monitor_events(Ok(Some(HyprlandEvent::Other("x".to_string())))),
        StreamStep::Deliver { event: HyprlandEvent::Other("x".to_string()) }
    );
    assert_eq!(monitor_events(Ok(None)), StreamStep::Reconnect { after_ms: RECONNECT_DELAY_MS });
    assert_eq!(
        monitor_events(Err("broken".to_string())),
        StreamStep::Reconnect { after_ms: 1000 }
    );
}

#[test]
fn changes_between_two_listings() {
    assert_eq!(compare_monitors(&names(&["a", "b"]), &names(&["b", "c"])), None);
    assert_eq!(
        compare_monitors(&names(&["a", "b"]), &names(&["b", "c", "d"])),
        Some(MonitorChanges { added: vec![1, 2], removed: vec![0] })
    );
    assert_eq!(
        compare_monitors(&names(&["a"]), &names(&[])),
        Some(MonitorChanges { added: vec![], removed: vec![0] })
    );
    assert_eq!(
        compare_monitors(&names(&[]), &names(&["x", "x"])),
        Some(MonitorChanges { added: vec![0, 1], removed: vec![] })
    );
}
