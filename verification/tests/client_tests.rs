use swww_manager::client::Client;
use swww_manager::connection::{
    adopts_listener, handle_client, plan_binding, socket_path, Binding, Connection,
    ConnectionEvent, ConnectionStep, READ_BUFFER_SIZE, SOCKET_MODE,
};
use swww_manager::error::ErrorKind;
use swww_manager::protocol::{ProfileInfo, Request, Response, StatusInfo};
use swww_manager::{Config, Detection, HyprlandIPC, Manager};
use swww_manager::hyprland_ipc::Monitor;
use swww_manager::wallpaper::ApplyOutcome;

fn names(list: &[&str]) -> Vec<String> {
    list.iter().map(|s| s.to_string()).collect()
}

#[test]
fn test_socket_path() {
    let path = socket_path(None, 1000);
    assert!(std::path::Path::new(&path).ends_with("swww-manager.sock"));
    assert_eq!(path, "/run/user/1000/swww-manager.sock");
    assert_eq!(socket_path(Some("/tmp/run"), 1000), "/tmp/run/swww-manager.sock");
    let client = Client::connect(Some("/tmp/run"));
    assert_eq!(client.socket_path, "/tmp/run/swww-manager.sock");
    assert!(Client::connect(None).socket_path.starts_with("/run/user/"));
}

#[test]
fn requests_of_the_client() {
    assert_eq!(Client::switch_wallpaper(None), Request::Switch { profile: None });
    assert_eq!(
        Client::switch_wallpaper(Some("dual")),
        Request::Switch { profile: Some("dual".to_string()) }
    );
    assert_eq!(Client::switch_profile("x"), Request::SwitchProfile { name: "x".to_string() });
    assert_eq!(Client::set_auto_switch(true), Request::SetAutoSwitch { enabled: true });
    assert_eq!(
        Client::set_auto_switch_interval(9),
        Request::SetAutoSwitchInterval { interval: 9 }
    );
    assert_eq!(Client::detect_and_switch_profile(), Request::DetectAndSwitchProfile);
    assert_eq!(Client::reload_config(), Request::ReloadConfig);
}

#[test]
fn responses_are_confirmed_or_refused() {
    let ok = Response::Success { message: "done".to_string() };
    assert_eq!(Client::confirmation(&ok).unwrap(), "done");
    let no = Response::Error { message: "nope".to_string() };
    let e = Client::confirmation(&no).unwrap_err();
    assert_eq!(e.kind, ErrorKind::Rejected);
    assert_eq!(e.message, "Error: nope");
    let odd = Response::ProfileList { profiles: Vec::new() };
    let e = Client::confirmation(&odd).unwrap_err();
    assert_eq!(e.kind, ErrorKind::ProtocolDecodeError);
    assert_eq!(e.message, "Unexpected response");
    assert_eq!(Client::get_status(&ok).unwrap_err().message, "Unexpected response");
    assert_eq!(Client::list_profiles(&no, true).unwrap_err().message, "Error: nope");
    assert_eq!(Client::get_auto_switch_status(&odd).unwrap_err().message, "Unexpected response");
    assert!(Client::send_request(5).is_ok());
    let e = Client::send_request(0).unwrap_err();
    assert_eq!(e.kind, ErrorKind::Disconnected);
    assert_eq!(e.message, "Server closed connection");
}

#[test]
fn profiles_are_listed() {
    let profiles = vec![
        ProfileInfo {
            name: "dual".to_string(),
            monitors: names(&["DP-1", "HDMI-1"]),
            wallpaper_count: 12,
            is_current: true,
            transition: Some("fade".to_string()),
            transition_duration: None,
        },
        ProfileInfo {
            name: "laptop".to_string(),
            monitors: names(&["eDP-1"]),
            wallpaper_count: 0,
            is_current: false,
            transition: None,
            transition_duration: Some(1),
        },
    ];
    let response = Response::ProfileList { profiles };
    let rule = "─".repeat(70);
    assert_eq!(
        Client::list_profiles(&response, true).unwrap(),
        format!(
            "\nAvailable Profiles:\n{}\n\n[Founded] dual\nMonitors: DP-1, HDMI-1\nWallpapers: 12\nTransition: fade (2s)\n\n[ ] laptop\nMonitors: eDP-1\nWallpapers: 0\n\n",
            rule
        )
    );
    assert_eq!(
        Client::list_profiles(&response, false).unwrap(),
        format!(
            "\nAvailable Profiles:\n{}\n\n[Founded] dual\n2 monitor(s)12 wallpaper(s)\n\n[ ] laptop\n1 monitor(s)0 wallpaper(s)\n\n",
            rule
        )
    );
}

#[test]
fn status_is_shown_in_words() {
    let status = StatusInfo {
        auto_switch_interval: Some(125),
        current_profile: "dual".to_string(),
        current_wallpaper: Some("/w/dual/a.png".to_string()),
        auto_switch_enabled: true,
        monitors: names(&["DP-1", "HDMI-1"]),
        uptime_secs: 3600,
    };
    let rule = "─".repeat(70);
    let response = Response::Status { status };
    assert_eq!(
        Client::get_status(&response).unwrap(),
        format!(
            "\nStatus:\n{}\nProfile:      dual\nWallpaper:    a.png\nAuto-switch:  Enabled\nMonitors:     DP-1, HDMI-1\nUptime:       3600s\n\n",
            rule
        )
    );
    assert_eq!(
        Client::get_auto_switch_status(&response).unwrap(),
        format!(
            "\nAuto-switch Status:\n{}\nEnabled:  Yes\nInterval: 125s (2 minutes)\n\n",
            rule
        )
    );
    let bare = Response::Status {
        status: StatusInfo {
            auto_switch_interval: None,
            current_profile: "p".to_string(),
            current_wallpaper: None,
            auto_switch_enabled: false,
            monitors: Vec::new(),
            uptime_secs: 0,
        },
    };
    assert_eq!(
        Client::get_status(&bare).unwrap(),
        format!(
            "\nStatus:\n{}\nProfile:      p\nWallpaper:    None\nAuto-switch:  Disabled\nMonitors:     \nUptime:       0s\n\n",
            rule
        )
    );
    assert_eq!(
        Client::get_auto_switch_status(&bare).unwrap(),
        format!("\nAuto-switch Status:\n{}\nEnabled:  No\n\n", rule)
    );
}

#[test]
fn a_connection_runs_its_course() {
    let (c, step) = handle_client(Connection::Idle, ConnectionEvent::Accepted);
    assert_eq!((c, step), (Connection::Reading, ConnectionStep::Read { capacity: 8192 }));
    let (c, step) = handle_client(c, ConnectionEvent::Read { bytes: Ok(40) });
    assert_eq!((c, step), (Connection::Decoding, ConnectionStep::Decode { len: 40 }));
    let (c, step) = handle_client(c, ConnectionEvent::Decoded { request: Ok(()) });
    assert_eq!((c, step), (Connection::Dispatching, ConnectionStep::Dispatch));
    let (c, step) = handle_client(c, ConnectionEvent::Dispatched);
    assert_eq!((c, step), (Connection::Responding, ConnectionStep::Write));
    let (c, step) = handle_client(c, ConnectionEvent::Written { done: Ok(()) });
    assert_eq!((c, step), (Connection::Closed, ConnectionStep::Close { failure: None }));
    assert_eq!(READ_BUFFER_SIZE, 8192);
}

#[test]
fn a_silent_peer_is_let_go() {
    let (c, step) = handle_client(Connection::Reading, ConnectionEvent::Read { bytes: Ok(0) });
    assert_eq!((c, step), (Connection::Closed, ConnectionStep::Close { failure: None }));
}

#[test]
fn a_broken_connection_ends_in_a_failure() {
    let (c, step) = handle_client(
        Connection::Decoding,
        ConnectionEvent::Decoded { request: Err("expected value".to_string()) },
    );
    assert_eq!(c, Connection::Closed);
    match step {
        ConnectionStep::Close { failure: Some(e) } => {
            assert_eq!(e.kind, ErrorKind::ProtocolDecodeError);
            assert_eq!(e.message, "Failed to parse request JSON: expected value");
        }
        other => panic!("unexpected {:?}", other),
    }
    let (_, step) =
        handle_client(Connection::Reading, ConnectionEvent::Read { bytes: Err("reset".to_string()) });
    match step {
        ConnectionStep::Close { failure: Some(e) } => {
            assert_eq!(e.kind, ErrorKind::Disconnected);
            assert_eq!(e.message, "Read error: reset");
        }
        other => panic!("unexpected {:?}", other),
    }
    let (_, step) = handle_client(
        Connection::Responding,
        ConnectionEvent::Written { done: Err("pipe".to_string()) },
    );
    assert!(matches!(step, ConnectionStep::Close { failure: Some(_) }));
    let (c, step) = handle_client(Connection::Idle, ConnectionEvent::Dispatched);
    assert_eq!(c, Connection::Closed);
    assert!(matches!(step, ConnectionStep::Close { failure: Some(_) }));
    let (_, step) = handle_client(Connection::Reading, ConnectionEvent::Read { bytes: Ok(9000) });
    assert_eq!(step, ConnectionStep::Decode { len: 8192 });
}

#[test]
fn the_socket_is_bound_adopted_or_refused() {
    assert_eq!(plan_binding(false, false), Binding::Bind);
    assert_eq!(plan_binding(false, true), Binding::Bind);
    assert_eq!(plan_binding(true, false), Binding::RemoveStaleThenBind);
    assert_eq!(plan_binding(true, true), Binding::Refuse);
    assert!(adopts_listener(Some(77), Some(1), 77));
    assert!(!adopts_listener(Some(78), Some(1), 77));
    assert!(!adopts_listener(Some(77), Some(0), 77));
    assert!(!adopts_listener(Some(77), Some(-1), 77));
    assert!(!adopts_listener(None, Some(1), 77));
    assert!(!adopts_listener(Some(77), None, 77));
    assert_eq!(SOCKET_MODE, 0o600);
}

#[test]
fn the_manager_switches_and_detects() {
    let ipc = HyprlandIPC::new(Some("sig"), Some("/run"), 1);
    let mut m = Manager::new(Config::default_in("/home/u"), ipc);
    assert!(m.list_profiles().contains("dual_monitor"));
    let e = m.switch_profile("missing").unwrap_err();
    assert_eq!(e.message, "Profile 'missing' not found");
    let note = m.switch_profile("laptop").unwrap();
    assert_eq!(note.text, "Profile switched: laptop");
    assert_eq!(m.config().current_profile, "laptop");
    let path = m.switch_wallpaper(&names(&["/l/only.png"])).unwrap();
    assert_eq!(path, "/l/only.png");
    let failed = ApplyOutcome::Finished { success: false, diagnostics: "x".to_string() };
    assert!(m.wallpaper_switched(&path, &failed).is_err());
    let done = ApplyOutcome::Finished { success: true, diagnostics: String::new() };
    assert_eq!(m.wallpaper_switched(&path, &done).unwrap().text, "Wallpaper switched: /l/only.png");
    let listed = vec![
        Monitor { name: "DP-1".to_string(), focused: true, enabled: true, width: 1, height: 1 },
        Monitor { name: "HDMI-A-1".to_string(), focused: false, enabled: true, width: 1, height: 1 },
    ];
    assert_eq!(
        m.detect_and_switch(&listed).unwrap(),
        Detection::Switch { name: "dual_monitor".to_string() }
    );
    let panel =
        vec![Monitor { name: "eDP-1".to_string(), focused: true, enabled: true, width: 1, height: 1 }];
    assert_eq!(
        m.detect_and_switch(&panel).unwrap(),
        Detection::Refresh { name: "laptop".to_string() }
    );
    let mut strict = Config::default_in("/home/u");
    strict.profiles = {
        let mut only = swww_manager::config::Profiles::new();
        only.insert(
            "laptop".to_string(),
            strict.profiles.get("laptop").unwrap().clone(),
        );
        only
    };
    strict.current_profile = "laptop".to_string();
    let narrow = Manager::new(strict, HyprlandIPC::new(Some("sig"), Some("/run"), 1));
    assert_eq!(narrow.detect_and_switch(&listed).unwrap(), Detection::NoMatch);
    let again = m.switch_wallpaper(&names(&["/l/new.png"])).unwrap();
    assert_eq!(again, "/l/new.png");
    let blind = Manager::new(Config::default_in("/home/u"), HyprlandIPC::new(None, None, 1));
    assert_eq!(blind.detect_and_switch(&panel).unwrap_err().message, "Hyprland IPC not available");
}
