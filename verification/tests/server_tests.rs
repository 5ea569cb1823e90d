use swww_manager::config::{AutoSwitch, Config, MonitorDetection, Profile, Profiles, SwitchMode};
use swww_manager::error::ErrorKind;
use swww_manager::notify::NotificationKind;
use swww_manager::protocol::{Request, Response};
use swww_manager::server::{Action, Event, Server};
use swww_manager::wallpaper::ApplyOutcome;

fn names(list: &[&str]) -> Vec<String> {
    list.iter().map(|s| s.to_string()).collect()
}

fn profile(monitors: &[&str], dir: &str) -> Profile {
    Profile {
        monitors: names(monitors),
        wallpaper_dirs: vec![dir.to_string()],
        transition: "fade".to_string(),
        transition_duration: 3,
    }
}

fn config(current: &str) -> Config {
    let mut profiles = Profiles::new();
    profiles.insert("dual".to_string(), profile(&["DP-1", "HDMI-1"], "/dual"));
    profiles.insert("laptop".to_string(), profile(&["eDP-1"], "/laptop"));
    Config {
        profiles,
        auto_switch: AutoSwitch { enabled: false, interval: 300, mode: SwitchMode::Sequential },
        monitor_detection: MonitorDetection { enabled: true },
        current_profile: current.to_string(),
    }
}

fn applied() -> Event {
    Event::Applied { outcome: ApplyOutcome::Finished { success: true, diagnostics: String::new() } }
}

fn success(message: &str) -> Action {
    Action::Respond { response: Response::Success { message: message.to_string() } }
}

fn failure(message: &str) -> Action {
    Action::Respond { response: Response::Error { message: message.to_string() } }
}

fn apply(path: &str) -> Action {
    Action::Apply {
        path: path.to_string(),
        arguments: names(&[
            "img",
            path,
            "--transition-type",
            "fade",
            "--transition-duration",
            "3",
        ]),
    }
}

#[test]
fn test_server_creation() {
    let server = Server::new(Config::default(), 0);
    assert!(server.is_idle());
    assert_eq!(server.config().current_profile, "default");
    assert_eq!(server.profile_manager().config().current_profile, "default");
    assert_eq!(server.wallpaper_manager().last_wallpaper(), None);
}

#[test]
fn end_to_end_detect_and_switch() {
    let mut s = Server::new(config("laptop"), 100);
    assert_eq!(s.process_request(Request::DetectAndSwitchProfile, 100), Action::ReadStableMonitors);
    assert_eq!(
        s.resume(Event::Monitors { result: Ok(names(&["DP-1", "HDMI-1"])) }),
        Action::SaveConfig
    );
    assert_eq!(s.config().current_profile, "dual");
    match s.resume(Event::Saved { error: None }) {
        Action::Notify { note } => {
            assert_eq!(note.text, "Profile switched: dual");
            assert_eq!(note.kind, NotificationKind::Info);
        }
        other => panic!("unexpected {:?}", other),
    }
    assert_eq!(s.resume(Event::Notified), Action::Scan { dirs: names(&["/dual"]) });
    assert_eq!(
        s.resume(Event::Scanned { found: names(&["/dual/b.png", "/dual/a.png"]) }),
        apply("/dual/a.png")
    );
    assert_eq!(s.resume(applied()), success("Auto-switched to profile: dual"));
    assert!(s.is_idle());
    assert_eq!(s.wallpaper_manager().last_wallpaper(), Some(&"/dual/a.png".to_string()));

    assert_eq!(s.process_request(Request::GetStatus, 160), Action::ReadMonitors);
    match s.resume(Event::Monitors { result: Ok(names(&["DP-1", "HDMI-1"])) }) {
        Action::Respond { response: Response::Status { status } } => {
            assert_eq!(status.current_profile, "dual");
            assert_eq!(status.current_wallpaper, Some("/dual/a.png".to_string()));
            assert_eq!(status.uptime_secs, 60);
            assert_eq!(status.monitors, names(&["DP-1", "HDMI-1"]));
            assert_eq!(status.auto_switch_interval, Some(300));
            assert!(!status.auto_switch_enabled);
        }
        other => panic!("unexpected {:?}", other),
    }
}

#[test]
fn detection_of_the_active_profile_refreshes_the_wallpaper() {
    let mut s = Server::new(config("laptop"), 0);
    s.process_request(Request::DetectAndSwitchProfile, 0);
    assert_eq!(
        s.resume(Event::Monitors { result: Ok(names(&["eDP-1"])) }),
        Action::Scan { dirs: names(&["/laptop"]) }
    );
    assert_eq!(s.resume(Event::Scanned { found: names(&["/laptop/x.jpg"]) }), apply("/laptop/x.jpg"));
    assert_eq!(
        s.resume(applied()),
        success("Already using optimal profile: laptop (wallpaper refreshed: x.jpg)")
    );
}

#[test]
fn detection_without_a_match_changes_nothing() {
    let mut s = Server::new(config("laptop"), 0);
    s.process_request(Request::DetectAndSwitchProfile, 0);
    assert_eq!(
        s.resume(Event::Monitors { result: Ok(names(&["DP-9"])) }),
        success("No matching profile found, using current")
    );
    assert_eq!(s, Server::new(config("laptop"), 0));
    s.process_request(Request::DetectAndSwitchProfile, 0);
    assert_eq!(
        s.resume(Event::Monitors { result: Err("no socket".to_string()) }),
        failure("Failed to get monitors: no socket")
    );
    assert_eq!(s.last_failure().unwrap().kind, ErrorKind::ExternalGatewayFailure);
    assert_eq!(s.last_failure().unwrap().message, "Failed to get monitors: no socket");
    s.process_request(Request::Shutdown, 0);
    assert_eq!(s.last_failure(), None);
}

#[test]
fn switch_notifies_then_answers() {
    let mut s = Server::new(config("laptop"), 0);
    assert_eq!(
        s.process_request(Request::Switch { profile: None }, 0),
        Action::Scan { dirs: names(&["/laptop"]) }
    );
    assert_eq!(
        s.resume(Event::Scanned { found: names(&["/laptop/b.png", "/laptop/a.png"]) }),
        apply("/laptop/a.png")
    );
    match s.resume(applied()) {
        Action::Notify { note } => {
            assert_eq!(note.text, "Wallpaper: a.png");
            assert_eq!(note.kind, NotificationKind::Success);
        }
        other => panic!("unexpected {:?}", other),
    }
    assert!(!s.is_idle());
    assert_eq!(s.resume(Event::Notified), success("Switched to wallpaper: a.png"));
    assert!(s.is_idle());

    s.process_request(Request::Switch { profile: None }, 0);
    assert_eq!(
        s.resume(Event::Scanned { found: names(&["/laptop/b.png", "/laptop/a.png"]) }),
        apply("/laptop/b.png")
    );
}

#[test]
fn switch_with_a_profile_changes_the_wallpaper_twice() {
    let mut s = Server::new(config("laptop"), 0);
    assert_eq!(
        s.process_request(Request::Switch { profile: Some("dual".to_string()) }, 0),
        Action::SaveConfig
    );
    assert!(matches!(s.resume(Event::Saved { error: None }), Action::Notify { .. }));
    assert_eq!(s.resume(Event::Notified), Action::Scan { dirs: names(&["/dual"]) });
    let found = names(&["/dual/a.png", "/dual/b.png"]);
    assert_eq!(s.resume(Event::Scanned { found: found.clone() }), apply("/dual/a.png"));
    assert_eq!(s.resume(applied()), Action::Scan { dirs: names(&["/dual"]) });
    assert_eq!(s.resume(Event::Scanned { found }), apply("/dual/b.png"));
    assert!(matches!(s.resume(applied()), Action::Notify { .. }));
    assert_eq!(s.resume(Event::Notified), success("Switched to wallpaper: b.png"));
}

#[test]
fn failed_apply_is_reported_and_leaves_the_last_wallpaper() {
    let mut s = Server::new(config("laptop"), 0);
    s.process_request(Request::Switch { profile: None }, 0);
    s.resume(Event::Scanned { found: names(&["/laptop/a.png"]) });
    s.resume(applied());
    s.resume(Event::Notified);
    assert_eq!(s.wallpaper_manager().last_wallpaper(), Some(&"/laptop/a.png".to_string()));

    s.process_request(Request::Switch { profile: None }, 0);
    s.resume(Event::Scanned { found: names(&["/laptop/a.png", "/laptop/b.png"]) });
    match s.resume(Event::Applied { outcome: ApplyOutcome::TimedOut }) {
        Action::Notify { note } => {
            assert_eq!(note.kind, NotificationKind::Error);
            assert_eq!(note.text, "Failed to set wallpaper: swww command timed out");
        }
        other => panic!("unexpected {:?}", other),
    }
    assert_eq!(
        s.resume(Event::Notified),
        failure("Failed to switch wallpaper: Failed to set wallpaper: swww command timed out")
    );
    assert_eq!(s.wallpaper_manager().last_wallpaper(), Some(&"/laptop/a.png".to_string()));
    assert_eq!(
        s.wallpaper_manager().candidates(),
        &names(&["/laptop/a.png", "/laptop/b.png"])
    );
    assert_eq!(s.last_failure().unwrap().kind, ErrorKind::ExternalGatewayFailure);
}

#[test]
fn switch_without_images_fails() {
    let mut s = Server::new(config("laptop"), 0);
    s.process_request(Request::Switch { profile: None }, 0);
    assert!(matches!(s.resume(Event::Scanned { found: Vec::new() }), Action::Notify { .. }));
    assert_eq!(
        s.resume(Event::Notified),
        failure(
            "Failed to switch wallpaper: Failed to get wallpaper: No wallpapers found in configured directories"
        )
    );
    assert_eq!(s.last_failure().unwrap().kind, ErrorKind::NoWallpapersFound);
}

#[test]
fn switch_profile_answers_by_name() {
    let mut s = Server::new(config("laptop"), 0);
    assert_eq!(
        s.process_request(Request::SwitchProfile { name: "missing".to_string() }, 0),
        failure("Failed to switch profile: Profile 'missing' not found")
    );
    assert_eq!(s.last_failure().unwrap().kind, ErrorKind::NotFound);
    assert_eq!(s.config(), Server::new(config("laptop"), 0).config());
    assert_eq!(s.profile_manager(), Server::new(config("laptop"), 0).profile_manager());
    assert!(s.is_idle());

    assert_eq!(
        s.process_request(Request::SwitchProfile { name: "dual".to_string() }, 0),
        Action::SaveConfig
    );
    assert_eq!(
        s.resume(Event::Saved { error: Some("disk full".to_string()) }),
        failure("Failed to switch profile: Failed to save config after profile switch: disk full")
    );
    assert_eq!(s.last_failure().unwrap().kind, ErrorKind::PersistenceError);

    s.process_request(Request::SwitchProfile { name: "dual".to_string() }, 0);
    s.resume(Event::Saved { error: None });
    s.resume(Event::Notified);
    s.resume(Event::Scanned { found: names(&["/dual/a.png"]) });
    assert_eq!(s.resume(applied()), success("Switched to profile: dual"));
}

#[test]
fn settings_are_saved_before_the_answer() {
    let mut s = Server::new(config("laptop"), 0);
    assert_eq!(s.process_request(Request::SetAutoSwitch { enabled: true }, 0), Action::SaveConfig);
    assert!(s.config().auto_switch.enabled);
    assert_eq!(s.resume(Event::Saved { error: None }), success("Auto-switch enabled"));
    s.process_request(Request::SetAutoSwitch { enabled: false }, 0);
    assert_eq!(s.resume(Event::Saved { error: None }), success("Auto-switch disabled"));
    assert_eq!(
        s.process_request(Request::SetAutoSwitchInterval { interval: 605 }, 0),
        Action::SaveConfig
    );
    assert_eq!(s.config().auto_switch.interval, 605);
    assert_eq!(
        s.resume(Event::Saved { error: None }),
        success("Auto-switch interval set to 605s (10 minutes)")
    );
    s.process_request(Request::SetAutoSwitchInterval { interval: 0 }, 0);
    assert_eq!(
        s.resume(Event::Saved { error: Some("read-only".to_string()) }),
        failure("Failed to save config: read-only")
    );
}

#[test]
fn list_status_shutdown_and_reload() {
    let mut s = Server::new(config("laptop"), 50);
    assert_eq!(s.process_request(Request::Shutdown, 0), success("Server shutting down"));
    assert_eq!(
        s.process_request(Request::ListProfiles, 0),
        Action::Count { lists: vec![names(&["/dual"]), names(&["/laptop"])] }
    );
    match s.resume(Event::Counted { counts: vec![4, 9] }) {
        Action::Respond { response: Response::ProfileList { profiles } } => {
            assert_eq!(profiles.len(), 2);
            assert_eq!(profiles[1].name, "laptop");
            assert_eq!(profiles[1].wallpaper_count, 9);
            assert!(profiles[1].is_current);
        }
        other => panic!("unexpected {:?}", other),
    }
    s.process_request(Request::GetStatus, 20);
    match s.resume(Event::Monitors { result: Err("down".to_string()) }) {
        Action::Respond { response: Response::Status { status } } => {
            assert_eq!(status.monitors, Vec::<String>::new());
            assert_eq!(status.uptime_secs, 0);
            assert_eq!(status.current_wallpaper, None);
        }
        other => panic!("unexpected {:?}", other),
    }
    assert_eq!(s.process_request(Request::ReloadConfig, 0), Action::LoadConfig);
    assert_eq!(
        s.resume(Event::Loaded { config: Err("bad toml".to_string()) }),
        failure("Failed to reload config: bad toml")
    );
    s.process_request(Request::ReloadConfig, 0);
    assert_eq!(
        s.resume(Event::Loaded { config: Ok(config("dual")) }),
        Action::Scan { dirs: names(&["/dual"]) }
    );
    assert_eq!(
        s.resume(Event::Scanned { found: names(&["/dual/z.png"]) }),
        success("Configuration reloaded")
    );
    assert_eq!(s.config().current_profile, "dual");
    assert_eq!(s.wallpaper_manager().candidates(), &names(&["/dual/z.png"]));
    s.process_request(Request::ReloadConfig, 0);
    assert_eq!(
        s.resume(Event::Loaded { config: Ok(config("nowhere")) }),
        success("Configuration reloaded")
    );
}

#[test]
fn a_second_request_waits_and_a_stray_event_ends_the_run() {
    let mut s = Server::new(config("laptop"), 0);
    s.process_request(Request::GetStatus, 0);
    assert_eq!(s.process_request(Request::Shutdown, 0), failure("Busy"));
    assert!(!s.is_idle());
    assert_eq!(s.resume(Event::Notified), failure("Unexpected event"));
    assert_eq!(s.last_failure().unwrap().kind, ErrorKind::ProtocolDecodeError);
    assert!(s.is_idle());
    assert_eq!(s.resume(Event::Notified), failure("Unexpected event"));
}

#[test]
fn unchanged_file_is_left_alone() {
    let mut s = Server::new(config("laptop"), 0);
    assert_eq!(s.poll_config(500), Action::LoadConfig);
    assert_eq!(
        s.resume(Event::Loaded { config: Ok(config("laptop")) }),
        Action::Scan { dirs: names(&["/laptop"]) }
    );
    assert_eq!(s.poll_config(900), Action::Nothing);
    assert_eq!(
        s.resume(Event::Scanned { found: names(&["/laptop/a.png"]) }),
        Action::ReadStableMonitors
    );
    assert_eq!(s.resume(Event::Monitors { result: Ok(names(&["eDP-1"])) }), Action::Scan { dirs: names(&["/laptop"]) });
    assert_eq!(s.resume(Event::Scanned { found: names(&["/laptop/a.png"]) }), apply("/laptop/a.png"));
    assert!(matches!(s.resume(applied()), Action::Respond { response: Response::Success { .. } }));

    let mut twin = Server::new(config("laptop"), 0);
    twin.poll_config(500);
    twin.resume(Event::Loaded { config: Ok(config("laptop")) });
    twin.resume(Event::Scanned { found: names(&["/laptop/a.png"]) });
    twin.resume(Event::Monitors { result: Ok(names(&["eDP-1"])) });
    twin.resume(Event::Scanned { found: names(&["/laptop/a.png"]) });
    twin.resume(applied());
    assert_eq!(s, twin);
    assert_eq!(s.poll_config(500), Action::Nothing);
    assert_eq!(s.poll_config(499), Action::Nothing);
    assert_eq!(s, twin);
    assert_eq!(s.poll_config(501), Action::LoadConfig);
}

#[test]
fn a_file_that_cannot_be_loaded_is_tried_again() {
    let mut s = Server::new(config("laptop"), 0);
    assert_eq!(s.poll_config(500), Action::LoadConfig);
    assert_eq!(
        s.resume(Event::Loaded { config: Err("bad".to_string()) }),
        failure("Failed to reload updated config: bad")
    );
    assert_eq!(s.poll_config(500), Action::LoadConfig);
    assert_eq!(
        s.resume(Event::Loaded { config: Ok(config("laptop")) }),
        Action::Scan { dirs: names(&["/laptop"]) }
    );
    s.resume(Event::Scanned { found: Vec::new() });
    assert_eq!(
        s.resume(Event::Monitors { result: Ok(names(&["DP-1", "HDMI-1"])) }),
        Action::SaveConfig
    );
}
