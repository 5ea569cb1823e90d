use swww_manager::config::{AutoSwitch, Config, MonitorDetection, Profile, Profiles, SwitchMode};
use swww_manager::error::ErrorKind;
use swww_manager::profile::ProfileManager;

fn names(list: &[&str]) -> Vec<String> {
    list.iter().map(|s| s.to_string()).collect()
}

fn profile(monitors: &[&str], dir: &str) -> Profile {
    Profile {
        monitors: names(monitors),
        wallpaper_dirs: vec![dir.to_string()],
        transition: "fade".to_string(),
        transition_duration: 2,
    }
}

fn config(entries: Vec<(&str, Profile)>, current: &str) -> Config {
    let mut profiles = Profiles::new();
    for (name, p) in entries {
        profiles.insert(name.to_string(), p);
    }
    Config {
        profiles,
        auto_switch: AutoSwitch { enabled: false, interval: 300, mode: SwitchMode::Random },
        monitor_detection: MonitorDetection { enabled: true },
        current_profile: current.to_string(),
    }
}

#[test]
fn exact_match_wins_over_wildcard_whatever_the_order() {
    let first = ProfileManager::new(config(
        vec![("any", profile(&["*"], "/w")), ("dual", profile(&["DP-1", "HDMI-1"], "/d"))],
        "any",
    ));
    let second = ProfileManager::new(config(
        vec![("dual", profile(&["DP-1", "HDMI-1"], "/d")), ("any", profile(&["*"], "/w"))],
        "any",
    ));
    let snapshot = names(&["HDMI-1", "DP-1"]);
    assert_eq!(first.detect_profile(&snapshot).unwrap(), Some("dual".to_string()));
    assert_eq!(second.detect_profile(&snapshot).unwrap(), Some("dual".to_string()));
}

#[test]
fn wildcard_is_the_fallback() {
    let pm = ProfileManager::new(config(
        vec![("dual", profile(&["DP-1", "HDMI-1"], "/d")), ("any", profile(&["*"], "/w"))],
        "any",
    ));
    assert_eq!(pm.detect_profile(&names(&["eDP-1"])).unwrap(), Some("any".to_string()));
    assert_eq!(pm.detect_profile(&names(&["DP-1"])).unwrap(), Some("any".to_string()));
}

#[test]
fn no_match_without_wildcard() {
    let pm = ProfileManager::new(config(
        vec![("dual", profile(&["DP-1", "HDMI-1"], "/d")), ("laptop", profile(&["eDP-1"], "/l"))],
        "laptop",
    ));
    assert_eq!(pm.detect_profile(&names(&["DP-2"])).unwrap(), None);
    assert_eq!(pm.detect_profile(&names(&["DP-1"])).unwrap(), None);
    assert_eq!(pm.detect_profile(&names(&["DP-1", "HDMI-1", "eDP-1"])).unwrap(), None);
}

#[test]
fn snapshot_is_read_as_a_set() {
    let pm = ProfileManager::new(config(
        vec![("dual", profile(&["DP-1", "HDMI-1"], "/d"))],
        "dual",
    ));
    let repeated = names(&["DP-1", "HDMI-1", "DP-1"]);
    assert_eq!(pm.detect_profile(&repeated).unwrap(), Some("dual".to_string()));
}

#[test]
fn first_wildcard_is_taken_among_several() {
    let pm = ProfileManager::new(config(
        vec![("one", profile(&["*"], "/1")), ("two", profile(&["*"], "/2"))],
        "one",
    ));
    assert_eq!(pm.detect_profile(&names(&["X"])).unwrap(), Some("one".to_string()));
}

#[test]
fn empty_snapshot_fits_a_profile_without_monitors() {
    let pm = ProfileManager::new(config(
        vec![("any", profile(&["*"], "/w")), ("none", profile(&[], "/n"))],
        "any",
    ));
    assert_eq!(pm.detect_profile(&names(&[])).unwrap(), Some("none".to_string()));
}

#[test]
fn switch_to_known_and_unknown_profile() {
    let mut pm = ProfileManager::new(config(
        vec![("dual", profile(&["DP-1", "HDMI-1"], "/d")), ("laptop", profile(&["eDP-1"], "/l"))],
        "laptop",
    ));
    assert!(pm.switch_to("dual").is_ok());
    assert_eq!(pm.config().current_profile, "dual");
    let e = pm.switch_to("missing").unwrap_err();
    assert_eq!(e.kind, ErrorKind::NotFound);
    assert_eq!(e.to_string(), "Profile 'missing' not found");
    assert_eq!(pm.config().current_profile, "dual");
}

#[test]
fn current_profile_is_looked_up_by_name() {
    let pm = ProfileManager::new(config(vec![("laptop", profile(&["eDP-1"], "/l"))], "laptop"));
    assert_eq!(pm.current_profile().unwrap().wallpaper_dirs, vec!["/l".to_string()]);
    let lost = ProfileManager::new(config(vec![("laptop", profile(&["eDP-1"], "/l"))], "gone"));
    let e = lost.current_profile().unwrap_err();
    assert_eq!(e.kind, ErrorKind::NotFound);
    assert_eq!(e.message, "Current profile not found");
}

#[test]
fn insert_replaces_a_profile_of_the_same_name() {
    let mut profiles = Profiles::new();
    profiles.insert("a".to_string(), profile(&["X"], "/1"));
    profiles.insert("b".to_string(), profile(&["Y"], "/2"));
    profiles.insert("a".to_string(), profile(&["Z"], "/3"));
    assert_eq!(profiles.len(), 2);
    assert_eq!(profiles.entries()[0].name, "a");
    assert_eq!(profiles.get("a").unwrap().monitors, names(&["Z"]));
    assert_eq!(profiles.find("b"), Some(1));
    assert!(!profiles.contains_key("c"));
}

#[test]
fn profile_list_carries_counts_and_the_active_mark() {
    let pm = ProfileManager::new(config(
        vec![("dual", profile(&["DP-1", "HDMI-1"], "/d")), ("laptop", profile(&["eDP-1"], "/l"))],
        "laptop",
    ));
    let list = pm.get_profile_list(&[7]);
    assert_eq!(list.len(), 2);
    assert_eq!(list[0].name, "dual");
    assert_eq!(list[0].wallpaper_count, 7);
    assert!(!list[0].is_current);
    assert_eq!(list[1].wallpaper_count, 0);
    assert!(list[1].is_current);
    assert_eq!(list[1].transition, Some("fade".to_string()));
    assert_eq!(list[1].transition_duration, Some(2));
    assert_eq!(pm.wallpaper_dirs(), vec![vec!["/d".to_string()], vec!["/l".to_string()]]);
}

#[test]
fn plain_list_is_rendered_line_by_line() {
    let pm = ProfileManager::new(config(vec![("laptop", profile(&["eDP-1", "X"], "/l"))], "other"));
    let expected = format!(
        "\nAvailable Profiles:\n{}\n[ ] laptop\nMonitors: eDP-1, X\nWallpaper dirs: 1\nTransition: fade (2s)\n\n",
        "-".repeat(50)
    );
    assert_eq!(pm.list(), expected);
}

#[test]
fn starter_configuration_for_a_home_directory() {
    let c = Config::default_in("/home/u");
    assert_eq!(c.current_profile, "default");
    assert_eq!(c.profiles.len(), 3);
    assert_eq!(c.profiles.entries()[0].name, "default");
    assert_eq!(c.profiles.entries()[0].profile.monitors, names(&["*"]));
    assert!(c.profiles.entries()[0].profile.is_wildcard());
    assert_eq!(
        c.profiles.get("dual_monitor").unwrap().wallpaper_dirs,
        vec!["/home/u/Pictures/Wallpapers/Dual".to_string()]
    );
    assert_eq!(c.profiles.get("laptop").unwrap().transition, "simple");
    assert_eq!(c.profiles.get("laptop").unwrap().transition_duration, 1);
    assert_eq!(c.auto_switch.interval, 300);
    assert!(!c.auto_switch.enabled);
    assert_eq!(c.auto_switch.mode, SwitchMode::Random);
    assert!(c.monitor_detection.enabled);
    let bare = Config::default_in("");
    assert_eq!(
        bare.profiles.get("default").unwrap().wallpaper_dirs,
        vec!["Pictures/Wallpapers".to_string()]
    );
    assert!(Config::default().profiles.contains_key("default"));
    assert_eq!(Config::default_for(&Some("/home/u".to_string())), c);
    assert_eq!(Config::default_for(&None), bare);
}

#[test]
fn configuration_file_lies_below_the_directory() {
    assert_eq!(Config::path_in("/home/u/.config"), "/home/u/.config/swww-manager/config.toml");
    assert_eq!(Config::path_in("/etc/"), "/etc/swww-manager/config.toml");
    assert_eq!(
        Config::path_for(&Some("/home/u/.config".to_string())),
        Some("/home/u/.config/swww-manager/config.toml".to_string())
    );
    assert_eq!(Config::path_for(&None), None);
    if let Some(p) = Config::default_path() {
        assert!(p.ends_with("swww-manager/config.toml"));
    }
}
