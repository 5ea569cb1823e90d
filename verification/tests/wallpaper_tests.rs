use swww_manager::config::{AutoSwitch, Config, MonitorDetection, Profile, Profiles, SwitchMode};
use swww_manager::error::ErrorKind;
use swww_manager::wallpaper::{
    apply_command, count_patterns_for, normalize, patterns_for, wallpaper_patterns, ApplyOutcome,
    WallpaperManager, APPLY_TIMEOUT_SECS, MAX_DRAWS,
};

fn paths(list: &[&str]) -> Vec<String> {
    list.iter().map(|s| s.to_string()).collect()
}

fn config_with(mode: SwitchMode) -> Config {
    Config {
        profiles: Profiles::new(),
        auto_switch: AutoSwitch { enabled: true, interval: 60, mode },
        monitor_detection: MonitorDetection { enabled: true },
        current_profile: "p".to_string(),
    }
}

#[test]
fn candidates_are_sorted_and_listed_once() {
    let found = paths(&["/w/b.png", "/w/a.jpg", "/w/b.png", "/w/A.jpg", "/w/a.jpg"]);
    assert_eq!(normalize(&found), paths(&["/w/A.jpg", "/w/a.jpg", "/w/b.png"]));
    assert_eq!(normalize(&[]), Vec::<String>::new());
    assert_eq!(normalize(&paths(&["é", "z", "a", "ab"])), paths(&["a", "ab", "z", "é"]));
}

#[test]
fn sequential_wrap() {
    let mut wm = WallpaperManager::new();
    wm.refresh_cache(&paths(&["a", "b", "c"])).unwrap();
    wm.set_last_wallpaper("a".to_string());
    let config = config_with(SwitchMode::Sequential);
    assert_eq!(wm.get_wallpaper(&[], &config).unwrap(), "b");
    wm.set_last_wallpaper("b".to_string());
    assert_eq!(wm.get_wallpaper(&[], &config).unwrap(), "c");
    wm.set_last_wallpaper("c".to_string());
    assert_eq!(wm.get_wallpaper(&[], &config).unwrap(), "a");
}

#[test]
fn sequential_starts_at_the_cursor_without_a_last_wallpaper() {
    let mut wm = WallpaperManager::new();
    let config = config_with(SwitchMode::Sequential);
    assert_eq!(wm.get_wallpaper(&paths(&["b", "a"]), &config).unwrap(), "a");
    assert_eq!(wm.get_wallpaper(&[], &config).unwrap(), "b");
    assert_eq!(wm.get_wallpaper(&[], &config).unwrap(), "a");
    assert_eq!(wm.last_wallpaper(), None);
}

#[test]
fn single_candidate_is_always_returned() {
    for mode in [SwitchMode::Random, SwitchMode::Sequential] {
        let mut wm = WallpaperManager::new();
        wm.refresh_cache(&paths(&["/only.png"])).unwrap();
        let config = config_with(mode);
        assert_eq!(wm.get_wallpaper(&[], &config).unwrap(), "/only.png");
        wm.set_last_wallpaper("/only.png".to_string());
        assert_eq!(wm.get_wallpaper(&[], &config).unwrap(), "/only.png");
        wm.set_last_wallpaper("/other.png".to_string());
        assert_eq!(wm.get_wallpaper(&[], &config).unwrap(), "/only.png");
    }
}

#[test]
fn no_candidates_is_a_failure() {
    let mut wm = WallpaperManager::new();
    assert!(wm.needs_scan());
    let e = wm.get_wallpaper(&[], &config_with(SwitchMode::Random)).unwrap_err();
    assert_eq!(e.kind, ErrorKind::NoWallpapersFound);
    assert_eq!(e.message, "No wallpapers found in configured directories");
}

#[test]
fn empty_cache_is_filled_from_the_scan() {
    let mut wm = WallpaperManager::new();
    let got = wm.get_wallpaper(&paths(&["/w/x.png"]), &config_with(SwitchMode::Random)).unwrap();
    assert_eq!(got, "/w/x.png");
    assert!(!wm.needs_scan());
    assert_eq!(wm.candidates(), &paths(&["/w/x.png"]));
    wm.ensure_cache(&paths(&["/w/y.png"])).unwrap();
    assert_eq!(wm.candidates(), &paths(&["/w/x.png"]));
    wm.refresh_cache(&paths(&["/w/y.png"])).unwrap();
    assert_eq!(wm.candidates(), &paths(&["/w/y.png"]));
}

#[test]
fn random_choice_avoids_the_last_wallpaper() {
    let mut wm = WallpaperManager::new();
    wm.refresh_cache(&paths(&["a", "b"])).unwrap();
    wm.set_last_wallpaper("a".to_string());
    let config = config_with(SwitchMode::Random);
    let mut other = 0;
    for _ in 0..40 {
        let got = wm.get_wallpaper(&[], &config).unwrap();
        assert!(got == "a" || got == "b");
        if got == "b" {
            other += 1;
        }
    }
    assert!(other >= 1);
}

#[test]
fn random_choice_alternates_between_two() {
    let mut wm = WallpaperManager::new();
    wm.refresh_cache(&paths(&["a", "b"])).unwrap();
    wm.set_last_wallpaper("a".to_string());
    let config = config_with(SwitchMode::Random);
    let mut changes = 0;
    for _ in 0..40 {
        let before = wm.last_wallpaper().cloned().unwrap();
        let got = wm.get_wallpaper(&[], &config).unwrap();
        if got != before {
            changes += 1;
        }
        wm.set_last_wallpaper(got);
    }
    assert!(changes >= 20);
}

#[test]
fn random_place_follows_the_draws() {
    let mut wm = WallpaperManager::new();
    wm.refresh_cache(&paths(&["a", "b", "c"])).unwrap();
    wm.set_last_wallpaper("b".to_string());
    assert_eq!(wm.random_place(&[4, 7, 2]), Some(2));
    assert_eq!(wm.random_place(&[1, 1, 1]), Some(1));
    assert_eq!(wm.random_place(&[1, 3]), Some(0));
    assert_eq!(wm.random_place(&[5]), Some(2));
    assert_eq!(wm.random_place(&[]), None);
    assert_eq!(WallpaperManager::new().random_place(&[1]), None);
    assert_eq!(MAX_DRAWS, 8);
}

#[test]
fn applied_wallpaper_becomes_the_last_one() {
    let mut wm = WallpaperManager::new();
    wm.refresh_cache(&paths(&["a", "b"])).unwrap();
    let done = ApplyOutcome::Finished { success: true, diagnostics: String::new() };
    assert!(wm.set_wallpaper("a", &done).is_ok());
    assert_eq!(wm.last_wallpaper(), Some(&"a".to_string()));
}

#[test]
fn failed_apply_changes_nothing() {
    let mut wm = WallpaperManager::new();
    wm.refresh_cache(&paths(&["a", "b"])).unwrap();
    wm.set_last_wallpaper("a".to_string());
    let failed = ApplyOutcome::Finished { success: false, diagnostics: "no daemon".to_string() };
    let e = wm.set_wallpaper("b", &failed).unwrap_err();
    assert_eq!(e.kind, ErrorKind::ExternalGatewayFailure);
    assert_eq!(e.message, "swww command failed: no daemon");
    assert_eq!(wm.last_wallpaper(), Some(&"a".to_string()));
    let e = wm.set_wallpaper("b", &ApplyOutcome::TimedOut).unwrap_err();
    assert_eq!(e.message, "swww command timed out");
    let e = wm
        .set_wallpaper("b", &ApplyOutcome::NotStarted { reason: "not found".to_string() })
        .unwrap_err();
    assert_eq!(
        e.message,
        "Failed to execute swww. Is swww daemon running? (swww init): not found"
    );
    assert_eq!(wm.last_wallpaper(), Some(&"a".to_string()));
    assert_eq!(wm.candidates(), &paths(&["a", "b"]));
    assert_eq!(APPLY_TIMEOUT_SECS, 6);
}

#[test]
fn scan_patterns_cover_six_extensions_in_any_case() {
    let got = patterns_for(&paths(&["/w", "/v"]));
    assert_eq!(
        got,
        paths(&[
            "/w/*.[jJ][pP][gG]",
            "/w/*.[jJ][pP][eE][gG]",
            "/w/*.[pP][nN][gG]",
            "/w/*.[gG][iI][fF]",
            "/w/*.[wW][eE][bB][pP]",
            "/w/*.[bB][mM][pP]",
            "/v/*.[jJ][pP][gG]",
            "/v/*.[jJ][pP][eE][gG]",
            "/v/*.[pP][nN][gG]",
            "/v/*.[gG][iI][fF]",
            "/v/*.[wW][eE][bB][pP]",
            "/v/*.[bB][mM][pP]",
        ])
    );
}

#[test]
fn scan_patterns_match_every_spelling_of_an_extension() {
    let patterns: Vec<glob::Pattern> = patterns_for(&paths(&["/w"]))
        .iter()
        .map(|p| glob::Pattern::new(p).unwrap())
        .collect();
    let hits = |path: &str| patterns.iter().filter(|p| p.matches(path)).count();
    for path in [
        "/w/x.jpg", "/w/x.JPG", "/w/x.Jpg", "/w/x.jPg", "/w/x.jpeg", "/w/x.JpEg", "/w/x.png",
        "/w/x.PnG", "/w/x.gif", "/w/x.GIf", "/w/x.webp", "/w/x.WebP", "/w/x.bmp", "/w/x.bMP",
    ] {
        assert_eq!(hits(path), 1);
    }
    for path in ["/w/x.txt", "/w/x.jp", "/w/xjpg", "/w/x.jpgx", "/v/x.jpg"] {
        assert_eq!(hits(path), 0);
    }
}

#[test]
fn count_patterns_cover_five_extensions() {
    let got = count_patterns_for(&paths(&["/w"]));
    assert_eq!(got, paths(&["/w/*.jpg", "/w/*.jpeg", "/w/*.png", "/w/*.gif", "/w/*.webp"]));
}

#[test]
fn tilde_is_expanded_in_the_patterns() {
    let plain = wallpaper_patterns(&paths(&["/abs/dir", "rel~dir"]));
    assert_eq!(plain[0], "/abs/dir/*.[jJ][pP][gG]");
    assert_eq!(plain[6], "rel~dir/*.[jJ][pP][gG]");
    let other = wallpaper_patterns(&paths(&["~other/dir"]));
    assert_eq!(other[0], "~other/dir/*.[jJ][pP][gG]");
    if let Some(home) = dirs::home_dir() {
        if let Some(home) = home.to_str() {
            let got = wallpaper_patterns(&paths(&["~/Pictures", "~"]));
            assert_eq!(got[0], format!("{}/Pictures/*.[jJ][pP][gG]", home));
            assert_eq!(got[6], format!("{}/*.[jJ][pP][gG]", home));
        }
    }
}

#[test]
fn apply_command_names_path_and_transition() {
    let profile = Profile {
        monitors: paths(&["*"]),
        wallpaper_dirs: paths(&["/w"]),
        transition: "wipe".to_string(),
        transition_duration: 12,
    };
    assert_eq!(
        apply_command("/w/a.png", &profile),
        paths(&["img", "/w/a.png", "--transition-type", "wipe", "--transition-duration", "12"])
    );
}
