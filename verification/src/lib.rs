//! Decision logic of a wallpaper service for a changing multi-monitor desktop:
//! which profile fits the attached monitors, which image comes next, and what
//! the service does, step by step, to answer a request.
//!
//! The library opens no socket, scans no directory, runs no program and
//! reads no clock. The caller performs the outside work that a state machine
//! asks for and hands the outcome back.

pub mod client;
pub mod config;
pub mod connection;
pub mod debounce;
pub mod error;
pub mod hyprland_event;
pub mod hyprland_ipc;
pub mod monitor;
pub mod notify;
pub mod profile;
pub mod protocol;
pub mod server;
pub mod text;
pub mod wallpaper;

pub use config::Config;
pub use hyprland_ipc::HyprlandIPC;
pub use monitor::MonitorManager;
pub use profile::ProfileManager;
pub use wallpaper::WallpaperManager;

use vstd::prelude::*;
use vstd::string::*;
use config::{ConfigView, has_name};
use error::Error;
use hyprland_ipc::{Monitor, monitor_views};
use monitor::{active_monitors, names_of, no_compositor};
use notify::{Notification, info_note, send};
use profile::{detected, no_current, not_found, plain_list};
use wallpaper::{
    ApplyOutcome, MAX_DRAWS, WallpaperView, applied, apply_failure, chosen_view, refreshed,
    selection,
};

verus! {

/// The service without its channel: a configuration, its profiles, the
/// candidates of the active profile, and what is known of the compositor.
#[derive(Debug, PartialEq, Eq)]
pub struct Manager {
    config: Config,
    monitor_manager: MonitorManager,
    wallpaper_manager: WallpaperManager,
    profile_manager: ProfileManager,
}

/// What a manager holds.
pub struct ManagerView {
    pub config: ConfigView,
    pub profiles: ConfigView,
    pub wallpapers: WallpaperView,
    pub socket: Option<Seq<char>>,
}

impl View for Manager {
    type V = ManagerView;

    closed spec fn view(&self) -> ManagerView {
        ManagerView {
            config: self.config@,
            profiles: self.profile_manager@,
            wallpapers: self.wallpaper_manager@,
            socket: self.monitor_manager@,
        }
    }
}

/// What is to be done for the monitors that are attached.
#[derive(Debug, PartialEq, Eq)]
pub enum Detection {
    /// The profile `name` fits and is not the active one: switch to it.
    Switch { name: String },
    /// The profile `name` fits and is the active one: change the wallpaper,
    /// so that what is new in its directories is seen.
    Refresh { name: String },
    /// No profile fits: change nothing.
    NoMatch,
}

/// What is to be done, as values.
pub enum DetectionView {
    Switch { name: Seq<char> },
    Refresh { name: Seq<char> },
    NoMatch,
}

impl View for Detection {
    type V = DetectionView;

    open spec fn view(&self) -> DetectionView {
        match *self {
            Detection::Switch { name } => DetectionView::Switch { name: name@ },
            Detection::Refresh { name } => DetectionView::Refresh { name: name@ },
            Detection::NoMatch => DetectionView::NoMatch,
        }
    }
}

/// What is to be done for the monitors `names`: a switch to the profile
/// that fits; a change of wallpaper where that profile is the active one
/// already; nothing where no profile fits.
pub open spec fn reconciliation(m: ManagerView, names: Seq<Seq<char>>) -> DetectionView {
    match detected(m.profiles.profiles, names) {
        Some(name) => if name != m.config.current_profile {
            DetectionView::Switch { name }
        } else {
            DetectionView::Refresh { name }
        },
        None => DetectionView::NoMatch,
    }
}

impl Manager {
    /// A manager for `config`, with the command socket `ipc` where one was
    /// made out.
    pub fn new(config: Config, ipc: Result<HyprlandIPC, Error>) -> (r: Self)
        ensures
            r@ == (ManagerView {
                config: config@,
                profiles: config@,
                wallpapers: WallpaperView { cache: Seq::empty(), last: None, cursor: 0 },
                socket: match ipc {
                    Ok(i) => Some(i@),
                    Err(e) => None,
                },
            }),
    {
        Manager {
            monitor_manager: MonitorManager::new(ipc),
            wallpaper_manager: WallpaperManager::new(),
            profile_manager: ProfileManager::new(config.clone()),
            config,
        }
    }

    /// The configuration.
    pub fn config(&self) -> (r: &Config)
        ensures
            r@ == self@.config,
    {
        &self.config
    }

    /// Chooses the next wallpaper of the active profile. The candidates are
    /// taken anew from `found`, which is what a scan of the profile's
    /// directories gave, and one of them is chosen: see [`selection`].
    /// Fails where the active profile is not there, and changes nothing
    /// then.
    pub fn switch_wallpaper(&mut self, found: &[String]) -> (r: Result<String, Error>)
        ensures
            !has_name(old(self)@.profiles.profiles, old(self)@.profiles.current_profile) ==> r
                is Err && r->Err_0@ == no_current() && final(self)@ == old(self)@,
            has_name(old(self)@.profiles.profiles, old(self)@.profiles.current_profile)
                ==> exists|draws: Seq<u32>|
                draws.len() == MAX_DRAWS && (final(self)@.wallpapers, chosen_view(r))
                    == #[trigger] selection(
                    refreshed(old(self)@.wallpapers, text::texts(found@)),
                    old(self)@.config.auto_switch.mode,
                    draws,
                ) && final(self)@ == (ManagerView {
                    wallpapers: final(self)@.wallpapers,
                    ..old(self)@
                }),
    {
        match self.profile_manager.current_profile() {
            Err(e) => Err(e),
            Ok(profile) => {
                let _ = self.wallpaper_manager.refresh_cache(found);
                self.wallpaper_manager.get_wallpaper(found, &self.config)
            },
        }
    }

    /// Takes note of how the attempt to apply `path` ended, and gives the
    /// notification of the new wallpaper where it was applied: see
    /// [`applied`].
    pub fn wallpaper_switched(&mut self, path: &str, outcome: &ApplyOutcome) -> (r: Result<
        Notification,
        Error,
    >)
        ensures
            final(self)@ == (ManagerView {
                wallpapers: applied(old(self)@.wallpapers, path@, outcome@),
                ..old(self)@
            }),
            r is Ok <==> apply_failure(outcome@) is None,
            r is Ok ==> r->Ok_0@ == info_note("Wallpaper switched"@, path@),
            r is Err ==> Some(r->Err_0@) == apply_failure(outcome@),
    {
        match self.wallpaper_manager.set_wallpaper(path, outcome) {
            Ok(()) => Ok(send("Wallpaper switched", path)),
            Err(e) => Err(e),
        }
    }

    /// Makes the profile called `name` the active one and gives the
    /// notification of the switch. Fails, and changes nothing, where the
    /// configuration holds no profile of that name.
    pub fn switch_profile(&mut self, name: &str) -> (r: Result<Notification, Error>)
        ensures
            r is Ok <==> has_name(old(self)@.profiles.profiles, name@),
            r is Ok ==> r->Ok_0@ == info_note("Profile switched"@, name@) && final(self)@ == (
            ManagerView {
                config: ConfigView { current_profile: name@, ..old(self)@.config },
                profiles: ConfigView { current_profile: name@, ..old(self)@.profiles },
                ..old(self)@
            }),
            r is Err ==> r->Err_0@ == not_found(name@) && final(self)@ == old(self)@,
    {
        match self.profile_manager.switch_to(name) {
            Err(e) => Err(e),
            Ok(()) => {
                self.config.current_profile = String::from_str(name);
                Ok(send("Profile switched", name))
            },
        }
    }

    /// The plain list of the profiles, as it is shown.
    pub fn list_profiles(&self) -> (r: String)
        ensures
            r@ == plain_list(self@.profiles),
    {
        self.profile_manager.list()
    }

    /// What is to be done for the monitors of the listing `listed`: see
    /// [`reconciliation`]. Fails where no command socket is known.
    pub fn detect_and_switch(&self, listed: &[Monitor]) -> (r: Result<Detection, Error>)
        ensures
            r is Ok <==> self@.socket is Some,
            r is Ok ==> r->Ok_0@ == reconciliation(
                self@,
                names_of(active_monitors(monitor_views(listed@))),
            ),
            r is Err ==> r->Err_0@ == no_compositor(),
    {
        match self.monitor_manager.get_monitors(listed) {
            Err(e) => Err(e),
            Ok(names) => {
                let found = match self.profile_manager.detect_profile(names.as_slice()) {
                    Ok(found) => found,
                    Err(e) => None,
                };
                match found {
                    Some(name) => {
                        if text::compare_text(name.as_str(), self.config.current_profile.as_str())
                            != 0 {
                            Ok(Detection::Switch { name })
                        } else {
                            Ok(Detection::Refresh { name })
                        }
                    },
                    None => Ok(Detection::NoMatch),
                }
            },
        }
    }
}

} // verus!
