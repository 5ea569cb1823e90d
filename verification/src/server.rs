//! The service as a state machine. A request, or a change of the
//! configuration file, starts a run. Each step of a run names the outside
//! work that comes next; the caller does that work and resumes the run with
//! its outcome, until the run ends in a response.

use vstd::prelude::*;
use vstd::string::*;
use crate::config::{Config, ConfigView, has_name, position};
use crate::error::{Error, ErrorKind, ErrorView};
use crate::notify::{
    Notification, NotificationView, error_note, info_note, send, send_error, send_success,
    success_note,
};
use crate::profile::{ProfileManager, detected, not_found, profile_list, text_lists};
use crate::protocol::{
    Request, RequestView, Response, ResponseView, StatusInfo, StatusInfoView, opt_text,
};
use crate::text::{clone_texts, compare_text, decimal, decimal_text, file_name, shown_name, texts};
use crate::wallpaper::{
    ApplyOutcome, ApplyOutcomeView, MAX_DRAWS, WallpaperManager, WallpaperView, applied,
    apply_arguments, apply_command, apply_failure, filled, normalized, selection,
};

verus! {

/// What a change of wallpaper or of profile is for: it decides what the
/// client is told in the end.
#[derive(Debug, PartialEq, Eq)]
pub enum Purpose {
    /// A request for the next wallpaper.
    Switch,
    /// A request for the next wallpaper under a profile that it names: the
    /// switch to that profile, after which the wallpaper changes once more.
    SwitchWithProfile,
    /// A request for the profile `name`.
    SwitchProfile { name: String },
    /// The profile `name` fits the monitors and is not the active one.
    Detected { name: String },
    /// The profile `name` fits the monitors and is the active one already.
    Refresh { name: String },
}

/// A purpose, as values.
pub enum PurposeView {
    Switch,
    SwitchWithProfile,
    SwitchProfile { name: Seq<char> },
    Detected { name: Seq<char> },
    Refresh { name: Seq<char> },
}

impl View for Purpose {
    type V = PurposeView;

    open spec fn view(&self) -> PurposeView {
        match *self {
            Purpose::Switch => PurposeView::Switch,
            Purpose::SwitchWithProfile => PurposeView::SwitchWithProfile,
            Purpose::SwitchProfile { name } => PurposeView::SwitchProfile { name: name@ },
            Purpose::Detected { name } => PurposeView::Detected { name: name@ },
            Purpose::Refresh { name } => PurposeView::Refresh { name: name@ },
        }
    }
}

/// Where a run stands: the outside work whose outcome it waits for.
#[derive(Debug, PartialEq, Eq)]
pub enum Pending {
    /// No run is under way.
    Idle,
    /// A switch of profile waits for the configuration to be saved.
    Saving { purpose: Purpose },
    /// A switch of profile waits for its notification to be shown.
    Announcing { purpose: Purpose },
    /// A change of wallpaper waits for the scan of the directories.
    Scanning { purpose: Purpose },
    /// A change of wallpaper waits for `path` to be applied.
    Applying { purpose: Purpose, path: String },
    /// The run waits for its last notification, then ends in `response`.
    Closing { response: Response },
    /// A changed setting waits for the configuration to be saved, then the
    /// run ends in success with `message`.
    Storing { message: String },
    /// A status waits for the monitors. The run started at second `now`.
    Status { now: u64 },
    /// A list of profiles waits for the numbers of their images.
    Listing,
    /// A detection waits for the monitors.
    Detecting,
    /// A reload waits for the configuration. `watched` is the time of
    /// change of the file where the run started from a change of the file.
    Loading { watched: Option<u128> },
    /// A reload waits for the scan of the directories.
    Rescanning { after_change: bool },
    /// A reload after a change of the file waits for the monitors.
    Settling,
}

/// Where a run stands, as values.
pub enum PendingView {
    Idle,
    Saving { purpose: PurposeView },
    Announcing { purpose: PurposeView },
    Scanning { purpose: PurposeView },
    Applying { purpose: PurposeView, path: Seq<char> },
    Closing { response: ResponseView },
    Storing { message: Seq<char> },
    Status { now: u64 },
    Listing,
    Detecting,
    Loading { watched: Option<u128> },
    Rescanning { after_change: bool },
    Settling,
}

impl View for Pending {
    type V = PendingView;

    open spec fn view(&self) -> PendingView {
        match *self {
            Pending::Idle => PendingView::Idle,
            Pending::Saving { purpose } => PendingView::Saving { purpose: purpose@ },
            Pending::Announcing { purpose } => PendingView::Announcing { purpose: purpose@ },
            Pending::Scanning { purpose } => PendingView::Scanning { purpose: purpose@ },
            Pending::Applying { purpose, path } => PendingView::Applying {
                purpose: purpose@,
                path: path@,
            },
            Pending::Closing { response } => PendingView::Closing { response: response@ },
            Pending::Storing { message } => PendingView::Storing { message: message@ },
            Pending::Status { now } => PendingView::Status { now },
            Pending::Listing => PendingView::Listing,
            Pending::Detecting => PendingView::Detecting,
            Pending::Loading { watched } => PendingView::Loading { watched },
            Pending::Rescanning { after_change } => PendingView::Rescanning { after_change },
            Pending::Settling => PendingView::Settling,
        }
    }
}

/// The outside work that a run asks for next, or the response it ends in.
#[derive(Debug, PartialEq, Eq)]
pub enum Action {
    /// There is nothing to do.
    Nothing,
    /// Save the configuration of the service; answer with [`Event::Saved`].
    SaveConfig,
    /// Show `note`; answer with [`Event::Notified`], shown or not.
    Notify { note: Notification },
    /// List the images in `dirs`; answer with [`Event::Scanned`].
    Scan { dirs: Vec<String> },
    /// Apply `path` by running the program with `arguments`; answer with
    /// [`Event::Applied`].
    Apply { path: String, arguments: Vec<String> },
    /// Read the names of the monitors once; answer with
    /// [`Event::Monitors`].
    ReadMonitors,
    /// Read the names of the monitors until they have settled; answer with
    /// [`Event::Monitors`].
    ReadStableMonitors,
    /// Count the images in each list of directories; answer with
    /// [`Event::Counted`].
    Count { lists: Vec<Vec<String>> },
    /// Load the configuration; answer with [`Event::Loaded`].
    LoadConfig,
    /// The run has ended: this is its response.
    Respond { response: Response },
}

/// An action, as values.
pub enum ActionView {
    Nothing,
    SaveConfig,
    Notify { note: NotificationView },
    Scan { dirs: Seq<Seq<char>> },
    Apply { path: Seq<char>, arguments: Seq<Seq<char>> },
    ReadMonitors,
    ReadStableMonitors,
    Count { lists: Seq<Seq<Seq<char>>> },
    LoadConfig,
    Respond { response: ResponseView },
}

impl View for Action {
    type V = ActionView;

    open spec fn view(&self) -> ActionView {
        match *self {
            Action::Nothing => ActionView::Nothing,
            Action::SaveConfig => ActionView::SaveConfig,
            Action::Notify { note } => ActionView::Notify { note: note@ },
            Action::Scan { dirs } => ActionView::Scan { dirs: texts(dirs@) },
            Action::Apply { path, arguments } => ActionView::Apply {
                path: path@,
                arguments: texts(arguments@),
            },
            Action::ReadMonitors => ActionView::ReadMonitors,
            Action::ReadStableMonitors => ActionView::ReadStableMonitors,
            Action::Count { lists } => ActionView::Count { lists: text_lists(lists@) },
            Action::LoadConfig => ActionView::LoadConfig,
            Action::Respond { response } => ActionView::Respond { response: response@ },
        }
    }
}

/// The outcome of outside work.
#[derive(Debug, PartialEq, Eq)]
pub enum Event {
    /// The configuration was saved, or could not be for the reason `error`.
    Saved { error: Option<String> },
    /// The attempt to show a notification is over.
    Notified,
    /// The scan found the paths `found`.
    Scanned { found: Vec<String> },
    /// The attempt to apply a wallpaper ended in `outcome`.
    Applied { outcome: ApplyOutcome },
    /// The names of the monitors, or the reason why they could not be read.
    Monitors { result: Result<Vec<String>, String> },
    /// The number of images for each list of directories, in order.
    Counted { counts: Vec<usize> },
    /// The configuration, or the reason why it could not be loaded.
    Loaded { config: Result<Config, String> },
}

/// An event, as values.
pub enum EventView {
    Saved { error: Option<Seq<char>> },
    Notified,
    Scanned { found: Seq<Seq<char>> },
    Applied { outcome: ApplyOutcomeView },
    Monitors { result: Result<Seq<Seq<char>>, Seq<char>> },
    Counted { counts: Seq<usize> },
    Loaded { config: Result<ConfigView, Seq<char>> },
}

impl View for Event {
    type V = EventView;

    open spec fn view(&self) -> EventView {
        match *self {
            Event::Saved { error } => EventView::Saved { error: opt_text(error) },
            Event::Notified => EventView::Notified,
            Event::Scanned { found } => EventView::Scanned { found: texts(found@) },
            Event::Applied { outcome } => EventView::Applied { outcome: outcome@ },
            Event::Monitors { result } => EventView::Monitors {
                result: match result {
                    Ok(names) => Ok(texts(names@)),
                    Err(e) => Err(e@),
                },
            },
            Event::Counted { counts } => EventView::Counted { counts: counts@ },
            Event::Loaded { config } => EventView::Loaded {
                config: match config {
                    Ok(c) => Ok(c@),
                    Err(e) => Err(e@),
                },
            },
        }
    }
}

/// The state of the service.
pub struct ServerView {
    /// The configuration that is saved and reported.
    pub config: ConfigView,
    /// The configuration in which profiles are looked up and detected.
    pub profiles: ConfigView,
    pub wallpapers: WallpaperView,
    /// The second at which the service started.
    pub start_time: u64,
    /// The time of change of the configuration file that was loaded last
    /// after a change of the file.
    pub last_config_mtime: Option<u128>,
    /// The failure of the run that is under way or was so last, where it
    /// has failed.
    pub last_failure: Option<ErrorView>,
    pub pending: PendingView,
}

/// The end of a run in `response`.
pub open spec fn respond(s: ServerView, response: ResponseView) -> (ServerView, ActionView) {
    (ServerView { pending: PendingView::Idle, ..s }, ActionView::Respond { response })
}

/// A failure of the configuration file.
pub open spec fn persistence(message: Seq<char>) -> ErrorView {
    ErrorView { kind: ErrorKind::PersistenceError, message }
}

/// A failure of the compositor or of the program that applies wallpapers.
pub open spec fn gateway(message: Seq<char>) -> ErrorView {
    ErrorView { kind: ErrorKind::ExternalGatewayFailure, message }
}

/// The failure for an active profile that the configuration does not hold.
pub open spec fn lost_profile() -> ErrorView {
    ErrorView { kind: ErrorKind::NotFound, message: "Failed to get current profile"@ }
}

/// The failure for an event that the run does not wait for.
pub open spec fn stray_event() -> ErrorView {
    ErrorView { kind: ErrorKind::ProtocolDecodeError, message: "Unexpected event"@ }
}

/// The failure `e` in the words `context`.
pub open spec fn within(context: Seq<char>, e: ErrorView) -> ErrorView {
    ErrorView { kind: e.kind, message: context + e.message }
}

/// The end of a run in the failure `e`: the failure is kept, and the client
/// is told its message.
pub open spec fn refuse(s: ServerView, e: ErrorView) -> (ServerView, ActionView) {
    (
        ServerView { pending: PendingView::Idle, last_failure: Some(e), ..s },
        ActionView::Respond { response: ResponseView::Error { message: e.message } },
    )
}

/// The end of a run in success with `message`.
pub open spec fn accept(s: ServerView, message: Seq<char>) -> (ServerView, ActionView) {
    respond(s, ResponseView::Success { message })
}

/// What follows the failure `e` of a change of wallpaper or of profile: the
/// failure is kept and the client is told of it, in words that depend on
/// the purpose, after a notification where the request was for the next
/// wallpaper.
pub open spec fn failed(s: ServerView, purpose: PurposeView, e: ErrorView) -> (
    ServerView,
    ActionView,
) {
    match purpose {
        PurposeView::Switch => (
            ServerView {
                pending: PendingView::Closing {
                    response: ResponseView::Error {
                        message: "Failed to switch wallpaper: "@ + e.message,
                    },
                },
                last_failure: Some(within("Failed to switch wallpaper: "@, e)),
                ..s
            },
            ActionView::Notify { note: error_note(e.message) },
        ),
        PurposeView::SwitchWithProfile => refuse(s, within("Failed to switch profile: "@, e)),
        PurposeView::SwitchProfile { name } => refuse(s, within("Failed to switch profile: "@, e)),
        PurposeView::Detected { name } => refuse(
            s,
            within("Failed to switch to detected profile: "@, e),
        ),
        PurposeView::Refresh { name } => refuse(s, within("Failed to refresh wallpaper: "@, e)),
    }
}

/// The directories of the active profile, where the configuration in which
/// profiles are looked up holds it.
pub open spec fn current_dirs(s: ServerView) -> Option<Seq<Seq<char>>> {
    if has_name(s.profiles.profiles, s.profiles.current_profile) {
        Some(
            s.profiles.profiles[position(
                s.profiles.profiles,
                s.profiles.current_profile,
            )].profile.wallpaper_dirs,
        )
    } else {
        None
    }
}

/// The start of a change of wallpaper: the directories of the active profile
/// are to be scanned. It fails where the active profile is not there.
pub open spec fn wallpaper_begun(s: ServerView, purpose: PurposeView) -> (ServerView, ActionView) {
    match current_dirs(s) {
        Some(dirs) => (
            ServerView { pending: PendingView::Scanning { purpose }, ..s },
            ActionView::Scan { dirs },
        ),
        None => failed(s, purpose, lost_profile()),
    }
}

/// What follows a change of wallpaper to `path` that succeeded: the client
/// is told of it in words that depend on the purpose, after a notification
/// where the request was for the next wallpaper; and after the switch to a
/// profile that such a request named, the wallpaper changes once more.
pub open spec fn succeeded(s: ServerView, purpose: PurposeView, path: Seq<char>) -> (
    ServerView,
    ActionView,
) {
    match purpose {
        PurposeView::Switch => (
            ServerView {
                pending: PendingView::Closing {
                    response: ResponseView::Success {
                        message: "Switched to wallpaper: "@ + shown_name(path),
                    },
                },
                ..s
            },
            ActionView::Notify { note: success_note("Wallpaper: "@ + shown_name(path)) },
        ),
        PurposeView::SwitchWithProfile => wallpaper_begun(s, PurposeView::Switch),
        PurposeView::SwitchProfile { name } => accept(s, "Switched to profile: "@ + name),
        PurposeView::Detected { name } => accept(s, "Auto-switched to profile: "@ + name),
        PurposeView::Refresh { name } => accept(
            s,
            "Already using optimal profile: "@ + name + " (wallpaper refreshed: "@ + shown_name(
                path,
            ) + ")"@,
        ),
    }
}

/// The start of a switch to the profile `name`: it becomes the active
/// profile, and the configuration is to be saved. It fails, and changes
/// nothing, where no profile has the name.
pub open spec fn profile_begun(s: ServerView, purpose: PurposeView, name: Seq<char>) -> (
    ServerView,
    ActionView,
) {
    if has_name(s.profiles.profiles, name) {
        (
            ServerView {
                config: ConfigView { current_profile: name, ..s.config },
                profiles: ConfigView { current_profile: name, ..s.profiles },
                pending: PendingView::Saving { purpose },
                ..s
            },
            ActionView::SaveConfig,
        )
    } else {
        failed(s, purpose, not_found(name))
    }
}

/// The seconds for which the service has run at second `now`.
pub open spec fn uptime(s: ServerView, now: u64) -> u64 {
    if now >= s.start_time {
        (now - s.start_time) as u64
    } else {
        0
    }
}

/// What a client is told of the state where the monitors are `monitors`.
pub open spec fn status_of(s: ServerView, monitors: Seq<Seq<char>>, now: u64) -> StatusInfoView {
    StatusInfoView {
        auto_switch_interval: Some(s.config.auto_switch.interval),
        current_profile: s.config.current_profile,
        current_wallpaper: s.wallpapers.last,
        auto_switch_enabled: s.config.auto_switch.enabled,
        monitors,
        uptime_secs: uptime(s, now),
    }
}

/// What the client is told of a changed interval.
pub open spec fn interval_message(interval: u64) -> Seq<char> {
    "Auto-switch interval set to "@ + decimal(interval as nat) + "s ("@ + decimal(
        (interval / 60) as nat,
    ) + " minutes)"@
}

/// What the client is told of the automatic switch being turned on or off.
pub open spec fn auto_switch_message(enabled: bool) -> Seq<char> {
    if enabled {
        "Auto-switch enabled"@
    } else {
        "Auto-switch disabled"@
    }
}

/// The first step of the run for `request`, which arrives at second `now`.
/// While another run is under way the request is refused and nothing
/// changes. Else the failure of the last run is forgotten.
pub open spec fn requested(s: ServerView, request: RequestView, now: u64) -> (
    ServerView,
    ActionView,
) {
    if !(s.pending is Idle) {
        (s, ActionView::Respond { response: ResponseView::Error { message: "Busy"@ } })
    } else {
        let s = ServerView { last_failure: None, ..s };
        match request {
            RequestView::Switch { profile } => match profile {
                Some(name) => profile_begun(s, PurposeView::SwitchWithProfile, name),
                None => wallpaper_begun(s, PurposeView::Switch),
            },
            RequestView::SwitchProfile { name } => profile_begun(
                s,
                PurposeView::SwitchProfile { name },
                name,
            ),
            RequestView::DetectAndSwitchProfile => (
                ServerView { pending: PendingView::Detecting, ..s },
                ActionView::ReadStableMonitors,
            ),
            RequestView::ListProfiles => (
                ServerView { pending: PendingView::Listing, ..s },
                ActionView::Count { lists: crate::profile::all_dirs(s.profiles) },
            ),
            RequestView::GetStatus => (
                ServerView { pending: PendingView::Status { now }, ..s },
                ActionView::ReadMonitors,
            ),
            RequestView::SetAutoSwitch { enabled } => (
                ServerView {
                    config: ConfigView {
                        auto_switch: crate::config::AutoSwitch { enabled, ..s.config.auto_switch },
                        ..s.config
                    },
                    pending: PendingView::Storing { message: auto_switch_message(enabled) },
                    ..s
                },
                ActionView::SaveConfig,
            ),
            RequestView::SetAutoSwitchInterval { interval } => (
                ServerView {
                    config: ConfigView {
                        auto_switch: crate::config::AutoSwitch { interval, ..s.config.auto_switch },
                        ..s.config
                    },
                    pending: PendingView::Storing { message: interval_message(interval) },
                    ..s
                },
                ActionView::SaveConfig,
            ),
            RequestView::ReloadConfig => (
                ServerView { pending: PendingView::Loading { watched: None }, ..s },
                ActionView::LoadConfig,
            ),
            RequestView::Shutdown => accept(s, "Server shutting down"@),
        }
    }
}

/// Whether a file that changed at `mtime` is to be loaded: it is unless a
/// file that changed then or later was loaded before.
pub open spec fn is_news(last: Option<u128>, mtime: u128) -> bool {
    match last {
        Some(t) => t < mtime,
        None => true,
    }
}

/// The first step after a look at the configuration file, which changed last
/// at `mtime`: a reload where that is news and no run is under way, and
/// nothing otherwise.
pub open spec fn polled(s: ServerView, mtime: u128) -> (ServerView, ActionView) {
    if s.pending is Idle && is_news(s.last_config_mtime, mtime) {
        (
            ServerView {
                pending: PendingView::Loading { watched: Some(mtime) },
                last_failure: None,
                ..s
            },
            ActionView::LoadConfig,
        )
    } else {
        (s, ActionView::Nothing)
    }
}

/// What follows the scan of the directories in a change of wallpaper: the
/// candidates are taken anew from what was found, one is chosen, and it is
/// to be applied under the transition of the active profile.
pub open spec fn scanned(s: ServerView, purpose: PurposeView, found: Seq<Seq<char>>, draws: Seq<
    u32,
>) -> (ServerView, ActionView) {
    if !has_name(s.profiles.profiles, s.profiles.current_profile) {
        failed(s, purpose, lost_profile())
    } else {
        let fresh = WallpaperView { cache: normalized(found), ..s.wallpapers };
        let (after, choice) = selection(fresh, s.config.auto_switch.mode, draws);
        let t = ServerView { wallpapers: after, ..s };
        match choice {
            Ok(path) => (
                ServerView { pending: PendingView::Applying { purpose, path }, ..t },
                ActionView::Apply {
                    path,
                    arguments: apply_arguments(
                        path,
                        s.profiles.profiles[position(
                            s.profiles.profiles,
                            s.profiles.current_profile,
                        )].profile,
                    ),
                },
            ),
            Err(e) => failed(t, purpose, within("Failed to get wallpaper: "@, e)),
        }
    }
}

/// What follows the monitors in a detection that a client asked for.
pub open spec fn detection(s: ServerView, result: Result<Seq<Seq<char>>, Seq<char>>) -> (
    ServerView,
    ActionView,
) {
    match result {
        Err(e) => refuse(s, gateway("Failed to get monitors: "@ + e)),
        Ok(names) => match detected(s.profiles.profiles, names) {
            Some(name) => if name != s.config.current_profile {
                profile_begun(s, PurposeView::Detected { name }, name)
            } else {
                wallpaper_begun(s, PurposeView::Refresh { name })
            },
            None => accept(s, "No matching profile found, using current"@),
        },
    }
}

/// What follows the monitors in a reload after a change of the file: the
/// switch to the profile that fits where it is not the active one, and a
/// change of wallpaper otherwise.
pub open spec fn settled(s: ServerView, result: Result<Seq<Seq<char>>, Seq<char>>) -> (
    ServerView,
    ActionView,
) {
    match result {
        Err(e) => refuse(s, gateway("Failed to read monitors after config reload: "@ + e)),
        Ok(names) => match detected(s.profiles.profiles, names) {
            Some(name) => if name != s.config.current_profile {
                profile_begun(s, PurposeView::Detected { name }, name)
            } else {
                wallpaper_begun(s, PurposeView::Refresh { name: s.config.current_profile })
            },
            None => wallpaper_begun(s, PurposeView::Refresh { name: s.config.current_profile }),
        },
    }
}

/// What follows the configuration in a reload.
pub open spec fn loaded(s: ServerView, watched: Option<u128>, result: Result<
    ConfigView,
    Seq<char>,
>) -> (ServerView, ActionView) {
    match result {
        Err(e) => refuse(
            s,
            persistence(
                (if watched is Some {
                    "Failed to reload updated config: "@
                } else {
                    "Failed to reload config: "@
                }) + e,
            ),
        ),
        Ok(c) => {
            let t = ServerView {
                config: c,
                profiles: c,
                last_config_mtime: if watched is Some {
                    watched
                } else {
                    s.last_config_mtime
                },
                ..s
            };
            match current_dirs(t) {
                Some(dirs) => (
                    ServerView {
                        pending: PendingView::Rescanning { after_change: watched is Some },
                        ..t
                    },
                    ActionView::Scan { dirs },
                ),
                None => reloaded(t, watched is Some),
            }
        },
    }
}

/// The end of a reload: the monitors are to be read where it followed a
/// change of the file, and the client is told of it otherwise.
pub open spec fn reloaded(s: ServerView, watched: bool) -> (ServerView, ActionView) {
    if watched {
        (ServerView { pending: PendingView::Settling, ..s }, ActionView::ReadStableMonitors)
    } else {
        accept(s, "Configuration reloaded"@)
    }
}

/// The names in `result`, or none where the monitors could not be read.
pub open spec fn names_or_none(result: Result<Seq<Seq<char>>, Seq<char>>) -> Seq<Seq<char>> {
    match result {
        Ok(names) => names,
        Err(e) => Seq::empty(),
    }
}

/// The next step of the run that waits for `event`. `draws` are the numbers
/// that a random choice of wallpaper draws. An event that the run does not
/// wait for ends it in a failure.
pub open spec fn resumed(s: ServerView, event: EventView, draws: Seq<u32>) -> (
    ServerView,
    ActionView,
) {
    match (s.pending, event) {
        (PendingView::Saving { purpose }, EventView::Saved { error }) => match error {
            None => (
                ServerView { pending: PendingView::Announcing { purpose }, ..s },
                ActionView::Notify {
                    note: info_note("Profile switched"@, s.config.current_profile),
                },
            ),
            Some(e) => failed(
                s,
                purpose,
                persistence("Failed to save config after profile switch: "@ + e),
            ),
        },
        (PendingView::Announcing { purpose }, EventView::Notified) => wallpaper_begun(s, purpose),
        (PendingView::Scanning { purpose }, EventView::Scanned { found }) => scanned(
            s,
            purpose,
            found,
            draws,
        ),
        (PendingView::Applying { purpose, path }, EventView::Applied { outcome }) => {
            let t = ServerView { wallpapers: applied(s.wallpapers, path, outcome), ..s };
            match apply_failure(outcome) {
                None => succeeded(t, purpose, path),
                Some(e) => failed(t, purpose, within("Failed to set wallpaper: "@, e)),
            }
        },
        (PendingView::Closing { response }, EventView::Notified) => respond(s, response),
        (PendingView::Storing { message }, EventView::Saved { error }) => match error {
            None => accept(s, message),
            Some(e) => refuse(s, persistence("Failed to save config: "@ + e)),
        },
        (PendingView::Status { now }, EventView::Monitors { result }) => respond(
            s,
            ResponseView::Status { status: status_of(s, names_or_none(result), now) },
        ),
        (PendingView::Listing, EventView::Counted { counts }) => respond(
            s,
            ResponseView::ProfileList { profiles: profile_list(s.profiles, counts) },
        ),
        (PendingView::Detecting, EventView::Monitors { result }) => detection(s, result),
        (PendingView::Loading { watched }, EventView::Loaded { config }) => loaded(
            s,
            watched,
            config,
        ),
        (PendingView::Rescanning { after_change }, EventView::Scanned { found }) => reloaded(
            ServerView {
                wallpapers: WallpaperView { cache: normalized(found), ..s.wallpapers },
                ..s
            },
            after_change,
        ),
        (PendingView::Settling, EventView::Monitors { result }) => settled(s, result),
        _ => refuse(s, stray_event()),
    }
}

} // verus!

verus! {

/// The service: its configuration, its profiles, its candidates, and the
/// run that is under way.
#[derive(Debug, PartialEq, Eq)]
pub struct Server {
    config: Config,
    wallpaper_manager: WallpaperManager,
    profile_manager: ProfileManager,
    start_time: u64,
    last_config_mtime: Option<u128>,
    last_failure: Option<Error>,
    pending: Pending,
}

impl View for Server {
    type V = ServerView;

    closed spec fn view(&self) -> ServerView {
        ServerView {
            config: self.config@,
            profiles: self.profile_manager@,
            wallpapers: self.wallpaper_manager@,
            start_time: self.start_time,
            last_config_mtime: self.last_config_mtime,
            last_failure: match self.last_failure {
                Some(e) => Some(e@),
                None => None,
            },
            pending: self.pending@,
        }
    }
}

fn glue(a: &str, b: &str) -> (r: String)
    ensures
        r@ == a@ + b@,
{
    let mut r = String::from_str(a);
    r.append(b);
    r
}

fn wrap(context: &str, e: Error) -> (r: Error)
    ensures
        r@ == within(context@, e@),
{
    Error::new(e.kind, glue(context, e.message.as_str()))
}

fn told(kind: ErrorKind, context: &str, detail: &str) -> (r: Error)
    ensures
        r@ == (ErrorView { kind, message: context@ + detail@ }),
{
    Error::new(kind, glue(context, detail))
}

fn lost() -> (r: Error)
    ensures
        r@ == lost_profile(),
{
    Error::new(ErrorKind::NotFound, String::from_str("Failed to get current profile"))
}

/// The state in which a service with the configuration `config` starts at
/// second `now`.
pub open spec fn started(config: ConfigView, now: u64) -> ServerView {
    ServerView {
        config,
        profiles: config,
        wallpapers: WallpaperView { cache: Seq::empty(), last: None, cursor: 0 },
        start_time: now,
        last_config_mtime: None,
        last_failure: None,
        pending: PendingView::Idle,
    }
}

impl Server {
    /// A service with the configuration `config` that starts at second
    /// `now`.
    pub fn new(config: Config, now: u64) -> (r: Server)
        ensures
            r@ == started(config@, now),
    {
        Server {
            wallpaper_manager: WallpaperManager::new(),
            profile_manager: ProfileManager::new(config.clone()),
            config,
            start_time: now,
            last_config_mtime: None,
            last_failure: None,
            pending: Pending::Idle,
        }
    }

    /// The configuration that is saved and reported.
    pub fn config(&self) -> (r: &Config)
        ensures
            r@ == self@.config,
    {
        &self.config
    }

    /// The profiles.
    pub fn profile_manager(&self) -> (r: &ProfileManager)
        ensures
            r@ == self@.profiles,
    {
        &self.profile_manager
    }

    /// The candidates and the last wallpaper.
    pub fn wallpaper_manager(&self) -> (r: &WallpaperManager)
        ensures
            r@ == self@.wallpapers,
    {
        &self.wallpaper_manager
    }

    /// The failure of the run that is under way or was so last, where it
    /// has failed.
    pub fn last_failure(&self) -> (r: Option<&Error>)
        ensures
            match r {
                Some(e) => Some(e@),
                None => None,
            } == self@.last_failure,
    {
        self.last_failure.as_ref()
    }

    /// Whether no run is under way.
    pub fn is_idle(&self) -> (r: bool)
        ensures
            r == (self@.pending is Idle),
    {
        match self.pending {
            Pending::Idle => true,
            _ => false,
        }
    }

    fn respond(&mut self, response: Response) -> (a: Action)
        ensures
            (final(self)@, a@) == respond(old(self)@, response@),
    {
        self.pending = Pending::Idle;
        Action::Respond { response }
    }

    fn refuse(&mut self, e: Error) -> (a: Action)
        ensures
            (final(self)@, a@) == refuse(old(self)@, e@),
    {
        let message = e.message.clone();
        self.last_failure = Some(e);
        self.respond(Response::Error { message })
    }

    fn accept(&mut self, message: String) -> (a: Action)
        ensures
            (final(self)@, a@) == accept(old(self)@, message@),
    {
        self.respond(Response::Success { message })
    }

    fn fail(&mut self, purpose: Purpose, e: Error) -> (a: Action)
        ensures
            (final(self)@, a@) == failed(old(self)@, purpose@, e@),
    {
        match purpose {
            Purpose::Switch => {
                let note = send_error(e.message.as_str());
                let wrapped = wrap("Failed to switch wallpaper: ", e);
                self.pending = Pending::Closing {
                    response: Response::Error { message: wrapped.message.clone() },
                };
                self.last_failure = Some(wrapped);
                Action::Notify { note }
            },
            Purpose::SwitchWithProfile => self.refuse(wrap("Failed to switch profile: ", e)),
            Purpose::SwitchProfile { name } => self.refuse(wrap("Failed to switch profile: ", e)),
            Purpose::Detected { name } => self.refuse(
                wrap("Failed to switch to detected profile: ", e),
            ),
            Purpose::Refresh { name } => self.refuse(wrap("Failed to refresh wallpaper: ", e)),
        }
    }

    fn current_dirs(&self) -> (r: Option<Vec<String>>)
        ensures
            match r {
                Some(dirs) => Some(texts(dirs@)),
                None => None,
            } == current_dirs(self@),
    {
        match self.profile_manager.current_profile() {
            Ok(profile) => Some(clone_texts(&profile.wallpaper_dirs)),
            Err(e) => None,
        }
    }

    fn begin_wallpaper(&mut self, purpose: Purpose) -> (a: Action)
        ensures
            (final(self)@, a@) == wallpaper_begun(old(self)@, purpose@),
    {
        match self.current_dirs() {
            Some(dirs) => {
                self.pending = Pending::Scanning { purpose };
                Action::Scan { dirs }
            },
            None => self.fail(purpose, lost()),
        }
    }

    fn succeed(&mut self, purpose: Purpose, path: &str) -> (a: Action)
        ensures
            (final(self)@, a@) == succeeded(old(self)@, purpose@, path@),
    {
        match purpose {
            Purpose::Switch => {
                let shown = file_name(path);
                self.pending = Pending::Closing {
                    response: Response::Success {
                        message: glue("Switched to wallpaper: ", shown.as_str()),
                    },
                };
                Action::Notify { note: send_success(glue("Wallpaper: ", shown.as_str()).as_str()) }
            },
            Purpose::SwitchWithProfile => self.begin_wallpaper(Purpose::Switch),
            Purpose::SwitchProfile { name } => self.accept(
                glue("Switched to profile: ", name.as_str()),
            ),
            Purpose::Detected { name } => self.accept(
                glue("Auto-switched to profile: ", name.as_str()),
            ),
            Purpose::Refresh { name } => {
                let shown = file_name(path);
                let mut message = glue("Already using optimal profile: ", name.as_str());
                message.append(" (wallpaper refreshed: ");
                message.append(shown.as_str());
                message.append(")");
                self.accept(message)
            },
        }
    }

    fn begin_profile(&mut self, purpose: Purpose, name: &str) -> (a: Action)
        ensures
            (final(self)@, a@) == profile_begun(old(self)@, purpose@, name@),
    {
        match self.profile_manager.switch_to(name) {
            Ok(()) => {
                self.config.current_profile = String::from_str(name);
                self.pending = Pending::Saving { purpose };
                Action::SaveConfig
            },
            Err(e) => self.fail(purpose, e),
        }
    }

    /// The first step of the run for `request`, which arrives at second
    /// `now`: see [`requested`].
    pub fn process_request(&mut self, request: Request, now: u64) -> (a: Action)
        ensures
            (final(self)@, a@) == requested(old(self)@, request@, now),
    {
        if !self.is_idle() {
            return Action::Respond {
                response: Response::Error { message: String::from_str("Busy") },
            };
        }
        self.last_failure = None;
        match request {
            Request::Switch { profile } => match profile {
                Some(name) => self.begin_profile(Purpose::SwitchWithProfile, name.as_str()),
                None => self.begin_wallpaper(Purpose::Switch),
            },
            Request::SwitchProfile { name } => {
                let wanted = name.clone();
                self.begin_profile(Purpose::SwitchProfile { name }, wanted.as_str())
            },
            Request::DetectAndSwitchProfile => {
                self.pending = Pending::Detecting;
                Action::ReadStableMonitors
            },
            Request::ListProfiles => {
                self.pending = Pending::Listing;
                Action::Count { lists: self.profile_manager.wallpaper_dirs() }
            },
            Request::GetStatus => {
                self.pending = Pending::Status { now };
                Action::ReadMonitors
            },
            Request::SetAutoSwitch { enabled } => {
                self.config.auto_switch.enabled = enabled;
                let message = if enabled {
                    String::from_str("Auto-switch enabled")
                } else {
                    String::from_str("Auto-switch disabled")
                };
                self.pending = Pending::Storing { message };
                Action::SaveConfig
            },
            Request::SetAutoSwitchInterval { interval } => {
                self.config.auto_switch.interval = interval;
                let mut message = glue(
                    "Auto-switch interval set to ",
                    decimal_text(interval).as_str(),
                );
                message.append("s (");
                message.append(decimal_text(interval / 60).as_str());
                message.append(" minutes)");
                self.pending = Pending::Storing { message };
                Action::SaveConfig
            },
            Request::ReloadConfig => {
                self.pending = Pending::Loading { watched: None };
                Action::LoadConfig
            },
            Request::Shutdown => self.accept(String::from_str("Server shutting down")),
        }
    }

    /// The first step after a look at the configuration file, which changed
    /// last at `mtime`: see [`polled`].
    pub fn poll_config(&mut self, mtime: u128) -> (a: Action)
        ensures
            (final(self)@, a@) == polled(old(self)@, mtime),
    {
        let news = match self.last_config_mtime {
            Some(t) => t < mtime,
            None => true,
        };
        if self.is_idle() && news {
            self.last_failure = None;
            self.pending = Pending::Loading { watched: Some(mtime) };
            Action::LoadConfig
        } else {
            Action::Nothing
        }
    }

    fn on_scanned(&mut self, purpose: Purpose, found: &Vec<String>) -> (r: (Action, Ghost<Seq<u32>>))
        ensures
            r.1@.len() == MAX_DRAWS,
            (final(self)@, r.0@) == scanned(old(self)@, purpose@, texts(found@), r.1@),
    {
        let ghost zeros = Seq::new(MAX_DRAWS as nat, |j: int| 0u32);
        let arguments_for = match self.profile_manager.current_profile() {
            Ok(profile) => Some(profile.clone()),
            Err(e) => None,
        };
        match arguments_for {
            None => {
                let a = self.fail(purpose, lost());
                (a, Ghost(zeros))
            },
            Some(profile) => {
                let _ = self.wallpaper_manager.refresh_cache(found.as_slice());
                let ghost fresh = self.wallpaper_manager@;
                let choice = self.wallpaper_manager.get_wallpaper(found.as_slice(), &self.config);
                let ghost draws = choose|draws: Seq<u32>|
                    draws.len() == MAX_DRAWS && (self.wallpaper_manager@, crate::wallpaper::chosen_view(choice))
                        == #[trigger] selection(
                        filled(fresh, texts(found@)),
                        self.config@.auto_switch.mode,
                        draws,
                    );
                match choice {
                    Ok(path) => {
                        let arguments = apply_command(path.as_str(), &profile);
                        self.pending = Pending::Applying { purpose, path: path.clone() };
                        (Action::Apply { path, arguments }, Ghost(draws))
                    },
                    Err(e) => {
                        let a = self.fail(purpose, wrap("Failed to get wallpaper: ", e));
                        (a, Ghost(draws))
                    },
                }
            },
        }
    }

    fn on_detected(&mut self, result: Result<Vec<String>, String>, watched: bool) -> (a: Action)
        ensures
            (final(self)@, a@) == (if watched {
                settled(
                    old(self)@,
                    match result {
                        Ok(names) => Ok(texts(names@)),
                        Err(e) => Err(e@),
                    },
                )
            } else {
                detection(
                    old(self)@,
                    match result {
                        Ok(names) => Ok(texts(names@)),
                        Err(e) => Err(e@),
                    },
                )
            }),
    {
        match result {
            Err(e) => {
                if watched {
                    self.refuse(
                        told(
                            ErrorKind::ExternalGatewayFailure,
                            "Failed to read monitors after config reload: ",
                            e.as_str(),
                        ),
                    )
                } else {
                    self.refuse(
                        told(
                            ErrorKind::ExternalGatewayFailure,
                            "Failed to get monitors: ",
                            e.as_str(),
                        ),
                    )
                }
            },
            Ok(names) => {
                let found = match self.profile_manager.detect_profile(names.as_slice()) {
                    Ok(found) => found,
                    Err(e) => None,
                };
                match found {
                    Some(name) => {
                        if compare_text(name.as_str(), self.config.current_profile.as_str()) != 0 {
                            let wanted = name.clone();
                            self.begin_profile(Purpose::Detected { name }, wanted.as_str())
                        } else if watched {
                            let current = self.config.current_profile.clone();
                            self.begin_wallpaper(Purpose::Refresh { name: current })
                        } else {
                            self.begin_wallpaper(Purpose::Refresh { name })
                        }
                    },
                    None => {
                        if watched {
                            let current = self.config.current_profile.clone();
                            self.begin_wallpaper(Purpose::Refresh { name: current })
                        } else {
                            self.accept(
                                String::from_str("No matching profile found, using current"),
                            )
                        }
                    },
                }
            },
        }
    }

    fn finish_reload(&mut self, watched: bool) -> (a: Action)
        ensures
            (final(self)@, a@) == reloaded(old(self)@, watched),
    {
        if watched {
            self.pending = Pending::Settling;
            Action::ReadStableMonitors
        } else {
            self.accept(String::from_str("Configuration reloaded"))
        }
    }

    fn on_loaded(&mut self, watched: Option<u128>, result: Result<Config, String>) -> (a: Action)
        ensures
            (final(self)@, a@) == loaded(
                old(self)@,
                watched,
                match result {
                    Ok(c) => Ok(c@),
                    Err(e) => Err(e@),
                },
            ),
    {
        match result {
            Err(e) => {
                if watched.is_some() {
                    self.refuse(
                        told(
                            ErrorKind::PersistenceError,
                            "Failed to reload updated config: ",
                            e.as_str(),
                        ),
                    )
                } else {
                    self.refuse(
                        told(ErrorKind::PersistenceError, "Failed to reload config: ", e.as_str()),
                    )
                }
            },
            Ok(c) => {
                self.config = c.clone();
                self.profile_manager.update_config(c);
                if watched.is_some() {
                    self.last_config_mtime = watched;
                }
                match self.current_dirs() {
                    Some(dirs) => {
                        self.pending = Pending::Rescanning { after_change: watched.is_some() };
                        Action::Scan { dirs }
                    },
                    None => self.finish_reload(watched.is_some()),
                }
            },
        }
    }

    fn status(&self, monitors: Vec<String>, now: u64) -> (r: StatusInfo)
        ensures
            r@ == status_of(self@, texts(monitors@), now),
    {
        StatusInfo {
            auto_switch_interval: Some(self.config.auto_switch.interval),
            current_profile: self.config.current_profile.clone(),
            current_wallpaper: match self.wallpaper_manager.last_wallpaper() {
                Some(p) => Some(p.clone()),
                None => None,
            },
            auto_switch_enabled: self.config.auto_switch.enabled,
            monitors,
            uptime_secs: if now >= self.start_time {
                now - self.start_time
            } else {
                0
            },
        }
    }

    /// The next step of the run that waits for `event`: see [`resumed`],
    /// for some eight numbers drawn.
    pub fn resume(&mut self, event: Event) -> (a: Action)
        ensures
            exists|draws: Seq<u32>|
                draws.len() == MAX_DRAWS && (final(self)@, a@) == #[trigger] resumed(
                    old(self)@,
                    event@,
                    draws,
                ),
    {
        let ghost zeros = Seq::new(MAX_DRAWS as nat, |j: int| 0u32);
        let ghost before = self@;
        let mut pending = Pending::Idle;
        std::mem::swap(&mut pending, &mut self.pending);
        let ghost bare = self@;
        assert(bare == (ServerView { pending: PendingView::Idle, ..before }));
        match (pending, event) {
            (Pending::Saving { purpose }, Event::Saved { error }) => {
                let a = match error {
                    None => {
                        self.pending = Pending::Announcing { purpose };
                        Action::Notify {
                            note: send("Profile switched", self.config.current_profile.as_str()),
                        }
                    },
                    Some(e) => self.fail(
                        purpose,
                        told(
                            ErrorKind::PersistenceError,
                            "Failed to save config after profile switch: ",
                            e.as_str(),
                        ),
                    ),
                };
                assert((self@, a@) == resumed(before, event@, zeros));
                a
            },
            (Pending::Announcing { purpose }, Event::Notified) => {
                let a = self.begin_wallpaper(purpose);
                assert((self@, a@) == resumed(before, event@, zeros));
                a
            },
            (Pending::Scanning { purpose }, Event::Scanned { found }) => {
                let (a, Ghost(draws)) = self.on_scanned(purpose, &found);
                assert((self@, a@) == resumed(before, event@, draws));
                a
            },
            (Pending::Applying { purpose, path }, Event::Applied { outcome }) => {
                let a = match self.wallpaper_manager.set_wallpaper(path.as_str(), &outcome) {
                    Ok(()) => self.succeed(purpose, path.as_str()),
                    Err(e) => self.fail(purpose, wrap("Failed to set wallpaper: ", e)),
                };
                assert((self@, a@) == resumed(before, event@, zeros));
                a
            },
            (Pending::Closing { response }, Event::Notified) => {
                let a = self.respond(response);
                assert((self@, a@) == resumed(before, event@, zeros));
                a
            },
            (Pending::Storing { message }, Event::Saved { error }) => {
                let a = match error {
                    None => self.accept(message),
                    Some(e) => self.refuse(
                        told(ErrorKind::PersistenceError, "Failed to save config: ", e.as_str()),
                    ),
                };
                assert((self@, a@) == resumed(before, event@, zeros));
                a
            },
            (Pending::Status { now }, Event::Monitors { result }) => {
                let monitors = match result {
                    Ok(names) => names,
                    Err(e) => Vec::new(),
                };
                assert(texts(monitors@) =~= names_or_none(
                    match result {
                        Ok(names) => Ok(texts(names@)),
                        Err(e) => Err(e@),
                    },
                ));
                let status = self.status(monitors, now);
                let a = self.respond(Response::Status { status });
                assert((self@, a@) == resumed(before, event@, zeros));
                a
            },
            (Pending::Listing, Event::Counted { counts }) => {
                let profiles = self.profile_manager.get_profile_list(counts.as_slice());
                let a = self.respond(Response::ProfileList { profiles });
                assert((self@, a@) == resumed(before, event@, zeros));
                a
            },
            (Pending::Detecting, Event::Monitors { result }) => {
                let a = self.on_detected(result, false);
                assert((self@, a@) == resumed(before, event@, zeros));
                a
            },
            (Pending::Loading { watched }, Event::Loaded { config }) => {
                let a = self.on_loaded(watched, config);
                assert((self@, a@) == resumed(before, event@, zeros));
                a
            },
            (Pending::Rescanning { after_change }, Event::Scanned { found }) => {
                let _ = self.wallpaper_manager.refresh_cache(found.as_slice());
                let a = self.finish_reload(after_change);
                assert((self@, a@) == resumed(before, event@, zeros));
                a
            },
            (Pending::Settling, Event::Monitors { result }) => {
                let a = self.on_detected(result, true);
                assert((self@, a@) == resumed(before, event@, zeros));
                a
            },
            _ => {
                let a = self.refuse(
                    Error::new(
                        ErrorKind::ProtocolDecodeError,
                        String::from_str("Unexpected event"),
                    ),
                );
                assert((self@, a@) == resumed(before, event@, zeros));
                a
            },
        }
    }
}

} // verus!

verus! {

/// A bound on the steps that a run still takes before it ends.
pub open spec fn steps_left(p: PendingView) -> nat {
    match p {
        PendingView::Idle => 0,
        PendingView::Closing { response } => 1,
        PendingView::Storing { message } => 1,
        PendingView::Status { now } => 1,
        PendingView::Listing => 1,
        PendingView::Applying { purpose, path } => if purpose is SwitchWithProfile {
            5
        } else {
            2
        },
        PendingView::Scanning { purpose } => if purpose is SwitchWithProfile {
            6
        } else {
            3
        },
        PendingView::Announcing { purpose } => if purpose is SwitchWithProfile {
            7
        } else {
            4
        },
        PendingView::Saving { purpose } => if purpose is SwitchWithProfile {
            8
        } else {
            5
        },
        PendingView::Detecting => 9,
        PendingView::Settling => 9,
        PendingView::Rescanning { after_change } => 10,
        PendingView::Loading { watched } => 11,
    }
}

/// Every request is answered once: a step of a run either ends the run in a
/// response, after which no run is under way, or asks for outside work and
/// brings the run closer to its end. No step leaves the caller without
/// work or response.
pub proof fn law_every_run_ends(s: ServerView, event: EventView, draws: Seq<u32>)
    ensures
        resumed(s, event, draws).1 is Respond <==> resumed(s, event, draws).0.pending is Idle,
        !(resumed(s, event, draws).1 is Respond) ==> steps_left(resumed(s, event, draws).0.pending)
            < steps_left(s.pending),
        !(resumed(s, event, draws).1 is Nothing),
{
}

/// A request starts a run or is answered at once: where no run is under
/// way, the first step is a response exactly if no run is under way after
/// it.
pub proof fn law_request_starts_or_answers(s: ServerView, request: RequestView, now: u64)
    requires
        s.pending is Idle,
    ensures
        requested(s, request, now).1 is Respond <==> requested(s, request, now).0.pending is Idle,
        !(requested(s, request, now).1 is Nothing),
{
}

/// A wallpaper that could not be applied leaves the candidates, the cursor
/// and the last wallpaper as they were; one that was applied becomes the
/// last wallpaper, and nothing else changes of the three.
pub proof fn law_apply_outcome(s: ServerView, outcome: ApplyOutcomeView, draws: Seq<u32>)
    requires
        s.pending is Applying,
    ensures
        apply_failure(outcome) is Some ==> resumed(
            s,
            EventView::Applied { outcome },
            draws,
        ).0.wallpapers == s.wallpapers,
        apply_failure(outcome) is None ==> resumed(
            s,
            EventView::Applied { outcome },
            draws,
        ).0.wallpapers == (WallpaperView { last: Some(s.pending->Applying_path), ..s.wallpapers }),
{
}

/// The last wallpaper changes in one step only: when a wallpaper was
/// applied.
pub proof fn law_last_wallpaper_changes_on_success_only(
    s: ServerView,
    event: EventView,
    draws: Seq<u32>,
)
    requires
        resumed(s, event, draws).0.wallpapers.last != s.wallpapers.last,
    ensures
        s.pending is Applying,
        event is Applied,
        apply_failure(event->Applied_outcome) is None,
{
}

/// A look at a configuration file that has not changed since it was loaded
/// changes nothing and asks for nothing.
pub proof fn law_unchanged_file_is_left_alone(s: ServerView, mtime: u128)
    requires
        s.last_config_mtime is Some,
        mtime <= s.last_config_mtime->0,
    ensures
        polled(s, mtime) == (s, ActionView::Nothing),
{
}

/// A file that was loaded after a change is not loaded again for the same
/// time of change: once the configuration of a file that changed at `mtime`
/// has arrived, a look at a file that changed then asks for nothing
/// whatever the state has become, as long as no later look starts a reload.
pub proof fn law_loaded_file_is_remembered(s: ServerView, mtime: u128, c: ConfigView)
    requires
        s.pending == (PendingView::Loading { watched: Some(mtime) }),
    ensures
        resumed(s, EventView::Loaded { config: Ok(c) }, Seq::empty()).0.last_config_mtime == Some(
            mtime,
        ),
        forall|t: ServerView|
            t.last_config_mtime == Some(mtime) ==> #[trigger] polled(t, mtime) == (
                t,
                ActionView::Nothing,
            ),
{
}

/// A step of a run changes the active profile in two cases only: a
/// configuration was loaded, or the monitors were read and the profile that
/// becomes active is one that the configuration holds.
pub proof fn law_active_profile_changes(s: ServerView, event: EventView, draws: Seq<u32>)
    requires
        resumed(s, event, draws).0.profiles.current_profile != s.profiles.current_profile,
    ensures
        event is Loaded || (event is Monitors && has_name(
            s.profiles.profiles,
            resumed(s, event, draws).0.profiles.current_profile,
        )),
{
}

/// From detection to status: where the monitors fit a profile `name` that
/// is not the active one, where the configuration is saved, the directories
/// of the profile hold an image and the wallpaper is applied, the run that
/// a request for detection starts ends in success, the profile is the active
/// one, and a status that is asked for afterwards says so.
pub proof fn law_detect_and_switch(
    s: ServerView,
    now: u64,
    names: Seq<Seq<char>>,
    name: Seq<char>,
    found: Seq<Seq<char>>,
    diagnostics: Seq<char>,
    draws: Seq<u32>,
    later: u64,
    monitors: Result<Seq<Seq<char>>, Seq<char>>,
)
    requires
        s.pending is Idle,
        detected(s.profiles.profiles, names) == Some(name),
        name != s.config.current_profile,
        normalized(found).len() > 0,
    ensures
        ({
            let s1 = requested(s, RequestView::DetectAndSwitchProfile, now);
            let s2 = resumed(s1.0, EventView::Monitors { result: Ok(names) }, draws);
            let s3 = resumed(s2.0, EventView::Saved { error: None }, draws);
            let s4 = resumed(s3.0, EventView::Notified, draws);
            let s5 = resumed(s4.0, EventView::Scanned { found }, draws);
            let s6 = resumed(
                s5.0,
                EventView::Applied {
                    outcome: ApplyOutcomeView::Finished { success: true, diagnostics },
                },
                draws,
            );
            let s7 = requested(s6.0, RequestView::GetStatus, later);
            let s8 = resumed(s7.0, EventView::Monitors { result: monitors }, draws);
            &&& s1.1 is ReadStableMonitors
            &&& s2.1 is SaveConfig
            &&& s3.1 is Notify
            &&& s4.1 is Scan
            &&& s5.1 is Apply
            &&& s6.1 == ActionView::Respond {
                response: ResponseView::Success { message: "Auto-switched to profile: "@ + name },
            }
            &&& s6.0.config.current_profile == name
            &&& s6.0.wallpapers.last == Some(s5.1->Apply_path)
            &&& s8.1 is Respond
            &&& s8.1->Respond_response is Status
            &&& s8.1->Respond_response->Status_status.current_profile == name
        }),
{
    crate::profile::lemma_first_exact(s.profiles.profiles, names);
    crate::profile::lemma_first_wildcard(s.profiles.profiles);
    let s1 = requested(s, RequestView::DetectAndSwitchProfile, now);
    let s2 = resumed(s1.0, EventView::Monitors { result: Ok(names) }, draws);
    assert(has_name(s.profiles.profiles, name));
    let s3 = resumed(s2.0, EventView::Saved { error: None }, draws);
    let s4 = resumed(s3.0, EventView::Notified, draws);
    assert(s4.1 is Scan);
    let s5 = resumed(s4.0, EventView::Scanned { found }, draws);
    crate::wallpaper::lemma_random_choice_in_range(normalized(found), s.wallpapers.last, draws);
    assert(s5.1 is Apply);
}

/// A failure that the client is told of is kept, with its kind: where a
/// step ends a run in a failure, the failure that the service keeps has the
/// message that the client is told. (A run that waits for its last
/// notification has kept its failure before.)
pub proof fn law_failure_is_kept(s: ServerView, event: EventView, draws: Seq<u32>)
    requires
        !(s.pending is Closing),
        resumed(s, event, draws).1 is Respond,
        resumed(s, event, draws).1->Respond_response is Error,
    ensures
        resumed(s, event, draws).0.last_failure is Some,
        resumed(s, event, draws).0.last_failure->0.message == resumed(
            s,
            event,
            draws,
        ).1->Respond_response->Error_message,
{
}

/// A failure to save or to load the configuration is kept as a failure of
/// persistence, and one to read the monitors as a failure of a gateway.
pub proof fn law_kinds_of_failure(s: ServerView, reason: Seq<char>, draws: Seq<u32>)
    ensures
        (s.pending is Saving || s.pending is Storing) ==> resumed(
            s,
            EventView::Saved { error: Some(reason) },
            draws,
        ).0.last_failure->0.kind == ErrorKind::PersistenceError,
        s.pending is Loading ==> resumed(
            s,
            EventView::Loaded { config: Err(reason) },
            draws,
        ).0.last_failure->0.kind == ErrorKind::PersistenceError,
        (s.pending is Detecting || s.pending is Settling) ==> resumed(
            s,
            EventView::Monitors { result: Err(reason) },
            draws,
        ).0.last_failure->0.kind == ErrorKind::ExternalGatewayFailure,
{
}

/// Monitors that cannot be read change nothing: where a detection waits
/// for the monitors and they could not be read, the run ends in a failure
/// of a gateway that the client is told of, and the configuration, the
/// active profile, the candidates and the last wallpaper stay as they are.
/// No profile is looked for.
pub proof fn law_unread_monitors_change_nothing(s: ServerView, reason: Seq<char>, draws: Seq<u32>)
    requires
        s.pending is Detecting || s.pending is Settling,
    ensures
        ({
            let after = resumed(s, EventView::Monitors { result: Err(reason) }, draws);
            &&& after.1 is Respond
            &&& after.1->Respond_response is Error
            &&& after.0.last_failure is Some
            &&& after.0.last_failure->0.kind == ErrorKind::ExternalGatewayFailure
            &&& after.0.last_failure->0.message == after.1->Respond_response->Error_message
            &&& after.0.config == s.config
            &&& after.0.profiles == s.profiles
            &&& after.0.wallpapers == s.wallpapers
            &&& after.0.pending is Idle
        }),
{
}

/// A changed file is loaded once: where no run is under way and the file
/// has changed at `mtime`, later than what was loaded before, a look at it
/// starts a reload. The configuration `c` that is loaded takes the place of
/// both copies, and the time of change is kept. The directories of its
/// active profile, where it holds that profile, are scanned and the
/// candidates are taken anew from what was found. Then the monitors are
/// read until they have settled, and the profile that fits them is
/// switched to, or the wallpaper is changed, as after any detection. From
/// the load on, a look at a file that changed at `mtime` asks for nothing.
pub proof fn law_reload_after_change(
    s: ServerView,
    mtime: u128,
    c: ConfigView,
    found: Seq<Seq<char>>,
    monitors: Result<Seq<Seq<char>>, Seq<char>>,
    draws: Seq<u32>,
)
    requires
        s.pending is Idle,
        is_news(s.last_config_mtime, mtime),
    ensures
        ({
            let looked = polled(s, mtime);
            let loaded = resumed(looked.0, EventView::Loaded { config: Ok(c) }, draws);
            let scanned = if loaded.1 is Scan {
                resumed(loaded.0, EventView::Scanned { found }, draws)
            } else {
                loaded
            };
            let read = resumed(scanned.0, EventView::Monitors { result: monitors }, draws);
            &&& looked.1 is LoadConfig
            &&& loaded.0.config == c
            &&& loaded.0.profiles == c
            &&& loaded.0.last_config_mtime == Some(mtime)
            &&& current_dirs(loaded.0) is Some ==> loaded.1 == (ActionView::Scan {
                dirs: current_dirs(loaded.0)->0,
            })
            &&& current_dirs(loaded.0) is None ==> loaded.1 is ReadStableMonitors
            &&& loaded.1 is Scan ==> scanned.0.wallpapers.cache == normalized(found)
            &&& scanned.1 is ReadStableMonitors
            &&& scanned.0.config == c
            &&& scanned.0.profiles == c
            &&& scanned.0.last_config_mtime == Some(mtime)
            &&& read == settled(scanned.0, monitors)
            &&& read.0.last_config_mtime == Some(mtime)
            &&& polled(loaded.0, mtime).1 is Nothing
            &&& polled(scanned.0, mtime).1 is Nothing
            &&& polled(read.0, mtime) == (read.0, ActionView::Nothing)
        }),
{
}

/// A look at the file while a run is under way changes nothing, and only a
/// reload after a change of the file moves the time that is kept: so the
/// look that follows the end of the run finds the file as new as it was.
pub proof fn law_a_look_can_wait(s: ServerView, mtime: u128, event: EventView, draws: Seq<u32>)
    ensures
        !(s.pending is Idle) ==> polled(s, mtime) == (s, ActionView::Nothing),
        resumed(s, event, draws).0.last_config_mtime != s.last_config_mtime ==> s.pending
            is Loading && s.pending->Loading_watched is Some && event is Loaded && resumed(
            s,
            event,
            draws,
        ).0.last_config_mtime == s.pending->Loading_watched,
{
}

/// The failure that a run which waits for its last notification ends in
/// is told in words.
pub open spec fn closes_in_words(p: PendingView) -> bool {
    p matches PendingView::Closing { response } ==> (response matches ResponseView::Error {
        message,
    } ==> message.len() > 0)
}

/// Every failure is told in words: where a step ends a run in a failure,
/// the message that the client is told is not empty, and so it is for the
/// failure in which the run will end after its last notification.
pub proof fn law_failures_are_told_in_words(s: ServerView, event: EventView, draws: Seq<u32>)
    requires
        closes_in_words(s.pending),
    ensures
        closes_in_words(resumed(s, event, draws).0.pending),
        resumed(s, event, draws).1 matches ActionView::Respond { response } ==> (response
            matches ResponseView::Error { message } ==> message.len() > 0),
{
    reveal_strlit("Failed to switch wallpaper: ");
    reveal_strlit("Failed to switch profile: ");
    reveal_strlit("Failed to switch to detected profile: ");
    reveal_strlit("Failed to refresh wallpaper: ");
    reveal_strlit("Failed to save config: ");
    reveal_strlit("Failed to get monitors: ");
    reveal_strlit("Failed to read monitors after config reload: ");
    reveal_strlit("Failed to reload updated config: ");
    reveal_strlit("Failed to reload config: ");
    reveal_strlit("Unexpected event");
}

/// A request that is refused at once is refused in words.
pub proof fn law_refusals_are_told_in_words(s: ServerView, request: RequestView, now: u64)
    ensures
        closes_in_words(requested(s, request, now).0.pending) || !(s.pending is Idle),
        requested(s, request, now).1 matches ActionView::Respond { response } ==> (response
            matches ResponseView::Error { message } ==> message.len() > 0),
{
    reveal_strlit("Busy");
    reveal_strlit("Failed to switch wallpaper: ");
    reveal_strlit("Failed to switch profile: ");
}

} // verus!
