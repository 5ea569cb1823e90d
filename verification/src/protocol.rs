//! The messages between a client and the service: one request, one response.

use vstd::prelude::*;
use vstd::string::*;
use crate::text::{clone_texts, texts};

verus! {

/// The view of an optional string.
pub open spec fn opt_text(o: Option<String>) -> Option<Seq<char>> {
    match o {
        Some(s) => Some(s@),
        None => None,
    }
}

/// A copy of an optional string.
pub fn clone_opt_text(o: &Option<String>) -> (r: Option<String>)
    ensures
        opt_text(r) == opt_text(*o),
{
    match o {
        Some(s) => Some(s.clone()),
        None => None,
    }
}

/// What a client asks of the service.
#[derive(Debug, PartialEq, Eq)]
pub enum Request {
    /// Change the wallpaper, after switching to `profile` where one is named.
    Switch { profile: Option<String> },
    /// Make `name` the active profile.
    SwitchProfile { name: String },
    /// Make the profile that fits the attached monitors the active one.
    DetectAndSwitchProfile,
    ListProfiles,
    GetStatus,
    SetAutoSwitch { enabled: bool },
    Shutdown,
    SetAutoSwitchInterval { interval: u64 },
    ReloadConfig,
}

/// A request, as values.
pub enum RequestView {
    Switch { profile: Option<Seq<char>> },
    SwitchProfile { name: Seq<char> },
    DetectAndSwitchProfile,
    ListProfiles,
    GetStatus,
    SetAutoSwitch { enabled: bool },
    Shutdown,
    SetAutoSwitchInterval { interval: u64 },
    ReloadConfig,
}

impl View for Request {
    type V = RequestView;

    open spec fn view(&self) -> RequestView {
        match *self {
            Request::Switch { profile } => RequestView::Switch { profile: opt_text(profile) },
            Request::SwitchProfile { name } => RequestView::SwitchProfile { name: name@ },
            Request::DetectAndSwitchProfile => RequestView::DetectAndSwitchProfile,
            Request::ListProfiles => RequestView::ListProfiles,
            Request::GetStatus => RequestView::GetStatus,
            Request::SetAutoSwitch { enabled } => RequestView::SetAutoSwitch { enabled },
            Request::Shutdown => RequestView::Shutdown,
            Request::SetAutoSwitchInterval { interval } => RequestView::SetAutoSwitchInterval {
                interval,
            },
            Request::ReloadConfig => RequestView::ReloadConfig,
        }
    }
}

/// One profile, as a client is told of it.
#[derive(Debug, PartialEq, Eq)]
pub struct ProfileInfo {
    pub name: String,
    pub monitors: Vec<String>,
    /// The number of images in the directories of the profile.
    pub wallpaper_count: usize,
    pub is_current: bool,
    pub transition: Option<String>,
    pub transition_duration: Option<u32>,
}

/// What a profile entry of a list holds.
pub struct ProfileInfoView {
    pub name: Seq<char>,
    pub monitors: Seq<Seq<char>>,
    pub wallpaper_count: usize,
    pub is_current: bool,
    pub transition: Option<Seq<char>>,
    pub transition_duration: Option<u32>,
}

impl View for ProfileInfo {
    type V = ProfileInfoView;

    open spec fn view(&self) -> ProfileInfoView {
        ProfileInfoView {
            name: self.name@,
            monitors: texts(self.monitors@),
            wallpaper_count: self.wallpaper_count,
            is_current: self.is_current,
            transition: opt_text(self.transition),
            transition_duration: self.transition_duration,
        }
    }
}

impl Clone for ProfileInfo {
    fn clone(&self) -> (r: Self)
        ensures
            r@ == self@,
    {
        ProfileInfo {
            name: self.name.clone(),
            monitors: clone_texts(&self.monitors),
            wallpaper_count: self.wallpaper_count,
            is_current: self.is_current,
            transition: clone_opt_text(&self.transition),
            transition_duration: self.transition_duration,
        }
    }
}

/// The views of a list of profile entries, in order.
pub open spec fn info_views(v: Seq<ProfileInfo>) -> Seq<ProfileInfoView> {
    Seq::new(v.len(), |i: int| v[i]@)
}

/// The state of the service, as a client is told of it.
#[derive(Debug, PartialEq, Eq)]
pub struct StatusInfo {
    pub auto_switch_interval: Option<u64>,
    pub current_profile: String,
    pub current_wallpaper: Option<String>,
    pub auto_switch_enabled: bool,
    pub monitors: Vec<String>,
    pub uptime_secs: u64,
}

/// What a status holds.
pub struct StatusInfoView {
    pub auto_switch_interval: Option<u64>,
    pub current_profile: Seq<char>,
    pub current_wallpaper: Option<Seq<char>>,
    pub auto_switch_enabled: bool,
    pub monitors: Seq<Seq<char>>,
    pub uptime_secs: u64,
}

impl View for StatusInfo {
    type V = StatusInfoView;

    open spec fn view(&self) -> StatusInfoView {
        StatusInfoView {
            auto_switch_interval: self.auto_switch_interval,
            current_profile: self.current_profile@,
            current_wallpaper: opt_text(self.current_wallpaper),
            auto_switch_enabled: self.auto_switch_enabled,
            monitors: texts(self.monitors@),
            uptime_secs: self.uptime_secs,
        }
    }
}

/// What the service answers.
#[derive(Debug, PartialEq, Eq)]
pub enum Response {
    Success { message: String },
    Error { message: String },
    ProfileList { profiles: Vec<ProfileInfo> },
    Status { status: StatusInfo },
}

/// A response, as values.
pub enum ResponseView {
    Success { message: Seq<char> },
    Error { message: Seq<char> },
    ProfileList { profiles: Seq<ProfileInfoView> },
    Status { status: StatusInfoView },
}

impl View for Response {
    type V = ResponseView;

    open spec fn view(&self) -> ResponseView {
        match *self {
            Response::Success { message } => ResponseView::Success { message: message@ },
            Response::Error { message } => ResponseView::Error { message: message@ },
            Response::ProfileList { profiles } => ResponseView::ProfileList {
                profiles: info_views(profiles@),
            },
            Response::Status { status } => ResponseView::Status { status: status@ },
        }
    }
}

} // verus!
