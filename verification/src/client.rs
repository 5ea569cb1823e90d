//! The client's side of the channel: the requests that it sends, and what
//! it shows of the responses.

use vstd::prelude::*;
use vstd::string::*;
use crate::error::{Error, ErrorKind, ErrorView};
use crate::protocol::{
    ProfileInfo, ProfileInfoView, Request, RequestView, Response, ResponseView, StatusInfo,
    StatusInfoView, info_views,
};
use crate::text::{
    base_name, decimal, decimal_text, join_texts, joined_with, last_component, repeat_text,
    repeated, texts,
};

verus! {

/// The width of the rule below a heading.
pub const RULE_WIDTH: usize = 70;

/// The rule below a heading.
pub open spec fn rule() -> Seq<char> {
    repeated("─"@, RULE_WIDTH as nat)
}

/// The failure that a response amounts to where it is not the one that was
/// asked for: what the service said, or that it said something else.
pub open spec fn refusal(response: ResponseView) -> ErrorView {
    match response {
        ResponseView::Error { message } => ErrorView {
            kind: ErrorKind::Rejected,
            message: "Error: "@ + message,
        },
        _ => ErrorView { kind: ErrorKind::ProtocolDecodeError, message: "Unexpected response"@ },
    }
}

/// The failure for a service that closed the connection without a
/// response.
pub open spec fn closed_early() -> ErrorView {
    ErrorView { kind: ErrorKind::Disconnected, message: "Server closed connection"@ }
}

/// What is shown of a response to a request that asks for a change: the
/// message of a success.
pub open spec fn confirmed(response: ResponseView) -> Result<Seq<char>, ErrorView> {
    match response {
        ResponseView::Success { message } => Ok(message),
        _ => Err(refusal(response)),
    }
}

/// The mark of the active profile in a list, or of another.
pub open spec fn marker(is_current: bool) -> Seq<char> {
    if is_current {
        "Founded"@
    } else {
        " "@
    }
}

/// The line of a list that tells of the transition of a profile.
pub open spec fn transition_line(p: ProfileInfoView) -> Seq<char> {
    match p.transition {
        Some(t) => "Transition: "@ + t + " ("@ + decimal(
            (match p.transition_duration {
                Some(d) => d,
                None => 2u32,
            }) as nat,
        ) + "s)\n"@,
        None => Seq::empty(),
    }
}

/// What a list tells of a profile beyond its name.
pub open spec fn entry_details(p: ProfileInfoView, detailed: bool) -> Seq<char> {
    if detailed {
        "Monitors: "@ + joined_with(p.monitors, ", "@) + "\n"@ + "Wallpapers: "@ + decimal(
            p.wallpaper_count as nat,
        ) + "\n"@ + transition_line(p)
    } else {
        decimal(p.monitors.len()) + " monitor(s)"@ + decimal(p.wallpaper_count as nat)
            + " wallpaper(s)\n"@
    }
}

/// What a list tells of a profile.
pub open spec fn entry_text(p: ProfileInfoView, detailed: bool) -> Seq<char> {
    "\n["@ + marker(p.is_current) + "] "@ + p.name + "\n"@ + entry_details(p, detailed)
}

/// What a list tells of the profiles of `s`, in their order.
pub open spec fn entries_text(s: Seq<ProfileInfoView>, detailed: bool) -> Seq<char>
    decreases s.len(),
{
    if s.len() == 0 {
        Seq::empty()
    } else {
        entries_text(s.drop_last(), detailed) + entry_text(s.last(), detailed)
    }
}

/// The list of the profiles of `s`.
pub open spec fn listing_text(s: Seq<ProfileInfoView>, detailed: bool) -> Seq<char> {
    "\nAvailable Profiles:\n"@ + rule() + "\n"@ + entries_text(s, detailed) + "\n"@
}

/// What is shown of a response to a request for the profiles.
pub open spec fn listed(response: ResponseView, detailed: bool) -> Result<Seq<char>, ErrorView> {
    match response {
        ResponseView::ProfileList { profiles } => Ok(listing_text(profiles, detailed)),
        _ => Err(refusal(response)),
    }
}

/// The name of the current wallpaper as a status shows it.
pub open spec fn wallpaper_name(current: Option<Seq<char>>) -> Seq<char> {
    match current {
        Some(path) => match base_name(path) {
            Some(name) => name,
            None => "None"@,
        },
        None => "None"@,
    }
}

/// The status, in words.
pub open spec fn status_text(s: StatusInfoView) -> Seq<char> {
    "\nStatus:\n"@ + rule() + "\n"@ + "Profile:      "@ + s.current_profile + "\n"@
        + "Wallpaper:    "@ + wallpaper_name(s.current_wallpaper) + "\n"@ + "Auto-switch:  "@ + (
    if s.auto_switch_enabled {
        "Enabled"@
    } else {
        "Disabled"@
    }) + "\n"@ + "Monitors:     "@ + joined_with(s.monitors, ", "@) + "\n"@ + "Uptime:       "@
        + decimal(s.uptime_secs as nat) + "s\n"@ + "\n"@
}

/// What is shown of a response to a request for the status.
pub open spec fn reported(response: ResponseView) -> Result<Seq<char>, ErrorView> {
    match response {
        ResponseView::Status { status } => Ok(status_text(status)),
        _ => Err(refusal(response)),
    }
}

/// The line of a status that tells of the interval of the automatic switch.
pub open spec fn interval_line(interval: Option<u64>) -> Seq<char> {
    match interval {
        Some(i) => "Interval: "@ + decimal(i as nat) + "s ("@ + decimal((i / 60) as nat)
            + " minutes)\n"@,
        None => Seq::empty(),
    }
}

/// The state of the automatic switch, in words.
pub open spec fn auto_switch_text(s: StatusInfoView) -> Seq<char> {
    "\nAuto-switch Status:\n"@ + rule() + "\n"@ + "Enabled:  "@ + (if s.auto_switch_enabled {
        "Yes"@
    } else {
        "No"@
    }) + "\n"@ + interval_line(s.auto_switch_interval) + "\n"@
}

/// What is shown of a response to a request for the state of the automatic
/// switch.
pub open spec fn auto_switch_reported(response: ResponseView) -> Result<Seq<char>, ErrorView> {
    match response {
        ResponseView::Status { status } => Ok(auto_switch_text(status)),
        _ => Err(refusal(response)),
    }
}

/// The view of a text or a failure.
pub open spec fn shown_view(r: Result<String, Error>) -> Result<Seq<char>, ErrorView> {
    match r {
        Ok(text) => Ok(text@),
        Err(e) => Err(e@),
    }
}

fn refuse(response: &Response) -> (r: Error)
    ensures
        r@ == refusal(response@),
{
    match response {
        Response::Error { message } => {
            let mut text = String::from_str("Error: ");
            text.append(message.as_str());
            Error::new(ErrorKind::Rejected, text)
        },
        _ => Error::new(ErrorKind::ProtocolDecodeError, String::from_str("Unexpected response")),
    }
}

fn make_rule() -> (r: String)
    ensures
        r@ == rule(),
{
    repeat_text("─", RULE_WIDTH)
}

fn render_entry(p: &ProfileInfo, detailed: bool) -> (r: String)
    ensures
        r@ == entry_text(p@, detailed),
{
    let mut details = String::new();
    if detailed {
        details.append("Monitors: ");
        details.append(join_texts(p.monitors.as_slice(), ", ").as_str());
        details.append("\n");
        details.append("Wallpapers: ");
        details.append(decimal_text(p.wallpaper_count as u64).as_str());
        details.append("\n");
        let mut line = String::new();
        match &p.transition {
            Some(t) => {
                line.append("Transition: ");
                line.append(t.as_str());
                line.append(" (");
                let d: u32 = match p.transition_duration {
                    Some(d) => d,
                    None => 2,
                };
                line.append(decimal_text(d as u64).as_str());
                line.append("s)\n");
                assert(line@ =~= transition_line(p@));
            },
            None => {},
        }
        details.append(line.as_str());
        assert(details@ =~= entry_details(p@, detailed));
    } else {
        details.append(decimal_text(p.monitors.len() as u64).as_str());
        details.append(" monitor(s)");
        details.append(decimal_text(p.wallpaper_count as u64).as_str());
        details.append(" wallpaper(s)\n");
        assert(texts(p.monitors@).len() == p.monitors@.len());
        assert(details@ =~= entry_details(p@, detailed));
    }
    let mut r = String::from_str("\n[");
    if p.is_current {
        r.append("Founded");
    } else {
        r.append(" ");
    }
    r.append("] ");
    r.append(p.name.as_str());
    r.append("\n");
    r.append(details.as_str());
    r
}

fn render_status(s: &StatusInfo) -> (r: String)
    ensures
        r@ == status_text(s@),
{
    let shown = match &s.current_wallpaper {
        Some(path) => match last_component(path.as_str()) {
            Some(name) => name,
            None => String::from_str("None"),
        },
        None => String::from_str("None"),
    };
    assert(shown@ == wallpaper_name(s@.current_wallpaper));
    let mut r = String::from_str("\nStatus:\n");
    r.append(make_rule().as_str());
    r.append("\n");
    r.append("Profile:      ");
    r.append(s.current_profile.as_str());
    r.append("\n");
    r.append("Wallpaper:    ");
    r.append(shown.as_str());
    r.append("\n");
    r.append("Auto-switch:  ");
    if s.auto_switch_enabled {
        r.append("Enabled");
    } else {
        r.append("Disabled");
    }
    r.append("\n");
    r.append("Monitors:     ");
    r.append(join_texts(s.monitors.as_slice(), ", ").as_str());
    r.append("\n");
    r.append("Uptime:       ");
    r.append(decimal_text(s.uptime_secs).as_str());
    r.append("s\n");
    r.append("\n");
    r
}

fn render_auto_switch(s: &StatusInfo) -> (r: String)
    ensures
        r@ == auto_switch_text(s@),
{
    let mut line = String::new();
    match s.auto_switch_interval {
        Some(i) => {
            line.append("Interval: ");
            line.append(decimal_text(i).as_str());
            line.append("s (");
            line.append(decimal_text(i / 60).as_str());
            line.append(" minutes)\n");
            assert(line@ =~= interval_line(s@.auto_switch_interval));
        },
        None => {},
    }
    let mut r = String::from_str("\nAuto-switch Status:\n");
    r.append(make_rule().as_str());
    r.append("\n");
    r.append("Enabled:  ");
    if s.auto_switch_enabled {
        r.append("Yes");
    } else {
        r.append("No");
    }
    r.append("\n");
    r.append(line.as_str());
    r.append("\n");
    r
}

/// The client of the service.
#[derive(Debug, PartialEq, Eq)]
pub struct Client {
    pub socket_path: String,
}

impl Client {
    /// A client for the socket of the service below the directory that the
    /// environment names for the user's sockets.
    pub fn connect(named_dir: Option<&str>) -> (r: Client)
        ensures
            exists|uid: u32|
                r.socket_path@ == #[trigger] crate::connection::socket_path_of(
                    crate::hyprland_ipc::opt_str(named_dir),
                    uid,
                ),
    {
        Client { socket_path: crate::connection::own_socket_path(named_dir) }
    }

    /// Whether a response arrived: none did where nothing was read.
    pub fn send_request(bytes_read: usize) -> (r: Result<(), Error>)
        ensures
            r is Ok <==> bytes_read != 0,
            r is Err ==> r->Err_0@ == closed_early(),
    {
        if bytes_read == 0 {
            Err(Error::new(ErrorKind::Disconnected, String::from_str("Server closed connection")))
        } else {
            Ok(())
        }
    }

    /// The request for the next wallpaper, under `profile` where one is
    /// named.
    pub fn switch_wallpaper(profile: Option<&str>) -> (r: Request)
        ensures
            r@ == (RequestView::Switch { profile: crate::hyprland_ipc::opt_str(profile) }),
    {
        Request::Switch {
            profile: match profile {
                Some(p) => Some(String::from_str(p)),
                None => None,
            },
        }
    }

    /// The request for the profile `name`.
    pub fn switch_profile(name: &str) -> (r: Request)
        ensures
            r@ == (RequestView::SwitchProfile { name: name@ }),
    {
        Request::SwitchProfile { name: String::from_str(name) }
    }

    /// The request to turn the automatic switch on or off.
    pub fn set_auto_switch(enabled: bool) -> (r: Request)
        ensures
            r@ == (RequestView::SetAutoSwitch { enabled }),
    {
        Request::SetAutoSwitch { enabled }
    }

    /// The request for another interval of the automatic switch.
    pub fn set_auto_switch_interval(interval: u64) -> (r: Request)
        ensures
            r@ == (RequestView::SetAutoSwitchInterval { interval }),
    {
        Request::SetAutoSwitchInterval { interval }
    }

    /// The request for the profile that fits the monitors.
    pub fn detect_and_switch_profile() -> (r: Request)
        ensures
            r@ == RequestView::DetectAndSwitchProfile,
    {
        Request::DetectAndSwitchProfile
    }

    /// The request to load the configuration anew.
    pub fn reload_config() -> (r: Request)
        ensures
            r@ == RequestView::ReloadConfig,
    {
        Request::ReloadConfig
    }

    /// What is shown of the response to a request that asks for a change:
    /// see [`confirmed`].
    pub fn confirmation(response: &Response) -> (r: Result<String, Error>)
        ensures
            shown_view(r) == confirmed(response@),
    {
        match response {
            Response::Success { message } => Ok(message.clone()),
            _ => Err(refuse(response)),
        }
    }

    /// What is shown of the response to a request for the profiles: see
    /// [`listed`].
    pub fn list_profiles(response: &Response, detailed: bool) -> (r: Result<String, Error>)
        ensures
            shown_view(r) == listed(response@, detailed),
    {
        match response {
            Response::ProfileList { profiles } => {
                let ghost all = info_views(profiles@);
                let mut body = String::new();
                let mut i: usize = 0;
                assert(all.take(0) =~= Seq::<ProfileInfoView>::empty());
                while i < profiles.len()
                    invariant
                        i <= profiles.len(),
                        all == info_views(profiles@),
                        body@ == entries_text(all.take(i as int), detailed),
                    decreases profiles.len() - i,
                {
                    proof {
                        assert(all.take(i + 1).drop_last() =~= all.take(i as int));
                        assert(all.take(i + 1).last() == profiles@[i as int]@);
                    }
                    body.append(render_entry(&profiles[i], detailed).as_str());
                    i = i + 1;
                }
                assert(all.take(profiles.len() as int) =~= all);
                let mut r = String::from_str("\nAvailable Profiles:\n");
                r.append(make_rule().as_str());
                r.append("\n");
                r.append(body.as_str());
                r.append("\n");
                Ok(r)
            },
            _ => Err(refuse(response)),
        }
    }

    /// What is shown of the response to a request for the status: see
    /// [`reported`].
    pub fn get_status(response: &Response) -> (r: Result<String, Error>)
        ensures
            shown_view(r) == reported(response@),
    {
        match response {
            Response::Status { status } => Ok(render_status(status)),
            _ => Err(refuse(response)),
        }
    }

    /// What is shown of the response to a request for the state of the
    /// automatic switch: see [`auto_switch_reported`].
    pub fn get_auto_switch_status(response: &Response) -> (r: Result<String, Error>)
        ensures
            shown_view(r) == auto_switch_reported(response@),
    {
        match response {
            Response::Status { status } => Ok(render_auto_switch(status)),
            _ => Err(refuse(response)),
        }
    }
}

} // verus!
