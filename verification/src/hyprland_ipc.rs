//! The command socket of the compositor: where it lies, and the text of the
//! commands that are sent to it.

use vstd::prelude::*;
use vstd::string::*;
use crate::error::{Error, ErrorKind, ErrorView};
use crate::notify::{Notification, icon_for, icon_of};
use crate::text::{decimal, decimal_text, join_path, joined};

verus! {

/// The workspace that a monitor shows.
#[derive(Debug, PartialEq, Eq)]
pub struct WorkspaceBasic {
    pub id: i32,
    pub name: String,
}

/// A workspace of the compositor.
#[derive(Debug, PartialEq, Eq)]
pub struct Workspace {
    pub id: i32,
    pub name: String,
    pub monitor: String,
    pub windows: i32,
    pub hasfullscreen: bool,
    pub lastwindow: String,
    pub lastwindowtitle: String,
}

/// A monitor as the compositor reports it, as far as the service reads it.
#[derive(Debug, PartialEq, Eq)]
pub struct Monitor {
    pub name: String,
    pub focused: bool,
    /// The monitor is powered.
    pub enabled: bool,
    pub width: i32,
    pub height: i32,
}

/// What a monitor holds.
pub struct MonitorView {
    pub name: Seq<char>,
    pub focused: bool,
    pub enabled: bool,
    pub width: i32,
    pub height: i32,
}

impl MonitorView {
    /// The monitor is powered and has a picture of some size.
    pub open spec fn is_active(self) -> bool {
        self.enabled && self.width > 0 && self.height > 0
    }
}

impl View for Monitor {
    type V = MonitorView;

    open spec fn view(&self) -> MonitorView {
        MonitorView {
            name: self.name@,
            focused: self.focused,
            enabled: self.enabled,
            width: self.width,
            height: self.height,
        }
    }
}

impl Clone for Monitor {
    fn clone(&self) -> (r: Self)
        ensures
            r@ == self@,
    {
        Monitor {
            name: self.name.clone(),
            focused: self.focused,
            enabled: self.enabled,
            width: self.width,
            height: self.height,
        }
    }
}

/// The views of a list of monitors, in order.
pub open spec fn monitor_views(v: Seq<Monitor>) -> Seq<MonitorView> {
    Seq::new(v.len(), |i: int| v[i]@)
}

/// The directory of the user's sockets: the one that the environment names,
/// or the one of the user's number where it names none.
pub open spec fn runtime_dir_of(named: Option<Seq<char>>, uid: u32) -> Seq<char> {
    match named {
        Some(dir) => dir,
        None => "/run/user/"@ + decimal(uid as nat),
    }
}

/// The view of an optional text.
pub open spec fn opt_str(o: Option<&str>) -> Option<Seq<char>> {
    match o {
        Some(d) => Some(d@),
        None => None,
    }
}

/// The directory of the user's sockets.
pub fn runtime_dir(named: Option<&str>, uid: u32) -> (r: String)
    ensures
        r@ == runtime_dir_of(opt_str(named), uid),
{
    match named {
        Some(dir) => String::from_str(dir),
        None => {
            let mut r = String::from_str("/run/user/");
            r.append(decimal_text(uid as u64).as_str());
            r
        },
    }
}

/// `users::get_current_uid`: the number of the user who runs the process.
/// Nothing is claimed of it.
#[verifier::external_body]
pub(crate) fn current_uid() -> (r: u32) {
    users::get_current_uid()
}

/// The command socket of the compositor instance `signature` below the
/// directory `dir`.
pub open spec fn command_socket(dir: Seq<char>, signature: Seq<char>) -> Seq<char> {
    joined(joined(joined(dir, "hypr"@), signature), ".socket.sock"@)
}

/// The event socket of the compositor instance `signature` below the
/// directory `dir`.
pub open spec fn event_socket(dir: Seq<char>, signature: Seq<char>) -> Seq<char> {
    joined(joined(joined(dir, "hypr"@), signature), ".socket2.sock"@)
}

/// The failure for a session without a compositor instance.
pub open spec fn no_instance() -> ErrorView {
    ErrorView {
        kind: ErrorKind::ExternalGatewayFailure,
        message: "HYPRLAND_INSTANCE_SIGNATURE not set. Are you running under Hyprland?"@,
    }
}

/// The command socket of the compositor.
#[derive(Debug, PartialEq, Eq)]
pub struct HyprlandIPC {
    pub socket_path: String,
}

impl View for HyprlandIPC {
    type V = Seq<char>;

    open spec fn view(&self) -> Seq<char> {
        self.socket_path@
    }
}

impl Clone for HyprlandIPC {
    fn clone(&self) -> (r: Self)
        ensures
            r@ == self@,
    {
        HyprlandIPC { socket_path: self.socket_path.clone() }
    }
}

/// The text of the command that asks for an answer in JSON.
pub open spec fn json_command(command: Seq<char>) -> Seq<char> {
    "j/"@ + command
}

/// The number `n` in decimal digits, with a sign where it is negative.
pub open spec fn signed_decimal(n: int) -> Seq<char> {
    if n < 0 {
        seq!['-'] + decimal((-n) as nat)
    } else {
        decimal(n as nat)
    }
}

/// The text of the command that shows a notification.
pub open spec fn notify_command(icon: i32, duration_ms: u32, color: Seq<char>, message: Seq<char>)
    -> Seq<char> {
    "notify "@ + signed_decimal(icon as int) + " "@ + decimal(duration_ms as nat) + " "@ + color
        + " "@ + message
}

fn signed_text(n: i32) -> (r: String)
    ensures
        r@ == signed_decimal(n as int),
{
    if n < 0 {
        proof {
            reveal_strlit("-");
        }
        let mut r = String::from_str("-");
        let m: u64 = (-(n as i64)) as u64;
        r.append(decimal_text(m).as_str());
        assert("-"@ =~= seq!['-']);
        r
    } else {
        decimal_text(n as u64)
    }
}

impl HyprlandIPC {
    /// The command socket of the compositor instance that the environment
    /// names by `signature`, below the directory of the user's sockets.
    /// Fails where the environment names no instance. Whether the socket is
    /// there is for the caller to see.
    pub fn new(signature: Option<&str>, named_dir: Option<&str>, uid: u32) -> (r: Result<
        HyprlandIPC,
        Error,
    >)
        ensures
            r is Ok <==> signature is Some,
            r is Ok ==> r->Ok_0@ == command_socket(
                runtime_dir_of(opt_str(named_dir), uid),
                signature->0@,
            ),
            r is Err ==> r->Err_0@ == no_instance(),
    {
        match signature {
            None => Err(
                Error::new(
                    ErrorKind::ExternalGatewayFailure,
                    String::from_str(
                        "HYPRLAND_INSTANCE_SIGNATURE not set. Are you running under Hyprland?",
                    ),
                ),
            ),
            Some(his) => {
                let dir = runtime_dir(named_dir, uid);
                let a = join_path(dir.as_str(), "hypr");
                let b = join_path(a.as_str(), his);
                let c = join_path(b.as_str(), ".socket.sock");
                Ok(HyprlandIPC { socket_path: c })
            },
        }
    }

    /// The command socket of the compositor instance `signature` for the
    /// user who runs the process.
    pub fn for_user(signature: Option<&str>, named_dir: Option<&str>) -> (r: Result<
        HyprlandIPC,
        Error,
    >)
        ensures
            r is Ok <==> signature is Some,
            r is Ok ==> exists|uid: u32|
                r->Ok_0@ == #[trigger] command_socket(
                    runtime_dir_of(opt_str(named_dir), uid),
                    signature->0@,
                ),
            r is Err ==> r->Err_0@ == no_instance(),
    {
        let uid = current_uid();
        let r = HyprlandIPC::new(signature, named_dir, uid);
        proof {
            if r is Ok {
                assert(r->Ok_0@ == command_socket(
                    runtime_dir_of(opt_str(named_dir), uid),
                    signature->0@,
                ));
            }
        }
        r
    }

    /// The text that is sent for `command` where the answer is wanted in
    /// JSON.
    pub fn dispatch_json(&self, command: &str) -> (r: String)
        ensures
            r@ == json_command(command@),
    {
        let mut r = String::from_str("j/");
        r.append(command);
        r
    }

    /// The text that asks for the monitors.
    pub fn get_monitors(&self) -> (r: String)
        ensures
            r@ == json_command("monitors"@),
    {
        self.dispatch_json("monitors")
    }

    /// The text that is sent to show a notification.
    pub fn notify(&self, icon: i32, duration_ms: u32, color: &str, message: &str) -> (r: String)
        ensures
            r@ == notify_command(icon, duration_ms, color@, message@),
    {
        let mut r = String::from_str("notify ");
        r.append(signed_text(icon).as_str());
        r.append(" ");
        r.append(decimal_text(duration_ms as u64).as_str());
        r.append(" ");
        r.append(color);
        r.append(" ");
        r.append(message);
        r
    }

    /// The text that is sent to show `note`.
    pub fn notification(&self, note: &Notification) -> (r: String)
        ensures
            r@ == notify_command(icon_of(note@.kind), note@.duration_ms, note@.color, note@.text),
    {
        self.notify(icon_for(note.kind), note.duration_ms, note.color.as_str(), note.text.as_str())
    }
}

} // verus!
