//! The local channel: where its socket lies, how the service comes to
//! listen on it, and the course of one connection.

use vstd::prelude::*;
use vstd::string::*;
use crate::error::{Error, ErrorKind, ErrorView};
use crate::hyprland_ipc::{opt_str, runtime_dir, runtime_dir_of};
use crate::text::{join_path, joined};

verus! {

/// The bytes that are read of a request at most.
pub const READ_BUFFER_SIZE: usize = 8192;

/// The access rights of the socket: the owner reads and writes, nobody else
/// does anything.
pub const SOCKET_MODE: u32 = 0o600;

/// The descriptor under which a supervisor hands over a socket that it has
/// opened.
pub const PASSED_DESCRIPTOR: i32 = 3;

/// The socket of the service below the directory of the user's sockets.
pub open spec fn socket_path_of(named: Option<Seq<char>>, uid: u32) -> Seq<char> {
    joined(runtime_dir_of(named, uid), "swww-manager.sock"@)
}

/// The socket of the service: below the directory that the environment
/// names for the user's sockets, or below the one of the user `uid` where it
/// names none.
pub fn socket_path(named_dir: Option<&str>, uid: u32) -> (r: String)
    ensures
        r@ == socket_path_of(opt_str(named_dir), uid),
{
    let dir = runtime_dir(named_dir, uid);
    join_path(dir.as_str(), "swww-manager.sock")
}

/// The socket of the service for the user who runs the process.
pub fn own_socket_path(named_dir: Option<&str>) -> (r: String)
    ensures
        exists|uid: u32| r@ == #[trigger] socket_path_of(opt_str(named_dir), uid),
{
    let uid = crate::hyprland_ipc::current_uid();
    let r = socket_path(named_dir, uid);
    assert(r@ == socket_path_of(opt_str(named_dir), uid));
    r
}

/// Whether the service listens on a socket that a supervisor has opened
/// for it: the supervisor names this process and passes one descriptor at
/// least.
pub open spec fn is_handed_over(listen_pid: Option<u32>, listen_fds: Option<i32>, own_pid: u32)
    -> bool {
    listen_pid == Some(own_pid) && listen_fds is Some && listen_fds->0 > 0
}

/// Whether the service listens on a socket that a supervisor has opened for
/// it.
pub fn adopts_listener(listen_pid: Option<u32>, listen_fds: Option<i32>, own_pid: u32) -> (r: bool)
    ensures
        r == is_handed_over(listen_pid, listen_fds, own_pid),
{
    match (listen_pid, listen_fds) {
        (Some(pid), Some(fds)) => pid == own_pid && fds > 0,
        _ => false,
    }
}

/// How the service comes to a socket of its own.
#[derive(Clone, Copy, Debug, PartialEq, Eq, Structural)]
pub enum Binding {
    /// Nothing is in the way: bind.
    Bind,
    /// What is in the way is left over from an earlier run: remove it, then
    /// bind.
    RemoveStaleThenBind,
    /// A service answers on the socket: do not start.
    Refuse,
}

/// How the service comes to a socket of its own, where something is or is
/// not at the socket's path already and, if so, something does or does not
/// answer there.
pub open spec fn binding_for(exists: bool, answers: bool) -> Binding {
    if !exists {
        Binding::Bind
    } else if answers {
        Binding::Refuse
    } else {
        Binding::RemoveStaleThenBind
    }
}

/// How the service comes to a socket of its own.
pub fn plan_binding(exists: bool, answers: bool) -> (r: Binding)
    ensures
        r == binding_for(exists, answers),
{
    if !exists {
        Binding::Bind
    } else if answers {
        Binding::Refuse
    } else {
        Binding::RemoveStaleThenBind
    }
}

/// What is in the way is removed only where nothing answers there.
pub proof fn law_only_stale_sockets_are_removed(exists: bool, answers: bool)
    ensures
        binding_for(exists, answers) == Binding::RemoveStaleThenBind <==> (exists && !answers),
        binding_for(exists, answers) == Binding::Refuse <==> (exists && answers),
{
}

/// Where a connection stands.
#[derive(Clone, Copy, Debug, PartialEq, Eq, Structural)]
pub enum Connection {
    Idle,
    Reading,
    Decoding,
    Dispatching,
    Responding,
    Closed,
}

/// What happened on a connection.
#[derive(Debug, PartialEq, Eq)]
pub enum ConnectionEvent {
    /// The connection was accepted.
    Accepted,
    /// So many bytes were read, or reading failed.
    Read { bytes: Result<usize, String> },
    /// The bytes were a request, or were not for the reason given.
    Decoded { request: Result<(), String> },
    /// The request was answered.
    Dispatched,
    /// The response was written, or writing failed.
    Written { done: Result<(), String> },
}

/// What happened on a connection, as values.
pub enum ConnectionEventView {
    Accepted,
    Read { bytes: Result<usize, Seq<char>> },
    Decoded { request: Result<(), Seq<char>> },
    Dispatched,
    Written { done: Result<(), Seq<char>> },
}

impl View for ConnectionEvent {
    type V = ConnectionEventView;

    open spec fn view(&self) -> ConnectionEventView {
        match *self {
            ConnectionEvent::Accepted => ConnectionEventView::Accepted,
            ConnectionEvent::Read { bytes } => ConnectionEventView::Read {
                bytes: match bytes {
                    Ok(n) => Ok(n),
                    Err(e) => Err(e@),
                },
            },
            ConnectionEvent::Decoded { request } => ConnectionEventView::Decoded {
                request: match request {
                    Ok(u) => Ok(()),
                    Err(e) => Err(e@),
                },
            },
            ConnectionEvent::Dispatched => ConnectionEventView::Dispatched,
            ConnectionEvent::Written { done } => ConnectionEventView::Written {
                done: match done {
                    Ok(u) => Ok(()),
                    Err(e) => Err(e@),
                },
            },
        }
    }
}

/// What is done next on a connection.
#[derive(Debug, PartialEq, Eq)]
pub enum ConnectionStep {
    /// Read up to `capacity` bytes.
    Read { capacity: usize },
    /// Decode the first `len` bytes that were read.
    Decode { len: usize },
    /// Answer the request.
    Dispatch,
    /// Write the response.
    Write,
    /// Close the connection; `failure` is what went wrong, if anything did.
    Close { failure: Option<Error> },
}

/// What is done next on a connection, as values.
pub enum ConnectionStepView {
    Read { capacity: usize },
    Decode { len: usize },
    Dispatch,
    Write,
    Close { failure: Option<ErrorView> },
}

impl View for ConnectionStep {
    type V = ConnectionStepView;

    open spec fn view(&self) -> ConnectionStepView {
        match *self {
            ConnectionStep::Read { capacity } => ConnectionStepView::Read { capacity },
            ConnectionStep::Decode { len } => ConnectionStepView::Decode { len },
            ConnectionStep::Dispatch => ConnectionStepView::Dispatch,
            ConnectionStep::Write => ConnectionStepView::Write,
            ConnectionStep::Close { failure } => ConnectionStepView::Close {
                failure: match failure {
                    Some(e) => Some(e@),
                    None => None,
                },
            },
        }
    }
}

/// The end of a connection in a failure.
pub open spec fn broken(kind: ErrorKind, message: Seq<char>) -> (Connection, ConnectionStepView) {
    (
        Connection::Closed,
        ConnectionStepView::Close { failure: Some(ErrorView { kind, message }) },
    )
}

/// The course of a connection: it is read once, what was read is decoded,
/// the request is answered, the response is written, and the connection is
/// closed. A peer that sends nothing is let go without a failure. Bytes
/// that are no request end the connection in a failure, and so does what
/// does not belong where the connection stands.
pub open spec fn advanced(c: Connection, event: ConnectionEventView) -> (
    Connection,
    ConnectionStepView,
) {
    match (c, event) {
        (Connection::Idle, ConnectionEventView::Accepted) => (
            Connection::Reading,
            ConnectionStepView::Read { capacity: READ_BUFFER_SIZE },
        ),
        (Connection::Reading, ConnectionEventView::Read { bytes }) => match bytes {
            Ok(n) => if n == 0 {
                (Connection::Closed, ConnectionStepView::Close { failure: None })
            } else {
                (
                    Connection::Decoding,
                    ConnectionStepView::Decode {
                        len: if n <= READ_BUFFER_SIZE {
                            n
                        } else {
                            READ_BUFFER_SIZE
                        },
                    },
                )
            },
            Err(e) => broken(ErrorKind::Disconnected, "Read error: "@ + e),
        },
        (Connection::Decoding, ConnectionEventView::Decoded { request }) => match request {
            Ok(u) => (Connection::Dispatching, ConnectionStepView::Dispatch),
            Err(e) => broken(ErrorKind::ProtocolDecodeError, "Failed to parse request JSON: "@ + e),
        },
        (Connection::Dispatching, ConnectionEventView::Dispatched) => (
            Connection::Responding,
            ConnectionStepView::Write,
        ),
        (Connection::Responding, ConnectionEventView::Written { done }) => match done {
            Ok(u) => (Connection::Closed, ConnectionStepView::Close { failure: None }),
            Err(e) => broken(ErrorKind::Disconnected, "Failed to write response: "@ + e),
        },
        _ => broken(ErrorKind::ProtocolDecodeError, "Unexpected event"@),
    }
}

fn fail(kind: ErrorKind, prefix: &str, detail: &str) -> (r: (Connection, ConnectionStep))
    ensures
        (r.0, r.1@) == broken(kind, prefix@ + detail@),
{
    let mut message = String::from_str(prefix);
    message.append(detail);
    (Connection::Closed, ConnectionStep::Close { failure: Some(Error::new(kind, message)) })
}

/// The next step of a connection that stands at `c`: see [`advanced`].
pub fn handle_client(c: Connection, event: ConnectionEvent) -> (r: (Connection, ConnectionStep))
    ensures
        (r.0, r.1@) == advanced(c, event@),
{
    match (c, event) {
        (Connection::Idle, ConnectionEvent::Accepted) => (
            Connection::Reading,
            ConnectionStep::Read { capacity: READ_BUFFER_SIZE },
        ),
        (Connection::Reading, ConnectionEvent::Read { bytes }) => match bytes {
            Ok(n) => {
                if n == 0 {
                    (Connection::Closed, ConnectionStep::Close { failure: None })
                } else {
                    (
                        Connection::Decoding,
                        ConnectionStep::Decode {
                            len: if n <= READ_BUFFER_SIZE {
                                n
                            } else {
                                READ_BUFFER_SIZE
                            },
                        },
                    )
                }
            },
            Err(e) => fail(ErrorKind::Disconnected, "Read error: ", e.as_str()),
        },
        (Connection::Decoding, ConnectionEvent::Decoded { request }) => match request {
            Ok(u) => (Connection::Dispatching, ConnectionStep::Dispatch),
            Err(e) => fail(
                ErrorKind::ProtocolDecodeError,
                "Failed to parse request JSON: ",
                e.as_str(),
            ),
        },
        (Connection::Dispatching, ConnectionEvent::Dispatched) => (
            Connection::Responding,
            ConnectionStep::Write,
        ),
        (Connection::Responding, ConnectionEvent::Written { done }) => match done {
            Ok(u) => (Connection::Closed, ConnectionStep::Close { failure: None }),
            Err(e) => fail(ErrorKind::Disconnected, "Failed to write response: ", e.as_str()),
        },
        _ => (
            Connection::Closed,
            ConnectionStep::Close {
                failure: Some(
                    Error::new(ErrorKind::ProtocolDecodeError, String::from_str("Unexpected event")),
                ),
            },
        ),
    }
}

/// The steps that a connection still takes at most.
pub open spec fn steps_to_close(c: Connection) -> nat {
    match c {
        Connection::Idle => 5,
        Connection::Reading => 4,
        Connection::Decoding => 3,
        Connection::Dispatching => 2,
        Connection::Responding => 1,
        Connection::Closed => 0,
    }
}

/// Every connection is closed: each step brings a connection that is open
/// closer to its end, and the connection is closed exactly when the step
/// says so.
pub proof fn law_connection_closes(c: Connection, event: ConnectionEventView)
    requires
        c != Connection::Closed,
    ensures
        steps_to_close(advanced(c, event).0) < steps_to_close(c),
        advanced(c, event).0 == Connection::Closed <==> advanced(c, event).1 is Close,
{
}

/// A peer that sends nothing is let go without a failure, and nothing is
/// decoded or answered.
pub proof fn law_silent_peer(event: ConnectionEventView)
    requires
        event == (ConnectionEventView::Read { bytes: Ok(0) }),
    ensures
        advanced(Connection::Reading, event) == (
            Connection::Closed,
            ConnectionStepView::Close { failure: None },
        ),
{
}

/// The response is written only after the request was answered, and the
/// request is answered only after it was decoded.
pub proof fn law_order_of_a_connection(c: Connection, event: ConnectionEventView)
    ensures
        advanced(c, event).1 is Write ==> c == Connection::Dispatching && event is Dispatched,
        advanced(c, event).1 is Dispatch ==> c == Connection::Decoding && event is Decoded,
        advanced(c, event).1 is Decode ==> c == Connection::Reading && event is Read,
{
}

} // verus!
