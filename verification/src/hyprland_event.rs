//! The events of the compositor: the lines of its event socket, read as
//! events, and what follows when the stream of lines breaks off.

use vstd::prelude::*;
use vstd::string::*;
use crate::debounce::RECONNECT_DELAY_MS;
use crate::error::{Error, ErrorKind, ErrorView};
use crate::hyprland_ipc::{event_socket, opt_str};
use crate::text::{compare_text, join_path};

verus! {

/// The character is white space.
pub open spec fn is_space(c: char) -> bool {
    let n = c as u32;
    (0x9 <= n <= 0xd) || n == 0x20 || n == 0x85 || n == 0xa0 || n == 0x1680 || (0x2000 <= n
        <= 0x200a) || n == 0x2028 || n == 0x2029 || n == 0x202f || n == 0x205f || n == 0x3000
}

/// The number of white space characters with which `s` starts.
pub open spec fn leading(s: Seq<char>) -> int
    decreases s.len(),
{
    if s.len() == 0 {
        0
    } else if is_space(s[0]) {
        1 + leading(s.drop_first())
    } else {
        0
    }
}

/// The place after the last character of `s` that is no white space, or 0
/// where there is none.
pub open spec fn trailing(s: Seq<char>) -> int
    decreases s.len(),
{
    if s.len() == 0 {
        0
    } else if is_space(s.last()) {
        trailing(s.drop_last())
    } else {
        s.len() as int
    }
}

/// `s` without the white space at its start and at its end.
pub open spec fn trimmed(s: Seq<char>) -> Seq<char> {
    if leading(s) >= trailing(s) {
        Seq::empty()
    } else {
        s.subrange(leading(s), trailing(s))
    }
}

/// The place of the first `c` in `s`, or the length of `s` where it holds
/// none.
pub open spec fn index_of(s: Seq<char>, c: char) -> int
    decreases s.len(),
{
    if s.len() == 0 {
        0
    } else if s[0] == c {
        0
    } else {
        1 + index_of(s.drop_first(), c)
    }
}

/// The place of the first `>>` in `s`, or the length of `s` where it holds
/// none.
pub open spec fn index_of_mark(s: Seq<char>) -> int
    decreases s.len(),
{
    if s.len() < 2 {
        s.len() as int
    } else if s[0] == '>' && s[1] == '>' {
        0
    } else {
        1 + index_of_mark(s.drop_first())
    }
}

proof fn lemma_leading(s: Seq<char>, i: int)
    requires
        0 <= i <= s.len(),
        forall|k: int| 0 <= k < i ==> is_space(#[trigger] s[k]),
        i == s.len() || !is_space(s[i]),
    ensures
        leading(s) == i,
    decreases s.len(),
{
    if i > 0 {
        let t = s.drop_first();
        assert forall|k: int| 0 <= k < i - 1 implies is_space(#[trigger] t[k]) by {
            assert(t[k] == s[k + 1]);
        }
        lemma_leading(t, i - 1);
    }
}

proof fn lemma_trailing(s: Seq<char>, j: int)
    requires
        0 <= j <= s.len(),
        forall|k: int| j <= k < s.len() ==> is_space(#[trigger] s[k]),
        j == 0 || !is_space(s[j - 1]),
    ensures
        trailing(s) == j,
    decreases s.len(),
{
    if j < s.len() {
        lemma_trailing(s.drop_last(), j);
    }
}

proof fn lemma_index_of(s: Seq<char>, c: char, i: int)
    requires
        0 <= i <= s.len(),
        forall|k: int| 0 <= k < i ==> #[trigger] s[k] != c,
        i == s.len() || s[i] == c,
    ensures
        index_of(s, c) == i,
    decreases s.len(),
{
    if i > 0 {
        let t = s.drop_first();
        assert forall|k: int| 0 <= k < i - 1 implies #[trigger] t[k] != c by {
            assert(t[k] == s[k + 1]);
        }
        lemma_index_of(t, c, i - 1);
    }
}

/// `>>` starts at place `k` of `s`.
pub open spec fn mark_at(s: Seq<char>, k: int) -> bool {
    0 <= k && k + 1 < s.len() && s[k] == '>' && s[k + 1] == '>'
}

proof fn lemma_index_of_mark(s: Seq<char>, i: int)
    requires
        0 <= i <= s.len(),
        forall|k: int| 0 <= k < i ==> !#[trigger] mark_at(s, k),
        mark_at(s, i) || (i == s.len() && forall|k: int| 0 <= k ==> !#[trigger] mark_at(s, k)),
    ensures
        index_of_mark(s) == i,
    decreases s.len(),
{
    if s.len() < 2 {
        assert(!mark_at(s, i));
    } else if i > 0 {
        let t = s.drop_first();
        assert(!mark_at(s, 0));
        assert forall|k: int| 0 <= k < i - 1 implies !#[trigger] mark_at(t, k) by {
            assert(!mark_at(s, k + 1));
        }
        if mark_at(s, i) {
            assert(mark_at(t, i - 1));
        } else {
            assert forall|k: int| 0 <= k implies !#[trigger] mark_at(t, k) by {
                assert(!mark_at(s, k + 1));
            }
        }
        lemma_index_of_mark(t, i - 1);
    } else {
        assert(mark_at(s, 0));
    }
}

fn is_space_char(c: char) -> (r: bool)
    ensures
        r == is_space(c),
{
    let n: u32 = c as u32;
    (0x9 <= n && n <= 0xd) || n == 0x20 || n == 0x85 || n == 0xa0 || n == 0x1680 || (0x2000 <= n
        && n <= 0x200a) || n == 0x2028 || n == 0x2029 || n == 0x202f || n == 0x205f || n == 0x3000
}

/// `s` without the white space at its start and at its end.
pub fn trim(s: &str) -> (r: &str)
    ensures
        r@ == trimmed(s@),
{
    let n: usize = s.unicode_len();
    let mut i: usize = 0;
    while i < n && is_space_char(s.get_char(i))
        invariant
            i <= n,
            n == s@.len(),
            forall|k: int| 0 <= k < i ==> is_space(#[trigger] s@[k]),
        decreases n - i,
    {
        i = i + 1;
    }
    let mut j: usize = n;
    while j > i && is_space_char(s.get_char(j - 1))
        invariant
            i <= j <= n,
            n == s@.len(),
            forall|k: int| j <= k < n ==> is_space(#[trigger] s@[k]),
        decreases j,
    {
        j = j - 1;
    }
    proof {
        lemma_leading(s@, i as int);
        if i < n {
            lemma_trailing(s@, j as int);
        } else {
            lemma_trailing_bound(s@);
        }
    }
    let r = s.substring_char(i, j);
    assert(r@ =~= trimmed(s@));
    r
}

proof fn lemma_trailing_bound(s: Seq<char>)
    ensures
        0 <= trailing(s) <= s.len(),
    decreases s.len(),
{
    if s.len() > 0 && is_space(s.last()) {
        lemma_trailing_bound(s.drop_last());
    }
}

fn find_char(s: &str, c: char) -> (r: usize)
    ensures
        r == index_of(s@, c),
        r <= s@.len(),
{
    let n: usize = s.unicode_len();
    let mut i: usize = 0;
    while i < n && s.get_char(i) != c
        invariant
            i <= n,
            n == s@.len(),
            forall|k: int| 0 <= k < i ==> #[trigger] s@[k] != c,
        decreases n - i,
    {
        i = i + 1;
    }
    proof {
        lemma_index_of(s@, c, i as int);
    }
    i
}

fn find_mark(s: &str) -> (r: usize)
    ensures
        r == index_of_mark(s@),
        r == s@.len() || r + 2 <= s@.len(),
{
    let n: usize = s.unicode_len();
    if n < 2 {
        proof {
            assert forall|k: int| 0 <= k implies !#[trigger] mark_at(s@, k) by {}
            lemma_index_of_mark(s@, n as int);
        }
        return n;
    }
    let mut i: usize = 0;
    while i + 1 < n
        invariant
            i + 1 <= n,
            n >= 2,
            n == s@.len(),
            forall|k: int| 0 <= k < i ==> !#[trigger] mark_at(s@, k),
        decreases n - i,
    {
        if s.get_char(i) == '>' && s.get_char(i + 1) == '>' {
            proof {
                assert(mark_at(s@, i as int));
                lemma_index_of_mark(s@, i as int);
            }
            return i;
        }
        i = i + 1;
    }
    proof {
        assert forall|k: int| 0 <= k implies !#[trigger] mark_at(s@, k) by {}
        assert forall|k: int| 0 <= k < n implies !#[trigger] mark_at(s@, k) by {}
        lemma_index_of_mark(s@, n as int);
    }
    n
}

/// What the compositor reports.
#[derive(Debug, PartialEq, Eq)]
pub enum HyprlandEvent {
    MonitorAdded { id: String, name: String, description: String },
    MonitorRemoved { id: String, name: String, description: String },
    Workspace { id: String, name: String },
    FocusedMon { monitor: String, workspace: String },
    /// A line that is none of these, as it was read.
    Other(String),
}

/// An event, as values.
pub enum HyprlandEventView {
    MonitorAdded { id: Seq<char>, name: Seq<char>, description: Seq<char> },
    MonitorRemoved { id: Seq<char>, name: Seq<char>, description: Seq<char> },
    Workspace { id: Seq<char>, name: Seq<char> },
    FocusedMon { monitor: Seq<char>, workspace: Seq<char> },
    Other(Seq<char>),
}

impl View for HyprlandEvent {
    type V = HyprlandEventView;

    open spec fn view(&self) -> HyprlandEventView {
        match *self {
            HyprlandEvent::MonitorAdded { id, name, description } => {
                HyprlandEventView::MonitorAdded { id: id@, name: name@, description: description@ }
            },
            HyprlandEvent::MonitorRemoved { id, name, description } => {
                HyprlandEventView::MonitorRemoved {
                    id: id@,
                    name: name@,
                    description: description@,
                }
            },
            HyprlandEvent::Workspace { id, name } => HyprlandEventView::Workspace {
                id: id@,
                name: name@,
            },
            HyprlandEvent::FocusedMon { monitor, workspace } => HyprlandEventView::FocusedMon {
                monitor: monitor@,
                workspace: workspace@,
            },
            HyprlandEvent::Other(line) => HyprlandEventView::Other(line@),
        }
    }
}

/// The first field of `data`, which ends at its first comma, where `data`
/// holds a comma.
pub open spec fn first_field(data: Seq<char>) -> Seq<char> {
    data.take(index_of(data, ','))
}

/// What follows the first comma of `data`.
pub open spec fn after_first(data: Seq<char>) -> Seq<char> {
    data.skip(index_of(data, ',') + 1)
}

/// Whether `data` holds a comma.
pub open spec fn has_comma(data: Seq<char>) -> bool {
    index_of(data, ',') < data.len()
}

/// The event that a line of the event socket stands for. The line, without
/// the white space around it, holds a kind, `>>` and the data of the event,
/// whose fields commas divide. A monitor that was added or removed has
/// three fields, the last of which may hold commas itself; a workspace and a
/// focus have two, and what follows a second comma is left out. A line of
/// another kind, or with too few fields, stands for itself.
pub open spec fn parsed(line: Seq<char>) -> HyprlandEventView {
    let t = trimmed(line);
    let m = index_of_mark(t);
    if m == t.len() {
        HyprlandEventView::Other(t)
    } else {
        let kind = t.take(m);
        let data = t.skip(m + 2);
        let rest = after_first(data);
        if kind == "monitoraddedv2"@ && has_comma(data) && has_comma(rest) {
            HyprlandEventView::MonitorAdded {
                id: first_field(data),
                name: first_field(rest),
                description: after_first(rest),
            }
        } else if kind == "monitorremovedv2"@ && has_comma(data) && has_comma(rest) {
            HyprlandEventView::MonitorRemoved {
                id: first_field(data),
                name: first_field(rest),
                description: after_first(rest),
            }
        } else if kind == "workspacev2"@ && has_comma(data) {
            HyprlandEventView::Workspace { id: first_field(data), name: first_field(rest) }
        } else if kind == "focusedmon"@ && has_comma(data) {
            HyprlandEventView::FocusedMon {
                monitor: first_field(data),
                workspace: first_field(rest),
            }
        } else {
            HyprlandEventView::Other(t)
        }
    }
}

/// Whether an event tells of a monitor that was added or removed.
pub open spec fn is_monitor_change(e: HyprlandEventView) -> bool {
    e is MonitorAdded || e is MonitorRemoved
}

/// What is done after an attempt to read the next event.
#[derive(Debug, PartialEq, Eq)]
pub enum StreamStep {
    /// Hand the event on and read the next.
    Deliver { event: HyprlandEvent },
    /// Open the stream again after `after_ms` milliseconds.
    Reconnect { after_ms: u64 },
}

impl HyprlandEvent {
    /// The event that `line` stands for: see [`parsed`].
    pub fn parse_event(line: &str) -> (r: HyprlandEvent)
        ensures
            r@ == parsed(line@),
    {
        let t = trim(line);
        let n: usize = t.unicode_len();
        let m: usize = find_mark(t);
        if m == n {
            return HyprlandEvent::Other(String::from_str(t));
        }
        let kind = t.substring_char(0, m);
        let data = t.substring_char(m + 2, n);
        assert(kind@ =~= t@.take(m as int));
        assert(data@ =~= t@.skip(m + 2));
        let dn: usize = data.unicode_len();
        let c1: usize = find_char(data, ',');
        if c1 == dn {
            return HyprlandEvent::Other(String::from_str(t));
        }
        let first = data.substring_char(0, c1);
        let rest = data.substring_char(c1 + 1, dn);
        assert(first@ =~= first_field(data@));
        assert(rest@ =~= after_first(data@));
        let rn: usize = rest.unicode_len();
        let c2: usize = find_char(rest, ',');
        let second = rest.substring_char(0, c2);
        assert(second@ =~= first_field(rest@));
        let added = compare_text(kind, "monitoraddedv2") == 0;
        let removed = compare_text(kind, "monitorremovedv2") == 0;
        proof {
            reveal_strlit("monitoraddedv2");
            reveal_strlit("monitorremovedv2");
            reveal_strlit("workspacev2");
            reveal_strlit("focusedmon");
        }
        if added || removed {
            if c2 == rn {
                return HyprlandEvent::Other(String::from_str(t));
            }
            let third = rest.substring_char(c2 + 1, rn);
            assert(third@ =~= after_first(rest@));
            if added {
                HyprlandEvent::MonitorAdded {
                    id: String::from_str(first),
                    name: String::from_str(second),
                    description: String::from_str(third),
                }
            } else {
                HyprlandEvent::MonitorRemoved {
                    id: String::from_str(first),
                    name: String::from_str(second),
                    description: String::from_str(third),
                }
            }
        } else if compare_text(kind, "workspacev2") == 0 {
            HyprlandEvent::Workspace { id: String::from_str(first), name: String::from_str(second) }
        } else if compare_text(kind, "focusedmon") == 0 {
            HyprlandEvent::FocusedMon {
                monitor: String::from_str(first),
                workspace: String::from_str(second),
            }
        } else {
            HyprlandEvent::Other(String::from_str(t))
        }
    }

    /// The event of a line that was read: none where nothing was read,
    /// which is the end of the stream.
    pub fn next_event(bytes_read: usize, line: &str) -> (r: Option<HyprlandEvent>)
        ensures
            r is Some <==> bytes_read != 0,
            r is Some ==> r->0@ == parsed(line@),
    {
        if bytes_read == 0 {
            None
        } else {
            Some(HyprlandEvent::parse_event(line))
        }
    }

    /// Whether the event tells of a monitor that was added or removed.
    pub fn is_monitor_change(&self) -> (r: bool)
        ensures
            r == is_monitor_change(self@),
    {
        match self {
            HyprlandEvent::MonitorAdded { .. } => true,
            HyprlandEvent::MonitorRemoved { .. } => true,
            _ => false,
        }
    }
}

/// What is done after an attempt to read the next event: an event is
/// handed on; at the end of the stream, and after a failure to read, the
/// stream is opened again after a fixed delay.
pub fn monitor_events(read: Result<Option<HyprlandEvent>, String>) -> (r: StreamStep)
    ensures
        match read {
            Ok(Some(event)) => r == (StreamStep::Deliver { event }),
            _ => r == (StreamStep::Reconnect { after_ms: RECONNECT_DELAY_MS }),
        },
{
    match read {
        Ok(Some(event)) => StreamStep::Deliver { event },
        _ => StreamStep::Reconnect { after_ms: RECONNECT_DELAY_MS },
    }
}

/// The directory of the sockets where the environment names none.
pub open spec fn fallback_dir() -> Seq<char> {
    "/run/user/1000"@
}

/// The failure for a session without a compositor instance.
pub open spec fn no_signature() -> ErrorView {
    ErrorView {
        kind: ErrorKind::ExternalGatewayFailure,
        message: "HYPRLAND_INSTANCE_SIGNATURE not set"@,
    }
}

/// The event socket of the compositor instance that the environment names
/// by `signature`, below the directory that it names for the user's
/// sockets. Fails where it names no instance.
pub fn socket2_path(signature: Option<&str>, named_dir: Option<&str>) -> (r: Result<String, Error>)
    ensures
        r is Ok <==> signature is Some,
        r is Ok ==> r->Ok_0@ == event_socket(
            match opt_str(named_dir) {
                Some(d) => d,
                None => fallback_dir(),
            },
            signature->0@,
        ),
        r is Err ==> r->Err_0@ == no_signature(),
{
    match signature {
        None => Err(
            Error::new(
                ErrorKind::ExternalGatewayFailure,
                String::from_str("HYPRLAND_INSTANCE_SIGNATURE not set"),
            ),
        ),
        Some(his) => {
            let dir = match named_dir {
                Some(d) => d,
                None => "/run/user/1000",
            };
            let a = join_path(dir, "hypr");
            let b = join_path(a.as_str(), his);
            Ok(join_path(b.as_str(), ".socket2.sock"))
        },
    }
}

} // verus!
