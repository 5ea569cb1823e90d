//! The monitors that are attached: which of a listing count, which one has
//! the focus, and when a series of readings has settled.

use vstd::prelude::*;
use vstd::string::*;
use crate::error::{Error, ErrorKind, ErrorView};
use crate::hyprland_ipc::{HyprlandIPC, Monitor, MonitorView, monitor_views};
use crate::text::{clone_texts, contains_text, in_order, same_texts, sort_texts, texts};

verus! {

/// The monitors of `s` that are powered and have a picture, in their order.
pub open spec fn active_monitors(s: Seq<MonitorView>) -> Seq<MonitorView>
    decreases s.len(),
{
    if s.len() == 0 {
        Seq::empty()
    } else if s.last().is_active() {
        active_monitors(s.drop_last()).push(s.last())
    } else {
        active_monitors(s.drop_last())
    }
}

/// The names of the monitors of `s`, in their order.
pub open spec fn names_of(s: Seq<MonitorView>) -> Seq<Seq<char>> {
    Seq::new(s.len(), |i: int| s[i].name)
}

/// The place of the first monitor of `s` that has the focus, or the length
/// of `s` where none has it.
pub open spec fn first_focused(s: Seq<MonitorView>) -> int
    decreases s.len(),
{
    if s.len() == 0 {
        0
    } else if s[0].focused {
        0
    } else {
        1 + first_focused(s.drop_first())
    }
}

/// `first_focused` is the least place of a monitor that has the focus.
pub proof fn lemma_first_focused(s: Seq<MonitorView>)
    ensures
        0 <= first_focused(s) <= s.len(),
        forall|k: int| 0 <= k < first_focused(s) ==> !(#[trigger] s[k]).focused,
        first_focused(s) < s.len() ==> s[first_focused(s)].focused,
    decreases s.len(),
{
    if s.len() > 0 && !s[0].focused {
        let t = s.drop_first();
        lemma_first_focused(t);
        assert forall|k: int| 0 <= k < first_focused(s) implies !(#[trigger] s[k]).focused by {
            if k > 0 {
                assert(s[k] == t[k - 1]);
            }
        }
        if first_focused(s) < s.len() {
            assert(s[first_focused(s)] == t[first_focused(t)]);
        }
    }
}

/// The failure for a session in which the compositor cannot be reached.
pub open spec fn no_compositor() -> ErrorView {
    ErrorView {
        kind: ErrorKind::ExternalGatewayFailure,
        message: "Hyprland IPC not available"@,
    }
}

/// The failure for a listing in which no monitor has the focus.
pub open spec fn no_focus() -> ErrorView {
    ErrorView {
        kind: ErrorKind::ExternalGatewayFailure,
        message: "No focused monitor found"@,
    }
}

fn unreachable_compositor() -> (r: Error)
    ensures
        r@ == no_compositor(),
{
    Error::new(ErrorKind::ExternalGatewayFailure, String::from_str("Hyprland IPC not available"))
}

/// What is known of the compositor's command socket.
#[derive(Debug, PartialEq, Eq)]
pub struct MonitorManager {
    ipc: Option<HyprlandIPC>,
}

impl View for MonitorManager {
    type V = Option<Seq<char>>;

    closed spec fn view(&self) -> Option<Seq<char>> {
        match self.ipc {
            Some(ipc) => Some(ipc@),
            None => None,
        }
    }
}

impl Clone for MonitorManager {
    fn clone(&self) -> (r: Self)
        ensures
            r@ == self@,
    {
        MonitorManager {
            ipc: match &self.ipc {
                Some(ipc) => Some(ipc.clone()),
                None => None,
            },
        }
    }
}

impl MonitorManager {
    /// A manager for the command socket `ipc`, or for none where the socket
    /// could not be made out: monitors are then not detected.
    pub fn new(ipc: Result<HyprlandIPC, Error>) -> (r: Self)
        ensures
            r@ == (match ipc {
                Ok(i) => Some(i@),
                Err(e) => None,
            }),
    {
        MonitorManager {
            ipc: match ipc {
                Ok(i) => Some(i),
                Err(e) => None,
            },
        }
    }

    /// The command socket, where one is known.
    pub fn ipc(&self) -> (r: Option<&HyprlandIPC>)
        ensures
            match r {
                Some(i) => Some(i@),
                None => None,
            } == self@,
    {
        self.ipc.as_ref()
    }

    /// The monitors of the listing `listed` that count: those that are
    /// powered and have a picture. Fails where no command socket is known.
    pub fn get_monitor_details(&self, listed: &[Monitor]) -> (r: Result<Vec<Monitor>, Error>)
        ensures
            r is Ok <==> self@ is Some,
            r is Ok ==> monitor_views(r->Ok_0@) == active_monitors(monitor_views(listed@)),
            r is Err ==> r->Err_0@ == no_compositor(),
    {
        if self.ipc.is_none() {
            return Err(unreachable_compositor());
        }
        let ghost all = monitor_views(listed@);
        let mut out: Vec<Monitor> = Vec::new();
        let mut i: usize = 0;
        assert(monitor_views(out@) =~= active_monitors(all.take(0)));
        while i < listed.len()
            invariant
                i <= listed.len(),
                all == monitor_views(listed@),
                monitor_views(out@) == active_monitors(all.take(i as int)),
            decreases listed.len() - i,
        {
            let m = &listed[i];
            let ghost before = monitor_views(out@);
            proof {
                assert(all.take(i + 1).drop_last() =~= all.take(i as int));
                assert(all.take(i + 1).last() == m@);
            }
            if m.enabled && m.width > 0 && m.height > 0 {
                out.push(m.clone());
                assert(monitor_views(out@) =~= before.push(m@));
            }
            i = i + 1;
        }
        assert(all.take(listed.len() as int) =~= all);
        Ok(out)
    }

    /// The names of the monitors of the listing `listed` that count. Fails
    /// where no command socket is known.
    pub fn get_monitors(&self, listed: &[Monitor]) -> (r: Result<Vec<String>, Error>)
        ensures
            r is Ok <==> self@ is Some,
            r is Ok ==> texts(r->Ok_0@) == names_of(active_monitors(monitor_views(listed@))),
            r is Err ==> r->Err_0@ == no_compositor(),
    {
        match self.get_monitor_details(listed) {
            Err(e) => Err(e),
            Ok(active) => {
                let mut names: Vec<String> = Vec::new();
                let mut i: usize = 0;
                while i < active.len()
                    invariant
                        i <= active.len(),
                        names.len() == i,
                        forall|k: int| 0 <= k < i ==> names@[k]@ == active@[k]@.name,
                    decreases active.len() - i,
                {
                    names.push(active[i].name.clone());
                    i = i + 1;
                }
                assert(texts(names@) =~= names_of(monitor_views(active@)));
                Ok(names)
            },
        }
    }

    /// The name of the first monitor of the listing `listed` that has the
    /// focus. Fails where no command socket is known or no monitor has the
    /// focus.
    pub fn get_focused_monitor(&self, listed: &[Monitor]) -> (r: Result<String, Error>)
        ensures
            r is Ok <==> (self@ is Some && first_focused(monitor_views(listed@)) < listed@.len()),
            r is Ok ==> r->Ok_0@ == listed@[first_focused(monitor_views(listed@))]@.name,
            r is Err ==> r->Err_0@ == (if self@ is Some {
                no_focus()
            } else {
                no_compositor()
            }),
    {
        if self.ipc.is_none() {
            return Err(unreachable_compositor());
        }
        let ghost all = monitor_views(listed@);
        let mut i: usize = 0;
        while i < listed.len()
            invariant
                i <= listed.len(),
                self@ is Some,
                all == monitor_views(listed@),
                forall|k: int| 0 <= k < i ==> !(#[trigger] all[k]).focused,
            decreases listed.len() - i,
        {
            if listed[i].focused {
                proof {
                    lemma_first_focused(all);
                    assert(all[i as int] == listed@[i as int]@);
                    assert(all[i as int].focused);
                    assert(first_focused(all) == i);
                }
                return Ok(listed[i].name.clone());
            }
            i = i + 1;
        }
        proof {
            lemma_first_focused(all);
        }
        Err(
            Error::new(
                ErrorKind::ExternalGatewayFailure,
                String::from_str("No focused monitor found"),
            ),
        )
    }

    /// A sampler by which the monitors are read until they have settled.
    pub fn get_stable_monitors(&self) -> (r: StableSampler)
        ensures
            r@ == unread(),
    {
        StableSampler::new()
    }
}

/// The milliseconds between two readings of the monitors.
pub const SAMPLE_STEP_MS: u64 = 200;

/// The milliseconds after which the readings end, settled or not.
pub const SAMPLE_WINDOW_MS: u64 = 1200;

/// The number of like readings in a row after which the monitors count as
/// settled.
pub const REQUIRED_SAME: usize = 3;

/// Where a series of readings stands.
pub struct SamplerView {
    /// The reading that succeeded last, in order: the one with which the
    /// run of like readings began.
    pub last: Option<Seq<Seq<char>>>,
    /// The length of the run, counted no further than to its goal.
    pub same: usize,
    /// The failure of the reading that failed last.
    pub failure: Option<ErrorView>,
}

/// A series without a reading.
pub open spec fn unread() -> SamplerView {
    SamplerView { last: None, same: 0, failure: None }
}

/// A reading as values: the names of the monitors, or the failure.
pub open spec fn reading_of(reading: Result<Vec<String>, Error>) -> Result<
    Seq<Seq<char>>,
    ErrorView,
> {
    match reading {
        Ok(names) => Ok(texts(names@)),
        Err(e) => Err(e@),
    }
}

/// The state after a reading, and the settled monitors where this reading
/// is the third in a row that names the same monitors, each as often, in
/// whatever order. A reading that failed is no reading of monitors: it
/// settles nothing, it is kept as the failure of the series, and the run
/// begins anew after it.
pub open spec fn observed(s: SamplerView, reading: Result<Seq<Seq<char>>, ErrorView>) -> (
    SamplerView,
    Option<Seq<Seq<char>>>,
) {
    match reading {
        Err(e) => (SamplerView { same: 0, failure: Some(e), ..s }, None),
        Ok(names) => if s.last == Some(in_order(names)) {
            if s.same + 1 >= REQUIRED_SAME {
                (SamplerView { same: REQUIRED_SAME, ..s }, Some(in_order(names)))
            } else {
                (SamplerView { same: (s.same + 1) as usize, ..s }, None)
            }
        } else {
            (SamplerView { last: Some(in_order(names)), same: 1, ..s }, None)
        },
    }
}

/// What a series of readings ends in that has not settled: the monitors of
/// the reading that succeeded last; the failure that came last where no
/// reading succeeded; no monitors where nothing was read.
pub open spec fn unsettled(s: SamplerView) -> Result<Seq<Seq<char>>, ErrorView> {
    match s.last {
        Some(names) => Ok(names),
        None => match s.failure {
            Some(e) => Err(e),
            None => Ok(Seq::empty()),
        },
    }
}

/// A series of readings of the monitors.
#[derive(Debug, PartialEq, Eq)]
pub struct StableSampler {
    last: Option<Vec<String>>,
    same: usize,
    failure: Option<Error>,
}

impl View for StableSampler {
    type V = SamplerView;

    closed spec fn view(&self) -> SamplerView {
        SamplerView {
            last: match self.last {
                Some(names) => Some(texts(names@)),
                None => None,
            },
            same: self.same,
            failure: match self.failure {
                Some(e) => Some(e@),
                None => None,
            },
        }
    }
}

impl StableSampler {
    #[verifier::type_invariant]
    spec fn run_is_bounded(self) -> bool {
        self.same <= REQUIRED_SAME
    }

    /// A series without a reading.
    pub fn new() -> (r: Self)
        ensures
            r@ == unread(),
    {
        StableSampler { last: None, same: 0, failure: None }
    }

    /// Whether another reading is due after `elapsed_ms` milliseconds.
    pub fn should_continue(&self, elapsed_ms: u64) -> (r: bool)
        ensures
            r == (elapsed_ms < SAMPLE_WINDOW_MS),
    {
        elapsed_ms < SAMPLE_WINDOW_MS
    }

    /// Takes a reading, or the failure to read: see [`observed`].
    pub fn observe(&mut self, reading: Result<Vec<String>, Error>) -> (r: Option<Vec<String>>)
        ensures
            final(self)@ == observed(old(self)@, reading_of(reading)).0,
            match r {
                Some(names) => Some(texts(names@)),
                None => None,
            } == observed(old(self)@, reading_of(reading)).1,
    {
        proof {
            use_type_invariant(&*self);
        }
        match reading {
            Err(e) => {
                self.same = 0;
                self.failure = Some(e);
                None
            },
            Ok(names) => {
                let current = sort_texts(names.as_slice());
                let like = match &self.last {
                    Some(prev) => same_texts(prev.as_slice(), current.as_slice()),
                    None => false,
                };
                if like {
                    if self.same + 1 >= REQUIRED_SAME {
                        self.same = REQUIRED_SAME;
                        Some(current)
                    } else {
                        self.same = self.same + 1;
                        None
                    }
                } else {
                    self.same = 1;
                    self.last = Some(current);
                    None
                }
            },
        }
    }

    /// What the series ends in where it has not settled: see [`unsettled`].
    pub fn finish(&self) -> (r: Result<Vec<String>, Error>)
        ensures
            reading_of(r) == unsettled(self@),
    {
        match &self.last {
            Some(names) => Ok(clone_texts(names)),
            None => match &self.failure {
                Some(e) => Err(e.clone()),
                None => {
                    let r: Vec<String> = Vec::new();
                    assert(texts(r@) =~= Seq::<Seq<char>>::empty());
                    Ok(r)
                },
            },
        }
    }
}

/// Three like readings settle the monitors: whatever came before, the third
/// of three readings in a row that name the same monitors reports them, in
/// order.
pub proof fn law_three_like_readings_settle(
    s: SamplerView,
    a: Seq<Seq<char>>,
    b: Seq<Seq<char>>,
    c: Seq<Seq<char>>,
)
    requires
        s.same <= REQUIRED_SAME,
        in_order(a) == in_order(b),
        in_order(b) == in_order(c),
    ensures
        observed(observed(observed(s, Ok(a)).0, Ok(b)).0, Ok(c)).1 == Some(in_order(c)),
{
}

/// Monitors are reported as settled only after a run: the reading has
/// succeeded, it is like the one with which the run began, and the run had
/// two readings at least.
pub proof fn law_settled_after_a_run(s: SamplerView, reading: Result<Seq<Seq<char>>, ErrorView>)
    requires
        observed(s, reading).1 is Some,
    ensures
        reading is Ok,
        observed(s, reading).1 == Some(in_order(reading->Ok_0)),
        s.last == Some(in_order(reading->Ok_0)),
        s.same + 1 >= REQUIRED_SAME,
{
}

/// A reading that differs starts a new run: no monitors are reported, and
/// the run has one reading.
pub proof fn law_a_change_starts_over(s: SamplerView, names: Seq<Seq<char>>)
    requires
        s.last != Some(in_order(names)),
    ensures
        observed(s, Ok(names)) == (
            SamplerView { last: Some(in_order(names)), same: 1, ..s },
            None::<Seq<Seq<char>>>,
        ),
{
}

/// A failure is no reading: it reports no monitors, it leaves the reading
/// that succeeded last as it is, and the two readings after it settle
/// nothing.
pub proof fn law_a_failure_is_no_reading(
    s: SamplerView,
    e: ErrorView,
    a: Seq<Seq<char>>,
    b: Seq<Seq<char>>,
)
    ensures
        observed(s, Err(e)).1 is None,
        observed(s, Err(e)).0.last == s.last,
        observed(s, Err(e)).0.failure == Some(e),
        observed(observed(s, Err(e)).0, Ok(a)).1 is None,
        observed(observed(observed(s, Err(e)).0, Ok(a)).0, Ok(b)).1 is None,
{
}

/// The state after the readings of `readings`, in their order.
pub open spec fn after_readings(
    s: SamplerView,
    readings: Seq<Result<Seq<Seq<char>>, ErrorView>>,
) -> SamplerView
    decreases readings.len(),
{
    if readings.len() == 0 {
        s
    } else {
        observed(after_readings(s, readings.drop_last()), readings.last()).0
    }
}

/// A series in which no reading succeeded ends in the failure that came
/// last, and none of its readings reports monitors: no monitors are made up
/// for a compositor that cannot be read.
pub proof fn law_failures_end_in_failure(readings: Seq<Result<Seq<Seq<char>>, ErrorView>>)
    requires
        readings.len() > 0,
        forall|i: int| 0 <= i < readings.len() ==> (#[trigger] readings[i]) is Err,
    ensures
        unsettled(after_readings(unread(), readings)) == Err::<Seq<Seq<char>>, ErrorView>(
            readings.last()->Err_0,
        ),
        after_readings(unread(), readings).last is None,
        forall|i: int|
            0 <= i < readings.len() ==> observed(
                after_readings(unread(), readings.take(i)),
                #[trigger] readings[i],
            ).1 is None,
    decreases readings.len(),
{
    let rest = readings.drop_last();
    let before = after_readings(unread(), rest);
    if rest.len() > 0 {
        assert forall|i: int| 0 <= i < rest.len() implies (#[trigger] rest[i]) is Err by {
            assert(rest[i] == readings[i]);
        }
        law_failures_end_in_failure(rest);
    } else {
        assert(before == unread());
    }
    assert(before.last is None);
    assert(readings.last() is Err);
    assert(after_readings(unread(), readings) == observed(before, readings.last()).0);
    assert forall|i: int| 0 <= i < readings.len() implies observed(
        after_readings(unread(), readings.take(i)),
        #[trigger] readings[i],
    ).1 is None by {
        assert(readings[i] is Err);
    }
}

/// A series in which a reading succeeded ends in monitors, whatever failed
/// before or after.
pub proof fn law_a_reading_ends_in_monitors(
    s: SamplerView,
    readings: Seq<Result<Seq<Seq<char>>, ErrorView>>,
    i: int,
)
    requires
        0 <= i < readings.len(),
        readings[i] is Ok,
    ensures
        unsettled(after_readings(s, readings)) is Ok,
    decreases readings.len(),
{
    let rest = readings.drop_last();
    if i < rest.len() {
        assert(rest[i] == readings[i]);
        law_a_reading_ends_in_monitors(s, rest, i);
    }
}

/// The places of the names of `present` that are not among `known`, in
/// rising order.
pub open spec fn newcomers(known: Seq<Seq<char>>, present: Seq<Seq<char>>) -> Seq<usize>
    decreases present.len(),
{
    if present.len() == 0 {
        Seq::empty()
    } else if known.contains(present.last()) {
        newcomers(known, present.drop_last())
    } else {
        newcomers(known, present.drop_last()).push((present.len() - 1) as usize)
    }
}

/// What has changed between two listings of monitors.
#[derive(Debug, PartialEq, Eq)]
pub struct MonitorChanges {
    /// The places in the later listing of the monitors that were added.
    pub added: Vec<usize>,
    /// The places in the earlier listing of the monitors that were removed.
    pub removed: Vec<usize>,
}

fn places_of_newcomers(known: &[String], present: &[String]) -> (r: Vec<usize>)
    ensures
        r@ == newcomers(texts(known@), texts(present@)),
{
    let ghost all = texts(present@);
    let mut r: Vec<usize> = Vec::new();
    let mut i: usize = 0;
    assert(all.take(0) =~= Seq::<Seq<char>>::empty());
    while i < present.len()
        invariant
            i <= present.len(),
            all == texts(present@),
            r@ == newcomers(texts(known@), all.take(i as int)),
        decreases present.len() - i,
    {
        proof {
            assert(all.take(i + 1).drop_last() =~= all.take(i as int));
            assert(all.take(i + 1).last() == present@[i as int]@);
        }
        if !contains_text(known, present[i].as_str()) {
            r.push(i);
        }
        i = i + 1;
    }
    assert(all.take(present.len() as int) =~= all);
    r
}

/// What has changed from the listing `last` to the listing `current`, both
/// by name, where the number of monitors has changed: the monitors of
/// `current` that `last` does not name were added, and those of `last` that
/// `current` does not name were removed. Where the number is the same,
/// nothing is reported.
pub fn compare_monitors(last: &[String], current: &[String]) -> (r: Option<MonitorChanges>)
    ensures
        r is Some <==> last@.len() != current@.len(),
        r is Some ==> r->0.added@ == newcomers(texts(last@), texts(current@)) && r->0.removed@
            == newcomers(texts(current@), texts(last@)),
{
    if last.len() == current.len() {
        None
    } else {
        Some(
            MonitorChanges {
                added: places_of_newcomers(last, current),
                removed: places_of_newcomers(current, last),
            },
        )
    }
}

} // verus!
