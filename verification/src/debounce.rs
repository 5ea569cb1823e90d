//! Bursts of monitor changes become one trigger: every change puts off the
//! reconciliation until the monitors have been quiet for a while.

use vstd::prelude::*;

verus! {

/// The milliseconds without a change after which the reconciliation runs.
pub const QUIET_PERIOD_MS: u64 = 900;

/// The milliseconds after which a lost stream of events is opened again.
pub const RECONNECT_DELAY_MS: u64 = 1000;

/// The time `QUIET_PERIOD_MS` after `now`, or the last time there is.
pub open spec fn quiet_until(now: u64) -> u64 {
    if now <= u64::MAX - QUIET_PERIOD_MS {
        (now + QUIET_PERIOD_MS) as u64
    } else {
        u64::MAX
    }
}

/// The state after an event at time `now`: a change of the monitors puts
/// the trigger at the end of a new quiet period, whatever was pending; any
/// other event leaves the state as it is.
pub open spec fn after_event(deadline: Option<u64>, monitors_changed: bool, now: u64) -> Option<
    u64,
> {
    if monitors_changed {
        Some(quiet_until(now))
    } else {
        deadline
    }
}

/// Whether the trigger fires at time `now`.
pub open spec fn is_due(deadline: Option<u64>, now: u64) -> bool {
    deadline is Some && deadline->0 <= now
}

/// The pending trigger of the reconciliation.
#[derive(Debug, PartialEq, Eq)]
pub struct Debouncer {
    deadline: Option<u64>,
}

impl View for Debouncer {
    type V = Option<u64>;

    closed spec fn view(&self) -> Option<u64> {
        self.deadline
    }
}

impl Debouncer {
    /// A debouncer without a pending trigger.
    pub fn new() -> (r: Self)
        ensures
            r@ is None,
    {
        Debouncer { deadline: None }
    }

    /// The time at which the trigger fires, where one is pending.
    pub fn deadline(&self) -> (r: Option<u64>)
        ensures
            r == self@,
    {
        self.deadline
    }

    /// Takes note of an event at millisecond `now`: see [`after_event`].
    pub fn on_event(&mut self, monitors_changed: bool, now: u64)
        ensures
            final(self)@ == after_event(old(self)@, monitors_changed, now),
    {
        if monitors_changed {
            self.deadline = Some(
                if now <= u64::MAX - QUIET_PERIOD_MS {
                    now + QUIET_PERIOD_MS
                } else {
                    u64::MAX
                },
            );
        }
    }

    /// Whether the reconciliation runs at millisecond `now`. It does where
    /// the trigger is due, and the trigger is then no longer pending.
    pub fn poll(&mut self, now: u64) -> (r: bool)
        ensures
            r == is_due(old(self)@, now),
            final(self)@ == (if r {
                None
            } else {
                old(self)@
            }),
    {
        match self.deadline {
            Some(d) => {
                if d <= now {
                    self.deadline = None;
                    true
                } else {
                    false
                }
            },
            None => false,
        }
    }
}

/// The trigger that is pending after the events of `times`, all of them
/// changes of the monitors, in the order in which they came.
pub open spec fn after_changes(deadline: Option<u64>, times: Seq<u64>) -> Option<u64>
    decreases times.len(),
{
    if times.len() == 0 {
        deadline
    } else {
        after_event(after_changes(deadline, times.drop_last()), true, times.last())
    }
}

/// A burst is one trigger: after any number of changes of the monitors, one
/// trigger is pending, at the end of the quiet period that the last change
/// began, whatever was pending before and whenever the earlier changes
/// came.
pub proof fn law_burst_is_one_trigger(deadline: Option<u64>, times: Seq<u64>)
    requires
        times.len() > 0,
    ensures
        after_changes(deadline, times) == Some(quiet_until(times.last())),
{
}

/// The trigger does not fire before the quiet period is over, and it fires
/// once: when it has fired, nothing is pending until the next change.
pub proof fn law_trigger_fires_once(deadline: Option<u64>, now: u64, later: u64)
    ensures
        deadline is Some && now < deadline->0 ==> !is_due(deadline, now),
        !is_due(None, later),
{
}

} // verus!
