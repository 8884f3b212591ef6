use vstd::prelude::*;

verus! {

/// The kind of the latest input event seen while monitoring.
#[derive(Debug, Clone, Copy, PartialEq, Eq, Structural)]
pub enum LastActivity {
    Nothing,
    Key,
    Mouse,
    Move,
    Wheel,
}

impl LastActivity {
    /// The one-character mark shown for the kind.
    pub fn symbol(&self) -> (r: &'static str)
        ensures
            r@ == symbol_of(*self),
    {
        match self {
            LastActivity::Nothing => "-",
            LastActivity::Key => "键",
            LastActivity::Mouse => "点",
            LastActivity::Move => "动",
            LastActivity::Wheel => "滚",
        }
    }
}

/// The mark of each kind of input.
pub open spec fn symbol_of(k: LastActivity) -> Seq<char> {
    match k {
        LastActivity::Nothing => "-"@,
        LastActivity::Key => "键"@,
        LastActivity::Mouse => "点"@,
        LastActivity::Move => "动"@,
        LastActivity::Wheel => "滚"@,
    }
}

/// The tracker as plain values; times are in seconds.
pub struct ActivityView {
    pub last_activity: u64,
    pub is_running: bool,
    pub is_monitoring: bool,
    pub last_activity_type: LastActivity,
    pub event_count: u64,
    pub monitoring_start_time: u64,
    pub observer_failed: bool,
}

/// The tracker after it is armed at `now`: the count and the start of the
/// window are reset, the time of the last activity is kept.
pub open spec fn armed(a: ActivityView, now: u64) -> ActivityView {
    ActivityView {
        is_monitoring: true,
        last_activity_type: LastActivity::Nothing,
        event_count: 0,
        monitoring_start_time: now,
        ..a
    }
}

/// The tracker after an input event of kind `kind` at `now`, which counts
/// only while it is armed.
pub open spec fn recorded(a: ActivityView, kind: LastActivity, now: u64) -> ActivityView {
    if a.is_monitoring {
        ActivityView {
            last_activity: now,
            last_activity_type: kind,
            event_count: if a.event_count < u64::MAX {
                (a.event_count + 1) as u64
            } else {
                a.event_count
            },
            ..a
        }
    } else {
        a
    }
}

/// Whether the user counts as away for `secs` seconds at `now`: never while
/// no event came since arming, always where the last activity is no later
/// than the start of the window, and otherwise when it is at least `secs`
/// old.
pub open spec fn inactive_for(a: ActivityView, secs: u64, now: u64) -> bool {
    if a.event_count == 0 {
        false
    } else if a.last_activity <= a.monitoring_start_time {
        true
    } else {
        (if now >= a.last_activity {
            now - a.last_activity
        } else {
            0
        }) >= secs
    }
}

/// The tracker of keyboard and mouse activity. An outside observer feeds it
/// input events for the life of the process; it counts them only while
/// armed.
pub struct ActivityMonitor {
    last_activity: u64,
    is_running: bool,
    is_monitoring: bool,
    last_activity_type: LastActivity,
    event_count: u64,
    monitoring_start_time: u64,
    observer_failed: bool,
}

impl View for ActivityMonitor {
    type V = ActivityView;

    closed spec fn view(&self) -> ActivityView {
        ActivityView {
            last_activity: self.last_activity,
            is_running: self.is_running,
            is_monitoring: self.is_monitoring,
            last_activity_type: self.last_activity_type,
            event_count: self.event_count,
            monitoring_start_time: self.monitoring_start_time,
            observer_failed: self.observer_failed,
        }
    }
}

impl ActivityMonitor {
    /// A disarmed tracker whose last activity is `now`.
    pub fn new(now: u64) -> (r: ActivityMonitor)
        ensures
            r@ == (ActivityView {
                last_activity: now,
                is_running: false,
                is_monitoring: false,
                last_activity_type: LastActivity::Nothing,
                event_count: 0,
                monitoring_start_time: 0,
                observer_failed: false,
            }),
    {
        ActivityMonitor {
            last_activity: now,
            is_running: false,
            is_monitoring: false,
            last_activity_type: LastActivity::Nothing,
            event_count: 0,
            monitoring_start_time: 0,
            observer_failed: false,
        }
    }

    /// Marks the observer as running. The result says whether the caller
    /// is to start it: not when it runs already, nor after it failed, since
    /// a failed observer is not started again.
    pub fn start(&mut self) -> (r: bool)
        ensures
            r == (!old(self)@.is_running && !old(self)@.observer_failed),
            final(self)@ == (ActivityView { is_running: old(self)@.is_running || r, ..old(self)@ }),
    {
        if self.is_running || self.observer_failed {
            return false;
        }
        self.is_running = true;
        true
    }

    /// Records that the observer stopped with an error; it stays stopped.
    pub fn mark_observer_failed(&mut self)
        ensures
            final(self)@ == (ActivityView { is_running: false, observer_failed: true, ..old(self)@ }),
    {
        self.is_running = false;
        self.observer_failed = true;
    }

    /// Whether the observer failed, which leaves the tracker without input.
    pub fn observer_failed(&self) -> (r: bool)
        ensures
            r == self@.observer_failed,
    {
        self.observer_failed
    }

    /// Arms the tracker at `now`.
    pub fn start_monitoring(&mut self, now: u64)
        ensures
            final(self)@ == armed(old(self)@, now),
    {
        self.is_monitoring = true;
        self.last_activity_type = LastActivity::Nothing;
        self.event_count = 0;
        self.monitoring_start_time = now;
    }

    /// Disarms the tracker.
    pub fn stop_monitoring(&mut self)
        ensures
            final(self)@ == (ActivityView { is_monitoring: false, ..old(self)@ }),
    {
        self.is_monitoring = false;
    }

    /// Takes an input event of kind `kind` seen at `now`.
    pub fn record_event(&mut self, kind: LastActivity, now: u64)
        ensures
            final(self)@ == recorded(old(self)@, kind, now),
    {
        if self.is_monitoring {
            self.event_count = self.event_count.saturating_add(1);
            self.last_activity_type = kind;
            self.last_activity = now;
        }
    }

    /// Whether the tracker is armed.
    pub fn is_monitoring(&self) -> (r: bool)
        ensures
            r == self@.is_monitoring,
    {
        self.is_monitoring
    }

    /// The kind of the latest event since arming.
    pub fn get_last_activity_type(&self) -> (r: LastActivity)
        ensures
            r == self@.last_activity_type,
    {
        self.last_activity_type
    }

    /// Marks the observer as stopped and disarms the tracker.
    pub fn stop(&mut self)
        ensures
            final(self)@ == (ActivityView { is_running: false, is_monitoring: false, ..old(self)@ }),
    {
        self.is_running = false;
        self.is_monitoring = false;
    }

    /// Whether the user has been away for `secs` seconds at `now`.
    pub fn is_inactive_for(&self, secs: u64, now: u64) -> (r: bool)
        ensures
            r == inactive_for(self@, secs, now),
    {
        if self.event_count == 0 {
            return false;
        }
        if self.last_activity <= self.monitoring_start_time {
            return true;
        }
        now.saturating_sub(self.last_activity) >= secs
    }

    /// Sets the time of the last activity to `now`.
    pub fn reset_activity(&mut self, now: u64)
        ensures
            final(self)@ == (ActivityView { last_activity: now, ..old(self)@ }),
    {
        self.last_activity = now;
    }

    /// The number of events since arming.
    pub fn get_event_count(&self) -> (r: u64)
        ensures
            r == self@.event_count,
    {
        self.event_count
    }
}

/// Right after arming, with no event since, the user never counts as away,
/// whatever the duration asked about.
pub proof fn lemma_armed_without_events_is_active(a: ActivityView, t_arm: u64, secs: u64, now: u64)
    ensures
        !inactive_for(armed(a, t_arm), secs, now),
{
}

/// After arming, once an event has come, the user counts as away for `secs`
/// seconds when no event came for `secs` seconds since the last one.
pub proof fn lemma_silence_after_event_is_inactive(
    a: ActivityView,
    t_arm: u64,
    kind: LastActivity,
    t_event: u64,
    secs: u64,
    now: u64,
)
    requires
        now >= t_event + secs,
    ensures
        inactive_for(recorded(armed(a, t_arm), kind, t_event), secs, now),
{
}

} // verus!
