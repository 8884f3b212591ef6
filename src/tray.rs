use vstd::prelude::*;

use crate::activity::{inactive_for, ActivityMonitor, ActivityView};
use crate::config::AppConfig;
use crate::registry::StateChangeEvent;
use crate::scan::ProcessInfo;
use crate::session::CliState;
use crate::text::{decimal_of, decimal_string};

verus! {

/// The colour of the tray icon.
#[derive(Debug, Clone, Copy, PartialEq, Eq, Structural)]
pub enum TrayState {
    /// No tool runs.
    Gray,
    /// A tool works.
    Green,
    /// A tool waits for the user.
    Red,
}

/// The colour that shows an aggregate status; an idle tool shows red too, to
/// call the user back.
pub open spec fn tray_state_of(s: CliState) -> TrayState {
    match s {
        CliState::Working => TrayState::Green,
        CliState::WaitingInput => TrayState::Red,
        CliState::Idle => TrayState::Red,
        CliState::Offline => TrayState::Gray,
    }
}

impl From<CliState> for TrayState {
    fn from(state: CliState) -> TrayState {
        match state {
            CliState::Working => TrayState::Green,
            CliState::WaitingInput => TrayState::Red,
            CliState::Idle => TrayState::Red,
            CliState::Offline => TrayState::Gray,
        }
    }
}

impl vstd::std_specs::convert::FromSpecImpl<CliState> for TrayState {
    open spec fn obeys_from_spec() -> bool {
        true
    }

    open spec fn from_spec(v: CliState) -> TrayState {
        tray_state_of(v)
    }
}

/// The colour of the tray from a scan alone: green where some tool runs.
pub fn determine_tray_state_from_processes(processes: &[ProcessInfo]) -> (r: TrayState)
    ensures
        r == if processes@.len() == 0 {
            TrayState::Gray
        } else {
            TrayState::Green
        },
{
    if processes.len() == 0 {
        TrayState::Gray
    } else {
        TrayState::Green
    }
}

/// The icon of a session in the menu: green while it works, red while it
/// waits, grey while idle; an offline session is not listed.
pub open spec fn menu_icon_of(s: CliState) -> Option<TrayState> {
    match s {
        CliState::Working => Some(TrayState::Green),
        CliState::WaitingInput => Some(TrayState::Red),
        CliState::Idle => Some(TrayState::Gray),
        CliState::Offline => None,
    }
}

/// The icon of a session in the menu, if it is listed.
pub fn session_menu_icon(state: CliState) -> (r: Option<TrayState>)
    ensures
        r == menu_icon_of(state),
{
    match state {
        CliState::Working => Some(TrayState::Green),
        CliState::WaitingInput => Some(TrayState::Red),
        CliState::Idle => Some(TrayState::Gray),
        CliState::Offline => None,
    }
}

/// The sitting time shown beside the tray icon.
pub open spec fn title_of(minutes: u32) -> Seq<char> {
    if minutes >= 60 {
        decimal_of((minutes / 60) as nat) + "h"@ + decimal_of((minutes % 60) as nat) + "m"@
    } else {
        decimal_of(minutes as nat) + "m"@
    }
}

/// Writes the sitting time as hours and minutes, or minutes below an hour.
pub fn format_title(minutes: u32) -> (r: String)
    ensures
        r@ == title_of(minutes),
{
    if minutes >= 60 {
        decimal_string(minutes / 60).concat("h").concat(decimal_string(minutes % 60).as_str()).concat(
            "m",
        )
    } else {
        decimal_string(minutes).concat("m")
    }
}

/// Seconds after a sitting reminder at which the user's activity is checked.
pub const STANDUP_CHECK_SECS: u64 = 120;

/// Whether a reminder to stand up was sent, and when, in seconds.
#[derive(Debug, Clone, Copy, PartialEq, Eq, Structural)]
pub struct SittingReminderState {
    pub awaiting_standup: bool,
    pub reminder_sent_at: Option<u64>,
}

impl Default for SittingReminderState {
    fn default() -> (r: SittingReminderState)
        ensures
            r == (SittingReminderState { awaiting_standup: false, reminder_sent_at: None }),
    {
        SittingReminderState { awaiting_standup: false, reminder_sent_at: None }
    }
}

/// What the tray does after a change report.
#[derive(Debug, Clone, Copy, PartialEq, Eq, Structural)]
pub struct ChangeReaction {
    /// The new colour of the icon.
    pub tray_state: TrayState,
    /// Send the notice that a tool waits.
    pub notify_waiting: bool,
    /// Bring the waiting tool's window to the front.
    pub bring_to_front: bool,
    /// Send the reminder to take a break.
    pub sitting_reminder: bool,
}

/// Whether a report calls the user: the aggregate itself moved, to a status
/// shown red, from a colour that was not red.
pub open spec fn calls_user(e: StateChangeEvent, current: TrayState) -> bool {
    e.state_changed && tray_state_of(e.state) == TrayState::Red && current != TrayState::Red
}

/// Whether a report brings the break reminder: the system works, the
/// reminder is on and not already sent, and the user has sat for the
/// configured interval.
pub open spec fn reminds(
    e: StateChangeEvent,
    c: AppConfig,
    reminder: SittingReminderState,
    minutes: u32,
) -> bool {
    e.state == CliState::Working && c.sitting_reminder_enabled && !reminder.awaiting_standup
        && minutes >= c.sitting_reminder_interval_minutes
}

/// Decides what the tray does after the report `event`, given the current
/// colour, the settings and the minutes sat. When the break reminder goes
/// out, it is marked as sent at `now` and the activity tracker's last
/// activity is set to `now`.
pub fn react_to_change(
    event: &StateChangeEvent,
    current: TrayState,
    config: &AppConfig,
    sitting_minutes: u32,
    reminder: &mut SittingReminderState,
    monitor: &mut ActivityMonitor,
    now: u64,
) -> (r: ChangeReaction)
    ensures
        r.tray_state == tray_state_of(event.state),
        r.notify_waiting == (calls_user(*event, current) && config.sound_enabled),
        r.bring_to_front == (calls_user(*event, current) && config.auto_bring_to_front),
        r.sitting_reminder == reminds(*event, *config, *old(reminder), sitting_minutes),
        r.sitting_reminder ==> *final(reminder) == (SittingReminderState {
            awaiting_standup: true,
            reminder_sent_at: Some(now),
        }) && final(monitor)@ == (ActivityView { last_activity: now, ..old(monitor)@ }),
        !r.sitting_reminder ==> *final(reminder) == *old(reminder) && final(monitor)@ == old(
            monitor,
        )@,
{
    let tray_state = TrayState::from(event.state);
    let alert = event.state_changed && tray_state == TrayState::Red && current != TrayState::Red;
    let remind = event.state == CliState::Working && config.sitting_reminder_enabled
        && !reminder.awaiting_standup && sitting_minutes >= config.sitting_reminder_interval_minutes;
    if remind {
        reminder.awaiting_standup = true;
        reminder.reminder_sent_at = Some(now);
        monitor.reset_activity(now);
    }
    ChangeReaction {
        tray_state,
        notify_waiting: alert && config.sound_enabled,
        bring_to_front: alert && config.auto_bring_to_front,
        sitting_reminder: remind,
    }
}

/// Whether a minute tick at `now` looks back at a sent reminder: one was
/// sent, at least two minutes ago.
pub open spec fn standup_due(reminder: SittingReminderState, now: u64) -> bool {
    reminder.awaiting_standup && (reminder.reminder_sent_at matches Some(t) && now >= t && now - t
        >= STANDUP_CHECK_SECS)
}

/// The minutes sat after a minute tick at `now`: where a reminder is due,
/// the count starts over if the user was away the two minutes, and the
/// reminder is cleared; then a minute is added.
pub open spec fn minutes_after_tick(
    reminder: SittingReminderState,
    minutes: u32,
    activity: ActivityView,
    now: u64,
) -> u32 {
    let base = if standup_due(reminder, now) && inactive_for(activity, STANDUP_CHECK_SECS, now) {
        0
    } else {
        minutes
    };
    if base < u32::MAX {
        (base + 1) as u32
    } else {
        base
    }
}

/// Counts one more minute of sitting at `now`, after checking a reminder
/// that is due, and returns the new count.
pub fn sitting_minute_tick(
    reminder: &mut SittingReminderState,
    sitting_minutes: u32,
    monitor: &ActivityMonitor,
    now: u64,
) -> (r: u32)
    ensures
        r == minutes_after_tick(*old(reminder), sitting_minutes, monitor@, now),
        standup_due(*old(reminder), now) ==> *final(reminder) == (SittingReminderState {
            awaiting_standup: false,
            reminder_sent_at: None,
        }),
        !standup_due(*old(reminder), now) ==> *final(reminder) == *old(reminder),
{
    let mut minutes = sitting_minutes;
    if reminder.awaiting_standup {
        if let Some(sent_at) = reminder.reminder_sent_at {
            if now >= sent_at && now - sent_at >= STANDUP_CHECK_SECS {
                if monitor.is_inactive_for(STANDUP_CHECK_SECS, now) {
                    minutes = 0;
                }
                reminder.awaiting_standup = false;
                reminder.reminder_sent_at = None;
            }
        }
    }
    minutes.saturating_add(1)
}

} // verus!
