use vstd::prelude::*;

use crate::event::{clone_text, opt_text, CliEvent, CliMessage, MessageView};

verus! {

/// The status of one session, and of the whole system once aggregated.
#[derive(Debug, Clone, Copy, PartialEq, Eq, Structural)]
pub enum CliState {
    /// The tool is working on a request.
    Working,
    /// The tool waits for the user.
    WaitingInput,
    /// The tool sits at its prompt.
    Idle,
    /// The tool is not running.
    Offline,
}

/// The state that an event leads to.
pub open spec fn next_state(cur: CliState, ev: CliEvent) -> CliState {
    match ev {
        CliEvent::SessionStart => CliState::Working,
        CliEvent::SessionEnd => CliState::Offline,
        CliEvent::Working => CliState::Working,
        CliEvent::Stop => if cur == CliState::Offline {
            CliState::Working
        } else {
            cur
        },
        CliEvent::IdlePrompt => CliState::Idle,
        CliEvent::PermissionPrompt => CliState::WaitingInput,
    }
}

/// The upper-case form of a character (it may be several characters).
pub uninterp spec fn upper_of(c: char) -> Seq<char>;

/// Relies on `char::to_uppercase`: the upper-case mapping of a character,
/// which depends on the character alone.
#[verifier::external_body]
fn char_to_upper(c: char) -> (r: String)
    ensures
        r@ == upper_of(c),
{
    c.to_uppercase().collect()
}

/// The final component of a path, where it has a normal one.
pub uninterp spec fn file_name_of(p: Seq<char>) -> Option<Seq<char>>;

/// Relies on `std::path::Path::file_name`: the last normal component of a
/// path, which depends on the path alone.
#[verifier::external_body]
fn path_file_name(p: &str) -> (r: Option<String>)
    ensures
        opt_text(r) == file_name_of(p@),
{
    std::path::Path::new(p).file_name().and_then(|n| n.to_str()).map(|n| n.to_string())
}

/// A name with its first character in upper case.
pub open spec fn capitalized(s: Seq<char>) -> Seq<char> {
    if s.len() == 0 {
        s
    } else {
        upper_of(s[0]) + s.subrange(1, s.len() as int)
    }
}

/// The project that a working directory stands for: its last component, or
/// the whole path where it has none.
pub open spec fn project_name_of(p: Seq<char>) -> Seq<char> {
    match file_name_of(p) {
        Some(n) => n,
        None => p,
    }
}

/// The name under which a session is shown: the tool, and the project where
/// the working directory is known.
pub open spec fn display_name_of(cli: Seq<char>, cwd: Option<Seq<char>>) -> Seq<char> {
    match cwd {
        Some(p) => capitalized(cli) + " - "@ + project_name_of(p),
        None => capitalized(cli),
    }
}

/// The key of a session: the tool and the session id, or the tool alone
/// where the hook sent no session id. Sessions of one tool that send no id
/// thus share one record, the newer taking over the older's; this is kept
/// on purpose, for hooks that cannot tell their session.
pub open spec fn state_key_of(cli: Seq<char>, session_id: Option<Seq<char>>) -> Seq<char> {
    match session_id {
        Some(sid) => cli + ":"@ + sid,
        None => cli,
    }
}

/// Puts the first character of `s` in upper case.
pub fn capitalize_first(s: &str) -> (r: String)
    ensures
        r@ == capitalized(s@),
{
    let n = s.unicode_len();
    if n == 0 {
        return String::new();
    }
    let first = char_to_upper(s.get_char(0));
    first.concat(s.substring_char(1, n))
}

/// The key under which the registry keeps the session of `cli` with the
/// given session id.
pub fn make_state_key(cli: &str, session_id: Option<&str>) -> (r: String)
    ensures
        r@ == state_key_of(
            cli@,
            match session_id {
                Some(s) => Some(s@),
                None => None,
            },
        ),
{
    match session_id {
        Some(sid) => String::from_str(cli).concat(":").concat(sid),
        None => String::from_str(cli),
    }
}

/// How long a `Stop` waits, in milliseconds, before it counts as a wait for
/// the user.
pub const STOP_GRACE_MS: u64 = 3000;

/// How many waiting timeouts a session may wait for the user before it is
/// taken as idle.
pub const IDLE_AFTER_TIMEOUTS: u64 = 6;

/// The time from `since` to `now`, or zero where the clock reads earlier.
pub open spec fn elapsed(now: u64, since: u64) -> int {
    if now >= since {
        now - since
    } else {
        0
    }
}

/// Whether the grace window of a pending `Stop` has passed at `now`.
pub open spec fn stop_confirmed(s: StatusView, now: u64) -> bool {
    s.stop_received_at matches Some(t) && elapsed(now, t) >= STOP_GRACE_MS
}

/// A record after its pending `Stop` is checked at `now`.
pub open spec fn confirm_stop(s: StatusView, now: u64) -> StatusView {
    if stop_confirmed(s, now) {
        StatusView { state: CliState::WaitingInput, stop_received_at: None, ..s }
    } else {
        s
    }
}

/// Whether a session has waited for the user so long that it counts as idle.
pub open spec fn wait_expired(s: StatusView, now: u64, timeout: u64) -> bool {
    s.state == CliState::WaitingInput && elapsed(now, s.last_update) >= IDLE_AFTER_TIMEOUTS * timeout
}

/// A record after a timer tick at `now`: a `Stop` past its grace window
/// becomes a wait for the user, then a wait past six timeouts becomes idle.
pub open spec fn tick_status(s: StatusView, now: u64, timeout: u64) -> StatusView {
    let c = confirm_stop(s, now);
    if wait_expired(c, now, timeout) {
        StatusView { state: CliState::Idle, ..c }
    } else {
        c
    }
}

/// Whether a timer tick at `now` changes the record.
pub open spec fn tick_changes(s: StatusView, now: u64, timeout: u64) -> bool {
    stop_confirmed(s, now) || wait_expired(confirm_stop(s, now), now, timeout)
}

/// The state that a run of events leads to from `st`.
pub open spec fn run_states(st: CliState, evs: Seq<CliEvent>) -> CliState
    decreases evs.len(),
{
    if evs.len() == 0 {
        st
    } else {
        run_states(next_state(st, evs[0]), evs.drop_first())
    }
}

/// The events of a run of messages.
pub open spec fn events_of(msgs: Seq<MessageView>) -> Seq<CliEvent> {
    msgs.map_values(|m: MessageView| m.event)
}

/// A `Stop` followed by silence: once the grace window has passed the
/// session waits for the user, and once six waiting timeouts have passed
/// since the `Stop` it is idle, whether or not a tick came in between.
pub proof fn lemma_silence_after_stop(
    s: StatusView,
    stop: MessageView,
    t_stop: u64,
    t_wait: u64,
    t_idle: u64,
    timeout: u64,
)
    requires
        stop.event == CliEvent::Stop,
        t_wait >= t_stop + STOP_GRACE_MS,
        t_wait < t_stop + IDLE_AFTER_TIMEOUTS * timeout,
        t_idle >= t_stop + IDLE_AFTER_TIMEOUTS * timeout,
    ensures
        tick_status(step_status(s, stop, t_stop), t_wait, timeout).state == CliState::WaitingInput,
        tick_status(
            tick_status(step_status(s, stop, t_stop), t_wait, timeout),
            t_idle,
            timeout,
        ).state == CliState::Idle,
        tick_status(step_status(s, stop, t_stop), t_idle, timeout).state == CliState::Idle,
{
}

/// What is known of one session.
#[derive(Debug, Clone)]
pub struct CliStatus {
    pub cli_name: String,
    pub state: CliState,
    pub pid: Option<u32>,
    pub last_event: Option<CliEvent>,
    /// When the last event came, in milliseconds of a monotonic clock.
    pub last_update: u64,
    pub session_id: Option<String>,
    pub cwd: Option<String>,
    pub display_name: String,
    /// When a `Stop` came that is not yet taken as a wait for the user.
    pub stop_received_at: Option<u64>,
}

/// A session record as plain values.
pub struct StatusView {
    pub cli_name: Seq<char>,
    pub state: CliState,
    pub pid: Option<u32>,
    pub last_event: Option<CliEvent>,
    pub last_update: u64,
    pub session_id: Option<Seq<char>>,
    pub cwd: Option<Seq<char>>,
    pub display_name: Seq<char>,
    pub stop_received_at: Option<u64>,
}

impl View for CliStatus {
    type V = StatusView;

    open spec fn view(&self) -> StatusView {
        StatusView {
            cli_name: self.cli_name@,
            state: self.state,
            pid: self.pid,
            last_event: self.last_event,
            last_update: self.last_update,
            session_id: opt_text(self.session_id),
            cwd: opt_text(self.cwd),
            display_name: self.display_name@,
            stop_received_at: self.stop_received_at,
        }
    }
}

/// The record that a session starts from, before its first event counts.
pub open spec fn fresh_status(
    cli: Seq<char>,
    session_id: Option<Seq<char>>,
    cwd: Option<Seq<char>>,
    now: u64,
) -> StatusView {
    StatusView {
        cli_name: cli,
        state: CliState::Offline,
        pid: None,
        last_event: None,
        last_update: now,
        session_id,
        cwd,
        display_name: display_name_of(cli, cwd),
        stop_received_at: None,
    }
}

/// A record after an event: the state moves by the transition table, a
/// `Stop` marks the time for the grace window and any other event clears it,
/// and each of pid, session id and directory is replaced where the message
/// carries one.
pub open spec fn step_status(s: StatusView, m: MessageView, now: u64) -> StatusView {
    let cwd = if m.cwd is Some {
        m.cwd
    } else {
        s.cwd
    };
    StatusView {
        cli_name: s.cli_name,
        state: next_state(s.state, m.event),
        pid: if m.pid is Some {
            m.pid
        } else {
            s.pid
        },
        last_event: Some(m.event),
        last_update: now,
        session_id: if m.session_id is Some {
            m.session_id
        } else {
            s.session_id
        },
        cwd,
        display_name: if m.cwd is Some {
            display_name_of(s.cli_name, cwd)
        } else {
            s.display_name
        },
        stop_received_at: if m.event == CliEvent::Stop {
            Some(now)
        } else {
            None
        },
    }
}

impl CliStatus {
    /// A record for `cli_name` with nothing known of it yet.
    pub fn new(cli_name: String, now: u64) -> (r: CliStatus)
        ensures
            r@ == fresh_status(cli_name@, None, None, now),
    {
        let display_name = capitalize_first(cli_name.as_str());
        CliStatus {
            cli_name,
            state: CliState::Offline,
            pid: None,
            last_event: None,
            last_update: now,
            session_id: None,
            cwd: None,
            display_name,
            stop_received_at: None,
        }
    }

    /// A record for `cli_name` with its session id and working directory.
    pub fn with_details(
        cli_name: String,
        session_id: Option<String>,
        cwd: Option<String>,
        now: u64,
    ) -> (r: CliStatus)
        ensures
            r@ == fresh_status(cli_name@, opt_text(session_id), opt_text(cwd), now),
    {
        let display_name = Self::format_display_name(cli_name.as_str(), &cwd);
        CliStatus {
            cli_name,
            state: CliState::Offline,
            pid: None,
            last_event: None,
            last_update: now,
            session_id,
            cwd,
            display_name,
            stop_received_at: None,
        }
    }

    /// The name shown for the tool `cli_name` working in `cwd`.
    pub fn format_display_name(cli_name: &str, cwd: &Option<String>) -> (r: String)
        ensures
            r@ == display_name_of(cli_name@, opt_text(*cwd)),
    {
        let cli_display = capitalize_first(cli_name);
        match cwd {
            Some(path) => {
                let project = match path_file_name(path.as_str()) {
                    Some(n) => n,
                    None => path.clone(),
                };
                cli_display.concat(" - ").concat(project.as_str())
            },
            None => cli_display,
        }
    }

    /// Recomputes the shown name from the tool and the working directory.
    pub fn update_display_name(&mut self)
        ensures
            final(self)@ == (StatusView {
                display_name: display_name_of(old(self)@.cli_name, old(self)@.cwd),
                ..old(self)@
            }),
    {
        self.display_name = Self::format_display_name(self.cli_name.as_str(), &self.cwd);
    }

    /// A copy of the record.
    pub fn duplicate(&self) -> (r: CliStatus)
        ensures
            r@ == self@,
    {
        CliStatus {
            cli_name: self.cli_name.clone(),
            state: self.state,
            pid: self.pid,
            last_event: self.last_event,
            last_update: self.last_update,
            session_id: clone_text(&self.session_id),
            cwd: clone_text(&self.cwd),
            display_name: self.display_name.clone(),
            stop_received_at: self.stop_received_at,
        }
    }

    /// Applies a timer tick at `now`, with the given waiting timeout, and
    /// tells whether the record changed.
    pub fn tick(&mut self, now: u64, timeout: u64) -> (r: bool)
        ensures
            final(self)@ == tick_status(old(self)@, now, timeout),
            r == tick_changes(old(self)@, now, timeout),
    {
        let mut changed = false;
        if let Some(stop_time) = self.stop_received_at {
            if now >= stop_time && now - stop_time >= STOP_GRACE_MS {
                self.state = CliState::WaitingInput;
                self.stop_received_at = None;
                changed = true;
            }
        }
        if self.state == CliState::WaitingInput {
            let waited = if now >= self.last_update {
                now - self.last_update
            } else {
                0
            };
            let expired = match timeout.checked_mul(IDLE_AFTER_TIMEOUTS) {
                Some(limit) => waited >= limit,
                None => false,
            };
            if expired {
                self.state = CliState::Idle;
                changed = true;
            }
        }
        changed
    }

    /// Applies one event of this session, received at `now`.
    pub fn apply_event(&mut self, msg: &CliMessage, now: u64)
        ensures
            final(self)@ == step_status(old(self)@, msg@, now),
    {
        self.last_event = Some(msg.event);
        self.last_update = now;
        if msg.pid.is_some() {
            self.pid = msg.pid;
        }
        if msg.session_id.is_some() {
            self.session_id = clone_text(&msg.session_id);
        }
        if msg.cwd.is_some() {
            self.cwd = clone_text(&msg.cwd);
            self.update_display_name();
        }
        let new_state = match msg.event {
            CliEvent::SessionStart => {
                self.stop_received_at = None;
                CliState::Working
            },
            CliEvent::SessionEnd => {
                self.stop_received_at = None;
                CliState::Offline
            },
            CliEvent::Working => {
                self.stop_received_at = None;
                CliState::Working
            },
            CliEvent::Stop => {
                self.stop_received_at = Some(now);
                if self.state == CliState::Offline {
                    CliState::Working
                } else {
                    self.state
                }
            },
            CliEvent::IdlePrompt => {
                self.stop_received_at = None;
                CliState::Idle
            },
            CliEvent::PermissionPrompt => {
                self.stop_received_at = None;
                CliState::WaitingInput
            },
        };
        self.state = new_state;
    }
}

} // verus!
