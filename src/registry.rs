use vstd::prelude::*;

use crate::event::{clone_text, opt_text, CliEvent, CliMessage, MessageView};
use crate::scan::{
    end_messages, fallback_messages, message_views, seen_of, start_messages, texts, ProcessInfo,
};
use crate::session::{
    events_of, fresh_status, make_state_key, next_state, run_states, state_key_of, step_status,
    stop_confirmed, tick_changes, tick_status, CliState, CliStatus, StatusView, STOP_GRACE_MS,
};

verus! {

/// The waiting timeout that a registry starts with, in milliseconds.
pub const DEFAULT_WAITING_TIMEOUT_MS: u64 = 10000;

/// The sessions of a registry, each under its key, in order of creation.
pub type Records = Seq<(Seq<char>, StatusView)>;

/// The system-wide status: the first of waiting, working and idle that some
/// session is in, and offline where none is.
pub open spec fn aggregate_of(states: Seq<CliState>) -> CliState {
    if states.contains(CliState::WaitingInput) {
        CliState::WaitingInput
    } else if states.contains(CliState::Working) {
        CliState::Working
    } else if states.contains(CliState::Idle) {
        CliState::Idle
    } else {
        CliState::Offline
    }
}

/// The keys of the sessions.
pub open spec fn keys_of(rs: Records) -> Seq<Seq<char>> {
    rs.map_values(|r: (Seq<char>, StatusView)| r.0)
}

/// The states of the sessions.
pub open spec fn states_of(rs: Records) -> Seq<CliState> {
    rs.map_values(|r: (Seq<char>, StatusView)| r.1.state)
}

/// Whether no two sessions share a key.
pub open spec fn keys_unique(rs: Records) -> bool {
    forall|i: int, j: int| 0 <= i < rs.len() && 0 <= j < rs.len() && i != j ==> rs[i].0 != rs[j].0
}

/// Whether some session has the key `k`.
pub open spec fn has_key(rs: Records, k: Seq<char>) -> bool {
    exists|i: int| 0 <= i < rs.len() && rs[i].0 == k
}

/// The place of the session with key `k`.
pub open spec fn index_of(rs: Records, k: Seq<char>) -> int {
    choose|i: int| 0 <= i < rs.len() && rs[i].0 == k
}

/// The key that a message is filed under.
pub open spec fn key_of_message(m: MessageView) -> Seq<char> {
    state_key_of(m.cli, m.session_id)
}

/// The sessions after a message at `now`: the session of its key takes the
/// event, and is first created where there is none.
pub open spec fn apply_message(rs: Records, m: MessageView, now: u64) -> Records {
    let k = key_of_message(m);
    if has_key(rs, k) {
        let i = index_of(rs, k);
        rs.update(i, (k, step_status(rs[i].1, m, now)))
    } else {
        rs.push((k, step_status(fresh_status(m.cli, m.session_id, m.cwd, now), m, now)))
    }
}

/// The session that a message reached, after the message.
pub open spec fn touched_record(rs: Records, m: MessageView, now: u64) -> StatusView {
    let after = apply_message(rs, m, now);
    after[index_of(after, key_of_message(m))].1
}

/// The sessions after a timer tick at `now`.
pub open spec fn tick_records(rs: Records, now: u64, timeout: u64) -> Records {
    rs.map_values(|r: (Seq<char>, StatusView)| (r.0, tick_status(r.1, now, timeout)))
}

/// Whether a timer tick at `now` changes some session.
pub open spec fn tick_updates(rs: Records, now: u64, timeout: u64) -> bool {
    exists|i: int| 0 <= i < rs.len() && tick_changes(rs[i].1, now, timeout)
}

/// The sessions after a run of messages, the `i`-th at `times[i]`.
pub open spec fn run_messages(rs: Records, msgs: Seq<MessageView>, times: Seq<u64>) -> Records
    decreases msgs.len(),
{
    if msgs.len() == 0 || times.len() == 0 {
        rs
    } else {
        run_messages(apply_message(rs, msgs[0], times[0]), msgs.drop_first(), times.drop_first())
    }
}

/// The state of the session with key `k` before any message of its own: its
/// state where it exists, offline where it is yet to be created.
pub open spec fn state_at_key(rs: Records, k: Seq<char>) -> CliState {
    if has_key(rs, k) {
        rs[index_of(rs, k)].1.state
    } else {
        CliState::Offline
    }
}

/// A message keeps the keys distinct, files itself under its key, moves the
/// state of that session by the transition table, and leaves the other
/// sessions as they were.
pub proof fn lemma_apply_message(rs: Records, m: MessageView, now: u64)
    requires
        keys_unique(rs),
    ensures
        keys_unique(apply_message(rs, m, now)),
        has_key(apply_message(rs, m, now), key_of_message(m)),
        state_at_key(apply_message(rs, m, now), key_of_message(m)) == next_state(
            state_at_key(rs, key_of_message(m)),
            m.event,
        ),
        forall|k: Seq<char>|
            k != key_of_message(m) ==> state_at_key(apply_message(rs, m, now), k) == state_at_key(
                rs,
                k,
            ),
{
    let k = key_of_message(m);
    let a = apply_message(rs, m, now);
    let i = if has_key(rs, k) {
        index_of(rs, k)
    } else {
        rs.len() as int
    };
    assert(a[i].0 == k);
    assert(index_of(a, k) == i);
    assert forall|j: int| 0 <= j < a.len() && j != i implies #[trigger] a[j] == rs[j] by {}
    assert forall|k2: Seq<char>| k2 != k implies state_at_key(a, k2) == state_at_key(rs, k2) by {
        if has_key(rs, k2) {
            let j = index_of(rs, k2);
            assert(a[j] == rs[j]);
            assert(index_of(a, k2) == j);
        } else {
            assert forall|j: int| 0 <= j < a.len() implies a[j].0 != k2 by {
                if j != i {
                    assert(a[j] == rs[j]);
                }
            }
        }
    }
}

/// The state that a run of messages of one session leaves it in depends on
/// the session's state before the run and on the events alone, not on the
/// times at which they came; the other sessions keep their states.
pub proof fn lemma_single_key_run(rs: Records, msgs: Seq<MessageView>, times: Seq<u64>, k: Seq<char>)
    requires
        keys_unique(rs),
        times.len() == msgs.len(),
        forall|i: int| 0 <= i < msgs.len() ==> key_of_message(#[trigger] msgs[i]) == k,
    ensures
        keys_unique(run_messages(rs, msgs, times)),
        state_at_key(run_messages(rs, msgs, times), k) == run_states(
            state_at_key(rs, k),
            events_of(msgs),
        ),
        forall|k2: Seq<char>|
            k2 != k ==> state_at_key(run_messages(rs, msgs, times), k2) == state_at_key(rs, k2),
    decreases msgs.len(),
{
    if msgs.len() > 0 {
        let a = apply_message(rs, msgs[0], times[0]);
        lemma_apply_message(rs, msgs[0], times[0]);
        assert forall|i: int| 0 <= i < msgs.drop_first().len() implies key_of_message(
            #[trigger] msgs.drop_first()[i],
        ) == k by {
            assert(msgs.drop_first()[i] == msgs[i + 1]);
        }
        lemma_single_key_run(a, msgs.drop_first(), times.drop_first(), k);
        assert(events_of(msgs.drop_first()) =~= events_of(msgs).drop_first());
    }
}

/// An empty registry is offline, and one session that waits for the user
/// makes the whole system wait, whatever the other sessions do.
pub proof fn lemma_waiting_dominates(rs: Records, r: (Seq<char>, StatusView))
    requires
        r.1.state == CliState::WaitingInput,
    ensures
        aggregate_of(states_of(Seq::empty())) == CliState::Offline,
        aggregate_of(states_of(rs.push(r))) == CliState::WaitingInput,
{
    assert(states_of(rs.push(r))[rs.len() as int] == CliState::WaitingInput);
}

/// A `Stop` followed within the grace window by a `Working` event of the
/// same session keeps a working system working: after the `Stop`, after a
/// tick inside the window, and after the `Working` event, the aggregate is
/// `Working`, never a wait for the user.
pub proof fn lemma_quick_stop_keeps_working(
    rs: Records,
    stop: MessageView,
    work: MessageView,
    t_stop: u64,
    t_tick: u64,
    t_work: u64,
    timeout: u64,
)
    requires
        keys_unique(rs),
        aggregate_of(states_of(rs)) == CliState::Working,
        forall|i: int| 0 <= i < rs.len() ==> (#[trigger] rs[i]).1.stop_received_at is None,
        stop.event == CliEvent::Stop,
        work.event == CliEvent::Working,
        key_of_message(work) == key_of_message(stop),
        t_tick < t_stop + STOP_GRACE_MS,
    ensures
        aggregate_of(states_of(apply_message(rs, stop, t_stop))) == CliState::Working,
        aggregate_of(states_of(tick_records(apply_message(rs, stop, t_stop), t_tick, timeout)))
            == CliState::Working,
        aggregate_of(
            states_of(
                apply_message(
                    tick_records(apply_message(rs, stop, t_stop), t_tick, timeout),
                    work,
                    t_work,
                ),
            ),
        ) == CliState::Working,
{
    let k = key_of_message(stop);
    let a = apply_message(rs, stop, t_stop);
    let b = tick_records(a, t_tick, timeout);
    let c = apply_message(b, work, t_work);
    let sa = states_of(a);
    let sb = states_of(b);
    let sc = states_of(c);
    assert(!states_of(rs).contains(CliState::WaitingInput));
    assert(states_of(rs).contains(CliState::Working));
    let w = choose|i: int| 0 <= i < states_of(rs).len() && states_of(rs)[i] == CliState::Working;
    // after the stop: the session of the key is working unless it was idle,
    // and every other session is as it was
    let ia = index_of(a, k);
    assert(has_key(a, k) && a[ia].0 == k) by {
        if has_key(rs, k) {
            assert(a[index_of(rs, k)].0 == k);
        } else {
            assert(a[rs.len() as int].0 == k);
        }
    }
    assert forall|i: int| 0 <= i < a.len() implies (#[trigger] a[i]).1.state != CliState::WaitingInput
        && (i != ia ==> a[i].1.stop_received_at is None) && (a[i].1.stop_received_at matches Some(t)
        ==> t == t_stop) by {
        if i < rs.len() {
            assert(states_of(rs)[i] == rs[i].1.state);
        }
    }
    assert(!sa.contains(CliState::WaitingInput));
    if a[ia].1.state == CliState::Working {
        assert(sa[ia] == CliState::Working);
    } else {
        assert(sa[w] == CliState::Working);
    }
    // the tick inside the window changes nothing
    assert forall|i: int| 0 <= i < a.len() implies tick_status(#[trigger] a[i].1, t_tick, timeout) == a[i].1 by {
        assert(!stop_confirmed(a[i].1, t_tick));
    }
    assert(b =~= a);
    // the working event makes its session working
    let ic = index_of(c, k);
    assert(has_key(c, k) && c[ic].0 == k) by {
        assert(has_key(b, k));
        assert(c[index_of(b, k)].0 == k);
    }
    assert(sc[ic] == CliState::Working);
    assert forall|i: int| 0 <= i < c.len() implies (#[trigger] c[i]).1.state != CliState::WaitingInput by {
        assert(sb[i] == b[i].1.state);
    }
    assert(!sc.contains(CliState::WaitingInput));
}

/// What the consumer of the registry is told after each change: the
/// aggregate status, the session that an event reached (empty after a timer
/// tick), and whether the aggregate moved.
#[derive(Debug, Clone)]
pub struct StateChangeEvent {
    pub state: CliState,
    pub pid: Option<u32>,
    pub cwd: Option<String>,
    pub cli_name: String,
    pub state_changed: bool,
}

/// The registry as plain values.
pub struct RegistryView {
    pub records: Records,
    pub waiting_timeout: u64,
    pub last_aggregate: CliState,
}

/// The session records, each under its key, in order of creation.
struct Sessions {
    keys: Vec<String>,
    statuses: Vec<CliStatus>,
}

impl Sessions {
    spec fn records(&self) -> Records {
        Seq::new(self.keys@.len(), |i: int| (self.keys@[i]@, self.statuses@[i]@))
    }

    /// One record per key, and no key twice.
    spec fn wf(&self) -> bool {
        &&& self.keys@.len() == self.statuses@.len()
        &&& keys_unique(self.records())
    }

    fn empty() -> (r: Sessions)
        ensures
            r.wf(),
            r.records().len() == 0,
    {
        Sessions { keys: Vec::new(), statuses: Vec::new() }
    }

    fn snapshot(&self) -> (r: Vec<CliStatus>)
        requires
            self.wf(),
        ensures
            r@.len() == self.records().len(),
            forall|i: int| 0 <= i < r@.len() ==> (#[trigger] r@[i])@ == self.records()[i].1,
    {
        let mut out: Vec<CliStatus> = Vec::new();
        let mut i: usize = 0;
        while i < self.statuses.len()
            invariant
                self.wf(),
                i <= self.statuses@.len(),
                out@.len() == i,
                forall|j: int| 0 <= j < i ==> (#[trigger] out@[j])@ == self.records()[j].1,
            decreases self.statuses@.len() - i,
        {
            out.push(self.statuses[i].duplicate());
            i = i + 1;
        }
        out
    }

    fn aggregate(&self) -> (r: CliState)
        requires
            self.wf(),
        ensures
            r == aggregate_of(states_of(self.records())),
    {
        let ghost states = states_of(self.records());
        let mut has_working = false;
        let mut has_waiting = false;
        let mut has_idle = false;
        let mut i: usize = 0;
        while i < self.statuses.len()
            invariant
                self.wf(),
                states == states_of(self.records()),
                i <= self.statuses@.len(),
                has_waiting <==> exists|j: int| 0 <= j < i && states[j] == CliState::WaitingInput,
                has_working <==> exists|j: int| 0 <= j < i && states[j] == CliState::Working,
                has_idle <==> exists|j: int| 0 <= j < i && states[j] == CliState::Idle,
            decreases self.statuses@.len() - i,
        {
            assert(states[i as int] == self.statuses@[i as int].state);
            match self.statuses[i].state {
                CliState::WaitingInput => has_waiting = true,
                CliState::Working => has_working = true,
                CliState::Idle => has_idle = true,
                CliState::Offline => {},
            }
            i = i + 1;
        }
        if has_waiting {
            CliState::WaitingInput
        } else if has_working {
            CliState::Working
        } else if has_idle {
            CliState::Idle
        } else {
            CliState::Offline
        }
    }

    fn find(&self, key: &String) -> (r: Option<usize>)
        requires
            self.wf(),
        ensures
            r is None <==> !has_key(self.records(), key@),
            r matches Some(i) ==> i < self.records().len() && self.records()[i as int].0 == key@,
    {
        let mut i: usize = 0;
        while i < self.keys.len()
            invariant
                self.wf(),
                i <= self.keys@.len(),
                forall|j: int| 0 <= j < i ==> self.records()[j].0 != key@,
            decreases self.keys@.len() - i,
        {
            if self.keys[i] == *key {
                assert(self.records()[i as int].0 == key@);
                return Some(i);
            }
            i = i + 1;
        }
        None
    }

    /// Applies a message to the record of its key, created where missing,
    /// and returns the record's place.
    fn file(&mut self, msg: &CliMessage, now: u64) -> (r: usize)
        requires
            old(self).wf(),
        ensures
            final(self).wf(),
            final(self).records() == apply_message(old(self).records(), msg@, now),
            r < final(self).records().len(),
            r as int == index_of(final(self).records(), key_of_message(msg@)),
            final(self).records()[r as int].0 == key_of_message(msg@),
    {
        let ghost old_rs = self.records();
        let ghost m = msg@;
        let sid: Option<&str> = match &msg.session_id {
            Some(s) => Some(s.as_str()),
            None => None,
        };
        let key = make_state_key(msg.cli.as_str(), sid);
        let ghost k = key@;
        assert(k == key_of_message(m));
        let i = match self.find(&key) {
            Some(i) => {
                assert(index_of(old_rs, k) == i as int);
                i
            },
            None => {
                let status = CliStatus::with_details(
                    msg.cli.clone(),
                    clone_text(&msg.session_id),
                    clone_text(&msg.cwd),
                    now,
                );
                self.keys.push(key);
                self.statuses.push(status);
                assert(self.records() =~= old_rs.push(
                    (k, fresh_status(m.cli, m.session_id, m.cwd, now)),
                ));
                self.keys.len() - 1
            },
        };
        let ghost mid = self.records();
        self.statuses[i].apply_event(msg, now);
        assert(self.records() =~= mid.update(i as int, (k, step_status(mid[i as int].1, m, now))));
        assert(self.records() =~= apply_message(old_rs, m, now));
        assert(self.records()[i as int].0 == k);
        assert(index_of(self.records(), k) == i as int);
        i
    }

    /// Runs the timer over every record and tells whether one changed.
    fn tick_all(&mut self, now: u64, timeout: u64) -> (r: bool)
        requires
            old(self).wf(),
        ensures
            final(self).wf(),
            final(self).records() == tick_records(old(self).records(), now, timeout),
            r == tick_updates(old(self).records(), now, timeout),
    {
        let ghost old_rs = self.records();
        let ghost old_states = self.statuses@;
        let mut updated = false;
        let mut i: usize = 0;
        while i < self.statuses.len()
            invariant
                self.keys@.len() == self.statuses@.len(),
                self.statuses@.len() == old_states.len(),
                old_rs == Seq::new(
                    self.keys@.len(),
                    |j: int| (self.keys@[j]@, old_states[j]@),
                ),
                keys_unique(old_rs),
                i <= self.statuses@.len(),
                forall|j: int|
                    0 <= j < i ==> (#[trigger] self.statuses@[j])@ == tick_status(
                        old_states[j]@,
                        now,
                        timeout,
                    ),
                forall|j: int| i <= j < old_states.len() ==> #[trigger] self.statuses@[j] == old_states[j],
                updated <==> exists|j: int| 0 <= j < i && tick_changes(old_rs[j].1, now, timeout),
            decreases old_states.len() - i,
        {
            assert(old_rs[i as int].1 == old_states[i as int]@);
            let c = self.statuses[i].tick(now, timeout);
            updated = updated || c;
            i = i + 1;
        }
        assert(updated == tick_updates(old_rs, now, timeout));
        assert(self.records() =~= tick_records(old_rs, now, timeout));
        updated
    }
}

/// The registry of sessions: one record per key, changed by events and by a
/// timer, and the aggregate that was last reported.
pub struct StateManager {
    sessions: Sessions,
    waiting_timeout: u64,
    last_aggregate: CliState,
}

impl View for StateManager {
    type V = RegistryView;

    closed spec fn view(&self) -> RegistryView {
        RegistryView {
            records: self.sessions.records(),
            waiting_timeout: self.waiting_timeout,
            last_aggregate: self.last_aggregate,
        }
    }
}

impl Default for StateManager {
    fn default() -> (r: StateManager)
        ensures
            r@.records.len() == 0,
            r@.waiting_timeout == DEFAULT_WAITING_TIMEOUT_MS,
            r@.last_aggregate == CliState::Offline,
    {
        StateManager::new()
    }
}

impl StateManager {
    /// No two sessions share a key.
    #[verifier::type_invariant]
    spec fn sessions_wf(&self) -> bool {
        self.sessions.wf()
    }

    /// An empty registry with a waiting timeout of ten seconds.
    pub fn new() -> (r: StateManager)
        ensures
            r@.records.len() == 0,
            r@.waiting_timeout == DEFAULT_WAITING_TIMEOUT_MS,
            r@.last_aggregate == CliState::Offline,
    {
        Self::with_waiting_timeout(DEFAULT_WAITING_TIMEOUT_MS)
    }

    /// An empty registry with the given waiting timeout, in milliseconds.
    pub fn with_waiting_timeout(timeout_ms: u64) -> (r: StateManager)
        ensures
            r@.records.len() == 0,
            r@.waiting_timeout == timeout_ms,
            r@.last_aggregate == CliState::Offline,
    {
        StateManager {
            sessions: Sessions::empty(),
            waiting_timeout: timeout_ms,
            last_aggregate: CliState::Offline,
        }
    }

    /// A copy of every session record, in order of creation.
    pub fn get_states(&self) -> (r: Vec<CliStatus>)
        ensures
            r@.len() == self@.records.len(),
            forall|i: int| 0 <= i < r@.len() ==> (#[trigger] r@[i])@ == self@.records[i].1,
    {
        proof {
            use_type_invariant(self);
        }
        self.sessions.snapshot()
    }

    /// The aggregate of the sessions' states.
    pub fn calculate_aggregate_state(&self) -> (r: CliState)
        ensures
            r == aggregate_of(states_of(self@.records)),
    {
        proof {
            use_type_invariant(self);
        }
        self.sessions.aggregate()
    }

    /// Files an event received at `now` under its session, creating the
    /// session where its key is new, and reports the new aggregate.
    pub fn handle_message(&mut self, msg: &CliMessage, now: u64) -> (r: StateChangeEvent)
        ensures
            final(self)@.records == apply_message(old(self)@.records, msg@, now),
            final(self)@.waiting_timeout == old(self)@.waiting_timeout,
            final(self)@.last_aggregate == r.state,
            r.state == aggregate_of(states_of(final(self)@.records)),
            r.state_changed == (r.state != old(self)@.last_aggregate),
            r.pid == touched_record(old(self)@.records, msg@, now).pid,
            opt_text(r.cwd) == touched_record(old(self)@.records, msg@, now).cwd,
            r.cli_name@ == touched_record(old(self)@.records, msg@, now).cli_name,
    {
        proof {
            use_type_invariant(&*self);
        }
        let mut sessions = Sessions::empty();
        std::mem::swap(&mut sessions, &mut self.sessions);
        let i = sessions.file(msg, now);
        let current_pid = sessions.statuses[i].pid;
        let current_cwd = clone_text(&sessions.statuses[i].cwd);
        let current_cli = sessions.statuses[i].cli_name.clone();
        let aggregate = sessions.aggregate();
        let changed = aggregate != self.last_aggregate;
        self.sessions = sessions;
        self.last_aggregate = aggregate;
        StateChangeEvent {
            state: aggregate,
            pid: current_pid,
            cwd: current_cwd,
            cli_name: current_cli,
            state_changed: changed,
        }
    }

    /// Runs the timer over every session at `now`. There is something to
    /// report when a session changed or the aggregate moved; the report
    /// names no session.
    pub fn tick(&mut self, now: u64) -> (r: Option<StateChangeEvent>)
        ensures
            final(self)@.records == tick_records(
                old(self)@.records,
                now,
                old(self)@.waiting_timeout,
            ),
            final(self)@.waiting_timeout == old(self)@.waiting_timeout,
            final(self)@.last_aggregate == aggregate_of(states_of(final(self)@.records)),
            r is Some <==> (tick_updates(old(self)@.records, now, old(self)@.waiting_timeout)
                || aggregate_of(states_of(final(self)@.records)) != old(self)@.last_aggregate),
            r matches Some(e) ==> {
                &&& e.state == aggregate_of(states_of(final(self)@.records))
                &&& e.state_changed == (e.state != old(self)@.last_aggregate)
                &&& e.pid is None
                &&& e.cwd is None
                &&& e.cli_name@.len() == 0
            },
    {
        proof {
            use_type_invariant(&*self);
        }
        let mut sessions = Sessions::empty();
        std::mem::swap(&mut sessions, &mut self.sessions);
        let updated = sessions.tick_all(now, self.waiting_timeout);
        let aggregate = sessions.aggregate();
        let changed = aggregate != self.last_aggregate;
        self.sessions = sessions;
        self.last_aggregate = aggregate;
        if updated || changed {
            Some(StateChangeEvent {
                state: aggregate,
                pid: None,
                cwd: None,
                cli_name: String::new(),
                state_changed: changed,
            })
        } else {
            None
        }
    }

    /// The messages that a scan of the process table stands for, given the
    /// names of the tools that report through hooks (see
    /// [`fallback_messages`]).
    pub fn fallback_messages(&self, processes: &Vec<ProcessInfo>, hooked: &Vec<String>) -> (r: Vec<
        CliMessage,
    >)
        ensures
            message_views(r@) == start_messages(
                seen_of(processes@),
                keys_of(self@.records),
                texts(hooked@),
            ) + end_messages(
                keys_of(self@.records),
                seen_of(processes@).map_values(|s: (Seq<char>, u32)| s.0),
                texts(hooked@),
            ),
    {
        assert(texts(self.sessions.keys@) =~= keys_of(self@.records));
        fallback_messages(processes, &self.sessions.keys, hooked)
    }
}

} // verus!
