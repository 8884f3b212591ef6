use vstd::prelude::*;

use crate::text::str_eq;

verus! {

/// A lifecycle event reported by a hook of a command-line tool.
#[derive(Debug, Clone, Copy, PartialEq, Eq, Structural)]
pub enum CliEvent {
    SessionStart,
    SessionEnd,
    /// The tool is running a step (before a prompt, a tool call or an agent turn).
    Working,
    /// The tool finished a turn; it may go on or wait for the user.
    Stop,
    /// The tool reports that it has been idle at its prompt.
    IdlePrompt,
    /// The tool asks the user for a permission.
    PermissionPrompt,
}

/// The name of each event on the wire.
pub open spec fn wire_name_of(e: CliEvent) -> Seq<char> {
    match e {
        CliEvent::SessionStart => "session_start"@,
        CliEvent::SessionEnd => "session_end"@,
        CliEvent::Working => "working"@,
        CliEvent::Stop => "stop"@,
        CliEvent::IdlePrompt => "idle_prompt"@,
        CliEvent::PermissionPrompt => "permission_prompt"@,
    }
}

impl CliEvent {
    /// The event whose wire name is `name`, if there is one.
    pub fn from_wire_name(name: &str) -> (r: Option<CliEvent>)
        ensures
            r matches Some(e) ==> wire_name_of(e) == name@,
            r is None ==> forall|e: CliEvent| wire_name_of(e) != name@,
    {
        if str_eq(name, "session_start") {
            Some(CliEvent::SessionStart)
        } else if str_eq(name, "session_end") {
            Some(CliEvent::SessionEnd)
        } else if str_eq(name, "working") {
            Some(CliEvent::Working)
        } else if str_eq(name, "stop") {
            Some(CliEvent::Stop)
        } else if str_eq(name, "idle_prompt") {
            Some(CliEvent::IdlePrompt)
        } else if str_eq(name, "permission_prompt") {
            Some(CliEvent::PermissionPrompt)
        } else {
            None
        }
    }
}

/// The characters of an optional string.
pub open spec fn opt_text(o: Option<String>) -> Option<Seq<char>> {
    match o {
        Some(s) => Some(s@),
        None => None,
    }
}

/// Copies an optional string.
pub fn clone_text(o: &Option<String>) -> (r: Option<String>)
    ensures
        opt_text(r) == opt_text(*o),
{
    match o {
        Some(s) => Some(s.clone()),
        None => None,
    }
}

/// One record received from a hook: the tool that sent it, the event, and
/// what the hook knew of the process, the session and the directory.
#[derive(Debug, Clone)]
pub struct CliMessage {
    pub cli: String,
    pub event: CliEvent,
    pub pid: Option<u32>,
    pub timestamp: Option<u64>,
    pub session_id: Option<String>,
    pub cwd: Option<String>,
}

/// A message as plain values.
pub struct MessageView {
    pub cli: Seq<char>,
    pub event: CliEvent,
    pub pid: Option<u32>,
    pub timestamp: Option<u64>,
    pub session_id: Option<Seq<char>>,
    pub cwd: Option<Seq<char>>,
}

impl View for CliMessage {
    type V = MessageView;

    open spec fn view(&self) -> MessageView {
        MessageView {
            cli: self.cli@,
            event: self.event,
            pid: self.pid,
            timestamp: self.timestamp,
            session_id: opt_text(self.session_id),
            cwd: opt_text(self.cwd),
        }
    }
}

impl CliMessage {
    /// Builds a message from the fields of a decoded record, whose event is
    /// still its wire name. There is a message exactly when the name is
    /// that of an event.
    pub fn from_wire(
        cli: String,
        event: &str,
        pid: Option<u32>,
        timestamp: Option<u64>,
        session_id: Option<String>,
        cwd: Option<String>,
    ) -> (r: Option<CliMessage>)
        ensures
            r is Some <==> exists|e: CliEvent| wire_name_of(e) == event@,
            r matches Some(m) ==> {
                &&& wire_name_of(m.event) == event@
                &&& m@.cli == cli@
                &&& m.pid == pid
                &&& m.timestamp == timestamp
                &&& m@.session_id == opt_text(session_id)
                &&& m@.cwd == opt_text(cwd)
            },
    {
        match CliEvent::from_wire_name(event) {
            Some(e) => Some(CliMessage { cli, event: e, pid, timestamp, session_id, cwd }),
            None => None,
        }
    }
}

} // verus!
