//! Per-connection identity, the task-scoped slot that holds it, and what a
//! connection's task reports when it ends.

use vstd::prelude::*;
use vstd::string::*;

verus! {

/// Address the bridge listens on when none is given.
pub const DEFAULT_LISTEN_ADDR: &'static str = "127.0.0.1:5999";

/// Base URL of the Matrix server that each bridge session talks to.
pub const DEFAULT_MATRIX_URL: &'static str = "http://localhost:8080/";

/// Name under which the bridge presents itself to IRC clients.
pub const IRC_SERVER_NAME: &'static str = "localhost";

/// Identity of one accepted connection: the peer's address, which every log
/// line of the connection's task carries.
#[derive(Clone, Debug)]
pub struct ConnectionContext {
    peer_ip: String,
    peer_port: u16,
}

impl View for ConnectionContext {
    type V = (Seq<char>, u16);

    closed spec fn view(&self) -> (Seq<char>, u16) {
        (self.peer_ip@, self.peer_port)
    }
}

impl ConnectionContext {
    pub fn new(peer_ip: String, peer_port: u16) -> (r: ConnectionContext)
        ensures
            r@ == (peer_ip@, peer_port),
    {
        ConnectionContext { peer_ip, peer_port }
    }

    pub fn peer_ip(&self) -> (r: &str)
        ensures
            r@ == self@.0,
    {
        self.peer_ip.as_str()
    }

    pub fn peer_port(&self) -> (r: u16)
        ensures
            r == self@.1,
    {
        self.peer_port
    }

    /// A copy with the same peer address.
    pub fn duplicate(&self) -> (r: ConnectionContext)
        ensures
            r@ == self@,
    {
        ConnectionContext { peer_ip: self.peer_ip.clone(), peer_port: self.peer_port }
    }
}

/// The context slot of one task. It starts empty, is filled once when the
/// task starts, and keeps that context until the task ends; code that finds
/// it empty logs through the process-wide logger.
pub struct TaskContext {
    slot: Option<ConnectionContext>,
}

impl View for TaskContext {
    type V = Option<(Seq<char>, u16)>;

    closed spec fn view(&self) -> Option<(Seq<char>, u16)> {
        match self.slot {
            Some(c) => Some(c@),
            None => None,
        }
    }
}

impl TaskContext {
    pub fn new() -> (r: TaskContext)
        ensures
            r@ is None,
    {
        TaskContext { slot: None }
    }

    /// Installs the connection's context into an empty slot. A slot that is
    /// already set is never changed, and the call then reports false.
    pub fn install(&mut self, ctx: ConnectionContext) -> (r: bool)
        ensures
            r == (old(self)@ is None),
            r ==> final(self)@ == Some(ctx@),
            !r ==> final(self)@ == old(self)@,
    {
        if self.slot.is_some() {
            return false;
        }
        self.slot = Some(ctx);
        true
    }

    /// The connection context in the slot, if any.
    pub fn current(&self) -> (r: Option<&ConnectionContext>)
        ensures
            r is Some <==> self@ is Some,
            r is Some ==> Some(r->Some_0@) == self@,
    {
        match &self.slot {
            Some(c) => Some(c),
            None => None,
        }
    }
}

/// How a connection's task ends. It never stops the accept loop.
#[derive(Clone, Debug, PartialEq, Eq)]
pub enum TaskEnd {
    /// The bridge session ran to completion.
    Finished,
    /// The session failed with an unhandled I/O error, logged as a warning.
    Warned(String),
}

/// Maps the outcome of a connection's bridge session to how its task ends.
pub fn end_of_task(outcome: Result<(), String>) -> (r: TaskEnd)
    ensures
        outcome is Ok ==> r == TaskEnd::Finished,
        outcome is Err ==> r == TaskEnd::Warned(outcome->Err_0),
{
    match outcome {
        Ok(()) => TaskEnd::Finished,
        Err(e) => TaskEnd::Warned(e),
    }
}

/// The address to listen on: the one given, else the default.
pub fn listen_address(arg: Option<String>) -> (r: String)
    ensures
        r@ == match arg {
            Some(a) => a@,
            None => DEFAULT_LISTEN_ADDR@,
        },
{
    match arg {
        Some(a) => a,
        None => String::from_str(DEFAULT_LISTEN_ADDR),
    }
}

} // verus!
