//! The metadata handed back when the service starts, and the lifecycle
//! handle that makes a second start request a no-op instead of a second
//! listener.

use vstd::prelude::*;
use vstd::string::StringExecFns;

verus! {

/// The one port the service ever binds.
pub const SERVER_PORT: u16 = 8080;

#[derive(Clone)]
pub struct ServerInfo {
    pub port: u16,
    pub ip: String,
    pub status: String,
}

/// The metadata a start request answers with: the fixed port, the resolved
/// address, and a running status.
pub fn make_server_info(ip: String) -> (r: ServerInfo)
    ensures
        r.port == SERVER_PORT,
        r.ip@ == ip@,
        r.status@ == "running"@,
{
    ServerInfo { port: SERVER_PORT, ip, status: String::from_str("running") }
}

/// What one start request does to the running flag: the flag is set either
/// way, and the request starts a listener only when the flag was clear.
pub open spec fn start_transition(running: bool) -> (bool, bool) {
    (true, !running)
}

/// The lifecycle handle: a single flag that gates the background listener.
/// The caller keeps exactly one of these per process.
pub struct ServiceLifecycle {
    running: bool,
}

impl ServiceLifecycle {
    pub closed spec fn is_running(self) -> bool {
        self.running
    }

    pub fn new() -> (r: Self)
        ensures
            !r.is_running(),
    {
        ServiceLifecycle { running: false }
    }

    pub fn running(&self) -> (r: bool)
        ensures
            r == self.is_running(),
    {
        self.running
    }

    /// Request a start. The result says whether this request is the one
    /// that starts the listener; after the call the flag is set either way,
    /// so no later request can start a second one.
    pub fn try_start(&mut self) -> (started: bool)
        ensures
            (final (self).is_running(), started) == start_transition(old(self).is_running()),
    {
        let was = self.running;
        self.running = true;
        !was
    }

    /// Clear the flag so the supervisor loop winds down on its next clean
    /// exit.
    pub fn stop(&mut self)
        ensures
            !final (self).is_running(),
    {
        self.running = false;
    }
}

/// However the flag started out, two consecutive start requests never both
/// start a listener, and the second leaves the flag exactly where the first
/// put it.
pub proof fn lemma_second_start_is_noop(running: bool)
    ensures
        ({
            let (after_first, first_started) = start_transition(running);
            let (after_second, second_started) = start_transition(after_first);
            &&& !(first_started && second_started)
            &&& !second_started
            &&& after_second == after_first
            &&& first_started == !running
        }),
{
}

} // verus!
