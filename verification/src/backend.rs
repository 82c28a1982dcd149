//! The transport backend's schema advertisement and the bookkeeping of the
//! server task it starts and stops.

use vstd::prelude::*;

use crate::strings::owned;

verus! {

/// The port the backend listens on by default.
pub open spec fn graphql_default_port() -> u16 {
    8081
}

/// What a transport backend advertises to the daemon.
pub struct TransportSchema {
    /// The transport kinds it serves.
    pub kinds: Vec<String>,
    pub supports_streaming: bool,
    pub supports_websocket: bool,
    pub default_port: Option<u16>,
}

/// The schema this backend advertises: the `graphql` kind, with streaming
/// and WebSocket support, on port 8081 by default.
pub fn transport_schema() -> (r: TransportSchema)
    ensures
        r.kinds@.len() == 1,
        r.kinds@[0]@ == "graphql"@,
        r.supports_streaming,
        r.supports_websocket,
        r.default_port == Some(graphql_default_port()),
{
    let mut kinds: Vec<String> = Vec::new();
    kinds.push(owned("graphql"));
    TransportSchema {
        kinds,
        supports_streaming: true,
        supports_websocket: true,
        default_port: Some(8081),
    }
}

/// The slot after a start with `handle`, and the task to abort.
pub open spec fn start_step<H>(slot: Option<H>, handle: H) -> (Option<H>, Option<H>) {
    (Some(handle), slot)
}

/// The slot after a stop, and the task to abort.
pub open spec fn stop_step<H>(slot: Option<H>) -> (Option<H>, Option<H>) {
    (None, slot)
}

/// The slot that holds the running server task, if any. Starting a new
/// task hands back the previous one, which the caller aborts; stopping
/// hands back the running one.
pub struct TaskSlot<H> {
    current: Option<H>,
}

impl<H> View for TaskSlot<H> {
    /// The task that runs, if any.
    type V = Option<H>;

    closed spec fn view(&self) -> Option<H> {
        self.current
    }
}

impl<H> TaskSlot<H> {
    /// A slot with no task.
    pub fn new() -> (r: TaskSlot<H>)
        ensures
            r@ is None,
    {
        TaskSlot { current: None }
    }

    /// Whether a task is held.
    pub fn is_running(&self) -> (r: bool)
        ensures
            r == self@ is Some,
    {
        self.current.is_some()
    }

    /// Records `handle` as the running task and hands back the task that
    /// ran before, which must be aborted.
    pub fn start(&mut self, handle: H) -> (previous: Option<H>)
        ensures
            (final(self)@, previous) == start_step(old(self)@, handle),
    {
        let previous = self.current.take();
        self.current = Some(handle);
        previous
    }

    /// Empties the slot and hands back the task that ran, which must be
    /// aborted.
    pub fn stop(&mut self) -> (previous: Option<H>)
        ensures
            (final(self)@, previous) == stop_step(old(self)@),
    {
        self.current.take()
    }
}

/// At most one server task runs: a start keeps only the new task, and the
/// task it displaces is handed back for aborting; a stop right after a start
/// hands back exactly the task that start recorded and leaves nothing running.
pub proof fn lemma_start_then_stop<H>(slot: Option<H>, handle: H)
    ensures
        start_step(slot, handle).0 == Some(handle),
        start_step(slot, handle).1 == slot,
        stop_step(start_step(slot, handle).0) == (None::<H>, Some(handle)),
{
}

/// Stopping twice aborts nothing the second time.
pub proof fn lemma_stop_idempotent<H>(slot: Option<H>)
    ensures
        stop_step(stop_step(slot).0) == (None::<H>, None::<H>),
{
}

} // verus!
