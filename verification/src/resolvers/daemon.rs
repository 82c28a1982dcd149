//! Daemon health/status queries, control mutations, and event stream.

use vstd::prelude::*;

use super::{after_session, answer, params_view, ControlCall, Param, ParamValue, ResolverError};
use crate::strings::owned;
use crate::time::{rfc3339_text, Timestamp};

verus! {

/// Whether the daemon runs, and since when.
pub struct DaemonStatus {
    pub running: bool,
    pub pid: Option<i32>,
    pub started_at: Option<String>,
    pub version: Option<String>,
    pub uptime_seconds: Option<i64>,
}

impl DaemonStatus {
    /// Not running, and nothing else known.
    pub open spec fn is_blank(&self) -> bool {
        &&& !self.running
        &&& self.pid is None
        &&& self.started_at is None
        &&& self.version is None
        &&& self.uptime_seconds is None
    }
}

impl Default for DaemonStatus {
    fn default() -> (r: DaemonStatus)
        ensures
            r.is_blank(),
    {
        DaemonStatus {
            running: false,
            pid: None,
            started_at: None,
            version: None,
            uptime_seconds: None,
        }
    }
}

/// The outcome of one health check.
pub struct HealthCheck {
    pub name: String,
    pub healthy: bool,
    pub message: Option<String>,
}

impl HealthCheck {
    /// Every field empty, absent or false.
    pub open spec fn is_blank(&self) -> bool {
        &&& self.name@.len() == 0
        &&& !self.healthy
        &&& self.message is None
    }
}

impl Default for HealthCheck {
    fn default() -> (r: HealthCheck)
        ensures
            r.is_blank(),
    {
        HealthCheck { name: String::new(), healthy: false, message: None }
    }
}

/// The daemon's health and the checks it rests on.
pub struct DaemonHealth {
    pub healthy: bool,
    pub checks: Vec<HealthCheck>,
}

impl DaemonHealth {
    /// Not healthy, with no checks.
    pub open spec fn is_blank(&self) -> bool {
        &&& !self.healthy
        &&& self.checks@.len() == 0
    }
}

impl Default for DaemonHealth {
    fn default() -> (r: DaemonHealth)
        ensures
            r.is_blank(),
    {
        DaemonHealth { healthy: false, checks: Vec::new() }
    }
}

/// One event of the daemon's event stream.
pub struct DaemonEvent {
    pub kind: String,
    pub payload: String,
    pub at: String,
}

impl DaemonEvent {
    /// Every field empty.
    pub open spec fn is_blank(&self) -> bool {
        &&& self.kind@.len() == 0
        &&& self.payload@.len() == 0
        &&& self.at@.len() == 0
    }
}

impl Default for DaemonEvent {
    fn default() -> (r: DaemonEvent)
        ensures
            r.is_blank(),
    {
        DaemonEvent { kind: String::new(), payload: String::new(), at: String::new() }
    }
}

/// The `daemon` and `daemonHealth` queries.
pub struct DaemonQuery;

impl DaemonQuery {
    /// The `daemon.status` call, once the control session is open; the
    /// daemon's answer is its status.
    pub fn daemon(&self, session: Result<(), ResolverError>) -> (r: Result<
        ControlCall,
        ResolverError,
    >)
        ensures
            r == answer(session, (ControlCall::DaemonStatus)),
    {
        after_session(session, ControlCall::DaemonStatus)
    }

    /// The `daemon.health` call, once the control session is open; the
    /// daemon's answer is its health report.
    pub fn daemon_health(&self, session: Result<(), ResolverError>) -> (r: Result<
        ControlCall,
        ResolverError,
    >)
        ensures
            r == answer(session, (ControlCall::DaemonHealth)),
    {
        after_session(session, ControlCall::DaemonHealth)
    }
}

/// The `pauseDaemon` and `resumeDaemon` mutations.
pub struct DaemonMutation;

impl DaemonMutation {
    /// The `daemon.pause` call, once the control session is open; the
    /// mutation answers `true` when the daemon acknowledges it.
    pub fn pause_daemon(&self, session: Result<(), ResolverError>) -> (r: Result<
        ControlCall,
        ResolverError,
    >)
        ensures
            r == answer(session, (ControlCall::DaemonPause)),
    {
        after_session(session, ControlCall::DaemonPause)
    }

    /// The `daemon.resume` call, once the control session is open; the
    /// mutation answers `true` when the daemon acknowledges it.
    pub fn resume_daemon(&self, session: Result<(), ResolverError>) -> (r: Result<
        ControlCall,
        ResolverError,
    >)
        ensures
            r == answer(session, (ControlCall::DaemonResume)),
    {
        after_session(session, ControlCall::DaemonResume)
    }
}

/// A daemon event as the daemon sends it on its `daemon.events` stream.
pub struct WireDaemonEvent {
    pub kind: String,
    /// The event's payload as compact JSON text.
    pub payload: String,
    pub at: Timestamp,
}

impl DaemonEvent {
    /// `self` is what GraphQL shows of the wire event `event`.
    pub open spec fn projects(&self, event: &WireDaemonEvent) -> bool {
        &&& self.kind@ == event.kind@
        &&& self.payload@ == event.payload@
        &&& self.at@ == rfc3339_text(event.at@.0, event.at@.1)
    }

    /// Projects a wire event onto the stream's event.
    pub fn from_wire(event: WireDaemonEvent) -> (r: DaemonEvent)
        ensures
            r.projects(&event),
    {
        let at = event.at.to_rfc3339();
        DaemonEvent { kind: event.kind, payload: event.payload, at }
    }
}

/// The `daemon.events` request: every daemon event, from now on.
pub struct DaemonEventsRequest;

impl DaemonEventsRequest {
    /// The name of the control RPC.
    pub fn method(&self) -> (r: String)
        ensures
            r@ == "daemon.events"@,
    {
        owned("daemon.events")
    }

    /// The parameters the request carries, in order.
    pub open spec fn params_spec(req: DaemonEventsRequest) -> Seq<(Seq<char>, ParamValue)> {
        seq![]
    }

    /// The parameters the request carries, in order.
    pub fn into_params(self) -> (r: Vec<Param>)
        ensures
            params_view(r@) == Self::params_spec(self),
    {
        let params: Vec<Param> = Vec::new();
        assert(params_view(params@) =~= Self::params_spec(self));
        params
    }
}

/// The `daemonEvents` subscription.
pub struct DaemonEventsSubscription;

impl DaemonEventsSubscription {
    /// The `daemon.events` request the subscription sends once the control
    /// session is open.
    pub fn daemon_events(&self, session: Result<(), ResolverError>) -> (r: Result<
        DaemonEventsRequest,
        ResolverError,
    >)
        ensures
            match session {
                Ok(_) => r is Ok,
                Err(e) => r == Err::<DaemonEventsRequest, ResolverError>(e),
            },
    {
        after_session(session, DaemonEventsRequest)
    }

    /// What the stream yields for one notification on `daemon.events`: the
    /// projected event when the notification decoded; nothing when it did
    /// not, so that a malformed notification is skipped and the stream goes on.
    pub fn on_notification(&self, notification: Result<WireDaemonEvent, String>) -> (r: Option<
        DaemonEvent,
    >)
        ensures
            match notification {
                Ok(event) => r matches Some(x) && x.projects(&event),
                Err(_) => r is None,
            },
    {
        match notification {
            Ok(event) => Some(DaemonEvent::from_wire(event)),
            Err(_) => None,
        }
    }

    /// The daemon's answer to `daemon.events`: the subscription when it was
    /// accepted, the failure of `daemon.events` otherwise.
    pub fn events_outcome<S>(&self, reply: Result<S, String>) -> (r: Result<S, ResolverError>)
        ensures
            match reply {
                Ok(s) => r == Ok::<S, ResolverError>(s),
                Err(detail) => r matches Err(ResolverError::Rpc { method, detail: d }) && method@
                    == "daemon.events"@ && d@ == detail@,
            },
    {
        match reply {
            Ok(s) => Ok(s),
            Err(detail) => Err(ResolverError::Rpc { method: owned("daemon.events"), detail }),
        }
    }
}

} // verus!
