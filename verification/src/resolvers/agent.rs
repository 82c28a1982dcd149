//! Agent registry queries and runtime mutations.

use vstd::prelude::*;

use super::{after_session, answer, params_view, ControlCall, Param, ParamValue, ResolverError};
use crate::strings::owned;

verus! {

/// An agent of the registry.
pub struct Agent {
    pub id: String,
    pub name: String,
    pub kind: String,
    pub model: Option<String>,
    pub tool: Option<String>,
    pub enabled: bool,
}

impl Agent {
    /// Every field empty, absent or false.
    pub open spec fn is_blank(&self) -> bool {
        &&& self.id@.len() == 0
        &&& self.name@.len() == 0
        &&& self.kind@.len() == 0
        &&& self.model is None
        &&& self.tool is None
        &&& !self.enabled
    }
}

impl Default for Agent {
    fn default() -> (r: Agent)
        ensures
            r.is_blank(),
    {
        Agent {
            id: String::new(),
            name: String::new(),
            kind: String::new(),
            model: None,
            tool: None,
            enabled: false,
        }
    }
}

/// The `agent.list` request: every agent of the registry.
pub struct AgentListRequest;

impl AgentListRequest {
    /// The name of the control RPC.
    pub fn method(&self) -> (r: String)
        ensures
            r@ == "agent.list"@,
    {
        owned("agent.list")
    }

    /// The parameters the request carries, in order.
    pub open spec fn params_spec(req: AgentListRequest) -> Seq<(Seq<char>, ParamValue)> {
        seq![]
    }

    /// The parameters the request carries, in order.
    pub fn into_params(self) -> (r: Vec<Param>)
        ensures
            params_view(r@) == Self::params_spec(self),
    {
        let params: Vec<Param> = Vec::new();
        assert(params_view(params@) =~= Self::params_spec(self));
        params
    }
}

/// The `agent` query.
pub struct AgentQuery;

impl AgentQuery {
    /// The `agent.list` request that lists the agents, once the control
    /// session is open.
    pub fn agent(&self, session: Result<(), ResolverError>) -> (r: Result<
        AgentListRequest,
        ResolverError,
    >)
        ensures
            match session {
                Ok(_) => r is Ok,
                Err(e) => r == Err::<AgentListRequest, ResolverError>(e),
            },
    {
        after_session(session, AgentListRequest)
    }

    /// What the `agent` query answers for the daemon's reply to
    /// `agent.list`: the agents it listed, as listed; or the failure of
    /// `agent.list`.
    pub fn agent_reply(&self, reply: Result<Vec<Agent>, String>) -> (r: Result<
        Vec<Agent>,
        ResolverError,
    >)
        ensures
            match reply {
                Ok(agents) => r == Ok::<Vec<Agent>, ResolverError>(agents),
                Err(detail) => r matches Err(ResolverError::Rpc { method, detail: d }) && method@
                    == "agent.list"@ && d@ == detail@,
            },
    {
        match reply {
            Ok(agents) => Ok(agents),
            Err(detail) => Err(ResolverError::Rpc { method: owned("agent.list"), detail }),
        }
    }
}

/// The `enableAgent` and `disableAgent` mutations.
pub struct AgentMutation;

impl AgentMutation {
    /// The `agent.enable` call that enables the agent `id`, once the control
    /// session is open; the daemon's answer is the agent.
    pub fn enable_agent(&self, session: Result<(), ResolverError>, id: String) -> (r: Result<
        ControlCall,
        ResolverError,
    >)
        ensures
            r == answer(session, (ControlCall::AgentEnable { id })),
    {
        after_session(session, ControlCall::AgentEnable { id })
    }

    /// The `agent.disable` call that disables the agent `id`, once the control
    /// session is open; the daemon's answer is the agent.
    pub fn disable_agent(&self, session: Result<(), ResolverError>, id: String) -> (r: Result<
        ControlCall,
        ResolverError,
    >)
        ensures
            r == answer(session, (ControlCall::AgentDisable { id })),
    {
        after_session(session, ControlCall::AgentDisable { id })
    }
}

} // verus!
