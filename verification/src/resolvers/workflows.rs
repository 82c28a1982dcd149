//! Workflow queries, mutations, and event subscription.

use vstd::prelude::*;

use super::{
    after_session, answer, lemma_param_keys, param, params_view, rpc_failed, value_under,
    ControlCall, Param, ParamValue, ResolverError,
};
use crate::strings::{opt_view, owned};
use crate::time::{rfc3339_text, Timestamp};

verus! {

/// Lean workflow projection mirroring the control-wire workflow shape.
pub struct Workflow {
    pub id: String,
    pub name: String,
    pub status: String,
    pub created_at: String,
    pub updated_at: String,
    pub task_id: Option<String>,
    pub current_phase: Option<String>,
}

impl Workflow {
    /// Every field empty or absent.
    pub open spec fn is_blank(&self) -> bool {
        &&& self.id@.len() == 0
        &&& self.name@.len() == 0
        &&& self.status@.len() == 0
        &&& self.created_at@.len() == 0
        &&& self.updated_at@.len() == 0
        &&& self.task_id is None
        &&& self.current_phase is None
    }
}

impl Default for Workflow {
    fn default() -> (r: Workflow)
        ensures
            r.is_blank(),
    {
        Workflow {
            id: String::new(),
            name: String::new(),
            status: String::new(),
            created_at: String::new(),
            updated_at: String::new(),
            task_id: None,
            current_phase: None,
        }
    }
}

/// A workflow event as the daemon sends it on `workflow/event`.
pub struct WireWorkflowEvent {
    pub workflow_id: String,
    pub kind: String,
    /// The event's payload as compact JSON text.
    pub payload: String,
    pub occurred_at: Timestamp,
}

/// One event of the `workflowEvents` stream.
pub struct WorkflowEvent {
    pub workflow_id: String,
    pub kind: String,
    pub payload: String,
    pub at: String,
}

impl WorkflowEvent {
    /// `self` is what GraphQL shows of the wire event `event`.
    pub open spec fn projects(&self, event: &WireWorkflowEvent) -> bool {
        &&& self.workflow_id@ == event.workflow_id@
        &&& self.kind@ == event.kind@
        &&& self.payload@ == event.payload@
        &&& self.at@ == rfc3339_text(event.occurred_at@.0, event.occurred_at@.1)
    }

    /// Projects a wire event onto the stream's event.
    pub fn from_wire(event: WireWorkflowEvent) -> (r: WorkflowEvent)
        ensures
            r.projects(&event),
    {
        let at = event.occurred_at.to_rfc3339();
        WorkflowEvent {
            workflow_id: event.workflow_id,
            kind: event.kind,
            payload: event.payload,
            at,
        }
    }
}

/// The `workflow/events` request.
pub struct WorkflowEventsRequest {
    /// Only events of this workflow, when given.
    pub workflow_id: Option<String>,
    /// Only events of these kinds, when given.
    pub kinds: Option<Vec<String>>,
}

/// A workflow as the daemon reports it on the control wire.
pub struct WireWorkflow {
    pub id: String,
    pub name: String,
    pub status: String,
    pub created_at: Timestamp,
    pub updated_at: Timestamp,
    pub task_id: Option<String>,
    pub current_phase: Option<String>,
}

impl Workflow {
    /// `self` is what GraphQL shows of the wire workflow `w`.
    pub open spec fn projects(&self, w: &WireWorkflow) -> bool {
        &&& self.id@ == w.id@
        &&& self.name@ == w.name@
        &&& self.status@ == w.status@
        &&& self.created_at@ == rfc3339_text(w.created_at@.0, w.created_at@.1)
        &&& self.updated_at@ == rfc3339_text(w.updated_at@.0, w.updated_at@.1)
        &&& opt_view(self.task_id) == opt_view(w.task_id)
        &&& opt_view(self.current_phase) == opt_view(w.current_phase)
    }

    /// Projects a wire workflow onto the GraphQL record.
    pub fn from_wire(w: WireWorkflow) -> (r: Workflow)
        ensures
            r.projects(&w),
    {
        let created_at = w.created_at.to_rfc3339();
        let updated_at = w.updated_at.to_rfc3339();
        Workflow {
            id: w.id,
            name: w.name,
            status: w.status,
            created_at,
            updated_at,
            task_id: w.task_id,
            current_phase: w.current_phase,
        }
    }
}

/// The `workflow.list` request.
pub struct WorkflowListRequest {
    /// Only workflows with this status, when given.
    pub status: Option<String>,
}

/// The `workflow.get` request.
pub struct WorkflowGetRequest {
    pub id: String,
}

/// The `workflow.run` request.
pub struct WorkflowRunRequest {
    /// The task the workflow runs for.
    pub task_id: String,
    /// The workflow to run.
    pub workflow: String,
}

impl WorkflowListRequest {
    /// The name of the control RPC.
    pub fn method(&self) -> (r: String)
        ensures
            r@ == "workflow.list"@,
    {
        owned("workflow.list")
    }

    /// The parameters the request carries, in order.
    pub open spec fn params_spec(req: WorkflowListRequest) -> Seq<(Seq<char>, ParamValue)> {
        let WorkflowListRequest { status } = req;
        seq![("status"@, ParamValue::MaybeText(status))]
    }

    /// The parameters the request carries, in order.
    pub fn into_params(self) -> (r: Vec<Param>)
        ensures
            params_view(r@) == Self::params_spec(self),
    {
        let ghost req = self;
        let WorkflowListRequest { status } = self;
        let mut params: Vec<Param> = Vec::new();
        params.push(param("status", ParamValue::MaybeText(status)));
        assert(params_view(params@) =~= Self::params_spec(req));
        params
    }
}

impl WorkflowGetRequest {
    /// The name of the control RPC.
    pub fn method(&self) -> (r: String)
        ensures
            r@ == "workflow.get"@,
    {
        owned("workflow.get")
    }

    /// The parameters the request carries, in order.
    pub open spec fn params_spec(req: WorkflowGetRequest) -> Seq<(Seq<char>, ParamValue)> {
        let WorkflowGetRequest { id } = req;
        seq![("id"@, ParamValue::Text(id))]
    }

    /// The parameters the request carries, in order.
    pub fn into_params(self) -> (r: Vec<Param>)
        ensures
            params_view(r@) == Self::params_spec(self),
    {
        let ghost req = self;
        let WorkflowGetRequest { id } = self;
        let mut params: Vec<Param> = Vec::new();
        params.push(param("id", ParamValue::Text(id)));
        assert(params_view(params@) =~= Self::params_spec(req));
        params
    }
}

impl WorkflowRunRequest {
    /// The name of the control RPC.
    pub fn method(&self) -> (r: String)
        ensures
            r@ == "workflow.run"@,
    {
        owned("workflow.run")
    }

    /// The parameters the request carries, in order.
    pub open spec fn params_spec(req: WorkflowRunRequest) -> Seq<(Seq<char>, ParamValue)> {
        let WorkflowRunRequest { task_id, workflow } = req;
        seq![("task_id"@, ParamValue::Text(task_id)), ("workflow"@, ParamValue::Text(workflow))]
    }

    /// The parameters the request carries, in order.
    pub fn into_params(self) -> (r: Vec<Param>)
        ensures
            params_view(r@) == Self::params_spec(self),
    {
        let ghost req = self;
        let WorkflowRunRequest { task_id, workflow } = self;
        let mut params: Vec<Param> = Vec::new();
        params.push(param("task_id", ParamValue::Text(task_id)));
        params.push(param("workflow", ParamValue::Text(workflow)));
        assert(params_view(params@) =~= Self::params_spec(req));
        params
    }
}

/// The workflow requests send each field under its own name: the listed
/// status, the looked-up id, and the run's task and workflow.
pub proof fn lemma_workflow_requests_carry_fields(
    status: Option<String>,
    id: String,
    task_id: String,
    workflow: String,
)
    ensures
        value_under(WorkflowListRequest::params_spec(WorkflowListRequest { status }), "status"@)
            == Some(ParamValue::MaybeText(status)),
        value_under(WorkflowGetRequest::params_spec(WorkflowGetRequest { id }), "id"@) == Some(
            ParamValue::Text(id),
        ),
        ({
            let p = WorkflowRunRequest::params_spec(WorkflowRunRequest { task_id, workflow });
            &&& value_under(p, "task_id"@) == Some(ParamValue::Text(task_id))
            &&& value_under(p, "workflow"@) == Some(ParamValue::Text(workflow))
        }),
{
    lemma_param_keys();
    reveal_with_fuel(value_under, 3);
}

/// `w` passes the status filter `status`.
pub open spec fn status_matches(status: Option<Seq<char>>, w: WireWorkflow) -> bool {
    match status {
        Some(s) => w.status@ == s,
        None => true,
    }
}

/// The workflows of `listed` that pass the status filter, in order.
pub open spec fn kept_workflows(listed: Seq<WireWorkflow>, status: Option<Seq<char>>) -> Seq<
    WireWorkflow,
>
    decreases listed.len(),
{
    if listed.len() == 0 {
        Seq::empty()
    } else {
        let rest = kept_workflows(listed.drop_last(), status);
        if status_matches(status, listed.last()) {
            rest.push(listed.last())
        } else {
            rest
        }
    }
}

/// Every workflow kept by the filter passes it, and every listed workflow
/// that passes it is kept.
pub proof fn lemma_kept_workflows(listed: Seq<WireWorkflow>, status: Option<Seq<char>>)
    ensures
        forall|i: int|
            0 <= i < kept_workflows(listed, status).len() ==> status_matches(
                status,
                #[trigger] kept_workflows(listed, status)[i],
            ) && listed.contains(kept_workflows(listed, status)[i]),
        forall|i: int|
            0 <= i < listed.len() && status_matches(status, #[trigger] listed[i]) ==> kept_workflows(
                listed,
                status,
            ).contains(listed[i]),
        status is None ==> kept_workflows(listed, status) == listed,
    decreases listed.len(),
{
    if listed.len() > 0 {
        let init = listed.drop_last();
        lemma_kept_workflows(init, status);
        let k = kept_workflows(listed, status);
        let ki = kept_workflows(init, status);
        assert forall|i: int| 0 <= i < k.len() implies status_matches(status, #[trigger] k[i])
            && listed.contains(k[i]) by {
            if i < ki.len() {
                assert(k[i] == ki[i]);
                let j = choose|j: int| 0 <= j < init.len() && init[j] == ki[i];
                assert(listed[j] == init[j]);
            } else {
                assert(k[i] == listed.last());
                assert(listed[listed.len() - 1] == listed.last());
            }
        }
        assert forall|i: int| 0 <= i < listed.len() && status_matches(status, #[trigger] listed[i])
            implies k.contains(listed[i]) by {
            if i < listed.len() - 1 {
                assert(init[i] == listed[i]);
                let j = choose|j: int| 0 <= j < ki.len() && ki[j] == init[i];
                assert(k[j] == ki[j]);
            } else {
                assert(k[k.len() - 1] == listed.last());
            }
        }
        if status is None {
            assert(k =~= listed);
        }
    } else {
        if status is None {
            assert(kept_workflows(listed, status) =~= listed);
        }
    }
}

/// The `workflows` and `workflow` queries.
pub struct WorkflowQuery;

impl WorkflowQuery {
    /// The `workflow.list` request that lists workflows, optionally filtered
    /// by status, once the control session is open.
    pub fn workflows(&self, session: Result<(), ResolverError>, status: Option<String>) -> (r:
        Result<WorkflowListRequest, ResolverError>)
        ensures
            match session {
                Ok(_) => r matches Ok(req) && req.status == status,
                Err(e) => r == Err::<WorkflowListRequest, ResolverError>(e),
            },
    {
        after_session(session, WorkflowListRequest { status })
    }

    /// What the `workflows` query answers for the daemon's reply to
    /// `workflow.list`: the listed workflows that have the requested status
    /// (all of them when no status was requested), projected and in order;
    /// or the failure of `workflow.list`.
    pub fn workflows_reply(
        &self,
        status: &Option<String>,
        reply: Result<Vec<WireWorkflow>, String>,
    ) -> (r: Result<Vec<Workflow>, ResolverError>)
        ensures
            match reply {
                Ok(listed) => r matches Ok(out) && {
                    let kept = kept_workflows(listed@, opt_view(*status));
                    &&& out@.len() == kept.len()
                    &&& forall|i: int| 0 <= i < kept.len() ==> #[trigger] out@[i].projects(&kept[i])
                },
                Err(detail) => r matches Err(e) && rpc_failed(e, "workflow.list"@, detail@),
            },
    {
        match reply {
            Ok(listed) => {
                let ghost all = listed@;
                let ghost wanted = opt_view(*status);
                let mut out: Vec<Workflow> = Vec::new();
                let ghost mut kept: Seq<WireWorkflow> = Seq::empty();
                for w in it: listed.into_iter()
                    invariant
                        it.seq() == all,
                        wanted == opt_view(*status),
                        kept == kept_workflows(all.take(it.index() as int), wanted),
                        out@.len() == kept.len(),
                        forall|i: int| 0 <= i < kept.len() ==> #[trigger] out@[i].projects(&kept[i]),
                {
                    let ghost i = it.index() as int;
                    proof {
                        assert(all.take(i + 1).drop_last() =~= all.take(i));
                        assert(all.take(i + 1).last() == all[i]);
                    }
                    let keep = match status {
                        Some(s) => w.status == *s,
                        None => true,
                    };
                    if keep {
                        proof {
                            kept = kept.push(w);
                        }
                        out.push(Workflow::from_wire(w));
                    }
                }
                proof {
                    assert(all.take(all.len() as int) =~= all);
                }
                Ok(out)
            },
            Err(detail) => Err(ResolverError::Rpc { method: owned("workflow.list"), detail }),
        }
    }

    /// The `workflow.get` request that looks up the workflow `id`, once the
    /// control session is open.
    pub fn workflow(&self, session: Result<(), ResolverError>, id: String) -> (r: Result<
        WorkflowGetRequest,
        ResolverError,
    >)
        ensures
            match session {
                Ok(_) => r matches Ok(req) && req.id@ == id@,
                Err(e) => r == Err::<WorkflowGetRequest, ResolverError>(e),
            },
    {
        after_session(session, WorkflowGetRequest { id })
    }

    /// What the `workflow` query answers for the daemon's reply to
    /// `workflow.get` on `id`: the workflow found, projected, when the
    /// daemon found one with that id; nothing when it found none (or one
    /// with another id); or the failure of `workflow.get`.
    pub fn workflow_reply(&self, id: &String, reply: Result<Option<WireWorkflow>, String>) -> (r:
        Result<Option<Workflow>, ResolverError>)
        ensures
            match reply {
                Ok(Some(w)) => if w.id@ == id@ {
                    r matches Ok(Some(x)) && x.projects(&w) && x.id@ == id@
                } else {
                    r matches Ok(None)
                },
                Ok(None) => r matches Ok(None),
                Err(detail) => r matches Err(e) && rpc_failed(e, "workflow.get"@, detail@),
            },
    {
        match reply {
            Ok(Some(w)) => {
                if w.id == *id {
                    Ok(Some(Workflow::from_wire(w)))
                } else {
                    Ok(None)
                }
            },
            Ok(None) => Ok(None),
            Err(detail) => Err(ResolverError::Rpc { method: owned("workflow.get"), detail }),
        }
    }
}

/// The workflow mutations.
pub struct WorkflowMutation;

impl WorkflowMutation {
    /// The `workflow.run` request that runs `workflow` for the task
    /// `task_id`, once the control session is open.
    pub fn run_workflow(
        &self,
        session: Result<(), ResolverError>,
        task_id: String,
        workflow: String,
    ) -> (r: Result<WorkflowRunRequest, ResolverError>)
        ensures
            match session {
                Ok(_) => r matches Ok(req) && req.task_id@ == task_id@ && req.workflow@
                    == workflow@,
                Err(e) => r == Err::<WorkflowRunRequest, ResolverError>(e),
            },
    {
        after_session(session, WorkflowRunRequest { task_id, workflow })
    }

    /// What `runWorkflow` answers for the daemon's reply to `workflow.run`:
    /// the started workflow, projected; or the failure of `workflow.run`.
    pub fn run_workflow_reply(&self, reply: Result<WireWorkflow, String>) -> (r: Result<
        Workflow,
        ResolverError,
    >)
        ensures
            match reply {
                Ok(w) => r matches Ok(x) && x.projects(&w),
                Err(detail) => r matches Err(e) && rpc_failed(e, "workflow.run"@, detail@),
            },
    {
        match reply {
            Ok(w) => Ok(Workflow::from_wire(w)),
            Err(detail) => Err(ResolverError::Rpc { method: owned("workflow.run"), detail }),
        }
    }

    /// The `workflow.pause` call for the workflow `id`, once the control
    /// session is open; the mutation answers `true` when the daemon acknowledges it.
    pub fn pause_workflow(&self, session: Result<(), ResolverError>, id: String) -> (r: Result<
        ControlCall,
        ResolverError,
    >)
        ensures
            r == answer(session, (ControlCall::WorkflowPause { id })),
    {
        after_session(session, ControlCall::WorkflowPause { id })
    }

    /// The `workflow.resume` call for the workflow `id`, once the control
    /// session is open; the mutation answers `true` when the daemon acknowledges it.
    pub fn resume_workflow(&self, session: Result<(), ResolverError>, id: String) -> (r: Result<
        ControlCall,
        ResolverError,
    >)
        ensures
            r == answer(session, (ControlCall::WorkflowResume { id })),
    {
        after_session(session, ControlCall::WorkflowResume { id })
    }

    /// The `workflow.cancel` call for the workflow `id`, once the control
    /// session is open; the mutation answers `true` when the daemon acknowledges it.
    pub fn cancel_workflow(&self, session: Result<(), ResolverError>, id: String) -> (r: Result<
        ControlCall,
        ResolverError,
    >)
        ensures
            r == answer(session, (ControlCall::WorkflowCancel { id })),
    {
        after_session(session, ControlCall::WorkflowCancel { id })
    }
}

/// The `workflowEvents` subscription.
pub struct WorkflowEventsSubscription;

impl WorkflowEventsSubscription {
    /// The `workflow/events` request the subscription sends once the control
    /// session is open: the requested workflow and kinds, as given.
    pub fn workflow_events(
        &self,
        session: Result<(), ResolverError>,
        workflow_id: Option<String>,
        kinds: Option<Vec<String>>,
    ) -> (r: Result<WorkflowEventsRequest, ResolverError>)
        ensures
            match session {
                Ok(_) => r matches Ok(req) && req.workflow_id == workflow_id && req.kinds == kinds,
                Err(e) => r == Err::<WorkflowEventsRequest, ResolverError>(e),
            },
    {
        after_session(session, WorkflowEventsRequest { workflow_id, kinds })
    }

    /// The daemon's answer to `workflow/events`: the subscription when it was
    /// accepted, the failure of `workflow/events` otherwise.
    pub fn events_outcome<S>(&self, reply: Result<S, String>) -> (r: Result<S, ResolverError>)
        ensures
            match reply {
                Ok(s) => r == Ok::<S, ResolverError>(s),
                Err(detail) => r matches Err(ResolverError::Rpc { method, detail: d }) && method@
                    == "workflow/events"@ && d@ == detail@,
            },
    {
        match reply {
            Ok(s) => Ok(s),
            Err(detail) => Err(ResolverError::Rpc { method: owned("workflow/events"), detail }),
        }
    }
}

} // verus!
