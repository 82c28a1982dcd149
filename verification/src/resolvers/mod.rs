//! Category-scoped resolvers. Each module holds the GraphQL records of its
//! category and a `*Query`, `*Mutation` or `*Subscription` type whose
//! methods decide what a GraphQL operation answers, once the control
//! session for the request has been opened (or has failed to open).

use vstd::prelude::*;

use crate::config::GraphqlConfig;
use crate::strings::{join2, owned};
use plugin::InstallPluginInput;
use queue::EnqueueInput;
use subject::{CreateSubjectInput, UpdateSubjectInput};

pub mod agent;
pub mod daemon;
pub mod plugin;
pub mod queue;
pub mod subject;
pub mod workflows;

verus! {

/// Why a resolver failed.
#[derive(Clone, Debug)]
pub enum ResolverError {
    /// The schema was built without a configuration.
    MissingConfig,
    /// The control socket could not be reached; the detail says why.
    Connect(String),
    /// The control RPC `method` failed; the detail says why.
    Rpc { method: String, detail: String },
}

impl ResolverError {
    /// The text the GraphQL error carries.
    pub open spec fn message_spec(&self) -> Seq<char> {
        match self {
            ResolverError::MissingConfig => "graphql config not injected into schema context"@,
            ResolverError::Connect(detail) => "failed to connect to control socket: "@ + detail@,
            ResolverError::Rpc { method, detail } => method@ + " failed: "@ + detail@,
        }
    }

    /// The text the GraphQL error carries.
    pub fn message(&self) -> (r: String)
        ensures
            r@ == self.message_spec(),
    {
        match self {
            ResolverError::MissingConfig => String::from_str(
                "graphql config not injected into schema context",
            ),
            ResolverError::Connect(detail) => join2(
                "failed to connect to control socket: ",
                detail.as_str(),
            ),
            ResolverError::Rpc { method, detail } => {
                let head = join2(method.as_str(), " failed: ");
                join2(head.as_str(), detail.as_str())
            },
        }
    }
}

/// A failure to reach the daemon is reported as a control-socket failure:
/// its text holds the words `control socket`.
pub proof fn lemma_connect_failure_names_socket(detail: String)
    ensures
        ResolverError::Connect(detail).message_spec().subrange(21, 35) == "control socket"@,
{
    reveal_strlit("failed to connect to control socket: ");
    reveal_strlit("control socket");
    let prefix = "failed to connect to control socket: "@;
    let m = ResolverError::Connect(detail).message_spec();
    assert(m == prefix + detail@);
    assert(prefix.len() == 37);
    assert forall|i: int| 0 <= i < 14 implies m.subrange(21, 35)[i] == "control socket"@[i] by {
        assert(m[21 + i] == prefix[21 + i]);
    }
    assert(m.subrange(21, 35) =~= "control socket"@);
}

/// The control socket a resolver connects to: the one the schema's
/// configuration names, or `MissingConfig` when no configuration was
/// injected into the schema.
pub fn control_socket_for(config: Option<&GraphqlConfig>) -> (r: Result<Vec<u8>, ResolverError>)
    ensures
        config is None ==> r matches Err(ResolverError::MissingConfig),
        config matches Some(c) ==> (r matches Ok(p) && p@ == c.control_socket_path@),
{
    match config {
        Some(c) => {
            let path = c.control_socket_path.clone();
            assert(path@ =~= c.control_socket_path@);
            Ok(path)
        },
        None => Err(ResolverError::MissingConfig),
    }
}

/// A control RPC that a resolver sends, with its parameters.
pub enum ControlCall {
    /// Enables the agent `id`.
    AgentEnable { id: String },
    /// Disables the agent `id`.
    AgentDisable { id: String },
    /// Reports the daemon's status.
    DaemonStatus,
    /// Reports the daemon's health.
    DaemonHealth,
    /// Pauses the daemon.
    DaemonPause,
    /// Resumes the daemon.
    DaemonResume,
    /// Lists the plugins, optionally of one kind.
    PluginList { kind: Option<String> },
    /// Installs a plugin.
    PluginInstall(InstallPluginInput),
    /// Uninstalls the plugin `id`.
    PluginUninstall { id: String },
    /// Counts the queue entries by state.
    QueueStats,
    /// Enqueues a task.
    QueueEnqueue(EnqueueInput),
    /// Drops the entry `id`.
    QueueDrop { id: String },
    /// Holds the entry `id`, for the reason given.
    QueueHold { id: String, reason: Option<String> },
    /// Releases the held entry `id`.
    QueueRelease { id: String },
    /// Puts the entries `ids` in this order.
    QueueReorder { ids: Vec<String> },
    /// Lists the subjects, optionally of one kind.
    SubjectList { kind: Option<String> },
    /// Creates a subject.
    SubjectCreate(CreateSubjectInput),
    /// Updates a subject.
    SubjectUpdate(UpdateSubjectInput),
    /// Pauses the workflow `id`.
    WorkflowPause { id: String },
    /// Resumes the workflow `id`.
    WorkflowResume { id: String },
    /// Cancels the workflow `id`.
    WorkflowCancel { id: String },
}

impl ControlCall {
    /// The name of the control RPC.
    pub open spec fn method_spec(&self) -> Seq<char> {
        match self {
        ControlCall::AgentEnable { .. } => "agent.enable"@,
        ControlCall::AgentDisable { .. } => "agent.disable"@,
        ControlCall::DaemonStatus => "daemon.status"@,
        ControlCall::DaemonHealth => "daemon.health"@,
        ControlCall::DaemonPause => "daemon.pause"@,
        ControlCall::DaemonResume => "daemon.resume"@,
        ControlCall::PluginList { .. } => "plugin.list"@,
        ControlCall::PluginInstall(..) => "plugin.install"@,
        ControlCall::PluginUninstall { .. } => "plugin.uninstall"@,
        ControlCall::QueueStats => "queue.stats"@,
        ControlCall::QueueEnqueue(..) => "queue.enqueue"@,
        ControlCall::QueueDrop { .. } => "queue.drop"@,
        ControlCall::QueueHold { .. } => "queue.hold"@,
        ControlCall::QueueRelease { .. } => "queue.release"@,
        ControlCall::QueueReorder { .. } => "queue.reorder"@,
        ControlCall::SubjectList { .. } => "subject.list"@,
        ControlCall::SubjectCreate(..) => "subject.create"@,
        ControlCall::SubjectUpdate(..) => "subject.update"@,
        ControlCall::WorkflowPause { .. } => "workflow.pause"@,
        ControlCall::WorkflowResume { .. } => "workflow.resume"@,
        ControlCall::WorkflowCancel { .. } => "workflow.cancel"@,
        }
    }

    /// The name of the control RPC.
    pub fn method(&self) -> (r: String)
        ensures
            r@ == self.method_spec(),
    {
        match self {
        ControlCall::AgentEnable { .. } => owned("agent.enable"),
        ControlCall::AgentDisable { .. } => owned("agent.disable"),
        ControlCall::DaemonStatus => owned("daemon.status"),
        ControlCall::DaemonHealth => owned("daemon.health"),
        ControlCall::DaemonPause => owned("daemon.pause"),
        ControlCall::DaemonResume => owned("daemon.resume"),
        ControlCall::PluginList { .. } => owned("plugin.list"),
        ControlCall::PluginInstall(..) => owned("plugin.install"),
        ControlCall::PluginUninstall { .. } => owned("plugin.uninstall"),
        ControlCall::QueueStats => owned("queue.stats"),
        ControlCall::QueueEnqueue(..) => owned("queue.enqueue"),
        ControlCall::QueueDrop { .. } => owned("queue.drop"),
        ControlCall::QueueHold { .. } => owned("queue.hold"),
        ControlCall::QueueRelease { .. } => owned("queue.release"),
        ControlCall::QueueReorder { .. } => owned("queue.reorder"),
        ControlCall::SubjectList { .. } => owned("subject.list"),
        ControlCall::SubjectCreate(..) => owned("subject.create"),
        ControlCall::SubjectUpdate(..) => owned("subject.update"),
        ControlCall::WorkflowPause { .. } => owned("workflow.pause"),
        ControlCall::WorkflowResume { .. } => owned("workflow.resume"),
        ControlCall::WorkflowCancel { .. } => owned("workflow.cancel"),
        }
    }
}

/// A value a control RPC carries.
pub enum ParamValue {
    Text(String),
    /// A text that may be absent (`null` on the wire).
    MaybeText(Option<String>),
    Integer(i64),
    Texts(Vec<String>),
}

/// A named parameter of a control RPC.
pub struct Param {
    pub key: String,
    pub value: ParamValue,
}

impl View for Param {
    type V = (Seq<char>, ParamValue);

    open spec fn view(&self) -> (Seq<char>, ParamValue) {
        (self.key@, self.value)
    }
}

/// The parameter `key` with `value`.
pub fn param(key: &str, value: ParamValue) -> (r: Param)
    ensures
        r@ == (key@, value),
{
    Param { key: owned(key), value }
}

/// The views of a parameter list.
pub open spec fn params_view(params: Seq<Param>) -> Seq<(Seq<char>, ParamValue)> {
    params.map_values(|p: Param| p@)
}

/// The parameters of a control call, in order.
pub open spec fn call_params(call: ControlCall) -> Seq<(Seq<char>, ParamValue)> {
    match call {
        ControlCall::AgentEnable { id } => seq![("id"@, ParamValue::Text(id))],
        ControlCall::AgentDisable { id } => seq![("id"@, ParamValue::Text(id))],
        ControlCall::DaemonStatus => seq![],
        ControlCall::DaemonHealth => seq![],
        ControlCall::DaemonPause => seq![],
        ControlCall::DaemonResume => seq![],
        ControlCall::PluginList { kind } => seq![("kind"@, ParamValue::MaybeText(kind))],
        ControlCall::PluginInstall(input) => seq![("source"@, ParamValue::Text(input.source)), ("kind"@, ParamValue::MaybeText(input.kind)), ("version"@, ParamValue::MaybeText(input.version))],
        ControlCall::PluginUninstall { id } => seq![("id"@, ParamValue::Text(id))],
        ControlCall::QueueStats => seq![],
        ControlCall::QueueEnqueue(input) => seq![("task_id"@, ParamValue::Text(input.task_id)), ("workflow"@, ParamValue::Text(input.workflow)), ("priority"@, ParamValue::Integer(input.priority as i64))],
        ControlCall::QueueDrop { id } => seq![("id"@, ParamValue::Text(id))],
        ControlCall::QueueHold { id, reason } => seq![("id"@, ParamValue::Text(id)), ("reason"@, ParamValue::MaybeText(reason))],
        ControlCall::QueueRelease { id } => seq![("id"@, ParamValue::Text(id))],
        ControlCall::QueueReorder { ids } => seq![("ids"@, ParamValue::Texts(ids))],
        ControlCall::SubjectList { kind } => seq![("kind"@, ParamValue::MaybeText(kind))],
        ControlCall::SubjectCreate(input) => seq![("kind"@, ParamValue::Text(input.kind)), ("title"@, ParamValue::Text(input.title)), ("metadata"@, ParamValue::MaybeText(input.metadata))],
        ControlCall::SubjectUpdate(input) => seq![("id"@, ParamValue::Text(input.id)), ("title"@, ParamValue::MaybeText(input.title)), ("status"@, ParamValue::MaybeText(input.status)), ("metadata"@, ParamValue::MaybeText(input.metadata))],
        ControlCall::WorkflowPause { id } => seq![("id"@, ParamValue::Text(id))],
        ControlCall::WorkflowResume { id } => seq![("id"@, ParamValue::Text(id))],
        ControlCall::WorkflowCancel { id } => seq![("id"@, ParamValue::Text(id))],
    }
}

/// The value a parameter list carries under `key`: that of its first
/// parameter named `key`, if any.
pub open spec fn value_under(params: Seq<(Seq<char>, ParamValue)>, key: Seq<char>) -> Option<
    ParamValue,
>
    decreases params.len(),
{
    if params.len() == 0 {
        None
    } else if params[0].0 == key {
        Some(params[0].1)
    } else {
        value_under(params.drop_first(), key)
    }
}

/// The entity a call acts on, for the calls that act on one: the agent,
/// plugin, queue entry, subject or workflow with that id.
pub open spec fn target_of(call: ControlCall) -> Option<String> {
    match call {
        ControlCall::AgentEnable { id } => Some(id),
        ControlCall::AgentDisable { id } => Some(id),
        ControlCall::PluginUninstall { id } => Some(id),
        ControlCall::QueueDrop { id } => Some(id),
        ControlCall::QueueHold { id, .. } => Some(id),
        ControlCall::QueueRelease { id } => Some(id),
        ControlCall::SubjectUpdate(input) => Some(input.id),
        ControlCall::WorkflowPause { id } => Some(id),
        ControlCall::WorkflowResume { id } => Some(id),
        ControlCall::WorkflowCancel { id } => Some(id),
        _ => None,
    }
}

/// The parameter names, spelled out character by character.
pub proof fn lemma_param_keys()
    ensures
        "id"@ == seq!['i', 'd'],
        "ids"@ == seq!['i', 'd', 's'],
        "reason"@ == seq!['r', 'e', 'a', 's', 'o', 'n'],
        "kind"@ == seq!['k', 'i', 'n', 'd'],
        "source"@ == seq!['s', 'o', 'u', 'r', 'c', 'e'],
        "version"@ == seq!['v', 'e', 'r', 's', 'i', 'o', 'n'],
        "task_id"@ == seq!['t', 'a', 's', 'k', '_', 'i', 'd'],
        "workflow"@ == seq!['w', 'o', 'r', 'k', 'f', 'l', 'o', 'w'],
        "priority"@ == seq!['p', 'r', 'i', 'o', 'r', 'i', 't', 'y'],
        "title"@ == seq!['t', 'i', 't', 'l', 'e'],
        "status"@ == seq!['s', 't', 'a', 't', 'u', 's'],
        "metadata"@ == seq!['m', 'e', 't', 'a', 'd', 'a', 't', 'a'],
{
    reveal_strlit("id");
    reveal_strlit("ids");
    reveal_strlit("reason");
    reveal_strlit("kind");
    reveal_strlit("source");
    reveal_strlit("version");
    reveal_strlit("task_id");
    reveal_strlit("workflow");
    reveal_strlit("priority");
    reveal_strlit("title");
    reveal_strlit("status");
    reveal_strlit("metadata");
    assert("id"@ =~= seq!['i', 'd']);
    assert("ids"@ =~= seq!['i', 'd', 's']);
    assert("reason"@ =~= seq!['r', 'e', 'a', 's', 'o', 'n']);
    assert("kind"@ =~= seq!['k', 'i', 'n', 'd']);
    assert("source"@ =~= seq!['s', 'o', 'u', 'r', 'c', 'e']);
    assert("version"@ =~= seq!['v', 'e', 'r', 's', 'i', 'o', 'n']);
    assert("task_id"@ =~= seq!['t', 'a', 's', 'k', '_', 'i', 'd']);
    assert("workflow"@ =~= seq!['w', 'o', 'r', 'k', 'f', 'l', 'o', 'w']);
    assert("priority"@ =~= seq!['p', 'r', 'i', 'o', 'r', 'i', 't', 'y']);
    assert("title"@ =~= seq!['t', 'i', 't', 'l', 'e']);
    assert("status"@ =~= seq!['s', 't', 'a', 't', 'u', 's']);
    assert("metadata"@ =~= seq!['m', 'e', 't', 'a', 'd', 'a', 't', 'a']);
}

/// A call that acts on one entity names it: its parameters carry the
/// entity's id under `id`.
pub proof fn lemma_targeted_calls_carry_id(call: ControlCall)
    ensures
        target_of(call) matches Some(id) ==> value_under(call_params(call), "id"@) == Some(
            ParamValue::Text(id),
        ),
{
    reveal_with_fuel(value_under, 2);
}

/// Holding a queue entry sends the entry's id and the reason given, absent
/// exactly when no reason was given.
pub proof fn lemma_hold_carries_reason(id: String, reason: Option<String>)
    ensures
        value_under(call_params(ControlCall::QueueHold { id, reason }), "id"@) == Some(
            ParamValue::Text(id),
        ),
        value_under(call_params(ControlCall::QueueHold { id, reason }), "reason"@) == Some(
            ParamValue::MaybeText(reason),
        ),
{
    lemma_param_keys();
    reveal_with_fuel(value_under, 3);
}

/// Enqueueing sends the task, the workflow and the priority given;
/// reordering sends the ids in the order given.
pub proof fn lemma_queue_calls_carry_arguments(input: EnqueueInput, ids: Vec<String>)
    ensures
        ({
            let p = call_params(ControlCall::QueueEnqueue(input));
            &&& value_under(p, "task_id"@) == Some(ParamValue::Text(input.task_id))
            &&& value_under(p, "workflow"@) == Some(ParamValue::Text(input.workflow))
            &&& value_under(p, "priority"@) == Some(ParamValue::Integer(input.priority as i64))
        }),
        value_under(call_params(ControlCall::QueueReorder { ids }), "ids"@) == Some(
            ParamValue::Texts(ids),
        ),
{
    lemma_param_keys();
    reveal_with_fuel(value_under, 4);
}

/// Subject calls send each field under its own name: the listed kind; the
/// created subject's kind, title and metadata; the updated subject's id,
/// title, status and metadata.
pub proof fn lemma_subject_calls_carry_fields(
    kind: Option<String>,
    created: CreateSubjectInput,
    updated: UpdateSubjectInput,
)
    ensures
        value_under(call_params(ControlCall::SubjectList { kind }), "kind"@) == Some(
            ParamValue::MaybeText(kind),
        ),
        ({
            let p = call_params(ControlCall::SubjectCreate(created));
            &&& value_under(p, "kind"@) == Some(ParamValue::Text(created.kind))
            &&& value_under(p, "title"@) == Some(ParamValue::Text(created.title))
            &&& value_under(p, "metadata"@) == Some(ParamValue::MaybeText(created.metadata))
        }),
        ({
            let p = call_params(ControlCall::SubjectUpdate(updated));
            &&& value_under(p, "id"@) == Some(ParamValue::Text(updated.id))
            &&& value_under(p, "title"@) == Some(ParamValue::MaybeText(updated.title))
            &&& value_under(p, "status"@) == Some(ParamValue::MaybeText(updated.status))
            &&& value_under(p, "metadata"@) == Some(ParamValue::MaybeText(updated.metadata))
        }),
{
    lemma_param_keys();
    reveal_with_fuel(value_under, 5);
}

/// Plugin calls send each field under its own name: the listed kind; the
/// installed plugin's source, kind and version.
pub proof fn lemma_plugin_calls_carry_fields(kind: Option<String>, input: InstallPluginInput)
    ensures
        value_under(call_params(ControlCall::PluginList { kind }), "kind"@) == Some(
            ParamValue::MaybeText(kind),
        ),
        ({
            let p = call_params(ControlCall::PluginInstall(input));
            &&& value_under(p, "source"@) == Some(ParamValue::Text(input.source))
            &&& value_under(p, "kind"@) == Some(ParamValue::MaybeText(input.kind))
            &&& value_under(p, "version"@) == Some(ParamValue::MaybeText(input.version))
        }),
{
    lemma_param_keys();
    reveal_with_fuel(value_under, 4);
}

/// The calls that take no arguments carry no parameters.
pub proof fn lemma_argumentless_calls_carry_nothing()
    ensures
        call_params(ControlCall::DaemonStatus).len() == 0,
        call_params(ControlCall::DaemonHealth).len() == 0,
        call_params(ControlCall::DaemonPause).len() == 0,
        call_params(ControlCall::DaemonResume).len() == 0,
        call_params(ControlCall::QueueStats).len() == 0,
{
}

impl ControlCall {
    /// The parameters the call carries, in order.
    pub fn into_params(self) -> (r: Vec<Param>)
        ensures
            params_view(r@) == call_params(self),
    {
        let ghost call = self;
        let mut params: Vec<Param> = Vec::new();
        match self {
        ControlCall::AgentEnable { id } => {
                params.push(param("id", ParamValue::Text(id)));
            },
        ControlCall::AgentDisable { id } => {
                params.push(param("id", ParamValue::Text(id)));
            },
        ControlCall::DaemonStatus => {

            },
        ControlCall::DaemonHealth => {

            },
        ControlCall::DaemonPause => {

            },
        ControlCall::DaemonResume => {

            },
        ControlCall::PluginList { kind } => {
                params.push(param("kind", ParamValue::MaybeText(kind)));
            },
        ControlCall::PluginInstall(input) => {
                params.push(param("source", ParamValue::Text(input.source)));
                params.push(param("kind", ParamValue::MaybeText(input.kind)));
                params.push(param("version", ParamValue::MaybeText(input.version)));
            },
        ControlCall::PluginUninstall { id } => {
                params.push(param("id", ParamValue::Text(id)));
            },
        ControlCall::QueueStats => {

            },
        ControlCall::QueueEnqueue(input) => {
                params.push(param("task_id", ParamValue::Text(input.task_id)));
                params.push(param("workflow", ParamValue::Text(input.workflow)));
                params.push(param("priority", ParamValue::Integer(input.priority as i64)));
            },
        ControlCall::QueueDrop { id } => {
                params.push(param("id", ParamValue::Text(id)));
            },
        ControlCall::QueueHold { id, reason } => {
                params.push(param("id", ParamValue::Text(id)));
                params.push(param("reason", ParamValue::MaybeText(reason)));
            },
        ControlCall::QueueRelease { id } => {
                params.push(param("id", ParamValue::Text(id)));
            },
        ControlCall::QueueReorder { ids } => {
                params.push(param("ids", ParamValue::Texts(ids)));
            },
        ControlCall::SubjectList { kind } => {
                params.push(param("kind", ParamValue::MaybeText(kind)));
            },
        ControlCall::SubjectCreate(input) => {
                params.push(param("kind", ParamValue::Text(input.kind)));
                params.push(param("title", ParamValue::Text(input.title)));
                params.push(param("metadata", ParamValue::MaybeText(input.metadata)));
            },
        ControlCall::SubjectUpdate(input) => {
                params.push(param("id", ParamValue::Text(input.id)));
                params.push(param("title", ParamValue::MaybeText(input.title)));
                params.push(param("status", ParamValue::MaybeText(input.status)));
                params.push(param("metadata", ParamValue::MaybeText(input.metadata)));
            },
        ControlCall::WorkflowPause { id } => {
                params.push(param("id", ParamValue::Text(id)));
            },
        ControlCall::WorkflowResume { id } => {
                params.push(param("id", ParamValue::Text(id)));
            },
        ControlCall::WorkflowCancel { id } => {
                params.push(param("id", ParamValue::Text(id)));
            },
        }
        assert(params_view(params@) =~= call_params(call));
        params
    }
}

/// Which operation a call is, numbered in declaration order.
pub open spec fn operation_of(call: ControlCall) -> int {
    match call {
        ControlCall::AgentEnable { .. } => 0,
        ControlCall::AgentDisable { .. } => 1,
        ControlCall::DaemonStatus => 2,
        ControlCall::DaemonHealth => 3,
        ControlCall::DaemonPause => 4,
        ControlCall::DaemonResume => 5,
        ControlCall::PluginList { .. } => 6,
        ControlCall::PluginInstall(..) => 7,
        ControlCall::PluginUninstall { .. } => 8,
        ControlCall::QueueStats => 9,
        ControlCall::QueueEnqueue(..) => 10,
        ControlCall::QueueDrop { .. } => 11,
        ControlCall::QueueHold { .. } => 12,
        ControlCall::QueueRelease { .. } => 13,
        ControlCall::QueueReorder { .. } => 14,
        ControlCall::SubjectList { .. } => 15,
        ControlCall::SubjectCreate(..) => 16,
        ControlCall::SubjectUpdate(..) => 17,
        ControlCall::WorkflowPause { .. } => 18,
        ControlCall::WorkflowResume { .. } => 19,
        ControlCall::WorkflowCancel { .. } => 20,
    }
}

/// Different operations are sent as different control RPCs.
pub proof fn lemma_operations_have_distinct_methods(a: ControlCall, b: ControlCall)
    ensures
        operation_of(a) != operation_of(b) ==> a.method_spec() != b.method_spec(),
{
    reveal_strlit("agent.enable");
    reveal_strlit("agent.disable");
    reveal_strlit("daemon.status");
    reveal_strlit("daemon.health");
    reveal_strlit("daemon.pause");
    reveal_strlit("daemon.resume");
    reveal_strlit("plugin.list");
    reveal_strlit("plugin.install");
    reveal_strlit("plugin.uninstall");
    reveal_strlit("queue.stats");
    reveal_strlit("queue.enqueue");
    reveal_strlit("queue.drop");
    reveal_strlit("queue.hold");
    reveal_strlit("queue.release");
    reveal_strlit("queue.reorder");
    reveal_strlit("subject.list");
    reveal_strlit("subject.create");
    reveal_strlit("subject.update");
    reveal_strlit("workflow.pause");
    reveal_strlit("workflow.resume");
    reveal_strlit("workflow.cancel");
    let (x, y) = (a.method_spec(), b.method_spec());
    if operation_of(a) != operation_of(b) && x == y {
        // The length and the characters at 7 and 9 tell all the names apart.
        assert(x.len() == y.len() && x[7] == y[7] && x[9] == y[9]);
    }
}

/// `r` is the error of the control RPC `method` failing with `detail`.
pub open spec fn rpc_failed(r: ResolverError, method: Seq<char>, detail: Seq<char>) -> bool {
    r matches ResolverError::Rpc { method: m, detail: d } && m@ == method && d@ == detail
}

/// What a resolver answers for the daemon's reply to the control RPC
/// `method`: the record the daemon answered, or the failure of the RPC.
pub fn reply_of<T>(method: &str, reply: Result<T, String>) -> (r: Result<T, ResolverError>)
    ensures
        match reply {
            Ok(v) => r == Ok::<T, ResolverError>(v),
            Err(detail) => r matches Err(e) && rpc_failed(e, method@, detail@),
        },
{
    match reply {
        Ok(v) => Ok(v),
        Err(detail) => Err(ResolverError::Rpc { method: owned(method), detail }),
    }
}

/// What a resolver answers when the daemon acknowledges the control RPC
/// `method`: `true`, or the failure of the RPC.
pub fn acknowledged(method: &str, reply: Result<(), String>) -> (r: Result<bool, ResolverError>)
    ensures
        match reply {
            Ok(_) => r == Ok::<bool, ResolverError>(true),
            Err(detail) => r matches Err(e) && rpc_failed(e, method@, detail@),
        },
{
    match reply {
        Ok(_) => Ok(true),
        Err(detail) => Err(ResolverError::Rpc { method: owned(method), detail }),
    }
}

/// What a resolver answers once its control session is settled: `value`
/// when the session opened, the session's error otherwise.
pub open spec fn answer<T>(session: Result<(), ResolverError>, value: T) -> Result<T, ResolverError> {
    match session {
        Ok(_) => Ok(value),
        Err(e) => Err(e),
    }
}

/// Answers `value` when the control session opened, and the session's
/// error otherwise.
pub fn after_session<T>(session: Result<(), ResolverError>, value: T) -> (r: Result<T, ResolverError>)
    ensures
        r == answer(session, value),
{
    match session {
        Ok(_) => Ok(value),
        Err(e) => Err(e),
    }
}

} // verus!
