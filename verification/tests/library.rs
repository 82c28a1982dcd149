//! Tests of the configuration, routing, backend and manifest logic.

use animus_transport_graphql::backend::{transport_schema, TaskSlot};
use animus_transport_graphql::config::{
    default_playground_enabled, playground_flag, GraphqlConfig,
};
use animus_transport_graphql::control_client::ControlClient;
use animus_transport_graphql::manifest::{manifest_requested, plugin_manifest};
use animus_transport_graphql::resolvers::agent::{Agent, AgentListRequest, AgentMutation, AgentQuery};
use animus_transport_graphql::resolvers::{
    acknowledged, control_socket_for, reply_of, ControlCall, Param, ParamValue,
};
use animus_transport_graphql::resolvers::daemon::{
    DaemonEvent, DaemonEventsSubscription, DaemonMutation, DaemonQuery, WireDaemonEvent,
};
use animus_transport_graphql::resolvers::plugin::{InstallPluginInput, PluginMutation, PluginQuery};
use animus_transport_graphql::resolvers::queue::{
    EnqueueInput, QueueEntry, QueueEntryStatus, QueueMutation, QueueQuery, WireQueueEntry,
};
use animus_transport_graphql::resolvers::subject::{
    ChangeKind, CreateSubjectInput, SubjectChangedSubscription, SubjectMutation, SubjectQuery,
    UpdateSubjectInput,
};
use animus_transport_graphql::resolvers::workflows::{
    WireWorkflow, WorkflowEventsSubscription, WorkflowMutation, WorkflowQuery,
};
use animus_transport_graphql::resolvers::ResolverError;
use animus_transport_graphql::server::{
    authorized, healthz, playground_config, playground_page, requires_bearer, routes, unauthorized,
    Endpoint,
    RouteMethod,
};
use animus_transport_graphql::time::Timestamp;

fn s(x: &str) -> String {
    x.to_string()
}

#[test]
fn default_config_values() {
    let cfg = GraphqlConfig::default();
    assert_eq!(cfg.bind, "127.0.0.1:8081");
    assert_eq!(cfg.control_socket_path, b"/tmp/animus.sock".to_vec());
    assert_eq!(cfg.auth_token, None);
    assert!(cfg.playground_enabled);
    assert!(default_playground_enabled());
}

#[test]
fn playground_flag_values() {
    assert!(!playground_flag("0"));
    assert!(!playground_flag("false"));
    assert!(!playground_flag("FALSE"));
    assert!(!playground_flag("FaLsE"));
    assert!(playground_flag("1"));
    assert!(playground_flag("true"));
    assert!(playground_flag(""));
    assert!(playground_flag("00"));
    assert!(playground_flag("falsey"));
    assert!(playground_flag("no"));
}

#[test]
fn from_env_requires_control_socket() {
    let res = GraphqlConfig::from_env(Some(s("0.0.0.0:9000")), None, None, None);
    let err = res.err().expect("missing socket");
    assert_eq!(err.message(), "ANIMUS_CONTROL_SOCKET env var is required");
}

#[test]
fn from_env_defaults_and_values() {
    let cfg = GraphqlConfig::from_env(None, Some(b"/run/a.sock".to_vec()), None, None)
        .ok()
        .expect("config");
    assert_eq!(cfg.bind, "127.0.0.1:8081");
    assert_eq!(cfg.control_socket_path, b"/run/a.sock".to_vec());
    assert_eq!(cfg.auth_token, None);
    assert!(cfg.playground_enabled);

    let cfg = GraphqlConfig::from_env(
        Some(s("0.0.0.0:9000")),
        Some(b"/run/b.sock".to_vec()),
        Some(s("secret")),
        Some(s("False")),
    )
    .ok()
    .expect("config");
    assert_eq!(cfg.bind, "0.0.0.0:9000");
    assert_eq!(cfg.auth_token.as_deref(), Some("secret"));
    assert!(!cfg.playground_enabled);

    let cfg = GraphqlConfig::from_env(None, Some(b"/run/b.sock".to_vec()), None, Some(s("yes")))
        .ok()
        .expect("config");
    assert!(cfg.playground_enabled);
}

#[test]
fn transport_start_config() {
    let cfg = GraphqlConfig::for_transport_start(None, b"/run/c.sock".to_vec(), Some(s("t")));
    assert_eq!(cfg.bind, "127.0.0.1:8081");
    assert_eq!(cfg.control_socket_path, b"/run/c.sock".to_vec());
    assert_eq!(cfg.auth_token.as_deref(), Some("t"));
    assert!(cfg.playground_enabled);
    let cfg = GraphqlConfig::for_transport_start(Some(s("[::1]:7000")), vec![b'/', 0xff, 0xfe], None);
    assert_eq!(cfg.control_socket_path, vec![b'/', 0xff, 0xfe]);
    assert_eq!(cfg.bind, "[::1]:7000");
}

#[test]
fn routes_with_and_without_playground() {
    let with: Vec<(String, RouteMethod, Endpoint)> = routes(true)
        .into_iter()
        .map(|r| (r.path, r.method, r.endpoint))
        .collect();
    assert_eq!(
        with,
        vec![
            (s("/graphql"), RouteMethod::Post, Endpoint::Execute),
            (s("/graphql"), RouteMethod::Get, Endpoint::Playground),
            (s("/graphql/ws"), RouteMethod::WebSocket, Endpoint::Subscriptions),
            (s("/graphql/sdl"), RouteMethod::Get, Endpoint::Sdl),
            (s("/healthz"), RouteMethod::Get, Endpoint::Health),
        ]
    );
    let without: Vec<(String, RouteMethod, Endpoint)> = routes(false)
        .into_iter()
        .map(|r| (r.path, r.method, r.endpoint))
        .collect();
    assert_eq!(without.len(), 4);
    assert!(!without
        .iter()
        .any(|r| r.1 == RouteMethod::Get && r.0 == "/graphql"));
}

#[test]
fn healthz_and_playground() {
    assert_eq!(healthz(), (200, s("ok")));
    let pg = playground_config();
    assert_eq!(pg.endpoint, "/graphql");
    assert_eq!(pg.subscription_endpoint, "/graphql/ws");
}

#[test]
fn backend_schema() {
    let schema = transport_schema();
    assert_eq!(schema.kinds, vec![s("graphql")]);
    assert!(schema.supports_streaming);
    assert!(schema.supports_websocket);
    assert_eq!(schema.default_port, Some(8081));
}

#[test]
fn task_slot_start_stop() {
    let mut slot: TaskSlot<u32> = TaskSlot::new();
    assert!(!slot.is_running());
    assert_eq!(slot.stop(), None);
    assert_eq!(slot.start(1), None);
    assert!(slot.is_running());
    assert_eq!(slot.start(2), Some(1));
    assert_eq!(slot.stop(), Some(2));
    assert!(!slot.is_running());
    assert_eq!(slot.stop(), None);
}

#[test]
fn manifest_flag_detection() {
    assert!(manifest_requested(&vec![s("bin"), s("--manifest")]));
    assert!(manifest_requested(&vec![s("bin"), s("x"), s("-m")]));
    assert!(!manifest_requested(&vec![s("--manifest")]));
    assert!(!manifest_requested(&vec![s("bin"), s("--manifest=1"), s("-mm")]));
    assert!(!manifest_requested(&vec![]));
}

#[test]
fn manifest_contents() {
    let m = plugin_manifest(s("animus-transport-graphql"), s("0.1.0"), s("GraphQL"), s("1"));
    assert_eq!(m.name, "animus-transport-graphql");
    assert_eq!(m.version, "0.1.0");
    assert_eq!(m.plugin_kind, "transport_backend");
    assert_eq!(m.description, "GraphQL");
    assert_eq!(m.protocol_version, "1");
    assert_eq!(
        m.capabilities,
        vec![
            s("transport/start"),
            s("transport/shutdown"),
            s("transport/schema"),
            s("health/check")
        ]
    );
    assert!(m.env_required.is_empty());
}

#[test]
fn control_client_stub_fails_naming_socket() {
    let client = ControlClient::connect("/tmp/x.sock").ok().expect("connect");
    assert_eq!(client.socket_path(), "/tmp/x.sock");
    let r: Result<u32, String> = client.call("queue/list", &());
    assert_eq!(
        r.err().unwrap(),
        "control_client::call is a stub; awaiting animus-control-protocol v0.1.5 client. socket=/tmp/x.sock"
    );
    let r: Result<Vec<u32>, String> = client.subscribe("subject/watch", &());
    assert_eq!(
        r.err().unwrap(),
        "control_client::subscribe is a stub; awaiting animus-control-protocol v0.1.5 client. socket=/tmp/x.sock"
    );
}

#[test]
fn timestamps_cover_chrono_range() {
    let min = -8_334_601_228_800i64;
    let max = 8_210_266_876_799i64;
    assert_eq!(Timestamp::from_unix(min, 0).unwrap().to_rfc3339(), "-262143-01-01T00:00:00+00:00");
    assert!(Timestamp::from_unix(min - 1, 0).is_none());
    assert_eq!(Timestamp::from_unix(max, 0).unwrap().to_rfc3339(), "+262142-12-31T23:59:59+00:00");
    assert!(Timestamp::from_unix(max + 1, 0).is_none());
    assert!(Timestamp::from_unix(59, 1_500_000_000).is_some());
    assert!(Timestamp::from_unix(58, 1_500_000_000).is_none());
    assert!(Timestamp::from_unix(-1, 1_999_999_999).is_some());
    assert!(Timestamp::from_unix(59, 2_000_000_000).is_none());
}

#[test]
fn timestamps_format_as_rfc3339() {
    let t = Timestamp::from_unix(0, 0).expect("epoch");
    assert_eq!(t.to_rfc3339(), "1970-01-01T00:00:00+00:00");
    assert_eq!(t.secs(), 0);
    assert_eq!(t.nanos(), 0);
    let t = Timestamp::from_unix(1779494400, 500_000_000).expect("instant");
    assert_eq!(t.to_rfc3339(), "2026-05-23T00:00:00.500+00:00");
    assert!(Timestamp::from_unix(0, 2_000_000_000).is_none());
    assert!(Timestamp::from_unix(i64::MAX, 0).is_none());
}

#[test]
fn resolver_error_messages() {
    assert_eq!(
        ResolverError::MissingConfig.message(),
        "graphql config not injected into schema context"
    );
    assert_eq!(
        ResolverError::Connect(s("refused")).message(),
        "failed to connect to control socket: refused"
    );
    assert_eq!(
        ResolverError::Rpc { method: s("queue/list"), detail: s("boom") }.message(),
        "queue/list failed: boom"
    );
    let r = QueueQuery.queue_reply(Err(s("boom")));
    assert_eq!(r.err().unwrap().message(), "queue/list failed: boom");
    let r: Result<u8, ResolverError> = SubjectChangedSubscription.watch_outcome(Err(s("x")));
    assert_eq!(r.err().unwrap().message(), "subject/watch failed: x");
    let r: Result<u8, ResolverError> = WorkflowEventsSubscription.events_outcome(Err(s("y")));
    assert_eq!(r.err().unwrap().message(), "workflow/events failed: y");
    let r: Result<u8, ResolverError> = WorkflowEventsSubscription.events_outcome(Ok(7));
    assert_eq!(r.ok(), Some(7));
}

#[test]
fn control_socket_lookup() {
    let cfg = GraphqlConfig::default();
    assert_eq!(control_socket_for(Some(&cfg)).ok(), Some(b"/tmp/animus.sock".to_vec()));
    assert_eq!(
        control_socket_for(None).err().unwrap().message(),
        "graphql config not injected into schema context"
    );
}

#[test]
fn queue_only_ready_request() {
    let r = QueueQuery.queue(Ok(()), Some(true)).ok().unwrap();
    assert_eq!(r.status, Some(QueueEntryStatus::Ready));
    let r = QueueQuery.queue(Ok(()), Some(false)).ok().unwrap();
    assert_eq!(r.status, None);
}

#[test]
fn queue_entry_statuses() {
    for (status, label, held) in [
        (QueueEntryStatus::Ready, "ready", false),
        (QueueEntryStatus::Held, "held", true),
        (QueueEntryStatus::InFlight, "in-flight", false),
        (QueueEntryStatus::Done, "done", false),
        (QueueEntryStatus::Dropped, "dropped", false),
    ] {
        let e = QueueEntry::from(WireQueueEntry {
            id: s("q"),
            subject_id: s("task:T"),
            status,
            priority: 255,
            enqueued_at: Timestamp::from_unix(0, 0).unwrap(),
            hold_reason: None,
        });
        assert_eq!(e.state, label);
        assert_eq!(e.held, held);
        assert_eq!(e.priority, 255);
    }
}

#[test]
fn change_kind_labels() {
    assert_eq!(ChangeKind::Created.label(), "created");
    assert_eq!(ChangeKind::Updated.label(), "updated");
    assert_eq!(ChangeKind::Deleted.label(), "deleted");
}

#[test]
fn resolvers_build_control_calls() {
    let call = |r: Result<ControlCall, ResolverError>| r.ok().expect("call");
    assert!(matches!(AgentQuery.agent(Ok(())), Ok(AgentListRequest)));
    let c = call(AgentMutation.enable_agent(Ok(()), s("a1")));
    assert_eq!(c.method(), "agent.enable");
    assert!(matches!(&c, ControlCall::AgentEnable { id } if id == "a1"));
    let c = call(AgentMutation.disable_agent(Ok(()), s("a1")));
    assert_eq!(c.method(), "agent.disable");
    assert_eq!(call(DaemonQuery.daemon(Ok(()))).method(), "daemon.status");
    assert_eq!(call(DaemonQuery.daemon_health(Ok(()))).method(), "daemon.health");
    assert_eq!(call(DaemonMutation.pause_daemon(Ok(()))).method(), "daemon.pause");
    assert_eq!(call(DaemonMutation.resume_daemon(Ok(()))).method(), "daemon.resume");
    let c = call(PluginQuery.plugin(Ok(()), Some(s("transport_backend"))));
    assert_eq!(c.method(), "plugin.list");
    assert!(matches!(&c, ControlCall::PluginList { kind: Some(k) } if k == "transport_backend"));
    let c = call(PluginMutation.install_plugin(
        Ok(()),
        InstallPluginInput { source: s("x/y"), kind: None, version: None },
    ));
    assert_eq!(c.method(), "plugin.install");
    assert!(matches!(&c, ControlCall::PluginInstall(i) if i.source == "x/y"));
    assert_eq!(call(PluginMutation.uninstall_plugin(Ok(()), s("p"))).method(), "plugin.uninstall");
    assert_eq!(call(QueueQuery.queue_stats(Ok(()))).method(), "queue.stats");
    let c = call(QueueMutation.enqueue(
        Ok(()),
        EnqueueInput { task_id: s("T1"), workflow: s("wf"), priority: 4 },
    ));
    assert_eq!(c.method(), "queue.enqueue");
    assert!(matches!(&c, ControlCall::QueueEnqueue(i) if i.task_id == "T1" && i.priority == 4));
    assert_eq!(call(QueueMutation.drop_queue(Ok(()), s("q"))).method(), "queue.drop");
    let c = call(QueueMutation.hold_queue(Ok(()), s("q"), Some(s("r"))));
    assert_eq!(c.method(), "queue.hold");
    assert!(matches!(&c, ControlCall::QueueHold { id, reason: Some(r) } if id == "q" && r == "r"));
    assert_eq!(call(QueueMutation.release_queue(Ok(()), s("q"))).method(), "queue.release");
    let c = call(QueueMutation.reorder_queue(Ok(()), vec![s("a"), s("b")]));
    assert_eq!(c.method(), "queue.reorder");
    assert!(matches!(&c, ControlCall::QueueReorder { ids } if ids == &vec![s("a"), s("b")]));
    assert_eq!(call(SubjectQuery.subject(Ok(()), None)).method(), "subject.list");
    let c = call(SubjectMutation.create_subject(
        Ok(()),
        CreateSubjectInput { kind: s("task"), title: s("t"), metadata: None },
    ));
    assert_eq!(c.method(), "subject.create");
    let c = call(SubjectMutation.update_subject(
        Ok(()),
        UpdateSubjectInput { id: s("1"), title: None, status: None, metadata: None },
    ));
    assert_eq!(c.method(), "subject.update");
    assert_eq!(call(WorkflowMutation.pause_workflow(Ok(()), s("w"))).method(), "workflow.pause");
    assert_eq!(call(WorkflowMutation.resume_workflow(Ok(()), s("w"))).method(), "workflow.resume");
    assert_eq!(call(WorkflowMutation.cancel_workflow(Ok(()), s("w"))).method(), "workflow.cancel");
    let req = SubjectChangedSubscription.subject_changed(Ok(()), Some(s("task"))).ok().unwrap();
    assert_eq!(req.kind.as_deref(), Some("task"));
    let req = WorkflowEventsSubscription
        .workflow_events(Ok(()), Some(s("wf-1")), Some(vec![s("phase_started")]))
        .ok()
        .unwrap();
    assert_eq!(req.workflow_id.as_deref(), Some("wf-1"));
    assert_eq!(req.kinds, Some(vec![s("phase_started")]));
}

#[test]
fn control_call_replies() {
    let c = QueueMutation.drop_queue(Ok(()), s("q")).ok().unwrap();
    let m = c.method();
    assert_eq!(acknowledged(&m, Ok(())).ok(), Some(true));
    assert_eq!(acknowledged(&m, Err(s("gone"))).err().unwrap().message(), "queue.drop failed: gone");
    let m = DaemonQuery.daemon(Ok(())).ok().unwrap().method();
    assert_eq!(reply_of(&m, Ok(5u8)).ok(), Some(5));
    assert_eq!(
        reply_of::<u8>(&m, Err(s("down"))).err().unwrap().message(),
        "daemon.status failed: down"
    );
    let agents = AgentQuery
        .agent_reply(Ok(vec![Agent {
            id: s("a1"),
            name: s("coder"),
            kind: s("llm"),
            model: Some(s("m")),
            tool: None,
            enabled: true,
        }]))
        .ok()
        .unwrap();
    assert_eq!(agents.len(), 1);
    assert_eq!(agents[0].id, "a1");
    assert_eq!(agents[0].name, "coder");
    assert_eq!(
        AgentQuery.agent_reply(Err(s("x"))).err().unwrap().message(),
        "agent.list failed: x"
    );
}

fn wire_workflow(id: &str, status: &str) -> WireWorkflow {
    WireWorkflow {
        id: s(id),
        name: format!("{id}-name"),
        status: s(status),
        created_at: Timestamp::from_unix(0, 0).unwrap(),
        updated_at: Timestamp::from_unix(1779494400, 0).unwrap(),
        task_id: Some(s("T1")),
        current_phase: None,
    }
}

#[test]
fn workflows_list_filters_by_status() {
    let req = WorkflowQuery.workflows(Ok(()), Some(s("running"))).ok().unwrap();
    assert_eq!(req.status.as_deref(), Some("running"));
    let listed = || {
        vec![
            wire_workflow("w1", "running"),
            wire_workflow("w2", "done"),
            wire_workflow("w3", "running"),
        ]
    };
    let out = WorkflowQuery.workflows_reply(&Some(s("running")), Ok(listed())).ok().unwrap();
    let ids: Vec<&str> = out.iter().map(|w| w.id.as_str()).collect();
    assert_eq!(ids, vec!["w1", "w3"]);
    assert_eq!(out[0].name, "w1-name");
    assert_eq!(out[0].status, "running");
    assert_eq!(out[0].created_at, "1970-01-01T00:00:00+00:00");
    assert_eq!(out[0].updated_at, "2026-05-23T00:00:00+00:00");
    assert_eq!(out[0].task_id.as_deref(), Some("T1"));
    let all = WorkflowQuery.workflows_reply(&None, Ok(listed())).ok().unwrap();
    assert_eq!(all.len(), 3);
    let err = WorkflowQuery.workflows_reply(&None, Err(s("nope"))).err().unwrap();
    assert_eq!(err.message(), "workflow.list failed: nope");
}

#[test]
fn workflow_lookup_and_run() {
    let req = WorkflowQuery.workflow(Ok(()), s("w1")).ok().unwrap();
    assert_eq!(req.id, "w1");
    let found = WorkflowQuery
        .workflow_reply(&s("w1"), Ok(Some(wire_workflow("w1", "running"))))
        .ok()
        .unwrap()
        .expect("found");
    assert_eq!(found.id, "w1");
    assert!(WorkflowQuery
        .workflow_reply(&s("w1"), Ok(Some(wire_workflow("w9", "running"))))
        .ok()
        .unwrap()
        .is_none());
    assert!(WorkflowQuery.workflow_reply(&s("w1"), Ok(None)).ok().unwrap().is_none());
    assert_eq!(
        WorkflowQuery.workflow_reply(&s("w1"), Err(s("e"))).err().unwrap().message(),
        "workflow.get failed: e"
    );
    let req = WorkflowMutation.run_workflow(Ok(()), s("T1"), s("std")).ok().unwrap();
    assert_eq!(req.task_id, "T1");
    assert_eq!(req.workflow, "std");
    let started = WorkflowMutation
        .run_workflow_reply(Ok(wire_workflow("w7", "running")))
        .ok()
        .unwrap();
    assert_eq!(started.id, "w7");
    assert_eq!(
        WorkflowMutation.run_workflow_reply(Err(s("busy"))).err().unwrap().message(),
        "workflow.run failed: busy"
    );
}

#[test]
fn daemon_events_request_and_projection() {
    assert!(DaemonEventsSubscription.daemon_events(Ok(())).is_ok());
    let r: Result<u8, ResolverError> = DaemonEventsSubscription.events_outcome(Err(s("z")));
    assert_eq!(r.err().unwrap().message(), "daemon.events failed: z");
    let ev = DaemonEvent::from_wire(WireDaemonEvent {
        kind: s("paused"),
        payload: s("{\"by\":\"cli\"}"),
        at: Timestamp::from_unix(1779494400, 0).unwrap(),
    });
    assert_eq!(ev.kind, "paused");
    assert_eq!(ev.payload, "{\"by\":\"cli\"}");
    assert_eq!(ev.at, "2026-05-23T00:00:00+00:00");
}

#[test]
fn playground_page_names_endpoints() {
    let page = playground_page();
    assert!(page.contains("<title>GraphQL Playground</title>"));
    assert!(page.contains("\"endpoint\":\"/graphql\""));
    assert!(page.contains("\"subscriptionEndpoint\":\"/graphql/ws\""));
}

fn param_list(params: Vec<Param>) -> Vec<(String, String)> {
    params
        .into_iter()
        .map(|p| {
            let v = match p.value {
                ParamValue::Text(t) => format!("text:{t}"),
                ParamValue::MaybeText(Some(t)) => format!("text:{t}"),
                ParamValue::MaybeText(None) => s("null"),
                ParamValue::Integer(n) => format!("int:{n}"),
                ParamValue::Texts(ts) => format!("texts:{}", ts.join(",")),
            };
            (p.key, v)
        })
        .collect()
}

#[test]
fn rpc_parameters() {
    let c = QueueMutation
        .enqueue(Ok(()), EnqueueInput { task_id: s("T1"), workflow: s("wf"), priority: -3 })
        .ok()
        .unwrap();
    assert_eq!(
        param_list(c.into_params()),
        vec![
            (s("task_id"), s("text:T1")),
            (s("workflow"), s("text:wf")),
            (s("priority"), s("int:-3")),
        ]
    );
    let c = QueueMutation.hold_queue(Ok(()), s("q1"), None).ok().unwrap();
    assert_eq!(
        param_list(c.into_params()),
        vec![(s("id"), s("text:q1")), (s("reason"), s("null"))]
    );
    let c = QueueMutation.reorder_queue(Ok(()), vec![s("a"), s("b")]).ok().unwrap();
    assert_eq!(param_list(c.into_params()), vec![(s("ids"), s("texts:a,b"))]);
    assert!(DaemonQuery.daemon(Ok(())).ok().unwrap().into_params().is_empty());
    let r = WorkflowQuery.workflows(Ok(()), Some(s("running"))).ok().unwrap();
    assert_eq!(r.method(), "workflow.list");
    assert_eq!(param_list(r.into_params()), vec![(s("status"), s("text:running"))]);
    let r = WorkflowQuery.workflow(Ok(()), s("w1")).ok().unwrap();
    assert_eq!(r.method(), "workflow.get");
    assert_eq!(param_list(r.into_params()), vec![(s("id"), s("text:w1"))]);
    let r = WorkflowMutation.run_workflow(Ok(()), s("T1"), s("std")).ok().unwrap();
    assert_eq!(r.method(), "workflow.run");
    assert_eq!(
        param_list(r.into_params()),
        vec![(s("task_id"), s("text:T1")), (s("workflow"), s("text:std"))]
    );
    let r = AgentQuery.agent(Ok(())).ok().unwrap();
    assert_eq!(r.method(), "agent.list");
    assert!(r.into_params().is_empty());
    let r = DaemonEventsSubscription.daemon_events(Ok(())).ok().unwrap();
    assert_eq!(r.method(), "daemon.events");
    assert!(r.into_params().is_empty());
}

#[test]
fn daemon_event_notifications() {
    let ev = DaemonEventsSubscription
        .on_notification(Ok(WireDaemonEvent {
            kind: s("paused"),
            payload: s("{}"),
            at: Timestamp::from_unix(0, 0).unwrap(),
        }))
        .expect("event");
    assert_eq!(ev.kind, "paused");
    assert_eq!(ev.at, "1970-01-01T00:00:00+00:00");
    assert!(DaemonEventsSubscription.on_notification(Err(s("bad json"))).is_none());
}

#[test]
fn bearer_token_decision() {
    assert!(authorized(None, None));
    assert!(authorized(None, Some("Bearer x")));
    assert!(authorized(Some("t0k"), Some("Bearer t0k")));
    assert!(!authorized(Some("t0k"), None));
    assert!(!authorized(Some("t0k"), Some("Bearer other")));
    assert!(!authorized(Some("t0k"), Some("bearer t0k")));
    assert!(!authorized(Some("t0k"), Some("t0k")));
    assert_eq!(unauthorized().0, 401);
    assert!(requires_bearer(Endpoint::Execute));
    assert!(requires_bearer(Endpoint::Playground));
    assert!(!requires_bearer(Endpoint::Subscriptions));
    assert!(!requires_bearer(Endpoint::Sdl));
    assert!(!requires_bearer(Endpoint::Health));
}

#[test]
fn resolvers_pass_session_errors_through() {
    let e = || Err(ResolverError::Connect(s("down")));
    assert!(AgentQuery.agent(e()).is_err());
    assert!(DaemonMutation.pause_daemon(e()).is_err());
    assert!(WorkflowMutation.cancel_workflow(e(), s("w")).is_err());
    assert!(WorkflowQuery.workflows(e(), None).is_err());
    assert!(DaemonEventsSubscription.daemon_events(e()).is_err());
    let err = SubjectChangedSubscription.subject_changed(e(), None).err().unwrap();
    assert_eq!(err.message(), "failed to connect to control socket: down");
}
