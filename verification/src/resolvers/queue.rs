//! Dispatch queue queries and mutations.

use vstd::prelude::*;

use super::{after_session, answer, ControlCall, ResolverError};
use crate::strings::{opt_view, owned};
use crate::time::{rfc3339_text, Timestamp};

verus! {

/// The status of a queue entry on the control wire.
#[derive(PartialEq, Eq, Structural, Clone, Copy, Debug)]
pub enum QueueEntryStatus {
    Ready,
    Held,
    InFlight,
    Done,
    Dropped,
}

/// The GraphQL `state` of an entry with the given status.
pub open spec fn state_label(status: QueueEntryStatus) -> Seq<char> {
    match status {
        QueueEntryStatus::Ready => "ready"@,
        QueueEntryStatus::Held => "held"@,
        QueueEntryStatus::InFlight => "in-flight"@,
        QueueEntryStatus::Done => "done"@,
        QueueEntryStatus::Dropped => "dropped"@,
    }
}

impl QueueEntryStatus {
    /// The GraphQL `state` of an entry with this status.
    pub fn label(&self) -> (r: String)
        ensures
            r@ == state_label(*self),
    {
        match self {
            QueueEntryStatus::Ready => owned("ready"),
            QueueEntryStatus::Held => owned("held"),
            QueueEntryStatus::InFlight => owned("in-flight"),
            QueueEntryStatus::Done => owned("done"),
            QueueEntryStatus::Dropped => owned("dropped"),
        }
    }
}

/// Entries of different statuses show different states.
pub proof fn lemma_state_labels_distinct(a: QueueEntryStatus, b: QueueEntryStatus)
    ensures
        a != b ==> state_label(a) != state_label(b),
{
    reveal_strlit("ready");
    reveal_strlit("held");
    reveal_strlit("in-flight");
    reveal_strlit("done");
    reveal_strlit("dropped");
    if a != b {
        assert(state_label(a).len() != state_label(b).len() || state_label(a)[0] != state_label(
            b,
        )[0]);
    }
}

/// A queue entry as the daemon reports it on the control wire.
pub struct WireQueueEntry {
    pub id: String,
    /// The subject (task) the entry dispatches.
    pub subject_id: String,
    pub status: QueueEntryStatus,
    pub priority: u8,
    pub enqueued_at: Timestamp,
    pub hold_reason: Option<String>,
}

/// The `queue/list` request.
pub struct QueueListRequest {
    /// Only entries with this status, when given.
    pub status: Option<QueueEntryStatus>,
    pub cursor: Option<String>,
    pub limit: Option<u32>,
}

/// A queue entry as GraphQL shows it.
pub struct QueueEntry {
    pub id: String,
    pub task_id: String,
    pub workflow: String,
    pub priority: i32,
    pub state: String,
    pub enqueued_at: String,
    pub held: bool,
    pub hold_reason: Option<String>,
}

impl QueueEntry {
    /// `self` is what GraphQL shows of the wire entry `entry`.
    pub open spec fn projects(&self, entry: &WireQueueEntry) -> bool {
        &&& self.id@ == entry.id@
        &&& self.task_id@ == entry.subject_id@
        &&& self.workflow@.len() == 0
        &&& self.priority == entry.priority as i32
        &&& self.state@ == state_label(entry.status)
        &&& self.enqueued_at@ == rfc3339_text(entry.enqueued_at@.0, entry.enqueued_at@.1)
        &&& self.held == (entry.status == QueueEntryStatus::Held)
        &&& opt_view(self.hold_reason) == opt_view(entry.hold_reason)
    }

    /// Every field empty, zero, absent or false.
    pub open spec fn is_blank(&self) -> bool {
        &&& self.id@.len() == 0
        &&& self.task_id@.len() == 0
        &&& self.workflow@.len() == 0
        &&& self.priority == 0
        &&& self.state@.len() == 0
        &&& self.enqueued_at@.len() == 0
        &&& !self.held
        &&& self.hold_reason is None
    }

    /// Projects a wire entry onto the GraphQL record.
    pub fn from(entry: WireQueueEntry) -> (r: QueueEntry)
        ensures
            r.projects(&entry),
    {
        let state = entry.status.label();
        let held = match entry.status {
            QueueEntryStatus::Held => true,
            _ => false,
        };
        let enqueued_at = entry.enqueued_at.to_rfc3339();
        QueueEntry {
            id: entry.id,
            task_id: entry.subject_id,
            workflow: String::new(),
            priority: entry.priority as i32,
            state,
            enqueued_at,
            held,
            hold_reason: entry.hold_reason,
        }
    }
}

impl Default for QueueEntry {
    fn default() -> (r: QueueEntry)
        ensures
            r.is_blank(),
    {
        QueueEntry {
            id: String::new(),
            task_id: String::new(),
            workflow: String::new(),
            priority: 0,
            state: String::new(),
            enqueued_at: String::new(),
            held: false,
            hold_reason: None,
        }
    }
}

/// A projected entry is held exactly when its state is `held`.
pub proof fn lemma_held_iff_state_held(q: QueueEntry, entry: WireQueueEntry)
    requires
        q.projects(&entry),
    ensures
        q.held <==> q.state@ == "held"@,
{
    lemma_state_labels_distinct(entry.status, QueueEntryStatus::Held);
}

/// Counts of queue entries by state.
pub struct QueueStats {
    pub total: i32,
    pub ready: i32,
    pub held: i32,
    pub dispatched: i32,
}

impl Default for QueueStats {
    fn default() -> (r: QueueStats)
        ensures
            r.total == 0 && r.ready == 0 && r.held == 0 && r.dispatched == 0,
    {
        QueueStats { total: 0, ready: 0, held: 0, dispatched: 0 }
    }
}

/// What `enqueue` is asked to enqueue.
pub struct EnqueueInput {
    pub task_id: String,
    pub workflow: String,
    pub priority: i32,
}

/// The `queue/list` request for the `queue` query's `onlyReady` argument.
pub open spec fn queue_list_request_for(only_ready: Option<bool>) -> Option<QueueEntryStatus> {
    if only_ready == Some(true) {
        Some(QueueEntryStatus::Ready)
    } else {
        None
    }
}

/// The `queue` and `queueStats` queries.
pub struct QueueQuery;

impl QueueQuery {
    /// The `queue/list` request that the `queue` query sends once the
    /// control session is open: entries of every status, or only the ready
    /// ones when `only_ready` is `Some(true)`; no cursor and no limit.
    pub fn queue(&self, session: Result<(), ResolverError>, only_ready: Option<bool>) -> (r: Result<
        QueueListRequest,
        ResolverError,
    >)
        ensures
            match session {
                Ok(_) => r matches Ok(req) && {
                    &&& req.status == queue_list_request_for(only_ready)
                    &&& req.cursor is None
                    &&& req.limit is None
                },
                Err(e) => r == Err::<QueueListRequest, ResolverError>(e),
            },
    {
        let status = match only_ready {
            Some(true) => Some(QueueEntryStatus::Ready),
            _ => None,
        };
        after_session(session, QueueListRequest { status, cursor: None, limit: None })
    }

    /// What the `queue` query answers for the daemon's reply to `queue/list`:
    /// each listed entry projected, in order, or the failure of `queue/list`.
    pub fn queue_reply(&self, reply: Result<Vec<WireQueueEntry>, String>) -> (r: Result<
        Vec<QueueEntry>,
        ResolverError,
    >)
        ensures
            match reply {
                Ok(entries) => r matches Ok(out) && {
                    &&& out@.len() == entries@.len()
                    &&& forall|i: int| 0 <= i < entries@.len() ==> #[trigger] out@[i].projects(&entries@[i])
                },
                Err(detail) => r matches Err(ResolverError::Rpc { method, detail: d }) && method@
                    == "queue/list"@ && d@ == detail@,
            },
    {
        match reply {
            Ok(entries) => {
                let ghost listed = entries@;
                let mut out: Vec<QueueEntry> = Vec::new();
                for entry in it: entries.into_iter()
                    invariant
                        it.seq() == listed,
                        out@.len() == it.index(),
                        forall|i: int| 0 <= i < it.index() ==> #[trigger] out@[i].projects(&listed[i]),
                {
                    out.push(QueueEntry::from(entry));
                }
                Ok(out)
            },
            Err(detail) => Err(ResolverError::Rpc { method: owned("queue/list"), detail }),
        }
    }

    /// The `queue.stats` call, once the control session is open; the
    /// daemon's answer is the statistics.
    pub fn queue_stats(&self, session: Result<(), ResolverError>) -> (r: Result<
        ControlCall,
        ResolverError,
    >)
        ensures
            r == answer(session, (ControlCall::QueueStats)),
    {
        after_session(session, ControlCall::QueueStats)
    }
}

/// The queue mutations.
pub struct QueueMutation;

impl QueueMutation {
    /// The `queue.enqueue` call, once the control session is open; the
    /// daemon's answer is the new entry.
    pub fn enqueue(&self, session: Result<(), ResolverError>, input: EnqueueInput) -> (r: Result<
        ControlCall,
        ResolverError,
    >)
        ensures
            r == answer(session, (ControlCall::QueueEnqueue(input))),
    {
        after_session(session, ControlCall::QueueEnqueue(input))
    }

    /// The `queue.drop` call for the entry `id`, once the control session is
    /// open; the mutation answers `true` when the daemon acknowledges it.
    pub fn drop_queue(&self, session: Result<(), ResolverError>, id: String) -> (r: Result<
        ControlCall,
        ResolverError,
    >)
        ensures
            r == answer(session, (ControlCall::QueueDrop { id })),
    {
        after_session(session, ControlCall::QueueDrop { id })
    }

    /// The `queue.hold` call for the entry `id`, once the control session is
    /// open; the daemon's answer is the held entry.
    pub fn hold_queue(&self, session: Result<(), ResolverError>, id: String, reason: Option<String>) -> (r: Result<
        ControlCall,
        ResolverError,
    >)
        ensures
            r == answer(session, (ControlCall::QueueHold { id, reason })),
    {
        after_session(session, ControlCall::QueueHold { id, reason })
    }

    /// The `queue.release` call for the entry `id`, once the control session
    /// is open; the daemon's answer is the released entry.
    pub fn release_queue(&self, session: Result<(), ResolverError>, id: String) -> (r: Result<
        ControlCall,
        ResolverError,
    >)
        ensures
            r == answer(session, (ControlCall::QueueRelease { id })),
    {
        after_session(session, ControlCall::QueueRelease { id })
    }

    /// The `queue.reorder` call for the entries `ids`, once the control
    /// session is open; the mutation answers `true` when the daemon acknowledges it.
    pub fn reorder_queue(&self, session: Result<(), ResolverError>, ids: Vec<String>) -> (r: Result<
        ControlCall,
        ResolverError,
    >)
        ensures
            r == answer(session, (ControlCall::QueueReorder { ids })),
    {
        after_session(session, ControlCall::QueueReorder { ids })
    }
}

} // verus!
