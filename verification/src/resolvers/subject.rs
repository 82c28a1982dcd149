//! Subject (task/requirement/etc.) queries, mutations, and change stream.

use vstd::prelude::*;

use super::{after_session, answer, ControlCall, ResolverError};
use crate::strings::owned;
use crate::time::{rfc3339_text, Timestamp};

verus! {

/// A subject as GraphQL shows it.
pub struct Subject {
    pub id: String,
    pub kind: String,
    pub title: String,
    pub status: String,
    pub created_at: String,
    pub updated_at: String,
    pub metadata: Option<String>,
}

impl Subject {
    /// Every field empty or absent.
    pub open spec fn is_blank(&self) -> bool {
        &&& self.id@.len() == 0
        &&& self.kind@.len() == 0
        &&& self.title@.len() == 0
        &&& self.status@.len() == 0
        &&& self.created_at@.len() == 0
        &&& self.updated_at@.len() == 0
        &&& self.metadata is None
    }
}

impl Default for Subject {
    fn default() -> (r: Subject)
        ensures
            r.is_blank(),
    {
        Subject {
            id: String::new(),
            kind: String::new(),
            title: String::new(),
            status: String::new(),
            created_at: String::new(),
            updated_at: String::new(),
            metadata: None,
        }
    }
}

/// What `createSubject` is asked to create.
pub struct CreateSubjectInput {
    pub kind: String,
    pub title: String,
    pub metadata: Option<String>,
}

/// What `updateSubject` is asked to change.
pub struct UpdateSubjectInput {
    pub id: String,
    pub title: Option<String>,
    pub status: Option<String>,
    pub metadata: Option<String>,
}

/// How a subject changed, as the control wire reports it.
#[derive(PartialEq, Eq, Structural, Clone, Copy, Debug)]
pub enum ChangeKind {
    Created,
    Updated,
    Deleted,
}

/// The GraphQL `change` of a change kind: the kind's name in lower case.
pub open spec fn change_label(kind: ChangeKind) -> Seq<char> {
    match kind {
        ChangeKind::Created => "created"@,
        ChangeKind::Updated => "updated"@,
        ChangeKind::Deleted => "deleted"@,
    }
}

impl ChangeKind {
    /// The kind's name in lower case.
    pub fn label(&self) -> (r: String)
        ensures
            r@ == change_label(*self),
    {
        match self {
            ChangeKind::Created => owned("created"),
            ChangeKind::Updated => owned("updated"),
            ChangeKind::Deleted => owned("deleted"),
        }
    }
}

/// Different kinds of change show different `change` labels.
pub proof fn lemma_change_labels_distinct(a: ChangeKind, b: ChangeKind)
    ensures
        a != b ==> change_label(a) != change_label(b),
{
    reveal_strlit("created");
    reveal_strlit("updated");
    reveal_strlit("deleted");
    if a != b {
        assert(change_label(a)[0] != change_label(b)[0]);
    }
}

/// A subject change notification as the daemon sends it on `subject/changed`.
pub struct SubjectChangedEvent {
    /// The id of the subject that changed.
    pub id: String,
    pub change_kind: ChangeKind,
    /// When the subject was last updated.
    pub subject_updated_at: Timestamp,
}

/// One event of the `subjectChanged` stream.
pub struct SubjectChangeEvent {
    pub subject_id: String,
    pub change: String,
    pub at: String,
}

impl SubjectChangeEvent {
    /// `self` is what GraphQL shows of the notification `event`.
    pub open spec fn projects(&self, event: &SubjectChangedEvent) -> bool {
        &&& self.subject_id@ == event.id@
        &&& self.change@ == change_label(event.change_kind)
        &&& self.at@ == rfc3339_text(event.subject_updated_at@.0, event.subject_updated_at@.1)
    }

    /// Projects a change notification onto the stream's event.
    pub fn from_wire(event: SubjectChangedEvent) -> (r: SubjectChangeEvent)
        ensures
            r.projects(&event),
    {
        let change = event.change_kind.label();
        let at = event.subject_updated_at.to_rfc3339();
        SubjectChangeEvent { subject_id: event.id, change, at }
    }
}

/// The `subject/watch` request.
pub struct SubjectWatchRequest {
    /// Only subjects of this kind, when given.
    pub kind: Option<String>,
    pub filter: Option<String>,
}

/// The `subject` query.
pub struct SubjectQuery;

impl SubjectQuery {
    /// The `subject.list` call for the subjects, optionally of one kind, once
    /// the control session is open; the daemon's answer is the list.
    pub fn subject(&self, session: Result<(), ResolverError>, kind: Option<String>) -> (r: Result<
        ControlCall,
        ResolverError,
    >)
        ensures
            r == answer(session, (ControlCall::SubjectList { kind })),
    {
        after_session(session, ControlCall::SubjectList { kind })
    }
}

/// The `createSubject` and `updateSubject` mutations.
pub struct SubjectMutation;

impl SubjectMutation {
    /// The `subject.create` call, once the control session is open; the
    /// daemon's answer is the new subject.
    pub fn create_subject(&self, session: Result<(), ResolverError>, input: CreateSubjectInput) -> (r: Result<
        ControlCall,
        ResolverError,
    >)
        ensures
            r == answer(session, (ControlCall::SubjectCreate(input))),
    {
        after_session(session, ControlCall::SubjectCreate(input))
    }

    /// The `subject.update` call, once the control session is open; the
    /// daemon's answer is the updated subject.
    pub fn update_subject(&self, session: Result<(), ResolverError>, input: UpdateSubjectInput) -> (r: Result<
        ControlCall,
        ResolverError,
    >)
        ensures
            r == answer(session, (ControlCall::SubjectUpdate(input))),
    {
        after_session(session, ControlCall::SubjectUpdate(input))
    }
}

/// The `subjectChanged` subscription.
pub struct SubjectChangedSubscription;

impl SubjectChangedSubscription {
    /// The `subject/watch` request the subscription sends once the control
    /// session is open: the requested kind, and no filter.
    pub fn subject_changed(&self, session: Result<(), ResolverError>, kind: Option<String>) -> (r:
        Result<SubjectWatchRequest, ResolverError>)
        ensures
            match session {
                Ok(_) => r matches Ok(req) && req.kind == kind && req.filter is None,
                Err(e) => r == Err::<SubjectWatchRequest, ResolverError>(e),
            },
    {
        after_session(session, SubjectWatchRequest { kind, filter: None })
    }

    /// The daemon's answer to `subject/watch`: the subscription when it was
    /// accepted, the failure of `subject/watch` otherwise.
    pub fn watch_outcome<S>(&self, reply: Result<S, String>) -> (r: Result<S, ResolverError>)
        ensures
            match reply {
                Ok(s) => r == Ok::<S, ResolverError>(s),
                Err(detail) => r matches Err(ResolverError::Rpc { method, detail: d }) && method@
                    == "subject/watch"@ && d@ == detail@,
            },
    {
        match reply {
            Ok(s) => Ok(s),
            Err(detail) => Err(ResolverError::Rpc { method: owned("subject/watch"), detail }),
        }
    }
}

} // verus!
