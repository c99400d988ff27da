//! What of the server's state survives a restart.

use vstd::prelude::*;

use crate::clock::UtcTime;
use crate::json::Json;
use crate::protocol::approval::Approval;
use crate::protocol::session::{Provider, SessionId, SessionNotifyConfig, SessionStatus};
use crate::server::approvals::ApprovalRegistry;

verus! {

/// `std::path::PathBuf`, carried through as it is.
#[verifier::external_type_specification]
#[verifier::external_body]
pub struct ExPathBuf(std::path::PathBuf);

/// A session as it is kept. When it was last seen is not kept.
#[derive(Debug, PartialEq, Eq)]
pub struct PersistedSession {
    pub project: String,
    pub config: SessionNotifyConfig,
    pub editor_type: Provider,
    pub status: SessionStatus,
    pub display_name: Option<String>,
}

/// A temporary grant in the form in which a state may hold one.
#[derive(Debug, PartialEq, Eq)]
pub struct PersistedApprovalGrant {
    pub session_id: SessionId,
    pub command: String,
    pub issued_at: UtcTime,
    pub expires_at: UtcTime,
}

/// A state that is kept.
#[derive(Debug, PartialEq)]
pub struct PersistedState {
    pub sessions: Vec<(SessionId, PersistedSession)>,
    pub notify_config: Option<Json>,
    pub presence: Option<Json>,
    pub pending_approvals: Vec<Approval>,
    pub timed_approval_grants: Vec<PersistedApprovalGrant>,
}

/// The state to keep: the pending approvals of the registry, the oldest first,
/// and the rest as it is given. Grants are not kept.
pub fn snapshot(
    approvals: &ApprovalRegistry,
    sessions: Vec<(SessionId, PersistedSession)>,
    notify_config: Option<Json>,
    presence: Option<Json>,
) -> (r: PersistedState)
    requires
        approvals.wf(),
    ensures
        r.sessions == sessions,
        r.notify_config == notify_config,
        r.presence == presence,
        approvals@.lists_pending(
            crate::protocol::approval::approval_views(r.pending_approvals@),
        ),
        r.timed_approval_grants@.len() == 0,
{
    PersistedState {
        sessions,
        notify_config,
        presence,
        pending_approvals: approvals.snapshot(),
        timed_approval_grants: Vec::new(),
    }
}

/// Takes the kept approvals in again. Grants that a state may hold are not looked at.
pub fn restore(approvals: &mut ApprovalRegistry, pending_approvals: Vec<Approval>)
    requires
        old(approvals).wf(),
    ensures
        final(approvals).wf(),
        final(approvals).continues(
            *old(approvals),
            crate::server::model::pending_in(
                crate::protocol::approval::approval_views(pending_approvals@),
            ),
        ),
        final(approvals)@ == old(approvals)@.restored(
            crate::protocol::approval::approval_views(pending_approvals@),
        ),
{
    if pending_approvals.len() > 0 {
        approvals.restore(pending_approvals);
    }
}

/// What came of reading a kept state.
#[derive(Debug, PartialEq)]
pub enum StateFile {
    /// There is none.
    Missing,
    /// It could not be read, and why.
    Unreadable(String),
    /// It does not hold a state, and why.
    Malformed(String),
    Read(PersistedState),
}

/// The state that was kept: none where there is no file, and an error where there
/// is one that cannot be made sense of.
pub fn loaded(file: StateFile) -> (r: Result<Option<PersistedState>, String>)
    ensures
        match file {
            StateFile::Missing => r == Ok::<Option<PersistedState>, String>(None),
            StateFile::Unreadable(fault) => r == Err::<Option<PersistedState>, String>(fault),
            StateFile::Malformed(fault) => r == Err::<Option<PersistedState>, String>(fault),
            StateFile::Read(state) => r == Ok::<Option<PersistedState>, String>(Some(state)),
        },
{
    match file {
        StateFile::Missing => Ok(None),
        StateFile::Unreadable(fault) => Err(fault),
        StateFile::Malformed(fault) => Err(fault),
        StateFile::Read(state) => Ok(Some(state)),
    }
}

/// Keeps nothing.
pub struct NullStorage;

impl NullStorage {
    /// The state that was kept: none.
    pub fn load(&self) -> (r: Option<PersistedState>)
        ensures
            r is None,
    {
        None
    }
}

/// Keeps the state in a file.
pub struct LocalFileStorage {
    path: std::path::PathBuf,
}

impl LocalFileStorage {
    /// The file.
    pub closed spec fn file(self) -> std::path::PathBuf {
        self.path
    }

    /// Keeps the state in the file at `path`.
    pub fn new(path: std::path::PathBuf) -> (r: Self)
        ensures
            r.file() == path,
    {
        LocalFileStorage { path }
    }

    /// The file.
    pub fn path(&self) -> (r: &std::path::PathBuf)
        ensures
            *r == self.file(),
    {
        &self.path
    }
}

/// What is kept of a state comes back after a restart: every approval that was pending,
/// as it was, and no other; the sessions, the notifications and the presence as they were
/// given; and no grant.
pub proof fn kept_state_comes_back(
    before: &ApprovalRegistry,
    sessions: Vec<(SessionId, PersistedSession)>,
    notify_config: Option<Json>,
    presence: Option<Json>,
    kept: PersistedState,
    read: Result<Option<PersistedState>, String>,
    after: &mut ApprovalRegistry,
    id: u128,
)
    requires
        before.wf(),
        call_ensures(snapshot, (before, sessions, notify_config, presence), kept),
        call_ensures(loaded, (StateFile::Read(kept),), read),
        old(after).wf(),
        old(after)@ == crate::server::model::RegistryView::empty(),
        call_ensures(restore, (after, read->Ok_0->0.pending_approvals), ()),
    ensures
        read is Ok,
        read->Ok_0 is Some,
        read->Ok_0->0.sessions == sessions,
        read->Ok_0->0.notify_config == notify_config,
        read->Ok_0->0.presence == presence,
        read->Ok_0->0.timed_approval_grants@.len() == 0,
        final(after)@.entries.contains_key(id) <==> before@.entries.contains_key(id)
            && before@.entries[id].approval.status is Pending,
        final(after)@.entries.contains_key(id) ==> final(after)@.entries[id].approval
            == before@.entries[id].approval,
        final(after)@.grants.dom() == Set::<(Seq<char>, Seq<char>)>::empty(),
{
    (*before).view_is_wf();
    let views = crate::protocol::approval::approval_views(kept.pending_approvals@);
    crate::server::laws::snapshot_is_restored(before@, views, id);
    crate::server::laws::restoring_grants_nothing(
        crate::server::model::RegistryView::empty(),
        views,
    );
    assert(final(after)@.approval(id) is Some == final(after)@.entries.contains_key(id));
    assert(final(after)@.grants.dom() =~= Set::empty());
}

/// Where there is no file nothing was kept; a file that cannot be read or made sense of
/// is a fault, and never taken for an empty state.
pub proof fn unreadable_state_is_a_fault(
    file: StateFile,
    r: Result<Option<PersistedState>, String>,
)
    requires
        call_ensures(loaded, (file,), r),
    ensures
        r == Ok::<Option<PersistedState>, String>(None) <==> file is Missing,
        file matches StateFile::Unreadable(why) ==> r is Err && r->Err_0 == why,
        file matches StateFile::Malformed(why) ==> r is Err && r->Err_0 == why,
        r is Err ==> file is Unreadable || file is Malformed,
{
}

/// A store that keeps nothing has nothing, and one that keeps its state in a file keeps
/// it in the file that it was made with.
pub proof fn storage_is_where_it_was_put(
    none: &NullStorage,
    nothing: Option<PersistedState>,
    path: std::path::PathBuf,
    made: LocalFileStorage,
    told: &std::path::PathBuf,
)
    requires
        call_ensures(NullStorage::load, (none,), nothing),
        call_ensures(LocalFileStorage::new, (path,), made),
        call_ensures(LocalFileStorage::path, (&made,), told),
    ensures
        nothing is None,
        *told == path,
{
}

} // verus!
