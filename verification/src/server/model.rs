//! What an approval registry holds, and what each operation does to it.

use vstd::prelude::*;

use crate::clock::UtcTime;
use crate::json::JsonView;
use crate::protocol::approval::{
    ApprovalContextView, ApprovalStatusView, ApprovalView, RequestType,
};
use crate::protocol::tool::ToolView;
use crate::server::approvals::TemporaryGrantError;

verus! {

/// An approval with the time at which a gateway last polled for it.
pub struct EntryView {
    pub approval: ApprovalView,
    pub last_polled_at: Option<u128>,
}

/// What is known of an approval before it is registered.
pub struct RegisterApprovalView {
    pub request_id: Seq<char>,
    pub session_id: Seq<char>,
    pub session_display_name: Seq<char>,
    pub project: Seq<char>,
    pub tool: ToolView,
    pub tool_input: JsonView,
    pub provider: Seq<char>,
    pub request_type: RequestType,
    pub context: ApprovalContextView,
}

impl RegisterApprovalView {
    /// The approval that is made of the request.
    pub open spec fn approval(
        self,
        id: u128,
        created_at: UtcTime,
        status: ApprovalStatusView,
    ) -> ApprovalView {
        ApprovalView {
            id,
            request_id: self.request_id,
            session_id: self.session_id,
            session_display_name: self.session_display_name,
            project: self.project,
            tool: self.tool,
            tool_input: self.tool_input,
            provider: self.provider,
            request_type: self.request_type,
            context: self.context,
            created_at,
            status,
        }
    }
}

/// What a grant stands for: a session, and a shell command letter by letter.
/// Nothing but a shell call with a command that is a text has one.
pub open spec fn grant_key_of(
    session_id: Seq<char>,
    tool: ToolView,
    tool_input: JsonView,
) -> Option<(Seq<char>, Seq<char>)> {
    if tool is Bash {
        match tool_input.text_member("command"@) {
            Some(command) => Some((session_id, command)),
            None => None,
        }
    } else {
        None
    }
}

/// An approval without a message.
pub open spec fn plainly_approved() -> ApprovalStatusView {
    ApprovalStatusView::Approved { message: None }
}

/// The grants that end after `now`.
pub open spec fn running(
    grants: Map<(Seq<char>, Seq<char>), u128>,
    now: u128,
) -> Map<(Seq<char>, Seq<char>), u128> {
    grants.restrict(grants.dom().filter(|key: (Seq<char>, Seq<char>)| grants[key] > now))
}

/// What an approval registry holds.
#[verifier::ext_equal]
pub struct RegistryView {
    /// The approvals, by their identifiers.
    pub entries: Map<u128, EntryView>,
    /// The approval that answers to a request.
    pub by_request: Map<Seq<char>, u128>,
    /// The approvals of a session.
    pub by_session: Map<Seq<char>, Set<u128>>,
    /// When each grant ends, by session and command.
    pub grants: Map<(Seq<char>, Seq<char>), u128>,
}

/// What a registration leads to.
pub struct RegistrationView {
    /// The registry afterwards.
    pub registry: RegistryView,
    /// The approval that answers to the request.
    pub approval: ApprovalView,
    /// Whether the request was not known before.
    pub is_new: bool,
}

impl RegistryView {
    /// A registry that holds nothing.
    pub open spec fn empty() -> RegistryView {
        RegistryView {
            entries: Map::empty(),
            by_request: Map::empty(),
            by_session: Map::empty(),
            grants: Map::empty(),
        }
    }

    /// Every approval is found under its own identifier and among those of its
    /// session, and all is finite.
    pub open spec fn wf(self) -> bool {
        &&& forall|id: u128| #[trigger]
            self.entries.contains_key(id) ==> self.entries[id].approval.id == id && self.ids_of(
                self.entries[id].approval.session_id,
            ).contains(id)
        &&& self.entries.dom().finite()
        &&& self.grants.dom().finite()
    }

    /// The approval with an identifier.
    pub open spec fn approval(self, id: u128) -> Option<ApprovalView> {
        if self.entries.contains_key(id) {
            Some(self.entries[id].approval)
        } else {
            None
        }
    }

    /// Whether there is such an approval and it waits for a decision.
    pub open spec fn is_pending(self, id: u128) -> bool {
        self.entries.contains_key(id) && self.entries[id].approval.pending()
    }

    /// The approvals that wait for a decision.
    pub open spec fn pending_ids(self) -> Set<u128> {
        self.entries.dom().filter(|id: u128| self.is_pending(id))
    }

    /// The registry after a decision on an approval. A decision once taken stays.
    pub open spec fn decided(self, id: u128, status: ApprovalStatusView) -> RegistryView {
        if self.is_pending(id) {
            RegistryView {
                entries: self.entries.insert(
                    id,
                    EntryView {
                        approval: self.entries[id].approval.with_status(status),
                        last_polled_at: self.entries[id].last_polled_at,
                    },
                ),
                ..self
            }
        } else {
            self
        }
    }

    /// The registry without the grants that have ended by `now`.
    pub open spec fn without_ended_grants(self, now: u128) -> RegistryView {
        RegistryView {
            grants: running(self.grants, now),
            ..self
        }
    }

    /// Whether a grant for the call runs at `now`. It runs strictly before its end.
    pub open spec fn granted(
        self,
        session_id: Seq<char>,
        tool: ToolView,
        tool_input: JsonView,
        now: u128,
    ) -> bool {
        match grant_key_of(session_id, tool, tool_input) {
            Some(key) => self.grants.contains_key(key) && self.grants[key] > now,
            None => false,
        }
    }

    /// The registry after a look for a grant: ended grants leave on the way. No
    /// look is taken for a call that can have no grant.
    pub open spec fn after_grant_look_up(
        self,
        session_id: Seq<char>,
        tool: ToolView,
        tool_input: JsonView,
        now: u128,
    ) -> RegistryView {
        match grant_key_of(session_id, tool, tool_input) {
            Some(_) => self.without_ended_grants(now),
            None => self,
        }
    }

    /// What the index holds for a session: all approvals of the session, and none
    /// that another one has but where an identifier was given out twice.
    pub open spec fn ids_of(self, session_id: Seq<char>) -> Set<u128> {
        if self.by_session.contains_key(session_id) {
            self.by_session[session_id]
        } else {
            Set::empty()
        }
    }

    /// The approvals of a session.
    pub open spec fn session_ids(self, session_id: Seq<char>) -> Set<u128> {
        self.entries.dom().filter(
            |id: u128| self.entries[id].approval.session_id == session_id,
        )
    }

    /// The registry with an approval, not polled for yet.
    pub open spec fn with_approval(self, approval: ApprovalView) -> RegistryView {
        RegistryView {
            entries: self.entries.insert(
                approval.id,
                EntryView { approval, last_polled_at: None },
            ),
            by_request: self.by_request.insert(approval.request_id, approval.id),
            by_session: self.by_session.insert(
                approval.session_id,
                self.ids_of(approval.session_id).insert(approval.id),
            ),
            grants: self.grants,
        }
    }

    /// The approval that answers to a request.
    pub open spec fn answering(self, request_id: Seq<char>) -> Option<ApprovalView> {
        if self.by_request.contains_key(request_id) {
            self.approval(self.by_request[request_id])
        } else {
            None
        }
    }

    /// Whether each request is answered by the approval that was made for it, and
    /// each approval answers to its request.
    pub open spec fn requests_agree(self) -> bool {
        &&& forall|request_id: Seq<char>|
            #![trigger self.by_request.contains_key(request_id)]
            self.by_request.contains_key(request_id) ==> self.entries.contains_key(
                self.by_request[request_id],
            ) && self.entries[self.by_request[request_id]].approval.request_id == request_id
        &&& forall|id: u128| #[trigger]
            self.entries.contains_key(id) ==> {
                let request_id = self.entries[id].approval.request_id;
                self.by_request.contains_key(request_id) && self.by_request[request_id] == id
            }
    }

    /// What a registration leads to. A known request is answered by the approval
    /// that it has, which a running grant approves. A new one gets the approval
    /// `id`, approved at once where a grant runs.
    pub open spec fn registration(
        self,
        request: RegisterApprovalView,
        created_at: UtcTime,
        now: u128,
        id: u128,
    ) -> RegistrationView {
        match self.answering(request.request_id) {
            Some(known) => {
                if known.pending() {
                    let looked = self.after_grant_look_up(
                        known.session_id,
                        known.tool,
                        known.tool_input,
                        now,
                    );
                    if self.granted(known.session_id, known.tool, known.tool_input, now) {
                        RegistrationView {
                            registry: looked.decided(known.id, plainly_approved()),
                            approval: known.with_status(plainly_approved()),
                            is_new: false,
                        }
                    } else {
                        RegistrationView { registry: looked, approval: known, is_new: false }
                    }
                } else {
                    RegistrationView { registry: self, approval: known, is_new: false }
                }
            },
            None => {
                let looked = self.after_grant_look_up(
                    request.session_id,
                    request.tool,
                    request.tool_input,
                    now,
                );
                let status = if self.granted(
                    request.session_id,
                    request.tool,
                    request.tool_input,
                    now,
                ) {
                    plainly_approved()
                } else {
                    ApprovalStatusView::Pending
                };
                let approval = request.approval(id, created_at, status);
                RegistrationView {
                    registry: looked.with_approval(approval),
                    approval,
                    is_new: true,
                }
            },
        }
    }

    /// The registry with a grant that ends at `end`; one for the same session and
    /// command is replaced.
    pub open spec fn with_grant(self, key: (Seq<char>, Seq<char>), end: u128) -> RegistryView {
        RegistryView { grants: self.grants.insert(key, end), ..self }
    }

    /// Why a decision on an approval cannot come with a grant.
    pub open spec fn grant_refusal(
        self,
        id: u128,
        status: ApprovalStatusView,
    ) -> Option<TemporaryGrantError> {
        if !(status is Approved) {
            Some(TemporaryGrantError::NotApproved)
        } else {
            match self.approval(id) {
                None => Some(TemporaryGrantError::ApprovalNotFound),
                Some(approval) => if !approval.pending() {
                    Some(TemporaryGrantError::AlreadyResolved)
                } else if !(approval.tool is Bash) {
                    Some(TemporaryGrantError::NotBash)
                } else if grant_key_of(
                    approval.session_id,
                    approval.tool,
                    approval.tool_input,
                ) is None {
                    Some(TemporaryGrantError::MissingCommand)
                } else {
                    None
                },
            }
        }
    }

    /// The registry after an approval together with a grant for its session and
    /// command, which ends at `end`.
    pub open spec fn decided_with_grant(
        self,
        id: u128,
        status: ApprovalStatusView,
        end: u128,
    ) -> RegistryView {
        let approval = self.entries[id].approval;
        let key = grant_key_of(approval.session_id, approval.tool, approval.tool_input);
        self.with_grant(key->0, end).decided(id, status)
    }

    /// The requests that approvals in `ids` were made for.
    pub open spec fn requests_of(self, ids: Set<u128>) -> Set<Seq<char>> {
        Set::new(
            |request_id: Seq<char>|
                exists|id: u128| #[trigger]
                    ids.contains(id) && self.entries.contains_key(id)
                        && self.entries[id].approval.request_id == request_id,
        )
    }

    /// The requests of one approval more.
    pub proof fn requests_with_one_more(self, ids: Set<u128>, id: u128)
        requires
            self.entries.contains_key(id),
        ensures
            self.requests_of(ids.insert(id)) == self.requests_of(ids).insert(
                self.entries[id].approval.request_id,
            ),
    {
        let more = ids.insert(id);
        assert(more.contains(id));
        assert forall|request_id: Seq<char>|
            self.requests_of(ids).contains(request_id) implies self.requests_of(more).contains(
            request_id,
        ) by {
            let other = choose|other: u128| #[trigger]
                ids.contains(other) && self.entries.contains_key(other)
                    && self.entries[other].approval.request_id == request_id;
            assert(more.contains(other));
        }
        assert(self.requests_of(more) =~= self.requests_of(ids).insert(
            self.entries[id].approval.request_id,
        ));
    }

    /// The registry without the session's approvals. Its grants stay.
    pub open spec fn without_session(self, session_id: Seq<char>) -> RegistryView {
        let ids = self.session_ids(session_id);
        RegistryView {
            entries: self.entries.remove_keys(ids),
            by_request: self.by_request.remove_keys(self.requests_of(ids)),
            by_session: self.by_session.remove(session_id),
            grants: self.grants,
        }
    }

    /// The registry after a poll for an approval.
    pub open spec fn polled(self, id: u128, now: u128) -> RegistryView {
        if self.entries.contains_key(id) {
            RegistryView {
                entries: self.entries.insert(
                    id,
                    EntryView {
                        approval: self.entries[id].approval,
                        last_polled_at: Some(now),
                    },
                ),
                ..self
            }
        } else {
            self
        }
    }

    /// Whether the gateway has stopped polling for a pending approval: it polled
    /// once, and longer than `threshold` ago.
    pub open spec fn orphaned(self, id: u128, now: u128, threshold: u128) -> bool {
        self.is_pending(id) && match self.entries[id].last_polled_at {
            Some(polled) => now - polled > threshold,
            None => false,
        }
    }

    /// The pending approvals that no gateway polls for any more.
    pub open spec fn orphans(self, now: u128, threshold: u128) -> Set<u128> {
        self.entries.dom().filter(|id: u128| self.orphaned(id, now, threshold))
    }

    /// The registry with the approvals in `ids` cancelled, where they were pending.
    pub open spec fn cancelled(self, ids: Set<u128>) -> RegistryView {
        RegistryView {
            entries: self.entries.map_entries(
                |id: u128, entry: EntryView|
                    if ids.contains(id) && entry.approval.pending() {
                        EntryView {
                            approval: entry.approval.with_status(ApprovalStatusView::Cancelled),
                            last_polled_at: entry.last_polled_at,
                        }
                    } else {
                        entry
                    },
            ),
            ..self
        }
    }

    /// The registry with the pending ones of `approvals`, one after the other.
    pub open spec fn restored(self, approvals: Seq<ApprovalView>) -> RegistryView
        decreases approvals.len(),
    {
        if approvals.len() == 0 {
            self
        } else {
            let before = self.restored(approvals.drop_last());
            if approvals.last().pending() {
                before.with_approval(approvals.last())
            } else {
                before
            }
        }
    }

    /// Whether `listed` is all pending approvals, each once, the oldest first.
    pub open spec fn lists_pending(self, listed: Seq<ApprovalView>) -> bool {
        &&& listed.no_duplicates()
        &&& listed.to_set() == self.pending_ids().map(|id: u128| self.entries[id].approval)
        &&& oldest_first(listed)
    }

    /// Whether `found` is the oldest pending approval of the session, or nothing
    /// where it has none. Of several that are as old, it may be any.
    pub open spec fn is_first_pending(
        self,
        session_id: Seq<char>,
        found: Option<ApprovalView>,
    ) -> bool {
        match found {
            Some(first) => {
                &&& self.is_candidate(session_id, first.id)
                &&& self.approval(first.id) == Some(first)
                &&& forall|id: u128| #[trigger]
                    self.is_candidate(session_id, id)
                        ==> !self.entries[id].approval.created_at.earlier(first.created_at)
            },
            None => forall|id: u128| !#[trigger] self.is_candidate(session_id, id),
        }
    }

    /// Whether the approval is a pending one of the session.
    pub open spec fn is_candidate(self, session_id: Seq<char>, id: u128) -> bool {
        self.is_pending(id) && self.entries[id].approval.session_id == session_id
    }
}

/// The pending ones of `approvals`, in their order.
pub open spec fn pending_of(approvals: Seq<ApprovalView>) -> Seq<ApprovalView> {
    approvals.filter(|approval: ApprovalView| approval.pending())
}

/// The identifiers of the pending ones of `approvals`.
pub open spec fn pending_in(approvals: Seq<ApprovalView>) -> Set<u128> {
    Set::new(
        |id: u128|
            exists|i: int|
                0 <= i < approvals.len() && (#[trigger] approvals[i]).id == id
                    && approvals[i].pending(),
    )
}

/// Whether no approval stands before an older one.
pub open spec fn oldest_first(listed: Seq<ApprovalView>) -> bool {
    forall|i: int, j: int|
        0 <= i < j < listed.len() ==> !(#[trigger] listed[j]).created_at.earlier(
            (#[trigger] listed[i]).created_at,
        )
}

} // verus!
