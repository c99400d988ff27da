//! The registry of approvals.

use std::collections::{HashMap, HashSet};

use vstd::hash_map::StringHashMap;
use vstd::prelude::*;

use crate::clock::{elapsed_nanos, utc_now, UtcTime};
use crate::ids::new_uuid;
use crate::json::Json;
use crate::protocol::approval::{
    Approval, ApprovalContext, ApprovalGrantDuration, ApprovalStatus, ApprovalStatusView,
    ApprovalView, RequestType,
};
use crate::protocol::session::SessionId;
use crate::protocol::tool::Tool;
use crate::server::model::{
    EntryView, RegisterApprovalView, RegistrationView, RegistryView,
};
use crate::text::same_text;

verus! {

broadcast use vstd::std_specs::hash::group_hash_axioms;

/// `tokio::sync::watch::Sender`, carried through as it is.
#[verifier::external_type_specification]
#[verifier::external_body]
#[verifier::reject_recursive_types(T)]
pub struct ExWatchSender<T>(tokio::sync::watch::Sender<T>);

/// `tokio::sync::watch::Receiver`, carried through as it is.
#[verifier::external_type_specification]
#[verifier::external_body]
#[verifier::reject_recursive_types(T)]
pub struct ExWatchReceiver<T>(tokio::sync::watch::Receiver<T>);

/// The one status that lies in a sender's channel.
pub uninterp spec fn announced(tx: tokio::sync::watch::Sender<ApprovalStatus>) -> Seq<
    ApprovalStatusView,
>;

/// The one status that lay in a receiver's channel when the receiver was made.
pub uninterp spec fn first_seen(rx: tokio::sync::watch::Receiver<ApprovalStatus>) -> Seq<
    ApprovalStatusView,
>;

/// Which channel a sender sends into.
pub uninterp spec fn channel_of(tx: tokio::sync::watch::Sender<ApprovalStatus>) -> nat;

/// Which channel a receiver listens to.
pub uninterp spec fn channel_heard(rx: tokio::sync::watch::Receiver<ApprovalStatus>) -> nat;

/// `tokio::sync::watch::channel`, of which the sender is kept: the channel holds
/// the status that it was opened with.
#[verifier::external_body]
fn open_channel(status: ApprovalStatus) -> (tx: tokio::sync::watch::Sender<ApprovalStatus>)
    ensures
        announced(tx) == seq![status@],
{
    tokio::sync::watch::channel(status).0
}

/// `tokio::sync::watch::Sender::send_replace`: the channel then holds the status,
/// whether or not anybody watches, and stays the same channel: those who listen to
/// it find the status there. The sender is borrowed exclusively, so nobody else
/// sends meanwhile. When those who listen are woken is up to their tasks.
#[verifier::external_body]
fn announce(tx: &mut tokio::sync::watch::Sender<ApprovalStatus>, status: ApprovalStatus)
    ensures
        announced(*final(tx)) == seq![status@],
        channel_of(*final(tx)) == channel_of(*old(tx)),
{
    let _ = tx.send_replace(status);
}

/// `tokio::sync::watch::Sender::subscribe`: a receiver that listens to the
/// sender's channel, and finds in it at first what the sender left there.
#[verifier::external_body]
fn listen(tx: &tokio::sync::watch::Sender<ApprovalStatus>) -> (rx: tokio::sync::watch::Receiver<
    ApprovalStatus,
>)
    ensures
        first_seen(rx) == announced(*tx),
        channel_heard(rx) == channel_of(*tx),
{
    tx.subscribe()
}

/// What is known of an approval before it is registered.
#[derive(Debug, PartialEq)]
pub struct RegisterApproval {
    pub request_id: String,
    pub session_id: SessionId,
    pub session_display_name: String,
    pub project: String,
    pub tool: Tool,
    pub tool_input: Json,
    pub provider: String,
    pub request_type: RequestType,
    pub context: ApprovalContext,
}

impl View for RegisterApproval {
    type V = RegisterApprovalView;

    open spec fn view(&self) -> RegisterApprovalView {
        RegisterApprovalView {
            request_id: self.request_id@,
            session_id: self.session_id@,
            session_display_name: self.session_display_name@,
            project: self.project@,
            tool: self.tool@,
            tool_input: self.tool_input@,
            provider: self.provider@,
            request_type: self.request_type,
            context: self.context@,
        }
    }
}

/// What a registration leads to.
#[derive(Debug, PartialEq)]
pub struct RegistrationOutcome {
    /// The approval that answers to the request.
    pub approval: Approval,
    /// Whether the request was not known before.
    pub is_new: bool,
}

/// Why a decision could not come with a temporary grant.
#[derive(Clone, Copy, Debug, PartialEq, Eq, Structural)]
pub enum TemporaryGrantError {
    ApprovalNotFound,
    AlreadyResolved,
    NotApproved,
    NotBash,
    MissingCommand,
}

impl TemporaryGrantError {
    /// What to tell the operator.
    pub open spec fn text(self) -> Seq<char> {
        match self {
            TemporaryGrantError::ApprovalNotFound => "approval not found"@,
            TemporaryGrantError::AlreadyResolved =>
                "temporary grants require a pending approval decision"@,
            TemporaryGrantError::NotApproved => "temporary grants require an approve decision"@,
            TemporaryGrantError::NotBash =>
                "temporary grants are supported only for Bash approvals"@,
            TemporaryGrantError::MissingCommand =>
                "Bash approval does not contain a string command"@,
        }
    }

    /// What to tell the operator.
    pub fn message(self) -> (r: &'static str)
        ensures
            r@ == self.text(),
    {
        match self {
            TemporaryGrantError::ApprovalNotFound => "approval not found",
            TemporaryGrantError::AlreadyResolved =>
                "temporary grants require a pending approval decision",
            TemporaryGrantError::NotApproved => "temporary grants require an approve decision",
            TemporaryGrantError::NotBash =>
                "temporary grants are supported only for Bash approvals",
            TemporaryGrantError::MissingCommand =>
                "Bash approval does not contain a string command",
        }
    }
}

/// An approval that the registry keeps.
struct ApprovalEntry {
    approval: Approval,
    tx: tokio::sync::watch::Sender<ApprovalStatus>,
    /// When a gateway last polled for the approval, if one ever did.
    last_polled_at: Option<u128>,
}

impl ApprovalEntry {
    /// What the entry says.
    spec fn model(self) -> EntryView {
        EntryView { approval: self.approval@, last_polled_at: self.last_polled_at }
    }
}

/// Whether the channel of each entry holds the status of its approval.
spec fn channels_hold_statuses(entries: Map<u128, ApprovalEntry>) -> bool {
    forall|id: u128| #[trigger]
        entries.contains_key(id) ==> announced(entries[id].tx)
            == seq![entries[id].approval.status@]
}

/// A shell command that a session may run without asking, up to some time.
struct Grant {
    session_id: SessionId,
    command: String,
    ends_at: u128,
}

impl Grant {
    /// What the grant stands for.
    spec fn key(self) -> (Seq<char>, Seq<char>) {
        (self.session_id@, self.command@)
    }
}

/// Whether no two grants stand for the same session and command.
spec fn distinct_grants(grants: Seq<Grant>) -> bool {
    forall|i: int, j: int|
        0 <= i < j < grants.len() ==> (#[trigger] grants[i]).key() != (#[trigger] grants[j]).key()
}

/// When each grant ends, by session and command.
spec fn grant_ends(grants: Seq<Grant>) -> Map<(Seq<char>, Seq<char>), u128>
    decreases grants.len(),
{
    if grants.len() == 0 {
        Map::empty()
    } else {
        grant_ends(grants.drop_last()).insert(grants.last().key(), grants.last().ends_at)
    }
}

/// The keys of `grant_ends` are those of the grants, and the end of each is found.
proof fn grant_ends_keys(grants: Seq<Grant>)
    ensures
        forall|key: (Seq<char>, Seq<char>)| #[trigger]
            grant_ends(grants).contains_key(key) ==> exists|i: int|
                0 <= i < grants.len() && (#[trigger] grants[i]).key() == key,
        forall|i: int|
            0 <= i < grants.len() ==> grant_ends(grants).contains_key((#[trigger] grants[i]).key()),
        distinct_grants(grants) ==> forall|i: int|
            0 <= i < grants.len() ==> grant_ends(grants)[(#[trigger] grants[i]).key()]
                == grants[i].ends_at,
        grant_ends(grants).dom().finite(),
        distinct_grants(grants) ==> grant_ends(grants).dom().len() == grants.len(),
    decreases grants.len(),
{
    if grants.len() > 0 {
        let rest = grants.drop_last();
        grant_ends_keys(rest);
        assert forall|key: (Seq<char>, Seq<char>)| #[trigger]
            grant_ends(grants).contains_key(key) implies exists|i: int|
            0 <= i < grants.len() && (#[trigger] grants[i]).key() == key by {
            if key == grants.last().key() {
                assert(grants[grants.len() - 1].key() == key);
            } else {
                assert(grant_ends(rest).contains_key(key));
                let i = choose|i: int| 0 <= i < rest.len() && (#[trigger] rest[i]).key() == key;
                assert(grants[i].key() == key);
            }
        }
        assert forall|i: int| 0 <= i < grants.len() implies grant_ends(grants).contains_key(
            (#[trigger] grants[i]).key(),
        ) by {
            if i < rest.len() {
                assert(rest[i] == grants[i]);
            }
        }
        if distinct_grants(grants) {
            assert(distinct_grants(rest));
            assert forall|i: int| 0 <= i < grants.len() implies grant_ends(
                grants,
            )[(#[trigger] grants[i]).key()] == grants[i].ends_at by {
                if i < rest.len() {
                    assert(rest[i] == grants[i]);
                    assert(grants[i].key() != grants[grants.len() - 1].key());
                }
            }
            assert(!grant_ends(rest).contains_key(grants.last().key())) by {
                if grant_ends(rest).contains_key(grants.last().key()) {
                    let i = choose|i: int|
                        0 <= i < rest.len() && (#[trigger] rest[i]).key() == grants.last().key();
                    assert(grants[i].key() == grants[grants.len() - 1].key());
                }
            }
            assert(grant_ends(grants).dom() =~= grant_ends(rest).dom().insert(
                grants.last().key(),
            ));
        }
    }
}

/// The grant at `i` stands for what none before it does.
proof fn grant_is_not_seen(grants: Seq<Grant>, i: int)
    requires
        distinct_grants(grants),
        0 <= i < grants.len(),
    ensures
        !grant_ends(grants.take(i)).contains_key(grants[i].key()),
        grant_ends(grants.take(i + 1)) == grant_ends(grants.take(i)).insert(
            grants[i].key(),
            grants[i].ends_at,
        ),
{
    let seen = grants.take(i);
    grant_ends_keys(seen);
    if grant_ends(seen).contains_key(grants[i].key()) {
        let k = choose|k: int|
            0 <= k < seen.len() && (#[trigger] seen[k]).key() == grants[i].key();
        assert(grants[k].key() == grants[i].key());
    }
    assert(grants.take(i + 1).drop_last() =~= seen);
}

/// A grant for something new keeps the grants distinct.
proof fn grant_pushed(grants: Seq<Grant>, grant: Grant)
    requires
        distinct_grants(grants),
        !grant_ends(grants).contains_key(grant.key()),
    ensures
        distinct_grants(grants.push(grant)),
        grant_ends(grants.push(grant)) == grant_ends(grants).insert(grant.key(), grant.ends_at),
{
    grant_ends_keys(grants);
    assert(grants.push(grant).drop_last() =~= grants);
    assert forall|i: int, j: int| 0 <= i < j < grants.push(grant).len() implies (
    #[trigger] grants.push(grant)[i]).key() != (#[trigger] grants.push(grant)[j]).key() by {
        assert(grants.push(grant)[i] == grants[i]);
        if j < grants.len() {
            assert(grants.push(grant)[j] == grants[j]);
        }
    }
}

/// What runs of the grants when one more is counted.
proof fn running_with_one_more(
    grants: Map<(Seq<char>, Seq<char>), u128>,
    key: (Seq<char>, Seq<char>),
    end: u128,
    now: u128,
)
    requires
        !grants.contains_key(key),
    ensures
        end > now ==> crate::server::model::running(grants.insert(key, end), now) == crate::server::model::running(grants, now).insert(
            key,
            end,
        ),
        end <= now ==> crate::server::model::running(grants.insert(key, end), now) == crate::server::model::running(grants, now),
{
    if end > now {
        assert(crate::server::model::running(grants.insert(key, end), now) =~= crate::server::model::running(grants, now).insert(key, end));
    } else {
        assert(crate::server::model::running(grants.insert(key, end), now) =~= crate::server::model::running(grants, now));
    }
}

/// The registry of approvals.
pub struct ApprovalRegistry {
    /// What monotonic time is counted from.
    origin: tokio::time::Instant,
    entries: HashMap<u128, ApprovalEntry>,
    /// The approval that answers to a request, by the request's identifier.
    by_request_id: StringHashMap<u128>,
    /// The approvals of a session; a session may have several.
    by_session_id: StringHashMap<HashSet<u128>>,
    grants: Vec<Grant>,
    /// The channel of each approval that was removed, and what lay in it then.
    farewells: Ghost<Map<u128, (nat, Seq<ApprovalStatusView>)>>,
}

impl View for ApprovalRegistry {
    type V = RegistryView;

    closed spec fn view(&self) -> RegistryView {
        RegistryView {
            entries: self.entries@.map_values(|entry: ApprovalEntry| entry.model()),
            by_request: self.by_request_id@,
            by_session: self.by_session_id@.map_values(|ids: HashSet<u128>| ids@),
            grants: grant_ends(self.grants@),
        }
    }
}

impl ApprovalRegistry {
    /// Every approval is found under its own identifier, no two grants are for
    /// the same session and command, and those who watch an approval find its
    /// status.
    pub closed spec fn wf(self) -> bool {
        &&& self@.wf()
        &&& distinct_grants(self.grants@)
        &&& channels_hold_statuses(self.entries@)
    }

    /// What monotonic time is counted from.
    pub closed spec fn origin(self) -> tokio::time::Instant {
        self.origin
    }

    /// The channel that tells of each approval.
    pub closed spec fn channels(self) -> Map<u128, nat> {
        self.entries@.map_values(|entry: ApprovalEntry| channel_of(entry.tx))
    }

    /// What those who watch an approval find.
    pub closed spec fn shown(self, id: u128) -> Option<Seq<ApprovalStatusView>> {
        if self.entries@.contains_key(id) {
            Some(announced(self.entries@[id].tx))
        } else {
            None
        }
    }

    /// For each approval that was removed, the channel that told of it, and what
    /// those who watched it found there in the end.
    pub closed spec fn farewells(self) -> Map<u128, (nat, Seq<ApprovalStatusView>)> {
        self.farewells@
    }

    /// The channels of approvals, and what lies in them.
    spec fn last_told(self, ids: Set<u128>) -> Map<u128, (nat, Seq<ApprovalStatusView>)> {
        Map::new(
            |id: u128| ids.contains(id) && self.entries@.contains_key(id),
            |id: u128| (channel_of(self.entries@[id].tx), announced(self.entries@[id].tx)),
        )
    }

    /// Whether time is counted as before, and whoever listened to an approval but
    /// those in `replaced` still listens to it.
    pub open spec fn continues(self, before: Self, replaced: Set<u128>) -> bool {
        &&& self.origin() == before.origin()
        &&& self.channels().remove_keys(replaced) == before.channels().remove_keys(replaced)
        &&& self.farewells() == before.farewells()
    }

    /// Whether time is counted as before, and whoever listened to an approval
    /// still listens to it.
    pub open spec fn keeps_watchers(self, before: Self) -> bool {
        &&& self.origin() == before.origin()
        &&& self.channels() == before.channels()
        &&& self.farewells() == before.farewells()
    }

    /// What a registry holds is well-formed.
    pub proof fn view_is_wf(self)
        requires
            self.wf(),
        ensures
            self@.wf(),
    {
    }

    /// Whatever has been done to a registry, those who watch an approval find the
    /// status that it has; each approval has a channel, and nothing else has one.
    pub proof fn watchers_find_the_status(self, id: u128)
        requires
            self.wf(),
        ensures
            self.shown(id) == match self@.approval(id) {
                Some(approval) => Some(seq![approval.status]),
                None => None,
            },
            self.channels().contains_key(id) == self@.entries.contains_key(id),
    {
    }

    /// Whoever listens to an approval finds there whatever becomes of it: as long as
    /// the registry keeps the approval's channel, the status that the approval has
    /// lies in the channel that is listened to.
    pub proof fn listeners_find_what_becomes_of_it(
        self,
        later: Self,
        id: u128,
        rx: tokio::sync::watch::Receiver<ApprovalStatus>,
    )
        requires
            self.wf(),
            later.wf(),
            self@.entries.contains_key(id),
            channel_heard(rx) == self.channels()[id],
            later.keeps_watchers(self),
        ensures
            later@.entries.contains_key(id),
            channel_heard(rx) == later.channels()[id],
            later.shown(id) == Some(seq![later@.entries[id].approval.status]),
    {
        self.watchers_find_the_status(id);
        later.watchers_find_the_status(id);
    }

    /// The same where other approvals are registered, taken in or removed: after any
    /// step that `continues`, and after the removal of a session, whoever listens to
    /// an approval but those in `replaced` finds there whatever becomes of it.
    pub proof fn listeners_outlast_other_approvals(
        self,
        later: Self,
        replaced: Set<u128>,
        id: u128,
        rx: tokio::sync::watch::Receiver<ApprovalStatus>,
    )
        requires
            self.wf(),
            later.wf(),
            self@.entries.contains_key(id),
            channel_heard(rx) == self.channels()[id],
            later.continues(self, replaced) || later.channels() == self.channels().remove_keys(
                replaced,
            ),
            !replaced.contains(id),
        ensures
            later@.entries.contains_key(id),
            channel_heard(rx) == later.channels()[id],
            later.shown(id) == Some(seq![later@.entries[id].approval.status]),
    {
        self.watchers_find_the_status(id);
        later.watchers_find_the_status(id);
        assert(self.channels().remove_keys(replaced).contains_key(id));
        if later.continues(self, replaced) {
            assert(later.channels().remove_keys(replaced).contains_key(id));
            assert(later.channels().remove_keys(replaced)[id] == later.channels()[id]);
        }
    }

    /// A registry that holds nothing.
    pub fn new() -> (r: Self)
        ensures
            r.wf(),
            r@ == RegistryView::empty(),
    {
        let r = ApprovalRegistry {
            origin: tokio::time::Instant::now(),
            entries: HashMap::new(),
            by_request_id: StringHashMap::new(),
            by_session_id: StringHashMap::new(),
            grants: Vec::new(),
            farewells: Ghost(Map::empty()),
        };
        assert(r@ =~= RegistryView::empty());
        r
    }

    /// The present point of the monotonic clock.
    pub(crate) fn now(&self) -> (r: u128)
        ensures
            r <= crate::clock::longest_duration(),
    {
        elapsed_nanos(&self.origin)
    }

    /// The approval with an identifier.
    pub fn get(&self, id: u128) -> (r: Option<Approval>)
        requires
            self.wf(),
        ensures
            match r {
                Some(approval) => self@.approval(id) == Some(approval@),
                None => self@.approval(id) is None,
            },
    {
        match self.entries.get(&id) {
            Some(entry) => Some(entry.approval.clone()),
            None => None,
        }
    }
}

/// What a shell call with a command that is a text may get a grant for.
fn grant_key<'a>(tool: &Tool, tool_input: &'a Json) -> (r: Option<&'a str>)
    ensures
        forall|session_id: Seq<char>|
            #![trigger crate::server::model::grant_key_of(session_id, tool@, tool_input@)]
            crate::server::model::grant_key_of(session_id, tool@, tool_input@) == match r {
                Some(command) => Some((session_id, command@)),
                None => None,
            },
{
    if !tool.is_bash() {
        return None;
    }
    tool_input.get_str("command")
}

impl ApprovalRegistry {
    /// Decides on an approval. A decision once taken stays: the approval is then
    /// returned as it is.
    pub fn resolve(&mut self, id: u128, status: ApprovalStatus) -> (r: Option<Approval>)
        requires
            old(self).wf(),
        ensures
            final(self).wf(),
            final(self).keeps_watchers(*old(self)),
            final(self)@ == old(self)@.decided(id, status@),
            match r {
                Some(approval) => final(self)@.approval(id) == Some(approval@),
                None => final(self)@.approval(id) is None,
            },
    {
        let ghost before = self@;
        match self.entries.remove(&id) {
            Some(mut entry) => {
                if !entry.approval.status.is_resolved() {
                    entry.approval.status = status.clone();
                    announce(&mut entry.tx, status);
                }
                let approval = entry.approval.clone();
                self.entries.insert(id, entry);
                assert(self@ =~= before.decided(id, status@));
                assert(self.channels() =~= old(self).channels());
                assert(self@.entries.dom() =~= before.entries.dom());
                Some(approval)
            },
            None => {
                assert(self@ =~= before);
                assert(self.channels() =~= old(self).channels());
                None
            },
        }
    }

    /// Drops the grants that have ended by `now`.
    fn drop_ended_grants(&mut self, now: u128)
        requires
            old(self).wf(),
        ensures
            final(self).wf(),
            final(self).keeps_watchers(*old(self)),
            final(self)@ == old(self)@.without_ended_grants(now),
    {
        let ghost before = self@;
        let mut kept: Vec<Grant> = Vec::new();
        let mut i: usize = 0;
        assert(grant_ends(kept@) =~= crate::server::model::running(grant_ends(self.grants@.take(0)), now));
        while i < self.grants.len()
            invariant
                i <= self.grants@.len(),
                self@ == before,
                self.wf(),
                distinct_grants(kept@),
                grant_ends(kept@) == crate::server::model::running(grant_ends(self.grants@.take(i as int)), now),
            decreases self.grants@.len() - i,
        {
            let grant = &self.grants[i];
            let ghost seen = grant_ends(self.grants@.take(i as int));
            proof {
                grant_is_not_seen(self.grants@, i as int);
                running_with_one_more(seen, grant.key(), grant.ends_at, now);
            }
            if grant.ends_at > now {
                let copy = Grant {
                    session_id: grant.session_id.clone(),
                    command: grant.command.clone(),
                    ends_at: grant.ends_at,
                };
                proof {
                    grant_pushed(kept@, copy);
                }
                kept.push(copy);
            }
            i += 1;
        }
        assert(self.grants@.take(i as int) =~= self.grants@);
        self.grants = kept;
        proof {
            grant_ends_keys(self.grants@);
        }
        assert(self@ =~= before.without_ended_grants(now));
    }
}

/// The identifiers of a set, in no particular order.
fn listed(ids: &HashSet<u128>) -> (r: Vec<u128>)
    ensures
        r@.no_duplicates(),
        r@.to_set() == ids@,
{
    let mut out: Vec<u128> = Vec::new();
    for id in it: ids.iter()
        invariant
            it.seq().unref().to_set() == ids@,
            it.seq().no_duplicates(),
            out@ == it.seq().unref().take(it.index()),
            it.index() == it.seq().len() ==> out@ == it.seq().unref(),
    {
        out.push(*id);
    }
    out
}

/// A copy of a set of identifiers.
fn copied(ids: &HashSet<u128>) -> (r: HashSet<u128>)
    ensures
        r@ == ids@,
{
    let list = listed(ids);
    let mut out: HashSet<u128> = HashSet::new();
    let mut i: usize = 0;
    assert(list@.take(0).to_set() =~= out@);
    while i < list.len()
        invariant
            i <= list@.len(),
            out@ == list@.take(i as int).to_set(),
        decreases list@.len() - i,
    {
        proof {
            taken_set(list@, i as int);
        }
        out.insert(list[i]);
        i += 1;
    }
    assert(list@.take(i as int) =~= list@);
    out
}

impl ApprovalRegistry {
    /// Takes an approval in, not polled for yet.
    fn admit_approval(&mut self, approval: Approval)
        requires
            old(self).wf(),
        ensures
            final(self).wf(),
            final(self).continues(*old(self), set![approval.id]),
            final(self).channels().contains_key(approval.id),
            final(self)@ == old(self)@.with_approval(approval@),
    {
        let ghost before = self@;
        let id: u128 = approval.id;
        let mut ids: HashSet<u128> = match self.by_session_id.get(approval.session_id.as_str()) {
            Some(ids) => copied(ids),
            None => HashSet::new(),
        };
        ids.insert(id);
        let request_id = approval.request_id.clone();
        let session_id = approval.session_id.as_str().to_string();
        let ghost admitted = approval@;
        let tx = open_channel(approval.status.clone());
        self.entries.insert(id, ApprovalEntry { approval, tx, last_polled_at: None });
        self.by_request_id.insert(request_id, id);
        self.by_session_id.insert(session_id, ids);
        assert(self@ =~= before.with_approval(admitted));
        assert(self.channels().remove_keys(set![id]) =~= old(self).channels().remove_keys(set![id]));
        assert(self@.entries.dom() =~= before.entries.dom().insert(id));
    }

    /// Whether a grant for the session and command is held.
    fn holds_grant(&self, session_id: &SessionId, command: &str) -> (r: bool)
        requires
            self.wf(),
        ensures
            r == self@.grants.contains_key((session_id@, command@)),
    {
        proof {
            grant_ends_keys(self.grants@);
        }
        let mut i: usize = 0;
        while i < self.grants.len()
            invariant
                i <= self.grants@.len(),
                forall|j: int|
                    0 <= j < i ==> (#[trigger] self.grants@[j]).key() != (session_id@, command@),
            decreases self.grants@.len() - i,
        {
            if self.grants[i].session_id.same(session_id) && same_text(
                self.grants[i].command.as_str(),
                command,
            ) {
                proof {
                    grant_ends_keys(self.grants@);
                    assert(self.grants@[i as int].key() == (session_id@, command@));
                }
                return true;
            }
            i += 1;
        }
        false
    }

    /// Whether a grant for the session and command runs at `now`. Grants that
    /// have ended leave on the way.
    fn has_grant(&mut self, session_id: &SessionId, command: &str, now: u128) -> (r: bool)
        requires
            old(self).wf(),
        ensures
            final(self).wf(),
            final(self).keeps_watchers(*old(self)),
            final(self)@ == old(self)@.without_ended_grants(now),
            r == final(self)@.grants.contains_key((session_id@, command@)),
    {
        self.drop_ended_grants(now);
        self.holds_grant(session_id, command)
    }

    /// Whether a grant for the call runs at `now`.
    fn has_matching_grant(
        &mut self,
        session_id: &SessionId,
        tool: &Tool,
        tool_input: &Json,
        now: u128,
    ) -> (r: bool)
        requires
            old(self).wf(),
        ensures
            final(self).wf(),
            final(self).keeps_watchers(*old(self)),
            final(self)@ == old(self)@.after_grant_look_up(
                session_id@,
                tool@,
                tool_input@,
                now,
            ),
            r == old(self)@.granted(session_id@, tool@, tool_input@, now),
    {
        match grant_key(tool, tool_input) {
            Some(command) => self.has_grant(session_id, command, now),
            None => false,
        }
    }
}

impl ApprovalRegistry {
    /// Registers an approval under the identifier `id`, or returns the one that
    /// its request already has.
    pub fn register_with_id(
        &mut self,
        params: RegisterApproval,
        created_at: UtcTime,
        now: u128,
        id: u128,
    ) -> (r: RegistrationOutcome)
        requires
            old(self).wf(),
        ensures
            final(self).wf(),
            r.is_new ==> final(self).continues(*old(self), set![r.approval.id]),
            !r.is_new ==> final(self).keeps_watchers(*old(self)),
            old(self)@.registration(params@, created_at, now, id) == (RegistrationView {
                registry: final(self)@,
                approval: r.approval@,
                is_new: r.is_new,
            }),
    {
        let known = match self.by_request_id.get(params.request_id.as_str()) {
            Some(known_id) => self.get(*known_id),
            None => None,
        };
        if let Some(known) = known {
            if known.status.is_resolved() {
                return RegistrationOutcome { approval: known, is_new: false };
            }
            let granted = self.has_matching_grant(
                &known.session_id,
                &known.tool,
                &known.tool_input,
                now,
            );
            if granted {
                let approved = self.resolve(known.id, ApprovalStatus::Approved { message: None });
                return match approved {
                    Some(approval) => RegistrationOutcome { approval, is_new: false },
                    None => RegistrationOutcome { approval: known, is_new: false },
                };
            }
            return RegistrationOutcome { approval: known, is_new: false };
        }
        let granted = self.has_matching_grant(
            &params.session_id,
            &params.tool,
            &params.tool_input,
            now,
        );
        let status = if granted {
            ApprovalStatus::Approved { message: None }
        } else {
            ApprovalStatus::Pending
        };
        let approval = Approval {
            id,
            request_id: params.request_id,
            session_id: params.session_id,
            session_display_name: params.session_display_name,
            project: params.project,
            tool: params.tool,
            tool_input: params.tool_input,
            provider: params.provider,
            request_type: params.request_type,
            context: params.context,
            created_at,
            status,
        };
        self.admit_approval(approval.clone());
        RegistrationOutcome { approval, is_new: true }
    }

    /// Registers an approval at the times given, or returns the one that its
    /// request already has.
    pub fn register_at_with_outcome(
        &mut self,
        params: RegisterApproval,
        created_at: UtcTime,
        now: u128,
    ) -> (r: RegistrationOutcome)
        requires
            old(self).wf(),
        ensures
            final(self).wf(),
            r.is_new ==> final(self).continues(*old(self), set![r.approval.id]),
            !r.is_new ==> final(self).keeps_watchers(*old(self)),
            r.is_new ==> crate::ids::random_uuid(r.approval.id),
            old(self)@.registration(params@, created_at, now, r.approval.id) == (RegistrationView {
                registry: final(self)@,
                approval: r.approval@,
                is_new: r.is_new,
            }),
    {
        self.register_with_id(params, created_at, now, new_uuid())
    }

    /// Registers an approval at the times given, or returns the one that its
    /// request already has.
    pub fn register_at(
        &mut self,
        params: RegisterApproval,
        created_at: UtcTime,
        now: u128,
    ) -> (r: Approval)
        requires
            old(self).wf(),
        ensures
            final(self).wf(),
            old(self)@.answering(params@.request_id) is None ==> final(self).continues(*old(self), set![r.id]),
            old(self)@.answering(params@.request_id) is Some ==> final(self).keeps_watchers(*old(self)),
            old(self)@.answering(params@.request_id) is None ==> crate::ids::random_uuid(r.id),
            old(self)@.registration(params@, created_at, now, r.id) == (RegistrationView {
                registry: final(self)@,
                approval: r@,
                is_new: old(self)@.answering(params@.request_id) is None,
            }),
    {
        self.register_at_with_outcome(params, created_at, now).approval
    }

    /// Registers an approval now, or returns the one that its request already has.
    pub fn register_with_outcome(&mut self, params: RegisterApproval) -> (r: RegistrationOutcome)
        requires
            old(self).wf(),
        ensures
            final(self).wf(),
            r.is_new ==> final(self).continues(*old(self), set![r.approval.id]),
            !r.is_new ==> final(self).keeps_watchers(*old(self)),
            r.is_new ==> crate::ids::random_uuid(r.approval.id),
            r.is_new ==> r.approval.created_at.nanos < 2_000_000_000,
            exists|now: u128|
                now <= crate::clock::longest_duration() && #[trigger] old(self)@.registration(
                    params@,
                    r.approval.created_at,
                    now,
                    r.approval.id,
                ) == (RegistrationView {
                    registry: final(self)@,
                    approval: r.approval@,
                    is_new: r.is_new,
                }),
    {
        let now: u128 = self.now();
        let ghost request = params@;
        let created_at = utc_now();
        let outcome = self.register_at_with_outcome(params, created_at, now);
        assert(old(self)@.registration(
            request,
            outcome.approval.created_at,
            now,
            outcome.approval.id,
        ) == old(self)@.registration(request, created_at, now, outcome.approval.id));
        outcome
    }

    /// Registers an approval now, or returns the one that its request already has.
    pub fn register(&mut self, params: RegisterApproval) -> (r: Approval)
        requires
            old(self).wf(),
        ensures
            final(self).wf(),
            old(self)@.answering(params@.request_id) is None ==> final(self).continues(*old(self), set![r.id]),
            old(self)@.answering(params@.request_id) is Some ==> final(self).keeps_watchers(*old(self)),
            old(self)@.answering(params@.request_id) is None ==> crate::ids::random_uuid(r.id),
            old(self)@.answering(params@.request_id) is None ==> r.created_at.nanos < 2_000_000_000,
            exists|now: u128|
                now <= crate::clock::longest_duration() && #[trigger] old(self)@.registration(params@, r.created_at, now, r.id) == (RegistrationView {
                    registry: final(self)@,
                    approval: r@,
                    is_new: old(self)@.answering(params@.request_id) is None,
                }),
    {
        self.register_with_outcome(params).approval
    }
}

impl ApprovalRegistry {
    /// Holds a grant for the session and command up to `end`, in place of one
    /// that there was.
    fn set_grant(&mut self, session_id: SessionId, command: String, end: u128)
        requires
            old(self).wf(),
        ensures
            final(self).wf(),
            final(self).keeps_watchers(*old(self)),
            final(self)@ == old(self)@.with_grant((session_id@, command@), end),
    {
        let ghost before = self@;
        let ghost key = (session_id@, command@);
        let mut kept: Vec<Grant> = Vec::new();
        let mut i: usize = 0;
        assert(grant_ends(kept@) =~= grant_ends(self.grants@.take(0)).remove(key));
        while i < self.grants.len()
            invariant
                i <= self.grants@.len(),
                self@ == before,
                self.wf(),
                key == (session_id@, command@),
                distinct_grants(kept@),
                grant_ends(kept@) == grant_ends(self.grants@.take(i as int)).remove(key),
            decreases self.grants@.len() - i,
        {
            let grant = &self.grants[i];
            let ghost seen = grant_ends(self.grants@.take(i as int));
            proof {
                grant_is_not_seen(self.grants@, i as int);
            }
            if grant.session_id.same(&session_id) && same_text(
                grant.command.as_str(),
                command.as_str(),
            ) {
                assert(seen.insert(key, grant.ends_at).remove(key) =~= seen.remove(key));
            } else {
                let copy = Grant {
                    session_id: grant.session_id.clone(),
                    command: grant.command.clone(),
                    ends_at: grant.ends_at,
                };
                proof {
                    grant_pushed(kept@, copy);
                    assert(seen.insert(copy.key(), copy.ends_at).remove(key) =~= seen.remove(
                        key,
                    ).insert(copy.key(), copy.ends_at));
                }
                kept.push(copy);
            }
            i += 1;
        }
        assert(self.grants@.take(i as int) =~= self.grants@);
        let new = Grant { session_id, command, ends_at: end };
        proof {
            grant_pushed(kept@, new);
        }
        kept.push(new);
        self.grants = kept;
        proof {
            grant_ends_keys(self.grants@);
        }
        assert(self@ =~= before.with_grant(key, end));
    }

    /// Approves a shell call and grants its session the same command for some
    /// time from `now` on.
    pub fn resolve_with_grant_at(
        &mut self,
        id: u128,
        status: ApprovalStatus,
        duration: ApprovalGrantDuration,
        now: u128,
    ) -> (r: Result<Approval, TemporaryGrantError>)
        requires
            old(self).wf(),
            now + duration.nanos() <= u128::MAX,
        ensures
            final(self).wf(),
            final(self).keeps_watchers(*old(self)),
            match old(self)@.grant_refusal(id, status@) {
                Some(refusal) => r == Err::<Approval, _>(refusal) && final(self)@ == old(self)@,
                None => {
                    &&& final(self)@ == old(self)@.decided_with_grant(
                        id,
                        status@,
                        (now + duration.nanos()) as u128,
                    )
                    &&& r is Ok
                    &&& final(self)@.approval(id) == Some(r->Ok_0@)
                },
            },
    {
        if !matches!(status, ApprovalStatus::Approved { .. }) {
            return Err(TemporaryGrantError::NotApproved);
        }
        let approval = match self.get(id) {
            Some(approval) => approval,
            None => {
                return Err(TemporaryGrantError::ApprovalNotFound);
            },
        };
        if approval.status.is_resolved() {
            return Err(TemporaryGrantError::AlreadyResolved);
        }
        if !approval.tool.is_bash() {
            return Err(TemporaryGrantError::NotBash);
        }
        let command = match grant_key(&approval.tool, &approval.tool_input) {
            Some(command) => command.to_string(),
            None => {
                return Err(TemporaryGrantError::MissingCommand);
            },
        };
        let end: u128 = now + duration.duration() as u128 * 1_000_000_000;
        self.set_grant(approval.session_id.clone(), command, end);
        match self.resolve(id, status) {
            Some(decided) => Ok(decided),
            None => Err(TemporaryGrantError::ApprovalNotFound),
        }
    }

    /// Approves a shell call and grants its session the same command for some
    /// time from now on.
    pub fn resolve_with_grant(
        &mut self,
        id: u128,
        status: ApprovalStatus,
        duration: ApprovalGrantDuration,
    ) -> (r: Result<Approval, TemporaryGrantError>)
        requires
            old(self).wf(),
        ensures
            final(self).wf(),
            final(self).keeps_watchers(*old(self)),
            match old(self)@.grant_refusal(id, status@) {
                Some(refusal) => r == Err::<Approval, _>(refusal) && final(self)@ == old(self)@,
                None => {
                    &&& exists|now: u128|
                        now <= crate::clock::longest_duration() && final(self)@ == #[trigger] old(self)@.decided_with_grant(
                            id,
                            status@,
                            (now + duration.nanos()) as u128,
                        )
                    &&& r is Ok
                    &&& final(self)@.approval(id) == Some(r->Ok_0@)
                },
            },
    {
        let now: u128 = self.now();
        self.resolve_with_grant_at(id, status, duration, now)
    }

    /// Drops the grants that have ended by `now` and returns how many there were.
    pub fn purge_expired_grants_at(&mut self, now: u128) -> (r: usize)
        requires
            old(self).wf(),
        ensures
            final(self).wf(),
            final(self).keeps_watchers(*old(self)),
            final(self)@ == old(self)@.without_ended_grants(now),
            r == old(self)@.grants.dom().len() - final(self)@.grants.dom().len(),
    {
        let previous: usize = self.grants.len();
        proof {
            grant_ends_keys(self.grants@);
        }
        let ghost before = self@;
        self.drop_ended_grants(now);
        proof {
            grant_ends_keys(self.grants@);
            vstd::set_lib::lemma_len_subset(self@.grants.dom(), before.grants.dom());
        }
        previous - self.grants.len()
    }

    /// Drops the grants that have ended by now and returns how many there were.
    pub fn purge_expired_grants(&mut self) -> (r: usize)
        requires
            old(self).wf(),
        ensures
            final(self).wf(),
            final(self).keeps_watchers(*old(self)),
            exists|now: u128|
                now <= crate::clock::longest_duration() && final(self)@
                    == #[trigger] old(self)@.without_ended_grants(now),
            r == old(self)@.grants.dom().len() - final(self)@.grants.dom().len(),
    {
        let now: u128 = self.now();
        self.purge_expired_grants_at(now)
    }

    /// A receiver that finds the status of an approval, and is woken when it
    /// changes.
    pub fn subscribe(&self, id: u128) -> (r: Option<
        tokio::sync::watch::Receiver<ApprovalStatus>,
    >)
        requires
            self.wf(),
        ensures
            match r {
                Some(rx) => {
                    &&& self@.approval(id) is Some
                    &&& self.channels().contains_key(id)
                    &&& channel_heard(rx) == self.channels()[id]
                    &&& first_seen(rx) == seq![self@.approval(id)->0.status]
                },
                None => self@.approval(id) is None,
            },
    {
        match self.entries.get(&id) {
            Some(entry) => Some(listen(&entry.tx)),
            None => None,
        }
    }

    /// Records that a gateway polled for an approval at `now`.
    pub fn touch_at(&mut self, id: u128, now: u128)
        requires
            old(self).wf(),
        ensures
            final(self).wf(),
            final(self).keeps_watchers(*old(self)),
            final(self)@ == old(self)@.polled(id, now),
    {
        let ghost before = self@;
        match self.entries.remove(&id) {
            Some(mut entry) => {
                entry.last_polled_at = Some(now);
                self.entries.insert(id, entry);
                assert(self@ =~= before.polled(id, now));
                assert(self.channels() =~= old(self).channels());
                assert(self@.entries.dom() =~= before.entries.dom());
            },
            None => {
                assert(self@ =~= before);
                assert(self.channels() =~= old(self).channels());
            },
        }
    }

    /// Records that a gateway polled for an approval just now.
    pub fn touch(&mut self, id: u128)
        requires
            old(self).wf(),
        ensures
            final(self).wf(),
            final(self).keeps_watchers(*old(self)),
            exists|now: u128|
                now <= crate::clock::longest_duration() && final(self)@
                    == #[trigger] old(self)@.polled(id, now),
    {
        let now: u128 = self.now();
        self.touch_at(id, now)
    }
}

/// Puts an approval into a list that has the oldest first, behind those that
/// are as old.
fn insert_by_age(list: &mut Vec<Approval>, approval: Approval)
    requires
        crate::server::model::oldest_first(crate::protocol::approval::approval_views(old(list)@)),
    ensures
        crate::server::model::oldest_first(
            crate::protocol::approval::approval_views(final(list)@),
        ),
        exists|at: int|
            0 <= at <= old(list)@.len() && final(list)@ == #[trigger] old(list)@.insert(
                at,
                approval,
            ),
{
    let ghost before = list@;
    let ghost views = crate::protocol::approval::approval_views(before);
    let mut at: usize = list.len();
    while at > 0 && approval.created_at.is_before(&list[at - 1].created_at)
        invariant
            at <= list@.len(),
            list@ == before,
            views == crate::protocol::approval::approval_views(before),
            crate::server::model::oldest_first(views),
            forall|i: int| at <= i < list@.len() ==> approval.created_at.earlier(
                (#[trigger] list@[i]).created_at,
            ),
        decreases at,
    {
        at -= 1;
    }
    proof {
        let after = crate::protocol::approval::approval_views(before.insert(at as int, approval));
        assert(after =~= views.insert(at as int, approval@));
        assert forall|i: int, j: int| 0 <= i < j < after.len() implies !(
        #[trigger] after[j]).created_at.earlier((#[trigger] after[i]).created_at) by {
            let i0 = if i < at { i } else { i - 1 };
            let j0 = if j < at { j } else { j - 1 };
            if i != at && j != at {
                assert(after[i] == views[i0] && after[j] == views[j0]);
            } else if j == at {
                assert(after[i] == views[i]);
                assert(views[at - 1] == before[at - 1]@);
                if i < at - 1 {
                    assert(!views[at - 1].created_at.earlier(views[i].created_at));
                }
            } else {
                assert(after[j] == views[j0]);
                assert(views[j0] == before[j0]@);
            }
        }
    }
    list.insert(at, approval);
}

/// What a list holds once `a` is put in at `at`.
proof fn inserted<A>(list: Seq<A>, at: int, a: A)
    requires
        0 <= at <= list.len(),
    ensures
        forall|x: A| #[trigger] list.insert(at, a).contains(x) == (list.contains(x) || x == a),
        list.no_duplicates() && !list.contains(a) ==> list.insert(at, a).no_duplicates(),
{
    let after = list.insert(at, a);
    assert(after[at] == a);
    assert forall|x: A| #[trigger] after.contains(x) == (list.contains(x) || x == a) by {
        if list.contains(x) {
            let k = choose|k: int| 0 <= k < list.len() && list[k] == x;
            assert(after[if k < at { k } else { k + 1 }] == x);
        }
        if after.contains(x) && x != a {
            let k = choose|k: int| 0 <= k < after.len() && after[k] == x;
            assert(list[if k < at { k } else { k - 1 }] == x);
        }
    }
}

/// What the first part of a list holds when it grows by one.
proof fn taken<A>(list: Seq<A>, i: int)
    requires
        0 <= i < list.len(),
    ensures
        forall|x: A| #[trigger]
            list.take(i + 1).contains(x) == (list.take(i).contains(x) || x == list[i]),
        list.no_duplicates() ==> !list.take(i).contains(list[i]),
{
    assert(list.take(i + 1) =~= list.take(i).insert(i, list[i]));
    inserted(list.take(i), i, list[i]);
}

impl ApprovalRegistry {
    /// The identifiers of all approvals, in no particular order.
    fn ids(&self) -> (r: Vec<u128>)
        requires
            self.wf(),
        ensures
            r@.no_duplicates(),
            r@.to_set() == self@.entries.dom(),
    {
        let mut ids: Vec<u128> = Vec::new();
        for id in it: self.entries.keys()
            invariant
                it.seq().unref().to_set() == self.entries@.dom(),
                it.seq().no_duplicates(),
                ids@ == it.seq().unref().take(it.index()),
                it.index() == it.seq().len() ==> ids@ == it.seq().unref(),
        {
            ids.push(*id);
        }
        assert(self@.entries.dom() =~= self.entries@.dom());
        ids
    }

    /// The pending approvals, the oldest first. Those created at the same time
    /// stand in no particular order.
    pub fn list_pending(&self) -> (r: Vec<Approval>)
        requires
            self.wf(),
        ensures
            self@.lists_pending(crate::protocol::approval::approval_views(r@)),
    {
        let ids = self.ids();
        let mut list: Vec<Approval> = Vec::new();
        let ghost mut listed = Seq::<ApprovalView>::empty();
        let mut i: usize = 0;
        assert(crate::protocol::approval::approval_views(list@) =~= listed);
        while i < ids.len()
            invariant
                self.wf(),
                i <= ids@.len(),
                ids@.no_duplicates(),
                ids@.to_set() == self@.entries.dom(),
                listed == crate::protocol::approval::approval_views(list@),
                listed.no_duplicates(),
                crate::server::model::oldest_first(listed),
                forall|x: ApprovalView| #[trigger]
                    listed.contains(x) <==> ids@.take(i as int).contains(x.id) && self@.is_pending(
                        x.id,
                    ) && self@.entries[x.id].approval == x,
            decreases ids@.len() - i,
        {
            let id: u128 = ids[i];
            proof {
                taken(ids@, i as int);
                assert(ids@.to_set().contains(id));
            }
            if let Some(approval) = self.get(id) {
                if !approval.status.is_resolved() {
                    let ghost before = list@;
                    let ghost view = approval@;
                    assert(!listed.contains(view));
                    insert_by_age(&mut list, approval);
                    proof {
                        let at = choose|at: int|
                            0 <= at <= before.len() && list@ == #[trigger] before.insert(
                                at,
                                approval,
                            );
                        inserted(listed, at, view);
                        assert(crate::protocol::approval::approval_views(list@)
                            =~= listed.insert(at, view));
                        listed = listed.insert(at, view);
                    }
                }
            }
            i += 1;
        }
        proof {
            assert(ids@.take(i as int) =~= ids@);
            let pending = self@.pending_ids();
            let approval_of = |id: u128| self@.entries[id].approval;
            assert forall|x: ApprovalView| listed.to_set().contains(x) == pending.map(
                approval_of,
            ).contains(x) by {
                if listed.contains(x) {
                    assert(ids@.to_set().contains(x.id));
                    assert(pending.contains(x.id) && x == approval_of(x.id));
                }
                if pending.map(approval_of).contains(x) {
                    let id = choose|id: u128| pending.contains(id) && x == approval_of(id);
                    assert(ids@.to_set().contains(id));
                    assert(listed.contains(x));
                }
            }
            assert(listed.to_set() =~= pending.map(approval_of));
        }
        list
    }

    /// The pending approvals, for keeping across restarts, the oldest first.
    pub fn snapshot(&self) -> (r: Vec<Approval>)
        requires
            self.wf(),
        ensures
            self@.lists_pending(crate::protocol::approval::approval_views(r@)),
    {
        self.list_pending()
    }
}

/// What the set of the first items of a list is when it grows by one.
proof fn taken_set<A>(list: Seq<A>, i: int)
    requires
        0 <= i < list.len(),
    ensures
        list.take(i + 1).to_set() == list.take(i).to_set().insert(list[i]),
{
    taken(list, i);
    assert(list.take(i + 1).to_set() =~= list.take(i).to_set().insert(list[i]));
}

impl ApprovalRegistry {
    /// The approvals of a session.
    fn ids_of_session(&self, session_id: &SessionId) -> (r: Vec<u128>)
        requires
            self.wf(),
        ensures
            r@.to_set() == self@.session_ids(session_id@),
    {
        let mut found: Vec<u128> = Vec::new();
        let ids = match self.by_session_id.get(session_id.as_str()) {
            Some(ids) => listed(ids),
            None => {
                assert(found@.to_set() =~= self@.session_ids(session_id@));
                return found;
            },
        };
        let mut i: usize = 0;
        while i < ids.len()
            invariant
                self.wf(),
                i <= ids@.len(),
                self@.ids_of(session_id@) == ids@.to_set(),
                forall|id: u128| #[trigger]
                    found@.contains(id) <==> ids@.take(i as int).contains(id) && self@.session_ids(
                        session_id@,
                    ).contains(id),
            decreases ids@.len() - i,
        {
            let id: u128 = ids[i];
            proof {
                taken(ids@, i as int);
            }
            let own = match self.entries.get(&id) {
                Some(entry) => entry.approval.session_id.same(session_id),
                None => false,
            };
            if own {
                let ghost before = found@;
                found.push(id);
                proof {
                    inserted(before, before.len() as int, id);
                    assert(found@ =~= before.insert(before.len() as int, id));
                }
            }
            i += 1;
        }
        assert(ids@.take(i as int) =~= ids@);
        assert forall|id: u128| self@.session_ids(session_id@).contains(id) implies ids@.contains(
            id,
        ) by {
            assert(self@.entries.contains_key(id));
            assert(ids@.to_set().contains(id));
        }
        assert(found@.to_set() =~= self@.session_ids(session_id@));
        found
    }

    /// The oldest pending approval of a session. Of several that are as old, one.
    pub fn first_pending_for_session(&self, session_id: &SessionId) -> (r: Option<Approval>)
        requires
            self.wf(),
        ensures
            self@.is_first_pending(
                session_id@,
                match r {
                    Some(first) => Some(first@),
                    None => None,
                },
            ),
    {
        let ids = self.ids_of_session(session_id);
        let mut first: Option<Approval> = None;
        let mut i: usize = 0;
        while i < ids.len()
            invariant
                self.wf(),
                i <= ids@.len(),
                self@.session_ids(session_id@) == ids@.to_set(),
                match first {
                    Some(a) => {
                        &&& self@.is_candidate(session_id@, a.id)
                        &&& self@.approval(a.id) == Some(a@)
                        &&& forall|id: u128|
                            #![trigger self@.is_candidate(session_id@, id)]
                            ids@.take(i as int).contains(id) && self@.is_candidate(session_id@, id)
                                ==> !self@.entries[id].approval.created_at.earlier(a.created_at)
                    },
                    None => forall|id: u128|
                        #![trigger self@.is_candidate(session_id@, id)]
                        ids@.take(i as int).contains(id) ==> !self@.is_candidate(session_id@, id),
                },
            decreases ids@.len() - i,
        {
            let id: u128 = ids[i];
            proof {
                taken(ids@, i as int);
                assert(ids@.to_set().contains(id));
            }
            if let Some(approval) = self.get(id) {
                if !approval.status.is_resolved() {
                    let better = match &first {
                        Some(a) => approval.created_at.is_before(&a.created_at),
                        None => true,
                    };
                    if better {
                        first = Some(approval);
                    }
                }
            }
            i += 1;
        }
        proof {
            assert(ids@.take(i as int) =~= ids@);
            assert forall|id: u128| #[trigger]
                self@.is_candidate(session_id@, id) implies ids@.contains(id) by {
                assert(self@.session_ids(session_id@).contains(id));
                assert(ids@.to_set().contains(id));
            }
        }
        first
    }

    /// Cancels those of the approvals that are pending.
    fn cancel_all(&mut self, ids: &Vec<u128>)
        requires
            old(self).wf(),
        ensures
            final(self).wf(),
            final(self).keeps_watchers(*old(self)),
            final(self)@ == old(self)@.cancelled(ids@.to_set()),
    {
        let ghost before = self@;
        let mut i: usize = 0;
        assert(ids@.take(0).to_set() =~= Set::<u128>::empty());
        assert(self@ =~= before.cancelled(Set::empty()));
        while i < ids.len()
            invariant
                self.wf(),
                self.keeps_watchers(*old(self)),
                i <= ids@.len(),
                self@ == before.cancelled(ids@.take(i as int).to_set()),
            decreases ids@.len() - i,
        {
            let id: u128 = ids[i];
            let ghost seen = ids@.take(i as int).to_set();
            proof {
                taken_set(ids@, i as int);
            }
            self.resolve(id, ApprovalStatus::Cancelled);
            assert(self@ =~= before.cancelled(seen.insert(id)));
            i += 1;
        }
        assert(ids@.take(i as int) =~= ids@);
    }

    /// Cancels the pending approvals of a session, for whoever watches them.
    pub fn cancel_session(&mut self, session_id: &SessionId)
        requires
            old(self).wf(),
        ensures
            final(self).wf(),
            final(self).keeps_watchers(*old(self)),
            final(self)@ == old(self)@.cancelled(old(self)@.session_ids(session_id@)),
    {
        let ids = self.ids_of_session(session_id);
        self.cancel_all(&ids);
    }

    /// Removes all approvals of a session, none of which is pending.
    fn remove_session(&mut self, session_id: &SessionId)
        requires
            old(self).wf(),
            forall|id: u128| !#[trigger] old(self)@.is_candidate(session_id@, id),
        ensures
            final(self).wf(),
            final(self)@ == old(self)@.without_session(session_id@),
            final(self).origin() == old(self).origin(),
            final(self).channels() == old(self).channels().remove_keys(
                old(self)@.session_ids(session_id@),
            ),
            final(self).farewells() == old(self).farewells().union_prefer_right(
                old(self).last_told(old(self)@.session_ids(session_id@)),
            ),
    {
        let ghost before = self@;
        let ids = self.ids_of_session(session_id);
        assert(ids@.take(0).to_set() =~= Set::<u128>::empty());
        assert(before.entries.remove_keys(Set::empty()) =~= before.entries);
        assert(before.by_request.remove_keys(before.requests_of(Set::empty()))
            =~= before.by_request);
        assert(self.channels() =~= old(self).channels().remove_keys(Set::empty()));
        assert(self.farewells() =~= old(self).farewells().union_prefer_right(
            old(self).last_told(Set::empty()),
        ));
        let mut i: usize = 0;
        while i < ids.len()
            invariant
                self.wf(),
                i <= ids@.len(),
                before == old(self)@,
                ids@.to_set() == before.session_ids(session_id@),
                self@.entries == before.entries.remove_keys(ids@.take(i as int).to_set()),
                self@.by_request == before.by_request.remove_keys(
                    before.requests_of(ids@.take(i as int).to_set()),
                ),
                self@.by_session == before.by_session,
                self@.grants == before.grants,
                self.origin() == old(self).origin(),
                old(self).wf(),
                forall|id: u128|
                    self.entries@.contains_key(id) ==> old(self).entries@.contains_key(id)
                        && #[trigger] self.entries@[id] == old(self).entries@[id],
                self.channels() == old(self).channels().remove_keys(
                    ids@.take(i as int).to_set(),
                ),
                self.farewells() == old(self).farewells().union_prefer_right(
                    old(self).last_told(ids@.take(i as int).to_set()),
                ),
            decreases ids@.len() - i,
        {
            let id: u128 = ids[i];
            let ghost seen = ids@.take(i as int).to_set();
            let ghost current = *self;
            proof {
                taken_set(ids@, i as int);
                assert(ids@.to_set().contains(id));
            }
            let removed = self.entries.remove(&id);
            assert(self@.entries =~= current@.entries.remove(id));
            assert(self@.entries.dom() =~= current@.entries.dom().remove(id));
            assert(self@.entries =~= before.entries.remove_keys(seen.insert(id)));
            assert(self.channels() =~= old(self).channels().remove_keys(seen.insert(id)));
            match removed {
                Some(entry) => {
                    self.farewells = Ghost(
                        self.farewells@.insert(id, (channel_of(entry.tx), announced(entry.tx))),
                    );
                    self.by_request_id.remove(entry.approval.request_id.as_str());
                    proof {
                        before.requests_with_one_more(seen, id);
                    }
                    assert(self@.by_request =~= before.by_request.remove_keys(
                        before.requests_of(seen.insert(id)),
                    ));
                },
                None => {
                    proof {
                        assert(before.entries.contains_key(id));
                        assert(seen.contains(id));
                        assert(seen.insert(id) =~= seen);
                    }
                },
            }
            assert(self.farewells() =~= old(self).farewells().union_prefer_right(
                old(self).last_told(seen.insert(id)),
            ));
            i += 1;
        }
        assert(ids@.take(i as int) =~= ids@);
        self.by_session_id.remove(session_id.as_str());
        assert(self@ =~= before.without_session(session_id@));
    }

    /// Removes all approvals of a session; those that are pending are cancelled
    /// first, for whoever watches them.
    pub fn evict_session(&mut self, session_id: &SessionId)
        requires
            old(self).wf(),
        ensures
            final(self).wf(),
            final(self)@ == old(self)@.without_session(session_id@),
            final(self).origin() == old(self).origin(),
            final(self).channels() == old(self).channels().remove_keys(
                old(self)@.session_ids(session_id@),
            ),
            forall|id: u128|
                #![trigger final(self).farewells().contains_key(id)]
                #![trigger final(self).farewells()[id]]
                old(self)@.session_ids(session_id@).contains(id) ==> {
                    &&& final(self).farewells().contains_key(id)
                    &&& final(self).farewells()[id] == (
                        old(self).channels()[id],
                        seq![old(self)@.entries[id].approval.ended_status()],
                    )
                },
            final(self).farewells().remove_keys(old(self)@.session_ids(session_id@))
                == old(self).farewells().remove_keys(old(self)@.session_ids(session_id@)),
    {
        let ghost ids = self@.session_ids(session_id@);
        self.cancel_session(session_id);
        let ghost cancelled = *self;
        assert(cancelled@.session_ids(session_id@) =~= ids);
        self.remove_session(session_id);
        proof {
            assert(cancelled@.requests_of(ids) =~= old(self)@.requests_of(ids)) by {
                assert(forall|id: u128|
                    cancelled@.entries.contains_key(id) == old(self)@.entries.contains_key(id));
            }
            assert(self@ =~= old(self)@.without_session(session_id@));
            assert forall|id: u128| ids.contains(id) implies self.farewells().contains_key(id)
                && self.farewells()[id] == (
                old(self).channels()[id],
                seq![old(self)@.entries[id].approval.ended_status()],
            ) by {
                assert(cancelled@.entries.contains_key(id));
                assert(cancelled.last_told(ids).contains_key(id));
            }
            assert(self.farewells().remove_keys(ids) =~= old(self).farewells().remove_keys(ids));
        }
    }

    /// The pending approvals that no gateway polls for any more.
    fn orphan_ids(&self, now: u128, threshold: u128) -> (r: Vec<u128>)
        requires
            self.wf(),
        ensures
            r@.no_duplicates(),
            r@.to_set() == self@.orphans(now, threshold),
    {
        let ids = self.ids();
        let mut orphans: Vec<u128> = Vec::new();
        let mut i: usize = 0;
        while i < ids.len()
            invariant
                self.wf(),
                i <= ids@.len(),
                ids@.no_duplicates(),
                ids@.to_set() == self@.entries.dom(),
                orphans@.no_duplicates(),
                forall|id: u128| #[trigger]
                    orphans@.contains(id) <==> ids@.take(i as int).contains(id) && self@.orphaned(
                        id,
                        now,
                        threshold,
                    ),
            decreases ids@.len() - i,
        {
            let id: u128 = ids[i];
            proof {
                taken(ids@, i as int);
                assert(ids@.to_set().contains(id));
            }
            let orphaned = match self.entries.get(&id) {
                Some(entry) => !entry.approval.status.is_resolved() && match entry.last_polled_at {
                    Some(polled) => now > polled && now - polled > threshold,
                    None => false,
                },
                None => false,
            };
            if orphaned {
                let ghost before = orphans@;
                orphans.push(id);
                proof {
                    inserted(before, before.len() as int, id);
                    assert(orphans@ =~= before.insert(before.len() as int, id));
                }
            }
            i += 1;
        }
        assert(ids@.take(i as int) =~= ids@);
        assert forall|id: u128| orphans@.to_set().contains(id) == self@.orphans(
            now,
            threshold,
        ).contains(id) by {
            assert(ids@.contains(id) == ids@.to_set().contains(id));
        }
        assert(orphans@.to_set() =~= self@.orphans(now, threshold));
        orphans
    }

    /// Cancels the pending approvals whose gateway polled once, and last longer
    /// than `threshold` nanoseconds before `now`. Returns how many there were.
    pub fn evict_orphaned_at(&mut self, now: u128, threshold: u128) -> (r: usize)
        requires
            old(self).wf(),
        ensures
            final(self).wf(),
            final(self).keeps_watchers(*old(self)),
            final(self)@ == old(self)@.cancelled(old(self)@.orphans(now, threshold)),
            r == old(self)@.orphans(now, threshold).len(),
    {
        let orphans = self.orphan_ids(now, threshold);
        self.cancel_all(&orphans);
        proof {
            orphans@.unique_seq_to_set();
        }
        orphans.len()
    }

    /// Cancels the pending approvals whose gateway polled once, and last longer
    /// than `threshold` nanoseconds ago. Returns how many there were.
    pub fn evict_orphaned(&mut self, threshold: u128) -> (r: usize)
        requires
            old(self).wf(),
        ensures
            final(self).wf(),
            final(self).keeps_watchers(*old(self)),
            exists|now: u128|
                {
                    &&& now <= crate::clock::longest_duration()
                    &&& final(self)@ == old(self)@.cancelled(
                        #[trigger] old(self)@.orphans(now, threshold),
                    )
                    &&& r == old(self)@.orphans(now, threshold).len()
                },
    {
        let now: u128 = self.now();
        self.evict_orphaned_at(now, threshold)
    }

    /// Takes the pending ones of kept approvals in again.
    pub fn restore(&mut self, approvals: Vec<Approval>)
        requires
            old(self).wf(),
        ensures
            final(self).wf(),
            final(self).continues(
                *old(self),
                crate::server::model::pending_in(
                    crate::protocol::approval::approval_views(approvals@),
                ),
            ),
            final(self)@ == old(self)@.restored(
                crate::protocol::approval::approval_views(approvals@),
            ),
    {
        let ghost before = self@;
        let ghost views = crate::protocol::approval::approval_views(approvals@);
        let mut i: usize = 0;
        while i < approvals.len()
            invariant
                self.wf(),
                i <= approvals@.len(),
                views == crate::protocol::approval::approval_views(approvals@),
                self@ == before.restored(views.take(i as int)),
                self.continues(*old(self), crate::server::model::pending_in(views)),
            decreases approvals@.len() - i,
        {
            assert(views.take(i + 1).drop_last() =~= views.take(i as int));
            if !approvals[i].status.is_resolved() {
                let approval = approvals[i].clone();
                let ghost current = *self;
                self.admit_approval(approval);
                proof {
                    let replaced = crate::server::model::pending_in(views);
                    assert(views[i as int] == approvals@[i as int]@);
                    assert(replaced.contains(approval.id));
                    assert(self.channels().remove_keys(replaced)
                        =~= self.channels().remove_keys(set![approval.id]).remove_keys(replaced));
                    assert(current.channels().remove_keys(replaced)
                        =~= current.channels().remove_keys(set![approval.id]).remove_keys(
                        replaced,
                    ));
                }
            }
            i += 1;
        }
        assert(views.take(i as int) =~= views);
    }
}

} // verus!
