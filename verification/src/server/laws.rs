//! What holds of approvals across several operations.

use vstd::prelude::*;

use crate::clock::UtcTime;
use crate::protocol::approval::{
    Approval, ApprovalGrantDuration, ApprovalStatus, ApprovalStatusView, ApprovalView,
};
use crate::protocol::session::SessionId;
use crate::server::approvals::{
    ApprovalRegistry, RegisterApproval, RegistrationOutcome, TemporaryGrantError,
};
use crate::server::model::{RegisterApprovalView, RegistryView};

verus! {

/// The first registration of a request is the one that counts: whatever a
/// second one says, it is answered by the same approval, which changes at most
/// in its status, and it adds no approval.
pub proof fn first_registration_counts(
    registry: RegistryView,
    first: RegisterApprovalView,
    second: RegisterApprovalView,
    created_at: (UtcTime, UtcTime),
    now: (u128, u128),
    id: (u128, u128),
)
    requires
        registry.wf(),
        first.request_id == second.request_id,
    ensures
        ({
            let one = registry.registration(first, created_at.0, now.0, id.0);
            let two = one.registry.registration(second, created_at.1, now.1, id.1);
            &&& !two.is_new
            &&& two.approval == one.approval.with_status(two.approval.status)
            &&& two.registry.entries.dom() == one.registry.entries.dom()
            &&& two.registry.by_request == one.registry.by_request
            &&& two.registry.by_session == one.registry.by_session
        }),
{
    let one = registry.registration(first, created_at.0, now.0, id.0);
    let two = one.registry.registration(second, created_at.1, now.1, id.1);
    assert(one.registry.answering(first.request_id) == Some(one.approval));
    assert(two.registry.entries.dom() =~= one.registry.entries.dom());
}

/// What a registration returns is found again: by its identifier, by its
/// request, and, where it is new, among the approvals of its session.
pub proof fn registration_is_found_again(
    registry: RegistryView,
    request: RegisterApprovalView,
    created_at: UtcTime,
    now: u128,
    id: u128,
)
    requires
        registry.wf(),
    ensures
        ({
            let outcome = registry.registration(request, created_at, now, id);
            &&& outcome.registry.approval(outcome.approval.id) == Some(outcome.approval)
            &&& outcome.registry.answering(request.request_id) == Some(outcome.approval)
            &&& outcome.is_new ==> outcome.registry.ids_of(request.session_id).contains(id)
        }),
{
}

/// A decision is final: another one changes nothing.
pub proof fn decision_is_final(
    registry: RegistryView,
    id: u128,
    first: ApprovalStatusView,
    second: ApprovalStatusView,
)
    requires
        first.resolved(),
    ensures
        registry.decided(id, first).decided(id, second) == registry.decided(id, first),
{
}

/// A decision changes one approval and nothing else.
pub proof fn decision_changes_one_approval(
    registry: RegistryView,
    id: u128,
    status: ApprovalStatusView,
    other: u128,
)
    requires
        other != id,
    ensures
        registry.decided(id, status).approval(other) == registry.approval(other),
{
}

/// An approval without a grant lets no later call through: the grants stay as
/// they are.
pub proof fn one_time_approval_grants_nothing(
    registry: RegistryView,
    id: u128,
    status: ApprovalStatusView,
    request: RegisterApprovalView,
    now: u128,
)
    ensures
        registry.decided(id, status).grants == registry.grants,
        registry.decided(id, status).granted(
            request.session_id,
            request.tool,
            request.tool_input,
            now,
        ) == registry.granted(request.session_id, request.tool, request.tool_input, now),
{
}

/// Once a grant is given, a request for the same session and command is approved
/// up to the grant's end, and pending from its end on. The time of the wall
/// clock plays no part.
pub proof fn grant_lets_the_same_call_through_until_its_end(
    registry: RegistryView,
    source: u128,
    status: ApprovalStatusView,
    end: u128,
    request: RegisterApprovalView,
    created_at: UtcTime,
    now: u128,
    id: u128,
)
    requires
        registry.wf(),
        registry.grant_refusal(source, status) is None,
        request.tool is Bash,
        request.session_id == registry.entries[source].approval.session_id,
        request.tool_input.text_member("command"@)
            == registry.entries[source].approval.tool_input.text_member("command"@),
        registry.answering(request.request_id) is None,
    ensures
        ({
            let outcome = registry.decided_with_grant(source, status, end).registration(
                request,
                created_at,
                now,
                id,
            );
            &&& outcome.is_new
            &&& now < end ==> outcome.approval.status == crate::server::model::plainly_approved()
            &&& now >= end ==> outcome.approval.status is Pending
            &&& outcome.registry.approval(id) == Some(outcome.approval)
        }),
{
    let given = registry.decided_with_grant(source, status, end);
    assert(given.answering(request.request_id) is None);
}

/// A request that is still pending when a grant for its session and command
/// runs is approved as soon as it is sent again.
pub proof fn grant_reaches_a_request_that_is_sent_again(
    registry: RegistryView,
    request: RegisterApprovalView,
    created_at: UtcTime,
    now: u128,
    id: u128,
)
    requires
        registry.wf(),
        registry.answering(request.request_id) matches Some(known) && known.pending()
            && registry.granted(known.session_id, known.tool, known.tool_input, now),
    ensures
        ({
            let outcome = registry.registration(request, created_at, now, id);
            let known = registry.answering(request.request_id)->0;
            &&& outcome.approval.status == crate::server::model::plainly_approved()
            &&& outcome.registry.approval(known.id) == Some(outcome.approval)
        }),
{
}

/// A grant decides on the approval that it is given with and on no other: what
/// was registered before it stays as it is.
pub proof fn grant_leaves_other_approvals(
    registry: RegistryView,
    source: u128,
    status: ApprovalStatusView,
    end: u128,
    other: u128,
)
    requires
        other != source,
    ensures
        registry.decided_with_grant(source, status, end).approval(other) == registry.approval(
            other,
        ),
{
}

/// A grant is for its session and its command, letter by letter, and for the
/// shell alone: it changes nothing for any other call.
pub proof fn grant_is_for_one_session_and_command(
    registry: RegistryView,
    source: u128,
    status: ApprovalStatusView,
    end: u128,
    request: RegisterApprovalView,
    now: u128,
)
    requires
        registry.grant_refusal(source, status) is None,
        !(request.tool is Bash) || request.session_id
            != registry.entries[source].approval.session_id || request.tool_input.text_member(
            "command"@,
        ) != registry.entries[source].approval.tool_input.text_member("command"@),
    ensures
        registry.decided_with_grant(source, status, end).granted(
            request.session_id,
            request.tool,
            request.tool_input,
            now,
        ) == registry.granted(request.session_id, request.tool, request.tool_input, now),
{
}

/// A later grant for the same session and command takes the place of the
/// earlier one, also where it ends sooner.
pub proof fn later_grant_replaces_earlier(
    registry: RegistryView,
    key: (Seq<char>, Seq<char>),
    earlier: u128,
    later: u128,
)
    ensures
        registry.with_grant(key, earlier).with_grant(key, later) == registry.with_grant(key, later),
{
    assert(registry.with_grant(key, earlier).with_grant(key, later) =~= registry.with_grant(
        key,
        later,
    ));
}

/// Dropping ended grants loses no grant that runs, then or later, and leaves
/// none behind: a second time there is nothing to drop.
pub proof fn dropping_ended_grants_loses_none_that_runs(
    registry: RegistryView,
    now: u128,
    later: u128,
    request: RegisterApprovalView,
)
    requires
        now <= later,
    ensures
        registry.without_ended_grants(now).granted(
            request.session_id,
            request.tool,
            request.tool_input,
            later,
        ) == registry.granted(request.session_id, request.tool, request.tool_input, later),
        registry.without_ended_grants(now).without_ended_grants(now)
            == registry.without_ended_grants(now),
        registry.without_ended_grants(now).without_ended_grants(later)
            == registry.without_ended_grants(later),
{
    assert(registry.without_ended_grants(now).without_ended_grants(now)
        =~= registry.without_ended_grants(now));
    assert(registry.without_ended_grants(now).without_ended_grants(later)
        =~= registry.without_ended_grants(later));
}

/// Grants are not kept across restarts: taking approvals in gives no grant.
pub proof fn restoring_grants_nothing(registry: RegistryView, approvals: Seq<ApprovalView>)
    ensures
        registry.restored(approvals).grants == registry.grants,
    decreases approvals.len(),
{
    if approvals.len() > 0 {
        restoring_grants_nothing(registry, approvals.drop_last());
    }
}

/// No two approvals of the list have the same identifier.
pub open spec fn distinct_ids(approvals: Seq<ApprovalView>) -> bool {
    forall|i: int, j: int|
        0 <= i < j < approvals.len() ==> (#[trigger] approvals[i]).id != (
        #[trigger] approvals[j]).id
}

/// What an empty registry holds once approvals with distinct identifiers are
/// taken in: the pending ones among them.
pub proof fn restored_approvals(approvals: Seq<ApprovalView>)
    requires
        distinct_ids(approvals),
    ensures
        RegistryView::empty().restored(approvals).wf(),
        forall|i: int|
            0 <= i < approvals.len() && (#[trigger] approvals[i]).pending()
                ==> RegistryView::empty().restored(approvals).approval(approvals[i].id) == Some(
                approvals[i],
            ),
        forall|id: u128| #[trigger]
            RegistryView::empty().restored(approvals).entries.contains_key(id) ==> exists|i: int|
                0 <= i < approvals.len() && (#[trigger] approvals[i]).id == id
                    && approvals[i].pending(),
    decreases approvals.len(),
{
    let all = RegistryView::empty().restored(approvals);
    if approvals.len() > 0 {
        let rest = approvals.drop_last();
        let before = RegistryView::empty().restored(rest);
        assert forall|i: int, j: int| 0 <= i < j < rest.len() implies (#[trigger] rest[i]).id != (
        #[trigger] rest[j]).id by {
            assert(rest[i] == approvals[i] && rest[j] == approvals[j]);
        }
        restored_approvals(rest);
        assert forall|i: int|
            0 <= i < approvals.len() && (#[trigger] approvals[i]).pending() implies all.approval(
            approvals[i].id,
        ) == Some(approvals[i]) by {
            if i < rest.len() {
                assert(rest[i] == approvals[i]);
                assert(approvals[i].id != approvals[approvals.len() - 1].id);
            }
        }
        assert forall|id: u128| #[trigger] all.entries.contains_key(id) implies exists|i: int|
            0 <= i < approvals.len() && (#[trigger] approvals[i]).id == id
                && approvals[i].pending() by {
            let last = approvals[approvals.len() - 1];
            if last.pending() && last.id == id {
            } else {
                assert(before.entries.contains_key(id));
                let i = choose|i: int|
                    0 <= i < rest.len() && (#[trigger] rest[i]).id == id && rest[i].pending();
                assert(approvals[i] == rest[i]);
            }
        }
    }
}

/// No two approvals of the list were made for the same request.
pub open spec fn distinct_requests(approvals: Seq<ApprovalView>) -> bool {
    forall|i: int, j: int|
        0 <= i < j < approvals.len() ==> (#[trigger] approvals[i]).request_id != (
        #[trigger] approvals[j]).request_id
}

/// After a restart a request that is sent again is answered by the approval that
/// it had, and the approval is found among those of its session.
pub proof fn restored_requests_are_known(approvals: Seq<ApprovalView>, i: int)
    requires
        distinct_ids(approvals),
        distinct_requests(approvals),
        0 <= i < approvals.len(),
        approvals[i].pending(),
    ensures
        ({
            let restored = RegistryView::empty().restored(approvals);
            &&& restored.by_request.contains_key(approvals[i].request_id)
            &&& restored.by_request[approvals[i].request_id] == approvals[i].id
            &&& restored.answering(approvals[i].request_id) == Some(approvals[i])
            &&& restored.ids_of(approvals[i].session_id).contains(approvals[i].id)
        }),
    decreases approvals.len(),
{
    let rest = approvals.drop_last();
    if i < rest.len() {
        assert forall|a: int, b: int| 0 <= a < b < rest.len() implies (#[trigger] rest[a]).id != (
        #[trigger] rest[b]).id && rest[a].request_id != rest[b].request_id by {
            assert(rest[a] == approvals[a] && rest[b] == approvals[b]);
        }
        assert(rest[i] == approvals[i]);
        restored_requests_are_known(rest, i);
        let last = approvals[approvals.len() - 1];
        assert(approvals[i].id != last.id && approvals[i].request_id != last.request_id);
    }
}

/// What a snapshot lists: approvals of the registry as they are, each pending, no
/// two with the same identifier.
pub proof fn snapshot_lists_approvals(registry: RegistryView, snapshot: Seq<ApprovalView>)
    requires
        registry.wf(),
        registry.lists_pending(snapshot),
    ensures
        distinct_ids(snapshot),
        forall|i: int|
            0 <= i < snapshot.len() ==> registry.is_pending((#[trigger] snapshot[i]).id)
                && registry.approval(snapshot[i].id) == Some(snapshot[i]),
{
    let approval_of = |id: u128| registry.entries[id].approval;
    let pending = registry.pending_ids();
    assert forall|i: int| 0 <= i < snapshot.len() implies registry.is_pending(
        (#[trigger] snapshot[i]).id,
    ) && registry.approval(snapshot[i].id) == Some(snapshot[i]) by {
        assert(snapshot.to_set().contains(snapshot[i]));
        let of = choose|of: u128| pending.contains(of) && snapshot[i] == approval_of(of);
        assert(registry.entries.contains_key(of));
    }
    assert forall|i: int, j: int| 0 <= i < j < snapshot.len() implies (
    #[trigger] snapshot[i]).id != (#[trigger] snapshot[j]).id by {
        if snapshot[i].id == snapshot[j].id {
            assert(snapshot[i] == snapshot[j]);
        }
    }
}

/// A snapshot taken in by an empty registry gives back every pending approval as
/// it was, and nothing else.
pub proof fn snapshot_is_restored(
    registry: RegistryView,
    snapshot: Seq<ApprovalView>,
    id: u128,
)
    requires
        registry.wf(),
        registry.lists_pending(snapshot),
    ensures
        RegistryView::empty().restored(snapshot).approval(id) == (if registry.is_pending(id) {
            registry.approval(id)
        } else {
            None
        }),
{
    let approval_of = |id: u128| registry.entries[id].approval;
    let pending = registry.pending_ids();
    snapshot_lists_approvals(registry, snapshot);
    restored_approvals(snapshot);
    let back = RegistryView::empty().restored(snapshot);
    if registry.is_pending(id) {
        assert(pending.contains(id));
        assert(pending.map(approval_of).contains(approval_of(id)));
        assert(snapshot.to_set().contains(approval_of(id)));
        let i = choose|i: int| 0 <= i < snapshot.len() && snapshot[i] == approval_of(id);
        assert(snapshot[i].pending() && snapshot[i].id == id);
    } else if back.entries.contains_key(id) {
        let i = choose|i: int|
            0 <= i < snapshot.len() && (#[trigger] snapshot[i]).id == id && snapshot[i].pending();
        assert(registry.is_pending(snapshot[i].id));
    }
}

/// What is decided already is not taken in: only the pending ones of a list count.
pub proof fn only_pending_approvals_are_restored(
    registry: RegistryView,
    approvals: Seq<ApprovalView>,
)
    ensures
        registry.restored(approvals) == registry.restored(
            crate::server::model::pending_of(approvals),
        ),
    decreases approvals.len(),
{
    reveal(Seq::filter);
    if approvals.len() > 0 {
        let rest = approvals.drop_last();
        only_pending_approvals_are_restored(registry, rest);
        if approvals.last().pending() {
            assert(crate::server::model::pending_of(approvals).drop_last()
                =~= crate::server::model::pending_of(rest));
        }
    }
}

/// No two approvals of the list were created at the same time.
pub open spec fn distinct_times(approvals: Seq<ApprovalView>) -> bool {
    forall|i: int, j: int|
        0 <= i < j < approvals.len() ==> (#[trigger] approvals[i]).created_at != (
        #[trigger] approvals[j]).created_at
}

/// Where no two were created at the same time, there is one way to list
/// approvals with the oldest first.
pub proof fn age_settles_the_order(one: Seq<ApprovalView>, two: Seq<ApprovalView>)
    requires
        one.no_duplicates(),
        two.no_duplicates(),
        one.to_set() == two.to_set(),
        distinct_times(one),
        crate::server::model::oldest_first(one),
        crate::server::model::oldest_first(two),
    ensures
        one == two,
    decreases one.len(),
{
    one.unique_seq_to_set();
    two.unique_seq_to_set();
    if one.len() > 0 {
        let last = one.len() - 1;
        assert(one.to_set().contains(one[last]));
        assert(two.to_set().contains(two[last]));
        let j = choose|j: int| 0 <= j < two.len() && two[j] == one[last];
        let i = choose|i: int| 0 <= i < one.len() && one[i] == two[last];
        if i != last {
            assert(one[i].created_at != one[last].created_at);
            assert(!one[last].created_at.earlier(one[i].created_at));
            assert(j != last);
            assert(!two[last].created_at.earlier(two[j].created_at));
            assert(false);
        }
        let fewer_one = one.drop_last();
        let fewer_two = two.drop_last();
        assert forall|x: ApprovalView| fewer_one.to_set().contains(x) == fewer_two.to_set().contains(
            x,
        ) by {
            if fewer_one.contains(x) {
                let k = choose|k: int| 0 <= k < fewer_one.len() && fewer_one[k] == x;
                assert(one[k] == x);
                assert(one.to_set().contains(x));
                assert(two.contains(x));
                let m = choose|m: int| 0 <= m < two.len() && two[m] == x;
                assert(m != last);
                assert(fewer_two[m] == x);
            }
            if fewer_two.contains(x) {
                let k = choose|k: int| 0 <= k < fewer_two.len() && fewer_two[k] == x;
                assert(two[k] == x);
                assert(two.to_set().contains(x));
                assert(one.contains(x));
                let m = choose|m: int| 0 <= m < one.len() && one[m] == x;
                assert(m != last);
                assert(fewer_one[m] == x);
            }
        }
        assert(fewer_one.to_set() =~= fewer_two.to_set());
        assert forall|a: int, b: int| 0 <= a < b < fewer_one.len() implies (
        #[trigger] fewer_one[a]).created_at != (#[trigger] fewer_one[b]).created_at by {
            assert(fewer_one[a] == one[a] && fewer_one[b] == one[b]);
        }
        assert forall|a: int, b: int| 0 <= a < b < fewer_one.len() implies !(
        #[trigger] fewer_one[b]).created_at.earlier((#[trigger] fewer_one[a]).created_at) by {
            assert(fewer_one[a] == one[a] && fewer_one[b] == one[b]);
        }
        assert forall|a: int, b: int| 0 <= a < b < fewer_two.len() implies !(
        #[trigger] fewer_two[b]).created_at.earlier((#[trigger] fewer_two[a]).created_at) by {
            assert(fewer_two[a] == two[a] && fewer_two[b] == two[b]);
        }
        age_settles_the_order(fewer_one, fewer_two);
        assert(one =~= fewer_one.push(one[last]));
        assert(two =~= fewer_two.push(two[last]));
    }
}

/// A snapshot that comes back, possibly together with approvals that are decided
/// already, is the snapshot of the registry that took it in. Where approvals were
/// created at the same time, their order may differ.
pub proof fn snapshot_comes_back(
    registry: RegistryView,
    snapshot: Seq<ApprovalView>,
    kept: Seq<ApprovalView>,
    listed: Seq<ApprovalView>,
)
    requires
        registry.wf(),
        registry.lists_pending(snapshot),
        distinct_times(snapshot),
        crate::server::model::pending_of(kept) == snapshot,
    ensures
        RegistryView::empty().restored(kept).lists_pending(listed) <==> listed == snapshot,
{
    only_pending_approvals_are_restored(RegistryView::empty(), kept);
    let back = RegistryView::empty().restored(snapshot);
    let approval_of = |id: u128| registry.entries[id].approval;
    let approval_back = |id: u128| back.entries[id].approval;
    assert forall|id: u128| back.is_pending(id) == registry.is_pending(id) && (
    registry.is_pending(id) ==> approval_back(id) == approval_of(id)) by {
        snapshot_is_restored(registry, snapshot, id);
        assert(back.approval(id) is Some == back.entries.contains_key(id));
    }
    assert(back.pending_ids() =~= registry.pending_ids());
    assert forall|x: ApprovalView| back.pending_ids().map(approval_back).contains(x)
        == registry.pending_ids().map(approval_of).contains(x) by {
        if back.pending_ids().map(approval_back).contains(x) {
            let id = choose|id: u128| back.pending_ids().contains(id) && x == approval_back(id);
            assert(registry.pending_ids().contains(id) && x == approval_of(id));
        }
        if registry.pending_ids().map(approval_of).contains(x) {
            let id = choose|id: u128| registry.pending_ids().contains(id) && x == approval_of(id);
            assert(back.pending_ids().contains(id) && x == approval_back(id));
        }
    }
    assert(back.pending_ids().map(approval_back) =~= registry.pending_ids().map(approval_of));
    if back.lists_pending(listed) {
        age_settles_the_order(snapshot, listed);
    }
}

/// Where each approval answers to its request, no two approvals of a snapshot share
/// one.
pub proof fn snapshot_requests_are_distinct(registry: RegistryView, snapshot: Seq<ApprovalView>)
    requires
        registry.wf(),
        registry.requests_agree(),
        registry.lists_pending(snapshot),
    ensures
        distinct_requests(snapshot),
{
    snapshot_lists_approvals(registry, snapshot);
    assert forall|a: int, b: int| 0 <= a < b < snapshot.len() implies (
    #[trigger] snapshot[a]).request_id != (#[trigger] snapshot[b]).request_id by {
        assert(registry.entries.contains_key(snapshot[a].id));
        assert(registry.entries.contains_key(snapshot[b].id));
        assert(snapshot[a].id != snapshot[b].id);
    }
}

/// After a restart a request of the snapshot that is sent again is answered by the
/// approval that it had, whatever else was kept of decided ones.
pub proof fn snapshot_requests_are_known_again(
    registry: RegistryView,
    snapshot: Seq<ApprovalView>,
    kept: Seq<ApprovalView>,
    i: int,
    request: RegisterApprovalView,
    created_at: UtcTime,
    now: u128,
    id: u128,
)
    requires
        registry.wf(),
        registry.lists_pending(snapshot),
        distinct_requests(snapshot),
        crate::server::model::pending_of(kept) == snapshot,
        0 <= i < snapshot.len(),
        request.request_id == snapshot[i].request_id,
    ensures
        ({
            let outcome = RegistryView::empty().restored(kept).registration(
                request,
                created_at,
                now,
                id,
            );
            !outcome.is_new && outcome.approval == snapshot[i]
        }),
{
    only_pending_approvals_are_restored(RegistryView::empty(), kept);
    snapshot_lists_approvals(registry, snapshot);
    restored_requests_are_known(snapshot, i);
    restoring_grants_nothing(RegistryView::empty(), snapshot);
}

/// What was taken in is not orphaned until a gateway polls for it.
pub proof fn restored_approvals_are_not_orphaned(
    approvals: Seq<ApprovalView>,
    now: u128,
    threshold: u128,
)
    ensures
        RegistryView::empty().restored(approvals).orphans(now, threshold) == Set::<u128>::empty(),
{
    never_polled(approvals);
    assert(RegistryView::empty().restored(approvals).orphans(now, threshold) =~= Set::empty());
}

/// Nothing that was taken in has been polled for.
proof fn never_polled(approvals: Seq<ApprovalView>)
    ensures
        forall|id: u128| #[trigger]
            RegistryView::empty().restored(approvals).entries.contains_key(id)
                ==> RegistryView::empty().restored(approvals).entries[id].last_polled_at is None,
    decreases approvals.len(),
{
    if approvals.len() > 0 {
        never_polled(approvals.drop_last());
    }
}

/// Requests and approvals keep answering to each other, whatever is done: decisions,
/// grants, polls, cancellations and removals leave that as it is, and so does a
/// registration under an identifier that no approval has.
pub proof fn requests_and_approvals_stay_in_step(
    registry: RegistryView,
    request: RegisterApprovalView,
    created_at: UtcTime,
    now: u128,
    id: u128,
    status: ApprovalStatusView,
    ids: Set<u128>,
    session_id: Seq<char>,
)
    requires
        registry.wf(),
        registry.requests_agree(),
    ensures
        registry.decided(id, status).requests_agree(),
        registry.decided_with_grant(id, status, now).requests_agree(),
        registry.without_ended_grants(now).requests_agree(),
        registry.polled(id, now).requests_agree(),
        registry.cancelled(ids).requests_agree(),
        registry.without_session(session_id).requests_agree(),
        !registry.entries.contains_key(id) ==> registry.registration(
            request,
            created_at,
            now,
            id,
        ).registry.requests_agree(),
{
    let without = registry.without_session(session_id);
    let gone = registry.session_ids(session_id);
    assert forall|request_id: Seq<char>|
        #![trigger without.by_request.contains_key(request_id)]
        without.by_request.contains_key(request_id) implies without.entries.contains_key(
        without.by_request[request_id],
    ) && without.entries[without.by_request[request_id]].approval.request_id == request_id by {
        let other = registry.by_request[request_id];
        assert(registry.by_request.contains_key(request_id));
        if gone.contains(other) {
            assert(registry.requests_of(gone).contains(request_id));
        }
    }
    assert forall|other: u128| #[trigger] without.entries.contains_key(other) implies {
        let request_id = without.entries[other].approval.request_id;
        without.by_request.contains_key(request_id) && without.by_request[request_id] == other
    } by {
        assert(registry.entries.contains_key(other));
        let request_id = registry.entries[other].approval.request_id;
        if registry.requests_of(gone).contains(request_id) {
            let removed = choose|removed: u128| #[trigger]
                gone.contains(removed) && registry.entries.contains_key(removed)
                    && registry.entries[removed].approval.request_id == request_id;
            assert(registry.by_request[request_id] == removed);
        }
    }
    if !registry.entries.contains_key(id) && registry.answering(request.request_id) is None {
        let after = registry.registration(request, created_at, now, id).registry;
        assert forall|other: u128| #[trigger] after.entries.contains_key(other) implies {
            let request_id = after.entries[other].approval.request_id;
            after.by_request.contains_key(request_id) && after.by_request[request_id] == other
        } by {
            if other != id {
                assert(registry.entries.contains_key(other));
            }
        }
    }
}

/// Requests and approvals answer to each other in a registry that took in
/// approvals with distinct identifiers and requests.
pub proof fn restored_requests_agree(approvals: Seq<ApprovalView>)
    requires
        distinct_ids(approvals),
        distinct_requests(approvals),
    ensures
        RegistryView::empty().restored(approvals).requests_agree(),
    decreases approvals.len(),
{
    if approvals.len() > 0 {
        let rest = approvals.drop_last();
        let before = RegistryView::empty().restored(rest);
        let last = approvals[approvals.len() - 1];
        assert forall|a: int, b: int| 0 <= a < b < rest.len() implies (#[trigger] rest[a]).id != (
        #[trigger] rest[b]).id && rest[a].request_id != rest[b].request_id by {
            assert(rest[a] == approvals[a] && rest[b] == approvals[b]);
        }
        restored_requests_agree(rest);
        restored_approvals(rest);
        if last.pending() {
            let after = before.with_approval(last);
            assert(RegistryView::empty().restored(approvals) == after);
            assert forall|id: u128| #[trigger] before.entries.contains_key(id) implies id != last.id
                && before.entries[id].approval.request_id != last.request_id by {
                let i = choose|i: int|
                    0 <= i < rest.len() && (#[trigger] rest[i]).id == id && rest[i].pending();
                assert(rest[i] == approvals[i]);
                assert(before.approval(rest[i].id) == Some(rest[i]));
            }
            assert forall|id: u128| #[trigger] after.entries.contains_key(id) implies {
                let request_id = after.entries[id].approval.request_id;
                after.by_request.contains_key(request_id) && after.by_request[request_id] == id
            } by {
                if id != last.id {
                    assert(before.entries.contains_key(id));
                }
            }
        }
    }
}

/// Removing a session removes its approvals and leaves every other approval and
/// all grants.
pub proof fn removing_a_session_leaves_the_others(
    registry: RegistryView,
    session_id: Seq<char>,
    id: u128,
)
    ensures
        registry.without_session(session_id).approval(id) == match registry.approval(id) {
            Some(approval) => if approval.session_id == session_id {
                None
            } else {
                Some(approval)
            },
            None => None,
        },
        registry.without_session(session_id).ids_of(session_id) == Set::<u128>::empty(),
        registry.without_session(session_id).grants == registry.grants,
{
}

/// Once a session is removed, a request that one of its approvals was made for is
/// not known any more: it would be registered anew.
pub proof fn removed_requests_are_not_known(
    registry: RegistryView,
    session_id: Seq<char>,
    id: u128,
)
    requires
        registry.entries.contains_key(id),
        registry.entries[id].approval.session_id == session_id,
    ensures
        registry.without_session(session_id).answering(registry.entries[id].approval.request_id)
            is None,
{
    let ids = registry.session_ids(session_id);
    assert(ids.contains(id));
    assert(registry.requests_of(ids).contains(registry.entries[id].approval.request_id));
}

/// What was just registered is not orphaned: no gateway has polled for it yet.
pub proof fn new_approval_is_not_orphaned(
    registry: RegistryView,
    approval: ApprovalView,
    now: u128,
    threshold: u128,
)
    ensures
        !registry.with_approval(approval).orphaned(approval.id, now, threshold),
{
}

/// A poll keeps an approval from being orphaned for as long as the threshold
/// says, and leaves the approval itself as it is.
pub proof fn poll_keeps_an_approval(
    registry: RegistryView,
    id: u128,
    polled_at: u128,
    now: u128,
    threshold: u128,
)
    requires
        now <= polled_at + threshold,
    ensures
        !registry.polled(id, polled_at).orphaned(id, now, threshold),
        registry.polled(id, polled_at).approval(id) == registry.approval(id),
{
}

/// Cancelling orphans leaves every other approval as it is, and no orphans.
pub proof fn cancelling_orphans_is_exact(
    registry: RegistryView,
    id: u128,
    now: u128,
    threshold: u128,
)
    ensures
        ({
            let after = registry.cancelled(registry.orphans(now, threshold));
            &&& registry.orphaned(id, now, threshold) ==> after.approval(id) == Some(
                registry.entries[id].approval.with_status(ApprovalStatusView::Cancelled),
            )
            &&& !registry.orphaned(id, now, threshold) ==> after.approval(id) == registry.approval(
                id,
            )
            &&& !after.orphaned(id, now, threshold)
        }),
{
    let ids = registry.orphans(now, threshold);
    assert(ids.contains(id) == registry.orphaned(id, now, threshold));
}

/// Whichever way a new request is registered, its approval says what was asked, is found
/// under its identifier and its request, has not been polled for, and waits for the
/// operator unless a grant for its session and its shell command is held.
pub proof fn new_request_is_registered_as_asked(
    registry: &mut ApprovalRegistry,
    params: RegisterApproval,
    created_at: UtcTime,
    now: u128,
    id: u128,
    outcome: RegistrationOutcome,
    approval: Approval,
)
    requires
        old(registry).wf(),
        ({
            let given = outcome.approval == approval;
            ||| given && call_ensures(
                ApprovalRegistry::register_with_id,
                (registry, params, created_at, now, id),
                outcome,
            )
            ||| given && call_ensures(
                ApprovalRegistry::register_at_with_outcome,
                (registry, params, created_at, now),
                outcome,
            )
            ||| given && call_ensures(
                ApprovalRegistry::register_with_outcome,
                (registry, params),
                outcome,
            )
            ||| call_ensures(
                ApprovalRegistry::register_at,
                (registry, params, created_at, now),
                approval,
            )
            ||| call_ensures(ApprovalRegistry::register, (registry, params), approval)
        }),
        !old(registry)@.by_request.contains_key(params.request_id@),
    ensures
        approval.request_id@ == params.request_id@,
        approval.session_id@ == params.session_id@,
        approval.session_display_name@ == params.session_display_name@,
        approval.project@ == params.project@,
        approval.tool@ == params.tool@,
        approval.tool_input@ == params.tool_input@,
        approval.provider@ == params.provider@,
        approval.request_type == params.request_type,
        approval.context@ == params.context@,
        final(registry)@.entries.contains_key(approval.id),
        final(registry)@.entries[approval.id].approval == approval@,
        final(registry)@.entries[approval.id].last_polled_at is None,
        final(registry)@.by_request.contains_key(params.request_id@),
        final(registry)@.by_request[params.request_id@] == approval.id,
        approval.status@ is Pending || approval.status@ == (ApprovalStatusView::Approved {
            message: None,
        }),
        approval.status@ is Approved ==> {
            let command = params.tool_input@.text_member("command"@);
            &&& params.tool@ is Bash
            &&& command is Some
            &&& old(registry)@.grants.contains_key((params.session_id@, command->0))
        },
{
    if call_ensures(ApprovalRegistry::register, (registry, params), approval) {
        let at = choose|at: u128|
            at <= crate::clock::longest_duration() && #[trigger] old(registry)@.registration(
                params@,
                approval.created_at,
                at,
                approval.id,
            ) == (crate::server::model::RegistrationView {
                registry: final(registry)@,
                approval: approval@,
                is_new: old(registry)@.answering(params@.request_id) is None,
            });
        assert(old(registry)@.registration(params@, approval.created_at, at, approval.id).registry
            == final(registry)@);
    }
}

/// A new request gets the identifier and the time that it is registered under, and is let
/// through exactly where a grant for its session and its shell command runs: one that
/// ends later than the time of the registration.
pub proof fn running_grant_lets_a_request_through(
    registry: &mut ApprovalRegistry,
    params: RegisterApproval,
    created_at: UtcTime,
    now: u128,
    id: u128,
    outcome: RegistrationOutcome,
)
    requires
        old(registry).wf(),
        call_ensures(
            ApprovalRegistry::register_with_id,
            (registry, params, created_at, now, id),
            outcome,
        ),
        !old(registry)@.by_request.contains_key(params.request_id@),
    ensures
        outcome.is_new,
        outcome.approval.id == id,
        outcome.approval.created_at == created_at,
        ({
            let command = params.tool_input@.text_member("command"@);
            let key = (params.session_id@, command->0);
            let runs = params.tool@ is Bash && command is Some
                && old(registry)@.grants.contains_key(key) && now < old(registry)@.grants[key];
            &&& outcome.approval.status@ is Approved <==> runs
            &&& outcome.approval.status@ is Pending <==> !runs
        }),
{
}

/// A request that is known is answered by the approval that it has: as it is once it is
/// decided, with nothing changed; while it is pending it stays so, unless a grant for its
/// session and its shell command is held. No approval is added.
pub proof fn known_request_keeps_its_approval(
    registry: &mut ApprovalRegistry,
    params: RegisterApproval,
    created_at: UtcTime,
    now: u128,
    id: u128,
    outcome: RegistrationOutcome,
    approval: Approval,
)
    requires
        old(registry).wf(),
        ({
            let given = outcome.approval == approval && !outcome.is_new;
            ||| call_ensures(
                ApprovalRegistry::register_with_id,
                (registry, params, created_at, now, id),
                outcome,
            ) && outcome.approval == approval
            ||| given && call_ensures(
                ApprovalRegistry::register_at_with_outcome,
                (registry, params, created_at, now),
                outcome,
            )
            ||| given && call_ensures(
                ApprovalRegistry::register_with_outcome,
                (registry, params),
                outcome,
            )
            ||| call_ensures(
                ApprovalRegistry::register_at,
                (registry, params, created_at, now),
                approval,
            )
            ||| call_ensures(ApprovalRegistry::register, (registry, params), approval)
        }),
        old(registry)@.by_request.contains_key(params.request_id@),
        old(registry)@.entries.contains_key(old(registry)@.by_request[params.request_id@]),
    ensures
        ({
            let known = old(registry)@.by_request[params.request_id@];
            let before = old(registry)@.entries[known].approval;
            let command = before.tool_input.text_member("command"@);
            &&& approval.id == known
            &&& approval@ == before.with_status(approval.status@)
            &&& !(before.status is Pending) ==> approval.status@ == before.status
                && final(registry)@ == old(registry)@
            &&& before.status is Pending ==> approval.status@ is Pending || approval.status@ == (
            ApprovalStatusView::Approved { message: None })
            &&& before.status is Pending && approval.status@ is Approved ==> before.tool is Bash
                && command is Some && old(registry)@.grants.contains_key(
                (before.session_id, command->0),
            )
            &&& final(registry)@.entries.dom() == old(registry)@.entries.dom()
            &&& final(registry)@.entries[known].approval == approval@
            &&& final(registry)@.by_request == old(registry)@.by_request
        }),
{
    (*old(registry)).view_is_wf();
    let known = old(registry)@.by_request[params.request_id@];
    if call_ensures(ApprovalRegistry::register, (registry, params), approval) {
        let at = choose|at: u128|
            at <= crate::clock::longest_duration() && #[trigger] old(registry)@.registration(
                params@,
                approval.created_at,
                at,
                approval.id,
            ) == (crate::server::model::RegistrationView {
                registry: final(registry)@,
                approval: approval@,
                is_new: old(registry)@.answering(params@.request_id) is None,
            });
        assert(old(registry)@.registration(params@, approval.created_at, at, approval.id).registry
            == final(registry)@);
    }
    assert(final(registry)@.entries.dom() =~= old(registry)@.entries.dom());
}

/// A registration leaves every other approval as it is, and gives no grant.
pub proof fn registration_leaves_the_rest(
    registry: &mut ApprovalRegistry,
    params: RegisterApproval,
    created_at: UtcTime,
    now: u128,
    id: u128,
    outcome: RegistrationOutcome,
    other: u128,
    key: (Seq<char>, Seq<char>),
)
    requires
        old(registry).wf(),
        call_ensures(
            ApprovalRegistry::register_with_id,
            (registry, params, created_at, now, id),
            outcome,
        ) || call_ensures(
            ApprovalRegistry::register_at_with_outcome,
            (registry, params, created_at, now),
            outcome,
        ),
        other != outcome.approval.id,
    ensures
        final(registry)@.entries.contains_key(other) == old(registry)@.entries.contains_key(other),
        final(registry)@.entries[other] == old(registry)@.entries[other],
        final(registry)@.grants.contains_key(key) ==> old(registry)@.grants.contains_key(key)
            && final(registry)@.grants[key] == old(registry)@.grants[key],
        old(registry)@.grants.contains_key(key) && old(registry)@.grants[key] > now
            ==> final(registry)@.grants.contains_key(key),
{
    (*old(registry)).view_is_wf();
}

/// A new registry holds nothing.
pub proof fn new_registry_is_empty(registry: ApprovalRegistry, id: u128, found: Option<Approval>)
    requires
        call_ensures(ApprovalRegistry::new, (), registry),
        call_ensures(ApprovalRegistry::get, (&registry, id), found),
    ensures
        found is None,
        registry@.grants.dom() == Set::<(Seq<char>, Seq<char>)>::empty(),
        registry@.by_request.dom() == Set::<Seq<char>>::empty(),
{
    assert(registry@.grants.dom() =~= Set::empty());
    assert(registry@.by_request.dom() =~= Set::empty());
}

/// A decision on a pending approval gives it that status and changes nothing else of it;
/// one on an approval that is decided changes nothing; what is returned is the approval
/// as it then is, and nothing where there is none.
pub proof fn decision_gives_the_status(
    registry: &mut ApprovalRegistry,
    id: u128,
    status: ApprovalStatus,
    r: Option<Approval>,
    found: Option<Approval>,
)
    requires
        old(registry).wf(),
        call_ensures(ApprovalRegistry::get, (&*old(registry), id), found),
        call_ensures(ApprovalRegistry::resolve, (registry, id, status), r),
    ensures
        r is Some == found is Some,
        found is Some == old(registry)@.entries.contains_key(id),
        found matches Some(before) ==> {
            &&& before@ == old(registry)@.entries[id].approval
            &&& before.status@ is Pending ==> r->0@ == before@.with_status(status@)
            &&& !(before.status@ is Pending) ==> r->0@ == before@ && final(registry)@
                == old(registry)@
            &&& final(registry)@.entries.contains_key(id)
            &&& final(registry)@.entries[id].approval == r->0@
            &&& final(registry)@.entries[id].last_polled_at
                == old(registry)@.entries[id].last_polled_at
        },
        found is None ==> final(registry)@ == old(registry)@,
        final(registry)@.grants == old(registry)@.grants,
{
}

/// A timed decision is refused on each of its grounds, in their order, and then changes
/// nothing; otherwise it approves the approval, and leaves a grant for its session and
/// its command that ends as long after `now` as the duration says.
pub proof fn timed_decision_grants_for_its_duration(
    registry: &mut ApprovalRegistry,
    id: u128,
    status: ApprovalStatus,
    duration: ApprovalGrantDuration,
    now: u128,
    r: Result<Approval, TemporaryGrantError>,
)
    requires
        old(registry).wf(),
        now + duration.nanos() <= u128::MAX,
        call_ensures(
            ApprovalRegistry::resolve_with_grant_at,
            (registry, id, status, duration, now),
            r,
        ),
    ensures
        ({
            let known = old(registry)@.entries.contains_key(id);
            let before = old(registry)@.entries[id].approval;
            let command = before.tool_input.text_member("command"@);
            let key = (before.session_id, command->0);
            &&& r is Ok <==> status@ is Approved && known && before.status is Pending && before.tool
                is Bash && command is Some
            &&& !(status@ is Approved) ==> r == Err::<Approval, _>(TemporaryGrantError::NotApproved)
            &&& status@ is Approved && !known ==> r == Err::<Approval, _>(
                TemporaryGrantError::ApprovalNotFound,
            )
            &&& status@ is Approved && known && !(before.status is Pending) ==> r == Err::<
                Approval,
                _,
            >(TemporaryGrantError::AlreadyResolved)
            &&& status@ is Approved && known && before.status is Pending && !(before.tool is Bash)
                ==> r == Err::<Approval, _>(TemporaryGrantError::NotBash)
            &&& status@ is Approved && known && before.status is Pending && before.tool is Bash
                && command is None ==> r == Err::<Approval, _>(TemporaryGrantError::MissingCommand)
            &&& r is Err ==> final(registry)@ == old(registry)@
            &&& r is Ok ==> {
                &&& r->Ok_0@ == before.with_status(status@)
                &&& final(registry)@.entries[id].approval == r->Ok_0@
                &&& final(registry)@.grants.contains_key(key)
                &&& final(registry)@.grants[key] == now + duration.nanos()
            }
        }),
{
}

/// The same for a decision taken now: the grant ends that long after some point of the
/// clock.
pub proof fn timed_decision_now_grants_for_its_duration(
    registry: &mut ApprovalRegistry,
    id: u128,
    status: ApprovalStatus,
    duration: ApprovalGrantDuration,
    r: Result<Approval, TemporaryGrantError>,
)
    requires
        old(registry).wf(),
        call_ensures(ApprovalRegistry::resolve_with_grant, (registry, id, status, duration), r),
    ensures
        ({
            let known = old(registry)@.entries.contains_key(id);
            let before = old(registry)@.entries[id].approval;
            let command = before.tool_input.text_member("command"@);
            let key = (before.session_id, command->0);
            &&& r is Ok <==> status@ is Approved && known && before.status is Pending && before.tool
                is Bash && command is Some
            &&& r is Err ==> final(registry)@ == old(registry)@
            &&& r is Ok ==> {
                &&& r->Ok_0@ == before.with_status(status@)
                &&& final(registry)@.grants.contains_key(key)
                &&& final(registry)@.grants[key] >= duration.nanos()
                &&& final(registry)@.grants[key] <= crate::clock::longest_duration()
                    + duration.nanos()
            }
        }),
{
    if r is Ok {
        let now = choose|now: u128|
            now <= crate::clock::longest_duration() && final(registry)@
                == #[trigger] old(registry)@.decided_with_grant(
                id,
                status@,
                (now + duration.nanos()) as u128,
            );
        assert(now + duration.nanos() <= u128::MAX);
    }
}

/// Dropping grants drops those that have ended, and no other, and leaves the approvals;
/// the number told is how many left.
pub proof fn ended_grants_are_dropped(
    registry: &mut ApprovalRegistry,
    now: u128,
    r: usize,
    key: (Seq<char>, Seq<char>),
)
    requires
        old(registry).wf(),
        call_ensures(ApprovalRegistry::purge_expired_grants_at, (registry, now), r),
    ensures
        final(registry)@.grants.contains_key(key) <==> old(registry)@.grants.contains_key(key)
            && now < old(registry)@.grants[key],
        final(registry)@.grants.contains_key(key) ==> final(registry)@.grants[key]
            == old(registry)@.grants[key],
        final(registry)@.entries == old(registry)@.entries,
        r + final(registry)@.grants.dom().len() == old(registry)@.grants.dom().len(),
{
}

/// Whoever asks to be told of an approval can be, exactly where there is one, and finds
/// the status that it has.
pub proof fn subscriber_finds_the_status(
    registry: &ApprovalRegistry,
    id: u128,
    r: Option<tokio::sync::watch::Receiver<ApprovalStatus>>,
)
    requires
        registry.wf(),
        call_ensures(ApprovalRegistry::subscribe, (registry, id), r),
    ensures
        r is Some <==> registry@.entries.contains_key(id),
        r is Some ==> crate::server::approvals::first_seen(r->0) == seq![
            registry@.entries[id].approval.status,
        ],
        r is Some ==> crate::server::approvals::channel_heard(r->0) == registry.channels()[id],
{
}

/// A poll is noted at its time, for the approval that it is for, and changes nothing else.
pub proof fn poll_is_noted(registry: &mut ApprovalRegistry, id: u128, now: u128, other: u128)
    requires
        old(registry).wf(),
        call_ensures(ApprovalRegistry::touch_at, (registry, id, now), ()),
    ensures
        old(registry)@.entries.contains_key(id) ==> final(registry)@.entries[id].last_polled_at
            == Some(now) && final(registry)@.entries[id].approval
            == old(registry)@.entries[id].approval,
        final(registry)@.entries.contains_key(other) == old(registry)@.entries.contains_key(other),
        other != id ==> final(registry)@.entries[other] == old(registry)@.entries[other],
        final(registry)@.grants == old(registry)@.grants,
{
}

/// What is listed of a registry, to be shown or to be kept, is every approval that waits,
/// once, as it is, and nothing else; of two, the one that was created first stands first.
pub proof fn list_holds_what_waits(registry: &ApprovalRegistry, r: Vec<Approval>, id: u128)
    requires
        registry.wf(),
        call_ensures(ApprovalRegistry::list_pending, (registry,), r) || call_ensures(
            ApprovalRegistry::snapshot,
            (registry,),
            r,
        ),
    ensures
        registry@.entries.contains_key(id) && registry@.entries[id].approval.status is Pending
            ==> exists|i: int|
            0 <= i < r@.len() && (#[trigger] r@[i])@ == registry@.entries[id].approval,
        forall|i: int|
            0 <= i < r@.len() ==> (#[trigger] r@[i])@.status is Pending
                && registry@.entries.contains_key(r@[i]@.id)
                && registry@.entries[r@[i]@.id].approval == r@[i]@,
        forall|i: int, j: int|
            0 <= i < j < r@.len() ==> (#[trigger] r@[i])@.id != (#[trigger] r@[j])@.id
                && !r@[j]@.created_at.earlier(r@[i]@.created_at),
{
    (*registry).view_is_wf();
    let listed = crate::protocol::approval::approval_views(r@);
    snapshot_lists_approvals(registry@, listed);
    assert forall|i: int| 0 <= i < r@.len() implies (#[trigger] r@[i])@.status is Pending
        && registry@.entries.contains_key(r@[i]@.id) && registry@.entries[r@[i]@.id].approval
        == r@[i]@ by {
        assert(listed[i] == r@[i]@);
    }
    assert forall|i: int, j: int| 0 <= i < j < r@.len() implies (#[trigger] r@[i])@.id != (
    #[trigger] r@[j])@.id && !r@[j]@.created_at.earlier(r@[i]@.created_at) by {
        assert(listed[i] == r@[i]@ && listed[j] == r@[j]@);
    }
    if registry@.entries.contains_key(id) && registry@.entries[id].approval.status is Pending {
        let approval_of = |id: u128| registry@.entries[id].approval;
        assert(registry@.pending_ids().contains(id));
        assert(registry@.pending_ids().map(approval_of).contains(approval_of(id)));
        assert(listed.to_set().contains(approval_of(id)));
        let i = choose|i: int| 0 <= i < listed.len() && listed[i] == approval_of(id);
        assert(r@[i]@ == registry@.entries[id].approval);
    }
}

/// The first approval that a session waits for is one of its own, pending, and none of its
/// own that is pending was created earlier; there is none exactly where it waits for none.
pub proof fn oldest_of_a_session_comes_first(
    registry: &ApprovalRegistry,
    session_id: &SessionId,
    r: Option<Approval>,
    id: u128,
)
    requires
        registry.wf(),
        call_ensures(ApprovalRegistry::first_pending_for_session, (registry, session_id), r),
    ensures
        r matches Some(first) ==> {
            &&& first.session_id@ == session_id@
            &&& first.status@ is Pending
            &&& registry@.entries.contains_key(first.id)
            &&& registry@.entries[first.id].approval == first@
        },
        registry@.entries.contains_key(id) && registry@.entries[id].approval.status is Pending
            && registry@.entries[id].approval.session_id == session_id@ ==> r is Some
            && !registry@.entries[id].approval.created_at.earlier(r->0.created_at),
{
    if registry@.entries.contains_key(id) && registry@.entries[id].approval.status is Pending
        && registry@.entries[id].approval.session_id == session_id@ {
        assert(registry@.is_candidate(session_id@, id));
    }
}

/// Cancelling a session cancels its pending approvals and no other, keeps what was decided
/// and all that was asked, and leaves the grants.
pub proof fn session_is_cancelled_alone(
    registry: &mut ApprovalRegistry,
    session_id: &SessionId,
    id: u128,
)
    requires
        old(registry).wf(),
        call_ensures(ApprovalRegistry::cancel_session, (registry, session_id), ()),
    ensures
        final(registry)@.entries.contains_key(id) == old(registry)@.entries.contains_key(id),
        old(registry)@.entries.contains_key(id) ==> {
            let before = old(registry)@.entries[id];
            let after = final(registry)@.entries[id];
            let own = before.approval.session_id == session_id@ && before.approval.status
                is Pending;
            &&& own ==> after.approval == before.approval.with_status(ApprovalStatusView::Cancelled)
            &&& !own ==> after.approval == before.approval
            &&& after.last_polled_at == before.last_polled_at
        },
        final(registry)@.grants == old(registry)@.grants,
        final(registry)@.by_request == old(registry)@.by_request,
{
    let ids = old(registry)@.session_ids(session_id@);
    assert(old(registry)@.entries.contains_key(id) ==> ids.contains(id) == (
    old(registry)@.entries[id].approval.session_id == session_id@));
}

/// Removing a session removes its approvals, each of which ends as it was decided, or as
/// cancelled; every other approval and all grants stay.
pub proof fn session_is_removed_alone(
    registry: &mut ApprovalRegistry,
    session_id: &SessionId,
    id: u128,
)
    requires
        old(registry).wf(),
        call_ensures(ApprovalRegistry::evict_session, (registry, session_id), ()),
    ensures
        ({
            let before = old(registry)@.entries[id].approval;
            let own = old(registry)@.entries.contains_key(id) && before.session_id == session_id@;
            &&& final(registry)@.entries.contains_key(id) <==> old(registry)@.entries.contains_key(id) && !own
            &&& final(registry)@.entries.contains_key(id) ==> final(registry)@.entries[id]
                == old(registry)@.entries[id]
            &&& own ==> final(registry).farewells().contains_key(id) && final(registry).farewells()[id].1 == seq![
                if before.status is Pending {
                    ApprovalStatusView::Cancelled
                } else {
                    before.status
                },
            ]
            &&& own ==> !final(registry)@.by_request.contains_key(before.request_id)
        }),
        final(registry)@.grants == old(registry)@.grants,
{
    if old(registry)@.entries.contains_key(id) && old(registry)@.entries[id].approval.session_id
        == session_id@ {
        assert(old(registry)@.session_ids(session_id@).contains(id));
        assert(old(registry)@.requests_of(old(registry)@.session_ids(session_id@)).contains(
            old(registry)@.entries[id].approval.request_id,
        ));
        assert(final(registry).farewells().contains_key(id));
    }
}

/// An approval is cancelled for want of a gateway exactly where it is pending, a gateway
/// has polled for it, and did so longer ago than the threshold. Nothing else changes, and
/// the number told is how many there were.
pub proof fn orphan_is_one_no_longer_polled_for(
    registry: &mut ApprovalRegistry,
    now: u128,
    threshold: u128,
    r: usize,
    id: u128,
)
    requires
        old(registry).wf(),
        call_ensures(ApprovalRegistry::evict_orphaned_at, (registry, now, threshold), r),
    ensures
        final(registry)@.entries.contains_key(id) == old(registry)@.entries.contains_key(id),
        old(registry)@.entries.contains_key(id) ==> {
            let before = old(registry)@.entries[id];
            let after = final(registry)@.entries[id];
            let orphaned = before.approval.status is Pending && before.last_polled_at is Some && now
                - before.last_polled_at->0 > threshold;
            &&& orphaned ==> after.approval == before.approval.with_status(
                ApprovalStatusView::Cancelled,
            )
            &&& !orphaned ==> after.approval == before.approval
            &&& after.last_polled_at == before.last_polled_at
            &&& orphaned ==> r > 0
        },
        final(registry)@.grants == old(registry)@.grants,
        r == old(registry)@.orphans(now, threshold).len(),
{
    (*old(registry)).view_is_wf();
    let orphans = old(registry)@.orphans(now, threshold);
    assert(orphans.subset_of(old(registry)@.entries.dom()));
    vstd::set_lib::lemma_set_subset_finite(old(registry)@.entries.dom(), orphans);
    if old(registry)@.entries.contains_key(id) && orphans.contains(id) {
        assert(orphans.len() > 0) by {
            if orphans.len() == 0 {
                assert(orphans =~= Set::empty());
            }
        }
    }
}

/// Approvals that are taken in again are those that are pending, as they were; what is
/// decided is not taken in, and no grant is given.
pub proof fn pending_approvals_are_taken_in(
    registry: &mut ApprovalRegistry,
    approvals: Vec<Approval>,
    i: int,
    id: u128,
)
    requires
        old(registry).wf(),
        old(registry)@ == RegistryView::empty(),
        call_ensures(ApprovalRegistry::restore, (registry, approvals), ()),
        forall|a: int, b: int|
            0 <= a < b < approvals@.len() ==> (#[trigger] approvals@[a]).id != (
            #[trigger] approvals@[b]).id,
        0 <= i < approvals@.len(),
    ensures
        approvals@[i].status@ is Pending ==> final(registry)@.entries.contains_key(approvals@[i].id)
            && final(registry)@.entries[approvals@[i].id].approval == approvals@[i]@,
        !(approvals@[i].status@ is Pending) ==> !final(registry)@.entries.contains_key(
            approvals@[i].id,
        ),
        (forall|k: int| 0 <= k < approvals@.len() ==> (#[trigger] approvals@[k]).id != id)
            ==> !final(registry)@.entries.contains_key(id),
        final(registry)@.grants.dom() == Set::<(Seq<char>, Seq<char>)>::empty(),
{
    let views = crate::protocol::approval::approval_views(approvals@);
    assert forall|a: int, b: int| 0 <= a < b < views.len() implies (#[trigger] views[a]).id != (
    #[trigger] views[b]).id by {
        assert(views[a] == approvals@[a]@ && views[b] == approvals@[b]@);
        assert(approvals@[a].id != approvals@[b].id);
    }
    restored_approvals(views);
    restoring_grants_nothing(RegistryView::empty(), views);
    assert(final(registry)@.grants.dom() =~= Set::empty());
    let back = RegistryView::empty().restored(views);
    assert(views[i] == approvals@[i]@);
    if views[i].pending() {
        assert(back.approval(views[i].id) == Some(views[i]));
    } else if back.entries.contains_key(views[i].id) {
        let k = choose|k: int|
            0 <= k < views.len() && (#[trigger] views[k]).id == views[i].id && views[k].pending();
        if k < i {
            assert(views[k].id != views[i].id);
        } else if i < k {
            assert(views[i].id != views[k].id);
        }
    }
    if back.entries.contains_key(id) {
        let k = choose|k: int|
            0 <= k < views.len() && (#[trigger] views[k]).id == id && views[k].pending();
        assert(views[k] == approvals@[k]@);
        assert(approvals@[k].id == id);
    }
}

/// Each refusal of a timed decision says its ground.
pub proof fn refused_grant_says_why(refusal: TemporaryGrantError, told: &'static str)
    requires
        call_ensures(TemporaryGrantError::message, (refusal,), told),
    ensures
        told@ == match refusal {
            TemporaryGrantError::ApprovalNotFound => "approval not found"@,
            TemporaryGrantError::AlreadyResolved =>
                "temporary grants require a pending approval decision"@,
            TemporaryGrantError::NotApproved => "temporary grants require an approve decision"@,
            TemporaryGrantError::NotBash =>
                "temporary grants are supported only for Bash approvals"@,
            TemporaryGrantError::MissingCommand =>
                "Bash approval does not contain a string command"@,
        },
{
}

/// What is done now is done at some point of the clock: a poll is noted, grants leave only
/// where they have ended by then, and approvals are cancelled only where a gateway polled
/// for them before. What was decided, and what no gateway polled for, stays.
pub proof fn what_is_done_now_leaves_the_rest(
    touched: &mut ApprovalRegistry,
    purged: &mut ApprovalRegistry,
    dropped: usize,
    swept: &mut ApprovalRegistry,
    threshold: u128,
    cancelled: usize,
    id: u128,
    key: (Seq<char>, Seq<char>),
)
    requires
        old(touched).wf(),
        call_ensures(ApprovalRegistry::touch, (touched, id), ()),
        old(purged).wf(),
        call_ensures(ApprovalRegistry::purge_expired_grants, (purged,), dropped),
        old(swept).wf(),
        call_ensures(ApprovalRegistry::evict_orphaned, (swept, threshold), cancelled),
    ensures
        final(touched)@.entries.contains_key(id) == old(touched)@.entries.contains_key(id),
        old(touched)@.entries.contains_key(id) ==> {
            &&& final(touched)@.entries[id].last_polled_at is Some
            &&& final(touched)@.entries[id].approval == old(touched)@.entries[id].approval
        },
        final(purged)@.entries == old(purged)@.entries,
        final(purged)@.grants.contains_key(key) ==> old(purged)@.grants.contains_key(key)
            && final(purged)@.grants[key] == old(purged)@.grants[key],
        old(purged)@.grants.contains_key(key) && old(purged)@.grants[key]
            > crate::clock::longest_duration() ==> final(purged)@.grants.contains_key(key),
        dropped + final(purged)@.grants.dom().len() == old(purged)@.grants.dom().len(),
        final(swept)@.entries.contains_key(id) == old(swept)@.entries.contains_key(id),
        old(swept)@.entries.contains_key(id) ==> {
            let before = old(swept)@.entries[id];
            let after = final(swept)@.entries[id];
            &&& after.last_polled_at == before.last_polled_at
            &&& after.approval == before.approval || after.approval == before.approval.with_status(
                ApprovalStatusView::Cancelled,
            )
            &&& !(before.approval.status is Pending) || before.last_polled_at is None
                ==> after.approval == before.approval
        },
        final(swept)@.grants == old(swept)@.grants,
{
    let now = choose|now: u128|
        now <= crate::clock::longest_duration() && final(purged)@
            == #[trigger] old(purged)@.without_ended_grants(now);
    assert(final(purged)@ == old(purged)@.without_ended_grants(now));
    let at = choose|at: u128|
        {
            &&& at <= crate::clock::longest_duration()
            &&& final(swept)@ == old(swept)@.cancelled(#[trigger] old(swept)@.orphans(at, threshold))
            &&& cancelled == old(swept)@.orphans(at, threshold).len()
        };
    assert(final(swept)@ == old(swept)@.cancelled(old(swept)@.orphans(at, threshold)));
}

/// A request that is known and still pending is let through, when it is sent again,
/// exactly where a grant for the session and the shell command of its approval runs then.
pub proof fn running_grant_lets_a_known_request_through(
    registry: &mut ApprovalRegistry,
    params: RegisterApproval,
    created_at: UtcTime,
    now: u128,
    id: u128,
    outcome: RegistrationOutcome,
)
    requires
        old(registry).wf(),
        call_ensures(
            ApprovalRegistry::register_with_id,
            (registry, params, created_at, now, id),
            outcome,
        ),
        old(registry)@.by_request.contains_key(params.request_id@),
        old(registry)@.entries.contains_key(old(registry)@.by_request[params.request_id@]),
    ensures
        !outcome.is_new,
        ({
            let before = old(registry)@.entries[old(registry)@.by_request[params.request_id@]].approval;
            let command = before.tool_input.text_member("command"@);
            let key = (before.session_id, command->0);
            let runs = before.tool is Bash && command is Some && old(registry)@.grants.contains_key(key) && now < old(registry)@.grants[key];
            before.status is Pending ==> (outcome.approval.status@ is Approved <==> runs) && (
            outcome.approval.status@ is Pending <==> !runs)
        }),
{
    (*old(registry)).view_is_wf();
}

/// Taking approvals in again leaves those who listen to any other approval where they are:
/// only an approval that is taken in, under its own identifier, gets a new channel.
pub proof fn taking_in_keeps_other_listeners(
    registry: &mut ApprovalRegistry,
    approvals: Vec<Approval>,
    id: u128,
)
    requires
        old(registry).wf(),
        call_ensures(ApprovalRegistry::restore, (registry, approvals), ()),
        old(registry)@.entries.contains_key(id),
        forall|i: int|
            0 <= i < approvals@.len() && (#[trigger] approvals@[i]).id == id ==> !(
            approvals@[i].status@ is Pending),
    ensures
        final(registry).channels().contains_key(id),
        final(registry).channels()[id] == old(registry).channels()[id],
{
    let views = crate::protocol::approval::approval_views(approvals@);
    let replaced = crate::server::model::pending_in(views);
    (*old(registry)).watchers_find_the_status(id);
    assert(!replaced.contains(id)) by {
        if replaced.contains(id) {
            let i = choose|i: int|
                0 <= i < views.len() && (#[trigger] views[i]).id == id && views[i].pending();
            assert(views[i] == approvals@[i]@);
            assert(approvals@[i].id == id);
        }
    }
    assert(old(registry).channels().remove_keys(replaced).contains_key(id));
    assert(final(registry).channels().remove_keys(replaced).contains_key(id));
    assert(final(registry).channels().remove_keys(replaced)[id] == final(registry).channels()[id]);
    assert(old(registry).channels().remove_keys(replaced)[id] == old(registry).channels()[id]);
}

} // verus!
