//! The registry of approvals.

use agent_hub::clock::UtcTime;
use agent_hub::json::Json;
use agent_hub::protocol::approval::{
    Approval, ApprovalContext, ApprovalGrantDuration, ApprovalStatus, HookEventName, RequestType,
};
use agent_hub::protocol::session::SessionId;
use agent_hub::protocol::tool::Tool;
use agent_hub::server::approvals::{ApprovalRegistry, RegisterApproval, TemporaryGrantError};

/// A point of the monotonic clock.
const START: u128 = 7_000_000_000_000;

fn seconds(n: u128) -> u128 {
    n * 1_000_000_000
}

fn now() -> UtcTime {
    UtcTime { secs: 1_787_745_600, nanos: 0 }
}

fn later(t: UtcTime, secs: i64) -> UtcTime {
    UtcTime { secs: t.secs + secs, nanos: t.nanos }
}

fn command_input(command: &str) -> Json {
    Json::object1("command", Json::from_str_slice(command))
}

fn request(request_id: &str, session_id: &str, tool: Tool, command: &str) -> RegisterApproval {
    RegisterApproval {
        request_id: request_id.to_string(),
        session_id: SessionId::new(session_id),
        session_display_name: "test session".to_string(),
        project: "/workspace".to_string(),
        tool,
        tool_input: command_input(command),
        provider: "opencode".to_string(),
        request_type: RequestType::ToolUse,
        context: ApprovalContext {
            workspace_roots: vec!["/workspace".to_string()],
            hook_event_name: HookEventName::Other("test".to_string()),
            extra: None,
        },
    }
}

#[test]
fn concurrent_duplicate_request_registration_keeps_the_first_writer() {
    let mut registry = ApprovalRegistry::new();
    let first_params = request(
        "duplicate-request",
        "first-session",
        Tool::Bash,
        "first command",
    );
    let second_params = request(
        "duplicate-request",
        "second-session",
        Tool::Bash,
        "second command",
    );
    let first_result = registry.register_at(first_params, now(), START);
    let second_result = registry.register_at(second_params, now(), START);

    assert_eq!(first_result.id, second_result.id);
    assert_eq!(registry.list_pending().len(), 1);
    assert!(registry.first_pending_for_session(&SessionId::new("first-session")).is_some());
    assert!(registry.first_pending_for_session(&SessionId::new("second-session")).is_none());
    assert_eq!(first_result.session_id, SessionId::new("first-session"));
    assert_eq!(first_result.tool_input, command_input("first command"));
    assert_eq!(second_result.session_id, first_result.session_id);
    assert_eq!(second_result.tool_input, first_result.tool_input);
}

#[test]
fn matching_registration_cannot_publish_pending_after_grant_becomes_active() {
    let mut registry = ApprovalRegistry::new();
    let monotonic_now = START;
    let grant_source = registry.register_at(
        request("grant-source", "session-1", Tool::Bash, "cargo test"),
        now(),
        monotonic_now,
    );
    registry
        .resolve_with_grant_at(
            grant_source.id,
            ApprovalStatus::Approved { message: None },
            ApprovalGrantDuration::ThirtyMinutes,
            monotonic_now,
        )
        .expect("pending Bash approval should create a grant");
    let registration_result = registry.register_at(
        request("grant-match", "session-1", Tool::Bash, "cargo test"),
        now(),
        monotonic_now,
    );

    assert_eq!(
        registration_result.status,
        ApprovalStatus::Approved { message: None },
        "a registration published after its matching grant became active must not be pending"
    );
    assert_eq!(
        registry
            .get(registration_result.id)
            .expect("matching registration should be stored")
            .status,
        ApprovalStatus::Approved { message: None }
    );
}

#[test]
fn matching_registration_after_grant_is_approved() {
    let mut registry = ApprovalRegistry::new();
    let monotonic_now = START;

    let registered_before_grant = registry
        .register_at(
            request("grant-source", "session-1", Tool::Bash, "cargo test"),
            now(),
            monotonic_now,
        );
    let resolved = registry
        .resolve_with_grant_at(
            registered_before_grant.id,
            ApprovalStatus::Approved { message: None },
            ApprovalGrantDuration::ThirtyMinutes,
            monotonic_now,
        )
        .expect("pending Bash approval should create a grant");

    let registered_after_grant = registry
        .register_at(
            request("grant-match", "session-1", Tool::Bash, "cargo test"),
            now(),
            monotonic_now,
        );

    assert_eq!(resolved.status, ApprovalStatus::Approved { message: None });
    assert_eq!(
        registered_after_grant.status,
        ApprovalStatus::Approved { message: None }
    );
}

#[test]
fn matching_registration_before_grant_remains_pending() {
    let mut registry = ApprovalRegistry::new();
    let monotonic_now = START;
    let grant_source = registry
        .register_at(
            request("grant-source", "session-1", Tool::Bash, "cargo test"),
            now(),
            monotonic_now,
        );
    let registered_before_grant = registry
        .register_at(
            request("grant-match", "session-1", Tool::Bash, "cargo test"),
            now(),
            monotonic_now,
        );

    registry
        .resolve_with_grant_at(
            grant_source.id,
            ApprovalStatus::Approved { message: None },
            ApprovalGrantDuration::ThirtyMinutes,
            monotonic_now,
        )
        .expect("pending Bash approval should create a grant");

    assert_eq!(registered_before_grant.status, ApprovalStatus::Pending);
    assert_eq!(
        registry
            .get(registered_before_grant.id)
            .expect("matching registration should be stored")
            .status,
        ApprovalStatus::Pending
    );
}

#[test]
fn temporary_grant_uses_monotonic_expiry_before_at_and_after_boundary() {
    let mut registry = ApprovalRegistry::new();
    let wall_created_at = now();
    let monotonic_start = START;
    let first = registry
        .register_at(
            request("request-1", "session-1", Tool::Bash, "cargo test"),
            wall_created_at,
            monotonic_start,
        );
    registry
        .resolve_with_grant_at(
            first.id,
            ApprovalStatus::Approved { message: None },
            ApprovalGrantDuration::ThirtyMinutes,
            monotonic_start,
        )
        .unwrap();
    let expires_at = monotonic_start + seconds(30 * 60);

    let before = registry
        .register_at(
            request("request-before", "session-1", Tool::Bash, "cargo test"),
            later(wall_created_at, 31536000),
            expires_at - 1,
        );
    let at = registry
        .register_at(
            request("request-at", "session-1", Tool::Bash, "cargo test"),
            later(wall_created_at, -31536000),
            expires_at,
        );
    let after = registry
        .register_at(
            request("request-after", "session-1", Tool::Bash, "cargo test"),
            wall_created_at,
            expires_at + 1,
        );

    assert_eq!(
        before.created_at,
        later(wall_created_at, 31536000)
    );
    assert!(
        before.status.is_resolved(),
        "grant should match before expiry"
    );
    assert_eq!(at.status, ApprovalStatus::Pending);
    assert_eq!(after.status, ApprovalStatus::Pending);
}

#[test]
fn temporary_grants_are_not_restored_from_a_snapshot() {
    let mut source = ApprovalRegistry::new();
    let wall_created_at = now();
    let monotonic_start = START;
    let granted = source
        .register_at(
            request("grant-source", "session-1", Tool::Bash, "cargo test"),
            wall_created_at,
            monotonic_start,
        );
    source
        .resolve_with_grant_at(
            granted.id,
            ApprovalStatus::Approved { message: None },
            ApprovalGrantDuration::TwentyFourHours,
            monotonic_start,
        )
        .unwrap();
    source
        .register_at(
            request("persisted-pending", "session-2", Tool::Write, "ignored"),
            wall_created_at,
            monotonic_start,
        );

    let mut restored = ApprovalRegistry::new();
    restored.restore(source.snapshot());
    let matching = restored
        .register_at(
            request("after-restore", "session-1", Tool::Bash, "cargo test"),
            later(wall_created_at, 1),
            monotonic_start + seconds(1),
        );

    assert_eq!(matching.status, ApprovalStatus::Pending);
    assert_eq!(restored.list_pending().len(), 2);
}

#[test]
fn one_time_approval_does_not_create_a_grant() {
    let mut registry = ApprovalRegistry::new();
    let monotonic_now = START;
    let first = registry
        .register_at(
            request("request-1", "session-1", Tool::Bash, "cargo test"),
            now(),
            monotonic_now,
        );
    registry
        .resolve(first.id, ApprovalStatus::Approved { message: None });

    let next = registry
        .register_at(
            request("request-2", "session-1", Tool::Bash, "cargo test"),
            later(now(), 1),
            monotonic_now + seconds(1),
        );

    assert_eq!(next.status, ApprovalStatus::Pending);
}

#[test]
fn grant_matches_only_the_exact_session_and_bash_command() {
    let mut registry = ApprovalRegistry::new();
    let monotonic_now = START;
    let first = registry
        .register_at(
            request("request-1", "session-1", Tool::Bash, "cargo test"),
            now(),
            monotonic_now,
        );
    registry
        .resolve_with_grant_at(
            first.id,
            ApprovalStatus::Approved { message: None },
            ApprovalGrantDuration::ThirtyMinutes,
            monotonic_now,
        )
        .expect("Bash approval should support a temporary grant");

    let matching = registry
        .register_at(
            request("request-2", "session-1", Tool::Bash, "cargo test"),
            later(now(), 1),
            monotonic_now + seconds(1),
        );
    let other_session = registry
        .register_at(
            request("request-3", "session-2", Tool::Bash, "cargo test"),
            later(now(), 1),
            monotonic_now + seconds(1),
        );
    let other_command = registry
        .register_at(
            request("request-4", "session-1", Tool::Bash, "cargo test --all"),
            later(now(), 1),
            monotonic_now + seconds(1),
        );

    assert_eq!(matching.status, ApprovalStatus::Approved { message: None });
    assert_eq!(other_session.status, ApprovalStatus::Pending);
    assert_eq!(other_command.status, ApprovalStatus::Pending);
}

#[test]
fn grant_command_matching_is_case_and_whitespace_sensitive() {
    let mut registry = ApprovalRegistry::new();
    let monotonic_now = START;
    let first = registry
        .register_at(
            request("request-1", "session-1", Tool::Bash, "cargo test"),
            now(),
            monotonic_now,
        );
    registry
        .resolve_with_grant_at(
            first.id,
            ApprovalStatus::Approved { message: None },
            ApprovalGrantDuration::ThirtyMinutes,
            monotonic_now,
        )
        .unwrap();

    for (request_id, command) in [
        ("request-case", "Cargo test"),
        ("request-leading-space", " cargo test"),
        ("request-trailing-space", "cargo test "),
        ("request-inner-space", "cargo  test"),
    ] {
        let approval = registry
            .register_at(
                request(request_id, "session-1", Tool::Bash, command),
                later(now(), 1),
                monotonic_now + seconds(1),
            );
        assert_eq!(
            approval.status,
            ApprovalStatus::Pending,
            "command variant {command:?} must not match the grant"
        );
    }
}

#[test]
fn newer_grant_replaces_the_expiry_for_the_same_session_and_command() {
    let mut registry = ApprovalRegistry::new();
    let monotonic_now = START;
    let first = registry
        .register_at(
            request("request-1", "session-1", Tool::Bash, "cargo test"),
            now(),
            monotonic_now,
        );
    let second = registry
        .register_at(
            request("request-2", "session-1", Tool::Bash, "cargo test"),
            now(),
            monotonic_now,
        );

    registry
        .resolve_with_grant_at(
            first.id,
            ApprovalStatus::Approved { message: None },
            ApprovalGrantDuration::TwentyFourHours,
            monotonic_now,
        )
        .unwrap();
    let replacement_time = monotonic_now + seconds(60 * 60);
    registry
        .resolve_with_grant_at(
            second.id,
            ApprovalStatus::Approved { message: None },
            ApprovalGrantDuration::ThirtyMinutes,
            replacement_time,
        )
        .unwrap();

    let at_replacement_expiry = registry
        .register_at(
            request("request-3", "session-1", Tool::Bash, "cargo test"),
            later(now(), 5400),
            replacement_time + seconds(30 * 60),
        );

    assert_eq!(at_replacement_expiry.status, ApprovalStatus::Pending);
}

#[test]
fn grant_is_active_before_but_not_at_or_after_expiry() {
    let mut registry = ApprovalRegistry::new();
    let monotonic_now = START;
    let first = registry
        .register_at(
            request("request-1", "session-1", Tool::Bash, "cargo test"),
            now(),
            monotonic_now,
        );
    registry
        .resolve_with_grant_at(
            first.id,
            ApprovalStatus::Approved { message: None },
            ApprovalGrantDuration::ThirtyMinutes,
            monotonic_now,
        )
        .unwrap();
    let expires_at = monotonic_now + seconds(30 * 60);

    let before = registry
        .register_at(
            request("request-before", "session-1", Tool::Bash, "cargo test"),
            later(now(), 1800),
            expires_at - 1,
        );
    let at = registry
        .register_at(
            request("request-at", "session-1", Tool::Bash, "cargo test"),
            later(now(), 1800),
            expires_at,
        );
    let after = registry
        .register_at(
            request("request-after", "session-1", Tool::Bash, "cargo test"),
            later(now(), 1800),
            expires_at + 1,
        );

    assert!(
        before.status.is_resolved(),
        "grant should match before expiry"
    );
    assert_eq!(at.status, ApprovalStatus::Pending);
    assert_eq!(after.status, ApprovalStatus::Pending);
}

#[test]
fn purge_removes_expired_grants() {
    let mut registry = ApprovalRegistry::new();
    let monotonic_now = START;
    let first = registry
        .register_at(
            request("request-1", "session-1", Tool::Bash, "cargo test"),
            now(),
            monotonic_now,
        );
    registry
        .resolve_with_grant_at(
            first.id,
            ApprovalStatus::Approved { message: None },
            ApprovalGrantDuration::ThirtyMinutes,
            monotonic_now,
        )
        .unwrap();

    assert_eq!(
        registry
            .purge_expired_grants_at(monotonic_now + seconds(30 * 60),),
        1
    );
    assert_eq!(
        registry
            .purge_expired_grants_at(monotonic_now + seconds(60 * 60),),
        0
    );
}

#[test]
fn temporary_grant_rejects_non_bash_approvals() {
    let mut registry = ApprovalRegistry::new();
    let monotonic_now = START;
    let approval = registry
        .register_at(
            request("request-1", "session-1", Tool::Write, "ignored"),
            now(),
            monotonic_now,
        );

    registry
        .resolve_with_grant_at(
            approval.id,
            ApprovalStatus::Approved { message: None },
            ApprovalGrantDuration::OneHour,
            monotonic_now,
        )
        .expect_err("temporary grants must be Bash-only");

    assert_eq!(
        registry.get(approval.id).unwrap().status,
        ApprovalStatus::Pending
    );
}

// --- decisions ---

fn pending(registry: &mut ApprovalRegistry, request_id: &str, session_id: &str) -> Approval {
    registry.register_at(request(request_id, session_id, Tool::Bash, request_id), now(), START)
}

#[test]
fn decision_is_taken_once() {
    let mut registry = ApprovalRegistry::new();
    let approval = pending(&mut registry, "r", "s");
    let denied = registry
        .resolve(approval.id, ApprovalStatus::Denied { reason: "no".to_string() })
        .unwrap();
    assert_eq!(denied.status, ApprovalStatus::Denied { reason: "no".to_string() });
    let again = registry
        .resolve(approval.id, ApprovalStatus::Approved { message: None })
        .unwrap();
    assert_eq!(again, denied);
    assert_eq!(registry.resolve(approval.id ^ 1, ApprovalStatus::Cancelled), None);
}

#[test]
fn each_refusal_of_a_grant_has_its_reason() {
    let mut registry = ApprovalRegistry::new();
    let approved = || ApprovalStatus::Approved { message: None };
    let hour = ApprovalGrantDuration::OneHour;
    let bash = pending(&mut registry, "r1", "s");
    let write = registry.register_at(request("r2", "s", Tool::Write, "x"), now(), START);
    let mut without_command = request("r3", "s", Tool::Bash, "x");
    without_command.tool_input = Json::object1("command", Json::Bool(true));
    let without_command = registry.register_at(without_command, now(), START);

    let refusals = [
        (bash.id, ApprovalStatus::Cancelled, TemporaryGrantError::NotApproved),
        (bash.id ^ 1, approved(), TemporaryGrantError::ApprovalNotFound),
        (write.id, approved(), TemporaryGrantError::NotBash),
        (without_command.id, approved(), TemporaryGrantError::MissingCommand),
    ];
    for (id, status, refusal) in refusals {
        assert_eq!(registry.resolve_with_grant_at(id, status, hour, START), Err(refusal));
    }
    assert_eq!(registry.list_pending().len(), 3);
    registry.resolve(bash.id, ApprovalStatus::Cancelled);
    assert_eq!(
        registry.resolve_with_grant_at(bash.id, approved(), hour, START),
        Err(TemporaryGrantError::AlreadyResolved)
    );
    assert_eq!(
        TemporaryGrantError::AlreadyResolved.message(),
        "temporary grants require a pending approval decision"
    );
    assert_eq!(TemporaryGrantError::ApprovalNotFound.message(), "approval not found");
    assert_eq!(
        TemporaryGrantError::NotApproved.message(),
        "temporary grants require an approve decision"
    );
    assert_eq!(
        TemporaryGrantError::NotBash.message(),
        "temporary grants are supported only for Bash approvals"
    );
    assert_eq!(
        TemporaryGrantError::MissingCommand.message(),
        "Bash approval does not contain a string command"
    );
}

#[test]
fn pending_request_that_is_sent_again_meets_a_later_grant() {
    let mut registry = ApprovalRegistry::new();
    let source = registry.register_at(request("r1", "s", Tool::Bash, "ls"), now(), START);
    let waiting = registry.register_at(request("r2", "s", Tool::Bash, "ls"), now(), START);
    registry
        .resolve_with_grant(
            source.id,
            ApprovalStatus::Approved { message: None },
            ApprovalGrantDuration::TwoHours,
        )
        .unwrap();
    let again = registry.register_with_outcome(request("r2", "s", Tool::Bash, "ls"));
    assert!(!again.is_new);
    assert_eq!(again.approval.id, waiting.id);
    assert_eq!(again.approval.status, ApprovalStatus::Approved { message: None });
}

// --- the real clock and chance ---

#[test]
fn registrations_get_distinct_random_identifiers_and_the_present_time() {
    let mut registry = ApprovalRegistry::new();
    let one = registry.register(request("r1", "s", Tool::Bash, "ls"));
    let two = registry.register(request("r2", "s", Tool::Bash, "ls"));
    assert_ne!(one.id, two.id);
    assert_eq!((one.id >> 76) & 0xf, 4);
    assert_eq!((one.id >> 62) & 0x3, 2);
    assert!(one.created_at.secs > 1_700_000_000);
    assert!(!two.created_at.is_before(&one.created_at));
}

#[test]
fn grants_outlast_the_moment_they_are_given_in() {
    let mut registry = ApprovalRegistry::new();
    let source = registry.register(request("r1", "s", Tool::Bash, "ls"));
    registry
        .resolve_with_grant(
            source.id,
            ApprovalStatus::Approved { message: Some("go".to_string()) },
            ApprovalGrantDuration::SixHours,
        )
        .unwrap();
    assert_eq!(registry.purge_expired_grants(), 0);
    let next = registry.register(request("r2", "s", Tool::Bash, "ls"));
    assert_eq!(next.status, ApprovalStatus::Approved { message: None });
}

// --- lists ---

#[test]
fn pending_approvals_are_listed_oldest_first() {
    let mut registry = ApprovalRegistry::new();
    for (name, age) in [("b", 20), ("d", 40), ("a", 10), ("c", 30)] {
        registry.register_at(request(name, "s", Tool::Bash, name), later(now(), age), START);
    }
    let gone = registry.register_at(request("e", "s", Tool::Bash, "e"), now(), START);
    registry.resolve(gone.id, ApprovalStatus::Cancelled);
    let names: Vec<String> =
        registry.list_pending().into_iter().map(|approval| approval.request_id).collect();
    assert_eq!(names, ["a", "b", "c", "d"]);
    let first = registry.first_pending_for_session(&SessionId::new("s")).unwrap();
    assert_eq!(first.request_id, "a");
    assert_eq!(registry.first_pending_for_session(&SessionId::new("t")), None);
}

#[test]
fn snapshot_gives_back_what_is_pending() {
    let mut registry = ApprovalRegistry::new();
    let one = pending(&mut registry, "r1", "s");
    let two = pending(&mut registry, "r2", "s");
    registry.resolve(two.id, ApprovalStatus::Cancelled);
    let mut kept = registry.snapshot();
    assert_eq!(kept, [one.clone()]);
    kept.push(registry.get(two.id).unwrap());

    let mut restored = ApprovalRegistry::new();
    restored.restore(kept);
    assert_eq!(restored.get(one.id), Some(one.clone()));
    assert_eq!(restored.get(two.id), None);
    assert_eq!(pending(&mut restored, "r1", "s"), one);
    assert_eq!(restored.first_pending_for_session(&SessionId::new("s")), Some(one));
}

// --- removal ---

#[test]
fn removing_a_session_removes_its_approvals_alone() {
    let mut registry = ApprovalRegistry::new();
    let one = pending(&mut registry, "r1", "s");
    let two = pending(&mut registry, "r2", "s");
    let other = pending(&mut registry, "r3", "t");
    let watcher = registry.subscribe(one.id).unwrap();
    registry.evict_session(&SessionId::new("s"));
    assert_eq!(*watcher.borrow(), ApprovalStatus::Cancelled);
    assert_eq!(registry.get(one.id), None);
    assert_eq!(registry.get(two.id), None);
    assert_eq!(registry.get(other.id), Some(other.clone()));
    let again = pending(&mut registry, "r1", "s");
    assert_ne!(again.id, one.id);
}

#[test]
fn cancelling_a_session_keeps_its_approvals_and_tells_watchers() {
    let mut registry = ApprovalRegistry::new();
    let one = pending(&mut registry, "r1", "s");
    let two = pending(&mut registry, "r2", "s");
    let other = pending(&mut registry, "r3", "t");
    registry.resolve(two.id, ApprovalStatus::Approved { message: None });
    let watchers = [one.id, two.id, other.id].map(|id| registry.subscribe(id).unwrap());
    registry.cancel_session(&SessionId::new("s"));
    let expected = [
        ApprovalStatus::Cancelled,
        ApprovalStatus::Approved { message: None },
        ApprovalStatus::Pending,
    ];
    for (watcher, status) in watchers.iter().zip(&expected) {
        assert_eq!(*watcher.borrow(), *status);
    }
    for (id, status) in [one.id, two.id, other.id].into_iter().zip(expected) {
        assert_eq!(registry.get(id).unwrap().status, status);
    }
}

#[test]
fn removed_approvals_leave_watchers_with_how_they_ended() {
    let mut registry = ApprovalRegistry::new();
    let one = pending(&mut registry, "r1", "s");
    let two = pending(&mut registry, "r2", "s");
    registry.resolve(two.id, ApprovalStatus::Denied { reason: "no".to_string() });
    let first = registry.subscribe(one.id).unwrap();
    let second = registry.subscribe(two.id).unwrap();
    registry.evict_session(&SessionId::new("s"));
    assert_eq!(*first.borrow(), ApprovalStatus::Cancelled);
    assert_eq!(*second.borrow(), ApprovalStatus::Denied { reason: "no".to_string() });
    assert!(first.has_changed().is_err());
    registry.evict_session(&SessionId::new("unknown"));
}

#[test]
fn an_identifier_given_out_twice_counts_for_its_last_session() {
    let mut registry = ApprovalRegistry::new();
    let mut first = pending(&mut registry, "r1", "s");
    first.session_id = SessionId::new("t");
    first.request_id = "r2".to_string();
    registry.restore(vec![first.clone()]);
    assert_eq!(registry.first_pending_for_session(&SessionId::new("s")), None);
    assert_eq!(registry.first_pending_for_session(&SessionId::new("t")), Some(first.clone()));
    registry.evict_session(&SessionId::new("s"));
    assert_eq!(registry.get(first.id), Some(first.clone()));
    registry.evict_session(&SessionId::new("t"));
    assert_eq!(registry.get(first.id), None);
}

#[test]
fn a_snapshot_comes_back_from_the_registry_that_took_it_in() {
    let mut registry = ApprovalRegistry::new();
    let one = pending(&mut registry, "r1", "s");
    let mut two = one.clone();
    two.id = 2;
    two.request_id = "r2".to_string();
    two.created_at.secs -= 1;
    registry.restore(vec![two.clone()]);
    let snapshot = registry.snapshot();
    assert_eq!(snapshot, vec![two, one]);
    let mut decided = snapshot[0].clone();
    decided.id = 3;
    decided.status = ApprovalStatus::Cancelled;
    let mut kept = snapshot.clone();
    kept.insert(1, decided);
    let mut back = ApprovalRegistry::new();
    back.restore(kept);
    assert_eq!(back.snapshot(), snapshot);
    assert_eq!(back.get(3), None);
    assert_eq!(back.evict_orphaned_at(u128::MAX, 0), 0);
}

#[test]
fn approvals_that_no_gateway_polls_for_are_cancelled() {
    let mut registry = ApprovalRegistry::new();
    let silent = pending(&mut registry, "silent", "s");
    let lost = pending(&mut registry, "lost", "s");
    let kept = pending(&mut registry, "kept", "s");
    registry.touch_at(lost.id, START);
    registry.touch_at(kept.id, START + 1);
    registry.touch_at(lost.id ^ 1, START);
    let threshold = seconds(120);
    assert_eq!(registry.evict_orphaned_at(START + threshold, threshold), 0);
    assert_eq!(registry.evict_orphaned_at(START + threshold + 1, threshold), 1);
    assert_eq!(registry.evict_orphaned_at(START + threshold + 1, threshold), 0);
    assert_eq!(registry.get(lost.id).unwrap().status, ApprovalStatus::Cancelled);
    assert_eq!(registry.get(kept.id).unwrap().status, ApprovalStatus::Pending);
    assert_eq!(registry.get(silent.id).unwrap().status, ApprovalStatus::Pending);
}

#[test]
fn what_was_just_polled_for_is_not_orphaned() {
    let mut registry = ApprovalRegistry::new();
    let approval = pending(&mut registry, "r", "s");
    registry.touch(approval.id);
    assert_eq!(registry.evict_orphaned(seconds(3600)), 0);
    assert_eq!(registry.get(approval.id).unwrap().status, ApprovalStatus::Pending);
}

// --- watchers ---

#[test]
fn watchers_see_the_status_and_its_change() {
    let mut registry = ApprovalRegistry::new();
    let approval = pending(&mut registry, "r", "s");
    let watcher = registry.subscribe(approval.id).unwrap();
    assert_eq!(*watcher.borrow(), ApprovalStatus::Pending);
    assert!(!watcher.has_changed().unwrap());
    registry.resolve(approval.id, ApprovalStatus::Denied { reason: "no".to_string() });
    assert!(watcher.has_changed().unwrap());
    assert_eq!(*watcher.borrow(), ApprovalStatus::Denied { reason: "no".to_string() });
    assert!(registry.subscribe(approval.id ^ 1).is_none());
}

#[test]
fn watchers_outlast_what_is_done_to_other_approvals() {
    let mut registry = ApprovalRegistry::new();
    let one = pending(&mut registry, "r1", "s");
    let watcher = registry.subscribe(one.id).unwrap();
    let mut other = pending(&mut registry, "r2", "t");
    other.id ^= 1;
    registry.restore(vec![other]);
    registry.evict_session(&SessionId::new("t"));
    assert!(!watcher.has_changed().unwrap());
    registry.resolve(one.id, ApprovalStatus::Cancelled);
    assert!(watcher.has_changed().unwrap());
    assert_eq!(*watcher.borrow(), ApprovalStatus::Cancelled);
}

#[test]
fn who_subscribes_after_the_decision_is_told_it() {
    let mut registry = ApprovalRegistry::new();
    let approval = pending(&mut registry, "r", "s");
    registry.resolve(approval.id, ApprovalStatus::Approved { message: None });
    let watcher = registry.subscribe(approval.id).unwrap();
    assert_eq!(*watcher.borrow(), ApprovalStatus::Approved { message: None });
    assert!(!watcher.has_changed().unwrap());
}
