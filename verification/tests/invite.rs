use matrix_ctf_bot::invite::{
    join_retry_init, join_retry_step, on_stripped_state_member, InviteDecision, JoinRetryState,
    Room, RoomKind, StrippedMemberEvent,
};

fn room(id: &str, kind: RoomKind, is_space: bool) -> Room {
    Room { room_id: String::from(id), kind, is_space }
}

fn event_for(state_key: &str) -> StrippedMemberEvent {
    StrippedMemberEvent { state_key: String::from(state_key) }
}

const SELF_USER: &str = "@bot:example.org";
const ROOT: &str = "!root:example.org";

#[test]
fn foreign_membership_change_is_ignored() {
    // The stripped membership event names a different user: the handler
    // decides to do nothing at all, whatever the room looks like.
    let me = String::from(SELF_USER);
    let root = String::from(ROOT);
    let decision = on_stripped_state_member(
        &event_for("@someone-else:example.org"),
        &me,
        &room(ROOT, RoomKind::Invited, true),
        &root,
    );
    assert_eq!(decision, InviteDecision::Ignore);
}

#[test]
fn non_space_invitation_spawns_nothing() {
    let me = String::from(SELF_USER);
    let root = String::from(ROOT);
    let decision = on_stripped_state_member(
        &event_for(SELF_USER),
        &me,
        &room("!dm:example.org", RoomKind::Invited, false),
        &root,
    );
    assert_eq!(decision, InviteDecision::Ignore);
}

#[test]
fn space_invitation_spawns_join_retry() {
    let me = String::from(SELF_USER);
    let root = String::from(ROOT);
    let decision = on_stripped_state_member(
        &event_for(SELF_USER),
        &me,
        &room("!space:example.org", RoomKind::Invited, true),
        &root,
    );
    assert_eq!(decision, InviteDecision::SpawnJoinRetry { is_root_space: false });
}

#[test]
fn root_space_invitation_is_flagged_as_root() {
    let me = String::from(SELF_USER);
    let root = String::from(ROOT);
    let decision = on_stripped_state_member(
        &event_for(SELF_USER),
        &me,
        &room(ROOT, RoomKind::Invited, true),
        &root,
    );
    assert_eq!(decision, InviteDecision::SpawnJoinRetry { is_root_space: true });
}

#[test]
fn already_joined_room_is_ignored() {
    let me = String::from(SELF_USER);
    let root = String::from(ROOT);
    let decision = on_stripped_state_member(
        &event_for(SELF_USER),
        &me,
        &room("!space:example.org", RoomKind::Joined, true),
        &root,
    );
    assert_eq!(decision, InviteDecision::Ignore);
}

#[test]
fn left_room_is_ignored() {
    let me = String::from(SELF_USER);
    let root = String::from(ROOT);
    let decision = on_stripped_state_member(
        &event_for(SELF_USER),
        &me,
        &room("!space:example.org", RoomKind::Left, true),
        &root,
    );
    assert_eq!(decision, InviteDecision::Ignore);
}

#[test]
fn retry_starts_with_two_seconds() {
    assert_eq!(join_retry_init(), JoinRetryState::Trying { delay_secs: 2 });
}

#[test]
fn two_failures_then_success_sleep_two_and_four_seconds() {
    // First two accept attempts fail, the third succeeds: the task sleeps
    // 2 s then 4 s between attempts, ends joined, and is never abandoned.
    let mut state = join_retry_init();
    let mut sleeps: Vec<u64> = Vec::new();
    for accepted in [false, false, true] {
        assert!(matches!(state, JoinRetryState::Trying { .. }));
        let (next, sleep) = join_retry_step(state, accepted);
        if let Some(secs) = sleep {
            sleeps.push(secs);
        }
        state = next;
    }
    assert_eq!(sleeps, vec![2, 4]);
    assert_eq!(state, JoinRetryState::Joined);
}

#[test]
fn endless_failure_backs_off_to_the_ceiling_then_abandons() {
    // Acceptance fails indefinitely: the task sleeps 2, 4, 8, ..., 2048
    // seconds, then abandons because the next computed delay (4096 s)
    // exceeds the one-hour ceiling, and issues no further attempt.
    let mut state = join_retry_init();
    let mut sleeps: Vec<u64> = Vec::new();
    let mut attempts: u32 = 0;
    while let JoinRetryState::Trying { .. } = state {
        attempts += 1;
        let (next, sleep) = join_retry_step(state, false);
        if let Some(secs) = sleep {
            sleeps.push(secs);
        }
        state = next;
    }
    assert_eq!(sleeps, vec![2, 4, 8, 16, 32, 64, 128, 256, 512, 1024, 2048]);
    assert_eq!(state, JoinRetryState::Abandoned);
    // One attempt before each slept delay; the abandonment follows the last
    // sleep without another attempt.
    assert_eq!(attempts, 11);
}

#[test]
fn success_on_first_attempt_never_sleeps() {
    let (state, sleep) = join_retry_step(join_retry_init(), true);
    assert_eq!(state, JoinRetryState::Joined);
    assert_eq!(sleep, None);
}
