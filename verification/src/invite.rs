//! The invitation handler: decides, for each stripped-state membership event
//! the sync loop observes, whether the bot should accept the invitation, and
//! drives the bounded exponential-backoff retry that acceptance uses.
//!
//! Accepting an invitation is a network call made elsewhere; here stand the
//! decisions. The retry procedure is a small state machine: the caller
//! attempts the acceptance, reports success or failure to [`join_retry_step`],
//! sleeps for the returned delay, and repeats until the machine reaches a
//! terminal state.

use vstd::prelude::*;

verus! {

/// Which kind of membership the bot currently has in a room.
#[derive(Clone, Copy, Debug, PartialEq, Eq)]
pub enum RoomKind {
    Invited,
    Joined,
    Left,
}

/// What the core reads of a room: its protocol-level ID, the membership
/// kind, and whether the room is a space.
#[derive(Clone, Debug)]
pub struct Room {
    pub room_id: String,
    pub kind: RoomKind,
    pub is_space: bool,
}

/// What the core reads of a stripped-state membership event: the user the
/// membership change concerns.
#[derive(Clone, Debug)]
pub struct StrippedMemberEvent {
    pub state_key: String,
}

/// What the invitation handler decides for one observed event.
#[derive(Clone, Copy, Debug, PartialEq, Eq)]
pub enum InviteDecision {
    /// Spawn an independent join-with-retry task for this room.
    /// `is_root_space` records, for observability only, whether the invited
    /// room is the configured root space; it never changes the join behaviour.
    SpawnJoinRetry { is_root_space: bool },
    /// Do nothing: the event is not an invitation addressed to the bot.
    Ignore,
}

/// An invitation is acted on exactly when the membership change concerns the
/// bot itself, the bot is invited (not already joined or left), and the room
/// is a space.
pub open spec fn should_spawn_join(
    state_key: Seq<char>,
    self_user_id: Seq<char>,
    kind: RoomKind,
    is_space: bool,
) -> bool {
    &&& state_key == self_user_id
    &&& kind is Invited
    &&& is_space
}

/// Decides what to do with one stripped-state membership event.
///
/// A join task is spawned if and only if the event's `state_key` is the
/// bot's own user ID, the room is in the invited state, and the room is a
/// space; every other event is ignored.
pub fn on_stripped_state_member(
    event: &StrippedMemberEvent,
    self_user_id: &String,
    room: &Room,
    root_room_id: &String,
) -> (d: InviteDecision)
    ensures
        d is SpawnJoinRetry <==> should_spawn_join(
            event.state_key@,
            self_user_id@,
            room.kind,
            room.is_space,
        ),
        d matches InviteDecision::SpawnJoinRetry { is_root_space } ==> is_root_space == (
        room.room_id@ == root_room_id@),
{
    if event.state_key.eq(self_user_id) {
        match room.kind {
            RoomKind::Invited => {
                if room.is_space {
                    let is_root_space = room.room_id.eq(root_room_id);
                    InviteDecision::SpawnJoinRetry { is_root_space }
                } else {
                    InviteDecision::Ignore
                }
            },
            RoomKind::Joined => InviteDecision::Ignore,
            RoomKind::Left => InviteDecision::Ignore,
        }
    } else {
        InviteDecision::Ignore
    }
}

/// A membership change for a different user never triggers a join attempt,
/// whatever the room looks like.
pub proof fn lemma_foreign_membership_ignored(
    state_key: Seq<char>,
    self_user_id: Seq<char>,
    kind: RoomKind,
    is_space: bool,
)
    requires
        state_key != self_user_id,
    ensures
        !should_spawn_join(state_key, self_user_id, kind, is_space),
{
}

/// An invitation to a room that is not a space never triggers a join
/// attempt, whoever it is addressed to.
pub proof fn lemma_non_space_invitation_ignored(
    state_key: Seq<char>,
    self_user_id: Seq<char>,
    kind: RoomKind,
    is_space: bool,
)
    requires
        !is_space,
    ensures
        !should_spawn_join(state_key, self_user_id, kind, is_space),
{
}

/// First delay slept after a failed acceptance, in seconds.
pub const INITIAL_DELAY_SECS: u64 = 2;

/// Ceiling on the backoff: once the delay computed for the next wait exceeds
/// this, the room is reported permanently unjoinable and retrying stops.
pub const MAX_DELAY_SECS: u64 = 3600;

/// State of one join-with-retry task.
#[derive(Clone, Copy, Debug, PartialEq, Eq)]
pub enum JoinRetryState {
    /// Still trying; on the next failure the task sleeps `delay_secs` before
    /// attempting again.
    Trying { delay_secs: u64 },
    /// The invitation was accepted.
    Joined,
    /// The backoff ceiling was reached; the room is given up on.
    Abandoned,
}

/// Every reachable `Trying` state keeps its delay between the initial value
/// and the ceiling, so doubling it never overflows.
pub open spec fn join_retry_wf(s: JoinRetryState) -> bool {
    s matches JoinRetryState::Trying { delay_secs } ==> INITIAL_DELAY_SECS <= delay_secs
        <= MAX_DELAY_SECS
}

/// The transition of the retry machine, as a mathematical function: given the
/// current state and whether the acceptance attempt succeeded, yields the next
/// state and how long to sleep before the next attempt (`None` when the
/// machine is done). Terminal states stay put.
pub open spec fn join_retry_step_model(s: JoinRetryState, accepted: bool) -> (JoinRetryState, Option<
    u64,
>) {
    match s {
        JoinRetryState::Trying { delay_secs } => {
            if accepted {
                (JoinRetryState::Joined, None)
            } else if 2 * delay_secs > MAX_DELAY_SECS {
                (JoinRetryState::Abandoned, Some(delay_secs))
            } else {
                (
                    JoinRetryState::Trying { delay_secs: (2 * delay_secs) as u64 },
                    Some(delay_secs),
                )
            }
        },
        _ => (s, None),
    }
}

/// Entry state of a join-with-retry task: about to make its first attempt,
/// with the initial backoff delay on deck.
pub fn join_retry_init() -> (s: JoinRetryState)
    ensures
        s == (JoinRetryState::Trying { delay_secs: INITIAL_DELAY_SECS }),
        join_retry_wf(s),
{
    JoinRetryState::Trying { delay_secs: INITIAL_DELAY_SECS }
}

/// Advances the retry machine after one acceptance attempt.
///
/// On success the task is `Joined` and sleeps no more. On failure the task
/// sleeps the current delay and doubles it for the next round, unless the
/// doubled delay would exceed the ceiling, in which case the room is
/// abandoned after the sleep and no further attempt is made.
pub fn join_retry_step(state: JoinRetryState, accepted: bool) -> (r: (JoinRetryState, Option<u64>))
    requires
        state is Trying,
        join_retry_wf(state),
    ensures
        r == join_retry_step_model(state, accepted),
        join_retry_wf(r.0),
{
    match state {
        JoinRetryState::Trying { delay_secs } => {
            if accepted {
                (JoinRetryState::Joined, None)
            } else {
                let doubled = 2 * delay_secs;
                if doubled > MAX_DELAY_SECS {
                    (JoinRetryState::Abandoned, Some(delay_secs))
                } else {
                    (JoinRetryState::Trying { delay_secs: doubled }, Some(delay_secs))
                }
            }
        },
        JoinRetryState::Joined => (state, None),
        JoinRetryState::Abandoned => (state, None),
    }
}

/// The delay slept after the `n`-th consecutive failure (counting from 0):
/// 2, 4, 8, 16, ... seconds, doubling with each failure.
pub open spec fn backoff_delay(n: nat) -> int
    decreases n,
{
    if n == 0 {
        INITIAL_DELAY_SECS as int
    } else {
        2 * backoff_delay((n - 1) as nat)
    }
}

/// State of the retry machine after `n` consecutive failed attempts from the
/// entry state.
pub open spec fn state_after_failures(n: nat) -> JoinRetryState
    decreases n,
{
    if n == 0 {
        JoinRetryState::Trying { delay_secs: INITIAL_DELAY_SECS }
    } else {
        join_retry_step_model(state_after_failures((n - 1) as nat), false).0
    }
}

/// The backoff sequence is deterministic and strictly monotonic: each delay
/// is exactly double its predecessor, so the sequence is 2, 4, 8, 16, ...
/// seconds, and it never falls below the initial delay.
pub proof fn lemma_backoff_monotonic(n: nat)
    ensures
        backoff_delay(n + 1) == 2 * backoff_delay(n),
        backoff_delay(n) < backoff_delay(n + 1),
        backoff_delay(n) >= INITIAL_DELAY_SECS,
    decreases n,
{
    if n > 0 {
        lemma_backoff_monotonic((n - 1) as nat);
    }
}

/// Exact shape of every run of consecutive failures: while the delay for the
/// `n`-th failure is within the ceiling, the machine is still trying and the
/// delay it sleeps on the next failure is exactly `backoff_delay(n)`; as soon
/// as the computed delay exceeds the ceiling, the machine is abandoned — and
/// stays so, so no attempt is ever issued once the pre-attempt delay would
/// exceed the ceiling.
pub proof fn lemma_backoff_sequence(n: nat)
    ensures
        backoff_delay(n) <= MAX_DELAY_SECS ==> state_after_failures(n) == (JoinRetryState::Trying {
            delay_secs: backoff_delay(n) as u64,
        }),
        backoff_delay(n) > MAX_DELAY_SECS ==> state_after_failures(n) is Abandoned,
        state_after_failures(n) is Trying ==> join_retry_step_model(
            state_after_failures(n),
            false,
        ).1 == Some(backoff_delay(n) as u64),
    decreases n,
{
    lemma_backoff_monotonic(n);
    if n > 0 {
        lemma_backoff_monotonic((n - 1) as nat);
        lemma_backoff_sequence((n - 1) as nat);
    }
}

} // verus!
