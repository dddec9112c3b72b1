//! The bootstrap sequencer: connect, authenticate, initial sync, root-space
//! membership enforcement, then the continuous sync loop.
//!
//! Every step is a network or client operation made elsewhere; the sequencer
//! here is the verified state machine that orders them. The caller performs
//! the [`Action`] returned by each step, observes the outcome, and feeds it
//! back as the next [`Event`]. The machine guarantees the ordering the
//! protocol needs: the invitation handler is registered before the initial
//! sync, the message router only after the root space is joined, the root
//! space is joined exactly when it is missing from the joined-rooms list, and
//! the continuation token handed to the continuous sync is exactly the token
//! the initial sync returned.

use vstd::prelude::*;

verus! {

/// Where the bootstrap currently stands. Phases that follow the initial sync
/// carry the continuation token it returned.
#[derive(Clone, Debug, PartialEq, Eq)]
pub enum Phase {
    /// Waiting for the connection to the homeserver.
    Connecting,
    /// Waiting for authentication.
    LoggingIn,
    /// Waiting for the invitation handler to be registered. This happens
    /// before any sync call, so invitations observed during the initial sync
    /// are already routed.
    RegisteringInviteHandler,
    /// Waiting for the one initial sync call.
    InitialSyncing,
    /// Waiting for the joined-rooms list.
    ListingRooms { sync_token: String },
    /// The root space was missing; waiting for the explicit join by ID.
    JoiningRoot { sync_token: String },
    /// Waiting for the message router to be registered. This happens only
    /// after the root-space join, so join-triggered synthetic events are not
    /// misrouted as ordinary messages.
    RegisteringMessageRouter { sync_token: String },
    /// Inside the continuous sync loop; it blocks until a fatal error.
    Syncing { sync_token: String },
    /// A fatal error ended the bootstrap; the process reports and exits.
    Stopped,
}

/// What the caller observed after performing the last action.
#[derive(Clone, Debug, PartialEq, Eq)]
pub enum Event {
    Connected,
    ConnectFailed,
    LoggedIn,
    LoginFailed,
    InviteHandlerRegistered,
    InitialSynced { sync_token: String },
    InitialSyncFailed,
    RoomsListed { joined_room_ids: Vec<String> },
    RootJoined,
    RootJoinFailed,
    MessageRouterRegistered,
    SyncStopped,
}

/// What the caller must do next.
#[derive(Clone, Debug, PartialEq, Eq)]
pub enum Action {
    /// Connect to the configured homeserver.
    Connect,
    /// Authenticate with the configured credentials.
    LogIn,
    /// Register the invitation handler and its session-state context.
    RegisterInviteHandler,
    /// Perform exactly one initial sync with default settings.
    SyncOnce,
    /// Enumerate the rooms the bot has joined.
    ListJoinedRooms,
    /// Join the configured root space by its room ID.
    JoinRoot,
    /// Register the message router.
    RegisterMessageRouter,
    /// Enter the continuous sync loop with this continuation token.
    SyncForever { sync_token: String },
    /// Report the fatal error and exit.
    ReportFatal,
}

/// Ghost counterpart of [`Phase`], over mathematical strings.
pub enum PhaseModel {
    Connecting,
    LoggingIn,
    RegisteringInviteHandler,
    InitialSyncing,
    ListingRooms { sync_token: Seq<char> },
    JoiningRoot { sync_token: Seq<char> },
    RegisteringMessageRouter { sync_token: Seq<char> },
    Syncing { sync_token: Seq<char> },
    Stopped,
}

/// Ghost counterpart of [`Event`].
pub enum EventModel {
    Connected,
    ConnectFailed,
    LoggedIn,
    LoginFailed,
    InviteHandlerRegistered,
    InitialSynced { sync_token: Seq<char> },
    InitialSyncFailed,
    RoomsListed { joined_room_ids: Seq<Seq<char>> },
    RootJoined,
    RootJoinFailed,
    MessageRouterRegistered,
    SyncStopped,
}

/// Ghost counterpart of [`Action`].
pub enum ActionModel {
    Connect,
    LogIn,
    RegisterInviteHandler,
    SyncOnce,
    ListJoinedRooms,
    JoinRoot,
    RegisterMessageRouter,
    SyncForever { sync_token: Seq<char> },
    ReportFatal,
}

impl View for Phase {
    type V = PhaseModel;

    open spec fn view(&self) -> PhaseModel {
        match self {
            Phase::Connecting => PhaseModel::Connecting,
            Phase::LoggingIn => PhaseModel::LoggingIn,
            Phase::RegisteringInviteHandler => PhaseModel::RegisteringInviteHandler,
            Phase::InitialSyncing => PhaseModel::InitialSyncing,
            Phase::ListingRooms { sync_token } => (PhaseModel::ListingRooms {
                sync_token: sync_token@,
            }),
            Phase::JoiningRoot { sync_token } => (PhaseModel::JoiningRoot {
                sync_token: sync_token@,
            }),
            Phase::RegisteringMessageRouter { sync_token } => (PhaseModel::RegisteringMessageRouter {
                sync_token: sync_token@,
            }),
            Phase::Syncing { sync_token } => (PhaseModel::Syncing { sync_token: sync_token@ }),
            Phase::Stopped => PhaseModel::Stopped,
        }
    }
}

impl View for Event {
    type V = EventModel;

    open spec fn view(&self) -> EventModel {
        match self {
            Event::Connected => EventModel::Connected,
            Event::ConnectFailed => EventModel::ConnectFailed,
            Event::LoggedIn => EventModel::LoggedIn,
            Event::LoginFailed => EventModel::LoginFailed,
            Event::InviteHandlerRegistered => EventModel::InviteHandlerRegistered,
            Event::InitialSynced { sync_token } => (EventModel::InitialSynced {
                sync_token: sync_token@,
            }),
            Event::InitialSyncFailed => EventModel::InitialSyncFailed,
            Event::RoomsListed { joined_room_ids } => (EventModel::RoomsListed {
                joined_room_ids: Seq::new(
                    joined_room_ids@.len(),
                    |i: int| joined_room_ids@[i]@,
                ),
            }),
            Event::RootJoined => EventModel::RootJoined,
            Event::RootJoinFailed => EventModel::RootJoinFailed,
            Event::MessageRouterRegistered => EventModel::MessageRouterRegistered,
            Event::SyncStopped => EventModel::SyncStopped,
        }
    }
}

impl View for Action {
    type V = ActionModel;

    open spec fn view(&self) -> ActionModel {
        match self {
            Action::Connect => ActionModel::Connect,
            Action::LogIn => ActionModel::LogIn,
            Action::RegisterInviteHandler => ActionModel::RegisterInviteHandler,
            Action::SyncOnce => ActionModel::SyncOnce,
            Action::ListJoinedRooms => ActionModel::ListJoinedRooms,
            Action::JoinRoot => ActionModel::JoinRoot,
            Action::RegisterMessageRouter => ActionModel::RegisterMessageRouter,
            Action::SyncForever { sync_token } => (ActionModel::SyncForever {
                sync_token: sync_token@,
            }),
            Action::ReportFatal => ActionModel::ReportFatal,
        }
    }
}

/// The transition of the bootstrap machine, as a mathematical function of the
/// current phase, the observed event and the configured root-space room ID.
/// Any event a phase does not expect is treated as fatal.
pub open spec fn step_model(p: PhaseModel, e: EventModel, root_room_id: Seq<char>) -> (
    PhaseModel,
    ActionModel,
) {
    match (p, e) {
        (PhaseModel::Connecting, EventModel::Connected) => (
            PhaseModel::LoggingIn,
            ActionModel::LogIn,
        ),
        (PhaseModel::LoggingIn, EventModel::LoggedIn) => (
            PhaseModel::RegisteringInviteHandler,
            ActionModel::RegisterInviteHandler,
        ),
        (PhaseModel::RegisteringInviteHandler, EventModel::InviteHandlerRegistered) => (
            PhaseModel::InitialSyncing,
            ActionModel::SyncOnce,
        ),
        (PhaseModel::InitialSyncing, EventModel::InitialSynced { sync_token }) => (
            PhaseModel::ListingRooms { sync_token },
            ActionModel::ListJoinedRooms,
        ),
        (
            PhaseModel::ListingRooms { sync_token },
            EventModel::RoomsListed { joined_room_ids },
        ) => if joined_room_ids.contains(root_room_id) {
            (
                PhaseModel::RegisteringMessageRouter { sync_token },
                ActionModel::RegisterMessageRouter,
            )
        } else {
            (PhaseModel::JoiningRoot { sync_token }, ActionModel::JoinRoot)
        },
        (PhaseModel::JoiningRoot { sync_token }, EventModel::RootJoined) => (
            PhaseModel::RegisteringMessageRouter { sync_token },
            ActionModel::RegisterMessageRouter,
        ),
        (PhaseModel::RegisteringMessageRouter { sync_token }, EventModel::MessageRouterRegistered) => (
            PhaseModel::Syncing { sync_token },
            ActionModel::SyncForever { sync_token },
        ),
        _ => (PhaseModel::Stopped, ActionModel::ReportFatal),
    }
}

/// Entry point of the bootstrap: the first action is to connect.
pub fn bootstrap_init() -> (r: (Phase, Action))
    ensures
        r.0@ == PhaseModel::Connecting,
        r.1@ == ActionModel::Connect,
{
    (Phase::Connecting, Action::Connect)
}

/// Whether `room_ids` holds a room whose ID is `room_id`.
fn rooms_contain(room_ids: &Vec<String>, room_id: &String) -> (r: bool)
    ensures
        r == Seq::new(room_ids@.len(), |i: int| room_ids@[i]@).contains(room_id@),
{
    let ghost ids = Seq::new(room_ids@.len(), |i: int| room_ids@[i]@);
    let mut j: usize = 0;
    while j < room_ids.len()
        invariant
            j <= room_ids@.len(),
            ids == Seq::new(room_ids@.len(), |i: int| room_ids@[i]@),
            forall|k: int| 0 <= k < j ==> ids[k] != room_id@,
        decreases room_ids@.len() - j,
    {
        if room_ids[j].eq(room_id) {
            assert(ids[j as int] == room_id@);
            return true;
        }
        j += 1;
    }
    false
}

/// Advances the bootstrap machine by one observed event.
pub fn step(phase: Phase, event: Event, root_room_id: &String) -> (r: (Phase, Action))
    ensures
        (r.0@, r.1@) == step_model(phase@, event@, root_room_id@),
{
    match (phase, event) {
        (Phase::Connecting, Event::Connected) => (Phase::LoggingIn, Action::LogIn),
        (Phase::LoggingIn, Event::LoggedIn) => (
            Phase::RegisteringInviteHandler,
            Action::RegisterInviteHandler,
        ),
        (Phase::RegisteringInviteHandler, Event::InviteHandlerRegistered) => (
            Phase::InitialSyncing,
            Action::SyncOnce,
        ),
        (Phase::InitialSyncing, Event::InitialSynced { sync_token }) => (
            Phase::ListingRooms { sync_token },
            Action::ListJoinedRooms,
        ),
        (Phase::ListingRooms { sync_token }, Event::RoomsListed { joined_room_ids }) => {
            if rooms_contain(&joined_room_ids, root_room_id) {
                (
                    Phase::RegisteringMessageRouter { sync_token },
                    Action::RegisterMessageRouter,
                )
            } else {
                (Phase::JoiningRoot { sync_token }, Action::JoinRoot)
            }
        },
        (Phase::JoiningRoot { sync_token }, Event::RootJoined) => (
            Phase::RegisteringMessageRouter { sync_token },
            Action::RegisterMessageRouter,
        ),
        (Phase::RegisteringMessageRouter { sync_token }, Event::MessageRouterRegistered) => {
            let token_for_sync = sync_token.clone();
            (
                Phase::Syncing { sync_token },
                Action::SyncForever { sync_token: token_for_sync },
            )
        },
        (_, _) => (Phase::Stopped, Action::ReportFatal),
    }
}

/// The continuation token a phase carries, if any.
pub open spec fn phase_token(p: PhaseModel) -> Option<Seq<char>> {
    match p {
        PhaseModel::ListingRooms { sync_token } => Some(sync_token),
        PhaseModel::JoiningRoot { sync_token } => Some(sync_token),
        PhaseModel::RegisteringMessageRouter { sync_token } => Some(sync_token),
        PhaseModel::Syncing { sync_token } => Some(sync_token),
        _ => None,
    }
}

/// The sync token is threaded, never stale and never skipped: the continuous
/// sync is always started with exactly the token its phase carries, a phase
/// acquires a token only from the initial sync's result, and every later step
/// passes the token on unchanged.
pub proof fn lemma_sync_token_threading(p: PhaseModel, e: EventModel, root_room_id: Seq<char>)
    ensures
        step_model(p, e, root_room_id).1 matches ActionModel::SyncForever { sync_token }
            ==> phase_token(p) == Some(sync_token),
        phase_token(step_model(p, e, root_room_id).0) matches Some(t) ==> ((
        e matches EventModel::InitialSynced { sync_token } && t == sync_token) || phase_token(p)
            == Some(t)),
{
}

/// The explicit join of the root space is issued if and only if the root
/// space is missing from the joined-rooms list; when it is already there,
/// the bootstrap moves straight on.
pub proof fn lemma_root_join_exactly_when_missing(
    t: Seq<char>,
    ids: Seq<Seq<char>>,
    root_room_id: Seq<char>,
)
    ensures
        ids.contains(root_room_id) ==> step_model(
            PhaseModel::ListingRooms { sync_token: t },
            EventModel::RoomsListed { joined_room_ids: ids },
            root_room_id,
        ) == (
            PhaseModel::RegisteringMessageRouter { sync_token: t },
            ActionModel::RegisterMessageRouter,
        ),
        !ids.contains(root_room_id) ==> step_model(
            PhaseModel::ListingRooms { sync_token: t },
            EventModel::RoomsListed { joined_room_ids: ids },
            root_room_id,
        ) == (PhaseModel::JoiningRoot { sync_token: t }, ActionModel::JoinRoot),
{
}

/// The whole bootstrap, composed: from the first connection to the start of
/// the continuous sync, the machine walks the protocol in order — connect,
/// log in, register the invitation handler, one initial sync, list the
/// joined rooms, join the root space exactly when (and only when) it is
/// missing, register the message router, and finally start the continuous
/// sync with exactly the token the initial sync returned. The join action
/// occurs at most once in the run, and only on the missing-root branch.
pub proof fn lemma_bootstrap_pipeline(t: Seq<char>, ids: Seq<Seq<char>>, root_room_id: Seq<char>)
    ensures
        ({
            let s1 = step_model(PhaseModel::Connecting, EventModel::Connected, root_room_id);
            let s2 = step_model(s1.0, EventModel::LoggedIn, root_room_id);
            let s3 = step_model(s2.0, EventModel::InviteHandlerRegistered, root_room_id);
            let s4 = step_model(
                s3.0,
                EventModel::InitialSynced { sync_token: t },
                root_room_id,
            );
            let s5 = step_model(
                s4.0,
                EventModel::RoomsListed { joined_room_ids: ids },
                root_room_id,
            );
            let s6 = step_model(s5.0, EventModel::RootJoined, root_room_id);
            &&& s1 == (PhaseModel::LoggingIn, ActionModel::LogIn)
            &&& s2 == (
                PhaseModel::RegisteringInviteHandler,
                ActionModel::RegisterInviteHandler,
            )
            &&& s3 == (PhaseModel::InitialSyncing, ActionModel::SyncOnce)
            &&& s4 == (
                PhaseModel::ListingRooms { sync_token: t },
                ActionModel::ListJoinedRooms,
            )
            &&& ids.contains(root_room_id) ==> (s5 == (
                PhaseModel::RegisteringMessageRouter { sync_token: t },
                ActionModel::RegisterMessageRouter,
            ) && step_model(s5.0, EventModel::MessageRouterRegistered, root_room_id) == (
                PhaseModel::Syncing { sync_token: t },
                ActionModel::SyncForever { sync_token: t },
            ))
            &&& !ids.contains(root_room_id) ==> (s5 == (
                PhaseModel::JoiningRoot { sync_token: t },
                ActionModel::JoinRoot,
            ) && s6 == (
                PhaseModel::RegisteringMessageRouter { sync_token: t },
                ActionModel::RegisterMessageRouter,
            ) && step_model(s6.0, EventModel::MessageRouterRegistered, root_room_id) == (
                PhaseModel::Syncing { sync_token: t },
                ActionModel::SyncForever { sync_token: t },
            ))
        }),
{
}

} // verus!
