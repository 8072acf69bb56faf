//! Storage: the cache client, and the manager of the relational connection
//! pool.
//!
//! The pool manager decides how the pool is sized and aged, and in what order
//! the service comes up: the pool is opened, then the schema is brought up to
//! date, and only then is the pool handed on. Opening and migrating are the
//! caller's work; what follows from their outcome is decided here.

pub mod backend;
pub mod cache;
pub mod exchange;
pub mod laws;
pub mod wire;

use crate::config::DatabaseSettings;
use vstd::prelude::*;

verus! {

/// Seconds that a request waits for a free connection before it fails.
pub const ACQUIRE_TIMEOUT_SECS: u64 = 2;

/// Ceiling on open connections, so that a burst of requests cannot swamp the
/// store.
pub const MAX_CONNECTIONS: u32 = 100;

/// Connections kept open while idle, so that the first requests after a lull
/// need not wait for one to be made.
pub const MIN_CONNECTIONS: u32 = 5;

/// Seconds after which an unused connection is closed.
pub const IDLE_TIMEOUT_SECS: u64 = 30;

/// Seconds after which a connection is replaced, whatever its state.
pub const MAX_LIFETIME_SECS: u64 = 1800;

/// How a pool is sized and aged. `None` leaves the pool's own default in
/// place.
#[derive(Debug, Clone, Copy, PartialEq, Eq, Structural)]
pub struct PoolConfig {
    pub max_connections: Option<u32>,
    pub min_connections: Option<u32>,
    pub acquire_timeout_secs: u64,
    pub idle_timeout_secs: Option<u64>,
    pub max_lifetime_secs: Option<u64>,
}

impl PoolConfig {
    /// The warm connections do not exceed the ceiling, and every duration is
    /// positive.
    pub open spec fn well_formed(self) -> bool {
        &&& self.acquire_timeout_secs > 0
        &&& (self.idle_timeout_secs matches Some(secs) ==> secs > 0)
        &&& (self.max_lifetime_secs matches Some(secs) ==> secs > 0)
        &&& (self.min_connections matches Some(low) ==> (self.max_connections matches Some(high)
            ==> low <= high))
    }

    /// The policy of a pool that connects on first use: only the wait for a
    /// connection is fixed.
    pub open spec fn lazy_policy() -> PoolConfig {
        PoolConfig {
            max_connections: None,
            min_connections: None,
            acquire_timeout_secs: ACQUIRE_TIMEOUT_SECS,
            idle_timeout_secs: None,
            max_lifetime_secs: None,
        }
    }

    /// The policy of the pool that the service runs on.
    pub open spec fn startup_policy() -> PoolConfig {
        PoolConfig {
            max_connections: Some(MAX_CONNECTIONS),
            min_connections: Some(MIN_CONNECTIONS),
            acquire_timeout_secs: ACQUIRE_TIMEOUT_SECS,
            idle_timeout_secs: Some(IDLE_TIMEOUT_SECS),
            max_lifetime_secs: Some(MAX_LIFETIME_SECS),
        }
    }

    /// Whether the configuration is well formed.
    pub fn is_well_formed(&self) -> (yes: bool)
        ensures
            yes == self.well_formed(),
    {
        let sized = match (self.min_connections, self.max_connections) {
            (Some(low), Some(high)) => low <= high,
            _ => true,
        };
        let idle = match self.idle_timeout_secs {
            Some(secs) => secs > 0,
            None => true,
        };
        let aged = match self.max_lifetime_secs {
            Some(secs) => secs > 0,
            None => true,
        };
        self.acquire_timeout_secs > 0 && idle && aged && sized
    }
}

/// When a pool makes its first connection.
#[derive(Debug, Clone, Copy, PartialEq, Eq, Structural)]
pub enum Connect {
    /// When a connection is first asked for: opening the pool does no I/O.
    OnDemand,
    /// While the pool is opened.
    AtOnce,
}

/// A pool to be opened: its policy, the connection string of its store, and
/// when it connects.
#[derive(Debug, Clone, PartialEq, Eq)]
pub struct PoolPlan {
    pub options: PoolConfig,
    pub target: String,
    pub connect: Connect,
}

pub struct PoolPlanView {
    pub options: PoolConfig,
    pub target: Seq<char>,
    pub connect: Connect,
}

impl View for PoolPlan {
    type V = PoolPlanView;

    open spec fn view(&self) -> PoolPlanView {
        PoolPlanView { options: self.options, target: self.target@, connect: self.connect }
    }
}

/// Why the pool did not come up.
#[derive(Debug, Clone, PartialEq, Eq)]
pub enum PoolError {
    /// The store could not be reached, or a wait ran out; holds the reason.
    Transport(String),
    /// A migration could not be applied; holds the reason.
    Migration(String),
}

pub enum PoolErrorView {
    Transport(Seq<char>),
    Migration(Seq<char>),
}

impl View for PoolError {
    type V = PoolErrorView;

    open spec fn view(&self) -> PoolErrorView {
        match self {
            PoolError::Transport(reason) => PoolErrorView::Transport(reason@),
            PoolError::Migration(reason) => PoolErrorView::Migration(reason@),
        }
    }
}

/// Where the start-up of the pool stands.
#[derive(Debug, Clone, Copy, PartialEq, Eq, Structural)]
pub enum PoolState {
    /// Nothing has been asked for yet.
    Unopened,
    /// The pool is being opened.
    Opening,
    /// The pool is open and the pending migrations are being applied.
    Migrating,
    /// The pool is open on a current schema.
    Ready,
    /// Start-up failed. Only a new process can try again.
    Failed,
}

impl PoolState {
    /// How far start-up has come. No event takes a start-up to a state of
    /// lower rank.
    pub open spec fn rank(self) -> nat {
        match self {
            PoolState::Unopened => 0,
            PoolState::Opening => 1,
            PoolState::Migrating => 2,
            PoolState::Ready => 3,
            PoolState::Failed => 3,
        }
    }
}

/// What came of the caller's last step.
#[derive(Debug, Clone, PartialEq, Eq)]
pub enum PoolEvent {
    /// The pool is open.
    Opened,
    /// The pool could not be opened; holds the reason.
    OpenFailed(String),
    /// Every pending migration is applied, or none was pending.
    Migrated,
    /// A migration failed; holds the reason.
    MigrationFailed(String),
}

pub enum PoolEventView {
    Opened,
    OpenFailed(Seq<char>),
    Migrated,
    MigrationFailed(Seq<char>),
}

impl View for PoolEvent {
    type V = PoolEventView;

    open spec fn view(&self) -> PoolEventView {
        match self {
            PoolEvent::Opened => PoolEventView::Opened,
            PoolEvent::OpenFailed(reason) => PoolEventView::OpenFailed(reason@),
            PoolEvent::Migrated => PoolEventView::Migrated,
            PoolEvent::MigrationFailed(reason) => PoolEventView::MigrationFailed(reason@),
        }
    }
}

/// What the caller does next.
#[derive(Debug, Clone, PartialEq, Eq)]
pub enum PoolAction {
    /// Open the pool as planned.
    Open(PoolPlan),
    /// Apply the pending migrations to the open pool, in the store's own
    /// order, and wait for the last.
    Migrate,
    /// Hand the pool to the service.
    Serve,
    /// Give up: the service must not take requests.
    Abort(PoolError),
    /// Nothing: start-up is over.
    Nothing,
}

pub enum PoolActionView {
    Open(PoolPlanView),
    Migrate,
    Serve,
    Abort(PoolErrorView),
    Nothing,
}

impl View for PoolAction {
    type V = PoolActionView;

    open spec fn view(&self) -> PoolActionView {
        match self {
            PoolAction::Open(plan) => PoolActionView::Open(plan@),
            PoolAction::Migrate => PoolActionView::Migrate,
            PoolAction::Serve => PoolActionView::Serve,
            PoolAction::Abort(error) => PoolActionView::Abort(error@),
            PoolAction::Nothing => PoolActionView::Nothing,
        }
    }
}

/// The reason given when an event arrives that the state does not wait for.
pub open spec fn stray_event() -> Seq<char> {
    "event does not fit the start-up"@
}

/// Where start-up goes from `state` on `event`, and what is to be done.
pub open spec fn startup_transition(state: PoolState, event: PoolEventView) -> (
    PoolState,
    PoolActionView,
) {
    match (state, event) {
        (PoolState::Ready, _) => (PoolState::Ready, PoolActionView::Nothing),
        (PoolState::Failed, _) => (PoolState::Failed, PoolActionView::Nothing),
        (PoolState::Opening, PoolEventView::Opened) => (
            PoolState::Migrating,
            PoolActionView::Migrate,
        ),
        (PoolState::Opening, PoolEventView::OpenFailed(reason)) => (
            PoolState::Failed,
            PoolActionView::Abort(PoolErrorView::Transport(reason)),
        ),
        (PoolState::Migrating, PoolEventView::Migrated) => (PoolState::Ready, PoolActionView::Serve),
        (PoolState::Migrating, PoolEventView::MigrationFailed(reason)) => (
            PoolState::Failed,
            PoolActionView::Abort(PoolErrorView::Migration(reason)),
        ),
        _ => (PoolState::Failed, PoolActionView::Abort(PoolErrorView::Transport(stray_event()))),
    }
}

/// The plan of a pool that connects on first use.
pub open spec fn lazy_plan(configuration: DatabaseSettings) -> PoolPlanView {
    PoolPlanView {
        options: PoolConfig::lazy_policy(),
        target: configuration.server@,
        connect: Connect::OnDemand,
    }
}

/// The plan of the pool that the service runs on.
pub open spec fn startup_plan(configuration: DatabaseSettings) -> PoolPlanView {
    PoolPlanView {
        options: PoolConfig::startup_policy(),
        target: configuration.database@,
        connect: Connect::AtOnce,
    }
}

/// Plans a pool on the server, naming no database, that connects on first
/// use: opening it does no I/O. A request waits two seconds for a connection;
/// everything else is the pool's default.
pub fn get_connection_pool(configuration: &DatabaseSettings) -> (plan: PoolPlan)
    ensures
        plan@ == lazy_plan(*configuration),
        plan.options.well_formed(),
{
    PoolPlan {
        options: PoolConfig {
            max_connections: None,
            min_connections: None,
            acquire_timeout_secs: ACQUIRE_TIMEOUT_SECS,
            idle_timeout_secs: None,
            max_lifetime_secs: None,
        },
        target: configuration.connection_string_without_db(),
        connect: Connect::OnDemand,
    }
}

/// Begins the start-up of the pool that the service runs on: the pool is to
/// be opened on the service's database with the start-up policy.
pub fn build_connection_pool(configuration: &DatabaseSettings) -> (begun: (PoolState, PoolAction))
    ensures
        begun.0 == PoolState::Opening,
        begun.1@ == PoolActionView::Open(startup_plan(*configuration)),
{
    let plan = PoolPlan {
        options: PoolConfig {
            max_connections: Some(MAX_CONNECTIONS),
            min_connections: Some(MIN_CONNECTIONS),
            acquire_timeout_secs: ACQUIRE_TIMEOUT_SECS,
            idle_timeout_secs: Some(IDLE_TIMEOUT_SECS),
            max_lifetime_secs: Some(MAX_LIFETIME_SECS),
        },
        target: configuration.connection_string(),
        connect: Connect::AtOnce,
    };
    (PoolState::Opening, PoolAction::Open(plan))
}

/// Takes the start-up one step on: from `state`, on `event`.
pub fn continue_startup(state: PoolState, event: PoolEvent) -> (next: (PoolState, PoolAction))
    ensures
        (next.0, next.1@) == startup_transition(state, event@),
{
    match state {
        PoolState::Ready => (PoolState::Ready, PoolAction::Nothing),
        PoolState::Failed => (PoolState::Failed, PoolAction::Nothing),
        PoolState::Opening => match event {
            PoolEvent::Opened => (PoolState::Migrating, PoolAction::Migrate),
            PoolEvent::OpenFailed(reason) => (
                PoolState::Failed,
                PoolAction::Abort(PoolError::Transport(reason)),
            ),
            _ => stray(),
        },
        PoolState::Migrating => match event {
            PoolEvent::Migrated => (PoolState::Ready, PoolAction::Serve),
            PoolEvent::MigrationFailed(reason) => (
                PoolState::Failed,
                PoolAction::Abort(PoolError::Migration(reason)),
            ),
            _ => stray(),
        },
        PoolState::Unopened => stray(),
    }
}

fn stray() -> (next: (PoolState, PoolAction))
    ensures
        next.0 == PoolState::Failed,
        next.1@ == PoolActionView::Abort(PoolErrorView::Transport(stray_event())),
{
    (
        PoolState::Failed,
        PoolAction::Abort(PoolError::Transport(String::from_str("event does not fit the start-up"))),
    )
}

/// The state of a start-up that was in `state` and has since seen `events`,
/// first to last.
pub open spec fn state_after(state: PoolState, events: Seq<PoolEventView>) -> PoolState
    decreases events.len(),
{
    if events.len() == 0 {
        state
    } else {
        state_after(startup_transition(state, events[0]).0, events.skip(1))
    }
}

/// Both policies are well formed. The start-up policy keeps at least
/// `MIN_CONNECTIONS` warm and never more than `MAX_CONNECTIONS` open.
pub proof fn policies_are_well_formed()
    ensures
        PoolConfig::lazy_policy().well_formed(),
        PoolConfig::startup_policy().well_formed(),
        PoolConfig::startup_policy().min_connections->0
            <= PoolConfig::startup_policy().max_connections->0,
{
}

/// No event takes a start-up back: the rank of its state never falls, and a
/// start-up that is ready or has failed stays so and asks for nothing more.
pub proof fn startup_never_goes_back(state: PoolState, event: PoolEventView)
    ensures
        startup_transition(state, event).0.rank() >= state.rank(),
        startup_transition(state, event).0 != PoolState::Unopened,
        state == PoolState::Ready || state == PoolState::Failed ==> startup_transition(
            state,
            event,
        ) == (state, PoolActionView::Nothing),
{
}

/// Whatever happens after a start-up is ready or has failed, it stays as it
/// is.
pub proof fn outcome_is_final(state: PoolState, events: Seq<PoolEventView>)
    requires
        state == PoolState::Ready || state == PoolState::Failed,
    ensures
        state_after(state, events) == state,
    decreases events.len(),
{
    if events.len() > 0 {
        outcome_is_final(state, events.skip(1));
    }
}

/// The pool is handed to the service on one path only: it was opened, and
/// then the migrations went through. The caller is told to serve exactly on
/// the step into `Ready`, and to give up exactly on a step into `Failed` from
/// a state that was not yet final.
pub proof fn served_only_when_migrated(state: PoolState, event: PoolEventView)
    ensures
        startup_transition(state, event).1 == PoolActionView::Serve <==> state
            == PoolState::Migrating && event == PoolEventView::Migrated,
        startup_transition(state, event).1 == PoolActionView::Serve ==> startup_transition(
            state,
            event,
        ).0 == PoolState::Ready,
        state != PoolState::Ready && startup_transition(state, event).0 == PoolState::Ready
            ==> startup_transition(state, event).1 == PoolActionView::Serve,
        startup_transition(state, event).1 is Abort <==> state != PoolState::Failed
            && startup_transition(state, event).0 == PoolState::Failed,
{
}

/// A start-up that ends ready has seen the pool opened first and the
/// migrations applied second.
pub proof fn ready_means_opened_then_migrated(events: Seq<PoolEventView>)
    requires
        state_after(PoolState::Opening, events) == PoolState::Ready,
    ensures
        events.len() >= 2,
        events[0] == PoolEventView::Opened,
        events[1] == PoolEventView::Migrated,
{
    reveal_with_fuel(state_after, 3);
    if events.len() == 0 {
    } else {
        let first = startup_transition(PoolState::Opening, events[0]).0;
        if first == PoolState::Failed {
            outcome_is_final(first, events.skip(1));
        } else {
            let rest = events.skip(1);
            if rest.len() == 0 {
            } else {
                assert(rest[0] == events[1]);
                let second = startup_transition(first, rest[0]).0;
                if second == PoolState::Failed {
                    outcome_is_final(second, rest.skip(1));
                }
            }
        }
    }
}

/// Against a store that can be reached and has nothing pending, or whose
/// pending migrations go through, start-up ends ready: the pool is opened,
/// the migrations are asked for, and the pool is handed on. Nothing on the
/// way tells the caller to give up.
pub proof fn startup_succeeds()
    ensures
        startup_transition(PoolState::Opening, PoolEventView::Opened) == (
            PoolState::Migrating,
            PoolActionView::Migrate,
        ),
        startup_transition(PoolState::Migrating, PoolEventView::Migrated) == (
            PoolState::Ready,
            PoolActionView::Serve,
        ),
        state_after(PoolState::Opening, seq![PoolEventView::Opened, PoolEventView::Migrated])
            == PoolState::Ready,
{
    reveal_with_fuel(state_after, 3);
    let events = seq![PoolEventView::Opened, PoolEventView::Migrated];
    assert(events.skip(1)[0] == PoolEventView::Migrated);
    assert(events.skip(1).skip(1).len() == 0);
}

/// Against a store that cannot be reached, start-up fails on the first
/// event: the caller is told to give up with a transport failure that holds
/// the reason, no migration is asked for, and nothing that follows makes the
/// pool ready. A failed migration ends start-up in the same way, with a
/// migration failure.
pub proof fn startup_fails_fast(reason: Seq<char>, later: Seq<PoolEventView>)
    ensures
        startup_transition(PoolState::Opening, PoolEventView::OpenFailed(reason)) == (
            PoolState::Failed,
            PoolActionView::Abort(PoolErrorView::Transport(reason)),
        ),
        startup_transition(PoolState::Migrating, PoolEventView::MigrationFailed(reason)) == (
            PoolState::Failed,
            PoolActionView::Abort(PoolErrorView::Migration(reason)),
        ),
        state_after(PoolState::Opening, seq![PoolEventView::OpenFailed(reason)] + later)
            == PoolState::Failed,
        state_after(
            PoolState::Opening,
            seq![PoolEventView::Opened, PoolEventView::MigrationFailed(reason)] + later,
        ) == PoolState::Failed,
{
    reveal_with_fuel(state_after, 3);
    let one = seq![PoolEventView::OpenFailed(reason)] + later;
    assert(one.skip(1) =~= later);
    outcome_is_final(PoolState::Failed, later);
    let two = seq![PoolEventView::Opened, PoolEventView::MigrationFailed(reason)] + later;
    assert(two.skip(1)[0] == PoolEventView::MigrationFailed(reason));
    assert(two.skip(1).skip(1) =~= later);
}

} // verus!
