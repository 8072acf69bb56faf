use high_concurrency_api::config::DatabaseSettings;
use high_concurrency_api::db::{
    build_connection_pool, continue_startup, get_connection_pool, Connect, PoolAction, PoolConfig,
    PoolError, PoolEvent, PoolPlan, PoolState, ACQUIRE_TIMEOUT_SECS, IDLE_TIMEOUT_SECS,
    MAX_CONNECTIONS, MAX_LIFETIME_SECS, MIN_CONNECTIONS,
};

fn settings() -> DatabaseSettings {
    DatabaseSettings {
        database: String::from("postgres://app:pw@db.internal:5432/bets"),
        server: String::from("postgres://app:pw@db.internal:5432"),
    }
}

fn stray() -> (PoolState, PoolAction) {
    (
        PoolState::Failed,
        PoolAction::Abort(PoolError::Transport(String::from("event does not fit the start-up"))),
    )
}

fn events() -> Vec<PoolEvent> {
    vec![
        PoolEvent::Opened,
        PoolEvent::OpenFailed(String::from("connection refused")),
        PoolEvent::Migrated,
        PoolEvent::MigrationFailed(String::from("syntax error")),
    ]
}

#[test]
fn policy_constants() {
    assert_eq!(ACQUIRE_TIMEOUT_SECS, 2);
    assert_eq!(MAX_CONNECTIONS, 100);
    assert_eq!(MIN_CONNECTIONS, 5);
    assert_eq!(IDLE_TIMEOUT_SECS, 30);
    assert_eq!(MAX_LIFETIME_SECS, 30 * 60);
}

#[test]
fn settings_hand_out_both_connection_strings() {
    assert_eq!(settings().connection_string(), "postgres://app:pw@db.internal:5432/bets");
    assert_eq!(settings().connection_string_without_db(), "postgres://app:pw@db.internal:5432");
}

#[test]
fn lazy_pool_fixes_only_the_acquire_timeout() {
    assert_eq!(
        get_connection_pool(&settings()),
        PoolPlan {
            options: PoolConfig {
                max_connections: None,
                min_connections: None,
                acquire_timeout_secs: 2,
                idle_timeout_secs: None,
                max_lifetime_secs: None,
            },
            target: String::from("postgres://app:pw@db.internal:5432"),
            connect: Connect::OnDemand,
        }
    );
}

#[test]
fn startup_opens_the_pool_with_the_policy() {
    let (state, action) = build_connection_pool(&settings());
    assert_eq!(state, PoolState::Opening);
    assert_eq!(
        action,
        PoolAction::Open(PoolPlan {
            options: PoolConfig {
                max_connections: Some(100),
                min_connections: Some(5),
                acquire_timeout_secs: 2,
                idle_timeout_secs: Some(30),
                max_lifetime_secs: Some(1800),
            },
            target: String::from("postgres://app:pw@db.internal:5432/bets"),
            connect: Connect::AtOnce,
        })
    );
}

#[test]
fn both_policies_are_well_formed() {
    assert!(get_connection_pool(&settings()).options.is_well_formed());
    match build_connection_pool(&settings()).1 {
        PoolAction::Open(plan) => {
            assert!(plan.options.is_well_formed());
            assert!(plan.options.min_connections <= plan.options.max_connections);
        }
        other => panic!("unexpected action: {:?}", other),
    }
}

#[test]
fn well_formedness_of_configurations() {
    let good = PoolConfig {
        max_connections: Some(5),
        min_connections: Some(5),
        acquire_timeout_secs: 1,
        idle_timeout_secs: Some(1),
        max_lifetime_secs: Some(1),
    };
    assert!(good.is_well_formed());
    assert!(!PoolConfig { min_connections: Some(6), ..good }.is_well_formed());
    assert!(!PoolConfig { acquire_timeout_secs: 0, ..good }.is_well_formed());
    assert!(!PoolConfig { idle_timeout_secs: Some(0), ..good }.is_well_formed());
    assert!(!PoolConfig { max_lifetime_secs: Some(0), ..good }.is_well_formed());
    assert!(PoolConfig { max_connections: None, min_connections: Some(1000), ..good }.is_well_formed());
    assert!(PoolConfig { idle_timeout_secs: None, max_lifetime_secs: None, ..good }.is_well_formed());
}

#[test]
fn startup_with_nothing_pending_ends_ready() {
    let (state, action) = build_connection_pool(&settings());
    assert!(matches!(action, PoolAction::Open(_)));
    let (state, action) = continue_startup(state, PoolEvent::Opened);
    assert_eq!((state, action), (PoolState::Migrating, PoolAction::Migrate));
    let (state, action) = continue_startup(state, PoolEvent::Migrated);
    assert_eq!((state, action), (PoolState::Ready, PoolAction::Serve));
}

#[test]
fn unreachable_store_fails_the_startup() {
    let (state, _) = build_connection_pool(&settings());
    let (state, action) = continue_startup(state, PoolEvent::OpenFailed(String::from("pool timed out")));
    assert_eq!(state, PoolState::Failed);
    assert_eq!(action, PoolAction::Abort(PoolError::Transport(String::from("pool timed out"))));
}

#[test]
fn failed_migration_fails_the_startup() {
    let (state, _) = build_connection_pool(&settings());
    let (state, _) = continue_startup(state, PoolEvent::Opened);
    let (state, action) =
        continue_startup(state, PoolEvent::MigrationFailed(String::from("relation exists")));
    assert_eq!(state, PoolState::Failed);
    assert_eq!(action, PoolAction::Abort(PoolError::Migration(String::from("relation exists"))));
}

#[test]
fn ready_and_failed_are_final() {
    for event in events() {
        assert_eq!(
            continue_startup(PoolState::Ready, event.clone()),
            (PoolState::Ready, PoolAction::Nothing)
        );
        assert_eq!(
            continue_startup(PoolState::Failed, event),
            (PoolState::Failed, PoolAction::Nothing)
        );
    }
}

#[test]
fn events_out_of_order_fail_the_startup() {
    for event in events() {
        assert_eq!(continue_startup(PoolState::Unopened, event), stray());
    }
    assert_eq!(continue_startup(PoolState::Opening, PoolEvent::Migrated), stray());
    assert_eq!(
        continue_startup(PoolState::Opening, PoolEvent::MigrationFailed(String::from("x"))),
        stray()
    );
    assert_eq!(continue_startup(PoolState::Migrating, PoolEvent::Opened), stray());
    assert_eq!(
        continue_startup(PoolState::Migrating, PoolEvent::OpenFailed(String::from("x"))),
        stray()
    );
}

#[test]
fn only_opened_then_migrated_makes_the_pool_ready() {
    let all = events();
    for first in &all {
        for second in &all {
            for third in &all {
                let (state, _) = continue_startup(PoolState::Opening, first.clone());
                let (state, _) = continue_startup(state, second.clone());
                let (state, _) = continue_startup(state, third.clone());
                let ready = *first == PoolEvent::Opened && *second == PoolEvent::Migrated;
                assert_eq!(state == PoolState::Ready, ready);
                assert_eq!(state == PoolState::Failed, !ready);
            }
        }
    }
}
