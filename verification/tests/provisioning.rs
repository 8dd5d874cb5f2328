use sql_runner::conn::{database_url, pool_key, server_url, statement_timeout_stmt};
use sql_runner::provision::{
    creation_statements, db_exists_query, provision_step, readonly_statements, ProvisionAction,
    ProvisionEvent, ProvisionState,
};

#[test]
fn creation_statements_exact_and_ordered() {
    let stmts = creation_statements("envdb", "pw");
    assert_eq!(
        stmts,
        vec![
            "CREATE DATABASE \"envdb\";".to_string(),
            "CREATE USER \"envdb\" WITH ENCRYPTED PASSWORD 'pw';".to_string(),
            "ALTER DATABASE \"envdb\" OWNER TO \"envdb\";".to_string(),
        ]
    );
}

#[test]
fn readonly_statements_reassign_ownership_first() {
    let stmts = readonly_statements("envdb", "postgres");
    assert_eq!(
        stmts,
        vec![
            "REASSIGN OWNED BY \"envdb\" TO \"postgres\";".to_string(),
            "ALTER DATABASE \"envdb\" OWNER TO \"postgres\";".to_string(),
            "GRANT CONNECT ON DATABASE \"envdb\" TO \"envdb\";".to_string(),
            "GRANT USAGE ON SCHEMA public TO \"envdb\";".to_string(),
            "GRANT SELECT ON ALL TABLES IN SCHEMA public TO \"envdb\";".to_string(),
        ]
    );
}

#[test]
fn existence_query_text() {
    assert_eq!(db_exists_query(), "SELECT 1 FROM pg_database WHERE datname = $1");
}

fn drive(events: &[ProvisionEvent]) -> Vec<ProvisionAction> {
    let mut state = ProvisionState::Start;
    let mut actions = Vec::new();
    for e in events {
        let (next, action) = provision_step(state, *e);
        state = next;
        actions.push(action);
    }
    actions
}

#[test]
fn first_touch_runs_the_full_creation_path() {
    let actions = drive(&[
        ProvisionEvent::Begin,
        ProvisionEvent::ExistsResult { exists: false },
        ProvisionEvent::LockAcquired,
        ProvisionEvent::ExistsResult { exists: false },
        ProvisionEvent::StatementsDone,
        ProvisionEvent::PoolObtained,
        ProvisionEvent::ScriptDone,
        ProvisionEvent::RootPoolObtained,
        ProvisionEvent::LockdownDone,
    ]);
    assert_eq!(
        actions,
        vec![
            ProvisionAction::CheckExistence,
            ProvisionAction::AcquireCreateLock,
            ProvisionAction::CheckExistence,
            ProvisionAction::RunCreationStatements,
            ProvisionAction::ObtainEnvironmentPool,
            ProvisionAction::RunEnvironmentScript,
            ProvisionAction::ObtainRootPool,
            ProvisionAction::RunReadonlyStatements,
            ProvisionAction::Finish,
        ]
    );
}

#[test]
fn existing_database_takes_the_fast_path() {
    let actions = drive(&[
        ProvisionEvent::Begin,
        ProvisionEvent::ExistsResult { exists: true },
        ProvisionEvent::PoolObtained,
    ]);
    assert_eq!(
        actions,
        vec![
            ProvisionAction::CheckExistence,
            ProvisionAction::ObtainEnvironmentPool,
            ProvisionAction::Finish,
        ]
    );
    assert!(!actions.contains(&ProvisionAction::RunCreationStatements));
}

#[test]
fn concurrent_creator_detected_by_recheck_skips_creation() {
    // A second run that lost the race: the fast check said absent, but the
    // re-check under the lock finds the database created meanwhile.
    let actions = drive(&[
        ProvisionEvent::Begin,
        ProvisionEvent::ExistsResult { exists: false },
        ProvisionEvent::LockAcquired,
        ProvisionEvent::ExistsResult { exists: true },
        ProvisionEvent::PoolObtained,
    ]);
    assert!(!actions.contains(&ProvisionAction::RunCreationStatements));
    assert_eq!(actions[4], ProvisionAction::Finish);
}

#[test]
fn mismatched_event_is_rejected_in_place() {
    let (state, action) = provision_step(ProvisionState::Start, ProvisionEvent::LockdownDone);
    assert_eq!(state, ProvisionState::Start);
    assert_eq!(action, ProvisionAction::Reject);
}

#[test]
fn pool_key_is_user_at_db() {
    assert_eq!(pool_key("alice", "db1"), "alice@db1");
}

#[test]
fn root_and_database_urls() {
    assert_eq!(server_url("root", "pw", "host:5432"), "postgresql://root:pw@host:5432");
    assert_eq!(
        database_url("u", "p", "h", "envdb"),
        "postgresql://u:p@h/envdb"
    );
}

#[test]
fn timeout_statement_text() {
    assert_eq!(statement_timeout_stmt(10000), "SET statement_timeout to 10000");
    assert_eq!(statement_timeout_stmt(0), "SET statement_timeout to 0");
}
