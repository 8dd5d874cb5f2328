use vstd::prelude::*;

verus! {

/// `CREATE DATABASE "<name>";`
pub open spec fn spec_create_database_stmt(name: Seq<char>) -> Seq<char> {
    "CREATE DATABASE \""@ + name + "\";"@
}

/// `CREATE USER "<name>" WITH ENCRYPTED PASSWORD '<password>';`
pub open spec fn spec_create_user_stmt(name: Seq<char>, password: Seq<char>) -> Seq<char> {
    "CREATE USER \""@ + name + "\" WITH ENCRYPTED PASSWORD '"@ + password + "';"@
}

/// `ALTER DATABASE "<name>" OWNER TO "<owner>";`
pub open spec fn spec_alter_owner_stmt(name: Seq<char>, owner: Seq<char>) -> Seq<char> {
    "ALTER DATABASE \""@ + name + "\" OWNER TO \""@ + owner + "\";"@
}

/// `REASSIGN OWNED BY "<name>" TO "<root>";`
pub open spec fn spec_reassign_stmt(name: Seq<char>, root: Seq<char>) -> Seq<char> {
    "REASSIGN OWNED BY \""@ + name + "\" TO \""@ + root + "\";"@
}

/// `GRANT CONNECT ON DATABASE "<name>" TO "<name>";`
pub open spec fn spec_grant_connect_stmt(name: Seq<char>) -> Seq<char> {
    "GRANT CONNECT ON DATABASE \""@ + name + "\" TO \""@ + name + "\";"@
}

/// `GRANT USAGE ON SCHEMA public TO "<name>";`
pub open spec fn spec_grant_usage_stmt(name: Seq<char>) -> Seq<char> {
    "GRANT USAGE ON SCHEMA public TO \""@ + name + "\";"@
}

/// `GRANT SELECT ON ALL TABLES IN SCHEMA public TO "<name>";`
pub open spec fn spec_grant_select_stmt(name: Seq<char>) -> Seq<char> {
    "GRANT SELECT ON ALL TABLES IN SCHEMA public TO \""@ + name + "\";"@
}

/// The fast-path existence check run on the privileged pool, with the
/// database name bound as `$1`.
pub fn db_exists_query() -> (r: &'static str)
    ensures
        r@ == "SELECT 1 FROM pg_database WHERE datname = $1"@,
{
    "SELECT 1 FROM pg_database WHERE datname = $1"
}

/// The three statements that create a database, its role and its
/// ownership, in the order they must be issued on the privileged
/// connection. The name and password come from the keyed hash and are
/// hexadecimal, so quoting them as identifiers is sound.
pub fn creation_statements(name: &str, password: &str) -> (r: Vec<String>)
    ensures
        r@.len() == 3,
        r@[0]@ == spec_create_database_stmt(name@),
        r@[1]@ == spec_create_user_stmt(name@, password@),
        r@[2]@ == spec_alter_owner_stmt(name@, name@),
{
    let mut s0 = String::from_str("CREATE DATABASE \"");
    s0.append(name);
    s0.append("\";");
    let mut s1 = String::from_str("CREATE USER \"");
    s1.append(name);
    s1.append("\" WITH ENCRYPTED PASSWORD '");
    s1.append(password);
    s1.append("';");
    let mut s2 = String::from_str("ALTER DATABASE \"");
    s2.append(name);
    s2.append("\" OWNER TO \"");
    s2.append(name);
    s2.append("\";");
    let mut r: Vec<String> = Vec::new();
    r.push(s0);
    r.push(s1);
    r.push(s2);
    r
}

/// The five statements of the readonly lockdown, in order: ownership is
/// reassigned away from the per-environment role first — otherwise the
/// role would still own its objects and could alter them — and the
/// connect, usage and select grants follow.
pub fn readonly_statements(name: &str, root: &str) -> (r: Vec<String>)
    ensures
        r@.len() == 5,
        r@[0]@ == spec_reassign_stmt(name@, root@),
        r@[1]@ == spec_alter_owner_stmt(name@, root@),
        r@[2]@ == spec_grant_connect_stmt(name@),
        r@[3]@ == spec_grant_usage_stmt(name@),
        r@[4]@ == spec_grant_select_stmt(name@),
{
    let mut s0 = String::from_str("REASSIGN OWNED BY \"");
    s0.append(name);
    s0.append("\" TO \"");
    s0.append(root);
    s0.append("\";");
    let mut s1 = String::from_str("ALTER DATABASE \"");
    s1.append(name);
    s1.append("\" OWNER TO \"");
    s1.append(root);
    s1.append("\";");
    let mut s2 = String::from_str("GRANT CONNECT ON DATABASE \"");
    s2.append(name);
    s2.append("\" TO \"");
    s2.append(name);
    s2.append("\";");
    let mut s3 = String::from_str("GRANT USAGE ON SCHEMA public TO \"");
    s3.append(name);
    s3.append("\";");
    let mut s4 = String::from_str("GRANT SELECT ON ALL TABLES IN SCHEMA public TO \"");
    s4.append(name);
    s4.append("\";");
    let mut r: Vec<String> = Vec::new();
    r.push(s0);
    r.push(s1);
    r.push(s2);
    r.push(s3);
    r.push(s4);
    r
}

/// Where a provisioning run stands. The driver that owns the pools and the
/// create-db mutex feeds events in; the next action to perform comes out.
#[derive(Debug, Copy, Clone, PartialEq, Eq, Structural)]
pub enum ProvisionState {
    /// Nothing has happened yet.
    Start,
    /// The fast-path existence check is running.
    FastChecking,
    /// The database was absent; the create-db mutex is being acquired.
    Locking,
    /// The mutex is held; the existence check is being repeated.
    Rechecking,
    /// Both checks reported absence; the creation statements are running.
    Creating,
    /// The database was created in this run; the low-privilege pool is
    /// being obtained, and initialization is still owed.
    ConnectingCreated,
    /// The database already existed; the low-privilege pool is being
    /// obtained, and nothing more is owed.
    ConnectingExisting,
    /// The environment script is running on the fresh database.
    Initializing,
    /// The privileged pool into the fresh database is being obtained.
    ConnectingRoot,
    /// The readonly lockdown statements are running.
    LockingDown,
    /// The low-privilege pool can be handed to the caller.
    Ready,
}

/// What the driver reports back to the provisioning state machine.
#[derive(Debug, Copy, Clone, PartialEq, Eq, Structural)]
pub enum ProvisionEvent {
    /// Start a provisioning run.
    Begin,
    /// An existence check finished.
    ExistsResult { exists: bool },
    /// The create-db mutex was acquired.
    LockAcquired,
    /// All creation statements succeeded.
    StatementsDone,
    /// The low-privilege pool was obtained.
    PoolObtained,
    /// The environment script ran to completion.
    ScriptDone,
    /// The privileged pool into the new database was obtained.
    RootPoolObtained,
    /// All lockdown statements succeeded.
    LockdownDone,
}

/// What the driver must do next. Any driver error aborts the run; the
/// classification of such errors is the driver's: `Init` for a failing
/// environment script, `Other` for the rest.
#[derive(Debug, Copy, Clone, PartialEq, Eq, Structural)]
pub enum ProvisionAction {
    /// Run the existence query on the privileged pool.
    CheckExistence,
    /// Acquire the process-wide create-db mutex.
    AcquireCreateLock,
    /// Issue the three creation statements, in order.
    RunCreationStatements,
    /// Obtain the low-privilege pool for the environment database.
    ObtainEnvironmentPool,
    /// Run the environment text as a multi-statement script; a failure is
    /// an `Init` error.
    RunEnvironmentScript,
    /// Obtain a pool to the environment database as the privileged user.
    ObtainRootPool,
    /// Issue the five readonly-lockdown statements, in order.
    RunReadonlyStatements,
    /// Release the create-db mutex if held and hand out the pool.
    Finish,
    /// The event does not fit the state; the driver is broken.
    Reject,
}

/// The provisioning protocol: a pure transition table from state and event
/// to successor state and next action. An event that does not fit the
/// state leaves it unchanged and rejects.
pub open spec fn spec_provision_step(s: ProvisionState, e: ProvisionEvent) -> (
    ProvisionState,
    ProvisionAction,
) {
    match (s, e) {
        (ProvisionState::Start, ProvisionEvent::Begin) => (
            ProvisionState::FastChecking,
            ProvisionAction::CheckExistence,
        ),
        (ProvisionState::FastChecking, ProvisionEvent::ExistsResult { exists }) => if exists {
            (ProvisionState::ConnectingExisting, ProvisionAction::ObtainEnvironmentPool)
        } else {
            (ProvisionState::Locking, ProvisionAction::AcquireCreateLock)
        },
        (ProvisionState::Locking, ProvisionEvent::LockAcquired) => (
            ProvisionState::Rechecking,
            ProvisionAction::CheckExistence,
        ),
        (ProvisionState::Rechecking, ProvisionEvent::ExistsResult { exists }) => if exists {
            (ProvisionState::ConnectingExisting, ProvisionAction::ObtainEnvironmentPool)
        } else {
            (ProvisionState::Creating, ProvisionAction::RunCreationStatements)
        },
        (ProvisionState::Creating, ProvisionEvent::StatementsDone) => (
            ProvisionState::ConnectingCreated,
            ProvisionAction::ObtainEnvironmentPool,
        ),
        (ProvisionState::ConnectingCreated, ProvisionEvent::PoolObtained) => (
            ProvisionState::Initializing,
            ProvisionAction::RunEnvironmentScript,
        ),
        (ProvisionState::ConnectingExisting, ProvisionEvent::PoolObtained) => (
            ProvisionState::Ready,
            ProvisionAction::Finish,
        ),
        (ProvisionState::Initializing, ProvisionEvent::ScriptDone) => (
            ProvisionState::ConnectingRoot,
            ProvisionAction::ObtainRootPool,
        ),
        (ProvisionState::ConnectingRoot, ProvisionEvent::RootPoolObtained) => (
            ProvisionState::LockingDown,
            ProvisionAction::RunReadonlyStatements,
        ),
        (ProvisionState::LockingDown, ProvisionEvent::LockdownDone) => (
            ProvisionState::Ready,
            ProvisionAction::Finish,
        ),
        _ => (s, ProvisionAction::Reject),
    }
}

/// Advances the provisioning protocol by one event.
pub fn provision_step(s: ProvisionState, e: ProvisionEvent) -> (r: (
    ProvisionState,
    ProvisionAction,
))
    ensures
        r == spec_provision_step(s, e),
{
    match (s, e) {
        (ProvisionState::Start, ProvisionEvent::Begin) => (
            ProvisionState::FastChecking,
            ProvisionAction::CheckExistence,
        ),
        (ProvisionState::FastChecking, ProvisionEvent::ExistsResult { exists }) => if exists {
            (ProvisionState::ConnectingExisting, ProvisionAction::ObtainEnvironmentPool)
        } else {
            (ProvisionState::Locking, ProvisionAction::AcquireCreateLock)
        },
        (ProvisionState::Locking, ProvisionEvent::LockAcquired) => (
            ProvisionState::Rechecking,
            ProvisionAction::CheckExistence,
        ),
        (ProvisionState::Rechecking, ProvisionEvent::ExistsResult { exists }) => if exists {
            (ProvisionState::ConnectingExisting, ProvisionAction::ObtainEnvironmentPool)
        } else {
            (ProvisionState::Creating, ProvisionAction::RunCreationStatements)
        },
        (ProvisionState::Creating, ProvisionEvent::StatementsDone) => (
            ProvisionState::ConnectingCreated,
            ProvisionAction::ObtainEnvironmentPool,
        ),
        (ProvisionState::ConnectingCreated, ProvisionEvent::PoolObtained) => (
            ProvisionState::Initializing,
            ProvisionAction::RunEnvironmentScript,
        ),
        (ProvisionState::ConnectingExisting, ProvisionEvent::PoolObtained) => (
            ProvisionState::Ready,
            ProvisionAction::Finish,
        ),
        (ProvisionState::Initializing, ProvisionEvent::ScriptDone) => (
            ProvisionState::ConnectingRoot,
            ProvisionAction::ObtainRootPool,
        ),
        (ProvisionState::ConnectingRoot, ProvisionEvent::RootPoolObtained) => (
            ProvisionState::LockingDown,
            ProvisionAction::RunReadonlyStatements,
        ),
        (ProvisionState::LockingDown, ProvisionEvent::LockdownDone) => (
            ProvisionState::Ready,
            ProvisionAction::Finish,
        ),
        (s, _) => (s, ProvisionAction::Reject),
    }
}

/// The actions a run emits from state `s` under a sequence of driver
/// events, in order.
pub open spec fn spec_run(s: ProvisionState, events: Seq<ProvisionEvent>) -> Seq<ProvisionAction>
    decreases events.len(),
{
    if events.len() == 0 {
        Seq::empty()
    } else {
        seq![spec_provision_step(s, events[0]).1] + spec_run(
            spec_provision_step(s, events[0]).0,
            events.drop_first(),
        )
    }
}

/// How often a run asks for the creation statements.
pub open spec fn creation_count(actions: Seq<ProvisionAction>) -> nat
    decreases actions.len(),
{
    if actions.len() == 0 {
        0
    } else {
        (if actions[0] is RunCreationStatements {
            1nat
        } else {
            0nat
        }) + creation_count(actions.drop_first())
    }
}

/// The states from which a run might still reach the creation step.
pub open spec fn may_still_create(s: ProvisionState) -> bool {
    s is Start || s is FastChecking || s is Locking || s is Rechecking
}

proof fn lemma_run_creations(s: ProvisionState, events: Seq<ProvisionEvent>)
    ensures
        creation_count(spec_run(s, events)) <= 1,
        !may_still_create(s) ==> creation_count(spec_run(s, events)) == 0,
    decreases events.len(),
{
    if events.len() > 0 {
        let s2 = spec_provision_step(s, events[0]).0;
        let a = spec_provision_step(s, events[0]).1;
        lemma_run_creations(s2, events.drop_first());
        assert((seq![a] + spec_run(s2, events.drop_first())).drop_first() =~= spec_run(
            s2,
            events.drop_first(),
        ));
        if a is RunCreationStatements {
            assert(!may_still_create(s2));
        }
    }
}

/// Idempotence of provisioning, within one run: however the driver's
/// checks answer, a single run asks for the creation statements at most
/// once, and a run that has moved past the creation step never asks again.
pub proof fn lemma_at_most_one_creation(events: Seq<ProvisionEvent>)
    ensures
        creation_count(spec_run(ProvisionState::Start, events)) <= 1,
{
    lemma_run_creations(ProvisionState::Start, events);
}

/// The creation statements are issued only when the existence check
/// repeated under the create-db mutex reported the database absent: a
/// single provisioning run never creates a database it saw exist, and two
/// checks guard every creation.
pub proof fn lemma_creation_needs_recheck(s: ProvisionState, e: ProvisionEvent)
    ensures
        spec_provision_step(s, e).1 is RunCreationStatements ==> s is Rechecking && e == (
        ProvisionEvent::ExistsResult { exists: false }),
{
}

/// The environment script runs only on a database this very run created:
/// an existing database is never re-initialized.
pub proof fn lemma_script_only_after_creation(s: ProvisionState, e: ProvisionEvent)
    ensures
        spec_provision_step(s, e).1 is RunEnvironmentScript ==> s is ConnectingCreated,
        s is ConnectingCreated ==> exists|s0: ProvisionState, e0: ProvisionEvent|
            spec_provision_step(s0, e0) == (s, ProvisionAction::ObtainEnvironmentPool) && s0
                is Creating,
{
    if s is ConnectingCreated {
        assert(spec_provision_step(ProvisionState::Creating, ProvisionEvent::StatementsDone) == (
            s,
            ProvisionAction::ObtainEnvironmentPool,
        ));
    }
}

/// The readonly lockdown runs only after the environment script finished
/// on the fresh database.
pub proof fn lemma_lockdown_after_script(s: ProvisionState, e: ProvisionEvent)
    ensures
        spec_provision_step(s, e).1 is RunReadonlyStatements ==> s is ConnectingRoot && e
            is RootPoolObtained,
{
}

} // verus!
