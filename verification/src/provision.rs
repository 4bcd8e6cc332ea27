//! The storage provisioner: probing a chosen backend, classifying the
//! outcome, routing to the next stage, and the one destructive reset.
//!
//! Opening connections, checking the filesystem and running statements is
//! the host's job; this module computes every URL, query and decision, and
//! the host hands the observed outcome back in as a plain event.

use vstd::prelude::*;

use crate::settings::BaseSettings;
use crate::settings::DatabaseType;
use crate::settings::MysqlSettings;
use crate::settings::PostgreSQLSettings;
use crate::settings::SqlSettings;
use crate::stage::SetupStage;
use crate::text::dec_rep;
use crate::text::lowercase_of;
use crate::text::to_lowercase;
use crate::text::u32_to_string;

verus! {

/// What the host observed when it carried out a probe: for SQLite whether
/// the file exists; for the server dialects whether the probe connection
/// opened and, if it did, whether the catalog lists the named database.
#[derive(Clone, Copy, Debug, PartialEq, Eq, Structural)]
pub enum ProbeResult {
    /// The SQLite file was looked for on disk.
    File { exists: bool },
    /// A probe connection was opened and the catalog was queried.
    Connected { database_found: bool },
    /// The probe connection could not be established. The host logs the
    /// driver's sanitized message; no credential ever reaches a response.
    ConnectFailed,
}

/// The classification of a probe.
#[derive(Clone, Copy, Debug, PartialEq, Eq, Structural)]
pub enum ProvisionOutcome {
    /// The target database does not exist yet: schema creation lies ahead.
    FreshDatabase,
    /// The target database already exists: the operator must choose between
    /// migrating it and resetting it.
    ExistingDatabaseFound,
    /// The backend could not be reached; nothing may be mutated.
    ConnectionFailed,
}

/// How a probe event classifies.
pub open spec fn spec_provision(probe: ProbeResult) -> ProvisionOutcome {
    match probe {
        ProbeResult::File { exists } => if exists {
            ProvisionOutcome::ExistingDatabaseFound
        } else {
            ProvisionOutcome::FreshDatabase
        },
        ProbeResult::Connected { database_found } => if database_found {
            ProvisionOutcome::ExistingDatabaseFound
        } else {
            ProvisionOutcome::FreshDatabase
        },
        ProbeResult::ConnectFailed => ProvisionOutcome::ConnectionFailed,
    }
}

/// Classify a probe event. For SQLite the outcome is a function of the
/// file's existence alone and is `ExistingDatabaseFound` exactly when the
/// file exists; for the server dialects it is `ExistingDatabaseFound`
/// exactly when the catalog listed the database, and `ConnectionFailed`
/// exactly when no connection could be opened.
pub fn provision(probe: &ProbeResult) -> (r: ProvisionOutcome)
    ensures
        r == spec_provision(*probe),
{
    match probe {
        ProbeResult::File { exists } => {
            if *exists {
                ProvisionOutcome::ExistingDatabaseFound
            } else {
                ProvisionOutcome::FreshDatabase
            }
        },
        ProbeResult::Connected { database_found } => {
            if *database_found {
                ProvisionOutcome::ExistingDatabaseFound
            } else {
                ProvisionOutcome::FreshDatabase
            }
        },
        ProbeResult::ConnectFailed => ProvisionOutcome::ConnectionFailed,
    }
}

/// Provisioner determinism for SQLite: the outcome is a function of the
/// file's existence alone — `ExistingDatabaseFound` exactly when the file
/// exists and `FreshDatabase` otherwise, however often it is asked. No
/// connection enters into it, so it can never be `ConnectionFailed`.
pub proof fn lemma_sqlite_provision_deterministic(exists: bool)
    ensures
        spec_provision((ProbeResult::File { exists })) == (if exists {
            ProvisionOutcome::ExistingDatabaseFound
        } else {
            ProvisionOutcome::FreshDatabase
        }),
{
}

/// Where each provisioning outcome routes the wizard: a fresh database goes
/// straight to account creation, an existing one to the operator's
/// migrate-or-reset decision, and a failed connection stays at the storage
/// stage (no stage change).
pub fn next_stage_for(outcome: &ProvisionOutcome) -> (r: Option<SetupStage>)
    ensures
        *outcome == ProvisionOutcome::FreshDatabase ==> r == Some(SetupStage::AccountCreation),
        *outcome == ProvisionOutcome::ExistingDatabaseFound ==> r == Some(
            SetupStage::ExistingStorage,
        ),
        *outcome == ProvisionOutcome::ConnectionFailed ==> r is None,
{
    match outcome {
        ProvisionOutcome::FreshDatabase => Some(SetupStage::AccountCreation),
        ProvisionOutcome::ExistingDatabaseFound => Some(SetupStage::ExistingStorage),
        ProvisionOutcome::ConnectionFailed => None,
    }
}

/// The text of a MySQL probe URL: no database is selected.
pub open spec fn spec_mysql_probe_url(
    username: Seq<char>,
    password: Seq<char>,
    host: Seq<char>,
    port: u32,
) -> Seq<char> {
    "mysql://"@ + username + ":"@ + password + "@"@ + host + ":"@ + dec_rep(port as nat)
}

/// The URL for a MySQL probe connection, built from the stored settings.
pub fn mysql_probe_url(s: &MysqlSettings) -> (r: String)
    ensures
        r@ == spec_mysql_probe_url(s.username@, s.password@, s.url@, s.port),
{
    let mut u = String::from_str("mysql://");
    u.append(s.username.as_str());
    u.append(":");
    u.append(s.password.as_str());
    u.append("@");
    u.append(s.url.as_str());
    u.append(":");
    let p = u32_to_string(s.port);
    u.append(p.as_str());
    proof {
        assert(u@ =~= spec_mysql_probe_url(s.username@, s.password@, s.url@, s.port));
    }
    u
}

/// The text of a PostgreSQL probe URL: no database is selected.
pub open spec fn spec_postgres_probe_url(
    username: Seq<char>,
    password: Seq<char>,
    host: Seq<char>,
    port: u32,
) -> Seq<char> {
    "postgresql://"@ + username + ":"@ + password + "@"@ + host + ":"@ + dec_rep(port as nat)
}

/// The URL for a PostgreSQL probe connection, built from the stored
/// settings.
pub fn postgres_probe_url(s: &PostgreSQLSettings) -> (r: String)
    ensures
        r@ == spec_postgres_probe_url(s.username@, s.password@, s.url@, s.port),
{
    let mut u = String::from_str("postgresql://");
    u.append(s.username.as_str());
    u.append(":");
    u.append(s.password.as_str());
    u.append("@");
    u.append(s.url.as_str());
    u.append(":");
    let p = u32_to_string(s.port);
    u.append(p.as_str());
    proof {
        assert(u@ =~= spec_postgres_probe_url(s.username@, s.password@, s.url@, s.port));
    }
    u
}

/// The URL with which the host opens the configured SQLite file.
pub fn sqlite_database_url(s: &SqlSettings) -> (r: String)
    ensures
        r@ == "sqlite://"@ + s.file_location@,
{
    let mut u = String::from_str("sqlite://");
    u.append(s.file_location.as_str());
    u
}

/// The URL for a MySQL connection that selects the configured database.
pub fn mysql_database_url(s: &MysqlSettings) -> (r: String)
    ensures
        r@ == spec_mysql_probe_url(s.username@, s.password@, s.url@, s.port) + "/"@
            + s.database_name@,
{
    let mut u = mysql_probe_url(s);
    u.append("/");
    u.append(s.database_name.as_str());
    proof {
        assert(u@ =~= spec_mysql_probe_url(s.username@, s.password@, s.url@, s.port) + "/"@
            + s.database_name@);
    }
    u
}

/// The URL for a PostgreSQL connection that selects the configured
/// database. The database name is folded to lowercase on the way, as
/// PostgreSQL stores it.
pub fn postgres_database_url(s: &PostgreSQLSettings) -> (r: String)
    ensures
        r@ == spec_postgres_probe_url(s.username@, s.password@, s.url@, s.port) + "/"@
            + lowercase_of(s.database_name@),
{
    let mut u = postgres_probe_url(s);
    u.append("/");
    let low = to_lowercase(s.database_name.as_str());
    u.append(low.as_str());
    proof {
        assert(u@ =~= spec_postgres_probe_url(s.username@, s.password@, s.url@, s.port) + "/"@
            + lowercase_of(s.database_name@));
    }
    u
}

/// The catalog query that detects an existing MySQL schema; the database
/// name is bound as its one parameter.
pub fn mysql_schema_query() -> (r: String)
    ensures
        r@ == "SELECT SCHEMA_NAME FROM INFORMATION_SCHEMA.SCHEMATA WHERE SCHEMA_NAME = ?"@,
{
    String::from_str("SELECT SCHEMA_NAME FROM INFORMATION_SCHEMA.SCHEMATA WHERE SCHEMA_NAME = ?")
}

/// The catalog query that detects an existing PostgreSQL database of the
/// given name.
pub fn postgres_database_query(db_name: &str) -> (r: String)
    ensures
        r@ == "SELECT datname FROM pg_catalog.pg_database WHERE datname = '"@ + db_name@ + "';"@,
{
    let mut q = String::from_str("SELECT datname FROM pg_catalog.pg_database WHERE datname = '");
    q.append(db_name);
    q.append("';");
    proof {
        assert(q@ =~= "SELECT datname FROM pg_catalog.pg_database WHERE datname = '"@ + db_name@
            + "';"@);
    }
    q
}

/// The statement that destroys an existing MySQL database.
pub fn mysql_drop_database_sql(db_name: &str) -> (r: String)
    ensures
        r@ == "DROP DATABASE IF EXISTS "@ + db_name@ + ";"@,
{
    let mut q = String::from_str("DROP DATABASE IF EXISTS ");
    q.append(db_name);
    q.append(";");
    proof {
        assert(q@ =~= "DROP DATABASE IF EXISTS "@ + db_name@ + ";"@);
    }
    q
}

/// The statement that destroys an existing PostgreSQL database; the name is
/// quoted as PostgreSQL requires.
pub fn postgres_drop_database_sql(db_name: &str) -> (r: String)
    ensures
        r@ == "DROP DATABASE IF EXISTS \""@ + db_name@ + "\";"@,
{
    let mut q = String::from_str("DROP DATABASE IF EXISTS \"");
    q.append(db_name);
    q.append("\";");
    proof {
        assert(q@ =~= "DROP DATABASE IF EXISTS \""@ + db_name@ + "\";"@);
    }
    q
}

/// The single destructive operation of the wizard, for the host to carry
/// out under the authenticated session and the correct stage guard.
pub enum ResetAction {
    /// Irrecoverably delete the SQLite database file at the path.
    DeleteFile { path: String },
    /// Open a probe connection to the URL and run the drop statement.
    ExecuteSql { url: String, sql: String },
}

/// The action the reset decision issues for the configured backend: delete
/// the SQLite file, or connect without selecting a database and drop the
/// named one.
pub fn reset_action(s: &BaseSettings) -> (r: ResetAction)
    requires
        s.storage_section_present(),
    ensures
        s.database_type == DatabaseType::SQLite ==> (r matches ResetAction::DeleteFile { path }
            && path@ == s.sql_settings->0.file_location@),
        s.database_type == DatabaseType::MySQL ==> (r matches ResetAction::ExecuteSql { url, sql }
            && url@ == spec_mysql_probe_url(
            s.mysql_settings->0.username@,
            s.mysql_settings->0.password@,
            s.mysql_settings->0.url@,
            s.mysql_settings->0.port,
        ) && sql@ == "DROP DATABASE IF EXISTS "@ + s.mysql_settings->0.database_name@ + ";"@),
        s.database_type == DatabaseType::PostgreSQL ==> (r matches ResetAction::ExecuteSql {
            url,
            sql,
        } && url@ == spec_postgres_probe_url(
            s.postgre_settings->0.username@,
            s.postgre_settings->0.password@,
            s.postgre_settings->0.url@,
            s.postgre_settings->0.port,
        ) && sql@ == "DROP DATABASE IF EXISTS \""@ + s.postgre_settings->0.database_name@
            + "\";"@),
{
    match s.database_type {
        DatabaseType::SQLite => {
            let path = match &s.sql_settings {
                Some(sq) => String::from_str(sq.file_location.as_str()),
                // excluded by the precondition: the SQLite section is present
                None => String::new(),
            };
            ResetAction::DeleteFile { path }
        },
        DatabaseType::MySQL => {
            match &s.mysql_settings {
                Some(m) => ResetAction::ExecuteSql {
                    url: mysql_probe_url(m),
                    sql: mysql_drop_database_sql(m.database_name.as_str()),
                },
                // excluded by the precondition: the MySQL section is present
                None => ResetAction::ExecuteSql { url: String::new(), sql: String::new() },
            }
        },
        DatabaseType::PostgreSQL => {
            match &s.postgre_settings {
                Some(p) => ResetAction::ExecuteSql {
                    url: postgres_probe_url(p),
                    sql: postgres_drop_database_sql(p.database_name.as_str()),
                },
                // excluded by the precondition: the PostgreSQL section is present
                None => ResetAction::ExecuteSql { url: String::new(), sql: String::new() },
            }
        },
    }
}

} // verus!
