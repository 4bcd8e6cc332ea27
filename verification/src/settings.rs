//! The persisted configuration record: the single source of truth for all
//! settings, including the current wizard stage.

use vstd::prelude::*;

use crate::stage::SetupStage;

verus! {

/// The types of databases that ForumRS supports.
#[derive(Clone, Copy, Debug, PartialEq, Eq, Structural)]
pub enum DatabaseType {
    MySQL,
    SQLite,
    PostgreSQL,
}

impl DatabaseType {
    /// Get the lowercase string of the enum.
    pub fn to_lowercase_string(&self) -> (r: String)
        ensures
            *self == DatabaseType::MySQL ==> r@ == "mysql"@,
            *self == DatabaseType::SQLite ==> r@ == "sqlite"@,
            *self == DatabaseType::PostgreSQL ==> r@ == "postgresql"@,
    {
        match self {
            DatabaseType::MySQL => String::from_str("mysql"),
            DatabaseType::SQLite => String::from_str("sqlite"),
            DatabaseType::PostgreSQL => String::from_str("postgresql"),
        }
    }
}

/// The settings for a MySQL database.
#[derive(Debug)]
pub struct MysqlSettings {
    /// The URL of the database.
    pub url: String,
    /// The port of the database.
    pub port: u32,
    /// The username for the database.
    pub username: String,
    /// The password for the database (required).
    pub password: String,
    /// The name of the database.
    pub database_name: String,
}

/// The settings for a SQLite database.
#[derive(Debug)]
pub struct SqlSettings {
    /// Location of the database file.
    pub file_location: String,
}

/// The settings for a PostgreSQL database.
#[derive(Debug)]
pub struct PostgreSQLSettings {
    /// The URL of the database.
    pub url: String,
    /// The port of the database.
    pub port: u32,
    /// The username for the database.
    pub username: String,
    /// The password for the database (required).
    pub password: String,
    /// The name of the database.
    pub database_name: String,
}

/// The settings for SSL.
#[derive(Debug)]
pub struct SSLSettings {
    /// The private key.
    pub private_key: String,
    /// The public key.
    pub public_key: String,
}

/// The settings for Google reCAPTCHA v3.
#[derive(Debug)]
pub struct CaptchaSettings {
    pub site_key: String,
    pub secret_key: String,
}

/// Base settings are the base settings for the website.
#[derive(Debug)]
pub struct BaseSettings {
    /// The name of the website.
    pub name: String,
    /// The domain of the website.
    pub domain: String,
    /// The ip of the website (ex: 127.0.0.1).
    pub ip: String,
    /// The port of the website (ex: 8080).
    pub port: u32,
    /// The type of database to be used.
    pub database_type: DatabaseType,
    /// If the program should use SSL.
    pub use_sll: bool,
    /// If the program should use google reCAPTCHA v3.
    pub use_captcha: bool,
    /// If the program is being set up for the first time.
    pub new_setup: bool,
    /// The current setup stage; present exactly while `new_setup` holds.
    pub setup_stage: Option<SetupStage>,
    /// The MySQL settings (only exist if database_type is MySQL).
    pub mysql_settings: Option<MysqlSettings>,
    /// The SQLite settings (only exist if database_type is SQLite).
    pub sql_settings: Option<SqlSettings>,
    /// The PostgreSQL settings (only exist if database_type is PostgreSQL).
    pub postgre_settings: Option<PostgreSQLSettings>,
    /// The options for SSL.
    pub ssl_settings: Option<SSLSettings>,
    /// The settings for google reCAPTCHA v3.
    pub captcha_settings: Option<CaptchaSettings>,
}

impl BaseSettings {
    /// The record-level invariant: the wizard stage is present exactly while
    /// setup is still running. A violation is unrecoverable at load time.
    pub open spec fn stage_invariant(self) -> bool {
        self.new_setup == self.setup_stage is Some
    }

    /// The settings section matching the chosen dialect is populated.
    pub open spec fn storage_section_present(self) -> bool {
        match self.database_type {
            DatabaseType::SQLite => self.sql_settings is Some,
            DatabaseType::MySQL => self.mysql_settings is Some,
            DatabaseType::PostgreSQL => self.postgre_settings is Some,
        }
    }

    /// Exactly the settings section matching the chosen dialect is
    /// populated, and the other two are absent. The storage stage
    /// establishes this: choosing a backend clears whatever another
    /// choice may have left behind.
    pub open spec fn storage_section_exclusive(self) -> bool {
        &&& self.storage_section_present()
        &&& match self.database_type {
            DatabaseType::SQLite => self.mysql_settings is None && self.postgre_settings is None,
            DatabaseType::MySQL => self.sql_settings is None && self.postgre_settings is None,
            DatabaseType::PostgreSQL => self.sql_settings is None && self.mysql_settings is None,
        }
    }

    /// The settings section matching the chosen dialect is populated, and
    /// the SSL and captcha sections are present whenever their flag is set.
    /// This holds once the relevant stages have been submitted; a committed
    /// record (setup finished) must satisfy it in full.
    pub open spec fn sections_complete(self) -> bool {
        &&& self.storage_section_present()
        &&& (self.use_sll ==> self.ssl_settings is Some)
        &&& (self.use_captcha ==> self.captcha_settings is Some)
    }

    /// A record is well formed when the stage invariant holds and, once
    /// setup has completed, all sections required by its flags are present.
    pub open spec fn wf(self) -> bool {
        &&& self.stage_invariant()
        &&& (!self.new_setup ==> self.sections_complete())
    }

    /// The default record written on first boot: setup mode, at the first
    /// stage, with placeholder network settings and no sections populated.
    pub fn create_default() -> (r: BaseSettings)
        ensures
            r.name@ == "UnInitalized"@,
            r.domain@ == "forumrs.example.com"@,
            r.ip@ == "127.0.0.1"@,
            r.port == 8080,
            r.database_type == DatabaseType::SQLite,
            r.use_sll == false,
            r.use_captcha == false,
            r.new_setup == true,
            r.setup_stage == Some(SetupStage::General),
            r.mysql_settings is None,
            r.sql_settings is None,
            r.postgre_settings is None,
            r.ssl_settings is None,
            r.captcha_settings is None,
            r.wf(),
    {
        BaseSettings {
            name: String::from_str("UnInitalized"),
            domain: String::from_str("forumrs.example.com"),
            ip: String::from_str("127.0.0.1"),
            port: 8080,
            database_type: DatabaseType::SQLite,
            use_sll: false,
            use_captcha: false,
            new_setup: true,
            setup_stage: Some(SetupStage::General),
            mysql_settings: None,
            sql_settings: None,
            postgre_settings: None,
            ssl_settings: None,
            captcha_settings: None,
        }
    }
}

/// Why a loaded configuration record was refused. Any of these is fatal at
/// process startup: the process must not run in an undefined state.
#[derive(Clone, Copy, Debug, PartialEq, Eq, Structural)]
pub enum SettingsError {
    /// The settings file exists but could not be decoded into a record.
    Unreadable,
    /// The stage invariant is violated: the record claims setup is finished
    /// while a stage is still recorded, or claims setup is running without
    /// recording one.
    StageInvariant,
    /// The dialect is SQLite but no SQLite section exists.
    MissingSqliteSection,
    /// The dialect is MySQL but no MySQL section exists.
    MissingMysqlSection,
    /// The dialect is PostgreSQL but no PostgreSQL section exists.
    MissingPostgresSection,
    /// SSL is enabled but there is no SSL section.
    MissingSslSection,
    /// Captcha is enabled but there is no captcha section.
    MissingCaptchaSection,
}

impl SettingsError {
    /// An operator-facing description of the validation failure.
    pub fn message(&self) -> (r: String)
        ensures
            *self == SettingsError::Unreadable ==> r@
                == "Invalid settings file! It could not be decoded or is missing a section."@,
            *self == SettingsError::StageInvariant ==> r@
                == "Invalid setup stage. Something has went wrong during the setup process!"@,
            *self == SettingsError::MissingSqliteSection ==> r@
                == "Database is marked as SQL but a SQL settings section does not exist!"@,
            *self == SettingsError::MissingMysqlSection ==> r@
                == "Database is marked as MySQL but a MySQL settings section does not exist!"@,
            *self == SettingsError::MissingPostgresSection ==> r@
                == "Database is marked as PostgreSQL but a PostgreSQL settings section does not exist!"@,
            *self == SettingsError::MissingSslSection ==> r@
                == "SSL is marked as being used, but there are no SSL settings present."@,
            *self == SettingsError::MissingCaptchaSection ==> r@
                == "Captcha is marked as being used, but there are no captcha settings present."@,
    {
        match self {
            SettingsError::Unreadable => String::from_str(
                "Invalid settings file! It could not be decoded or is missing a section.",
            ),
            SettingsError::StageInvariant => String::from_str(
                "Invalid setup stage. Something has went wrong during the setup process!",
            ),
            SettingsError::MissingSqliteSection => String::from_str(
                "Database is marked as SQL but a SQL settings section does not exist!",
            ),
            SettingsError::MissingMysqlSection => String::from_str(
                "Database is marked as MySQL but a MySQL settings section does not exist!",
            ),
            SettingsError::MissingPostgresSection => String::from_str(
                "Database is marked as PostgreSQL but a PostgreSQL settings section does not exist!",
            ),
            SettingsError::MissingSslSection => String::from_str(
                "SSL is marked as being used, but there are no SSL settings present.",
            ),
            SettingsError::MissingCaptchaSection => String::from_str(
                "Captcha is marked as being used, but there are no captcha settings present.",
            ),
        }
    }
}

/// What `SettingsManager::validate_settings` returns, as a function of the
/// loaded record. While setup is still running the sections may be
/// incomplete, so only the stage invariant is demanded; a committed record
/// must have every section its flags require.
pub open spec fn spec_validate(s: BaseSettings) -> Result<(), SettingsError> {
    if !s.stage_invariant() {
        Err(SettingsError::StageInvariant)
    } else if s.new_setup {
        Ok(())
    } else if s.database_type == DatabaseType::SQLite && s.sql_settings is None {
        Err(SettingsError::MissingSqliteSection)
    } else if s.database_type == DatabaseType::MySQL && s.mysql_settings is None {
        Err(SettingsError::MissingMysqlSection)
    } else if s.database_type == DatabaseType::PostgreSQL && s.postgre_settings is None {
        Err(SettingsError::MissingPostgresSection)
    } else if s.use_sll && s.ssl_settings is None {
        Err(SettingsError::MissingSslSection)
    } else if s.use_captcha && s.captcha_settings is None {
        Err(SettingsError::MissingCaptchaSection)
    } else {
        Ok(())
    }
}

/// The manager that holds the checks applied to a configuration record when
/// it is read back from disk. Reading and writing the file itself is the
/// host's job; the host hands the decoded record here before using it.
pub struct SettingsManager {}

impl SettingsManager {
    /// Validate a loaded configuration record. Returns `Ok` exactly for
    /// well-formed records; any error is fatal at startup.
    pub fn validate_settings(s: &BaseSettings) -> (r: Result<(), SettingsError>)
        ensures
            r == spec_validate(*s),
            r is Ok <==> s.wf(),
    {
        if s.new_setup != s.setup_stage.is_some() {
            return Err(SettingsError::StageInvariant);
        }
        if s.new_setup {
            return Ok(());
        }
        match s.database_type {
            DatabaseType::SQLite => {
                if s.sql_settings.is_none() {
                    return Err(SettingsError::MissingSqliteSection);
                }
            },
            DatabaseType::MySQL => {
                if s.mysql_settings.is_none() {
                    return Err(SettingsError::MissingMysqlSection);
                }
            },
            DatabaseType::PostgreSQL => {
                if s.postgre_settings.is_none() {
                    return Err(SettingsError::MissingPostgresSection);
                }
            },
        }
        if s.use_sll && s.ssl_settings.is_none() {
            return Err(SettingsError::MissingSslSection);
        }
        if s.use_captcha && s.captcha_settings.is_none() {
            return Err(SettingsError::MissingCaptchaSection);
        }
        Ok(())
    }
}

} // verus!
