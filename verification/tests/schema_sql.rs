use forumrs::schema::bind_flag;
use forumrs::schema::binds_flags_as_int;
use forumrs::schema::mysql_create_database_sql;
use forumrs::schema::postgres_create_database_sql;
use forumrs::schema::schema_statements;
use forumrs::schema::BannedUsers;
use forumrs::schema::Forums;
use forumrs::schema::Posts;
use forumrs::schema::Sessions;
use forumrs::schema::Threads;
use forumrs::schema::Users;
use forumrs::settings::DatabaseType;
use forumrs::stage::SetupStage;

#[test]
fn users_create_sql_per_dialect() {
    let sqlite = Users::create_sql(DatabaseType::SQLite);
    assert!(sqlite.starts_with("CREATE TABLE IF NOT EXISTS users (id INTEGER PRIMARY KEY"));
    assert!(sqlite.contains("is_banned TINYINT NOT NULL"));
    assert!(sqlite.contains("date INTEGER DEFAULT CURRENT_TIMESTAMP"));
    let mysql = Users::create_sql(DatabaseType::MySQL);
    assert!(mysql.contains("is_banned BOOL NOT NULL"));
    assert!(mysql.contains("date TIMESTAMP DEFAULT CURRENT_TIMESTAMP"));
    let pg = Users::create_sql(DatabaseType::PostgreSQL);
    assert!(pg.starts_with("CREATE TABLE IF NOT EXISTS users (id SERIAL PRIMARY KEY"));
    assert!(pg.contains("is_admin BOOL NOT NULL"));
}

#[test]
fn users_insert_sql_placeholder_styles() {
    assert_eq!(
        Users::insert_sql(DatabaseType::SQLite),
        "INSERT INTO users (uuid, username, email, password, is_banned, is_admin) VALUES (?, ?, ?, ?, ?, ?)"
    );
    assert_eq!(
        Users::insert_sql(DatabaseType::MySQL),
        "INSERT INTO users (uuid, username, email, password, is_banned, is_admin) VALUES (?, ?, ?, ?, ?, ?)"
    );
    assert_eq!(
        Users::insert_sql(DatabaseType::PostgreSQL),
        "INSERT INTO users (uuid, username, email, password, is_banned, is_admin) VALUES ($1, $2, $3, $4, $5, $6);"
    );
}

#[test]
fn flags_bind_as_integers_except_postgres() {
    assert!(binds_flags_as_int(DatabaseType::SQLite));
    assert!(binds_flags_as_int(DatabaseType::MySQL));
    assert!(!binds_flags_as_int(DatabaseType::PostgreSQL));
    assert_eq!(bind_flag(true), 1);
    assert_eq!(bind_flag(false), 0);
}

#[test]
fn forums_insert_sql_placeholder_styles() {
    assert_eq!(
        Forums::insert_sql(DatabaseType::MySQL),
        "INSERT INTO forums (uuid, name, caption) VALUES (?, ?, ?);"
    );
    assert_eq!(
        Forums::insert_sql(DatabaseType::PostgreSQL),
        "INSERT INTO forums (uuid, name, caption) VALUES ($1, $2, $3);"
    );
}

#[test]
fn forums_caption_column_per_dialect() {
    assert!(Forums::create_sql(DatabaseType::MySQL).contains("caption TINYTEXT NOT NULL"));
    assert!(Forums::create_sql(DatabaseType::PostgreSQL).contains("caption VARCHAR(255) NOT NULL"));
}

#[test]
fn threads_locked_column_per_dialect() {
    assert!(Threads::create_sql(DatabaseType::MySQL).contains("locked TINYINT NOT NULL"));
    assert!(Threads::create_sql(DatabaseType::PostgreSQL).contains("locked SMALLINT NOT NULL"));
}

#[test]
fn drop_statements() {
    assert_eq!(Users::drop_sql(), "DROP TABLE users");
    assert_eq!(Sessions::drop_sql(), "DROP TABLE sessions");
    assert_eq!(Threads::drop_sql(), "DROP TABLE threads");
    assert_eq!(Posts::drop_sql(), "DROP TABLE posts");
    assert_eq!(Forums::drop_sql(), "DROP TABLE forums");
    assert_eq!(BannedUsers::drop_sql(), "DROP TABLE banned_users");
}

#[test]
fn create_database_statements() {
    assert_eq!(
        mysql_create_database_sql("forumdb"),
        "CREATE DATABASE IF NOT EXISTS forumdb"
    );
    assert_eq!(postgres_create_database_sql("forumdb"), "CREATE DATABASE forumdb;");
}

#[test]
fn schema_statements_in_order() {
    for d in [DatabaseType::SQLite, DatabaseType::MySQL, DatabaseType::PostgreSQL] {
        let v = schema_statements(d);
        assert_eq!(v.len(), 6);
        assert!(v[0].contains("users"));
        assert!(v[1].contains("sessions"));
        assert!(v[2].contains("threads"));
        assert!(v[3].contains("posts"));
        assert!(v[4].contains("forums"));
        assert!(v[5].contains("banned_users"));
    }
}

#[test]
fn dialect_lowercase_names() {
    assert_eq!(DatabaseType::MySQL.to_lowercase_string(), "mysql");
    assert_eq!(DatabaseType::SQLite.to_lowercase_string(), "sqlite");
    assert_eq!(DatabaseType::PostgreSQL.to_lowercase_string(), "postgresql");
}

#[test]
fn stage_names_and_paths() {
    assert_eq!(SetupStage::General.lowercase_name(), "general");
    assert_eq!(SetupStage::ExistingStorage.lowercase_name(), "existingstorage");
    assert_eq!(SetupStage::General.path(), "/general");
    assert_eq!(SetupStage::Security.path(), "/security");
    assert_eq!(SetupStage::Storage.path(), "/storage");
    assert_eq!(SetupStage::ExistingStorage.path(), "/existingstorage");
    assert_eq!(SetupStage::AccountCreation.path(), "/accountcreation");
    assert_eq!(SetupStage::Finished.path(), "/finished");
}
