//! The post-setup schema: the statement text, per dialect, with which the
//! host creates the forum's tables, inserts the first rows, and creates or
//! drops whole databases. Running the statements is the host's job.

use vstd::prelude::*;

use crate::settings::DatabaseType;

verus! {

/// The version row the forum keeps about itself.
pub struct ForumRSTable {
    pub id: i64,
    pub name: String,
    pub ver: String,
}

/// The users table. This stores information about the user.
pub struct Users {}

/// The table for user sessions. This stores active login sessions.
pub struct Sessions {}

/// The table to store thread data.
pub struct Threads {}

/// The table to store post data.
pub struct Posts {}

/// The table of forums.
pub struct Forums {}

/// The table of banned users.
pub struct BannedUsers {}

impl Users {
    /// The statement that creates the users table in the given dialect.
    pub open spec fn spec_create_sql(db_type: DatabaseType) -> Seq<char> {
        match db_type {
            DatabaseType::SQLite => "CREATE TABLE IF NOT EXISTS users (id INTEGER PRIMARY KEY, uuid VARCHAR(40) NOT NULL, username VARCHAR(40) NOT NULL, email VARCHAR(255) NOT NULL, password VARCHAR(100) NOT NULL, is_banned TINYINT NOT NULL, is_admin TINYINT NOT NULL, date INTEGER DEFAULT CURRENT_TIMESTAMP)"@,
            DatabaseType::MySQL => "CREATE TABLE IF NOT EXISTS users (id INTEGER PRIMARY KEY, uuid VARCHAR(40) NOT NULL, username VARCHAR(40) NOT NULL, email VARCHAR(255) NOT NULL, password VARCHAR(100) NOT NULL, is_banned BOOL NOT NULL, is_admin BOOL NOT NULL, date TIMESTAMP DEFAULT CURRENT_TIMESTAMP)"@,
            DatabaseType::PostgreSQL => "CREATE TABLE IF NOT EXISTS users (id SERIAL PRIMARY KEY, uuid VARCHAR(40) NOT NULL, username VARCHAR(40) NOT NULL, email VARCHAR(255) NOT NULL, password VARCHAR(100) NOT NULL, is_banned BOOL NOT NULL, is_admin BOOL NOT NULL, date TIMESTAMP DEFAULT CURRENT_TIMESTAMP)"@,
        }
    }

    /// The create statement for the given dialect.
    pub fn create_sql(db_type: DatabaseType) -> (r: &'static str)
        ensures
            r@ == Self::spec_create_sql(db_type),
    {
        match db_type {
            DatabaseType::SQLite => "CREATE TABLE IF NOT EXISTS users (id INTEGER PRIMARY KEY, uuid VARCHAR(40) NOT NULL, username VARCHAR(40) NOT NULL, email VARCHAR(255) NOT NULL, password VARCHAR(100) NOT NULL, is_banned TINYINT NOT NULL, is_admin TINYINT NOT NULL, date INTEGER DEFAULT CURRENT_TIMESTAMP)",
            DatabaseType::MySQL => "CREATE TABLE IF NOT EXISTS users (id INTEGER PRIMARY KEY, uuid VARCHAR(40) NOT NULL, username VARCHAR(40) NOT NULL, email VARCHAR(255) NOT NULL, password VARCHAR(100) NOT NULL, is_banned BOOL NOT NULL, is_admin BOOL NOT NULL, date TIMESTAMP DEFAULT CURRENT_TIMESTAMP)",
            DatabaseType::PostgreSQL => "CREATE TABLE IF NOT EXISTS users (id SERIAL PRIMARY KEY, uuid VARCHAR(40) NOT NULL, username VARCHAR(40) NOT NULL, email VARCHAR(255) NOT NULL, password VARCHAR(100) NOT NULL, is_banned BOOL NOT NULL, is_admin BOOL NOT NULL, date TIMESTAMP DEFAULT CURRENT_TIMESTAMP)",
        }
    }

    /// The drop statement.
    pub fn drop_sql() -> (r: &'static str)
        ensures
            r@ == "DROP TABLE users"@,
    {
        "DROP TABLE users"
    }

    /// The statement that inserts a user, in the given dialect's placeholder
    /// style: `?` for SQLite and MySQL, `$n` for PostgreSQL. The host binds
    /// uuid, username, email, hashed password, is_banned and is_admin in
    /// that order (the flags as integers where `bind_flag` says so).
    pub fn insert_sql(db_type: DatabaseType) -> (r: &'static str)
        ensures
            db_type != DatabaseType::PostgreSQL ==> r@
                == "INSERT INTO users (uuid, username, email, password, is_banned, is_admin) VALUES (?, ?, ?, ?, ?, ?)"@,
            db_type == DatabaseType::PostgreSQL ==> r@
                == "INSERT INTO users (uuid, username, email, password, is_banned, is_admin) VALUES ($1, $2, $3, $4, $5, $6);"@,
    {
        match db_type {
            DatabaseType::PostgreSQL => "INSERT INTO users (uuid, username, email, password, is_banned, is_admin) VALUES ($1, $2, $3, $4, $5, $6);",
            _ => "INSERT INTO users (uuid, username, email, password, is_banned, is_admin) VALUES (?, ?, ?, ?, ?, ?)",
        }
    }
}

/// Whether the dialect takes boolean columns as integers: SQLite and MySQL
/// inserts bind 1 or 0, PostgreSQL binds a boolean directly.
pub fn binds_flags_as_int(db_type: DatabaseType) -> (r: bool)
    ensures
        r == (db_type != DatabaseType::PostgreSQL),
{
    match db_type {
        DatabaseType::PostgreSQL => false,
        _ => true,
    }
}

/// The integer a flag is bound as where the dialect takes integers.
pub fn bind_flag(b: bool) -> (r: i32)
    ensures
        r == if b {
            1int
        } else {
            0int
        },
{
    if b {
        1
    } else {
        0
    }
}

impl Sessions {
    /// The statement that creates the sessions table in the given dialect.
    pub open spec fn spec_create_sql(db_type: DatabaseType) -> Seq<char> {
        match db_type {
            DatabaseType::PostgreSQL => "CREATE TABLE IF NOT EXISTS sessions (id SERIAL PRIMARY KEY, session_uuid VARCHAR(40) NOT NULL, user_uuid VARCHAR(40) NOT NULL, session_creation BIGINT)"@,
            _ => "CREATE TABLE IF NOT EXISTS sessions (id INTEGER PRIMARY KEY, session_uuid VARCHAR(40) NOT NULL, user_uuid VARCHAR(40) NOT NULL, session_creation BIGINT)"@,
        }
    }

    /// The create statement for the given dialect.
    pub fn create_sql(db_type: DatabaseType) -> (r: &'static str)
        ensures
            r@ == Self::spec_create_sql(db_type),
    {
        match db_type {
            DatabaseType::PostgreSQL => "CREATE TABLE IF NOT EXISTS sessions (id SERIAL PRIMARY KEY, session_uuid VARCHAR(40) NOT NULL, user_uuid VARCHAR(40) NOT NULL, session_creation BIGINT)",
            _ => "CREATE TABLE IF NOT EXISTS sessions (id INTEGER PRIMARY KEY, session_uuid VARCHAR(40) NOT NULL, user_uuid VARCHAR(40) NOT NULL, session_creation BIGINT)",
        }
    }

    /// The drop statement.
    pub fn drop_sql() -> (r: &'static str)
        ensures
            r@ == "DROP TABLE sessions"@,
    {
        "DROP TABLE sessions"
    }
}

impl Threads {
    /// The statement that creates the threads table in the given dialect.
    pub open spec fn spec_create_sql(db_type: DatabaseType) -> Seq<char> {
        match db_type {
            DatabaseType::SQLite => "CREATE TABLE IF NOT EXISTS threads (id INTEGER PRIMARY KEY, uuid VARCHAR(40) NOT NULL, forum_uuid VARCHAR(40) NOT NULL, name VARCHAR(100) NOT NULL, content TEXT NOT NULL, creator VARCHAR(40) NOT NULL, locked TINYINT NOT NULL, date INTEGER DEFAULT CURRENT_TIMESTAMP)"@,
            DatabaseType::MySQL => "CREATE TABLE IF NOT EXISTS threads (id INTEGER PRIMARY KEY, uuid VARCHAR(40) NOT NULL, forum_uuid VARCHAR(40) NOT NULL, name VARCHAR(100) NOT NULL, content TEXT NOT NULL, creator VARCHAR(40) NOT NULL, locked TINYINT NOT NULL, date TIMESTAMP DEFAULT CURRENT_TIMESTAMP)"@,
            DatabaseType::PostgreSQL => "CREATE TABLE IF NOT EXISTS threads (id SERIAL PRIMARY KEY, uuid VARCHAR(40) NOT NULL, forum_uuid VARCHAR(40) NOT NULL, name VARCHAR(100) NOT NULL, content TEXT NOT NULL, creator VARCHAR(40) NOT NULL, locked SMALLINT NOT NULL, date TIMESTAMP DEFAULT CURRENT_TIMESTAMP)"@,
        }
    }

    /// The create statement for the given dialect.
    pub fn create_sql(db_type: DatabaseType) -> (r: &'static str)
        ensures
            r@ == Self::spec_create_sql(db_type),
    {
        match db_type {
            DatabaseType::SQLite => "CREATE TABLE IF NOT EXISTS threads (id INTEGER PRIMARY KEY, uuid VARCHAR(40) NOT NULL, forum_uuid VARCHAR(40) NOT NULL, name VARCHAR(100) NOT NULL, content TEXT NOT NULL, creator VARCHAR(40) NOT NULL, locked TINYINT NOT NULL, date INTEGER DEFAULT CURRENT_TIMESTAMP)",
            DatabaseType::MySQL => "CREATE TABLE IF NOT EXISTS threads (id INTEGER PRIMARY KEY, uuid VARCHAR(40) NOT NULL, forum_uuid VARCHAR(40) NOT NULL, name VARCHAR(100) NOT NULL, content TEXT NOT NULL, creator VARCHAR(40) NOT NULL, locked TINYINT NOT NULL, date TIMESTAMP DEFAULT CURRENT_TIMESTAMP)",
            DatabaseType::PostgreSQL => "CREATE TABLE IF NOT EXISTS threads (id SERIAL PRIMARY KEY, uuid VARCHAR(40) NOT NULL, forum_uuid VARCHAR(40) NOT NULL, name VARCHAR(100) NOT NULL, content TEXT NOT NULL, creator VARCHAR(40) NOT NULL, locked SMALLINT NOT NULL, date TIMESTAMP DEFAULT CURRENT_TIMESTAMP)",
        }
    }

    /// The drop statement.
    pub fn drop_sql() -> (r: &'static str)
        ensures
            r@ == "DROP TABLE threads"@,
    {
        "DROP TABLE threads"
    }
}

impl Posts {
    /// The statement that creates the posts table in the given dialect.
    pub open spec fn spec_create_sql(db_type: DatabaseType) -> Seq<char> {
        match db_type {
            DatabaseType::SQLite => "CREATE TABLE IF NOT EXISTS posts (id INTEGER PRIMARY KEY, uuid VARCHAR(40) NOT NULL, thread_uuid VARCHAR(40) NOT NULL, creator VARCHAR(40) NOT NULL, content TEXT NOT NULL, date INTEGER DEFAULT CURRENT_TIMESTAMP)"@,
            DatabaseType::MySQL => "CREATE TABLE IF NOT EXISTS posts (id INTEGER PRIMARY KEY, uuid VARCHAR(40) NOT NULL, thread_uuid VARCHAR(40) NOT NULL, creator VARCHAR(40) NOT NULL, content TEXT NOT NULL, date TIMESTAMP DEFAULT CURRENT_TIMESTAMP)"@,
            DatabaseType::PostgreSQL => "CREATE TABLE IF NOT EXISTS posts (id SERIAL PRIMARY KEY, uuid VARCHAR(40) NOT NULL, thread_uuid VARCHAR(40) NOT NULL, creator VARCHAR(40) NOT NULL, content TEXT NOT NULL, date TIMESTAMP DEFAULT CURRENT_TIMESTAMP)"@,
        }
    }

    /// The create statement for the given dialect.
    pub fn create_sql(db_type: DatabaseType) -> (r: &'static str)
        ensures
            r@ == Self::spec_create_sql(db_type),
    {
        match db_type {
            DatabaseType::SQLite => "CREATE TABLE IF NOT EXISTS posts (id INTEGER PRIMARY KEY, uuid VARCHAR(40) NOT NULL, thread_uuid VARCHAR(40) NOT NULL, creator VARCHAR(40) NOT NULL, content TEXT NOT NULL, date INTEGER DEFAULT CURRENT_TIMESTAMP)",
            DatabaseType::MySQL => "CREATE TABLE IF NOT EXISTS posts (id INTEGER PRIMARY KEY, uuid VARCHAR(40) NOT NULL, thread_uuid VARCHAR(40) NOT NULL, creator VARCHAR(40) NOT NULL, content TEXT NOT NULL, date TIMESTAMP DEFAULT CURRENT_TIMESTAMP)",
            DatabaseType::PostgreSQL => "CREATE TABLE IF NOT EXISTS posts (id SERIAL PRIMARY KEY, uuid VARCHAR(40) NOT NULL, thread_uuid VARCHAR(40) NOT NULL, creator VARCHAR(40) NOT NULL, content TEXT NOT NULL, date TIMESTAMP DEFAULT CURRENT_TIMESTAMP)",
        }
    }

    /// The drop statement.
    pub fn drop_sql() -> (r: &'static str)
        ensures
            r@ == "DROP TABLE posts"@,
    {
        "DROP TABLE posts"
    }
}

impl Forums {
    /// The statement that creates the forums table in the given dialect.
    pub open spec fn spec_create_sql(db_type: DatabaseType) -> Seq<char> {
        match db_type {
            DatabaseType::SQLite => "CREATE TABLE IF NOT EXISTS forums (id INTEGER PRIMARY KEY, uuid VARCHAR(40) NOT NULL, name VARCHAR(100) NOT NULL, caption TINYTEXT NOT NULL, date INTEGER DEFAULT CURRENT_TIMESTAMP)"@,
            DatabaseType::MySQL => "CREATE TABLE IF NOT EXISTS forums (id INTEGER PRIMARY KEY, uuid VARCHAR(40) NOT NULL, name VARCHAR(100) NOT NULL, caption TINYTEXT NOT NULL, date TIMESTAMP DEFAULT CURRENT_TIMESTAMP)"@,
            DatabaseType::PostgreSQL => "CREATE TABLE IF NOT EXISTS forums (id SERIAL PRIMARY KEY, uuid VARCHAR(40) NOT NULL, name VARCHAR(100) NOT NULL, caption VARCHAR(255) NOT NULL, date TIMESTAMP DEFAULT CURRENT_TIMESTAMP)"@,
        }
    }

    /// The create statement for the given dialect.
    pub fn create_sql(db_type: DatabaseType) -> (r: &'static str)
        ensures
            r@ == Self::spec_create_sql(db_type),
    {
        match db_type {
            DatabaseType::SQLite => "CREATE TABLE IF NOT EXISTS forums (id INTEGER PRIMARY KEY, uuid VARCHAR(40) NOT NULL, name VARCHAR(100) NOT NULL, caption TINYTEXT NOT NULL, date INTEGER DEFAULT CURRENT_TIMESTAMP)",
            DatabaseType::MySQL => "CREATE TABLE IF NOT EXISTS forums (id INTEGER PRIMARY KEY, uuid VARCHAR(40) NOT NULL, name VARCHAR(100) NOT NULL, caption TINYTEXT NOT NULL, date TIMESTAMP DEFAULT CURRENT_TIMESTAMP)",
            DatabaseType::PostgreSQL => "CREATE TABLE IF NOT EXISTS forums (id SERIAL PRIMARY KEY, uuid VARCHAR(40) NOT NULL, name VARCHAR(100) NOT NULL, caption VARCHAR(255) NOT NULL, date TIMESTAMP DEFAULT CURRENT_TIMESTAMP)",
        }
    }

    /// The drop statement.
    pub fn drop_sql() -> (r: &'static str)
        ensures
            r@ == "DROP TABLE forums"@,
    {
        "DROP TABLE forums"
    }

    /// The statement that inserts a forum, in the dialect's placeholder
    /// style; the host binds uuid, name and caption in that order.
    pub fn insert_sql(db_type: DatabaseType) -> (r: &'static str)
        ensures
            db_type != DatabaseType::PostgreSQL ==> r@
                == "INSERT INTO forums (uuid, name, caption) VALUES (?, ?, ?);"@,
            db_type == DatabaseType::PostgreSQL ==> r@
                == "INSERT INTO forums (uuid, name, caption) VALUES ($1, $2, $3);"@,
    {
        match db_type {
            DatabaseType::PostgreSQL => "INSERT INTO forums (uuid, name, caption) VALUES ($1, $2, $3);",
            _ => "INSERT INTO forums (uuid, name, caption) VALUES (?, ?, ?);",
        }
    }
}

impl BannedUsers {
    /// The statement that creates the banned-users table in the dialect.
    pub open spec fn spec_create_sql(db_type: DatabaseType) -> Seq<char> {
        match db_type {
            DatabaseType::SQLite => "CREATE TABLE IF NOT EXISTS banned_users (id INTEGER PRIMARY KEY, user_uuid VARCHAR(40) NOT NULL, ban_date INTEGER NOT NULL, unban_date INTEGER NOT NULL, date INTEGER DEFAULT CURRENT_TIMESTAMP)"@,
            DatabaseType::MySQL => "CREATE TABLE IF NOT EXISTS banned_users (id INTEGER PRIMARY KEY, user_uuid VARCHAR(40) NOT NULL, ban_date INTEGER NOT NULL, unban_date INTEGER NOT NULL, date TIMESTAMP DEFAULT CURRENT_TIMESTAMP)"@,
            DatabaseType::PostgreSQL => "CREATE TABLE IF NOT EXISTS banned_users (id SERIAL PRIMARY KEY, user_uuid VARCHAR(40) NOT NULL, ban_date INTEGER NOT NULL, unban_date INTEGER NOT NULL, date TIMESTAMP DEFAULT CURRENT_TIMESTAMP)"@,
        }
    }

    /// The create statement for the given dialect.
    pub fn create_sql(db_type: DatabaseType) -> (r: &'static str)
        ensures
            r@ == Self::spec_create_sql(db_type),
    {
        match db_type {
            DatabaseType::SQLite => "CREATE TABLE IF NOT EXISTS banned_users (id INTEGER PRIMARY KEY, user_uuid VARCHAR(40) NOT NULL, ban_date INTEGER NOT NULL, unban_date INTEGER NOT NULL, date INTEGER DEFAULT CURRENT_TIMESTAMP)",
            DatabaseType::MySQL => "CREATE TABLE IF NOT EXISTS banned_users (id INTEGER PRIMARY KEY, user_uuid VARCHAR(40) NOT NULL, ban_date INTEGER NOT NULL, unban_date INTEGER NOT NULL, date TIMESTAMP DEFAULT CURRENT_TIMESTAMP)",
            DatabaseType::PostgreSQL => "CREATE TABLE IF NOT EXISTS banned_users (id SERIAL PRIMARY KEY, user_uuid VARCHAR(40) NOT NULL, ban_date INTEGER NOT NULL, unban_date INTEGER NOT NULL, date TIMESTAMP DEFAULT CURRENT_TIMESTAMP)",
        }
    }

    /// The drop statement.
    pub fn drop_sql() -> (r: &'static str)
        ensures
            r@ == "DROP TABLE banned_users"@,
    {
        "DROP TABLE banned_users"
    }
}

/// The statement that creates a whole MySQL database of the given name.
pub fn mysql_create_database_sql(db_name: &str) -> (r: String)
    ensures
        r@ == "CREATE DATABASE IF NOT EXISTS "@ + db_name@,
{
    let mut q = String::from_str("CREATE DATABASE IF NOT EXISTS ");
    q.append(db_name);
    q
}

/// The statement that creates a whole PostgreSQL database of the given
/// name.
pub fn postgres_create_database_sql(db_name: &str) -> (r: String)
    ensures
        r@ == "CREATE DATABASE "@ + db_name@ + ";"@,
{
    let mut q = String::from_str("CREATE DATABASE ");
    q.append(db_name);
    q.append(";");
    proof {
        assert(q@ =~= "CREATE DATABASE "@ + db_name@ + ";"@);
    }
    q
}

/// The table-creation statements of a fresh schema, in the order the host
/// runs them: users, sessions, threads, posts, forums, banned users. The
/// database (or SQLite file) itself must already exist.
pub fn schema_statements(db_type: DatabaseType) -> (r: Vec<&'static str>)
    ensures
        r@.len() == 6,
        r@[0]@ == Users::spec_create_sql(db_type),
        r@[1]@ == Sessions::spec_create_sql(db_type),
        r@[2]@ == Threads::spec_create_sql(db_type),
        r@[3]@ == Posts::spec_create_sql(db_type),
        r@[4]@ == Forums::spec_create_sql(db_type),
        r@[5]@ == BannedUsers::spec_create_sql(db_type),
{
    let mut v: Vec<&'static str> = Vec::new();
    v.push(Users::create_sql(db_type));
    v.push(Sessions::create_sql(db_type));
    v.push(Threads::create_sql(db_type));
    v.push(Posts::create_sql(db_type));
    v.push(Forums::create_sql(db_type));
    v.push(BannedUsers::create_sql(db_type));
    v
}

} // verus!
