//! First-run configuration wizard core for the ForumRS server.
//!
//! The wizard walks an operator through an ordered sequence of guarded setup
//! stages (general settings, security, storage backend selection, account
//! creation, completion) before the main application is allowed to run.
//! This crate holds the verified core: the stage-gated state machine, the
//! session authenticator, input validation, the storage provisioner's
//! decision logic, and the codec for the persisted configuration record.
//! HTTP routing, template rendering and the actual database connections are
//! left to the unverified host around this library.

pub mod codec;
pub mod flow;
pub mod provision;
pub mod schema;
pub mod session;
pub mod settings;
pub mod stage;
pub mod text;
