//! Schema-migration planning and database-access decisions for the ntd
//! backend, verified with Verus.
pub mod text;
pub mod migrations;
pub mod migration;
pub mod project_directory;
pub mod schedule;
pub mod usage;
pub mod process_artifact;
pub mod connection;
pub mod execution_logs;
