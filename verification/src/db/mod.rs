//! The three memory layers stored in SQLite, and where the database lives.

pub mod sql;
pub mod episodic;
pub mod working;
pub mod procedural;
pub mod schema;
pub mod init;
