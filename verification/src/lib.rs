//! A local memory store for AI agents: episodic records, working-memory
//! summaries and procedural rules whose confidence grows with successes,
//! shrinks with failures and decays with time.

pub mod cli;
pub mod exit_codes;
pub mod text;
pub mod confidence;
pub mod error;
pub mod format;
pub mod output;
pub mod schema;
pub mod ingest;
pub mod context;
pub mod distill;
pub mod db;
