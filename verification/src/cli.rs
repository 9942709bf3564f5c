//! The commands of the `sm` command line and their arguments.
//!
//! Parsing the command line into these values happens outside this library.
use vstd::prelude::*;

verus! {

/// slashmem: a local memory store for AI agents.
#[derive(Debug)]
pub struct Cli {
    pub command: Commands,
}

/// The subcommands.
#[derive(Debug)]
pub enum Commands {
    /// Query memory for relevant context given a task description.
    Context(ContextArgs),
    /// Ingest an episodic record and process rule markers.
    Ingest(IngestArgs),
    /// Run confidence decay, maturity transitions, and pruning.
    Distill,
}

/// Arguments for the `context` subcommand.
#[derive(Debug)]
pub struct ContextArgs {
    /// Task description to search for relevant memories.
    pub description: String,
    /// Output as JSON.
    pub json: bool,
}

/// Arguments for the `ingest` subcommand.
#[derive(Debug)]
pub struct IngestArgs {
    /// Task identifier.
    pub task: String,
    /// Body text.
    pub body: String,
    /// Agent identifier.
    pub agent: String,
    /// Procedural rule ids whose confidence should increase (repeatable).
    pub success: Vec<String>,
    /// Procedural rule ids whose confidence should decrease (repeatable).
    pub harm: Vec<String>,
}

} // verus!
