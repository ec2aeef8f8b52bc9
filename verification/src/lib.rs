//! Scaffolds a new backend-service project by delegating creation to an
//! external tool, then augmenting the result with a fixed dependency set and
//! an idempotent template merge.
//!
//! The library holds the decision logic of that flow: name validation, the
//! interpretation of each subprocess outcome, the per-file template
//! reconciliation rule, and the orchestrating state machine. Performing the
//! outside work — spawning the tool, reading the terminal, touching the
//! filesystem — is left to the embedding program, which drives the state
//! machine by feeding back what each step reported.

pub mod cli;
pub mod error;
pub mod generator;
pub mod merge;
pub mod orchestrator;
pub mod text;

pub use cli::Cli;
pub use error::BunCliError;
pub use generator::{ProjectConfig, ProjectGenerator};
