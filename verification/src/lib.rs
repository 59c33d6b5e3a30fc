//! Orchestration core for generating and publishing a bootstrap seed.
//!
//! The library holds the decision logic of the workflow: loading and
//! validating the operator's seed descriptor, planning the destructive
//! re-staging of the runtime's identity directory, building and rendering
//! the temporary bootstrap configuration, detecting the runtime's readiness
//! marker in its log stream, and sequencing all of these phases so that
//! nothing destructive happens before the operator has confirmed and the
//! descriptor has parsed. All input/output (prompting, the filesystem, the
//! child process and its log channel) is driven by a thin binary that feeds
//! plain values into these functions and carries their decisions out.

pub mod bootstrap;
pub mod datetime;
pub mod detect;
pub mod error;
pub mod json;
pub mod languages;
pub mod orchestrate;
pub mod perspectives;
pub mod seed;
pub mod stage;
pub mod text;
