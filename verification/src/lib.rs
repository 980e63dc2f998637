//! Progress reporting, cooperative cancellation and frame-quality statistics
//! for a multi-stage image stacking pipeline.
//!
//! The crate holds the decisions of the pipeline and none of its effects: the
//! caller runs the image collaborators, delivers the progress messages and
//! hands every event back to the [`process::Orchestrator`].

pub mod cancel;
pub mod counter;
pub mod laws;
pub mod model;
pub mod output;
pub mod process;
pub mod sigma;
pub mod stage;
pub mod state;
pub mod taskstatus;
