//! Verified core of a save-conversion pipeline: a legacy voxel-world save is
//! loaded, converted and serialized by external collaborators, and the two
//! resulting string artifacts are delivered either into a browser storage file
//! or as a script for a browser console. This crate holds the decision core:
//! the configuration model, its key-normalization rule, the unified error
//! union, the dual delivery modes, and the stage-by-stage orchestration,
//! stated as a state machine whose every transition is proved.

pub mod config;
pub mod errors;
pub mod laws;
pub mod pipeline;
pub mod text;
