//! Referential validation of a shader module.
//!
//! A module is made of arenas: append-only collections whose entities refer
//! to one another by handle, a 1-based ordinal into one arena. Validation
//! checks, in one pass and a fixed order, that every handle names an entity
//! that exists, and that every handle into the arena of its user names an
//! entity defined before that user. The first reference that is not
//! well-formed ends the pass with an error.
//!
//! - `arena`: handles and arenas.
//! - `ir`: the entities of a module.
//! - `describe`, `descriptor`: what diagnostics say of a handle, the
//!   ordering check, and the errors.
//! - `checks`, `model`: the checks that validation makes, as mathematical
//!   values, and what it reports.
//! - `valid`: the validator.
//! - `laws`: what holds of validation on every module.
//! - `snapshots`, `harness`: the configuration and the decisions of the
//!   commands that validate snapshots of generated shaders.

pub mod arena;
pub mod checks;
pub mod describe;
pub mod descriptor;
pub mod harness;
pub mod ir;
pub mod laws;
pub mod model;
pub mod snapshots;
pub mod valid;
