//! Property-based value generation for symbolic execution: strategies
//! describe the shape of a value, and drawing one from a path either yields a
//! value or ends the path silently.
pub mod annotations;
pub mod collection;
pub mod laws;
pub mod queue;
pub mod regressions;
pub mod scalar;
pub mod strategy;
pub mod symbolic;

pub use annotations::{
    verifier_abort, verifier_assume, verifier_is_replay, verifier_reject, verifier_report_error,
    verifier_verify, Failure, Halt, Outcome, Path,
};
pub use strategy::{Just, Strategy, StrategyExt};
