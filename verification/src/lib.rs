//! Planning requests, their validation, and the one-shot handle through which
//! a caller follows a planning run that executes on a worker.

pub mod config;
pub mod error;
pub mod future;
pub mod geometry;
pub mod outcome;
pub mod path;
pub mod planner;
pub mod scalar;
