//! Metropolis random walks over a Gaussian target: the accept/reject rule,
//! candidates and walkers, the ensemble of walkers, and the controller that
//! turns user commands into simulation steps.
//!
//! Positions are generic: the library decides which position a walker keeps
//! and never does arithmetic on it, so the caller chooses the coordinate type.
//! Probabilities are fixed-point thresholds on the same 53-bit grid that a
//! uniform `[0, 1)` draw from `rand` lands on, which makes the decision rule
//! exact.
pub mod control;
pub mod ensemble;
pub mod error;
pub mod metropolis;
pub mod transition;
