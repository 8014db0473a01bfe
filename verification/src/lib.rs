//! Monte Carlo estimation of pi, split into a verified integer core and a
//! thin floating-point shell.
//!
//! The verified core is the counter-based pseudo-random generator (a
//! PCG-style integer hash) whose chained outputs drive the estimator, the
//! seed sampling that feeds each estimator run, and the iteration
//! accounting that the final report states. The floating-point averaging
//! itself lives outside the library, since it carries no integer logic of
//! its own.

pub mod driver;
pub mod pcg;
