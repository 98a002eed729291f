//! Univariate distributions.

pub mod chi_sq;
