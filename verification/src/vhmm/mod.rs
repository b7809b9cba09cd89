//! Variational Bayes emission models: the rules on their parameter counts
//! and initial parameter choices.

pub mod categorical;
pub mod gaussian;
