//! Hidden Markov Model bookkeeping: model configuration, the counting of
//! free parameters for model selection, the splitting of concatenated
//! observation sequences, and the validation of parameter shapes.

pub mod base;
pub mod emissions;
pub mod error;
pub mod prelude;
pub mod utils;
pub mod vhmm;
