//! Splitting a secret into `n` shares of which any `k` recover it, and
//! recovering it: argument checks, share file naming, the split and recover
//! workflows around the sharing engine, and a chained error report.

pub mod engine;
pub mod errors;
pub mod input;
pub mod naming;
pub mod recover;
pub mod split;
pub mod text;
pub mod validators;
