//! The values exchanged with the service: challenges, proofs and session results.

pub mod auth;
pub mod common;
