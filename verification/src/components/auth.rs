//! Login flows and the endpoints they talk to.

pub mod app;
pub mod classify;
pub mod flow;
pub mod web;
pub mod wire;
