//! Regions, constants and the small pure helpers the flows are built from.

pub mod auth_constants;
pub mod common;
pub mod constants;
pub mod ds;
pub mod json;
pub mod routes;
pub mod text;
