//! The parts a login is made of: challenge solvers and the login flows.

pub mod auth;
pub mod captcha;
