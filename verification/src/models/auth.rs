//! Models of the authentication endpoints.

pub mod cookie;
pub mod geetest;
pub mod qrcode;
pub mod verification;
