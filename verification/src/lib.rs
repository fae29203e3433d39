//! Login and challenge orchestration for the HoYoLAB and Miyoushe account
//! services.
//!
//! The library decides and the caller talks to the network. It encrypts
//! credentials, signs requests with a dynamic secret, builds each request
//! whole, classifies each response, and drives a login through at most one
//! retry when the service asks for a challenge. Everything it decides is
//! stated in the contracts of its functions and proved with Verus; what it
//! takes on trust from other crates is marked where it stands.
//!
//! - [`utils`]: the encryptor, the signer, JSON and text helpers, constants.
//! - [`models`]: requests, response envelopes, challenges, proofs, sessions.
//! - [`components`]: solvers, the classifier, the endpoints and the login flow.
//! - [`error`]: the errors and the table from status codes to them.

pub mod components;
pub mod error;
pub mod models;
pub mod utils;

pub use error::{ChallengeHeader, HoyoError, HoyolabError};
pub use models::{auth, common};
