//! Wallet challenge-response authentication with replay prevention, and the
//! rules that decide when an inheritance plan is due for claim.

pub mod auth;
pub mod challenge;
pub mod clock;
pub mod encoding;
pub mod entropy;
pub mod laws;
pub mod scan;
pub mod service;
pub mod session;
pub mod signature;
pub mod text;
