//! Login orchestration core for a chat-service client.
//!
//! The crate models the session record kept between launches, its compact
//! binary on-disk form, and the state machine that drives one login attempt:
//! local validation, classification of the server's reply, the fallback into
//! an embedded-browser captcha flow, and the commit of a won token.

pub mod data;
pub mod login;
pub mod wire;
