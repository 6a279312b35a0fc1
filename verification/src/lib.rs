//! Resilient client logic for a machine-translation HTTP API: the request and
//! response model, the classification of failures, and the bounded exponential
//! backoff that drives repeated attempts.
//!
//! Nothing here touches the network or the clock. A caller sends what
//! [`Translator::prepare_attempt`] hands out, gives the response to
//! [`Translator::parse_response`], and lets [`RetryState::decide`] say whether
//! to stop or to wait and attempt again.

pub mod classify;
pub mod error;
pub mod json;
pub mod retry;
pub mod text;
pub mod translator;
pub mod types;

pub use error::TranslateError;
pub use retry::{RetryDecision, RetryState};
pub use translator::Translator;
pub use types::{TranslateRequest, TranslateResponse, TranslationResult};
