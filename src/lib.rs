//! Client for the YooMoney payment API: authorization by redirect capture,
//! form-encoded calls with layered error/payload envelopes, and paged history.

pub mod error;
pub mod params;
pub mod envelope;
pub mod transport;
pub mod models;
pub mod text;
pub mod history;
pub mod client;
