//! Per-identity admission control for an HTTP pipeline.
//!
//! A limiter keeps one [`Counter`] for every identity it has seen. Each
//! request renews the counter's window when it has run out, then either takes
//! one unit of quota or is turned away. Time is a count of nanoseconds on a
//! monotonic clock; every operation that depends on it also exists in a form
//! that takes the reading as an argument.

pub mod clock;
pub mod counter;
pub mod error;
pub mod history;
pub mod identity;
pub mod laws;
pub mod limiter;
pub mod rate;
pub mod store;

pub use counter::{Counter, CounterModel};
pub use error::RateLimitError;
pub use identity::{derive_key, Method, RequestHead, RequestModel};
pub use limiter::{LimiterModel, TokenRateLimit, TokenRateLimitLayer};
pub use rate::{Rate, RateModel};
pub use store::RateStore;
