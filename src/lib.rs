//! A quote-of-the-day (RFC 865) service: response generation, the per-listener
//! serving decisions, socket acquisition, and request counting.

pub mod cli;
pub mod clock;
pub mod quote;
pub mod telemetry;
pub mod server;
pub mod acquire;
