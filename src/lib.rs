//! Client library for a read-only, paginated trading-card catalog API.
//!
//! The verified part of the crate resolves response envelopes into results or
//! classified errors, builds request URLs and query parameters, and decides,
//! page by page, how a complete collection is assembled.
pub mod card;
pub mod client;
pub mod errors;
pub mod paginate;
pub mod set;
