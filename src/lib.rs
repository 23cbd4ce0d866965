//! Token net-flow indexing: transfer-log decoding, flow classification and
//! saturating 256-bit accumulation of the cumulative net flow.

pub mod amount;
pub mod netflow;
pub mod decode;
pub mod classify;
pub mod models;
