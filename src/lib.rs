//! Client library for a derivatives venue: market-data message decoding,
//! keepalive handling and a dual-indexed contract reference table.

pub mod error;
pub mod text;
pub mod json;
pub mod ws;
pub mod table;
pub mod order;
