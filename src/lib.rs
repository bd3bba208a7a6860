//! Decoding of block-explorer transaction records into canonical transactions.

pub mod hex;
pub mod model;
pub mod tx;
