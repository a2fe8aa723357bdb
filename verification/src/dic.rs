//! Dictionary-side types: materialized storage and the word-info subset.

pub mod storage;
pub mod subset;
