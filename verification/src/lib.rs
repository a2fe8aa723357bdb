//! Resource location and dictionary storage for a dictionary-driven tokenizer.
//!
//! Before any analysis can happen, a binary system dictionary, optional user
//! dictionaries and several auxiliary definition files must be located and
//! materialized into byte buffers.  This crate provides the ordered resolution
//! chain ([`config::anchor::PathAnchor`]) that mixes compiled-in resources with
//! filesystem lookups, the layered configuration merge
//! ([`config::builder::ConfigBuilder`]), and the storage layer
//! ([`dic::storage::Storage`]) that backs resolved resources with bytes.

pub mod config;
pub mod dic;
pub mod split_mode;
