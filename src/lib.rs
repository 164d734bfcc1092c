//! Query translation and result normalization for a read-only routing-metadata API.
//!
//! The library turns request parameters into store predicates, resolves time windows,
//! bounds pagination, and normalizes ROA validity intervals. Network access, HTTP and
//! JSON wire formats stay with the caller.

pub mod asninfo;
pub mod broker;
pub mod calendar;
pub mod error;
pub mod intervals;
pub mod pagination;
pub mod peers;
pub mod query;
pub mod roas;
pub mod text;
pub mod timewindow;
