//! Polling support for a regional carbon-intensity forecast: the request that
//! asks for a forecast window, the reading of the reply into flat records, and
//! the decisions of the loop that keeps the latest snapshot on disk.
//!
//! Network and file access are left to the caller. Everything here works on
//! plain values, so that each step can be stated and proved.

pub mod api;
pub mod config;
pub mod data;
pub mod payload;
pub mod poller;
pub mod text;
pub mod timestamp;
