//! Comment retrieval and moderation for an embeddable comment service.
//!
//! The crate decides which comments a caller may read, arranges stored rows
//! into two-level threads, classifies new submissions, and authorises edits
//! and deletions. Every function carries a contract that Verus proves.

pub mod config;
pub mod dto;
pub mod error;
pub mod model;
pub mod plugins;
pub mod service;
pub mod utils;
