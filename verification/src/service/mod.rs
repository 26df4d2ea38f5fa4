//! The decisions of the comment service.

pub mod comment;
pub mod criteria;
pub mod guard;
pub mod present;
pub mod ranking;
pub mod spam;
pub mod submit;
pub mod thread;
pub mod account;
pub mod auth;
pub mod visibility;
