//! Helpers shared by the services.

pub mod avatar;
pub mod email;
pub mod ip2region;
pub mod jwt;
pub mod markdown;
pub mod pattern;
pub mod rand;
pub mod sanitize;
pub mod text;
pub mod validate_code;
