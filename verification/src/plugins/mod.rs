//! The collaborators of the comment service, as far as they decide
//! anything.

pub mod akismet;
pub mod uaparser;
