//! The requests that the core makes of its host, and their answers.
pub mod location;
pub mod time;
