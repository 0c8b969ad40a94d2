//! The effects that a submission performs, as traits that a runtime
//! implements, together with the pure decisions that surround them.

pub mod file;
pub mod repo;
pub mod s3;
pub mod secret;
pub mod zip;
