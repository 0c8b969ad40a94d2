//! Pushes the contents of a git repository into an S3 object: the library
//! half of a webhook-driven code-push service. The effects (temporary files,
//! git, zip archives, S3) are traits that a runtime implements; the decisions
//! around them are verified here.

pub mod effect;
pub mod exec;
pub mod flow;
pub mod handler;
pub mod repo;
pub mod submission;
pub mod submit;
pub mod wiring;
