//! The error of the production runtime.

use vstd::prelude::*;

verus! {

/// An error of the production runtime: a message that starts with the
/// name of the subsystem it came from.
#[derive(Debug)]
pub struct RuntimeError(String);

impl View for RuntimeError {
    type V = Seq<char>;

    closed spec fn view(&self) -> Seq<char> {
        self.0@
    }
}

impl RuntimeError {
    /// An input/output error, described by `detail`.
    pub fn io(detail: &str) -> (e: RuntimeError)
        ensures
            e@ == "IO: "@ + detail@,
    {
        RuntimeError(String::from_str("IO: ").concat(detail))
    }

    /// A git error, described by `detail`.
    pub fn git(detail: &str) -> (e: RuntimeError)
        ensures
            e@ == "GIT: "@ + detail@,
    {
        RuntimeError(String::from_str("GIT: ").concat(detail))
    }

    /// An error of the zip archive writer, described by `detail`.
    pub fn zip(detail: &str) -> (e: RuntimeError)
        ensures
            e@ == "ZIP: "@ + detail@,
    {
        RuntimeError(String::from_str("ZIP: ").concat(detail))
    }

    /// An error of the AWS client, described by `detail`.
    pub fn rusoto(detail: &str) -> (e: RuntimeError)
        ensures
            e@ == "Rusoto: "@ + detail@,
    {
        RuntimeError(String::from_str("Rusoto: ").concat(detail))
    }

    /// The message.
    pub fn message(&self) -> (m: &str)
        ensures
            m@ == self@,
    {
        self.0.as_str()
    }
}

} // verus!
