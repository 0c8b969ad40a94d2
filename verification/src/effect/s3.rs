//! Uploading a file to S3.

use vstd::prelude::*;

verus! {

/// Names the error type and the file handle of the S3 effect.
pub trait S3Types {
    type Error;
    type File;
}

/// Puts the contents of a file into the object `key` of `bucket`.
pub trait S3: S3Types {
    /// Whether this runtime's upload of `file` to `bucket`/`key` may give
    /// back `r`. A runtime that does not say allows any result.
    open spec fn put_object_file_gives(file: Self::File, bucket: Seq<char>, key: Seq<char>, r: Result<(), <Self as S3Types>::Error>) -> bool {
        true
    }

    fn put_object_file(&mut self, file: &Self::File, bucket: &str, key: &str) -> (r: Result<(), <Self as S3Types>::Error>)
        ensures
            Self::put_object_file_gives(*file, bucket@, key@, r),
    ;
}

/// Marks a runtime whose S3 effect talks to AWS.
pub trait InIO {}

} // verus!
