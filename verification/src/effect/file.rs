//! Temporary files and directories.

use vstd::prelude::*;

verus! {

/// Marks a runtime whose file-system effects act on the real file system.
pub trait InIO {}

/// A handle that knows the path of what it holds.
pub trait ToPath {
    type Error;

    /// Whether this handle's `to_path` may give back `r`. A handle that
    /// does not say allows any result.
    open spec fn to_path_gives(&self, r: Result<String, Self::Error>) -> bool {
        true
    }

    fn to_path(&self) -> (r: Result<String, Self::Error>)
        ensures
            self.to_path_gives(r),
    ;
}

/// Names the error type of the file-system effects.
pub trait FileSystemTypes {
    type Error;
}

/// Makes temporary directories and files. The handles keep what they hold
/// alive for as long as they live.
pub trait FileSystem: FileSystemTypes {
    type TempFile;
    type TempDirectory: ToPath;

    /// Whether this runtime's `mk_temp_dir_n` may give back `r`. A runtime
    /// that does not say allows any result.
    open spec fn mk_temp_dir_n_gives(r: Result<Self::TempDirectory, <Self as FileSystemTypes>::Error>) -> bool {
        true
    }

    /// Whether this runtime's `mk_temp_file_n` may give back `r`. A runtime
    /// that does not say allows any result.
    open spec fn mk_temp_file_n_gives(r: Result<Self::TempFile, <Self as FileSystemTypes>::Error>) -> bool {
        true
    }

    fn mk_temp_dir_n(&mut self) -> (r: Result<Self::TempDirectory, <Self as FileSystemTypes>::Error>)
        ensures
            Self::mk_temp_dir_n_gives(r),
    ;

    fn mk_temp_file_n(&mut self) -> (r: Result<Self::TempFile, <Self as FileSystemTypes>::Error>)
        ensures
            Self::mk_temp_file_n_gives(r),
    ;
}

} // verus!
