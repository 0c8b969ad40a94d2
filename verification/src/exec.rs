//! A smoke run of the two-step pipeline.

use vstd::prelude::*;
use crate::flow::{self, flow_gives, MkTemp};
use crate::repo::Git;

verus! {

/// Runs the two-step pipeline of `flow` once on `runtime`, with an empty
/// repository URL, bucket and key, and hands back how it ended; the caller
/// decides what a failure means (the command-line run panics on it).
pub fn exec<T, E>(runtime: &mut T) -> (r: Result<(), E>) where
    T: MkTemp + Git,
    E: From<<T as MkTemp>::MkTempError> + From<<T as Git>::GitError>,
    ensures
        flow_gives::<T, E>(""@, r),
{
    flow::submit_to_pipeline::<T, E>(runtime, "", "", "")
}

} // verus!
