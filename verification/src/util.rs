//! Contains utility types that are useful when working with the DW1000

use vstd::prelude::*;

verus! {

/// An error that can be a timeout or another error
#[derive(Debug)]
pub enum TimeoutError<T> {
    /// The operation timed out
    Timeout,
    /// Another error occured
    Other(T),
}

} // verus!
