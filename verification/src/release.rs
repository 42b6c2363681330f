//! The calls that give a resource back to the engine.

use vstd::prelude::*;

verus! {

/// A call that is owed to the engine because a handle or a buffer was given
/// up. Each value stands for one call, and cannot be copied: the code that
/// receives it makes the call once.
#[derive(Debug, PartialEq, Eq)]
pub enum Release<'a> {
    /// Finalize the engine.
    Finalize,
    /// Free the buffer of a synthesis: the memory that these bytes lie in,
    /// or the null pointer where the engine left none.
    WavFree(Option<&'a [u8]>),
}

} // verus!
