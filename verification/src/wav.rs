//! The buffer that one synthesis produced.

use crate::release::Release;
use vstd::prelude::*;

verus! {

/// What a piece of the engine's memory holds, `None` where there is none.
pub open spec fn bytes_of(memory: Option<&[u8]>) -> Option<Seq<u8>> {
    match memory {
        Some(bytes) => Some(bytes@),
        None => None,
    }
}

/// The WAV file of one synthesis, as the engine laid it out in memory.
///
/// The bytes stay where the engine put them: a `Wav` borrows them and is the
/// one value through which they are read. It cannot be copied. Where the
/// engine left no memory, the `Wav` remembers that and reads as empty.
/// Giving it up with [`Wav::free`] asks for the one call that returns to the
/// engine what was taken over, and nothing reads the bytes through it
/// afterwards.
#[derive(Debug)]
pub struct Wav<'a> {
    memory: Option<&'a [u8]>,
}

impl<'a> View for Wav<'a> {
    type V = Seq<u8>;

    open spec fn view(&self) -> Seq<u8> {
        match self.memory() {
            Some(bytes) => bytes,
            None => Seq::<u8>::empty(),
        }
    }
}

impl<'a> Wav<'a> {
    /// What the memory that was taken over holds, `None` where the engine
    /// left none.
    pub closed spec fn memory(&self) -> Option<Seq<u8>> {
        bytes_of(self.memory)
    }

    /// Takes over the memory that a synthesis left behind: what the engine's
    /// output pointer and length describe, `None` for a null pointer.
    pub fn new(memory: Option<&'a [u8]>) -> (wav: Self)
        ensures
            wav.memory() == bytes_of(memory),
    {
        Wav { memory }
    }

    /// The whole file, byte for byte, without a copy. It is empty where the
    /// engine left no memory.
    pub fn as_bytes(&self) -> (bytes: &[u8])
        ensures
            bytes@ == self@,
    {
        match self.memory {
            Some(bytes) => bytes,
            None => &[],
        }
    }

    /// The number of bytes in the file.
    pub fn len(&self) -> (len: usize)
        ensures
            len == self@.len(),
    {
        match self.memory {
            Some(bytes) => bytes.len(),
            None => 0,
        }
    }

    /// Gives the buffer up. What is returned is the call that is now owed to
    /// the engine, once: to free what was taken over, be it memory or none.
    pub fn free(self) -> (owed: Release<'a>)
        ensures
            owed matches Release::WavFree(memory) && bytes_of(memory) == self.memory(),
    {
        Release::WavFree(self.memory)
    }
}

} // verus!
