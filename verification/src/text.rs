//! Strings on their way to the engine and back.
//!
//! The engine takes C strings: bytes that end at the first zero byte. A Rust
//! string may hold a zero byte anywhere, so it is checked and terminated here
//! before any call. Text that the engine hands out is bytes; it becomes a
//! `&str` only if it is UTF-8.

use crate::result_code::Error;
use vstd::prelude::*;
use vstd::string::StringSliceAdditionalSpecFns;
use vstd::utf8::{decode_utf8, encode_utf8_decode_utf8, valid_utf8};

verus! {

/// No byte of `bytes` is zero.
pub open spec fn nul_free(bytes: Seq<u8>) -> bool {
    forall|i: int| 0 <= i < bytes.len() ==> bytes[i] != 0
}

/// `at` is the index of the first zero byte of `bytes`.
pub open spec fn first_nul_at(bytes: Seq<u8>, at: int) -> bool {
    &&& 0 <= at < bytes.len()
    &&& bytes[at] == 0
    &&& nul_free(bytes.take(at))
}

/// `bytes` is a C string with its terminator: the last byte is zero and no
/// other is.
pub open spec fn is_c_string(bytes: Seq<u8>) -> bool {
    &&& bytes.len() >= 1
    &&& bytes.last() == 0
    &&& nul_free(bytes.drop_last())
}

/// The index of the first zero byte of `bytes`, where there is one.
pub open spec fn first_nul(bytes: Seq<u8>) -> int {
    choose|at: int| first_nul_at(bytes, at)
}

/// Bytes with a zero byte among them have exactly one first zero byte.
pub proof fn first_nul_is_unique(bytes: Seq<u8>, a: int, b: int)
    requires
        first_nul_at(bytes, a),
        first_nul_at(bytes, b),
    ensures
        a == b,
{
    if a < b {
        assert(bytes.take(b)[a] == bytes[a]);
    } else if b < a {
        assert(bytes.take(a)[b] == bytes[b]);
    }
}

/// Bytes with a zero byte among them have a first zero byte, and `first_nul`
/// is its index.
pub proof fn nul_has_a_first(bytes: Seq<u8>)
    requires
        !nul_free(bytes),
    ensures
        first_nul_at(bytes, first_nul(bytes)),
{
    first_nul_from(bytes, 0);
}

proof fn first_nul_from(bytes: Seq<u8>, from: int)
    requires
        0 <= from <= bytes.len(),
        nul_free(bytes.take(from)),
        !nul_free(bytes),
    ensures
        exists|at: int| first_nul_at(bytes, at),
    decreases bytes.len() - from,
{
    if from == bytes.len() {
        assert(bytes.take(from) == bytes);
    } else if bytes[from] == 0 {
        assert(first_nul_at(bytes, from));
    } else {
        let next = bytes.take(from + 1);
        assert forall|i: int| 0 <= i < next.len() implies next[i] != 0 by {
            if i < from {
                assert(next[i] == bytes.take(from)[i]);
            }
        }
        first_nul_from(bytes, from + 1);
    }
}

/// The engine reads a C string up to its first zero byte. In what this
/// module hands out that byte is the terminator, so the engine reads all of
/// the text and nothing else.
pub proof fn c_string_ends_at_its_terminator(bytes: Seq<u8>)
    requires
        is_c_string(bytes),
    ensures
        first_nul_at(bytes, bytes.len() - 1),
        first_nul(bytes) == bytes.len() - 1,
{
    assert(bytes.take(bytes.len() - 1) == bytes.drop_last());
    first_nul_is_unique(bytes, bytes.len() - 1, first_nul(bytes));
}

/// Terminating a text loses nothing of it: without the terminator the C
/// string is the text again.
pub proof fn c_string_keeps_the_text(bytes: Seq<u8>)
    requires
        nul_free(bytes),
    ensures
        is_c_string(bytes.push(0)),
        bytes.push(0).drop_last() == bytes,
{
    assert(bytes.push(0).drop_last() == bytes);
}

/// The bytes followed by one zero byte, or the index of the first zero byte
/// among them.
pub fn nul_terminated(bytes: &[u8]) -> (terminated: Result<Vec<u8>, Error>)
    ensures
        terminated is Ok <==> nul_free(bytes@),
        terminated matches Ok(v) ==> v@ == bytes@.push(0) && is_c_string(v@),
        terminated matches Err(error) ==> error == Error::InteriorNul(first_nul(bytes@) as usize)
            && first_nul_at(bytes@, first_nul(bytes@)),
{
    let mut out: Vec<u8> = Vec::new();
    let mut i: usize = 0;
    while i < bytes.len()
        invariant
            0 <= i <= bytes.len(),
            out@ == bytes@.take(i as int),
            nul_free(bytes@.take(i as int)),
        decreases bytes.len() - i,
    {
        let byte: u8 = bytes[i];
        if byte == 0 {
            proof {
                assert(first_nul_at(bytes@, i as int));
                first_nul_is_unique(bytes@, i as int, first_nul(bytes@));
            }
            return Err(Error::InteriorNul(i));
        }
        out.push(byte);
        proof {
            let next = bytes@.take(i + 1);
            assert(next == bytes@.take(i as int).push(byte));
            assert forall|j: int| 0 <= j < next.len() implies next[j] != 0 by {
                if j < i {
                    assert(next[j] == bytes@.take(i as int)[j]);
                }
            }
        }
        i += 1;
    }
    proof {
        assert(bytes@.take(i as int) == bytes@);
        c_string_keeps_the_text(bytes@);
    }
    out.push(0);
    Ok(out)
}

/// The C string that the engine is given for `text`: its UTF-8 bytes and a
/// terminator. A text with a zero byte in it has no C string.
pub fn c_string(text: &str) -> (terminated: Result<Vec<u8>, Error>)
    ensures
        terminated is Ok <==> nul_free(text.spec_bytes()),
        terminated matches Ok(v) ==> v@ == text.spec_bytes().push(0) && is_c_string(v@),
        terminated matches Err(error) ==> error == Error::InteriorNul(
            first_nul(text.spec_bytes()) as usize,
        ) && first_nul_at(text.spec_bytes(), first_nul(text.spec_bytes())),
{
    nul_terminated(text.as_bytes())
}

/// Calls `core::str::from_utf8` and drops its error. Not proved, but taken
/// from its documentation: it accepts exactly the byte strings that are
/// well-formed UTF-8, and the string it returns is made of the bytes it was
/// given.
#[verifier::external_body]
fn utf8_text(bytes: &[u8]) -> (text: Option<&str>)
    ensures
        text is Some <==> valid_utf8(bytes@),
        text matches Some(s) ==> s.spec_bytes() == bytes@,
{
    match core::str::from_utf8(bytes) {
        Ok(text) => Some(text),
        Err(_) => None,
    }
}

/// Text that the engine handed out, without its terminator, as a string:
/// the characters that the bytes encode, where they are UTF-8.
pub fn native_text(bytes: &[u8]) -> (text: Result<&str, Error>)
    ensures
        text is Ok <==> valid_utf8(bytes@),
        text matches Ok(s) ==> s@ == decode_utf8(bytes@) && s.spec_bytes() == bytes@,
        text matches Err(error) ==> error == Error::InvalidUtf8,
{
    match utf8_text(bytes) {
        Some(s) => {
            proof {
                encode_utf8_decode_utf8(s@);
            }
            Ok(s)
        },
        None => Err(Error::InvalidUtf8),
    }
}

} // verus!
