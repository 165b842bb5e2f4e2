//! Byte-level framing shared by the encoders and decoders of the library.
//!
//! Values are written one after another with no separators, so a decoder
//! must consume exactly as many bytes as the encoder emitted: every decoder
//! takes the input and an offset and hands back the value with the offset of
//! what follows.

use vstd::prelude::*;

verus! {

/// Why a value could not be read from a byte string.
#[derive(Copy, Clone, Debug, Hash, PartialEq, Eq, Structural)]
pub enum DecodeError {
    /// The input ends before the value does.
    UnexpectedEof,
    /// The tag byte is none of the enumeration's.
    UnknownTag(u8),
}

/// `len` bytes of zero.
pub open spec fn zeros(len: nat) -> Seq<u8> {
    Seq::new(len, |i: int| 0u8)
}

/// Whether `len` bytes can be read from `input` at offset `at`.
pub open spec fn has_bytes(input: Seq<u8>, at: nat, len: nat) -> bool {
    at + len <= input.len()
}

/// Appends `len` zero bytes to `out`.
pub fn write_zeros(out: &mut Vec<u8>, len: usize)
    ensures
        final(out)@ == old(out)@ + zeros(len as nat),
{
    let mut i: usize = 0;
    while i < len
        invariant
            i <= len,
            out@ == old(out)@ + zeros(i as nat),
        decreases len - i,
    {
        out.push(0u8);
        i += 1;
        assert(out@ =~= old(out)@ + zeros(i as nat));
    }
}

/// Steps over `len` bytes of `input` from offset `at` without looking at
/// them. Gives the offset after them, or fails when the input is too short.
pub fn skip_bytes(input: &[u8], at: usize, len: usize) -> (r: Result<usize, DecodeError>)
    ensures
        match r {
            Ok(next) => has_bytes(input@, at as nat, len as nat) && next == at + len,
            Err(e) => !has_bytes(input@, at as nat, len as nat) && e == DecodeError::UnexpectedEof,
        },
{
    if at > input.len() || input.len() - at < len {
        Err(DecodeError::UnexpectedEof)
    } else {
        Ok(at + len)
    }
}

} // verus!
