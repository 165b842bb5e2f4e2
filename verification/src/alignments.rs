//! Padding blocks that align serialized data to 256-bit field elements.
//!
//! A consumer that reads a serialized structure in chunks of 32 bytes needs
//! every logical field to start at a multiple of 32. A field of `N` bits is
//! therefore followed by a block of `32 - N/8` reserved bytes: field and
//! block together fill one chunk exactly, with nothing else counted in. A
//! block carries no information. Writers emit zeros; readers step over the
//! bytes without looking at them.

use vstd::prelude::*;
use crate::encoding::{skip_bytes, write_zeros, zeros, DecodeError};

verus! {

/// Bytes in one 256-bit field element.
pub const FE256_BYTES: usize = 32;

/// Bytes of padding that follow a field of `field_bits` bits.
pub open spec fn padding_len(field_bits: nat) -> nat {
    (32 - field_bits / 8) as nat
}

/// Padding after an 8-bit field: 31 reserved bytes.
#[derive(Copy, Clone, Debug, Hash, PartialEq, Eq, PartialOrd, Ord)]
pub struct Fe256Align8([u8; 31]);

impl View for Fe256Align8 {
    type V = Seq<u8>;

    closed spec fn view(&self) -> Seq<u8> {
        self.0@
    }
}

impl Default for Fe256Align8 {
    fn default() -> (r: Fe256Align8)
        ensures
            r@ == zeros(Fe256Align8::LEN as nat),
    {
        let reserved = [0u8; 31];
        assert(reserved@ =~= zeros(31));
        Fe256Align8(reserved)
    }
}

impl Fe256Align8 {
    /// Width in bits of the field that the block follows.
    pub const FIELD_BITS: usize = 8;

    /// Length of the block in bytes.
    pub const LEN: usize = 31;

    #[verifier::type_invariant]
    spec fn reserved(self) -> bool {
        self.0@ == zeros(31)
    }

    /// Appends the block to `out`: `LEN` zero bytes, whatever came before.
    pub fn strict_encode(&self, out: &mut Vec<u8>)
        ensures
            final(out)@ == old(out)@ + zeros(Fe256Align8::LEN as nat),
            final(out)@ == old(out)@ + self@,
            final(out)@.len() == old(out)@.len() + Fe256Align8::LEN,
    {
        proof {
            use_type_invariant(self);
        }
        write_zeros(out, 31);
    }

    /// Reads the block from `input` at offset `at`: steps over `LEN` bytes,
    /// whatever they hold, and fails when fewer are left.
    pub fn strict_decode(input: &[u8], at: usize) -> (r: Result<(Fe256Align8, usize), DecodeError>)
        ensures
            match r {
                Ok((block, next)) => at + Fe256Align8::LEN <= input@.len() && next == at + Fe256Align8::LEN
                    && block@ == zeros(Fe256Align8::LEN as nat),
                Err(e) => at + Fe256Align8::LEN > input@.len() && e == DecodeError::UnexpectedEof,
            },
    {
        match skip_bytes(input, at, 31) {
            Ok(next) => Ok((Fe256Align8::default(), next)),
            Err(e) => Err(e),
        }
    }

    /// The name under which the block is shown: it has no content to show.
    pub fn to_string(&self) -> (r: String)
        ensures
            r@ == "alignmentBytes"@,
    {
        "alignmentBytes".to_owned()
    }
}

/// Padding after a 16-bit field: 30 reserved bytes.
#[derive(Copy, Clone, Debug, Hash, PartialEq, Eq, PartialOrd, Ord)]
pub struct Fe256Align16([u8; 30]);

impl View for Fe256Align16 {
    type V = Seq<u8>;

    closed spec fn view(&self) -> Seq<u8> {
        self.0@
    }
}

impl Default for Fe256Align16 {
    fn default() -> (r: Fe256Align16)
        ensures
            r@ == zeros(Fe256Align16::LEN as nat),
    {
        let reserved = [0u8; 30];
        assert(reserved@ =~= zeros(30));
        Fe256Align16(reserved)
    }
}

impl Fe256Align16 {
    /// Width in bits of the field that the block follows.
    pub const FIELD_BITS: usize = 16;

    /// Length of the block in bytes.
    pub const LEN: usize = 30;

    #[verifier::type_invariant]
    spec fn reserved(self) -> bool {
        self.0@ == zeros(30)
    }

    /// Appends the block to `out`: `LEN` zero bytes, whatever came before.
    pub fn strict_encode(&self, out: &mut Vec<u8>)
        ensures
            final(out)@ == old(out)@ + zeros(Fe256Align16::LEN as nat),
            final(out)@ == old(out)@ + self@,
            final(out)@.len() == old(out)@.len() + Fe256Align16::LEN,
    {
        proof {
            use_type_invariant(self);
        }
        write_zeros(out, 30);
    }

    /// Reads the block from `input` at offset `at`: steps over `LEN` bytes,
    /// whatever they hold, and fails when fewer are left.
    pub fn strict_decode(input: &[u8], at: usize) -> (r: Result<(Fe256Align16, usize), DecodeError>)
        ensures
            match r {
                Ok((block, next)) => at + Fe256Align16::LEN <= input@.len() && next == at + Fe256Align16::LEN
                    && block@ == zeros(Fe256Align16::LEN as nat),
                Err(e) => at + Fe256Align16::LEN > input@.len() && e == DecodeError::UnexpectedEof,
            },
    {
        match skip_bytes(input, at, 30) {
            Ok(next) => Ok((Fe256Align16::default(), next)),
            Err(e) => Err(e),
        }
    }

    /// The name under which the block is shown: it has no content to show.
    pub fn to_string(&self) -> (r: String)
        ensures
            r@ == "alignmentBytes"@,
    {
        "alignmentBytes".to_owned()
    }
}

/// Padding after a 32-bit field: 28 reserved bytes.
#[derive(Copy, Clone, Debug, Hash, PartialEq, Eq, PartialOrd, Ord)]
pub struct Fe256Align32([u8; 28]);

impl View for Fe256Align32 {
    type V = Seq<u8>;

    closed spec fn view(&self) -> Seq<u8> {
        self.0@
    }
}

impl Default for Fe256Align32 {
    fn default() -> (r: Fe256Align32)
        ensures
            r@ == zeros(Fe256Align32::LEN as nat),
    {
        let reserved = [0u8; 28];
        assert(reserved@ =~= zeros(28));
        Fe256Align32(reserved)
    }
}

impl Fe256Align32 {
    /// Width in bits of the field that the block follows.
    pub const FIELD_BITS: usize = 32;

    /// Length of the block in bytes.
    pub const LEN: usize = 28;

    #[verifier::type_invariant]
    spec fn reserved(self) -> bool {
        self.0@ == zeros(28)
    }

    /// Appends the block to `out`: `LEN` zero bytes, whatever came before.
    pub fn strict_encode(&self, out: &mut Vec<u8>)
        ensures
            final(out)@ == old(out)@ + zeros(Fe256Align32::LEN as nat),
            final(out)@ == old(out)@ + self@,
            final(out)@.len() == old(out)@.len() + Fe256Align32::LEN,
    {
        proof {
            use_type_invariant(self);
        }
        write_zeros(out, 28);
    }

    /// Reads the block from `input` at offset `at`: steps over `LEN` bytes,
    /// whatever they hold, and fails when fewer are left.
    pub fn strict_decode(input: &[u8], at: usize) -> (r: Result<(Fe256Align32, usize), DecodeError>)
        ensures
            match r {
                Ok((block, next)) => at + Fe256Align32::LEN <= input@.len() && next == at + Fe256Align32::LEN
                    && block@ == zeros(Fe256Align32::LEN as nat),
                Err(e) => at + Fe256Align32::LEN > input@.len() && e == DecodeError::UnexpectedEof,
            },
    {
        match skip_bytes(input, at, 28) {
            Ok(next) => Ok((Fe256Align32::default(), next)),
            Err(e) => Err(e),
        }
    }

    /// The name under which the block is shown: it has no content to show.
    pub fn to_string(&self) -> (r: String)
        ensures
            r@ == "alignmentBytes"@,
    {
        "alignmentBytes".to_owned()
    }
}

/// Padding after a 64-bit field: 24 reserved bytes.
#[derive(Copy, Clone, Debug, Hash, PartialEq, Eq, PartialOrd, Ord)]
pub struct Fe256Align64([u8; 24]);

impl View for Fe256Align64 {
    type V = Seq<u8>;

    closed spec fn view(&self) -> Seq<u8> {
        self.0@
    }
}

impl Default for Fe256Align64 {
    fn default() -> (r: Fe256Align64)
        ensures
            r@ == zeros(Fe256Align64::LEN as nat),
    {
        let reserved = [0u8; 24];
        assert(reserved@ =~= zeros(24));
        Fe256Align64(reserved)
    }
}

impl Fe256Align64 {
    /// Width in bits of the field that the block follows.
    pub const FIELD_BITS: usize = 64;

    /// Length of the block in bytes.
    pub const LEN: usize = 24;

    #[verifier::type_invariant]
    spec fn reserved(self) -> bool {
        self.0@ == zeros(24)
    }

    /// Appends the block to `out`: `LEN` zero bytes, whatever came before.
    pub fn strict_encode(&self, out: &mut Vec<u8>)
        ensures
            final(out)@ == old(out)@ + zeros(Fe256Align64::LEN as nat),
            final(out)@ == old(out)@ + self@,
            final(out)@.len() == old(out)@.len() + Fe256Align64::LEN,
    {
        proof {
            use_type_invariant(self);
        }
        write_zeros(out, 24);
    }

    /// Reads the block from `input` at offset `at`: steps over `LEN` bytes,
    /// whatever they hold, and fails when fewer are left.
    pub fn strict_decode(input: &[u8], at: usize) -> (r: Result<(Fe256Align64, usize), DecodeError>)
        ensures
            match r {
                Ok((block, next)) => at + Fe256Align64::LEN <= input@.len() && next == at + Fe256Align64::LEN
                    && block@ == zeros(Fe256Align64::LEN as nat),
                Err(e) => at + Fe256Align64::LEN > input@.len() && e == DecodeError::UnexpectedEof,
            },
    {
        match skip_bytes(input, at, 24) {
            Ok(next) => Ok((Fe256Align64::default(), next)),
            Err(e) => Err(e),
        }
    }

    /// The name under which the block is shown: it has no content to show.
    pub fn to_string(&self) -> (r: String)
        ensures
            r@ == "alignmentBytes"@,
    {
        "alignmentBytes".to_owned()
    }
}

/// Padding after a 128-bit field: 16 reserved bytes.
#[derive(Copy, Clone, Debug, Hash, PartialEq, Eq, PartialOrd, Ord)]
pub struct Fe256Align128([u8; 16]);

impl View for Fe256Align128 {
    type V = Seq<u8>;

    closed spec fn view(&self) -> Seq<u8> {
        self.0@
    }
}

impl Default for Fe256Align128 {
    fn default() -> (r: Fe256Align128)
        ensures
            r@ == zeros(Fe256Align128::LEN as nat),
    {
        let reserved = [0u8; 16];
        assert(reserved@ =~= zeros(16));
        Fe256Align128(reserved)
    }
}

impl Fe256Align128 {
    /// Width in bits of the field that the block follows.
    pub const FIELD_BITS: usize = 128;

    /// Length of the block in bytes.
    pub const LEN: usize = 16;

    #[verifier::type_invariant]
    spec fn reserved(self) -> bool {
        self.0@ == zeros(16)
    }

    /// Appends the block to `out`: `LEN` zero bytes, whatever came before.
    pub fn strict_encode(&self, out: &mut Vec<u8>)
        ensures
            final(out)@ == old(out)@ + zeros(Fe256Align128::LEN as nat),
            final(out)@ == old(out)@ + self@,
            final(out)@.len() == old(out)@.len() + Fe256Align128::LEN,
    {
        proof {
            use_type_invariant(self);
        }
        write_zeros(out, 16);
    }

    /// Reads the block from `input` at offset `at`: steps over `LEN` bytes,
    /// whatever they hold, and fails when fewer are left.
    pub fn strict_decode(input: &[u8], at: usize) -> (r: Result<(Fe256Align128, usize), DecodeError>)
        ensures
            match r {
                Ok((block, next)) => at + Fe256Align128::LEN <= input@.len() && next == at + Fe256Align128::LEN
                    && block@ == zeros(Fe256Align128::LEN as nat),
                Err(e) => at + Fe256Align128::LEN > input@.len() && e == DecodeError::UnexpectedEof,
            },
    {
        match skip_bytes(input, at, 16) {
            Ok(next) => Ok((Fe256Align128::default(), next)),
            Err(e) => Err(e),
        }
    }

    /// The name under which the block is shown: it has no content to show.
    pub fn to_string(&self) -> (r: String)
        ensures
            r@ == "alignmentBytes"@,
    {
        "alignmentBytes".to_owned()
    }
}

/// A field and the padding block made for it fill one field element
/// exactly: the width of the field in bytes and the length of the block add
/// up to 32, for every width that has a block.
pub proof fn lemma_padding_fills_field_element()
    ensures
        Fe256Align8::FIELD_BITS / 8 + Fe256Align8::LEN == FE256_BYTES,
        Fe256Align16::FIELD_BITS / 8 + Fe256Align16::LEN == FE256_BYTES,
        Fe256Align32::FIELD_BITS / 8 + Fe256Align32::LEN == FE256_BYTES,
        Fe256Align64::FIELD_BITS / 8 + Fe256Align64::LEN == FE256_BYTES,
        Fe256Align128::FIELD_BITS / 8 + Fe256Align128::LEN == FE256_BYTES,
        Fe256Align8::LEN == padding_len(Fe256Align8::FIELD_BITS as nat),
        Fe256Align16::LEN == padding_len(Fe256Align16::FIELD_BITS as nat),
        Fe256Align32::LEN == padding_len(Fe256Align32::FIELD_BITS as nat),
        Fe256Align64::LEN == padding_len(Fe256Align64::FIELD_BITS as nat),
        Fe256Align128::LEN == padding_len(Fe256Align128::FIELD_BITS as nat),
{
}

/// What follows a field of `field_bits` bits and its padding starts at a
/// multiple of 32 bytes, provided the field itself did.
pub proof fn lemma_padding_aligns_next_field(start: nat, field_bits: nat)
    requires
        start % 32 == 0,
        field_bits % 8 == 0,
        field_bits <= 256,
    ensures
        (start + field_bits / 8 + padding_len(field_bits)) % 32 == 0,
{
}

} // verus!
