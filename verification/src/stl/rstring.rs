//! Names made of a restricted set of ASCII characters.
//!
//! A name is checked byte by byte: its first byte against one set of
//! characters, every other byte against a second set, and its length against
//! two bounds. The first thing that is wrong, in this order, is reported.

use vstd::prelude::*;
use vstd::string::StringSliceAdditionalSpecFns;
use crate::nft::is_mime_byte;

verus! {

/// A set of ASCII characters.
#[derive(Copy, Clone, Debug, Hash, PartialEq, Eq, Structural)]
pub enum CharSet {
    /// The letters `A` to `Z` and `a` to `z`.
    Alpha,
    /// Letters and the digits `0` to `9`.
    AlphaNum,
    /// The letters `a` to `z`.
    AlphaSmall,
    /// The characters of names that are shown to people. Every ASCII code
    /// passes, control codes too: names are written in ASCII, and what a
    /// reader makes of a code is left to the reader.
    AsciiPrintable,
    /// The characters of registered media type names: small letters, digits
    /// and `! # $ & + - . ^ _`.
    Mime,
}

impl CharSet {
    /// Whether the set holds the character with the code `byte`.
    pub open spec fn spec_contains(self, byte: u8) -> bool {
        match self {
            CharSet::Alpha => 0x41 <= byte <= 0x5a || 0x61 <= byte <= 0x7a,
            CharSet::AlphaNum => 0x30 <= byte <= 0x39 || 0x41 <= byte <= 0x5a || 0x61 <= byte
                <= 0x7a,
            CharSet::AlphaSmall => 0x61 <= byte <= 0x7a,
            CharSet::AsciiPrintable => byte < 0x80,
            CharSet::Mime => is_mime_byte(byte),
        }
    }

    /// Whether the set holds the character with the code `byte`.
    pub fn contains(self, byte: u8) -> (r: bool)
        ensures
            r == self.spec_contains(byte),
    {
        match self {
            CharSet::Alpha => (0x41 <= byte && byte <= 0x5a) || (0x61 <= byte && byte <= 0x7a),
            CharSet::AlphaNum => (0x30 <= byte && byte <= 0x39) || (0x41 <= byte && byte <= 0x5a)
                || (0x61 <= byte && byte <= 0x7a),
            CharSet::AlphaSmall => 0x61 <= byte && byte <= 0x7a,
            CharSet::AsciiPrintable => byte < 0x80,
            CharSet::Mime => (0x61 <= byte && byte <= 0x7a) || (0x30 <= byte && byte <= 0x39)
                || byte == 0x21 || byte == 0x23 || byte == 0x24 || byte == 0x26 || byte == 0x2b
                || byte == 0x2d || byte == 0x2e || byte == 0x5e || byte == 0x5f,
        }
    }
}

/// Why a text is not a name of the kind asked for.
#[derive(Copy, Clone, Debug, Hash, PartialEq, Eq, Structural)]
pub enum InvalidName {
    /// The text is empty.
    Empty,
    /// The first character is not allowed at the start.
    DisallowedFirst,
    /// The byte at this position is not an allowed character.
    InvalidChar(usize),
    /// The text is shorter than the kind allows.
    Undersize,
    /// The text is longer than the kind allows.
    Oversize,
}

/// Whether every byte of `bytes` from the second on is in `rest`.
pub open spec fn rest_allowed(bytes: Seq<u8>, rest: CharSet) -> bool {
    forall|i: int| 1 <= i < bytes.len() ==> rest.spec_contains(#[trigger] bytes[i])
}

/// Whether `at` is the first position after the start whose byte is not in
/// `rest`.
pub open spec fn first_disallowed(bytes: Seq<u8>, rest: CharSet, at: int) -> bool {
    &&& 1 <= at < bytes.len()
    &&& !rest.spec_contains(bytes[at])
    &&& forall|i: int| 1 <= i < at ==> rest.spec_contains(#[trigger] bytes[i])
}

/// Whether `bytes` is a name: it starts with a character of `first`, goes on
/// with characters of `rest` and has between `min` and `max` bytes. The
/// empty text is a name only where `min` is zero.
pub open spec fn is_name(bytes: Seq<u8>, first: CharSet, rest: CharSet, min: nat, max: nat) -> bool {
    if bytes.len() == 0 {
        min == 0
    } else {
        &&& first.spec_contains(bytes[0])
        &&& rest_allowed(bytes, rest)
        &&& min <= bytes.len() <= max
    }
}

/// Whether `fault` is what is wrong with `bytes` as a name: the first of
/// emptiness, a wrong first character, a wrong later character (the
/// earliest), a length below `min` and a length above `max`.
pub open spec fn is_fault(
    bytes: Seq<u8>,
    first: CharSet,
    rest: CharSet,
    min: nat,
    max: nat,
    fault: InvalidName,
) -> bool {
    match fault {
        InvalidName::Empty => bytes.len() == 0 && min > 0,
        InvalidName::DisallowedFirst => bytes.len() > 0 && !first.spec_contains(bytes[0]),
        InvalidName::InvalidChar(at) => bytes.len() > 0 && first.spec_contains(bytes[0])
            && first_disallowed(bytes, rest, at as int),
        InvalidName::Undersize => bytes.len() > 0 && first.spec_contains(bytes[0]) && rest_allowed(
            bytes,
            rest,
        ) && bytes.len() < min,
        InvalidName::Oversize => bytes.len() > 0 && first.spec_contains(bytes[0]) && rest_allowed(
            bytes,
            rest,
        ) && bytes.len() >= min && bytes.len() > max,
    }
}

/// Checks that `text` is a name with the given character sets and bounds on
/// its length in bytes.
pub fn check_name(text: &str, first: CharSet, rest: CharSet, min: usize, max: usize) -> (r: Result<
    (),
    InvalidName,
>)
    ensures
        match r {
            Ok(_) => is_name(text.spec_bytes(), first, rest, min as nat, max as nat),
            Err(fault) => is_fault(text.spec_bytes(), first, rest, min as nat, max as nat, fault),
        },
{
    let bytes = text.as_bytes();
    let len = bytes.len();
    if len == 0 {
        return if min == 0 {
            Ok(())
        } else {
            Err(InvalidName::Empty)
        };
    }
    if !first.contains(bytes[0]) {
        return Err(InvalidName::DisallowedFirst);
    }
    let mut i: usize = 1;
    while i < len
        invariant
            1 <= i <= len,
            len == bytes@.len(),
            bytes@ == text.spec_bytes(),
            first.spec_contains(bytes@[0]),
            forall|j: int| 1 <= j < i ==> rest.spec_contains(#[trigger] bytes@[j]),
        decreases len - i,
    {
        if !rest.contains(bytes[i]) {
            return Err(InvalidName::InvalidChar(i));
        }
        i += 1;
    }
    if len < min {
        Err(InvalidName::Undersize)
    } else if len > max {
        Err(InvalidName::Oversize)
    } else {
        Ok(())
    }
}

/// Checks that the length of `text` in bytes lies between `min` and `max`.
/// Any characters may stand in it.
pub fn check_length(text: &str, min: usize, max: usize) -> (r: Result<(), InvalidName>)
    ensures
        match r {
            Ok(_) => min <= text.spec_bytes().len() <= max,
            Err(InvalidName::Undersize) => text.spec_bytes().len() < min,
            Err(InvalidName::Oversize) => min <= text.spec_bytes().len() && text.spec_bytes().len()
                > max,
            Err(_) => false,
        },
{
    let len = text.as_bytes().len();
    if len < min {
        Err(InvalidName::Undersize)
    } else if len > max {
        Err(InvalidName::Oversize)
    } else {
        Ok(())
    }
}

/// A text is a name or has exactly one fault: the check decides.
pub proof fn lemma_name_or_one_fault(
    bytes: Seq<u8>,
    first: CharSet,
    rest: CharSet,
    min: nat,
    max: nat,
    fault: InvalidName,
    other: InvalidName,
)
    requires
        is_fault(bytes, first, rest, min, max, fault),
    ensures
        !is_name(bytes, first, rest, min, max),
        is_fault(bytes, first, rest, min, max, other) ==> other == fault,
{
    if is_fault(bytes, first, rest, min, max, other) {
        match (fault, other) {
            (InvalidName::InvalidChar(a), InvalidName::InvalidChar(b)) => {
                if a < b {
                    assert(rest.spec_contains(bytes[a as int]));
                } else if b < a {
                    assert(rest.spec_contains(bytes[b as int]));
                }
            },
            (InvalidName::InvalidChar(a), _) => {
                assert(!rest.spec_contains(bytes[a as int]));
            },
            (_, InvalidName::InvalidChar(b)) => {
                assert(!rest.spec_contains(bytes[b as int]));
            },
            _ => {},
        }
    }
    if let InvalidName::InvalidChar(a) = fault {
        assert(!rest.spec_contains(bytes[a as int]));
    }
}

} // verus!
