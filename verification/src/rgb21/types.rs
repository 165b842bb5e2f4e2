//! Data types of the interface for non-fungible tokens.

use vstd::prelude::*;
use vstd::std_specs::convert::FromSpecImpl;
use crate::decimal::{
    decimal_chars, format_unsigned, parse_unsigned, spec_parse_unsigned, ParseNumError,
};
use crate::nft::{format_owned, owned_chars, parse_owned, spec_parse_owned, NftParseError, OwnedFault};
use crate::stl::chain::ProofOfReserves;
use crate::stl::mime::MediaType;
use crate::stl::rstring::{check_name, is_fault, is_name, CharSet, InvalidName};
use crate::stl::specs::{Attachment, Details, Name, Ticker};
use vstd::utf8::encode_utf8;

verus! {

/// Name of the library of data types of the interface.
pub const LIB_NAME_RGB21: &'static str = "RGB21";

/// Number of items in a collection of tokens.
#[derive(Copy, Clone, Debug, Hash, PartialEq, Eq, Structural, PartialOrd, Ord)]
pub struct ItemsCount(pub u32);

impl View for ItemsCount {
    type V = nat;

    open spec fn view(&self) -> nat {
        self.0 as nat
    }
}

impl Default for ItemsCount {
    fn default() -> (r: ItemsCount)
        ensures
            r@ == 0,
    {
        ItemsCount(0)
    }
}

impl From<u32> for ItemsCount {
    fn from(value: u32) -> (r: ItemsCount) {
        ItemsCount(value)
    }
}

impl FromSpecImpl<u32> for ItemsCount {
    open spec fn obeys_from_spec() -> bool {
        true
    }

    open spec fn from_spec(value: u32) -> ItemsCount {
        ItemsCount(value)
    }
}

impl ItemsCount {
    /// What `text` reads as: a decimal number that fits the type.
    pub open spec fn spec_from_str(text: Seq<char>) -> Result<ItemsCount, ParseNumError> {
        match spec_parse_unsigned(text, u32::MAX as nat) {
            Ok(v) => Ok(ItemsCount(v as u32)),
            Err(e) => Err(e),
        }
    }

    /// Wraps a raw number.
    pub fn from_inner(inner: u32) -> (r: ItemsCount)
        ensures
            r.0 == inner,
    {
        ItemsCount(inner)
    }

    /// The raw number.
    pub fn into_inner(self) -> (v: u32)
        ensures
            v == self.0,
    {
        self.0
    }

    /// Reads a number of items from its decimal notation.
    pub fn from_str(text: &str) -> (r: Result<ItemsCount, ParseNumError>)
        ensures
            r == ItemsCount::spec_from_str(text@),
    {
        match parse_unsigned(text, u32::MAX as u64) {
            Ok(v) => Ok(ItemsCount(v as u32)),
            Err(e) => Err(e),
        }
    }

    /// Decimal notation of the number.
    pub fn to_string(&self) -> (r: String)
        ensures
            r@ == decimal_chars(self@),
    {
        format_unsigned(self.0 as u64)
    }
}

/// Index of a token within its contract.
#[derive(Copy, Clone, Debug, Hash, PartialEq, Eq, Structural, PartialOrd, Ord)]
pub struct TokenIndex(pub u32);

impl View for TokenIndex {
    type V = nat;

    open spec fn view(&self) -> nat {
        self.0 as nat
    }
}

impl Default for TokenIndex {
    fn default() -> (r: TokenIndex)
        ensures
            r@ == 0,
    {
        TokenIndex(0)
    }
}

impl From<u32> for TokenIndex {
    fn from(value: u32) -> (r: TokenIndex) {
        TokenIndex(value)
    }
}

impl FromSpecImpl<u32> for TokenIndex {
    open spec fn obeys_from_spec() -> bool {
        true
    }

    open spec fn from_spec(value: u32) -> TokenIndex {
        TokenIndex(value)
    }
}

impl TokenIndex {
    /// What `text` reads as: a decimal number that fits the type.
    pub open spec fn spec_from_str(text: Seq<char>) -> Result<TokenIndex, ParseNumError> {
        match spec_parse_unsigned(text, u32::MAX as nat) {
            Ok(v) => Ok(TokenIndex(v as u32)),
            Err(e) => Err(e),
        }
    }

    /// Wraps a raw number.
    pub fn from_inner(inner: u32) -> (r: TokenIndex)
        ensures
            r.0 == inner,
    {
        TokenIndex(inner)
    }

    /// The raw number.
    pub fn into_inner(self) -> (v: u32)
        ensures
            v == self.0,
    {
        self.0
    }

    /// Reads a token index from its decimal notation.
    pub fn from_str(text: &str) -> (r: Result<TokenIndex, ParseNumError>)
        ensures
            r == TokenIndex::spec_from_str(text@),
    {
        match parse_unsigned(text, u32::MAX as u64) {
            Ok(v) => Ok(TokenIndex(v as u32)),
            Err(e) => Err(e),
        }
    }

    /// Decimal notation of the number.
    pub fn to_string(&self) -> (r: String)
        ensures
            r@ == decimal_chars(self@),
    {
        format_unsigned(self.0 as u64)
    }
}

/// Number of fractions of a token that one owner holds.
#[derive(Copy, Clone, Debug, Hash, PartialEq, Eq, Structural, PartialOrd, Ord)]
pub struct OwnedFraction(pub u64);

impl View for OwnedFraction {
    type V = nat;

    open spec fn view(&self) -> nat {
        self.0 as nat
    }
}

impl Default for OwnedFraction {
    fn default() -> (r: OwnedFraction)
        ensures
            r@ == 0,
    {
        OwnedFraction(0)
    }
}

impl From<u64> for OwnedFraction {
    fn from(value: u64) -> (r: OwnedFraction) {
        OwnedFraction(value)
    }
}

impl FromSpecImpl<u64> for OwnedFraction {
    open spec fn obeys_from_spec() -> bool {
        true
    }

    open spec fn from_spec(value: u64) -> OwnedFraction {
        OwnedFraction(value)
    }
}

impl OwnedFraction {
    /// What `text` reads as: a decimal number that fits the type.
    pub open spec fn spec_from_str(text: Seq<char>) -> Result<OwnedFraction, ParseNumError> {
        match spec_parse_unsigned(text, u64::MAX as nat) {
            Ok(v) => Ok(OwnedFraction(v as u64)),
            Err(e) => Err(e),
        }
    }

    /// Wraps a raw number.
    pub fn from_inner(inner: u64) -> (r: OwnedFraction)
        ensures
            r.0 == inner,
    {
        OwnedFraction(inner)
    }

    /// The raw number.
    pub fn into_inner(self) -> (v: u64)
        ensures
            v == self.0,
    {
        self.0
    }

    /// Reads a number of fractions from its decimal notation.
    pub fn from_str(text: &str) -> (r: Result<OwnedFraction, ParseNumError>)
        ensures
            r == OwnedFraction::spec_from_str(text@),
    {
        match parse_unsigned(text, u64::MAX as u64) {
            Ok(v) => Ok(OwnedFraction(v as u64)),
            Err(e) => Err(e),
        }
    }

    /// Decimal notation of the number.
    pub fn to_string(&self) -> (r: String)
        ensures
            r@ == decimal_chars(self@),
    {
        format_unsigned(self.0 as u64)
    }

    /// The additive identity.
    pub fn zero() -> (r: OwnedFraction)
        ensures
            r@ == 0,
    {
        OwnedFraction(0)
    }

    /// The raw number.
    pub fn value(self) -> (v: u64)
        ensures
            v == self@,
    {
        self.0
    }

    /// Sum clamped to `u64::MAX`.
    pub fn saturating_add(&self, other: OwnedFraction) -> (r: OwnedFraction)
        ensures
            r@ == (if self@ + other@ > u64::MAX {
                u64::MAX as nat
            } else {
                self@ + other@
            }),
    {
        OwnedFraction(self.0.saturating_add(other.0))
    }

    /// Difference clamped to zero.
    pub fn saturating_sub(&self, other: OwnedFraction) -> (r: OwnedFraction)
        ensures
            r@ == (if self@ >= other@ {
                self@ - other@
            } else {
                0
            }),
    {
        OwnedFraction(self.0.saturating_sub(other.0))
    }

    /// Adds `other` in place, clamping to `u64::MAX`.
    pub fn saturating_add_assign(&mut self, other: OwnedFraction)
        ensures
            final(self)@ == (if old(self)@ + other@ > u64::MAX {
                u64::MAX as nat
            } else {
                old(self)@ + other@
            }),
    {
        *self = OwnedFraction(self.0.saturating_add(other.0));
    }

    /// Subtracts `other` in place, clamping to zero.
    pub fn saturating_sub_assign(&mut self, other: OwnedFraction)
        ensures
            final(self)@ == (if old(self)@ >= other@ {
                old(self)@ - other@
            } else {
                0
            }),
    {
        *self = OwnedFraction(self.0.saturating_sub(other.0));
    }

    /// Sum, or `None` when it does not fit the type.
    #[must_use]
    pub fn checked_add(&self, other: OwnedFraction) -> (r: Option<OwnedFraction>)
        ensures
            self@ + other@ <= u64::MAX ==> r.is_some() && r.unwrap()@ == self@ + other@,
            self@ + other@ > u64::MAX ==> r.is_none(),
    {
        match self.0.checked_add(other.0) {
            Some(v) => Some(OwnedFraction(v)),
            None => None,
        }
    }

    /// Difference, or `None` when `other` is the larger.
    #[must_use]
    pub fn checked_sub(&self, other: OwnedFraction) -> (r: Option<OwnedFraction>)
        ensures
            self@ >= other@ ==> r.is_some() && r.unwrap()@ == self@ - other@,
            self@ < other@ ==> r.is_none(),
    {
        match self.0.checked_sub(other.0) {
            Some(v) => Some(OwnedFraction(v)),
            None => None,
        }
    }

    /// Adds `other` in place. On overflow returns `None` and leaves the
    /// value as it was.
    #[must_use]
    pub fn checked_add_assign(&mut self, other: OwnedFraction) -> (r: Option<()>)
        ensures
            old(self)@ + other@ <= u64::MAX ==> r.is_some() && final(self)@ == old(self)@ + other@,
            old(self)@ + other@ > u64::MAX ==> r.is_none() && *final(self) == *old(self),
    {
        match self.0.checked_add(other.0) {
            Some(v) => {
                *self = OwnedFraction(v);
                Some(())
            },
            None => None,
        }
    }

    /// Subtracts `other` in place. On underflow returns `None` and leaves
    /// the value as it was.
    #[must_use]
    pub fn checked_sub_assign(&mut self, other: OwnedFraction) -> (r: Option<()>)
        ensures
            old(self)@ >= other@ ==> r.is_some() && final(self)@ == old(self)@ - other@,
            old(self)@ < other@ ==> r.is_none() && *final(self) == *old(self),
    {
        match self.0.checked_sub(other.0) {
            Some(v) => {
                *self = OwnedFraction(v);
                Some(())
            },
            None => None,
        }
    }
}

/// Why a text does not name an allocation of a token.
#[derive(Clone, Debug, PartialEq, Eq)]
pub enum AllocationParseError {
    /// The token index is invalid; holds the text that stood for it.
    InvalidIndex(String),
    /// The fraction is invalid; holds the text that stood for it, in lower
    /// case.
    InvalidFraction(String),
    /// The text has not the form `<fraction>@<token_index>`.
    WrongFormat,
}

impl View for AllocationParseError {
    type V = OwnedFault;

    open spec fn view(&self) -> OwnedFault {
        match self {
            AllocationParseError::InvalidIndex(shown) => OwnedFault::InvalidIndex(shown@),
            AllocationParseError::InvalidFraction(shown) => OwnedFault::InvalidFraction(shown@),
            AllocationParseError::WrongFormat => OwnedFault::WrongFormat,
        }
    }
}

impl AllocationParseError {
    /// The message of the error.
    pub open spec fn spec_message(self) -> Seq<char> {
        match self {
            AllocationParseError::InvalidIndex(shown) => "invalid token index "@ + shown@ + "."@,
            AllocationParseError::InvalidFraction(shown) => "invalid fraction "@ + shown@ + "."@,
            AllocationParseError::WrongFormat => "allocation must have format <fraction>@<token_index>."@,
        }
    }

    /// The message of the error.
    pub fn to_string(&self) -> (r: String)
        ensures
            r@ == self.spec_message(),
    {
        match self {
            AllocationParseError::InvalidIndex(shown) => {
                let mut out = "invalid token index ".to_owned();
                out.append(shown.as_str());
                out.append(".");
                out
            },
            AllocationParseError::InvalidFraction(shown) => {
                let mut out = "invalid fraction ".to_owned();
                out.append(shown.as_str());
                out.append(".");
                out
            },
            AllocationParseError::WrongFormat => {
                "allocation must have format <fraction>@<token_index>.".to_owned()
            },
        }
    }
}

/// Allocation of a token: the token and the fraction of it that is owned.
#[derive(Copy, Clone, Debug, Hash, PartialEq, Eq, Structural)]
pub struct NftAllocation(pub TokenIndex, pub OwnedFraction);

impl Default for NftAllocation {
    fn default() -> (r: NftAllocation)
        ensures
            r.0@ == 0,
            r.1@ == 0,
    {
        NftAllocation(TokenIndex(0), OwnedFraction(0))
    }
}

impl NftAllocation {
    /// What `text` reads as in the notation `<fraction>@<token_index>`.
    pub open spec fn spec_from_str(text: Seq<char>) -> Result<NftAllocation, OwnedFault> {
        match spec_parse_owned(text) {
            Ok((token, owned)) => Ok(NftAllocation(TokenIndex(token), OwnedFraction(owned))),
            Err(e) => Err(e),
        }
    }

    /// The allocation of `fraction` of the token `index`.
    pub fn with(index: TokenIndex, fraction: OwnedFraction) -> (r: NftAllocation)
        ensures
            r.0 == index,
            r.1 == fraction,
    {
        NftAllocation(index, fraction)
    }

    /// Index of the token.
    pub fn token_index(self) -> (r: TokenIndex)
        ensures
            r == self.0,
    {
        self.0
    }

    /// Fraction of the token that is owned.
    pub fn fraction(self) -> (r: OwnedFraction)
        ensures
            r == self.1,
    {
        self.1
    }

    /// Reads an allocation from the notation `<fraction>@<token_index>`.
    pub fn from_str(text: &str) -> (r: Result<NftAllocation, AllocationParseError>)
        ensures
            match r {
                Ok(allocation) => NftAllocation::spec_from_str(text@) == Ok::<
                    NftAllocation,
                    OwnedFault,
                >(allocation),
                Err(e) => NftAllocation::spec_from_str(text@) == Err::<NftAllocation, OwnedFault>(
                    e@,
                ),
            },
    {
        match parse_owned(text) {
            Ok((token, owned)) => Ok(NftAllocation(TokenIndex(token), OwnedFraction(owned))),
            Err(NftParseError::InvalidIndex(shown)) => Err(
                AllocationParseError::InvalidIndex(shown),
            ),
            Err(NftParseError::InvalidFraction(shown)) => Err(
                AllocationParseError::InvalidFraction(shown),
            ),
            Err(NftParseError::WrongFormat) => Err(AllocationParseError::WrongFormat),
        }
    }

    /// The allocation in the notation `<fraction>@<token_index>`.
    pub fn to_string(&self) -> (r: String)
        ensures
            r@ == owned_chars(self.0@, self.1@),
    {
        format_owned(self.0.0, self.1.0)
    }
}

/// Name of a kind of attachment: 1 to 20 ASCII characters.
#[derive(Debug, Hash, PartialEq, Eq, PartialOrd, Ord)]
pub struct AttachmentName(String);

impl View for AttachmentName {
    type V = Seq<char>;

    closed spec fn view(&self) -> Seq<char> {
        self.0@
    }
}

impl Clone for AttachmentName {
    fn clone(&self) -> (r: AttachmentName)
        ensures
            r@ == self@,
    {
        proof {
            use_type_invariant(self);
        }
        AttachmentName(self.0.clone())
    }
}

impl AttachmentName {
    /// Least length in bytes.
    pub const MIN_LEN: usize = 1;

    /// Greatest length in bytes.
    pub const MAX_LEN: usize = 20;

    /// Whether `text` is a valid name of an attachment.
    pub open spec fn spec_valid(text: Seq<char>) -> bool {
        is_name(encode_utf8(text), CharSet::AsciiPrintable, CharSet::AsciiPrintable, 1, 20)
    }

    /// Whether `fault` is what keeps `text` from being a valid name of an attachment.
    pub open spec fn spec_fault(text: Seq<char>, fault: InvalidName) -> bool {
        is_fault(encode_utf8(text), CharSet::AsciiPrintable, CharSet::AsciiPrintable, 1, 20, fault)
    }

    #[verifier::type_invariant]
    spec fn valid(self) -> bool {
        AttachmentName::spec_valid(self.0@)
    }

    /// Makes a name of an attachment of `text`, or says what is wrong with it.
    pub fn from_str(text: &str) -> (r: Result<AttachmentName, InvalidName>)
        ensures
            match r {
                Ok(made) => made@ == text@ && AttachmentName::spec_valid(text@),
                Err(fault) => AttachmentName::spec_fault(text@, fault),
            },
    {
        match check_name(text, CharSet::AsciiPrintable, CharSet::AsciiPrintable, 1, 20) {
            Ok(_) => Ok(AttachmentName(text.to_owned())),
            Err(fault) => Err(fault),
        }
    }

    /// Makes a name of an attachment of a text that is known to be valid.
    pub fn from_valid(text: &str) -> (r: AttachmentName)
        requires
            AttachmentName::spec_valid(text@),
        ensures
            r@ == text@,
    {
        AttachmentName(text.to_owned())
    }

    /// The text of the name of an attachment, which is valid.
    pub fn as_str(&self) -> (r: &str)
        ensures
            r@ == self@,
            AttachmentName::spec_valid(self@),
    {
        proof {
            use_type_invariant(self);
        }
        self.0.as_str()
    }

    /// The text of the name of an attachment.
    pub fn to_string(&self) -> (r: String)
        ensures
            r@ == self@,
    {
        self.0.clone()
    }
}

/// A kind of attachment that tokens of a contract may have.
#[derive(Clone, Debug, Hash, PartialEq, Eq)]
pub struct AttachmentType {
    pub id: u8,
    pub name: AttachmentName,
}

impl AttachmentType {
    /// The kind of attachment with the given number and name. The name must
    /// be valid.
    pub fn with(id: u8, name: &'static str) -> (r: AttachmentType)
        requires
            AttachmentName::spec_valid(name@),
        ensures
            r.id == id,
            r.name@ == name@,
    {
        AttachmentType { id, name: AttachmentName::from_valid(name) }
    }
}

/// Greatest number of bytes of a file that is embedded in a contract.
pub const EMBEDDED_MAX_LEN: usize = 65535;

/// Greatest number of attachments of a token.
pub const ATTACHMENTS_MAX_LEN: usize = 20;

/// A file that a contract holds in full.
#[derive(Clone, Debug, PartialEq, Eq)]
pub struct EmbeddedMedia {
    pub ty: MediaType,
    pub data: Vec<u8>,
}

impl EmbeddedMedia {
    /// Whether the file is small enough to be embedded.
    pub open spec fn spec_wf(self) -> bool {
        self.data@.len() <= EMBEDDED_MAX_LEN
    }

    /// Whether the file is small enough to be embedded.
    pub fn is_wf(&self) -> (r: bool)
        ensures
            r == self.spec_wf(),
    {
        self.data.len() <= EMBEDDED_MAX_LEN
    }
}

/// An engraving: the token it is applied to and what is engraved.
#[derive(Clone, Debug, PartialEq, Eq)]
pub struct EngravingData {
    pub applied_to: TokenIndex,
    pub content: EmbeddedMedia,
}

/// All that a contract says of one token.
#[derive(Clone, Debug, PartialEq, Eq)]
pub struct TokenData {
    pub index: TokenIndex,
    pub ticker: Option<Ticker>,
    pub name: Option<Name>,
    pub details: Option<Details>,
    pub preview: Option<EmbeddedMedia>,
    pub media: Option<Attachment>,
    /// Attachments by the number of their kind, in ascending order of the
    /// numbers, each number once, at most twenty.
    pub attachments: Vec<(u8, Attachment)>,
    pub reserves: Option<ProofOfReserves>,
}

impl TokenData {
    /// Whether the data can stand in a contract: the preview is small
    /// enough, and the attachments are at most twenty, in strictly
    /// ascending order of their numbers.
    pub open spec fn spec_wf(self) -> bool {
        &&& self.preview is Some ==> self.preview->0.spec_wf()
        &&& self.reserves is Some ==> self.reserves->0.spec_wf()
        &&& self.attachments@.len() <= ATTACHMENTS_MAX_LEN
        &&& forall|i: int, j: int|
            0 <= i < j < self.attachments@.len() ==> (#[trigger] self.attachments@[i]).0 < (
            #[trigger] self.attachments@[j]).0
    }

    /// Whether the data can stand in a contract.
    pub fn is_wf(&self) -> (r: bool)
        ensures
            r == self.spec_wf(),
    {
        if let Some(preview) = &self.preview {
            if !preview.is_wf() {
                return false;
            }
        }
        if let Some(reserves) = &self.reserves {
            if !reserves.is_wf() {
                return false;
            }
        }
        let len = self.attachments.len();
        if len > ATTACHMENTS_MAX_LEN {
            return false;
        }
        let mut i: usize = 1;
        while i < len
            invariant
                1 <= i,
                len == self.attachments@.len(),
                forall|a: int, b: int|
                    0 <= a < b < i && b < len ==> (#[trigger] self.attachments@[a]).0 < (
                    #[trigger] self.attachments@[b]).0,
            decreases len - i,
        {
            if self.attachments[i - 1].0 >= self.attachments[i].0 {
                return false;
            }
            proof {
                assert forall|a: int, b: int| 0 <= a < b < i + 1 && b < len implies (
                #[trigger] self.attachments@[a]).0 < (#[trigger] self.attachments@[b]).0 by {
                    if b == i && a < i - 1 {
                        assert(self.attachments@[a].0 < self.attachments@[i - 1].0);
                    }
                }
            }
            i += 1;
        }
        true
    }
}

impl Default for TokenData {
    fn default() -> (r: TokenData)
        ensures
            r.spec_wf(),
            r.index@ == 0,
            r.ticker is None,
            r.name is None,
            r.details is None,
            r.preview is None,
            r.media is None,
            r.attachments@.len() == 0,
            r.reserves is None,
    {
        TokenData {
            index: TokenIndex(0),
            ticker: None,
            name: None,
            details: None,
            preview: None,
            media: None,
            attachments: Vec::new(),
            reserves: None,
        }
    }
}

} // verus!
