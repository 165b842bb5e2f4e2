//! Data of non-fungible tokens: token numbers, owned fractions and the
//! notation `<fraction>@<token>` of an owned share.

use vstd::prelude::*;
use vstd::std_specs::convert::FromSpecImpl;
use crate::decimal::{
    decimal_chars, format_unsigned, parse_unsigned, spec_parse_unsigned, write_unsigned,
    ParseNumError,
};
use crate::text::{lowercase_of, spec_split_once, split_once, to_lowercase};

verus! {

/// Character that may stand in a registered media type name after its first
/// letter: a lower-case letter, a digit or one of `! # $ & + - . ^ _`.
#[derive(Copy, Clone, Debug, Hash, PartialEq, Eq, Structural, PartialOrd, Ord)]
#[allow(non_camel_case_types)]
pub enum MimeChar {
    Excl,
    Hash,
    Dollar,
    Amp,
    Plus,
    Dash,
    Dot,
    Zero,
    One,
    Two,
    Three,
    Four,
    Five,
    Six,
    Seven,
    Eight,
    Nine,
    Caret,
    Lodash,
    a,
    b,
    c,
    d,
    e,
    f,
    g,
    h,
    i,
    j,
    k,
    l,
    m,
    n,
    o,
    p,
    q,
    r,
    s,
    t,
    u,
    v,
    w,
    x,
    y,
    z,
}

/// Whether `byte` is the code of a character of media type names.
pub open spec fn is_mime_byte(byte: u8) -> bool {
    ||| 0x61 <= byte <= 0x7a
    ||| 0x30 <= byte <= 0x39
    ||| byte == 0x21
    ||| byte == 0x23
    ||| byte == 0x24
    ||| byte == 0x26
    ||| byte == 0x2b
    ||| byte == 0x2d
    ||| byte == 0x2e
    ||| byte == 0x5e
    ||| byte == 0x5f
}

impl MimeChar {
    /// ASCII code of the character.
    pub open spec fn spec_to_byte(self) -> u8 {
        match self {
            MimeChar::Excl => 33,
            MimeChar::Hash => 35,
            MimeChar::Dollar => 36,
            MimeChar::Amp => 38,
            MimeChar::Plus => 43,
            MimeChar::Dash => 45,
            MimeChar::Dot => 46,
            MimeChar::Zero => 48,
            MimeChar::One => 49,
            MimeChar::Two => 50,
            MimeChar::Three => 51,
            MimeChar::Four => 52,
            MimeChar::Five => 53,
            MimeChar::Six => 54,
            MimeChar::Seven => 55,
            MimeChar::Eight => 56,
            MimeChar::Nine => 57,
            MimeChar::Caret => 94,
            MimeChar::Lodash => 95,
            MimeChar::a => 97,
            MimeChar::b => 98,
            MimeChar::c => 99,
            MimeChar::d => 100,
            MimeChar::e => 101,
            MimeChar::f => 102,
            MimeChar::g => 103,
            MimeChar::h => 104,
            MimeChar::i => 105,
            MimeChar::j => 106,
            MimeChar::k => 107,
            MimeChar::l => 108,
            MimeChar::m => 109,
            MimeChar::n => 110,
            MimeChar::o => 111,
            MimeChar::p => 112,
            MimeChar::q => 113,
            MimeChar::r => 114,
            MimeChar::s => 115,
            MimeChar::t => 116,
            MimeChar::u => 117,
            MimeChar::v => 118,
            MimeChar::w => 119,
            MimeChar::x => 120,
            MimeChar::y => 121,
            MimeChar::z => 122,
        }
    }

    /// The character with the given ASCII code, if it is one of the set.
    pub open spec fn spec_from_byte(byte: u8) -> Option<MimeChar> {
        if byte == 33 {
            Some(MimeChar::Excl)
        } else if byte == 35 {
            Some(MimeChar::Hash)
        } else if byte == 36 {
            Some(MimeChar::Dollar)
        } else if byte == 38 {
            Some(MimeChar::Amp)
        } else if byte == 43 {
            Some(MimeChar::Plus)
        } else if byte == 45 {
            Some(MimeChar::Dash)
        } else if byte == 46 {
            Some(MimeChar::Dot)
        } else if byte == 48 {
            Some(MimeChar::Zero)
        } else if byte == 49 {
            Some(MimeChar::One)
        } else if byte == 50 {
            Some(MimeChar::Two)
        } else if byte == 51 {
            Some(MimeChar::Three)
        } else if byte == 52 {
            Some(MimeChar::Four)
        } else if byte == 53 {
            Some(MimeChar::Five)
        } else if byte == 54 {
            Some(MimeChar::Six)
        } else if byte == 55 {
            Some(MimeChar::Seven)
        } else if byte == 56 {
            Some(MimeChar::Eight)
        } else if byte == 57 {
            Some(MimeChar::Nine)
        } else if byte == 94 {
            Some(MimeChar::Caret)
        } else if byte == 95 {
            Some(MimeChar::Lodash)
        } else if byte == 97 {
            Some(MimeChar::a)
        } else if byte == 98 {
            Some(MimeChar::b)
        } else if byte == 99 {
            Some(MimeChar::c)
        } else if byte == 100 {
            Some(MimeChar::d)
        } else if byte == 101 {
            Some(MimeChar::e)
        } else if byte == 102 {
            Some(MimeChar::f)
        } else if byte == 103 {
            Some(MimeChar::g)
        } else if byte == 104 {
            Some(MimeChar::h)
        } else if byte == 105 {
            Some(MimeChar::i)
        } else if byte == 106 {
            Some(MimeChar::j)
        } else if byte == 107 {
            Some(MimeChar::k)
        } else if byte == 108 {
            Some(MimeChar::l)
        } else if byte == 109 {
            Some(MimeChar::m)
        } else if byte == 110 {
            Some(MimeChar::n)
        } else if byte == 111 {
            Some(MimeChar::o)
        } else if byte == 112 {
            Some(MimeChar::p)
        } else if byte == 113 {
            Some(MimeChar::q)
        } else if byte == 114 {
            Some(MimeChar::r)
        } else if byte == 115 {
            Some(MimeChar::s)
        } else if byte == 116 {
            Some(MimeChar::t)
        } else if byte == 117 {
            Some(MimeChar::u)
        } else if byte == 118 {
            Some(MimeChar::v)
        } else if byte == 119 {
            Some(MimeChar::w)
        } else if byte == 120 {
            Some(MimeChar::x)
        } else if byte == 121 {
            Some(MimeChar::y)
        } else if byte == 122 {
            Some(MimeChar::z)
        } else {
            None
        }
    }

    /// ASCII code of the character.
    pub fn to_byte(self) -> (byte: u8)
        ensures
            byte == self.spec_to_byte(),
            is_mime_byte(byte),
    {
        match self {
            MimeChar::Excl => 33,
            MimeChar::Hash => 35,
            MimeChar::Dollar => 36,
            MimeChar::Amp => 38,
            MimeChar::Plus => 43,
            MimeChar::Dash => 45,
            MimeChar::Dot => 46,
            MimeChar::Zero => 48,
            MimeChar::One => 49,
            MimeChar::Two => 50,
            MimeChar::Three => 51,
            MimeChar::Four => 52,
            MimeChar::Five => 53,
            MimeChar::Six => 54,
            MimeChar::Seven => 55,
            MimeChar::Eight => 56,
            MimeChar::Nine => 57,
            MimeChar::Caret => 94,
            MimeChar::Lodash => 95,
            MimeChar::a => 97,
            MimeChar::b => 98,
            MimeChar::c => 99,
            MimeChar::d => 100,
            MimeChar::e => 101,
            MimeChar::f => 102,
            MimeChar::g => 103,
            MimeChar::h => 104,
            MimeChar::i => 105,
            MimeChar::j => 106,
            MimeChar::k => 107,
            MimeChar::l => 108,
            MimeChar::m => 109,
            MimeChar::n => 110,
            MimeChar::o => 111,
            MimeChar::p => 112,
            MimeChar::q => 113,
            MimeChar::r => 114,
            MimeChar::s => 115,
            MimeChar::t => 116,
            MimeChar::u => 117,
            MimeChar::v => 118,
            MimeChar::w => 119,
            MimeChar::x => 120,
            MimeChar::y => 121,
            MimeChar::z => 122,
        }
    }

    /// The character with the given ASCII code; `None` for a code outside
    /// the set.
    pub fn from_byte(byte: u8) -> (r: Option<MimeChar>)
        ensures
            r == MimeChar::spec_from_byte(byte),
            r.is_some() <==> is_mime_byte(byte),
            r.is_some() ==> r.unwrap().spec_to_byte() == byte,
    {
        match byte {
            33 => Some(MimeChar::Excl),
            35 => Some(MimeChar::Hash),
            36 => Some(MimeChar::Dollar),
            38 => Some(MimeChar::Amp),
            43 => Some(MimeChar::Plus),
            45 => Some(MimeChar::Dash),
            46 => Some(MimeChar::Dot),
            48 => Some(MimeChar::Zero),
            49 => Some(MimeChar::One),
            50 => Some(MimeChar::Two),
            51 => Some(MimeChar::Three),
            52 => Some(MimeChar::Four),
            53 => Some(MimeChar::Five),
            54 => Some(MimeChar::Six),
            55 => Some(MimeChar::Seven),
            56 => Some(MimeChar::Eight),
            57 => Some(MimeChar::Nine),
            94 => Some(MimeChar::Caret),
            95 => Some(MimeChar::Lodash),
            97 => Some(MimeChar::a),
            98 => Some(MimeChar::b),
            99 => Some(MimeChar::c),
            100 => Some(MimeChar::d),
            101 => Some(MimeChar::e),
            102 => Some(MimeChar::f),
            103 => Some(MimeChar::g),
            104 => Some(MimeChar::h),
            105 => Some(MimeChar::i),
            106 => Some(MimeChar::j),
            107 => Some(MimeChar::k),
            108 => Some(MimeChar::l),
            109 => Some(MimeChar::m),
            110 => Some(MimeChar::n),
            111 => Some(MimeChar::o),
            112 => Some(MimeChar::p),
            113 => Some(MimeChar::q),
            114 => Some(MimeChar::r),
            115 => Some(MimeChar::s),
            116 => Some(MimeChar::t),
            117 => Some(MimeChar::u),
            118 => Some(MimeChar::v),
            119 => Some(MimeChar::w),
            120 => Some(MimeChar::x),
            121 => Some(MimeChar::y),
            122 => Some(MimeChar::z),
            _ => None,
        }
    }

    /// The character as a text of length one.
    pub fn to_string(&self) -> (r: String)
        ensures
            r@ == seq![self.spec_to_byte() as char],
    {
        proof {
            reveal_strlit("!");
            reveal_strlit("#");
            reveal_strlit("$");
            reveal_strlit("&");
            reveal_strlit("+");
            reveal_strlit("-");
            reveal_strlit(".");
            reveal_strlit("0");
            reveal_strlit("1");
            reveal_strlit("2");
            reveal_strlit("3");
            reveal_strlit("4");
            reveal_strlit("5");
            reveal_strlit("6");
            reveal_strlit("7");
            reveal_strlit("8");
            reveal_strlit("9");
            reveal_strlit("^");
            reveal_strlit("_");
            reveal_strlit("a");
            reveal_strlit("b");
            reveal_strlit("c");
            reveal_strlit("d");
            reveal_strlit("e");
            reveal_strlit("f");
            reveal_strlit("g");
            reveal_strlit("h");
            reveal_strlit("i");
            reveal_strlit("j");
            reveal_strlit("k");
            reveal_strlit("l");
            reveal_strlit("m");
            reveal_strlit("n");
            reveal_strlit("o");
            reveal_strlit("p");
            reveal_strlit("q");
            reveal_strlit("r");
            reveal_strlit("s");
            reveal_strlit("t");
            reveal_strlit("u");
            reveal_strlit("v");
            reveal_strlit("w");
            reveal_strlit("x");
            reveal_strlit("y");
            reveal_strlit("z");
        }
        let text = match self {
            MimeChar::Excl => "!",
            MimeChar::Hash => "#",
            MimeChar::Dollar => "$",
            MimeChar::Amp => "&",
            MimeChar::Plus => "+",
            MimeChar::Dash => "-",
            MimeChar::Dot => ".",
            MimeChar::Zero => "0",
            MimeChar::One => "1",
            MimeChar::Two => "2",
            MimeChar::Three => "3",
            MimeChar::Four => "4",
            MimeChar::Five => "5",
            MimeChar::Six => "6",
            MimeChar::Seven => "7",
            MimeChar::Eight => "8",
            MimeChar::Nine => "9",
            MimeChar::Caret => "^",
            MimeChar::Lodash => "_",
            MimeChar::a => "a",
            MimeChar::b => "b",
            MimeChar::c => "c",
            MimeChar::d => "d",
            MimeChar::e => "e",
            MimeChar::f => "f",
            MimeChar::g => "g",
            MimeChar::h => "h",
            MimeChar::i => "i",
            MimeChar::j => "j",
            MimeChar::k => "k",
            MimeChar::l => "l",
            MimeChar::m => "m",
            MimeChar::n => "n",
            MimeChar::o => "o",
            MimeChar::p => "p",
            MimeChar::q => "q",
            MimeChar::r => "r",
            MimeChar::s => "s",
            MimeChar::t => "t",
            MimeChar::u => "u",
            MimeChar::v => "v",
            MimeChar::w => "w",
            MimeChar::x => "x",
            MimeChar::y => "y",
            MimeChar::z => "z",
        };
        assert(text@ =~= seq![self.spec_to_byte() as char]);
        text.to_owned()
    }
}

/// A code of the set and its character determine each other.
pub proof fn lemma_mime_char_round_trip(symbol: MimeChar, byte: u8)
    ensures
        MimeChar::spec_from_byte(symbol.spec_to_byte()) == Some(symbol),
        is_mime_byte(symbol.spec_to_byte()),
        is_mime_byte(byte) <==> MimeChar::spec_from_byte(byte).is_some(),
        MimeChar::spec_from_byte(byte).is_some() ==> MimeChar::spec_from_byte(
            byte,
        ).unwrap().spec_to_byte() == byte,
{
}

/// Number of a token within its contract.
#[derive(Copy, Clone, Debug, Hash, PartialEq, Eq, Structural, PartialOrd, Ord)]
pub struct TokenNo(pub u32);

impl View for TokenNo {
    type V = nat;

    open spec fn view(&self) -> nat {
        self.0 as nat
    }
}

impl Default for TokenNo {
    fn default() -> (r: TokenNo)
        ensures
            r@ == 0,
    {
        TokenNo(0)
    }
}

impl From<u32> for TokenNo {
    fn from(value: u32) -> (r: TokenNo) {
        TokenNo(value)
    }
}

impl FromSpecImpl<u32> for TokenNo {
    open spec fn obeys_from_spec() -> bool {
        true
    }

    open spec fn from_spec(value: u32) -> TokenNo {
        TokenNo(value)
    }
}

impl TokenNo {
    /// What `text` reads as: a decimal number that fits the type.
    pub open spec fn spec_from_str(text: Seq<char>) -> Result<TokenNo, ParseNumError> {
        match spec_parse_unsigned(text, u32::MAX as nat) {
            Ok(v) => Ok(TokenNo(v as u32)),
            Err(e) => Err(e),
        }
    }

    /// Wraps a raw number.
    pub fn from_inner(inner: u32) -> (r: TokenNo)
        ensures
            r.0 == inner,
    {
        TokenNo(inner)
    }

    /// The raw number.
    pub fn into_inner(self) -> (v: u32)
        ensures
            v == self.0,
    {
        self.0
    }

    /// Reads a token number from its decimal notation.
    pub fn from_str(text: &str) -> (r: Result<TokenNo, ParseNumError>)
        ensures
            r == TokenNo::spec_from_str(text@),
    {
        match parse_unsigned(text, u32::MAX as u64) {
            Ok(v) => Ok(TokenNo(v as u32)),
            Err(e) => Err(e),
        }
    }

    /// Decimal notation of the number.
    pub fn to_string(&self) -> (r: String)
        ensures
            r@ == decimal_chars(self@),
    {
        format_unsigned(self.0 as u64)
    }
}

/// Number of fractions of a token.
#[derive(Copy, Clone, Debug, Hash, PartialEq, Eq, Structural, PartialOrd, Ord)]
pub struct TokenFractions(pub u64);

impl View for TokenFractions {
    type V = nat;

    open spec fn view(&self) -> nat {
        self.0 as nat
    }
}

impl Default for TokenFractions {
    fn default() -> (r: TokenFractions)
        ensures
            r@ == 0,
    {
        TokenFractions(0)
    }
}

impl From<u64> for TokenFractions {
    fn from(value: u64) -> (r: TokenFractions) {
        TokenFractions(value)
    }
}

impl FromSpecImpl<u64> for TokenFractions {
    open spec fn obeys_from_spec() -> bool {
        true
    }

    open spec fn from_spec(value: u64) -> TokenFractions {
        TokenFractions(value)
    }
}

impl TokenFractions {
    /// What `text` reads as: a decimal number that fits the type.
    pub open spec fn spec_from_str(text: Seq<char>) -> Result<TokenFractions, ParseNumError> {
        match spec_parse_unsigned(text, u64::MAX as nat) {
            Ok(v) => Ok(TokenFractions(v as u64)),
            Err(e) => Err(e),
        }
    }

    /// Wraps a raw number.
    pub fn from_inner(inner: u64) -> (r: TokenFractions)
        ensures
            r.0 == inner,
    {
        TokenFractions(inner)
    }

    /// The raw number.
    pub fn into_inner(self) -> (v: u64)
        ensures
            v == self.0,
    {
        self.0
    }

    /// Reads a number of fractions from its decimal notation.
    pub fn from_str(text: &str) -> (r: Result<TokenFractions, ParseNumError>)
        ensures
            r == TokenFractions::spec_from_str(text@),
    {
        match parse_unsigned(text, u64::MAX as u64) {
            Ok(v) => Ok(TokenFractions(v as u64)),
            Err(e) => Err(e),
        }
    }

    /// Decimal notation of the number.
    pub fn to_string(&self) -> (r: String)
        ensures
            r@ == decimal_chars(self@),
    {
        format_unsigned(self.0 as u64)
    }

    /// The additive identity.
    pub fn zero() -> (r: TokenFractions)
        ensures
            r@ == 0,
    {
        TokenFractions(0)
    }

    /// The raw number.
    pub fn value(self) -> (v: u64)
        ensures
            v == self@,
    {
        self.0
    }

    /// Sum clamped to `u64::MAX`.
    pub fn saturating_add(&self, other: TokenFractions) -> (r: TokenFractions)
        ensures
            r@ == (if self@ + other@ > u64::MAX {
                u64::MAX as nat
            } else {
                self@ + other@
            }),
    {
        TokenFractions(self.0.saturating_add(other.0))
    }

    /// Difference clamped to zero.
    pub fn saturating_sub(&self, other: TokenFractions) -> (r: TokenFractions)
        ensures
            r@ == (if self@ >= other@ {
                self@ - other@
            } else {
                0
            }),
    {
        TokenFractions(self.0.saturating_sub(other.0))
    }

    /// Adds `other` in place, clamping to `u64::MAX`.
    pub fn saturating_add_assign(&mut self, other: TokenFractions)
        ensures
            final(self)@ == (if old(self)@ + other@ > u64::MAX {
                u64::MAX as nat
            } else {
                old(self)@ + other@
            }),
    {
        *self = TokenFractions(self.0.saturating_add(other.0));
    }

    /// Subtracts `other` in place, clamping to zero.
    pub fn saturating_sub_assign(&mut self, other: TokenFractions)
        ensures
            final(self)@ == (if old(self)@ >= other@ {
                old(self)@ - other@
            } else {
                0
            }),
    {
        *self = TokenFractions(self.0.saturating_sub(other.0));
    }

    /// Sum, or `None` when it does not fit the type.
    #[must_use]
    pub fn checked_add(&self, other: TokenFractions) -> (r: Option<TokenFractions>)
        ensures
            self@ + other@ <= u64::MAX ==> r.is_some() && r.unwrap()@ == self@ + other@,
            self@ + other@ > u64::MAX ==> r.is_none(),
    {
        match self.0.checked_add(other.0) {
            Some(v) => Some(TokenFractions(v)),
            None => None,
        }
    }

    /// Difference, or `None` when `other` is the larger.
    #[must_use]
    pub fn checked_sub(&self, other: TokenFractions) -> (r: Option<TokenFractions>)
        ensures
            self@ >= other@ ==> r.is_some() && r.unwrap()@ == self@ - other@,
            self@ < other@ ==> r.is_none(),
    {
        match self.0.checked_sub(other.0) {
            Some(v) => Some(TokenFractions(v)),
            None => None,
        }
    }

    /// Adds `other` in place. On overflow returns `None` and leaves the
    /// value as it was.
    #[must_use]
    pub fn checked_add_assign(&mut self, other: TokenFractions) -> (r: Option<()>)
        ensures
            old(self)@ + other@ <= u64::MAX ==> r.is_some() && final(self)@ == old(self)@ + other@,
            old(self)@ + other@ > u64::MAX ==> r.is_none() && *final(self) == *old(self),
    {
        match self.0.checked_add(other.0) {
            Some(v) => {
                *self = TokenFractions(v);
                Some(())
            },
            None => None,
        }
    }

    /// Subtracts `other` in place. On underflow returns `None` and leaves
    /// the value as it was.
    #[must_use]
    pub fn checked_sub_assign(&mut self, other: TokenFractions) -> (r: Option<()>)
        ensures
            old(self)@ >= other@ ==> r.is_some() && final(self)@ == old(self)@ - other@,
            old(self)@ < other@ ==> r.is_none() && *final(self) == *old(self),
    {
        match self.0.checked_sub(other.0) {
            Some(v) => {
                *self = TokenFractions(v);
                Some(())
            },
            None => None,
        }
    }
}

/// What is wrong with a text that should name an owned share, with the
/// offending part as a sequence of characters.
pub ghost enum OwnedFault {
    /// The part after the `@` is no token number; it is held as written.
    InvalidIndex(Seq<char>),
    /// The part before the `@` is no number of fractions; it is held in
    /// lower case.
    InvalidFraction(Seq<char>),
    /// The text holds no `@`.
    WrongFormat,
}

/// What `text` reads as in the notation `<fraction>@<token>`: the token
/// number and the number of fractions. The text is split at its first `@`;
/// the token number is read first, so where both parts are wrong the error
/// names the token number.
pub open spec fn spec_parse_owned(text: Seq<char>) -> Result<(u32, u64), OwnedFault> {
    match spec_split_once(text, '@') {
        None => Err(OwnedFault::WrongFormat),
        Some((fraction, index)) => match spec_parse_unsigned(index, u32::MAX as nat) {
            Err(_) => Err(OwnedFault::InvalidIndex(index)),
            Ok(token) => match spec_parse_unsigned(fraction, u64::MAX as nat) {
                Err(_) => Err(OwnedFault::InvalidFraction(lowercase_of(fraction))),
                Ok(owned) => Ok((token as u32, owned as u64)),
            },
        },
    }
}

/// The notation `<fraction>@<token>` of an owned share.
pub open spec fn owned_chars(token: nat, fraction: nat) -> Seq<char> {
    decimal_chars(fraction) + seq!['@'] + decimal_chars(token)
}

/// Why a text does not name an owned share of a token.
#[derive(Clone, Debug, PartialEq, Eq)]
pub enum NftParseError {
    /// The token number is invalid; holds the text that stood for it.
    InvalidIndex(String),
    /// The number of fractions is invalid; holds the text that stood for it,
    /// in lower case.
    InvalidFraction(String),
    /// The text has not the form `<fraction>@<token>`.
    WrongFormat,
}

impl View for NftParseError {
    type V = OwnedFault;

    open spec fn view(&self) -> OwnedFault {
        match self {
            NftParseError::InvalidIndex(shown) => OwnedFault::InvalidIndex(shown@),
            NftParseError::InvalidFraction(shown) => OwnedFault::InvalidFraction(shown@),
            NftParseError::WrongFormat => OwnedFault::WrongFormat,
        }
    }
}

impl NftParseError {
    /// The message of the error.
    pub open spec fn spec_message(self) -> Seq<char> {
        match self {
            NftParseError::InvalidIndex(shown) => "invalid token index "@ + shown@ + "."@,
            NftParseError::InvalidFraction(shown) => "invalid fraction "@ + shown@ + "."@,
            NftParseError::WrongFormat => "allocation must have format <fraction>@<token_index>."@,
        }
    }

    /// The message of the error.
    pub fn to_string(&self) -> (r: String)
        ensures
            r@ == self.spec_message(),
    {
        match self {
            NftParseError::InvalidIndex(shown) => {
                let mut out = "invalid token index ".to_owned();
                out.append(shown.as_str());
                out.append(".");
                out
            },
            NftParseError::InvalidFraction(shown) => {
                let mut out = "invalid fraction ".to_owned();
                out.append(shown.as_str());
                out.append(".");
                out
            },
            NftParseError::WrongFormat => {
                "allocation must have format <fraction>@<token_index>.".to_owned()
            },
        }
    }
}

/// Reads a token number and a number of fractions from the notation
/// `<fraction>@<token>`.
pub fn parse_owned(text: &str) -> (r: Result<(u32, u64), NftParseError>)
    ensures
        match r {
            Ok(pair) => spec_parse_owned(text@) == Ok::<(u32, u64), OwnedFault>(pair),
            Err(e) => spec_parse_owned(text@) == Err::<(u32, u64), OwnedFault>(e@),
        },
{
    match split_once(text, '@') {
        None => Err(NftParseError::WrongFormat),
        Some((fraction, index)) => match parse_unsigned(index, u32::MAX as u64) {
            Err(_) => Err(NftParseError::InvalidIndex(index.to_owned())),
            Ok(token) => match parse_unsigned(fraction, u64::MAX) {
                Err(_) => Err(NftParseError::InvalidFraction(to_lowercase(fraction))),
                Ok(owned) => Ok((token as u32, owned)),
            },
        },
    }
}

/// Writes an owned share in the notation `<fraction>@<token>`.
pub fn format_owned(token: u32, fraction: u64) -> (r: String)
    ensures
        r@ == owned_chars(token as nat, fraction as nat),
{
    proof {
        reveal_strlit("@");
    }
    let mut out = format_unsigned(fraction);
    out.append("@");
    write_unsigned(token as u64, &mut out);
    assert(out@ =~= owned_chars(token as nat, fraction as nat));
    out
}

/// A token of a contract with the number of fractions it is divided into.
#[derive(Copy, Clone, Debug, Hash, PartialEq, Eq, Structural)]
pub struct Nft {
    pub token_no: TokenNo,
    pub fractions: TokenFractions,
}

impl Default for Nft {
    fn default() -> (r: Nft)
        ensures
            r.token_no@ == 0,
            r.fractions@ == 0,
    {
        Nft { token_no: TokenNo(0), fractions: TokenFractions(0) }
    }
}

impl Nft {
    /// The token `no` divided into `fractions`.
    pub fn new(no: TokenNo, fractions: TokenFractions) -> (r: Nft)
        ensures
            r.token_no == no,
            r.fractions == fractions,
    {
        Nft { token_no: no, fractions }
    }
}

/// A share of a token: the token and the number of its fractions owned.
#[derive(Copy, Clone, Debug, Hash, PartialEq, Eq, Structural)]
pub struct OwnedNft {
    pub token_no: TokenNo,
    pub fractions: TokenFractions,
}

impl Default for OwnedNft {
    fn default() -> (r: OwnedNft)
        ensures
            r.token_no@ == 0,
            r.fractions@ == 0,
    {
        OwnedNft { token_no: TokenNo(0), fractions: TokenFractions(0) }
    }
}

impl OwnedNft {
    /// What `text` reads as in the notation `<fraction>@<token>`.
    pub open spec fn spec_from_str(text: Seq<char>) -> Result<OwnedNft, OwnedFault> {
        match spec_parse_owned(text) {
            Ok((token, owned)) => Ok(
                OwnedNft { token_no: TokenNo(token), fractions: TokenFractions(owned) },
            ),
            Err(e) => Err(e),
        }
    }

    /// `fractions` fractions of the token `no`.
    pub fn new(no: TokenNo, fractions: TokenFractions) -> (r: OwnedNft)
        ensures
            r.token_no == no,
            r.fractions == fractions,
    {
        OwnedNft { token_no: no, fractions }
    }

    /// Reads an owned share from the notation `<fraction>@<token>`.
    pub fn from_str(text: &str) -> (r: Result<OwnedNft, NftParseError>)
        ensures
            match r {
                Ok(owned) => OwnedNft::spec_from_str(text@) == Ok::<OwnedNft, OwnedFault>(owned),
                Err(e) => OwnedNft::spec_from_str(text@) == Err::<OwnedNft, OwnedFault>(e@),
            },
    {
        match parse_owned(text) {
            Ok((token, owned)) => Ok(
                OwnedNft { token_no: TokenNo(token), fractions: TokenFractions(owned) },
            ),
            Err(e) => Err(e),
        }
    }
}

} // verus!
