//! Fixed-point quantities of fungible assets.
//!
//! An [`Amount`] counts minor units (the smallest indivisible quantity of an
//! asset). A [`Precision`] says how many decimal digits separate a minor unit
//! from a whole unit; the decimal point is never stored with the amount.

use vstd::prelude::*;
use vstd::bytes::{spec_u64_from_le_bytes, spec_u64_to_le_bytes, u64_from_le_bytes, u64_to_le_bytes};
use vstd::slice::slice_subrange;
use core::cmp::Ordering;
use vstd::std_specs::cmp::{PartialOrdSpec, PartialOrdSpecImpl};
use vstd::std_specs::convert::FromSpecImpl;
use crate::decimal::{
    decimal_chars, format_unsigned, parse_unsigned, spec_parse_unsigned, ParseNumError,
};
use crate::encoding::{has_bytes, DecodeError};

verus! {

/// Ten to the power `n`.
pub open spec fn pow10(n: nat) -> nat
    decreases n,
{
    if n == 0 {
        1
    } else {
        10 * pow10((n - 1) as nat)
    }
}

/// Number of values a `u64` can take; wrapping arithmetic works modulo it.
pub open spec fn u64_range() -> nat {
    0x1_0000_0000_0000_0000
}

/// `n` clamped to the largest value an amount can hold.
pub open spec fn saturated(n: nat) -> nat {
    if n > u64::MAX {
        u64::MAX as nat
    } else {
        n
    }
}

/// Sum of a sequence of amounts as an unbounded number.
pub open spec fn total(values: Seq<Amount>) -> nat
    decreases values.len(),
{
    if values.len() == 0 {
        0
    } else {
        total(values.drop_last()) + values.last()@
    }
}

/// Sum of a sequence of raw minor-unit counts as an unbounded number.
pub open spec fn total_raw(values: Seq<u64>) -> nat
    decreases values.len(),
{
    if values.len() == 0 {
        0
    } else {
        total_raw(values.drop_last()) + values.last() as nat
    }
}

/// Quantity of an asset in minor units.
#[derive(Copy, Clone, Debug, Hash, PartialEq, Eq, Structural, PartialOrd, Ord)]
pub struct Amount(pub u64);

impl View for Amount {
    type V = nat;

    open spec fn view(&self) -> nat {
        self.0 as nat
    }
}

impl Default for Amount {
    fn default() -> (r: Amount)
        ensures
            r@ == 0,
    {
        Amount(0)
    }
}

impl From<u64> for Amount {
    fn from(value: u64) -> (r: Amount) {
        Amount(value)
    }
}

impl FromSpecImpl<u64> for Amount {
    open spec fn obeys_from_spec() -> bool {
        true
    }

    open spec fn from_spec(value: u64) -> Amount {
        Amount(value)
    }
}

impl From<u32> for Amount {
    fn from(value: u32) -> (r: Amount) {
        Amount(value as u64)
    }
}

impl FromSpecImpl<u32> for Amount {
    open spec fn obeys_from_spec() -> bool {
        true
    }

    open spec fn from_spec(value: u32) -> Amount {
        Amount(value as u64)
    }
}

impl From<u16> for Amount {
    fn from(value: u16) -> (r: Amount) {
        Amount(value as u64)
    }
}

impl FromSpecImpl<u16> for Amount {
    open spec fn obeys_from_spec() -> bool {
        true
    }

    open spec fn from_spec(value: u16) -> Amount {
        Amount(value as u64)
    }
}

impl From<u8> for Amount {
    fn from(value: u8) -> (r: Amount) {
        Amount(value as u64)
    }
}

impl FromSpecImpl<u8> for Amount {
    open spec fn obeys_from_spec() -> bool {
        true
    }

    open spec fn from_spec(value: u8) -> Amount {
        Amount(value as u64)
    }
}

impl Amount {
    /// Whole units contained in the amount: the quotient by the multiplier.
    pub open spec fn spec_floor(self, precision: Precision) -> nat {
        self@ / precision.spec_multiplier()
    }

    /// Fractional part in minor units: the remainder by the multiplier.
    pub open spec fn spec_rem(self, precision: Precision) -> nat {
        self@ % precision.spec_multiplier()
    }

    /// Whole units, counting a started unit as a full one.
    pub open spec fn spec_ceil(self, precision: Precision) -> nat {
        if self.spec_rem(precision) > 0 {
            self.spec_floor(precision) + 1
        } else {
            self.spec_floor(precision)
        }
    }

    /// Whole units after rounding half up.
    pub open spec fn spec_round(self, precision: Precision) -> nat {
        self.spec_floor(precision) + (2 * self.spec_rem(precision)) / precision.spec_multiplier()
    }

    /// What `text` reads as: a decimal number of minor units that fits 64
    /// bits.
    pub open spec fn spec_from_str(text: Seq<char>) -> Result<Amount, ParseNumError> {
        match spec_parse_unsigned(text, u64::MAX as nat) {
            Ok(v) => Ok(Amount(v as u64)),
            Err(e) => Err(e),
        }
    }

    /// Reads an amount from the decimal notation of its minor units.
    pub fn from_str(text: &str) -> (r: Result<Amount, ParseNumError>)
        ensures
            r == Amount::spec_from_str(text@),
    {
        match parse_unsigned(text, u64::MAX) {
            Ok(v) => Ok(Amount(v)),
            Err(e) => Err(e),
        }
    }

    /// Decimal notation of the number of minor units.
    pub fn to_string(&self) -> (r: String)
        ensures
            r@ == decimal_chars(self@),
    {
        format_unsigned(self.0)
    }

    /// Wraps a number of minor units.
    pub fn from_inner(inner: u64) -> (r: Amount)
        ensures
            r@ == inner,
    {
        Amount(inner)
    }

    /// The number of minor units.
    pub fn into_inner(self) -> (v: u64)
        ensures
            v == self@,
    {
        self.0
    }

    /// The additive identity.
    pub fn zero() -> (r: Amount)
        ensures
            r@ == 0,
    {
        Amount(0)
    }

    /// Amount of `amount` whole units at the given precision. The product
    /// wraps modulo 2^64: use it only where overflow is already excluded.
    pub fn with_precision(amount: u64, precision: Precision) -> (r: Amount)
        ensures
            r == precision.spec_unchecked_convert(amount),
            amount * precision.spec_multiplier() <= u64::MAX ==> r@ == amount
                * precision.spec_multiplier(),
    {
        precision.unchecked_convert(amount)
    }

    /// Amount of `amount` whole units at the given precision, or `None` when
    /// the product does not fit 64 bits.
    pub fn with_precision_checked(amount: u64, precision: Precision) -> (r: Option<Amount>)
        ensures
            r == precision.spec_checked_convert(amount),
    {
        precision.checked_convert(amount)
    }

    /// Raw number of minor units.
    pub fn value(self) -> (v: u64)
        ensures
            v == self@,
    {
        self.0
    }

    /// Whole units and fractional minor units under the given precision.
    pub fn split(self, precision: Precision) -> (r: (u64, u64))
        ensures
            r.0 == self.spec_floor(precision),
            r.1 == self.spec_rem(precision),
    {
        let whole = self.floor(precision);
        let fract = self.rem(precision);
        (whole, fract)
    }

    /// Whole units, rounding the fractional part half up.
    pub fn round(&self, precision: Precision) -> (r: u64)
        ensures
            r == self.spec_round(precision),
    {
        let mul = precision.multiplier();
        if self.0 == 0 {
            proof {
                lemma_zero_has_no_parts(mul as nat);
            }
            return 0;
        }
        let rem = self.rem(precision);
        proof {
            lemma_parts_bounds(self.0 as nat, mul as nat);
            lemma_half_up_increment(rem as nat, mul as nat);
        }
        let inc = 2 * rem / mul;
        self.0 / mul + inc
    }

    /// Whole units, rounding any nonzero fractional part up.
    pub fn ceil(&self, precision: Precision) -> (r: u64)
        ensures
            r == self.spec_ceil(precision),
    {
        if self.0 == 0 {
            proof {
                lemma_multiplier_bounds(precision);
                lemma_zero_has_no_parts(precision.spec_multiplier());
            }
            return 0;
        }
        let inc: u64 = if self.rem(precision) > 0 {
            1
        } else {
            0
        };
        let mul = precision.multiplier();
        proof {
            lemma_parts_bounds(self.0 as nat, mul as nat);
        }
        self.0 / mul + inc
    }

    /// Whole units, dropping the fractional part.
    pub fn floor(&self, precision: Precision) -> (r: u64)
        ensures
            r == self.spec_floor(precision),
    {
        if self.0 == 0 {
            proof {
                lemma_multiplier_bounds(precision);
                lemma_zero_has_no_parts(precision.spec_multiplier());
            }
            return 0;
        }
        self.0 / precision.multiplier()
    }

    /// Fractional part in minor units.
    pub fn rem(&self, precision: Precision) -> (r: u64)
        ensures
            r == self.spec_rem(precision),
    {
        self.0 % precision.multiplier()
    }

    /// Sum clamped to `u64::MAX`.
    pub fn saturating_add(&self, other: Amount) -> (r: Amount)
        ensures
            r@ == saturated(self@ + other@),
    {
        Amount(self.0.saturating_add(other.0))
    }

    /// Difference clamped to zero.
    pub fn saturating_sub(&self, other: Amount) -> (r: Amount)
        ensures
            r@ == (if self@ >= other@ {
                self@ - other@
            } else {
                0
            }),
    {
        Amount(self.0.saturating_sub(other.0))
    }

    /// Adds `other` in place, clamping to `u64::MAX`.
    pub fn saturating_add_assign(&mut self, other: Amount)
        ensures
            final(self)@ == saturated(old(self)@ + other@),
    {
        *self = Amount(self.0.saturating_add(other.0));
    }

    /// Subtracts `other` in place, clamping to zero.
    pub fn saturating_sub_assign(&mut self, other: Amount)
        ensures
            final(self)@ == (if old(self)@ >= other@ {
                old(self)@ - other@
            } else {
                0
            }),
    {
        *self = Amount(self.0.saturating_sub(other.0));
    }

    /// Sum, or `None` when it does not fit 64 bits.
    #[must_use]
    pub fn checked_add(&self, other: Amount) -> (r: Option<Amount>)
        ensures
            self@ + other@ <= u64::MAX ==> r.is_some() && r.unwrap()@ == self@ + other@,
            self@ + other@ > u64::MAX ==> r.is_none(),
    {
        match self.0.checked_add(other.0) {
            Some(v) => Some(Amount(v)),
            None => None,
        }
    }

    /// Difference, or `None` when `other` is the larger.
    #[must_use]
    pub fn checked_sub(&self, other: Amount) -> (r: Option<Amount>)
        ensures
            self@ >= other@ ==> r.is_some() && r.unwrap()@ == self@ - other@,
            self@ < other@ ==> r.is_none(),
    {
        match self.0.checked_sub(other.0) {
            Some(v) => Some(Amount(v)),
            None => None,
        }
    }

    /// Adds `other` in place. On overflow returns `None` and leaves the
    /// amount as it was.
    #[must_use]
    pub fn checked_add_assign(&mut self, other: Amount) -> (r: Option<()>)
        ensures
            old(self)@ + other@ <= u64::MAX ==> r.is_some() && final(self)@ == old(self)@ + other@,
            old(self)@ + other@ > u64::MAX ==> r.is_none() && *final(self) == *old(self),
    {
        match self.0.checked_add(other.0) {
            Some(v) => {
                *self = Amount(v);
                Some(())
            },
            None => None,
        }
    }

    /// Subtracts `other` in place. On underflow returns `None` and leaves the
    /// amount as it was.
    #[must_use]
    pub fn checked_sub_assign(&mut self, other: Amount) -> (r: Option<()>)
        ensures
            old(self)@ >= other@ ==> r.is_some() && final(self)@ == old(self)@ - other@,
            old(self)@ < other@ ==> r.is_none() && *final(self) == *old(self),
    {
        match self.0.checked_sub(other.0) {
            Some(v) => {
                *self = Amount(v);
                Some(())
            },
            None => None,
        }
    }

    /// Wire form of the amount: its eight bytes, least significant first.
    pub open spec fn spec_strict_encode(self) -> Seq<u8> {
        spec_u64_to_le_bytes(self.0)
    }

    /// The amount read from `input` at offset `at`, with the offset of what
    /// follows it.
    pub open spec fn spec_strict_decode(input: Seq<u8>, at: nat) -> Result<
        (Amount, nat),
        DecodeError,
    > {
        if has_bytes(input, at, 8) {
            Ok((Amount(spec_u64_from_le_bytes(input.subrange(at as int, at + 8 as int))), at + 8))
        } else {
            Err(DecodeError::UnexpectedEof)
        }
    }

    /// Appends the wire form of the amount to `out`.
    pub fn strict_encode(&self, out: &mut Vec<u8>)
        ensures
            final(out)@ == old(out)@ + self.spec_strict_encode(),
            final(out)@.len() == old(out)@.len() + 8,
    {
        let mut bytes = u64_to_le_bytes(self.0);
        out.append(&mut bytes);
    }

    /// Reads an amount from `input` at offset `at`. Fails when fewer than
    /// eight bytes are left.
    pub fn strict_decode(input: &[u8], at: usize) -> (r: Result<(Amount, usize), DecodeError>)
        ensures
            match r {
                Ok((amount, next)) => Amount::spec_strict_decode(input@, at as nat) == Ok::<
                    (Amount, nat),
                    DecodeError,
                >((amount, next as nat)),
                Err(e) => Amount::spec_strict_decode(input@, at as nat) == Err::<
                    (Amount, nat),
                    DecodeError,
                >(e),
            },
    {
        if at > input.len() || input.len() - at < 8 {
            return Err(DecodeError::UnexpectedEof);
        }
        let raw = u64_from_le_bytes(slice_subrange(input, at, at + 8));
        Ok((Amount(raw), at + 8))
    }

    /// Sum of all the amounts, combined with saturating addition from zero:
    /// the exact total where it fits 64 bits, `u64::MAX` otherwise.
    pub fn sum(values: &[Amount]) -> (r: Amount)
        ensures
            r@ == saturated(total(values@)),
    {
        let mut acc = Amount::zero();
        let mut i: usize = 0;
        while i < values.len()
            invariant
                i <= values.len(),
                acc@ == saturated(total(values@.take(i as int))),
            decreases values.len() - i,
        {
            proof {
                let next = values@.take(i + 1);
                assert(next.drop_last() =~= values@.take(i as int));
                assert(next.last() == values@[i as int]);
            }
            acc = acc.saturating_add(values[i]);
            i += 1;
        }
        proof {
            assert(values@.take(i as int) =~= values@);
        }
        acc
    }

    /// Sum of raw minor-unit counts, combined with saturating addition from
    /// zero.
    pub fn sum_raw(values: &[u64]) -> (r: Amount)
        ensures
            r@ == saturated(total_raw(values@)),
    {
        let mut acc = Amount::zero();
        let mut i: usize = 0;
        while i < values.len()
            invariant
                i <= values.len(),
                acc@ == saturated(total_raw(values@.take(i as int))),
            decreases values.len() - i,
        {
            proof {
                let next = values@.take(i + 1);
                assert(next.drop_last() =~= values@.take(i as int));
                assert(next.last() == values@[i as int]);
            }
            acc = acc.saturating_add(Amount(values[i]));
            i += 1;
        }
        proof {
            assert(values@.take(i as int) =~= values@);
        }
        acc
    }
}

/// Number of decimal digits in the fractional part of a quantity. The
/// variants are ordered by their number of digits.
#[derive(Copy, Clone, Debug, Hash, PartialEq, Eq, Structural, Ord)]
pub enum Precision {
    Indivisible,
    Deci,
    Centi,
    Milli,
    DeciMilli,
    CentiMilli,
    Micro,
    DeciMicro,
    CentiMicro,
    Nano,
    DeciNano,
    CentiNano,
    Pico,
    DeciPico,
    CentiPico,
    Femto,
    DeciFemto,
    CentiFemto,
    Atto,
}

impl PartialOrd for Precision {
    fn partial_cmp(&self, other: &Precision) -> (r: Option<Ordering>) {
        let mine = self.decimals();
        let theirs = other.decimals();
        if mine < theirs {
            Some(Ordering::Less)
        } else if mine > theirs {
            Some(Ordering::Greater)
        } else {
            Some(Ordering::Equal)
        }
    }
}

impl PartialOrdSpecImpl for Precision {
    open spec fn obeys_partial_cmp_spec() -> bool {
        true
    }

    open spec fn partial_cmp_spec(&self, other: &Precision) -> Option<Ordering> {
        if self.spec_decimals() < other.spec_decimals() {
            Some(Ordering::Less)
        } else if self.spec_decimals() > other.spec_decimals() {
            Some(Ordering::Greater)
        } else {
            Some(Ordering::Equal)
        }
    }
}

impl Default for Precision {
    fn default() -> (r: Precision)
        ensures
            r == Precision::CentiMicro,
    {
        Precision::CentiMicro
    }
}

impl Precision {
    /// Number of fractional decimal digits, from 0 to 18.
    pub open spec fn spec_decimals(self) -> nat {
        match self {
            Precision::Indivisible => 0,
            Precision::Deci => 1,
            Precision::Centi => 2,
            Precision::Milli => 3,
            Precision::DeciMilli => 4,
            Precision::CentiMilli => 5,
            Precision::Micro => 6,
            Precision::DeciMicro => 7,
            Precision::CentiMicro => 8,
            Precision::Nano => 9,
            Precision::DeciNano => 10,
            Precision::CentiNano => 11,
            Precision::Pico => 12,
            Precision::DeciPico => 13,
            Precision::CentiPico => 14,
            Precision::Femto => 15,
            Precision::DeciFemto => 16,
            Precision::CentiFemto => 17,
            Precision::Atto => 18,
        }
    }

    /// Minor units in one whole unit: ten to the number of decimals.
    pub open spec fn spec_multiplier(self) -> nat {
        pow10(self.spec_decimals())
    }

    /// `amount` whole units in minor units, modulo 2^64.
    pub open spec fn spec_unchecked_convert(self, amount: u64) -> Amount {
        Amount(((amount as nat * self.spec_multiplier()) % u64_range()) as u64)
    }

    /// `amount` whole units in minor units, where that fits 64 bits.
    pub open spec fn spec_checked_convert(self, amount: u64) -> Option<Amount> {
        if amount * self.spec_multiplier() <= u64::MAX {
            Some(Amount((amount * self.spec_multiplier()) as u64))
        } else {
            None
        }
    }

    /// The precision with the given number of decimals, if there is one.
    pub open spec fn spec_from_decimals(decimals: nat) -> Option<Precision> {
        if decimals == 0 {
            Some(Precision::Indivisible)
        } else if decimals == 1 {
            Some(Precision::Deci)
        } else if decimals == 2 {
            Some(Precision::Centi)
        } else if decimals == 3 {
            Some(Precision::Milli)
        } else if decimals == 4 {
            Some(Precision::DeciMilli)
        } else if decimals == 5 {
            Some(Precision::CentiMilli)
        } else if decimals == 6 {
            Some(Precision::Micro)
        } else if decimals == 7 {
            Some(Precision::DeciMicro)
        } else if decimals == 8 {
            Some(Precision::CentiMicro)
        } else if decimals == 9 {
            Some(Precision::Nano)
        } else if decimals == 10 {
            Some(Precision::DeciNano)
        } else if decimals == 11 {
            Some(Precision::CentiNano)
        } else if decimals == 12 {
            Some(Precision::Pico)
        } else if decimals == 13 {
            Some(Precision::DeciPico)
        } else if decimals == 14 {
            Some(Precision::CentiPico)
        } else if decimals == 15 {
            Some(Precision::Femto)
        } else if decimals == 16 {
            Some(Precision::DeciFemto)
        } else if decimals == 17 {
            Some(Precision::CentiFemto)
        } else if decimals == 18 {
            Some(Precision::Atto)
        } else {
            None
        }
    }

    /// Wire form of the precision: one byte holding the number of decimals.
    pub open spec fn spec_strict_encode(self) -> Seq<u8> {
        seq![self.spec_decimals() as u8]
    }

    /// The precision read from `input` at offset `at`, with the offset of
    /// what follows it.
    pub open spec fn spec_strict_decode(input: Seq<u8>, at: nat) -> Result<
        (Precision, nat),
        DecodeError,
    > {
        if !has_bytes(input, at, 1) {
            Err(DecodeError::UnexpectedEof)
        } else {
            match Precision::spec_from_decimals(input[at as int] as nat) {
                Some(precision) => Ok((precision, at + 1)),
                None => Err(DecodeError::UnknownTag(input[at as int])),
            }
        }
    }

    /// Appends the wire form of the precision to `out`.
    pub fn strict_encode(&self, out: &mut Vec<u8>)
        ensures
            final(out)@ == old(out)@ + self.spec_strict_encode(),
            final(out)@.len() == old(out)@.len() + 1,
    {
        out.push(self.decimals());
        assert(out@ =~= old(out)@ + self.spec_strict_encode());
    }

    /// Reads a precision from `input` at offset `at`. Fails when no byte is
    /// left, and when the byte is above 18.
    pub fn strict_decode(input: &[u8], at: usize) -> (r: Result<(Precision, usize), DecodeError>)
        ensures
            match r {
                Ok((precision, next)) => Precision::spec_strict_decode(input@, at as nat) == Ok::<
                    (Precision, nat),
                    DecodeError,
                >((precision, next as nat)),
                Err(e) => Precision::spec_strict_decode(input@, at as nat) == Err::<
                    (Precision, nat),
                    DecodeError,
                >(e),
            },
    {
        if at >= input.len() {
            return Err(DecodeError::UnexpectedEof);
        }
        let tag = input[at];
        match Precision::from_decimals(tag) {
            Some(precision) => Ok((precision, at + 1)),
            None => Err(DecodeError::UnknownTag(tag)),
        }
    }

    /// Number of fractional decimal digits.
    pub fn decimals(self) -> (d: u8)
        ensures
            d == self.spec_decimals(),
            d <= 18,
    {
        match self {
            Precision::Indivisible => 0,
            Precision::Deci => 1,
            Precision::Centi => 2,
            Precision::Milli => 3,
            Precision::DeciMilli => 4,
            Precision::CentiMilli => 5,
            Precision::Micro => 6,
            Precision::DeciMicro => 7,
            Precision::CentiMicro => 8,
            Precision::Nano => 9,
            Precision::DeciNano => 10,
            Precision::CentiNano => 11,
            Precision::Pico => 12,
            Precision::DeciPico => 13,
            Precision::CentiPico => 14,
            Precision::Femto => 15,
            Precision::DeciFemto => 16,
            Precision::CentiFemto => 17,
            Precision::Atto => 18,
        }
    }

    /// The precision with the given number of decimals; `None` above 18.
    pub fn from_decimals(decimals: u8) -> (r: Option<Precision>)
        ensures
            r == Precision::spec_from_decimals(decimals as nat),
            decimals <= 18 <==> r.is_some(),
            r.is_some() ==> r.unwrap().spec_decimals() == decimals,
    {
        match decimals {
            0 => Some(Precision::Indivisible),
            1 => Some(Precision::Deci),
            2 => Some(Precision::Centi),
            3 => Some(Precision::Milli),
            4 => Some(Precision::DeciMilli),
            5 => Some(Precision::CentiMilli),
            6 => Some(Precision::Micro),
            7 => Some(Precision::DeciMicro),
            8 => Some(Precision::CentiMicro),
            9 => Some(Precision::Nano),
            10 => Some(Precision::DeciNano),
            11 => Some(Precision::CentiNano),
            12 => Some(Precision::Pico),
            13 => Some(Precision::DeciPico),
            14 => Some(Precision::CentiPico),
            15 => Some(Precision::Femto),
            16 => Some(Precision::DeciFemto),
            17 => Some(Precision::CentiFemto),
            18 => Some(Precision::Atto),
            _ => None,
        }
    }

    /// Minor units in one whole unit, read from a fixed table.
    pub fn multiplier(self) -> (m: u64)
        ensures
            m == self.spec_multiplier(),
            1 <= m <= 1_000_000_000_000_000_000,
    {
        proof {
            reveal_with_fuel(pow10, 20);
        }
        match self {
            Precision::Indivisible => 1,
            Precision::Deci => 10,
            Precision::Centi => 100,
            Precision::Milli => 1000,
            Precision::DeciMilli => 10_000,
            Precision::CentiMilli => 100_000,
            Precision::Micro => 1_000_000,
            Precision::DeciMicro => 10_000_000,
            Precision::CentiMicro => 100_000_000,
            Precision::Nano => 1_000_000_000,
            Precision::DeciNano => 10_000_000_000,
            Precision::CentiNano => 100_000_000_000,
            Precision::Pico => 1_000_000_000_000,
            Precision::DeciPico => 10_000_000_000_000,
            Precision::CentiPico => 100_000_000_000_000,
            Precision::Femto => 1_000_000_000_000_000,
            Precision::DeciFemto => 10_000_000_000_000_000,
            Precision::CentiFemto => 100_000_000_000_000_000,
            Precision::Atto => 1_000_000_000_000_000_000,
        }
    }

    /// `amount` whole units in minor units. The product wraps modulo 2^64:
    /// the caller sees to it that it does not overflow.
    pub fn unchecked_convert(self, amount: u64) -> (r: Amount)
        ensures
            r == self.spec_unchecked_convert(amount),
            amount * self.spec_multiplier() <= u64::MAX ==> r@ == amount * self.spec_multiplier(),
    {
        let mul = self.multiplier();
        proof {
            if amount * mul <= u64::MAX {
                vstd::arithmetic::div_mod::lemma_small_mod(
                    amount as nat * mul as nat,
                    u64_range(),
                );
            }
        }
        Amount(amount.wrapping_mul(mul))
    }

    /// `amount` whole units in minor units, or `None` when the product does
    /// not fit 64 bits.
    pub fn checked_convert(self, amount: u64) -> (r: Option<Amount>)
        ensures
            r == self.spec_checked_convert(amount),
    {
        match amount.checked_mul(self.multiplier()) {
            Some(v) => Some(Amount(v)),
            None => None,
        }
    }

    /// `amount` whole units in minor units, clamped to `u64::MAX`.
    pub fn saturating_convert(self, amount: u64) -> (r: Amount)
        ensures
            r@ == saturated(amount as nat * self.spec_multiplier()),
    {
        match amount.checked_mul(self.multiplier()) {
            Some(v) => Amount(v),
            None => Amount(u64::MAX),
        }
    }
}

impl From<Precision> for u8 {
    fn from(value: Precision) -> (r: u8) {
        value.decimals()
    }
}

impl FromSpecImpl<Precision> for u8 {
    open spec fn obeys_from_spec() -> bool {
        true
    }

    open spec fn from_spec(value: Precision) -> u8 {
        value.spec_decimals() as u8
    }
}

impl From<Precision> for u16 {
    fn from(value: Precision) -> (r: u16) {
        value.decimals() as u16
    }
}

impl FromSpecImpl<Precision> for u16 {
    open spec fn obeys_from_spec() -> bool {
        true
    }

    open spec fn from_spec(value: Precision) -> u16 {
        value.spec_decimals() as u16
    }
}

impl From<Precision> for u32 {
    fn from(value: Precision) -> (r: u32) {
        value.decimals() as u32
    }
}

impl FromSpecImpl<Precision> for u32 {
    open spec fn obeys_from_spec() -> bool {
        true
    }

    open spec fn from_spec(value: Precision) -> u32 {
        value.spec_decimals() as u32
    }
}

impl From<Precision> for u64 {
    fn from(value: Precision) -> (r: u64) {
        value.decimals() as u64
    }
}

impl FromSpecImpl<Precision> for u64 {
    open spec fn obeys_from_spec() -> bool {
        true
    }

    open spec fn from_spec(value: Precision) -> u64 {
        value.spec_decimals() as u64
    }
}

/// Every multiplier lies between 1 and 10^18, so it fits 64 bits and is
/// never zero.
pub proof fn lemma_multiplier_bounds(precision: Precision)
    ensures
        1 <= precision.spec_multiplier() <= 1_000_000_000_000_000_000,
        precision.spec_decimals() <= 18,
{
    reveal_with_fuel(pow10, 20);
}

/// The table of multipliers starts at 1 for no decimals and ends at 10^18
/// for eighteen.
pub proof fn lemma_multiplier_ends()
    ensures
        Precision::Indivisible.spec_multiplier() == 1,
        Precision::Atto.spec_multiplier() == 1_000_000_000_000_000_000,
{
    reveal_with_fuel(pow10, 20);
}

/// The multiplier strictly increases with the number of decimals.
pub proof fn lemma_multiplier_strictly_increasing(low: Precision, high: Precision)
    requires
        low.spec_decimals() < high.spec_decimals(),
    ensures
        low.spec_multiplier() < high.spec_multiplier(),
{
    lemma_pow10_strictly_increasing(low.spec_decimals(), high.spec_decimals());
}

/// The order of the precisions is that of their multipliers: a precision is
/// below another exactly when it has fewer decimals, which is when its
/// multiplier is the smaller.
pub proof fn lemma_precision_order(low: Precision, high: Precision)
    ensures
        PartialOrdSpec::partial_cmp_spec(&low, &high) == Some(Ordering::Less)
            <==> low.spec_multiplier() < high.spec_multiplier(),
        PartialOrdSpec::partial_cmp_spec(&low, &high) == Some(Ordering::Equal) <==> low == high,
{
    if low.spec_decimals() < high.spec_decimals() {
        lemma_pow10_strictly_increasing(low.spec_decimals(), high.spec_decimals());
    } else if high.spec_decimals() < low.spec_decimals() {
        lemma_pow10_strictly_increasing(high.spec_decimals(), low.spec_decimals());
    } else {
        lemma_decimals_round_trip(low);
        lemma_decimals_round_trip(high);
    }
}

/// A precision is determined by its number of decimals.
pub proof fn lemma_decimals_round_trip(precision: Precision)
    ensures
        Precision::spec_from_decimals(precision.spec_decimals()) == Some(precision),
{
}

/// Converting whole units to an amount and taking the floor gives the whole
/// units back, whenever the conversion does not overflow.
pub proof fn lemma_with_precision_round_trip(whole: u64, precision: Precision)
    requires
        whole * precision.spec_multiplier() <= u64::MAX,
    ensures
        precision.spec_unchecked_convert(whole).spec_floor(precision) == whole,
        precision.spec_unchecked_convert(whole).spec_rem(precision) == 0,
        precision.spec_checked_convert(whole) == Some(precision.spec_unchecked_convert(whole)),
{
    let mul = precision.spec_multiplier();
    lemma_multiplier_bounds(precision);
    vstd::arithmetic::div_mod::lemma_small_mod(whole as nat * mul, u64_range());
    vstd::arithmetic::div_mod::lemma_fundamental_div_mod_converse(
        whole * mul,
        mul as int,
        whole as int,
        0,
    );
}

/// Ceiling and floor differ by at most one, and are equal exactly when
/// there is no fractional remainder.
pub proof fn lemma_ceil_floor_gap(amount: Amount, precision: Precision)
    ensures
        amount.spec_ceil(precision) - amount.spec_floor(precision) == 0 || amount.spec_ceil(
            precision,
        ) - amount.spec_floor(precision) == 1,
        amount.spec_ceil(precision) - amount.spec_floor(precision) == 0 <==> amount.spec_rem(
            precision,
        ) == 0,
{
}

/// Rounding is half up: it gives the floor when the remainder is below half
/// the multiplier and the ceiling from half the multiplier on.
pub proof fn lemma_round_half_up(amount: Amount, precision: Precision)
    ensures
        2 * amount.spec_rem(precision) < precision.spec_multiplier() ==> amount.spec_round(
            precision,
        ) == amount.spec_floor(precision),
        2 * amount.spec_rem(precision) >= precision.spec_multiplier() ==> amount.spec_round(
            precision,
        ) == amount.spec_ceil(precision),
{
    let mul = precision.spec_multiplier();
    lemma_multiplier_bounds(precision);
    vstd::arithmetic::div_mod::lemma_mod_bound(amount@ as int, mul as int);
    lemma_half_up_increment(amount.spec_rem(precision), mul);
}

/// Whole and fractional parts put together give the amount back.
pub proof fn lemma_split_recomposes(amount: Amount, precision: Precision)
    ensures
        amount@ == amount.spec_floor(precision) * precision.spec_multiplier() + amount.spec_rem(
            precision,
        ),
        amount.spec_rem(precision) < precision.spec_multiplier(),
{
    let mul = precision.spec_multiplier();
    lemma_multiplier_bounds(precision);
    vstd::arithmetic::div_mod::lemma_fundamental_div_mod(amount@ as int, mul as int);
    vstd::arithmetic::div_mod::lemma_mod_bound(amount@ as int, mul as int);
    assert(mul * (amount@ / mul) == (amount@ / mul) * mul) by (nonlinear_arith);
}

/// An encoded amount is eight bytes long and decodes to the same amount,
/// whatever stands before and after it.
pub proof fn lemma_amount_codec_round_trip(before: Seq<u8>, amount: Amount, after: Seq<u8>)
    ensures
        amount.spec_strict_encode().len() == 8,
        Amount::spec_strict_decode(before + amount.spec_strict_encode() + after, before.len())
            == Ok::<(Amount, nat), DecodeError>((amount, before.len() + 8)),
{
    vstd::bytes::lemma_auto_spec_u64_to_from_le_bytes();
    let encoded = amount.spec_strict_encode();
    let all = before + encoded + after;
    assert(all.subrange(before.len() as int, before.len() + 8 as int) =~= encoded);
}

/// An encoded precision is one byte long and decodes to the same precision,
/// whatever stands before and after it.
pub proof fn lemma_precision_codec_round_trip(
    before: Seq<u8>,
    precision: Precision,
    after: Seq<u8>,
)
    ensures
        precision.spec_strict_encode().len() == 1,
        Precision::spec_strict_decode(
            before + precision.spec_strict_encode() + after,
            before.len(),
        ) == Ok::<(Precision, nat), DecodeError>((precision, before.len() + 1)),
{
    let all = before + precision.spec_strict_encode() + after;
    assert(all[before.len() as int] == precision.spec_decimals() as u8);
}

/// A precision byte is accepted exactly when it is at most 18.
pub proof fn lemma_precision_tag_range(tag: u8)
    ensures
        tag <= 18 <==> Precision::spec_from_decimals(tag as nat).is_some(),
        Precision::spec_from_decimals(tag as nat).is_some() ==> Precision::spec_from_decimals(
            tag as nat,
        ).unwrap().spec_decimals() == tag,
{
}

/// A saturating sum never exceeds `u64::MAX` and is exact below it.
pub proof fn lemma_saturated_bounds(n: nat)
    ensures
        saturated(n) <= u64::MAX,
        n <= u64::MAX ==> saturated(n) == n,
        n > u64::MAX ==> saturated(n) == u64::MAX,
{
}

/// Adding one more amount to a saturated partial sum is the saturated sum
/// of the longer sequence: folding never wraps around.
pub proof fn lemma_total_push(values: Seq<Amount>, next: Amount)
    ensures
        total(values.push(next)) == total(values) + next@,
        saturated(saturated(total(values)) + next@) == saturated(total(values.push(next))),
{
    assert(values.push(next).drop_last() =~= values);
}

/// Ten to a larger power is strictly larger.
proof fn lemma_pow10_strictly_increasing(low: nat, high: nat)
    requires
        low < high,
    ensures
        pow10(low) < pow10(high),
        pow10(low) >= 1,
    decreases high,
{
    if low == 0 {
        if high > 1 {
            lemma_pow10_strictly_increasing(0, (high - 1) as nat);
        }
    } else {
        lemma_pow10_strictly_increasing((low - 1) as nat, (high - 1) as nat);
    }
}

/// Zero has neither whole units nor a fractional part.
proof fn lemma_zero_has_no_parts(mul: nat)
    requires
        mul > 0,
    ensures
        0nat / mul == 0,
        0nat % mul == 0,
        (2 * (0nat % mul)) / mul == 0,
{
    assert(0nat / mul == 0 && 0nat % mul == 0) by (nonlinear_arith)
        requires
            mul > 0,
    ;
    assert(0nat / mul == 0);
}

/// Bounds on the whole and fractional parts of a nonzero quantity.
proof fn lemma_parts_bounds(value: nat, mul: nat)
    requires
        0 < value <= u64::MAX,
        0 < mul <= 1_000_000_000_000_000_000,
    ensures
        value % mul < mul,
        value / mul <= value,
        value % mul > 0 ==> value / mul < value,
        mul > 1 ==> value / mul < value,
{
    assert(value % mul < mul && value / mul <= value && value == mul * (value / mul) + value % mul)
        by (nonlinear_arith)
        requires
            0 < value,
            0 < mul,
    ;
    assert(mul > 1 ==> value / mul < value) by (nonlinear_arith)
        requires
            0 < value,
            0 < mul,
            value == mul * (value / mul) + value % mul,
            value / mul >= 0,
            value % mul >= 0,
    ;
    assert(value % mul > 0 ==> value / mul < value) by (nonlinear_arith)
        requires
            0 < value,
            0 < mul,
            value == mul * (value / mul) + value % mul,
            value / mul >= 0,
            value % mul >= 0,
    ;
}

/// Doubling a remainder and dividing by the modulus gives 1 from half the
/// modulus on and 0 below it.
proof fn lemma_half_up_increment(rem: nat, mul: nat)
    requires
        rem < mul,
    ensures
        2 * rem < mul ==> (2 * rem) / mul == 0,
        2 * rem >= mul ==> (2 * rem) / mul == 1,
        mul == 1 ==> (2 * rem) / mul == 0,
{
    if 2 * rem < mul {
        vstd::arithmetic::div_mod::lemma_basic_div(2 * rem as int, mul as int);
    } else {
        vstd::arithmetic::div_mod::lemma_fundamental_div_mod_converse(
            2 * rem as int,
            mul as int,
            1,
            2 * rem - mul,
        );
    }
}

} // verus!
