use rgb_interfaces::encoding::DecodeError;
use rgb_interfaces::fungible::{Amount, Precision};

const ALL: [Precision; 19] = [
    Precision::Indivisible,
    Precision::Deci,
    Precision::Centi,
    Precision::Milli,
    Precision::DeciMilli,
    Precision::CentiMilli,
    Precision::Micro,
    Precision::DeciMicro,
    Precision::CentiMicro,
    Precision::Nano,
    Precision::DeciNano,
    Precision::CentiNano,
    Precision::Pico,
    Precision::DeciPico,
    Precision::CentiPico,
    Precision::Femto,
    Precision::DeciFemto,
    Precision::CentiFemto,
    Precision::Atto,
];

#[test]
fn with_precision_round_trips_through_floor() {
    for precision in ALL {
        for whole in [0u64, 1, 7, 18, u64::MAX / precision.multiplier()] {
            let amount = Amount::with_precision(whole, precision);
            assert_eq!(amount.value(), whole * precision.multiplier());
            assert_eq!(amount.floor(precision), whole);
            assert_eq!(amount.rem(precision), 0);
            assert_eq!(Amount::with_precision_checked(whole, precision), Some(amount));
        }
    }
}

#[test]
fn with_precision_wraps_and_checked_refuses() {
    let whole = u64::MAX / 10 + 1;
    assert_eq!(Amount::with_precision(whole, Precision::Deci).value(), whole.wrapping_mul(10));
    assert_eq!(Amount::with_precision(whole, Precision::Deci).value(), 4);
    assert_eq!(Amount::with_precision_checked(whole, Precision::Deci), None);
    assert_eq!(Precision::Deci.checked_convert(whole), None);
    assert_eq!(Precision::Deci.saturating_convert(whole), Amount::from(u64::MAX));
    assert_eq!(Precision::Deci.saturating_convert(12), Amount::from(120u64));
    assert_eq!(Precision::Atto.unchecked_convert(18), Amount::from(18_000_000_000_000_000_000u64));
    assert_eq!(Precision::Atto.checked_convert(19), None);
}

#[test]
fn ceil_is_floor_or_floor_plus_one() {
    for precision in ALL {
        for value in [0u64, 1, 9, 10, 11, 149, 150, 155, 999_999_999, u64::MAX - 1, u64::MAX] {
            let amount = Amount::from(value);
            let gap = amount.ceil(precision) - amount.floor(precision);
            assert!(gap == 0 || gap == 1);
            assert_eq!(gap == 0, amount.rem(precision) == 0);
            let (whole, fract) = amount.split(precision);
            assert_eq!(whole, amount.floor(precision));
            assert_eq!(fract, amount.rem(precision));
            assert_eq!(whole as u128 * precision.multiplier() as u128 + fract as u128, value as u128);
        }
    }
}

#[test]
fn round_is_half_up() {
    assert_eq!(Amount::from(150u64).floor(Precision::Deci), 15);
    assert_eq!(Amount::from(150u64).rem(Precision::Deci), 0);
    assert_eq!(Amount::from(150u64).round(Precision::Deci), 15);
    assert_eq!(Amount::from(155u64).rem(Precision::Deci), 5);
    assert_eq!(Amount::from(155u64).round(Precision::Deci), 16);
    assert_eq!(Amount::from(154u64).round(Precision::Deci), 15);
    assert_eq!(Amount::from(154u64).ceil(Precision::Deci), 16);
    assert_eq!(Amount::from(0u64).round(Precision::Atto), 0);
    assert_eq!(Amount::from(0u64).ceil(Precision::Atto), 0);
    assert_eq!(Amount::from(0u64).floor(Precision::Atto), 0);
    assert_eq!(Amount::from(u64::MAX).round(Precision::Indivisible), u64::MAX);
    assert_eq!(Amount::from(u64::MAX).ceil(Precision::Indivisible), u64::MAX);
    assert_eq!(Amount::from(u64::MAX).round(Precision::Atto), 18);
    assert_eq!(Amount::from(u64::MAX).ceil(Precision::Atto), 19);
    for precision in ALL {
        for value in [1u64, 4, 5, 49, 50, 51, 499_999_999, 500_000_000, u64::MAX] {
            let amount = Amount::from(value);
            let expected = if 2 * (amount.rem(precision) as u128) < precision.multiplier() as u128 {
                amount.floor(precision)
            } else {
                amount.ceil(precision)
            };
            assert_eq!(amount.round(precision), expected);
        }
    }
}

#[test]
fn saturating_arithmetic_clamps() {
    assert_eq!(Amount::from(u64::MAX).saturating_add(Amount::from(1u64)), Amount::from(u64::MAX));
    assert_eq!(Amount::from(0u64).saturating_sub(Amount::from(1u64)), Amount::from(0u64));
    assert_eq!(Amount::from(2u64).saturating_add(Amount::from(3u64)), Amount::from(5u64));
    assert_eq!(Amount::from(3u64).saturating_sub(Amount::from(2u64)), Amount::from(1u64));
    let mut amount = Amount::from(u64::MAX - 1);
    amount.saturating_add_assign(Amount::from(5u64));
    assert_eq!(amount.value(), u64::MAX);
    amount.saturating_sub_assign(Amount::from(u64::MAX));
    assert_eq!(amount, Amount::zero());
    amount.saturating_sub_assign(Amount::from(1u64));
    assert_eq!(amount, Amount::zero());
}

#[test]
fn checked_arithmetic_reports_overflow() {
    assert_eq!(Amount::from(u64::MAX).checked_add(Amount::from(1u64)), None);
    assert_eq!(Amount::from(0u64).checked_sub(Amount::from(1u64)), None);
    assert_eq!(Amount::from(2u64).checked_add(Amount::from(3u64)), Some(Amount::from(5u64)));
    assert_eq!(Amount::from(3u64).checked_sub(Amount::from(3u64)), Some(Amount::zero()));
    let mut amount = Amount::from(u64::MAX);
    assert_eq!(amount.checked_add_assign(Amount::from(1u64)), None);
    assert_eq!(amount.value(), u64::MAX);
    assert_eq!(amount.checked_sub_assign(Amount::from(1u64)), Some(()));
    assert_eq!(amount.value(), u64::MAX - 1);
    let mut zero = Amount::zero();
    assert_eq!(zero.checked_sub_assign(Amount::from(1u64)), None);
    assert_eq!(zero, Amount::zero());
    assert_eq!(zero.checked_add_assign(Amount::from(8u8)), Some(()));
    assert_eq!(zero, Amount::from(8u16));
}

#[test]
fn sum_saturates_and_never_wraps() {
    assert_eq!(Amount::sum(&[Amount::from(u64::MAX), Amount::from(1u64)]), Amount::from(u64::MAX));
    assert_eq!(Amount::sum(&[]), Amount::zero());
    assert_eq!(Amount::sum(&[Amount::from(1u64), Amount::from(2u64), Amount::from(3u64)]).value(), 6);
    assert_eq!(Amount::sum_raw(&[u64::MAX, 1, u64::MAX]), Amount::from(u64::MAX));
    assert_eq!(Amount::sum_raw(&[40, 2]), Amount::from(42u32));
}

#[test]
fn multiplier_table() {
    assert_eq!(Precision::Indivisible.multiplier(), 1);
    assert_eq!(Precision::Atto.multiplier(), 10u64.pow(18));
    for (decimals, precision) in ALL.iter().enumerate() {
        assert_eq!(precision.decimals() as usize, decimals);
        assert_eq!(precision.multiplier(), 10u64.pow(decimals as u32));
        assert_eq!(Precision::from_decimals(decimals as u8), Some(*precision));
        assert_eq!(u8::from(*precision) as usize, decimals);
        assert_eq!(u16::from(*precision) as usize, decimals);
        assert_eq!(u32::from(*precision) as usize, decimals);
        assert_eq!(u64::from(*precision) as usize, decimals);
    }
    for pair in ALL.windows(2) {
        assert!(pair[0].multiplier() < pair[1].multiplier());
        assert!(pair[0] < pair[1]);
    }
    assert_eq!(Precision::from_decimals(19), None);
    assert_eq!(Precision::default(), Precision::CentiMicro);
    assert_eq!(Precision::default().decimals(), 8);
    assert_eq!(Amount::default(), Amount::zero());
}

#[test]
fn two_decimal_asset_scenario() {
    // 12.34 units of an asset with two decimals are 1234 minor units
    let amount = Amount::from(1234u64);
    assert_eq!(amount.value(), 1234);
    assert_eq!(amount.floor(Precision::Centi), 12);
    assert_eq!(amount.rem(Precision::Centi), 34);
    assert_eq!(amount.split(Precision::Centi), (12, 34));
    assert_eq!(amount.round(Precision::Centi), 12);
    assert_eq!(amount.ceil(Precision::Centi), 13);
    // whole units are scaled by the multiplier
    assert_eq!(Amount::with_precision(12, Precision::Centi).value(), 1200);
    assert_eq!(Amount::with_precision(1234, Precision::Centi).value(), 123_400);
    assert_eq!(Amount::with_precision(1234, Precision::Centi).floor(Precision::Centi), 1234);
}

#[test]
fn amount_wire_form_is_eight_bytes_little_endian() {
    let mut out = vec![0xAAu8];
    Amount::from(0x0102_0304_0506_0708u64).strict_encode(&mut out);
    assert_eq!(out, vec![0xAA, 8, 7, 6, 5, 4, 3, 2, 1]);
    assert_eq!(Amount::strict_decode(&out, 1), Ok((Amount::from(0x0102_0304_0506_0708u64), 9)));
    assert_eq!(Amount::strict_decode(&out, 2), Err(DecodeError::UnexpectedEof));
    assert_eq!(Amount::strict_decode(&out, 10), Err(DecodeError::UnexpectedEof));
    assert_eq!(Amount::strict_decode(&[], 0), Err(DecodeError::UnexpectedEof));
}

#[test]
fn precision_wire_form_is_one_checked_byte() {
    for precision in ALL {
        let mut out = Vec::new();
        precision.strict_encode(&mut out);
        assert_eq!(out, vec![precision.decimals()]);
        assert_eq!(Precision::strict_decode(&out, 0), Ok((precision, 1)));
    }
    assert_eq!(Precision::strict_decode(&[19], 0), Err(DecodeError::UnknownTag(19)));
    assert_eq!(Precision::strict_decode(&[255, 3], 0), Err(DecodeError::UnknownTag(255)));
    assert_eq!(Precision::strict_decode(&[255, 3], 1), Ok((Precision::Milli, 2)));
    assert_eq!(Precision::strict_decode(&[3], 1), Err(DecodeError::UnexpectedEof));
    assert_eq!(Precision::strict_decode(&[3], usize::MAX), Err(DecodeError::UnexpectedEof));
}

#[test]
fn amount_reads_and_writes_decimal() {
    assert_eq!(Amount::from_str("1234"), Ok(Amount::from(1234u64)));
    assert_eq!(Amount::from_str("18446744073709551615"), Ok(Amount::from(u64::MAX)));
    assert!(Amount::from_str("18446744073709551616").is_err());
    assert!(Amount::from_str("12.34").is_err());
    assert!(Amount::from_str("").is_err());
    assert_eq!(Amount::from(1234u64).to_string(), "1234");
    assert_eq!(Amount::zero().to_string(), "0");
    assert_eq!(Amount::from_inner(9).into_inner(), 9);
    for value in [0u64, 7, 10, 99, u64::MAX] {
        assert_eq!(Amount::from_str(&Amount::from(value).to_string()), Ok(Amount::from(value)));
    }
}
