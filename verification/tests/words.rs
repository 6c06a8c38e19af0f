use amm_batch_request::primitives::{H160, U256};

const TOP: u64 = u64::MAX;

#[test]
fn zero_address_is_zero() {
    assert!(H160::zero().is_zero());
    assert_eq!(H160::zero(), H160([0u8; 20]));
}

#[test]
fn address_with_any_set_byte_is_not_zero() {
    for i in 0..20 {
        let mut bytes = [0u8; 20];
        bytes[i] = 1;
        assert!(!H160(bytes).is_zero(), "byte {i}");
    }
}

#[test]
fn u8_narrowing_accepts_up_to_255() {
    assert_eq!(U256([0, 0, 0, 0]).to_u8(), Some(0));
    assert_eq!(U256([18, 0, 0, 0]).to_u8(), Some(18));
    assert_eq!(U256([255, 0, 0, 0]).to_u8(), Some(255));
}

#[test]
fn u8_narrowing_refuses_wider_values() {
    assert_eq!(U256([256, 0, 0, 0]).to_u8(), None);
    assert_eq!(U256([1, 1, 0, 0]).to_u8(), None);
    assert_eq!(U256([1, 0, 1, 0]).to_u8(), None);
    assert_eq!(U256([1, 0, 0, 1]).to_u8(), None);
    assert_eq!(U256([TOP, TOP, TOP, TOP]).to_u8(), None);
}

#[test]
fn uint24_narrowing_has_its_bound_at_16777215() {
    assert_eq!(U256([16_777_215, 0, 0, 0]).to_uint24(), Some(16_777_215));
    assert_eq!(U256([16_777_216, 0, 0, 0]).to_uint24(), None);
    assert_eq!(U256([3000, 0, 0, 0]).to_uint24(), Some(3000));
    assert_eq!(U256([3000, 0, 0, 1]).to_uint24(), None);
}

#[test]
fn u128_narrowing_joins_the_two_low_limbs() {
    assert_eq!(U256([5, 1, 0, 0]).to_u128(), Some((1u128 << 64) + 5));
    assert_eq!(U256([TOP, TOP, 0, 0]).to_u128(), Some(u128::MAX));
    assert_eq!(U256([0, 0, 1, 0]).to_u128(), None);
    assert_eq!(U256([0, 0, 0, 1]).to_u128(), None);
}

#[test]
fn uint160_bound_lies_in_the_third_limb() {
    assert!(U256([TOP, TOP, 0xffff_ffff, 0]).fits_uint160());
    assert!(!U256([0, 0, 0x1_0000_0000, 0]).fits_uint160());
    assert!(!U256([0, 0, 0, 1]).fits_uint160());
    assert!(U256([0, 0, 0, 0]).fits_uint160());
}

#[test]
fn int24_narrowing_reads_sign_extended_words() {
    assert_eq!(U256([0, 0, 0, 0]).to_int24(), Some(0));
    assert_eq!(U256([8_388_607, 0, 0, 0]).to_int24(), Some(8_388_607));
    assert_eq!(U256([TOP, TOP, TOP, TOP]).to_int24(), Some(-1));
    assert_eq!(U256([TOP - 8_388_607, TOP, TOP, TOP]).to_int24(), Some(-8_388_608));
    assert_eq!(U256([TOP - 59, TOP, TOP, TOP]).to_int24(), Some(-60));
}

#[test]
fn int24_narrowing_refuses_values_outside_the_24_bit_range() {
    // 8388608 as a positive word: one past the largest tick.
    assert_eq!(U256([8_388_608, 0, 0, 0]).to_int24(), None);
    // -8388609: one below the smallest tick.
    assert_eq!(U256([TOP - 8_388_608, TOP, TOP, TOP]).to_int24(), None);
    // Upper limbs that are neither all clear nor all set.
    assert_eq!(U256([5, 0, 0, TOP]).to_int24(), None);
    assert_eq!(U256([5, TOP, TOP, 0]).to_int24(), None);
    assert_eq!(U256([TOP, TOP, TOP, 0x7fff_ffff_ffff_ffff]).to_int24(), None);
}

#[test]
fn from_u128_splits_into_limbs() {
    assert_eq!(U256::from_u128(0), U256([0, 0, 0, 0]));
    assert_eq!(U256::from_u128((7u128 << 64) + 9), U256([9, 7, 0, 0]));
    assert_eq!(U256::from_u128(u128::MAX), U256([TOP, TOP, 0, 0]));
}

#[test]
fn from_i128_sign_extends() {
    assert_eq!(U256::from_i128(0), U256([0, 0, 0, 0]));
    assert_eq!(U256::from_i128(42), U256([42, 0, 0, 0]));
    assert_eq!(U256::from_i128(-1), U256([TOP, TOP, TOP, TOP]));
    assert_eq!(U256::from_i128(-8_388_608), U256([TOP - 8_388_607, TOP, TOP, TOP]));
    assert_eq!(U256::from_i128(i128::MIN), U256([0, 1 << 63, TOP, TOP]));
    assert_eq!(U256::from_i128(i128::MAX), U256([TOP, TOP >> 1, 0, 0]));
}

#[test]
fn widening_then_narrowing_gives_the_value_back() {
    for tick in [-8_388_608i32, -1, 0, 1, 8_388_607] {
        assert_eq!(U256::from_i128(tick as i128).to_int24(), Some(tick));
    }
    for fee in [0u32, 500, 3000, 16_777_215] {
        assert_eq!(U256::from_u128(fee as u128).to_uint24(), Some(fee));
    }
    for decimals in [0u8, 6, 18, 255] {
        assert_eq!(U256::from_u128(decimals as u128).to_u8(), Some(decimals));
    }
    for liquidity in [0u128, 1, u64::MAX as u128 + 1, u128::MAX] {
        assert_eq!(U256::from_u128(liquidity).to_u128(), Some(liquidity));
    }
}

#[test]
fn limbs_agree_with_the_outside_word_type() {
    let word = ethers::types::U256::from_dec_str("340282366920938463463374607431768211461").unwrap();
    assert_eq!(U256(word.0), U256([5, 0, 1, 0]));
    assert_eq!(U256(word.0).to_u128(), None);
    assert_eq!(U256::from_u128(u128::MAX).0, ethers::types::U256::from(u128::MAX).0);
    let minus_sixty = ethers::types::I256::from(-60).into_raw();
    assert_eq!(U256::from_i128(-60).0, minus_sixty.0);
}
