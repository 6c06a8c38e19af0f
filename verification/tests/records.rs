use amm_batch_request::abi::AbiValue;
use amm_batch_request::pool::UniswapV3PoolCustomized;
use amm_batch_request::primitives::{H160, U256};
use amm_batch_request::record::{pool_data_to_tokens, populate_pool_data_from_tokens, record_is_vacant};

const TOP: u64 = u64::MAX;

fn address(last: u8) -> H160 {
    let mut bytes = [0u8; 20];
    bytes[0] = 0xaa;
    bytes[19] = last;
    H160(bytes)
}

fn unsigned(x: u64) -> AbiValue {
    AbiValue::Uint(U256([x, 0, 0, 0]))
}

fn signed(x: i128) -> AbiValue {
    AbiValue::Int(U256::from_i128(x))
}

fn sample_record() -> Vec<AbiValue> {
    vec![
        AbiValue::Address(address(1)),
        unsigned(18),
        AbiValue::Address(address(2)),
        unsigned(6),
        AbiValue::Uint(U256([5, 1, 0, 0])),
        AbiValue::Uint(U256([9, 8, 7, 0])),
        signed(-60),
        signed(10),
        unsigned(3000),
        signed(-12345),
    ]
}

fn sample_pool() -> UniswapV3PoolCustomized {
    UniswapV3PoolCustomized {
        address: address(9),
        token_a: address(1),
        token_a_decimals: 18,
        token_b: address(2),
        token_b_decimals: 6,
        liquidity: (1u128 << 64) + 5,
        sqrt_price: U256([9, 8, 7, 0]),
        fee: 3000,
        tick: -60,
        tick_spacing: 10,
    }
}

#[test]
fn new_pool_has_only_an_address() {
    let pool = UniswapV3PoolCustomized::new(address(9));
    assert_eq!(pool.address, address(9));
    assert_eq!(pool.token_a, H160::zero());
    assert_eq!(pool.token_b, H160::zero());
    assert_eq!(pool.token_a_decimals, 0);
    assert_eq!(pool.token_b_decimals, 0);
    assert_eq!(pool.liquidity, 0);
    assert_eq!(pool.sqrt_price, U256([0, 0, 0, 0]));
    assert_eq!(pool.fee, 0);
    assert_eq!(pool.tick, 0);
    assert_eq!(pool.tick_spacing, 0);
}

#[test]
fn record_fills_every_field_but_the_address() {
    let pool = UniswapV3PoolCustomized::new(address(9));
    let filled = populate_pool_data_from_tokens(pool, &sample_record());
    assert_eq!(filled, Some(sample_pool()));
}

#[test]
fn record_overwrites_whatever_the_pool_held() {
    let mut stale = sample_pool();
    stale.token_a = address(77);
    stale.liquidity = 1;
    stale.tick = 5;
    stale.fee = 1;
    assert_eq!(populate_pool_data_from_tokens(stale, &sample_record()), Some(sample_pool()));
}

#[test]
fn tenth_field_is_not_read() {
    let mut record = sample_record();
    record.truncate(9);
    let pool = UniswapV3PoolCustomized::new(address(9));
    assert_eq!(populate_pool_data_from_tokens(pool, &record), Some(sample_pool()));
    record.push(AbiValue::Bool(true));
    assert_eq!(populate_pool_data_from_tokens(pool, &record), Some(sample_pool()));
}

#[test]
fn short_record_is_refused() {
    let pool = UniswapV3PoolCustomized::new(address(9));
    let mut record = sample_record();
    record.truncate(8);
    assert_eq!(populate_pool_data_from_tokens(pool, &record), None);
    assert_eq!(populate_pool_data_from_tokens(pool, &Vec::new()), None);
}

#[test]
fn field_of_the_wrong_type_is_refused() {
    let pool = UniswapV3PoolCustomized::new(address(9));
    for position in 0..9 {
        let mut record = sample_record();
        record[position] = AbiValue::Bool(true);
        assert_eq!(populate_pool_data_from_tokens(pool, &record), None, "position {position}");
    }
    // A signed word where an unsigned one belongs, and the reverse.
    let mut record = sample_record();
    record[8] = signed(3000);
    assert_eq!(populate_pool_data_from_tokens(pool, &record), None);
    let mut record = sample_record();
    record[6] = unsigned(60);
    assert_eq!(populate_pool_data_from_tokens(pool, &record), None);
}

#[test]
fn field_too_wide_for_its_place_is_refused() {
    let pool = UniswapV3PoolCustomized::new(address(9));
    let too_wide: [(usize, AbiValue); 7] = [
        (1, unsigned(256)),
        (3, unsigned(256)),
        (4, AbiValue::Uint(U256([0, 0, 1, 0]))),
        (5, AbiValue::Uint(U256([0, 0, 0x1_0000_0000, 0]))),
        (6, signed(8_388_608)),
        (7, signed(-8_388_609)),
        (8, unsigned(16_777_216)),
    ];
    for (position, value) in too_wide {
        let mut record = sample_record();
        record[position] = value;
        assert_eq!(populate_pool_data_from_tokens(pool, &record), None, "position {position}");
    }
}

#[test]
fn widest_values_are_accepted() {
    let pool = UniswapV3PoolCustomized::new(address(9));
    let record = vec![
        AbiValue::Address(address(1)),
        unsigned(255),
        AbiValue::Address(address(2)),
        unsigned(255),
        AbiValue::Uint(U256([TOP, TOP, 0, 0])),
        AbiValue::Uint(U256([TOP, TOP, 0xffff_ffff, 0])),
        signed(-8_388_608),
        signed(8_388_607),
        unsigned(16_777_215),
        signed(0),
    ];
    let filled = populate_pool_data_from_tokens(pool, &record).unwrap();
    assert_eq!(filled.token_a_decimals, 255);
    assert_eq!(filled.token_b_decimals, 255);
    assert_eq!(filled.liquidity, u128::MAX);
    assert_eq!(filled.sqrt_price, U256([TOP, TOP, 0xffff_ffff, 0]));
    assert_eq!(filled.tick, -8_388_608);
    assert_eq!(filled.tick_spacing, 8_388_607);
    assert_eq!(filled.fee, 16_777_215);
}

#[test]
fn pool_is_written_out_in_wire_order() {
    assert_eq!(pool_data_to_tokens(&sample_pool(), -12345), sample_record());
}

#[test]
fn negative_tick_is_written_sign_extended() {
    let mut pool = sample_pool();
    pool.tick = -8_388_608;
    let tokens = pool_data_to_tokens(&pool, 0);
    assert_eq!(tokens[6], AbiValue::Int(U256([0xffff_ffff_ff80_0000, TOP, TOP, TOP])));
}

#[test]
fn written_record_reads_back_unchanged() {
    let extremes = [
        (-8_388_608i32, 8_388_607i32, 16_777_215u32, 255u8, u128::MAX),
        (8_388_607, -8_388_608, 0, 0, 0),
        (0, 1, 500, 18, 1),
        (-1, -1, 1, 1, u64::MAX as u128 + 1),
    ];
    for (tick, tick_spacing, fee, decimals, liquidity) in extremes {
        let pool = UniswapV3PoolCustomized {
            address: address(9),
            token_a: address(1),
            token_a_decimals: decimals,
            token_b: address(2),
            token_b_decimals: decimals,
            liquidity,
            sqrt_price: U256([TOP, TOP, 0xffff_ffff, 0]),
            fee,
            tick,
            tick_spacing,
        };
        let target = UniswapV3PoolCustomized::new(address(9));
        let tokens = pool_data_to_tokens(&pool, i128::MIN);
        assert_eq!(populate_pool_data_from_tokens(target, &tokens), Some(pool));
    }
}

#[test]
fn read_back_keeps_the_address_of_the_pool_read_into() {
    let target = UniswapV3PoolCustomized::new(address(33));
    let tokens = pool_data_to_tokens(&sample_pool(), 0);
    let filled = populate_pool_data_from_tokens(target, &tokens).unwrap();
    assert_eq!(filled.address, address(33));
    let mut expected = sample_pool();
    expected.address = address(33);
    assert_eq!(filled, expected);
}

#[test]
fn record_is_vacant_only_with_a_zero_first_address() {
    let mut record = sample_record();
    assert!(!record_is_vacant(&record));
    record[0] = AbiValue::Address(H160::zero());
    assert!(record_is_vacant(&record));
    record[0] = unsigned(0);
    assert!(!record_is_vacant(&record));
    assert!(!record_is_vacant(&Vec::new()));
    // Only the first field counts.
    let mut record = sample_record();
    record[2] = AbiValue::Address(H160::zero());
    assert!(!record_is_vacant(&record));
}
