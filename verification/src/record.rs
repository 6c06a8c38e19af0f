//! One pool record: the raw fields that a response holds for a pool, and
//! their mapping onto typed pool state.
//!
//! A record is a sequence of values in wire order. The first nine are read:
//! first asset, its decimals (8 bits), second asset, its decimals (8 bits),
//! liquidity (128 bits), square-root price (160 bits), tick and tick spacing
//! (24 bits, signed), and fee (24 bits). Each integer arrives as a full
//! 256-bit word; a word that is no valid encoding of its declared width is
//! refused, never truncated.

use vstd::prelude::*;
use crate::abi::AbiValue;
use crate::pool::UniswapV3PoolCustomized;
use crate::primitives::{H160, U256};

verus! {

/// The address at position `i` of a record, if there is one.
pub open spec fn address_at(record: Seq<AbiValue>, i: int) -> Option<H160> {
    if 0 <= i < record.len() {
        record[i].spec_as_address()
    } else {
        None
    }
}

/// The word at position `i` of a record, if an unsigned integer stands there.
pub open spec fn uint_at(record: Seq<AbiValue>, i: int) -> Option<U256> {
    if 0 <= i < record.len() {
        record[i].spec_as_uint()
    } else {
        None
    }
}

/// The word at position `i` of a record, if a signed integer stands there.
pub open spec fn int_at(record: Seq<AbiValue>, i: int) -> Option<U256> {
    if 0 <= i < record.len() {
        record[i].spec_as_int()
    } else {
        None
    }
}

/// The 8-bit unsigned integer at position `i`, if one stands there.
pub open spec fn uint8_at(record: Seq<AbiValue>, i: int) -> Option<u8> {
    match uint_at(record, i) {
        Some(word) => word.spec_to_u8(),
        None => None,
    }
}

/// The 24-bit unsigned integer at position `i`, if one stands there.
pub open spec fn uint24_at(record: Seq<AbiValue>, i: int) -> Option<u32> {
    match uint_at(record, i) {
        Some(word) => word.spec_to_uint24(),
        None => None,
    }
}

/// The 128-bit unsigned integer at position `i`, if one stands there.
pub open spec fn uint128_at(record: Seq<AbiValue>, i: int) -> Option<u128> {
    match uint_at(record, i) {
        Some(word) => word.spec_to_u128(),
        None => None,
    }
}

/// The 160-bit unsigned integer at position `i`, if one stands there.
pub open spec fn uint160_at(record: Seq<AbiValue>, i: int) -> Option<U256> {
    match uint_at(record, i) {
        Some(word) => if word.spec_fits_uint160() {
            Some(word)
        } else {
            None
        },
        None => None,
    }
}

/// The 24-bit signed integer at position `i`, if one stands there.
pub open spec fn int24_at(record: Seq<AbiValue>, i: int) -> Option<i32> {
    match int_at(record, i) {
        Some(word) => word.spec_to_int24(),
        None => None,
    }
}

/// Whether each of the nine fields that a pool takes from a record is present,
/// of the right type, and within the width that the record layout gives it.
pub open spec fn convertible(record: Seq<AbiValue>) -> bool {
    &&& address_at(record, 0) is Some
    &&& uint8_at(record, 1) is Some
    &&& address_at(record, 2) is Some
    &&& uint8_at(record, 3) is Some
    &&& uint128_at(record, 4) is Some
    &&& uint160_at(record, 5) is Some
    &&& int24_at(record, 6) is Some
    &&& int24_at(record, 7) is Some
    &&& uint24_at(record, 8) is Some
}

/// The pool that results from writing a record's fields into `pool`: every
/// field but the address comes from the record. `None` where the record is
/// not convertible; no field is ever guessed.
pub open spec fn populated(pool: UniswapV3PoolCustomized, record: Seq<AbiValue>) -> Option<
    UniswapV3PoolCustomized,
> {
    if convertible(record) {
        Some(
            UniswapV3PoolCustomized {
                address: pool.address,
                token_a: address_at(record, 0).unwrap(),
                token_a_decimals: uint8_at(record, 1).unwrap(),
                token_b: address_at(record, 2).unwrap(),
                token_b_decimals: uint8_at(record, 3).unwrap(),
                liquidity: uint128_at(record, 4).unwrap(),
                sqrt_price: uint160_at(record, 5).unwrap(),
                tick: int24_at(record, 6).unwrap(),
                tick_spacing: int24_at(record, 7).unwrap(),
                fee: uint24_at(record, 8).unwrap(),
            },
        )
    } else {
        None
    }
}

fn address_field(record: &Vec<AbiValue>, i: usize) -> (r: Option<H160>)
    ensures
        r == address_at(record@, i as int),
{
    if i < record.len() {
        record[i].as_address()
    } else {
        None
    }
}

fn uint_field(record: &Vec<AbiValue>, i: usize) -> (r: Option<U256>)
    ensures
        r == uint_at(record@, i as int),
{
    if i < record.len() {
        record[i].as_uint()
    } else {
        None
    }
}

fn int_field(record: &Vec<AbiValue>, i: usize) -> (r: Option<U256>)
    ensures
        r == int_at(record@, i as int),
{
    if i < record.len() {
        record[i].as_int()
    } else {
        None
    }
}

fn uint8_field(record: &Vec<AbiValue>, i: usize) -> (r: Option<u8>)
    ensures
        r == uint8_at(record@, i as int),
{
    match uint_field(record, i) {
        Some(word) => word.to_u8(),
        None => None,
    }
}

fn int24_field(record: &Vec<AbiValue>, i: usize) -> (r: Option<i32>)
    ensures
        r == int24_at(record@, i as int),
{
    match int_field(record, i) {
        Some(word) => word.to_int24(),
        None => None,
    }
}

/// Writes the fields of one record into `pool` and returns the result, or
/// `None` if any field is missing, of the wrong type, or too wide for the
/// place it goes to. The pool's address is kept.
pub fn populate_pool_data_from_tokens(pool: UniswapV3PoolCustomized, tokens: &Vec<AbiValue>) -> (r:
    Option<UniswapV3PoolCustomized>)
    ensures
        r == populated(pool, tokens@),
        r matches Some(p) ==> p.well_formed() && p.address == pool.address,
{
    let token_a = match address_field(tokens, 0) {
        Some(address) => address,
        None => return None,
    };
    let token_a_decimals = match uint8_field(tokens, 1) {
        Some(decimals) => decimals,
        None => return None,
    };
    let token_b = match address_field(tokens, 2) {
        Some(address) => address,
        None => return None,
    };
    let token_b_decimals = match uint8_field(tokens, 3) {
        Some(decimals) => decimals,
        None => return None,
    };
    let liquidity = match uint_field(tokens, 4) {
        Some(word) => match word.to_u128() {
            Some(liquidity) => liquidity,
            None => return None,
        },
        None => return None,
    };
    let sqrt_price = match uint_field(tokens, 5) {
        Some(word) => if word.fits_uint160() {
            word
        } else {
            return None;
        },
        None => return None,
    };
    let tick = match int24_field(tokens, 6) {
        Some(tick) => tick,
        None => return None,
    };
    let tick_spacing = match int24_field(tokens, 7) {
        Some(spacing) => spacing,
        None => return None,
    };
    let fee = match uint_field(tokens, 8) {
        Some(word) => match word.to_uint24() {
            Some(fee) => fee,
            None => return None,
        },
        None => return None,
    };
    Some(
        UniswapV3PoolCustomized {
            address: pool.address,
            token_a,
            token_a_decimals,
            token_b,
            token_b_decimals,
            liquidity,
            sqrt_price,
            tick,
            tick_spacing,
            fee,
        },
    )
}

/// Whether a record reports that no contract answered at its address: its
/// first field is the zero address.
pub open spec fn is_vacant(record: Seq<AbiValue>) -> bool {
    match address_at(record, 0) {
        Some(address) => address.is_zero_spec(),
        None => false,
    }
}

/// Whether a record reports that no contract answered at its address.
pub fn record_is_vacant(record: &Vec<AbiValue>) -> (r: bool)
    ensures
        r == is_vacant(record@),
{
    match address_field(record, 0) {
        Some(address) => address.is_zero(),
        None => false,
    }
}

/// The record that reports the state of `pool`, with `liquidity_net` in the
/// last place, which no pool field is read from.
pub open spec fn pool_tokens(pool: UniswapV3PoolCustomized, liquidity_net: i128) -> Seq<AbiValue> {
    seq![
        AbiValue::Address(pool.token_a),
        AbiValue::Uint(U256::spec_from_u128(pool.token_a_decimals as u128)),
        AbiValue::Address(pool.token_b),
        AbiValue::Uint(U256::spec_from_u128(pool.token_b_decimals as u128)),
        AbiValue::Uint(U256::spec_from_u128(pool.liquidity)),
        AbiValue::Uint(pool.sqrt_price),
        AbiValue::Int(U256::spec_from_i128(pool.tick as i128)),
        AbiValue::Int(U256::spec_from_i128(pool.tick_spacing as i128)),
        AbiValue::Uint(U256::spec_from_u128(pool.fee as u128)),
        AbiValue::Int(U256::spec_from_i128(liquidity_net)),
    ]
}

/// Writes the state of `pool` out as a record, the way the pool contract
/// reports it: unsigned fields zero-extended and signed fields sign-extended
/// to 256 bits.
pub fn pool_data_to_tokens(pool: &UniswapV3PoolCustomized, liquidity_net: i128) -> (tokens: Vec<
    AbiValue,
>)
    ensures
        tokens@ == pool_tokens(*pool, liquidity_net),
{
    let mut tokens: Vec<AbiValue> = Vec::new();
    tokens.push(AbiValue::Address(pool.token_a));
    tokens.push(AbiValue::Uint(U256::from_u128(pool.token_a_decimals as u128)));
    tokens.push(AbiValue::Address(pool.token_b));
    tokens.push(AbiValue::Uint(U256::from_u128(pool.token_b_decimals as u128)));
    tokens.push(AbiValue::Uint(U256::from_u128(pool.liquidity)));
    tokens.push(AbiValue::Uint(pool.sqrt_price));
    tokens.push(AbiValue::Int(U256::from_i128(pool.tick as i128)));
    tokens.push(AbiValue::Int(U256::from_i128(pool.tick_spacing as i128)));
    tokens.push(AbiValue::Uint(U256::from_u128(pool.fee as u128)));
    tokens.push(AbiValue::Int(U256::from_i128(liquidity_net)));
    assert(tokens@ =~= pool_tokens(*pool, liquidity_net));
    tokens
}

/// A well-formed pool written out as a record and read back into any pool
/// gives exactly the fields that were written, under the address of the pool
/// that was read into. This holds at the ends of every range as well: ticks
/// of -8388608 and 8388607, a fee of 16777215, 255 decimals.
pub proof fn law_record_round_trip(
    target: UniswapV3PoolCustomized,
    pool: UniswapV3PoolCustomized,
    liquidity_net: i128,
)
    requires
        pool.well_formed(),
    ensures
        populated(target, pool_tokens(pool, liquidity_net)) == Some(
            UniswapV3PoolCustomized { address: target.address, ..pool },
        ),
{
    let record = pool_tokens(pool, liquidity_net);
    U256::lemma_from_u128(pool.token_a_decimals as u128);
    U256::lemma_from_u128(pool.token_b_decimals as u128);
    U256::lemma_from_u128(pool.liquidity);
    U256::lemma_from_u128(pool.fee as u128);
    U256::lemma_from_i128(pool.tick as i128);
    U256::lemma_from_i128(pool.tick_spacing as i128);
    assert(uint8_at(record, 1) == Some(pool.token_a_decimals));
    assert(uint8_at(record, 3) == Some(pool.token_b_decimals));
    assert(uint128_at(record, 4) == Some(pool.liquidity));
    assert(uint160_at(record, 5) == Some(pool.sqrt_price));
    assert(int24_at(record, 6) == Some(pool.tick));
    assert(int24_at(record, 7) == Some(pool.tick_spacing));
    assert(uint24_at(record, 8) == Some(pool.fee));
}

/// A pool is never updated in part: a record either replaces every field but
/// the address, with values that depend on the record alone and lie in range,
/// or it replaces none.
pub proof fn law_record_replaces_every_field(
    first: UniswapV3PoolCustomized,
    second: UniswapV3PoolCustomized,
    record: Seq<AbiValue>,
)
    ensures
        populated(first, record) is Some <==> convertible(record),
        populated(first, record) is Some ==> populated(first, record).unwrap().well_formed(),
        populated(first, record) is Some ==> populated(second, record) == Some(
            UniswapV3PoolCustomized {
                address: second.address,
                ..populated(first, record).unwrap()
            },
        ),
{
}

} // verus!
