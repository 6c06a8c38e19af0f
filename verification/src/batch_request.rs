//! Reading the state of many pools with one contract call.
//!
//! A batch read has three steps. The caller is told what to ask for
//! (`amm_batch_call`, `v3_pool_batch_call`), makes the call by its own means,
//! and hands the outcome back (`get_amm_data_batch_request`,
//! `get_v3_pool_data_batch_request`). The response is decoded as a whole
//! before any pool is touched.

use vstd::prelude::*;
use crate::abi::{abi_decoded, decode, AbiValue};
use crate::errors::AMMError;
use crate::pool::{UniswapV3PoolCustomized, AMM};
use crate::primitives::H160;
use crate::registry::{
    law_failed_update_touches_nothing, law_update_idempotent, pool_update_result,
    registry_after_update, registry_update_result, update_pool, update_registry, ConversionPolicy,
};
use crate::schema::{pool_data_kinds, pool_data_schema};

verus! {

/// What to ask of the contract that reads pools in bulk.
#[derive(Debug, PartialEq, Eq)]
pub struct BatchCall {
    /// The argument to call with: a tuple that holds one array of addresses.
    pub constructor_args: AbiValue,
    /// The block to read at, or `None` for the latest block.
    pub block_number: Option<u64>,
}

/// Whether `args` is a tuple whose one field is the array of `addresses`,
/// in order.
pub open spec fn is_address_list(args: AbiValue, addresses: Seq<H160>) -> bool {
    &&& args.spec_as_tuple() matches Some(fields)
    &&& fields.len() == 1
    &&& fields[0].spec_as_array() matches Some(targets)
    &&& targets.len() == addresses.len()
    &&& forall|i: int| 0 <= i < targets.len() ==> #[trigger] targets[i] == AbiValue::Address(addresses[i])
}

/// The address of each registry entry, in registry order.
pub open spec fn registry_addresses(amms: Seq<AMM>) -> Seq<H160> {
    Seq::new(amms.len(), |i: int| amms[i].spec_address())
}

fn address_list(addresses: Vec<AbiValue>) -> (args: AbiValue)
    ensures
        args.spec_as_tuple() matches Some(fields) && fields.len() == 1
            && fields[0].spec_as_array() == Some(addresses@),
{
    let mut fields: Vec<AbiValue> = Vec::new();
    fields.push(AbiValue::Array(addresses));
    AbiValue::Tuple(fields)
}

/// The call that reads one pool, at the given block or at the latest.
pub fn v3_pool_batch_call(pool: &UniswapV3PoolCustomized, block_number: Option<u64>) -> (call:
    BatchCall)
    ensures
        call.block_number == block_number,
        is_address_list(call.constructor_args, seq![pool.address]),
{
    let mut targets: Vec<AbiValue> = Vec::new();
    targets.push(AbiValue::Address(pool.address));
    BatchCall { constructor_args: address_list(targets), block_number }
}

/// The call that reads every entry of a registry at the given block. The
/// addresses are asked for in registry order, entries of every kind
/// included, so that the records of the response line up with the entries.
pub fn amm_batch_call(amms: &Vec<AMM>, block_number: u64) -> (call: BatchCall)
    ensures
        call.block_number == Some(block_number),
        is_address_list(call.constructor_args, registry_addresses(amms@)),
{
    let mut targets: Vec<AbiValue> = Vec::new();
    let mut i: usize = 0;
    while i < amms.len()
        invariant
            i <= amms.len(),
            targets@.len() == i,
            forall|j: int| 0 <= j < i ==> #[trigger] targets@[j] == AbiValue::Address(
                amms@[j].spec_address(),
            ),
        decreases amms.len() - i,
    {
        targets.push(AbiValue::Address(amms[i].address()));
        i += 1;
    }
    BatchCall { constructor_args: address_list(targets), block_number: Some(block_number) }
}

/// The values that a response decodes to, or `None` if it does not decode as
/// an array of pool records. On a machine whose `usize` cannot hold every
/// offset that a response may name, nothing is decoded.
pub open spec fn response_values(data: Seq<u8>) -> Option<Seq<AbiValue>> {
    if usize::MAX > u32::MAX {
        abi_decoded(pool_data_kinds(), data)
    } else {
        None
    }
}

/// Decodes a response as an array of pool records.
pub fn decode_pool_data(data: &[u8]) -> (r: Option<Vec<AbiValue>>)
    ensures
        match r {
            Some(values) => response_values(data@) == Some(values@),
            None => response_values(data@) is None,
        },
{
    if usize::MAX <= u32::MAX as usize {
        return None;
    }
    let schema = pool_data_schema();
    match decode(&schema, data) {
        Ok(values) => Some(values),
        Err(_) => None,
    }
}

/// How a batch read of a whole registry ends, given the outcome of the call.
pub open spec fn amm_batch_result(
    amms: Seq<AMM>,
    response: Result<Vec<u8>, String>,
    policy: ConversionPolicy,
) -> Result<Seq<AMMError>, AMMError> {
    match response {
        Err(message) => Err(AMMError::TransportError(message)),
        Ok(data) => match response_values(data@) {
            None => Err(AMMError::AbiDecodeError(None)),
            Some(values) => registry_update_result(amms, values, policy),
        },
    }
}

/// The registry after a batch read, given the outcome of the call.
pub open spec fn amm_batch_registry(
    amms: Seq<AMM>,
    response: Result<Vec<u8>, String>,
    policy: ConversionPolicy,
) -> Seq<AMM> {
    match response {
        Err(_) => amms,
        Ok(data) => match response_values(data@) {
            None => amms,
            Some(values) => registry_after_update(amms, values, policy),
        },
    }
}

/// Completes a batch read of a registry: takes the outcome of the call that
/// `amm_batch_call` described and brings the registry up to date.
///
/// A failed call is reported as it came. A response that does not decode, or
/// that does not hold one record per entry, is an error too. In each of these
/// cases no entry is touched. Otherwise every entry meets the record at its
/// own position. Under `Continue` the records that did not convert are
/// returned, one `FieldConversionError` each, and their entries are left as
/// they were; under `Abort` the first of them fails the whole read.
pub fn get_amm_data_batch_request(
    amms: &mut Vec<AMM>,
    response: Result<Vec<u8>, String>,
    policy: ConversionPolicy,
) -> (result: Result<Vec<AMMError>, AMMError>)
    ensures
        final(amms)@ == amm_batch_registry(old(amms)@, response, policy),
        match result {
            Ok(skipped) => amm_batch_result(old(amms)@, response, policy) == Ok::<
                Seq<AMMError>,
                AMMError,
            >(skipped@),
            Err(e) => amm_batch_result(old(amms)@, response, policy) == Err::<
                Seq<AMMError>,
                AMMError,
            >(e),
        },
{
    let data = match response {
        Ok(data) => data,
        Err(message) => return Err(AMMError::TransportError(message)),
    };
    let values = match decode_pool_data(data.as_slice()) {
        Some(values) => values,
        None => return Err(AMMError::AbiDecodeError(None)),
    };
    update_registry(amms, &values, policy)
}

/// How a batch read of a single pool ends, given the outcome of the call:
/// with the pool's new state, or with the error that left it as it was.
pub open spec fn v3_pool_batch_result(
    pool: UniswapV3PoolCustomized,
    response: Result<Vec<u8>, String>,
) -> Result<UniswapV3PoolCustomized, AMMError> {
    match response {
        Err(message) => Err(AMMError::TransportError(message)),
        Ok(data) => match response_values(data@) {
            None => Err(AMMError::AbiDecodeError(Some(pool.address))),
            Some(values) => pool_update_result(pool, values),
        },
    }
}

/// Completes a batch read of a single pool: takes the outcome of the call
/// that `v3_pool_batch_call` described and brings the pool up to date. On any
/// error the pool is left as it was.
pub fn get_v3_pool_data_batch_request(
    pool: &mut UniswapV3PoolCustomized,
    response: Result<Vec<u8>, String>,
) -> (result: Result<(), AMMError>)
    ensures
        match v3_pool_batch_result(*old(pool), response) {
            Ok(updated) => result is Ok && *final(pool) == updated,
            Err(e) => result == Err::<(), AMMError>(e) && *final(pool) == *old(pool),
        },
{
    let data = match response {
        Ok(data) => data,
        Err(message) => return Err(AMMError::TransportError(message)),
    };
    let values = match decode_pool_data(data.as_slice()) {
        Some(values) => values,
        None => return Err(AMMError::AbiDecodeError(Some(pool.address))),
    };
    update_pool(pool, &values)
}

/// Whenever a batch read ends in an error, be it a failed call, a response
/// that does not decode, a wrong number of records, or a record that fails a
/// read under `Abort`, every registry entry is exactly what it was.
pub proof fn law_failed_read_touches_nothing(
    amms: Seq<AMM>,
    response: Result<Vec<u8>, String>,
    policy: ConversionPolicy,
)
    requires
        amm_batch_result(amms, response, policy) is Err,
    ensures
        amm_batch_registry(amms, response, policy) == amms,
{
    if let Ok(data) = response {
        if let Some(values) = response_values(data@) {
            law_failed_update_touches_nothing(amms, values, policy);
        }
    }
}

/// Applying the same response a second time gives the registry, and the
/// outcome, that applying it once gives.
pub proof fn law_batch_read_idempotent(
    amms: Seq<AMM>,
    response: Result<Vec<u8>, String>,
    policy: ConversionPolicy,
)
    ensures
        amm_batch_registry(amm_batch_registry(amms, response, policy), response, policy)
            == amm_batch_registry(amms, response, policy),
        amm_batch_result(amm_batch_registry(amms, response, policy), response, policy)
            == amm_batch_result(amms, response, policy),
{
    if let Ok(data) = response {
        if let Some(values) = response_values(data@) {
            law_update_idempotent(amms, values, policy);
        }
    }
}

} // verus!
