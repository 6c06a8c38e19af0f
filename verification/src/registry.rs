//! Bringing a registry of pools up to date from the records of a response.
//!
//! Records and registry entries meet by position alone: record `i` belongs
//! to entry `i`, whatever either of them holds. An update is prepared in
//! full before the first entry is written, so an update that fails leaves
//! the registry exactly as it was.

use vstd::prelude::*;
use crate::abi::AbiValue;
use crate::errors::AMMError;
use crate::pool::{UniswapV3PoolCustomized, AMM};
use crate::record::{convertible, is_vacant, populate_pool_data_from_tokens, populated, record_is_vacant};
use crate::schema::{all_tuples, pool_records, record_elements, tuples_of};

verus! {

/// What a registry entry becomes when it meets its record. Only a pool of the
/// kind that batch reads serve can change, only through a record that is not
/// vacant, and only if the whole record converts.
pub open spec fn updated_entry(entry: AMM, record: Seq<AbiValue>) -> AMM {
    match entry {
        AMM::UniswapV3PoolCustomized(pool) => if is_vacant(record) {
            entry
        } else {
            match populated(pool, record) {
                Some(updated) => AMM::UniswapV3PoolCustomized(updated),
                None => entry,
            }
        },
        AMM::Other(_) => entry,
    }
}

/// Whether the entry was due an update that its record could not give.
pub open spec fn conversion_failed(entry: AMM, record: Seq<AbiValue>) -> bool {
    entry is UniswapV3PoolCustomized && !is_vacant(record) && !convertible(record)
}

/// The registry after each entry has met the record at its own position.
pub open spec fn updated_registry(amms: Seq<AMM>, records: Seq<Seq<AbiValue>>) -> Seq<AMM> {
    Seq::new(amms.len(), |i: int| updated_entry(amms[i], records[i]))
}

/// One `FieldConversionError` for each of the first `n` entries whose record
/// failed to convert, in registry order, with the entry's address.
pub open spec fn conversion_failures(amms: Seq<AMM>, records: Seq<Seq<AbiValue>>, n: nat) -> Seq<
    AMMError,
>
    decreases n,
{
    if n == 0 {
        Seq::empty()
    } else {
        let earlier = conversion_failures(amms, records, (n - 1) as nat);
        if conversion_failed(amms[n - 1], records[n - 1]) {
            earlier.push(AMMError::FieldConversionError(amms[n - 1].spec_address()))
        } else {
            earlier
        }
    }
}

/// What becomes of a batch when one of its records does not convert.
#[derive(Clone, Copy, Debug, PartialEq, Eq)]
pub enum ConversionPolicy {
    /// The entry of that record stays as it was and is reported; every other
    /// entry is updated as if nothing had happened.
    Continue,
    /// The whole batch is given up: no entry is touched, and the first record
    /// that did not convert is the error.
    Abort,
}

/// How an update of a registry from decoded values ends: with the list of
/// records that were skipped because they did not convert, or with the error
/// that stopped it before any entry was touched.
pub open spec fn registry_update_result(
    amms: Seq<AMM>,
    values: Seq<AbiValue>,
    policy: ConversionPolicy,
) -> Result<Seq<AMMError>, AMMError> {
    match pool_records(values) {
        None => Err(AMMError::AbiDecodeError(None)),
        Some(records) => if records.len() != amms.len() {
            Err(
                AMMError::BoundsError {
                    expected: amms.len() as usize,
                    found: records.len() as usize,
                    address: if records.len() < amms.len() {
                        Some(amms[records.len() as int].spec_address())
                    } else {
                        None
                    },
                },
            )
        } else {
            let failures = conversion_failures(amms, records, amms.len());
            if policy is Abort && failures.len() > 0 {
                Err(failures[0])
            } else {
                Ok(failures)
            }
        },
    }
}

/// The registry after an update from decoded values: every entry updated
/// from its own record if the update succeeds, and no entry touched if it
/// ends in an error.
pub open spec fn registry_after_update(
    amms: Seq<AMM>,
    values: Seq<AbiValue>,
    policy: ConversionPolicy,
) -> Seq<AMM> {
    match registry_update_result(amms, values, policy) {
        Ok(_) => updated_registry(amms, pool_records(values).unwrap()),
        Err(_) => amms,
    }
}

/// The failures among the first `i` entries open the list of the failures
/// among the first `n`.
proof fn lemma_failures_grow(amms: Seq<AMM>, records: Seq<Seq<AbiValue>>, i: nat, n: nat)
    requires
        i <= n,
    ensures
        conversion_failures(amms, records, i).len() <= conversion_failures(amms, records, n).len(),
        forall|k: int|
            0 <= k < conversion_failures(amms, records, i).len() ==> conversion_failures(
                amms,
                records,
                n,
            )[k] == conversion_failures(amms, records, i)[k],
    decreases n - i,
{
    if i < n {
        lemma_failures_grow(amms, records, i, (n - 1) as nat);
    }
}

/// Updates a registry from the decoded values of a response.
///
/// The values must hold exactly one record for each registry entry, in
/// registry order. Each entry then meets its own record as `updated_entry`
/// says. What happens when a record does not convert is the caller's choice:
/// under `Continue` its entry stays as it was and is reported in the returned
/// list, under `Abort` the update fails with that record's error. Whenever
/// the update fails, for this or for values of the wrong shape or number, no
/// entry is touched.
pub fn update_registry(amms: &mut Vec<AMM>, values: &Vec<AbiValue>, policy: ConversionPolicy) -> (result:
    Result<Vec<AMMError>, AMMError>)
    ensures
        final(amms)@ == registry_after_update(old(amms)@, values@, policy),
        match result {
            Ok(skipped) => registry_update_result(old(amms)@, values@, policy) == Ok::<
                Seq<AMMError>,
                AMMError,
            >(skipped@),
            Err(e) => registry_update_result(old(amms)@, values@, policy) == Err::<
                Seq<AMMError>,
                AMMError,
            >(e),
        },
{
    let elements = match record_elements(values) {
        Some(elements) => elements,
        None => return Err(AMMError::AbiDecodeError(None)),
    };
    let count = amms.len();
    if elements.len() != count {
        let address = if elements.len() < count {
            Some(amms[elements.len()].address())
        } else {
            None
        };
        return Err(AMMError::BoundsError { expected: count, found: elements.len(), address });
    }
    let ghost before = amms@;
    let ghost records = tuples_of(elements@);
    let mut updated: Vec<AMM> = Vec::new();
    let mut skipped: Vec<AMMError> = Vec::new();
    let mut i: usize = 0;
    while i < count
        invariant
            i <= count,
            amms@ == before,
            count == before.len(),
            elements@.len() == count,
            all_tuples(elements@),
            records == tuples_of(elements@),
            pool_records(values@) == Some(records),
            updated@.len() == i,
            forall|j: int| 0 <= j < i ==> updated@[j] == updated_entry(before[j], records[j]),
            skipped@ == conversion_failures(before, records, i as nat),
            policy is Abort ==> skipped@.len() == 0,
        decreases count - i,
    {
        let entry: AMM = amms[i];
        let mut next: AMM = entry;
        match entry {
            AMM::UniswapV3PoolCustomized(pool) => {
                match elements[i].as_tuple() {
                    Some(record) => {
                        assert(record@ == records[i as int]);
                        if !record_is_vacant(record) {
                            match populate_pool_data_from_tokens(pool, record) {
                                Some(filled) => {
                                    next = AMM::UniswapV3PoolCustomized(filled);
                                },
                                None => {
                                    let failure = AMMError::FieldConversionError(pool.address);
                                    match policy {
                                        ConversionPolicy::Abort => {
                                            proof {
                                                let found = conversion_failures(
                                                    before,
                                                    records,
                                                    (i + 1) as nat,
                                                );
                                                assert(found == skipped@.push(failure));
                                                assert(found[0] == failure);
                                                lemma_failures_grow(
                                                    before,
                                                    records,
                                                    (i + 1) as nat,
                                                    count as nat,
                                                );
                                            }
                                            return Err(failure);
                                        },
                                        ConversionPolicy::Continue => {
                                            skipped.push(failure);
                                        },
                                    }
                                },
                            }
                        }
                    },
                    None => {
                        assert(false);
                    },
                }
            },
            AMM::Other(_) => {},
        }
        updated.push(next);
        i += 1;
    }
    assert(updated@ =~= updated_registry(before, records));
    *amms = updated;
    Ok(skipped)
}

/// What a single pool becomes when updated from decoded values, or why it
/// stays as it is. The values must hold exactly one record. A vacant record
/// leaves the pool unchanged without error; a record that does not convert is
/// an error.
pub open spec fn pool_update_result(pool: UniswapV3PoolCustomized, values: Seq<AbiValue>) -> Result<
    UniswapV3PoolCustomized,
    AMMError,
> {
    match pool_records(values) {
        None => Err(AMMError::AbiDecodeError(Some(pool.address))),
        Some(records) => if records.len() != 1 {
            Err(
                AMMError::BoundsError {
                    expected: 1,
                    found: records.len() as usize,
                    address: Some(pool.address),
                },
            )
        } else if is_vacant(records[0]) {
            Ok(pool)
        } else {
            match populated(pool, records[0]) {
                Some(updated) => Ok(updated),
                None => Err(AMMError::FieldConversionError(pool.address)),
            }
        },
    }
}

/// Updates one pool from the decoded values of a response that was asked
/// for that pool alone. On any error the pool is left as it was.
pub fn update_pool(pool: &mut UniswapV3PoolCustomized, values: &Vec<AbiValue>) -> (result: Result<
    (),
    AMMError,
>)
    ensures
        match pool_update_result(*old(pool), values@) {
            Ok(updated) => result is Ok && *final(pool) == updated,
            Err(e) => result == Err::<(), AMMError>(e) && *final(pool) == *old(pool),
        },
{
    let elements = match record_elements(values) {
        Some(elements) => elements,
        None => return Err(AMMError::AbiDecodeError(Some(pool.address))),
    };
    if elements.len() != 1 {
        return Err(
            AMMError::BoundsError {
                expected: 1,
                found: elements.len(),
                address: Some(pool.address),
            },
        );
    }
    match elements[0].as_tuple() {
        Some(record) => {
            assert(record@ == tuples_of(elements@)[0]);
            if record_is_vacant(record) {
                Ok(())
            } else {
                match populate_pool_data_from_tokens(*pool, record) {
                    Some(updated) => {
                        *pool = updated;
                        Ok(())
                    },
                    None => Err(AMMError::FieldConversionError(pool.address)),
                }
            }
        },
        None => {
            assert(false);
            Err(AMMError::AbiDecodeError(Some(pool.address)))
        },
    }
}

/// An update changes nothing but the fields of a pool: each entry keeps its
/// kind and its address, and a well-formed entry stays well-formed.
pub proof fn law_update_keeps_identity(entry: AMM, record: Seq<AbiValue>)
    ensures
        updated_entry(entry, record).spec_address() == entry.spec_address(),
        updated_entry(entry, record) is UniswapV3PoolCustomized
            <==> entry is UniswapV3PoolCustomized,
        entry.well_formed() ==> updated_entry(entry, record).well_formed(),
{
}

/// An entry whose record is vacant is left exactly as it was, whatever the
/// other records do to their entries.
pub proof fn law_vacant_record_skips(
    amms: Seq<AMM>,
    values: Seq<AbiValue>,
    policy: ConversionPolicy,
    i: int,
)
    requires
        0 <= i < amms.len(),
        pool_records(values) is Some,
        pool_records(values).unwrap().len() == amms.len(),
        is_vacant(pool_records(values).unwrap()[i]),
    ensures
        registry_after_update(amms, values, policy)[i] == amms[i],
{
}

/// What becomes of entry `i` in an update that succeeds is decided by entry
/// `i` and record `i` alone: two responses that agree on record `i` agree on
/// entry `i`, however they differ elsewhere. Under `Continue` every update
/// with the right number of records succeeds.
pub proof fn law_positional_integrity(
    amms: Seq<AMM>,
    first: Seq<AbiValue>,
    second: Seq<AbiValue>,
    policy: ConversionPolicy,
    i: int,
)
    requires
        0 <= i < amms.len(),
        registry_update_result(amms, first, policy) is Ok,
        registry_update_result(amms, second, policy) is Ok,
        pool_records(first).unwrap()[i] == pool_records(second).unwrap()[i],
    ensures
        registry_after_update(amms, first, policy)[i] == updated_entry(
            amms[i],
            pool_records(first).unwrap()[i],
        ),
        registry_after_update(amms, first, policy)[i] == registry_after_update(
            amms,
            second,
            policy,
        )[i],
{
}

/// Under `Continue`, an update succeeds exactly when the values hold one
/// record for each entry.
pub proof fn law_continue_needs_only_the_count(amms: Seq<AMM>, values: Seq<AbiValue>)
    ensures
        registry_update_result(amms, values, ConversionPolicy::Continue) is Ok <==> (pool_records(
            values,
        ) is Some && pool_records(values).unwrap().len() == amms.len()),
{
}

proof fn lemma_no_failures(amms: Seq<AMM>, records: Seq<Seq<AbiValue>>, n: nat)
    ensures
        conversion_failures(amms, records, n).len() == 0 <==> forall|i: int|
            0 <= i < n ==> !conversion_failed(#[trigger] amms[i], records[i]),
    decreases n,
{
    if n > 0 {
        lemma_no_failures(amms, records, (n - 1) as nat);
        if conversion_failures(amms, records, n).len() == 0 {
            assert(!conversion_failed(amms[n - 1], records[n - 1]));
        }
    }
}

/// Under `Abort`, an update from values that hold one record for each entry
/// succeeds exactly when no entry was due an update that its record could
/// not give.
pub proof fn law_abort_needs_every_record_to_convert(amms: Seq<AMM>, values: Seq<AbiValue>)
    requires
        pool_records(values) is Some,
        pool_records(values).unwrap().len() == amms.len(),
    ensures
        registry_update_result(amms, values, ConversionPolicy::Abort) is Ok <==> forall|i: int|
            0 <= i < amms.len() ==> !conversion_failed(
                #[trigger] amms[i],
                pool_records(values).unwrap()[i],
            ),
{
    lemma_no_failures(amms, pool_records(values).unwrap(), amms.len());
}

/// Meeting the same record a second time changes nothing more.
pub proof fn lemma_entry_update_idempotent(entry: AMM, record: Seq<AbiValue>)
    ensures
        updated_entry(updated_entry(entry, record), record) == updated_entry(entry, record),
        conversion_failed(updated_entry(entry, record), record) == conversion_failed(entry, record),
{
}

proof fn lemma_failures_after_update(amms: Seq<AMM>, records: Seq<Seq<AbiValue>>, n: nat)
    requires
        n <= amms.len(),
        records.len() == amms.len(),
    ensures
        conversion_failures(updated_registry(amms, records), records, n) == conversion_failures(
            amms,
            records,
            n,
        ),
    decreases n,
{
    if n > 0 {
        lemma_failures_after_update(amms, records, (n - 1) as nat);
        lemma_entry_update_idempotent(amms[n - 1], records[n - 1]);
        law_update_keeps_identity(amms[n - 1], records[n - 1]);
    }
}

/// Updating a registry twice from the same values gives the registry, and
/// the outcome, that updating it once gives.
pub proof fn law_update_idempotent(amms: Seq<AMM>, values: Seq<AbiValue>, policy: ConversionPolicy)
    ensures
        registry_after_update(registry_after_update(amms, values, policy), values, policy)
            == registry_after_update(amms, values, policy),
        registry_update_result(registry_after_update(amms, values, policy), values, policy)
            == registry_update_result(amms, values, policy),
{
    if registry_update_result(amms, values, policy) is Ok {
        let records = pool_records(values).unwrap();
        let once = updated_registry(amms, records);
        assert forall|i: int| 0 <= i < amms.len() implies updated_entry(
            #[trigger] once[i],
            records[i],
        ) == once[i] by {
            lemma_entry_update_idempotent(amms[i], records[i]);
        }
        assert(updated_registry(once, records) =~= once);
        lemma_failures_after_update(amms, records, amms.len());
    }
}

/// A response with fewer records than the registry has entries is refused
/// with a `BoundsError`, and no entry is touched. A response with more
/// records than entries is refused likewise.
pub proof fn law_record_count_must_match(
    amms: Seq<AMM>,
    values: Seq<AbiValue>,
    policy: ConversionPolicy,
)
    requires
        pool_records(values) is Some,
        pool_records(values).unwrap().len() != amms.len(),
    ensures
        registry_update_result(amms, values, policy) is Err,
        registry_update_result(amms, values, policy)->Err_0 is BoundsError,
        registry_after_update(amms, values, policy) == amms,
{
}

/// Whenever an update ends in an error, the registry is exactly what it
/// was.
pub proof fn law_failed_update_touches_nothing(
    amms: Seq<AMM>,
    values: Seq<AbiValue>,
    policy: ConversionPolicy,
)
    requires
        registry_update_result(amms, values, policy) is Err,
    ensures
        registry_after_update(amms, values, policy) == amms,
{
}

} // verus!
