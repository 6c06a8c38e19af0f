//! The fixed layout of the data that a batch read returns.

use vstd::prelude::*;
use crate::abi::{kinds, AbiKind, AbiType, AbiValue};

verus! {

/// The fields of one pool record, in wire order: first asset and its decimals,
/// second asset and its decimals, liquidity, square-root price, tick, tick
/// spacing, fee, and the net liquidity at the current tick.
pub open spec fn pool_record_kinds() -> Seq<AbiKind> {
    seq![
        AbiKind::Address,
        AbiKind::Uint(8),
        AbiKind::Address,
        AbiKind::Uint(8),
        AbiKind::Uint(128),
        AbiKind::Uint(160),
        AbiKind::Int(24),
        AbiKind::Int(24),
        AbiKind::Uint(24),
        AbiKind::Int(128),
    ]
}

/// The shape of a whole response: one array of pool records.
pub open spec fn pool_data_kinds() -> Seq<AbiKind> {
    seq![AbiKind::Array(Box::new(AbiKind::Tuple(pool_record_kinds())))]
}

/// The types to decode a response with.
pub fn pool_data_schema() -> (types: Vec<AbiType>)
    ensures
        kinds(types@) == pool_data_kinds(),
{
    let mut fields: Vec<AbiType> = Vec::new();
    fields.push(AbiType::Address);
    fields.push(AbiType::Uint(8));
    fields.push(AbiType::Address);
    fields.push(AbiType::Uint(8));
    fields.push(AbiType::Uint(128));
    fields.push(AbiType::Uint(160));
    fields.push(AbiType::Int(24));
    fields.push(AbiType::Int(24));
    fields.push(AbiType::Uint(24));
    fields.push(AbiType::Int(128));
    assert(kinds(fields@) =~= pool_record_kinds());
    let record = AbiType::Tuple(fields);
    assert(record.kind() == AbiKind::Tuple(pool_record_kinds()));
    let array = AbiType::Array(Box::new(record));
    assert(array.kind() == AbiKind::Array(Box::new(AbiKind::Tuple(pool_record_kinds()))));
    let mut types: Vec<AbiType> = Vec::new();
    types.push(array);
    assert(kinds(types@) =~= pool_data_kinds());
    types
}

/// Whether every element is a tuple.
pub open spec fn all_tuples(elements: Seq<AbiValue>) -> bool {
    forall|i: int| 0 <= i < elements.len() ==> (#[trigger] elements[i]).spec_as_tuple() is Some
}

/// The fields of each element, in order.
pub open spec fn tuples_of(elements: Seq<AbiValue>) -> Seq<Seq<AbiValue>> {
    Seq::new(elements.len(), |i: int| elements[i].spec_as_tuple().unwrap())
}

/// The records that decoded values hold: the values must be a single array,
/// and each of its elements a tuple, whose fields make one record. `None` for
/// values of any other shape.
pub open spec fn pool_records(values: Seq<AbiValue>) -> Option<Seq<Seq<AbiValue>>> {
    if values.len() == 1 {
        match values[0].spec_as_array() {
            Some(elements) => if all_tuples(elements) {
                Some(tuples_of(elements))
            } else {
                None
            },
            None => None,
        }
    } else {
        None
    }
}

/// The array whose elements are the records, if the values have that shape.
pub fn record_elements(values: &Vec<AbiValue>) -> (r: Option<&Vec<AbiValue>>)
    ensures
        match r {
            Some(elements) => all_tuples(elements@) && pool_records(values@) == Some(
                tuples_of(elements@),
            ),
            None => pool_records(values@) is None,
        },
{
    if values.len() != 1 {
        return None;
    }
    let elements = match values[0].as_array() {
        Some(elements) => elements,
        None => return None,
    };
    let mut i: usize = 0;
    while i < elements.len()
        invariant
            i <= elements.len(),
            values@.len() == 1,
            values@[0].spec_as_array() == Some(elements@),
            forall|j: int| 0 <= j < i ==> (#[trigger] elements@[j]).spec_as_tuple() is Some,
        decreases elements.len() - i,
    {
        match elements[i].as_tuple() {
            Some(_) => {},
            None => {
                assert(elements@[i as int].spec_as_tuple() is None);
                return None;
            },
        }
        i += 1;
    }
    Some(elements)
}

} // verus!
