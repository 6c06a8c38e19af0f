//! Contract call data as typed values, and its decoding.
//!
//! `AbiType` describes the shape of a value and `AbiValue` holds one. Decoding
//! itself is done by the `ethers` crate; this module states what the rest of
//! the crate relies on and converts between the two crates' types.

use vstd::prelude::*;
use ethers::abi::{ParamType, Token};
use crate::primitives::{H160, U256};

verus! {

/// The shape of one value in contract call data.
#[derive(Debug, PartialEq, Eq)]
pub enum AbiType {
    /// A 20-byte address.
    Address,
    /// A byte string of any length.
    Bytes,
    /// A signed integer of the given bit width.
    Int(usize),
    /// An unsigned integer of the given bit width.
    Uint(usize),
    /// A boolean.
    Bool,
    /// A text string.
    String,
    /// An array of any length.
    Array(Box<AbiType>),
    /// A byte string of the given length.
    FixedBytes(usize),
    /// An array of the given length.
    FixedArray(Box<AbiType>, usize),
    /// A tuple of values, each with its own shape.
    Tuple(Vec<AbiType>),
}

/// The mathematical form of an `AbiType`: the same shapes, with unbounded
/// widths and lengths and with sequences in place of vectors.
pub enum AbiKind {
    /// A 20-byte address.
    Address,
    /// A byte string of any length.
    Bytes,
    /// A signed integer of the given bit width.
    Int(nat),
    /// An unsigned integer of the given bit width.
    Uint(nat),
    /// A boolean.
    Bool,
    /// A text string.
    String,
    /// An array of any length.
    Array(Box<AbiKind>),
    /// A byte string of the given length.
    FixedBytes(nat),
    /// An array of the given length.
    FixedArray(Box<AbiKind>, nat),
    /// A tuple of values, each with its own shape.
    Tuple(Seq<AbiKind>),
}

impl AbiType {
    /// The shape that this type describes.
    pub open spec fn kind(self) -> AbiKind
        decreases self,
    {
        match self {
            AbiType::Address => AbiKind::Address,
            AbiType::Bytes => AbiKind::Bytes,
            AbiType::Int(bits) => AbiKind::Int(bits as nat),
            AbiType::Uint(bits) => AbiKind::Uint(bits as nat),
            AbiType::Bool => AbiKind::Bool,
            AbiType::String => AbiKind::String,
            AbiType::Array(element) => AbiKind::Array(Box::new(element.kind())),
            AbiType::FixedBytes(len) => AbiKind::FixedBytes(len as nat),
            AbiType::FixedArray(element, len) => AbiKind::FixedArray(
                Box::new(element.kind()),
                len as nat,
            ),
            AbiType::Tuple(fields) => AbiKind::Tuple(kinds(fields@)),
        }
    }
}

/// The shapes that a list of types describes, in order.
pub open spec fn kinds(types: Seq<AbiType>) -> Seq<AbiKind>
    decreases types,
{
    Seq::new(
        types.len(),
        |i: int|
            if 0 <= i < types.len() {
                types[i].kind()
            } else {
                AbiKind::Bool
            },
    )
}

/// Whether a value of this shape occupies exactly one 32-byte word that is
/// read without interpretation.
pub open spec fn is_word_kind(kind: AbiKind) -> bool {
    kind is Address || kind is Int || kind is Uint
}

/// Whether the shapes are those of a single array of records, each record a
/// non-empty tuple of plain words.
pub open spec fn is_record_array(kinds: Seq<AbiKind>) -> bool {
    &&& kinds.len() == 1
    &&& kinds[0] matches AbiKind::Array(element)
    &&& *element matches AbiKind::Tuple(fields)
    &&& fields.len() > 0
    &&& forall|i: int| 0 <= i < fields.len() ==> is_word_kind(#[trigger] fields[i])
}

/// One value of contract call data.
///
/// Integers are kept as the raw 256-bit word that carried them, whatever
/// width their type declares.
#[derive(Debug, PartialEq, Eq)]
pub enum AbiValue {
    /// A 20-byte address.
    Address(H160),
    /// A byte string of fixed length.
    FixedBytes(Vec<u8>),
    /// A byte string.
    Bytes(Vec<u8>),
    /// A signed integer, as its two's-complement word.
    Int(U256),
    /// An unsigned integer.
    Uint(U256),
    /// A boolean.
    Bool(bool),
    /// A text string.
    String(String),
    /// An array of fixed length.
    FixedArray(Vec<AbiValue>),
    /// An array.
    Array(Vec<AbiValue>),
    /// A tuple.
    Tuple(Vec<AbiValue>),
}

impl AbiValue {
    /// The address, if the value is one.
    pub open spec fn spec_as_address(self) -> Option<H160> {
        match self {
            AbiValue::Address(address) => Some(address),
            _ => None,
        }
    }

    /// The word, if the value is an unsigned integer.
    pub open spec fn spec_as_uint(self) -> Option<U256> {
        match self {
            AbiValue::Uint(word) => Some(word),
            _ => None,
        }
    }

    /// The word, if the value is a signed integer.
    pub open spec fn spec_as_int(self) -> Option<U256> {
        match self {
            AbiValue::Int(word) => Some(word),
            _ => None,
        }
    }

    /// The elements, if the value is an array of any length.
    pub open spec fn spec_as_array(self) -> Option<Seq<AbiValue>> {
        match self {
            AbiValue::Array(elements) => Some(elements@),
            _ => None,
        }
    }

    /// The fields, if the value is a tuple.
    pub open spec fn spec_as_tuple(self) -> Option<Seq<AbiValue>> {
        match self {
            AbiValue::Tuple(fields) => Some(fields@),
            _ => None,
        }
    }

    /// The address, if the value is one.
    pub fn as_address(&self) -> (r: Option<H160>)
        ensures
            r == self.spec_as_address(),
    {
        match self {
            AbiValue::Address(address) => Some(*address),
            _ => None,
        }
    }

    /// The word, if the value is an unsigned integer.
    pub fn as_uint(&self) -> (r: Option<U256>)
        ensures
            r == self.spec_as_uint(),
    {
        match self {
            AbiValue::Uint(word) => Some(*word),
            _ => None,
        }
    }

    /// The word, if the value is a signed integer.
    pub fn as_int(&self) -> (r: Option<U256>)
        ensures
            r == self.spec_as_int(),
    {
        match self {
            AbiValue::Int(word) => Some(*word),
            _ => None,
        }
    }

    /// The elements, if the value is an array of any length.
    pub fn as_array(&self) -> (r: Option<&Vec<AbiValue>>)
        ensures
            match r {
                Some(elements) => self.spec_as_array() == Some(elements@),
                None => self.spec_as_array() is None,
            },
    {
        match self {
            AbiValue::Array(elements) => Some(elements),
            _ => None,
        }
    }

    /// The fields, if the value is a tuple.
    pub fn as_tuple(&self) -> (r: Option<&Vec<AbiValue>>)
        ensures
            match r {
                Some(fields) => self.spec_as_tuple() == Some(fields@),
                None => self.spec_as_tuple() is None,
            },
    {
        match self {
            AbiValue::Tuple(fields) => Some(fields),
            _ => None,
        }
    }
}

/// `ethers::abi::Token`, the decoder's own form of a value. Nothing is known
/// of what a value of it holds.
#[verifier::external_type_specification]
#[verifier::external_body]
pub struct ExToken(ethers::abi::Token);

/// `ethers::abi::ParamType`, the decoder's own form of a type. Nothing is
/// known of what a value of it holds.
#[verifier::external_type_specification]
#[verifier::external_body]
pub struct ExParamType(ethers::abi::ParamType);

/// `ethers::abi::Error`, the decoder's account of why it failed. Nothing is
/// known of what a value of it holds.
#[verifier::external_type_specification]
#[verifier::external_body]
pub struct ExError(ethers::abi::Error);

/// What `ethers::abi::decode` makes of `data` when asked for values of the
/// shapes `kinds`: the values, or `None` where it reports an error.
pub uninterp spec fn abi_decoded(kinds: Seq<AbiKind>, data: Seq<u8>) -> Option<Seq<AbiValue>>;

/// Rebuilds a value of `ethers::abi::Token` as an `AbiValue`, variant by
/// variant. Nothing is claimed of the result.
#[verifier::external_body]
fn value_of_token(token: Token) -> AbiValue {
    match token {
        Token::Address(a) => AbiValue::Address(H160(a.0)),
        Token::FixedBytes(b) => AbiValue::FixedBytes(b),
        Token::Bytes(b) => AbiValue::Bytes(b),
        Token::Int(i) => AbiValue::Int(U256(i.0)),
        Token::Uint(u) => AbiValue::Uint(U256(u.0)),
        Token::Bool(b) => AbiValue::Bool(b),
        Token::String(s) => AbiValue::String(s),
        Token::FixedArray(v) => AbiValue::FixedArray(values_of_tokens(v)),
        Token::Array(v) => AbiValue::Array(values_of_tokens(v)),
        Token::Tuple(v) => AbiValue::Tuple(values_of_tokens(v)),
    }
}

/// Rebuilds a list of `ethers::abi::Token` as a list of `AbiValue`, element
/// by element and in order. Nothing is claimed of the result.
#[verifier::external_body]
fn values_of_tokens(tokens: Vec<Token>) -> Vec<AbiValue> {
    tokens.into_iter().map(value_of_token).collect()
}

/// Rebuilds an `AbiType` as a value of `ethers::abi::ParamType`, variant by
/// variant. Nothing is claimed of the result.
#[verifier::external_body]
fn param_type_of(ty: &AbiType) -> ParamType {
    match ty {
        AbiType::Address => ParamType::Address,
        AbiType::Bytes => ParamType::Bytes,
        AbiType::Int(n) => ParamType::Int(*n),
        AbiType::Uint(n) => ParamType::Uint(*n),
        AbiType::Bool => ParamType::Bool,
        AbiType::String => ParamType::String,
        AbiType::Array(t) => ParamType::Array(Box::new(param_type_of(t))),
        AbiType::FixedBytes(n) => ParamType::FixedBytes(*n),
        AbiType::FixedArray(t, n) => ParamType::FixedArray(Box::new(param_type_of(t)), *n),
        AbiType::Tuple(ts) => ParamType::Tuple(ts.iter().map(param_type_of).collect()),
    }
}

/// Calls `ethers::abi::decode` on `data` with the types `types`.
///
/// The contract claims that the outcome depends on the shapes and the bytes
/// alone, and gives it the name `abi_decoded`. The call is confined to
/// arrays of records of plain words, on machines whose `usize` is wider than
/// the 32-bit offsets that call data can name: there the decoder reads
/// within bounds and its offset arithmetic cannot overflow.
#[verifier::external_body]
pub(crate) fn decode(types: &Vec<AbiType>, data: &[u8]) -> (r: Result<
    Vec<AbiValue>,
    ethers::abi::Error,
>)
    requires
        usize::MAX > u32::MAX,
        is_record_array(kinds(types@)),
    ensures
        match r {
            Ok(values) => abi_decoded(kinds(types@), data@) == Some(values@),
            Err(_) => abi_decoded(kinds(types@), data@) is None,
        },
{
    let outside: Vec<ParamType> = types.iter().map(param_type_of).collect();
    match ethers::abi::decode(&outside, data) {
        Ok(tokens) => Ok(values_of_tokens(tokens)),
        Err(e) => Err(e),
    }
}

} // verus!
