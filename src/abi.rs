//! Contract-ABI decoding of event data, done by `ethabi`.
use vstd::prelude::*;

verus! {

/// A parameter type of an event's data schema.
#[derive(Debug, Clone, Copy, PartialEq, Eq, Structural)]
pub enum AbiKind {
    Address,
    /// An unsigned integer of the given bit width.
    Uint(usize),
    Bytes,
}

/// A decoded parameter value, as plain bytes.
#[derive(Debug, Clone, PartialEq, Eq)]
pub enum AbiValue {
    /// The 20 address bytes.
    Address(Vec<u8>),
    /// The integer as a 32-byte big-endian word.
    Uint(Vec<u8>),
    Bytes(Vec<u8>),
    /// A value of a kind that no schema here asks for.
    Other,
}

/// What `ethabi::decode` gives for `data` under the schema `kinds`, or `None`
/// where it reports an error.
pub uninterp spec fn abi_decoded(kinds: Seq<AbiKind>, data: Seq<u8>) -> Option<Seq<AbiValue>>;

/// Each value has the shape of the kind at its position.
pub open spec fn values_match_kinds(kinds: Seq<AbiKind>, vals: Seq<AbiValue>) -> bool {
    &&& vals.len() == kinds.len()
    &&& forall|i: int|
        0 <= i < kinds.len() ==> match #[trigger] kinds[i] {
            AbiKind::Address => vals[i] is Address && vals[i]->Address_0@.len() == 20,
            AbiKind::Uint(_) => vals[i] is Uint && vals[i]->Uint_0@.len() == 32,
            AbiKind::Bytes => vals[i] is Bytes,
        }
}

/// Relies on `ethabi::decode`: one token per schema entry, of that entry's
/// kind, an address as its 20 bytes and an integer as a 32-byte word.
#[verifier::external_body]
pub(crate) fn abi_decode(kinds: &Vec<AbiKind>, data: &Vec<u8>) -> (r: Option<Vec<AbiValue>>)
    ensures
        r is Some <==> abi_decoded(kinds@, data@) is Some,
        r is Some ==> r->Some_0@ == abi_decoded(kinds@, data@)->Some_0,
        r is Some ==> values_match_kinds(kinds@, r->Some_0@),
{
    let types: Vec<ethabi::ParamType> = kinds.iter().map(|k| match k {
        AbiKind::Address => ethabi::ParamType::Address,
        AbiKind::Uint(n) => ethabi::ParamType::Uint(*n),
        AbiKind::Bytes => ethabi::ParamType::Bytes,
    }).collect();
    let tokens = ethabi::decode(&types, data).ok()?;
    Some(tokens.into_iter().map(|t| match t {
        ethabi::Token::Address(a) => AbiValue::Address(a.as_bytes().to_vec()),
        ethabi::Token::Uint(u) => AbiValue::Uint(<[u8; 32]>::from(u).to_vec()),
        ethabi::Token::Bytes(b) => AbiValue::Bytes(b),
        _ => AbiValue::Other,
    }).collect())
}

} // verus!
