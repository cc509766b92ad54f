//! The two contract events that the watcher reads: a token registration and
//! a new priority request.
use vstd::prelude::*;

use crate::abi::{abi_decode, abi_decoded, AbiKind, AbiValue};
use crate::bytes::{be_value, read_be_u32, read_be_u64};
use crate::pubdata::{pubdata_decodes_to, DecodeError, PriorityOpData};

verus! {

/// A queued priority request.
#[derive(Debug, Clone, PartialEq, Eq)]
pub struct PriorityOp {
    pub data: PriorityOpData,
    /// Block height after which the request may be expired by its consumers.
    pub deadline_block: u64,
    /// Fee in the chain's smallest unit, as a 32-byte big-endian word.
    pub eth_fee: Vec<u8>,
}

/// A token registered with the governance contract.
#[derive(Debug, Clone, PartialEq, Eq)]
pub struct TokenAddedEvent {
    pub address: Vec<u8>,
    pub id: u32,
}

/// The 32-byte word `w` holds a value below `2^32`.
pub open spec fn word_fits_u32(w: Seq<u8>) -> bool {
    forall|i: int| 0 <= i < 28 ==> w[i] == 0
}

/// Parameter schema of `NewPriorityRequest`: tag, payload, deadline, fee.
pub open spec fn priority_request_kinds() -> Seq<AbiKind> {
    seq![AbiKind::Uint(8), AbiKind::Bytes, AbiKind::Uint(256), AbiKind::Uint(256)]
}

/// Parameter schema of `TokenAdded`: address, id.
pub open spec fn token_added_kinds() -> Seq<AbiKind> {
    seq![AbiKind::Address, AbiKind::Uint(32)]
}

/// `vals` has the shape of a decoded `NewPriorityRequest`.
pub open spec fn priority_values_shaped(vals: Seq<AbiValue>) -> bool {
    &&& vals.len() == 4
    &&& vals[0] is Uint && vals[0]->Uint_0@.len() == 32
    &&& vals[1] is Bytes
    &&& vals[2] is Uint && vals[2]->Uint_0@.len() == 32
    &&& vals[3] is Uint && vals[3]->Uint_0@.len() == 32
}

/// What building a priority operation from the decoded values `vals` gives:
/// the tag is the low byte of the first word, which must fit 32 bits; the
/// payload is decoded under that tag; the deadline is the low 64 bits of the
/// third word; the fee is the fourth word.
pub open spec fn priority_values_give(vals: Seq<AbiValue>, r: Result<PriorityOp, DecodeError>) -> bool {
    if !priority_values_shaped(vals) {
        r == Err::<PriorityOp, DecodeError>(DecodeError::MalformedLog)
    } else if !word_fits_u32(vals[0]->Uint_0@) {
        r == Err::<PriorityOp, DecodeError>(DecodeError::ValueOutOfRange)
    } else {
        let tag = vals[0]->Uint_0@[31];
        let payload = vals[1]->Bytes_0@;
        match r {
            Ok(op) => {
                &&& pubdata_decodes_to(payload, tag, Ok(op.data))
                &&& op.deadline_block as nat == be_value(vals[2]->Uint_0@.subrange(24, 32))
                &&& op.eth_fee@ == vals[3]->Uint_0@
            },
            Err(e) => pubdata_decodes_to(payload, tag, Err(e)),
        }
    }
}

/// What decoding the data of a `NewPriorityRequest` log gives.
pub open spec fn priority_log_gives(data: Seq<u8>, r: Result<PriorityOp, DecodeError>) -> bool {
    match abi_decoded(priority_request_kinds(), data) {
        None => r == Err::<PriorityOp, DecodeError>(DecodeError::MalformedLog),
        Some(vals) => priority_values_give(vals, r),
    }
}

/// What building a token registration from the decoded values `vals` gives.
pub open spec fn token_values_give(vals: Seq<AbiValue>, r: Result<TokenAddedEvent, DecodeError>) -> bool {
    if !(vals.len() == 2 && vals[0] is Address && vals[1] is Uint && vals[1]->Uint_0@.len() == 32) {
        r == Err::<TokenAddedEvent, DecodeError>(DecodeError::MalformedLog)
    } else if !word_fits_u32(vals[1]->Uint_0@) {
        r == Err::<TokenAddedEvent, DecodeError>(DecodeError::ValueOutOfRange)
    } else {
        &&& r is Ok
        &&& r->Ok_0.address@ == vals[0]->Address_0@
        &&& r->Ok_0.id as nat == be_value(vals[1]->Uint_0@.subrange(28, 32))
    }
}

/// What decoding the data of a `TokenAdded` log gives.
pub open spec fn token_log_gives(data: Seq<u8>, r: Result<TokenAddedEvent, DecodeError>) -> bool {
    match abi_decoded(token_added_kinds(), data) {
        None => r == Err::<TokenAddedEvent, DecodeError>(DecodeError::MalformedLog),
        Some(vals) => token_values_give(vals, r),
    }
}

/// Tests that the first 28 bytes of a 32-byte word are zero.
fn word_fits_u32_exec(w: &Vec<u8>) -> (r: bool)
    requires
        w@.len() == 32,
    ensures
        r == word_fits_u32(w@),
{
    let mut i: usize = 0;
    while i < 28
        invariant
            i <= 28,
            w@.len() == 32,
            forall|j: int| 0 <= j < i ==> w@[j] == 0,
        decreases 28 - i,
    {
        if w[i] != 0 {
            return false;
        }
        i = i + 1;
    }
    true
}

impl PriorityOp {
    /// Builds a priority operation from the decoded `NewPriorityRequest` values.
    pub fn from_values(vals: &Vec<AbiValue>) -> (r: Result<PriorityOp, DecodeError>)
        ensures
            priority_values_give(vals@, r),
    {
        if vals.len() != 4 {
            return Err(DecodeError::MalformedLog);
        }
        let (tag_word, payload, deadline_word, fee_word) = match (&vals[0], &vals[1], &vals[2], &vals[3]) {
            (AbiValue::Uint(a), AbiValue::Bytes(b), AbiValue::Uint(c), AbiValue::Uint(d)) => (a, b, c, d),
            _ => {
                return Err(DecodeError::MalformedLog);
            },
        };
        if tag_word.len() != 32 || deadline_word.len() != 32 || fee_word.len() != 32 {
            return Err(DecodeError::MalformedLog);
        }
        if !word_fits_u32_exec(tag_word) {
            return Err(DecodeError::ValueOutOfRange);
        }
        let data = PriorityOpData::parse_pubdata(payload.as_slice(), tag_word[31])?;
        let deadline_block = read_be_u64(deadline_word.as_slice(), 24);
        Ok(PriorityOp { data, deadline_block, eth_fee: fee_word.clone() })
    }

    /// Decodes the data of a `NewPriorityRequest` log.
    pub fn try_from(log_data: &Vec<u8>) -> (r: Result<PriorityOp, DecodeError>)
        ensures
            priority_log_gives(log_data@, r),
    {
        let mut kinds: Vec<AbiKind> = Vec::new();
        kinds.push(AbiKind::Uint(8));
        kinds.push(AbiKind::Bytes);
        kinds.push(AbiKind::Uint(256));
        kinds.push(AbiKind::Uint(256));
        assert(kinds@ =~= priority_request_kinds());
        match abi_decode(&kinds, log_data) {
            None => Err(DecodeError::MalformedLog),
            Some(vals) => PriorityOp::from_values(&vals),
        }
    }
}

impl TokenAddedEvent {
    /// Builds a token registration from the decoded `TokenAdded` values.
    pub fn from_values(vals: &Vec<AbiValue>) -> (r: Result<TokenAddedEvent, DecodeError>)
        ensures
            token_values_give(vals@, r),
    {
        if vals.len() != 2 {
            return Err(DecodeError::MalformedLog);
        }
        let (address, id_word) = match (&vals[0], &vals[1]) {
            (AbiValue::Address(a), AbiValue::Uint(w)) => (a, w),
            _ => {
                return Err(DecodeError::MalformedLog);
            },
        };
        if id_word.len() != 32 {
            return Err(DecodeError::MalformedLog);
        }
        if !word_fits_u32_exec(id_word) {
            return Err(DecodeError::ValueOutOfRange);
        }
        let id = read_be_u32(id_word.as_slice(), 28, 4);
        Ok(TokenAddedEvent { address: address.clone(), id })
    }

    /// Decodes the data of a `TokenAdded` log.
    pub fn try_from(log_data: &Vec<u8>) -> (r: Result<TokenAddedEvent, DecodeError>)
        ensures
            token_log_gives(log_data@, r),
    {
        let mut kinds: Vec<AbiKind> = Vec::new();
        kinds.push(AbiKind::Address);
        kinds.push(AbiKind::Uint(32));
        assert(kinds@ =~= token_added_kinds());
        match abi_decode(&kinds, log_data) {
            None => Err(DecodeError::MalformedLog),
            Some(vals) => TokenAddedEvent::from_values(&vals),
        }
    }
}

/// `ops` are the priority operations decoded, one for one, from the logs `logs`.
pub open spec fn priority_logs_decoded(logs: Seq<Vec<u8>>, ops: Seq<PriorityOp>) -> bool {
    &&& ops.len() == logs.len()
    &&& forall|i: int| 0 <= i < logs.len() ==> priority_log_gives(#[trigger] logs[i]@, Ok(ops[i]))
}

/// `evs` are the token registrations decoded, one for one, from the logs `logs`.
pub open spec fn token_logs_decoded(logs: Seq<Vec<u8>>, evs: Seq<TokenAddedEvent>) -> bool {
    &&& evs.len() == logs.len()
    &&& forall|i: int| 0 <= i < logs.len() ==> token_log_gives(#[trigger] logs[i]@, Ok(evs[i]))
}

/// Decodes the data of each `NewPriorityRequest` log in order; the first
/// failure fails the whole batch.
pub fn decode_priority_logs(logs: &Vec<Vec<u8>>) -> (r: Result<Vec<PriorityOp>, DecodeError>)
    ensures
        r is Ok ==> priority_logs_decoded(logs@, r->Ok_0@),
        r is Err ==> exists|i: int|
            0 <= i < logs@.len() && priority_log_gives(#[trigger] logs@[i]@, Err(r->Err_0)),
{
    let mut out: Vec<PriorityOp> = Vec::new();
    let mut i: usize = 0;
    while i < logs.len()
        invariant
            i <= logs@.len(),
            priority_logs_decoded(logs@.subrange(0, i as int), out@),
        decreases logs@.len() - i,
    {
        match PriorityOp::try_from(&logs[i]) {
            Ok(op) => {
                out.push(op);
            },
            Err(e) => {
                return Err(e);
            },
        }
        i = i + 1;
        assert(priority_logs_decoded(logs@.subrange(0, i as int), out@)) by {
            assert forall|j: int| 0 <= j < i implies priority_log_gives(
                #[trigger] logs@.subrange(0, i as int)[j]@,
                Ok(out@[j]),
            ) by {
                if j < i - 1 {
                    assert(logs@.subrange(0, i as int)[j] == logs@.subrange(0, i - 1)[j]);
                }
            }
        }
    }
    assert(logs@.subrange(0, logs@.len() as int) =~= logs@);
    Ok(out)
}

/// Decodes the data of each `TokenAdded` log in order; the first failure
/// fails the whole batch.
pub fn decode_token_logs(logs: &Vec<Vec<u8>>) -> (r: Result<Vec<TokenAddedEvent>, DecodeError>)
    ensures
        r is Ok ==> token_logs_decoded(logs@, r->Ok_0@),
        r is Err ==> exists|i: int|
            0 <= i < logs@.len() && token_log_gives(#[trigger] logs@[i]@, Err(r->Err_0)),
{
    let mut out: Vec<TokenAddedEvent> = Vec::new();
    let mut i: usize = 0;
    while i < logs.len()
        invariant
            i <= logs@.len(),
            token_logs_decoded(logs@.subrange(0, i as int), out@),
        decreases logs@.len() - i,
    {
        match TokenAddedEvent::try_from(&logs[i]) {
            Ok(ev) => {
                out.push(ev);
            },
            Err(e) => {
                return Err(e);
            },
        }
        i = i + 1;
        assert(token_logs_decoded(logs@.subrange(0, i as int), out@)) by {
            assert forall|j: int| 0 <= j < i implies token_log_gives(
                #[trigger] logs@.subrange(0, i as int)[j]@,
                Ok(out@[j]),
            ) by {
                if j < i - 1 {
                    assert(logs@.subrange(0, i as int)[j] == logs@.subrange(0, i - 1)[j]);
                }
            }
        }
    }
    assert(logs@.subrange(0, logs@.len() as int) =~= logs@);
    Ok(out)
}

} // verus!
