//! The fixed-offset binary payloads carried by priority requests.
use vstd::prelude::*;

use crate::bytes::{be_value, copy_range, read_be, read_be_u16, read_be_u32};

verus! {

/// Operation-type tag of a deposit.
pub const DEPOSIT_OPTYPE_ID: u8 = 1;

/// Operation-type tag of a forced exit.
pub const FULLEXIT_OPTYPE_ID: u8 = 6;

/// Length of a layer-2 account address.
pub const ACCOUNT_ADDRESS_LEN: usize = 27;

/// Bytes a deposit payload needs: sender, token, amount, account address.
pub const DEPOSIT_PUBDATA_LEN: usize = 65;

/// Bytes a forced-exit payload needs: account id, address, token, signature.
pub const FULLEXIT_PUBDATA_LEN: usize = 88;

/// Length of a forced-exit signature.
pub const SIGNATURE_LEN: usize = 64;

/// Why a log or a payload could not be decoded.
#[derive(Debug, Clone, Copy, PartialEq, Eq, Structural)]
pub enum DecodeError {
    /// The payload's operation-type tag is neither a deposit nor a forced exit.
    UnsupportedOperationType(u8),
    /// The payload is shorter than its operation type's layout.
    ShortPubdata,
    /// The log data does not match the event's parameter schema.
    MalformedLog,
    /// A decoded integer does not fit the width that the event gives it.
    ValueOutOfRange,
}

/// What a priority request asks for.
#[derive(Debug, Clone, PartialEq, Eq)]
pub enum PriorityOpData {
    Deposit { sender: Vec<u8>, token: u16, amount: u128, account: Vec<u8> },
    FullExit { account_id: u32, eth_address: Vec<u8>, token: u16, signature: Vec<u8> },
}

/// `op` is the deposit laid out in `data`: sender `[0,20)`, token `[20,22)`,
/// amount `[22,38)`, account address `[38,65)`.
pub open spec fn is_deposit_of(data: Seq<u8>, op: PriorityOpData) -> bool {
    match op {
        PriorityOpData::Deposit { sender, token, amount, account } => {
            &&& sender@ == data.subrange(0, 20)
            &&& token as nat == be_value(data.subrange(20, 22))
            &&& amount as nat == be_value(data.subrange(22, 38))
            &&& account@ == data.subrange(38, 65)
        },
        _ => false,
    }
}

/// `op` is the forced exit laid out in `data`: account id `[0,3)`, address
/// `[2,22)` (the two ranges share byte 2), token `[22,24)`, signature `[24,88)`.
pub open spec fn is_full_exit_of(data: Seq<u8>, op: PriorityOpData) -> bool {
    match op {
        PriorityOpData::FullExit { account_id, eth_address, token, signature } => {
            &&& account_id as nat == be_value(data.subrange(0, 3))
            &&& eth_address@ == data.subrange(2, 22)
            &&& token as nat == be_value(data.subrange(22, 24))
            &&& signature@ == data.subrange(24, 88)
        },
        _ => false,
    }
}

/// What decoding `data` under tag `op_type_id` gives.
pub open spec fn pubdata_decodes_to(
    data: Seq<u8>,
    op_type_id: u8,
    r: Result<PriorityOpData, DecodeError>,
) -> bool {
    if op_type_id == DEPOSIT_OPTYPE_ID {
        if data.len() >= DEPOSIT_PUBDATA_LEN {
            r is Ok && is_deposit_of(data, r->Ok_0)
        } else {
            r == Err::<PriorityOpData, DecodeError>(DecodeError::ShortPubdata)
        }
    } else if op_type_id == FULLEXIT_OPTYPE_ID {
        if data.len() >= FULLEXIT_PUBDATA_LEN {
            r is Ok && is_full_exit_of(data, r->Ok_0)
        } else {
            r == Err::<PriorityOpData, DecodeError>(DecodeError::ShortPubdata)
        }
    } else {
        r == Err::<PriorityOpData, DecodeError>(DecodeError::UnsupportedOperationType(op_type_id))
    }
}

impl PriorityOpData {
    /// Decodes the payload `pub_data` of a priority request with tag `op_type_id`.
    pub fn parse_pubdata(pub_data: &[u8], op_type_id: u8) -> (r: Result<Self, DecodeError>)
        ensures
            pubdata_decodes_to(pub_data@, op_type_id, r),
    {
        if op_type_id == DEPOSIT_OPTYPE_ID {
            if pub_data.len() < DEPOSIT_PUBDATA_LEN {
                return Err(DecodeError::ShortPubdata);
            }
            let sender = copy_range(pub_data, 0, 20);
            let token = read_be_u16(pub_data, 20);
            let amount = read_be(pub_data, 22, 16);
            let account = copy_range(pub_data, 38, ACCOUNT_ADDRESS_LEN);
            Ok(PriorityOpData::Deposit { sender, token, amount, account })
        } else if op_type_id == FULLEXIT_OPTYPE_ID {
            if pub_data.len() < FULLEXIT_PUBDATA_LEN {
                return Err(DecodeError::ShortPubdata);
            }
            let account_id = read_be_u32(pub_data, 0, 3);
            let eth_address = copy_range(pub_data, 2, 20);
            let token = read_be_u16(pub_data, 22);
            let signature = copy_range(pub_data, 24, SIGNATURE_LEN);
            Ok(PriorityOpData::FullExit { account_id, eth_address, token, signature })
        } else {
            Err(DecodeError::UnsupportedOperationType(op_type_id))
        }
    }
}

} // verus!
