use eth_watch::events::{decode_priority_logs, decode_token_logs, PriorityOp, TokenAddedEvent};
use eth_watch::pubdata::{DecodeError, PriorityOpData};
use ethabi::{Token, Uint};

fn token_added_data(address: [u8; 20], id: u64) -> Vec<u8> {
    ethabi::encode(&[
        Token::Address(ethabi::Address::from_slice(&address)),
        Token::Uint(Uint::from(id)),
    ])
}

fn priority_request_data(tag: u64, pubdata: Vec<u8>, deadline: Uint, fee: Uint) -> Vec<u8> {
    ethabi::encode(&[
        Token::Uint(Uint::from(tag)),
        Token::Bytes(pubdata),
        Token::Uint(deadline),
        Token::Uint(fee),
    ])
}

fn deposit_pubdata() -> Vec<u8> {
    let mut buf = vec![0x22; 20];
    buf.extend_from_slice(&7u16.to_be_bytes());
    buf.extend_from_slice(&500u128.to_be_bytes());
    buf.extend_from_slice(&[0x33; 27]);
    buf
}

fn word(u: Uint) -> Vec<u8> {
    let mut w = [0u8; 32];
    u.to_big_endian(&mut w);
    w.to_vec()
}

#[test]
fn token_added_log_decodes() {
    let ev = TokenAddedEvent::try_from(&token_added_data([0xaa; 20], 3)).unwrap();
    assert_eq!(ev.address, vec![0xaa; 20]);
    assert_eq!(ev.id, 3);
}

#[test]
fn token_added_id_over_32_bits_is_rejected() {
    let data = token_added_data([0xaa; 20], 1 << 32);
    assert_eq!(TokenAddedEvent::try_from(&data), Err(DecodeError::ValueOutOfRange));
}

#[test]
fn malformed_log_data_is_rejected() {
    assert_eq!(TokenAddedEvent::try_from(&vec![]), Err(DecodeError::MalformedLog));
    assert_eq!(TokenAddedEvent::try_from(&vec![0u8; 33]), Err(DecodeError::MalformedLog));
    assert_eq!(PriorityOp::try_from(&vec![0u8; 31]), Err(DecodeError::MalformedLog));
}

#[test]
fn priority_request_log_decodes_deposit() {
    let mut fee_bytes = [0u8; 32];
    fee_bytes[3] = 0x12;
    fee_bytes[31] = 0x07;
    let fee = Uint::from_big_endian(&fee_bytes);
    let data = priority_request_data(1, deposit_pubdata(), Uint::from(200u64), fee);
    let op = PriorityOp::try_from(&data).unwrap();
    assert_eq!(op.deadline_block, 200);
    assert_eq!(op.eth_fee, word(fee));
    assert_eq!(
        op.data,
        PriorityOpData::Deposit {
            sender: vec![0x22; 20],
            token: 7,
            amount: 500,
            account: vec![0x33; 27],
        }
    );
}

#[test]
fn priority_deadline_is_cut_to_64_bits() {
    let mut deadline_bytes = [0u8; 32];
    deadline_bytes[23] = 1;
    deadline_bytes[31] = 9;
    let deadline = Uint::from_big_endian(&deadline_bytes);
    let data = priority_request_data(1, deposit_pubdata(), deadline, Uint::from(0u64));
    assert_eq!(PriorityOp::try_from(&data).unwrap().deadline_block, 9);
}

#[test]
fn priority_request_with_unknown_tag_fails() {
    let data = priority_request_data(2, deposit_pubdata(), Uint::from(1u64), Uint::from(1u64));
    assert_eq!(PriorityOp::try_from(&data), Err(DecodeError::UnsupportedOperationType(2)));
}

#[test]
fn priority_request_tag_uses_low_byte() {
    let data = priority_request_data(0x101, deposit_pubdata(), Uint::from(1u64), Uint::from(1u64));
    assert!(matches!(
        PriorityOp::try_from(&data).unwrap().data,
        PriorityOpData::Deposit { .. }
    ));
    let data = priority_request_data(1 << 40, deposit_pubdata(), Uint::from(1u64), Uint::from(1u64));
    assert_eq!(PriorityOp::try_from(&data), Err(DecodeError::ValueOutOfRange));
}

#[test]
fn priority_request_with_short_payload_fails() {
    let data = priority_request_data(6, vec![0u8; 40], Uint::from(1u64), Uint::from(1u64));
    assert_eq!(PriorityOp::try_from(&data), Err(DecodeError::ShortPubdata));
}

#[test]
fn batch_decoding_keeps_order_and_stops_at_failure() {
    let logs = vec![token_added_data([1; 20], 1), token_added_data([2; 20], 2)];
    let evs = decode_token_logs(&logs).unwrap();
    assert_eq!(evs.iter().map(|e| e.id).collect::<Vec<_>>(), vec![1, 2]);
    let bad = vec![token_added_data([1; 20], 1), vec![1, 2, 3]];
    assert_eq!(decode_token_logs(&bad), Err(DecodeError::MalformedLog));
    let ops = vec![priority_request_data(3, vec![], Uint::from(1u64), Uint::from(1u64))];
    assert_eq!(
        decode_priority_logs(&ops),
        Err(DecodeError::UnsupportedOperationType(3))
    );
    assert_eq!(decode_priority_logs(&vec![]), Ok(vec![]));
}
