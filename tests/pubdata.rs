use eth_watch::pubdata::{DecodeError, PriorityOpData, FULLEXIT_PUBDATA_LEN};

fn deposit_buffer(amount: u128) -> Vec<u8> {
    let mut buf = Vec::new();
    buf.extend_from_slice(&[0x11; 20]);
    buf.extend_from_slice(&0x0203u16.to_be_bytes());
    buf.extend_from_slice(&amount.to_be_bytes());
    buf.extend((0..27u8).map(|i| 0x40 + i));
    buf
}

#[test]
fn deposit_decodes_each_field() {
    let buf = deposit_buffer(1_000_000_000_000_000_000);
    match PriorityOpData::parse_pubdata(&buf, 1) {
        Ok(PriorityOpData::Deposit { sender, token, amount, account }) => {
            assert_eq!(sender, vec![0x11; 20]);
            assert_eq!(token, 0x0203);
            assert_eq!(amount, 1_000_000_000_000_000_000);
            assert_eq!(account, (0..27u8).map(|i| 0x40 + i).collect::<Vec<u8>>());
        }
        other => panic!("unexpected {:?}", other),
    }
}

#[test]
fn deposit_amount_keeps_all_128_bits() {
    for amount in [0u128, 1, u64::MAX as u128 + 1, u128::MAX] {
        let buf = deposit_buffer(amount);
        match PriorityOpData::parse_pubdata(&buf, 1) {
            Ok(PriorityOpData::Deposit { amount: got, .. }) => assert_eq!(got, amount),
            other => panic!("unexpected {:?}", other),
        }
    }
}

#[test]
fn deposit_ignores_trailing_bytes() {
    let mut buf = deposit_buffer(5);
    buf.extend_from_slice(&[0xff; 10]);
    assert!(matches!(
        PriorityOpData::parse_pubdata(&buf, 1),
        Ok(PriorityOpData::Deposit { amount: 5, .. })
    ));
}

#[test]
fn short_deposit_is_rejected() {
    let buf = deposit_buffer(5);
    assert_eq!(
        PriorityOpData::parse_pubdata(&buf[..64], 1),
        Err(DecodeError::ShortPubdata)
    );
    assert_eq!(PriorityOpData::parse_pubdata(&[], 1), Err(DecodeError::ShortPubdata));
}

#[test]
fn full_exit_reads_overlapping_ranges() {
    let buf: Vec<u8> = (0..FULLEXIT_PUBDATA_LEN as u8).collect();
    match PriorityOpData::parse_pubdata(&buf, 6) {
        Ok(PriorityOpData::FullExit { account_id, eth_address, token, signature }) => {
            assert_eq!(account_id, 0x0000_0102);
            assert_eq!(eth_address, (2..22u8).collect::<Vec<u8>>());
            assert_eq!(token, 0x1617);
            assert_eq!(signature, (24..88u8).collect::<Vec<u8>>());
        }
        other => panic!("unexpected {:?}", other),
    }
}

#[test]
fn full_exit_account_id_uses_three_bytes() {
    let mut buf = vec![0u8; 88];
    buf[0] = 0xff;
    buf[1] = 0xee;
    buf[2] = 0xdd;
    match PriorityOpData::parse_pubdata(&buf, 6) {
        Ok(PriorityOpData::FullExit { account_id, eth_address, .. }) => {
            assert_eq!(account_id, 0x00ff_eedd);
            assert_eq!(eth_address[0], 0xdd);
        }
        other => panic!("unexpected {:?}", other),
    }
}

#[test]
fn short_full_exit_is_rejected() {
    let buf = vec![0u8; 87];
    assert_eq!(PriorityOpData::parse_pubdata(&buf, 6), Err(DecodeError::ShortPubdata));
}

#[test]
fn unsupported_tags_fail() {
    let buf = vec![0u8; 100];
    for tag in [0u8, 2, 3, 4, 5, 7, 255] {
        assert_eq!(
            PriorityOpData::parse_pubdata(&buf, tag),
            Err(DecodeError::UnsupportedOperationType(tag))
        );
    }
}
