use op_tx_type::{DecodeError, OpTxType, TypeError, DEPOSIT_TX_TYPE_ID};

#[test]
fn test_all_tx_types() {
    assert_eq!(OpTxType::all().len(), 5);
    let all = vec![
        OpTxType::Legacy,
        OpTxType::Eip2930,
        OpTxType::Eip1559,
        OpTxType::Eip7702,
        OpTxType::Deposit,
    ];
    assert_eq!(OpTxType::all(), all);
}

#[test]
fn tx_type_roundtrip() {
    for &tx_type in &OpTxType::all() {
        let mut buf = Vec::new();
        tx_type.encode(&mut buf);
        let decoded = OpTxType::decode(&mut &buf[..]).unwrap();
        assert_eq!(tx_type, decoded);
    }
}

#[test]
fn to_u8_from_u8_bijection() {
    for b in [0u8, 1, 2, 4, 126] {
        let t = OpTxType::from_u8(b).unwrap();
        assert_eq!(t.to_u8(), b);
    }
    for b in 0u8..=255 {
        let known = matches!(b, 0 | 1 | 2 | 4 | 126);
        match OpTxType::from_u8(b) {
            Ok(t) => {
                assert!(known);
                assert_eq!(t.to_u8(), b);
            }
            Err(TypeError::UnexpectedType(e)) => {
                assert!(!known);
                assert_eq!(e, b);
            }
        }
    }
}

#[test]
fn from_u8_variants() {
    assert_eq!(OpTxType::from_u8(0), Ok(OpTxType::Legacy));
    assert_eq!(OpTxType::from_u8(1), Ok(OpTxType::Eip2930));
    assert_eq!(OpTxType::from_u8(2), Ok(OpTxType::Eip1559));
    assert_eq!(OpTxType::from_u8(4), Ok(OpTxType::Eip7702));
    assert_eq!(OpTxType::from_u8(126), Ok(OpTxType::Deposit));
    assert_eq!(OpTxType::from_u8(3), Err(TypeError::UnexpectedType(3)));
    assert_eq!(OpTxType::from_u8(5), Err(TypeError::UnexpectedType(5)));
    assert_eq!(OpTxType::from_u8(255), Err(TypeError::UnexpectedType(255)));
}

#[test]
fn from_u64_boundaries() {
    assert_eq!(OpTxType::from_u64(4), Ok(OpTxType::Eip7702));
    assert_eq!(OpTxType::from_u64(126), Ok(OpTxType::Deposit));
    assert_eq!(OpTxType::from_u64(256), Err("invalid tx type"));
    assert_eq!(OpTxType::from_u64(3), Err("invalid tx type"));
    assert_eq!(OpTxType::from_u64(u64::MAX), Err("invalid tx type"));
}

#[test]
fn ordering_follows_codes() {
    assert!(OpTxType::Legacy < OpTxType::Eip2930);
    assert!(OpTxType::Eip2930 < OpTxType::Eip1559);
    assert!(OpTxType::Eip1559 < OpTxType::Eip7702);
    assert!(OpTxType::Eip7702 < OpTxType::Deposit);
    assert!(!(OpTxType::Deposit < OpTxType::Legacy));
    assert!(OpTxType::Deposit <= OpTxType::Deposit);
}

#[test]
fn cross_type_equality() {
    assert!(OpTxType::Legacy == 0u8);
    assert!(0u8 == OpTxType::Legacy);
    assert!(OpTxType::Deposit == 126u8);
    assert!(126u8 == OpTxType::Deposit);
    assert!(OpTxType::Legacy != 1u8);
    assert!(1u8 != OpTxType::Legacy);
    assert!(OpTxType::Eip7702 == 4u8);
}

#[test]
fn deposit_predicate() {
    assert!(OpTxType::Deposit.is_deposit());
    assert!(!OpTxType::Legacy.is_deposit());
    assert!(!OpTxType::Eip2930.is_deposit());
    assert!(!OpTxType::Eip1559.is_deposit());
    assert!(!OpTxType::Eip7702.is_deposit());
}

#[test]
fn membership_predicate() {
    assert!(!OpTxType::is_known_type(3));
    assert!(OpTxType::is_known_type(126));
    assert!(!OpTxType::is_known_type(255));
    assert!(OpTxType::is_known_type(0));
    assert!(OpTxType::is_known_type(1));
    assert!(OpTxType::is_known_type(2));
    assert!(OpTxType::is_known_type(4));
    assert!(!OpTxType::is_known_type(5));
    assert!(!OpTxType::is_known_type(125));
    assert!(!OpTxType::is_known_type(127));
}

#[test]
fn encoded_length_is_one() {
    for &t in &OpTxType::all() {
        assert_eq!(t.length(), 1);
        let mut buf = Vec::new();
        t.encode(&mut buf);
        assert_eq!(buf.len(), 1);
        assert_eq!(buf[0], t.to_u8());
    }
}

#[test]
fn encode_deposit_end_to_end() {
    let mut buf = Vec::new();
    OpTxType::Deposit.encode(&mut buf);
    assert_eq!(buf, vec![0x7E]);

    let bytes = [0x7Eu8, 0xFF];
    let mut cursor: &[u8] = &bytes;
    let decoded = OpTxType::decode(&mut cursor).unwrap();
    assert_eq!(decoded, OpTxType::Deposit);
    assert_eq!(cursor, &[0xFFu8][..]);
}

#[test]
fn decode_errors() {
    let mut empty: &[u8] = &[];
    assert_eq!(OpTxType::decode(&mut empty), Err(DecodeError::InputTooShort));
    assert!(empty.is_empty());

    let bytes = [3u8, 9];
    let mut cursor: &[u8] = &bytes;
    assert_eq!(
        OpTxType::decode(&mut cursor),
        Err(DecodeError::InvalidTransactionType)
    );
    assert_eq!(cursor, &[9u8][..]);
}

#[test]
fn default_is_legacy() {
    assert_eq!(OpTxType::default(), OpTxType::Legacy);
}

#[test]
fn widening_conversions() {
    assert_eq!(u8::from(OpTxType::Legacy), 0);
    assert_eq!(u8::from(OpTxType::Eip2930), 1);
    assert_eq!(u8::from(OpTxType::Eip1559), 2);
    assert_eq!(u8::from(OpTxType::Eip7702), 4);
    assert_eq!(u8::from(OpTxType::Deposit), 126);
    assert_eq!(OpTxType::Deposit.ty(), 126);
    assert_eq!(DEPOSIT_TX_TYPE_ID, 126);
    assert_eq!(OpTxType::Deposit, DEPOSIT_TX_TYPE_ID);
}

#[test]
fn display_tokens() {
    assert_eq!(OpTxType::Legacy.as_str(), "legacy");
    assert_eq!(OpTxType::Eip2930.as_str(), "eip2930");
    assert_eq!(OpTxType::Eip1559.as_str(), "eip1559");
    assert_eq!(OpTxType::Eip7702.as_str(), "eip7702");
    assert_eq!(OpTxType::Deposit.as_str(), "deposit");
}
