use tonic_rpc::codec::{
    codec_round_trip, decode, encode, BincodeSerdeCodec, CborSerdeCodec, Codec, CodecKind,
    JsonSerdeCodec, MessagePackSerdeCodec, Scalar, WirePlain, WireValue,
};

fn all_kinds() -> Vec<CodecKind> {
    vec![CodecKind::Json, CodecKind::Bincode, CodecKind::Cbor, CodecKind::MessagePack]
}

fn representative_values() -> Vec<WireValue> {
    vec![
        WireValue::Single(Scalar::Unit),
        WireValue::Single(Scalar::Bool(true)),
        WireValue::Single(Scalar::Bool(false)),
        WireValue::Single(Scalar::Int(0)),
        WireValue::Single(Scalar::Int(i64::MIN)),
        WireValue::Single(Scalar::Int(i64::MAX)),
        WireValue::Single(Scalar::UInt(0)),
        WireValue::Single(Scalar::UInt(u64::MAX)),
        WireValue::Single(Scalar::Text(String::new())),
        WireValue::Single(Scalar::Text("hello world".to_string())),
        WireValue::Single(Scalar::Text("snowman \u{2603} and \"quotes\"".to_string())),
        WireValue::Tuple(vec![Scalar::Int(42), Scalar::Int(35)]),
        WireValue::Tuple(vec![
            Scalar::Text("foo".to_string()),
            Scalar::UInt(7),
            Scalar::Bool(true),
        ]),
        WireValue::Variant("Overflow".to_string(), None),
        WireValue::Variant("Incremented".to_string(), Some(Scalar::Int(6))),
    ]
}

#[test]
fn round_trip_all_strategies() {
    for kind in all_kinds() {
        for v in representative_values() {
            let back = codec_round_trip(kind, &v);
            assert_eq!(v, back);
        }
    }
}

#[test]
fn round_trip_through_encode_decode() {
    for kind in all_kinds() {
        for v in representative_values() {
            let bytes = encode(kind, &v).expect("encoding never fails");
            let back = decode(kind, &bytes).expect("decoding an encoding succeeds");
            assert_eq!(v, back);
        }
    }
}

#[test]
fn distinct_values_encode_distinctly() {
    for kind in all_kinds() {
        let a = encode(kind, &WireValue::Single(Scalar::Int(5))).unwrap();
        let b = encode(kind, &WireValue::Single(Scalar::Int(6))).unwrap();
        assert_ne!(a, b);
    }
}

fn plain_of_int(x: i64) -> WirePlain {
    (
        0u32,
        (2u32, false, x, 0u64, String::new()),
        Vec::new(),
        String::new(),
    )
}

#[test]
fn json_bytes_match_the_format_library() {
    let ours = encode(CodecKind::Json, &WireValue::Single(Scalar::Int(5))).unwrap();
    let theirs = serde_json::to_vec(&plain_of_int(5)).unwrap();
    assert_eq!(ours, theirs);
}

#[test]
fn bincode_bytes_match_the_format_library() {
    let ours = encode(CodecKind::Bincode, &WireValue::Single(Scalar::Int(5))).unwrap();
    let theirs = bincode::serialize(&plain_of_int(5)).unwrap();
    assert_eq!(ours, theirs);
}

#[test]
fn cbor_bytes_match_the_format_library() {
    let ours = encode(CodecKind::Cbor, &WireValue::Single(Scalar::Int(5))).unwrap();
    let theirs = serde_cbor::to_vec(&plain_of_int(5)).unwrap();
    assert_eq!(ours, theirs);
}

#[test]
fn message_pack_bytes_match_the_format_library() {
    let ours = encode(CodecKind::MessagePack, &WireValue::Single(Scalar::Int(5))).unwrap();
    let theirs = rmp_serde::to_vec(&plain_of_int(5)).unwrap();
    assert_eq!(ours, theirs);
}

#[test]
fn codec_pairs_round_trip() {
    for kind in all_kinds() {
        let codec = Codec::new(kind);
        let v = WireValue::Tuple(vec![Scalar::Int(42), Scalar::Text("x".to_string())]);
        let bytes = codec.encoder().encode(&v).unwrap();
        assert_eq!(Ok(Some(v)), codec.decoder().decode(&bytes));
    }
}

#[test]
fn strategy_write_read_round_trips() {
    let v = WireValue::Variant("Incremented".to_string(), Some(Scalar::Int(6)));
    assert_eq!(Ok(v.clone()), JsonSerdeCodec::read(&JsonSerdeCodec::write(&v).unwrap()));
    assert_eq!(Ok(v.clone()), BincodeSerdeCodec::read(&BincodeSerdeCodec::write(&v).unwrap()));
    assert_eq!(Ok(v.clone()), CborSerdeCodec::read(&CborSerdeCodec::write(&v).unwrap()));
    assert_eq!(
        Ok(v.clone()),
        MessagePackSerdeCodec::read(&MessagePackSerdeCodec::write(&v).unwrap())
    );
}

#[test]
fn fixed_text_codec_round_trips() {
    let codec = tonic_rpc::json_codec::Codec::default();
    let v = WireValue::Single(Scalar::Text("hello".to_string()));
    let bytes = codec.encoder().encode(&v).unwrap();
    assert_eq!(Ok(Some(v)), codec.decoder().decode(&bytes));
}

#[test]
fn decoding_garbage_reports_a_decode_failure() {
    for kind in all_kinds() {
        let garbage: Vec<u8> = vec![0x7b, 0x00, 0xff];
        match decode(kind, &garbage) {
            Err(e) => {
                assert!(!e.diagnostic().is_empty());
            }
            Ok(v) => panic!("garbage decoded to {:?}", v),
        }
    }
}
