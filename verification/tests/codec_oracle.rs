//! Byte-exactness of the wire codec, held against parity-scale-codec.

use chain_extension_bridge::codec::FieldType;
use chain_extension_bridge::codec::Value;
use chain_extension_bridge::codec::decode_field;
use chain_extension_bridge::codec::decode_compact;
use chain_extension_bridge::codec::encode_to_vec;

use parity_scale_codec::Compact;
use parity_scale_codec::Decode;
use parity_scale_codec::Encode;

#[test]
fn fixed_width_integers_match_oracle() {
    assert_eq!(encode_to_vec(&Value::U8(0xAB)), 0xABu8.encode());
    assert_eq!(encode_to_vec(&Value::U16(0xBEEF)), 0xBEEFu16.encode());
    assert_eq!(encode_to_vec(&Value::U32(0xDEAD_BEEF)), 0xDEAD_BEEFu32.encode());
    assert_eq!(
        encode_to_vec(&Value::U64(0x0123_4567_89AB_CDEF)),
        0x0123_4567_89AB_CDEFu64.encode()
    );
    assert_eq!(
        encode_to_vec(&Value::U128(0x0123_4567_89AB_CDEF_0011_2233_4455_6677)),
        0x0123_4567_89AB_CDEF_0011_2233_4455_6677u128.encode()
    );
    assert_eq!(encode_to_vec(&Value::Bool(true)), true.encode());
    assert_eq!(encode_to_vec(&Value::Bool(false)), false.encode());
}

#[test]
fn fixed_width_integers_decode_oracle_bytes() {
    let bytes = 0xDEAD_BEEFu32.encode();
    let (v, end) = decode_field(&FieldType::U32, &bytes, 0).unwrap();
    assert_eq!(v, Value::U32(0xDEAD_BEEF));
    assert_eq!(end, 4);

    let bytes = 0x0123_4567_89AB_CDEFu64.encode();
    let (v, end) = decode_field(&FieldType::U64, &bytes, 0).unwrap();
    assert_eq!(v, Value::U64(0x0123_4567_89AB_CDEF));
    assert_eq!(end, 8);
}

#[test]
fn compact_matches_oracle_at_every_width_boundary() {
    for n in [
        0u32,
        1,
        63,
        64,
        65,
        16_383,
        16_384,
        16_385,
        0x3FFF_FFFF,
        0x4000_0000,
        0x4000_0001,
        u32::MAX,
    ] {
        let ours = encode_to_vec(&Value::Compact(n));
        let oracle = Compact(n).encode();
        assert_eq!(ours, oracle, "compact encoding of {n}");

        let (decoded, end) = decode_compact(&oracle, 0).unwrap();
        assert_eq!(decoded, n, "compact decoding of {n}");
        assert_eq!(end, oracle.len());

        let oracle_decoded = Compact::<u32>::decode(&mut &ours[..]).unwrap();
        assert_eq!(oracle_decoded.0, n);
    }
}

#[test]
fn compact_rejects_non_minimal_encodings_like_oracle() {
    // 1 encoded in the two-byte width: rejected by both decoders.
    let non_minimal = vec![0b0000_0101u8, 0x00];
    assert!(decode_compact(&non_minimal, 0).is_none());
    assert!(Compact::<u32>::decode(&mut &non_minimal[..]).is_err());
}

#[test]
fn option_matches_oracle() {
    let absent: Option<u32> = None;
    let present: Option<u32> = Some(7);
    assert_eq!(encode_to_vec(&Value::OptionVal(None)), absent.encode());
    assert_eq!(
        encode_to_vec(&Value::OptionVal(Some(Box::new(Value::U32(7))))),
        present.encode()
    );

    let shape = FieldType::OptionOf(Box::new(FieldType::U32));
    let (v, end) = decode_field(&shape, &present.encode(), 0).unwrap();
    assert_eq!(v, Value::OptionVal(Some(Box::new(Value::U32(7)))));
    assert_eq!(end, 5);

    let (v, end) = decode_field(&shape, &absent.encode(), 0).unwrap();
    assert_eq!(v, Value::OptionVal(None));
    assert_eq!(end, 1);

    // A presence flag other than 0 or 1 is rejected.
    assert!(decode_field(&shape, &vec![2u8, 7, 0, 0, 0], 0).is_none());
}

#[test]
fn sequences_match_oracle() {
    let items: Vec<u32> = vec![10, 20, 30];
    let ours = encode_to_vec(&Value::List(vec![
        Value::U32(10),
        Value::U32(20),
        Value::U32(30),
    ]));
    assert_eq!(ours, items.encode());

    let shape = FieldType::ListOf(Box::new(FieldType::U32));
    let (v, end) = decode_field(&shape, &items.encode(), 0).unwrap();
    assert_eq!(
        v,
        Value::List(vec![Value::U32(10), Value::U32(20), Value::U32(30)])
    );
    assert_eq!(end, items.encode().len());
}

#[test]
fn byte_strings_match_oracle_and_respect_bounds() {
    let bytes: Vec<u8> = vec![1, 2, 3, 4, 5];
    let ours = encode_to_vec(&Value::Bytes(bytes.clone()));
    assert_eq!(ours, bytes.encode());

    let (v, end) = decode_field(&FieldType::Bytes(8), &bytes.encode(), 0).unwrap();
    assert_eq!(v, Value::Bytes(bytes.clone()));
    assert_eq!(end, 6);

    // The same input under a tighter bound is rejected as oversized.
    assert!(decode_field(&FieldType::Bytes(4), &bytes.encode(), 0).is_none());
}

#[test]
fn addresses_are_raw_bytes() {
    let addr: Vec<u8> = (0u8..32).collect();
    assert_eq!(encode_to_vec(&Value::Address(addr.clone())), addr);
    let (v, end) = decode_field(&FieldType::Address, &addr, 0).unwrap();
    assert_eq!(v, Value::Address(addr));
    assert_eq!(end, 32);
}

#[test]
fn unit_encodes_to_nothing() {
    assert_eq!(encode_to_vec(&Value::Unit), Vec::<u8>::new());
}

#[test]
fn truncated_input_never_decodes() {
    // Every strict prefix of a valid field fails, for several field types.
    let cases: Vec<(FieldType, Vec<u8>)> = vec![
        (FieldType::U32, 7u32.encode()),
        (FieldType::U64, 7u64.encode()),
        (FieldType::Compact, Compact(16_384u32).encode()),
        (FieldType::Bytes(16), vec![9u8, 9, 9].encode()),
        (
            FieldType::ListOf(Box::new(FieldType::U32)),
            vec![1u32, 2, 3].encode(),
        ),
        (
            FieldType::OptionOf(Box::new(FieldType::U32)),
            Some(5u32).encode(),
        ),
        (FieldType::Address, (0u8..32).collect()),
    ];
    for (shape, bytes) in cases {
        assert!(decode_field(&shape, &bytes, 0).is_some());
        for cut in 0..bytes.len() {
            let prefix: Vec<u8> = bytes[..cut].to_vec();
            assert!(
                decode_field(&shape, &prefix, 0).is_none(),
                "prefix of length {cut} decoded under {shape:?}"
            );
        }
    }
}

#[test]
fn bool_rejects_other_bytes_like_oracle() {
    let bad = vec![2u8];
    assert!(decode_field(&FieldType::Bool, &bad, 0).is_none());
    assert!(bool::decode(&mut &bad[..]).is_err());
}
