use obce::codec::{
    decode_args, decode_word, encode_args, encode_output, shape_for_arity, Args, InputShape,
    OutputValue,
};

#[test]
fn shape_follows_arity_classes() {
    assert_eq!(shape_for_arity(0), InputShape::Unit);
    assert_eq!(shape_for_arity(1), InputShape::Single);
    assert_eq!(shape_for_arity(2), InputShape::Pair);
    assert_eq!(shape_for_arity(5), InputShape::Pair);
}

#[test]
fn encode_args_matches_scale() {
    assert_eq!(
        encode_args(&Args::Pair(100, 200)),
        parity_scale_codec::Encode::encode(&(100u32, 200u32))
    );
    assert_eq!(
        encode_args(&Args::Single(0xDEAD_BEEF)),
        parity_scale_codec::Encode::encode(&0xDEAD_BEEFu32)
    );
    assert_eq!(encode_args(&Args::Unit), Vec::<u8>::new());
}

#[test]
fn encode_args_is_little_endian() {
    assert_eq!(encode_args(&Args::Single(300)), vec![44, 1, 0, 0]);
    assert_eq!(
        encode_args(&Args::Pair(1, 256)),
        vec![1, 0, 0, 0, 0, 1, 0, 0]
    );
}

#[test]
fn decode_args_round_trips() {
    for args in [Args::Unit, Args::Single(7), Args::Pair(100, 200), Args::Pair(0, u32::MAX)] {
        let shape = match args {
            Args::Unit => InputShape::Unit,
            Args::Single(_) => InputShape::Single,
            Args::Pair(_, _) => InputShape::Pair,
        };
        assert_eq!(decode_args(shape, &encode_args(&args)), Some(args));
    }
}

#[test]
fn decode_args_rejects_short_buffers() {
    assert_eq!(decode_args(InputShape::Single, &[1, 2, 3]), None);
    assert_eq!(decode_args(InputShape::Pair, &[1, 2, 3, 4, 5, 6, 7]), None);
    assert_eq!(decode_args(InputShape::Pair, &[]), None);
}

#[test]
fn decode_args_ignores_trailing_bytes() {
    let mut bytes = encode_args(&Args::Single(5));
    bytes.extend_from_slice(&[9, 9, 9]);
    assert_eq!(decode_args(InputShape::Single, &bytes), Some(Args::Single(5)));
    assert_eq!(decode_args(InputShape::Unit, &bytes), Some(Args::Unit));
}

#[test]
fn output_round_trips_through_wire() {
    let payload = encode_output(&OutputValue::Word(300));
    assert_eq!(payload.len(), 4);
    assert_eq!(decode_word(&payload), Some(300));
    assert_eq!(encode_output(&OutputValue::Unit), Vec::<u8>::new());
    assert_eq!(decode_word(&[1, 2]), None);
}
