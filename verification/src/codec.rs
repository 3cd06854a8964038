//! Binary marshaling of call arguments and results.
//!
//! Values cross the boundary as byte sequences produced by the SCALE
//! codec: a `u32` is four little-endian bytes, a tuple is the
//! concatenation of its parts, and a unit value is empty.

use vstd::prelude::*;
use vstd::bytes::{lemma_auto_spec_u32_to_from_le_bytes, spec_u32_from_le_bytes, spec_u32_to_le_bytes};

verus! {

/// Shape of a method's declared input tuple: zero parameters decode as
/// unit, one parameter decodes directly, two or more decode as a tuple.
#[derive(Clone, Copy, Debug, PartialEq, Eq, Structural)]
pub enum InputShape {
    Unit,
    Single,
    Pair,
}

/// A decoded argument tuple.
#[derive(Clone, Copy, Debug, PartialEq, Eq, Structural)]
pub enum Args {
    Unit,
    Single(u32),
    Pair(u32, u32),
}

/// A value returned by a method handler.
#[derive(Clone, Copy, Debug, PartialEq, Eq, Structural)]
pub enum OutputValue {
    Unit,
    Word(u32),
}

/// The shape a parameter list of the given arity decodes at: zero
/// parameters as unit, one directly, two or more as a tuple.
pub open spec fn spec_shape_for_arity(arity: int) -> InputShape {
    if arity == 0 {
        InputShape::Unit
    } else if arity == 1 {
        InputShape::Single
    } else {
        InputShape::Pair
    }
}

/// The shape a declared parameter list of the given arity decodes at.
pub fn shape_for_arity(arity: usize) -> (r: InputShape)
    ensures
        r == spec_shape_for_arity(arity as int),
{
    if arity == 0 {
        InputShape::Unit
    } else if arity == 1 {
        InputShape::Single
    } else {
        InputShape::Pair
    }
}

/// The shape that an argument tuple decodes from.
pub open spec fn spec_shape_of(a: Args) -> InputShape {
    match a {
        Args::Unit => InputShape::Unit,
        Args::Single(_) => InputShape::Single,
        Args::Pair(_, _) => InputShape::Pair,
    }
}

/// The encoding of an argument tuple.
pub open spec fn spec_encode_args(a: Args) -> Seq<u8> {
    match a {
        Args::Unit => Seq::<u8>::empty(),
        Args::Single(x) => spec_u32_to_le_bytes(x),
        Args::Pair(x, y) => spec_u32_to_le_bytes(x) + spec_u32_to_le_bytes(y),
    }
}

/// The encoding of an output value.
pub open spec fn spec_encode_output(v: OutputValue) -> Seq<u8> {
    match v {
        OutputValue::Unit => Seq::<u8>::empty(),
        OutputValue::Word(x) => spec_u32_to_le_bytes(x),
    }
}

/// What decoding a buffer at a given shape yields. Decoding is not
/// bounds-checked against the buffer's full length: trailing bytes are
/// ignored, exactly as the underlying codec reads a prefix.
pub open spec fn spec_decode_args(shape: InputShape, b: Seq<u8>) -> Option<Args> {
    match shape {
        InputShape::Unit => Some(Args::Unit),
        InputShape::Single => if b.len() >= 4 {
            Some(Args::Single(spec_u32_from_le_bytes(b.subrange(0, 4))))
        } else {
            None
        },
        InputShape::Pair => if b.len() >= 8 {
            Some(
                Args::Pair(
                    spec_u32_from_le_bytes(b.subrange(0, 4)),
                    spec_u32_from_le_bytes(b.subrange(4, 8)),
                ),
            )
        } else {
            None
        },
    }
}

/// Relies on `parity_scale_codec::Encode` for `u32`: the encoding is the
/// value's four bytes in little-endian order.
#[verifier::external_body]
fn scale_encode_u32(x: u32) -> (r: Vec<u8>)
    ensures
        r@ == spec_u32_to_le_bytes(x),
{
    parity_scale_codec::Encode::encode(&x)
}

/// Relies on `parity_scale_codec::Encode` for `(u32, u32)`: the encoding
/// of a tuple is the concatenation of the encodings of its parts.
#[verifier::external_body]
fn scale_encode_u32_pair(x: u32, y: u32) -> (r: Vec<u8>)
    ensures
        r@ == spec_u32_to_le_bytes(x) + spec_u32_to_le_bytes(y),
{
    parity_scale_codec::Encode::encode(&(x, y))
}

/// Relies on `parity_scale_codec::Decode` for `u32`: reads the first four
/// bytes little-endian and fails when fewer remain.
#[verifier::external_body]
fn scale_decode_u32(bytes: &[u8]) -> (r: Option<u32>)
    ensures
        bytes@.len() >= 4 ==> r == Some(spec_u32_from_le_bytes(bytes@.subrange(0, 4))),
        bytes@.len() < 4 ==> r is None,
{
    let mut input: &[u8] = bytes;
    <u32 as parity_scale_codec::Decode>::decode(&mut input).ok()
}

/// Relies on `parity_scale_codec::Decode` for `(u32, u32)`: reads two
/// `u32` fields in order, eight bytes in all, and fails when fewer remain.
#[verifier::external_body]
fn scale_decode_u32_pair(bytes: &[u8]) -> (r: Option<(u32, u32)>)
    ensures
        bytes@.len() >= 8 ==> r == Some(
            (
                spec_u32_from_le_bytes(bytes@.subrange(0, 4)),
                spec_u32_from_le_bytes(bytes@.subrange(4, 8)),
            ),
        ),
        bytes@.len() < 8 ==> r is None,
{
    let mut input: &[u8] = bytes;
    <(u32, u32) as parity_scale_codec::Decode>::decode(&mut input).ok()
}

/// Encode an argument tuple for the wire.
pub fn encode_args(a: &Args) -> (r: Vec<u8>)
    ensures
        r@ == spec_encode_args(*a),
{
    match a {
        Args::Unit => Vec::new(),
        Args::Single(x) => scale_encode_u32(*x),
        Args::Pair(x, y) => scale_encode_u32_pair(*x, *y),
    }
}

/// Decode a buffer into the argument tuple of the given shape.
pub fn decode_args(shape: InputShape, bytes: &[u8]) -> (r: Option<Args>)
    ensures
        r == spec_decode_args(shape, bytes@),
{
    match shape {
        InputShape::Unit => Some(Args::Unit),
        InputShape::Single => match scale_decode_u32(bytes) {
            Some(x) => Some(Args::Single(x)),
            None => None,
        },
        InputShape::Pair => match scale_decode_u32_pair(bytes) {
            Some((x, y)) => Some(Args::Pair(x, y)),
            None => None,
        },
    }
}

/// Encode an output value for the response payload.
pub fn encode_output(v: &OutputValue) -> (r: Vec<u8>)
    ensures
        r@ == spec_encode_output(*v),
{
    match v {
        OutputValue::Unit => Vec::new(),
        OutputValue::Word(x) => scale_encode_u32(*x),
    }
}

/// Decode a single word from a response payload, as a guest-side call
/// stub does with a method's returned value.
pub fn decode_word(bytes: &[u8]) -> (r: Option<u32>)
    ensures
        bytes@.len() >= 4 ==> r == Some(spec_u32_from_le_bytes(bytes@.subrange(0, 4))),
        bytes@.len() < 4 ==> r is None,
{
    scale_decode_u32(bytes)
}

/// Decoding an encoded argument tuple at its own shape gives the tuple
/// back: the wire format is lossless for arguments.
pub proof fn lemma_args_round_trip(a: Args)
    ensures
        spec_decode_args(spec_shape_of(a), spec_encode_args(a)) == Some(a),
{
    lemma_auto_spec_u32_to_from_le_bytes();
    match a {
        Args::Unit => {},
        Args::Single(x) => {
            assert(spec_encode_args(a).subrange(0, 4) =~= spec_u32_to_le_bytes(x));
        },
        Args::Pair(x, y) => {
            assert(spec_encode_args(a).subrange(0, 4) =~= spec_u32_to_le_bytes(x));
            assert(spec_encode_args(a).subrange(4, 8) =~= spec_u32_to_le_bytes(y));
        },
    }
}

/// Decoding an encoded output word gives the word back: the wire format
/// is lossless for results.
pub proof fn lemma_output_round_trip(x: u32)
    ensures
        spec_u32_from_le_bytes(spec_encode_output(OutputValue::Word(x)).subrange(0, 4)) == x,
        spec_encode_output(OutputValue::Word(x)).len() == 4,
{
    lemma_auto_spec_u32_to_from_le_bytes();
    assert(spec_encode_output(OutputValue::Word(x)).subrange(0, 4) =~= spec_u32_to_le_bytes(x));
}

} // verus!
