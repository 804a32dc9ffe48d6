//! Serialization adapters: the enumeration serializes as a transparent
//! encoding of the raw type.
//!
//! Serializing converts the enumeration value to its raw value and hands it
//! to the raw serializer; deserializing reads a raw value back and
//! classifies it. The raw serializer here writes the value as eight bytes,
//! least significant first; its failure — a byte stream of the wrong length
//! for the raw type — propagates unchanged, with no validation layered on
//! top.

use vstd::prelude::*;
use crate::convert::{spec_from_raw, spec_to_raw, from_raw, to_raw, wf_value, EnumValue};
use crate::validate::{valid_model, Model, ModelView};

verus! {

/// The raw deserializer's failure: the byte stream does not hold exactly one
/// raw value.
#[derive(Debug, Clone, Copy, PartialEq, Eq, Structural)]
pub enum DeserializeError {
    WrongLength,
}

/// The bytes of a raw value, least significant first.
pub open spec fn spec_raw_bytes(x: i64) -> Seq<u8> {
    let u = x as u64;
    seq![
        (u & 0xff) as u8,
        ((u >> 8) & 0xff) as u8,
        ((u >> 16) & 0xff) as u8,
        ((u >> 24) & 0xff) as u8,
        ((u >> 32) & 0xff) as u8,
        ((u >> 40) & 0xff) as u8,
        ((u >> 48) & 0xff) as u8,
        ((u >> 56) & 0xff) as u8,
    ]
}

/// The raw value that eight bytes hold, least significant first.
pub open spec fn spec_raw_of_bytes(b: Seq<u8>) -> i64 {
    (((b[0] as u64) | ((b[1] as u64) << 8) | ((b[2] as u64) << 16) | ((b[3] as u64) << 24) | ((
    b[4] as u64) << 32) | ((b[5] as u64) << 40) | ((b[6] as u64) << 48) | ((b[7] as u64) << 56))
        as i64)
}

/// Reading a raw value's bytes back yields the value.
pub proof fn lemma_raw_bytes_round_trip(x: i64)
    ensures
        spec_raw_of_bytes(spec_raw_bytes(x)) == x,
{
    let u = x as u64;
    assert(((u & 0xff) | (((u >> 8) & 0xff) << 8) | (((u >> 16) & 0xff) << 16) | (((u >> 24)
        & 0xff) << 24) | (((u >> 32) & 0xff) << 32) | (((u >> 40) & 0xff) << 40) | (((u >> 48)
        & 0xff) << 48) | (((u >> 56) & 0xff) << 56)) == u) by (bit_vector);
    assert(((u & 0xff) as u8) as u64 == (u & 0xff)) by (bit_vector);
    assert((((u >> 8) & 0xff) as u8) as u64 == ((u >> 8) & 0xff)) by (bit_vector);
    assert((((u >> 16) & 0xff) as u8) as u64 == ((u >> 16) & 0xff)) by (bit_vector);
    assert((((u >> 24) & 0xff) as u8) as u64 == ((u >> 24) & 0xff)) by (bit_vector);
    assert((((u >> 32) & 0xff) as u8) as u64 == ((u >> 32) & 0xff)) by (bit_vector);
    assert((((u >> 40) & 0xff) as u8) as u64 == ((u >> 40) & 0xff)) by (bit_vector);
    assert((((u >> 48) & 0xff) as u8) as u64 == ((u >> 48) & 0xff)) by (bit_vector);
    assert((((u >> 56) & 0xff) as u8) as u64 == ((u >> 56) & 0xff)) by (bit_vector);
    assert((x as u64) as i64 == x) by (bit_vector);
}

/// Writes a raw value as its eight bytes, least significant first.
pub fn serialize_raw(x: i64) -> (b: Vec<u8>)
    ensures
        b@ == spec_raw_bytes(x),
{
    let u = x as u64;
    let mut b: Vec<u8> = Vec::new();
    b.push((u & 0xff) as u8);
    b.push(((u >> 8) & 0xff) as u8);
    b.push(((u >> 16) & 0xff) as u8);
    b.push(((u >> 24) & 0xff) as u8);
    b.push(((u >> 32) & 0xff) as u8);
    b.push(((u >> 40) & 0xff) as u8);
    b.push(((u >> 48) & 0xff) as u8);
    b.push(((u >> 56) & 0xff) as u8);
    proof {
        assert(b@ =~= spec_raw_bytes(x));
    }
    b
}

/// Reads a raw value off a byte stream: exactly eight bytes, least
/// significant first; anything else is the raw deserializer's failure.
pub fn deserialize_raw(b: &Vec<u8>) -> (r: Result<i64, DeserializeError>)
    ensures
        b@.len() == 8 ==> r == Ok::<i64, DeserializeError>(spec_raw_of_bytes(b@)),
        b@.len() != 8 ==> r == Err::<i64, DeserializeError>(DeserializeError::WrongLength),
{
    if b.len() != 8 {
        return Err(DeserializeError::WrongLength);
    }
    let u = (b[0] as u64) | ((b[1] as u64) << 8) | ((b[2] as u64) << 16) | ((b[3] as u64) << 24)
        | ((b[4] as u64) << 32) | ((b[5] as u64) << 40) | ((b[6] as u64) << 48) | ((b[7] as u64)
        << 56);
    Ok(u as i64)
}

/// What serializing an enumeration value yields: the bytes of its raw value.
pub open spec fn spec_serialize(m: ModelView, e: EnumValue) -> Seq<u8> {
    spec_raw_bytes(spec_to_raw(m, e))
}

/// What deserializing yields: the classification of the raw value the bytes
/// hold, or the raw deserializer's failure, propagated unchanged.
pub open spec fn spec_deserialize(m: ModelView, b: Seq<u8>) -> Result<
    EnumValue,
    DeserializeError,
> {
    if b.len() == 8 {
        Ok(spec_from_raw(m, spec_raw_of_bytes(b)))
    } else {
        Err(DeserializeError::WrongLength)
    }
}

/// Serializes an enumeration value by delegating to the raw serializer.
pub fn serialize(m: &Model, e: EnumValue) -> (b: Vec<u8>)
    requires
        valid_model(m@),
        wf_value(m@, e),
    ensures
        b@ == spec_serialize(m@, e),
{
    serialize_raw(to_raw(m, e))
}

/// Deserializes an enumeration value by reading a raw value and classifying
/// it; the raw deserializer's failure propagates unchanged.
pub fn deserialize(m: &Model, b: &Vec<u8>) -> (r: Result<EnumValue, DeserializeError>)
    ensures
        r == spec_deserialize(m@, b@),
        r matches Ok(e) ==> wf_value(m@, e),
{
    match deserialize_raw(b) {
        Ok(x) => Ok(from_raw(m, x)),
        Err(e) => Err(e),
    }
}

/// The serialization round trip: deserializing what an enumeration value
/// serializes to succeeds, and the value it yields converts to the same raw
/// value as the original.
pub proof fn lemma_serialization_round_trip(m: ModelView, e: EnumValue)
    requires
        valid_model(m),
        wf_value(m, e),
    ensures
        spec_deserialize(m, spec_serialize(m, e)) is Ok,
        spec_to_raw(m, spec_deserialize(m, spec_serialize(m, e))->Ok_0) == spec_to_raw(m, e),
{
    let x = spec_to_raw(m, e);
    lemma_raw_bytes_round_trip(x);
    crate::convert::lemma_raw_round_trip(m, x);
}

} // verus!
