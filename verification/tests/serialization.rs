use valenum::ast::ValEnum;
use valenum::codec::{deserialize, deserialize_raw, serialize, serialize_raw, DeserializeError};
use valenum::convert::{from_raw, to_raw, EnumValue};
use valenum::validate::{validate, Model};

fn sample_model() -> Model {
    let schema = ValEnum::parse(
        "enum Sample { Zero = 0, One = 1, Two = 2, Other(i64), }",
    )
    .expect("schema text matches the grammar");
    validate(schema).expect("schema is structurally sound")
}

#[test]
fn raw_codec_round_trips() {
    for v in [0i64, 1, -1, 255, 256, -4096, i64::MAX, i64::MIN, 123456789] {
        let b = serialize_raw(v);
        assert_eq!(b.len(), 8);
        assert_eq!(deserialize_raw(&b), Ok(v));
    }
}

#[test]
fn raw_codec_writes_little_endian() {
    let b = serialize_raw(0x0102030405060708);
    assert_eq!(b, vec![8, 7, 6, 5, 4, 3, 2, 1]);
}

#[test]
fn serialization_round_trips_unit_variants() {
    let m = sample_model();
    for i in 0..3usize {
        let e = EnumValue::Unit { index: i };
        let b = serialize(&m, e);
        let e2 = deserialize(&m, &b).expect("eight bytes deserialize");
        assert_eq!(to_raw(&m, e2), to_raw(&m, e));
        assert_eq!(e2, e);
    }
}

#[test]
fn serialization_round_trips_catch_all() {
    let m = sample_model();
    let e = EnumValue::CatchAll { value: 977 };
    let b = serialize(&m, e);
    let e2 = deserialize(&m, &b).expect("eight bytes deserialize");
    assert_eq!(to_raw(&m, e2), 977);
    assert_eq!(e2, e);
}

#[test]
fn serialization_reclassifies_shadowed_catch_all() {
    // a catch-all deliberately carrying a declared literal comes back as the
    // matching unit variant; the raw value is still preserved
    let m = sample_model();
    let e = EnumValue::CatchAll { value: 1 };
    let b = serialize(&m, e);
    let e2 = deserialize(&m, &b).expect("eight bytes deserialize");
    assert_eq!(e2, EnumValue::Unit { index: 1 });
    assert_eq!(to_raw(&m, e2), to_raw(&m, e));
}

#[test]
fn wrong_length_fails_deserialization() {
    let m = sample_model();
    let short = vec![1u8, 2, 3];
    assert_eq!(deserialize(&m, &short), Err(DeserializeError::WrongLength));
    let long = vec![0u8; 9];
    assert_eq!(deserialize(&m, &long), Err(DeserializeError::WrongLength));
    assert_eq!(deserialize_raw(&short), Err(DeserializeError::WrongLength));
}

#[test]
fn deserialize_classifies_like_from_raw() {
    let m = sample_model();
    for v in [0i64, 1, 2, 3, -9, 500] {
        let b = serialize_raw(v);
        let e = deserialize(&m, &b).expect("eight bytes deserialize");
        assert_eq!(e, from_raw(&m, v));
    }
}
