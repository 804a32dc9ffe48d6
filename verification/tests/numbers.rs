use valenum::ast::ValEnum;
use valenum::convert::{from_raw, to_raw, EnumValue};
use valenum::validate::{validate, Model};

fn model_of(text: &str) -> Model {
    let schema = ValEnum::parse(text).expect("schema text matches the grammar");
    validate(schema).expect("schema is structurally sound")
}

fn region_model() -> Model {
    model_of(
        "#[derive(Debug, PartialEq, Eq)]\n\
         pub(crate) enum Region {\n\
             Europe = 0,\n\
             NorthAmerica = 1,\n\
             SouthAmerica = 2,\n\
             Asia = 3,\n\
             Other(i32),\n\
         }",
    )
}

fn country_model() -> Model {
    model_of(
        "#[derive(Debug, PartialEq, Eq)]\n\
         pub enum Country {\n\
             Afghanistan = 0,\n\
             Albania = 1,\n\
             Algeria = 2,\n\
             Andorra = 3,\n\
             Angola = 4,\n\
             Unknown { country_id: i32 },\n\
         }",
    )
}

#[test]
fn regions() {
    let m = region_model();
    let raw_region1 = 0;
    let raw_region2 = 9;
    let region1 = EnumValue::Unit { index: 0 };
    let region2 = EnumValue::CatchAll { value: 9 };
    assert_eq!(raw_region1, to_raw(&m, region1));
    assert_eq!(raw_region2, to_raw(&m, region2));
    assert_eq!(from_raw(&m, raw_region1), region1);
    assert_eq!(from_raw(&m, raw_region2), region2);
}

#[test]
fn countries() {
    let m = country_model();
    let raw_country1 = 1;
    let raw_country2 = 10;
    let country1 = EnumValue::Unit { index: 1 };
    let country2 = EnumValue::CatchAll { value: 10 };
    assert_eq!(raw_country1, to_raw(&m, country1));
    assert_eq!(raw_country2, to_raw(&m, country2));
    assert_eq!(from_raw(&m, raw_country1), country1);
    assert_eq!(from_raw(&m, raw_country2), country2);
}

#[test]
fn regions_all_literals() {
    let m = region_model();
    for i in 0..4usize {
        let e = EnumValue::Unit { index: i };
        assert_eq!(to_raw(&m, e), i as i64);
        assert_eq!(from_raw(&m, i as i64), e);
    }
}

#[test]
fn regions_catch_all_values() {
    let m = region_model();
    for v in [-3i64, 4, 100, 7777] {
        assert_eq!(from_raw(&m, v), EnumValue::CatchAll { value: v });
        assert_eq!(to_raw(&m, EnumValue::CatchAll { value: v }), v);
    }
}

#[test]
fn raw_round_trip_samples() {
    let m = country_model();
    for v in [-10i64, 0, 1, 2, 3, 4, 5, 42, 1_000_000] {
        let e = from_raw(&m, v);
        assert_eq!(to_raw(&m, e), v);
    }
}

#[test]
fn duplicate_literal_first_declared_wins() {
    let m = model_of("enum Twice { First = 1, Second = 1, Rest(i64), }");
    assert_eq!(from_raw(&m, 1), EnumValue::Unit { index: 0 });
    assert_eq!(to_raw(&m, EnumValue::Unit { index: 0 }), 1);
    assert_eq!(to_raw(&m, EnumValue::Unit { index: 1 }), 1);
}

#[test]
fn negative_literal() {
    let m = model_of("enum Signed { Minus = -5, Rest(i64), }");
    assert_eq!(from_raw(&m, -5), EnumValue::Unit { index: 0 });
    assert_eq!(to_raw(&m, EnumValue::Unit { index: 0 }), -5);
    assert_eq!(from_raw(&m, 5), EnumValue::CatchAll { value: 5 });
}
