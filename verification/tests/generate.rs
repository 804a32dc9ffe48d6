use valenum::valenum;
use valenum::GenError;
use valenum::parse::Expected;
use valenum::validate::SchemaError;

#[test]
fn generates_whole_unit_exactly() {
    let text = "#[derive(Debug, PartialEq, Eq)]\n\
                pub(crate) enum Region {\n\
                    Europe = 0,\n\
                    NorthAmerica = 1,\n\
                    SouthAmerica = 2,\n\
                    Asia = 3,\n\
                    Other(i32),\n\
                }";
    let out = valenum(text).expect("generation succeeds");
    let expected = "#[derive(Clone, Copy)]
#[derive(Debug, PartialEq, Eq)]
pub(crate) enum Region {
    Europe,
    NorthAmerica,
    SouthAmerica,
    Asia,
    Other(i32),
}

impl From<i32> for Region {
    fn from(val: i32) -> Self {
        match val {
            0 => Region::Europe,
            1 => Region::NorthAmerica,
            2 => Region::SouthAmerica,
            3 => Region::Asia,
            val => Region::Other(val),
        }
    }
}

impl From<Region> for i32 {
    fn from(val_enum: Region) -> Self {
        match val_enum {
            Region::Europe => 0,
            Region::NorthAmerica => 1,
            Region::SouthAmerica => 2,
            Region::Asia => 3,
            Region::Other(val) => val,
        }
    }
}

impl ::serde::Serialize for Region {
    fn serialize<S>(&self, serializer: S) -> Result<S::Ok, S::Error>
    where
        S: ::serde::Serializer,
    {
        use ::serde::Serialize;
        i32::from(*self).serialize(serializer)
    }
}

impl<'de> ::serde::Deserialize<'de> for Region {
    fn deserialize<D>(deserializer: D) -> Result<Self, D::Error>
    where
        D: ::serde::Deserializer<'de>,
    {
        use ::serde::Deserialize;
        let val = i32::deserialize(deserializer)?;
        Ok(Self::from(val))
    }
}
";
    assert_eq!(out, expected);
}

#[test]
fn generates_struct_catch_all() {
    let text = "enum Country { Afghanistan = 0, Unknown { country_id: i32 }, }";
    let out = valenum(text).expect("generation succeeds");
    assert!(out.contains("    Unknown { country_id: i32, },\n"));
    assert!(out.contains("            country_id => Country::Unknown { country_id },\n"));
    assert!(out.contains("            Country::Unknown { country_id } => country_id,\n"));
    assert!(out.contains("impl From<i32> for Country"));
    assert!(out.contains("impl From<Country> for i32"));
}

#[test]
fn generates_repr_tag() {
    let text = "pub repr(u8) enum Tagged { A = 1, Rest(u8), }";
    let out = valenum(text).expect("generation succeeds");
    assert!(out.contains("pub repr(u8) enum Tagged {\n"));
}

#[test]
fn variant_annotations_are_copied() {
    let text = "enum Marked { #[note(tag = \"a\")] A = 1, Rest(i32), }";
    let out = valenum(text).expect("generation succeeds");
    assert!(out.contains("    #[note(tag = \"a\")]\n    A,\n"));
}

#[test]
fn whitespace_is_insignificant() {
    let text = "  enum   Spread  {  A  =  1  ,  Rest ( i32 ) ,  }  ";
    let compact = "enum Spread { A = 1, Rest(i32), }";
    assert_eq!(valenum(text), valenum(compact));
}

#[test]
fn no_catch_all_variant_is_rejected() {
    let text = "enum Bare { A = 1, B = 2, }";
    assert_eq!(
        valenum(text),
        Err(GenError::Schema(SchemaError::NoCatchAllVariant))
    );
}

#[test]
fn empty_schema_is_rejected() {
    let text = "enum Nothing { }";
    assert_eq!(
        valenum(text),
        Err(GenError::Schema(SchemaError::NoCatchAllVariant))
    );
}

#[test]
fn missing_discriminant_is_rejected() {
    let text = "enum Holey { A, Rest(i32), }";
    assert_eq!(
        valenum(text),
        Err(GenError::Schema(SchemaError::MissingDiscriminant))
    );
}

#[test]
fn unterminated_brace_is_a_syntax_error() {
    let text = "enum Open { A = 1, Rest(i32),";
    match valenum(text) {
        Err(GenError::Syntax(e)) => {
            assert!(e.pos <= text.len());
        }
        other => panic!("expected a syntax error, got {:?}", other),
    }
}

#[test]
fn missing_field_type_is_a_syntax_error() {
    let text = "enum Fieldless { A = 1, Rest { id }, }";
    match valenum(text) {
        Err(GenError::Syntax(e)) => assert_eq!(e.expected, Expected::Token(':')),
        other => panic!("expected a syntax error, got {:?}", other),
    }
}

#[test]
fn unterminated_attribute_is_a_syntax_error() {
    let text = "#[derive(Debug) enum Dangling { A = 1, Rest(i32), }";
    match valenum(text) {
        Err(GenError::Syntax(e)) => assert_eq!(e.expected, Expected::Token(']')),
        other => panic!("expected a syntax error, got {:?}", other),
    }
}

#[test]
fn oversized_literal_is_a_syntax_error() {
    let text = "enum Huge { A = 9999999999999999999, Rest(i64), }";
    match valenum(text) {
        Err(GenError::Syntax(e)) => assert_eq!(e.expected, Expected::Literal),
        other => panic!("expected a syntax error, got {:?}", other),
    }
}

#[test]
fn trailing_text_is_a_syntax_error() {
    let text = "enum Tail { A = 1, Rest(i32), } leftover";
    match valenum(text) {
        Err(GenError::Syntax(e)) => assert_eq!(e.expected, Expected::End),
        other => panic!("expected a syntax error, got {:?}", other),
    }
}

#[test]
fn missing_enum_keyword_is_a_syntax_error() {
    let text = "pub struct Wrong { a: i32 }";
    match valenum(text) {
        Err(GenError::Syntax(e)) => assert_eq!(e.expected, Expected::KwEnum),
        other => panic!("expected a syntax error, got {:?}", other),
    }
}
