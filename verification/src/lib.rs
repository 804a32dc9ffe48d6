//! A schema-driven generator for enumerations that mirror a raw value type.
//!
//! A schema describes an enumeration whose unit variants each carry an
//! integer literal discriminant, plus one catch-all variant that holds any
//! raw value not equal to a declared literal. From such a schema the library
//! produces the enumeration's declaration, the conversion logic between the
//! raw type and the enumeration in both directions, and serialization
//! adapters that delegate to the raw type's serializer.
//!
//! The same conversion rules are also available directly, as table-driven
//! functions over the validated schema, with proofs that the forward
//! conversion is total, that declared literals map to their variants, and
//! that converting a raw value forward and back returns it unchanged.

use vstd::prelude::*;

pub mod ast;
pub mod codec;
pub mod convert;
pub mod emit;
pub mod parse;
pub mod validate;

use crate::emit::{
    generate_text, valenum_enum_decl, valenum_from_enum_impl, valenum_from_val_impl,
    valenum_serde_impls,
};
use crate::ast::ValEnum;
use crate::parse::{spec_parse_full, SyntaxError};
use crate::validate::{spec_validate, validate, SchemaError};

verus! {

/// Either kind of generation failure, both found before any output exists:
/// the schema text does not match the grammar, or it parses but breaks a
/// structural invariant.
#[derive(Debug, Clone, Copy, PartialEq, Eq)]
pub enum GenError {
    Syntax(SyntaxError),
    Schema(SchemaError),
}

/// What one generation invocation yields on a text: nothing for a text that
/// does not match the grammar, the first structural fault for a schema that
/// parses but is unsound, and otherwise the whole generated unit.
pub open spec fn spec_valenum(s: Seq<char>) -> Option<Result<Seq<char>, SchemaError>> {
    match spec_parse_full(s) {
        None => None,
        Some(sv) => match spec_validate(sv) {
            Ok(m) => Some(Ok(generate_text(m))),
            Err(e) => Some(Err(e)),
        },
    }
}

/// One generation invocation: a pure function from schema text to generated
/// text. Parses the schema, validates it, and emits, in order, the
/// enumeration's declaration, the forward conversion, the reverse
/// conversion, and the serialization adapters. Aborts on the first error
/// with no partial output.
pub fn valenum(input: &str) -> (r: Result<String, GenError>)
    ensures
        match r {
            Ok(out) => spec_valenum(input@) == Some(Ok::<Seq<char>, SchemaError>(out@)),
            Err(GenError::Syntax(e)) => {
                &&& spec_valenum(input@) is None
                &&& e.pos <= input@.len()
            },
            Err(GenError::Schema(e)) => spec_valenum(input@) == Some(
                Err::<Seq<char>, SchemaError>(e),
            ),
        },
{
    let schema = match ValEnum::parse(input) {
        Ok(v) => v,
        Err(e) => {
            return Err(GenError::Syntax(e));
        },
    };
    let m = match validate(schema) {
        Ok(v) => v,
        Err(e) => {
            return Err(GenError::Schema(e));
        },
    };
    let mut out = valenum_enum_decl(&m);
    out.append("\n");
    let fv = valenum_from_val_impl(&m);
    out.append(fv.as_str());
    out.append("\n");
    let fe = valenum_from_enum_impl(&m);
    out.append(fe.as_str());
    out.append("\n");
    let sd = valenum_serde_impls(&m);
    out.append(sd.as_str());
    proof {
        assert(out@ =~= generate_text(m@));
    }
    Ok(out)
}

} // verus!
