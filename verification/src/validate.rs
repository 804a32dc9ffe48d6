//! The model validator: checks a parsed schema's structural invariants and
//! derives the raw representation type.
//!
//! A schema is sound when it holds a catch-all variant — a non-unit variant,
//! the first one in declaration order — and every unit variant carries a
//! literal discriminant. The raw representation type is not declared: it is
//! the type of the catch-all variant's first field.

use vstd::prelude::*;
use crate::ast::{SchemaView, Shape, ShapeView, ValEnum, VariantView};

verus! {

/// A structural fault of a schema that parses: either no variant can absorb
/// unmatched raw values, or a unit variant names no raw value to match.
#[derive(Debug, Clone, Copy, PartialEq, Eq, Structural)]
pub enum SchemaError {
    NoCatchAllVariant,
    MissingDiscriminant,
}

/// The validated model: the schema, the index of its catch-all variant, and
/// the derived raw representation type.
pub struct Model {
    pub schema: ValEnum,
    pub catch_all: usize,
    pub raw_type: String,
}

/// Mathematical view of a validated model.
pub struct ModelView {
    pub schema: SchemaView,
    pub catch_all: int,
    pub raw_type: Seq<char>,
}

impl View for Model {
    type V = ModelView;

    open spec fn view(&self) -> ModelView {
        ModelView {
            schema: self.schema@,
            catch_all: self.catch_all as int,
            raw_type: self.raw_type@,
        }
    }
}

/// Whether a variant is unit-shaped.
pub open spec fn is_unit(v: VariantView) -> bool {
    v.shape is Unit
}

/// The index of the first non-unit variant at or after `k`, if any.
pub open spec fn spec_first_non_unit(vs: Seq<VariantView>, k: int) -> Option<int>
    decreases vs.len() - k,
{
    if 0 <= k < vs.len() {
        if !is_unit(vs[k]) {
            Some(k)
        } else {
            spec_first_non_unit(vs, k + 1)
        }
    } else {
        None
    }
}

/// Whether every unit variant carries a literal discriminant.
pub open spec fn spec_units_have_values(vs: Seq<VariantView>) -> bool {
    forall|i: int| 0 <= i < vs.len() && is_unit(vs[i]) ==> vs[i].value is Some
}

/// The type of a shape's first field; empty for a unit shape, which never
/// provides the raw type.
pub open spec fn spec_shape_first_ty(sh: ShapeView) -> Seq<char> {
    match sh {
        ShapeView::Unit => Seq::empty(),
        ShapeView::Tuple { ty } => ty,
        ShapeView::Struct { fields } => fields[0].ty,
    }
}

/// What validation yields on a schema: the first structural fault, or the
/// model with the catch-all index and the derived raw type.
pub open spec fn spec_validate(sv: SchemaView) -> Result<ModelView, SchemaError> {
    match spec_first_non_unit(sv.variants, 0) {
        None => Err(SchemaError::NoCatchAllVariant),
        Some(c) => if !spec_units_have_values(sv.variants) {
            Err(SchemaError::MissingDiscriminant)
        } else {
            Ok(
                ModelView {
                    schema: sv,
                    catch_all: c,
                    raw_type: spec_shape_first_ty(sv.variants[c].shape),
                },
            )
        },
    }
}

/// Well-formedness of a model: the catch-all index lies in range and names
/// the first non-unit variant, every unit variant carries a literal, and the
/// raw type is the catch-all's first field type.
pub open spec fn valid_model(m: ModelView) -> bool {
    &&& m.schema.variants.len() <= usize::MAX
    &&& 0 <= m.catch_all < m.schema.variants.len()
    &&& !is_unit(m.schema.variants[m.catch_all])
    &&& forall|j: int| 0 <= j < m.catch_all ==> is_unit(#[trigger] m.schema.variants[j])
    &&& spec_units_have_values(m.schema.variants)
    &&& m.raw_type == spec_shape_first_ty(m.schema.variants[m.catch_all].shape)
}

/// A model that validation accepted is well-formed.
pub proof fn lemma_validate_valid(sv: SchemaView)
    requires
        spec_validate(sv) is Ok,
        sv.variants.len() <= usize::MAX,
    ensures
        valid_model(spec_validate(sv)->Ok_0),
{
    lemma_first_non_unit_props(sv.variants, 0);
}

proof fn lemma_first_non_unit_props(vs: Seq<VariantView>, k: int)
    requires
        0 <= k <= vs.len(),
    ensures
        match spec_first_non_unit(vs, k) {
            Some(c) => {
                &&& k <= c < vs.len()
                &&& !is_unit(vs[c])
                &&& forall|j: int| k <= j < c ==> is_unit(#[trigger] vs[j])
            },
            None => forall|j: int| k <= j < vs.len() ==> is_unit(#[trigger] vs[j]),
        },
    decreases vs.len() - k,
{
    if k < vs.len() && is_unit(vs[k]) {
        lemma_first_non_unit_props(vs, k + 1);
    }
}

/// The index of the schema's catch-all variant: the first non-unit one.
fn find_catch_all(schema: &ValEnum) -> (r: Option<usize>)
    ensures
        match r {
            Some(c) => {
                &&& spec_first_non_unit(schema@.variants, 0) == Some(c as int)
                &&& c < schema@.variants.len()
                &&& !is_unit(schema@.variants[c as int])
            },
            None => spec_first_non_unit(schema@.variants, 0) is None,
        },
{
    let n = schema.variants.len();
    let mut c: usize = 0;
    while c < n
        invariant
            0 <= c <= n,
            n == schema@.variants.len(),
            spec_first_non_unit(schema@.variants, 0) == spec_first_non_unit(
                schema@.variants,
                c as int,
            ),
        decreases n - c,
    {
        let unit = match &schema.variants[c].fields {
            Shape::Unit => true,
            Shape::Tuple { .. } => false,
            Shape::Struct { .. } => false,
        };
        if !unit {
            proof {
                assert(spec_first_non_unit(schema@.variants, c as int) == Some(c as int));
            }
            return Some(c);
        }
        c += 1;
    }
    None
}

/// Checks a schema's structural invariants. Returns the validated model, or
/// the fault: `NoCatchAllVariant` exactly where no variant is non-unit, and
/// otherwise `MissingDiscriminant` exactly where some unit variant carries
/// no literal.
pub fn validate(schema: ValEnum) -> (r: Result<Model, SchemaError>)
    ensures
        match r {
            Ok(m) => {
                &&& spec_validate(schema@) == Ok::<ModelView, SchemaError>(m@)
                &&& valid_model(m@)
            },
            Err(e) => spec_validate(schema@) == Err::<ModelView, SchemaError>(e),
        },
{
    let n = schema.variants.len();
    let c = match find_catch_all(&schema) {
        Some(c) => c,
        None => {
            return Err(SchemaError::NoCatchAllVariant);
        },
    };
    let mut k: usize = 0;
    while k < n
        invariant
            0 <= k <= n,
            n == schema@.variants.len(),
            spec_first_non_unit(schema@.variants, 0) is Some,
            forall|j: int|
                0 <= j < k && is_unit(#[trigger] schema@.variants[j]) ==> schema@.variants[j].value
                    is Some,
        decreases n - k,
    {
        let v = &schema.variants[k];
        let unit = match &v.fields {
            Shape::Unit => true,
            Shape::Tuple { .. } => false,
            Shape::Struct { .. } => false,
        };
        if unit && v.value.is_none() {
            proof {
                assert(schema@.variants[k as int] == v@);
                assert(is_unit(schema@.variants[k as int]));
                assert(schema@.variants[k as int].value is None);
                assert(!spec_units_have_values(schema@.variants));
            }
            return Err(SchemaError::MissingDiscriminant);
        }
        k += 1;
    }
    let raw_type = match &schema.variants[c].fields {
        Shape::Unit => {
            proof {
                assert(false);
            }
            String::new()
        },
        Shape::Tuple { ty } => ty.clone(),
        Shape::Struct { first, .. } => first.ty.clone(),
    };
    proof {
        lemma_validate_valid(schema@);
    }
    Ok(Model { schema, catch_all: c, raw_type })
}

} // verus!
