//! Table-driven conversions between raw values and enumeration values.
//!
//! The generated conversion logic classifies a raw value by comparing it
//! against the unit variants' literals in declaration order, falling back on
//! the catch-all variant. The same rules are available here directly, over a
//! validated model: `from_raw` and `to_raw` interpret the conversion tables
//! that the emitted code hard-wires, and the laws of that classification —
//! totality, literal correctness, catch-all correctness, and the raw round
//! trip — are proved of them.

use vstd::prelude::*;
use crate::ast::VariantView;
use crate::validate::{is_unit, valid_model, Model, ModelView};

verus! {

/// A value of the generated enumeration, named by the schema: either the
/// unit variant at a given index of the variant list, or the catch-all
/// variant carrying the raw value that matched no literal. Values are plain
/// and copied freely, as the generated enumeration's are.
#[derive(Debug, Clone, Copy, PartialEq, Eq, Structural)]
pub enum EnumValue {
    Unit { index: usize },
    CatchAll { value: i64 },
}

/// Whether the variant is unit-shaped and declares `x` as its literal.
pub open spec fn unit_matches(v: VariantView, x: i64) -> bool {
    &&& v.shape is Unit
    &&& match v.value {
        Some(l) => l.value == x,
        None => false,
    }
}

/// The index of the first variant at or after `k` whose literal matches `x`.
pub open spec fn spec_match_from(vs: Seq<VariantView>, k: int, x: i64) -> Option<int>
    decreases vs.len() - k,
{
    if 0 <= k < vs.len() {
        if unit_matches(vs[k], x) {
            Some(k)
        } else {
            spec_match_from(vs, k + 1, x)
        }
    } else {
        None
    }
}

/// What the forward conversion yields on a raw value: the first unit variant
/// whose literal equals it, or the catch-all carrying it. Total by
/// construction: every raw value is classified.
pub open spec fn spec_from_raw(m: ModelView, x: i64) -> EnumValue {
    match spec_match_from(m.schema.variants, 0, x) {
        Some(i) => EnumValue::Unit { index: i as usize },
        None => EnumValue::CatchAll { value: x },
    }
}

/// What the reverse conversion yields on an enumeration value: a unit
/// variant's declared literal, or the value the catch-all carries.
pub open spec fn spec_to_raw(m: ModelView, e: EnumValue) -> i64 {
    match e {
        EnumValue::Unit { index } => match m.schema.variants[index as int].value {
            Some(l) => l.value,
            None => 0,
        },
        EnumValue::CatchAll { value } => value,
    }
}

/// Whether an enumeration value belongs to the model: a unit index must name
/// a unit variant of the schema.
pub open spec fn wf_value(m: ModelView, e: EnumValue) -> bool {
    match e {
        EnumValue::Unit { index } => index < m.schema.variants.len() && is_unit(
            m.schema.variants[index as int],
        ),
        EnumValue::CatchAll { .. } => true,
    }
}

/// Everything the first-match scan decides: where it finds an index, that
/// index matches and no earlier one does; where it finds none, nothing
/// matches.
pub proof fn lemma_match_from_props(vs: Seq<VariantView>, k: int, x: i64)
    requires
        0 <= k <= vs.len(),
    ensures
        match spec_match_from(vs, k, x) {
            Some(i) => {
                &&& k <= i < vs.len()
                &&& unit_matches(vs[i], x)
                &&& forall|j: int| k <= j < i ==> !unit_matches(#[trigger] vs[j], x)
            },
            None => forall|j: int| k <= j < vs.len() ==> !unit_matches(#[trigger] vs[j], x),
        },
    decreases vs.len() - k,
{
    if k < vs.len() && !unit_matches(vs[k], x) {
        lemma_match_from_props(vs, k + 1, x);
    }
}

proof fn lemma_match_from_first(vs: Seq<VariantView>, k: int, i: int, x: i64)
    requires
        0 <= k <= i < vs.len(),
        unit_matches(vs[i], x),
        forall|j: int| k <= j < i ==> !unit_matches(#[trigger] vs[j], x),
    ensures
        spec_match_from(vs, k, x) == Some(i),
    decreases i - k,
{
    if k < i {
        lemma_match_from_first(vs, k + 1, i, x);
    }
}

/// Classifies a raw value: the first unit variant whose literal equals it,
/// in declaration order, or else the catch-all carrying the value. Total:
/// it yields an enumeration value of the model for every raw value.
pub fn from_raw(m: &Model, x: i64) -> (e: EnumValue)
    ensures
        e == spec_from_raw(m@, x),
        wf_value(m@, e),
{
    let n = m.schema.variants.len();
    let mut k: usize = 0;
    while k < n
        invariant
            0 <= k <= n,
            n == m@.schema.variants.len(),
            spec_match_from(m@.schema.variants, 0, x) == spec_match_from(
                m@.schema.variants,
                k as int,
                x,
            ),
        decreases n - k,
    {
        let v = &m.schema.variants[k];
        let unit = match &v.fields {
            crate::ast::Shape::Unit => true,
            crate::ast::Shape::Tuple { .. } => false,
            crate::ast::Shape::Struct { .. } => false,
        };
        if unit {
            match &v.value {
                Some(l) => {
                    if l.value == x {
                        proof {
                            assert(spec_match_from(m@.schema.variants, k as int, x) == Some(
                                k as int,
                            ));
                        }
                        return EnumValue::Unit { index: k };
                    }
                },
                None => {},
            }
        }
        k += 1;
    }
    EnumValue::CatchAll { value: x }
}

/// Reads a raw value back off an enumeration value: a unit variant's
/// literal, or what the catch-all carries.
pub fn to_raw(m: &Model, e: EnumValue) -> (x: i64)
    requires
        valid_model(m@),
        wf_value(m@, e),
    ensures
        x == spec_to_raw(m@, e),
{
    match e {
        EnumValue::Unit { index } => {
            let v = &m.schema.variants[index];
            match &v.value {
                Some(l) => l.value,
                None => {
                    proof {
                        assert(false);
                    }
                    0
                },
            }
        },
        EnumValue::CatchAll { value } => value,
    }
}

/// Literal correctness: a unit variant whose literal no earlier variant
/// shares is recovered from that literal by the forward conversion, and the
/// reverse conversion returns the literal. Where an earlier unit variant
/// declares the same literal, the scan is first-declared-wins and the later
/// variant is not reached.
pub proof fn lemma_literal_correctness(m: ModelView, i: usize, x: i64)
    requires
        valid_model(m),
        i < m.schema.variants.len(),
        unit_matches(m.schema.variants[i as int], x),
        forall|j: int| 0 <= j < i ==> !unit_matches(#[trigger] m.schema.variants[j], x),
    ensures
        spec_from_raw(m, x) == (EnumValue::Unit { index: i }),
        spec_to_raw(m, EnumValue::Unit { index: i }) == x,
{
    lemma_match_from_first(m.schema.variants, 0, i as int, x);
}

/// Catch-all correctness: a raw value equal to no declared literal is
/// classified as the catch-all carrying it, and the reverse conversion of
/// that value returns it unchanged.
pub proof fn lemma_catch_all_correctness(m: ModelView, x: i64)
    requires
        valid_model(m),
        forall|j: int|
            0 <= j < m.schema.variants.len() ==> !unit_matches(
                #[trigger] m.schema.variants[j],
                x,
            ),
    ensures
        spec_from_raw(m, x) == (EnumValue::CatchAll { value: x }),
        spec_to_raw(m, EnumValue::CatchAll { value: x }) == x,
{
    lemma_match_from_props(m.schema.variants, 0, x);
}

/// The enumeration-side round trip: converting an enumeration value to its
/// raw value and classifying that value back recovers the original — for a
/// unit variant whose literal no earlier variant shares, and for a catch-all
/// whose carried value equals no declared literal. A catch-all built by hand
/// with a literal-equal value is instead re-classified as the matching unit
/// variant: the catch-all stands for whatever did not match a literal.
pub proof fn lemma_enum_round_trip(m: ModelView, e: EnumValue)
    requires
        valid_model(m),
        wf_value(m, e),
        match e {
            EnumValue::Unit { index } => forall|j: int|
                0 <= j < index ==> !unit_matches(
                    #[trigger] m.schema.variants[j],
                    spec_to_raw(m, e),
                ),
            EnumValue::CatchAll { value } => forall|j: int|
                0 <= j < m.schema.variants.len() ==> !unit_matches(
                    #[trigger] m.schema.variants[j],
                    value,
                ),
        },
    ensures
        spec_from_raw(m, spec_to_raw(m, e)) == e,
{
    match e {
        EnumValue::Unit { index } => {
            lemma_match_from_first(m.schema.variants, 0, index as int, spec_to_raw(m, e));
        },
        EnumValue::CatchAll { value } => {
            lemma_match_from_props(m.schema.variants, 0, value);
        },
    }
}

/// The raw round trip: converting any raw value forward and back returns it
/// unchanged, whether a literal matched or the catch-all absorbed it.
pub proof fn lemma_raw_round_trip(m: ModelView, x: i64)
    requires
        valid_model(m),
    ensures
        spec_to_raw(m, spec_from_raw(m, x)) == x,
{
    lemma_match_from_props(m.schema.variants, 0, x);
}

} // verus!

