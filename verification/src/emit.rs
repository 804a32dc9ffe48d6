//! The emitters: from a validated model to the generated source text.
//!
//! Four independent passes over the model, each specified exactly as a
//! function from the model's view to the text it emits: the enumeration's
//! declaration, the forward conversion (raw to enumeration), the reverse
//! conversion (enumeration to raw), and the serialization adapters that
//! delegate to the raw type's serializer. Their outputs are concatenated
//! into one generated unit.

use vstd::prelude::*;
use crate::ast::{Attr, Field, FieldView, Shape, ShapeView, VariantView};
use crate::validate::{valid_model, Model, ModelView};

verus! {

/// One emitted annotation line: the verbatim text restored between `#[` and
/// `]`, indented and on a line of its own.
pub open spec fn attr_text(indent: Seq<char>, a: Seq<char>) -> Seq<char> {
    indent + "#["@ + a + "]\n"@
}

/// The emitted annotation lines, in order.
pub open spec fn attrs_text(indent: Seq<char>, attrs: Seq<Seq<char>>) -> Seq<char>
    decreases attrs.len(),
{
    if attrs.len() == 0 {
        Seq::empty()
    } else {
        attrs_text(indent, attrs.drop_last()) + attr_text(indent, attrs.last())
    }
}

/// One emitted named field, with its trailing separator.
pub open spec fn field_text(f: FieldView) -> Seq<char> {
    f.name + ": "@ + f.ty + ", "@
}

/// The emitted named fields, in order.
pub open spec fn fields_text(fs: Seq<FieldView>) -> Seq<char>
    decreases fs.len(),
{
    if fs.len() == 0 {
        Seq::empty()
    } else {
        fields_text(fs.drop_last()) + field_text(fs.last())
    }
}

/// The emitted shape of a variant: nothing, a parenthesized type, or a
/// braced field list.
pub open spec fn shape_text(sh: ShapeView) -> Seq<char> {
    match sh {
        ShapeView::Unit => Seq::empty(),
        ShapeView::Tuple { ty } => "("@ + ty + ")"@,
        ShapeView::Struct { fields } => " { "@ + fields_text(fields) + "}"@,
    }
}

/// One emitted variant of the declaration: its annotations, its name and
/// its shape, with the literal discriminant stripped.
pub open spec fn variant_decl_text(v: VariantView) -> Seq<char> {
    attrs_text("    "@, v.attrs) + "    "@ + v.name + shape_text(v.shape) + ",\n"@
}

/// The emitted variants of the declaration, in schema order.
pub open spec fn variants_decl_text(vs: Seq<VariantView>) -> Seq<char>
    decreases vs.len(),
{
    if vs.len() == 0 {
        Seq::empty()
    } else {
        variants_decl_text(vs.drop_last()) + variant_decl_text(vs.last())
    }
}

/// An optional qualifier emitted verbatim with a trailing space.
pub open spec fn vis_text(o: Option<Seq<char>>) -> Seq<char> {
    match o {
        Some(t) => t + " "@,
        None => Seq::empty(),
    }
}

/// An optional representation tag, re-emitted with a trailing space.
pub open spec fn layout_text(o: Option<Seq<char>>) -> Seq<char> {
    match o {
        Some(t) => "repr("@ + t + ") "@,
        None => Seq::empty(),
    }
}

/// The emitted declaration of the enumeration: value-copy semantics, the
/// schema's annotations, visibility and representation tag verbatim, and
/// every variant in schema order with its discriminant stripped.
pub open spec fn enum_decl_text(m: ModelView) -> Seq<char> {
    "#[derive(Clone, Copy)]\n"@ + attrs_text(Seq::empty(), m.schema.attrs) + vis_text(
        m.schema.visibility,
    ) + layout_text(m.schema.layout) + "enum "@ + m.schema.name + " {\n"@ + variants_decl_text(
        m.schema.variants,
    ) + "}\n"@
}

/// One forward match arm: a unit variant's literal selects the variant.
pub open spec fn forward_unit_arm(name: Seq<char>, v: VariantView) -> Seq<char> {
    if v.shape is Unit && v.value is Some {
        "            "@ + v.value->Some_0.text + " => "@ + name + "::"@ + v.name + ",\n"@
    } else {
        Seq::empty()
    }
}

/// The forward match arms of the unit variants, in schema order.
pub open spec fn forward_unit_arms(name: Seq<char>, vs: Seq<VariantView>) -> Seq<char>
    decreases vs.len(),
{
    if vs.len() == 0 {
        Seq::empty()
    } else {
        forward_unit_arms(name, vs.drop_last()) + forward_unit_arm(name, vs.last())
    }
}

/// The final forward arm: unconditional, binding the unmatched raw value
/// into the catch-all variant's field.
pub open spec fn forward_fallback_arm(name: Seq<char>, v: VariantView) -> Seq<char> {
    match v.shape {
        ShapeView::Unit => Seq::empty(),
        ShapeView::Tuple { .. } => "            val => "@ + name + "::"@ + v.name + "(val),\n"@,
        ShapeView::Struct { fields } => "            "@ + fields[0].name + " => "@ + name + "::"@
            + v.name + " { "@ + fields[0].name + " },\n"@,
    }
}

/// The emitted forward conversion: a total function from the raw type to the
/// enumeration, one equality arm per unit variant in schema order, then the
/// unconditional catch-all arm.
pub open spec fn from_val_impl_text(m: ModelView) -> Seq<char> {
    "impl From<"@ + m.raw_type + "> for "@ + m.schema.name + " {\n    fn from(val: "@ + m.raw_type
        + ") -> Self {\n        match val {\n"@ + forward_unit_arms(
        m.schema.name,
        m.schema.variants,
    ) + forward_fallback_arm(m.schema.name, m.schema.variants[m.catch_all])
        + "        }\n    }\n}\n"@
}

/// One reverse match arm: a unit variant returns its literal.
pub open spec fn reverse_unit_arm(name: Seq<char>, v: VariantView) -> Seq<char> {
    if v.shape is Unit && v.value is Some {
        "            "@ + name + "::"@ + v.name + " => "@ + v.value->Some_0.text + ",\n"@
    } else {
        Seq::empty()
    }
}

/// The reverse match arms of the unit variants, in schema order.
pub open spec fn reverse_unit_arms(name: Seq<char>, vs: Seq<VariantView>) -> Seq<char>
    decreases vs.len(),
{
    if vs.len() == 0 {
        Seq::empty()
    } else {
        reverse_unit_arms(name, vs.drop_last()) + reverse_unit_arm(name, vs.last())
    }
}

/// The reverse arm of the catch-all variant: it returns its carried field.
pub open spec fn reverse_fallback_arm(name: Seq<char>, v: VariantView) -> Seq<char> {
    match v.shape {
        ShapeView::Unit => Seq::empty(),
        ShapeView::Tuple { .. } => "            "@ + name + "::"@ + v.name + "(val) => val,\n"@,
        ShapeView::Struct { fields } => "            "@ + name + "::"@ + v.name + " { "@
            + fields[0].name + " } => "@ + fields[0].name + ",\n"@,
    }
}

/// The emitted reverse conversion: a total function from the enumeration to
/// the raw type, each unit variant returning its literal and the catch-all
/// returning its carried value.
pub open spec fn from_enum_impl_text(m: ModelView) -> Seq<char> {
    "impl From<"@ + m.schema.name + "> for "@ + m.raw_type + " {\n    fn from(val_enum: "@
        + m.schema.name + ") -> Self {\n        match val_enum {\n"@ + reverse_unit_arms(
        m.schema.name,
        m.schema.variants,
    ) + reverse_fallback_arm(m.schema.name, m.schema.variants[m.catch_all])
        + "        }\n    }\n}\n"@
}

/// The emitted serialization adapters: serializing converts to the raw type
/// and delegates to its serializer; deserializing reads a raw value, whose
/// failure propagates unchanged, and converts it forward.
pub open spec fn serde_impls_text(m: ModelView) -> Seq<char> {
    "impl ::serde::Serialize for "@ + m.schema.name
        + " {\n    fn serialize<S>(&self, serializer: S) -> Result<S::Ok, S::Error>\n    where\n        S: ::serde::Serializer,\n    {\n        use ::serde::Serialize;\n        "@
        + m.raw_type
        + "::from(*self).serialize(serializer)\n    }\n}\n\nimpl<'de> ::serde::Deserialize<'de> for "@
        + m.schema.name
        + " {\n    fn deserialize<D>(deserializer: D) -> Result<Self, D::Error>\n    where\n        D: ::serde::Deserializer<'de>,\n    {\n        use ::serde::Deserialize;\n        let val = "@
        + m.raw_type
        + "::deserialize(deserializer)?;\n        Ok(Self::from(val))\n    }\n}\n"@
}

/// The whole generated unit: the declaration, the two conversions and the
/// serialization adapters, in that order, separated by blank lines.
pub open spec fn generate_text(m: ModelView) -> Seq<char> {
    enum_decl_text(m) + "\n"@ + from_val_impl_text(m) + "\n"@ + from_enum_impl_text(m) + "\n"@
        + serde_impls_text(m)
}

/// Appends the emitted annotation lines.
fn append_attrs(out: &mut String, indent: &str, attrs: &Vec<Attr>)
    ensures
        final (out)@ == old(out)@ + attrs_text(indent@, attrs.deep_view()),
{
    let ghost base = out@;
    let ghost all = attrs.deep_view();
    proof {
        assert(base + attrs_text(indent@, all.take(0)) =~= base);
    }
    let n = attrs.len();
    let mut k: usize = 0;
    while k < n
        invariant
            k <= n,
            n == attrs@.len(),
            all == attrs.deep_view(),
            out@ == base + attrs_text(indent@, all.take(k as int)),
        decreases n - k,
    {
        out.append(indent);
        out.append("#[");
        out.append(attrs[k].text.as_str());
        out.append("]\n");
        proof {
            assert(all.take(k + 1).drop_last() =~= all.take(k as int));
            assert(all.take(k + 1).last() == attrs[k as int]@);
            assert(out@ =~= base + attrs_text(indent@, all.take(k + 1)));
        }
        k += 1;
    }
    proof {
        assert(all.take(n as int) =~= all);
    }
}

/// Appends the emitted field list of a struct shape.
fn append_fields(out: &mut String, first: &Field, rest: &Vec<Field>)
    ensures
        final (out)@ == old(out)@ + fields_text(seq![first@] + rest.deep_view()),
{
    let ghost base = out@;
    let ghost all = seq![first@] + rest.deep_view();
    out.append(first.name.as_str());
    out.append(": ");
    out.append(first.ty.as_str());
    out.append(", ");
    proof {
        assert(fields_text(Seq::<FieldView>::empty()) =~= Seq::<char>::empty());
        assert(all.take(1).drop_last() =~= Seq::<FieldView>::empty());
        assert(all.take(1).last() == first@);
        assert(out@ =~= base + fields_text(all.take(1)));
    }
    let n = rest.len();
    let mut k: usize = 0;
    while k < n
        invariant
            k <= n,
            n == rest@.len(),
            all == seq![first@] + rest.deep_view(),
            out@ == base + fields_text(all.take(1 + k as int)),
        decreases n - k,
    {
        out.append(rest[k].name.as_str());
        out.append(": ");
        out.append(rest[k].ty.as_str());
        out.append(", ");
        proof {
            assert(all.take(2 + k as int).drop_last() =~= all.take(1 + k as int));
            assert(all.take(2 + k as int).last() == rest[k as int]@);
            assert(out@ =~= base + fields_text(all.take(2 + k as int)));
        }
        k += 1;
    }
    proof {
        assert(all.take(1 + n as int) =~= all);
    }
}

/// Appends one variant's emitted shape.
fn append_shape(out: &mut String, sh: &Shape)
    ensures
        final (out)@ == old(out)@ + shape_text(sh@),
{
    match sh {
        Shape::Unit => {},
        Shape::Tuple { ty } => {
            out.append("(");
            out.append(ty.as_str());
            out.append(")");
        },
        Shape::Struct { first, rest } => {
            out.append(" { ");
            append_fields(out, first, rest);
            out.append("}");
        },
    }
    proof {
        assert(out@ =~= old(out)@ + shape_text(sh@));
    }
}

/// Emits the declaration of the enumeration type: annotations, visibility
/// and representation tag verbatim, every variant in schema order with its
/// name and shape but without its literal discriminant, and value-copy
/// semantics requested for the conversions' sake.
#[verifier::rlimit(60)]
pub fn valenum_enum_decl(m: &Model) -> (r: String)
    requires
        valid_model(m@),
    ensures
        r@ == enum_decl_text(m@),
{
    let mut out = String::new();
    out.append("#[derive(Clone, Copy)]\n");
    proof {
        reveal_strlit("");
        assert(""@ =~= Seq::<char>::empty());
    }
    append_attrs(&mut out, "", &m.schema.attributes);
    match &m.schema.visibility {
        Some(v) => {
            out.append(v.as_str());
            out.append(" ");
        },
        None => {},
    }
    match &m.schema.layout {
        Some(l) => {
            out.append("repr(");
            out.append(l.as_str());
            out.append(") ");
        },
        None => {},
    }
    out.append("enum ");
    out.append(m.schema.name.as_str());
    out.append(" {\n");
    let ghost base = out@;
    let ghost vs = m@.schema.variants;
    proof {
        assert(base + variants_decl_text(vs.take(0)) =~= base);
    }
    let n = m.schema.variants.len();
    let mut k: usize = 0;
    while k < n
        invariant
            k <= n,
            n == m.schema.variants@.len(),
            vs == m@.schema.variants,
            out@ == base + variants_decl_text(vs.take(k as int)),
        decreases n - k,
    {
        let v = &m.schema.variants[k];
        append_attrs(&mut out, "    ", &v.attributes);
        out.append("    ");
        out.append(v.name.as_str());
        append_shape(&mut out, &v.fields);
        out.append(",\n");
        proof {
            assert(vs.take(k + 1).drop_last() =~= vs.take(k as int));
            assert(vs.take(k + 1).last() == v@);
            assert(out@ =~= base + variants_decl_text(vs.take(k + 1)));
        }
        k += 1;
    }
    out.append("}\n");
    proof {
        assert(vs.take(n as int) =~= vs);
        assert(base =~= "#[derive(Clone, Copy)]\n"@ + attrs_text(
            Seq::empty(),
            m@.schema.attrs,
        ) + vis_text(m@.schema.visibility) + layout_text(m@.schema.layout) + "enum "@
            + m@.schema.name + " {\n"@);
        assert(out@ =~= enum_decl_text(m@));
    }
    out
}

/// Emits the forward conversion, raw value to enumeration: one match arm
/// per unit variant testing equality against its literal, in schema order,
/// then one unconditional arm binding the raw value into the catch-all
/// variant. The emitted function is total over the raw type.
pub fn valenum_from_val_impl(m: &Model) -> (r: String)
    requires
        valid_model(m@),
    ensures
        r@ == from_val_impl_text(m@),
{
    let mut out = String::new();
    out.append("impl From<");
    out.append(m.raw_type.as_str());
    out.append("> for ");
    out.append(m.schema.name.as_str());
    out.append(" {\n    fn from(val: ");
    out.append(m.raw_type.as_str());
    out.append(") -> Self {\n        match val {\n");
    let ghost base = out@;
    let ghost vs = m@.schema.variants;
    let ghost name = m@.schema.name;
    proof {
        assert(base + forward_unit_arms(name, vs.take(0)) =~= base);
    }
    let n = m.schema.variants.len();
    let mut k: usize = 0;
    while k < n
        invariant
            k <= n,
            n == m.schema.variants@.len(),
            vs == m@.schema.variants,
            name == m@.schema.name,
            out@ == base + forward_unit_arms(name, vs.take(k as int)),
        decreases n - k,
    {
        let v = &m.schema.variants[k];
        let unit = match &v.fields {
            Shape::Unit => true,
            Shape::Tuple { .. } => false,
            Shape::Struct { .. } => false,
        };
        if unit {
            match &v.value {
                Some(l) => {
                    out.append("            ");
                    out.append(l.text.as_str());
                    out.append(" => ");
                    out.append(m.schema.name.as_str());
                    out.append("::");
                    out.append(v.name.as_str());
                    out.append(",\n");
                },
                None => {},
            }
        }
        proof {
            assert(vs.take(k + 1).drop_last() =~= vs.take(k as int));
            assert(vs.take(k + 1).last() == v@);
            assert(out@ =~= base + forward_unit_arms(name, vs.take(k + 1)));
        }
        k += 1;
    }
    proof {
        assert(vs.take(n as int) =~= vs);
    }
    let cv = &m.schema.variants[m.catch_all];
    match &cv.fields {
        Shape::Unit => {},
        Shape::Tuple { .. } => {
            out.append("            val => ");
            out.append(m.schema.name.as_str());
            out.append("::");
            out.append(cv.name.as_str());
            out.append("(val),\n");
        },
        Shape::Struct { first, .. } => {
            out.append("            ");
            out.append(first.name.as_str());
            out.append(" => ");
            out.append(m.schema.name.as_str());
            out.append("::");
            out.append(cv.name.as_str());
            out.append(" { ");
            out.append(first.name.as_str());
            out.append(" },\n");
        },
    }
    out.append("        }\n    }\n}\n");
    proof {
        assert(out@ =~= from_val_impl_text(m@));
    }
    out
}

/// Emits the reverse conversion, enumeration to raw value: each unit
/// variant returns its literal; the catch-all variant returns the field it
/// carries.
pub fn valenum_from_enum_impl(m: &Model) -> (r: String)
    requires
        valid_model(m@),
    ensures
        r@ == from_enum_impl_text(m@),
{
    let mut out = String::new();
    out.append("impl From<");
    out.append(m.schema.name.as_str());
    out.append("> for ");
    out.append(m.raw_type.as_str());
    out.append(" {\n    fn from(val_enum: ");
    out.append(m.schema.name.as_str());
    out.append(") -> Self {\n        match val_enum {\n");
    let ghost base = out@;
    let ghost vs = m@.schema.variants;
    let ghost name = m@.schema.name;
    proof {
        assert(base + reverse_unit_arms(name, vs.take(0)) =~= base);
    }
    let n = m.schema.variants.len();
    let mut k: usize = 0;
    while k < n
        invariant
            k <= n,
            n == m.schema.variants@.len(),
            vs == m@.schema.variants,
            name == m@.schema.name,
            out@ == base + reverse_unit_arms(name, vs.take(k as int)),
        decreases n - k,
    {
        let v = &m.schema.variants[k];
        let unit = match &v.fields {
            Shape::Unit => true,
            Shape::Tuple { .. } => false,
            Shape::Struct { .. } => false,
        };
        if unit {
            match &v.value {
                Some(l) => {
                    out.append("            ");
                    out.append(m.schema.name.as_str());
                    out.append("::");
                    out.append(v.name.as_str());
                    out.append(" => ");
                    out.append(l.text.as_str());
                    out.append(",\n");
                },
                None => {},
            }
        }
        proof {
            assert(vs.take(k + 1).drop_last() =~= vs.take(k as int));
            assert(vs.take(k + 1).last() == v@);
            assert(out@ =~= base + reverse_unit_arms(name, vs.take(k + 1)));
        }
        k += 1;
    }
    proof {
        assert(vs.take(n as int) =~= vs);
    }
    let cv = &m.schema.variants[m.catch_all];
    match &cv.fields {
        Shape::Unit => {},
        Shape::Tuple { .. } => {
            out.append("            ");
            out.append(m.schema.name.as_str());
            out.append("::");
            out.append(cv.name.as_str());
            out.append("(val) => val,\n");
        },
        Shape::Struct { first, .. } => {
            out.append("            ");
            out.append(m.schema.name.as_str());
            out.append("::");
            out.append(cv.name.as_str());
            out.append(" { ");
            out.append(first.name.as_str());
            out.append(" } => ");
            out.append(first.name.as_str());
            out.append(",\n");
        },
    }
    out.append("        }\n    }\n}\n");
    proof {
        assert(out@ =~= from_enum_impl_text(m@));
    }
    out
}

/// Emits the serialization adapters: `serialize` converts the enumeration
/// value to the raw type and delegates to the raw type's serializer;
/// `deserialize` reads a raw value, propagating the raw deserializer's
/// failure unchanged, and converts it forward.
pub fn valenum_serde_impls(m: &Model) -> (r: String)
    requires
        valid_model(m@),
    ensures
        r@ == serde_impls_text(m@),
{
    let mut out = String::new();
    out.append("impl ::serde::Serialize for ");
    out.append(m.schema.name.as_str());
    out.append(
        " {\n    fn serialize<S>(&self, serializer: S) -> Result<S::Ok, S::Error>\n    where\n        S: ::serde::Serializer,\n    {\n        use ::serde::Serialize;\n        ",
    );
    out.append(m.raw_type.as_str());
    out.append(
        "::from(*self).serialize(serializer)\n    }\n}\n\nimpl<'de> ::serde::Deserialize<'de> for ",
    );
    out.append(m.schema.name.as_str());
    out.append(
        " {\n    fn deserialize<D>(deserializer: D) -> Result<Self, D::Error>\n    where\n        D: ::serde::Deserializer<'de>,\n    {\n        use ::serde::Deserialize;\n        let val = ",
    );
    out.append(m.raw_type.as_str());
    out.append("::deserialize(deserializer)?;\n        Ok(Self::from(val))\n    }\n}\n");
    proof {
        assert(out@ =~= serde_impls_text(m@));
    }
    out
}

} // verus!
