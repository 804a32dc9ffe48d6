//! The schema syntax tree: the parsed, unvalidated description of one
//! enumeration, together with the mathematical views that the contracts of
//! the parser, the validator and the emitters speak of.

use vstd::prelude::*;

verus! {

/// One pass-through annotation on a schema or a variant: the text that stood
/// between `#[` and `]` in the schema, copied verbatim into the output.
pub struct Attr {
    pub text: String,
}

/// One named field of a struct-shaped variant.
pub struct Field {
    pub name: String,
    pub ty: String,
}

/// The shape of a variant: a bare name, one unnamed field, or one or more
/// named fields. A struct shape always holds at least one field, so the type
/// that carries the raw value can be read off it.
pub enum Shape {
    Unit,
    Tuple { ty: String },
    Struct { first: Field, rest: Vec<Field> },
}

/// An integer literal discriminant: its source text, copied verbatim into the
/// generated conversion logic, and its numeric value, used by the table-driven
/// conversions.
pub struct Lit {
    pub text: String,
    pub value: i64,
}

/// One named alternative of the enumeration: annotations, a name, a shape,
/// and an optional literal discriminant.
pub struct ValEnumVariant {
    pub attributes: Vec<Attr>,
    pub name: String,
    pub fields: Shape,
    pub value: Option<Lit>,
}

/// The whole schema: annotations, an optional visibility qualifier, an
/// optional representation tag, the enumeration's name, and its variants in
/// declaration order. The order is significant: it fixes the match priority
/// of the forward conversion.
pub struct ValEnum {
    pub attributes: Vec<Attr>,
    pub visibility: Option<String>,
    pub layout: Option<String>,
    pub name: String,
    pub variants: Vec<ValEnumVariant>,
}

/// Mathematical view of a field.
pub struct FieldView {
    pub name: Seq<char>,
    pub ty: Seq<char>,
}

/// Mathematical view of a shape.
pub enum ShapeView {
    Unit,
    Tuple { ty: Seq<char> },
    Struct { fields: Seq<FieldView> },
}

/// Mathematical view of a literal discriminant.
pub struct LitView {
    pub text: Seq<char>,
    pub value: i64,
}

/// Mathematical view of a variant.
pub struct VariantView {
    pub attrs: Seq<Seq<char>>,
    pub name: Seq<char>,
    pub shape: ShapeView,
    pub value: Option<LitView>,
}

/// Mathematical view of a schema.
pub struct SchemaView {
    pub attrs: Seq<Seq<char>>,
    pub visibility: Option<Seq<char>>,
    pub layout: Option<Seq<char>>,
    pub name: Seq<char>,
    pub variants: Seq<VariantView>,
}

impl View for Attr {
    type V = Seq<char>;

    open spec fn view(&self) -> Seq<char> {
        self.text@
    }
}

impl DeepView for Attr {
    type V = Seq<char>;

    open spec fn deep_view(&self) -> Seq<char> {
        self@
    }
}

impl View for Field {
    type V = FieldView;

    open spec fn view(&self) -> FieldView {
        FieldView { name: self.name@, ty: self.ty@ }
    }
}

impl DeepView for Field {
    type V = FieldView;

    open spec fn deep_view(&self) -> FieldView {
        self@
    }
}

impl View for Shape {
    type V = ShapeView;

    open spec fn view(&self) -> ShapeView {
        match self {
            Shape::Unit => ShapeView::Unit,
            Shape::Tuple { ty } => ShapeView::Tuple { ty: ty@ },
            Shape::Struct { first, rest } => ShapeView::Struct {
                fields: seq![first@] + rest.deep_view(),
            },
        }
    }
}

impl View for Lit {
    type V = LitView;

    open spec fn view(&self) -> LitView {
        LitView { text: self.text@, value: self.value }
    }
}

impl View for ValEnumVariant {
    type V = VariantView;

    open spec fn view(&self) -> VariantView {
        VariantView {
            attrs: self.attributes.deep_view(),
            name: self.name@,
            shape: self.fields@,
            value: match self.value {
                Some(l) => Some(l@),
                None => None,
            },
        }
    }
}

impl DeepView for ValEnumVariant {
    type V = VariantView;

    open spec fn deep_view(&self) -> VariantView {
        self@
    }
}

impl View for ValEnum {
    type V = SchemaView;

    open spec fn view(&self) -> SchemaView {
        SchemaView {
            attrs: self.attributes.deep_view(),
            visibility: match self.visibility {
                Some(v) => Some(v@),
                None => None,
            },
            layout: match self.layout {
                Some(l) => Some(l@),
                None => None,
            },
            name: self.name@,
            variants: self.variants.deep_view(),
        }
    }
}

} // verus!
