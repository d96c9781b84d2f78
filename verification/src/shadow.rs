//! The shadow type generator.
//!
//! From a type's descriptor it derives the parallel shadow descriptor — same
//! name, same shape, one fresh borrow lifetime appended to the generics, and
//! every field's type `T` replaced by a borrowed `&T` (transparent field) or
//! by the masking wrapper `Hidden<T>` (hidden field) — together with the
//! construction expression that builds a shadow value from a borrowed
//! instance of the original, field by field, through one uniform conversion.

use vstd::prelude::*;

use crate::model::{
    attrs_eq, clone_attrs, clone_name, clone_string, field_hidden_s, has_hidden_attr, name_eq,
    FieldAttr, FieldDescriptor, FieldList, Shape, TypeDescriptor, VariantDescriptor,
};

verus! {

/// A shadow field's type: the original field's type, wrapped for borrowing or
/// for masking. The base text is the original type's text.
pub enum ShadowTy {
    /// A transparent field: `&'fresh base`.
    Borrowed { base: String },
    /// A hidden field: `Hidden<'fresh, base>`.
    Masked { base: String },
}

/// One field of the shadow type. The hidden marker is consumed by the
/// wrapping: a masked field keeps no attributes at all, a transparent field
/// keeps the original's unchanged.
pub struct ShadowField {
    pub name: Option<String>,
    pub attrs: Vec<FieldAttr>,
    pub ty: ShadowTy,
}

/// The fields of one shadow aggregate, shaped exactly like the original's.
pub enum ShadowFieldList {
    Named(Vec<ShadowField>),
    Unnamed(Vec<ShadowField>),
    Unit,
}

/// One variant of a shadow enum: the original's name and attributes, with its
/// field list wrapped.
pub struct ShadowVariant {
    pub name: String,
    pub attrs: Vec<FieldAttr>,
    pub fields: ShadowFieldList,
}

/// The shape of the shadow type.
pub enum ShadowShape {
    Struct(ShadowFieldList),
    Enum(Vec<ShadowVariant>),
}

/// The declaration the generator produces: the shadow type, with the fresh
/// borrow lifetime appended to the generics and the marker asking for the
/// default shape-derived rendering of its (already wrapped) fields.
pub struct ShadowTypeDescriptor {
    pub name: String,
    pub generics: Vec<String>,
    pub derives_debug: bool,
    pub shape: ShadowShape,
}

/// The text of the fresh borrow lifetime appended to the shadow's generics.
pub open spec fn borrow_lifetime_s() -> Seq<char> {
    "'__hunter2"@
}

/// The fresh borrow lifetime, scoped to one render call.
pub fn borrow_lifetime() -> (r: String)
    ensures
        r@ == borrow_lifetime_s(),
{
    String::from_str("'__hunter2")
}

/// How one shadow field relates to the field it stands for: same name, the
/// same base type behind the wrapper, the wrapper chosen by the hidden
/// marker, and the marker consumed — a hidden field's attributes are dropped,
/// a transparent field's kept.
pub open spec fn shadow_field_ok(f: FieldDescriptor, r: ShadowField) -> bool {
    &&& name_eq(f.name, r.name)
    &&& match r.ty {
        ShadowTy::Masked { base } => field_hidden_s(f) && base@ == f.ty@,
        ShadowTy::Borrowed { base } => !field_hidden_s(f) && base@ == f.ty@,
    }
    &&& if field_hidden_s(f) {
        r.attrs@.len() == 0
    } else {
        attrs_eq(f.attrs@, r.attrs@)
    }
}

/// The shadow field list mirrors the original's kind, length and order, with
/// every field wrapped.
pub open spec fn shadow_fields_ok(fl: FieldList, r: ShadowFieldList) -> bool {
    match fl {
        FieldList::Named(fs) => r matches ShadowFieldList::Named(rs) && fs@.len() == rs@.len()
            && forall|i: int| 0 <= i < fs@.len() ==> shadow_field_ok(#[trigger] fs@[i], rs@[i]),
        FieldList::Unnamed(fs) => r matches ShadowFieldList::Unnamed(rs) && fs@.len() == rs@.len()
            && forall|i: int| 0 <= i < fs@.len() ==> shadow_field_ok(#[trigger] fs@[i], rs@[i]),
        FieldList::Unit => r is Unit,
    }
}

/// A shadow variant keeps the original variant's name and attributes and
/// wraps its fields.
pub open spec fn shadow_variant_ok(v: VariantDescriptor, r: ShadowVariant) -> bool {
    &&& r.name@ == v.name@
    &&& attrs_eq(v.attrs@, r.attrs@)
    &&& shadow_fields_ok(v.fields, r.fields)
}

/// The whole shadow declaration: same name, the original generics with the
/// fresh borrow lifetime appended, the default-rendering marker attached, and
/// a shape isomorphic to the original's with every field wrapped.
pub open spec fn shadow_decl_ok(t: TypeDescriptor, r: ShadowTypeDescriptor) -> bool {
    &&& r.name@ == t.name@
    &&& r.generics@.len() == t.generics@.len() + 1
    &&& forall|i: int| 0 <= i < t.generics@.len() ==> (#[trigger] r.generics@[i])@
        == t.generics@[i]@
    &&& r.generics@[t.generics@.len() as int]@ == borrow_lifetime_s()
    &&& r.derives_debug
    &&& match t.shape {
        Shape::Struct(fl) => r.shape matches ShadowShape::Struct(sl) && shadow_fields_ok(fl, sl),
        Shape::Enum(vs) => r.shape matches ShadowShape::Enum(rs) && vs@.len() == rs@.len()
            && forall|i: int| 0 <= i < vs@.len() ==> shadow_variant_ok(#[trigger] vs@[i], rs@[i]),
    }
}

/// Wrap one field: the hidden marker selects the masking wrapper and is
/// consumed together with the field's other attributes; otherwise the field
/// becomes a borrow and keeps its attributes.
pub fn shadow_field(f: &FieldDescriptor) -> (r: ShadowField)
    ensures
        shadow_field_ok(*f, r),
{
    let name = clone_name(&f.name);
    if has_hidden_attr(f) {
        ShadowField { name, attrs: Vec::new(), ty: ShadowTy::Masked { base: clone_string(&f.ty) } }
    } else {
        ShadowField {
            name,
            attrs: clone_attrs(&f.attrs),
            ty: ShadowTy::Borrowed { base: clone_string(&f.ty) },
        }
    }
}

/// Wrap every field of one list, preserving order.
fn shadow_field_vec(fs: &Vec<FieldDescriptor>) -> (r: Vec<ShadowField>)
    ensures
        r@.len() == fs@.len(),
        forall|i: int| 0 <= i < fs@.len() ==> shadow_field_ok(#[trigger] fs@[i], r@[i]),
{
    let n: usize = fs.len();
    let mut out: Vec<ShadowField> = Vec::new();
    let mut i: usize = 0;
    while i < n
        invariant
            n == fs@.len(),
            i <= n,
            out@.len() == i,
            forall|j: int| 0 <= j < i ==> shadow_field_ok(#[trigger] fs@[j], out@[j]),
        decreases n - i,
    {
        out.push(shadow_field(&fs[i]));
        i = i + 1;
    }
    out
}

/// Wrap a whole field list, keeping its kind (named, positional, none).
pub fn shadow_field_list(fl: &FieldList) -> (r: ShadowFieldList)
    ensures
        shadow_fields_ok(*fl, r),
{
    match fl {
        FieldList::Named(fs) => ShadowFieldList::Named(shadow_field_vec(fs)),
        FieldList::Unnamed(fs) => ShadowFieldList::Unnamed(shadow_field_vec(fs)),
        FieldList::Unit => ShadowFieldList::Unit,
    }
}

/// Wrap one enum variant: name and attributes pass through, fields wrap.
pub fn shadow_variant(v: &VariantDescriptor) -> (r: ShadowVariant)
    ensures
        shadow_variant_ok(*v, r),
{
    ShadowVariant {
        name: clone_string(&v.name),
        attrs: clone_attrs(&v.attrs),
        fields: shadow_field_list(&v.fields),
    }
}

/// Append the fresh borrow lifetime to the original's generic parameters.
fn shadow_generics(generics: &Vec<String>) -> (r: Vec<String>)
    ensures
        r@.len() == generics@.len() + 1,
        forall|i: int| 0 <= i < generics@.len() ==> (#[trigger] r@[i])@ == generics@[i]@,
        r@[generics@.len() as int]@ == borrow_lifetime_s(),
{
    let n: usize = generics.len();
    let mut out: Vec<String> = Vec::new();
    let mut i: usize = 0;
    while i < n
        invariant
            n == generics@.len(),
            i <= n,
            out@.len() == i,
            forall|j: int| 0 <= j < i ==> (#[trigger] out@[j])@ == generics@[j]@,
        decreases n - i,
    {
        out.push(clone_string(&generics[i]));
        i = i + 1;
    }
    out.push(borrow_lifetime());
    out
}

/// Derive the whole shadow declaration for a type: shape-preserving, with
/// hidden fields wrapped for masking, transparent fields for borrowing, the
/// fresh borrow lifetime appended, and default rendering derived.
pub fn shadow_declaration(t: &TypeDescriptor) -> (r: ShadowTypeDescriptor)
    ensures
        shadow_decl_ok(*t, r),
{
    let shape = match &t.shape {
        Shape::Struct(fl) => ShadowShape::Struct(shadow_field_list(fl)),
        Shape::Enum(vs) => {
            let n: usize = vs.len();
            let mut out: Vec<ShadowVariant> = Vec::new();
            let mut i: usize = 0;
            while i < n
                invariant
                    n == vs@.len(),
                    i <= n,
                    out@.len() == i,
                    forall|j: int| 0 <= j < i ==> shadow_variant_ok(#[trigger] vs@[j], out@[j]),
                decreases n - i,
            {
                out.push(shadow_variant(&vs[i]));
                i = i + 1;
            }
            ShadowShape::Enum(out)
        },
    };
    ShadowTypeDescriptor {
        name: clone_string(&t.name),
        generics: shadow_generics(&t.generics),
        derives_debug: true,
        shape,
    }
}

/// One member of an aggregate, as a destructuring pattern or a constructed
/// value names it: a field name, or a position.
pub enum Member {
    Named(String),
    Position(usize),
}

/// One field's part in the construction match. In the arm's pattern the
/// member is bound to the synthesized name `field_<index>`; in the arm's body
/// the same member of the shadow is set to the uniform conversion of that
/// binding, `Into::into(field_<index>)`, which the shadow field's declared
/// type resolves to a borrow or to the masking wrapper.
pub struct FieldBinding {
    pub member: Member,
    pub index: usize,
}

/// One arm of the construction match: for a struct the single arm over
/// `Self`, for an enum one arm per variant (`variant` names it), each
/// destructuring the original and rebuilding the same-shaped shadow.
pub struct ConstructionArm {
    pub variant: Option<String>,
    pub bindings: Vec<FieldBinding>,
}

/// The expression that builds a shadow value from a borrowed original: a
/// match on the receiver whose arms mirror the type's shape.
pub struct ConstructionExpr {
    pub arms: Vec<ConstructionArm>,
}

/// How one binding relates to the field it connects: a named field is bound
/// through its own name, a positional field through its position, and the
/// synthesized binding name carries the field's index either way.
pub open spec fn binding_ok(f: FieldDescriptor, idx: int, b: FieldBinding) -> bool {
    &&& b.index == idx
    &&& match f.name {
        Some(n) => b.member matches Member::Named(m) && m@ == n@,
        None => b.member matches Member::Position(p) && p == idx,
    }
}

/// The bindings cover the field list exactly, in original order.
pub open spec fn bindings_ok(fl: FieldList, bs: Seq<FieldBinding>) -> bool {
    match fl {
        FieldList::Named(fs) => bs.len() == fs@.len() && forall|i: int|
            0 <= i < fs@.len() ==> binding_ok(#[trigger] fs@[i], i, bs[i]),
        FieldList::Unnamed(fs) => bs.len() == fs@.len() && forall|i: int|
            0 <= i < fs@.len() ==> binding_ok(#[trigger] fs@[i], i, bs[i]),
        FieldList::Unit => bs.len() == 0,
    }
}

/// One arm stands for one variant, under the variant's own name, with the
/// variant's fields bound exactly.
pub open spec fn arm_ok(v: VariantDescriptor, a: ConstructionArm) -> bool {
    &&& a.variant is Some
    &&& a.variant->0@ == v.name@
    &&& bindings_ok(v.fields, a.bindings@)
}

/// The whole construction expression mirrors the type's shape: one anonymous
/// arm for a struct, one named arm per variant for an enum.
pub open spec fn construction_ok(t: TypeDescriptor, r: ConstructionExpr) -> bool {
    match t.shape {
        Shape::Struct(fl) => r.arms@.len() == 1 && r.arms@[0].variant is None && bindings_ok(
            fl,
            r.arms@[0].bindings@,
        ),
        Shape::Enum(vs) => r.arms@.len() == vs@.len() && forall|i: int|
            0 <= i < vs@.len() ==> arm_ok(#[trigger] vs@[i], r.arms@[i]),
    }
}

/// Bind every field of one list: named fields by name, positional fields by
/// position, each to the synthesized binding of its index.
pub fn mk_bindings(fl: &FieldList) -> (r: Vec<FieldBinding>)
    ensures
        bindings_ok(*fl, r@),
{
    let fs: &Vec<FieldDescriptor> = match fl {
        FieldList::Named(fs) => fs,
        FieldList::Unnamed(fs) => fs,
        FieldList::Unit => {
            return Vec::new();
        },
    };
    let n: usize = fs.len();
    let mut out: Vec<FieldBinding> = Vec::new();
    let mut i: usize = 0;
    while i < n
        invariant
            n == fs@.len(),
            i <= n,
            out@.len() == i,
            forall|j: int| 0 <= j < i ==> binding_ok(#[trigger] fs@[j], j, out@[j]),
        decreases n - i,
    {
        let member = match &fs[i].name {
            Some(name) => Member::Named(name.clone()),
            None => Member::Position(i),
        };
        out.push(FieldBinding { member, index: i });
        i = i + 1;
    }
    out
}

/// Build one arm for the struct case or for one variant.
fn mk_arm(variant: Option<String>, fields: &FieldList) -> (r: ConstructionArm)
    ensures
        r.variant == variant,
        bindings_ok(*fields, r.bindings@),
{
    ConstructionArm { variant, bindings: mk_bindings(fields) }
}

/// Derive the construction expression for a type: a struct destructures and
/// rebuilds through the single arm, an enum through one arm per variant.
pub fn construction_expr(t: &TypeDescriptor) -> (r: ConstructionExpr)
    ensures
        construction_ok(*t, r),
{
    let mut arms: Vec<ConstructionArm> = Vec::new();
    match &t.shape {
        Shape::Struct(fl) => {
            arms.push(mk_arm(None, fl));
        },
        Shape::Enum(vs) => {
            let n: usize = vs.len();
            let mut i: usize = 0;
            while i < n
                invariant
                    n == vs@.len(),
                    i <= n,
                    arms@.len() == i,
                    forall|j: int| 0 <= j < i ==> arm_ok(#[trigger] vs@[j], arms@[j]),
                decreases n - i,
            {
                arms.push(mk_arm(Some(clone_string(&vs[i].name)), &vs[i].fields));
                i = i + 1;
            }
        },
    }
    ConstructionExpr { arms }
}

} // verus!
