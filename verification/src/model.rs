//! The descriptor model of record types.
//!
//! A type descriptor carries a type's name, its generic parameters and its
//! shape: a struct with one field list, or an enum with one field list per
//! variant. A field list is named, positional, or empty, and every field
//! carries its attributes and its declared type as plain text. The one
//! attribute the generator recognises is the bare marker `hidden`, which
//! flags a field for redaction.

use vstd::prelude::*;

verus! {

/// One attribute on a field or a variant: the text of its path, and whether
/// the attribute is a bare path with no arguments.
pub struct FieldAttr {
    pub path: String,
    pub bare: bool,
}

/// One field: its name (`Some` exactly for named fields), its attributes and
/// the text of its declared type.
pub struct FieldDescriptor {
    pub name: Option<String>,
    pub attrs: Vec<FieldAttr>,
    pub ty: String,
}

/// The fields of one aggregate: named, positional, or none.
pub enum FieldList {
    Named(Vec<FieldDescriptor>),
    Unnamed(Vec<FieldDescriptor>),
    Unit,
}

/// One variant of an enum: a name, the variant's own attributes, and a field
/// list shaped like a struct's.
pub struct VariantDescriptor {
    pub name: String,
    pub attrs: Vec<FieldAttr>,
    pub fields: FieldList,
}

/// The shape of a type: a struct with one field list, or an enum with its
/// ordered variants.
pub enum Shape {
    Struct(FieldList),
    Enum(Vec<VariantDescriptor>),
}

/// A whole type as the generator sees it.
pub struct TypeDescriptor {
    pub name: String,
    pub generics: Vec<String>,
    pub shape: Shape,
}

/// A named list holds only named fields; a positional list only positional
/// ones.
pub open spec fn field_list_wf(fl: FieldList) -> bool {
    match fl {
        FieldList::Named(fs) => forall|i: int| 0 <= i < fs@.len() ==> fs@[i].name is Some,
        FieldList::Unnamed(fs) => forall|i: int| 0 <= i < fs@.len() ==> fs@[i].name is None,
        FieldList::Unit => true,
    }
}

/// Every field list of the type is well formed.
pub open spec fn type_descriptor_wf(t: TypeDescriptor) -> bool {
    match t.shape {
        Shape::Struct(fl) => field_list_wf(fl),
        Shape::Enum(vs) => forall|i: int| 0 <= i < vs@.len() ==> field_list_wf(#[trigger] vs@[i].fields),
    }
}

/// The recognised hidden marker: a bare attribute whose path is exactly
/// `hidden`. Any other attribute, malformed or merely similar, does not mark
/// a field hidden.
pub open spec fn is_hidden_attr_s(a: FieldAttr) -> bool {
    a.bare && a.path@ == "hidden"@
}

/// A field is hidden when some attribute of it is the hidden marker.
pub open spec fn field_hidden_s(f: FieldDescriptor) -> bool {
    exists|i: int| 0 <= i < f.attrs@.len() && is_hidden_attr_s(#[trigger] f.attrs@[i])
}

/// Two attributes carry the same text and form.
pub open spec fn attr_eq(a: FieldAttr, b: FieldAttr) -> bool {
    a.path@ == b.path@ && a.bare == b.bare
}

/// Two attribute lists agree pointwise.
pub open spec fn attrs_eq(a: Seq<FieldAttr>, b: Seq<FieldAttr>) -> bool {
    a.len() == b.len() && forall|i: int| 0 <= i < a.len() ==> attr_eq(#[trigger] a[i], b[i])
}

/// Two optional names agree: both absent, or both present with the same text.
pub open spec fn name_eq(a: Option<String>, b: Option<String>) -> bool {
    match a {
        Some(x) => b is Some && x@ == b->0@,
        None => b is None,
    }
}

/// Decide whether one attribute is the hidden marker.
pub fn is_hidden_attr(a: &FieldAttr) -> (r: bool)
    ensures
        r == is_hidden_attr_s(*a),
{
    if !a.bare {
        return false;
    }
    let marker: String = String::from_str("hidden");
    a.path == marker
}

/// Decide whether a field carries the hidden marker among its attributes.
pub fn has_hidden_attr(f: &FieldDescriptor) -> (r: bool)
    ensures
        r == field_hidden_s(*f),
{
    let n: usize = f.attrs.len();
    let mut i: usize = 0;
    while i < n
        invariant
            n == f.attrs@.len(),
            i <= n,
            forall|j: int| 0 <= j < i ==> !is_hidden_attr_s(#[trigger] f.attrs@[j]),
        decreases n - i,
    {
        if is_hidden_attr(&f.attrs[i]) {
            return true;
        }
        i = i + 1;
    }
    false
}

/// Copy a string, keeping its text.
pub fn clone_string(s: &String) -> (r: String)
    ensures
        r@ == s@,
{
    s.clone()
}

/// Copy an optional name, keeping presence and text.
pub fn clone_name(n: &Option<String>) -> (r: Option<String>)
    ensures
        name_eq(*n, r),
{
    match n {
        Some(s) => Some(s.clone()),
        None => None,
    }
}

/// Copy one attribute, keeping its text and form.
pub fn clone_attr(a: &FieldAttr) -> (r: FieldAttr)
    ensures
        attr_eq(*a, r),
{
    FieldAttr { path: a.path.clone(), bare: a.bare }
}

/// Copy an attribute list, keeping order and contents.
pub fn clone_attrs(attrs: &Vec<FieldAttr>) -> (r: Vec<FieldAttr>)
    ensures
        attrs_eq(attrs@, r@),
{
    let n: usize = attrs.len();
    let mut out: Vec<FieldAttr> = Vec::new();
    let mut i: usize = 0;
    while i < n
        invariant
            n == attrs@.len(),
            i <= n,
            out@.len() == i,
            forall|j: int| 0 <= j < i ==> attr_eq(#[trigger] attrs@[j], out@[j]),
        decreases n - i,
    {
        out.push(clone_attr(&attrs[i]));
        i = i + 1;
    }
    out
}

} // verus!
