//! The emission driver.
//!
//! For one target type it assembles the complete rendering implementation:
//! the shadow type declared locally inside the rendering operation's body,
//! the construction of one shadow value from the borrowed receiver, and the
//! delegation of structural rendering to that shadow value against the
//! caller's sink. The sink's failure, if any, is returned unchanged; nothing
//! else can fail at render time.

use vstd::prelude::*;

use crate::mask::mask_text_s;
use crate::model::{
    clone_name, clone_string, field_hidden_s, has_hidden_attr, name_eq, FieldDescriptor,
    FieldList, TypeDescriptor,
};
use crate::render::{render_fields_s, render_value, RenderField, RenderValue};
use crate::shadow::{
    construction_expr, construction_ok, shadow_decl_ok, shadow_declaration, ConstructionExpr,
    ShadowTypeDescriptor,
};

verus! {

/// The rendering implementation for one target type: declare the shadow
/// locally, build one shadow value from the receiver via `construction`,
/// render the shadow into the forwarded sink.
pub struct RenderImpl {
    /// The name of the type the implementation is attached to.
    pub target: String,
    /// The local shadow declaration.
    pub shadow: ShadowTypeDescriptor,
    /// The expression building the shadow value from the borrowed receiver.
    pub construction: ConstructionExpr,
}

/// Assemble the rendering implementation for a type: the shadow declaration
/// and the construction expression both derive from the same descriptor, so
/// rendering the constructed shadow masks exactly the hidden fields and
/// leaves every other field's rendering untouched.
pub fn emit(t: &TypeDescriptor) -> (r: RenderImpl)
    ensures
        r.target@ == t.name@,
        shadow_decl_ok(*t, r.shadow),
        construction_ok(*t, r.construction),
{
    RenderImpl {
        target: clone_string(&t.name),
        shadow: shadow_declaration(t),
        construction: construction_expr(t),
    }
}

/// How many value texts one field list calls for.
pub open spec fn field_count(fl: FieldList) -> nat {
    match fl {
        FieldList::Named(fs) => fs@.len(),
        FieldList::Unnamed(fs) => fs@.len(),
        FieldList::Unit => 0,
    }
}

/// One render slot stands for one field: same name, the given text, and the
/// hidden flag read off the field's attributes.
pub open spec fn field_slot_ok(f: FieldDescriptor, text: Seq<char>, r: RenderField) -> bool {
    &&& name_eq(f.name, r.name)
    &&& r.text@ == text
    &&& r.hidden == field_hidden_s(f)
}

/// The shadow value mirrors the field list: kind, order and names, each slot
/// carrying its field's text and hidden flag.
pub open spec fn shadow_record_ok(
    name: Seq<char>,
    fl: FieldList,
    texts: Seq<Seq<char>>,
    r: RenderValue,
) -> bool {
    match fl {
        FieldList::Named(fs) => r matches RenderValue::Record { name: rn, fields: rfs } && rn@
            == name && rfs@.len() == fs@.len() && forall|i: int|
            0 <= i < fs@.len() ==> field_slot_ok(#[trigger] fs@[i], texts[i], rfs@[i]),
        FieldList::Unnamed(fs) => r matches RenderValue::Tuple { name: rn, fields: rfs } && rn@
            == name && rfs@.len() == fs@.len() && forall|i: int|
            0 <= i < fs@.len() ==> field_slot_ok(#[trigger] fs@[i], texts[i], rfs@[i]),
        FieldList::Unit => r matches RenderValue::Unit { name: rn } && rn@ == name,
    }
}

/// Build the render slots for one field list from the fields' texts.
fn shadow_slots(fs: &Vec<FieldDescriptor>, texts: &Vec<String>) -> (r: Vec<RenderField>)
    requires
        texts@.len() == fs@.len(),
    ensures
        r@.len() == fs@.len(),
        forall|i: int| 0 <= i < fs@.len() ==> field_slot_ok(#[trigger] fs@[i], texts@[i]@, r@[i]),
{
    let n: usize = fs.len();
    let mut out: Vec<RenderField> = Vec::new();
    let mut i: usize = 0;
    while i < n
        invariant
            n == fs@.len(),
            texts@.len() == n,
            i <= n,
            out@.len() == i,
            forall|j: int|
                0 <= j < i ==> field_slot_ok(#[trigger] fs@[j], texts@[j]@, out@[j]),
        decreases n - i,
    {
        out.push(
            RenderField {
                name: clone_name(&fs[i].name),
                text: clone_string(&texts[i]),
                hidden: has_hidden_attr(&fs[i]),
            },
        );
        i = i + 1;
    }
    out
}

/// Build the shadow value of one instance: the aggregate's name, its field
/// list's descriptor, and, per field, the text the field's own rendering
/// produced. Hidden flags come from the descriptor's attributes, so rendering
/// the result masks exactly the marked fields.
pub fn shadow_record(name: &String, fl: &FieldList, texts: &Vec<String>) -> (r: RenderValue)
    requires
        texts@.len() == field_count(*fl),
    ensures
        shadow_record_ok(name@, *fl, texts.deep_view(), r),
{
    match fl {
        FieldList::Named(fs) => RenderValue::Record {
            name: clone_string(name),
            fields: shadow_slots(fs, texts),
        },
        FieldList::Unnamed(fs) => RenderValue::Tuple {
            name: clone_string(name),
            fields: shadow_slots(fs, texts),
        },
        FieldList::Unit => RenderValue::Unit { name: clone_string(name) },
    }
}

/// One field's line of the shadowed rendering, straight from the descriptor:
/// the text is masked exactly when the field carries the hidden marker.
pub open spec fn shadowed_entry_s(f: FieldDescriptor, text: Seq<char>) -> Seq<char> {
    let body = if field_hidden_s(f) {
        mask_text_s(text)
    } else {
        text
    };
    match f.name {
        Some(n) => "    "@ + n@ + ": "@ + body + ",\n"@,
        None => "    "@ + body + ",\n"@,
    }
}

/// All field lines of the shadowed rendering, in field order.
pub open spec fn shadowed_entries_s(fs: Seq<FieldDescriptor>, texts: Seq<Seq<char>>) -> Seq<char>
    decreases fs.len(),
{
    if fs.len() == 0 {
        Seq::empty()
    } else {
        shadowed_entries_s(fs.drop_last(), texts.drop_last()) + shadowed_entry_s(
            fs.last(),
            texts.last(),
        )
    }
}

/// The complete shadowed rendering of one instance, as a function of the
/// descriptor and the fields' texts alone.
pub open spec fn shadowed_render_s(
    name: Seq<char>,
    fl: FieldList,
    texts: Seq<Seq<char>>,
) -> Seq<char> {
    match fl {
        FieldList::Named(fs) => if fs@.len() == 0 {
            name
        } else {
            name + " {\n"@ + shadowed_entries_s(fs@, texts) + "}"@
        },
        FieldList::Unnamed(fs) => if fs@.len() == 0 {
            name
        } else {
            name + "(\n"@ + shadowed_entries_s(fs@, texts) + ")"@
        },
        FieldList::Unit => name,
    }
}

proof fn lemma_slots_render(fs: Seq<FieldDescriptor>, texts: Seq<Seq<char>>, rfs: Seq<RenderField>)
    requires
        texts.len() == fs.len(),
        rfs.len() == fs.len(),
        forall|i: int| 0 <= i < fs.len() ==> field_slot_ok(#[trigger] fs[i], texts[i], rfs[i]),
    ensures
        render_fields_s(rfs, true) == shadowed_entries_s(fs, texts),
    decreases fs.len(),
{
    if fs.len() > 0 {
        lemma_slots_render(fs.drop_last(), texts.drop_last(), rfs.drop_last());
    }
}

/// Render one instance of a described type with its hidden fields masked:
/// the end-to-end path from the hidden markers in the descriptor to the final
/// text. The result is the default multi-line structural layout with each
/// marked field's text masked and every other field's text untouched.
pub fn render_shadowed(name: &String, fl: &FieldList, texts: &Vec<String>) -> (r: String)
    requires
        texts@.len() == field_count(*fl),
    ensures
        r@ == shadowed_render_s(name@, *fl, texts.deep_view()),
{
    let record = shadow_record(name, fl, texts);
    let out = render_value(&record, true);
    proof {
        match fl {
            FieldList::Named(fs) => {
                if let RenderValue::Record { name: rn, fields: rfs } = record {
                    lemma_slots_render(fs@, texts.deep_view(), rfs@);
                }
            },
            FieldList::Unnamed(fs) => {
                if let RenderValue::Tuple { name: rn, fields: rfs } = record {
                    lemma_slots_render(fs@, texts.deep_view(), rfs@);
                }
            },
            FieldList::Unit => {},
        }
    }
    out
}

} // verus!
