//! The multi-line structural renderer.
//!
//! A render value is one aggregate about to be rendered: its name and, per
//! field, the text that the field's own normal rendering produced, together
//! with the field's hidden flag. Rendering lays the fields out exactly as the
//! default shape-derived multi-line rendering would — braces or parentheses,
//! `name: value` pairs for named fields, one field per line, trailing commas —
//! and, when masking is on, drives each hidden field's text through the
//! masking filter while leaving every other field's text untouched.

use vstd::prelude::*;

use crate::mask::{mask_str, mask_text_s};
use crate::model::name_eq;

verus! {

/// One field about to be rendered: its name (`Some` for named fields), the
/// text of its own normal rendering, and whether it is hidden.
pub struct RenderField {
    pub name: Option<String>,
    pub text: String,
    pub hidden: bool,
}

/// One aggregate about to be rendered: a named-field record, a positional
/// record, or a bare name.
pub enum RenderValue {
    Record { name: String, fields: Vec<RenderField> },
    Tuple { name: String, fields: Vec<RenderField> },
    Unit { name: String },
}

/// One field's line: four spaces of indentation, the `name: ` prefix for a
/// named field, the field's text — masked exactly when masking is on and the
/// field is hidden — and the trailing comma and line break.
pub open spec fn render_field_entry(f: RenderField, masked: bool) -> Seq<char> {
    let body = if masked && f.hidden {
        mask_text_s(f.text@)
    } else {
        f.text@
    };
    let prefix = match f.name {
        Some(n) => "    "@ + n@ + ": "@,
        None => "    "@,
    };
    prefix + body + ",\n"@
}

/// All field lines, in order.
pub open spec fn render_fields_s(fs: Seq<RenderField>, masked: bool) -> Seq<char>
    decreases fs.len(),
{
    if fs.len() == 0 {
        Seq::empty()
    } else {
        render_fields_s(fs.drop_last(), masked) + render_field_entry(fs.last(), masked)
    }
}

/// The whole rendering: `Name {` … `}` for a named-field record, `Name(` …
/// `)` for a positional one, the bare name for an empty field list or a unit
/// value — byte for byte the default multi-line structural layout, with only
/// hidden fields' texts masked when masking is on.
pub open spec fn render_s(v: RenderValue, masked: bool) -> Seq<char> {
    match v {
        RenderValue::Record { name, fields } => if fields@.len() == 0 {
            name@
        } else {
            name@ + " {\n"@ + render_fields_s(fields@, masked) + "}"@
        },
        RenderValue::Tuple { name, fields } => if fields@.len() == 0 {
            name@
        } else {
            name@ + "(\n"@ + render_fields_s(fields@, masked) + ")"@
        },
        RenderValue::Unit { name } => name@,
    }
}

/// Taking one more field appends exactly that field's line.
proof fn lemma_render_fields_take(fs: Seq<RenderField>, i: int, masked: bool)
    requires
        0 <= i < fs.len(),
    ensures
        render_fields_s(fs.take(i + 1), masked) == render_fields_s(fs.take(i), masked)
            + render_field_entry(fs[i], masked),
{
    assert(fs.take(i + 1).drop_last() =~= fs.take(i));
    assert(fs.take(i + 1).last() == fs[i]);
}

/// Render all field lines of one aggregate.
fn render_fields(fields: &Vec<RenderField>, masked: bool) -> (r: String)
    ensures
        r@ == render_fields_s(fields@, masked),
{
    let n: usize = fields.len();
    let mut out = String::new();
    let mut i: usize = 0;
    proof {
        assert(fields@.take(0) =~= Seq::<RenderField>::empty());
    }
    while i < n
        invariant
            n == fields@.len(),
            i <= n,
            out@ == render_fields_s(fields@.take(i as int), masked),
        decreases n - i,
    {
        let f = &fields[i];
        out.append("    ");
        match &f.name {
            Some(name) => {
                out.append(name.as_str());
                out.append(": ");
            },
            None => {},
        }
        if masked && f.hidden {
            let m = mask_str(f.text.as_str());
            out.append(m.as_str());
        } else {
            out.append(f.text.as_str());
        }
        out.append(",\n");
        proof {
            lemma_render_fields_take(fields@, i as int, masked);
            assert(out@ =~= render_fields_s(fields@.take(i as int + 1), masked));
        }
        i = i + 1;
    }
    proof {
        assert(fields@.take(n as int) =~= fields@);
    }
    out
}

/// Render one aggregate in the multi-line structural layout. With `masked`
/// on, each hidden field's text is driven through the masking filter; with it
/// off, the result is the value's plain default rendering.
pub fn render_value(v: &RenderValue, masked: bool) -> (r: String)
    ensures
        r@ == render_s(*v, masked),
{
    match v {
        RenderValue::Record { name, fields } => {
            if fields.len() == 0 {
                return name.clone();
            }
            let mut out = name.clone();
            out.append(" {\n");
            let body = render_fields(fields, masked);
            out.append(body.as_str());
            out.append("}");
            proof {
                assert(out@ =~= render_s(*v, masked));
            }
            out
        },
        RenderValue::Tuple { name, fields } => {
            if fields.len() == 0 {
                return name.clone();
            }
            let mut out = name.clone();
            out.append("(\n");
            let body = render_fields(fields, masked);
            out.append(body.as_str());
            out.append(")");
            proof {
                assert(out@ =~= render_s(*v, masked));
            }
            out
        },
        RenderValue::Unit { name } => name.clone(),
    }
}

/// Two fields agree except that the second's text is the first's with hidden
/// text already masked.
pub open spec fn field_same_but_masked(f1: RenderField, f2: RenderField) -> bool {
    &&& name_eq(f1.name, f2.name)
    &&& f1.hidden == f2.hidden
    &&& f2.text@ == if f1.hidden {
        mask_text_s(f1.text@)
    } else {
        f1.text@
    }
}

/// Two field lists agree pointwise in that way.
pub open spec fn fields_same_but_masked(fs1: Seq<RenderField>, fs2: Seq<RenderField>) -> bool {
    fs1.len() == fs2.len() && forall|i: int|
        0 <= i < fs1.len() ==> field_same_but_masked(#[trigger] fs1[i], fs2[i])
}

/// Two values have the same shape and name, and their fields agree except
/// that the second's hidden texts are already masked.
pub open spec fn same_but_masked(v1: RenderValue, v2: RenderValue) -> bool {
    match v1 {
        RenderValue::Record { name, fields } => v2 matches RenderValue::Record {
            name: n2,
            fields: f2,
        } && name@ == n2@ && fields_same_but_masked(fields@, f2@),
        RenderValue::Tuple { name, fields } => v2 matches RenderValue::Tuple {
            name: n2,
            fields: f2,
        } && name@ == n2@ && fields_same_but_masked(fields@, f2@),
        RenderValue::Unit { name } => v2 matches RenderValue::Unit { name: n2 } && name@ == n2@,
    }
}

proof fn lemma_fields_shape_preservation(fs1: Seq<RenderField>, fs2: Seq<RenderField>)
    requires
        fields_same_but_masked(fs1, fs2),
    ensures
        render_fields_s(fs1, true) == render_fields_s(fs2, false),
    decreases fs1.len(),
{
    if fs1.len() > 0 {
        assert(fields_same_but_masked(fs1.drop_last(), fs2.drop_last()));
        lemma_fields_shape_preservation(fs1.drop_last(), fs2.drop_last());
        assert(render_field_entry(fs1.last(), true) == render_field_entry(fs2.last(), false));
    }
}

/// Shape preservation: the masked rendering of a value is, byte for byte, the
/// plain default rendering of the same value whose hidden texts were already
/// masked — field names, positions, punctuation and line breaks are exactly
/// those of the default rendering, and only hidden texts differ.
pub proof fn lemma_shape_preservation(v1: RenderValue, v2: RenderValue)
    requires
        same_but_masked(v1, v2),
    ensures
        render_s(v1, true) == render_s(v2, false),
{
    match v1 {
        RenderValue::Record { name, fields } => {
            if let RenderValue::Record { name: n2, fields: f2 } = v2 {
                lemma_fields_shape_preservation(fields@, f2@);
            }
        },
        RenderValue::Tuple { name, fields } => {
            if let RenderValue::Tuple { name: n2, fields: f2 } = v2 {
                lemma_fields_shape_preservation(fields@, f2@);
            }
        },
        RenderValue::Unit { name } => {},
    }
}

/// No field of the value is hidden.
pub open spec fn no_hidden_fields(v: RenderValue) -> bool {
    match v {
        RenderValue::Record { name, fields } => forall|i: int|
            0 <= i < fields@.len() ==> !(#[trigger] fields@[i]).hidden,
        RenderValue::Tuple { name, fields } => forall|i: int|
            0 <= i < fields@.len() ==> !(#[trigger] fields@[i]).hidden,
        RenderValue::Unit { name } => true,
    }
}

proof fn lemma_fields_transparent_identity(fs: Seq<RenderField>)
    requires
        forall|i: int| 0 <= i < fs.len() ==> !(#[trigger] fs[i]).hidden,
    ensures
        render_fields_s(fs, true) == render_fields_s(fs, false),
    decreases fs.len(),
{
    if fs.len() > 0 {
        lemma_fields_transparent_identity(fs.drop_last());
    }
}

/// Transparent fields render identically: on a value with no hidden field the
/// masked rendering equals the plain default rendering, character for
/// character.
pub proof fn lemma_transparent_identity(v: RenderValue)
    requires
        no_hidden_fields(v),
    ensures
        render_s(v, true) == render_s(v, false),
{
    match v {
        RenderValue::Record { name, fields } => {
            lemma_fields_transparent_identity(fields@);
        },
        RenderValue::Tuple { name, fields } => {
            lemma_fields_transparent_identity(fields@);
        },
        RenderValue::Unit { name } => {},
    }
}

} // verus!
