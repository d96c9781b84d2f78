//! Redacting structural rendering.
//!
//! A record type may mark some of its fields as hidden. When such a type is
//! rendered for inspection, a hidden field's text is masked: every character
//! of its normal rendering is replaced by a mask character, except line
//! breaks, which pass through unchanged. All other fields render exactly as
//! they normally would.
//!
//! The crate is organised around three pieces:
//! - [`mask`]: the masking character filter and the sink that applies it;
//! - [`model`] and [`shadow`]: a descriptor model of record types and the
//!   generator that derives, from a type's descriptor, the parallel "shadow"
//!   descriptor whose hidden fields carry the masking wrapper, together with
//!   the expression that builds a shadow value from a borrowed original;
//! - [`render`] and [`driver`]: the multi-line structural renderer that
//!   produces the final text, masking exactly the hidden fields.

use vstd::prelude::*;

pub mod driver;
pub mod mask;
pub mod model;
pub mod render;
pub mod shadow;

verus! {

/// Selects the masking rendering behaviour for the borrowed value in place of the
/// value's own rendering behaviour.
///
/// A shadow type holds a `Hidden<'borrow, T>` where the original holds a
/// hidden field of type `T`, and a plain `&'borrow T` where the field is not
/// hidden; rendering the shadow then masks exactly the hidden fields.
pub struct Hidden<'borrow, T>(pub &'borrow T);

impl<'borrow, T> From<&'borrow T> for Hidden<'borrow, T> {
    /// Wrap a borrowed value. The same uniform conversion builds every shadow
    /// field: its target type alone decides between `&T` and `Hidden<T>`.
    fn from(ref_: &'borrow T) -> (r: Hidden<'borrow, T>) {
        Hidden(ref_)
    }
}

impl<'borrow, T> vstd::std_specs::convert::FromSpecImpl<&'borrow T> for Hidden<'borrow, T> {
    open spec fn obeys_from_spec() -> bool {
        true
    }

    open spec fn from_spec(v: &'borrow T) -> Self {
        Hidden(v)
    }
}

} // verus!
