//! Helpers on lists of attributes.

use vstd::prelude::*;
use crate::attr::{retain_without_ident, without_ident, Attribute};
use crate::views;

verus! {

/// Removes from `attrs` every attribute whose path is the bare name `path`.
/// The others stay, in their order.
pub fn strip_annotations_with_path(path: String, attrs: &mut Vec<Attribute>)
    ensures
        views(final(attrs)@) == without_ident(views(old(attrs)@), path@),
{
    let new_attrs = retain_without_ident(attrs, &path);
    *attrs = new_attrs;
}

} // verus!
