//! A verified model of the struct pair that the `graphql_object` attribute
//! produces: from one struct declaration, the declaration that is sent out as
//! a GraphQL object, the declaration that is taken in as a GraphQL input
//! object, and the conversion from the second to the first.
//!
//! Declarations are held as plain values: names are strings, and the parts
//! that are only carried along (visibility, generics, argument tokens) are kept
//! as source text.

use vstd::prelude::*;

pub mod attr;
pub mod generate;
pub mod item;
pub mod options;
pub mod path;
pub mod utils;

pub use generate::{
    generate_input_struct, generate_output_struct, graphql_object, input_struct_name, Expansion,
    InputError, InputObject, IntoImpl,
};
pub use utils::strip_annotations_with_path;

verus! {

/// The values that the elements of a sequence stand for, in order.
pub open spec fn views<T: View>(s: Seq<T>) -> Seq<T::V> {
    s.map_values(|x: T| x@)
}

/// The value of a text that may be missing.
pub open spec fn text_view(text: Option<String>) -> Option<Seq<char>> {
    match text {
        Some(t) => Some(t@),
        None => None,
    }
}

} // verus!
