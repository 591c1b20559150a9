//! The options of the attribute, on the struct and on its fields.

use vstd::prelude::*;
use crate::path::{Path, PathView};
use crate::text_view;

verus! {

/// The options written on the struct.
#[derive(Debug, PartialEq, Eq)]
pub struct GraphqlObjectMetaArgs {
    /// The text that documents the input object, in place of the text that
    /// documents the struct.
    pub input_type_doc: Option<String>,
    /// The name of the input object, in place of the struct's name followed
    /// by `Input`.
    pub input_type_name: Option<String>,
    /// Leaves the derive of `SimpleObject` off the struct, for the user to
    /// write.
    pub skip_derive_simple_object: bool,
}

/// The mathematical value of a [`GraphqlObjectMetaArgs`].
pub struct GraphqlObjectMetaArgsView {
    pub input_type_doc: Option<Seq<char>>,
    pub input_type_name: Option<Seq<char>>,
    pub skip_derive_simple_object: bool,
}

impl View for GraphqlObjectMetaArgs {
    type V = GraphqlObjectMetaArgsView;

    open spec fn view(&self) -> GraphqlObjectMetaArgsView {
        GraphqlObjectMetaArgsView {
            input_type_doc: text_view(self.input_type_doc),
            input_type_name: text_view(self.input_type_name),
            skip_derive_simple_object: self.skip_derive_simple_object,
        }
    }
}

impl Default for GraphqlObjectMetaArgs {
    /// No option set.
    fn default() -> (r: Self)
        ensures
            r@ == (GraphqlObjectMetaArgsView {
                input_type_doc: None,
                input_type_name: None,
                skip_derive_simple_object: false,
            }),
    {
        GraphqlObjectMetaArgs {
            input_type_doc: None,
            input_type_name: None,
            skip_derive_simple_object: false,
        }
    }
}

/// The options written on one field.
#[derive(Debug, PartialEq, Eq)]
pub struct GraphqlObjectFieldArgs {
    /// The type that the field has in the input object, in place of its own.
    /// It must convert into the field's own type.
    pub input_type: Option<Path>,
}

/// The mathematical value of a [`GraphqlObjectFieldArgs`].
pub struct GraphqlObjectFieldArgsView {
    pub input_type: Option<PathView>,
}

impl View for GraphqlObjectFieldArgs {
    type V = GraphqlObjectFieldArgsView;

    open spec fn view(&self) -> GraphqlObjectFieldArgsView {
        GraphqlObjectFieldArgsView {
            input_type: match self.input_type {
                Some(path) => Some(path@),
                None => None,
            },
        }
    }
}

} // verus!
