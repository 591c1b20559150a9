//! Struct declarations.

use vstd::prelude::*;
use crate::attr::{Attribute, AttributeView};
use crate::path::{Path, PathView};
use crate::{text_view, views};

verus! {

/// The type of a field.
#[derive(Debug, PartialEq, Eq)]
pub enum Type {
    /// A path with no qualified self type: `String`, `Vec<u8>`, `crate::Favorites`.
    Path(Path),
    /// Any other type, kept as source text: `&'a str`, `[u8; 4]`, `(u8, u8)`.
    Other(String),
}

/// The mathematical value of a [`Type`].
pub enum TypeView {
    Path(PathView),
    Other(Seq<char>),
}

impl View for Type {
    type V = TypeView;

    open spec fn view(&self) -> TypeView {
        match *self {
            Type::Path(path) => TypeView::Path(path@),
            Type::Other(text) => TypeView::Other(text@),
        }
    }
}

impl Clone for Type {
    fn clone(&self) -> (r: Self)
        ensures
            r@ == self@,
    {
        match self {
            Type::Path(path) => Type::Path(path.clone()),
            Type::Other(text) => Type::Other(text.clone()),
        }
    }
}

/// One field of a struct.
#[derive(Debug, PartialEq, Eq)]
pub struct Field {
    pub attrs: Vec<Attribute>,
    /// The visibility as source text; empty where none is written.
    pub vis: String,
    /// The name; a field of a tuple struct has none.
    pub ident: Option<String>,
    pub ty: Type,
}

/// The mathematical value of a [`Field`].
pub struct FieldView {
    pub attrs: Seq<AttributeView>,
    pub vis: Seq<char>,
    pub ident: Option<Seq<char>>,
    pub ty: TypeView,
}

impl View for Field {
    type V = FieldView;

    open spec fn view(&self) -> FieldView {
        FieldView {
            attrs: views(self.attrs@),
            vis: self.vis@,
            ident: text_view(self.ident),
            ty: self.ty@,
        }
    }
}

impl Clone for Field {
    fn clone(&self) -> (r: Self)
        ensures
            r@ == self@,
    {
        let attrs = self.attrs.clone();
        assert(views(attrs@) =~= views(self.attrs@));
        let ident = match &self.ident {
            Some(name) => Some(name.clone()),
            None => None,
        };
        Field { attrs, vis: self.vis.clone(), ident, ty: self.ty.clone() }
    }
}

/// The fields of a struct, by the way they are written.
#[derive(Debug, PartialEq, Eq)]
pub enum Fields {
    /// In braces, each with a name: `{ a: u8, b: u8 }`.
    Named(Vec<Field>),
    /// In parentheses, without names: `(u8, u8)`.
    Unnamed(Vec<Field>),
    /// None at all: `struct Marker;`.
    Unit,
}

/// The mathematical value of a [`Fields`].
pub enum FieldsView {
    Named(Seq<FieldView>),
    Unnamed(Seq<FieldView>),
    Unit,
}

impl FieldsView {
    /// The fields in their order; none for a unit struct.
    pub open spec fn list(self) -> Seq<FieldView> {
        match self {
            FieldsView::Named(list) => list,
            FieldsView::Unnamed(list) => list,
            FieldsView::Unit => Seq::empty(),
        }
    }

    /// The same way of writing, with `list` in place of the fields. A unit
    /// struct stays one.
    pub open spec fn with_list(self, list: Seq<FieldView>) -> FieldsView {
        match self {
            FieldsView::Named(_) => FieldsView::Named(list),
            FieldsView::Unnamed(_) => FieldsView::Unnamed(list),
            FieldsView::Unit => FieldsView::Unit,
        }
    }

    /// Whether every field has a name.
    pub open spec fn all_named(self) -> bool {
        forall|i: int| 0 <= i < self.list().len() ==> (#[trigger] self.list()[i]).ident is Some
    }

    /// Whether the names fit the way of writing, as they do in a struct that
    /// was read from source: every field in braces has a name, and no field
    /// in parentheses has one.
    pub open spec fn well_formed(self) -> bool {
        match self {
            FieldsView::Named(list) => forall|i: int|
                0 <= i < list.len() ==> (#[trigger] list[i]).ident is Some,
            FieldsView::Unnamed(list) => forall|i: int|
                0 <= i < list.len() ==> (#[trigger] list[i]).ident is None,
            FieldsView::Unit => true,
        }
    }

    /// Whether these are the fields of a tuple struct that has at least one.
    pub open spec fn is_tuple(self) -> bool {
        self is Unnamed && self.list().len() > 0
    }
}

/// In a struct that was read from source every field has a name, unless it
/// is a tuple struct with fields.
pub proof fn lemma_all_named_unless_tuple(fields: FieldsView)
    requires
        fields.well_formed(),
    ensures
        fields.all_named() <==> !fields.is_tuple(),
{
    if fields.is_tuple() {
        assert(fields.list()[0].ident is None);
    }
}

impl View for Fields {
    type V = FieldsView;

    open spec fn view(&self) -> FieldsView {
        match *self {
            Fields::Named(list) => FieldsView::Named(views(list@)),
            Fields::Unnamed(list) => FieldsView::Unnamed(views(list@)),
            Fields::Unit => FieldsView::Unit,
        }
    }
}

impl Fields {
    /// How many fields there are.
    pub fn len(&self) -> (n: usize)
        ensures
            n == self@.list().len(),
    {
        match self {
            Fields::Named(list) => list.len(),
            Fields::Unnamed(list) => list.len(),
            Fields::Unit => 0,
        }
    }
}

impl Clone for Fields {
    fn clone(&self) -> (r: Self)
        ensures
            r@ == self@,
    {
        match self {
            Fields::Named(list) => {
                let copy = list.clone();
                assert(views(copy@) =~= views(list@));
                Fields::Named(copy)
            },
            Fields::Unnamed(list) => {
                let copy = list.clone();
                assert(views(copy@) =~= views(list@));
                Fields::Unnamed(copy)
            },
            Fields::Unit => Fields::Unit,
        }
    }
}

/// A struct declaration.
#[derive(Debug, PartialEq, Eq)]
pub struct ItemStruct {
    pub attrs: Vec<Attribute>,
    /// The visibility as source text; empty where none is written.
    pub vis: String,
    pub ident: String,
    /// The generic parameters as source text, with their angle brackets;
    /// empty where there are none.
    pub generics: String,
    /// The `where` clause as source text; empty where there is none.
    pub where_clause: String,
    pub fields: Fields,
}

/// The mathematical value of an [`ItemStruct`].
pub struct ItemStructView {
    pub attrs: Seq<AttributeView>,
    pub vis: Seq<char>,
    pub ident: Seq<char>,
    pub generics: Seq<char>,
    pub where_clause: Seq<char>,
    pub fields: FieldsView,
}

impl View for ItemStruct {
    type V = ItemStructView;

    open spec fn view(&self) -> ItemStructView {
        ItemStructView {
            attrs: views(self.attrs@),
            vis: self.vis@,
            ident: self.ident@,
            generics: self.generics@,
            where_clause: self.where_clause@,
            fields: self.fields@,
        }
    }
}

impl Clone for ItemStruct {
    fn clone(&self) -> (r: Self)
        ensures
            r@ == self@,
    {
        let attrs = self.attrs.clone();
        assert(views(attrs@) =~= views(self.attrs@));
        ItemStruct {
            attrs,
            vis: self.vis.clone(),
            ident: self.ident.clone(),
            generics: self.generics.clone(),
            where_clause: self.where_clause.clone(),
            fields: self.fields.clone(),
        }
    }
}

} // verus!
