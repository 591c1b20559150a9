//! Outer attributes: `#[path tokens]`.

use vstd::prelude::*;
use crate::path::{Path, PathView};
use crate::views;

verus! {

/// What stands behind the path of an attribute.
#[derive(Debug, PartialEq, Eq)]
pub enum AttrTokens {
    /// Tokens as they were written, kept as source text; empty where the
    /// attribute is its path alone.
    Source(String),
    /// An equals sign and one string literal whose value is this text, as
    /// in `#[doc = "text"]`.
    Assigned(String),
}

/// The mathematical value of an [`AttrTokens`].
pub enum AttrTokensView {
    Source(Seq<char>),
    Assigned(Seq<char>),
}

impl View for AttrTokens {
    type V = AttrTokensView;

    open spec fn view(&self) -> AttrTokensView {
        match *self {
            AttrTokens::Source(text) => AttrTokensView::Source(text@),
            AttrTokens::Assigned(value) => AttrTokensView::Assigned(value@),
        }
    }
}

impl Clone for AttrTokens {
    fn clone(&self) -> (r: Self)
        ensures
            r@ == self@,
    {
        match self {
            AttrTokens::Source(text) => AttrTokens::Source(text.clone()),
            AttrTokens::Assigned(value) => AttrTokens::Assigned(value.clone()),
        }
    }
}

/// One outer attribute.
#[derive(Debug, PartialEq, Eq)]
pub struct Attribute {
    pub path: Path,
    pub tokens: AttrTokens,
}

/// The mathematical value of an [`Attribute`].
pub struct AttributeView {
    pub path: PathView,
    pub tokens: AttrTokensView,
}

impl AttributeView {
    /// The same attribute with the string `value` assigned to its path.
    pub open spec fn assigned(self, value: Seq<char>) -> AttributeView {
        AttributeView { path: self.path, tokens: AttrTokensView::Assigned(value) }
    }
}

impl View for Attribute {
    type V = AttributeView;

    open spec fn view(&self) -> AttributeView {
        AttributeView { path: self.path@, tokens: self.tokens@ }
    }
}

impl Clone for Attribute {
    fn clone(&self) -> (r: Self)
        ensures
            r@ == self@,
    {
        Attribute { path: self.path.clone(), tokens: self.tokens.clone() }
    }
}

/// The attributes of `attrs` whose path is not the bare name `ident`, in
/// their order.
pub open spec fn without_ident(attrs: Seq<AttributeView>, ident: Seq<char>) -> Seq<AttributeView> {
    attrs.filter(|a: AttributeView| !a.path.is_ident(ident))
}

/// Whether some attribute of `attrs` has the bare name `ident` as its path.
pub open spec fn has_ident(attrs: Seq<AttributeView>, ident: Seq<char>) -> bool {
    exists|i: int| 0 <= i < attrs.len() && (#[trigger] attrs[i]).path.is_ident(ident)
}

/// Nothing that `without_ident` keeps has the name, and it keeps no more
/// attributes than there were.
pub proof fn lemma_without_ident_has_none(attrs: Seq<AttributeView>, ident: Seq<char>)
    ensures
        !has_ident(without_ident(attrs, ident), ident),
        without_ident(attrs, ident).len() <= attrs.len(),
{
    let keep = |a: AttributeView| !a.path.is_ident(ident);
    attrs.lemma_filter_len(keep);
    assert forall|i: int| 0 <= i < attrs.filter(keep).len() implies !(#[trigger] attrs.filter(
        keep,
    )[i]).path.is_ident(ident) by {
        attrs.lemma_filter_pred(keep, i);
    }
}

/// Where no attribute has the name, `without_ident` keeps them all.
pub proof fn lemma_without_ident_keeps_all(attrs: Seq<AttributeView>, ident: Seq<char>)
    requires
        !has_ident(attrs, ident),
    ensures
        without_ident(attrs, ident) == attrs,
    decreases attrs.len(),
{
    reveal(Seq::filter);
    if attrs.len() > 0 {
        let rest = attrs.drop_last();
        assert forall|i: int| 0 <= i < rest.len() implies !(#[trigger] rest[i]).path.is_ident(
            ident,
        ) by {
            assert(rest[i] == attrs[i]);
        }
        lemma_without_ident_keeps_all(rest, ident);
        assert(!attrs[attrs.len() - 1].path.is_ident(ident));
        assert(rest.push(attrs.last()) =~= attrs);
    }
}

/// Taking the name out a second time changes nothing.
pub proof fn lemma_without_ident_twice(attrs: Seq<AttributeView>, ident: Seq<char>)
    ensures
        without_ident(without_ident(attrs, ident), ident) == without_ident(attrs, ident),
{
    lemma_without_ident_has_none(attrs, ident);
    lemma_without_ident_keeps_all(without_ident(attrs, ident), ident);
}

/// The place of the first attribute of `attrs` whose path is the bare name
/// `ident`; the length of `attrs` where there is none.
pub open spec fn first_with_ident(attrs: Seq<AttributeView>, ident: Seq<char>) -> int
    decreases attrs.len(),
{
    if attrs.len() == 0 || attrs[0].path.is_ident(ident) {
        0
    } else {
        1 + first_with_ident(attrs.drop_first(), ident)
    }
}

/// `first_with_ident` gives a place in `attrs` or its length; no attribute
/// before that place has the name, and the one at that place has it.
pub proof fn lemma_first_with_ident(attrs: Seq<AttributeView>, ident: Seq<char>)
    ensures
        0 <= first_with_ident(attrs, ident) <= attrs.len(),
        forall|j: int|
            0 <= j < first_with_ident(attrs, ident) ==> !(#[trigger] attrs[j]).path.is_ident(ident),
        first_with_ident(attrs, ident) < attrs.len() ==> attrs[first_with_ident(
            attrs,
            ident,
        )].path.is_ident(ident),
    decreases attrs.len(),
{
    if attrs.len() != 0 && !attrs[0].path.is_ident(ident) {
        let rest = attrs.drop_first();
        lemma_first_with_ident(rest, ident);
        assert forall|j: int| 0 <= j < first_with_ident(attrs, ident) implies !(
        #[trigger] attrs[j]).path.is_ident(ident) by {
            if j > 0 {
                assert(attrs[j] == rest[j - 1]);
            }
        }
    }
}

/// `first_with_ident` gives a place in `attrs` just where some attribute has
/// the name.
pub proof fn lemma_first_with_ident_found(attrs: Seq<AttributeView>, ident: Seq<char>)
    ensures
        first_with_ident(attrs, ident) < attrs.len() <==> has_ident(attrs, ident),
{
    lemma_first_with_ident(attrs, ident);
}

/// A place `k` that has the name, with none before it that has, is the one
/// that `first_with_ident` gives; so is the length, where no place has it.
pub proof fn lemma_first_with_ident_is(attrs: Seq<AttributeView>, ident: Seq<char>, k: int)
    requires
        0 <= k <= attrs.len(),
        forall|j: int| 0 <= j < k ==> !(#[trigger] attrs[j]).path.is_ident(ident),
        k < attrs.len() ==> attrs[k].path.is_ident(ident),
    ensures
        first_with_ident(attrs, ident) == k,
{
    lemma_first_with_ident(attrs, ident);
    let f = first_with_ident(attrs, ident);
    if f < k {
        assert(!attrs[f].path.is_ident(ident));
    }
}

/// Copies of the attributes of `attrs` whose path is not the bare name
/// `ident`, in their order.
pub fn retain_without_ident(attrs: &Vec<Attribute>, ident: &String) -> (kept: Vec<Attribute>)
    ensures
        views(kept@) == without_ident(views(attrs@), ident@),
{
    let ghost all = views(attrs@);
    let ghost keep = |a: AttributeView| !a.path.is_ident(ident@);
    let mut kept: Vec<Attribute> = Vec::new();
    let mut i: usize = 0;
    proof {
        reveal(Seq::filter);
        assert(all.take(0).filter(keep) =~= views(kept@));
    }
    while i < attrs.len()
        invariant
            i <= attrs.len(),
            all == views(attrs@),
            keep == |a: AttributeView| !a.path.is_ident(ident@),
            views(kept@) == all.take(i as int).filter(keep),
        decreases attrs.len() - i,
    {
        let ghost before = views(kept@);
        proof {
            assert(all.take(i + 1) =~= all.take(i as int).push(attrs[i as int]@));
            all.take(i as int).lemma_filter_push(attrs[i as int]@, keep);
        }
        if !attrs[i].path.is_ident(ident) {
            kept.push(attrs[i].clone());
            assert(views(kept@) =~= before.push(attrs[i as int]@));
        }
        i += 1;
    }
    assert(all.take(attrs.len() as int) =~= all);
    kept
}

/// The place of the first attribute of `attrs` whose path is the bare name
/// `ident`, if there is one.
pub fn find_ident(attrs: &Vec<Attribute>, ident: &String) -> (found: Option<usize>)
    ensures
        found is Some <==> has_ident(views(attrs@), ident@),
        found matches Some(k) ==> k == first_with_ident(views(attrs@), ident@),
{
    proof {
        lemma_first_with_ident_found(views(attrs@), ident@);
    }
    let mut i: usize = 0;
    while i < attrs.len()
        invariant
            i <= attrs.len(),
            forall|j: int| 0 <= j < i ==> !(#[trigger] views(attrs@)[j]).path.is_ident(ident@),
        decreases attrs.len() - i,
    {
        if attrs[i].path.is_ident(ident) {
            proof {
                lemma_first_with_ident_is(views(attrs@), ident@, i as int);
            }
            return Some(i);
        }
        i += 1;
    }
    proof {
        lemma_first_with_ident_is(views(attrs@), ident@, attrs.len() as int);
    }
    None
}

} // verus!
