//! Paths such as `doc`, `graphql_object` or `::std::vec::Vec<u8>`.

use vstd::prelude::*;
use crate::views;

verus! {

/// What follows the name in one segment of a path.
#[derive(Debug, PartialEq, Eq)]
pub enum PathArguments {
    /// Nothing: `Vec`.
    Absent,
    /// Arguments in angle brackets, kept as source text with the brackets: `<u8>`.
    AngleBracketed(String),
    /// Arguments in parentheses with what follows them, kept as source text: `(u8) -> bool`.
    Parenthesized(String),
}

/// The mathematical value of a [`PathArguments`].
pub enum PathArgumentsView {
    Absent,
    AngleBracketed(Seq<char>),
    Parenthesized(Seq<char>),
}

impl View for PathArguments {
    type V = PathArgumentsView;

    open spec fn view(&self) -> PathArgumentsView {
        match *self {
            PathArguments::Absent => PathArgumentsView::Absent,
            PathArguments::AngleBracketed(text) => PathArgumentsView::AngleBracketed(text@),
            PathArguments::Parenthesized(text) => PathArgumentsView::Parenthesized(text@),
        }
    }
}

impl PathArguments {
    /// Whether the segment has no arguments at all.
    pub fn is_none(&self) -> (r: bool)
        ensures
            r == (self@ is Absent),
    {
        match self {
            PathArguments::Absent => true,
            _ => false,
        }
    }
}

impl Clone for PathArguments {
    fn clone(&self) -> (r: Self)
        ensures
            r@ == self@,
    {
        match self {
            PathArguments::Absent => PathArguments::Absent,
            PathArguments::AngleBracketed(text) => PathArguments::AngleBracketed(text.clone()),
            PathArguments::Parenthesized(text) => PathArguments::Parenthesized(text.clone()),
        }
    }
}

/// One segment of a path: a name and its arguments.
#[derive(Debug, PartialEq, Eq)]
pub struct PathSegment {
    pub ident: String,
    pub arguments: PathArguments,
}

/// The mathematical value of a [`PathSegment`].
pub struct PathSegmentView {
    pub ident: Seq<char>,
    pub arguments: PathArgumentsView,
}

impl View for PathSegment {
    type V = PathSegmentView;

    open spec fn view(&self) -> PathSegmentView {
        PathSegmentView { ident: self.ident@, arguments: self.arguments@ }
    }
}

impl Clone for PathSegment {
    fn clone(&self) -> (r: Self)
        ensures
            r@ == self@,
    {
        PathSegment { ident: self.ident.clone(), arguments: self.arguments.clone() }
    }
}

/// A path: segments separated by `::`, with or without a leading `::`.
#[derive(Debug, PartialEq, Eq)]
pub struct Path {
    pub leading_colon: bool,
    pub segments: Vec<PathSegment>,
}

/// The mathematical value of a [`Path`].
pub struct PathView {
    pub leading_colon: bool,
    pub segments: Seq<PathSegmentView>,
}

impl PathView {
    /// The path of one bare name.
    pub open spec fn of_ident(ident: Seq<char>) -> PathView {
        PathView {
            leading_colon: false,
            segments: seq![PathSegmentView { ident, arguments: PathArgumentsView::Absent }],
        }
    }

    /// The name that the path consists of, where it is one bare name: no
    /// leading `::`, one segment, no arguments.
    pub open spec fn get_ident(self) -> Option<Seq<char>> {
        if !self.leading_colon && self.segments.len() == 1
            && self.segments[0].arguments is Absent {
            Some(self.segments[0].ident)
        } else {
            None
        }
    }

    /// Whether the path is the bare name `ident`.
    pub open spec fn is_ident(self, ident: Seq<char>) -> bool {
        self.get_ident() == Some(ident)
    }
}

impl View for Path {
    type V = PathView;

    open spec fn view(&self) -> PathView {
        PathView {
            leading_colon: self.leading_colon,
            segments: views(self.segments@),
        }
    }
}

impl Clone for Path {
    fn clone(&self) -> (r: Self)
        ensures
            r@ == self@,
    {
        let segments = self.segments.clone();
        assert(views(segments@) =~= views(self.segments@));
        Path { leading_colon: self.leading_colon, segments }
    }
}

impl Path {
    /// The path that consists of the bare name `ident`.
    pub fn from_ident(ident: String) -> (r: Path)
        ensures
            r@ == PathView::of_ident(ident@),
    {
        let mut segments: Vec<PathSegment> = Vec::new();
        segments.push(PathSegment { ident, arguments: PathArguments::Absent });
        let r = Path { leading_colon: false, segments };
        assert(r@.segments =~= PathView::of_ident(ident@).segments);
        r
    }

    /// The name that the path consists of, where it is one bare name.
    pub fn get_ident(&self) -> (r: Option<&String>)
        ensures
            r.is_some() == self@.get_ident().is_some(),
            r matches Some(name) ==> self@.get_ident() == Some(name@),
    {
        if !self.leading_colon && self.segments.len() == 1 && self.segments[0].arguments.is_none() {
            Some(&self.segments[0].ident)
        } else {
            None
        }
    }

    /// Whether the path is the bare name `ident`.
    pub fn is_ident(&self, ident: &String) -> (r: bool)
        ensures
            r == self@.is_ident(ident@),
    {
        match self.get_ident() {
            Some(name) => *name == *ident,
            None => false,
        }
    }
}

} // verus!
