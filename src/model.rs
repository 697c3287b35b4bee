//! The decorated item, and the impl that replaces it, as plain values.

use vstd::prelude::*;

verus! {

/// The trait reference of a trait impl.
#[derive(Clone, Debug)]
pub struct TraitRef {
    /// Whether the trait is written with a leading `!`.
    pub negated: bool,
    /// The identifier of the last segment of the trait path.
    pub name: String,
}

/// An impl block, each part held as its source text.
#[derive(Clone, Debug)]
pub struct ImplDecl {
    /// Outer attributes, one per entry.
    pub attrs: Vec<String>,
    /// Inner attributes of the body, one per entry.
    pub inner_attrs: Vec<String>,
    /// Whether the impl is a `default impl`.
    pub defaultness: bool,
    /// Whether the impl is an `unsafe impl`.
    pub unsafety: bool,
    /// The generic parameter list with its angle brackets, or empty.
    pub generics: String,
    /// The trait being implemented; `None` for an inherent impl.
    pub trait_ref: Option<TraitRef>,
    /// The type the impl is for.
    pub self_ty: String,
    /// The where-clause predicates, one per entry.
    pub where_preds: Vec<String>,
    /// The items of the body, one per entry.
    pub items: Vec<String>,
}

/// The item that the attribute decorates.
#[derive(Clone, Debug)]
pub enum Item {
    Impl(ImplDecl),
    /// Any item that is not an impl block.
    Other,
}

/// The impl that stands in for a negative impl.
pub struct NegativeImpl {
    pub attrs: Vec<String>,
    pub inner_attrs: Vec<String>,
    pub defaultness: bool,
    pub unsafety: bool,
    pub generics: String,
    /// The trait's fully qualified path.
    pub trait_path: String,
    pub self_ty: String,
    pub where_preds: Vec<String>,
}

/// An impl with no items, each part as a sequence of characters.
pub struct ImplView {
    pub attrs: Seq<Seq<char>>,
    pub inner_attrs: Seq<Seq<char>>,
    pub defaultness: bool,
    pub unsafety: bool,
    pub generics: Seq<char>,
    pub trait_path: Seq<char>,
    pub self_ty: Seq<char>,
    pub where_preds: Seq<Seq<char>>,
}

pub open spec fn texts(v: Seq<String>) -> Seq<Seq<char>> {
    v.map_values(|s: String| s@)
}

impl View for NegativeImpl {
    type V = ImplView;

    open spec fn view(&self) -> ImplView {
        ImplView {
            attrs: texts(self.attrs@),
            inner_attrs: texts(self.inner_attrs@),
            defaultness: self.defaultness,
            unsafety: self.unsafety,
            generics: self.generics@,
            trait_path: self.trait_path@,
            self_ty: self.self_ty@,
            where_preds: texts(self.where_preds@),
        }
    }
}

} // verus!
