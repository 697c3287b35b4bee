//! Checking the input and building the impl that stands in for a negative impl.

use crate::catalog::{auto_trait_named, full_path_of, impl_is_unsafe, AutoTrait, TraitInfo};
use crate::error::{Diagnostic, ErrorKind, ShapeError, SpanAt};
use crate::model::{texts, ImplDecl, ImplView, Item, NegativeImpl};
use vstd::prelude::*;

verus! {

/// The attribute that keeps the emitted impl out of generated documentation.
pub open spec fn doc_hidden() -> Seq<char> {
    "#[doc(hidden)]"@
}

/// A where-clause predicate that no instantiation can satisfy: it asks that
/// `[()]` be `Sized` for every lifetime of a binder that nothing outside can
/// name.
pub open spec fn never_holds() -> Seq<char> {
    "for<'__dummy> [()]: ::core::marker::Sized"@
}

/// Why the attribute rejects its input, checked in this order; `None` when it
/// accepts it.
pub open spec fn rejection(args: Seq<char>, item: Item) -> Option<ErrorKind> {
    if args.len() > 0 {
        Some(ErrorKind::Argument)
    } else {
        match item {
            Item::Other => Some(ErrorKind::Shape(ShapeError::NotAnImpl)),
            Item::Impl(d) => match d.trait_ref {
                None => Some(ErrorKind::Shape(ShapeError::NotNegated)),
                Some(t) => if !t.negated {
                    Some(ErrorKind::Shape(ShapeError::NotNegated))
                } else if d.unsafety {
                    Some(ErrorKind::Shape(ShapeError::UnsafeNotAllowed))
                } else if d.items@.len() > 0 {
                    Some(ErrorKind::Shape(ShapeError::BodyNotEmpty))
                } else if auto_trait_named(t.name@) is None {
                    Some(ErrorKind::UnsupportedTrait)
                } else {
                    None
                },
            },
        }
    }
}

/// The part of the input that the rejection points at.
pub open spec fn rejection_site(args: Seq<char>, item: Item) -> SpanAt {
    if args.len() > 0 {
        SpanAt::Args
    } else {
        match item {
            Item::Impl(d) => match d.trait_ref {
                Some(t) => if !t.negated {
                    SpanAt::TraitPath
                } else if d.unsafety {
                    SpanAt::NegatedPath
                } else if d.items@.len() > 0 {
                    SpanAt::FirstItem
                } else {
                    SpanAt::TraitPath
                },
                None => SpanAt::Item,
            },
            Item::Other => SpanAt::Item,
        }
    }
}

/// The message of each rejection.
pub open spec fn rejection_message(args: Seq<char>, kind: ErrorKind) -> Seq<char> {
    match kind {
        ErrorKind::Argument => "unexpected token: `"@ + args + "`"@,
        ErrorKind::Shape(ShapeError::NotAnImpl) => "may only be used on negative trait impls"@,
        ErrorKind::Shape(ShapeError::NotNegated) => "may only be used on negative trait impls"@,
        ErrorKind::Shape(ShapeError::UnsafeNotAllowed) => "negative impls cannot be unsafe"@,
        ErrorKind::Shape(ShapeError::BodyNotEmpty) => "negative impls cannot have any items"@,
        ErrorKind::UnsupportedTrait => "non auto traits are not supported"@,
    }
}

/// The positive impl of `t` that stands in for the negative impl `d`: the
/// declaration kept as it was, `#[doc(hidden)]` added to its attributes, the
/// trait path made fully qualified, `unsafe` exactly where `t` asks for it,
/// and a predicate that never holds added to its where clause.
pub open spec fn synthesized(d: ImplDecl, t: AutoTrait) -> ImplView {
    ImplView {
        attrs: texts(d.attrs@).push(doc_hidden()),
        inner_attrs: texts(d.inner_attrs@),
        defaultness: d.defaultness,
        unsafety: impl_is_unsafe(t),
        generics: d.generics@,
        trait_path: full_path_of(t),
        self_ty: d.self_ty@,
        where_preds: texts(d.where_preds@).push(never_holds()),
    }
}

/// The auto trait named by an impl that the attribute accepts.
pub open spec fn negated_trait(d: ImplDecl) -> AutoTrait {
    auto_trait_named(d.trait_ref->Some_0.name@)->Some_0
}

/// Accepts only an empty argument list; otherwise reports the tokens.
pub fn parse_as_empty(tokens: &str) -> (r: Result<(), Diagnostic>)
    ensures
        tokens@.len() == 0 <==> r is Ok,
        r matches Err(e) ==> e.kind == ErrorKind::Argument && e.at == SpanAt::Args
            && e.message@ == rejection_message(tokens@, ErrorKind::Argument),
{
    if tokens.is_empty() {
        Ok(())
    } else {
        let mut message = "unexpected token: `".to_owned();
        message.append(tokens);
        message.append("`");
        Err(Diagnostic { kind: ErrorKind::Argument, at: SpanAt::Args, message })
    }
}

fn shape_error(kind: ShapeError, at: SpanAt) -> (r: Diagnostic)
    ensures
        r.kind == ErrorKind::Shape(kind),
        r.at == at,
        r.message@ == rejection_message(seq![], ErrorKind::Shape(kind)),
{
    let message = match kind {
        ShapeError::NotAnImpl => "may only be used on negative trait impls".to_owned(),
        ShapeError::NotNegated => "may only be used on negative trait impls".to_owned(),
        ShapeError::UnsafeNotAllowed => "negative impls cannot be unsafe".to_owned(),
        ShapeError::BodyNotEmpty => "negative impls cannot have any items".to_owned(),
    };
    Diagnostic { kind: ErrorKind::Shape(kind), at, message }
}

/// Checks the attribute's arguments and the decorated item, and turns an
/// accepted negative impl into the positive impl that stands in for it.
pub fn attribute(args: &str, item: Item) -> (r: Result<NegativeImpl, Diagnostic>)
    ensures
        match rejection(args@, item) {
            Some(kind) => r matches Err(e) && e.kind == kind && e.at == rejection_site(args@, item)
                && e.message@ == rejection_message(args@, kind),
            None => r matches Ok(o) && item matches Item::Impl(d) && o@ == synthesized(
                d,
                negated_trait(d),
            ),
        },
{
    parse_as_empty(args)?;
    let d = match item {
        Item::Impl(d) => d,
        Item::Other => {
            return Err(shape_error(ShapeError::NotAnImpl, SpanAt::Item));
        },
    };
    let ImplDecl {
        mut attrs,
        inner_attrs,
        defaultness,
        unsafety,
        generics,
        trait_ref,
        self_ty,
        mut where_preds,
        items,
    } = d;
    let name = match trait_ref {
        Some(t) => {
            if !t.negated {
                return Err(shape_error(ShapeError::NotNegated, SpanAt::TraitPath));
            }
            t.name
        },
        None => {
            return Err(shape_error(ShapeError::NotNegated, SpanAt::Item));
        },
    };
    if unsafety {
        return Err(shape_error(ShapeError::UnsafeNotAllowed, SpanAt::NegatedPath));
    }
    if items.len() > 0 {
        return Err(shape_error(ShapeError::BodyNotEmpty, SpanAt::FirstItem));
    }
    let info = TraitInfo::new(name.as_str())?;
    let ghost old_attrs = attrs@;
    let ghost old_preds = where_preds@;
    attrs.push("#[doc(hidden)]".to_owned());
    where_preds.push("for<'__dummy> [()]: ::core::marker::Sized".to_owned());
    proof {
        assert(texts(attrs@) =~= texts(old_attrs).push(doc_hidden()));
        assert(texts(where_preds@) =~= texts(old_preds).push(never_holds()));
    }
    Ok(
        NegativeImpl {
            attrs,
            inner_attrs,
            defaultness,
            unsafety: info.unsafety,
            generics,
            trait_path: info.full_path,
            self_ty,
            where_preds,
        },
    )
}

} // verus!
