//! Writing the replacement impl out as source text.

use crate::error::Diagnostic;
use crate::model::{texts, ImplView, Item, NegativeImpl};
use crate::synth::{attribute, negated_trait, rejection, rejection_message, rejection_site, synthesized};
use vstd::prelude::*;

verus! {

/// Each part followed by one space.
pub open spec fn spaced(parts: Seq<Seq<char>>) -> Seq<char>
    decreases parts.len(),
{
    if parts.len() == 0 {
        seq![]
    } else {
        spaced(parts.drop_last()) + parts.last() + " "@
    }
}

/// The parts with `", "` between each two of them.
pub open spec fn comma_separated(parts: Seq<Seq<char>>) -> Seq<char>
    decreases parts.len(),
{
    if parts.len() == 0 {
        seq![]
    } else if parts.len() == 1 {
        parts[0]
    } else {
        comma_separated(parts.drop_last()) + ", "@ + parts.last()
    }
}

/// The start of the anonymous block that holds the emitted impl.
pub open spec fn scope_open() -> Seq<char> {
    "const _: () = { #[allow(clippy::non_send_fields_in_send_ty)] "@
}

/// The end of the anonymous block.
pub open spec fn scope_close() -> Seq<char> {
    "} };"@
}

/// The source text of an impl with an empty body, inside an anonymous
/// `const _` block so that nothing it declares is visible outside.
pub open spec fn rendered(v: ImplView) -> Seq<char> {
    scope_open() + spaced(v.attrs) + (if v.defaultness {
        "default "@
    } else {
        seq![]
    }) + (if v.unsafety {
        "unsafe "@
    } else {
        seq![]
    }) + "impl"@ + v.generics + " "@ + v.trait_path + " for "@ + v.self_ty + " where "@
        + comma_separated(v.where_preds) + " { "@ + spaced(v.inner_attrs) + scope_close()
}

fn push_spaced(out: &mut String, parts: &Vec<String>)
    ensures
        final(out)@ == old(out)@ + spaced(texts(parts@)),
{
    let ghost start = out@;
    let n = parts.len();
    for i in 0..n
        invariant
            n == parts@.len(),
            out@ == start + spaced(texts(parts@.take(i as int))),
    {
        proof {
            assert(texts(parts@.take(i + 1)).drop_last() =~= texts(parts@.take(i as int)));
        }
        out.append(parts[i].as_str());
        out.append(" ");
    }
    proof {
        assert(parts@.take(n as int) =~= parts@);
    }
}

fn push_comma_separated(out: &mut String, parts: &Vec<String>)
    ensures
        final(out)@ == old(out)@ + comma_separated(texts(parts@)),
{
    let ghost start = out@;
    let n = parts.len();
    for i in 0..n
        invariant
            n == parts@.len(),
            out@ == start + comma_separated(texts(parts@.take(i as int))),
    {
        proof {
            assert(texts(parts@.take(i + 1)).drop_last() =~= texts(parts@.take(i as int)));
        }
        if i > 0 {
            out.append(", ");
        }
        out.append(parts[i].as_str());
    }
    proof {
        assert(parts@.take(n as int) =~= parts@);
    }
}

impl NegativeImpl {
    /// The source text of this impl inside its anonymous block.
    pub fn render(&self) -> (r: String)
        ensures
            r@ == rendered(self@),
    {
        let mut out = "const _: () = { #[allow(clippy::non_send_fields_in_send_ty)] ".to_owned();
        push_spaced(&mut out, &self.attrs);
        if self.defaultness {
            out.append("default ");
        }
        if self.unsafety {
            out.append("unsafe ");
        }
        out.append("impl");
        out.append(self.generics.as_str());
        out.append(" ");
        out.append(self.trait_path.as_str());
        out.append(" for ");
        out.append(self.self_ty.as_str());
        out.append(" where ");
        push_comma_separated(&mut out, &self.where_preds);
        out.append(" { ");
        push_spaced(&mut out, &self.inner_attrs);
        out.append("} };");
        out
    }
}

/// The whole transformation: the source text that replaces the decorated
/// item, or the diagnostic that rejects it.
pub fn negative_impl(args: &str, item: Item) -> (r: Result<String, Diagnostic>)
    ensures
        match rejection(args@, item) {
            Some(kind) => r matches Err(e) && e.kind == kind && e.at == rejection_site(args@, item)
                && e.message@ == rejection_message(args@, kind),
            None => r matches Ok(s) && item matches Item::Impl(d) && s@ == rendered(
                synthesized(d, negated_trait(d)),
            ),
        },
{
    let o = attribute(args, item)?;
    Ok(o.render())
}

} // verus!
