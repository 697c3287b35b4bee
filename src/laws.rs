//! Properties of the transformation as a whole.

use crate::catalog::{auto_trait_named, full_path_of, impl_is_unsafe, AutoTrait};
use crate::emit::{rendered, scope_close, scope_open};
use crate::model::{texts, ImplDecl, Item};
use crate::synth::{negated_trait, never_holds, rejection, synthesized};
use vstd::prelude::*;

verus! {

/// The traits that can be negated are exactly `Send`, `Sync`, `Unpin`,
/// `UnwindSafe` and `RefUnwindSafe`, and each name gives a different trait.
pub proof fn lemma_catalog_is_closed(name: Seq<char>)
    ensures
        auto_trait_named(name) is Some <==> (name == "Send"@ || name == "Sync"@ || name
            == "Unpin"@ || name == "UnwindSafe"@ || name == "RefUnwindSafe"@),
        name == "Send"@ ==> auto_trait_named(name) == Some(AutoTrait::Send),
        name == "Sync"@ ==> auto_trait_named(name) == Some(AutoTrait::Sync),
        name == "Unpin"@ ==> auto_trait_named(name) == Some(AutoTrait::Unpin),
        name == "UnwindSafe"@ ==> auto_trait_named(name) == Some(AutoTrait::UnwindSafe),
        name == "RefUnwindSafe"@ ==> auto_trait_named(name) == Some(AutoTrait::RefUnwindSafe),
{
    reveal_strlit("Send");
    reveal_strlit("Sync");
    reveal_strlit("Unpin");
    reveal_strlit("UnwindSafe");
    reveal_strlit("RefUnwindSafe");
    assert("Send"@.len() == 4 && "Sync"@.len() == 4 && "Unpin"@.len() == 5);
    assert("UnwindSafe"@.len() == 10 && "RefUnwindSafe"@.len() == 13);
    assert("Send"@[1] != "Sync"@[1]);
}

/// A negative impl of any of the auto traits, with no `unsafe` and an empty
/// body, is accepted. The impl that replaces it implements that same trait,
/// keeps the where clause of the input, and ends it with a predicate that no
/// instantiation satisfies, so that no instantiation of the type implements
/// the trait.
pub proof fn lemma_auto_trait_never_implemented(d: ImplDecl, t: AutoTrait)
    requires
        d.trait_ref matches Some(r) && r.negated && auto_trait_named(r.name@) == Some(t),
        !d.unsafety,
        d.items@.len() == 0,
    ensures
        rejection(seq![], Item::Impl(d)) is None,
        negated_trait(d) == t,
        synthesized(d, t).trait_path == full_path_of(t),
        synthesized(d, t).unsafety == impl_is_unsafe(t),
        synthesized(d, t).self_ty == d.self_ty@,
        synthesized(d, t).generics == d.generics@,
        synthesized(d, t).where_preds.drop_last() == texts(d.where_preds@),
        synthesized(d, t).where_preds.last() == never_holds(),
{
    assert(synthesized(d, t).where_preds.drop_last() =~= texts(d.where_preds@));
}

/// Negating two different auto traits on one type gives two impls of two
/// different traits for that type, each with its own predicate that never
/// holds: neither depends on the other.
pub proof fn lemma_traits_negated_independently(d1: ImplDecl, d2: ImplDecl)
    requires
        rejection(seq![], Item::Impl(d1)) is None,
        rejection(seq![], Item::Impl(d2)) is None,
        d1.self_ty@ == d2.self_ty@,
        d1.generics@ == d2.generics@,
        negated_trait(d1) != negated_trait(d2),
    ensures
        synthesized(d1, negated_trait(d1)).trait_path != synthesized(
            d2,
            negated_trait(d2),
        ).trait_path,
        synthesized(d1, negated_trait(d1)).self_ty == synthesized(
            d2,
            negated_trait(d2),
        ).self_ty,
        synthesized(d1, negated_trait(d1)).where_preds.last() == never_holds(),
        synthesized(d2, negated_trait(d2)).where_preds.last() == never_holds(),
{
    reveal_strlit("::core::marker::Send");
    reveal_strlit("::core::marker::Sync");
    reveal_strlit("::core::marker::Unpin");
    reveal_strlit("::core::panic::UnwindSafe");
    reveal_strlit("::core::panic::RefUnwindSafe");
    let p1 = full_path_of(negated_trait(d1));
    let p2 = full_path_of(negated_trait(d2));
    assert("::core::marker::Send"@.len() == 20 && "::core::marker::Sync"@.len() == 20);
    assert("::core::marker::Unpin"@.len() == 21);
    assert("::core::panic::UnwindSafe"@.len() == 25);
    assert("::core::panic::RefUnwindSafe"@.len() == 28);
    assert("::core::marker::Send"@[17] != "::core::marker::Sync"@[17]);
    if p1 == p2 {
        assert(p1.len() == p2.len() && p1[17] == p2[17]);
    }
}

/// Whatever is accepted is emitted inside one `const _: () = { ... };`
/// block, which has no name: what it declares cannot collide with any other
/// expansion, nor with anything at the call site.
pub proof fn lemma_output_in_anonymous_scope(args: Seq<char>, item: Item)
    requires
        rejection(args, item) is None,
    ensures
        item matches Item::Impl(d) && ({
            let s = rendered(synthesized(d, negated_trait(d)));
            &&& s.len() >= scope_open().len() + scope_close().len()
            &&& s.take(scope_open().len() as int) == scope_open()
            &&& s.skip(s.len() - scope_close().len()) == scope_close()
        }),
{
    if let Item::Impl(d) = item {
        let v = synthesized(d, negated_trait(d));
        let s = rendered(v);
        let mid = s.subrange(scope_open().len() as int, s.len() - scope_close().len());
        assert(s =~= scope_open() + mid + scope_close());
        assert(s.take(scope_open().len() as int) =~= scope_open());
        assert(s.skip(s.len() - scope_close().len()) =~= scope_close());
    }
}

} // verus!
