//! The code that the transformation emits, compiled here as it is emitted
//! (less `#[doc(hidden)]`), and probed for the traits it implements.

use negative_impl::emit::negative_impl;
use negative_impl::model::{ImplDecl, Item, TraitRef};
use std::marker::PhantomData;

struct Probe<T: ?Sized>(PhantomData<T>);

trait SendFallback {
    const SEND: bool = false;
}
impl<T: ?Sized> SendFallback for Probe<T> {}
impl<T: ?Sized + Send> Probe<T> {
    const SEND: bool = true;
}

trait SyncFallback {
    const SYNC: bool = false;
}
impl<T: ?Sized> SyncFallback for Probe<T> {}
impl<T: ?Sized + Sync> Probe<T> {
    const SYNC: bool = true;
}

trait UnpinFallback {
    const UNPIN: bool = false;
}
impl<T: ?Sized> UnpinFallback for Probe<T> {}
impl<T: ?Sized + Unpin> Probe<T> {
    const UNPIN: bool = true;
}

trait UnwindSafeFallback {
    const UNWIND_SAFE: bool = false;
}
impl<T: ?Sized> UnwindSafeFallback for Probe<T> {}
impl<T: ?Sized + ::core::panic::UnwindSafe> Probe<T> {
    const UNWIND_SAFE: bool = true;
}

trait RefUnwindSafeFallback {
    const REF_UNWIND_SAFE: bool = false;
}
impl<T: ?Sized> RefUnwindSafeFallback for Probe<T> {}
impl<T: ?Sized + ::core::panic::RefUnwindSafe> Probe<T> {
    const REF_UNWIND_SAFE: bool = true;
}

#[allow(dead_code)]
pub struct Foo<T>(T);

const _: () = { #[allow(clippy::non_send_fields_in_send_ty)] impl<T> ::core::marker::Unpin for Foo<T> where for<'__dummy> [()]: ::core::marker::Sized { } };
const _: () = { #[allow(clippy::non_send_fields_in_send_ty)] impl<T> ::core::panic::UnwindSafe for Foo<T> where for<'__dummy> [()]: ::core::marker::Sized { } };
const _: () = { #[allow(clippy::non_send_fields_in_send_ty)] impl<T> ::core::panic::RefUnwindSafe for Foo<T> where for<'__dummy> [()]: ::core::marker::Sized { } };

#[allow(dead_code)]
pub struct First(u8);
#[allow(dead_code)]
pub struct Second(u16);

const _: () = { #[allow(clippy::non_send_fields_in_send_ty)] impl ::core::marker::Unpin for First where for<'__dummy> [()]: ::core::marker::Sized { } };
const _: () = { #[allow(clippy::non_send_fields_in_send_ty)] impl ::core::marker::Unpin for Second where for<'__dummy> [()]: ::core::marker::Sized { } };


fn negative(generics: &str, name: &str, self_ty: &str) -> Item {
    Item::Impl(ImplDecl {
        attrs: Vec::new(),
        inner_attrs: Vec::new(),
        defaultness: false,
        unsafety: false,
        generics: generics.to_string(),
        trait_ref: Some(TraitRef { negated: true, name: name.to_string() }),
        self_ty: self_ty.to_string(),
        where_preds: Vec::new(),
        items: Vec::new(),
    })
}

fn compiled_form(generics: &str, name: &str, self_ty: &str) -> String {
    negative_impl("", negative(generics, name, self_ty))
        .unwrap()
        .replace("#[doc(hidden)] ", "")
}

#[test]
fn compiled_copy_is_the_expansion() {
    let prefix = "const _: () = { #[allow(clippy::non_send_fields_in_send_ty)] ";
    let suffix = " where for<'__dummy> [()]: ::core::marker::Sized { } };";
    let cases = [
        ("Unpin", "impl<T> ::core::marker::Unpin for Foo<T>"),
        ("UnwindSafe", "impl<T> ::core::panic::UnwindSafe for Foo<T>"),
        ("RefUnwindSafe", "impl<T> ::core::panic::RefUnwindSafe for Foo<T>"),
    ];
    for (name, head) in cases {
        assert_eq!(compiled_form("<T>", name, "Foo<T>"), format!("{}{}{}", prefix, head, suffix));
    }
    for ty in ["First", "Second"] {
        assert_eq!(
            compiled_form("", "Unpin", ty),
            format!("{}impl ::core::marker::Unpin for {}{}", prefix, ty, suffix)
        );
    }
}

#[test]
fn negated_traits_never_hold() {
    assert!(!<Probe<Foo<()>>>::UNPIN);
    assert!(!<Probe<Foo<String>>>::UNPIN);
    assert!(!<Probe<Foo<u8>>>::UNPIN);
    assert!(!<Probe<Foo<()>>>::UNWIND_SAFE);
    assert!(!<Probe<Foo<u8>>>::UNWIND_SAFE);
    assert!(!<Probe<Foo<()>>>::REF_UNWIND_SAFE);
    assert!(!<Probe<Foo<u8>>>::REF_UNWIND_SAFE);
}

#[test]
fn probe_sees_plain_types() {
    assert!(<Probe<u8>>::SEND);
    assert!(<Probe<u8>>::SYNC);
    assert!(<Probe<u8>>::UNPIN);
    assert!(<Probe<u8>>::UNWIND_SAFE);
    assert!(<Probe<u8>>::REF_UNWIND_SAFE);
    assert!(!<Probe<std::rc::Rc<u8>>>::SEND);
}

#[test]
fn two_traits_fail_together() {
    assert!(!<Probe<Foo<()>>>::UNWIND_SAFE && !<Probe<Foo<()>>>::REF_UNWIND_SAFE);
    assert!(<Probe<Foo<()>>>::SEND && <Probe<Foo<()>>>::SYNC);
}

#[test]
fn two_negations_in_one_scope() {
    assert!(!<Probe<First>>::UNPIN);
    assert!(!<Probe<Second>>::UNPIN);
    assert!(<Probe<First>>::SEND);
}

#[test]
fn negation_adds_no_size() {
    assert_eq!(std::mem::size_of::<Foo<u8>>(), std::mem::size_of::<u8>());
    assert_eq!(std::mem::size_of::<Foo<()>>(), 0);
    assert_eq!(std::mem::size_of::<First>(), std::mem::size_of::<u8>());
}
