//! Laws that tie the operations together.
use crate::{MixedRef, MixedRefMut};
use vstd::prelude::*;
use vstd::std_specs::cmp::PartialEqSpec;
use vstd::std_specs::convert::FromSpec;

verus! {

/// Wrapping an owned box, in either reference type, gives a value that is
/// owned and that dereferences to what the box holds.
pub proof fn lemma_owned_target<'a, T: ?Sized>(b: Box<T>)
    ensures
        <MixedRef<'a, T> as FromSpec<Box<T>>>::obeys_from_spec(),
        <MixedRef<'a, T> as FromSpec<Box<T>>>::from_spec(b).is_owned(),
        <MixedRef<'a, T> as FromSpec<Box<T>>>::from_spec(b).target() == &*b,
        <MixedRefMut<'a, T> as FromSpec<Box<T>>>::obeys_from_spec(),
        <MixedRefMut<'a, T> as FromSpec<Box<T>>>::from_spec(b).is_owned(),
        <MixedRefMut<'a, T> as FromSpec<Box<T>>>::from_spec(b).target() == &*b,
{
}

/// Wrapping a shared borrow gives a value that is borrowed and that
/// dereferences to the borrowed data itself.
pub proof fn lemma_borrowed_target<'a, T: ?Sized>(r: &'a T)
    ensures
        <MixedRef<'a, T> as FromSpec<&'a T>>::obeys_from_spec(),
        !<MixedRef<'a, T> as FromSpec<&'a T>>::from_spec(r).is_owned(),
        <MixedRef<'a, T> as FromSpec<&'a T>>::from_spec(r).target() == r,
{
}

/// Equality looks at the values alone: two references to the same value
/// compare alike against any third, however each of them holds it, and
/// compare equal to each other exactly when the value equals itself.
pub proof fn lemma_eq_ignores_tag<'a, 'b, 'c, T: ?Sized + PartialEq>(
    x: MixedRef<'a, T>,
    y: MixedRef<'b, T>,
    z: MixedRef<'c, T>,
)
    requires
        x.target() == y.target(),
    ensures
        x.eq_spec(&z) == y.eq_spec(&z),
        z.eq_spec(&x) == z.eq_spec(&y),
        x.eq_spec(&y) == <T as PartialEqSpec>::eq_spec(x.target(), x.target()),
{
}

/// The same law for mutable references: only the values are compared.
pub proof fn lemma_eq_ignores_tag_mut<'a, 'b, 'c, T: ?Sized + PartialEq>(
    x: MixedRefMut<'a, T>,
    y: MixedRefMut<'b, T>,
    z: MixedRefMut<'c, T>,
)
    requires
        x.target() == y.target(),
    ensures
        x.eq_spec(&z) == y.eq_spec(&z),
        z.eq_spec(&x) == z.eq_spec(&y),
        x.eq_spec(&y) == <T as PartialEqSpec>::eq_spec(x.target(), x.target()),
{
}

/// A borrowed reference whose use has ended has handed its value back:
/// the lender then holds what the reference last held.
pub proof fn lemma_borrow_returns<'a, T: ?Sized>(m: MixedRefMut<'a, T>)
    requires
        has_resolved(m),
        !m.is_owned(),
    ensures
        m.target() == &*final(m->Borrowed_0),
{
}

} // verus!
