//! Equality, which compares the values and ignores how they are held, and
//! default values, which are always owned.
use crate::{MixedRef, MixedRefMut};
use vstd::prelude::*;
use vstd::std_specs::cmp::PartialEqSpec;

verus! {

impl<'a, 'b, T: ?Sized + PartialEq> PartialEq<MixedRef<'b, T>> for MixedRef<'a, T> {
    fn eq(&self, other: &MixedRef<'b, T>) -> (r: bool)
        ensures
            <T as PartialEqSpec>::obeys_eq_spec() ==> r == <T as PartialEqSpec>::eq_spec(self.target(), other.target()),
    {
        self.get().eq(other.get())
    }
}

impl<'a, 'b, T: ?Sized + PartialEq> vstd::std_specs::cmp::PartialEqSpecImpl<MixedRef<'b, T>> for MixedRef<'a, T> {
    open spec fn obeys_eq_spec() -> bool {
        <T as PartialEqSpec>::obeys_eq_spec()
    }

    open spec fn eq_spec(&self, other: &MixedRef<'b, T>) -> bool {
        <T as PartialEqSpec>::eq_spec(self.target(), other.target())
    }
}

impl<'a, 'b, T: ?Sized + PartialEq> PartialEq<MixedRefMut<'b, T>> for MixedRef<'a, T> {
    fn eq(&self, other: &MixedRefMut<'b, T>) -> (r: bool)
        ensures
            <T as PartialEqSpec>::obeys_eq_spec() ==> r == <T as PartialEqSpec>::eq_spec(self.target(), other.target()),
    {
        self.get().eq(other.get())
    }
}

impl<'a, 'b, T: ?Sized + PartialEq> vstd::std_specs::cmp::PartialEqSpecImpl<MixedRefMut<'b, T>> for MixedRef<'a, T> {
    open spec fn obeys_eq_spec() -> bool {
        <T as PartialEqSpec>::obeys_eq_spec()
    }

    open spec fn eq_spec(&self, other: &MixedRefMut<'b, T>) -> bool {
        <T as PartialEqSpec>::eq_spec(self.target(), other.target())
    }
}

impl<'a, 'b, T: ?Sized + PartialEq> PartialEq<&'b T> for MixedRef<'a, T> {
    fn eq(&self, other: &&'b T) -> (r: bool)
        ensures
            <T as PartialEqSpec>::obeys_eq_spec() ==> r == <T as PartialEqSpec>::eq_spec(self.target(), *other),
    {
        self.get().eq(*other)
    }
}

impl<'a, 'b, T: ?Sized + PartialEq> vstd::std_specs::cmp::PartialEqSpecImpl<&'b T> for MixedRef<'a, T> {
    open spec fn obeys_eq_spec() -> bool {
        <T as PartialEqSpec>::obeys_eq_spec()
    }

    open spec fn eq_spec(&self, other: &&'b T) -> bool {
        <T as PartialEqSpec>::eq_spec(self.target(), *other)
    }
}

impl<'a, 'b, T: ?Sized + PartialEq> PartialEq<MixedRefMut<'b, T>> for MixedRefMut<'a, T> {
    fn eq(&self, other: &MixedRefMut<'b, T>) -> (r: bool)
        ensures
            <T as PartialEqSpec>::obeys_eq_spec() ==> r == <T as PartialEqSpec>::eq_spec(self.target(), other.target()),
    {
        self.get().eq(other.get())
    }
}

impl<'a, 'b, T: ?Sized + PartialEq> vstd::std_specs::cmp::PartialEqSpecImpl<MixedRefMut<'b, T>> for MixedRefMut<'a, T> {
    open spec fn obeys_eq_spec() -> bool {
        <T as PartialEqSpec>::obeys_eq_spec()
    }

    open spec fn eq_spec(&self, other: &MixedRefMut<'b, T>) -> bool {
        <T as PartialEqSpec>::eq_spec(self.target(), other.target())
    }
}

impl<'a, 'b, T: ?Sized + PartialEq> PartialEq<MixedRef<'b, T>> for MixedRefMut<'a, T> {
    fn eq(&self, other: &MixedRef<'b, T>) -> (r: bool)
        ensures
            <T as PartialEqSpec>::obeys_eq_spec() ==> r == <T as PartialEqSpec>::eq_spec(self.target(), other.target()),
    {
        self.get().eq(other.get())
    }
}

impl<'a, 'b, T: ?Sized + PartialEq> vstd::std_specs::cmp::PartialEqSpecImpl<MixedRef<'b, T>> for MixedRefMut<'a, T> {
    open spec fn obeys_eq_spec() -> bool {
        <T as PartialEqSpec>::obeys_eq_spec()
    }

    open spec fn eq_spec(&self, other: &MixedRef<'b, T>) -> bool {
        <T as PartialEqSpec>::eq_spec(self.target(), other.target())
    }
}

impl<'a, 'b, T: ?Sized + PartialEq> PartialEq<&'b T> for MixedRefMut<'a, T> {
    fn eq(&self, other: &&'b T) -> (r: bool)
        ensures
            <T as PartialEqSpec>::obeys_eq_spec() ==> r == <T as PartialEqSpec>::eq_spec(self.target(), *other),
    {
        self.get().eq(*other)
    }
}

impl<'a, 'b, T: ?Sized + PartialEq> vstd::std_specs::cmp::PartialEqSpecImpl<&'b T> for MixedRefMut<'a, T> {
    open spec fn obeys_eq_spec() -> bool {
        <T as PartialEqSpec>::obeys_eq_spec()
    }

    open spec fn eq_spec(&self, other: &&'b T) -> bool {
        <T as PartialEqSpec>::eq_spec(self.target(), *other)
    }
}

impl<'a> PartialEq<String> for MixedRef<'a, str> {
    /// Compares the value with a string's characters, through a `&str` that holds them.
    fn eq(&self, other: &String) -> (r: bool)
        ensures
            <str as PartialEqSpec>::obeys_eq_spec() ==> exists|s: &str|
                #[trigger] s@ == other@ && r == <str as PartialEqSpec>::eq_spec(self.target(), s),
    {
        <Self as PartialEq<&str>>::eq(self, &other.as_str())
    }
}

impl<'a> vstd::std_specs::cmp::PartialEqSpecImpl<String> for MixedRef<'a, str> {
    // The `&str` compared with is known by its contents alone, so the result
    // is stated by the contract of `eq` itself.
    open spec fn obeys_eq_spec() -> bool {
        false
    }

    open spec fn eq_spec(&self, other: &String) -> bool {
        arbitrary()
    }
}

impl<'a, U: PartialEq> PartialEq<Vec<U>> for MixedRef<'a, [U]> {
    /// Compares the value with a vector's items, through a `&[U]` that holds them.
    fn eq(&self, other: &Vec<U>) -> (r: bool)
        ensures
            <[U] as PartialEqSpec>::obeys_eq_spec() ==> exists|s: &[U]|
                #[trigger] s@ == other@ && r == <[U] as PartialEqSpec>::eq_spec(self.target(), s),
    {
        <Self as PartialEq<&[U]>>::eq(self, &other.as_slice())
    }
}

impl<'a, U: PartialEq> vstd::std_specs::cmp::PartialEqSpecImpl<Vec<U>> for MixedRef<'a, [U]> {
    // The `&[U]` compared with is known by its contents alone, so the result
    // is stated by the contract of `eq` itself.
    open spec fn obeys_eq_spec() -> bool {
        false
    }

    open spec fn eq_spec(&self, other: &Vec<U>) -> bool {
        arbitrary()
    }
}

impl<'a> PartialEq<String> for MixedRefMut<'a, str> {
    /// Compares the value with a string's characters, through a `&str` that holds them.
    fn eq(&self, other: &String) -> (r: bool)
        ensures
            <str as PartialEqSpec>::obeys_eq_spec() ==> exists|s: &str|
                #[trigger] s@ == other@ && r == <str as PartialEqSpec>::eq_spec(self.target(), s),
    {
        <Self as PartialEq<&str>>::eq(self, &other.as_str())
    }
}

impl<'a> vstd::std_specs::cmp::PartialEqSpecImpl<String> for MixedRefMut<'a, str> {
    // The `&str` compared with is known by its contents alone, so the result
    // is stated by the contract of `eq` itself.
    open spec fn obeys_eq_spec() -> bool {
        false
    }

    open spec fn eq_spec(&self, other: &String) -> bool {
        arbitrary()
    }
}

impl<'a, U: PartialEq> PartialEq<Vec<U>> for MixedRefMut<'a, [U]> {
    /// Compares the value with a vector's items, through a `&[U]` that holds them.
    fn eq(&self, other: &Vec<U>) -> (r: bool)
        ensures
            <[U] as PartialEqSpec>::obeys_eq_spec() ==> exists|s: &[U]|
                #[trigger] s@ == other@ && r == <[U] as PartialEqSpec>::eq_spec(self.target(), s),
    {
        <Self as PartialEq<&[U]>>::eq(self, &other.as_slice())
    }
}

impl<'a, U: PartialEq> vstd::std_specs::cmp::PartialEqSpecImpl<Vec<U>> for MixedRefMut<'a, [U]> {
    // The `&[U]` compared with is known by its contents alone, so the result
    // is stated by the contract of `eq` itself.
    open spec fn obeys_eq_spec() -> bool {
        false
    }

    open spec fn eq_spec(&self, other: &Vec<U>) -> bool {
        arbitrary()
    }
}

impl<'a, T: ?Sized + Eq> Eq for MixedRef<'a, T> {
}

impl<'a, T: ?Sized + Eq> Eq for MixedRefMut<'a, T> {
}

impl<'a, T: Default> Default for MixedRef<'a, T> {
    fn default() -> (m: Self)
        ensures
            m.is_owned(),
            T::default.ensures((), *m.target()),
    {
        MixedRef::Owned(Box::<T>::default())
    }
}

impl<'a, T: Default> Default for MixedRefMut<'a, T> {
    fn default() -> (m: Self)
        ensures
            m.is_owned(),
            T::default.ensures((), *m.target()),
    {
        MixedRefMut::Owned(Box::<T>::default())
    }
}

} // verus!
