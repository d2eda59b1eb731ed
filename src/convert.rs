//! Conversions into the two reference types, and out of them into `Cow`.
use crate::{MixedRef, MixedRefMut};
use std::borrow::Cow;
use vstd::prelude::*;
use vstd::std_specs::convert::IntoSpec;

verus! {

impl<'a, T: ?Sized> From<&'a T> for MixedRef<'a, T> {
    fn from(r: &'a T) -> (m: Self) {
        MixedRef::Borrowed(r)
    }
}

impl<'a, T: ?Sized> vstd::std_specs::convert::FromSpecImpl<&'a T> for MixedRef<'a, T> {
    open spec fn obeys_from_spec() -> bool {
        true
    }

    open spec fn from_spec(r: &'a T) -> Self {
        MixedRef::Borrowed(r)
    }
}

impl<'a, T: ?Sized> From<&'a mut T> for MixedRefMut<'a, T> {
    fn from(r: &'a mut T) -> (m: Self)
        ensures
            !m.is_owned(),
            m.target() == &*old(r),
            &*final(m->Borrowed_0) == &*final(r),
    {
        MixedRefMut::Borrowed(r)
    }
}

impl<'a, T: ?Sized> vstd::std_specs::convert::FromSpecImpl<&'a mut T> for MixedRefMut<'a, T> {
    // The result is stated by the contract of `from` itself.
    open spec fn obeys_from_spec() -> bool {
        false
    }

    open spec fn from_spec(r: &'a mut T) -> Self {
        MixedRefMut::Borrowed(r)
    }
}

impl<'a, T: ?Sized> From<Box<T>> for MixedRef<'a, T> {
    fn from(b: Box<T>) -> (m: Self) {
        MixedRef::Owned(b)
    }
}

impl<'a, T: ?Sized> vstd::std_specs::convert::FromSpecImpl<Box<T>> for MixedRef<'a, T> {
    open spec fn obeys_from_spec() -> bool {
        true
    }

    open spec fn from_spec(b: Box<T>) -> Self {
        MixedRef::Owned(b)
    }
}

impl<'a, T: ?Sized> From<Box<T>> for MixedRefMut<'a, T> {
    fn from(b: Box<T>) -> (m: Self) {
        MixedRefMut::Owned(b)
    }
}

impl<'a, T: ?Sized> vstd::std_specs::convert::FromSpecImpl<Box<T>> for MixedRefMut<'a, T> {
    open spec fn obeys_from_spec() -> bool {
        true
    }

    open spec fn from_spec(b: Box<T>) -> Self {
        MixedRefMut::Owned(b)
    }
}

/// Relies on `String::into_boxed_str`: the box holds the string's characters.
#[verifier::external_body]
fn boxed_str(s: String) -> (b: Box<str>)
    ensures
        b@ == s@,
{
    s.into_boxed_str()
}

/// Relies on `Vec::into_boxed_slice`: the box holds the vector's items.
#[verifier::external_body]
fn boxed_slice<T>(v: Vec<T>) -> (b: Box<[T]>)
    ensures
        b@ == v@,
{
    v.into_boxed_slice()
}

impl<'a> From<String> for MixedRef<'a, str> {
    fn from(s: String) -> (m: Self)
        ensures
            m.is_owned(),
            m.target()@ == s@,
    {
        Self::from(boxed_str(s))
    }
}

impl<'a> vstd::std_specs::convert::FromSpecImpl<String> for MixedRef<'a, str> {
    // The result is stated by the contract of `from` itself.
    open spec fn obeys_from_spec() -> bool {
        false
    }

    open spec fn from_spec(s: String) -> Self {
        arbitrary()
    }
}

impl<'a> From<String> for MixedRefMut<'a, str> {
    fn from(s: String) -> (m: Self)
        ensures
            m.is_owned(),
            m.target()@ == s@,
    {
        Self::from(boxed_str(s))
    }
}

impl<'a> vstd::std_specs::convert::FromSpecImpl<String> for MixedRefMut<'a, str> {
    // The result is stated by the contract of `from` itself.
    open spec fn obeys_from_spec() -> bool {
        false
    }

    open spec fn from_spec(s: String) -> Self {
        arbitrary()
    }
}

impl<'a, T> From<Vec<T>> for MixedRef<'a, [T]> {
    fn from(v: Vec<T>) -> (m: Self)
        ensures
            m.is_owned(),
            m.target()@ == v@,
    {
        Self::from(boxed_slice(v))
    }
}

impl<'a, T> vstd::std_specs::convert::FromSpecImpl<Vec<T>> for MixedRef<'a, [T]> {
    // The result is stated by the contract of `from` itself.
    open spec fn obeys_from_spec() -> bool {
        false
    }

    open spec fn from_spec(v: Vec<T>) -> Self {
        arbitrary()
    }
}

impl<'a, T> From<Vec<T>> for MixedRefMut<'a, [T]> {
    fn from(v: Vec<T>) -> (m: Self)
        ensures
            m.is_owned(),
            m.target()@ == v@,
    {
        Self::from(boxed_slice(v))
    }
}

impl<'a, T> vstd::std_specs::convert::FromSpecImpl<Vec<T>> for MixedRefMut<'a, [T]> {
    // The result is stated by the contract of `from` itself.
    open spec fn obeys_from_spec() -> bool {
        false
    }

    open spec fn from_spec(v: Vec<T>) -> Self {
        arbitrary()
    }
}

impl<'a, T: ?Sized> From<MixedRefMut<'a, T>> for MixedRef<'a, T> {
    fn from(r: MixedRefMut<'a, T>) -> (m: Self)
        ensures
            m.is_owned() == r.is_owned(),
            m.target() == r.target(),
    {
        match r {
            MixedRefMut::Owned(b) => MixedRef::Owned(b),
            MixedRefMut::Borrowed(r) => MixedRef::Borrowed(r),
        }
    }
}

impl<'a, T: ?Sized> vstd::std_specs::convert::FromSpecImpl<MixedRefMut<'a, T>> for MixedRef<'a, T> {
    // The result is stated by the contract of `from` itself.
    open spec fn obeys_from_spec() -> bool {
        false
    }

    open spec fn from_spec(r: MixedRefMut<'a, T>) -> Self {
        arbitrary()
    }
}

impl<'a, T: ?Sized + ToOwned> From<Cow<'a, T>> for MixedRef<'a, T> where T::Owned: Into<Box<T>> {
    fn from(cow: Cow<'a, T>) -> (m: Self)
        ensures
            match cow {
                Cow::Borrowed(r) => !m.is_owned() && m.target() == r,
                Cow::Owned(o) => m.is_owned() && (<T::Owned as IntoSpec<Box<T>>>::obeys_into_spec()
                    ==> m->Owned_0 == o.into_spec()),
            },
    {
        match cow {
            Cow::Owned(b) => MixedRef::Owned(b.into()),
            Cow::Borrowed(r) => MixedRef::Borrowed(r),
        }
    }
}

impl<'a, T: ?Sized + ToOwned> vstd::std_specs::convert::FromSpecImpl<Cow<'a, T>> for MixedRef<'a, T> where T::Owned: Into<Box<T>> {
    // The result is stated by the contract of `from` itself.
    open spec fn obeys_from_spec() -> bool {
        false
    }

    open spec fn from_spec(cow: Cow<'a, T>) -> Self {
        arbitrary()
    }
}

impl<'a, T: ?Sized + ToOwned> MixedRef<'a, T> where Box<T>: Into<T::Owned> {
    /// Converts into a `Cow` that holds the value the same way: owned data
    /// becomes `Cow::Owned`, borrowed data `Cow::Borrowed`.
    pub fn into_cow(self) -> (c: Cow<'a, T>)
        ensures
            match self {
                MixedRef::Borrowed(r) => c == Cow::<'a, T>::Borrowed(r),
                MixedRef::Owned(b) => (c is Owned) && (<Box<T> as IntoSpec<T::Owned>>::obeys_into_spec()
                    ==> c == Cow::<'a, T>::Owned(b.into_spec())),
            },
    {
        match self {
            MixedRef::Owned(b) => Cow::Owned(b.into()),
            MixedRef::Borrowed(r) => Cow::Borrowed(r),
        }
    }
}

impl<'a, T: ?Sized + ToOwned> Into<Cow<'a, T>> for MixedRef<'a, T> where Box<T>: Into<T::Owned> {
    fn into(self) -> Cow<'a, T> {
        self.into_cow()
    }
}

impl<'a, T: ?Sized + ToOwned> vstd::std_specs::convert::IntoSpecImpl<Cow<'a, T>> for MixedRef<'a, T> where Box<T>: Into<T::Owned> {
    // The result is stated by the contract of `into_cow`.
    open spec fn obeys_into_spec() -> bool {
        false
    }

    open spec fn into_spec(self) -> Cow<'a, T> {
        arbitrary()
    }
}

impl<'a, T: ?Sized + ToOwned> Into<Cow<'a, T>> for MixedRefMut<'a, T> where Box<T>: Into<T::Owned> {
    fn into(self) -> Cow<'a, T> {
        MixedRef::from(self).into_cow()
    }
}

impl<'a, T: ?Sized + ToOwned> vstd::std_specs::convert::IntoSpecImpl<Cow<'a, T>> for MixedRefMut<'a, T> where Box<T>: Into<T::Owned> {
    // The result is stated by the contract of `into_cow`.
    open spec fn obeys_into_spec() -> bool {
        false
    }

    open spec fn into_spec(self) -> Cow<'a, T> {
        arbitrary()
    }
}

} // verus!
