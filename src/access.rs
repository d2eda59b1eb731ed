//! Access to the value through std's reference traits.
use crate::{MixedRef, MixedRefMut};
use vstd::prelude::*;

verus! {

impl<'a, T: ?Sized> core::ops::Deref for MixedRef<'a, T> {
    type Target = T;

    fn deref(&self) -> (r: &T)
        ensures
            r == self.target(),
    {
        self.get()
    }
}

impl<'a, T: ?Sized> core::ops::Deref for MixedRefMut<'a, T> {
    type Target = T;

    fn deref(&self) -> (r: &T)
        ensures
            r == self.target(),
    {
        self.get()
    }
}

impl<'a, T: ?Sized> core::ops::DerefMut for MixedRefMut<'a, T> {
    fn deref_mut(&mut self) -> (r: &mut T)
        ensures
            MixedRefMut::accessed(&*old(self), &*final(self), &*r, &*final(r)),
            (*old(self) is Borrowed) ==> &*final((*final(self))->Borrowed_0) == &*final((*old(self))->Borrowed_0),
    {
        self.get_mut()
    }
}

impl<'a, T: ?Sized> AsRef<T> for MixedRef<'a, T> {
    fn as_ref(&self) -> (r: &T)
        ensures
            r == self.target(),
    {
        self.get()
    }
}

impl<'a, T: ?Sized> AsRef<T> for MixedRefMut<'a, T> {
    fn as_ref(&self) -> (r: &T)
        ensures
            r == self.target(),
    {
        self.get()
    }
}

impl<'a, T: ?Sized> AsMut<T> for MixedRefMut<'a, T> {
    fn as_mut(&mut self) -> (r: &mut T)
        ensures
            MixedRefMut::accessed(&*old(self), &*final(self), &*r, &*final(r)),
            (*old(self) is Borrowed) ==> &*final((*final(self))->Borrowed_0) == &*final((*old(self))->Borrowed_0),
    {
        self.get_mut()
    }
}

impl<'a, T: ?Sized> core::borrow::Borrow<T> for MixedRef<'a, T> {
    fn borrow(&self) -> &T {
        self.get()
    }
}

impl<'a, T: ?Sized> core::borrow::Borrow<T> for MixedRefMut<'a, T> {
    fn borrow(&self) -> &T {
        self.get()
    }
}

impl<'a, T: ?Sized> core::borrow::BorrowMut<T> for MixedRefMut<'a, T> {
    fn borrow_mut(&mut self) -> (r: &mut T)
        ensures
            MixedRefMut::accessed(&*old(self), &*final(self), &*r, &*final(r)),
            (*old(self) is Borrowed) ==> &*final((*final(self))->Borrowed_0) == &*final((*old(self))->Borrowed_0),
    {
        self.get_mut()
    }
}

} // verus!
