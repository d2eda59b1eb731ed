//! Mixed references to owned and borrowed memory.
//!
//! A [`MixedRef`] holds either a boxed value that it owns or a shared borrow of
//! a value owned elsewhere; a [`MixedRefMut`] holds either a boxed value or an
//! exclusive borrow. Both give the same access to the value whichever way it is
//! held, and the contracts below state that access over the spec function
//! `target`, the value the wrapper stands for.
use vstd::prelude::*;

mod access;
mod compare;
mod convert;
pub mod laws;

verus! {

/// A reference to either owned or borrowed data.
///
/// If the data is owned, it is best given the `'static` lifetime.
/// To borrow data mutably, use [`MixedRefMut`].
#[derive(Debug, Hash)]
pub enum MixedRef<'a, T: ?Sized + 'a> {
    /// Owned, boxed data.
    Owned(Box<T>),
    /// Borrowed data.
    Borrowed(&'a T),
}

impl<'a, T: ?Sized> MixedRef<'a, T> {
    /// The value this reference stands for, whichever way it is held.
    pub open spec fn target(&self) -> &T {
        match self {
            MixedRef::Owned(b) => &**b,
            MixedRef::Borrowed(r) => *r,
        }
    }

    /// Whether the value is owned by this reference.
    pub open spec fn is_owned(&self) -> bool {
        self is Owned
    }

    /// A shared reference to the value.
    pub fn get(&self) -> (r: &T)
        ensures
            r == self.target(),
    {
        match self {
            MixedRef::Owned(b) => b,
            MixedRef::Borrowed(r) => r,
        }
    }
}

/// A reference to either owned or mutably borrowed data.
///
/// This acts like [`MixedRef`], except that the data can be changed through it.
#[derive(Debug, Hash)]
pub enum MixedRefMut<'a, T: ?Sized + 'a> {
    /// Owned, boxed data.
    Owned(Box<T>),
    /// Borrowed, mutable data.
    Borrowed(&'a mut T),
}

impl<'a, T: ?Sized> MixedRefMut<'a, T> {
    /// The value this reference stands for, whichever way it is held.
    pub open spec fn target(&self) -> &T {
        match self {
            MixedRefMut::Owned(b) => &**b,
            MixedRefMut::Borrowed(r) => &**r,
        }
    }

    /// Whether the value is owned by this reference.
    pub open spec fn is_owned(&self) -> bool {
        self is Owned
    }

    /// `after` is what `before` became once a mutable access to its value
    /// ended, through which the value was `current` at first and `last` at
    /// the end: the way it is held is kept and it holds `last`.
    pub open spec fn accessed(before: &Self, after: &Self, current: &T, last: &T) -> bool {
        &&& current == before.target()
        &&& after.is_owned() == before.is_owned()
        &&& after.target() == last
    }

    /// A shared reference to the value.
    pub fn get(&self) -> (r: &T)
        ensures
            r == self.target(),
    {
        match self {
            MixedRefMut::Owned(b) => b,
            MixedRefMut::Borrowed(r) => r,
        }
    }

    /// A mutable reference to the value.
    ///
    /// A borrowed value keeps lending to the same place: once the borrow in
    /// it ends, its lender holds what the reference last held.
    pub fn get_mut(&mut self) -> (r: &mut T)
        ensures
            MixedRefMut::accessed(&*old(self), &*final(self), &*r, &*final(r)),
            (*old(self) is Borrowed) ==> &*final((*final(self))->Borrowed_0) == &*final((*old(self))->Borrowed_0),
    {
        match self {
            MixedRefMut::Owned(b) => b,
            MixedRefMut::Borrowed(r) => r,
        }
    }

    /// Downcasts `self` into a reference to immutable data.
    pub fn downcast(self) -> (r: MixedRef<'a, T>)
        ensures
            r.is_owned() == self.is_owned(),
            r.target() == self.target(),
    {
        MixedRef::from(self)
    }
}

} // verus!
