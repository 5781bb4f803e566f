//! The shared handle: one owner of a foreign, self-counting object.

use crate::counting::{gains_owner, loses_owner, RefCounted};
use std::marker::PhantomData;
use std::rc::Rc;
use vstd::prelude::*;

verus! {

/// One owner of an object of the family `R`.
///
/// The value holds nothing but the object's pointer. What makes it an owner is
/// the discipline of its operations: it comes into being by taking over an
/// owner that already exists ([`adopt`](Intrusive::adopt)) or by recording a
/// new one ([`retain`](Intrusive::retain), [`clone`](Intrusive::clone)), and it
/// ends by giving that owner up ([`release`](Intrusive::release)). The marker
/// makes the type behave towards the compiler like the standard shared pointer
/// to a `T`.
///
/// A handle that merely goes out of scope gives nothing up: its owner stays
/// recorded and the object is never reclaimed. Call `release`.
pub struct Intrusive<T: ?Sized, R: RefCounted<T>> {
    pointer: R::Pointer,
    marker: PhantomData<Rc<T>>,
}

impl<T: ?Sized, R: RefCounted<T>> View for Intrusive<T, R> {
    type V = R::Pointer;

    /// The pointer to the object that this handle owns a share of.
    closed spec fn view(&self) -> R::Pointer {
        self.pointer
    }
}

impl<T: ?Sized, R: RefCounted<T>> Intrusive<T, R> {
    /// Whether the object of this handle is live in `family`. Every operation
    /// that goes through the handle asks for it; the module `account` shows that
    /// handles made by the rules keep it for as long as they exist.
    pub open spec fn is_live(&self, family: &R) -> bool {
        family.owners(self@) >= 1
    }

    /// Takes over an owner of `pointer` that has been recorded already, by the
    /// foreign code that made the object or by someone who hands theirs on. The
    /// family is only looked at: no count changes.
    ///
    /// The owner taken over must be one that no other handle stands for. The
    /// contract cannot ask for that, since it sees no other handle; the module
    /// `account` states it over all the handles there are.
    pub fn adopt(family: &R, pointer: R::Pointer) -> (handle: Self)
        requires
            family.owners(pointer) >= 1,
        ensures
            handle@ == pointer,
            handle.is_live(family),
    {
        Self { pointer, marker: PhantomData }
    }

    /// Records a new owner of `pointer` and returns the handle that stands for
    /// it. The caller needs no owner of its own, only a live object.
    pub fn retain(family: &mut R, pointer: R::Pointer) -> (handle: Self)
        requires
            old(family).owners(pointer) >= 1,
        ensures
            handle@ == pointer,
            handle.is_live(final(family)),
            gains_owner::<T, R>(old(family), final(family), pointer),
    {
        family.increment(pointer);
        Self::adopt(family, pointer)
    }

    /// Makes a second, independent owner of the same object.
    pub fn clone(&self, family: &mut R) -> (copy: Self)
        requires
            self.is_live(old(family)),
        ensures
            copy@ == self@,
            copy.is_live(final(family)),
            gains_owner::<T, R>(old(family), final(family), self@),
    {
        Self::retain(family, self.pointer)
    }

    /// Borrows the object. The borrow lasts no longer than the handle and keeps
    /// the family borrowed meanwhile.
    pub fn deref<'a>(&'a self, family: &'a R) -> (target: &'a T)
        requires
            self.is_live(family),
        ensures
            target == family.pointee(self@),
    {
        family.deref(self.pointer)
    }

    /// Ends the handle and gives its owner up. If it was the last owner, the
    /// object is reclaimed.
    pub fn release(self, family: &mut R)
        requires
            self.is_live(old(family)),
        ensures
            loses_owner::<T, R>(old(family), final(family), self@),
    {
        family.decrement(self.pointer);
    }
}

} // verus!
