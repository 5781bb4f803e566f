//! The counting capability: what a foreign reference-counting scheme has to offer
//! before its objects can be held through [`Intrusive`](crate::shared::Intrusive).
//!
//! The objects keep their owner counts inside themselves, and only the foreign code
//! knows how. This module fixes the vocabulary in which that code is described: a
//! value of the implementing type stands for the state of the whole object family,
//! `owners` and `pointee` say what that state holds, and the four operations are
//! specified over the two.

use vstd::prelude::*;

verus! {

/// A family of foreign objects that count their own owners.
///
/// Nothing in this crate checks an implementation against the contracts below:
/// whoever implements the trait vouches for them, and everything proved about
/// [`Intrusive`](crate::shared::Intrusive) holds under that assumption.
///
/// The operations take the family's state explicitly. A shared borrow of it
/// cannot change any count, so code that only reads can be told from code that
/// counts by its signature alone. For the same reason there must be one value
/// per family: two values that stood for the same objects would change each
/// other's counts unseen.
pub trait RefCounted<T: ?Sized>: Sized {
    /// The opaque name of an object of the family, typically its address.
    /// Copying a pointer copies the name only; it creates no owner.
    type Pointer: Copy;

    /// How many owners the object behind `pointer` has. Zero means that the
    /// pointer names no live object: it never did, or the object is reclaimed.
    ///
    /// An implementation defines this over its own state. One that defines
    /// nothing claims no live object: verified code can then neither count an
    /// owner in or out of the family nor borrow from it.
    open spec fn owners(&self, pointer: Self::Pointer) -> nat {
        0
    }

    /// The object behind `pointer`. It means something only while the object is
    /// live, that is while `owners(pointer)` is positive.
    open spec fn pointee(&self, pointer: Self::Pointer) -> &T {
        arbitrary()
    }

    /// Records one more owner of a live object, and does nothing else.
    fn increment(&mut self, pointer: Self::Pointer)
        requires
            old(self).owners(pointer) >= 1,
        ensures
            final(self).owners(pointer) == old(self).owners(pointer) + 1,
            forall|other: Self::Pointer|
                #![trigger final(self).owners(other)]
                #![trigger old(self).owners(other)]
                other != pointer ==> final(self).owners(other) == old(self).owners(other),
            forall|any: Self::Pointer|
                #![trigger final(self).pointee(any)]
                #![trigger old(self).pointee(any)]
                final(self).pointee(any) == old(self).pointee(any),
    ;

    /// Gives up one owner of a live object. When that was the last one the count
    /// is zero afterwards: the foreign code has reclaimed the object and the
    /// pointer names nothing any more. Every other object keeps its owners, and
    /// every object that is live afterwards is the object it was.
    fn decrement(&mut self, pointer: Self::Pointer)
        requires
            old(self).owners(pointer) >= 1,
        ensures
            final(self).owners(pointer) == old(self).owners(pointer) - 1,
            forall|other: Self::Pointer|
                #![trigger final(self).owners(other)]
                #![trigger old(self).owners(other)]
                other != pointer ==> final(self).owners(other) == old(self).owners(other),
            forall|any: Self::Pointer|
                #![trigger final(self).pointee(any)]
                #![trigger old(self).pointee(any)]
                final(self).owners(any) >= 1 ==> final(self).pointee(any) == old(self).pointee(any),
    ;

    /// Looks up the current owner count, as far as the family can tell. An answer
    /// is always the true, positive count; `None` says that the family does not
    /// know, which is all that the provided body ever says.
    fn count(&self, pointer: Self::Pointer) -> (reported: Option<usize>)
        ensures
            reported matches Some(n) ==> n >= 1 && n == self.owners(pointer),
        default_ensures
            reported is None,
    {
        None
    }

    /// Borrows a live object. The borrow keeps the family borrowed, so no owner
    /// can be given up while it is in use.
    fn deref(&self, pointer: Self::Pointer) -> (target: &T)
        requires
            self.owners(pointer) >= 1,
        ensures
            target == self.pointee(pointer),
    ;
}

/// `after` is `before` with one more owner recorded for `pointer`: what
/// [`RefCounted::increment`] leaves behind.
pub open spec fn gains_owner<T: ?Sized, R: RefCounted<T>>(
    before: &R,
    after: &R,
    pointer: R::Pointer,
) -> bool {
    &&& after.owners(pointer) == before.owners(pointer) + 1
    &&& forall|other: R::Pointer|
        #![trigger after.owners(other)]
        #![trigger before.owners(other)]
        other != pointer ==> after.owners(other) == before.owners(other)
    &&& forall|any: R::Pointer|
        #![trigger after.pointee(any)]
        #![trigger before.pointee(any)]
        after.pointee(any) == before.pointee(any)
}

/// `after` is `before` with one owner of `pointer` given up: what
/// [`RefCounted::decrement`] leaves behind. The relation holds of no `before`
/// in which `pointer` has no owner.
pub open spec fn loses_owner<T: ?Sized, R: RefCounted<T>>(
    before: &R,
    after: &R,
    pointer: R::Pointer,
) -> bool {
    &&& after.owners(pointer) == before.owners(pointer) - 1
    &&& forall|other: R::Pointer|
        #![trigger after.owners(other)]
        #![trigger before.owners(other)]
        other != pointer ==> after.owners(other) == before.owners(other)
    &&& forall|any: R::Pointer|
        #![trigger after.pointee(any)]
        #![trigger before.pointee(any)]
        after.owners(any) >= 1 ==> after.pointee(any) == before.pointee(any)
}

/// `reported` is an answer that [`RefCounted::count`] may give for `pointer` in
/// `family`: the true positive count, or no answer at all.
pub open spec fn may_report<T: ?Sized, R: RefCounted<T>>(
    family: &R,
    pointer: R::Pointer,
    reported: Option<usize>,
) -> bool {
    reported matches Some(n) ==> n >= 1 && n == family.owners(pointer)
}

} // verus!
