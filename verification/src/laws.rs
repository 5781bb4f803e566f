//! How the operations of a shared handle combine.
//!
//! Each law is stated over family states: where an operation changes the
//! family, the state before and the state after are both parameters, tied by
//! the relation that the operation's contract promises.

use crate::counting::{gains_owner, loses_owner, may_report, RefCounted};
use crate::shared::Intrusive;
use vstd::prelude::*;

verus! {

/// A handle made by `retain` can be released at once, and that leaves the
/// family as it was before: every object has the owners it had, every live
/// object is the object it was, and a count that was reported before and is
/// reported again is the same number.
pub proof fn lemma_retain_then_release_restores<T: ?Sized, R: RefCounted<T>>(
    before: R,
    retained: R,
    released: R,
    handle: Intrusive<T, R>,
    pointer: R::Pointer,
)
    requires
        before.owners(pointer) >= 1,
        handle@ == pointer,
        gains_owner::<T, R>(&before, &retained, pointer),
        loses_owner::<T, R>(&retained, &released, handle@),
    ensures
        handle.is_live(&retained),
        forall|any: R::Pointer| #[trigger] released.owners(any) == before.owners(any),
        forall|any: R::Pointer|
            released.owners(any) >= 1 ==> #[trigger] released.pointee(any) == before.pointee(any),
        forall|first: usize, second: usize|
            may_report::<T, R>(&before, pointer, Some(first)) && may_report::<T, R>(
                &released,
                pointer,
                Some(second),
            ) ==> second == first,
{
}

/// A clone owns the same object as the handle it was made from, so that both
/// dereference to one object, and making it records exactly one owner more: a
/// count reported after the clone is one above a count reported before it.
pub proof fn lemma_clone_shares_object_and_adds_one_owner<T: ?Sized, R: RefCounted<T>>(
    before: R,
    after: R,
    handle: Intrusive<T, R>,
    copy: Intrusive<T, R>,
)
    requires
        handle.is_live(&before),
        copy@ == handle@,
        gains_owner::<T, R>(&before, &after, handle@),
    ensures
        handle.is_live(&after),
        copy.is_live(&after),
        after.pointee(copy@) == after.pointee(handle@),
        after.pointee(copy@) == before.pointee(handle@),
        after.owners(handle@) == before.owners(handle@) + 1,
        forall|first: usize, second: usize|
            may_report::<T, R>(&before, handle@, Some(first)) && may_report::<T, R>(
                &after,
                handle@,
                Some(second),
            ) ==> second == first + 1,
{
}

/// In a run in which every step gives up one owner of `pointer`, the object has
/// `step` owners fewer after `step` steps than it had at the start.
proof fn lemma_owners_fall_by_one_each_release<T: ?Sized, R: RefCounted<T>>(
    states: Seq<R>,
    pointer: R::Pointer,
    step: int,
)
    requires
        0 <= step < states.len(),
        forall|i: int|
            0 <= i < states.len() - 1 ==> loses_owner::<T, R>(
                #[trigger] &states[i],
                &states[i + 1],
                pointer,
            ),
    ensures
        states[step].owners(pointer) == states[0].owners(pointer) - step,
    decreases step,
{
    if step > 0 {
        lemma_owners_fall_by_one_each_release::<T, R>(states, pointer, step - 1);
    }
}

/// Releasing every handle to an object, where the handles are all the owners
/// that the object has, reclaims it exactly once: each handle is live when its
/// turn comes, the count falls by one with each release, and it is zero after
/// the last release and after no earlier one.
pub proof fn lemma_releasing_every_owner_reclaims_once<T: ?Sized, R: RefCounted<T>>(
    states: Seq<R>,
    handles: Seq<Intrusive<T, R>>,
    pointer: R::Pointer,
)
    requires
        states.len() == handles.len() + 1,
        forall|i: int| 0 <= i < handles.len() ==> (#[trigger] handles[i])@ == pointer,
        states[0].owners(pointer) == handles.len(),
        forall|i: int|
            0 <= i < handles.len() ==> loses_owner::<T, R>(
                #[trigger] &states[i],
                &states[i + 1],
                handles[i]@,
            ),
    ensures
        forall|i: int|
            0 <= i <= handles.len() ==> (#[trigger] states[i]).owners(pointer) == handles.len() - i,
        forall|i: int| 0 <= i < handles.len() ==> (#[trigger] handles[i]).is_live(&states[i]),
        forall|i: int|
            0 <= i <= handles.len() ==> ((#[trigger] states[i]).owners(pointer) == 0 <==> i
                == handles.len()),
        states.last().owners(pointer) == 0,
{
    assert forall|i: int| 0 <= i <= handles.len() implies (#[trigger] states[i]).owners(pointer)
        == handles.len() - i by {
        lemma_owners_fall_by_one_each_release::<T, R>(states, pointer, i);
    }
}

/// Adopting records no owner. A handle made by `adopt` stands for an owner that
/// the object had already, so releasing it leaves the object with one owner
/// fewer than it had at the adoption, where a handle made by `retain` leaves it
/// with as many.
pub proof fn lemma_adopt_adds_no_owner<T: ?Sized, R: RefCounted<T>>(
    adopted: R,
    released: R,
    handle: Intrusive<T, R>,
    pointer: R::Pointer,
)
    requires
        adopted.owners(pointer) >= 1,
        handle@ == pointer,
        loses_owner::<T, R>(&adopted, &released, handle@),
    ensures
        handle.is_live(&adopted),
        released.owners(pointer) == adopted.owners(pointer) - 1,
        forall|other: R::Pointer|
            other != pointer ==> #[trigger] released.owners(other) == adopted.owners(other),
{
}

/// Dereferencing a handle that was just adopted gives the object that the
/// adopted pointer names.
pub proof fn lemma_adopted_handle_derefs_to_object<T: ?Sized, R: RefCounted<T>>(
    family: R,
    handle: Intrusive<T, R>,
    pointer: R::Pointer,
    target: &T,
)
    requires
        family.owners(pointer) >= 1,
        handle@ == pointer,
        target == family.pointee(handle@),
    ensures
        handle.is_live(&family),
        target == family.pointee(pointer),
{
}

} // verus!
