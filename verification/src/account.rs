//! The account of owners: the invariant that keeps every handle live.
//!
//! A handle stands for exactly one owner of its object. Taken over all the
//! handles that exist, this says that no object has fewer owners than handles.
//! The laws below show that each operation keeps this account, and that under
//! it every handle is live: whoever follows the rules when making handles never
//! has anything to prove when cloning, dereferencing or releasing one.

use crate::counting::{gains_owner, loses_owner, RefCounted};
use crate::shared::Intrusive;
use vstd::prelude::*;

verus! {

/// How many of `handles` own a share of the object behind `pointer`.
pub open spec fn shares<T: ?Sized, R: RefCounted<T>>(
    handles: Seq<Intrusive<T, R>>,
    pointer: R::Pointer,
) -> nat
    decreases handles.len(),
{
    if handles.len() == 0 {
        0
    } else {
        shares(handles.drop_last(), pointer) + if handles.last()@ == pointer {
            1nat
        } else {
            0nat
        }
    }
}

/// Every handle in `handles` stands for an owner of its own: no object has
/// fewer owners in `family` than there are handles to it. Owners that no handle
/// stands for are allowed; they belong to foreign code.
pub open spec fn accounts_for<T: ?Sized, R: RefCounted<T>>(
    family: &R,
    handles: Seq<Intrusive<T, R>>,
) -> bool {
    forall|pointer: R::Pointer| #[trigger] shares(handles, pointer) <= family.owners(pointer)
}

/// One more handle is one more share of its own object, and of no other.
pub proof fn lemma_shares_push<T: ?Sized, R: RefCounted<T>>(
    handles: Seq<Intrusive<T, R>>,
    handle: Intrusive<T, R>,
    pointer: R::Pointer,
)
    ensures
        shares(handles.push(handle), pointer) == shares(handles, pointer) + if handle@ == pointer {
            1nat
        } else {
            0nat
        },
{
    assert(handles.push(handle).drop_last() == handles);
}

/// A handle taken away is one share less of its own object, and of no other.
pub proof fn lemma_shares_remove<T: ?Sized, R: RefCounted<T>>(
    handles: Seq<Intrusive<T, R>>,
    index: int,
    pointer: R::Pointer,
)
    requires
        0 <= index < handles.len(),
    ensures
        shares(handles.remove(index), pointer) + if handles[index]@ == pointer {
            1nat
        } else {
            0nat
        } == shares(handles, pointer),
    decreases handles.len(),
{
    // The last handle is either one that remains or the one taken away.
    if index < handles.len() - 1 {
        lemma_shares_remove(handles.drop_last(), index, pointer);
        assert(handles.remove(index).drop_last() == handles.drop_last().remove(index));
    } else {
        assert(handles.remove(index) == handles.drop_last());
    }
}

/// No handle at all is accounted for in any family.
pub proof fn lemma_nothing_to_account_for<T: ?Sized, R: RefCounted<T>>(family: R)
    ensures
        accounts_for(&family, Seq::<Intrusive<T, R>>::empty()),
{
}

/// Under the account every handle is live, so it may be cloned, dereferenced
/// and released without more ado.
pub proof fn lemma_accounted_handle_is_live<T: ?Sized, R: RefCounted<T>>(
    family: R,
    handles: Seq<Intrusive<T, R>>,
    index: int,
)
    requires
        accounts_for(&family, handles),
        0 <= index < handles.len(),
    ensures
        handles[index].is_live(&family),
{
    lemma_shares_remove(handles, index, handles[index]@);
}

/// Adopting keeps the account where the object has an owner that no handle
/// stands for yet: that is the owner which the new handle takes over.
pub proof fn lemma_adopt_keeps_account<T: ?Sized, R: RefCounted<T>>(
    family: R,
    handles: Seq<Intrusive<T, R>>,
    handle: Intrusive<T, R>,
    pointer: R::Pointer,
)
    requires
        accounts_for(&family, handles),
        shares(handles, pointer) < family.owners(pointer),
        handle@ == pointer,
    ensures
        accounts_for(&family, handles.push(handle)),
{
    assert forall|other: R::Pointer| #[trigger]
        shares(handles.push(handle), other) <= family.owners(other) by {
        lemma_shares_push(handles, handle, other);
    }
}

/// Retaining keeps the account, and so does cloning: the owner that was
/// recorded is the one that the new handle stands for.
pub proof fn lemma_retain_keeps_account<T: ?Sized, R: RefCounted<T>>(
    before: R,
    after: R,
    handles: Seq<Intrusive<T, R>>,
    handle: Intrusive<T, R>,
    pointer: R::Pointer,
)
    requires
        accounts_for(&before, handles),
        gains_owner::<T, R>(&before, &after, pointer),
        handle@ == pointer,
    ensures
        accounts_for(&after, handles.push(handle)),
{
    assert forall|other: R::Pointer| #[trigger]
        shares(handles.push(handle), other) <= after.owners(other) by {
        lemma_shares_push(handles, handle, other);
    }
}

/// Releasing keeps the account of the handles that remain.
pub proof fn lemma_release_keeps_account<T: ?Sized, R: RefCounted<T>>(
    before: R,
    after: R,
    handles: Seq<Intrusive<T, R>>,
    index: int,
)
    requires
        accounts_for(&before, handles),
        0 <= index < handles.len(),
        loses_owner::<T, R>(&before, &after, handles[index]@),
    ensures
        accounts_for(&after, handles.remove(index)),
{
    assert forall|other: R::Pointer| #[trigger]
        shares(handles.remove(index), other) <= after.owners(other) by {
        lemma_shares_remove(handles, index, other);
    }
}

} // verus!
