use core::mem::ManuallyDrop;
use vstd::prelude::*;
use vstd::std_specs::manually_drop::ManuallyDropAdditionalFns;

verus! {

/// `ManuallyDrop::deref_mut` hands out the wrapped value itself: the reference
/// starts at the value held, and what is written through it is what the
/// wrapper holds afterwards.
pub assume_specification<T: ?Sized>[ <ManuallyDrop<T> as core::ops::DerefMut>::deref_mut ](
    m: &mut ManuallyDrop<T>,
) -> (res: &mut T)
    ensures
        &*res == old(m).view_ref(),
        &*final(res) == final(m).view_ref(),
;

/// Newtype that permits shared (`&T`) access to a value that is never dropped.
pub struct Ref<T> {
    t: ManuallyDrop<T>,
}

impl<T> View for Ref<T> {
    type V = T;

    /// The value held.
    closed spec fn view(&self) -> T {
        self.t@
    }
}

impl<T> Ref<T> {
    /// Wraps `t`; it will never be dropped.
    pub fn new(t: T) -> (r: Self)
        ensures
            r@ == t,
    {
        Ref { t: ManuallyDrop::new(t) }
    }
}

/// Newtype that permits borrowed (`&mut T`) or shared (`&T`) access,
/// but nothing else.
pub struct RefMut<T> {
    t: ManuallyDrop<T>,
}

impl<T> View for RefMut<T> {
    type V = T;

    /// The value held.
    closed spec fn view(&self) -> T {
        self.t@
    }
}

impl<T> RefMut<T> {
    /// Wraps `t`; it will never be dropped.
    pub fn new(t: T) -> (r: Self)
        ensures
            r@ == t,
    {
        RefMut { t: ManuallyDrop::new(t) }
    }
}

impl<T> core::ops::Deref for Ref<T> {
    type Target = T;

    /// Shared access to the value held.
    fn deref(&self) -> (r: &T)
        ensures
            *r == self@,
    {
        &*self.t
    }
}

impl<T> core::ops::Deref for RefMut<T> {
    type Target = T;

    /// Shared access to the value held.
    fn deref(&self) -> (r: &T)
        ensures
            *r == self@,
    {
        &*self.t
    }
}

impl<T> core::ops::DerefMut for RefMut<T> {
    /// Borrowed access to the value held: it starts at the value held, and
    /// what is written through it is what the wrapper holds afterwards.
    fn deref_mut(&mut self) -> (r: &mut T)
        ensures
            *r == old(self)@,
            final(self)@ == *final(r),
    {
        &mut *self.t
    }
}

/// The value held before the `k`-th write: `start` for the first, else the
/// previous write.
pub open spec fn value_before<T>(start: T, writes: Seq<T>, k: int) -> T {
    if k == 0 {
        start
    } else {
        writes[k - 1]
    }
}

/// Shared access always observes the last value written through borrowed
/// access. `borrows[k]` is the `k`-th borrow that `deref_mut` handed out: the
/// wrapper it was taken from and the reference it returned, each borrow
/// taken from the wrapper as the previous one left it, the first from a
/// wrapper holding `start`; `writes[k]` is what the reference held when the
/// borrow ended. Each borrow starts at the value last written (at `start`
/// for the first), after each the wrapper holds what was written through it,
/// and after the last the wrapper holds the last write, which `deref` hands
/// out.
pub proof fn law_ref_mut_last_write<T>(
    start: T,
    writes: Seq<T>,
    borrows: Seq<(&mut RefMut<T>, &mut T)>,
)
    requires
        writes.len() > 0,
        borrows.len() == writes.len(),
        (*borrows[0].0)@ == start,
        forall|k: int|
            0 <= k < borrows.len() ==> call_ensures(
                <RefMut<T> as core::ops::DerefMut>::deref_mut,
                (borrows[k].0,),
                #[trigger] borrows[k].1,
            ),
        forall|k: int| 0 <= k < borrows.len() ==> *final(#[trigger] borrows[k].1) == writes[k],
        forall|k: int|
            0 <= k < borrows.len() - 1 ==> *#[trigger] borrows[k + 1].0 == *final(borrows[k].0),
    ensures
        forall|k: int|
            0 <= k < borrows.len() ==> (*final(#[trigger] borrows[k].0))@ == writes[k],
        forall|k: int|
            0 <= k < borrows.len() ==> *(#[trigger] borrows[k]).1 == value_before(
                start,
                writes,
                k,
            ),
        (*final(borrows.last().0))@ == writes.last(),
        forall|r: &T|
            call_ensures(<RefMut<T> as core::ops::Deref>::deref, (&*final(borrows.last().0),), r)
                ==> *r == writes.last(),
{
    assert forall|k: int| 0 <= k < borrows.len() implies (*final(borrows[k].0))@ == writes[k]
        && *borrows[k].1 == value_before(start, writes, k) by {
        assert(call_ensures(
            <RefMut<T> as core::ops::DerefMut>::deref_mut,
            (borrows[k].0,),
            borrows[k].1,
        ));
        assert(*final(borrows[k].1) == writes[k]);
        if k > 0 {
            let j = k - 1;
            assert(call_ensures(
                <RefMut<T> as core::ops::DerefMut>::deref_mut,
                (borrows[j].0,),
                borrows[j].1,
            ));
            assert(*final(borrows[j].1) == writes[j]);
            assert(*borrows[j + 1].0 == *final(borrows[j].0));
            assert(j + 1 == k);
        }
    }
    let n = borrows.len() - 1;
    assert(borrows.last() == borrows[n]);
    assert(call_ensures(
        <RefMut<T> as core::ops::DerefMut>::deref_mut,
        (borrows[n].0,),
        borrows[n].1,
    ));
    assert(*final(borrows[n].1) == writes[n]);
}

} // verus!
