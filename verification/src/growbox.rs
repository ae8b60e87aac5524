//! The container: a single-owner heap slot holding exactly one occupant,
//! whose backing capacity is tracked explicitly and only ever grows.

use vstd::prelude::*;

use crate::layout::CapacityLayout;
use crate::layout::min_common_layout;
use crate::layout::spec_combine;
use vstd::std_specs::cmp::PartialEqSpec;

verus! {

/// A single-owner container holding exactly one occupant of type `T`.
///
/// Beside the occupant itself, the container carries the capacity descriptor
/// of its backing storage, and a count of how many allocations that storage
/// has performed over the container's whole lifetime: one at construction,
/// and one more for each regrowth that a type-changing transform required.
/// The capacity is monotonically non-decreasing and tracks the largest layout
/// any occupant type has ever required of this container.
#[derive(Debug)]
pub struct GrowBox<T> {
    val: Box<T>,
    cap: CapacityLayout,
    allocs: u64,
}

impl<T> GrowBox<T> {
    /// The occupant currently held.
    pub closed spec fn value(self) -> T {
        *self.val
    }

    /// The capacity descriptor of the backing storage.
    pub closed spec fn capacity(self) -> CapacityLayout {
        self.cap
    }

    /// How many allocations this container's storage has performed over its
    /// lifetime: one at construction, plus one per regrowth.
    pub closed spec fn alloc_count(self) -> u64 {
        self.allocs
    }

    /// Well-formedness: the capacity can host the current occupant's type,
    /// and the construction-time allocation has happened.
    pub open spec fn inv(self) -> bool {
        &&& self.capacity().hosts_type::<T>()
        &&& self.alloc_count() >= 1
    }

    /// Construct a container around `val`. The backing storage is allocated
    /// once, with exactly the layout of `T`.
    pub fn new(val: T) -> (r: GrowBox<T>)
        ensures
            r.inv(),
            r.value() == val,
            r.capacity().size as nat == vstd::layout::size_of::<T>(),
            r.capacity().align as nat == vstd::layout::align_of::<T>(),
            r.alloc_count() == 1,
    {
        let cap = CapacityLayout::of_type::<T>();
        GrowBox { val: Box::new(val), cap, allocs: 1 }
    }

    /// Overwrite: replace the occupant with `val`, in place. The capacity
    /// descriptor and the allocation count are unchanged, so the container
    /// keeps its storage identity.
    ///
    /// Policy: the previous occupant is released normally before the new one
    /// is written; an overwrite never leaks what the old occupant owned.
    pub fn set(&mut self, val: T)
        requires
            old(self).inv(),
        ensures
            final(self).inv(),
            final(self).value() == val,
            final(self).capacity() == old(self).capacity(),
            final(self).alloc_count() == old(self).alloc_count(),
    {
        self.val = Box::new(val);
    }

    /// The raw storage step shared by the type-changing transforms: asks the
    /// layout arbiter whether a block of descriptor `cap` can host `T`, keeps
    /// the descriptor and the allocation count as they are if so, and regrows
    /// (exactly one fresh allocation) otherwise, then writes `val` as the new
    /// occupant.
    fn regrow_into(cap: CapacityLayout, allocs: u64, val: T) -> (r: GrowBox<T>)
        requires
            allocs >= 1,
            allocs < u64::MAX,
        ensures
            r.inv(),
            r.value() == val,
            r.capacity() == (spec_combine(
                cap,
                CapacityLayout {
                    size: vstd::layout::size_of::<T>() as usize,
                    align: vstd::layout::align_of::<T>() as usize,
                },
            )),
            r.capacity().hosts(cap),
            cap.hosts_type::<T>() ==> r.capacity() == cap && r.alloc_count() == allocs,
            !cap.hosts_type::<T>() ==> r.alloc_count() == allocs + 1,
    {
        let wanted = CapacityLayout::of_type::<T>();
        let new_cap = min_common_layout(cap, wanted);
        if new_cap != cap {
            GrowBox { val: Box::new(val), cap: new_cap, allocs: allocs + 1 }
        } else {
            GrowBox { val: Box::new(val), cap, allocs }
        }
    }

    /// Type-changing replace: destroy the current occupant, regrow the
    /// backing storage only if its capacity cannot host `T2`, and write `val`
    /// as the new occupant. The resulting capacity hosts everything the old
    /// one could, so capacity never shrinks; when the old capacity already
    /// hosts `T2`, the storage is reused and nothing is allocated.
    pub fn with<T2>(self, val: T2) -> (r: GrowBox<T2>)
        requires
            self.inv(),
            self.alloc_count() < u64::MAX,
        ensures
            r.inv(),
            r.value() == val,
            r.capacity() == (spec_combine(
                self.capacity(),
                CapacityLayout {
                    size: vstd::layout::size_of::<T2>() as usize,
                    align: vstd::layout::align_of::<T2>() as usize,
                },
            )),
            r.capacity().hosts(self.capacity()),
            self.capacity().hosts_type::<T2>() ==> r.capacity() == self.capacity()
                && r.alloc_count() == self.alloc_count(),
            !self.capacity().hosts_type::<T2>() ==> r.alloc_count() == self.alloc_count() + 1,
    {
        let GrowBox { val: _destroyed, cap, allocs } = self;
        GrowBox::<T2>::regrow_into(cap, allocs, val)
    }

    /// Transform: move the occupant out, apply `f` to it, then host `f`'s
    /// result over the same backing storage, regrowing only if the capacity
    /// cannot host `T2`. Capacity and allocation behaviour are exactly those
    /// of a type-changing replace with `f`'s result.
    pub fn map<T2, F: Fn(T) -> T2>(self, f: F) -> (r: GrowBox<T2>)
        requires
            self.inv(),
            self.alloc_count() < u64::MAX,
            call_requires(f, (self.value(),)),
        ensures
            r.inv(),
            call_ensures(f, (self.value(),), r.value()),
            r.capacity() == (spec_combine(
                self.capacity(),
                CapacityLayout {
                    size: vstd::layout::size_of::<T2>() as usize,
                    align: vstd::layout::align_of::<T2>() as usize,
                },
            )),
            r.capacity().hosts(self.capacity()),
            self.capacity().hosts_type::<T2>() ==> r.capacity() == self.capacity()
                && r.alloc_count() == self.alloc_count(),
            !self.capacity().hosts_type::<T2>() ==> r.alloc_count() == self.alloc_count() + 1,
    {
        let GrowBox { val, cap, allocs } = self;
        let new_val = f(*val);
        GrowBox::<T2>::regrow_into(cap, allocs, new_val)
    }

    /// How many allocations this container's storage has performed over its
    /// lifetime, the observable face of the allocation model: construction
    /// allocates once, a transform allocates once more exactly when the
    /// capacity had to grow, and nothing else allocates.
    pub fn allocations(&self) -> (r: u64)
        ensures
            r == self.alloc_count(),
    {
        self.allocs
    }

    /// The capacity descriptor the backing storage currently has.
    pub fn current_capacity(&self) -> (r: CapacityLayout)
        ensures
            r == self.capacity(),
    {
        self.cap
    }

    /// Borrow the occupant at its current location.
    pub fn borrow(&self) -> (r: &T)
        ensures
            *r == self.value(),
    {
        &*self.val
    }

    /// Borrow the occupant mutably at its current location. Writing through
    /// the returned borrow changes the observed value; capacity and
    /// allocation count stay as they are.
    pub fn borrow_mut(&mut self) -> (r: &mut T)
        requires
            old(self).inv(),
        ensures
            *r == old(self).value(),
            final(self).value() == *final(r),
            final(self).capacity() == old(self).capacity(),
            final(self).alloc_count() == old(self).alloc_count(),
            final(self).inv(),
    {
        &mut *self.val
    }
}

/// Equality forwards to the occupant values: two containers compare equal
/// exactly when their occupants do, whatever their capacities or allocation
/// histories are.
impl<T: PartialEq> vstd::std_specs::cmp::PartialEqSpecImpl for GrowBox<T> {
    open spec fn obeys_eq_spec() -> bool {
        T::obeys_eq_spec()
    }

    open spec fn eq_spec(&self, other: &GrowBox<T>) -> bool {
        self.value().eq_spec(&other.value())
    }
}

/// Equality forwards exactly: two containers compare equal precisely when
/// their occupants do, however their capacities and allocation histories
/// differ. In particular, containers built around equal values compare equal
/// and containers built around differing values compare unequal, whenever the
/// occupant type's own equality obeys its specification.
pub proof fn lemma_eq_forwards<T: PartialEq>(a: GrowBox<T>, b: GrowBox<T>)
    ensures
        a.eq_spec(&b) <==> a.value().eq_spec(&b.value()),
{
}

impl<T: PartialEq> PartialEq for GrowBox<T> {
    fn eq(&self, other: &Self) -> (r: bool) {
        let a: &T = &*self.val;
        let b: &T = &*other.val;
        a == b
    }
}

impl<T: Eq> Eq for GrowBox<T> {}

impl<T: Clone> Clone for GrowBox<T> {
    /// Cloning constructs a brand-new container around a clone of the
    /// occupant: the clone's capacity is exactly `T`'s layout and its storage
    /// has performed exactly one allocation, however large the source
    /// container's capacity had grown. The two containers own disjoint
    /// storage, so each can be mutated or destroyed without touching the
    /// other.
    fn clone(&self) -> (r: Self)
        ensures
            r.inv(),
            vstd::pervasive::cloned::<T>(self.value(), r.value()),
            r.capacity().size as nat == vstd::layout::size_of::<T>(),
            r.capacity().align as nat == vstd::layout::align_of::<T>(),
            r.alloc_count() == 1,
    {
        let v: T = (&*self.val).clone();
        GrowBox::new(v)
    }
}

} // verus!
