//! The layout arbiter: capacity descriptors and the pure decision of the
//! smallest descriptor that can host either of two given ones.

use vstd::prelude::*;

verus! {

/// A capacity descriptor: the size and alignment, in bytes, that a backing
/// block can host. A container's capacity descriptor may exceed the layout of
/// its current occupant's type, and it never shrinks over the container's
/// lifetime.
#[derive(Clone, Copy, PartialEq, Eq, Structural, Debug)]
pub struct CapacityLayout {
    pub size: usize,
    pub align: usize,
}

impl CapacityLayout {
    /// A block of this descriptor can host anything a block of descriptor
    /// `other` can host.
    pub open spec fn hosts(self, other: CapacityLayout) -> bool {
        self.size >= other.size && self.align >= other.align
    }

    /// A block of this descriptor can host a value of type `T`.
    pub open spec fn hosts_type<T>(self) -> bool {
        self.size >= vstd::layout::size_of::<T>() && self.align >= vstd::layout::align_of::<T>()
    }

    /// The exact layout of type `T`, as the compiler reports it.
    pub fn of_type<T>() -> (r: CapacityLayout)
        ensures
            r.size as nat == vstd::layout::size_of::<T>(),
            r.align as nat == vstd::layout::align_of::<T>(),
    {
        CapacityLayout { size: core::mem::size_of::<T>(), align: core::mem::align_of::<T>() }
    }
}

/// What `min_common_layout` returns: the component-wise maximum of the two
/// descriptors. When one descriptor dominates the other this coincides with
/// the dominating descriptor itself.
pub open spec fn spec_combine(l1: CapacityLayout, l2: CapacityLayout) -> CapacityLayout {
    CapacityLayout {
        size: if l1.size >= l2.size {
            l1.size
        } else {
            l2.size
        },
        align: if l1.align >= l2.align {
            l1.align
        } else {
            l2.align
        },
    }
}

/// The layout arbiter: the smallest descriptor that can host anything either
/// `l1` or `l2` can host. When one of the two dominates, it is returned
/// unchanged; otherwise a descriptor with the maximum size and the maximum
/// alignment is synthesized.
///
/// The synthesized size is deliberately not rounded up to a multiple of the
/// synthesized alignment: the descriptor records exactly how many bytes must
/// be hosted, and rounding would only ever enlarge later allocations.
pub fn min_common_layout(l1: CapacityLayout, l2: CapacityLayout) -> (r: CapacityLayout)
    ensures
        r == spec_combine(l1, l2),
        r.hosts(l1),
        r.hosts(l2),
{
    if l1.size >= l2.size && l1.align >= l2.align {
        l1
    } else if l2.size >= l1.size && l2.align >= l1.align {
        l2
    } else {
        let max_size: usize = if l1.size >= l2.size {
            l1.size
        } else {
            l2.size
        };
        let max_align: usize = if l1.align >= l2.align {
            l1.align
        } else {
            l2.align
        };
        CapacityLayout { size: max_size, align: max_align }
    }
}

/// Hosting is transitive: a descriptor that can host everything `b` can host
/// can in particular host everything `c` can host, whenever `b` can host `c`.
/// This is what makes capacity growth monotonic across a whole chain of
/// transforms: once a capacity has grown to host a layout, every later
/// capacity still hosts it.
pub proof fn lemma_hosts_transitive(a: CapacityLayout, b: CapacityLayout, c: CapacityLayout)
    requires
        a.hosts(b),
        b.hosts(c),
    ensures
        a.hosts(c),
{
}

/// Zero-allocation shrink or equal-size transform: a capacity that hosts the
/// layout of `A` also hosts the layout of any `B` whose size and alignment do
/// not exceed `A`'s. Together with the transform contracts, which promise
/// that no allocation happens when the capacity hosts the target type, this
/// says that transforming to a smaller-or-equal type never allocates.
pub proof fn lemma_shrink_reuses<A, B>(cap: CapacityLayout)
    requires
        cap.hosts_type::<A>(),
        vstd::layout::size_of::<B>() <= vstd::layout::size_of::<A>(),
        vstd::layout::align_of::<B>() <= vstd::layout::align_of::<A>(),
    ensures
        cap.hosts_type::<B>(),
{
}

/// Growth allocates: a capacity whose size is strictly below what `B` needs
/// cannot host `B`. Together with the transform contracts, which promise
/// exactly one fresh allocation when the capacity cannot host the target
/// type, this says that transforming to a strictly larger type costs exactly
/// one allocation.
pub proof fn lemma_growth_allocates<B>(cap: CapacityLayout)
    requires
        cap.size < vstd::layout::size_of::<B>(),
    ensures
        !cap.hosts_type::<B>(),
{
}

/// A descriptor that already dominates the other is returned unchanged by the
/// arbiter, so no regrowth is ever decided for a layout that already fits.
pub proof fn lemma_combine_reuses(l1: CapacityLayout, l2: CapacityLayout)
    requires
        l1.hosts(l2),
    ensures
        spec_combine(l1, l2) == l1,
{
}

} // verus!
