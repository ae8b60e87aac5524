use grow_box::CapacityLayout;
use grow_box::GrowBox;
use grow_box::min_common_layout;

#[test]
fn round_trip_preserves_value() {
    let gb = GrowBox::new(41u64);
    assert_eq!(*gb.borrow(), 41u64);
    assert_eq!(gb.allocations(), 1);
}

#[test]
fn equal_inputs_compare_equal() {
    let a = GrowBox::new(7u32);
    let b = GrowBox::new(7u32);
    let c = GrowBox::new(8u32);
    assert_eq!(a, b);
    assert_ne!(a, c);
}

#[test]
fn clone_is_fresh_and_independent() {
    let a = GrowBox::new(5u8).with(500u64);
    assert_eq!(a.allocations(), 2);

    let mut b = a.clone();
    assert_eq!(a, b);
    assert_eq!(b.allocations(), 1);

    b.set(9u64);
    assert_ne!(a, b);
    assert_eq!(*a.borrow(), 500u64);
    assert_eq!(*b.borrow(), 9u64);
}

#[test]
fn replace_with_smaller_type_reuses_storage() {
    let a = GrowBox::new(4096u64);
    let cap = a.current_capacity();
    let b = a.with(7u8);
    assert_eq!(*b.borrow(), 7u8);
    assert_eq!(b.allocations(), 1);
    assert_eq!(b.current_capacity(), cap);
}

#[test]
fn replace_with_bigger_type_allocates_once() {
    let a = GrowBox::new(3u8);
    let b = a.with(70000u64);
    assert_eq!(*b.borrow(), 70000u64);
    assert_eq!(b.allocations(), 2);
    assert_eq!(b.current_capacity(), CapacityLayout::of_type::<u64>());
}

#[test]
fn capacity_is_monotonic_across_transforms() {
    let grown = GrowBox::new(1u64).with(2u8);
    let cap = grown.current_capacity();
    assert_eq!(cap, CapacityLayout::of_type::<u64>());

    let back = grown.with(3u64);
    assert_eq!(back.allocations(), 1);
    assert_eq!(back.current_capacity(), cap);
}

#[test]
fn overwrite_changes_value_not_identity() {
    let mut gb = GrowBox::new(10u32);
    let cap = gb.current_capacity();
    let allocs = gb.allocations();

    gb.set(11u32);

    assert_eq!(*gb.borrow(), 11u32);
    assert_eq!(gb.current_capacity(), cap);
    assert_eq!(gb.allocations(), allocs);
}

#[test]
fn borrow_mut_writes_in_place() {
    let mut gb = GrowBox::new(1u16);
    *gb.borrow_mut() = 2u16;
    assert_eq!(*gb.borrow(), 2u16);
    assert_eq!(gb.allocations(), 1);
}

#[test]
fn map_applies_the_function() {
    let gb = GrowBox::new(20u64);
    let mapped = gb.map(|x| x + 2);
    assert_eq!(*mapped.borrow(), 22u64);
    assert_eq!(mapped.allocations(), 1);
}

#[test]
fn arbiter_returns_dominating_descriptor() {
    let big = CapacityLayout { size: 16, align: 8 };
    let small = CapacityLayout { size: 4, align: 4 };
    assert_eq!(min_common_layout(big, small), big);
    assert_eq!(min_common_layout(small, big), big);
    assert_eq!(min_common_layout(big, big), big);
}

#[test]
fn arbiter_synthesizes_componentwise_maximum() {
    let wide = CapacityLayout { size: 12, align: 2 };
    let aligned = CapacityLayout { size: 4, align: 8 };
    let combined = CapacityLayout { size: 12, align: 8 };
    assert_eq!(min_common_layout(wide, aligned), combined);
    assert_eq!(min_common_layout(aligned, wide), combined);
}

#[test]
fn of_type_matches_the_compiler() {
    let l = CapacityLayout::of_type::<u64>();
    assert_eq!(l.size, std::mem::size_of::<u64>());
    assert_eq!(l.align, std::mem::align_of::<u64>());

    let unit = CapacityLayout::of_type::<()>();
    assert_eq!(unit.size, 0);
    assert_eq!(unit.align, 1);
}
