use enums_arena::mock::{Mock, MockExtendEnum, MockId, MockIdArena};

#[test]
fn scenario_of_three_variants() {
    let mut arena = MockIdArena::<i32, u8, u8>::default();

    let id0 = arena.alloc_mock1();
    assert_eq!(arena.get(id0), Some(Mock::Mock1));

    let id1 = arena.alloc_mock2(5);
    assert_eq!(arena.get(id1), Some(Mock::Mock2(5)));
    assert_eq!(arena.len(), 2);

    let id2 = arena.alloc_mock3((1, 2, ""));
    assert_eq!(arena.get(id2), Some(Mock::Mock3((1, 2, ""))));
    assert_eq!(arena.len(), 3);

    assert_eq!(arena.update(id1, Mock::Mock1), None);
    assert_eq!(arena.get(id1), Some(Mock::Mock2(5)));

    *arena.get_mock2_mut(id1).unwrap() = 9;
    assert_eq!(arena.get(id1), Some(Mock::Mock2(9)));

    arena.clear();
    assert_eq!(arena.get(id0), None);
    assert_eq!(arena.get(id1), None);
    assert_eq!(arena.get(id2), None);
    assert_eq!(arena.len(), 0);
}

#[test]
fn handles_carry_tag_offset_and_stamp() {
    let mut arena = MockIdArena::<i32, u16, u32>::default();
    assert_eq!(arena.alloc_mock2(7), (MockExtendEnum::Mock2, 0u16, 0u32));
    assert_eq!(arena.alloc_mock1(), (MockExtendEnum::Mock1, 1u16, 0u32));
    assert_eq!(arena.alloc_mock3((0, 0, "z")), (MockExtendEnum::Mock3, 2u16, 0u32));
    arena.clear();
    assert_eq!(arena.alloc_mock1(), (MockExtendEnum::Mock1, 0u16, 1u32));
}

#[test]
fn every_variant_reads_back() {
    let mut arena = MockIdArena::<String, u32, u16>::default();

    let unit = arena.alloc_mock1();
    let text = arena.alloc_mock2(String::from("payload"));
    let triple = arena.alloc_mock3((-3, u64::MAX, "fixed"));

    assert_eq!(arena.get(unit), Some(Mock::Mock1));
    assert_eq!(arena.get(text), Some(Mock::Mock2(String::from("payload"))));
    assert_eq!(arena.get(triple), Some(Mock::Mock3((-3, u64::MAX, "fixed"))));
    assert_eq!(arena.get_mock2(text), Some(&String::from("payload")));
    assert_eq!(arena.get_mock3(triple), Some(&(-3, u64::MAX, "fixed")));
}

#[test]
fn allocate_dispatches_on_the_variant() {
    let mut arena = MockIdArena::<u8, u8, ()>::default();

    let a = arena.allocate(Mock::Mock1);
    let b = arena.allocate(Mock::Mock2(200));
    let c = arena.allocate(Mock::Mock3((1, 1, "c")));

    assert_eq!(arena.ty(a), MockExtendEnum::Mock1);
    assert_eq!(arena.ty(b), MockExtendEnum::Mock2);
    assert_eq!(arena.ty(c), MockExtendEnum::Mock3);
    assert_eq!(arena.get(a), Some(Mock::Mock1));
    assert_eq!(arena.get(b), Some(Mock::Mock2(200)));
    assert_eq!(arena.get(c), Some(Mock::Mock3((1, 1, "c"))));
    assert_eq!(arena.len(), 3);
}

#[test]
fn pools_are_indexed_apart_from_the_table() {
    let mut arena = MockIdArena::<i32, u8, u8>::default();

    let first = arena.alloc_mock2(10);
    let other = arena.alloc_mock3((0, 0, "x"));
    let unit = arena.alloc_mock1();
    let second = arena.alloc_mock2(20);

    assert_eq!(first.1, 0);
    assert_eq!(other.1, 1);
    assert_eq!(unit.1, 2);
    assert_eq!(second.1, 3);
    assert_eq!(arena.get_mock2(first), Some(&10));
    assert_eq!(arena.get_mock2(second), Some(&20));
    assert_eq!(arena.get_mock3(other), Some(&(0, 0, "x")));
}

#[test]
fn typed_accessors_refuse_other_tags() {
    let mut arena = MockIdArena::<i32, u32, u32>::default();

    let unit = arena.alloc_mock1();
    let two = arena.alloc_mock2(2);
    let three = arena.alloc_mock3((3, 3, "three"));

    assert_eq!(arena.get_mock2(unit), None);
    assert_eq!(arena.get_mock3(unit), None);
    assert_eq!(arena.get_mock3(two), None);
    assert_eq!(arena.get_mock2(three), None);
    assert_eq!(arena.get_mock2_mut(unit), None);
    assert_eq!(arena.get_mock3_mut(unit), None);
    assert_eq!(arena.get_mock3_mut(two), None);
    assert_eq!(arena.get_mock2_mut(three), None);
}

#[test]
fn clear_outdates_every_handle() {
    let mut arena = MockIdArena::<i32, u32, u8>::default();

    let unit = arena.alloc_mock1();
    let two = arena.alloc_mock2(2);
    let three = arena.alloc_mock3((3, 3, "three"));
    arena.clear();
    arena.alloc_mock1();
    arena.alloc_mock2(22);
    arena.alloc_mock3((33, 33, "later"));

    assert_eq!(arena.get(unit), None);
    assert_eq!(arena.get(two), None);
    assert_eq!(arena.get(three), None);
    assert_eq!(arena.get_mock2(two), None);
    assert_eq!(arena.get_mock3(three), None);
    assert_eq!(arena.get_mock2_mut(two), None);
    assert_eq!(arena.get_mock3_mut(three), None);
    assert_eq!(arena.update(unit, Mock::Mock1), None);
    assert_eq!(arena.update(two, Mock::Mock2(0)), None);
    assert_eq!(arena.update(three, Mock::Mock3((0, 0, ""))), None);
    assert_eq!(arena.get_mock2(two), None);
    assert_eq!(arena.len(), 3);
}

#[test]
fn handles_of_two_clears_ago_stay_outdated() {
    let mut arena = MockIdArena::<i32, u8, u16>::default();
    let old = arena.alloc_mock2(1);
    arena.clear();
    let newer = arena.alloc_mock2(2);
    arena.clear();
    let newest = arena.alloc_mock2(3);

    assert_eq!(arena.get(old), None);
    assert_eq!(arena.get(newer), None);
    assert_eq!(arena.get(newest), Some(Mock::Mock2(3)));
}

#[test]
fn update_replaces_or_refuses() {
    let mut arena = MockIdArena::<i32, u8, u8>::default();

    let unit = arena.alloc_mock1();
    let two = arena.alloc_mock2(2);
    let three = arena.alloc_mock3((3, 3, "three"));

    assert_eq!(arena.update(two, Mock::Mock2(40)), Some(()));
    assert_eq!(arena.get(two), Some(Mock::Mock2(40)));
    assert_eq!(arena.update(three, Mock::Mock3((5, 6, "seven"))), Some(()));
    assert_eq!(arena.get(three), Some(Mock::Mock3((5, 6, "seven"))));
    assert_eq!(arena.update(unit, Mock::Mock1), Some(()));
    assert_eq!(arena.get(unit), Some(Mock::Mock1));

    assert_eq!(arena.update(two, Mock::Mock3((0, 0, ""))), None);
    assert_eq!(arena.update(two, Mock::Mock1), None);
    assert_eq!(arena.update(three, Mock::Mock2(0)), None);
    assert_eq!(arena.update(unit, Mock::Mock2(0)), None);
    assert_eq!(arena.get(unit), Some(Mock::Mock1));
    assert_eq!(arena.get(two), Some(Mock::Mock2(40)));
    assert_eq!(arena.get(three), Some(Mock::Mock3((5, 6, "seven"))));
    assert_eq!(arena.len(), 3);
}

#[test]
fn mutable_access_writes_through() {
    let mut arena = MockIdArena::<Vec<u8>, u8, u8>::default();

    let two = arena.alloc_mock2(vec![1]);
    let three = arena.alloc_mock3((0, 0, "before"));

    arena.get_mock2_mut(two).unwrap().push(2);
    arena.get_mock3_mut(three).unwrap().2 = "after";

    assert_eq!(arena.get_mock2(two), Some(&vec![1, 2]));
    assert_eq!(arena.get(three), Some(Mock::Mock3((0, 0, "after"))));
}

#[test]
fn len_counts_allocations_since_clear() {
    let mut arena = MockIdArena::<usize, u16, u8>::default();
    assert_eq!(arena.len(), 0);
    for n in 0..300usize {
        assert_eq!(arena.len(), n);
        match n % 3 {
            0 => arena.alloc_mock1(),
            1 => arena.alloc_mock2(n),
            _ => arena.alloc_mock3((0, 0, "")),
        };
    }
    assert_eq!(arena.len(), 300);
    arena.clear();
    assert_eq!(arena.len(), 0);
    arena.alloc_mock1();
    assert_eq!(arena.len(), 1);
}

#[test]
fn a_standing_stamp_keeps_old_handles_in_play() {
    let mut arena = MockIdArena::<i32, u8, ()>::default();

    let first = arena.alloc_mock2(1);
    let second = arena.alloc_mock2(2);
    arena.clear();

    assert_eq!(arena.get(first), None);
    assert_eq!(arena.get(second), None);
    assert_eq!(arena.get_mock2(first), None);
    assert_eq!(arena.get_mock2_mut(second), None);
    assert_eq!(arena.update(first, Mock::Mock2(0)), None);

    arena.alloc_mock2(10);
    assert_eq!(arena.get(first), Some(Mock::Mock2(10)));
    assert_eq!(arena.get(second), None);
}

#[test]
fn offsets_wrap_where_the_index_type_ends() {
    let mut arena = MockIdArena::<u32, u8, u8>::default();
    let mut last = arena.alloc_mock2(0);
    for n in 1..256u32 {
        last = arena.alloc_mock2(n);
    }
    assert_eq!(last.1, 255);
    assert_eq!(arena.get(last), Some(Mock::Mock2(255)));

    let wrapped = arena.alloc_mock2(1000);
    assert_eq!(arena.len(), 257);
    assert_eq!(wrapped.1, 0);
    assert_eq!(arena.get(wrapped), Some(Mock::Mock2(0)));
}

#[test]
fn handles_that_were_never_issued_lead_nowhere() {
    let mut arena = MockIdArena::<i32, u8, u8>::default();
    arena.alloc_mock1();
    arena.alloc_mock3((1, 1, "one"));

    let beyond: MockId<u8, u8> = (MockExtendEnum::Mock2, 9, 0);
    assert_eq!(arena.get(beyond), None);
    assert_eq!(arena.get_mock2(beyond), None);
    assert_eq!(arena.get_mock2_mut(beyond), None);
    assert_eq!(arena.update(beyond, Mock::Mock2(1)), None);

    let empty_pool: MockId<u8, u8> = (MockExtendEnum::Mock2, 1, 0);
    assert_eq!(arena.get(empty_pool), None);
    assert_eq!(arena.get_mock2(empty_pool), None);
    assert_eq!(arena.update(empty_pool, Mock::Mock2(1)), None);

    let not_a_unit: MockId<u8, u8> = (MockExtendEnum::Mock1, 1, 0);
    assert_eq!(arena.get(not_a_unit), Some(Mock::Mock1));

    let future: MockId<u8, u8> = (MockExtendEnum::Mock1, 0, 1);
    assert_eq!(arena.get(future), None);
    assert_eq!(arena.update(future, Mock::Mock1), None);
}
