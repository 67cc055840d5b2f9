use enums_arena::pool::Pool;
use enums_arena::table::OffsetTable;

#[test]
fn a_pool_appends_and_addresses_by_position() {
    let mut pool: Pool<&str> = Pool::new();
    assert_eq!(pool.len(), 0);
    assert_eq!(pool.get(0), None);

    assert_eq!(pool.push("a"), 0);
    assert_eq!(pool.push("b"), 1);
    assert_eq!(pool.push("c"), 2);
    assert_eq!(pool.len(), 3);
    assert_eq!(pool.get(0), Some(&"a"));
    assert_eq!(pool.get(2), Some(&"c"));
    assert_eq!(pool.get(3), None);
}

#[test]
fn a_pool_overwrites_in_place_only() {
    let mut pool: Pool<i64> = Pool::new();
    pool.push(1);
    pool.push(2);

    assert!(pool.set(1, 20));
    assert!(!pool.set(2, 30));
    assert_eq!(pool.len(), 2);
    assert_eq!(pool.get(0), Some(&1));
    assert_eq!(pool.get(1), Some(&20));

    *pool.get_mut(0).unwrap() += 9;
    assert_eq!(pool.get(0), Some(&10));
    assert_eq!(pool.get_mut(2), None);
}

#[test]
fn a_cleared_pool_starts_over() {
    let mut pool: Pool<u8> = Pool::new();
    pool.push(1);
    pool.push(2);
    pool.clear();
    assert_eq!(pool.len(), 0);
    assert_eq!(pool.get(0), None);
    assert_eq!(pool.push(3), 0);
    assert_eq!(pool.get(0), Some(&3));
}

#[test]
fn a_table_issues_offsets_in_order() {
    let mut table: OffsetTable<u16, u8> = OffsetTable::new(4);
    assert_eq!(table.len(), 0);
    assert_eq!(table.push(0), (0, 4));
    assert_eq!(table.push(7), (1, 4));
    assert_eq!(table.push(0), (2, 4));
    assert_eq!(table.len(), 3);
}

#[test]
fn a_table_resolves_current_handles_only() {
    let mut table: OffsetTable<u16, u8> = OffsetTable::new(4);
    table.push(5);
    table.push(9);

    assert_eq!(table.resolve(0, 4), Some(5));
    assert_eq!(table.resolve(1, 4), Some(9));
    assert_eq!(table.resolve(2, 4), None);
    assert_eq!(table.resolve(0, 3), None);
    assert_eq!(table.resolve(0, 5), None);
}

#[test]
fn a_cleared_table_moves_to_the_next_stamp() {
    let mut table: OffsetTable<u8, u32> = OffsetTable::new(0);
    table.push(1);
    table.clear();
    assert_eq!(table.len(), 0);
    assert_eq!(table.resolve(0, 0), None);
    assert_eq!(table.resolve(0, 1), None);
    assert_eq!(table.push(2), (0, 1));
    assert_eq!(table.resolve(0, 1), Some(2));
    assert_eq!(table.resolve(0, 0), None);
}

#[test]
fn a_table_stores_wrapped_positions() {
    let mut table: OffsetTable<u8, ()> = OffsetTable::new(());
    table.push(256 + 3);
    assert_eq!(table.resolve(0, ()), Some(3));
}
