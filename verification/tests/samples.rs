use enums_arena::samples::enum_arena::{Detail, Enum, EnumIdArena};
use enums_arena::samples::node_arena::{Node, NodeIdArena};
use enums_arena::samples::node_v2_arena::{NodeV2, NodeV2IdArena};

#[test]
pub fn test_enum() {
    let mut arena = EnumIdArena::<u8, ()>::default();

    let id = arena.alloc_nil();
    assert_eq!(arena.get(id), Some(Enum::Nil));

    let id = arena.alloc_list_ab((0, 1));
    assert_eq!(arena.get(id), Some(Enum::ListAB((0, 1))));

    let id = arena.alloc_detail(Detail { a: 1, b: 0 });
    assert_eq!(
        arena.get(id),
        Some(Enum::Detail(Detail { a: 1, b: 0 }))
    );

    assert_eq!(arena.len(), 3);


    let id = arena.alloc_value(5);
    assert_eq!(arena.get(id), Some(Enum::Value(5)));

    assert_eq!(arena.update(id, Enum::Value(4)), Some(()));

    assert_eq!(arena.get_value_mut(id), Some(&mut 4));

    *arena.get_value_mut(id).unwrap() = 3;

    assert_eq!(arena.get_value(id), Some(&3));
}

#[test]
pub fn test_lifetime() {
    let mut arena = NodeIdArena::<u32, u8>::default();
    let id = arena.alloc_name("s");
    assert_eq!(arena.get(id), Some(Node::Name("s")));
    arena.clear();
    assert_eq!(arena.get(id), None);
    assert_eq!(arena.update(id, Node::Name("name1")), None);
}

#[test]
pub fn test_type() {
    let mut arena = NodeV2IdArena::<i8, u32, u8>::default();
    let id = arena.alloc_parent(("s", 1));
    assert_eq!(arena.get(id), Some(NodeV2::Parent(("s", 1))));
}

#[test]
fn four_variants_keep_apart() {
    let mut arena = EnumIdArena::<u16, u8>::default();

    let value = arena.alloc_value(-1);
    let nil = arena.allocate(Enum::Nil);
    let list = arena.alloc_list_ab((2, 3));
    let detail = arena.allocate(Enum::Detail(Detail { a: 4, b: 5 }));

    assert_eq!(arena.get_value(value), Some(&-1));
    assert_eq!(arena.get_list_ab(list), Some(&(2, 3)));
    assert_eq!(arena.get_detail(detail), Some(&Detail { a: 4, b: 5 }));
    assert_eq!(arena.get(nil), Some(Enum::Nil));
    assert_eq!(arena.get_value(list), None);
    assert_eq!(arena.get_list_ab(detail), None);
    assert_eq!(arena.get_detail(value), None);

    assert_eq!(arena.update(detail, Enum::Detail(Detail { a: 0, b: 0 })), Some(()));
    assert_eq!(arena.update(detail, Enum::Nil), None);
    arena.get_detail_mut(detail).unwrap().b = 8;
    assert_eq!(arena.get(detail), Some(Enum::Detail(Detail { a: 0, b: 8 })));

    arena.clear();
    assert_eq!(arena.get(value), None);
    assert_eq!(arena.get(nil), None);
    assert_eq!(arena.len(), 0);
}

#[test]
fn borrowed_payloads_come_back_as_they_went_in() {
    let child = String::from("child");
    let parent = String::from("parent");
    let mut arena = NodeIdArena::<u8, u64>::default();

    let named = arena.alloc_name(&child);
    let linked = arena.alloc_parent((&child, &parent));
    let nil = arena.alloc_nil();

    assert_eq!(arena.get(named), Some(Node::Name("child")));
    assert_eq!(arena.get(linked), Some(Node::Parent(("child", "parent"))));
    assert_eq!(arena.get(nil), Some(Node::Nil));
    assert_eq!(arena.get_name(linked), None);
    assert_eq!(arena.get_parent(linked), Some(&("child", "parent")));
    assert_eq!(arena.update(named, Node::Name("renamed")), Some(()));
    assert_eq!(arena.get_name(named), Some(&"renamed"));
}

#[test]
fn a_generic_payload_is_cloned_out() {
    let mut arena = NodeV2IdArena::<Vec<u8>, u8, ()>::default();

    let linked = arena.alloc_parent(("p", vec![1, 2]));
    let named = arena.alloc_name("n");

    assert_eq!(arena.get(linked), Some(NodeV2::Parent(("p", vec![1, 2]))));
    assert_eq!(arena.get(named), Some(NodeV2::Name("n")));
    arena.get_parent_mut(linked).unwrap().1.push(3);
    assert_eq!(arena.get(linked), Some(NodeV2::Parent(("p", vec![1, 2, 3]))));
    assert_eq!(arena.get_parent(named), None);
}
