use enums_arena::schema::{
    cloned_params, enums_id_arena_to, tag_width, variant_plan, DataKind, Definition, Param,
    ParamKind, SchemaError, TagWidth, Variant, VariantPlan,
};

fn variant(name: &str, fields: usize) -> Variant {
    Variant { name: String::from(name), fields }
}

fn param(kind: ParamKind, name: &str) -> Param {
    Param { kind, name: String::from(name) }
}

fn units(count: usize) -> Vec<Variant> {
    let mut variants = Vec::new();
    for n in 0..count {
        variants.push(variant(&format!("V{}", n), 0));
    }
    variants
}

#[test]
fn the_tag_widens_at_256_variants() {
    assert_eq!(tag_width(255), TagWidth::U8);
    assert_eq!(tag_width(256), TagWidth::U16);
    assert!(tag_width(256).bits() > tag_width(255).bits());
}

#[test]
fn tag_widths_by_number_of_variants() {
    assert_eq!(tag_width(0), TagWidth::U8);
    assert_eq!(tag_width(1), TagWidth::U8);
    assert_eq!(tag_width(65_535), TagWidth::U16);
    assert_eq!(tag_width(65_536), TagWidth::U32);
    assert_eq!(tag_width(u32::MAX as usize), TagWidth::U32);
    assert_eq!(TagWidth::U8.bits(), 8);
    assert_eq!(TagWidth::U16.bits(), 16);
    assert_eq!(TagWidth::U32.bits(), 32);
    assert_eq!(TagWidth::U64.bits(), 64);
}

#[test]
fn a_plan_takes_its_width_from_the_variant_count() {
    let narrow = Definition {
        name: String::from("Narrow"),
        kind: DataKind::Enum,
        params: Vec::new(),
        variants: units(255),
    };
    let wide = Definition {
        name: String::from("Wide"),
        kind: DataKind::Enum,
        params: Vec::new(),
        variants: units(256),
    };
    assert_eq!(enums_id_arena_to(&narrow).unwrap().width, TagWidth::U8);
    assert_eq!(enums_id_arena_to(&wide).unwrap().width, TagWidth::U16);
}

#[test]
fn a_variant_is_laid_out_under_its_snake_name() {
    assert_eq!(
        variant_plan("ListAB", "list_ab", 1),
        Ok(VariantPlan {
            name: String::from("ListAB"),
            payload: true,
            alloc: String::from("alloc_list_ab"),
            pool: String::from("list_ab_vec"),
            get: String::from("get_list_ab"),
            get_mut: String::from("get_list_ab_mut"),
        })
    );
    assert_eq!(
        variant_plan("Close", "close", 0),
        Ok(VariantPlan {
            name: String::from("Close"),
            payload: false,
            alloc: String::from("alloc_close"),
            pool: String::from("close_vec"),
            get: String::from("get_close"),
            get_mut: String::from("get_close_mut"),
        })
    );
}

#[test]
fn a_variant_of_two_fields_is_refused() {
    assert_eq!(variant_plan("Pair", "pair", 2), Err(SchemaError::MultipleFields));
    assert_eq!(variant_plan("Many", "many", usize::MAX), Err(SchemaError::MultipleFields));
}

#[test]
fn type_parameters_are_picked_in_order() {
    let params = vec![
        param(ParamKind::Lifetime, "'a"),
        param(ParamKind::Type, "T"),
        param(ParamKind::Const, "N"),
        param(ParamKind::Type, "U"),
        param(ParamKind::Lifetime, "'b"),
    ];
    assert_eq!(cloned_params(&params), vec![String::from("T"), String::from("U")]);
    assert_eq!(cloned_params(&Vec::new()), Vec::<String>::new());
}

#[test]
fn an_enum_gets_its_arena_laid_out() {
    let definition = Definition {
        name: String::from("Event"),
        kind: DataKind::Enum,
        params: vec![param(ParamKind::Lifetime, "'a"), param(ParamKind::Type, "T")],
        variants: vec![variant("Click", 1), variant("ListAB", 1), variant("Close", 0)],
    };
    let plan = enums_id_arena_to(&definition).unwrap();

    assert_eq!(plan.id, "EventId");
    assert_eq!(plan.tags, "EventExtendEnum");
    assert_eq!(plan.arena, "EventIdArena");
    assert_eq!(plan.width, TagWidth::U8);
    assert_eq!(plan.cloned, vec![String::from("T")]);
    assert_eq!(plan.variants.len(), 3);

    assert_eq!(plan.variants[0].name, "Click");
    assert!(plan.variants[0].payload);
    assert_eq!(plan.variants[0].alloc, "alloc_click");
    assert_eq!(plan.variants[0].pool, "click_vec");
    assert_eq!(plan.variants[0].get, "get_click");
    assert_eq!(plan.variants[0].get_mut, "get_click_mut");

    assert_eq!(plan.variants[1].name, "ListAB");
    assert_eq!(plan.variants[1].alloc, "alloc_list_ab");
    assert_eq!(plan.variants[1].pool, "list_ab_vec");
    assert_eq!(plan.variants[1].get, "get_list_ab");
    assert_eq!(plan.variants[1].get_mut, "get_list_ab_mut");

    assert_eq!(plan.variants[2].name, "Close");
    assert!(!plan.variants[2].payload);
    assert_eq!(plan.variants[2].alloc, "alloc_close");
}

#[test]
fn an_enum_without_variants_gets_an_empty_plan() {
    let definition = Definition {
        name: String::from("Never"),
        kind: DataKind::Enum,
        params: Vec::new(),
        variants: Vec::new(),
    };
    let plan = enums_id_arena_to(&definition).unwrap();
    assert_eq!(plan.arena, "NeverIdArena");
    assert_eq!(plan.width, TagWidth::U8);
    assert!(plan.cloned.is_empty());
    assert!(plan.variants.is_empty());
}

#[test]
fn only_enums_get_an_arena() {
    let record = Definition {
        name: String::from("Point"),
        kind: DataKind::Struct,
        params: Vec::new(),
        variants: Vec::new(),
    };
    let overlay = Definition {
        name: String::from("Bits"),
        kind: DataKind::Union,
        params: Vec::new(),
        variants: vec![variant("Pair", 2)],
    };
    assert_eq!(enums_id_arena_to(&record), Err(SchemaError::NotAnEnum));
    assert_eq!(enums_id_arena_to(&overlay), Err(SchemaError::NotAnEnum));
}

#[test]
fn an_enum_with_a_wide_variant_is_refused() {
    let definition = Definition {
        name: String::from("Shape"),
        kind: DataKind::Enum,
        params: Vec::new(),
        variants: vec![variant("Dot", 0), variant("Circle", 1), variant("Rect", 2)],
    };
    assert_eq!(enums_id_arena_to(&definition), Err(SchemaError::MultipleFields));
}

#[test]
fn errors_speak_for_themselves() {
    assert_eq!(SchemaError::NotAnEnum.message(), "This macro only supports enums.");
    assert_eq!(
        SchemaError::MultipleFields.message(),
        "This macro doesn't support multi-fields in enums"
    );
}
