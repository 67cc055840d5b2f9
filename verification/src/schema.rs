//! From the declaration of a sum type to the layout of its arena: which tag
//! width its variants need, which variants get a pool, and what the arena's
//! types and methods are called.

use vstd::prelude::*;
use convert_case::{Case, Casing};

verus! {

/// The integer width that the tag of a handle is stored in.
#[derive(Clone, Copy, Debug, PartialEq, Eq, Hash, Structural)]
pub enum TagWidth {
    U8,
    U16,
    U32,
    U64,
}

impl TagWidth {
    /// The number of bits of the width.
    pub open spec fn spec_bits(self) -> nat {
        match self {
            TagWidth::U8 => 8,
            TagWidth::U16 => 16,
            TagWidth::U32 => 32,
            TagWidth::U64 => 64,
        }
    }

    /// The largest number of variants that the width is chosen for.
    pub open spec fn limit(self) -> nat {
        match self {
            TagWidth::U8 => 0xff,
            TagWidth::U16 => 0xffff,
            TagWidth::U32 => 0xffff_ffff,
            TagWidth::U64 => 0xffff_ffff_ffff_ffff,
        }
    }

    /// The number of bits of the width.
    pub fn bits(self) -> (n: u32)
        ensures
            n == self.spec_bits(),
    {
        match self {
            TagWidth::U8 => 8,
            TagWidth::U16 => 16,
            TagWidth::U32 => 32,
            TagWidth::U64 => 64,
        }
    }
}

/// The tag width of a sum type with `variants` variants.
pub open spec fn tag_width_of(variants: nat) -> TagWidth {
    if variants <= TagWidth::U8.limit() {
        TagWidth::U8
    } else if variants <= TagWidth::U16.limit() {
        TagWidth::U16
    } else if variants <= TagWidth::U32.limit() {
        TagWidth::U32
    } else {
        TagWidth::U64
    }
}

/// The tag width of a sum type with `variants` variants.
pub fn tag_width(variants: usize) -> (width: TagWidth)
    ensures
        width == tag_width_of(variants as nat),
{
    let n = variants as u64;
    if n <= u8::MAX as u64 {
        TagWidth::U8
    } else if n <= u16::MAX as u64 {
        TagWidth::U16
    } else if n <= u32::MAX as u64 {
        TagWidth::U32
    } else {
        TagWidth::U64
    }
}

/// The chosen width is the narrowest whose limit the number of variants does
/// not exceed, so more variants never get a narrower tag.
pub proof fn lemma_tag_width_is_least(variants: nat, more: nat, other: TagWidth)
    requires
        variants <= u64::MAX,
        variants <= more <= u64::MAX,
    ensures
        variants <= tag_width_of(variants).limit(),
        variants <= other.limit() ==> tag_width_of(variants).spec_bits() <= other.spec_bits(),
        tag_width_of(variants).spec_bits() <= tag_width_of(more).spec_bits(),
{
}

/// What kind of type a declaration declares.
#[derive(Clone, Copy, Debug, PartialEq, Eq, Hash, Structural)]
pub enum DataKind {
    Enum,
    Struct,
    Union,
}

/// What kind of generic parameter a declaration takes.
#[derive(Clone, Copy, Debug, PartialEq, Eq, Hash, Structural)]
pub enum ParamKind {
    Lifetime,
    Type,
    Const,
}

/// One generic parameter of a declaration.
#[derive(Debug, PartialEq, Eq)]
pub struct Param {
    pub kind: ParamKind,
    pub name: String,
}

/// One variant of a declaration: its name and the number of its fields.
#[derive(Debug, PartialEq, Eq)]
pub struct Variant {
    pub name: String,
    pub fields: usize,
}

/// The declaration of the type that an arena is wanted for.
#[derive(Debug, PartialEq, Eq)]
pub struct Definition {
    pub name: String,
    pub kind: DataKind,
    pub params: Vec<Param>,
    pub variants: Vec<Variant>,
}

/// Why a declaration gets no arena.
#[derive(Clone, Copy, Debug, PartialEq, Eq, Hash, Structural)]
pub enum SchemaError {
    /// The declaration is not that of an enum.
    NotAnEnum,
    /// A variant has more than one field.
    MultipleFields,
}

/// What the arena does for one variant.
#[derive(Debug, PartialEq, Eq)]
pub struct VariantPlan {
    /// The variant's name, which is also the name of its tag.
    pub name: String,
    /// Whether the variant carries a payload and so has a pool.
    pub payload: bool,
    /// The name of the variant's allocator.
    pub alloc: String,
    /// The name of the variant's pool.
    pub pool: String,
    /// The name of the variant's shared accessor.
    pub get: String,
    /// The name of the variant's exclusive accessor.
    pub get_mut: String,
}

/// The layout of the arena of one sum type.
#[derive(Debug, PartialEq, Eq)]
pub struct ArenaPlan {
    /// The name of the handle type.
    pub id: String,
    /// The name of the tag type.
    pub tags: String,
    /// The name of the arena type.
    pub arena: String,
    /// The width that a tag is stored in.
    pub width: TagWidth,
    /// The type parameters of the declaration, in order. Copying a value out
    /// of the arena needs each of them to be `Clone`.
    pub cloned: Vec<String>,
    /// The variants, in the order of the declaration.
    pub variants: Vec<VariantPlan>,
}

/// A [`Param`] as mathematics.
pub struct ParamView {
    pub kind: ParamKind,
    pub name: Seq<char>,
}

/// A [`Variant`] as mathematics.
pub struct VariantView {
    pub name: Seq<char>,
    pub fields: nat,
}

/// A [`Definition`] as mathematics.
pub struct DefinitionView {
    pub name: Seq<char>,
    pub kind: DataKind,
    pub params: Seq<ParamView>,
    pub variants: Seq<VariantView>,
}

/// A [`VariantPlan`] as mathematics.
pub struct VariantLayout {
    pub name: Seq<char>,
    pub payload: bool,
    pub alloc: Seq<char>,
    pub pool: Seq<char>,
    pub get: Seq<char>,
    pub get_mut: Seq<char>,
}

/// An [`ArenaPlan`] as mathematics.
pub struct ArenaLayout {
    pub id: Seq<char>,
    pub tags: Seq<char>,
    pub arena: Seq<char>,
    pub width: TagWidth,
    pub cloned: Seq<Seq<char>>,
    pub variants: Seq<VariantLayout>,
}

impl View for Param {
    type V = ParamView;

    open spec fn view(&self) -> ParamView {
        ParamView { kind: self.kind, name: self.name@ }
    }
}

impl View for Variant {
    type V = VariantView;

    open spec fn view(&self) -> VariantView {
        VariantView { name: self.name@, fields: self.fields as nat }
    }
}

impl View for Definition {
    type V = DefinitionView;

    open spec fn view(&self) -> DefinitionView {
        DefinitionView {
            name: self.name@,
            kind: self.kind,
            params: self.params@.map_values(|p: Param| p@),
            variants: self.variants@.map_values(|v: Variant| v@),
        }
    }
}

impl View for VariantPlan {
    type V = VariantLayout;

    open spec fn view(&self) -> VariantLayout {
        VariantLayout {
            name: self.name@,
            payload: self.payload,
            alloc: self.alloc@,
            pool: self.pool@,
            get: self.get@,
            get_mut: self.get_mut@,
        }
    }
}

impl View for ArenaPlan {
    type V = ArenaLayout;

    open spec fn view(&self) -> ArenaLayout {
        ArenaLayout {
            id: self.id@,
            tags: self.tags@,
            arena: self.arena@,
            width: self.width,
            cloned: self.cloned@.map_values(|s: String| s@),
            variants: self.variants@.map_values(|v: VariantPlan| v@),
        }
    }
}

/// The snake-case form of an identifier, as `convert_case` computes it under
/// its default word boundaries.
pub uninterp spec fn snake_case(ident: Seq<char>) -> Seq<char>;

/// Calls `convert_case::Casing::to_case` with `Case::Snake`. The conversion
/// reads nothing but its argument, so the result is the snake-case form of
/// `ident`; what that form is on a given identifier is not stated here.
#[verifier::external_body]
fn to_snake_case(ident: &str) -> (snake: String)
    ensures
        snake@ == snake_case(ident@),
{
    ident.to_case(Case::Snake)
}

/// The layout of a variant called `name`, whose snake-case form is `snake`
/// and which has `fields` fields, or the reason why it has none.
pub open spec fn variant_layout(name: Seq<char>, snake: Seq<char>, fields: nat) -> Result<
    VariantLayout,
    SchemaError,
> {
    if fields > 1 {
        Err(SchemaError::MultipleFields)
    } else {
        Ok(
            VariantLayout {
                name,
                payload: fields == 1,
                alloc: "alloc_"@ + snake,
                pool: snake + "_vec"@,
                get: "get_"@ + snake,
                get_mut: "get_"@ + snake + "_mut"@,
            },
        )
    }
}

/// The names of the type parameters among `params`, in order.
pub open spec fn type_params(params: Seq<ParamView>) -> Seq<Seq<char>>
    decreases params.len(),
{
    if params.len() == 0 {
        Seq::empty()
    } else if params.last().kind == ParamKind::Type {
        type_params(params.drop_last()).push(params.last().name)
    } else {
        type_params(params.drop_last())
    }
}

/// The layouts of `variants`, which all have at most one field.
pub open spec fn variant_layouts(variants: Seq<VariantView>) -> Seq<VariantLayout> {
    variants.map_values(
        |v: VariantView| variant_layout(v.name, snake_case(v.name), v.fields).unwrap(),
    )
}

/// The layout of the arena for `def`, or the reason why there is none: `def`
/// must declare an enum, and none of its variants may have a second field.
pub open spec fn arena_layout(def: DefinitionView) -> Result<ArenaLayout, SchemaError> {
    if def.kind != DataKind::Enum {
        Err(SchemaError::NotAnEnum)
    } else if exists|i: int|
        0 <= i < def.variants.len() && (#[trigger] def.variants[i]).fields > 1 {
        Err(SchemaError::MultipleFields)
    } else {
        Ok(
            ArenaLayout {
                id: def.name + "Id"@,
                tags: def.name + "ExtendEnum"@,
                arena: def.name + "IdArena"@,
                width: tag_width_of(def.variants.len()),
                cloned: type_params(def.params),
                variants: variant_layouts(def.variants),
            },
        )
    }
}

impl SchemaError {
    /// The error in words.
    pub fn message(&self) -> (text: String)
        ensures
            text@ == match self {
                SchemaError::NotAnEnum => "This macro only supports enums."@,
                SchemaError::MultipleFields => "This macro doesn't support multi-fields in enums"@,
            },
    {
        match self {
            SchemaError::NotAnEnum => String::from_str("This macro only supports enums."),
            SchemaError::MultipleFields => String::from_str(
                "This macro doesn't support multi-fields in enums",
            ),
        }
    }
}

/// `head` followed by `tail`.
fn joined(head: &str, tail: &str) -> (whole: String)
    ensures
        whole@ == head@ + tail@,
{
    String::from_str(head).concat(tail)
}

/// Lays out one variant, given its name in snake case: a variant without
/// fields gets an allocator only, one with a single field also a pool and
/// its accessors, and one with more fields is refused.
pub fn variant_plan(name: &str, snake: &str, fields: usize) -> (plan: Result<
    VariantPlan,
    SchemaError,
>)
    ensures
        match plan {
            Ok(p) => variant_layout(name@, snake@, fields as nat) == Ok::<_, SchemaError>(p@),
            Err(e) => variant_layout(name@, snake@, fields as nat) == Err::<VariantLayout, _>(e),
        },
{
    if fields > 1 {
        return Err(SchemaError::MultipleFields);
    }
    let get = joined("get_", snake);
    Ok(
        VariantPlan {
            name: String::from_str(name),
            payload: fields == 1,
            alloc: joined("alloc_", snake),
            pool: joined(snake, "_vec"),
            get_mut: joined(get.as_str(), "_mut"),
            get,
        },
    )
}

/// The names of the type parameters among `params`, in order.
pub fn cloned_params(params: &Vec<Param>) -> (names: Vec<String>)
    ensures
        names@.map_values(|s: String| s@) == type_params(params@.map_values(|p: Param| p@)),
{
    let mut names: Vec<String> = Vec::new();
    let ghost views = params@.map_values(|p: Param| p@);
    let mut i: usize = 0;
    while i < params.len()
        invariant
            i <= params.len(),
            views == params@.map_values(|p: Param| p@),
            names@.map_values(|s: String| s@) == type_params(views.take(i as int)),
        decreases params.len() - i,
    {
        let param = &params[i];
        proof {
            assert(views.take(i as int + 1).drop_last() == views.take(i as int));
            assert(views.take(i as int + 1).last() == param@);
        }
        match param.kind {
            ParamKind::Type => {
                let ghost before = names@.map_values(|s: String| s@);
                names.push(param.name.clone());
                assert(names@.map_values(|s: String| s@) == before.push(param.name@));
            },
            _ => {},
        }
        i += 1;
    }
    proof {
        assert(views.take(i as int) == views);
    }
    names
}

/// Lays out the arena for `ast`.
///
/// A declaration that is no enum is refused, and so is an enum with a variant
/// of more than one field. Otherwise the arena's handle, tag and arena types
/// are named after the declaration, the tag gets the narrowest width for the
/// number of variants, and every variant is laid out under its snake-case
/// name.
pub fn enums_id_arena_to(ast: &Definition) -> (plan: Result<ArenaPlan, SchemaError>)
    ensures
        match plan {
            Ok(p) => arena_layout(ast@) == Ok::<_, SchemaError>(p@),
            Err(e) => arena_layout(ast@) == Err::<ArenaLayout, _>(e),
        },
{
    match ast.kind {
        DataKind::Enum => {},
        _ => {
            return Err(SchemaError::NotAnEnum);
        },
    }
    let cloned = cloned_params(&ast.params);
    let width = tag_width(ast.variants.len());
    let ghost views = ast@.variants;
    let mut variants: Vec<VariantPlan> = Vec::new();
    let mut i: usize = 0;
    while i < ast.variants.len()
        invariant
            i <= ast.variants.len(),
            ast.kind == DataKind::Enum,
            views == ast.variants@.map_values(|v: Variant| v@),
            forall|j: int| 0 <= j < i ==> (#[trigger] views[j]).fields <= 1,
            variants@.map_values(|v: VariantPlan| v@) == variant_layouts(views.take(i as int)),
        decreases ast.variants.len() - i,
    {
        let variant = &ast.variants[i];
        assert(views[i as int] == variant@);
        let snake = to_snake_case(variant.name.as_str());
        match variant_plan(variant.name.as_str(), snake.as_str(), variant.fields) {
            Ok(laid_out) => {
                let ghost before = variants@.map_values(|v: VariantPlan| v@);
                variants.push(laid_out);
                assert(variants@.map_values(|v: VariantPlan| v@) == before.push(laid_out@));
                assert(variant_layouts(views.take(i as int + 1)) == variant_layouts(
                    views.take(i as int),
                ).push(laid_out@));
            },
            Err(e) => {
                assert(ast@.variants[i as int].fields > 1);
                return Err(e);
            },
        }
        i += 1;
    }
    proof {
        assert(views.take(i as int) == views);
    }
    Ok(
        ArenaPlan {
            id: joined(ast.name.as_str(), "Id"),
            tags: joined(ast.name.as_str(), "ExtendEnum"),
            arena: joined(ast.name.as_str(), "IdArena"),
            width,
            cloned,
            variants,
        },
    )
}

} // verus!
