//! Ready-made record and sum types exercising the codec algebra: a record
//! with required fields, a record with a defaulted field, a nested record,
//! and a sum type dispatched on a key.

use crate::codec::{flat_xmap, unsigned_int_codec, FlatXmapCodec, UbyteXmap, UintXmap};
use crate::codecs::list::ListCodec;
use crate::codecs::primitive::{ByteCodec, DoubleCodec, IntCodec, StringCodec};
use crate::coders::{Codec, Decoder, Encoder, HasValue};
use crate::data_result::{error_v, DataResult, DataResultV};
use crate::json::{obj_get, JsonV, JsonValue};
use crate::json_ops::JsonOps;
use crate::map_codec::{
    field, no_key_msg, optional_field_with_default, DefaultProvider, DefaultValueProviderMapCodec,
    FieldMapCodec, MapCodec, MapCodecCodec, OptionalFieldMapCodec,
};
use crate::map_codecs::key_dispatch::{dispatch, KeyDispatchMapCodec, KeyDispatchable};
use crate::map_like::MapLike;
use crate::number::DoubleBits;
use crate::struct_builder::{EncoderStructBuilder, MapBuilder, StructBuilderV};
use crate::struct_codecs::{
    for_getter, struct_2, struct_3, struct_5, Field, FieldGetter, RecordCtor2, RecordCtor3,
    RecordCtor5, StructMapCodec2, StructMapCodec3, StructMapCodec5,
};
use vstd::prelude::*;
use vstd::string::StringExecFns;

verus! {

/// A defaulted byte value: the field falls back to the byte the provider
/// holds.
#[derive(Clone, Copy, Debug, PartialEq, Eq, Structural)]
pub struct ByteDefault(pub u8);

impl DefaultProvider for ByteDefault {
    type Value = u8;

    open spec fn default_spec(&self) -> u8 {
        self.0
    }

    fn make(&self) -> (r: u8) {
        self.0
    }

    fn equals_default(&self, v: &u8) -> (r: bool) {
        *v == self.0
    }

    fn duplicate(&self, v: &u8) -> (r: u8) {
        *v
    }
}

/// A book: a record of two required strings and a required unsigned int.
#[derive(Debug, PartialEq, Eq)]
pub struct Book {
    pub name: String,
    pub author: String,
    pub pages: u32,
}

/// Specification-level model of a [`Book`].
pub struct BookV {
    pub name: Seq<char>,
    pub author: Seq<char>,
    pub pages: u32,
}

impl DeepView for Book {
    type V = BookV;

    open spec fn deep_view(&self) -> BookV {
        BookV { name: self.name@, author: self.author@, pages: self.pages }
    }
}

/// Reads a book's name.
pub struct BookNameGetter;

impl FieldGetter for BookNameGetter {
    type Record = Book;

    type Field = String;

    open spec fn get_spec(&self, record: BookV) -> Seq<char> {
        record.name
    }

    fn get<'a>(&self, record: &'a Book) -> (r: &'a String) {
        &record.name
    }
}

/// Reads a book's author.
pub struct BookAuthorGetter;

impl FieldGetter for BookAuthorGetter {
    type Record = Book;

    type Field = String;

    open spec fn get_spec(&self, record: BookV) -> Seq<char> {
        record.author
    }

    fn get<'a>(&self, record: &'a Book) -> (r: &'a String) {
        &record.author
    }
}

/// Reads a book's page count.
pub struct BookPagesGetter;

impl FieldGetter for BookPagesGetter {
    type Record = Book;

    type Field = u32;

    open spec fn get_spec(&self, record: BookV) -> u32 {
        record.pages
    }

    fn get<'a>(&self, record: &'a Book) -> (r: &'a u32) {
        &record.pages
    }
}

/// Builds a book from its decoded fields.
pub struct MakeBook;

impl RecordCtor3 for MakeBook {
    type V1 = String;

    type V2 = String;

    type V3 = u32;

    type Record = Book;

    open spec fn make_spec(&self, v1: Seq<char>, v2: Seq<char>, v3: u32) -> BookV {
        BookV { name: v1, author: v2, pages: v3 }
    }

    fn make(&self, v1: String, v2: String, v3: u32) -> (r: Book) {
        Book { name: v1, author: v2, pages: v3 }
    }
}

/// The codec for a [`Book`]: the fields `name`, `author` and `pages`, all
/// required.
pub fn book_codec() -> (r: MapCodecCodec<
    StructMapCodec3<
        FieldMapCodec<StringCodec>,
        BookNameGetter,
        FieldMapCodec<StringCodec>,
        BookAuthorGetter,
        FieldMapCodec<FlatXmapCodec<IntCodec, UintXmap>>,
        BookPagesGetter,
        MakeBook,
    >,
>)
    ensures
        r.map_codec.field_1.map_codec.name@ == "name"@,
        r.map_codec.field_2.map_codec.name@ == "author"@,
        r.map_codec.field_3.map_codec.name@ == "pages"@,
{
    struct_3(
        for_getter(field(StringCodec, "name"), BookNameGetter),
        for_getter(field(StringCodec, "author"), BookAuthorGetter),
        for_getter(field(unsigned_int_codec(), "pages"), BookPagesGetter),
        MakeBook,
    )
}

/// A stack of items: a required item name and a count that defaults to one.
#[derive(Debug, PartialEq, Eq)]
pub struct ItemStack {
    pub item: String,
    pub count: u8,
}

/// Specification-level model of an [`ItemStack`].
pub struct ItemStackV {
    pub item: Seq<char>,
    pub count: u8,
}

impl DeepView for ItemStack {
    type V = ItemStackV;

    open spec fn deep_view(&self) -> ItemStackV {
        ItemStackV { item: self.item@, count: self.count }
    }
}

/// Reads a stack's item name.
pub struct ItemGetter;

impl FieldGetter for ItemGetter {
    type Record = ItemStack;

    type Field = String;

    open spec fn get_spec(&self, record: ItemStackV) -> Seq<char> {
        record.item
    }

    fn get<'a>(&self, record: &'a ItemStack) -> (r: &'a String) {
        &record.item
    }
}

/// Reads a stack's count.
pub struct CountGetter;

impl FieldGetter for CountGetter {
    type Record = ItemStack;

    type Field = u8;

    open spec fn get_spec(&self, record: ItemStackV) -> u8 {
        record.count
    }

    fn get<'a>(&self, record: &'a ItemStack) -> (r: &'a u8) {
        &record.count
    }
}

/// Builds a stack from its decoded fields.
pub struct MakeItemStack;

impl RecordCtor2 for MakeItemStack {
    type V1 = String;

    type V2 = u8;

    type Record = ItemStack;

    open spec fn make_spec(&self, v1: Seq<char>, v2: u8) -> ItemStackV {
        ItemStackV { item: v1, count: v2 }
    }

    fn make(&self, v1: String, v2: u8) -> (r: ItemStack) {
        ItemStack { item: v1, count: v2 }
    }
}

/// The type of the codec for an [`ItemStack`].
pub type ItemStackCodec = MapCodecCodec<
    StructMapCodec2<
        FieldMapCodec<StringCodec>,
        ItemGetter,
        DefaultValueProviderMapCodec<
            OptionalFieldMapCodec<FlatXmapCodec<ByteCodec, UbyteXmap>>,
            ByteDefault,
        >,
        CountGetter,
        MakeItemStack,
    >,
>;

/// The codec for an [`ItemStack`]: a required `item` field and a `count`
/// field defaulting to one.
pub fn item_stack_codec() -> (r: ItemStackCodec)
    ensures
        r.map_codec.field_1.map_codec.name@ == "item"@,
        r.map_codec.field_2.map_codec.codec.name@ == "count"@,
        r.map_codec.field_2.map_codec.default == ByteDefault(1),
{
    struct_2(
        for_getter(field(StringCodec, "item"), ItemGetter),
        for_getter(
            optional_field_with_default(flat_xmap(ByteCodec, UbyteXmap), "count", ByteDefault(1)),
            CountGetter,
        ),
        MakeItemStack,
    )
}

/// A recipe: an identifier, at least one ingredient, a result, and two
/// unsigned counters.
#[derive(Debug, PartialEq, Eq)]
pub struct Recipe {
    pub id: String,
    pub ingredients: Vec<ItemStack>,
    pub result: ItemStack,
    pub crafting_time: u32,
    pub experience: u32,
}

/// Specification-level model of a [`Recipe`].
pub struct RecipeV {
    pub id: Seq<char>,
    pub ingredients: Seq<ItemStackV>,
    pub result: ItemStackV,
    pub crafting_time: u32,
    pub experience: u32,
}

impl DeepView for Recipe {
    type V = RecipeV;

    open spec fn deep_view(&self) -> RecipeV {
        RecipeV {
            id: self.id@,
            ingredients: self.ingredients.deep_view(),
            result: self.result.deep_view(),
            crafting_time: self.crafting_time,
            experience: self.experience,
        }
    }
}

/// Reads a recipe's identifier.
pub struct RecipeIdGetter;

impl FieldGetter for RecipeIdGetter {
    type Record = Recipe;

    type Field = String;

    open spec fn get_spec(&self, record: RecipeV) -> Seq<char> {
        record.id
    }

    fn get<'a>(&self, record: &'a Recipe) -> (r: &'a String) {
        &record.id
    }
}

/// Reads a recipe's ingredients.
pub struct IngredientsGetter;

impl FieldGetter for IngredientsGetter {
    type Record = Recipe;

    type Field = Vec<ItemStack>;

    open spec fn get_spec(&self, record: RecipeV) -> Seq<ItemStackV> {
        record.ingredients
    }

    fn get<'a>(&self, record: &'a Recipe) -> (r: &'a Vec<ItemStack>) {
        &record.ingredients
    }
}

/// Reads a recipe's result.
pub struct ResultGetter;

impl FieldGetter for ResultGetter {
    type Record = Recipe;

    type Field = ItemStack;

    open spec fn get_spec(&self, record: RecipeV) -> ItemStackV {
        record.result
    }

    fn get<'a>(&self, record: &'a Recipe) -> (r: &'a ItemStack) {
        &record.result
    }
}

/// Reads a recipe's crafting time.
pub struct CraftingTimeGetter;

impl FieldGetter for CraftingTimeGetter {
    type Record = Recipe;

    type Field = u32;

    open spec fn get_spec(&self, record: RecipeV) -> u32 {
        record.crafting_time
    }

    fn get<'a>(&self, record: &'a Recipe) -> (r: &'a u32) {
        &record.crafting_time
    }
}

/// Reads a recipe's experience reward.
pub struct ExperienceGetter;

impl FieldGetter for ExperienceGetter {
    type Record = Recipe;

    type Field = u32;

    open spec fn get_spec(&self, record: RecipeV) -> u32 {
        record.experience
    }

    fn get<'a>(&self, record: &'a Recipe) -> (r: &'a u32) {
        &record.experience
    }
}

/// Builds a recipe from its decoded fields.
pub struct MakeRecipe;

impl RecordCtor5 for MakeRecipe {
    type V1 = String;

    type V2 = Vec<ItemStack>;

    type V3 = ItemStack;

    type V4 = u32;

    type V5 = u32;

    type Record = Recipe;

    open spec fn make_spec(
        &self,
        v1: Seq<char>,
        v2: Seq<ItemStackV>,
        v3: ItemStackV,
        v4: u32,
        v5: u32,
    ) -> RecipeV {
        RecipeV { id: v1, ingredients: v2, result: v3, crafting_time: v4, experience: v5 }
    }

    fn make(&self, v1: String, v2: Vec<ItemStack>, v3: ItemStack, v4: u32, v5: u32) -> (r:
        Recipe) {
        Recipe { id: v1, ingredients: v2, result: v3, crafting_time: v4, experience: v5 }
    }
}

/// The codec for a [`Recipe`]: `id`, a nonempty `ingredients` list,
/// `result`, `crafting_time` and `experience`, all required.
pub fn recipe_codec() -> (r: MapCodecCodec<
    StructMapCodec5<
        FieldMapCodec<StringCodec>,
        RecipeIdGetter,
        FieldMapCodec<ListCodec<ItemStackCodec>>,
        IngredientsGetter,
        FieldMapCodec<ItemStackCodec>,
        ResultGetter,
        FieldMapCodec<FlatXmapCodec<IntCodec, UintXmap>>,
        CraftingTimeGetter,
        FieldMapCodec<FlatXmapCodec<IntCodec, UintXmap>>,
        ExperienceGetter,
        MakeRecipe,
    >,
>)
    ensures
        r.map_codec.field_1.map_codec.name@ == "id"@,
        r.map_codec.field_2.map_codec.name@ == "ingredients"@,
        r.map_codec.field_3.map_codec.name@ == "result"@,
        r.map_codec.field_4.map_codec.name@ == "crafting_time"@,
        r.map_codec.field_5.map_codec.name@ == "experience"@,
{
    struct_5(
        for_getter(field(StringCodec, "id"), RecipeIdGetter),
        for_getter(
            field(crate::codec::list(item_stack_codec(), 1, usize::MAX), "ingredients"),
            IngredientsGetter,
        ),
        for_getter(field(item_stack_codec(), "result"), ResultGetter),
        for_getter(field(unsigned_int_codec(), "crafting_time"), CraftingTimeGetter),
        for_getter(field(unsigned_int_codec(), "experience"), ExperienceGetter),
        MakeRecipe,
    )
}

/// A complex number: a real and an imaginary part.
#[derive(Debug, PartialEq, Eq)]
pub struct ComplexNumber {
    pub real: DoubleBits,
    pub imaginary: DoubleBits,
}

impl DeepView for ComplexNumber {
    type V = ComplexNumber;

    open spec fn deep_view(&self) -> ComplexNumber {
        *self
    }
}

impl Clone for ComplexNumber {
    fn clone(&self) -> (r: Self)
        ensures
            r == *self,
    {
        ComplexNumber { real: self.real, imaginary: self.imaginary }
    }
}

impl Copy for ComplexNumber {

}

/// Reads the real part of a complex number.
pub struct RealGetter;

impl FieldGetter for RealGetter {
    type Record = ComplexNumber;

    type Field = DoubleBits;

    open spec fn get_spec(&self, record: ComplexNumber) -> DoubleBits {
        record.real
    }

    fn get<'a>(&self, record: &'a ComplexNumber) -> (r: &'a DoubleBits) {
        &record.real
    }
}

/// Reads the imaginary part of a complex number.
pub struct ImaginaryGetter;

impl FieldGetter for ImaginaryGetter {
    type Record = ComplexNumber;

    type Field = DoubleBits;

    open spec fn get_spec(&self, record: ComplexNumber) -> DoubleBits {
        record.imaginary
    }

    fn get<'a>(&self, record: &'a ComplexNumber) -> (r: &'a DoubleBits) {
        &record.imaginary
    }
}

/// Builds a complex number from its decoded parts.
pub struct MakeComplexNumber;

impl RecordCtor2 for MakeComplexNumber {
    type V1 = DoubleBits;

    type V2 = DoubleBits;

    type Record = ComplexNumber;

    open spec fn make_spec(&self, v1: DoubleBits, v2: DoubleBits) -> ComplexNumber {
        ComplexNumber { real: v1, imaginary: v2 }
    }

    fn make(&self, v1: DoubleBits, v2: DoubleBits) -> (r: ComplexNumber) {
        ComplexNumber { real: v1, imaginary: v2 }
    }
}

/// The codec for a [`ComplexNumber`]: the fields `real` and `imaginary`,
/// both required.
pub fn complex_number_codec() -> (r: MapCodecCodec<
    StructMapCodec2<
        FieldMapCodec<DoubleCodec>,
        RealGetter,
        FieldMapCodec<DoubleCodec>,
        ImaginaryGetter,
        MakeComplexNumber,
    >,
>)
    ensures
        r.map_codec.field_1.map_codec.name@ == "real"@,
        r.map_codec.field_2.map_codec.name@ == "imaginary"@,
{
    struct_2(
        for_getter(field(DoubleCodec, "real"), RealGetter),
        for_getter(field(DoubleCodec, "imaginary"), ImaginaryGetter),
        MakeComplexNumber,
    )
}

/// The message reported when a discriminator names no variant.
pub open spec fn invalid_key_msg(key: Seq<char>) -> Seq<char> {
    "Invalid differentiator value "@ + key
}

/// A shape: a circle, a rectangle or a triangle, told apart by a `type` key.
/// The lengths are double-precision values carried as bit patterns.
#[derive(Debug, PartialEq, Eq)]
pub enum Shape {
    Circle { radius: DoubleBits },
    Rectangle { width: DoubleBits, height: DoubleBits },
    Triangle { sides: Vec<DoubleBits> },
}

/// Specification-level model of a [`Shape`].
pub enum ShapeV {
    Circle { radius: DoubleBits },
    Rectangle { width: DoubleBits, height: DoubleBits },
    Triangle { sides: Seq<DoubleBits> },
}

impl DeepView for Shape {
    type V = ShapeV;

    open spec fn deep_view(&self) -> ShapeV {
        match self {
            Shape::Circle { radius } => ShapeV::Circle { radius: *radius },
            Shape::Rectangle { width, height } => ShapeV::Rectangle {
                width: *width,
                height: *height,
            },
            Shape::Triangle { sides } => ShapeV::Triangle { sides: sides.deep_view() },
        }
    }
}

/// The codec for a triangle's sides: a list of exactly three lengths.
pub open spec fn sides_codec_v() -> ListCodec<DoubleCodec> {
    ListCodec { element_codec: DoubleCodec, min_size: 3, max_size: 3 }
}

/// What decoding one double-precision field of a shape returns.
pub open spec fn shape_field_spec(
    entries: Seq<(Seq<char>, JsonV)>,
    name: Seq<char>,
    ops: JsonOps,
) -> DataResultV<DoubleBits> {
    match obj_get(entries, name) {
        Some(v) => crate::coders::parse_of(DoubleCodec.decode_spec(v, ops)),
        None => error_v(no_key_msg(name)),
    }
}

impl KeyDispatchable for Shape {
    open spec fn key_spec(v: ShapeV) -> Seq<char> {
        match v {
            ShapeV::Circle { .. } => "circle"@,
            ShapeV::Rectangle { .. } => "rectangle"@,
            ShapeV::Triangle { .. } => "triangle"@,
        }
    }

    fn key(&self) -> (r: String) {
        match self {
            Shape::Circle { .. } => String::from_str("circle"),
            Shape::Rectangle { .. } => String::from_str("rectangle"),
            Shape::Triangle { .. } => String::from_str("triangle"),
        }
    }

    open spec fn map_encode_spec(v: ShapeV, ops: JsonOps, builder: StructBuilderV) -> StructBuilderV {
        match v {
            ShapeV::Circle { radius } => builder.add_string_key_value_result_v(
                "radius"@,
                DoubleCodec.encode_spec(radius, ops, JsonV::Null),
            ),
            ShapeV::Rectangle { width, height } => builder.add_string_key_value_result_v(
                "width"@,
                DoubleCodec.encode_spec(width, ops, JsonV::Null),
            ).add_string_key_value_result_v(
                "height"@,
                DoubleCodec.encode_spec(height, ops, JsonV::Null),
            ),
            ShapeV::Triangle { sides } => builder.add_string_key_value_result_v(
                "sides"@,
                sides_codec_v().encode_spec(sides, ops, JsonV::Null),
            ),
        }
    }

    fn map_encode(&self, input: &Self, ops: &JsonOps, prefix: EncoderStructBuilder) -> (r:
        EncoderStructBuilder) {
        match input {
            Shape::Circle { radius } => {
                let fc = field(DoubleCodec, "radius");
                fc.encode(radius, ops, prefix)
            },
            Shape::Rectangle { width, height } => {
                let wf = field(DoubleCodec, "width");
                let hf = field(DoubleCodec, "height");
                let prefix = wf.encode(width, ops, prefix);
                hf.encode(height, ops, prefix)
            },
            Shape::Triangle { sides } => {
                let sf = field(crate::codec::list(DoubleCodec, 3, 3), "sides");
                sf.encode(sides, ops, prefix)
            },
        }
    }

    open spec fn map_decode_spec(
        key: Seq<char>,
        entries: Seq<(Seq<char>, JsonV)>,
        ops: JsonOps,
    ) -> DataResultV<ShapeV> {
        if key == "circle"@ {
            crate::struct_codecs::apply1_v(
                shape_field_spec(entries, "radius"@, ops),
                |radius| ShapeV::Circle { radius },
            )
        } else if key == "rectangle"@ {
            crate::struct_codecs::apply2_v(
                shape_field_spec(entries, "width"@, ops),
                shape_field_spec(entries, "height"@, ops),
                |width, height| ShapeV::Rectangle { width, height },
            )
        } else if key == "triangle"@ {
            crate::struct_codecs::apply1_v(
                match obj_get(entries, "sides"@) {
                    Some(v) => crate::coders::parse_of(sides_codec_v().decode_spec(v, ops)),
                    None => error_v(no_key_msg("sides"@)),
                },
                |sides| ShapeV::Triangle { sides },
            )
        } else {
            error_v(invalid_key_msg(key))
        }
    }

    fn map_decode(key: &str, input: &MapLike, ops: &JsonOps) -> (r: DataResult<Self>) {
        if crate::text::str_eq(key, "circle") {
            let fc = field(DoubleCodec, "radius");
            match fc.decode(input, ops) {
                DataResult::Success { result, lifecycle } => DataResult::Success {
                    result: Shape::Circle { radius: result },
                    lifecycle,
                },
                DataResult::Error { partial_result, lifecycle, message } => DataResult::Error {
                    partial_result: match partial_result {
                        Some(p) => Some(Shape::Circle { radius: p }),
                        None => None,
                    },
                    lifecycle,
                    message,
                },
            }
        } else if crate::text::str_eq(key, "rectangle") {
            let wf = field(DoubleCodec, "width");
            let hf = field(DoubleCodec, "height");
            let r1 = wf.decode(input, ops);
            let r2 = hf.decode(input, ops);
            let both_success = r1.is_success() && r2.is_success();
            let (p1, m1) = split_shape_part(r1);
            let (p2, m2) = split_shape_part(r2);
            let merged = crate::data_result::merge_messages(m1, m2);
            match (p1, p2) {
                (Some(width), Some(height)) => {
                    let value = Shape::Rectangle { width, height };
                    if both_success {
                        DataResult::Success {
                            result: value,
                            lifecycle: crate::lifecycle::Lifecycle::Experimental,
                        }
                    } else {
                        match merged {
                            Some(message) => DataResult::Error {
                                partial_result: Some(value),
                                lifecycle: crate::lifecycle::Lifecycle::Experimental,
                                message,
                            },
                            None => vstd::pervasive::unreached(),
                        }
                    }
                },
                _ => {
                    match merged {
                        Some(message) => DataResult::Error {
                            partial_result: None,
                            lifecycle: crate::lifecycle::Lifecycle::Experimental,
                            message,
                        },
                        None => vstd::pervasive::unreached(),
                    }
                },
            }
        } else if crate::text::str_eq(key, "triangle") {
            let sf = field(crate::codec::list(DoubleCodec, 3, 3), "sides");
            match sf.decode(input, ops) {
                DataResult::Success { result, lifecycle } => DataResult::Success {
                    result: Shape::Triangle { sides: result },
                    lifecycle,
                },
                DataResult::Error { partial_result, lifecycle, message } => DataResult::Error {
                    partial_result: match partial_result {
                        Some(p) => Some(Shape::Triangle { sides: p }),
                        None => None,
                    },
                    lifecycle,
                    message,
                },
            }
        } else {
            let mut m = String::from_str("Invalid differentiator value ");
            m.append(key);
            DataResult::error(m)
        }
    }

    open spec fn encode_spec(v: ShapeV, ops: JsonOps) -> DataResultV<JsonV> {
        Self::map_encode_spec(
            v,
            ops,
            StructBuilderV::Normal {
                builder: DataResultV::Success {
                    result: Seq::<(JsonV, JsonV)>::empty(),
                    lifecycle: crate::lifecycle::Lifecycle::Stable,
                },
                ops,
            },
        ).build_v(JsonV::Null)
    }

    fn encode(&self, input: &Self, ops: &JsonOps) -> (r: DataResult<JsonValue>) {
        let builder = EncoderStructBuilder::Normal(MapBuilder::new(ops));
        let filled = input.map_encode(input, ops, builder);
        filled.build(JsonValue::Null)
    }

    open spec fn decode_spec(key: Seq<char>, input: JsonV, ops: JsonOps) -> DataResultV<ShapeV> {
        let gm = ops.get_map_spec(input).with_lifecycle_v(crate::lifecycle::Lifecycle::Stable);
        match gm {
            DataResultV::Success { result: entries, lifecycle } => Self::map_decode_spec(
                key,
                entries,
                ops,
            ).add_lifecycle_v(lifecycle),
            DataResultV::Error { lifecycle, message, .. } => DataResultV::Error {
                partial_result: None,
                lifecycle,
                message,
            },
        }
    }

    fn decode(key: &str, input: JsonValue, ops: &JsonOps) -> (r: DataResult<Self>) {
        let ghost iv = input.view_of();
        let gm = ops.get_map(input).with_lifecycle(crate::lifecycle::Lifecycle::Stable);
        let out = match gm {
            DataResult::Success { result: view, lifecycle } => Self::map_decode(
                key,
                &view,
                ops,
            ).add_lifecycle(lifecycle),
            DataResult::Error { partial_result: _, lifecycle, message } => DataResult::Error {
                partial_result: None,
                lifecycle,
                message,
            },
        };
        proof {
            assert(out.deep_view() == Self::decode_spec(key@, iv, *ops));
        }
        out
    }
}

/// Splits a decoded shape part into its value and its message.
fn split_shape_part(r: DataResult<DoubleBits>) -> (out: (Option<DoubleBits>, Option<String>))
    ensures
        match out.0 {
            Some(v) => r.deep_view().value_of() == Some(v),
            None => r.deep_view().value_of() is None,
        },
        crate::data_result::msg_opt_seq(out.1) == r.deep_view().message_of(),
        out.1 is None ==> out.0 is Some,
{
    match r {
        DataResult::Success { result, .. } => (Some(result), None),
        DataResult::Error { partial_result, message, .. } => (partial_result, Some(message)),
    }
}

/// The type of the codec for a [`Shape`]: its variants dispatch on the
/// `type` key.
pub type ShapeCodec = MapCodecCodec<
    KeyDispatchMapCodec<Shape, FieldMapCodec<StringCodec>>,
>;

/// The codec for a [`Shape`], dispatching on the `type` key.
pub fn shape_codec() -> (r: ShapeCodec)
    ensures
        r.map_codec.key_codec.name@ == "type"@,
{
    dispatch(StringCodec)
}

/// A distance in whole meters; as a dynamic value it is the bare number.
#[derive(Clone, Copy, Debug, PartialEq, Eq, Structural)]
pub struct Meters(pub i32);

impl DeepView for Meters {
    type V = Meters;

    open spec fn deep_view(&self) -> Meters {
        *self
    }
}

/// The conversion between a bare number and [`Meters`]: total in both
/// directions, for transformer codecs over fully equivalent types.
pub struct MetersXmap;

impl crate::coders::ValueXmap for MetersXmap {
    type A = i32;

    type B = Meters;

    open spec fn to_spec(&self, a: i32) -> Meters {
        Meters(a)
    }

    open spec fn from_spec(&self, b: Meters) -> i32 {
        b.0
    }

    fn to(&self, a: i32) -> (r: Meters) {
        Meters(a)
    }

    fn from_value(&self, b: &Meters) -> (r: i32) {
        b.0
    }
}

/// A supplier of an unbounded list-of-ints codec, for deferred construction
/// through [`crate::codec::lazy`]: every call builds the same codec.
pub struct IntListCodecSupplier;

impl crate::codecs::lazy::CodecSupplier for IntListCodecSupplier {
    type C = crate::codecs::list::ListCodec<IntCodec>;

    open spec fn codec_spec(&self) -> crate::codecs::list::ListCodec<IntCodec> {
        crate::codecs::list::ListCodec {
            element_codec: IntCodec,
            min_size: 0,
            max_size: usize::MAX,
        }
    }

    fn get(&self) -> (r: crate::codecs::list::ListCodec<IntCodec>) {
        crate::codec::unbounded_list(IntCodec)
    }
}

} // verus!
