//! A codec library for dynamic tree values.
//!
//! A *codec* is a first-class, composable value that knows how to encode a
//! typed in-memory value into a dynamic tree representation and how to decode
//! that representation back into the typed value. Every operation returns a
//! [`data_result::DataResult`], which can carry a complete result, a partial
//! best-effort result together with an error message, or a plain error.
//!
//! The codecs work on one concrete tree shape, [`json::JsonValue`], through
//! the [`json_ops::JsonOps`] adapter, which comes in an ordinary and a
//! key-compressing form; every codec contract is stated and proved against
//! that adapter's two forms. Keeping the codec layer concrete is what lets
//! each contract state the exact tree a codec produces or consumes, while
//! the adapter value passed at run time still chooses between the two
//! representations. A second tree shape, the NBT tag of
//! [`nbt_ops::NbtOps`], has its own verified adapter operations, and
//! [`convert`] carries a whole tree from either shape to the other, so data
//! read in one format can be handed to the codecs or written out in the
//! other format.

pub mod codec;
pub mod codecs;
pub mod coders;
pub mod convert;
pub mod data_result;
pub mod either;
pub mod json;
pub mod json_ops;
pub mod key_compressor;
pub mod laws;
pub mod lifecycle;
pub mod list_builder;
pub mod map_codec;
pub mod map_codecs;
pub mod map_like;
pub mod nbt_ops;
pub mod number;
pub mod rarity;
pub mod samples;
pub mod struct_builder;
pub mod struct_codecs;
pub mod text;
pub mod validators;
