use crate::coders::{Codec, HasValue};
use crate::data_result::{error_v, DataResult, DataResultV};
use crate::json::{obj_get, JsonV, JsonValue};
use crate::json_ops::JsonOps;
use crate::key_compressor::str_views;
use crate::map_codec::{field, FieldMapCodec, MapCodec, MapCodecCodec};
use crate::map_like::MapLike;
use crate::struct_builder::{EncoderStructBuilder, StructBuilderV};
use vstd::prelude::*;
use vstd::string::StringExecFns;

verus! {

/// A type whose variants each carry their own map schema, told apart by a
/// string key. A codec for such a type writes the discriminator under one
/// key and the variant's own fields beside it.
pub trait KeyDispatchable: Sized + DeepView {
    /// The discriminator of a value, at the specification level.
    spec fn key_spec(v: Self::V) -> Seq<char>;

    /// Returns the discriminator of this value.
    fn key(&self) -> (r: String)
        ensures
            r@ == Self::key_spec(self.deep_view()),
    ;

    /// What encoding the variant's own fields leaves in a builder, at the
    /// specification level.
    spec fn map_encode_spec(v: Self::V, ops: JsonOps, builder: StructBuilderV) -> StructBuilderV;

    /// Encodes the variant's own fields into a builder.
    fn map_encode(&self, input: &Self, ops: &JsonOps, prefix: EncoderStructBuilder) -> (r:
        EncoderStructBuilder)
        requires
            prefix.wf(),
        ensures
            r.view_of() == Self::map_encode_spec(input.deep_view(), *ops, prefix.view_of()),
            r.wf(),
    ;

    /// What decoding the variant named by a discriminator returns from map
    /// entries, at the specification level.
    spec fn map_decode_spec(
        key: Seq<char>,
        entries: Seq<(Seq<char>, JsonV)>,
        ops: JsonOps,
    ) -> DataResultV<Self::V>;

    /// Decodes the variant named by a discriminator from a map view.
    fn map_decode(key: &str, input: &MapLike, ops: &JsonOps) -> (r: DataResult<Self>)
        requires
            input.wf(),
        ensures
            r.deep_view() == Self::map_decode_spec(key@, input.entries_of(), *ops),
    ;

    /// What encoding a whole value returns, at the specification level; used
    /// when the adapter packs maps as lists and the variant's body must move
    /// under its own key.
    spec fn encode_spec(v: Self::V, ops: JsonOps) -> DataResultV<JsonV>;

    /// Encodes a whole value of the variant's own schema.
    fn encode(&self, input: &Self, ops: &JsonOps) -> (r: DataResult<JsonValue>)
        ensures
            r.deep_view() == Self::encode_spec(input.deep_view(), *ops),
    ;

    /// What decoding a whole value of the variant named by a discriminator
    /// returns, at the specification level.
    spec fn decode_spec(key: Seq<char>, input: JsonV, ops: JsonOps) -> DataResultV<Self::V>;

    /// Decodes a whole value of the variant named by a discriminator.
    fn decode(key: &str, input: JsonValue, ops: &JsonOps) -> (r: DataResult<Self>)
        ensures
            r.deep_view() == Self::decode_spec(key@, input.view_of(), *ops),
    ;
}

/// A map codec for a [`KeyDispatchable`] type: the discriminator encodes
/// under its own field, and the variant's fields encode beside it. Under a
/// compressing adapter the variant's body moves under the reserved `value`
/// key instead, because a compressed map's key schema is fixed.
pub struct KeyDispatchMapCodec<T: KeyDispatchable, M: MapCodec<Value = String>> {
    /// The map codec for the discriminator field.
    pub key_codec: M,
    /// The dispatched type.
    pub dispatched: core::marker::PhantomData<T>,
}

/// Creates a new [`KeyDispatchMapCodec`] over a discriminator map codec.
pub fn new_key_dispatch_map_codec<T: KeyDispatchable, M: MapCodec<Value = String>>(key_codec: M) -> (r:
    KeyDispatchMapCodec<T, M>)
    ensures
        r.key_codec == key_codec,
{
    KeyDispatchMapCodec { key_codec, dispatched: core::marker::PhantomData }
}

/// Produces the codec for a [`KeyDispatchable`] type: the discriminator is a
/// required `type` field read with the provided codec, and the variant's own
/// fields stand beside it.
pub fn dispatch<T: KeyDispatchable, C: Codec<Value = String>>(key_codec: C) -> (r: MapCodecCodec<
    KeyDispatchMapCodec<T, FieldMapCodec<C>>,
>)
    ensures
        r.map_codec.key_codec.element_codec == key_codec,
        r.map_codec.key_codec.name@ == "type"@,
{
    MapCodecCodec::new(new_key_dispatch_map_codec(field(key_codec, "type")))
}

impl<T: KeyDispatchable, M: MapCodec<Value = String>> HasValue for KeyDispatchMapCodec<T, M> {
    type Value = T;
}

impl<T: KeyDispatchable, M: MapCodec<Value = String>> MapCodec for KeyDispatchMapCodec<T, M> {
    open spec fn keys_spec(&self) -> Seq<Seq<char>> {
        self.key_codec.keys_spec().push("value"@)
    }

    fn keys(&self) -> (r: Vec<String>) {
        let mut out = self.key_codec.keys();
        let ghost first = out@;
        out.push(String::from_str("value"));
        proof {
            assert(str_views(out@) =~= str_views(first).push("value"@));
        }
        out
    }

    open spec fn map_encode_spec(
        &self,
        input: T::V,
        ops: JsonOps,
        builder: StructBuilderV,
    ) -> StructBuilderV {
        if ops.compressed {
            T::map_encode_spec(input, ops, builder).add_string_key_value_result_v(
                "value"@,
                T::encode_spec(input, ops),
            )
        } else {
            self.key_codec.map_encode_spec(
                T::key_spec(input),
                ops,
                T::map_encode_spec(input, ops, builder),
            )
        }
    }

    fn encode(&self, input: &T, ops: &JsonOps, prefix: EncoderStructBuilder) -> (r:
        EncoderStructBuilder) {
        if ops.compress_maps() {
            let body = input.map_encode(input, ops, prefix);
            let whole = input.encode(input, ops);
            body.add_string_key_value_result("value", whole)
        } else {
            let body = input.map_encode(input, ops, prefix);
            let key = input.key();
            self.key_codec.encode(&key, ops, body)
        }
    }

    open spec fn map_decode_spec(
        &self,
        entries: Seq<(Seq<char>, JsonV)>,
        ops: JsonOps,
    ) -> DataResultV<T::V> {
        let kd = self.key_codec.map_decode_spec(entries, ops);
        match kd.value_of() {
            Some(key) => kd.flat_map_step(
                if ops.compressed {
                    match obj_get(entries, "value"@) {
                        Some(v) => T::decode_spec(key, v, ops),
                        None => error_v("Input does not have a 'value' key"@),
                    }
                } else {
                    T::map_decode_spec(key, entries, ops)
                },
            ),
            None => kd.flat_map_step(arbitrary::<DataResultV<T::V>>()),
        }
    }

    fn decode(&self, input: &MapLike, ops: &JsonOps) -> (r: DataResult<T>) {
        let ghost ev = input.entries_of();
        let kd = self.key_codec.decode(input, ops);
        let out = match kd {
            DataResult::Success { result: key, lifecycle } => {
                let second = self.decode_with_key(key, input, ops);
                second.add_lifecycle(lifecycle)
            },
            DataResult::Error { partial_result: Some(key), lifecycle, message } => {
                let second = self.decode_with_key(key, input, ops);
                let combined = second.lifecycle().add(lifecycle);
                match second {
                    DataResult::Success { result, .. } => DataResult::Error {
                        partial_result: Some(result),
                        message,
                        lifecycle: combined,
                    },
                    DataResult::Error { partial_result, message: second_message, .. } => DataResult::Error {
                        partial_result,
                        message: DataResult::<JsonValue>::append_messages(
                            message.as_str(),
                            second_message.as_str(),
                        ),
                        lifecycle: combined,
                    },
                }
            },
            DataResult::Error { partial_result: None, lifecycle, message } => DataResult::Error {
                partial_result: None,
                lifecycle,
                message,
            },
        };
        proof {
            assert(out.deep_view() == self.map_decode_spec(ev, *ops));
        }
        out
    }
}

impl<T: KeyDispatchable, M: MapCodec<Value = String>> KeyDispatchMapCodec<T, M> {
    /// Decodes the variant once the discriminator is known.
    fn decode_with_key(&self, key: String, input: &MapLike, ops: &JsonOps) -> (r: DataResult<T>)
        requires
            input.wf(),
        ensures
            r.deep_view() == if ops.compressed {
                match obj_get(input.entries_of(), "value"@) {
                    Some(v) => T::decode_spec(key@, v, *ops),
                    None => error_v::<T::V>("Input does not have a 'value' key"@),
                }
            } else {
                T::map_decode_spec(key@, input.entries_of(), *ops)
            },
    {
        if ops.compress_maps() {
            match input.get_str("value") {
                Some(v) => T::decode(key.as_str(), v.clone(), ops),
                None => crate::json_ops::error_result("Input does not have a 'value' key"),
            }
        } else {
            T::map_decode(key.as_str(), input, ops)
        }
    }
}

} // verus!
