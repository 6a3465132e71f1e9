use crate::coders::{Codec, Decoder, Encoder, HasValue};
use crate::data_result::{error_v, success_v, DataResult, DataResultV};
use crate::json::{obj_get, JsonV, JsonValue};
use crate::json_ops::JsonOps;
use crate::key_compressor::{dedup_keys, str_views, KeyCompressor};
use crate::lifecycle::Lifecycle;
use crate::map_like::MapLike;
use crate::struct_builder::{
    CompressedStructBuilder, EncoderStructBuilder, MapBuilder, StructBuilderV,
};
use vstd::prelude::*;
use vstd::string::StringExecFns;

verus! {

/// The fresh builder a map codec opens on an adapter: the ordinary
/// pair-collecting builder, or the compressed positional one when the
/// adapter packs maps as lists.
pub open spec fn fresh_builder_v(ops: JsonOps, keys: Seq<Seq<char>>) -> StructBuilderV {
    if ops.compressed {
        StructBuilderV::Compressed {
            builder: DataResultV::Success {
                result: Seq::new(dedup_keys(keys).len(), |i: int| JsonV::Null),
                lifecycle: Lifecycle::Stable,
            },
            ops,
            keys: dedup_keys(keys),
        }
    } else {
        StructBuilderV::Normal {
            builder: DataResultV::Success {
                result: Seq::<(JsonV, JsonV)>::empty(),
                lifecycle: Lifecycle::Stable,
            },
            ops,
        }
    }
}

/// The entries a compressed map view models: position `i` of the list
/// belongs to key `i` of the table.
pub open spec fn compressed_entries_v(items: Seq<JsonV>, keys: Seq<Seq<char>>) -> Seq<
    (Seq<char>, JsonV),
> {
    let n = if items.len() < keys.len() {
        items.len() as int
    } else {
        keys.len() as int
    };
    Seq::new(n as nat, |i: int| (keys[i], items[i]))
}

/// A type of *codec* which encodes and decodes the fields of a map rather
/// than a whole value. A map codec may work with one or with many keys.
pub trait MapCodec: HasValue {
    /// The keys this map codec reads and writes, at the specification level.
    spec fn keys_spec(&self) -> Seq<Seq<char>>;

    /// Returns the keys this map codec reads and writes; used by the key
    /// compressor and by composition.
    fn keys(&self) -> (r: Vec<String>)
        ensures
            str_views(r@) == self.keys_spec(),
    ;

    /// What encoding a value into a builder leaves in the builder, at the
    /// specification level.
    spec fn map_encode_spec(
        &self,
        input: <Self::Value as DeepView>::V,
        ops: JsonOps,
        builder: StructBuilderV,
    ) -> StructBuilderV;

    /// Encodes a value by writing its fields into the provided builder.
    fn encode(&self, input: &Self::Value, ops: &JsonOps, prefix: EncoderStructBuilder) -> (r:
        EncoderStructBuilder)
        requires
            prefix.wf(),
        ensures
            r.view_of() == self.map_encode_spec(input.deep_view(), *ops, prefix.view_of()),
            r.wf(),
    ;

    /// What decoding the entries of a map view returns, at the
    /// specification level.
    spec fn map_decode_spec(
        &self,
        entries: Seq<(Seq<char>, JsonV)>,
        ops: JsonOps,
    ) -> DataResultV<<Self::Value as DeepView>::V>;

    /// Decodes a value from a map view.
    fn decode(&self, input: &MapLike, ops: &JsonOps) -> (r: DataResult<Self::Value>)
        requires
            input.wf(),
        ensures
            r.deep_view() == self.map_decode_spec(input.entries_of(), *ops),
    ;

    /// Returns the key compressor of this map codec: the table built from
    /// its keys, first occurrence first.
    fn compressor(&self) -> (r: KeyCompressor)
        ensures
            r.keys_of() == dedup_keys(self.keys_spec()),
            r.wf(),
    {
        let keys = self.keys();
        KeyCompressor::of_keys(&keys)
    }

    /// Returns a fresh builder for this map codec on the given adapter:
    /// compressed when the adapter packs maps as lists, ordinary otherwise.
    fn builder(&self, ops: &JsonOps) -> (r: EncoderStructBuilder)
        ensures
            r.view_of() == fresh_builder_v(*ops, self.keys_spec()),
            r.wf(),
    {
        if ops.compress_maps() {
            let compressor = self.compressor();
            EncoderStructBuilder::Compressed(CompressedStructBuilder::new(ops, compressor))
        } else {
            EncoderStructBuilder::Normal(MapBuilder::new(ops))
        }
    }

}

/// What decoding a whole value through a map codec returns.
pub open spec fn compressed_decode_spec<M: MapCodec + ?Sized>(
    m: &M,
    input: JsonV,
    ops: JsonOps,
) -> DataResultV<<M::Value as DeepView>::V> {
    if ops.compressed {
        match input {
            JsonV::Arr(items) => m.map_decode_spec(
                compressed_entries_v(items, dedup_keys(m.keys_spec())),
                ops,
            ),
            _ => error_v("Input is not a list"@),
        }
    } else {
        let gm = ops.get_map_spec(input).with_lifecycle_v(Lifecycle::Stable);
        match gm {
            DataResultV::Success { result: entries, lifecycle } => m.map_decode_spec(
                entries,
                ops,
            ).add_lifecycle_v(lifecycle),
            DataResultV::Error { lifecycle, message, .. } => DataResultV::Error {
                partial_result: None,
                lifecycle,
                message,
            },
        }
    }
}

/// Decodes a whole value through a map codec: under a compressing adapter
/// the value is read as a list whose positions stand for the codec's keys;
/// otherwise it is read as an ordinary map. Either way the entries then
/// decode.
pub fn compressed_decode<M: MapCodec>(m: &M, input: JsonValue, ops: &JsonOps) -> (r: DataResult<
    M::Value,
>)
    ensures
        r.deep_view() == compressed_decode_spec(m, input.view_of(), *ops),
{
    let ghost iv = input.view_of();
    if ops.compress_maps() {
        let it = ops.get_iter(input);
        match it {
            DataResult::Success { result: items, .. } => {
                let compressor = m.compressor();
                let view = MapLike::Compressed { list: items, compressor };
                let out = m.decode(&view, ops);
                proof {
                    crate::json::lemma_arr_view_is_deep_view(view->Compressed_list);
                    assert(view.entries_of() =~= compressed_entries_v(
                        iv->Arr_0,
                        dedup_keys(m.keys_spec()),
                    ));
                }
                out
            },
            DataResult::Error { .. } => crate::json_ops::error_result("Input is not a list"),
        }
    } else {
        let gm = ops.get_map(input).with_lifecycle(Lifecycle::Stable);
        let out = match gm {
            DataResult::Success { result: view, lifecycle } => {
                m.decode(&view, ops).add_lifecycle(lifecycle)
            },
            DataResult::Error { partial_result: _, lifecycle, message } => DataResult::Error {
                partial_result: None,
                lifecycle,
                message,
            },
        };
        proof {
            assert(out.deep_view() == compressed_decode_spec(m, iv, *ops));
        }
        out
    }
}

/// The message reported when a required field is missing from a map.
pub open spec fn no_key_msg(name: Seq<char>) -> Seq<char> {
    "No key "@ + name + " in map"@
}

/// A map codec for a single required field: the key must be present, and its
/// value decodes with the element codec.
pub struct FieldMapCodec<C: Codec> {
    /// The codec for the field's value.
    pub element_codec: C,
    /// The name of the key.
    pub name: String,
}

/// Creates a map codec for a required field which relies on the provided
/// codec for its value.
pub fn field<C: Codec>(element_codec: C, name: &str) -> (r: FieldMapCodec<C>)
    ensures
        r.element_codec == element_codec,
        r.name@ == name@,
{
    FieldMapCodec { element_codec, name: String::from_str(name) }
}

impl<C: Codec> HasValue for FieldMapCodec<C> {
    type Value = C::Value;
}

impl<C: Codec> MapCodec for FieldMapCodec<C> {
    open spec fn keys_spec(&self) -> Seq<Seq<char>> {
        seq![self.name@]
    }

    fn keys(&self) -> (r: Vec<String>) {
        let mut out: Vec<String> = Vec::new();
        out.push(self.name.clone());
        proof {
            assert(str_views(out@) =~= seq![self.name@]);
        }
        out
    }

    open spec fn map_encode_spec(
        &self,
        input: <C::Value as DeepView>::V,
        ops: JsonOps,
        builder: StructBuilderV,
    ) -> StructBuilderV {
        builder.add_string_key_value_result_v(
            self.name@,
            self.element_codec.encode_spec(input, ops, JsonV::Null),
        )
    }

    fn encode(&self, input: &C::Value, ops: &JsonOps, prefix: EncoderStructBuilder) -> (r:
        EncoderStructBuilder) {
        let encoded = self.element_codec.encode_start(input, ops);
        prefix.add_string_key_value_result(self.name.as_str(), encoded)
    }

    open spec fn map_decode_spec(
        &self,
        entries: Seq<(Seq<char>, JsonV)>,
        ops: JsonOps,
    ) -> DataResultV<<C::Value as DeepView>::V> {
        match obj_get(entries, self.name@) {
            Some(v) => crate::coders::parse_of(self.element_codec.decode_spec(v, ops)),
            None => error_v(no_key_msg(self.name@)),
        }
    }

    fn decode(&self, input: &MapLike, ops: &JsonOps) -> (r: DataResult<C::Value>) {
        match input.get_str(self.name.as_str()) {
            Some(v) => self.element_codec.parse(v.clone(), ops),
            None => {
                let mut m = String::from_str("No key ");
                m.append(self.name.as_str());
                m.append(" in map");
                DataResult::error(m)
            },
        }
    }
}

/// A map codec for an optional field.
///
/// With no default value, the field encodes an [`Option`]: an absent key
/// decodes to `None`. A *lenient* optional field also turns a failing value
/// into `None`; a strict one keeps the error.
pub struct OptionalFieldMapCodec<C: Codec> {
    /// The codec for the field's value.
    pub element_codec: C,
    /// The name of the key.
    pub name: String,
    /// Whether a failing value decodes to `None` instead of an error.
    pub lenient: bool,
}

/// Creates a new [`OptionalFieldMapCodec`].
pub fn new_optional_field_map_codec<C: Codec>(element_codec: C, name: &str, lenient: bool) -> (r:
    OptionalFieldMapCodec<C>)
    ensures
        r.element_codec == element_codec,
        r.name@ == name@,
        r.lenient == lenient,
{
    OptionalFieldMapCodec { element_codec, name: String::from_str(name), lenient }
}

impl<C: Codec> HasValue for OptionalFieldMapCodec<C> {
    type Value = Option<C::Value>;
}

impl<C: Codec> OptionalFieldMapCodec<C> {
    /// What decoding a present value returns: the decoded value wrapped in
    /// `Some`; a lenient field turns an error into `None`.
    pub open spec fn decode_present_spec(&self, v: JsonV, ops: JsonOps) -> DataResultV<
        Option<<C::Value as DeepView>::V>,
    > {
        let parsed = crate::coders::parse_of(self.element_codec.decode_spec(v, ops));
        match parsed {
            DataResultV::Success { result, lifecycle } => DataResultV::Success {
                result: Some(result),
                lifecycle,
            },
            DataResultV::Error { partial_result, lifecycle, message } => {
                if self.lenient {
                    success_v(None)
                } else {
                    DataResultV::Error {
                        partial_result: match partial_result {
                            Some(p) => Some(Some(p)),
                            None => None,
                        },
                        lifecycle,
                        message,
                    }
                }
            },
        }
    }
}

impl<C: Codec> MapCodec for OptionalFieldMapCodec<C> {
    open spec fn keys_spec(&self) -> Seq<Seq<char>> {
        seq![self.name@]
    }

    fn keys(&self) -> (r: Vec<String>) {
        let mut out: Vec<String> = Vec::new();
        out.push(self.name.clone());
        proof {
            assert(str_views(out@) =~= seq![self.name@]);
        }
        out
    }

    open spec fn map_encode_spec(
        &self,
        input: Option<<C::Value as DeepView>::V>,
        ops: JsonOps,
        builder: StructBuilderV,
    ) -> StructBuilderV {
        match input {
            Some(v) => builder.add_string_key_value_result_v(
                self.name@,
                self.element_codec.encode_spec(v, ops, JsonV::Null),
            ),
            None => builder,
        }
    }

    fn encode(&self, input: &Option<C::Value>, ops: &JsonOps, prefix: EncoderStructBuilder) -> (r:
        EncoderStructBuilder) {
        match input {
            Some(v) => {
                let encoded = self.element_codec.encode_start(v, ops);
                prefix.add_string_key_value_result(self.name.as_str(), encoded)
            },
            None => prefix,
        }
    }

    open spec fn map_decode_spec(
        &self,
        entries: Seq<(Seq<char>, JsonV)>,
        ops: JsonOps,
    ) -> DataResultV<Option<<C::Value as DeepView>::V>> {
        match obj_get(entries, self.name@) {
            Some(v) => self.decode_present_spec(v, ops),
            None => success_v(None),
        }
    }

    fn decode(&self, input: &MapLike, ops: &JsonOps) -> (r: DataResult<Option<C::Value>>) {
        match input.get_str(self.name.as_str()) {
            Some(v) => {
                let parsed = self.element_codec.parse(v.clone(), ops);
                match parsed {
                    DataResult::Success { result, lifecycle } => DataResult::Success {
                        result: Some(result),
                        lifecycle,
                    },
                    DataResult::Error { partial_result, lifecycle, message } => {
                        if self.lenient {
                            DataResult::success(None)
                        } else {
                            DataResult::Error {
                                partial_result: match partial_result {
                                    Some(p) => Some(Some(p)),
                                    None => None,
                                },
                                lifecycle,
                                message,
                            }
                        }
                    },
                }
            },
            None => DataResult::success(None),
        }
    }
}

/// A source of the default value an optional field falls back to; it also
/// recognizes the default and copies field values, so that what it hands out
/// can be spoken of exactly.
pub trait DefaultProvider {
    type Value: DeepView;

    /// The default value, at the specification level.
    spec fn default_spec(&self) -> <Self::Value as DeepView>::V;

    /// Produces the default value.
    fn make(&self) -> (r: Self::Value)
        ensures
            r.deep_view() == self.default_spec(),
    ;

    /// Whether a value equals the default.
    fn equals_default(&self, v: &Self::Value) -> (r: bool)
        ensures
            r == (v.deep_view() == self.default_spec()),
    ;

    /// Copies a field value.
    fn duplicate(&self, v: &Self::Value) -> (r: Self::Value)
        ensures
            r.deep_view() == v.deep_view(),
    ;
}

/// A wrapper around a map codec for an optional field that substitutes a
/// default value: the field's value type loses its `Option`.
///
/// On encode, a value equal to the default is omitted; on decode, an absent
/// value becomes the default.
pub struct DefaultValueProviderMapCodec<C, D> {
    /// The optional-field map codec doing the real work.
    pub codec: C,
    /// The source of the default value.
    pub default: D,
}

/// Creates a new [`DefaultValueProviderMapCodec`] from an optional-field map
/// codec and a default value source.
pub fn new_default_value_provider_map_codec<
    D: DefaultProvider,
    C: MapCodec<Value = Option<D::Value>>,
>(codec: C, default: D) -> (r: DefaultValueProviderMapCodec<C, D>)
    ensures
        r.codec == codec,
        r.default == default,
{
    DefaultValueProviderMapCodec { codec, default }
}

impl<D: DefaultProvider, C: MapCodec<Value = Option<D::Value>>> HasValue
    for DefaultValueProviderMapCodec<C, D> {
    type Value = D::Value;
}

impl<D: DefaultProvider, C: MapCodec<Value = Option<D::Value>>> MapCodec
    for DefaultValueProviderMapCodec<C, D> {
    open spec fn keys_spec(&self) -> Seq<Seq<char>> {
        self.codec.keys_spec()
    }

    fn keys(&self) -> (r: Vec<String>) {
        self.codec.keys()
    }

    open spec fn map_encode_spec(
        &self,
        input: <D::Value as DeepView>::V,
        ops: JsonOps,
        builder: StructBuilderV,
    ) -> StructBuilderV {
        if input == self.default.default_spec() {
            self.codec.map_encode_spec(None, ops, builder)
        } else {
            self.codec.map_encode_spec(Some(input), ops, builder)
        }
    }

    fn encode(&self, input: &D::Value, ops: &JsonOps, prefix: EncoderStructBuilder) -> (r:
        EncoderStructBuilder) {
        if self.default.equals_default(input) {
            let omitted: Option<D::Value> = None;
            self.codec.encode(&omitted, ops, prefix)
        } else {
            let kept: Option<D::Value> = Some(self.default.duplicate(input));
            self.codec.encode(&kept, ops, prefix)
        }
    }

    open spec fn map_decode_spec(
        &self,
        entries: Seq<(Seq<char>, JsonV)>,
        ops: JsonOps,
    ) -> DataResultV<<D::Value as DeepView>::V> {
        match self.codec.map_decode_spec(entries, ops) {
            DataResultV::Success { result, lifecycle } => DataResultV::Success {
                result: match result {
                    Some(v) => v,
                    None => self.default.default_spec(),
                },
                lifecycle,
            },
            DataResultV::Error { partial_result, lifecycle, message } => DataResultV::Error {
                partial_result: match partial_result {
                    Some(Some(v)) => Some(v),
                    Some(None) => Some(self.default.default_spec()),
                    None => None,
                },
                lifecycle,
                message,
            },
        }
    }

    fn decode(&self, input: &MapLike, ops: &JsonOps) -> (r: DataResult<D::Value>) {
        match self.codec.decode(input, ops) {
            DataResult::Success { result, lifecycle } => DataResult::Success {
                result: match result {
                    Some(v) => v,
                    None => self.default.make(),
                },
                lifecycle,
            },
            DataResult::Error { partial_result, lifecycle, message } => DataResult::Error {
                partial_result: match partial_result {
                    Some(Some(v)) => Some(v),
                    Some(None) => Some(self.default.make()),
                    None => None,
                },
                lifecycle,
                message,
            },
        }
    }
}

/// A wrapper that makes every result of a map codec stable.
pub struct StableMapCodec<C: MapCodec> {
    /// The map codec doing the real work.
    pub map_codec: C,
}

/// Returns a wrapper around a map codec whose results always carry the
/// stable lifecycle.
pub fn stable<C: MapCodec>(map_codec: C) -> (r: StableMapCodec<C>)
    ensures
        r.map_codec == map_codec,
{
    StableMapCodec { map_codec }
}

impl<C: MapCodec> HasValue for StableMapCodec<C> {
    type Value = C::Value;
}

impl<C: MapCodec> MapCodec for StableMapCodec<C> {
    open spec fn keys_spec(&self) -> Seq<Seq<char>> {
        self.map_codec.keys_spec()
    }

    fn keys(&self) -> (r: Vec<String>) {
        self.map_codec.keys()
    }

    open spec fn map_encode_spec(
        &self,
        input: <C::Value as DeepView>::V,
        ops: JsonOps,
        builder: StructBuilderV,
    ) -> StructBuilderV {
        self.map_codec.map_encode_spec(input, ops, builder).set_lifecycle_v(Lifecycle::Stable)
    }

    fn encode(&self, input: &C::Value, ops: &JsonOps, prefix: EncoderStructBuilder) -> (r:
        EncoderStructBuilder) {
        self.map_codec.encode(input, ops, prefix).set_lifecycle(Lifecycle::Stable)
    }

    open spec fn map_decode_spec(
        &self,
        entries: Seq<(Seq<char>, JsonV)>,
        ops: JsonOps,
    ) -> DataResultV<<C::Value as DeepView>::V> {
        self.map_codec.map_decode_spec(entries, ops).with_lifecycle_v(Lifecycle::Stable)
    }

    fn decode(&self, input: &MapLike, ops: &JsonOps) -> (r: DataResult<C::Value>) {
        self.map_codec.decode(input, ops).with_lifecycle(Lifecycle::Stable)
    }
}

/// A codec implementation over a map codec: encoding opens a builder, writes
/// the fields and assembles the final map; decoding reads a map view (or a
/// packed list under a compressing adapter) and decodes it.
pub struct MapCodecCodec<C: MapCodec> {
    /// The map codec doing the real work.
    pub map_codec: C,
}

impl<C: MapCodec> MapCodecCodec<C> {
    /// Wraps a map codec as a whole-value codec.
    pub fn new(map_codec: C) -> (r: Self)
        ensures
            r.map_codec == map_codec,
    {
        MapCodecCodec { map_codec }
    }

    /// The map codec held by this codec.
    pub fn codec(&self) -> (r: &C)
        ensures
            r == &self.map_codec,
    {
        &self.map_codec
    }
}

impl<C: MapCodec> HasValue for MapCodecCodec<C> {
    type Value = C::Value;
}

impl<C: MapCodec> Encoder for MapCodecCodec<C> {
    open spec fn encode_spec(
        &self,
        input: <C::Value as DeepView>::V,
        ops: JsonOps,
        prefix: JsonV,
    ) -> DataResultV<JsonV> {
        self.map_codec.map_encode_spec(
            input,
            ops,
            fresh_builder_v(ops, self.map_codec.keys_spec()),
        ).build_v(prefix)
    }

    fn encode(&self, input: &C::Value, ops: &JsonOps, prefix: JsonValue) -> (r: DataResult<
        JsonValue,
    >) {
        let builder = self.map_codec.builder(ops);
        let filled = self.map_codec.encode(input, ops, builder);
        filled.build(prefix)
    }
}

impl<C: MapCodec> Decoder for MapCodecCodec<C> {
    open spec fn decode_spec(&self, input: JsonV, ops: JsonOps) -> DataResultV<
        (<C::Value as DeepView>::V, JsonV),
    > {
        match compressed_decode_spec(&self.map_codec, input, ops) {
            DataResultV::Success { result, lifecycle } => DataResultV::Success {
                result: (result, input),
                lifecycle,
            },
            DataResultV::Error { partial_result, lifecycle, message } => DataResultV::Error {
                partial_result: match partial_result {
                    Some(p) => Some((p, input)),
                    None => None,
                },
                lifecycle,
                message,
            },
        }
    }

    fn decode(&self, input: JsonValue, ops: &JsonOps) -> (r: DataResult<(C::Value, JsonValue)>) {
        let copy = input.clone();
        match compressed_decode(&self.map_codec, copy, ops) {
            DataResult::Success { result, lifecycle } => DataResult::Success {
                result: (result, input),
                lifecycle,
            },
            DataResult::Error { partial_result, lifecycle, message } => DataResult::Error {
                partial_result: match partial_result {
                    Some(p) => Some((p, input)),
                    None => None,
                },
                lifecycle,
                message,
            },
        }
    }
}

/// A validator map codec: values are checked before encoding and after
/// decoding, and a rejected value turns the whole operation into an error.
pub struct ValidatedMapCodec<C: MapCodec, V: crate::codecs::validated::Validator<
    Value = C::Value,
>> {
    /// The map codec doing the real work.
    pub codec: C,
    /// The validator run on the values.
    pub validator: V,
}

/// Returns a transformer map codec that validates a value before encoding
/// and after decoding.
pub fn validate<C: MapCodec, V: crate::codecs::validated::Validator<Value = C::Value>>(
    codec: C,
    validator: V,
) -> (r: ValidatedMapCodec<C, V>)
    ensures
        r.codec == codec,
        r.validator == validator,
{
    ValidatedMapCodec { codec, validator }
}

/// Creates a new [`ValidatedMapCodec`].
pub fn new_validated_map_codec<C: MapCodec, V: crate::codecs::validated::Validator<
    Value = C::Value,
>>(codec: C, validator: V) -> (r: ValidatedMapCodec<C, V>)
    ensures
        r.codec == codec,
        r.validator == validator,
{
    ValidatedMapCodec { codec, validator }
}

impl<C: MapCodec, V: crate::codecs::validated::Validator<Value = C::Value>> HasValue
    for ValidatedMapCodec<C, V> {
    type Value = C::Value;
}

impl<C: MapCodec, V: crate::codecs::validated::Validator<Value = C::Value>> MapCodec
    for ValidatedMapCodec<C, V> {
    open spec fn keys_spec(&self) -> Seq<Seq<char>> {
        self.codec.keys_spec()
    }

    fn keys(&self) -> (r: Vec<String>) {
        self.codec.keys()
    }

    open spec fn map_encode_spec(
        &self,
        input: <C::Value as DeepView>::V,
        ops: JsonOps,
        builder: StructBuilderV,
    ) -> StructBuilderV {
        if self.validator.ok_spec(input) {
            self.codec.map_encode_spec(input, ops, builder)
        } else {
            builder.with_errors_from_v(error_v::<JsonV>(self.validator.message_spec(input)))
        }
    }

    fn encode(&self, input: &C::Value, ops: &JsonOps, prefix: EncoderStructBuilder) -> (r:
        EncoderStructBuilder) {
        match self.validator.check(input) {
            Ok(()) => self.codec.encode(input, ops, prefix),
            Err(message) => {
                let failure: DataResult<JsonValue> = DataResult::error(message);
                prefix.with_errors_from(&failure)
            },
        }
    }

    open spec fn map_decode_spec(
        &self,
        entries: Seq<(Seq<char>, JsonV)>,
        ops: JsonOps,
    ) -> DataResultV<<C::Value as DeepView>::V> {
        let d = self.codec.map_decode_spec(entries, ops);
        match d.value_of() {
            Some(v) => if self.validator.ok_spec(v) {
                d
            } else {
                error_v(self.validator.message_spec(v))
            },
            None => d,
        }
    }

    fn decode(&self, input: &MapLike, ops: &JsonOps) -> (r: DataResult<C::Value>) {
        let d = self.codec.decode(input, ops);
        match d {
            DataResult::Success { result, lifecycle } => {
                match self.validator.check(&result) {
                    Ok(()) => DataResult::Success { result, lifecycle },
                    Err(message) => DataResult::error(message),
                }
            },
            DataResult::Error { partial_result: Some(p), lifecycle, message } => {
                match self.validator.check(&p) {
                    Ok(()) => DataResult::Error {
                        partial_result: Some(p),
                        lifecycle,
                        message,
                    },
                    Err(m2) => DataResult::error(m2),
                }
            },
            e => e,
        }
    }
}

/// A map codec that can serialize one of two types, with a map codec for
/// each one. Decoding evaluates the left side first and keeps its success;
/// otherwise the right side's success; otherwise the two results combine
/// with the applicative rules, preferring the right side's value.
pub struct EitherMapCodec<L: MapCodec, R: MapCodec> {
    /// The map codec tried first.
    pub left_codec: L,
    /// The map codec tried second.
    pub right_codec: R,
}

/// Creates a new [`EitherMapCodec`] from the two map codecs.
pub fn new_either_map_codec<L: MapCodec, R: MapCodec>(left_codec: L, right_codec: R) -> (r:
    EitherMapCodec<L, R>)
    ensures
        r.left_codec == left_codec,
        r.right_codec == right_codec,
{
    EitherMapCodec { left_codec, right_codec }
}

impl<L: MapCodec, R: MapCodec> HasValue for EitherMapCodec<L, R> {
    type Value = crate::either::Either<L::Value, R::Value>;
}

impl<L: MapCodec, R: MapCodec> EitherMapCodec<L, R> {
    /// What decoding returns: the preference order over the two decode
    /// results, combining both by the applicative rules when neither is a
    /// success.
    pub open spec fn decode_preference(
        &self,
        entries: Seq<(Seq<char>, JsonV)>,
        ops: JsonOps,
    ) -> DataResultV<
        crate::either::Either<<L::Value as DeepView>::V, <R::Value as DeepView>::V>,
    > {
        let left = apply_left::<<L::Value as DeepView>::V, <R::Value as DeepView>::V>(
            self.left_codec.map_decode_spec(entries, ops),
        );
        let right = apply_right::<<L::Value as DeepView>::V, <R::Value as DeepView>::V>(
            self.right_codec.map_decode_spec(entries, ops),
        );
        if left is Success {
            left
        } else if right is Success {
            right
        } else {
            let merged = crate::data_result::merge_msg_opt(
                left.message_of(),
                right.message_of(),
            );
            match (left.value_of(), right.value_of()) {
                (Some(_), Some(b)) => DataResultV::Error {
                    partial_result: Some(b),
                    lifecycle: Lifecycle::Experimental,
                    message: merged->0,
                },
                _ => DataResultV::Error {
                    partial_result: None,
                    lifecycle: Lifecycle::Experimental,
                    message: merged->0,
                },
            }
        }
    }
}

/// A decode result with its value wrapped on the left side.
pub open spec fn apply_left<A, B>(d: DataResultV<A>) -> DataResultV<crate::either::Either<A, B>> {
    match d {
        DataResultV::Success { result, lifecycle } => DataResultV::Success {
            result: crate::either::Either::Left(result),
            lifecycle,
        },
        DataResultV::Error { partial_result, lifecycle, message } => DataResultV::Error {
            partial_result: match partial_result {
                Some(p) => Some(crate::either::Either::Left(p)),
                None => None,
            },
            lifecycle,
            message,
        },
    }
}

/// A decode result with its value wrapped on the right side.
pub open spec fn apply_right<A, B>(d: DataResultV<B>) -> DataResultV<crate::either::Either<A, B>> {
    match d {
        DataResultV::Success { result, lifecycle } => DataResultV::Success {
            result: crate::either::Either::Right(result),
            lifecycle,
        },
        DataResultV::Error { partial_result, lifecycle, message } => DataResultV::Error {
            partial_result: match partial_result {
                Some(p) => Some(crate::either::Either::Right(p)),
                None => None,
            },
            lifecycle,
            message,
        },
    }
}

impl<L: MapCodec, R: MapCodec> MapCodec for EitherMapCodec<L, R> {
    open spec fn keys_spec(&self) -> Seq<Seq<char>> {
        self.left_codec.keys_spec() + self.right_codec.keys_spec()
    }

    fn keys(&self) -> (r: Vec<String>) {
        let mut out = self.left_codec.keys();
        let more = self.right_codec.keys();
        crate::struct_codecs::concat_keys(&mut out, &more);
        out
    }

    open spec fn map_encode_spec(
        &self,
        input: crate::either::Either<<L::Value as DeepView>::V, <R::Value as DeepView>::V>,
        ops: JsonOps,
        builder: StructBuilderV,
    ) -> StructBuilderV {
        match input {
            crate::either::Either::Left(l) => self.left_codec.map_encode_spec(l, ops, builder),
            crate::either::Either::Right(r) => self.right_codec.map_encode_spec(r, ops, builder),
        }
    }

    fn encode(
        &self,
        input: &crate::either::Either<L::Value, R::Value>,
        ops: &JsonOps,
        prefix: EncoderStructBuilder,
    ) -> (r: EncoderStructBuilder) {
        let ghost bv = prefix.view_of();
        match input {
            crate::either::Either::Left(l) => {
                let r = self.left_codec.encode(l, ops, prefix);
                proof {
                    assert(input.deep_view() == crate::either::Either::Left::<
                        <L::Value as DeepView>::V,
                        <R::Value as DeepView>::V,
                    >(l.deep_view()));
                }
                r
            },
            crate::either::Either::Right(rv) => {
                let r = self.right_codec.encode(rv, ops, prefix);
                proof {
                    assert(input.deep_view() == crate::either::Either::Right::<
                        <L::Value as DeepView>::V,
                        <R::Value as DeepView>::V,
                    >(rv.deep_view()));
                }
                r
            },
        }
    }

    open spec fn map_decode_spec(
        &self,
        entries: Seq<(Seq<char>, JsonV)>,
        ops: JsonOps,
    ) -> DataResultV<
        crate::either::Either<<L::Value as DeepView>::V, <R::Value as DeepView>::V>,
    > {
        self.decode_preference(entries, ops)
    }

    fn decode(&self, input: &MapLike, ops: &JsonOps) -> (r: DataResult<
        crate::either::Either<L::Value, R::Value>,
    >) {
        let left = wrap_left_map::<L::Value, R::Value>(self.left_codec.decode(input, ops));
        if left.is_success() {
            return left;
        }
        let right = wrap_right_map::<L::Value, R::Value>(self.right_codec.decode(input, ops));
        if right.is_success() {
            return right;
        }
        let (p1, m1) = split_either(left);
        let (p2, m2) = split_either(right);
        let merged = crate::data_result::merge_messages(m1, m2);
        match (p1, p2) {
            (Some(_), Some(b)) => {
                match merged {
                    Some(message) => DataResult::Error {
                        partial_result: Some(b),
                        lifecycle: Lifecycle::Experimental,
                        message,
                    },
                    None => vstd::pervasive::unreached(),
                }
            },
            _ => {
                match merged {
                    Some(message) => DataResult::Error {
                        partial_result: None,
                        lifecycle: Lifecycle::Experimental,
                        message,
                    },
                    None => vstd::pervasive::unreached(),
                }
            },
        }
    }
}

/// Wraps a decoded value on the left side of an either.
fn wrap_left_map<A: DeepView, B: DeepView>(d: DataResult<A>) -> (r: DataResult<
    crate::either::Either<A, B>,
>)
    ensures
        r.deep_view() == apply_left::<A::V, B::V>(d.deep_view()),
{
    match d {
        DataResult::Success { result, lifecycle } => DataResult::Success {
            result: crate::either::Either::Left(result),
            lifecycle,
        },
        DataResult::Error { partial_result, lifecycle, message } => DataResult::Error {
            partial_result: match partial_result {
                Some(p) => Some(crate::either::Either::Left(p)),
                None => None,
            },
            lifecycle,
            message,
        },
    }
}

/// Wraps a decoded value on the right side of an either.
fn wrap_right_map<A: DeepView, B: DeepView>(d: DataResult<B>) -> (r: DataResult<
    crate::either::Either<A, B>,
>)
    ensures
        r.deep_view() == apply_right::<A::V, B::V>(d.deep_view()),
{
    match d {
        DataResult::Success { result, lifecycle } => DataResult::Success {
            result: crate::either::Either::Right(result),
            lifecycle,
        },
        DataResult::Error { partial_result, lifecycle, message } => DataResult::Error {
            partial_result: match partial_result {
                Some(p) => Some(crate::either::Either::Right(p)),
                None => None,
            },
            lifecycle,
            message,
        },
    }
}

/// Splits an either decode result into its value and its message.
fn split_either<A: DeepView, B: DeepView>(r: DataResult<crate::either::Either<A, B>>) -> (out: (
    Option<crate::either::Either<A, B>>,
    Option<String>,
))
    ensures
        match out.0 {
            Some(v) => r.deep_view().value_of() == Some(v.deep_view()),
            None => r.deep_view().value_of() is None,
        },
        crate::data_result::msg_opt_seq(out.1) == r.deep_view().message_of(),
        out.1 is None ==> out.0 is Some,
{
    match r {
        DataResult::Success { result, .. } => (Some(result), None),
        DataResult::Error { partial_result, message, .. } => (partial_result, Some(message)),
    }
}


/// Creates a map codec for an optional field: an absent key decodes to
/// `None`, and a present value that fails to decode keeps its error.
pub fn optional_field<C: Codec>(element_codec: C, name: &str) -> (r: OptionalFieldMapCodec<C>)
    ensures
        r.element_codec == element_codec,
        r.name@ == name@,
        !r.lenient,
{
    new_optional_field_map_codec(element_codec, name, false)
}

/// Creates a lenient map codec for an optional field: an absent key decodes
/// to `None`, and so does a present value that fails to decode.
pub fn lenient_optional_field<C: Codec>(element_codec: C, name: &str) -> (r: OptionalFieldMapCodec<
    C,
>)
    ensures
        r.element_codec == element_codec,
        r.name@ == name@,
        r.lenient,
{
    new_optional_field_map_codec(element_codec, name, true)
}

/// Creates a map codec for an optional field with a default value: encoding
/// omits the key when the value equals the default, and decoding an absent
/// key yields the default. A failing present value keeps its error.
pub fn optional_field_with_default<C: Codec, D: DefaultProvider<Value = C::Value>>(
    element_codec: C,
    name: &str,
    default: D,
) -> (r: DefaultValueProviderMapCodec<OptionalFieldMapCodec<C>, D>)
    ensures
        r.codec.element_codec == element_codec,
        r.codec.name@ == name@,
        !r.codec.lenient,
        r.default == default,
{
    new_default_value_provider_map_codec(
        new_optional_field_map_codec(element_codec, name, false),
        default,
    )
}

/// Like [`optional_field_with_default`], but lenient: a failing present
/// value also falls back to the default.
pub fn lenient_optional_field_with_default<C: Codec, D: DefaultProvider<Value = C::Value>>(
    element_codec: C,
    name: &str,
    default: D,
) -> (r: DefaultValueProviderMapCodec<OptionalFieldMapCodec<C>, D>)
    ensures
        r.codec.element_codec == element_codec,
        r.codec.name@ == name@,
        r.codec.lenient,
        r.default == default,
{
    new_default_value_provider_map_codec(
        new_optional_field_map_codec(element_codec, name, true),
        default,
    )
}

/// A transformer map codec between two fully equivalent types: values
/// convert after decoding and before encoding, and neither direction can
/// fail. It is the map-shaped counterpart of [`crate::codec::xmap`].
pub struct XmapMapCodec<C: MapCodec, M: crate::coders::ValueXmap<A = C::Value>> {
    /// The map codec doing the real work.
    pub map_codec: C,
    /// The conversion between the two types.
    pub mapper: M,
}

/// Transforms a map codec of one type into a map codec of a fully
/// equivalent type.
pub fn xmap_map<C: MapCodec, M: crate::coders::ValueXmap<A = C::Value>>(map_codec: C, mapper: M) -> (r:
    XmapMapCodec<C, M>)
    ensures
        r.map_codec == map_codec,
        r.mapper == mapper,
{
    XmapMapCodec { map_codec, mapper }
}

impl<C: MapCodec, M: crate::coders::ValueXmap<A = C::Value>> HasValue for XmapMapCodec<C, M> {
    type Value = M::B;
}

impl<C: MapCodec, M: crate::coders::ValueXmap<A = C::Value>> MapCodec for XmapMapCodec<C, M> {
    open spec fn keys_spec(&self) -> Seq<Seq<char>> {
        self.map_codec.keys_spec()
    }

    fn keys(&self) -> (r: Vec<String>) {
        self.map_codec.keys()
    }

    open spec fn map_encode_spec(
        &self,
        input: <M::B as DeepView>::V,
        ops: JsonOps,
        builder: StructBuilderV,
    ) -> StructBuilderV {
        self.map_codec.map_encode_spec(self.mapper.from_spec(input), ops, builder)
    }

    fn encode(&self, input: &M::B, ops: &JsonOps, prefix: EncoderStructBuilder) -> (r:
        EncoderStructBuilder) {
        let a = self.mapper.from_value(input);
        self.map_codec.encode(&a, ops, prefix)
    }

    open spec fn map_decode_spec(
        &self,
        entries: Seq<(Seq<char>, JsonV)>,
        ops: JsonOps,
    ) -> DataResultV<<M::B as DeepView>::V> {
        match self.map_codec.map_decode_spec(entries, ops) {
            DataResultV::Success { result, lifecycle } => DataResultV::Success {
                result: self.mapper.to_spec(result),
                lifecycle,
            },
            DataResultV::Error { partial_result, lifecycle, message } => DataResultV::Error {
                partial_result: match partial_result {
                    Some(p) => Some(self.mapper.to_spec(p)),
                    None => None,
                },
                lifecycle,
                message,
            },
        }
    }

    fn decode(&self, input: &MapLike, ops: &JsonOps) -> (r: DataResult<M::B>) {
        match self.map_codec.decode(input, ops) {
            DataResult::Success { result, lifecycle } => DataResult::Success {
                result: self.mapper.to(result),
                lifecycle,
            },
            DataResult::Error { partial_result, lifecycle, message } => DataResult::Error {
                partial_result: match partial_result {
                    Some(p) => Some(self.mapper.to(p)),
                    None => None,
                },
                lifecycle,
                message,
            },
        }
    }
}

} // verus!
