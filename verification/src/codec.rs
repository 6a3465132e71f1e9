use crate::codecs::lazy::{new_lazy_codec, CodecSupplier, LazyCodec};
use crate::codecs::list::{new_list_codec, ListCodec};
use crate::codecs::primitive::{ByteCodec, IntCodec, LongCodec, ShortCodec};
use crate::codecs::range::{new_range_codec, RangeCodec};
use crate::codecs::validated::{new_validated_codec, ValidatedCodec, Validator};
use crate::coders::{Codec, Decoder, Encoder, HasValue, ValueFlatXmap, ValueXmap};
use crate::data_result::{error_v, success_v, DataResult, DataResultV};
use crate::json::{JsonV, JsonValue};
use crate::json_ops::JsonOps;
use crate::number::{DoubleBits, FloatBits};
use vstd::prelude::*;
use vstd::string::StringExecFns;

verus! {

/// Creates a [`LazyCodec`] from a supplier. The supplier runs at most once,
/// on the wrapper's first use rather than at construction, so a cyclic codec
/// graph can be broken by routing the cycle through the supplier.
pub fn lazy<S: CodecSupplier>(supplier: S) -> (r: LazyCodec<S>)
    ensures
        r.codec_of() == supplier.codec_spec(),
{
    new_lazy_codec(supplier)
}

/// Creates a [`ListCodec`] of another codec with the provided minimum and
/// maximum size, both inclusive.
pub fn list<C: Codec>(codec: C, min_size: usize, max_size: usize) -> (r: ListCodec<C>)
    ensures
        r.element_codec == codec,
        r.min_size == min_size,
        r.max_size == max_size,
{
    new_list_codec(codec, min_size, max_size)
}

/// Creates a [`ListCodec`] of another codec with the provided maximum size.
pub fn limited_list<C: Codec>(codec: C, max_size: usize) -> (r: ListCodec<C>)
    ensures
        r.element_codec == codec,
        r.min_size == 0,
        r.max_size == max_size,
{
    new_list_codec(codec, 0, max_size)
}

/// Creates a [`ListCodec`] of another codec that allows any size.
pub fn unbounded_list<C: Codec>(codec: C) -> (r: ListCodec<C>)
    ensures
        r.element_codec == codec,
        r.min_size == 0,
        r.max_size == usize::MAX,
{
    new_list_codec(codec, 0, usize::MAX)
}

/// Returns a transformer codec that validates a value before encoding and
/// after decoding; a rejected value turns the whole operation into an error.
pub fn validate<C: Codec, V: Validator<Value = C::Value>>(codec: C, validator: V) -> (r:
    ValidatedCodec<C, V>)
    ensures
        r.codec == codec,
        r.validator == validator,
{
    new_validated_codec(codec, validator)
}

/// Returns a codec for ints constrained to `[min, max]`, both inclusive.
pub fn int_range(min: i32, max: i32) -> (r: RangeCodec<IntCodec>)
    ensures
        r.min == min,
        r.max == max,
{
    new_range_codec(IntCodec, min, max)
}

/// Returns a codec for single-precision values constrained to `[min, max]`,
/// both inclusive in the IEEE-754 ordering.
pub fn float_range(min: FloatBits, max: FloatBits) -> (r: RangeCodec<
    crate::codecs::primitive::FloatCodec,
>)
    ensures
        r.min == min,
        r.max == max,
{
    new_range_codec(crate::codecs::primitive::FloatCodec, min, max)
}

/// Returns a codec for double-precision values constrained to `[min, max]`,
/// both inclusive in the IEEE-754 ordering.
pub fn double_range(min: DoubleBits, max: DoubleBits) -> (r: RangeCodec<
    crate::codecs::primitive::DoubleCodec,
>)
    ensures
        r.min == min,
        r.max == max,
{
    new_range_codec(crate::codecs::primitive::DoubleCodec, min, max)
}

/// A transformer codec between two fully equivalent types: values convert
/// after decoding and before encoding, and neither direction can fail.
pub struct XmapCodec<C: Codec, M: ValueXmap<A = C::Value>> {
    /// The codec doing the real work.
    pub codec: C,
    /// The conversion between the two types.
    pub mapper: M,
}

/// Transforms a codec of one type into a codec of a fully equivalent type.
pub fn xmap<C: Codec, M: ValueXmap<A = C::Value>>(codec: C, mapper: M) -> (r: XmapCodec<C, M>)
    ensures
        r.codec == codec,
        r.mapper == mapper,
{
    XmapCodec { codec, mapper }
}

impl<C: Codec, M: ValueXmap<A = C::Value>> HasValue for XmapCodec<C, M> {
    type Value = M::B;
}

impl<C: Codec, M: ValueXmap<A = C::Value>> Encoder for XmapCodec<C, M> {
    open spec fn encode_spec(
        &self,
        input: <M::B as DeepView>::V,
        ops: JsonOps,
        prefix: JsonV,
    ) -> DataResultV<JsonV> {
        self.codec.encode_spec(self.mapper.from_spec(input), ops, prefix)
    }

    fn encode(&self, input: &M::B, ops: &JsonOps, prefix: JsonValue) -> (r: DataResult<JsonValue>)
    {
        let a = self.mapper.from_value(input);
        self.codec.encode(&a, ops, prefix)
    }
}

impl<C: Codec, M: ValueXmap<A = C::Value>> Decoder for XmapCodec<C, M> {
    open spec fn decode_spec(&self, input: JsonV, ops: JsonOps) -> DataResultV<
        (<M::B as DeepView>::V, JsonV),
    > {
        match self.codec.decode_spec(input, ops) {
            DataResultV::Success { result, lifecycle } => DataResultV::Success {
                result: (self.mapper.to_spec(result.0), result.1),
                lifecycle,
            },
            DataResultV::Error { partial_result, lifecycle, message } => DataResultV::Error {
                partial_result: match partial_result {
                    Some(p) => Some((self.mapper.to_spec(p.0), p.1)),
                    None => None,
                },
                lifecycle,
                message,
            },
        }
    }

    fn decode(&self, input: JsonValue, ops: &JsonOps) -> (r: DataResult<(M::B, JsonValue)>) {
        match self.codec.decode(input, ops) {
            DataResult::Success { result, lifecycle } => DataResult::Success {
                result: (self.mapper.to(result.0), result.1),
                lifecycle,
            },
            DataResult::Error { partial_result, lifecycle, message } => DataResult::Error {
                partial_result: match partial_result {
                    Some(p) => Some((self.mapper.to(p.0), p.1)),
                    None => None,
                },
                lifecycle,
                message,
            },
        }
    }
}

/// A transformer codec between two partially equivalent types: either
/// direction of the conversion can fail with an error result.
pub struct FlatXmapCodec<C: Codec, M: ValueFlatXmap<A = C::Value>> {
    /// The codec doing the real work.
    pub codec: C,
    /// The conversion between the two types.
    pub mapper: M,
}

/// Transforms a codec of one type into a codec of a partially equivalent
/// type: either direction of the conversion can fail.
pub fn flat_xmap<C: Codec, M: ValueFlatXmap<A = C::Value>>(codec: C, mapper: M) -> (r:
    FlatXmapCodec<C, M>)
    ensures
        r.codec == codec,
        r.mapper == mapper,
{
    FlatXmapCodec { codec, mapper }
}

impl<C: Codec, M: ValueFlatXmap<A = C::Value>> HasValue for FlatXmapCodec<C, M> {
    type Value = M::B;
}

impl<C: Codec, M: ValueFlatXmap<A = C::Value>> Encoder for FlatXmapCodec<C, M> {
    open spec fn encode_spec(
        &self,
        input: <M::B as DeepView>::V,
        ops: JsonOps,
        prefix: JsonV,
    ) -> DataResultV<JsonV> {
        let fm = self.mapper.from_spec(input);
        match fm.value_of() {
            Some(a) => fm.flat_map_step(self.codec.encode_spec(a, ops, prefix)),
            None => fm.flat_map_step(arbitrary::<DataResultV<JsonV>>()),
        }
    }

    fn encode(&self, input: &M::B, ops: &JsonOps, prefix: JsonValue) -> (r: DataResult<JsonValue>)
    {
        let ghost pv = prefix.view_of();
        let ghost iv = input.deep_view();
        let converted = self.mapper.from_value(input);
        let out = match converted {
            DataResult::Success { result, lifecycle } => self.codec.encode(
                &result,
                ops,
                prefix,
            ).add_lifecycle(lifecycle),
            DataResult::Error { partial_result: Some(p), lifecycle, message } => {
                let second = self.codec.encode(&p, ops, prefix);
                let combined = second.lifecycle().add(lifecycle);
                match second {
                    DataResult::Success { result, .. } => DataResult::Error {
                        partial_result: Some(result),
                        message,
                        lifecycle: combined,
                    },
                    DataResult::Error { partial_result, message: second_message, .. } => DataResult::Error {
                        partial_result,
                        message: DataResult::<JsonValue>::append_messages(
                            message.as_str(),
                            second_message.as_str(),
                        ),
                        lifecycle: combined,
                    },
                }
            },
            DataResult::Error { partial_result: None, lifecycle, message } => DataResult::Error {
                partial_result: None,
                lifecycle,
                message,
            },
        };
        proof {
            assert(out.deep_view() == self.encode_spec(iv, *ops, pv));
        }
        out
    }
}

impl<C: Codec, M: ValueFlatXmap<A = C::Value>> Decoder for FlatXmapCodec<C, M> {
    open spec fn decode_spec(&self, input: JsonV, ops: JsonOps) -> DataResultV<
        (<M::B as DeepView>::V, JsonV),
    > {
        let d = self.codec.decode_spec(input, ops);
        match d.value_of() {
            Some(p) => d.flat_map_step(
                match self.mapper.to_spec(p.0) {
                    DataResultV::Success { result, lifecycle } => DataResultV::Success {
                        result: (result, p.1),
                        lifecycle,
                    },
                    DataResultV::Error { partial_result, lifecycle, message } => DataResultV::Error {
                        partial_result: match partial_result {
                            Some(b) => Some((b, p.1)),
                            None => None,
                        },
                        lifecycle,
                        message,
                    },
                },
            ),
            None => d.flat_map_step(arbitrary::<DataResultV<(<M::B as DeepView>::V, JsonV)>>()),
        }
    }

    fn decode(&self, input: JsonValue, ops: &JsonOps) -> (r: DataResult<(M::B, JsonValue)>) {
        let ghost iv = input.view_of();
        let d = self.codec.decode(input, ops);
        let out = match d {
            DataResult::Success { result, lifecycle } => {
                let second = pair_remainder(self.mapper.to(result.0), result.1);
                second.add_lifecycle(lifecycle)
            },
            DataResult::Error { partial_result: Some(p), lifecycle, message } => {
                let second = pair_remainder(self.mapper.to(p.0), p.1);
                let combined = second.lifecycle().add(lifecycle);
                match second {
                    DataResult::Success { result, .. } => DataResult::Error {
                        partial_result: Some(result),
                        message,
                        lifecycle: combined,
                    },
                    DataResult::Error { partial_result, message: second_message, .. } => DataResult::Error {
                        partial_result,
                        message: DataResult::<JsonValue>::append_messages(
                            message.as_str(),
                            second_message.as_str(),
                        ),
                        lifecycle: combined,
                    },
                }
            },
            DataResult::Error { partial_result: None, lifecycle, message } => DataResult::Error {
                partial_result: None,
                lifecycle,
                message,
            },
        };
        proof {
            assert(out.deep_view() == self.decode_spec(iv, *ops));
        }
        out
    }
}

/// Pairs a converted value result with the undecoded remainder.
fn pair_remainder<B: DeepView>(r: DataResult<B>, remainder: JsonValue) -> (out: DataResult<
    (B, JsonValue),
>)
    ensures
        out.deep_view() == match r.deep_view() {
            DataResultV::Success { result, lifecycle } => DataResultV::Success {
                result: (result, remainder.view_of()),
                lifecycle,
            },
            DataResultV::Error { partial_result, lifecycle, message } => DataResultV::Error::<
                (B::V, JsonV),
            > {
                partial_result: match partial_result {
                    Some(b) => Some((b, remainder.view_of())),
                    None => None,
                },
                lifecycle,
                message,
            },
        },
{
    match r {
        DataResult::Success { result, lifecycle } => DataResult::Success {
            result: (result, remainder),
            lifecycle,
        },
        DataResult::Error { partial_result, lifecycle, message } => DataResult::Error {
            partial_result: match partial_result {
                Some(b) => Some((b, remainder)),
                None => None,
            },
            lifecycle,
            message,
        },
    }
}

/// The conversion between bytes and unsigned bytes; values that do not fit
/// are rejected.
pub struct UbyteXmap;

impl ValueFlatXmap for UbyteXmap {
    type A = i8;

    type B = u8;

    open spec fn to_spec(&self, a: i8) -> DataResultV<u8> {
        if a >= 0 {
            success_v(a as u8)
        } else {
            error_v("Could not fit i8 into u8"@)
        }
    }

    open spec fn from_spec(&self, b: u8) -> DataResultV<i8> {
        if b <= i8::MAX as u8 {
            success_v(b as i8)
        } else {
            error_v("Could not fit u8 into i8"@)
        }
    }

    fn to(&self, a: i8) -> (r: DataResult<u8>) {
        if a >= 0 {
            DataResult::success(a as u8)
        } else {
            DataResult::error(String::from_str("Could not fit i8 into u8"))
        }
    }

    fn from_value(&self, b: &u8) -> (r: DataResult<i8>) {
        if *b <= i8::MAX as u8 {
            DataResult::success(*b as i8)
        } else {
            DataResult::error(String::from_str("Could not fit u8 into i8"))
        }
    }
}

/// The conversion between shorts and unsigned shorts; values that do not fit
/// are rejected.
pub struct UshortXmap;

impl ValueFlatXmap for UshortXmap {
    type A = i16;

    type B = u16;

    open spec fn to_spec(&self, a: i16) -> DataResultV<u16> {
        if a >= 0 {
            success_v(a as u16)
        } else {
            error_v("Could not fit i16 into u16"@)
        }
    }

    open spec fn from_spec(&self, b: u16) -> DataResultV<i16> {
        if b <= i16::MAX as u16 {
            success_v(b as i16)
        } else {
            error_v("Could not fit u16 into i16"@)
        }
    }

    fn to(&self, a: i16) -> (r: DataResult<u16>) {
        if a >= 0 {
            DataResult::success(a as u16)
        } else {
            DataResult::error(String::from_str("Could not fit i16 into u16"))
        }
    }

    fn from_value(&self, b: &u16) -> (r: DataResult<i16>) {
        if *b <= i16::MAX as u16 {
            DataResult::success(*b as i16)
        } else {
            DataResult::error(String::from_str("Could not fit u16 into i16"))
        }
    }
}

/// The conversion between ints and unsigned ints; values that do not fit are
/// rejected.
pub struct UintXmap;

impl ValueFlatXmap for UintXmap {
    type A = i32;

    type B = u32;

    open spec fn to_spec(&self, a: i32) -> DataResultV<u32> {
        if a >= 0 {
            success_v(a as u32)
        } else {
            error_v("Could not fit i32 into u32"@)
        }
    }

    open spec fn from_spec(&self, b: u32) -> DataResultV<i32> {
        if b <= i32::MAX as u32 {
            success_v(b as i32)
        } else {
            error_v("Could not fit u32 into i32"@)
        }
    }

    fn to(&self, a: i32) -> (r: DataResult<u32>) {
        if a >= 0 {
            DataResult::success(a as u32)
        } else {
            DataResult::error(String::from_str("Could not fit i32 into u32"))
        }
    }

    fn from_value(&self, b: &u32) -> (r: DataResult<i32>) {
        if *b <= i32::MAX as u32 {
            DataResult::success(*b as i32)
        } else {
            DataResult::error(String::from_str("Could not fit u32 into i32"))
        }
    }
}

/// The conversion between longs and unsigned longs; values that do not fit
/// are rejected.
pub struct UlongXmap;

impl ValueFlatXmap for UlongXmap {
    type A = i64;

    type B = u64;

    open spec fn to_spec(&self, a: i64) -> DataResultV<u64> {
        if a >= 0 {
            success_v(a as u64)
        } else {
            error_v("Could not fit i64 into u64"@)
        }
    }

    open spec fn from_spec(&self, b: u64) -> DataResultV<i64> {
        if b <= i64::MAX as u64 {
            success_v(b as i64)
        } else {
            error_v("Could not fit u64 into i64"@)
        }
    }

    fn to(&self, a: i64) -> (r: DataResult<u64>) {
        if a >= 0 {
            DataResult::success(a as u64)
        } else {
            DataResult::error(String::from_str("Could not fit i64 into u64"))
        }
    }

    fn from_value(&self, b: &u64) -> (r: DataResult<i64>) {
        if *b <= i64::MAX as u64 {
            DataResult::success(*b as i64)
        } else {
            DataResult::error(String::from_str("Could not fit u64 into i64"))
        }
    }
}

/// A codec for unsigned bytes, built over the byte codec.
pub fn unsigned_byte_codec() -> (r: FlatXmapCodec<ByteCodec, UbyteXmap>)
    ensures
        r == (FlatXmapCodec { codec: ByteCodec, mapper: UbyteXmap }),
{
    flat_xmap(ByteCodec, UbyteXmap)
}

/// A codec for unsigned shorts, built over the short codec.
pub fn unsigned_short_codec() -> (r: FlatXmapCodec<ShortCodec, UshortXmap>)
    ensures
        r == (FlatXmapCodec { codec: ShortCodec, mapper: UshortXmap }),
{
    flat_xmap(ShortCodec, UshortXmap)
}

/// A codec for unsigned ints, built over the int codec.
pub fn unsigned_int_codec() -> (r: FlatXmapCodec<IntCodec, UintXmap>)
    ensures
        r == (FlatXmapCodec { codec: IntCodec, mapper: UintXmap }),
{
    flat_xmap(IntCodec, UintXmap)
}

/// A codec for unsigned longs, built over the long codec.
pub fn unsigned_long_codec() -> (r: FlatXmapCodec<LongCodec, UlongXmap>)
    ensures
        r == (FlatXmapCodec { codec: LongCodec, mapper: UlongXmap }),
{
    flat_xmap(LongCodec, UlongXmap)
}

/// A transformer codec for a type that always converts to the wrapped
/// codec's type, while the reverse conversion (used after decoding) can
/// fail.
pub struct ComapFlatMapCodec<C: Codec, M: crate::coders::ValueComapFlatMap<A = C::Value>> {
    /// The codec doing the real work.
    pub codec: C,
    /// The conversion between the two types.
    pub mapper: M,
}

/// Transforms a codec of one type into a codec of a type it fully converts
/// from but only partially converts to.
pub fn comap_flat_map<C: Codec, M: crate::coders::ValueComapFlatMap<A = C::Value>>(
    codec: C,
    mapper: M,
) -> (r: ComapFlatMapCodec<C, M>)
    ensures
        r.codec == codec,
        r.mapper == mapper,
{
    ComapFlatMapCodec { codec, mapper }
}

impl<C: Codec, M: crate::coders::ValueComapFlatMap<A = C::Value>> HasValue for ComapFlatMapCodec<
    C,
    M,
> {
    type Value = M::B;
}

impl<C: Codec, M: crate::coders::ValueComapFlatMap<A = C::Value>> Encoder for ComapFlatMapCodec<
    C,
    M,
> {
    open spec fn encode_spec(
        &self,
        input: <M::B as DeepView>::V,
        ops: JsonOps,
        prefix: JsonV,
    ) -> DataResultV<JsonV> {
        self.codec.encode_spec(self.mapper.from_spec(input), ops, prefix)
    }

    fn encode(&self, input: &M::B, ops: &JsonOps, prefix: JsonValue) -> (r: DataResult<JsonValue>)
    {
        let a = self.mapper.from_value(input);
        self.codec.encode(&a, ops, prefix)
    }
}

impl<C: Codec, M: crate::coders::ValueComapFlatMap<A = C::Value>> Decoder for ComapFlatMapCodec<
    C,
    M,
> {
    open spec fn decode_spec(&self, input: JsonV, ops: JsonOps) -> DataResultV<
        (<M::B as DeepView>::V, JsonV),
    > {
        let d = self.codec.decode_spec(input, ops);
        match d.value_of() {
            Some(p) => d.flat_map_step(
                match self.mapper.to_spec(p.0) {
                    DataResultV::Success { result, lifecycle } => DataResultV::Success {
                        result: (result, p.1),
                        lifecycle,
                    },
                    DataResultV::Error { partial_result, lifecycle, message } => DataResultV::Error {
                        partial_result: match partial_result {
                            Some(b) => Some((b, p.1)),
                            None => None,
                        },
                        lifecycle,
                        message,
                    },
                },
            ),
            None => d.flat_map_step(arbitrary::<DataResultV<(<M::B as DeepView>::V, JsonV)>>()),
        }
    }

    fn decode(&self, input: JsonValue, ops: &JsonOps) -> (r: DataResult<(M::B, JsonValue)>) {
        let ghost iv = input.view_of();
        let d = self.codec.decode(input, ops);
        let out = match d {
            DataResult::Success { result, lifecycle } => {
                let second = pair_remainder(self.mapper.to(result.0), result.1);
                second.add_lifecycle(lifecycle)
            },
            DataResult::Error { partial_result: Some(p), lifecycle, message } => {
                let second = pair_remainder(self.mapper.to(p.0), p.1);
                let combined = second.lifecycle().add(lifecycle);
                match second {
                    DataResult::Success { result, .. } => DataResult::Error {
                        partial_result: Some(result),
                        message,
                        lifecycle: combined,
                    },
                    DataResult::Error { partial_result, message: second_message, .. } => DataResult::Error {
                        partial_result,
                        message: DataResult::<JsonValue>::append_messages(
                            message.as_str(),
                            second_message.as_str(),
                        ),
                        lifecycle: combined,
                    },
                }
            },
            DataResult::Error { partial_result: None, lifecycle, message } => DataResult::Error {
                partial_result: None,
                lifecycle,
                message,
            },
        };
        proof {
            assert(out.deep_view() == self.decode_spec(iv, *ops));
        }
        out
    }
}

/// A transformer codec for a type that the wrapped codec's type always
/// converts to, while the reverse conversion (used before encoding) can
/// fail.
pub struct FlatMapComapCodec<C: Codec, M: crate::coders::ValueFlatMapComap<A = C::Value>> {
    /// The codec doing the real work.
    pub codec: C,
    /// The conversion between the two types.
    pub mapper: M,
}

/// Transforms a codec of one type into a codec of a type it only partially
/// converts from but fully converts to.
pub fn flat_map_comap<C: Codec, M: crate::coders::ValueFlatMapComap<A = C::Value>>(
    codec: C,
    mapper: M,
) -> (r: FlatMapComapCodec<C, M>)
    ensures
        r.codec == codec,
        r.mapper == mapper,
{
    FlatMapComapCodec { codec, mapper }
}

impl<C: Codec, M: crate::coders::ValueFlatMapComap<A = C::Value>> HasValue for FlatMapComapCodec<
    C,
    M,
> {
    type Value = M::B;
}

impl<C: Codec, M: crate::coders::ValueFlatMapComap<A = C::Value>> Encoder for FlatMapComapCodec<
    C,
    M,
> {
    open spec fn encode_spec(
        &self,
        input: <M::B as DeepView>::V,
        ops: JsonOps,
        prefix: JsonV,
    ) -> DataResultV<JsonV> {
        let fm = self.mapper.from_spec(input);
        match fm.value_of() {
            Some(a) => fm.flat_map_step(self.codec.encode_spec(a, ops, prefix)),
            None => fm.flat_map_step(arbitrary::<DataResultV<JsonV>>()),
        }
    }

    fn encode(&self, input: &M::B, ops: &JsonOps, prefix: JsonValue) -> (r: DataResult<JsonValue>)
    {
        let ghost pv = prefix.view_of();
        let ghost iv = input.deep_view();
        let converted = self.mapper.from_value(input);
        let out = match converted {
            DataResult::Success { result, lifecycle } => self.codec.encode(
                &result,
                ops,
                prefix,
            ).add_lifecycle(lifecycle),
            DataResult::Error { partial_result: Some(p), lifecycle, message } => {
                let second = self.codec.encode(&p, ops, prefix);
                let combined = second.lifecycle().add(lifecycle);
                match second {
                    DataResult::Success { result, .. } => DataResult::Error {
                        partial_result: Some(result),
                        message,
                        lifecycle: combined,
                    },
                    DataResult::Error { partial_result, message: second_message, .. } => DataResult::Error {
                        partial_result,
                        message: DataResult::<JsonValue>::append_messages(
                            message.as_str(),
                            second_message.as_str(),
                        ),
                        lifecycle: combined,
                    },
                }
            },
            DataResult::Error { partial_result: None, lifecycle, message } => DataResult::Error {
                partial_result: None,
                lifecycle,
                message,
            },
        };
        proof {
            assert(out.deep_view() == self.encode_spec(iv, *ops, pv));
        }
        out
    }
}

impl<C: Codec, M: crate::coders::ValueFlatMapComap<A = C::Value>> Decoder for FlatMapComapCodec<
    C,
    M,
> {
    open spec fn decode_spec(&self, input: JsonV, ops: JsonOps) -> DataResultV<
        (<M::B as DeepView>::V, JsonV),
    > {
        match self.codec.decode_spec(input, ops) {
            DataResultV::Success { result, lifecycle } => DataResultV::Success {
                result: (self.mapper.to_spec(result.0), result.1),
                lifecycle,
            },
            DataResultV::Error { partial_result, lifecycle, message } => DataResultV::Error {
                partial_result: match partial_result {
                    Some(p) => Some((self.mapper.to_spec(p.0), p.1)),
                    None => None,
                },
                lifecycle,
                message,
            },
        }
    }

    fn decode(&self, input: JsonValue, ops: &JsonOps) -> (r: DataResult<(M::B, JsonValue)>) {
        match self.codec.decode(input, ops) {
            DataResult::Success { result, lifecycle } => DataResult::Success {
                result: (self.mapper.to(result.0), result.1),
                lifecycle,
            },
            DataResult::Error { partial_result, lifecycle, message } => DataResult::Error {
                partial_result: match partial_result {
                    Some(p) => Some((self.mapper.to(p.0), p.1)),
                    None => None,
                },
                lifecycle,
                message,
            },
        }
    }
}

/// The conversion between decimal key strings and unsigned ints, used for
/// maps keyed by numbers: a key encodes as its decimal digits, and only a
/// nonempty all-digit string that fits decodes back.
pub struct UintKeyXmap;

impl ValueFlatXmap for UintKeyXmap {
    type A = String;

    type B = u32;

    open spec fn to_spec(&self, a: Seq<char>) -> DataResultV<u32> {
        if a.len() > 0 && (crate::text::parse_digits(a, 0) matches Some(n) && n <= u32::MAX) {
            success_v(crate::text::parse_digits(a, 0)->0 as u32)
        } else {
            error_v("Could not parse String"@)
        }
    }

    open spec fn from_spec(&self, b: u32) -> DataResultV<Seq<char>> {
        success_v(crate::text::dec_digits(b as nat))
    }

    fn to(&self, a: String) -> (r: DataResult<u32>) {
        match crate::text::parse_u32(a.as_str()) {
            Some(n) => DataResult::success(n),
            None => DataResult::error(String::from_str("Could not parse String")),
        }
    }

    fn from_value(&self, b: &u32) -> (r: DataResult<String>) {
        DataResult::success(crate::text::u64_to_string(*b as u64))
    }
}

} // verus!
