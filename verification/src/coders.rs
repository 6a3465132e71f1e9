use crate::data_result::{DataResult, DataResultV};
use crate::json::{JsonV, JsonValue};
use crate::json_ops::JsonOps;
use vstd::prelude::*;

verus! {

/// A trait specifying a single in-memory type. This anchors the value type
/// shared by a codec's encoder and decoder halves.
pub trait HasValue {
    type Value: DeepView;
}

/// Drops the undecoded remainder from a decode result, keeping the decoded
/// value, the shape, the lifecycle and the message.
pub open spec fn parse_of<A, B>(d: DataResultV<(A, B)>) -> DataResultV<A> {
    match d {
        DataResultV::Success { result, lifecycle } => DataResultV::Success {
            result: result.0,
            lifecycle,
        },
        DataResultV::Error { partial_result, lifecycle, message } => DataResultV::Error {
            partial_result: match partial_result {
                Some(p) => Some(p.0),
                None => None,
            },
            lifecycle,
            message,
        },
    }
}

/// A trait describing the way to encode something of the type `Value` into a
/// dynamic value.
pub trait Encoder: HasValue {
    /// What encoding returns, at the specification level, for a given input,
    /// adapter and prefix of already-encoded data.
    spec fn encode_spec(
        &self,
        input: <Self::Value as DeepView>::V,
        ops: JsonOps,
        prefix: JsonV,
    ) -> DataResultV<JsonV>;

    /// Encodes an input into a dynamic value, merging it with the
    /// already-encoded data in `prefix`.
    fn encode(&self, input: &Self::Value, ops: &JsonOps, prefix: JsonValue) -> (r: DataResult<
        JsonValue,
    >)
        ensures
            r.deep_view() == self.encode_spec(input.deep_view(), *ops, prefix.view_of()),
    ;

    /// Encodes an input into a dynamic value with no already-encoded data.
    fn encode_start(&self, input: &Self::Value, ops: &JsonOps) -> (r: DataResult<JsonValue>)
        ensures
            r.deep_view() == self.encode_spec(input.deep_view(), *ops, JsonV::Null),
    {
        let prefix = ops.empty();
        self.encode(input, ops, prefix)
    }
}

/// A trait describing the way to decode a dynamic value into something of
/// the type `Value`.
pub trait Decoder: HasValue {
    /// What decoding returns, at the specification level: the decoded value
    /// together with the remaining undecoded data.
    spec fn decode_spec(&self, input: JsonV, ops: JsonOps) -> DataResultV<
        (<Self::Value as DeepView>::V, JsonV),
    >;

    /// Decodes a dynamic value, keeping the remaining undecoded data as the
    /// second element of the pair.
    fn decode(&self, input: JsonValue, ops: &JsonOps) -> (r: DataResult<(Self::Value, JsonValue)>)
        ensures
            r.deep_view() == self.decode_spec(input.view_of(), *ops),
    ;

    /// Decodes a dynamic value, ignoring any remaining undecoded data.
    fn parse(&self, input: JsonValue, ops: &JsonOps) -> (r: DataResult<Self::Value>)
        ensures
            r.deep_view() == parse_of(self.decode_spec(input.view_of(), *ops)),
    {
        match self.decode(input, ops) {
            DataResult::Success { result, lifecycle } => DataResult::Success {
                result: result.0,
                lifecycle,
            },
            DataResult::Error { partial_result, lifecycle, message } => DataResult::Error {
                partial_result: match partial_result {
                    Some(p) => Some(p.0),
                    None => None,
                },
                lifecycle,
                message,
            },
        }
    }
}

/// A type of *codec* describing the way to both encode from and decode into
/// something of the type `Value`. Every type that is both an [`Encoder`] and
/// a [`Decoder`] is a codec.
pub trait Codec: Encoder + Decoder {
}

impl<T: Encoder + Decoder> Codec for T {

}

/// Equality tied to the deep view: two values compare equal exactly when
/// they model the same thing.
pub trait DeepEq: DeepView {
    /// Compares two values by what they model.
    fn deep_eq(&self, other: &Self) -> (r: bool)
        ensures
            r == (self.deep_view() == other.deep_view()),
    ;
}

impl DeepEq for String {
    fn deep_eq(&self, other: &Self) -> (r: bool) {
        crate::text::str_eq(self.as_str(), other.as_str())
    }
}

impl DeepEq for u8 {
    fn deep_eq(&self, other: &Self) -> (r: bool) {
        *self == *other
    }
}

impl DeepEq for u32 {
    fn deep_eq(&self, other: &Self) -> (r: bool) {
        *self == *other
    }
}

impl DeepEq for u64 {
    fn deep_eq(&self, other: &Self) -> (r: bool) {
        *self == *other
    }
}

impl DeepEq for i32 {
    fn deep_eq(&self, other: &Self) -> (r: bool) {
        *self == *other
    }
}

impl DeepEq for i64 {
    fn deep_eq(&self, other: &Self) -> (r: bool) {
        *self == *other
    }
}

/// A total conversion between two value types, both ways; transformer codecs
/// are built over one.
pub trait ValueXmap {
    type A: DeepView;

    type B: DeepView;

    /// What converting forward returns, at the specification level.
    spec fn to_spec(&self, a: <Self::A as DeepView>::V) -> <Self::B as DeepView>::V;

    /// What converting backward returns, at the specification level.
    spec fn from_spec(&self, b: <Self::B as DeepView>::V) -> <Self::A as DeepView>::V;

    /// Converts a decoded value forward.
    fn to(&self, a: Self::A) -> (r: Self::B)
        ensures
            r.deep_view() == self.to_spec(a.deep_view()),
    ;

    /// Converts a value backward before encoding.
    fn from_value(&self, b: &Self::B) -> (r: Self::A)
        ensures
            r.deep_view() == self.from_spec(b.deep_view()),
    ;
}

/// A partial conversion between two value types, both ways; each direction
/// may fail with an error result.
pub trait ValueFlatXmap {
    type A: DeepView;

    type B: DeepView;

    /// What converting forward returns, at the specification level.
    spec fn to_spec(&self, a: <Self::A as DeepView>::V) -> DataResultV<
        <Self::B as DeepView>::V,
    >;

    /// What converting backward returns, at the specification level.
    spec fn from_spec(&self, b: <Self::B as DeepView>::V) -> DataResultV<
        <Self::A as DeepView>::V,
    >;

    /// Converts a decoded value forward; the conversion can fail.
    fn to(&self, a: Self::A) -> (r: DataResult<Self::B>)
        ensures
            r.deep_view() == self.to_spec(a.deep_view()),
    ;

    /// Converts a value backward before encoding; the conversion can fail.
    fn from_value(&self, b: &Self::B) -> (r: DataResult<Self::A>)
        ensures
            r.deep_view() == self.from_spec(b.deep_view()),
    ;
}

/// A conversion whose forward direction (after decoding) can fail while the
/// backward direction (before encoding) is total.
pub trait ValueComapFlatMap {
    type A: DeepView;

    type B: DeepView;

    /// What converting forward returns, at the specification level.
    spec fn to_spec(&self, a: <Self::A as DeepView>::V) -> DataResultV<
        <Self::B as DeepView>::V,
    >;

    /// What converting backward returns, at the specification level.
    spec fn from_spec(&self, b: <Self::B as DeepView>::V) -> <Self::A as DeepView>::V;

    /// Converts a decoded value forward; the conversion can fail.
    fn to(&self, a: Self::A) -> (r: DataResult<Self::B>)
        ensures
            r.deep_view() == self.to_spec(a.deep_view()),
    ;

    /// Converts a value backward before encoding.
    fn from_value(&self, b: &Self::B) -> (r: Self::A)
        ensures
            r.deep_view() == self.from_spec(b.deep_view()),
    ;
}

/// A conversion whose backward direction (before encoding) can fail while
/// the forward direction (after decoding) is total.
pub trait ValueFlatMapComap {
    type A: DeepView;

    type B: DeepView;

    /// What converting forward returns, at the specification level.
    spec fn to_spec(&self, a: <Self::A as DeepView>::V) -> <Self::B as DeepView>::V;

    /// What converting backward returns, at the specification level.
    spec fn from_spec(&self, b: <Self::B as DeepView>::V) -> DataResultV<
        <Self::A as DeepView>::V,
    >;

    /// Converts a decoded value forward.
    fn to(&self, a: Self::A) -> (r: Self::B)
        ensures
            r.deep_view() == self.to_spec(a.deep_view()),
    ;

    /// Converts a value backward before encoding; the conversion can fail.
    fn from_value(&self, b: &Self::B) -> (r: DataResult<Self::A>)
        ensures
            r.deep_view() == self.from_spec(b.deep_view()),
    ;
}

/// A *contramapped* (*comapped*) transformation of an [`Encoder`]: the input
/// converts backward before the wrapped encoder runs.
pub struct ComappedEncoder<E, M> {
    /// The encoder doing the real work.
    pub encoder: E,
    /// The conversion applied to the input.
    pub mapper: M,
}

impl<E: Encoder, M: ValueXmap<A = E::Value>> HasValue for ComappedEncoder<E, M> {
    type Value = M::B;
}

impl<E: Encoder, M: ValueXmap<A = E::Value>> Encoder for ComappedEncoder<E, M> {
    open spec fn encode_spec(
        &self,
        input: <M::B as DeepView>::V,
        ops: JsonOps,
        prefix: JsonV,
    ) -> DataResultV<JsonV> {
        self.encoder.encode_spec(self.mapper.from_spec(input), ops, prefix)
    }

    fn encode(&self, input: &M::B, ops: &JsonOps, prefix: JsonValue) -> (r: DataResult<JsonValue>)
    {
        let a = self.mapper.from_value(input);
        self.encoder.encode(&a, ops, prefix)
    }
}

/// A codec composed from an arbitrary encoder and decoder over the same
/// value type.
pub struct ComposedCodec<E, D> {
    /// The encoding half.
    pub encoder: E,
    /// The decoding half.
    pub decoder: D,
}

impl<E: Encoder, D: Decoder<Value = E::Value>> HasValue for ComposedCodec<E, D> {
    type Value = E::Value;
}

impl<E: Encoder, D: Decoder<Value = E::Value>> Encoder for ComposedCodec<E, D> {
    open spec fn encode_spec(
        &self,
        input: <E::Value as DeepView>::V,
        ops: JsonOps,
        prefix: JsonV,
    ) -> DataResultV<JsonV> {
        self.encoder.encode_spec(input, ops, prefix)
    }

    fn encode(&self, input: &E::Value, ops: &JsonOps, prefix: JsonValue) -> (r: DataResult<
        JsonValue,
    >) {
        self.encoder.encode(input, ops, prefix)
    }
}

impl<E: Encoder, D: Decoder<Value = E::Value>> Decoder for ComposedCodec<E, D> {
    open spec fn decode_spec(&self, input: JsonV, ops: JsonOps) -> DataResultV<
        (<E::Value as DeepView>::V, JsonV),
    > {
        self.decoder.decode_spec(input, ops)
    }

    fn decode(&self, input: JsonValue, ops: &JsonOps) -> (r: DataResult<(E::Value, JsonValue)>) {
        self.decoder.decode(input, ops)
    }
}

} // verus!
