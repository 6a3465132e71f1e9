use crate::coders::{Codec, Decoder, Encoder, HasValue};
use crate::data_result::{error_v, success_v, DataResult, DataResultV};
use crate::json::{JsonV, JsonValue};
use crate::json_ops::JsonOps;
use crate::lifecycle::Lifecycle;
use crate::number::{double_bits_le, double_bits_le_spec, float_bits_le, float_bits_le_spec};
use crate::number::{DoubleBits, FloatBits};
use vstd::prelude::*;
use vstd::string::StringExecFns;

verus! {

/// A value type that a range codec can bound: it carries an ordering of its
/// own.
pub trait RangeBound: DeepView<V = Self> + Copy {
    /// A range-bound value is its own deep view.
    proof fn lemma_view_id(self)
        ensures
            self.deep_view() == self,
    ;

    /// The ordering the range uses, at the specification level.
    spec fn le_spec(self, other: Self) -> bool;

    /// Compares two values with the ordering the range uses.
    fn le(&self, other: &Self) -> (r: bool)
        ensures
            r == self.le_spec(*other),
    ;

    /// The text this value is rendered as in error messages, at the
    /// specification level.
    spec fn describe_spec(self) -> Seq<char>;

    /// Renders this value for error messages.
    fn describe(&self) -> (r: String)
        ensures
            r@ == self.describe_spec(),
    ;
}

impl RangeBound for i32 {
    proof fn lemma_view_id(self) {
    }

    open spec fn le_spec(self, other: Self) -> bool {
        self <= other
    }

    fn le(&self, other: &Self) -> (r: bool) {
        *self <= *other
    }

    open spec fn describe_spec(self) -> Seq<char> {
        crate::text::int_digits(self as int)
    }

    fn describe(&self) -> (r: String) {
        crate::text::i64_to_string(*self as i64)
    }
}

impl RangeBound for FloatBits {
    proof fn lemma_view_id(self) {
    }

    open spec fn le_spec(self, other: Self) -> bool {
        float_bits_le_spec(self.0, other.0)
    }

    fn le(&self, other: &Self) -> (r: bool) {
        float_bits_le(self.0, other.0)
    }

    /// A single-precision value is rendered by the width of its encoding and
    /// the decimal of its raw bit pattern, since rendering the value itself
    /// would need floating-point arithmetic.
    open spec fn describe_spec(self) -> Seq<char> {
        crate::json::number_display(crate::number::Number::Float(self.0))
    }

    fn describe(&self) -> (r: String) {
        crate::json::render_number(&crate::number::Number::Float(self.0))
    }
}

impl RangeBound for DoubleBits {
    proof fn lemma_view_id(self) {
    }

    open spec fn le_spec(self, other: Self) -> bool {
        double_bits_le_spec(self.0, other.0)
    }

    fn le(&self, other: &Self) -> (r: bool) {
        double_bits_le(self.0, other.0)
    }

    /// A double-precision value is rendered by the width of its encoding and
    /// the decimal of its raw bit pattern, since rendering the value itself
    /// would need floating-point arithmetic.
    open spec fn describe_spec(self) -> Seq<char> {
        crate::json::number_display(crate::number::Number::Double(self.0))
    }

    fn describe(&self) -> (r: String) {
        crate::json::render_number(&crate::number::Number::Double(self.0))
    }
}

/// The message reported for a value outside a range: it names the value and
/// both bounds, each rendered as its type's [`RangeBound::describe_spec`]
/// says.
pub open spec fn range_violation_msg<T: RangeBound>(input: T, min: T, max: T) -> Seq<char> {
    "Value "@ + input.describe_spec() + " is outside range ["@ + min.describe_spec() + ", "@
        + max.describe_spec() + "]"@
}

/// What checking a range returns: the value itself between the bounds
/// (inclusive), and otherwise an error naming the value and the bounds.
pub open spec fn check_range_spec<T: RangeBound>(input: T, min: T, max: T) -> DataResultV<T> {
    if min.le_spec(input) && input.le_spec(max) {
        success_v(input)
    } else {
        error_v(range_violation_msg(input, min, max))
    }
}

/// Checks whether a value lies between `min` and `max`, both inclusive.
pub fn check_range<T: RangeBound>(input: &T, min: &T, max: &T) -> (r: DataResult<T>)
    ensures
        r.deep_view() == check_range_spec(*input, *min, *max),
{
    if min.le(input) && input.le(max) {
        let r = DataResult::success(*input);
        proof {
            input.lemma_view_id();
            assert(r.deep_view() == success_v(*input));
        }
        r
    } else {
        let mut m = String::from_str("Value ");
        m.append(input.describe().as_str());
        m.append(" is outside range [");
        m.append(min.describe().as_str());
        m.append(", ");
        m.append(max.describe().as_str());
        m.append("]");
        DataResult::error(m)
    }
}

/// A codec for a bounded range of values.
/// - `C` is the codec used to serialize the values, as if there were no range.
/// - Both bounds are inclusive; a value outside them is rejected before
///   encoding and after decoding.
pub struct RangeCodec<C: Codec> where C::Value: RangeBound {
    /// The codec doing the real work.
    pub codec: C,
    /// The smallest allowed value.
    pub min: C::Value,
    /// The largest allowed value.
    pub max: C::Value,
}

/// Creates a new [`RangeCodec`] over a codec with the given bounds.
pub fn new_range_codec<C: Codec>(codec: C, min: C::Value, max: C::Value) -> (r: RangeCodec<C>) where
    C::Value: RangeBound

    ensures
        r.codec == codec,
        r.min == min,
        r.max == max,
{
    RangeCodec { codec, min, max }
}

impl<C: Codec> HasValue for RangeCodec<C> where C::Value: RangeBound {
    type Value = C::Value;
}

impl<C: Codec> Encoder for RangeCodec<C> where C::Value: RangeBound {
    open spec fn encode_spec(&self, input: C::Value, ops: JsonOps, prefix: JsonV) -> DataResultV<
        JsonV,
    > {
        check_range_spec(input, self.min, self.max).flat_map_step(
            self.codec.encode_spec(input, ops, prefix),
        )
    }

    fn encode(&self, input: &C::Value, ops: &JsonOps, prefix: JsonValue) -> (r: DataResult<
        JsonValue,
    >) {
        let ghost pv = prefix.view_of();
        let ghost iv = input.deep_view();
        let checked = check_range(input, &self.min, &self.max);
        let r = match checked {
            DataResult::Success { result, lifecycle } => self.codec.encode(
                &result,
                ops,
                prefix,
            ).add_lifecycle(lifecycle),
            DataResult::Error { lifecycle, message, .. } => DataResult::Error {
                partial_result: None,
                lifecycle,
                message,
            },
        };
        proof {
            input.lemma_view_id();
            assert(iv == *input);
            assert(r.deep_view() == check_range_spec(iv, self.min, self.max).flat_map_step(
                self.codec.encode_spec(iv, *ops, pv),
            ));
            assert(r.deep_view() == self.encode_spec(iv, *ops, pv));
        }
        r
    }
}

impl<C: Codec> Decoder for RangeCodec<C> where C::Value: RangeBound {
    open spec fn decode_spec(&self, input: JsonV, ops: JsonOps) -> DataResultV<
        (C::Value, JsonV),
    > {
        let d = self.codec.decode_spec(input, ops);
        match d.value_of() {
            Some(p) => d.flat_map_step(
                match check_range_spec(p.0, self.min, self.max) {
                    DataResultV::Success { result, lifecycle } => DataResultV::Success {
                        result: (result, p.1),
                        lifecycle,
                    },
                    DataResultV::Error { lifecycle, message, .. } => DataResultV::Error {
                        partial_result: None,
                        lifecycle,
                        message,
                    },
                },
            ),
            None => d.flat_map_step(arbitrary::<DataResultV<(C::Value, JsonV)>>()),
        }
    }

    fn decode(&self, input: JsonValue, ops: &JsonOps) -> (r: DataResult<(C::Value, JsonValue)>) {
        let ghost iv = input.view_of();
        let d = self.codec.decode(input, ops);
        let out = match d {
            DataResult::Success { result, lifecycle } => {
                proof {
                    result.0.lemma_view_id();
                }
                let checked = check_range(&result.0, &self.min, &self.max);
                let second = match checked {
                    DataResult::Success { result: v, lifecycle: l2 } => DataResult::Success {
                        result: (v, result.1),
                        lifecycle: l2,
                    },
                    DataResult::Error { lifecycle: l2, message, .. } => DataResult::Error {
                        partial_result: None,
                        lifecycle: l2,
                        message,
                    },
                };
                second.add_lifecycle(lifecycle)
            },
            DataResult::Error { partial_result: Some(p), lifecycle, message } => {
                proof {
                    p.0.lemma_view_id();
                }
                let checked = check_range(&p.0, &self.min, &self.max);
                let second = match checked {
                    DataResult::Success { result: v, lifecycle: l2 } => DataResult::Success {
                        result: (v, p.1),
                        lifecycle: l2,
                    },
                    DataResult::Error { lifecycle: l2, message: m2, .. } => DataResult::Error {
                        partial_result: None,
                        lifecycle: l2,
                        message: m2,
                    },
                };
                let combined = second.lifecycle().add(lifecycle);
                match second {
                    DataResult::Success { result, .. } => DataResult::Error {
                        partial_result: Some(result),
                        message,
                        lifecycle: combined,
                    },
                    DataResult::Error { partial_result, message: second_message, .. } => DataResult::Error {
                        partial_result,
                        message: DataResult::<JsonValue>::append_messages(
                            message.as_str(),
                            second_message.as_str(),
                        ),
                        lifecycle: combined,
                    },
                }
            },
            DataResult::Error { partial_result: None, lifecycle, message } => DataResult::Error {
                partial_result: None,
                lifecycle,
                message,
            },
        };
        proof {
            assert(out.deep_view() == self.decode_spec(iv, *ops));
        }
        out
    }
}

} // verus!
