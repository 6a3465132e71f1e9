use crate::coders::{Decoder, Encoder, HasValue};
use crate::data_result::{DataResult, DataResultV};
use crate::json::{JsonV, JsonValue};
use crate::json_ops::JsonOps;
use crate::number::{DoubleBits, FloatBits, Number};
use vstd::prelude::*;
use vstd::string::StringExecFns;

verus! {

/// Pairs a plain decode result with the empty remainder.
fn pair_with_empty<T: DeepView>(r: DataResult<T>) -> (out: DataResult<(T, JsonValue)>)
    ensures
        out.deep_view() == pair_with_empty_v(r.deep_view()),
{
    match r {
        DataResult::Success { result, lifecycle } => DataResult::Success {
            result: (result, JsonValue::Null),
            lifecycle,
        },
        DataResult::Error { partial_result, lifecycle, message } => DataResult::Error {
            partial_result: match partial_result {
                Some(p) => Some((p, JsonValue::Null)),
                None => None,
            },
            lifecycle,
            message,
        },
    }
}

/// A decode result paired with the empty remainder, at the specification
/// level.
pub open spec fn pair_with_empty_v<T>(r: DataResultV<T>) -> DataResultV<(T, JsonV)> {
    match r {
        DataResultV::Success { result, lifecycle } => DataResultV::Success {
            result: (result, JsonV::Null),
            lifecycle,
        },
        DataResultV::Error { partial_result, lifecycle, message } => DataResultV::Error {
            partial_result: match partial_result {
                Some(p) => Some((p, JsonV::Null)),
                None => None,
            },
            lifecycle,
            message,
        },
    }
}

/// A primitive codec for booleans.
pub struct BoolCodec;

impl HasValue for BoolCodec {
    type Value = bool;
}

impl Encoder for BoolCodec {
    open spec fn encode_spec(&self, input: bool, ops: JsonOps, prefix: JsonV) -> DataResultV<
        JsonV,
    > {
        ops.merge_into_primitive_spec(prefix, JsonV::Bool(input))
    }

    fn encode(&self, input: &bool, ops: &JsonOps, prefix: JsonValue) -> (r: DataResult<JsonValue>) {
        let ghost pv = prefix.view_of();
        let ghost iv = input.deep_view();
        let written = ops.create_bool(*input);
        let r = ops.merge_into_primitive(prefix, written);
        proof {
            assert(r.deep_view() == ops.merge_into_primitive_spec(pv, written.view_of()));
            assert(written.view_of() == JsonV::Bool(iv));
            assert(self.encode_spec(iv, *ops, pv) == ops.merge_into_primitive_spec(
                pv,
                JsonV::Bool(iv),
            ));
            assert(r.deep_view() == self.encode_spec(iv, *ops, pv));
        }
        r
    }
}

impl Decoder for BoolCodec {
    open spec fn decode_spec(&self, input: JsonV, ops: JsonOps) -> DataResultV<(bool, JsonV)> {
        pair_with_empty_v(ops.get_bool_spec(input))
    }

    fn decode(&self, input: JsonValue, ops: &JsonOps) -> (r: DataResult<(bool, JsonValue)>) {
        pair_with_empty(ops.get_bool(&input))
    }
}

/// A primitive codec for bytes.
pub struct ByteCodec;

impl HasValue for ByteCodec {
    type Value = i8;
}

impl Encoder for ByteCodec {
    open spec fn encode_spec(&self, input: i8, ops: JsonOps, prefix: JsonV) -> DataResultV<JsonV> {
        ops.merge_into_primitive_spec(prefix, JsonV::Number(Number::Byte(input)))
    }

    fn encode(&self, input: &i8, ops: &JsonOps, prefix: JsonValue) -> (r: DataResult<JsonValue>) {
        let ghost pv = prefix.view_of();
        let ghost iv = input.deep_view();
        let written = ops.create_byte(*input);
        let r = ops.merge_into_primitive(prefix, written);
        proof {
            assert(r.deep_view() == ops.merge_into_primitive_spec(pv, written.view_of()));
            assert(written.view_of() == JsonV::Number(Number::Byte(iv)));
            assert(self.encode_spec(iv, *ops, pv) == ops.merge_into_primitive_spec(
                pv,
                JsonV::Number(Number::Byte(iv)),
            ));
            assert(r.deep_view() == self.encode_spec(iv, *ops, pv));
        }
        r
    }
}

impl Decoder for ByteCodec {
    open spec fn decode_spec(&self, input: JsonV, ops: JsonOps) -> DataResultV<(i8, JsonV)> {
        pair_with_empty_v(
            match ops.get_number_spec(input) {
                DataResultV::Success { result, lifecycle } => DataResultV::Success {
                    result: result.to_i8_spec(),
                    lifecycle,
                },
                DataResultV::Error { lifecycle, message, .. } => DataResultV::Error {
                    partial_result: None,
                    lifecycle,
                    message,
                },
            },
        )
    }

    fn decode(&self, input: JsonValue, ops: &JsonOps) -> (r: DataResult<(i8, JsonValue)>) {
        pair_with_empty(
            match ops.get_number(&input) {
                DataResult::Success { result, lifecycle } => DataResult::Success {
                    result: result.to_i8(),
                    lifecycle,
                },
                DataResult::Error { lifecycle, message, .. } => DataResult::Error {
                    partial_result: None,
                    lifecycle,
                    message,
                },
            },
        )
    }
}

/// A primitive codec for shorts.
pub struct ShortCodec;

impl HasValue for ShortCodec {
    type Value = i16;
}

impl Encoder for ShortCodec {
    open spec fn encode_spec(&self, input: i16, ops: JsonOps, prefix: JsonV) -> DataResultV<
        JsonV,
    > {
        ops.merge_into_primitive_spec(prefix, JsonV::Number(Number::Short(input)))
    }

    fn encode(&self, input: &i16, ops: &JsonOps, prefix: JsonValue) -> (r: DataResult<JsonValue>) {
        let ghost pv = prefix.view_of();
        let ghost iv = input.deep_view();
        let written = ops.create_short(*input);
        let r = ops.merge_into_primitive(prefix, written);
        proof {
            assert(r.deep_view() == ops.merge_into_primitive_spec(pv, written.view_of()));
            assert(written.view_of() == JsonV::Number(Number::Short(iv)));
            assert(self.encode_spec(iv, *ops, pv) == ops.merge_into_primitive_spec(
                pv,
                JsonV::Number(Number::Short(iv)),
            ));
            assert(r.deep_view() == self.encode_spec(iv, *ops, pv));
        }
        r
    }
}

impl Decoder for ShortCodec {
    open spec fn decode_spec(&self, input: JsonV, ops: JsonOps) -> DataResultV<(i16, JsonV)> {
        pair_with_empty_v(
            match ops.get_number_spec(input) {
                DataResultV::Success { result, lifecycle } => DataResultV::Success {
                    result: result.to_i16_spec(),
                    lifecycle,
                },
                DataResultV::Error { lifecycle, message, .. } => DataResultV::Error {
                    partial_result: None,
                    lifecycle,
                    message,
                },
            },
        )
    }

    fn decode(&self, input: JsonValue, ops: &JsonOps) -> (r: DataResult<(i16, JsonValue)>) {
        pair_with_empty(
            match ops.get_number(&input) {
                DataResult::Success { result, lifecycle } => DataResult::Success {
                    result: result.to_i16(),
                    lifecycle,
                },
                DataResult::Error { lifecycle, message, .. } => DataResult::Error {
                    partial_result: None,
                    lifecycle,
                    message,
                },
            },
        )
    }
}

/// A primitive codec for ints.
pub struct IntCodec;

impl HasValue for IntCodec {
    type Value = i32;
}

impl Encoder for IntCodec {
    open spec fn encode_spec(&self, input: i32, ops: JsonOps, prefix: JsonV) -> DataResultV<
        JsonV,
    > {
        ops.merge_into_primitive_spec(prefix, JsonV::Number(Number::Int(input)))
    }

    fn encode(&self, input: &i32, ops: &JsonOps, prefix: JsonValue) -> (r: DataResult<JsonValue>) {
        let ghost pv = prefix.view_of();
        let ghost iv = input.deep_view();
        let written = ops.create_int(*input);
        let r = ops.merge_into_primitive(prefix, written);
        proof {
            assert(r.deep_view() == ops.merge_into_primitive_spec(pv, written.view_of()));
            assert(written.view_of() == JsonV::Number(Number::Int(iv)));
            assert(self.encode_spec(iv, *ops, pv) == ops.merge_into_primitive_spec(
                pv,
                JsonV::Number(Number::Int(iv)),
            ));
            assert(r.deep_view() == self.encode_spec(iv, *ops, pv));
        }
        r
    }
}

impl Decoder for IntCodec {
    open spec fn decode_spec(&self, input: JsonV, ops: JsonOps) -> DataResultV<(i32, JsonV)> {
        pair_with_empty_v(
            match ops.get_number_spec(input) {
                DataResultV::Success { result, lifecycle } => DataResultV::Success {
                    result: result.to_i32_spec(),
                    lifecycle,
                },
                DataResultV::Error { lifecycle, message, .. } => DataResultV::Error {
                    partial_result: None,
                    lifecycle,
                    message,
                },
            },
        )
    }

    fn decode(&self, input: JsonValue, ops: &JsonOps) -> (r: DataResult<(i32, JsonValue)>) {
        pair_with_empty(
            match ops.get_number(&input) {
                DataResult::Success { result, lifecycle } => DataResult::Success {
                    result: result.to_i32(),
                    lifecycle,
                },
                DataResult::Error { lifecycle, message, .. } => DataResult::Error {
                    partial_result: None,
                    lifecycle,
                    message,
                },
            },
        )
    }
}

/// A primitive codec for longs.
pub struct LongCodec;

impl HasValue for LongCodec {
    type Value = i64;
}

impl Encoder for LongCodec {
    open spec fn encode_spec(&self, input: i64, ops: JsonOps, prefix: JsonV) -> DataResultV<
        JsonV,
    > {
        ops.merge_into_primitive_spec(prefix, JsonV::Number(Number::Long(input)))
    }

    fn encode(&self, input: &i64, ops: &JsonOps, prefix: JsonValue) -> (r: DataResult<JsonValue>) {
        let ghost pv = prefix.view_of();
        let ghost iv = input.deep_view();
        let written = ops.create_long(*input);
        let r = ops.merge_into_primitive(prefix, written);
        proof {
            assert(r.deep_view() == ops.merge_into_primitive_spec(pv, written.view_of()));
            assert(written.view_of() == JsonV::Number(Number::Long(iv)));
            assert(self.encode_spec(iv, *ops, pv) == ops.merge_into_primitive_spec(
                pv,
                JsonV::Number(Number::Long(iv)),
            ));
            assert(r.deep_view() == self.encode_spec(iv, *ops, pv));
        }
        r
    }
}

impl Decoder for LongCodec {
    open spec fn decode_spec(&self, input: JsonV, ops: JsonOps) -> DataResultV<(i64, JsonV)> {
        pair_with_empty_v(
            match ops.get_number_spec(input) {
                DataResultV::Success { result, lifecycle } => DataResultV::Success {
                    result: result.to_i64_spec(),
                    lifecycle,
                },
                DataResultV::Error { lifecycle, message, .. } => DataResultV::Error {
                    partial_result: None,
                    lifecycle,
                    message,
                },
            },
        )
    }

    fn decode(&self, input: JsonValue, ops: &JsonOps) -> (r: DataResult<(i64, JsonValue)>) {
        pair_with_empty(
            match ops.get_number(&input) {
                DataResult::Success { result, lifecycle } => DataResult::Success {
                    result: result.to_i64(),
                    lifecycle,
                },
                DataResult::Error { lifecycle, message, .. } => DataResult::Error {
                    partial_result: None,
                    lifecycle,
                    message,
                },
            },
        )
    }
}

/// A primitive codec for single-precision values, carried as bit patterns.
/// Decoding accepts the single-precision numeric variant alone: converting
/// another numeric variant would need floating-point arithmetic.
pub struct FloatCodec;

impl HasValue for FloatCodec {
    type Value = FloatBits;
}

impl Encoder for FloatCodec {
    open spec fn encode_spec(&self, input: FloatBits, ops: JsonOps, prefix: JsonV) -> DataResultV<
        JsonV,
    > {
        ops.merge_into_primitive_spec(prefix, JsonV::Number(Number::Float(input.0)))
    }

    fn encode(&self, input: &FloatBits, ops: &JsonOps, prefix: JsonValue) -> (r: DataResult<
        JsonValue,
    >) {
        let ghost pv = prefix.view_of();
        let ghost iv = input.deep_view();
        let written = ops.create_float(input.0);
        let r = ops.merge_into_primitive(prefix, written);
        proof {
            assert(r.deep_view() == ops.merge_into_primitive_spec(pv, written.view_of()));
            assert(written.view_of() == JsonV::Number(Number::Float(iv.0)));
            assert(self.encode_spec(iv, *ops, pv) == ops.merge_into_primitive_spec(
                pv,
                JsonV::Number(Number::Float(iv.0)),
            ));
            assert(r.deep_view() == self.encode_spec(iv, *ops, pv));
        }
        r
    }
}

impl Decoder for FloatCodec {
    open spec fn decode_spec(&self, input: JsonV, ops: JsonOps) -> DataResultV<
        (FloatBits, JsonV),
    > {
        pair_with_empty_v(
            match input {
                JsonV::Number(Number::Float(bits)) => crate::data_result::success_v(
                    FloatBits(bits),
                ),
                _ => crate::data_result::error_v("Not a single-precision number"@),
            },
        )
    }

    fn decode(&self, input: JsonValue, ops: &JsonOps) -> (r: DataResult<(FloatBits, JsonValue)>) {
        pair_with_empty(
            match input {
                JsonValue::Number(Number::Float(bits)) => DataResult::success(FloatBits(bits)),
                _ => DataResult::error(String::from_str("Not a single-precision number")),
            },
        )
    }
}

/// A primitive codec for double-precision values, carried as bit patterns.
/// Decoding accepts the double-precision numeric variant alone: converting
/// another numeric variant would need floating-point arithmetic.
pub struct DoubleCodec;

impl HasValue for DoubleCodec {
    type Value = DoubleBits;
}

impl Encoder for DoubleCodec {
    open spec fn encode_spec(&self, input: DoubleBits, ops: JsonOps, prefix: JsonV) -> DataResultV<
        JsonV,
    > {
        ops.merge_into_primitive_spec(prefix, JsonV::Number(Number::Double(input.0)))
    }

    fn encode(&self, input: &DoubleBits, ops: &JsonOps, prefix: JsonValue) -> (r: DataResult<
        JsonValue,
    >) {
        let ghost pv = prefix.view_of();
        let ghost iv = input.deep_view();
        let written = ops.create_double(input.0);
        let r = ops.merge_into_primitive(prefix, written);
        proof {
            assert(r.deep_view() == ops.merge_into_primitive_spec(pv, written.view_of()));
            assert(written.view_of() == JsonV::Number(Number::Double(iv.0)));
            assert(self.encode_spec(iv, *ops, pv) == ops.merge_into_primitive_spec(
                pv,
                JsonV::Number(Number::Double(iv.0)),
            ));
            assert(r.deep_view() == self.encode_spec(iv, *ops, pv));
        }
        r
    }
}

impl Decoder for DoubleCodec {
    open spec fn decode_spec(&self, input: JsonV, ops: JsonOps) -> DataResultV<
        (DoubleBits, JsonV),
    > {
        pair_with_empty_v(
            match input {
                JsonV::Number(Number::Double(bits)) => crate::data_result::success_v(
                    DoubleBits(bits),
                ),
                _ => crate::data_result::error_v("Not a double-precision number"@),
            },
        )
    }

    fn decode(&self, input: JsonValue, ops: &JsonOps) -> (r: DataResult<(DoubleBits, JsonValue)>) {
        pair_with_empty(
            match input {
                JsonValue::Number(Number::Double(bits)) => DataResult::success(DoubleBits(bits)),
                _ => DataResult::error(String::from_str("Not a double-precision number")),
            },
        )
    }
}

/// A primitive codec for strings.
pub struct StringCodec;

impl HasValue for StringCodec {
    type Value = String;
}

impl Encoder for StringCodec {
    open spec fn encode_spec(&self, input: Seq<char>, ops: JsonOps, prefix: JsonV) -> DataResultV<
        JsonV,
    > {
        ops.merge_into_primitive_spec(prefix, JsonV::Str(input))
    }

    fn encode(&self, input: &String, ops: &JsonOps, prefix: JsonValue) -> (r: DataResult<
        JsonValue,
    >) {
        let ghost pv = prefix.view_of();
        let ghost iv = input.deep_view();
        let written = ops.create_string(input.as_str());
        let r = ops.merge_into_primitive(prefix, written);
        proof {
            assert(r.deep_view() == ops.merge_into_primitive_spec(pv, written.view_of()));
            assert(written.view_of() == JsonV::Str(iv));
            assert(self.encode_spec(iv, *ops, pv) == ops.merge_into_primitive_spec(
                pv,
                JsonV::Str(iv),
            ));
            assert(r.deep_view() == self.encode_spec(iv, *ops, pv));
        }
        r
    }
}

impl Decoder for StringCodec {
    open spec fn decode_spec(&self, input: JsonV, ops: JsonOps) -> DataResultV<
        (Seq<char>, JsonV),
    > {
        pair_with_empty_v(ops.get_string_spec(input))
    }

    fn decode(&self, input: JsonValue, ops: &JsonOps) -> (r: DataResult<(String, JsonValue)>) {
        pair_with_empty(ops.get_string(&input))
    }
}

/// A primitive codec for byte buffers, stored as a vector of bytes.
pub struct ByteBufferCodec;

impl HasValue for ByteBufferCodec {
    type Value = Vec<i8>;
}

impl Encoder for ByteBufferCodec {
    open spec fn encode_spec(&self, input: Seq<i8>, ops: JsonOps, prefix: JsonV) -> DataResultV<
        JsonV,
    > {
        ops.merge_into_primitive_spec(
            prefix,
            JsonV::Arr(Seq::new(input.len(), |i: int| JsonV::Number(Number::Byte(input[i])))),
        )
    }

    fn encode(&self, input: &Vec<i8>, ops: &JsonOps, prefix: JsonValue) -> (r: DataResult<
        JsonValue,
    >) {
        let mut copy: Vec<i8> = Vec::new();
        let mut i: usize = 0;
        while i < input.len()
            invariant
                i <= input.len(),
                copy@ == input@.take(i as int),
            decreases input.len() - i,
        {
            copy.push(input[i]);
            proof {
                assert(copy@ =~= input@.take(i + 1));
            }
            i += 1;
        }
        proof {
            assert(copy@ =~= input@);
        }
        let ghost pv = prefix.view_of();
        let ghost iv = input.deep_view();
        let written = ops.create_byte_buffer(copy);
        let r = ops.merge_into_primitive(prefix, written);
        proof {
            assert(r.deep_view() == ops.merge_into_primitive_spec(pv, written.view_of()));
            assert(input.deep_view() =~= input@);
            assert(written.view_of() == JsonV::Arr(
                Seq::new(
                    input.deep_view().len(),
                    |i: int| JsonV::Number(Number::Byte(input.deep_view()[i])),
                ),
            )) by {
                assert(Seq::new(input@.len(), |i: int| JsonV::Number(Number::Byte(input@[i])))
                    =~= Seq::new(
                    input.deep_view().len(),
                    |i: int| JsonV::Number(Number::Byte(input.deep_view()[i])),
                ));
            }
            assert(self.encode_spec(iv, *ops, pv) == ops.merge_into_primitive_spec(
                pv,
                written.view_of(),
            ));
            assert(r.deep_view() == self.encode_spec(iv, *ops, pv));
        }
        r
    }
}

impl Decoder for ByteBufferCodec {
    open spec fn decode_spec(&self, input: JsonV, ops: JsonOps) -> DataResultV<
        (Seq<i8>, JsonV),
    > {
        pair_with_empty_v(ops.get_byte_buffer_spec(input))
    }

    fn decode(&self, input: JsonValue, ops: &JsonOps) -> (r: DataResult<(Vec<i8>, JsonValue)>) {
        pair_with_empty(ops.get_byte_buffer(input))
    }
}

/// A primitive codec for int lists.
pub struct IntStreamCodec;

impl HasValue for IntStreamCodec {
    type Value = Vec<i32>;
}

impl Encoder for IntStreamCodec {
    open spec fn encode_spec(&self, input: Seq<i32>, ops: JsonOps, prefix: JsonV) -> DataResultV<
        JsonV,
    > {
        ops.merge_into_primitive_spec(
            prefix,
            JsonV::Arr(Seq::new(input.len(), |i: int| JsonV::Number(Number::Int(input[i])))),
        )
    }

    fn encode(&self, input: &Vec<i32>, ops: &JsonOps, prefix: JsonValue) -> (r: DataResult<
        JsonValue,
    >) {
        let mut copy: Vec<i32> = Vec::new();
        let mut i: usize = 0;
        while i < input.len()
            invariant
                i <= input.len(),
                copy@ == input@.take(i as int),
            decreases input.len() - i,
        {
            copy.push(input[i]);
            proof {
                assert(copy@ =~= input@.take(i + 1));
            }
            i += 1;
        }
        proof {
            assert(copy@ =~= input@);
        }
        let ghost pv = prefix.view_of();
        let ghost iv = input.deep_view();
        let written = ops.create_int_list(copy);
        let r = ops.merge_into_primitive(prefix, written);
        proof {
            assert(r.deep_view() == ops.merge_into_primitive_spec(pv, written.view_of()));
            assert(input.deep_view() =~= input@);
            assert(written.view_of() == JsonV::Arr(
                Seq::new(
                    input.deep_view().len(),
                    |i: int| JsonV::Number(Number::Int(input.deep_view()[i])),
                ),
            )) by {
                assert(Seq::new(input@.len(), |i: int| JsonV::Number(Number::Int(input@[i])))
                    =~= Seq::new(
                    input.deep_view().len(),
                    |i: int| JsonV::Number(Number::Int(input.deep_view()[i])),
                ));
            }
            assert(self.encode_spec(iv, *ops, pv) == ops.merge_into_primitive_spec(
                pv,
                written.view_of(),
            ));
            assert(r.deep_view() == self.encode_spec(iv, *ops, pv));
        }
        r
    }
}

impl Decoder for IntStreamCodec {
    open spec fn decode_spec(&self, input: JsonV, ops: JsonOps) -> DataResultV<
        (Seq<i32>, JsonV),
    > {
        pair_with_empty_v(ops.get_int_list_spec(input))
    }

    fn decode(&self, input: JsonValue, ops: &JsonOps) -> (r: DataResult<(Vec<i32>, JsonValue)>) {
        pair_with_empty(ops.get_int_list(input))
    }
}

/// A primitive codec for long lists.
pub struct LongStreamCodec;

impl HasValue for LongStreamCodec {
    type Value = Vec<i64>;
}

impl Encoder for LongStreamCodec {
    open spec fn encode_spec(&self, input: Seq<i64>, ops: JsonOps, prefix: JsonV) -> DataResultV<
        JsonV,
    > {
        ops.merge_into_primitive_spec(
            prefix,
            JsonV::Arr(Seq::new(input.len(), |i: int| JsonV::Number(Number::Long(input[i])))),
        )
    }

    fn encode(&self, input: &Vec<i64>, ops: &JsonOps, prefix: JsonValue) -> (r: DataResult<
        JsonValue,
    >) {
        let mut copy: Vec<i64> = Vec::new();
        let mut i: usize = 0;
        while i < input.len()
            invariant
                i <= input.len(),
                copy@ == input@.take(i as int),
            decreases input.len() - i,
        {
            copy.push(input[i]);
            proof {
                assert(copy@ =~= input@.take(i + 1));
            }
            i += 1;
        }
        proof {
            assert(copy@ =~= input@);
        }
        let ghost pv = prefix.view_of();
        let ghost iv = input.deep_view();
        let written = ops.create_long_list(copy);
        let r = ops.merge_into_primitive(prefix, written);
        proof {
            assert(r.deep_view() == ops.merge_into_primitive_spec(pv, written.view_of()));
            assert(input.deep_view() =~= input@);
            assert(written.view_of() == JsonV::Arr(
                Seq::new(
                    input.deep_view().len(),
                    |i: int| JsonV::Number(Number::Long(input.deep_view()[i])),
                ),
            )) by {
                assert(Seq::new(input@.len(), |i: int| JsonV::Number(Number::Long(input@[i])))
                    =~= Seq::new(
                    input.deep_view().len(),
                    |i: int| JsonV::Number(Number::Long(input.deep_view()[i])),
                ));
            }
            assert(self.encode_spec(iv, *ops, pv) == ops.merge_into_primitive_spec(
                pv,
                written.view_of(),
            ));
            assert(r.deep_view() == self.encode_spec(iv, *ops, pv));
        }
        r
    }
}

impl Decoder for LongStreamCodec {
    open spec fn decode_spec(&self, input: JsonV, ops: JsonOps) -> DataResultV<
        (Seq<i64>, JsonV),
    > {
        pair_with_empty_v(ops.get_long_list_spec(input))
    }

    fn decode(&self, input: JsonValue, ops: &JsonOps) -> (r: DataResult<(Vec<i64>, JsonValue)>) {
        pair_with_empty(ops.get_long_list(input))
    }
}

} // verus!
