use crate::coders::{Codec, Decoder, Encoder, HasValue};
use crate::data_result::{DataResult, DataResultV};
use crate::either::Either;
use crate::json::{JsonV, JsonValue};
use crate::json_ops::JsonOps;
use crate::lifecycle::Lifecycle;
use vstd::prelude::*;
use vstd::string::StringExecFns;

verus! {

/// The message reported when neither side of an either codec could decode a
/// value.
pub open spec fn either_failure_msg(first: Seq<char>, second: Seq<char>) -> Seq<char> {
    "Failed to parse either. First: "@ + first + "; Second: "@ + second
}

/// A decode result with its decoded value wrapped on the left side.
pub open spec fn wrap_left<A, B, T>(d: DataResultV<(A, T)>) -> DataResultV<(Either<A, B>, T)> {
    match d {
        DataResultV::Success { result, lifecycle } => DataResultV::Success {
            result: (Either::Left(result.0), result.1),
            lifecycle,
        },
        DataResultV::Error { partial_result, lifecycle, message } => DataResultV::Error {
            partial_result: match partial_result {
                Some(p) => Some((Either::Left(p.0), p.1)),
                None => None,
            },
            lifecycle,
            message,
        },
    }
}

/// A decode result with its decoded value wrapped on the right side.
pub open spec fn wrap_right<A, B, T>(d: DataResultV<(B, T)>) -> DataResultV<(Either<A, B>, T)> {
    match d {
        DataResultV::Success { result, lifecycle } => DataResultV::Success {
            result: (Either::Right(result.0), result.1),
            lifecycle,
        },
        DataResultV::Error { partial_result, lifecycle, message } => DataResultV::Error {
            partial_result: match partial_result {
                Some(p) => Some((Either::Right(p.0), p.1)),
                None => None,
            },
            lifecycle,
            message,
        },
    }
}

/// A codec that can serialize one of two types, with a codec for each one.
///
/// Decoding evaluates the left codec first and keeps its full success;
/// otherwise the right codec's full success; otherwise whichever side
/// produced a partial value, the left one preferred; otherwise an error that
/// joins both failure messages.
pub struct EitherCodec<L: Codec, R: Codec> {
    /// The codec tried first.
    pub left_codec: L,
    /// The codec tried second.
    pub right_codec: R,
}

/// Creates a new [`EitherCodec`] from the two codecs.
pub fn new_either_codec<L: Codec, R: Codec>(left_codec: L, right_codec: R) -> (r: EitherCodec<
    L,
    R,
>)
    ensures
        r.left_codec == left_codec,
        r.right_codec == right_codec,
{
    EitherCodec { left_codec, right_codec }
}

impl<L: Codec, R: Codec> HasValue for EitherCodec<L, R> {
    type Value = Either<L::Value, R::Value>;
}

impl<L: Codec, R: Codec> EitherCodec<L, R> {
    /// What decoding returns: the preference order over the two codecs'
    /// decode results.
    pub open spec fn decode_preference(
        &self,
        input: JsonV,
        ops: JsonOps,
    ) -> DataResultV<((Either<<L::Value as DeepView>::V, <R::Value as DeepView>::V>), JsonV)> {
        let left = wrap_left::<_, <R::Value as DeepView>::V, _>(
            self.left_codec.decode_spec(input, ops),
        );
        let right = wrap_right::<<L::Value as DeepView>::V, _, _>(
            self.right_codec.decode_spec(input, ops),
        );
        if left is Success {
            left
        } else if right is Success {
            right
        } else if left.has_value() {
            left
        } else if right.has_value() {
            right
        } else {
            crate::data_result::error_v(
                either_failure_msg(left.message_of()->0, right.message_of()->0),
            )
        }
    }
}

impl<L: Codec, R: Codec> Encoder for EitherCodec<L, R> {
    open spec fn encode_spec(
        &self,
        input: Either<<L::Value as DeepView>::V, <R::Value as DeepView>::V>,
        ops: JsonOps,
        prefix: JsonV,
    ) -> DataResultV<JsonV> {
        match input {
            Either::Left(l) => self.left_codec.encode_spec(l, ops, prefix),
            Either::Right(r) => self.right_codec.encode_spec(r, ops, prefix),
        }
    }

    fn encode(&self, input: &Either<L::Value, R::Value>, ops: &JsonOps, prefix: JsonValue) -> (r:
        DataResult<JsonValue>) {
        let ghost pv = prefix.view_of();
        match input {
            Either::Left(l) => {
                let r = self.left_codec.encode(l, ops, prefix);
                proof {
                    assert(input.deep_view() == Either::Left::<
                        <L::Value as DeepView>::V,
                        <R::Value as DeepView>::V,
                    >(l.deep_view()));
                    assert(r.deep_view() == self.encode_spec(input.deep_view(), *ops, pv));
                }
                r
            },
            Either::Right(rv) => {
                let r = self.right_codec.encode(rv, ops, prefix);
                proof {
                    assert(input.deep_view() == Either::Right::<
                        <L::Value as DeepView>::V,
                        <R::Value as DeepView>::V,
                    >(rv.deep_view()));
                    assert(r.deep_view() == self.encode_spec(input.deep_view(), *ops, pv));
                }
                r
            },
        }
    }
}

impl<L: Codec, R: Codec> Decoder for EitherCodec<L, R> {
    open spec fn decode_spec(&self, input: JsonV, ops: JsonOps) -> DataResultV<
        ((Either<<L::Value as DeepView>::V, <R::Value as DeepView>::V>), JsonV),
    > {
        self.decode_preference(input, ops)
    }

    fn decode(&self, input: JsonValue, ops: &JsonOps) -> (r: DataResult<
        (Either<L::Value, R::Value>, JsonValue),
    >) {
        let ghost iv = input.view_of();
        let copy = input.clone();
        let left = wrap_left_exec::<L::Value, R::Value>(self.left_codec.decode(copy, ops));
        if left.is_success() {
            return left;
        }
        let right = wrap_right_exec::<L::Value, R::Value>(self.right_codec.decode(input, ops));
        if right.is_success() {
            return right;
        }
        if left.has_result_or_partial() {
            return left;
        }
        if right.has_result_or_partial() {
            return right;
        }
        let first_message = match &left {
            DataResult::Error { message, .. } => message.clone(),
            _ => vstd::pervasive::unreached(),
        };
        let second_message = match &right {
            DataResult::Error { message, .. } => message.clone(),
            _ => vstd::pervasive::unreached(),
        };
        let mut message = String::from_str("Failed to parse either. First: ");
        message.append(first_message.as_str());
        message.append("; Second: ");
        message.append(second_message.as_str());
        DataResult::error(message)
    }
}

/// Wraps a decoded value on the left side of an either.
fn wrap_left_exec<A: DeepView, B: DeepView>(d: DataResult<(A, JsonValue)>) -> (r: DataResult<
    (Either<A, B>, JsonValue),
>)
    ensures
        r.deep_view() == wrap_left::<A::V, B::V, JsonV>(d.deep_view()),
{
    match d {
        DataResult::Success { result, lifecycle } => DataResult::Success {
            result: (Either::Left(result.0), result.1),
            lifecycle,
        },
        DataResult::Error { partial_result, lifecycle, message } => DataResult::Error {
            partial_result: match partial_result {
                Some(p) => Some((Either::Left(p.0), p.1)),
                None => None,
            },
            lifecycle,
            message,
        },
    }
}

/// Wraps a decoded value on the right side of an either.
fn wrap_right_exec<A: DeepView, B: DeepView>(d: DataResult<(B, JsonValue)>) -> (r: DataResult<
    (Either<A, B>, JsonValue),
>)
    ensures
        r.deep_view() == wrap_right::<A::V, B::V, JsonV>(d.deep_view()),
{
    match d {
        DataResult::Success { result, lifecycle } => DataResult::Success {
            result: (Either::Right(result.0), result.1),
            lifecycle,
        },
        DataResult::Error { partial_result, lifecycle, message } => DataResult::Error {
            partial_result: match partial_result {
                Some(p) => Some((Either::Right(p.0), p.1)),
                None => None,
            },
            lifecycle,
            message,
        },
    }
}

} // verus!
