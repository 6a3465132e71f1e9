use crate::coders::{Codec, Decoder, Encoder, HasValue};
use crate::data_result::{error_v, DataResult, DataResultV};
use crate::json::{JsonV, JsonValue};
use crate::json_ops::JsonOps;
use vstd::prelude::*;

verus! {

/// A check run on values before they encode and after they decode. A
/// validator is a value of its own rather than a plain function, so that
/// what it accepts can be stated exactly.
pub trait Validator {
    type Value: DeepView;

    /// Which values the validator accepts, at the specification level.
    spec fn ok_spec(&self, v: <Self::Value as DeepView>::V) -> bool;

    /// The message the validator reports for a rejected value.
    spec fn message_spec(&self, v: <Self::Value as DeepView>::V) -> Seq<char>;

    /// Checks a value: `Ok` exactly on the accepted values, and otherwise
    /// the reported message.
    fn check(&self, value: &Self::Value) -> (r: Result<(), String>)
        ensures
            r is Ok <==> self.ok_spec(value.deep_view()),
            r matches Err(m) ==> m@ == self.message_spec(value.deep_view()),
    ;
}

/// A validator codec: values are checked before encoding and after decoding,
/// and a rejected value turns the whole operation into an error.
pub struct ValidatedCodec<C: Codec, V: Validator<Value = C::Value>> {
    /// The codec doing the real work.
    pub codec: C,
    /// The validator run on the values.
    pub validator: V,
}

/// Creates a new [`ValidatedCodec`].
pub fn new_validated_codec<C: Codec, V: Validator<Value = C::Value>>(codec: C, validator: V) -> (r:
    ValidatedCodec<C, V>)
    ensures
        r.codec == codec,
        r.validator == validator,
{
    ValidatedCodec { codec, validator }
}

impl<C: Codec, V: Validator<Value = C::Value>> HasValue for ValidatedCodec<C, V> {
    type Value = C::Value;
}

impl<C: Codec, V: Validator<Value = C::Value>> Encoder for ValidatedCodec<C, V> {
    open spec fn encode_spec(
        &self,
        input: <C::Value as DeepView>::V,
        ops: JsonOps,
        prefix: JsonV,
    ) -> DataResultV<JsonV> {
        if self.validator.ok_spec(input) {
            self.codec.encode_spec(input, ops, prefix)
        } else {
            error_v(self.validator.message_spec(input))
        }
    }

    fn encode(&self, input: &C::Value, ops: &JsonOps, prefix: JsonValue) -> (r: DataResult<
        JsonValue,
    >) {
        let ghost pv = prefix.view_of();
        let ghost iv = input.deep_view();
        let r = match self.validator.check(input) {
            Ok(()) => self.codec.encode(input, ops, prefix),
            Err(message) => DataResult::error(message),
        };
        proof {
            assert(r.deep_view() == self.encode_spec(iv, *ops, pv));
        }
        r
    }
}

impl<C: Codec, V: Validator<Value = C::Value>> Decoder for ValidatedCodec<C, V> {
    open spec fn decode_spec(&self, input: JsonV, ops: JsonOps) -> DataResultV<
        (<C::Value as DeepView>::V, JsonV),
    > {
        let d = self.codec.decode_spec(input, ops);
        match d.value_of() {
            Some(p) => d.flat_map_step(
                if self.validator.ok_spec(p.0) {
                    crate::data_result::success_v(p)
                } else {
                    error_v(self.validator.message_spec(p.0))
                },
            ),
            None => d.flat_map_step(
                arbitrary::<DataResultV<(<C::Value as DeepView>::V, JsonV)>>(),
            ),
        }
    }

    fn decode(&self, input: JsonValue, ops: &JsonOps) -> (r: DataResult<(C::Value, JsonValue)>) {
        let ghost iv = input.view_of();
        let d = self.codec.decode(input, ops);
        let out = match d {
            DataResult::Success { result, lifecycle } => {
                let second = match self.validator.check(&result.0) {
                    Ok(()) => DataResult::success(result),
                    Err(message) => DataResult::error(message),
                };
                second.add_lifecycle(lifecycle)
            },
            DataResult::Error { partial_result: Some(p), lifecycle, message } => {
                let second = match self.validator.check(&p.0) {
                    Ok(()) => DataResult::success(p),
                    Err(m2) => DataResult::error(m2),
                };
                let combined = second.lifecycle().add(lifecycle);
                match second {
                    DataResult::Success { result, .. } => DataResult::Error {
                        partial_result: Some(result),
                        message,
                        lifecycle: combined,
                    },
                    DataResult::Error { partial_result, message: second_message, .. } => DataResult::Error {
                        partial_result,
                        message: DataResult::<JsonValue>::append_messages(
                            message.as_str(),
                            second_message.as_str(),
                        ),
                        lifecycle: combined,
                    },
                }
            },
            DataResult::Error { partial_result: None, lifecycle, message } => DataResult::Error {
                partial_result: None,
                lifecycle,
                message,
            },
        };
        proof {
            assert(out.deep_view() == self.decode_spec(iv, *ops));
        }
        out
    }
}

} // verus!
