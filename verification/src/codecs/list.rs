use crate::coders::{Codec, Decoder, Encoder, HasValue};
use crate::data_result::{error_v, DataResult, DataResultV};
use crate::json::{arr_view, JsonV, JsonValue};
use crate::json_ops::JsonOps;
use crate::lifecycle::Lifecycle;
use crate::list_builder::{lb_add_result, lb_build, new_list_builder_impl};
use crate::text::{dec_digits, usize_to_string};
use vstd::prelude::*;
use vstd::string::StringExecFns;

verus! {

/// The message reported when a list has fewer elements than allowed.
pub open spec fn too_short_msg(size: nat, min: nat, max: nat) -> Seq<char> {
    "List is too short: "@ + dec_digits(size) + ", expected range ["@ + dec_digits(min) + "-"@
        + dec_digits(max) + "]"@
}

/// The message reported when a list has more elements than allowed.
pub open spec fn too_long_msg(size: nat, min: nat, max: nat) -> Seq<char> {
    "List is too long: "@ + dec_digits(size) + ", expected range ["@ + dec_digits(min) + "-"@
        + dec_digits(max) + "]"@
}

/// A list codec: for an element type, this codec serializes a vector of
/// elements, with `C` the codec for each element.
///
/// A `ListCodec` also bounds the number of elements: fewer than `min_size`
/// or more than `max_size` elements are rejected.
pub struct ListCodec<C: Codec> {
    /// The codec for each element of the list.
    pub element_codec: C,
    /// The smallest allowed number of elements.
    pub min_size: usize,
    /// The largest allowed number of elements.
    pub max_size: usize,
}

/// Creates a new [`ListCodec`] with the provided bounds, both inclusive.
pub fn new_list_codec<C: Codec>(element_codec: C, min_size: usize, max_size: usize) -> (r:
    ListCodec<C>)
    ensures
        r.element_codec == element_codec,
        r.min_size == min_size,
        r.max_size == max_size,
{
    ListCodec { element_codec, min_size, max_size }
}

impl<C: Codec> ListCodec<C> {
    /// An error reporting that a list of `size` elements is shorter than the
    /// bounds allow.
    pub fn create_too_short_error<T: DeepView>(&self, size: usize) -> (r: DataResult<T>)
        ensures
            r.deep_view() == error_v::<T::V>(
                too_short_msg(size as nat, self.min_size as nat, self.max_size as nat),
            ),
    {
        let mut m = String::from_str("List is too short: ");
        m.append(usize_to_string(size).as_str());
        m.append(", expected range [");
        m.append(usize_to_string(self.min_size).as_str());
        m.append("-");
        m.append(usize_to_string(self.max_size).as_str());
        m.append("]");
        DataResult::error(m)
    }

    /// An error reporting that a list of `size` elements is longer than the
    /// bounds allow.
    pub fn create_too_long_error<T: DeepView>(&self, size: usize) -> (r: DataResult<T>)
        ensures
            r.deep_view() == error_v::<T::V>(
                too_long_msg(size as nat, self.min_size as nat, self.max_size as nat),
            ),
    {
        let mut m = String::from_str("List is too long: ");
        m.append(usize_to_string(size).as_str());
        m.append(", expected range [");
        m.append(usize_to_string(self.min_size).as_str());
        m.append("-");
        m.append(usize_to_string(self.max_size).as_str());
        m.append("]");
        DataResult::error(m)
    }

    /// The fold that encodes each element in order into the collected list
    /// elements.
    pub open spec fn encode_fold(
        &self,
        items: Seq<<C::Value as DeepView>::V>,
        acc: DataResultV<Seq<JsonV>>,
        ops: JsonOps,
    ) -> DataResultV<Seq<JsonV>>
        decreases items.len(),
    {
        if items.len() == 0 {
            acc
        } else {
            self.encode_fold(
                items.skip(1),
                lb_add_result(acc, self.element_codec.encode_spec(items[0], ops, JsonV::Null)),
                ops,
            )
        }
    }

    /// The fold that decodes list items in order, collecting the decoded
    /// elements, the failed sidecar (the raw items whose decode erred, and
    /// those beyond the bound), and the accumulated error messages.
    pub open spec fn decode_fold(
        &self,
        items: Seq<JsonV>,
        ops: JsonOps,
        elements: Seq<<C::Value as DeepView>::V>,
        failed: Seq<JsonV>,
        msgs: Option<Seq<char>>,
    ) -> (Seq<<C::Value as DeepView>::V>, Seq<JsonV>, Option<Seq<char>>)
        decreases items.len(),
    {
        if items.len() == 0 {
            (elements, failed, msgs)
        } else if elements.len() >= self.max_size {
            self.decode_fold(items.skip(1), ops, elements, failed.push(items[0]), msgs)
        } else {
            let er = self.element_codec.decode_spec(items[0], ops);
            let msgs2 = crate::data_result::merge_msg_opt(msgs, er.message_of());
            let elements2 = match er.value_of() {
                Some(p) => elements.push(p.0),
                None => elements,
            };
            let failed2 = if er is Error {
                failed.push(items[0])
            } else {
                failed
            };
            self.decode_fold(items.skip(1), ops, elements2, failed2, msgs2)
        }
    }

    /// What decoding the items of a list returns, once the adapter has
    /// produced them: the decoded elements survive element failures as a
    /// partial result paired with the failed sidecar, too few surviving
    /// elements abort without a partial, and too many items truncate with an
    /// error.
    pub open spec fn decode_items_spec(&self, items: Seq<JsonV>, ops: JsonOps) -> DataResultV<
        (Seq<<C::Value as DeepView>::V>, JsonV),
    > {
        let folded = self.decode_fold(items, ops, Seq::empty(), Seq::empty(), None);
        if folded.0.len() < self.min_size {
            error_v(too_short_msg(folded.0.len(), self.min_size as nat, self.max_size as nat))
        } else {
            let pair = (folded.0, JsonV::Arr(folded.1));
            if items.len() > self.max_size {
                DataResultV::Error {
                    partial_result: Some(pair),
                    lifecycle: Lifecycle::Experimental,
                    message: too_long_msg(
                        items.len(),
                        self.min_size as nat,
                        self.max_size as nat,
                    ),
                }
            } else {
                match folded.2 {
                    None => DataResultV::Success {
                        result: pair,
                        lifecycle: if items.len() == 0 {
                            Lifecycle::Experimental
                        } else {
                            Lifecycle::Stable
                        },
                    },
                    Some(m) => DataResultV::Error {
                        partial_result: Some(pair),
                        lifecycle: Lifecycle::Stable,
                        message: m,
                    },
                }
            }
        }
    }
}

impl<C: Codec> HasValue for ListCodec<C> {
    type Value = Vec<C::Value>;
}

impl<C: Codec> Encoder for ListCodec<C> {
    open spec fn encode_spec(
        &self,
        input: Seq<<C::Value as DeepView>::V>,
        ops: JsonOps,
        prefix: JsonV,
    ) -> DataResultV<JsonV> {
        if input.len() < self.min_size {
            error_v(too_short_msg(input.len(), self.min_size as nat, self.max_size as nat))
        } else if input.len() > self.max_size {
            error_v(too_long_msg(input.len(), self.min_size as nat, self.max_size as nat))
        } else {
            lb_build(
                self.encode_fold(
                    input,
                    crate::data_result::success_v(Seq::<JsonV>::empty()),
                    ops,
                ),
                ops,
                prefix,
            )
        }
    }

    #[verifier::loop_isolation(false)]
    fn encode(&self, input: &Vec<C::Value>, ops: &JsonOps, prefix: JsonValue) -> (r: DataResult<
        JsonValue,
    >) {
        let ghost pv = prefix.view_of();
        let ghost iv = input.deep_view();
        let size = input.len();
        if size < self.min_size {
            let r = self.create_too_short_error(size);
            proof {
                assert(r.deep_view() == self.encode_spec(iv, *ops, pv));
            }
            r
        } else if size > self.max_size {
            let r = self.create_too_long_error(size);
            proof {
                assert(r.deep_view() == self.encode_spec(iv, *ops, pv));
            }
            r
        } else {
            let ghost goal = self.encode_fold(
                iv,
                crate::data_result::success_v(Seq::<JsonV>::empty()),
                *ops,
            );
            let mut builder = new_list_builder_impl(ops);
            let mut i: usize = 0;
            proof {
                assert(iv.skip(0) =~= iv);
            }
            while i < input.len()
                invariant
                    i <= input.len(),
                    builder.ops == *ops,
                    self.encode_fold(iv.skip(i as int), builder.elements.deep_view(), *ops)
                        == goal,
                decreases input.len() - i,
            {
                let ghost acc0 = builder.elements.deep_view();
                let encoded = self.element_codec.encode_start(&input[i], ops);
                builder = builder.add_data_result(encoded);
                proof {
                    let rest = iv.skip(i as int);
                    assert(rest[0] == iv[i as int]);
                    assert(rest.skip(1) =~= iv.skip(i + 1));
                    assert(iv[i as int] == input@[i as int].deep_view());
                }
                i += 1;
            }
            proof {
                assert(iv.skip(input.len() as int)
                    =~= Seq::<<C::Value as DeepView>::V>::empty());
            }
            let r = builder.build(prefix);
            proof {
                assert(r.deep_view() == self.encode_spec(iv, *ops, pv));
            }
            r
        }
    }
}

impl<C: Codec> Decoder for ListCodec<C> {
    open spec fn decode_spec(&self, input: JsonV, ops: JsonOps) -> DataResultV<
        (Seq<<C::Value as DeepView>::V>, JsonV),
    > {
        let it = ops.get_iter_spec(input).with_lifecycle_v(Lifecycle::Stable);
        match it.value_of() {
            Some(items) => it.flat_map_step(self.decode_items_spec(items, ops)),
            None => it.flat_map_step(
                arbitrary::<DataResultV<(Seq<<C::Value as DeepView>::V>, JsonV)>>(),
            ),
        }
    }

    #[verifier::loop_isolation(false)]
    fn decode(&self, input: JsonValue, ops: &JsonOps) -> (r: DataResult<
        (Vec<C::Value>, JsonValue),
    >) {
        let ghost iv = input.view_of();
        let it = ops.get_iter(input).with_lifecycle(Lifecycle::Stable);
        let items = match it {
            DataResult::Success { result, lifecycle } => result,
            DataResult::Error { lifecycle, message, .. } => {
                let out: DataResult<(Vec<C::Value>, JsonValue)> = DataResult::Error {
                    partial_result: None,
                    lifecycle,
                    message,
                };
                proof {
                    assert(out.deep_view() == self.decode_spec(iv, *ops));
                }
                return out;
            },
        };
        let ghost items_v = items.deep_view();
        proof {
            crate::json::lemma_arr_view_is_deep_view(items);
        }
        let mut elements: Vec<C::Value> = Vec::new();
        let mut failed: Vec<JsonValue> = Vec::new();
        let mut msgs: Option<String> = None;
        let mut i: usize = 0;
        let ghost goal = self.decode_fold(items_v, *ops, Seq::empty(), Seq::empty(), None);
        proof {
            assert(items_v.skip(0) =~= items_v);
            assert(elements.deep_view() =~= Seq::<<C::Value as DeepView>::V>::empty());
            assert(failed.deep_view() =~= Seq::<JsonV>::empty());
        }
        while i < items.len()
            invariant
                i <= items.len(),
                elements@.len() <= i,
                self.decode_fold(
                    items_v.skip(i as int),
                    *ops,
                    elements.deep_view(),
                    failed.deep_view(),
                    crate::data_result::msg_opt_seq(msgs),
                ) == goal,
            decreases items.len() - i,
        {
            let ghost el0 = elements.deep_view();
            let ghost fl0 = failed.deep_view();
            proof {
                let rest = items_v.skip(i as int);
                assert(rest[0] == items_v[i as int]);
                assert(rest.skip(1) =~= items_v.skip(i + 1));
                assert(items_v[i as int] == items@[i as int].deep_view());
            }
            if elements.len() >= self.max_size {
                failed.push(items[i].clone());
                proof {
                    assert(failed.deep_view() =~= fl0.push(items_v[i as int]));
                }
            } else {
                let element_result = self.element_codec.decode(items[i].clone(), ops);
                let message = match &element_result {
                    DataResult::Success { .. } => None,
                    DataResult::Error { message, .. } => Some(message.clone()),
                };
                let failing = match &element_result {
                    DataResult::Success { .. } => false,
                    DataResult::Error { .. } => true,
                };
                msgs = crate::data_result::merge_messages(msgs, message);
                match element_result.into_result_or_partial() {
                    Some(element) => {
                        elements.push(element.0);
                        proof {
                            assert(elements.deep_view() =~= el0.push(
                                elements@.last().deep_view(),
                            ));
                        }
                    },
                    None => {},
                }
                if failing {
                    failed.push(items[i].clone());
                    proof {
                        assert(failed.deep_view() =~= fl0.push(items_v[i as int]));
                    }
                }
            }
            i += 1;
        }
        proof {
            assert(items_v.skip(items@.len() as int) =~= Seq::<JsonV>::empty());
        }
        if elements.len() < self.min_size {
            let out = self.create_too_short_error(elements.len());
            proof {
                assert(out.deep_view() == self.decode_spec(iv, *ops));
            }
            out
        } else {
            let total_count = items.len();
            proof {
                crate::json::lemma_arr_view_is_deep_view(failed);
            }
            let ghost fl = failed.deep_view();
            let failed_list = ops.create_list(failed);
            proof {
                assert(failed_list.view_of() == JsonV::Arr(fl));
            }
            let pair = (elements, failed_list);
            let out: DataResult<(Vec<C::Value>, JsonValue)> = if total_count > self.max_size {
                let mut m = String::from_str("List is too long: ");
                m.append(usize_to_string(total_count).as_str());
                m.append(", expected range [");
                m.append(usize_to_string(self.min_size).as_str());
                m.append("-");
                m.append(usize_to_string(self.max_size).as_str());
                m.append("]");
                DataResult::Error {
                    partial_result: Some(pair),
                    lifecycle: Lifecycle::Experimental,
                    message: m,
                }
            } else {
                match msgs {
                    None => DataResult::Success {
                        result: pair,
                        lifecycle: if total_count == 0 {
                            Lifecycle::Experimental
                        } else {
                            Lifecycle::Stable
                        },
                    },
                    Some(m) => DataResult::Error {
                        partial_result: Some(pair),
                        lifecycle: Lifecycle::Stable,
                        message: m,
                    },
                }
            };
            proof {
                assert(out.deep_view() == self.decode_spec(iv, *ops));
            }
            out
        }
    }
}

} // verus!
