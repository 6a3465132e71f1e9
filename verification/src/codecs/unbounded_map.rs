use crate::coders::{Codec, Decoder, DeepEq, Encoder, HasValue};
use crate::data_result::{DataResult, DataResultV};
use crate::json::{JsonV, JsonValue};
use crate::json_ops::JsonOps;
use crate::lifecycle::Lifecycle;
use crate::struct_builder::{EncoderStructBuilder, MapBuilder, StructBuilderV};
use vstd::prelude::*;
use vstd::string::StringExecFns;

verus! {

/// Whether a key already stands among the read entries.
pub open spec fn has_key<KV, VV>(read: Seq<(KV, VV)>, key: KV) -> bool {
    exists|i: int| 0 <= i < read.len() && read[i].0 == key
}

/// A codec for a map with no fixed list of keys: the in-memory value is a
/// list of key-value entries in insertion order, each key held once.
///
/// The key codec must serialize to and from strings, because the dynamic
/// representation of a map keys its entries by strings.
pub struct UnboundedMapCodec<K: Codec, V: Codec> where K::Value: DeepEq {
    /// The codec for the keys.
    pub key_codec: K,
    /// The codec for the values.
    pub element_codec: V,
}

/// Creates an [`UnboundedMapCodec`] with the provided key and value codecs.
pub fn unbounded_map<K: Codec, V: Codec>(key_codec: K, element_codec: V) -> (r: UnboundedMapCodec<
    K,
    V,
>) where K::Value: DeepEq
    ensures
        r.key_codec == key_codec,
        r.element_codec == element_codec,
{
    UnboundedMapCodec { key_codec, element_codec }
}

impl<K: Codec, V: Codec> UnboundedMapCodec<K, V> where K::Value: DeepEq {
    /// The fold that encodes each entry in order into the builder.
    pub open spec fn encode_fold(
        &self,
        pairs: Seq<(<K::Value as DeepView>::V, <V::Value as DeepView>::V)>,
        b: StructBuilderV,
        ops: JsonOps,
    ) -> StructBuilderV
        decreases pairs.len(),
    {
        if pairs.len() == 0 {
            b
        } else {
            self.encode_fold(
                pairs.skip(1),
                b.add_pair_results_v(
                    self.key_codec.encode_spec(pairs[0].0, ops, JsonV::Null),
                    self.element_codec.encode_spec(pairs[0].1, ops, JsonV::Null),
                ),
                ops,
            )
        }
    }

    /// The fold that decodes map entries in order: each entry's key and
    /// value parse, entries whose key was already read are dropped with an
    /// error, and the errors accumulate.
    pub open spec fn decode_fold(
        &self,
        entries: Seq<(Seq<char>, JsonV)>,
        ops: JsonOps,
        read: Seq<(<K::Value as DeepView>::V, <V::Value as DeepView>::V)>,
        result: DataResultV<()>,
    ) -> (Seq<(<K::Value as DeepView>::V, <V::Value as DeepView>::V)>, DataResultV<()>)
        decreases entries.len(),
    {
        if entries.len() == 0 {
            (read, result)
        } else {
            let key_result = crate::coders::parse_of(
                self.key_codec.decode_spec(JsonV::Str(entries[0].0), ops),
            );
            let element_result = crate::coders::parse_of(
                self.element_codec.decode_spec(entries[0].1, ops),
            );
            let entry_result = key_result.apply_pair(element_result);
            let accumulated = result.add_message_v(entry_result);
            match entry_result.value_of() {
                Some(kv) => {
                    if has_key(read, kv.0) {
                        self.decode_fold(
                            entries.skip(1),
                            ops,
                            read,
                            accumulated.add_message_v(
                                crate::data_result::error_v::<()>("Duplicate entry for key"@),
                            ),
                        )
                    } else {
                        self.decode_fold(entries.skip(1), ops, read.push(kv), accumulated)
                    }
                },
                None => self.decode_fold(entries.skip(1), ops, read, accumulated),
            }
        }
    }

    /// What decoding the entries of a map view returns.
    pub open spec fn decode_entries_spec(
        &self,
        entries: Seq<(Seq<char>, JsonV)>,
        ops: JsonOps,
    ) -> DataResultV<Seq<(<K::Value as DeepView>::V, <V::Value as DeepView>::V)>> {
        let folded = self.decode_fold(
            entries,
            ops,
            Seq::empty(),
            DataResultV::Success { result: (), lifecycle: Lifecycle::Stable },
        );
        folded.1.with_complete_or_partial_v(folded.0)
    }
}

impl<K: Codec, V: Codec> HasValue for UnboundedMapCodec<K, V> where K::Value: DeepEq {
    type Value = Vec<(K::Value, V::Value)>;
}

impl<K: Codec, V: Codec> Encoder for UnboundedMapCodec<K, V> where K::Value: DeepEq {
    open spec fn encode_spec(
        &self,
        input: Seq<(<K::Value as DeepView>::V, <V::Value as DeepView>::V)>,
        ops: JsonOps,
        prefix: JsonV,
    ) -> DataResultV<JsonV> {
        self.encode_fold(
            input,
            StructBuilderV::Normal {
                builder: DataResultV::Success {
                    result: Seq::<(JsonV, JsonV)>::empty(),
                    lifecycle: Lifecycle::Stable,
                },
                ops,
            },
            ops,
        ).build_v(prefix)
    }

    #[verifier::loop_isolation(false)]
    fn encode(&self, input: &Vec<(K::Value, V::Value)>, ops: &JsonOps, prefix: JsonValue) -> (r:
        DataResult<JsonValue>) {
        let ghost pv = prefix.view_of();
        let ghost iv = input.deep_view();
        let mut builder = EncoderStructBuilder::Normal(MapBuilder::new(ops));
        let ghost goal = self.encode_fold(iv, builder.view_of(), *ops);
        let mut i: usize = 0;
        proof {
            assert(iv.skip(0) =~= iv);
        }
        while i < input.len()
            invariant
                i <= input.len(),
                builder.wf(),
                self.encode_fold(iv.skip(i as int), builder.view_of(), *ops) == goal,
            decreases input.len() - i,
        {
            proof {
                let rest = iv.skip(i as int);
                assert(rest[0] == iv[i as int]);
                assert(rest.skip(1) =~= iv.skip(i + 1));
                assert(iv[i as int] == input@[i as int].deep_view());
            }
            let key_encoded = self.key_codec.encode_start(&input[i].0, ops);
            let value_encoded = self.element_codec.encode_start(&input[i].1, ops);
            builder = builder.add_key_result_value_result(key_encoded, value_encoded);
            i += 1;
        }
        proof {
            assert(iv.skip(input@.len() as int) =~= Seq::<
                (<K::Value as DeepView>::V, <V::Value as DeepView>::V),
            >::empty());
        }
        let r = builder.build(prefix);
        proof {
            assert(r.deep_view() == self.encode_spec(iv, *ops, pv));
        }
        r
    }
}

impl<K: Codec, V: Codec> Decoder for UnboundedMapCodec<K, V> where K::Value: DeepEq {
    open spec fn decode_spec(&self, input: JsonV, ops: JsonOps) -> DataResultV<
        (Seq<(<K::Value as DeepView>::V, <V::Value as DeepView>::V)>, JsonV),
    > {
        let gm = ops.get_map_spec(input).with_lifecycle_v(Lifecycle::Stable);
        match gm {
            DataResultV::Success { result: entries, lifecycle } => {
                let inner = self.decode_entries_spec(entries, ops).add_lifecycle_v(lifecycle);
                match inner {
                    DataResultV::Success { result, lifecycle: l2 } => DataResultV::Success {
                        result: (result, input),
                        lifecycle: l2,
                    },
                    DataResultV::Error { partial_result, lifecycle: l2, message } => DataResultV::Error {
                        partial_result: match partial_result {
                            Some(p) => Some((p, input)),
                            None => None,
                        },
                        lifecycle: l2,
                        message,
                    },
                }
            },
            DataResultV::Error { lifecycle, message, .. } => DataResultV::Error {
                partial_result: None,
                lifecycle,
                message,
            },
        }
    }

    #[verifier::loop_isolation(false)]
    fn decode(&self, input: JsonValue, ops: &JsonOps) -> (r: DataResult<
        (Vec<(K::Value, V::Value)>, JsonValue),
    >) {
        let ghost iv = input.view_of();
        let copy = input.clone();
        let gm = ops.get_map(copy).with_lifecycle(Lifecycle::Stable);
        let (view, lifecycle) = match gm {
            DataResult::Success { result, lifecycle } => (result, lifecycle),
            DataResult::Error { lifecycle, message, .. } => {
                let out: DataResult<(Vec<(K::Value, V::Value)>, JsonValue)> = DataResult::Error {
                    partial_result: None,
                    lifecycle,
                    message,
                };
                proof {
                    assert(out.deep_view() == self.decode_spec(iv, *ops));
                }
                return out;
            },
        };
        let entries = view.entries();
        let ghost ev = view.entries_of();
        let mut read: Vec<(K::Value, V::Value)> = Vec::new();
        let mut result: DataResult<()> = DataResult::success_with_lifecycle(
            (),
            Lifecycle::Stable,
        );
        let ghost goal = self.decode_fold(
            ev,
            *ops,
            Seq::empty(),
            DataResultV::Success { result: (), lifecycle: Lifecycle::Stable },
        );
        let mut i: usize = 0;
        proof {
            assert(ev.skip(0) =~= ev);
            assert(read.deep_view() =~= Seq::<
                (<K::Value as DeepView>::V, <V::Value as DeepView>::V),
            >::empty());
        }
        while i < entries.len()
            invariant
                i <= entries.len(),
                entries@.len() == ev.len(),
                forall|j: int|
                    0 <= j < entries@.len() ==> #[trigger] entries@[j].0.view_of() == JsonV::Str(
                        ev[j].0,
                    ) && entries@[j].1.view_of() == ev[j].1,
                self.decode_fold(ev.skip(i as int), *ops, read.deep_view(), result.deep_view())
                    == goal,
            decreases entries.len() - i,
        {
            let ghost read0 = read.deep_view();
            let ghost res0 = result.deep_view();
            proof {
                let rest = ev.skip(i as int);
                assert(rest[0] == ev[i as int]);
                assert(rest.skip(1) =~= ev.skip(i + 1));
            }
            let key_result = self.key_codec.parse(entries[i].0.clone(), ops);
            let element_result = self.element_codec.parse(entries[i].1.clone(), ops);
            let both_success = key_result.is_success() && element_result.is_success();
            let ghost krv = key_result.deep_view();
            let ghost erv = element_result.deep_view();
            let (kp, km) = split_pair_parts(key_result);
            let (ep, em) = split_pair_parts(element_result);
            let merged = crate::data_result::merge_messages(km, em);
            let entry_result: DataResult<(K::Value, V::Value)> = match (kp, ep) {
                (Some(k), Some(e)) => {
                    if both_success {
                        DataResult::Success { result: (k, e), lifecycle: Lifecycle::Stable }
                    } else {
                        match merged {
                            Some(message) => DataResult::Error {
                                partial_result: Some((k, e)),
                                lifecycle: Lifecycle::Stable,
                                message,
                            },
                            None => vstd::pervasive::unreached(),
                        }
                    }
                },
                _ => {
                    match merged {
                        Some(message) => DataResult::Error {
                            partial_result: None,
                            lifecycle: Lifecycle::Stable,
                            message,
                        },
                        None => vstd::pervasive::unreached(),
                    }
                },
            };
            proof {
                assert(entry_result.deep_view() == krv.apply_pair(erv));
            }
            result = result.add_message(&entry_result);
            proof {
                assert(result.deep_view() == res0.add_message_v(entry_result.deep_view()));
            }
            match entry_result.into_result_or_partial() {
                Some(entry) => {
                    if contains_read_key::<K, V>(&read, &entry.0) {
                        let duplicate: DataResult<()> = DataResult::error(
                            String::from_str("Duplicate entry for key"),
                        );
                        result = result.add_message(&duplicate);
                    } else {
                        read.push(entry);
                        proof {
                            assert(read.deep_view() =~= read0.push(
                                read@.last().deep_view(),
                            ));
                        }
                    }
                },
                None => {},
            }
            i += 1;
        }
        proof {
            assert(ev.skip(entries@.len() as int) =~= Seq::<(Seq<char>, JsonV)>::empty());
        }
        let out = result.with_complete_or_partial(read).add_lifecycle(lifecycle);
        let final_out = pair_with_input(out, input);
        proof {
            assert(final_out.deep_view() == self.decode_spec(iv, *ops));
        }
        final_out
    }
}

/// Whether a key already stands among the read entries.
pub(crate) fn contains_read_key<K: Codec, V: Codec>(
    read: &Vec<(K::Value, V::Value)>,
    key: &K::Value,
) -> (r: bool) where K::Value: DeepEq
    ensures
        r == has_key(read.deep_view(), key.deep_view()),
{
    let mut i: usize = 0;
    while i < read.len()
        invariant
            i <= read.len(),
            forall|j: int| 0 <= j < i ==> read.deep_view()[j].0 != key.deep_view(),
        decreases read.len() - i,
    {
        if read[i].0.deep_eq(key) {
            proof {
                assert(read.deep_view()[i as int].0 == key.deep_view());
            }
            return true;
        }
        i += 1;
    }
    proof {
        assert(!has_key(read.deep_view(), key.deep_view()));
    }
    false
}

/// Splits a parse result into its value and its message.
pub(crate) fn split_pair_parts<T: DeepView>(r: DataResult<T>) -> (out: (
    Option<T>,
    Option<String>,
))
    ensures
        match out.0 {
            Some(v) => r.deep_view().value_of() == Some(v.deep_view()),
            None => r.deep_view().value_of() is None,
        },
        crate::data_result::msg_opt_seq(out.1) == r.deep_view().message_of(),
        out.1 is None ==> out.0 is Some,
{
    match r {
        DataResult::Success { result, .. } => (Some(result), None),
        DataResult::Error { partial_result, message, .. } => (partial_result, Some(message)),
    }
}

/// Pairs a decoded map with the original input as the undecoded remainder.
fn pair_with_input<T: DeepView>(r: DataResult<T>, input: JsonValue) -> (out: DataResult<
    (T, JsonValue),
>)
    ensures
        out.deep_view() == match r.deep_view() {
            DataResultV::Success { result, lifecycle } => DataResultV::Success {
                result: (result, input.view_of()),
                lifecycle,
            },
            DataResultV::Error { partial_result, lifecycle, message } => DataResultV::Error::<
                (T::V, JsonV),
            > {
                partial_result: match partial_result {
                    Some(p) => Some((p, input.view_of())),
                    None => None,
                },
                lifecycle,
                message,
            },
        },
{
    match r {
        DataResult::Success { result, lifecycle } => DataResult::Success {
            result: (result, input),
            lifecycle,
        },
        DataResult::Error { partial_result, lifecycle, message } => DataResult::Error {
            partial_result: match partial_result {
                Some(p) => Some((p, input)),
                None => None,
            },
            lifecycle,
            message,
        },
    }
}

} // verus!
