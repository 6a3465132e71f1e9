//! A map codec for a homogeneous map with a known set of possible keys.

use crate::codecs::unbounded_map::{contains_read_key, split_pair_parts, UnboundedMapCodec};
use crate::coders::{Codec, DeepEq, Encoder, HasValue};
use crate::data_result::{DataResult, DataResultV};
use crate::json_ops::JsonOps;
use crate::key_compressor::str_views;
use crate::lifecycle::Lifecycle;
use crate::map_codec::MapCodec;
use crate::map_like::MapLike;
use crate::struct_builder::{EncoderStructBuilder, StructBuilderV};
use vstd::prelude::*;
use vstd::string::StringExecFns;

verus! {

/// A map codec for a homogeneous map: each entry's key goes through a key
/// codec and each value through an element codec, with a known list of
/// possible keys for composition and key compression. It is the map-shaped
/// counterpart of [`UnboundedMapCodec`]: it encodes into a provided builder
/// and decodes from a map view, so it composes with the other map codecs.
pub struct SimpleMapCodec<K: Codec, V: Codec> where K::Value: DeepEq {
    /// The key and element codecs, shared with the unbounded form.
    pub inner: UnboundedMapCodec<K, V>,
    /// The possible keys of the map.
    pub keys: Vec<String>,
}

/// Creates a [`SimpleMapCodec`] with the provided key codec, element codec
/// and possible key values.
pub fn simple_map<K: Codec, V: Codec>(key_codec: K, element_codec: V, keys: Vec<String>) -> (r:
    SimpleMapCodec<K, V>) where K::Value: DeepEq
    ensures
        r.inner.key_codec == key_codec,
        r.inner.element_codec == element_codec,
        r.keys == keys,
{
    SimpleMapCodec { inner: UnboundedMapCodec { key_codec, element_codec }, keys }
}

impl<K: Codec, V: Codec> HasValue for SimpleMapCodec<K, V> where K::Value: DeepEq {
    type Value = Vec<(K::Value, V::Value)>;
}

impl<K: Codec, V: Codec> MapCodec for SimpleMapCodec<K, V> where K::Value: DeepEq {
    open spec fn keys_spec(&self) -> Seq<Seq<char>> {
        str_views(self.keys@)
    }

    #[verifier::loop_isolation(false)]
    fn keys(&self) -> (r: Vec<String>) {
        let mut out: Vec<String> = Vec::new();
        let mut i: usize = 0;
        while i < self.keys.len()
            invariant
                i <= self.keys.len(),
                out@.len() == i,
                forall|j: int| 0 <= j < i ==> #[trigger] out@[j]@ == self.keys@[j]@,
            decreases self.keys.len() - i,
        {
            out.push(self.keys[i].clone());
            i += 1;
        }
        proof {
            assert(str_views(out@) =~= str_views(self.keys@));
        }
        out
    }

    open spec fn map_encode_spec(
        &self,
        input: Seq<(<K::Value as DeepView>::V, <V::Value as DeepView>::V)>,
        ops: JsonOps,
        builder: StructBuilderV,
    ) -> StructBuilderV {
        self.inner.encode_fold(input, builder, ops)
    }

    #[verifier::loop_isolation(false)]
    fn encode(&self, input: &Vec<(K::Value, V::Value)>, ops: &JsonOps, prefix: EncoderStructBuilder) -> (r:
        EncoderStructBuilder) {
        let ghost iv = input.deep_view();
        let mut builder = prefix;
        let ghost goal = self.inner.encode_fold(iv, builder.view_of(), *ops);
        let mut i: usize = 0;
        proof {
            assert(iv.skip(0) =~= iv);
        }
        while i < input.len()
            invariant
                i <= input.len(),
                builder.wf(),
                self.inner.encode_fold(iv.skip(i as int), builder.view_of(), *ops) == goal,
            decreases input.len() - i,
        {
            proof {
                let rest = iv.skip(i as int);
                assert(rest[0] == iv[i as int]);
                assert(rest.skip(1) =~= iv.skip(i + 1));
                assert(iv[i as int] == input@[i as int].deep_view());
            }
            let key_encoded = self.inner.key_codec.encode_start(&input[i].0, ops);
            let value_encoded = self.inner.element_codec.encode_start(&input[i].1, ops);
            builder = builder.add_key_result_value_result(key_encoded, value_encoded);
            i += 1;
        }
        proof {
            assert(iv.skip(input@.len() as int) =~= Seq::<
                (<K::Value as DeepView>::V, <V::Value as DeepView>::V),
            >::empty());
        }
        builder
    }

    open spec fn map_decode_spec(
        &self,
        entries: Seq<(Seq<char>, crate::json::JsonV)>,
        ops: JsonOps,
    ) -> DataResultV<Seq<(<K::Value as DeepView>::V, <V::Value as DeepView>::V)>> {
        self.inner.decode_entries_spec(entries, ops)
    }

    #[verifier::loop_isolation(false)]
    fn decode(&self, input: &MapLike, ops: &JsonOps) -> (r: DataResult<Vec<(K::Value, V::Value)>>) {
        let entries = input.entries();
        let ghost ev = input.entries_of();
        let mut read: Vec<(K::Value, V::Value)> = Vec::new();
        let mut result: DataResult<()> = DataResult::success_with_lifecycle(
            (),
            Lifecycle::Stable,
        );
        let ghost goal = self.inner.decode_fold(
            ev,
            *ops,
            Seq::empty(),
            DataResultV::Success { result: (), lifecycle: Lifecycle::Stable },
        );
        let mut i: usize = 0;
        proof {
            assert(ev.skip(0) =~= ev);
            assert(read.deep_view() =~= Seq::<
                (<K::Value as DeepView>::V, <V::Value as DeepView>::V),
            >::empty());
        }
        while i < entries.len()
            invariant
                i <= entries.len(),
                entries@.len() == ev.len(),
                forall|j: int|
                    0 <= j < entries@.len() ==> #[trigger] entries@[j].0.view_of()
                        == crate::json::JsonV::Str(ev[j].0) && entries@[j].1.view_of() == ev[j].1,
                self.inner.decode_fold(
                    ev.skip(i as int),
                    *ops,
                    read.deep_view(),
                    result.deep_view(),
                ) == goal,
            decreases entries.len() - i,
        {
            let ghost read0 = read.deep_view();
            let ghost res0 = result.deep_view();
            proof {
                let rest = ev.skip(i as int);
                assert(rest[0] == ev[i as int]);
                assert(rest.skip(1) =~= ev.skip(i + 1));
            }
            let key_result = self.inner.key_codec.parse(entries[i].0.clone(), ops);
            let element_result = self.inner.element_codec.parse(entries[i].1.clone(), ops);
            let both_success = key_result.is_success() && element_result.is_success();
            let ghost krv = key_result.deep_view();
            let ghost erv = element_result.deep_view();
            let (kp, km) = split_pair_parts(key_result);
            let (ep, em) = split_pair_parts(element_result);
            let merged = crate::data_result::merge_messages(km, em);
            let entry_result: DataResult<(K::Value, V::Value)> = match (kp, ep) {
                (Some(k), Some(e)) => {
                    if both_success {
                        DataResult::Success { result: (k, e), lifecycle: Lifecycle::Stable }
                    } else {
                        match merged {
                            Some(message) => DataResult::Error {
                                partial_result: Some((k, e)),
                                lifecycle: Lifecycle::Stable,
                                message,
                            },
                            None => vstd::pervasive::unreached(),
                        }
                    }
                },
                _ => {
                    match merged {
                        Some(message) => DataResult::Error {
                            partial_result: None,
                            lifecycle: Lifecycle::Stable,
                            message,
                        },
                        None => vstd::pervasive::unreached(),
                    }
                },
            };
            proof {
                assert(entry_result.deep_view() == krv.apply_pair(erv));
            }
            result = result.add_message(&entry_result);
            proof {
                assert(result.deep_view() == res0.add_message_v(entry_result.deep_view()));
            }
            match entry_result.into_result_or_partial() {
                Some(entry) => {
                    if contains_read_key::<K, V>(&read, &entry.0) {
                        let duplicate: DataResult<()> = DataResult::error(
                            String::from_str("Duplicate entry for key"),
                        );
                        result = result.add_message(&duplicate);
                    } else {
                        read.push(entry);
                        proof {
                            assert(read.deep_view() =~= read0.push(read@.last().deep_view()));
                        }
                    }
                },
                None => {},
            }
            i += 1;
        }
        proof {
            assert(ev.skip(entries@.len() as int) =~= Seq::<
                (Seq<char>, crate::json::JsonV),
            >::empty());
        }
        result.with_complete_or_partial(read)
    }
}

} // verus!
