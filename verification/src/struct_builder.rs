use crate::data_result::{merge_messages, merge_msg_opt, DataResult, DataResultV};
use crate::json::{JsonV, JsonValue};
use crate::json_ops::JsonOps;
use crate::key_compressor::KeyCompressor;
use crate::lifecycle::Lifecycle;
use vstd::prelude::*;
use vstd::string::StringExecFns;

verus! {

/// The first position of a key in a key table, if any.
pub open spec fn key_index(keys: Seq<Seq<char>>, k: Seq<char>) -> Option<int>
    decreases keys.len(),
{
    if keys.len() == 0 {
        None
    } else if keys[0] == k {
        Some(0int)
    } else {
        match key_index(keys.skip(1), k) {
            Some(i) => Some(i + 1),
            None => None,
        }
    }
}

/// When a key first occurs at position `j`, that is its `key_index`.
pub proof fn lemma_key_index_first(keys: Seq<Seq<char>>, k: Seq<char>, j: int)
    requires
        0 <= j < keys.len(),
        keys[j] == k,
        forall|p: int| 0 <= p < j ==> keys[p] != k,
    ensures
        key_index(keys, k) == Some(j),
    decreases j,
{
    if j > 0 {
        lemma_key_index_first(keys.skip(1), k, j - 1);
        assert(keys.skip(1)[j - 1] == keys[j]);
    }
}

/// A key that is nowhere in the table has no position.
pub proof fn lemma_key_index_none(keys: Seq<Seq<char>>, k: Seq<char>)
    requires
        forall|p: int| 0 <= p < keys.len() ==> keys[p] != k,
    ensures
        key_index(keys, k) is None,
    decreases keys.len(),
{
    if keys.len() > 0 {
        lemma_key_index_none(keys.skip(1), k);
    }
}

/// The position a key table assigns to a dynamic key: the key must read as a
/// string under the adapter, and that string must be in the table.
pub open spec fn compress_key_spec(keys: Seq<Seq<char>>, ops: JsonOps, k: JsonV) -> Option<int> {
    match ops.get_string_spec(k) {
        DataResultV::Success { result: s, .. } => key_index(keys, s),
        _ => None,
    }
}

/// Specification-level model of an [`EncoderStructBuilder`].
pub enum StructBuilderV {
    /// An ordinary builder accumulating key-value pairs.
    Normal { builder: DataResultV<Seq<(JsonV, JsonV)>>, ops: JsonOps },
    /// A compressed builder writing values at the positions its key table
    /// assigns.
    Compressed { builder: DataResultV<Seq<JsonV>>, ops: JsonOps, keys: Seq<Seq<char>> },
}

/// A pair pushed onto accumulated pairs: a complete or partial accumulation
/// receives the pair, an empty error stays as it is.
pub open spec fn nb_add(acc: DataResultV<Seq<(JsonV, JsonV)>>, key: JsonV, v: JsonV) -> DataResultV<
    Seq<(JsonV, JsonV)>,
> {
    match acc {
        DataResultV::Success { result, lifecycle } => DataResultV::Success {
            result: result.push((key, v)),
            lifecycle,
        },
        DataResultV::Error { partial_result: Some(s), lifecycle, message } => DataResultV::Error {
            partial_result: Some(s.push((key, v))),
            lifecycle,
            message,
        },
        e => e,
    }
}

/// A pair result folded into accumulated pairs with the applicative rules:
/// messages join, a value survives only when both sides hold one, and the
/// result is stable.
pub open spec fn nb_add_result(
    acc: DataResultV<Seq<(JsonV, JsonV)>>,
    key: JsonV,
    v: DataResultV<JsonV>,
) -> DataResultV<Seq<(JsonV, JsonV)>> {
    let merged = merge_msg_opt(acc.message_of(), v.message_of());
    match (acc.value_of(), v.value_of()) {
        (Some(s), Some(x)) => {
            if acc is Success && v is Success {
                DataResultV::Success { result: s.push((key, x)), lifecycle: Lifecycle::Stable }
            } else {
                DataResultV::Error {
                    partial_result: Some(s.push((key, x))),
                    lifecycle: Lifecycle::Stable,
                    message: merged->0,
                }
            }
        },
        _ => DataResultV::Error {
            partial_result: None,
            lifecycle: Lifecycle::Stable,
            message: merged->0,
        },
    }
}

/// A compressed write: the value lands at the position the key table assigns
/// to the key; a key outside the table writes nothing.
pub open spec fn cb_append(
    ops: JsonOps,
    keys: Seq<Seq<char>>,
    b: Seq<JsonV>,
    key: JsonV,
    v: JsonV,
) -> Seq<JsonV> {
    match compress_key_spec(keys, ops, key) {
        Some(i) => if 0 <= i < b.len() {
            b.update(i, v)
        } else {
            b
        },
        None => b,
    }
}

/// A compressed write applied through the accumulated result, keeping the
/// lifecycle.
pub open spec fn cb_add(
    ops: JsonOps,
    keys: Seq<Seq<char>>,
    acc: DataResultV<Seq<JsonV>>,
    key: JsonV,
    v: JsonV,
) -> DataResultV<Seq<JsonV>> {
    match acc {
        DataResultV::Success { result, lifecycle } => DataResultV::Success {
            result: cb_append(ops, keys, result, key, v),
            lifecycle,
        },
        DataResultV::Error { partial_result: Some(s), lifecycle, message } => DataResultV::Error {
            partial_result: Some(cb_append(ops, keys, s, key, v)),
            lifecycle,
            message,
        },
        e => e,
    }
}

/// A value result folded into a compressed builder with the applicative
/// rules.
pub open spec fn cb_add_result(
    ops: JsonOps,
    keys: Seq<Seq<char>>,
    acc: DataResultV<Seq<JsonV>>,
    key: JsonV,
    v: DataResultV<JsonV>,
) -> DataResultV<Seq<JsonV>> {
    let merged = merge_msg_opt(acc.message_of(), v.message_of());
    match (acc.value_of(), v.value_of()) {
        (Some(s), Some(x)) => {
            if acc is Success && v is Success {
                DataResultV::Success {
                    result: cb_append(ops, keys, s, key, x),
                    lifecycle: Lifecycle::Stable,
                }
            } else {
                DataResultV::Error {
                    partial_result: Some(cb_append(ops, keys, s, key, x)),
                    lifecycle: Lifecycle::Stable,
                    message: merged->0,
                }
            }
        },
        _ => DataResultV::Error {
            partial_result: None,
            lifecycle: Lifecycle::Stable,
            message: merged->0,
        },
    }
}

impl StructBuilderV {
    /// The adapter this builder assembles for.
    pub open spec fn ops_of(self) -> JsonOps {
        match self {
            StructBuilderV::Normal { ops, .. } => ops,
            StructBuilderV::Compressed { ops, .. } => ops,
        }
    }

    /// A dynamic key paired with a plain value, folded into the builder.
    pub open spec fn add_key_value_v(self, key: JsonV, v: JsonV) -> Self {
        match self {
            StructBuilderV::Normal { builder, ops } => StructBuilderV::Normal {
                builder: nb_add(builder, key, v),
                ops,
            },
            StructBuilderV::Compressed { builder, ops, keys } => StructBuilderV::Compressed {
                builder: cb_add(ops, keys, builder, key, v),
                ops,
                keys,
            },
        }
    }

    /// A dynamic key paired with a value result, folded into the builder.
    pub open spec fn add_key_value_result_v(self, key: JsonV, v: DataResultV<JsonV>) -> Self {
        match self {
            StructBuilderV::Normal { builder, ops } => StructBuilderV::Normal {
                builder: nb_add_result(builder, key, v),
                ops,
            },
            StructBuilderV::Compressed { builder, ops, keys } => StructBuilderV::Compressed {
                builder: cb_add_result(ops, keys, builder, key, v),
                ops,
                keys,
            },
        }
    }

    /// A string key paired with a plain value, folded into the builder.
    pub open spec fn add_string_key_value_v(self, key: Seq<char>, v: JsonV) -> Self {
        self.add_key_value_v(JsonV::Str(key), v)
    }

    /// A string key paired with a value result, folded into the builder.
    pub open spec fn add_string_key_value_result_v(
        self,
        key: Seq<char>,
        v: DataResultV<JsonV>,
    ) -> Self {
        self.add_key_value_result_v(JsonV::Str(key), v)
    }

    /// The builder with its lifecycle replaced.
    pub open spec fn set_lifecycle_v(self, lifecycle: Lifecycle) -> Self {
        match self {
            StructBuilderV::Normal { builder, ops } => StructBuilderV::Normal {
                builder: builder.with_lifecycle_v(lifecycle),
                ops,
            },
            StructBuilderV::Compressed { builder, ops, keys } => StructBuilderV::Compressed {
                builder: builder.with_lifecycle_v(lifecycle),
                ops,
                keys,
            },
        }
    }

    /// The message of another result folded into the builder.
    pub open spec fn with_errors_from_v<T>(self, other: DataResultV<T>) -> Self {
        match self {
            StructBuilderV::Normal { builder, ops } => StructBuilderV::Normal {
                builder: builder.add_message_v(other),
                ops,
            },
            StructBuilderV::Compressed { builder, ops, keys } => StructBuilderV::Compressed {
                builder: builder.add_message_v(other),
                ops,
                keys,
            },
        }
    }

    /// A pair of key and value results folded into the builder: the two
    /// results combine first, and whatever value they yield lands while
    /// their errors accumulate.
    pub open spec fn add_pair_results_v(
        self,
        key: DataResultV<JsonV>,
        v: DataResultV<JsonV>,
    ) -> Self {
        let inner = key.apply_pair(v);
        match inner.value_of() {
            Some(kv) => self.add_key_value_result_v(kv.0, inner.with_complete_or_partial_v(kv.1)),
            None => self.with_errors_from_v(inner),
        }
    }

    /// The final value this builder assembles over a prefix.
    pub open spec fn build_v(self, prefix: JsonV) -> DataResultV<JsonV> {
        match self {
            StructBuilderV::Normal { builder, ops } => match builder.value_of() {
                Some(pairs) => builder.flat_map_step(
                    ops.merge_entries_fold(crate::data_result::success_v(prefix), pairs),
                ),
                None => builder.flat_map_step(arbitrary::<DataResultV<JsonV>>()),
            },
            StructBuilderV::Compressed { builder, ops, .. } => match builder.value_of() {
                Some(items) => builder.flat_map_step(
                    ops.merge_values_into_list_spec(prefix, items),
                ),
                None => builder.flat_map_step(arbitrary::<DataResultV<JsonV>>()),
            },
        }
    }
}

/// A builder assembling an ordinary map from key-value pairs.
pub struct MapBuilder {
    /// The pairs collected so far, or the error met while collecting.
    pub builder: DataResult<Vec<(JsonValue, JsonValue)>>,
    /// The adapter that assembles the final map.
    pub ops: JsonOps,
}

impl MapBuilder {
    /// Returns a fresh, stable, empty builder.
    pub fn new(ops: &JsonOps) -> (r: Self)
        ensures
            r.builder.deep_view() == (DataResultV::Success {
                result: Seq::<(JsonV, JsonV)>::empty(),
                lifecycle: Lifecycle::Stable,
            }),
            r.ops == *ops,
    {
        let r = MapBuilder {
            builder: DataResult::success_with_lifecycle(Vec::new(), Lifecycle::Stable),
            ops: *ops,
        };
        proof {
            assert(r.builder.deep_view().value_of()->0 =~= Seq::<(JsonV, JsonV)>::empty());
        }
        r
    }
}

/// A builder assembling a compressed map: a list whose positions stand for
/// the keys of a [`KeyCompressor`] table.
pub struct CompressedStructBuilder {
    /// The positional values collected so far.
    pub builder: DataResult<Vec<JsonValue>>,
    /// The adapter that assembles the final list.
    pub ops: JsonOps,
    /// The table assigning a position to each key of the schema.
    pub compressor: KeyCompressor,
}

impl CompressedStructBuilder {
    /// Returns a fresh builder whose positions all hold the empty value.
    pub fn new(ops: &JsonOps, compressor: KeyCompressor) -> (r: Self)
        ensures
            r.builder.deep_view() == (DataResultV::Success {
                result: Seq::new(compressor.keys_of().len(), |i: int| JsonV::Null),
                lifecycle: Lifecycle::Stable,
            }),
            r.ops == *ops,
            r.compressor == compressor,
    {
        let n = compressor.size();
        let mut slots: Vec<JsonValue> = Vec::new();
        let mut i: usize = 0;
        while i < n
            invariant
                i <= n,
                slots@.len() == i,
                forall|j: int| 0 <= j < i ==> #[trigger] slots@[j].view_of() == JsonV::Null,
            decreases n - i,
        {
            slots.push(JsonValue::Null);
            i += 1;
        }
        let r = CompressedStructBuilder {
            builder: DataResult::success_with_lifecycle(slots, Lifecycle::Stable),
            ops: *ops,
            compressor,
        };
        proof {
            assert(r.builder.deep_view().value_of()->0 =~= Seq::new(
                compressor.keys_of().len(),
                |i: int| JsonV::Null,
            ));
        }
        r
    }

}

/// Writes a value at the position the key table assigns to a dynamic key; a
/// key outside the table writes nothing.
fn compressed_append(
    ops: &JsonOps,
    compressor: &KeyCompressor,
    key: &JsonValue,
    value: JsonValue,
    slots: Vec<JsonValue>,
) -> (r: Vec<JsonValue>)
    requires
        compressor.wf(),
    ensures
        r.deep_view() == cb_append(
            *ops,
            compressor.keys_of(),
            slots.deep_view(),
            key.view_of(),
            value.view_of(),
        ),
{
    {
        let ghost keys = compressor.keys_of();
        let key_string = match ops.get_string(key) {
            DataResult::Success { result, .. } => result,
            _ => {
                return slots;
            },
        };
        match compressor.compress_key_str(key_string.as_str()) {
            Some(i) => {
                proof {
                    lemma_key_index_first(keys, key_string@, i as int);
                }
                if i < slots.len() {
                    let mut slots = slots;
                    let ghost before = slots.deep_view();
                    slots.set(i, value);
                    proof {
                        assert(slots.deep_view() =~= before.update(
                            i as int,
                            value.view_of(),
                        ));
                    }
                    slots
                } else {
                    slots
                }
            },
            None => {
                proof {
                    lemma_key_index_none(keys, key_string@);
                }
                slots
            },
        }
    }
}

/// The builder a map-shaped encoder writes into: the ordinary pair-collecting
/// form, or the compressed positional form when the adapter packs maps as
/// lists.
pub enum EncoderStructBuilder {
    Normal(MapBuilder),
    Compressed(CompressedStructBuilder),
}

impl EncoderStructBuilder {
    /// The model of this builder.
    pub open spec fn view_of(self) -> StructBuilderV {
        match self {
            EncoderStructBuilder::Normal(b) => StructBuilderV::Normal {
                builder: b.builder.deep_view(),
                ops: b.ops,
            },
            EncoderStructBuilder::Compressed(b) => StructBuilderV::Compressed {
                builder: b.builder.deep_view(),
                ops: b.ops,
                keys: b.compressor.keys_of(),
            },
        }
    }

    /// A compressed builder carries a well-formed key table.
    pub open spec fn wf(self) -> bool {
        match self {
            EncoderStructBuilder::Normal(_) => true,
            EncoderStructBuilder::Compressed(b) => b.compressor.wf(),
        }
    }

    /// Adds a single key-value pair to this builder.
    #[must_use]
    pub fn add_key_value(self, key: JsonValue, value: JsonValue) -> (r: Self)
        requires
            self.wf(),
        ensures
            r.view_of() == self.view_of().add_key_value_v(key.view_of(), value.view_of()),
            r.wf(),
    {
        match self {
            EncoderStructBuilder::Normal(b) => {
                let ops = b.ops;
                let builder = match b.builder {
                    DataResult::Success { result, lifecycle } => {
                        let mut result = result;
                        let ghost before = result.deep_view();
                        result.push((key, value));
                        proof {
                            assert(result.deep_view() =~= before.push(
                                (key.view_of(), value.view_of()),
                            ));
                        }
                        DataResult::Success { result, lifecycle }
                    },
                    DataResult::Error { partial_result: Some(s), lifecycle, message } => {
                        let mut s = s;
                        let ghost before = s.deep_view();
                        s.push((key, value));
                        proof {
                            assert(s.deep_view() =~= before.push(
                                (key.view_of(), value.view_of()),
                            ));
                        }
                        DataResult::Error { partial_result: Some(s), lifecycle, message }
                    },
                    e => e,
                };
                EncoderStructBuilder::Normal(MapBuilder { builder, ops })
            },
            EncoderStructBuilder::Compressed(b) => {
                let CompressedStructBuilder { builder, ops, compressor } = b;
                let builder = match builder {
                    DataResult::Success { result, lifecycle } => {
                        let result = compressed_append(&ops, &compressor, &key, value, result);
                        DataResult::Success { result, lifecycle }
                    },
                    DataResult::Error { partial_result: Some(s), lifecycle, message } => {
                        let s = compressed_append(&ops, &compressor, &key, value, s);
                        DataResult::Error { partial_result: Some(s), lifecycle, message }
                    },
                    e => e,
                };
                EncoderStructBuilder::Compressed(
                    CompressedStructBuilder { builder, ops, compressor },
                )
            },
        }
    }

    /// Adds a single key-'value result' pair to this builder.
    #[must_use]
    pub fn add_key_value_result(self, key: JsonValue, value: DataResult<JsonValue>) -> (r: Self)
        requires
            self.wf(),
        ensures
            r.view_of() == self.view_of().add_key_value_result_v(key.view_of(), value.deep_view()),
            r.wf(),
    {
        match self {
            EncoderStructBuilder::Normal(b) => {
                let ops = b.ops;
                let both_success = b.builder.is_success() && value.is_success();
                let (s, m1) = split_pairs(b.builder);
                let (x, m2) = split_value(value);
                let merged = merge_messages(m1, m2);
                let builder = match (s, x) {
                    (Some(s), Some(x)) => {
                        let mut s = s;
                        let ghost before = s.deep_view();
                        let ghost xv = x.view_of();
                        let ghost kv = key.view_of();
                        s.push((key, x));
                        proof {
                            assert(s.deep_view() =~= before.push((kv, xv)));
                        }
                        if both_success {
                            DataResult::Success { result: s, lifecycle: Lifecycle::Stable }
                        } else {
                            match merged {
                                Some(message) => DataResult::Error {
                                    partial_result: Some(s),
                                    lifecycle: Lifecycle::Stable,
                                    message,
                                },
                                None => vstd::pervasive::unreached(),
                            }
                        }
                    },
                    _ => {
                        match merged {
                            Some(message) => DataResult::Error {
                                partial_result: None,
                                lifecycle: Lifecycle::Stable,
                                message,
                            },
                            None => vstd::pervasive::unreached(),
                        }
                    },
                };
                EncoderStructBuilder::Normal(MapBuilder { builder, ops })
            },
            EncoderStructBuilder::Compressed(b) => {
                let CompressedStructBuilder { builder: b_builder, ops, compressor } = b;
                let both_success = b_builder.is_success() && value.is_success();
                let (s, m1) = split_slots(b_builder);
                let (x, m2) = split_value(value);
                let merged = merge_messages(m1, m2);
                let builder = match (s, x) {
                    (Some(s), Some(x)) => {
                        let s = compressed_append(&ops, &compressor, &key, x, s);
                        if both_success {
                            DataResult::Success { result: s, lifecycle: Lifecycle::Stable }
                        } else {
                            match merged {
                                Some(message) => DataResult::Error {
                                    partial_result: Some(s),
                                    lifecycle: Lifecycle::Stable,
                                    message,
                                },
                                None => vstd::pervasive::unreached(),
                            }
                        }
                    },
                    _ => {
                        match merged {
                            Some(message) => DataResult::Error {
                                partial_result: None,
                                lifecycle: Lifecycle::Stable,
                                message,
                            },
                            None => vstd::pervasive::unreached(),
                        }
                    },
                };
                EncoderStructBuilder::Compressed(
                    CompressedStructBuilder { builder, ops, compressor },
                )
            },
        }
    }

    /// Adds a string key-value pair to this builder.
    #[must_use]
    pub fn add_string_key_value(self, key: &str, value: JsonValue) -> (r: Self)
        requires
            self.wf(),
        ensures
            r.view_of() == self.view_of().add_string_key_value_v(key@, value.view_of()),
            r.wf(),
    {
        self.add_key_value(JsonValue::Str(String::from_str(key)), value)
    }

    /// Adds a string key-'value result' pair to this builder.
    #[must_use]
    pub fn add_string_key_value_result(self, key: &str, value: DataResult<JsonValue>) -> (r: Self)
        requires
            self.wf(),
        ensures
            r.view_of() == self.view_of().add_string_key_value_result_v(key@, value.deep_view()),
            r.wf(),
    {
        self.add_key_value_result(JsonValue::Str(String::from_str(key)), value)
    }

    /// Adds a 'key result'-'value result' pair to this builder: the keys and
    /// values that are present land, the errors accumulate.
    #[must_use]
    pub fn add_key_result_value_result(
        self,
        key: DataResult<JsonValue>,
        value: DataResult<JsonValue>,
    ) -> (r: Self)
        requires
            self.wf(),
        ensures
            r.view_of() == self.view_of().add_pair_results_v(key.deep_view(), value.deep_view()),
            r.wf(),
    {
        let both_success = key.is_success() && value.is_success();
        let ghost kv0 = key.deep_view();
        let ghost vv0 = value.deep_view();
        let (k, m1) = split_value(key);
        let (v, m2) = split_value(value);
        let merged = merge_messages(m1, m2);
        match (k, v) {
            (Some(k), Some(v)) => {
                let inner_value = if both_success {
                    DataResult::Success { result: v, lifecycle: Lifecycle::Stable }
                } else {
                    match merged {
                        Some(message) => DataResult::Error {
                            partial_result: Some(v),
                            lifecycle: Lifecycle::Stable,
                            message,
                        },
                        None => vstd::pervasive::unreached(),
                    }
                };
                self.add_key_value_result(k, inner_value)
            },
            _ => {
                match merged {
                    Some(message) => {
                        let inner: DataResult<JsonValue> = DataResult::Error {
                            partial_result: None,
                            lifecycle: Lifecycle::Stable,
                            message,
                        };
                        self.with_errors_from(&inner)
                    },
                    None => vstd::pervasive::unreached(),
                }
            },
        }
    }

    /// Folds the error message of a provided result (if any) into this
    /// builder.
    #[must_use]
    pub fn with_errors_from<T: DeepView>(self, result: &DataResult<T>) -> (r: Self)
        ensures
            r.view_of() == self.view_of().with_errors_from_v(result.deep_view()),
            r.wf() == self.wf(),
    {
        match self {
            EncoderStructBuilder::Normal(b) => {
                let builder = b.builder.add_message(result);
                EncoderStructBuilder::Normal(MapBuilder { builder, ops: b.ops })
            },
            EncoderStructBuilder::Compressed(b) => {
                let builder = b.builder.add_message(result);
                EncoderStructBuilder::Compressed(
                    CompressedStructBuilder { builder, ops: b.ops, compressor: b.compressor },
                )
            },
        }
    }

    /// Sets the lifecycle of this builder.
    #[must_use]
    pub fn set_lifecycle(self, lifecycle: Lifecycle) -> (r: Self)
        ensures
            r.view_of() == self.view_of().set_lifecycle_v(lifecycle),
            r.wf() == self.wf(),
    {
        match self {
            EncoderStructBuilder::Normal(b) => {
                let builder = b.builder.with_lifecycle(lifecycle);
                EncoderStructBuilder::Normal(MapBuilder { builder, ops: b.ops })
            },
            EncoderStructBuilder::Compressed(b) => {
                let builder = b.builder.with_lifecycle(lifecycle);
                EncoderStructBuilder::Compressed(
                    CompressedStructBuilder { builder, ops: b.ops, compressor: b.compressor },
                )
            },
        }
    }

    /// Builds the map (or packed list) stored in this builder over a prefix.
    pub fn build(self, prefix: JsonValue) -> (r: DataResult<JsonValue>)
        ensures
            r.deep_view() == self.view_of().build_v(prefix.view_of()),
    {
        match self {
            EncoderStructBuilder::Normal(b) => {
                let ops = b.ops;
                match b.builder {
                    DataResult::Success { result, lifecycle } => {
                        proof {
                            lemma_pair_views_is_deep_view(result);
                        }
                        ops.merge_entries_into_map(prefix, result).add_lifecycle(lifecycle)
                    },
                    DataResult::Error { partial_result: Some(s), lifecycle, message } => {
                        proof {
                            lemma_pair_views_is_deep_view(s);
                        }
                        let second = ops.merge_entries_into_map(prefix, s);
                        let combined = second.lifecycle().add(lifecycle);
                        match second {
                            DataResult::Success { result, .. } => DataResult::Error {
                                partial_result: Some(result),
                                message,
                                lifecycle: combined,
                            },
                            DataResult::Error {
                                partial_result,
                                message: second_message,
                                ..
                            } => DataResult::Error {
                                partial_result,
                                message: DataResult::<JsonValue>::append_messages(
                                    message.as_str(),
                                    second_message.as_str(),
                                ),
                                lifecycle: combined,
                            },
                        }
                    },
                    DataResult::Error { partial_result: None, lifecycle, message } => DataResult::Error {
                        partial_result: None,
                        lifecycle,
                        message,
                    },
                }
            },
            EncoderStructBuilder::Compressed(b) => {
                let ops = b.ops;
                match b.builder {
                    DataResult::Success { result, lifecycle } => {
                        proof {
                            crate::json::lemma_arr_view_is_deep_view(result);
                        }
                        ops.merge_values_into_list(prefix, result).add_lifecycle(lifecycle)
                    },
                    DataResult::Error { partial_result: Some(s), lifecycle, message } => {
                        proof {
                            crate::json::lemma_arr_view_is_deep_view(s);
                        }
                        let second = ops.merge_values_into_list(prefix, s);
                        let combined = second.lifecycle().add(lifecycle);
                        match second {
                            DataResult::Success { result, .. } => DataResult::Error {
                                partial_result: Some(result),
                                message,
                                lifecycle: combined,
                            },
                            DataResult::Error {
                                partial_result,
                                message: second_message,
                                ..
                            } => DataResult::Error {
                                partial_result,
                                message: DataResult::<JsonValue>::append_messages(
                                    message.as_str(),
                                    second_message.as_str(),
                                ),
                                lifecycle: combined,
                            },
                        }
                    },
                    DataResult::Error { partial_result: None, lifecycle, message } => DataResult::Error {
                        partial_result: None,
                        lifecycle,
                        message,
                    },
                }
            },
        }
    }
}

/// The pair views of a pair vector are its deep view.
proof fn lemma_pair_views_is_deep_view(v: Vec<(JsonValue, JsonValue)>)
    ensures
        crate::json_ops::pair_views(v@) == v.deep_view(),
{
    assert(crate::json_ops::pair_views(v@) =~= v.deep_view());
}

/// Splits a pair collection into its value and its message.
fn split_pairs(r: DataResult<Vec<(JsonValue, JsonValue)>>) -> (out: (
    Option<Vec<(JsonValue, JsonValue)>>,
    Option<String>,
))
    ensures
        match out.0 {
            Some(s) => r.deep_view().value_of() == Some(s.deep_view()),
            None => r.deep_view().value_of() is None,
        },
        crate::data_result::msg_opt_seq(out.1) == r.deep_view().message_of(),
        out.1 is None ==> out.0 is Some,
{
    match r {
        DataResult::Success { result, .. } => (Some(result), None),
        DataResult::Error { partial_result, message, .. } => (partial_result, Some(message)),
    }
}

/// Splits a slot collection into its value and its message.
fn split_slots(r: DataResult<Vec<JsonValue>>) -> (out: (Option<Vec<JsonValue>>, Option<String>))
    ensures
        match out.0 {
            Some(s) => r.deep_view().value_of() == Some(s.deep_view()),
            None => r.deep_view().value_of() is None,
        },
        crate::data_result::msg_opt_seq(out.1) == r.deep_view().message_of(),
        out.1 is None ==> out.0 is Some,
{
    match r {
        DataResult::Success { result, .. } => (Some(result), None),
        DataResult::Error { partial_result, message, .. } => (partial_result, Some(message)),
    }
}

/// Splits a value result into its value and its message.
fn split_value(r: DataResult<JsonValue>) -> (out: (Option<JsonValue>, Option<String>))
    ensures
        match out.0 {
            Some(s) => r.deep_view().value_of() == Some(s.view_of()),
            None => r.deep_view().value_of() is None,
        },
        crate::data_result::msg_opt_seq(out.1) == r.deep_view().message_of(),
        out.1 is None ==> out.0 is Some,
{
    match r {
        DataResult::Success { result, .. } => (Some(result), None),
        DataResult::Error { partial_result, message, .. } => (partial_result, Some(message)),
    }
}

} // verus!
