use crate::data_result::{
    merge_messages, merge_msg_opt, msg_opt_seq, DataResult, DataResultV,
};
use crate::json::JsonV;
use crate::json_ops::JsonOps;
use crate::key_compressor::str_views;
use crate::lifecycle::Lifecycle;
use crate::map_codec::{MapCodec, MapCodecCodec};
use crate::map_like::MapLike;
use crate::coders::HasValue;
use crate::struct_builder::{EncoderStructBuilder, StructBuilderV};
use vstd::prelude::*;

verus! {

/// How a struct codec reads one field out of a record for encoding.
pub trait FieldGetter {
    type Record: DeepView;

    type Field: DeepView;

    /// The field this getter reads, at the specification level.
    spec fn get_spec(&self, record: <Self::Record as DeepView>::V) -> <Self::Field as DeepView>::V;

    /// Reads the field out of a record.
    fn get<'a>(&self, record: &'a Self::Record) -> (r: &'a Self::Field)
        ensures
            r.deep_view() == self.get_spec(record.deep_view()),
    ;
}

/// How a struct codec of one field rebuilds a record while decoding.
pub trait RecordCtor1 {
    type V1: DeepView;

    type Record: DeepView;

    /// The record built from the field, at the specification level.
    spec fn make_spec(&self, v1: <Self::V1 as DeepView>::V) -> <Self::Record as DeepView>::V;

    /// Builds the record from the decoded field.
    fn make(&self, v1: Self::V1) -> (r: Self::Record)
        ensures
            r.deep_view() == self.make_spec(v1.deep_view()),
    ;
}

/// How a struct codec of two fields rebuilds a record while decoding.
pub trait RecordCtor2 {
    type V1: DeepView;

    type V2: DeepView;

    type Record: DeepView;

    /// The record built from the fields, at the specification level.
    spec fn make_spec(
        &self,
        v1: <Self::V1 as DeepView>::V,
        v2: <Self::V2 as DeepView>::V,
    ) -> <Self::Record as DeepView>::V;

    /// Builds the record from the decoded fields.
    fn make(&self, v1: Self::V1, v2: Self::V2) -> (r: Self::Record)
        ensures
            r.deep_view() == self.make_spec(v1.deep_view(), v2.deep_view()),
    ;
}

/// How a struct codec of three fields rebuilds a record while decoding.
pub trait RecordCtor3 {
    type V1: DeepView;

    type V2: DeepView;

    type V3: DeepView;

    type Record: DeepView;

    /// The record built from the fields, at the specification level.
    spec fn make_spec(
        &self,
        v1: <Self::V1 as DeepView>::V,
        v2: <Self::V2 as DeepView>::V,
        v3: <Self::V3 as DeepView>::V,
    ) -> <Self::Record as DeepView>::V;

    /// Builds the record from the decoded fields.
    fn make(&self, v1: Self::V1, v2: Self::V2, v3: Self::V3) -> (r: Self::Record)
        ensures
            r.deep_view() == self.make_spec(v1.deep_view(), v2.deep_view(), v3.deep_view()),
    ;
}

/// How a struct codec of four fields rebuilds a record while decoding.
pub trait RecordCtor4 {
    type V1: DeepView;

    type V2: DeepView;

    type V3: DeepView;

    type V4: DeepView;

    type Record: DeepView;

    /// The record built from the fields, at the specification level.
    spec fn make_spec(
        &self,
        v1: <Self::V1 as DeepView>::V,
        v2: <Self::V2 as DeepView>::V,
        v3: <Self::V3 as DeepView>::V,
        v4: <Self::V4 as DeepView>::V,
    ) -> <Self::Record as DeepView>::V;

    /// Builds the record from the decoded fields.
    fn make(&self, v1: Self::V1, v2: Self::V2, v3: Self::V3, v4: Self::V4) -> (r: Self::Record)
        ensures
            r.deep_view() == self.make_spec(
                v1.deep_view(),
                v2.deep_view(),
                v3.deep_view(),
                v4.deep_view(),
            ),
    ;
}

/// How a struct codec of five fields rebuilds a record while decoding.
pub trait RecordCtor5 {
    type V1: DeepView;

    type V2: DeepView;

    type V3: DeepView;

    type V4: DeepView;

    type V5: DeepView;

    type Record: DeepView;

    /// The record built from the fields, at the specification level.
    spec fn make_spec(
        &self,
        v1: <Self::V1 as DeepView>::V,
        v2: <Self::V2 as DeepView>::V,
        v3: <Self::V3 as DeepView>::V,
        v4: <Self::V4 as DeepView>::V,
        v5: <Self::V5 as DeepView>::V,
    ) -> <Self::Record as DeepView>::V;

    /// Builds the record from the decoded fields.
    fn make(&self, v1: Self::V1, v2: Self::V2, v3: Self::V3, v4: Self::V4, v5: Self::V5) -> (r:
        Self::Record)
        ensures
            r.deep_view() == self.make_spec(
                v1.deep_view(),
                v2.deep_view(),
                v3.deep_view(),
                v4.deep_view(),
                v5.deep_view(),
            ),
    ;
}

/// A single field of a struct codec: a map codec for the field's value
/// paired with a getter that reads the field out of a record.
pub struct Field<C, G> {
    /// The map codec for the field.
    pub map_codec: C,
    /// The getter reading the field out of a record.
    pub getter: G,
}

/// Pairs a map codec with a getter, making a [`Field`] of a struct codec.
pub fn for_getter<C: MapCodec, G: FieldGetter<Field = C::Value>>(map_codec: C, getter: G) -> (r:
    Field<C, G>)
    ensures
        r.map_codec == map_codec,
        r.getter == getter,
{
    Field { map_codec, getter }
}

/// Splits a decode result into its value and its message.
fn split_result<V: DeepView>(r: DataResult<V>) -> (out: (Option<V>, Option<String>))
    ensures
        match out.0 {
            Some(v) => r.deep_view().value_of() == Some(v.deep_view()),
            None => r.deep_view().value_of() is None,
        },
        msg_opt_seq(out.1) == r.deep_view().message_of(),
        out.1 is None ==> out.0 is Some,
{
    match r {
        DataResult::Success { result, .. } => (Some(result), None),
        DataResult::Error { partial_result, message, .. } => (partial_result, Some(message)),
    }
}

/// One decode result mapped through the record constructor: the applicative
/// of a single field.
pub open spec fn apply1_v<V1, T>(r1: DataResultV<V1>, f: spec_fn(V1) -> T) -> DataResultV<T> {
    match r1 {
        DataResultV::Success { result, lifecycle } => DataResultV::Success {
            result: f(result),
            lifecycle,
        },
        DataResultV::Error { partial_result, lifecycle, message } => DataResultV::Error {
            partial_result: match partial_result {
                Some(p) => Some(f(p)),
                None => None,
            },
            lifecycle,
            message,
        },
    }
}

/// Two decode results combined by the applicative rules: messages join in
/// input order, a value is built exactly when every input holds one, and the
/// result is a success exactly when every input is.
pub open spec fn apply2_v<V1, V2, T>(
    r1: DataResultV<V1>,
    r2: DataResultV<V2>,
    f: spec_fn(V1, V2) -> T,
) -> DataResultV<T> {
    let merged = merge_msg_opt(r1.message_of(), r2.message_of());
    match (r1.value_of(), r2.value_of()) {
        (Some(a), Some(b)) => {
            if r1 is Success && r2 is Success {
                DataResultV::Success { result: f(a, b), lifecycle: Lifecycle::Experimental }
            } else {
                DataResultV::Error {
                    partial_result: Some(f(a, b)),
                    lifecycle: Lifecycle::Experimental,
                    message: merged->0,
                }
            }
        },
        _ => DataResultV::Error {
            partial_result: None,
            lifecycle: Lifecycle::Experimental,
            message: merged->0,
        },
    }
}

/// Three decode results combined by the applicative rules.
pub open spec fn apply3_v<V1, V2, V3, T>(
    r1: DataResultV<V1>,
    r2: DataResultV<V2>,
    r3: DataResultV<V3>,
    f: spec_fn(V1, V2, V3) -> T,
) -> DataResultV<T> {
    let merged = merge_msg_opt(
        merge_msg_opt(r1.message_of(), r2.message_of()),
        r3.message_of(),
    );
    match (r1.value_of(), r2.value_of(), r3.value_of()) {
        (Some(a), Some(b), Some(c)) => {
            if r1 is Success && r2 is Success && r3 is Success {
                DataResultV::Success { result: f(a, b, c), lifecycle: Lifecycle::Experimental }
            } else {
                DataResultV::Error {
                    partial_result: Some(f(a, b, c)),
                    lifecycle: Lifecycle::Experimental,
                    message: merged->0,
                }
            }
        },
        _ => DataResultV::Error {
            partial_result: None,
            lifecycle: Lifecycle::Experimental,
            message: merged->0,
        },
    }
}

/// Four decode results combined by the applicative rules.
pub open spec fn apply4_v<V1, V2, V3, V4, T>(
    r1: DataResultV<V1>,
    r2: DataResultV<V2>,
    r3: DataResultV<V3>,
    r4: DataResultV<V4>,
    f: spec_fn(V1, V2, V3, V4) -> T,
) -> DataResultV<T> {
    let merged = merge_msg_opt(
        merge_msg_opt(merge_msg_opt(r1.message_of(), r2.message_of()), r3.message_of()),
        r4.message_of(),
    );
    match (r1.value_of(), r2.value_of(), r3.value_of(), r4.value_of()) {
        (Some(a), Some(b), Some(c), Some(d)) => {
            if r1 is Success && r2 is Success && r3 is Success && r4 is Success {
                DataResultV::Success {
                    result: f(a, b, c, d),
                    lifecycle: Lifecycle::Experimental,
                }
            } else {
                DataResultV::Error {
                    partial_result: Some(f(a, b, c, d)),
                    lifecycle: Lifecycle::Experimental,
                    message: merged->0,
                }
            }
        },
        _ => DataResultV::Error {
            partial_result: None,
            lifecycle: Lifecycle::Experimental,
            message: merged->0,
        },
    }
}

/// Five decode results combined by the applicative rules.
pub open spec fn apply5_v<V1, V2, V3, V4, V5, T>(
    r1: DataResultV<V1>,
    r2: DataResultV<V2>,
    r3: DataResultV<V3>,
    r4: DataResultV<V4>,
    r5: DataResultV<V5>,
    f: spec_fn(V1, V2, V3, V4, V5) -> T,
) -> DataResultV<T> {
    let merged = merge_msg_opt(
        merge_msg_opt(
            merge_msg_opt(merge_msg_opt(r1.message_of(), r2.message_of()), r3.message_of()),
            r4.message_of(),
        ),
        r5.message_of(),
    );
    match (r1.value_of(), r2.value_of(), r3.value_of(), r4.value_of(), r5.value_of()) {
        (Some(a), Some(b), Some(c), Some(d), Some(e)) => {
            if r1 is Success && r2 is Success && r3 is Success && r4 is Success
                && r5 is Success {
                DataResultV::Success {
                    result: f(a, b, c, d, e),
                    lifecycle: Lifecycle::Experimental,
                }
            } else {
                DataResultV::Error {
                    partial_result: Some(f(a, b, c, d, e)),
                    lifecycle: Lifecycle::Experimental,
                    message: merged->0,
                }
            }
        },
        _ => DataResultV::Error {
            partial_result: None,
            lifecycle: Lifecycle::Experimental,
            message: merged->0,
        },
    }
}

/// Appends the second key list to the first.
pub(crate) fn concat_keys(out: &mut Vec<String>, more: &Vec<String>)
    ensures
        str_views(final(out)@) == str_views(old(out)@) + str_views(more@),
{
    let ghost first = out@;
    let mut i: usize = 0;
    while i < more.len()
        invariant
            i <= more.len(),
            out@.len() == first.len() + i,
            forall|j: int| 0 <= j < first.len() ==> out@[j] == first[j],
            forall|j: int| 0 <= j < i ==> #[trigger] out@[first.len() + j]@ == more@[j]@,
        decreases more.len() - i,
    {
        out.push(more[i].clone());
        i += 1;
    }
    proof {
        assert forall|k: int| 0 <= k < out@.len() implies str_views(out@)[k] == (str_views(first)
            + str_views(more@))[k] by {
            if k < first.len() {
            } else {
                let j = k - first.len();
                assert(out@[first.len() + j]@ == more@[j]@);
            }
        }
        assert(str_views(out@) =~= str_views(first) + str_views(more@));
    }
}

/// A map codec for a record with one rigid field.
pub struct StructMapCodec1<C1: MapCodec, G1, F> {
    pub field_1: Field<C1, G1>,
    pub apply_function: F,
}

/// Returns a struct codec with one field.
pub fn struct_1<
    C1: MapCodec,
    G1: FieldGetter<Field = C1::Value>,
    F: RecordCtor1<V1 = C1::Value, Record = G1::Record>,
>(field_1: Field<C1, G1>, f: F) -> (r: MapCodecCodec<StructMapCodec1<C1, G1, F>>)
    ensures
        r.map_codec.field_1 == field_1,
        r.map_codec.apply_function == f,
{
    MapCodecCodec::new(StructMapCodec1 { field_1, apply_function: f })
}

impl<
    C1: MapCodec,
    G1: FieldGetter<Field = C1::Value>,
    F: RecordCtor1<V1 = C1::Value, Record = G1::Record>,
> HasValue for StructMapCodec1<C1, G1, F> {
    type Value = G1::Record;
}

impl<
    C1: MapCodec,
    G1: FieldGetter<Field = C1::Value>,
    F: RecordCtor1<V1 = C1::Value, Record = G1::Record>,
> MapCodec for StructMapCodec1<C1, G1, F> {
    open spec fn keys_spec(&self) -> Seq<Seq<char>> {
        self.field_1.map_codec.keys_spec()
    }

    fn keys(&self) -> (r: Vec<String>) {
        self.field_1.map_codec.keys()
    }

    open spec fn map_encode_spec(
        &self,
        input: <G1::Record as DeepView>::V,
        ops: JsonOps,
        builder: StructBuilderV,
    ) -> StructBuilderV {
        self.field_1.map_codec.map_encode_spec(self.field_1.getter.get_spec(input), ops, builder)
    }

    fn encode(&self, input: &G1::Record, ops: &JsonOps, prefix: EncoderStructBuilder) -> (r:
        EncoderStructBuilder) {
        let v1 = self.field_1.getter.get(input);
        self.field_1.map_codec.encode(v1, ops, prefix)
    }

    open spec fn map_decode_spec(
        &self,
        entries: Seq<(Seq<char>, JsonV)>,
        ops: JsonOps,
    ) -> DataResultV<<G1::Record as DeepView>::V> {
        apply1_v(
            self.field_1.map_codec.map_decode_spec(entries, ops),
            |v1| self.apply_function.make_spec(v1),
        )
    }

    fn decode(&self, input: &MapLike, ops: &JsonOps) -> (r: DataResult<G1::Record>) {
        match self.field_1.map_codec.decode(input, ops) {
            DataResult::Success { result, lifecycle } => DataResult::Success {
                result: self.apply_function.make(result),
                lifecycle,
            },
            DataResult::Error { partial_result, lifecycle, message } => DataResult::Error {
                partial_result: match partial_result {
                    Some(p) => Some(self.apply_function.make(p)),
                    None => None,
                },
                lifecycle,
                message,
            },
        }
    }
}

/// A map codec for a record with two rigid fields.
pub struct StructMapCodec2<C1: MapCodec, G1, C2: MapCodec, G2, F> {
    pub field_1: Field<C1, G1>,
    pub field_2: Field<C2, G2>,
    pub apply_function: F,
}

/// Returns a struct codec with two fields.
pub fn struct_2<
    C1: MapCodec,
    G1: FieldGetter<Field = C1::Value>,
    C2: MapCodec,
    G2: FieldGetter<Field = C2::Value, Record = G1::Record>,
    F: RecordCtor2<V1 = C1::Value, V2 = C2::Value, Record = G1::Record>,
>(field_1: Field<C1, G1>, field_2: Field<C2, G2>, f: F) -> (r: MapCodecCodec<
    StructMapCodec2<C1, G1, C2, G2, F>,
>)
    ensures
        r.map_codec.field_1 == field_1,
        r.map_codec.field_2 == field_2,
        r.map_codec.apply_function == f,
{
    MapCodecCodec::new(StructMapCodec2 { field_1, field_2, apply_function: f })
}

impl<
    C1: MapCodec,
    G1: FieldGetter<Field = C1::Value>,
    C2: MapCodec,
    G2: FieldGetter<Field = C2::Value, Record = G1::Record>,
    F: RecordCtor2<V1 = C1::Value, V2 = C2::Value, Record = G1::Record>,
> HasValue for StructMapCodec2<C1, G1, C2, G2, F> {
    type Value = G1::Record;
}

impl<
    C1: MapCodec,
    G1: FieldGetter<Field = C1::Value>,
    C2: MapCodec,
    G2: FieldGetter<Field = C2::Value, Record = G1::Record>,
    F: RecordCtor2<V1 = C1::Value, V2 = C2::Value, Record = G1::Record>,
> MapCodec for StructMapCodec2<C1, G1, C2, G2, F> {
    open spec fn keys_spec(&self) -> Seq<Seq<char>> {
        self.field_1.map_codec.keys_spec() + self.field_2.map_codec.keys_spec()
    }

    fn keys(&self) -> (r: Vec<String>) {
        let mut out = self.field_1.map_codec.keys();
        let more = self.field_2.map_codec.keys();
        concat_keys(&mut out, &more);
        out
    }

    open spec fn map_encode_spec(
        &self,
        input: <G1::Record as DeepView>::V,
        ops: JsonOps,
        builder: StructBuilderV,
    ) -> StructBuilderV {
        self.field_2.map_codec.map_encode_spec(
            self.field_2.getter.get_spec(input),
            ops,
            self.field_1.map_codec.map_encode_spec(
                self.field_1.getter.get_spec(input),
                ops,
                builder,
            ),
        )
    }

    fn encode(&self, input: &G1::Record, ops: &JsonOps, prefix: EncoderStructBuilder) -> (r:
        EncoderStructBuilder) {
        let v1 = self.field_1.getter.get(input);
        let prefix = self.field_1.map_codec.encode(v1, ops, prefix);
        let v2 = self.field_2.getter.get(input);
        self.field_2.map_codec.encode(v2, ops, prefix)
    }

    open spec fn map_decode_spec(
        &self,
        entries: Seq<(Seq<char>, JsonV)>,
        ops: JsonOps,
    ) -> DataResultV<<G1::Record as DeepView>::V> {
        apply2_v(
            self.field_1.map_codec.map_decode_spec(entries, ops),
            self.field_2.map_codec.map_decode_spec(entries, ops),
            |v1, v2| self.apply_function.make_spec(v1, v2),
        )
    }

    fn decode(&self, input: &MapLike, ops: &JsonOps) -> (r: DataResult<G1::Record>) {
        let r1 = self.field_1.map_codec.decode(input, ops);
        let r2 = self.field_2.map_codec.decode(input, ops);
        let both_success = r1.is_success() && r2.is_success();
        let (p1, m1) = split_result(r1);
        let (p2, m2) = split_result(r2);
        let merged = merge_messages(m1, m2);
        match (p1, p2) {
            (Some(a), Some(b)) => {
                let value = self.apply_function.make(a, b);
                if both_success {
                    DataResult::Success { result: value, lifecycle: Lifecycle::Experimental }
                } else {
                    match merged {
                        Some(message) => DataResult::Error {
                            partial_result: Some(value),
                            lifecycle: Lifecycle::Experimental,
                            message,
                        },
                        None => vstd::pervasive::unreached(),
                    }
                }
            },
            _ => {
                match merged {
                    Some(message) => DataResult::Error {
                        partial_result: None,
                        lifecycle: Lifecycle::Experimental,
                        message,
                    },
                    None => vstd::pervasive::unreached(),
                }
            },
        }
    }
}

/// A map codec for a record with three rigid fields.
pub struct StructMapCodec3<C1: MapCodec, G1, C2: MapCodec, G2, C3: MapCodec, G3, F> {
    pub field_1: Field<C1, G1>,
    pub field_2: Field<C2, G2>,
    pub field_3: Field<C3, G3>,
    pub apply_function: F,
}

/// Returns a struct codec with three fields.
pub fn struct_3<
    C1: MapCodec,
    G1: FieldGetter<Field = C1::Value>,
    C2: MapCodec,
    G2: FieldGetter<Field = C2::Value, Record = G1::Record>,
    C3: MapCodec,
    G3: FieldGetter<Field = C3::Value, Record = G1::Record>,
    F: RecordCtor3<V1 = C1::Value, V2 = C2::Value, V3 = C3::Value, Record = G1::Record>,
>(field_1: Field<C1, G1>, field_2: Field<C2, G2>, field_3: Field<C3, G3>, f: F) -> (r: MapCodecCodec<StructMapCodec3<C1, G1, C2, G2, C3, G3, F>>)
    ensures
        r.map_codec.field_1 == field_1,
        r.map_codec.field_2 == field_2,
        r.map_codec.field_3 == field_3,
        r.map_codec.apply_function == f,
{
    MapCodecCodec::new(StructMapCodec3 { field_1, field_2, field_3, apply_function: f })
}

impl<
    C1: MapCodec,
    G1: FieldGetter<Field = C1::Value>,
    C2: MapCodec,
    G2: FieldGetter<Field = C2::Value, Record = G1::Record>,
    C3: MapCodec,
    G3: FieldGetter<Field = C3::Value, Record = G1::Record>,
    F: RecordCtor3<V1 = C1::Value, V2 = C2::Value, V3 = C3::Value, Record = G1::Record>,
> HasValue for StructMapCodec3<C1, G1, C2, G2, C3, G3, F> {
    type Value = G1::Record;
}

impl<
    C1: MapCodec,
    G1: FieldGetter<Field = C1::Value>,
    C2: MapCodec,
    G2: FieldGetter<Field = C2::Value, Record = G1::Record>,
    C3: MapCodec,
    G3: FieldGetter<Field = C3::Value, Record = G1::Record>,
    F: RecordCtor3<V1 = C1::Value, V2 = C2::Value, V3 = C3::Value, Record = G1::Record>,
> MapCodec for StructMapCodec3<C1, G1, C2, G2, C3, G3, F> {
    open spec fn keys_spec(&self) -> Seq<Seq<char>> {
        self.field_1.map_codec.keys_spec() + self.field_2.map_codec.keys_spec() + self.field_3.map_codec.keys_spec()
    }

    fn keys(&self) -> (r: Vec<String>) {
        let mut out = self.field_1.map_codec.keys();
        let more_2 = self.field_2.map_codec.keys();
        concat_keys(&mut out, &more_2);
        let more_3 = self.field_3.map_codec.keys();
        concat_keys(&mut out, &more_3);
        proof {
            assert(str_views(out@) =~= self.keys_spec());
        }
        out
    }

    open spec fn map_encode_spec(
        &self,
        input: <G1::Record as DeepView>::V,
        ops: JsonOps,
        builder: StructBuilderV,
    ) -> StructBuilderV {
        self.field_3.map_codec.map_encode_spec(
            self.field_3.getter.get_spec(input),
            ops,
            self.field_2.map_codec.map_encode_spec(
            self.field_2.getter.get_spec(input),
            ops,
            self.field_1.map_codec.map_encode_spec(
            self.field_1.getter.get_spec(input),
            ops,
            builder,
        ),
        ),
        )
    }

    fn encode(&self, input: &G1::Record, ops: &JsonOps, prefix: EncoderStructBuilder) -> (r:
        EncoderStructBuilder) {
        let prefix = prefix;
        let v1 = self.field_1.getter.get(input);
        let prefix = self.field_1.map_codec.encode(v1, ops, prefix);
        let v2 = self.field_2.getter.get(input);
        let prefix = self.field_2.map_codec.encode(v2, ops, prefix);
        let v3 = self.field_3.getter.get(input);
        let prefix = self.field_3.map_codec.encode(v3, ops, prefix);
        prefix
    }

    open spec fn map_decode_spec(
        &self,
        entries: Seq<(Seq<char>, JsonV)>,
        ops: JsonOps,
    ) -> DataResultV<<G1::Record as DeepView>::V> {
        apply3_v(
            self.field_1.map_codec.map_decode_spec(entries, ops),
            self.field_2.map_codec.map_decode_spec(entries, ops),
            self.field_3.map_codec.map_decode_spec(entries, ops),
            |v1, v2, v3| self.apply_function.make_spec(v1, v2, v3),
        )
    }

    fn decode(&self, input: &MapLike, ops: &JsonOps) -> (r: DataResult<G1::Record>) {
        let r1 = self.field_1.map_codec.decode(input, ops);
        let r2 = self.field_2.map_codec.decode(input, ops);
        let r3 = self.field_3.map_codec.decode(input, ops);
        let all_success = r1.is_success() && r2.is_success() && r3.is_success();
        let (p1, m1) = split_result(r1);
        let (p2, m2) = split_result(r2);
        let (p3, m3) = split_result(r3);
        let merged = merge_messages(merge_messages(m1, m2), m3);
        match (p1, p2, p3) {
            (Some(a1), Some(a2), Some(a3)) => {
                let value = self.apply_function.make(a1, a2, a3);
                if all_success {
                    DataResult::Success { result: value, lifecycle: Lifecycle::Experimental }
                } else {
                    match merged {
                        Some(message) => DataResult::Error {
                            partial_result: Some(value),
                            lifecycle: Lifecycle::Experimental,
                            message,
                        },
                        None => vstd::pervasive::unreached(),
                    }
                }
            },
            _ => {
                match merged {
                    Some(message) => DataResult::Error {
                        partial_result: None,
                        lifecycle: Lifecycle::Experimental,
                        message,
                    },
                    None => vstd::pervasive::unreached(),
                }
            },
        }
    }
}

/// A map codec for a record with four rigid fields.
pub struct StructMapCodec4<C1: MapCodec, G1, C2: MapCodec, G2, C3: MapCodec, G3, C4: MapCodec, G4, F> {
    pub field_1: Field<C1, G1>,
    pub field_2: Field<C2, G2>,
    pub field_3: Field<C3, G3>,
    pub field_4: Field<C4, G4>,
    pub apply_function: F,
}

/// Returns a struct codec with four fields.
pub fn struct_4<
    C1: MapCodec,
    G1: FieldGetter<Field = C1::Value>,
    C2: MapCodec,
    G2: FieldGetter<Field = C2::Value, Record = G1::Record>,
    C3: MapCodec,
    G3: FieldGetter<Field = C3::Value, Record = G1::Record>,
    C4: MapCodec,
    G4: FieldGetter<Field = C4::Value, Record = G1::Record>,
    F: RecordCtor4<V1 = C1::Value, V2 = C2::Value, V3 = C3::Value, V4 = C4::Value, Record = G1::Record>,
>(field_1: Field<C1, G1>, field_2: Field<C2, G2>, field_3: Field<C3, G3>, field_4: Field<C4, G4>, f: F) -> (r: MapCodecCodec<StructMapCodec4<C1, G1, C2, G2, C3, G3, C4, G4, F>>)
    ensures
        r.map_codec.field_1 == field_1,
        r.map_codec.field_2 == field_2,
        r.map_codec.field_3 == field_3,
        r.map_codec.field_4 == field_4,
        r.map_codec.apply_function == f,
{
    MapCodecCodec::new(StructMapCodec4 { field_1, field_2, field_3, field_4, apply_function: f })
}

impl<
    C1: MapCodec,
    G1: FieldGetter<Field = C1::Value>,
    C2: MapCodec,
    G2: FieldGetter<Field = C2::Value, Record = G1::Record>,
    C3: MapCodec,
    G3: FieldGetter<Field = C3::Value, Record = G1::Record>,
    C4: MapCodec,
    G4: FieldGetter<Field = C4::Value, Record = G1::Record>,
    F: RecordCtor4<V1 = C1::Value, V2 = C2::Value, V3 = C3::Value, V4 = C4::Value, Record = G1::Record>,
> HasValue for StructMapCodec4<C1, G1, C2, G2, C3, G3, C4, G4, F> {
    type Value = G1::Record;
}

impl<
    C1: MapCodec,
    G1: FieldGetter<Field = C1::Value>,
    C2: MapCodec,
    G2: FieldGetter<Field = C2::Value, Record = G1::Record>,
    C3: MapCodec,
    G3: FieldGetter<Field = C3::Value, Record = G1::Record>,
    C4: MapCodec,
    G4: FieldGetter<Field = C4::Value, Record = G1::Record>,
    F: RecordCtor4<V1 = C1::Value, V2 = C2::Value, V3 = C3::Value, V4 = C4::Value, Record = G1::Record>,
> MapCodec for StructMapCodec4<C1, G1, C2, G2, C3, G3, C4, G4, F> {
    open spec fn keys_spec(&self) -> Seq<Seq<char>> {
        self.field_1.map_codec.keys_spec() + self.field_2.map_codec.keys_spec() + self.field_3.map_codec.keys_spec() + self.field_4.map_codec.keys_spec()
    }

    fn keys(&self) -> (r: Vec<String>) {
        let mut out = self.field_1.map_codec.keys();
        let more_2 = self.field_2.map_codec.keys();
        concat_keys(&mut out, &more_2);
        let more_3 = self.field_3.map_codec.keys();
        concat_keys(&mut out, &more_3);
        let more_4 = self.field_4.map_codec.keys();
        concat_keys(&mut out, &more_4);
        proof {
            assert(str_views(out@) =~= self.keys_spec());
        }
        out
    }

    open spec fn map_encode_spec(
        &self,
        input: <G1::Record as DeepView>::V,
        ops: JsonOps,
        builder: StructBuilderV,
    ) -> StructBuilderV {
        self.field_4.map_codec.map_encode_spec(
            self.field_4.getter.get_spec(input),
            ops,
            self.field_3.map_codec.map_encode_spec(
            self.field_3.getter.get_spec(input),
            ops,
            self.field_2.map_codec.map_encode_spec(
            self.field_2.getter.get_spec(input),
            ops,
            self.field_1.map_codec.map_encode_spec(
            self.field_1.getter.get_spec(input),
            ops,
            builder,
        ),
        ),
        ),
        )
    }

    fn encode(&self, input: &G1::Record, ops: &JsonOps, prefix: EncoderStructBuilder) -> (r:
        EncoderStructBuilder) {
        let prefix = prefix;
        let v1 = self.field_1.getter.get(input);
        let prefix = self.field_1.map_codec.encode(v1, ops, prefix);
        let v2 = self.field_2.getter.get(input);
        let prefix = self.field_2.map_codec.encode(v2, ops, prefix);
        let v3 = self.field_3.getter.get(input);
        let prefix = self.field_3.map_codec.encode(v3, ops, prefix);
        let v4 = self.field_4.getter.get(input);
        let prefix = self.field_4.map_codec.encode(v4, ops, prefix);
        prefix
    }

    open spec fn map_decode_spec(
        &self,
        entries: Seq<(Seq<char>, JsonV)>,
        ops: JsonOps,
    ) -> DataResultV<<G1::Record as DeepView>::V> {
        apply4_v(
            self.field_1.map_codec.map_decode_spec(entries, ops),
            self.field_2.map_codec.map_decode_spec(entries, ops),
            self.field_3.map_codec.map_decode_spec(entries, ops),
            self.field_4.map_codec.map_decode_spec(entries, ops),
            |v1, v2, v3, v4| self.apply_function.make_spec(v1, v2, v3, v4),
        )
    }

    fn decode(&self, input: &MapLike, ops: &JsonOps) -> (r: DataResult<G1::Record>) {
        let r1 = self.field_1.map_codec.decode(input, ops);
        let r2 = self.field_2.map_codec.decode(input, ops);
        let r3 = self.field_3.map_codec.decode(input, ops);
        let r4 = self.field_4.map_codec.decode(input, ops);
        let all_success = r1.is_success() && r2.is_success() && r3.is_success() && r4.is_success();
        let (p1, m1) = split_result(r1);
        let (p2, m2) = split_result(r2);
        let (p3, m3) = split_result(r3);
        let (p4, m4) = split_result(r4);
        let merged = merge_messages(merge_messages(merge_messages(m1, m2), m3), m4);
        match (p1, p2, p3, p4) {
            (Some(a1), Some(a2), Some(a3), Some(a4)) => {
                let value = self.apply_function.make(a1, a2, a3, a4);
                if all_success {
                    DataResult::Success { result: value, lifecycle: Lifecycle::Experimental }
                } else {
                    match merged {
                        Some(message) => DataResult::Error {
                            partial_result: Some(value),
                            lifecycle: Lifecycle::Experimental,
                            message,
                        },
                        None => vstd::pervasive::unreached(),
                    }
                }
            },
            _ => {
                match merged {
                    Some(message) => DataResult::Error {
                        partial_result: None,
                        lifecycle: Lifecycle::Experimental,
                        message,
                    },
                    None => vstd::pervasive::unreached(),
                }
            },
        }
    }
}

/// A map codec for a record with five rigid fields.
pub struct StructMapCodec5<C1: MapCodec, G1, C2: MapCodec, G2, C3: MapCodec, G3, C4: MapCodec, G4, C5: MapCodec, G5, F> {
    pub field_1: Field<C1, G1>,
    pub field_2: Field<C2, G2>,
    pub field_3: Field<C3, G3>,
    pub field_4: Field<C4, G4>,
    pub field_5: Field<C5, G5>,
    pub apply_function: F,
}

/// Returns a struct codec with five fields.
pub fn struct_5<
    C1: MapCodec,
    G1: FieldGetter<Field = C1::Value>,
    C2: MapCodec,
    G2: FieldGetter<Field = C2::Value, Record = G1::Record>,
    C3: MapCodec,
    G3: FieldGetter<Field = C3::Value, Record = G1::Record>,
    C4: MapCodec,
    G4: FieldGetter<Field = C4::Value, Record = G1::Record>,
    C5: MapCodec,
    G5: FieldGetter<Field = C5::Value, Record = G1::Record>,
    F: RecordCtor5<V1 = C1::Value, V2 = C2::Value, V3 = C3::Value, V4 = C4::Value, V5 = C5::Value, Record = G1::Record>,
>(field_1: Field<C1, G1>, field_2: Field<C2, G2>, field_3: Field<C3, G3>, field_4: Field<C4, G4>, field_5: Field<C5, G5>, f: F) -> (r: MapCodecCodec<StructMapCodec5<C1, G1, C2, G2, C3, G3, C4, G4, C5, G5, F>>)
    ensures
        r.map_codec.field_1 == field_1,
        r.map_codec.field_2 == field_2,
        r.map_codec.field_3 == field_3,
        r.map_codec.field_4 == field_4,
        r.map_codec.field_5 == field_5,
        r.map_codec.apply_function == f,
{
    MapCodecCodec::new(StructMapCodec5 { field_1, field_2, field_3, field_4, field_5, apply_function: f })
}

impl<
    C1: MapCodec,
    G1: FieldGetter<Field = C1::Value>,
    C2: MapCodec,
    G2: FieldGetter<Field = C2::Value, Record = G1::Record>,
    C3: MapCodec,
    G3: FieldGetter<Field = C3::Value, Record = G1::Record>,
    C4: MapCodec,
    G4: FieldGetter<Field = C4::Value, Record = G1::Record>,
    C5: MapCodec,
    G5: FieldGetter<Field = C5::Value, Record = G1::Record>,
    F: RecordCtor5<V1 = C1::Value, V2 = C2::Value, V3 = C3::Value, V4 = C4::Value, V5 = C5::Value, Record = G1::Record>,
> HasValue for StructMapCodec5<C1, G1, C2, G2, C3, G3, C4, G4, C5, G5, F> {
    type Value = G1::Record;
}

impl<
    C1: MapCodec,
    G1: FieldGetter<Field = C1::Value>,
    C2: MapCodec,
    G2: FieldGetter<Field = C2::Value, Record = G1::Record>,
    C3: MapCodec,
    G3: FieldGetter<Field = C3::Value, Record = G1::Record>,
    C4: MapCodec,
    G4: FieldGetter<Field = C4::Value, Record = G1::Record>,
    C5: MapCodec,
    G5: FieldGetter<Field = C5::Value, Record = G1::Record>,
    F: RecordCtor5<V1 = C1::Value, V2 = C2::Value, V3 = C3::Value, V4 = C4::Value, V5 = C5::Value, Record = G1::Record>,
> MapCodec for StructMapCodec5<C1, G1, C2, G2, C3, G3, C4, G4, C5, G5, F> {
    open spec fn keys_spec(&self) -> Seq<Seq<char>> {
        self.field_1.map_codec.keys_spec() + self.field_2.map_codec.keys_spec() + self.field_3.map_codec.keys_spec() + self.field_4.map_codec.keys_spec() + self.field_5.map_codec.keys_spec()
    }

    fn keys(&self) -> (r: Vec<String>) {
        let mut out = self.field_1.map_codec.keys();
        let more_2 = self.field_2.map_codec.keys();
        concat_keys(&mut out, &more_2);
        let more_3 = self.field_3.map_codec.keys();
        concat_keys(&mut out, &more_3);
        let more_4 = self.field_4.map_codec.keys();
        concat_keys(&mut out, &more_4);
        let more_5 = self.field_5.map_codec.keys();
        concat_keys(&mut out, &more_5);
        proof {
            assert(str_views(out@) =~= self.keys_spec());
        }
        out
    }

    open spec fn map_encode_spec(
        &self,
        input: <G1::Record as DeepView>::V,
        ops: JsonOps,
        builder: StructBuilderV,
    ) -> StructBuilderV {
        self.field_5.map_codec.map_encode_spec(
            self.field_5.getter.get_spec(input),
            ops,
            self.field_4.map_codec.map_encode_spec(
            self.field_4.getter.get_spec(input),
            ops,
            self.field_3.map_codec.map_encode_spec(
            self.field_3.getter.get_spec(input),
            ops,
            self.field_2.map_codec.map_encode_spec(
            self.field_2.getter.get_spec(input),
            ops,
            self.field_1.map_codec.map_encode_spec(
            self.field_1.getter.get_spec(input),
            ops,
            builder,
        ),
        ),
        ),
        ),
        )
    }

    fn encode(&self, input: &G1::Record, ops: &JsonOps, prefix: EncoderStructBuilder) -> (r:
        EncoderStructBuilder) {
        let prefix = prefix;
        let v1 = self.field_1.getter.get(input);
        let prefix = self.field_1.map_codec.encode(v1, ops, prefix);
        let v2 = self.field_2.getter.get(input);
        let prefix = self.field_2.map_codec.encode(v2, ops, prefix);
        let v3 = self.field_3.getter.get(input);
        let prefix = self.field_3.map_codec.encode(v3, ops, prefix);
        let v4 = self.field_4.getter.get(input);
        let prefix = self.field_4.map_codec.encode(v4, ops, prefix);
        let v5 = self.field_5.getter.get(input);
        let prefix = self.field_5.map_codec.encode(v5, ops, prefix);
        prefix
    }

    open spec fn map_decode_spec(
        &self,
        entries: Seq<(Seq<char>, JsonV)>,
        ops: JsonOps,
    ) -> DataResultV<<G1::Record as DeepView>::V> {
        apply5_v(
            self.field_1.map_codec.map_decode_spec(entries, ops),
            self.field_2.map_codec.map_decode_spec(entries, ops),
            self.field_3.map_codec.map_decode_spec(entries, ops),
            self.field_4.map_codec.map_decode_spec(entries, ops),
            self.field_5.map_codec.map_decode_spec(entries, ops),
            |v1, v2, v3, v4, v5| self.apply_function.make_spec(v1, v2, v3, v4, v5),
        )
    }

    fn decode(&self, input: &MapLike, ops: &JsonOps) -> (r: DataResult<G1::Record>) {
        let r1 = self.field_1.map_codec.decode(input, ops);
        let r2 = self.field_2.map_codec.decode(input, ops);
        let r3 = self.field_3.map_codec.decode(input, ops);
        let r4 = self.field_4.map_codec.decode(input, ops);
        let r5 = self.field_5.map_codec.decode(input, ops);
        let all_success = r1.is_success() && r2.is_success() && r3.is_success() && r4.is_success() && r5.is_success();
        let (p1, m1) = split_result(r1);
        let (p2, m2) = split_result(r2);
        let (p3, m3) = split_result(r3);
        let (p4, m4) = split_result(r4);
        let (p5, m5) = split_result(r5);
        let merged = merge_messages(merge_messages(merge_messages(merge_messages(m1, m2), m3), m4), m5);
        match (p1, p2, p3, p4, p5) {
            (Some(a1), Some(a2), Some(a3), Some(a4), Some(a5)) => {
                let value = self.apply_function.make(a1, a2, a3, a4, a5);
                if all_success {
                    DataResult::Success { result: value, lifecycle: Lifecycle::Experimental }
                } else {
                    match merged {
                        Some(message) => DataResult::Error {
                            partial_result: Some(value),
                            lifecycle: Lifecycle::Experimental,
                            message,
                        },
                        None => vstd::pervasive::unreached(),
                    }
                }
            },
            _ => {
                match merged {
                    Some(message) => DataResult::Error {
                        partial_result: None,
                        lifecycle: Lifecycle::Experimental,
                        message,
                    },
                    None => vstd::pervasive::unreached(),
                }
            },
        }
    }
}

/// How a struct codec of six fields rebuilds a record while decoding.
pub trait RecordCtor6 {
    type V1: DeepView;

    type V2: DeepView;

    type V3: DeepView;

    type V4: DeepView;

    type V5: DeepView;

    type V6: DeepView;

    type Record: DeepView;

    /// The record built from the fields, at the specification level.
    spec fn make_spec(
        &self,
        v1: <Self::V1 as DeepView>::V,
        v2: <Self::V2 as DeepView>::V,
        v3: <Self::V3 as DeepView>::V,
        v4: <Self::V4 as DeepView>::V,
        v5: <Self::V5 as DeepView>::V,
        v6: <Self::V6 as DeepView>::V,
    ) -> <Self::Record as DeepView>::V;

    /// Builds the record from the decoded fields.
    fn make(&self, v1: Self::V1, v2: Self::V2, v3: Self::V3, v4: Self::V4, v5: Self::V5, v6: Self::V6) -> (r: Self::Record)
        ensures
            r.deep_view() == self.make_spec(
                v1.deep_view(),
                v2.deep_view(),
                v3.deep_view(),
                v4.deep_view(),
                v5.deep_view(),
                v6.deep_view(),
            ),
    ;
}

/// Six decode results combined by the applicative rules.
pub open spec fn apply6_v<V1, V2, V3, V4, V5, V6, T>(
    r1: DataResultV<V1>,
    r2: DataResultV<V2>,
    r3: DataResultV<V3>,
    r4: DataResultV<V4>,
    r5: DataResultV<V5>,
    r6: DataResultV<V6>,
    f: spec_fn(V1, V2, V3, V4, V5, V6) -> T,
) -> DataResultV<T> {
    let merged = merge_msg_opt(merge_msg_opt(merge_msg_opt(merge_msg_opt(merge_msg_opt(r1.message_of(), r2.message_of()), r3.message_of()), r4.message_of()), r5.message_of()), r6.message_of());
    match (r1.value_of(), r2.value_of(), r3.value_of(), r4.value_of(), r5.value_of(), r6.value_of()) {
        (Some(a1), Some(a2), Some(a3), Some(a4), Some(a5), Some(a6)) => {
            if r1 is Success && r2 is Success && r3 is Success && r4 is Success && r5 is Success && r6 is Success {
                DataResultV::Success { result: f(a1, a2, a3, a4, a5, a6), lifecycle: Lifecycle::Experimental }
            } else {
                DataResultV::Error {
                    partial_result: Some(f(a1, a2, a3, a4, a5, a6)),
                    lifecycle: Lifecycle::Experimental,
                    message: merged->0,
                }
            }
        },
        _ => DataResultV::Error {
            partial_result: None,
            lifecycle: Lifecycle::Experimental,
            message: merged->0,
        },
    }
}

/// A map codec for a record with six rigid fields.
pub struct StructMapCodec6<C1: MapCodec, G1, C2: MapCodec, G2, C3: MapCodec, G3, C4: MapCodec, G4, C5: MapCodec, G5, C6: MapCodec, G6, F> {
    pub field_1: Field<C1, G1>,
    pub field_2: Field<C2, G2>,
    pub field_3: Field<C3, G3>,
    pub field_4: Field<C4, G4>,
    pub field_5: Field<C5, G5>,
    pub field_6: Field<C6, G6>,
    pub apply_function: F,
}

/// Returns a struct codec with six fields.
pub fn struct_6<
    C1: MapCodec,
    G1: FieldGetter<Field = C1::Value>,
    C2: MapCodec,
    G2: FieldGetter<Field = C2::Value, Record = G1::Record>,
    C3: MapCodec,
    G3: FieldGetter<Field = C3::Value, Record = G1::Record>,
    C4: MapCodec,
    G4: FieldGetter<Field = C4::Value, Record = G1::Record>,
    C5: MapCodec,
    G5: FieldGetter<Field = C5::Value, Record = G1::Record>,
    C6: MapCodec,
    G6: FieldGetter<Field = C6::Value, Record = G1::Record>,
    F: RecordCtor6<V1 = C1::Value, V2 = C2::Value, V3 = C3::Value, V4 = C4::Value, V5 = C5::Value, V6 = C6::Value, Record = G1::Record>,
>(
    field_1: Field<C1, G1>,
    field_2: Field<C2, G2>,
    field_3: Field<C3, G3>,
    field_4: Field<C4, G4>,
    field_5: Field<C5, G5>,
    field_6: Field<C6, G6>,
    f: F,
) -> (r: MapCodecCodec<StructMapCodec6<C1, G1, C2, G2, C3, G3, C4, G4, C5, G5, C6, G6, F>>)
    ensures
        r.map_codec.field_1 == field_1,
        r.map_codec.field_2 == field_2,
        r.map_codec.field_3 == field_3,
        r.map_codec.field_4 == field_4,
        r.map_codec.field_5 == field_5,
        r.map_codec.field_6 == field_6,
        r.map_codec.apply_function == f,
{
    MapCodecCodec::new(StructMapCodec6 { field_1, field_2, field_3, field_4, field_5, field_6, apply_function: f })
}

impl<
    C1: MapCodec,
    G1: FieldGetter<Field = C1::Value>,
    C2: MapCodec,
    G2: FieldGetter<Field = C2::Value, Record = G1::Record>,
    C3: MapCodec,
    G3: FieldGetter<Field = C3::Value, Record = G1::Record>,
    C4: MapCodec,
    G4: FieldGetter<Field = C4::Value, Record = G1::Record>,
    C5: MapCodec,
    G5: FieldGetter<Field = C5::Value, Record = G1::Record>,
    C6: MapCodec,
    G6: FieldGetter<Field = C6::Value, Record = G1::Record>,
    F: RecordCtor6<V1 = C1::Value, V2 = C2::Value, V3 = C3::Value, V4 = C4::Value, V5 = C5::Value, V6 = C6::Value, Record = G1::Record>,
> HasValue for StructMapCodec6<C1, G1, C2, G2, C3, G3, C4, G4, C5, G5, C6, G6, F> {
    type Value = G1::Record;
}

impl<
    C1: MapCodec,
    G1: FieldGetter<Field = C1::Value>,
    C2: MapCodec,
    G2: FieldGetter<Field = C2::Value, Record = G1::Record>,
    C3: MapCodec,
    G3: FieldGetter<Field = C3::Value, Record = G1::Record>,
    C4: MapCodec,
    G4: FieldGetter<Field = C4::Value, Record = G1::Record>,
    C5: MapCodec,
    G5: FieldGetter<Field = C5::Value, Record = G1::Record>,
    C6: MapCodec,
    G6: FieldGetter<Field = C6::Value, Record = G1::Record>,
    F: RecordCtor6<V1 = C1::Value, V2 = C2::Value, V3 = C3::Value, V4 = C4::Value, V5 = C5::Value, V6 = C6::Value, Record = G1::Record>,
> MapCodec for StructMapCodec6<C1, G1, C2, G2, C3, G3, C4, G4, C5, G5, C6, G6, F> {
    open spec fn keys_spec(&self) -> Seq<Seq<char>> {
        self.field_1.map_codec.keys_spec() + self.field_2.map_codec.keys_spec() + self.field_3.map_codec.keys_spec() + self.field_4.map_codec.keys_spec() + self.field_5.map_codec.keys_spec() + self.field_6.map_codec.keys_spec()
    }

    fn keys(&self) -> (r: Vec<String>) {
        let mut out = self.field_1.map_codec.keys();
        let more_2 = self.field_2.map_codec.keys();
        concat_keys(&mut out, &more_2);
        let more_3 = self.field_3.map_codec.keys();
        concat_keys(&mut out, &more_3);
        let more_4 = self.field_4.map_codec.keys();
        concat_keys(&mut out, &more_4);
        let more_5 = self.field_5.map_codec.keys();
        concat_keys(&mut out, &more_5);
        let more_6 = self.field_6.map_codec.keys();
        concat_keys(&mut out, &more_6);
        proof {
            assert(str_views(out@) =~= self.keys_spec());
        }
        out
    }

    open spec fn map_encode_spec(
        &self,
        input: <G1::Record as DeepView>::V,
        ops: JsonOps,
        builder: StructBuilderV,
    ) -> StructBuilderV {
        self.field_6.map_codec.map_encode_spec(
            self.field_6.getter.get_spec(input),
            ops,
            self.field_5.map_codec.map_encode_spec(
            self.field_5.getter.get_spec(input),
            ops,
            self.field_4.map_codec.map_encode_spec(
            self.field_4.getter.get_spec(input),
            ops,
            self.field_3.map_codec.map_encode_spec(
            self.field_3.getter.get_spec(input),
            ops,
            self.field_2.map_codec.map_encode_spec(
            self.field_2.getter.get_spec(input),
            ops,
            self.field_1.map_codec.map_encode_spec(
            self.field_1.getter.get_spec(input),
            ops,
            builder,
        ),
        ),
        ),
        ),
        ),
        )
    }

    fn encode(&self, input: &G1::Record, ops: &JsonOps, prefix: EncoderStructBuilder) -> (r:
        EncoderStructBuilder) {
        let v1 = self.field_1.getter.get(input);
        let prefix = self.field_1.map_codec.encode(v1, ops, prefix);
        let v2 = self.field_2.getter.get(input);
        let prefix = self.field_2.map_codec.encode(v2, ops, prefix);
        let v3 = self.field_3.getter.get(input);
        let prefix = self.field_3.map_codec.encode(v3, ops, prefix);
        let v4 = self.field_4.getter.get(input);
        let prefix = self.field_4.map_codec.encode(v4, ops, prefix);
        let v5 = self.field_5.getter.get(input);
        let prefix = self.field_5.map_codec.encode(v5, ops, prefix);
        let v6 = self.field_6.getter.get(input);
        let prefix = self.field_6.map_codec.encode(v6, ops, prefix);
        prefix
    }

    open spec fn map_decode_spec(
        &self,
        entries: Seq<(Seq<char>, JsonV)>,
        ops: JsonOps,
    ) -> DataResultV<<G1::Record as DeepView>::V> {
        apply6_v(
            self.field_1.map_codec.map_decode_spec(entries, ops),
            self.field_2.map_codec.map_decode_spec(entries, ops),
            self.field_3.map_codec.map_decode_spec(entries, ops),
            self.field_4.map_codec.map_decode_spec(entries, ops),
            self.field_5.map_codec.map_decode_spec(entries, ops),
            self.field_6.map_codec.map_decode_spec(entries, ops),
            |v1, v2, v3, v4, v5, v6| self.apply_function.make_spec(v1, v2, v3, v4, v5, v6),
        )
    }

    fn decode(&self, input: &MapLike, ops: &JsonOps) -> (r: DataResult<G1::Record>) {
        let r1 = self.field_1.map_codec.decode(input, ops);
        let r2 = self.field_2.map_codec.decode(input, ops);
        let r3 = self.field_3.map_codec.decode(input, ops);
        let r4 = self.field_4.map_codec.decode(input, ops);
        let r5 = self.field_5.map_codec.decode(input, ops);
        let r6 = self.field_6.map_codec.decode(input, ops);
        let all_success = r1.is_success() && r2.is_success() && r3.is_success() && r4.is_success() && r5.is_success() && r6.is_success();
        let (p1, m1) = split_result(r1);
        let (p2, m2) = split_result(r2);
        let (p3, m3) = split_result(r3);
        let (p4, m4) = split_result(r4);
        let (p5, m5) = split_result(r5);
        let (p6, m6) = split_result(r6);
        let merged = merge_messages(merge_messages(merge_messages(merge_messages(merge_messages(m1, m2), m3), m4), m5), m6);
        match (p1, p2, p3, p4, p5, p6) {
            (Some(a1), Some(a2), Some(a3), Some(a4), Some(a5), Some(a6)) => {
                let value = self.apply_function.make(a1, a2, a3, a4, a5, a6);
                if all_success {
                    DataResult::Success { result: value, lifecycle: Lifecycle::Experimental }
                } else {
                    match merged {
                        Some(message) => DataResult::Error {
                            partial_result: Some(value),
                            lifecycle: Lifecycle::Experimental,
                            message,
                        },
                        None => vstd::pervasive::unreached(),
                    }
                }
            },
            _ => {
                match merged {
                    Some(message) => DataResult::Error {
                        partial_result: None,
                        lifecycle: Lifecycle::Experimental,
                        message,
                    },
                    None => vstd::pervasive::unreached(),
                }
            },
        }
    }
}

/// How a struct codec of seven fields rebuilds a record while decoding.
pub trait RecordCtor7 {
    type V1: DeepView;

    type V2: DeepView;

    type V3: DeepView;

    type V4: DeepView;

    type V5: DeepView;

    type V6: DeepView;

    type V7: DeepView;

    type Record: DeepView;

    /// The record built from the fields, at the specification level.
    spec fn make_spec(
        &self,
        v1: <Self::V1 as DeepView>::V,
        v2: <Self::V2 as DeepView>::V,
        v3: <Self::V3 as DeepView>::V,
        v4: <Self::V4 as DeepView>::V,
        v5: <Self::V5 as DeepView>::V,
        v6: <Self::V6 as DeepView>::V,
        v7: <Self::V7 as DeepView>::V,
    ) -> <Self::Record as DeepView>::V;

    /// Builds the record from the decoded fields.
    fn make(&self, v1: Self::V1, v2: Self::V2, v3: Self::V3, v4: Self::V4, v5: Self::V5, v6: Self::V6, v7: Self::V7) -> (r: Self::Record)
        ensures
            r.deep_view() == self.make_spec(
                v1.deep_view(),
                v2.deep_view(),
                v3.deep_view(),
                v4.deep_view(),
                v5.deep_view(),
                v6.deep_view(),
                v7.deep_view(),
            ),
    ;
}

/// Seven decode results combined by the applicative rules.
pub open spec fn apply7_v<V1, V2, V3, V4, V5, V6, V7, T>(
    r1: DataResultV<V1>,
    r2: DataResultV<V2>,
    r3: DataResultV<V3>,
    r4: DataResultV<V4>,
    r5: DataResultV<V5>,
    r6: DataResultV<V6>,
    r7: DataResultV<V7>,
    f: spec_fn(V1, V2, V3, V4, V5, V6, V7) -> T,
) -> DataResultV<T> {
    let merged = merge_msg_opt(merge_msg_opt(merge_msg_opt(merge_msg_opt(merge_msg_opt(merge_msg_opt(r1.message_of(), r2.message_of()), r3.message_of()), r4.message_of()), r5.message_of()), r6.message_of()), r7.message_of());
    match (r1.value_of(), r2.value_of(), r3.value_of(), r4.value_of(), r5.value_of(), r6.value_of(), r7.value_of()) {
        (Some(a1), Some(a2), Some(a3), Some(a4), Some(a5), Some(a6), Some(a7)) => {
            if r1 is Success && r2 is Success && r3 is Success && r4 is Success && r5 is Success && r6 is Success && r7 is Success {
                DataResultV::Success { result: f(a1, a2, a3, a4, a5, a6, a7), lifecycle: Lifecycle::Experimental }
            } else {
                DataResultV::Error {
                    partial_result: Some(f(a1, a2, a3, a4, a5, a6, a7)),
                    lifecycle: Lifecycle::Experimental,
                    message: merged->0,
                }
            }
        },
        _ => DataResultV::Error {
            partial_result: None,
            lifecycle: Lifecycle::Experimental,
            message: merged->0,
        },
    }
}

/// A map codec for a record with seven rigid fields.
pub struct StructMapCodec7<C1: MapCodec, G1, C2: MapCodec, G2, C3: MapCodec, G3, C4: MapCodec, G4, C5: MapCodec, G5, C6: MapCodec, G6, C7: MapCodec, G7, F> {
    pub field_1: Field<C1, G1>,
    pub field_2: Field<C2, G2>,
    pub field_3: Field<C3, G3>,
    pub field_4: Field<C4, G4>,
    pub field_5: Field<C5, G5>,
    pub field_6: Field<C6, G6>,
    pub field_7: Field<C7, G7>,
    pub apply_function: F,
}

/// Returns a struct codec with seven fields.
pub fn struct_7<
    C1: MapCodec,
    G1: FieldGetter<Field = C1::Value>,
    C2: MapCodec,
    G2: FieldGetter<Field = C2::Value, Record = G1::Record>,
    C3: MapCodec,
    G3: FieldGetter<Field = C3::Value, Record = G1::Record>,
    C4: MapCodec,
    G4: FieldGetter<Field = C4::Value, Record = G1::Record>,
    C5: MapCodec,
    G5: FieldGetter<Field = C5::Value, Record = G1::Record>,
    C6: MapCodec,
    G6: FieldGetter<Field = C6::Value, Record = G1::Record>,
    C7: MapCodec,
    G7: FieldGetter<Field = C7::Value, Record = G1::Record>,
    F: RecordCtor7<V1 = C1::Value, V2 = C2::Value, V3 = C3::Value, V4 = C4::Value, V5 = C5::Value, V6 = C6::Value, V7 = C7::Value, Record = G1::Record>,
>(
    field_1: Field<C1, G1>,
    field_2: Field<C2, G2>,
    field_3: Field<C3, G3>,
    field_4: Field<C4, G4>,
    field_5: Field<C5, G5>,
    field_6: Field<C6, G6>,
    field_7: Field<C7, G7>,
    f: F,
) -> (r: MapCodecCodec<StructMapCodec7<C1, G1, C2, G2, C3, G3, C4, G4, C5, G5, C6, G6, C7, G7, F>>)
    ensures
        r.map_codec.field_1 == field_1,
        r.map_codec.field_2 == field_2,
        r.map_codec.field_3 == field_3,
        r.map_codec.field_4 == field_4,
        r.map_codec.field_5 == field_5,
        r.map_codec.field_6 == field_6,
        r.map_codec.field_7 == field_7,
        r.map_codec.apply_function == f,
{
    MapCodecCodec::new(StructMapCodec7 { field_1, field_2, field_3, field_4, field_5, field_6, field_7, apply_function: f })
}

impl<
    C1: MapCodec,
    G1: FieldGetter<Field = C1::Value>,
    C2: MapCodec,
    G2: FieldGetter<Field = C2::Value, Record = G1::Record>,
    C3: MapCodec,
    G3: FieldGetter<Field = C3::Value, Record = G1::Record>,
    C4: MapCodec,
    G4: FieldGetter<Field = C4::Value, Record = G1::Record>,
    C5: MapCodec,
    G5: FieldGetter<Field = C5::Value, Record = G1::Record>,
    C6: MapCodec,
    G6: FieldGetter<Field = C6::Value, Record = G1::Record>,
    C7: MapCodec,
    G7: FieldGetter<Field = C7::Value, Record = G1::Record>,
    F: RecordCtor7<V1 = C1::Value, V2 = C2::Value, V3 = C3::Value, V4 = C4::Value, V5 = C5::Value, V6 = C6::Value, V7 = C7::Value, Record = G1::Record>,
> HasValue for StructMapCodec7<C1, G1, C2, G2, C3, G3, C4, G4, C5, G5, C6, G6, C7, G7, F> {
    type Value = G1::Record;
}

impl<
    C1: MapCodec,
    G1: FieldGetter<Field = C1::Value>,
    C2: MapCodec,
    G2: FieldGetter<Field = C2::Value, Record = G1::Record>,
    C3: MapCodec,
    G3: FieldGetter<Field = C3::Value, Record = G1::Record>,
    C4: MapCodec,
    G4: FieldGetter<Field = C4::Value, Record = G1::Record>,
    C5: MapCodec,
    G5: FieldGetter<Field = C5::Value, Record = G1::Record>,
    C6: MapCodec,
    G6: FieldGetter<Field = C6::Value, Record = G1::Record>,
    C7: MapCodec,
    G7: FieldGetter<Field = C7::Value, Record = G1::Record>,
    F: RecordCtor7<V1 = C1::Value, V2 = C2::Value, V3 = C3::Value, V4 = C4::Value, V5 = C5::Value, V6 = C6::Value, V7 = C7::Value, Record = G1::Record>,
> MapCodec for StructMapCodec7<C1, G1, C2, G2, C3, G3, C4, G4, C5, G5, C6, G6, C7, G7, F> {
    open spec fn keys_spec(&self) -> Seq<Seq<char>> {
        self.field_1.map_codec.keys_spec() + self.field_2.map_codec.keys_spec() + self.field_3.map_codec.keys_spec() + self.field_4.map_codec.keys_spec() + self.field_5.map_codec.keys_spec() + self.field_6.map_codec.keys_spec() + self.field_7.map_codec.keys_spec()
    }

    fn keys(&self) -> (r: Vec<String>) {
        let mut out = self.field_1.map_codec.keys();
        let more_2 = self.field_2.map_codec.keys();
        concat_keys(&mut out, &more_2);
        let more_3 = self.field_3.map_codec.keys();
        concat_keys(&mut out, &more_3);
        let more_4 = self.field_4.map_codec.keys();
        concat_keys(&mut out, &more_4);
        let more_5 = self.field_5.map_codec.keys();
        concat_keys(&mut out, &more_5);
        let more_6 = self.field_6.map_codec.keys();
        concat_keys(&mut out, &more_6);
        let more_7 = self.field_7.map_codec.keys();
        concat_keys(&mut out, &more_7);
        proof {
            assert(str_views(out@) =~= self.keys_spec());
        }
        out
    }

    open spec fn map_encode_spec(
        &self,
        input: <G1::Record as DeepView>::V,
        ops: JsonOps,
        builder: StructBuilderV,
    ) -> StructBuilderV {
        self.field_7.map_codec.map_encode_spec(
            self.field_7.getter.get_spec(input),
            ops,
            self.field_6.map_codec.map_encode_spec(
            self.field_6.getter.get_spec(input),
            ops,
            self.field_5.map_codec.map_encode_spec(
            self.field_5.getter.get_spec(input),
            ops,
            self.field_4.map_codec.map_encode_spec(
            self.field_4.getter.get_spec(input),
            ops,
            self.field_3.map_codec.map_encode_spec(
            self.field_3.getter.get_spec(input),
            ops,
            self.field_2.map_codec.map_encode_spec(
            self.field_2.getter.get_spec(input),
            ops,
            self.field_1.map_codec.map_encode_spec(
            self.field_1.getter.get_spec(input),
            ops,
            builder,
        ),
        ),
        ),
        ),
        ),
        ),
        )
    }

    fn encode(&self, input: &G1::Record, ops: &JsonOps, prefix: EncoderStructBuilder) -> (r:
        EncoderStructBuilder) {
        let v1 = self.field_1.getter.get(input);
        let prefix = self.field_1.map_codec.encode(v1, ops, prefix);
        let v2 = self.field_2.getter.get(input);
        let prefix = self.field_2.map_codec.encode(v2, ops, prefix);
        let v3 = self.field_3.getter.get(input);
        let prefix = self.field_3.map_codec.encode(v3, ops, prefix);
        let v4 = self.field_4.getter.get(input);
        let prefix = self.field_4.map_codec.encode(v4, ops, prefix);
        let v5 = self.field_5.getter.get(input);
        let prefix = self.field_5.map_codec.encode(v5, ops, prefix);
        let v6 = self.field_6.getter.get(input);
        let prefix = self.field_6.map_codec.encode(v6, ops, prefix);
        let v7 = self.field_7.getter.get(input);
        let prefix = self.field_7.map_codec.encode(v7, ops, prefix);
        prefix
    }

    open spec fn map_decode_spec(
        &self,
        entries: Seq<(Seq<char>, JsonV)>,
        ops: JsonOps,
    ) -> DataResultV<<G1::Record as DeepView>::V> {
        apply7_v(
            self.field_1.map_codec.map_decode_spec(entries, ops),
            self.field_2.map_codec.map_decode_spec(entries, ops),
            self.field_3.map_codec.map_decode_spec(entries, ops),
            self.field_4.map_codec.map_decode_spec(entries, ops),
            self.field_5.map_codec.map_decode_spec(entries, ops),
            self.field_6.map_codec.map_decode_spec(entries, ops),
            self.field_7.map_codec.map_decode_spec(entries, ops),
            |v1, v2, v3, v4, v5, v6, v7| self.apply_function.make_spec(v1, v2, v3, v4, v5, v6, v7),
        )
    }

    fn decode(&self, input: &MapLike, ops: &JsonOps) -> (r: DataResult<G1::Record>) {
        let r1 = self.field_1.map_codec.decode(input, ops);
        let r2 = self.field_2.map_codec.decode(input, ops);
        let r3 = self.field_3.map_codec.decode(input, ops);
        let r4 = self.field_4.map_codec.decode(input, ops);
        let r5 = self.field_5.map_codec.decode(input, ops);
        let r6 = self.field_6.map_codec.decode(input, ops);
        let r7 = self.field_7.map_codec.decode(input, ops);
        let all_success = r1.is_success() && r2.is_success() && r3.is_success() && r4.is_success() && r5.is_success() && r6.is_success() && r7.is_success();
        let (p1, m1) = split_result(r1);
        let (p2, m2) = split_result(r2);
        let (p3, m3) = split_result(r3);
        let (p4, m4) = split_result(r4);
        let (p5, m5) = split_result(r5);
        let (p6, m6) = split_result(r6);
        let (p7, m7) = split_result(r7);
        let merged = merge_messages(merge_messages(merge_messages(merge_messages(merge_messages(merge_messages(m1, m2), m3), m4), m5), m6), m7);
        match (p1, p2, p3, p4, p5, p6, p7) {
            (Some(a1), Some(a2), Some(a3), Some(a4), Some(a5), Some(a6), Some(a7)) => {
                let value = self.apply_function.make(a1, a2, a3, a4, a5, a6, a7);
                if all_success {
                    DataResult::Success { result: value, lifecycle: Lifecycle::Experimental }
                } else {
                    match merged {
                        Some(message) => DataResult::Error {
                            partial_result: Some(value),
                            lifecycle: Lifecycle::Experimental,
                            message,
                        },
                        None => vstd::pervasive::unreached(),
                    }
                }
            },
            _ => {
                match merged {
                    Some(message) => DataResult::Error {
                        partial_result: None,
                        lifecycle: Lifecycle::Experimental,
                        message,
                    },
                    None => vstd::pervasive::unreached(),
                }
            },
        }
    }
}

/// How a struct codec of eight fields rebuilds a record while decoding.
pub trait RecordCtor8 {
    type V1: DeepView;

    type V2: DeepView;

    type V3: DeepView;

    type V4: DeepView;

    type V5: DeepView;

    type V6: DeepView;

    type V7: DeepView;

    type V8: DeepView;

    type Record: DeepView;

    /// The record built from the fields, at the specification level.
    spec fn make_spec(
        &self,
        v1: <Self::V1 as DeepView>::V,
        v2: <Self::V2 as DeepView>::V,
        v3: <Self::V3 as DeepView>::V,
        v4: <Self::V4 as DeepView>::V,
        v5: <Self::V5 as DeepView>::V,
        v6: <Self::V6 as DeepView>::V,
        v7: <Self::V7 as DeepView>::V,
        v8: <Self::V8 as DeepView>::V,
    ) -> <Self::Record as DeepView>::V;

    /// Builds the record from the decoded fields.
    fn make(&self, v1: Self::V1, v2: Self::V2, v3: Self::V3, v4: Self::V4, v5: Self::V5, v6: Self::V6, v7: Self::V7, v8: Self::V8) -> (r: Self::Record)
        ensures
            r.deep_view() == self.make_spec(
                v1.deep_view(),
                v2.deep_view(),
                v3.deep_view(),
                v4.deep_view(),
                v5.deep_view(),
                v6.deep_view(),
                v7.deep_view(),
                v8.deep_view(),
            ),
    ;
}

/// Eight decode results combined by the applicative rules.
pub open spec fn apply8_v<V1, V2, V3, V4, V5, V6, V7, V8, T>(
    r1: DataResultV<V1>,
    r2: DataResultV<V2>,
    r3: DataResultV<V3>,
    r4: DataResultV<V4>,
    r5: DataResultV<V5>,
    r6: DataResultV<V6>,
    r7: DataResultV<V7>,
    r8: DataResultV<V8>,
    f: spec_fn(V1, V2, V3, V4, V5, V6, V7, V8) -> T,
) -> DataResultV<T> {
    let merged = merge_msg_opt(merge_msg_opt(merge_msg_opt(merge_msg_opt(merge_msg_opt(merge_msg_opt(merge_msg_opt(r1.message_of(), r2.message_of()), r3.message_of()), r4.message_of()), r5.message_of()), r6.message_of()), r7.message_of()), r8.message_of());
    match (r1.value_of(), r2.value_of(), r3.value_of(), r4.value_of(), r5.value_of(), r6.value_of(), r7.value_of(), r8.value_of()) {
        (Some(a1), Some(a2), Some(a3), Some(a4), Some(a5), Some(a6), Some(a7), Some(a8)) => {
            if r1 is Success && r2 is Success && r3 is Success && r4 is Success && r5 is Success && r6 is Success && r7 is Success && r8 is Success {
                DataResultV::Success { result: f(a1, a2, a3, a4, a5, a6, a7, a8), lifecycle: Lifecycle::Experimental }
            } else {
                DataResultV::Error {
                    partial_result: Some(f(a1, a2, a3, a4, a5, a6, a7, a8)),
                    lifecycle: Lifecycle::Experimental,
                    message: merged->0,
                }
            }
        },
        _ => DataResultV::Error {
            partial_result: None,
            lifecycle: Lifecycle::Experimental,
            message: merged->0,
        },
    }
}

/// A map codec for a record with eight rigid fields.
pub struct StructMapCodec8<C1: MapCodec, G1, C2: MapCodec, G2, C3: MapCodec, G3, C4: MapCodec, G4, C5: MapCodec, G5, C6: MapCodec, G6, C7: MapCodec, G7, C8: MapCodec, G8, F> {
    pub field_1: Field<C1, G1>,
    pub field_2: Field<C2, G2>,
    pub field_3: Field<C3, G3>,
    pub field_4: Field<C4, G4>,
    pub field_5: Field<C5, G5>,
    pub field_6: Field<C6, G6>,
    pub field_7: Field<C7, G7>,
    pub field_8: Field<C8, G8>,
    pub apply_function: F,
}

/// Returns a struct codec with eight fields.
pub fn struct_8<
    C1: MapCodec,
    G1: FieldGetter<Field = C1::Value>,
    C2: MapCodec,
    G2: FieldGetter<Field = C2::Value, Record = G1::Record>,
    C3: MapCodec,
    G3: FieldGetter<Field = C3::Value, Record = G1::Record>,
    C4: MapCodec,
    G4: FieldGetter<Field = C4::Value, Record = G1::Record>,
    C5: MapCodec,
    G5: FieldGetter<Field = C5::Value, Record = G1::Record>,
    C6: MapCodec,
    G6: FieldGetter<Field = C6::Value, Record = G1::Record>,
    C7: MapCodec,
    G7: FieldGetter<Field = C7::Value, Record = G1::Record>,
    C8: MapCodec,
    G8: FieldGetter<Field = C8::Value, Record = G1::Record>,
    F: RecordCtor8<V1 = C1::Value, V2 = C2::Value, V3 = C3::Value, V4 = C4::Value, V5 = C5::Value, V6 = C6::Value, V7 = C7::Value, V8 = C8::Value, Record = G1::Record>,
>(
    field_1: Field<C1, G1>,
    field_2: Field<C2, G2>,
    field_3: Field<C3, G3>,
    field_4: Field<C4, G4>,
    field_5: Field<C5, G5>,
    field_6: Field<C6, G6>,
    field_7: Field<C7, G7>,
    field_8: Field<C8, G8>,
    f: F,
) -> (r: MapCodecCodec<StructMapCodec8<C1, G1, C2, G2, C3, G3, C4, G4, C5, G5, C6, G6, C7, G7, C8, G8, F>>)
    ensures
        r.map_codec.field_1 == field_1,
        r.map_codec.field_2 == field_2,
        r.map_codec.field_3 == field_3,
        r.map_codec.field_4 == field_4,
        r.map_codec.field_5 == field_5,
        r.map_codec.field_6 == field_6,
        r.map_codec.field_7 == field_7,
        r.map_codec.field_8 == field_8,
        r.map_codec.apply_function == f,
{
    MapCodecCodec::new(StructMapCodec8 { field_1, field_2, field_3, field_4, field_5, field_6, field_7, field_8, apply_function: f })
}

impl<
    C1: MapCodec,
    G1: FieldGetter<Field = C1::Value>,
    C2: MapCodec,
    G2: FieldGetter<Field = C2::Value, Record = G1::Record>,
    C3: MapCodec,
    G3: FieldGetter<Field = C3::Value, Record = G1::Record>,
    C4: MapCodec,
    G4: FieldGetter<Field = C4::Value, Record = G1::Record>,
    C5: MapCodec,
    G5: FieldGetter<Field = C5::Value, Record = G1::Record>,
    C6: MapCodec,
    G6: FieldGetter<Field = C6::Value, Record = G1::Record>,
    C7: MapCodec,
    G7: FieldGetter<Field = C7::Value, Record = G1::Record>,
    C8: MapCodec,
    G8: FieldGetter<Field = C8::Value, Record = G1::Record>,
    F: RecordCtor8<V1 = C1::Value, V2 = C2::Value, V3 = C3::Value, V4 = C4::Value, V5 = C5::Value, V6 = C6::Value, V7 = C7::Value, V8 = C8::Value, Record = G1::Record>,
> HasValue for StructMapCodec8<C1, G1, C2, G2, C3, G3, C4, G4, C5, G5, C6, G6, C7, G7, C8, G8, F> {
    type Value = G1::Record;
}

impl<
    C1: MapCodec,
    G1: FieldGetter<Field = C1::Value>,
    C2: MapCodec,
    G2: FieldGetter<Field = C2::Value, Record = G1::Record>,
    C3: MapCodec,
    G3: FieldGetter<Field = C3::Value, Record = G1::Record>,
    C4: MapCodec,
    G4: FieldGetter<Field = C4::Value, Record = G1::Record>,
    C5: MapCodec,
    G5: FieldGetter<Field = C5::Value, Record = G1::Record>,
    C6: MapCodec,
    G6: FieldGetter<Field = C6::Value, Record = G1::Record>,
    C7: MapCodec,
    G7: FieldGetter<Field = C7::Value, Record = G1::Record>,
    C8: MapCodec,
    G8: FieldGetter<Field = C8::Value, Record = G1::Record>,
    F: RecordCtor8<V1 = C1::Value, V2 = C2::Value, V3 = C3::Value, V4 = C4::Value, V5 = C5::Value, V6 = C6::Value, V7 = C7::Value, V8 = C8::Value, Record = G1::Record>,
> MapCodec for StructMapCodec8<C1, G1, C2, G2, C3, G3, C4, G4, C5, G5, C6, G6, C7, G7, C8, G8, F> {
    open spec fn keys_spec(&self) -> Seq<Seq<char>> {
        self.field_1.map_codec.keys_spec() + self.field_2.map_codec.keys_spec() + self.field_3.map_codec.keys_spec() + self.field_4.map_codec.keys_spec() + self.field_5.map_codec.keys_spec() + self.field_6.map_codec.keys_spec() + self.field_7.map_codec.keys_spec() + self.field_8.map_codec.keys_spec()
    }

    fn keys(&self) -> (r: Vec<String>) {
        let mut out = self.field_1.map_codec.keys();
        let more_2 = self.field_2.map_codec.keys();
        concat_keys(&mut out, &more_2);
        let more_3 = self.field_3.map_codec.keys();
        concat_keys(&mut out, &more_3);
        let more_4 = self.field_4.map_codec.keys();
        concat_keys(&mut out, &more_4);
        let more_5 = self.field_5.map_codec.keys();
        concat_keys(&mut out, &more_5);
        let more_6 = self.field_6.map_codec.keys();
        concat_keys(&mut out, &more_6);
        let more_7 = self.field_7.map_codec.keys();
        concat_keys(&mut out, &more_7);
        let more_8 = self.field_8.map_codec.keys();
        concat_keys(&mut out, &more_8);
        proof {
            assert(str_views(out@) =~= self.keys_spec());
        }
        out
    }

    open spec fn map_encode_spec(
        &self,
        input: <G1::Record as DeepView>::V,
        ops: JsonOps,
        builder: StructBuilderV,
    ) -> StructBuilderV {
        self.field_8.map_codec.map_encode_spec(
            self.field_8.getter.get_spec(input),
            ops,
            self.field_7.map_codec.map_encode_spec(
            self.field_7.getter.get_spec(input),
            ops,
            self.field_6.map_codec.map_encode_spec(
            self.field_6.getter.get_spec(input),
            ops,
            self.field_5.map_codec.map_encode_spec(
            self.field_5.getter.get_spec(input),
            ops,
            self.field_4.map_codec.map_encode_spec(
            self.field_4.getter.get_spec(input),
            ops,
            self.field_3.map_codec.map_encode_spec(
            self.field_3.getter.get_spec(input),
            ops,
            self.field_2.map_codec.map_encode_spec(
            self.field_2.getter.get_spec(input),
            ops,
            self.field_1.map_codec.map_encode_spec(
            self.field_1.getter.get_spec(input),
            ops,
            builder,
        ),
        ),
        ),
        ),
        ),
        ),
        ),
        )
    }

    fn encode(&self, input: &G1::Record, ops: &JsonOps, prefix: EncoderStructBuilder) -> (r:
        EncoderStructBuilder) {
        let v1 = self.field_1.getter.get(input);
        let prefix = self.field_1.map_codec.encode(v1, ops, prefix);
        let v2 = self.field_2.getter.get(input);
        let prefix = self.field_2.map_codec.encode(v2, ops, prefix);
        let v3 = self.field_3.getter.get(input);
        let prefix = self.field_3.map_codec.encode(v3, ops, prefix);
        let v4 = self.field_4.getter.get(input);
        let prefix = self.field_4.map_codec.encode(v4, ops, prefix);
        let v5 = self.field_5.getter.get(input);
        let prefix = self.field_5.map_codec.encode(v5, ops, prefix);
        let v6 = self.field_6.getter.get(input);
        let prefix = self.field_6.map_codec.encode(v6, ops, prefix);
        let v7 = self.field_7.getter.get(input);
        let prefix = self.field_7.map_codec.encode(v7, ops, prefix);
        let v8 = self.field_8.getter.get(input);
        let prefix = self.field_8.map_codec.encode(v8, ops, prefix);
        prefix
    }

    open spec fn map_decode_spec(
        &self,
        entries: Seq<(Seq<char>, JsonV)>,
        ops: JsonOps,
    ) -> DataResultV<<G1::Record as DeepView>::V> {
        apply8_v(
            self.field_1.map_codec.map_decode_spec(entries, ops),
            self.field_2.map_codec.map_decode_spec(entries, ops),
            self.field_3.map_codec.map_decode_spec(entries, ops),
            self.field_4.map_codec.map_decode_spec(entries, ops),
            self.field_5.map_codec.map_decode_spec(entries, ops),
            self.field_6.map_codec.map_decode_spec(entries, ops),
            self.field_7.map_codec.map_decode_spec(entries, ops),
            self.field_8.map_codec.map_decode_spec(entries, ops),
            |v1, v2, v3, v4, v5, v6, v7, v8| self.apply_function.make_spec(v1, v2, v3, v4, v5, v6, v7, v8),
        )
    }

    fn decode(&self, input: &MapLike, ops: &JsonOps) -> (r: DataResult<G1::Record>) {
        let r1 = self.field_1.map_codec.decode(input, ops);
        let r2 = self.field_2.map_codec.decode(input, ops);
        let r3 = self.field_3.map_codec.decode(input, ops);
        let r4 = self.field_4.map_codec.decode(input, ops);
        let r5 = self.field_5.map_codec.decode(input, ops);
        let r6 = self.field_6.map_codec.decode(input, ops);
        let r7 = self.field_7.map_codec.decode(input, ops);
        let r8 = self.field_8.map_codec.decode(input, ops);
        let all_success = r1.is_success() && r2.is_success() && r3.is_success() && r4.is_success() && r5.is_success() && r6.is_success() && r7.is_success() && r8.is_success();
        let (p1, m1) = split_result(r1);
        let (p2, m2) = split_result(r2);
        let (p3, m3) = split_result(r3);
        let (p4, m4) = split_result(r4);
        let (p5, m5) = split_result(r5);
        let (p6, m6) = split_result(r6);
        let (p7, m7) = split_result(r7);
        let (p8, m8) = split_result(r8);
        let merged = merge_messages(merge_messages(merge_messages(merge_messages(merge_messages(merge_messages(merge_messages(m1, m2), m3), m4), m5), m6), m7), m8);
        match (p1, p2, p3, p4, p5, p6, p7, p8) {
            (Some(a1), Some(a2), Some(a3), Some(a4), Some(a5), Some(a6), Some(a7), Some(a8)) => {
                let value = self.apply_function.make(a1, a2, a3, a4, a5, a6, a7, a8);
                if all_success {
                    DataResult::Success { result: value, lifecycle: Lifecycle::Experimental }
                } else {
                    match merged {
                        Some(message) => DataResult::Error {
                            partial_result: Some(value),
                            lifecycle: Lifecycle::Experimental,
                            message,
                        },
                        None => vstd::pervasive::unreached(),
                    }
                }
            },
            _ => {
                match merged {
                    Some(message) => DataResult::Error {
                        partial_result: None,
                        lifecycle: Lifecycle::Experimental,
                        message,
                    },
                    None => vstd::pervasive::unreached(),
                }
            },
        }
    }
}

/// How a struct codec of nine fields rebuilds a record while decoding.
pub trait RecordCtor9 {
    type V1: DeepView;

    type V2: DeepView;

    type V3: DeepView;

    type V4: DeepView;

    type V5: DeepView;

    type V6: DeepView;

    type V7: DeepView;

    type V8: DeepView;

    type V9: DeepView;

    type Record: DeepView;

    /// The record built from the fields, at the specification level.
    spec fn make_spec(
        &self,
        v1: <Self::V1 as DeepView>::V,
        v2: <Self::V2 as DeepView>::V,
        v3: <Self::V3 as DeepView>::V,
        v4: <Self::V4 as DeepView>::V,
        v5: <Self::V5 as DeepView>::V,
        v6: <Self::V6 as DeepView>::V,
        v7: <Self::V7 as DeepView>::V,
        v8: <Self::V8 as DeepView>::V,
        v9: <Self::V9 as DeepView>::V,
    ) -> <Self::Record as DeepView>::V;

    /// Builds the record from the decoded fields.
    fn make(&self, v1: Self::V1, v2: Self::V2, v3: Self::V3, v4: Self::V4, v5: Self::V5, v6: Self::V6, v7: Self::V7, v8: Self::V8, v9: Self::V9) -> (r: Self::Record)
        ensures
            r.deep_view() == self.make_spec(
                v1.deep_view(),
                v2.deep_view(),
                v3.deep_view(),
                v4.deep_view(),
                v5.deep_view(),
                v6.deep_view(),
                v7.deep_view(),
                v8.deep_view(),
                v9.deep_view(),
            ),
    ;
}

/// Nine decode results combined by the applicative rules.
pub open spec fn apply9_v<V1, V2, V3, V4, V5, V6, V7, V8, V9, T>(
    r1: DataResultV<V1>,
    r2: DataResultV<V2>,
    r3: DataResultV<V3>,
    r4: DataResultV<V4>,
    r5: DataResultV<V5>,
    r6: DataResultV<V6>,
    r7: DataResultV<V7>,
    r8: DataResultV<V8>,
    r9: DataResultV<V9>,
    f: spec_fn(V1, V2, V3, V4, V5, V6, V7, V8, V9) -> T,
) -> DataResultV<T> {
    let merged = merge_msg_opt(merge_msg_opt(merge_msg_opt(merge_msg_opt(merge_msg_opt(merge_msg_opt(merge_msg_opt(merge_msg_opt(r1.message_of(), r2.message_of()), r3.message_of()), r4.message_of()), r5.message_of()), r6.message_of()), r7.message_of()), r8.message_of()), r9.message_of());
    match (r1.value_of(), r2.value_of(), r3.value_of(), r4.value_of(), r5.value_of(), r6.value_of(), r7.value_of(), r8.value_of(), r9.value_of()) {
        (Some(a1), Some(a2), Some(a3), Some(a4), Some(a5), Some(a6), Some(a7), Some(a8), Some(a9)) => {
            if r1 is Success && r2 is Success && r3 is Success && r4 is Success && r5 is Success && r6 is Success && r7 is Success && r8 is Success && r9 is Success {
                DataResultV::Success { result: f(a1, a2, a3, a4, a5, a6, a7, a8, a9), lifecycle: Lifecycle::Experimental }
            } else {
                DataResultV::Error {
                    partial_result: Some(f(a1, a2, a3, a4, a5, a6, a7, a8, a9)),
                    lifecycle: Lifecycle::Experimental,
                    message: merged->0,
                }
            }
        },
        _ => DataResultV::Error {
            partial_result: None,
            lifecycle: Lifecycle::Experimental,
            message: merged->0,
        },
    }
}

/// A map codec for a record with nine rigid fields.
pub struct StructMapCodec9<C1: MapCodec, G1, C2: MapCodec, G2, C3: MapCodec, G3, C4: MapCodec, G4, C5: MapCodec, G5, C6: MapCodec, G6, C7: MapCodec, G7, C8: MapCodec, G8, C9: MapCodec, G9, F> {
    pub field_1: Field<C1, G1>,
    pub field_2: Field<C2, G2>,
    pub field_3: Field<C3, G3>,
    pub field_4: Field<C4, G4>,
    pub field_5: Field<C5, G5>,
    pub field_6: Field<C6, G6>,
    pub field_7: Field<C7, G7>,
    pub field_8: Field<C8, G8>,
    pub field_9: Field<C9, G9>,
    pub apply_function: F,
}

/// Returns a struct codec with nine fields.
pub fn struct_9<
    C1: MapCodec,
    G1: FieldGetter<Field = C1::Value>,
    C2: MapCodec,
    G2: FieldGetter<Field = C2::Value, Record = G1::Record>,
    C3: MapCodec,
    G3: FieldGetter<Field = C3::Value, Record = G1::Record>,
    C4: MapCodec,
    G4: FieldGetter<Field = C4::Value, Record = G1::Record>,
    C5: MapCodec,
    G5: FieldGetter<Field = C5::Value, Record = G1::Record>,
    C6: MapCodec,
    G6: FieldGetter<Field = C6::Value, Record = G1::Record>,
    C7: MapCodec,
    G7: FieldGetter<Field = C7::Value, Record = G1::Record>,
    C8: MapCodec,
    G8: FieldGetter<Field = C8::Value, Record = G1::Record>,
    C9: MapCodec,
    G9: FieldGetter<Field = C9::Value, Record = G1::Record>,
    F: RecordCtor9<V1 = C1::Value, V2 = C2::Value, V3 = C3::Value, V4 = C4::Value, V5 = C5::Value, V6 = C6::Value, V7 = C7::Value, V8 = C8::Value, V9 = C9::Value, Record = G1::Record>,
>(
    field_1: Field<C1, G1>,
    field_2: Field<C2, G2>,
    field_3: Field<C3, G3>,
    field_4: Field<C4, G4>,
    field_5: Field<C5, G5>,
    field_6: Field<C6, G6>,
    field_7: Field<C7, G7>,
    field_8: Field<C8, G8>,
    field_9: Field<C9, G9>,
    f: F,
) -> (r: MapCodecCodec<StructMapCodec9<C1, G1, C2, G2, C3, G3, C4, G4, C5, G5, C6, G6, C7, G7, C8, G8, C9, G9, F>>)
    ensures
        r.map_codec.field_1 == field_1,
        r.map_codec.field_2 == field_2,
        r.map_codec.field_3 == field_3,
        r.map_codec.field_4 == field_4,
        r.map_codec.field_5 == field_5,
        r.map_codec.field_6 == field_6,
        r.map_codec.field_7 == field_7,
        r.map_codec.field_8 == field_8,
        r.map_codec.field_9 == field_9,
        r.map_codec.apply_function == f,
{
    MapCodecCodec::new(StructMapCodec9 { field_1, field_2, field_3, field_4, field_5, field_6, field_7, field_8, field_9, apply_function: f })
}

impl<
    C1: MapCodec,
    G1: FieldGetter<Field = C1::Value>,
    C2: MapCodec,
    G2: FieldGetter<Field = C2::Value, Record = G1::Record>,
    C3: MapCodec,
    G3: FieldGetter<Field = C3::Value, Record = G1::Record>,
    C4: MapCodec,
    G4: FieldGetter<Field = C4::Value, Record = G1::Record>,
    C5: MapCodec,
    G5: FieldGetter<Field = C5::Value, Record = G1::Record>,
    C6: MapCodec,
    G6: FieldGetter<Field = C6::Value, Record = G1::Record>,
    C7: MapCodec,
    G7: FieldGetter<Field = C7::Value, Record = G1::Record>,
    C8: MapCodec,
    G8: FieldGetter<Field = C8::Value, Record = G1::Record>,
    C9: MapCodec,
    G9: FieldGetter<Field = C9::Value, Record = G1::Record>,
    F: RecordCtor9<V1 = C1::Value, V2 = C2::Value, V3 = C3::Value, V4 = C4::Value, V5 = C5::Value, V6 = C6::Value, V7 = C7::Value, V8 = C8::Value, V9 = C9::Value, Record = G1::Record>,
> HasValue for StructMapCodec9<C1, G1, C2, G2, C3, G3, C4, G4, C5, G5, C6, G6, C7, G7, C8, G8, C9, G9, F> {
    type Value = G1::Record;
}

impl<
    C1: MapCodec,
    G1: FieldGetter<Field = C1::Value>,
    C2: MapCodec,
    G2: FieldGetter<Field = C2::Value, Record = G1::Record>,
    C3: MapCodec,
    G3: FieldGetter<Field = C3::Value, Record = G1::Record>,
    C4: MapCodec,
    G4: FieldGetter<Field = C4::Value, Record = G1::Record>,
    C5: MapCodec,
    G5: FieldGetter<Field = C5::Value, Record = G1::Record>,
    C6: MapCodec,
    G6: FieldGetter<Field = C6::Value, Record = G1::Record>,
    C7: MapCodec,
    G7: FieldGetter<Field = C7::Value, Record = G1::Record>,
    C8: MapCodec,
    G8: FieldGetter<Field = C8::Value, Record = G1::Record>,
    C9: MapCodec,
    G9: FieldGetter<Field = C9::Value, Record = G1::Record>,
    F: RecordCtor9<V1 = C1::Value, V2 = C2::Value, V3 = C3::Value, V4 = C4::Value, V5 = C5::Value, V6 = C6::Value, V7 = C7::Value, V8 = C8::Value, V9 = C9::Value, Record = G1::Record>,
> MapCodec for StructMapCodec9<C1, G1, C2, G2, C3, G3, C4, G4, C5, G5, C6, G6, C7, G7, C8, G8, C9, G9, F> {
    open spec fn keys_spec(&self) -> Seq<Seq<char>> {
        self.field_1.map_codec.keys_spec() + self.field_2.map_codec.keys_spec() + self.field_3.map_codec.keys_spec() + self.field_4.map_codec.keys_spec() + self.field_5.map_codec.keys_spec() + self.field_6.map_codec.keys_spec() + self.field_7.map_codec.keys_spec() + self.field_8.map_codec.keys_spec() + self.field_9.map_codec.keys_spec()
    }

    fn keys(&self) -> (r: Vec<String>) {
        let mut out = self.field_1.map_codec.keys();
        let more_2 = self.field_2.map_codec.keys();
        concat_keys(&mut out, &more_2);
        let more_3 = self.field_3.map_codec.keys();
        concat_keys(&mut out, &more_3);
        let more_4 = self.field_4.map_codec.keys();
        concat_keys(&mut out, &more_4);
        let more_5 = self.field_5.map_codec.keys();
        concat_keys(&mut out, &more_5);
        let more_6 = self.field_6.map_codec.keys();
        concat_keys(&mut out, &more_6);
        let more_7 = self.field_7.map_codec.keys();
        concat_keys(&mut out, &more_7);
        let more_8 = self.field_8.map_codec.keys();
        concat_keys(&mut out, &more_8);
        let more_9 = self.field_9.map_codec.keys();
        concat_keys(&mut out, &more_9);
        proof {
            assert(str_views(out@) =~= self.keys_spec());
        }
        out
    }

    open spec fn map_encode_spec(
        &self,
        input: <G1::Record as DeepView>::V,
        ops: JsonOps,
        builder: StructBuilderV,
    ) -> StructBuilderV {
        self.field_9.map_codec.map_encode_spec(
            self.field_9.getter.get_spec(input),
            ops,
            self.field_8.map_codec.map_encode_spec(
            self.field_8.getter.get_spec(input),
            ops,
            self.field_7.map_codec.map_encode_spec(
            self.field_7.getter.get_spec(input),
            ops,
            self.field_6.map_codec.map_encode_spec(
            self.field_6.getter.get_spec(input),
            ops,
            self.field_5.map_codec.map_encode_spec(
            self.field_5.getter.get_spec(input),
            ops,
            self.field_4.map_codec.map_encode_spec(
            self.field_4.getter.get_spec(input),
            ops,
            self.field_3.map_codec.map_encode_spec(
            self.field_3.getter.get_spec(input),
            ops,
            self.field_2.map_codec.map_encode_spec(
            self.field_2.getter.get_spec(input),
            ops,
            self.field_1.map_codec.map_encode_spec(
            self.field_1.getter.get_spec(input),
            ops,
            builder,
        ),
        ),
        ),
        ),
        ),
        ),
        ),
        ),
        )
    }

    fn encode(&self, input: &G1::Record, ops: &JsonOps, prefix: EncoderStructBuilder) -> (r:
        EncoderStructBuilder) {
        let v1 = self.field_1.getter.get(input);
        let prefix = self.field_1.map_codec.encode(v1, ops, prefix);
        let v2 = self.field_2.getter.get(input);
        let prefix = self.field_2.map_codec.encode(v2, ops, prefix);
        let v3 = self.field_3.getter.get(input);
        let prefix = self.field_3.map_codec.encode(v3, ops, prefix);
        let v4 = self.field_4.getter.get(input);
        let prefix = self.field_4.map_codec.encode(v4, ops, prefix);
        let v5 = self.field_5.getter.get(input);
        let prefix = self.field_5.map_codec.encode(v5, ops, prefix);
        let v6 = self.field_6.getter.get(input);
        let prefix = self.field_6.map_codec.encode(v6, ops, prefix);
        let v7 = self.field_7.getter.get(input);
        let prefix = self.field_7.map_codec.encode(v7, ops, prefix);
        let v8 = self.field_8.getter.get(input);
        let prefix = self.field_8.map_codec.encode(v8, ops, prefix);
        let v9 = self.field_9.getter.get(input);
        let prefix = self.field_9.map_codec.encode(v9, ops, prefix);
        prefix
    }

    open spec fn map_decode_spec(
        &self,
        entries: Seq<(Seq<char>, JsonV)>,
        ops: JsonOps,
    ) -> DataResultV<<G1::Record as DeepView>::V> {
        apply9_v(
            self.field_1.map_codec.map_decode_spec(entries, ops),
            self.field_2.map_codec.map_decode_spec(entries, ops),
            self.field_3.map_codec.map_decode_spec(entries, ops),
            self.field_4.map_codec.map_decode_spec(entries, ops),
            self.field_5.map_codec.map_decode_spec(entries, ops),
            self.field_6.map_codec.map_decode_spec(entries, ops),
            self.field_7.map_codec.map_decode_spec(entries, ops),
            self.field_8.map_codec.map_decode_spec(entries, ops),
            self.field_9.map_codec.map_decode_spec(entries, ops),
            |v1, v2, v3, v4, v5, v6, v7, v8, v9| self.apply_function.make_spec(v1, v2, v3, v4, v5, v6, v7, v8, v9),
        )
    }

    fn decode(&self, input: &MapLike, ops: &JsonOps) -> (r: DataResult<G1::Record>) {
        let r1 = self.field_1.map_codec.decode(input, ops);
        let r2 = self.field_2.map_codec.decode(input, ops);
        let r3 = self.field_3.map_codec.decode(input, ops);
        let r4 = self.field_4.map_codec.decode(input, ops);
        let r5 = self.field_5.map_codec.decode(input, ops);
        let r6 = self.field_6.map_codec.decode(input, ops);
        let r7 = self.field_7.map_codec.decode(input, ops);
        let r8 = self.field_8.map_codec.decode(input, ops);
        let r9 = self.field_9.map_codec.decode(input, ops);
        let all_success = r1.is_success() && r2.is_success() && r3.is_success() && r4.is_success() && r5.is_success() && r6.is_success() && r7.is_success() && r8.is_success() && r9.is_success();
        let (p1, m1) = split_result(r1);
        let (p2, m2) = split_result(r2);
        let (p3, m3) = split_result(r3);
        let (p4, m4) = split_result(r4);
        let (p5, m5) = split_result(r5);
        let (p6, m6) = split_result(r6);
        let (p7, m7) = split_result(r7);
        let (p8, m8) = split_result(r8);
        let (p9, m9) = split_result(r9);
        let merged = merge_messages(merge_messages(merge_messages(merge_messages(merge_messages(merge_messages(merge_messages(merge_messages(m1, m2), m3), m4), m5), m6), m7), m8), m9);
        match (p1, p2, p3, p4, p5, p6, p7, p8, p9) {
            (Some(a1), Some(a2), Some(a3), Some(a4), Some(a5), Some(a6), Some(a7), Some(a8), Some(a9)) => {
                let value = self.apply_function.make(a1, a2, a3, a4, a5, a6, a7, a8, a9);
                if all_success {
                    DataResult::Success { result: value, lifecycle: Lifecycle::Experimental }
                } else {
                    match merged {
                        Some(message) => DataResult::Error {
                            partial_result: Some(value),
                            lifecycle: Lifecycle::Experimental,
                            message,
                        },
                        None => vstd::pervasive::unreached(),
                    }
                }
            },
            _ => {
                match merged {
                    Some(message) => DataResult::Error {
                        partial_result: None,
                        lifecycle: Lifecycle::Experimental,
                        message,
                    },
                    None => vstd::pervasive::unreached(),
                }
            },
        }
    }
}

/// How a struct codec of ten fields rebuilds a record while decoding.
pub trait RecordCtor10 {
    type V1: DeepView;

    type V2: DeepView;

    type V3: DeepView;

    type V4: DeepView;

    type V5: DeepView;

    type V6: DeepView;

    type V7: DeepView;

    type V8: DeepView;

    type V9: DeepView;

    type V10: DeepView;

    type Record: DeepView;

    /// The record built from the fields, at the specification level.
    spec fn make_spec(
        &self,
        v1: <Self::V1 as DeepView>::V,
        v2: <Self::V2 as DeepView>::V,
        v3: <Self::V3 as DeepView>::V,
        v4: <Self::V4 as DeepView>::V,
        v5: <Self::V5 as DeepView>::V,
        v6: <Self::V6 as DeepView>::V,
        v7: <Self::V7 as DeepView>::V,
        v8: <Self::V8 as DeepView>::V,
        v9: <Self::V9 as DeepView>::V,
        v10: <Self::V10 as DeepView>::V,
    ) -> <Self::Record as DeepView>::V;

    /// Builds the record from the decoded fields.
    fn make(&self, v1: Self::V1, v2: Self::V2, v3: Self::V3, v4: Self::V4, v5: Self::V5, v6: Self::V6, v7: Self::V7, v8: Self::V8, v9: Self::V9, v10: Self::V10) -> (r: Self::Record)
        ensures
            r.deep_view() == self.make_spec(
                v1.deep_view(),
                v2.deep_view(),
                v3.deep_view(),
                v4.deep_view(),
                v5.deep_view(),
                v6.deep_view(),
                v7.deep_view(),
                v8.deep_view(),
                v9.deep_view(),
                v10.deep_view(),
            ),
    ;
}

/// Ten decode results combined by the applicative rules.
pub open spec fn apply10_v<V1, V2, V3, V4, V5, V6, V7, V8, V9, V10, T>(
    r1: DataResultV<V1>,
    r2: DataResultV<V2>,
    r3: DataResultV<V3>,
    r4: DataResultV<V4>,
    r5: DataResultV<V5>,
    r6: DataResultV<V6>,
    r7: DataResultV<V7>,
    r8: DataResultV<V8>,
    r9: DataResultV<V9>,
    r10: DataResultV<V10>,
    f: spec_fn(V1, V2, V3, V4, V5, V6, V7, V8, V9, V10) -> T,
) -> DataResultV<T> {
    let merged = merge_msg_opt(merge_msg_opt(merge_msg_opt(merge_msg_opt(merge_msg_opt(merge_msg_opt(merge_msg_opt(merge_msg_opt(merge_msg_opt(r1.message_of(), r2.message_of()), r3.message_of()), r4.message_of()), r5.message_of()), r6.message_of()), r7.message_of()), r8.message_of()), r9.message_of()), r10.message_of());
    match (r1.value_of(), r2.value_of(), r3.value_of(), r4.value_of(), r5.value_of(), r6.value_of(), r7.value_of(), r8.value_of(), r9.value_of(), r10.value_of()) {
        (Some(a1), Some(a2), Some(a3), Some(a4), Some(a5), Some(a6), Some(a7), Some(a8), Some(a9), Some(a10)) => {
            if r1 is Success && r2 is Success && r3 is Success && r4 is Success && r5 is Success && r6 is Success && r7 is Success && r8 is Success && r9 is Success && r10 is Success {
                DataResultV::Success { result: f(a1, a2, a3, a4, a5, a6, a7, a8, a9, a10), lifecycle: Lifecycle::Experimental }
            } else {
                DataResultV::Error {
                    partial_result: Some(f(a1, a2, a3, a4, a5, a6, a7, a8, a9, a10)),
                    lifecycle: Lifecycle::Experimental,
                    message: merged->0,
                }
            }
        },
        _ => DataResultV::Error {
            partial_result: None,
            lifecycle: Lifecycle::Experimental,
            message: merged->0,
        },
    }
}

/// A map codec for a record with ten rigid fields.
pub struct StructMapCodec10<C1: MapCodec, G1, C2: MapCodec, G2, C3: MapCodec, G3, C4: MapCodec, G4, C5: MapCodec, G5, C6: MapCodec, G6, C7: MapCodec, G7, C8: MapCodec, G8, C9: MapCodec, G9, C10: MapCodec, G10, F> {
    pub field_1: Field<C1, G1>,
    pub field_2: Field<C2, G2>,
    pub field_3: Field<C3, G3>,
    pub field_4: Field<C4, G4>,
    pub field_5: Field<C5, G5>,
    pub field_6: Field<C6, G6>,
    pub field_7: Field<C7, G7>,
    pub field_8: Field<C8, G8>,
    pub field_9: Field<C9, G9>,
    pub field_10: Field<C10, G10>,
    pub apply_function: F,
}

/// Returns a struct codec with ten fields.
pub fn struct_10<
    C1: MapCodec,
    G1: FieldGetter<Field = C1::Value>,
    C2: MapCodec,
    G2: FieldGetter<Field = C2::Value, Record = G1::Record>,
    C3: MapCodec,
    G3: FieldGetter<Field = C3::Value, Record = G1::Record>,
    C4: MapCodec,
    G4: FieldGetter<Field = C4::Value, Record = G1::Record>,
    C5: MapCodec,
    G5: FieldGetter<Field = C5::Value, Record = G1::Record>,
    C6: MapCodec,
    G6: FieldGetter<Field = C6::Value, Record = G1::Record>,
    C7: MapCodec,
    G7: FieldGetter<Field = C7::Value, Record = G1::Record>,
    C8: MapCodec,
    G8: FieldGetter<Field = C8::Value, Record = G1::Record>,
    C9: MapCodec,
    G9: FieldGetter<Field = C9::Value, Record = G1::Record>,
    C10: MapCodec,
    G10: FieldGetter<Field = C10::Value, Record = G1::Record>,
    F: RecordCtor10<V1 = C1::Value, V2 = C2::Value, V3 = C3::Value, V4 = C4::Value, V5 = C5::Value, V6 = C6::Value, V7 = C7::Value, V8 = C8::Value, V9 = C9::Value, V10 = C10::Value, Record = G1::Record>,
>(
    field_1: Field<C1, G1>,
    field_2: Field<C2, G2>,
    field_3: Field<C3, G3>,
    field_4: Field<C4, G4>,
    field_5: Field<C5, G5>,
    field_6: Field<C6, G6>,
    field_7: Field<C7, G7>,
    field_8: Field<C8, G8>,
    field_9: Field<C9, G9>,
    field_10: Field<C10, G10>,
    f: F,
) -> (r: MapCodecCodec<StructMapCodec10<C1, G1, C2, G2, C3, G3, C4, G4, C5, G5, C6, G6, C7, G7, C8, G8, C9, G9, C10, G10, F>>)
    ensures
        r.map_codec.field_1 == field_1,
        r.map_codec.field_2 == field_2,
        r.map_codec.field_3 == field_3,
        r.map_codec.field_4 == field_4,
        r.map_codec.field_5 == field_5,
        r.map_codec.field_6 == field_6,
        r.map_codec.field_7 == field_7,
        r.map_codec.field_8 == field_8,
        r.map_codec.field_9 == field_9,
        r.map_codec.field_10 == field_10,
        r.map_codec.apply_function == f,
{
    MapCodecCodec::new(StructMapCodec10 { field_1, field_2, field_3, field_4, field_5, field_6, field_7, field_8, field_9, field_10, apply_function: f })
}

impl<
    C1: MapCodec,
    G1: FieldGetter<Field = C1::Value>,
    C2: MapCodec,
    G2: FieldGetter<Field = C2::Value, Record = G1::Record>,
    C3: MapCodec,
    G3: FieldGetter<Field = C3::Value, Record = G1::Record>,
    C4: MapCodec,
    G4: FieldGetter<Field = C4::Value, Record = G1::Record>,
    C5: MapCodec,
    G5: FieldGetter<Field = C5::Value, Record = G1::Record>,
    C6: MapCodec,
    G6: FieldGetter<Field = C6::Value, Record = G1::Record>,
    C7: MapCodec,
    G7: FieldGetter<Field = C7::Value, Record = G1::Record>,
    C8: MapCodec,
    G8: FieldGetter<Field = C8::Value, Record = G1::Record>,
    C9: MapCodec,
    G9: FieldGetter<Field = C9::Value, Record = G1::Record>,
    C10: MapCodec,
    G10: FieldGetter<Field = C10::Value, Record = G1::Record>,
    F: RecordCtor10<V1 = C1::Value, V2 = C2::Value, V3 = C3::Value, V4 = C4::Value, V5 = C5::Value, V6 = C6::Value, V7 = C7::Value, V8 = C8::Value, V9 = C9::Value, V10 = C10::Value, Record = G1::Record>,
> HasValue for StructMapCodec10<C1, G1, C2, G2, C3, G3, C4, G4, C5, G5, C6, G6, C7, G7, C8, G8, C9, G9, C10, G10, F> {
    type Value = G1::Record;
}

impl<
    C1: MapCodec,
    G1: FieldGetter<Field = C1::Value>,
    C2: MapCodec,
    G2: FieldGetter<Field = C2::Value, Record = G1::Record>,
    C3: MapCodec,
    G3: FieldGetter<Field = C3::Value, Record = G1::Record>,
    C4: MapCodec,
    G4: FieldGetter<Field = C4::Value, Record = G1::Record>,
    C5: MapCodec,
    G5: FieldGetter<Field = C5::Value, Record = G1::Record>,
    C6: MapCodec,
    G6: FieldGetter<Field = C6::Value, Record = G1::Record>,
    C7: MapCodec,
    G7: FieldGetter<Field = C7::Value, Record = G1::Record>,
    C8: MapCodec,
    G8: FieldGetter<Field = C8::Value, Record = G1::Record>,
    C9: MapCodec,
    G9: FieldGetter<Field = C9::Value, Record = G1::Record>,
    C10: MapCodec,
    G10: FieldGetter<Field = C10::Value, Record = G1::Record>,
    F: RecordCtor10<V1 = C1::Value, V2 = C2::Value, V3 = C3::Value, V4 = C4::Value, V5 = C5::Value, V6 = C6::Value, V7 = C7::Value, V8 = C8::Value, V9 = C9::Value, V10 = C10::Value, Record = G1::Record>,
> MapCodec for StructMapCodec10<C1, G1, C2, G2, C3, G3, C4, G4, C5, G5, C6, G6, C7, G7, C8, G8, C9, G9, C10, G10, F> {
    open spec fn keys_spec(&self) -> Seq<Seq<char>> {
        self.field_1.map_codec.keys_spec() + self.field_2.map_codec.keys_spec() + self.field_3.map_codec.keys_spec() + self.field_4.map_codec.keys_spec() + self.field_5.map_codec.keys_spec() + self.field_6.map_codec.keys_spec() + self.field_7.map_codec.keys_spec() + self.field_8.map_codec.keys_spec() + self.field_9.map_codec.keys_spec() + self.field_10.map_codec.keys_spec()
    }

    fn keys(&self) -> (r: Vec<String>) {
        let mut out = self.field_1.map_codec.keys();
        let more_2 = self.field_2.map_codec.keys();
        concat_keys(&mut out, &more_2);
        let more_3 = self.field_3.map_codec.keys();
        concat_keys(&mut out, &more_3);
        let more_4 = self.field_4.map_codec.keys();
        concat_keys(&mut out, &more_4);
        let more_5 = self.field_5.map_codec.keys();
        concat_keys(&mut out, &more_5);
        let more_6 = self.field_6.map_codec.keys();
        concat_keys(&mut out, &more_6);
        let more_7 = self.field_7.map_codec.keys();
        concat_keys(&mut out, &more_7);
        let more_8 = self.field_8.map_codec.keys();
        concat_keys(&mut out, &more_8);
        let more_9 = self.field_9.map_codec.keys();
        concat_keys(&mut out, &more_9);
        let more_10 = self.field_10.map_codec.keys();
        concat_keys(&mut out, &more_10);
        proof {
            assert(str_views(out@) =~= self.keys_spec());
        }
        out
    }

    open spec fn map_encode_spec(
        &self,
        input: <G1::Record as DeepView>::V,
        ops: JsonOps,
        builder: StructBuilderV,
    ) -> StructBuilderV {
        self.field_10.map_codec.map_encode_spec(
            self.field_10.getter.get_spec(input),
            ops,
            self.field_9.map_codec.map_encode_spec(
            self.field_9.getter.get_spec(input),
            ops,
            self.field_8.map_codec.map_encode_spec(
            self.field_8.getter.get_spec(input),
            ops,
            self.field_7.map_codec.map_encode_spec(
            self.field_7.getter.get_spec(input),
            ops,
            self.field_6.map_codec.map_encode_spec(
            self.field_6.getter.get_spec(input),
            ops,
            self.field_5.map_codec.map_encode_spec(
            self.field_5.getter.get_spec(input),
            ops,
            self.field_4.map_codec.map_encode_spec(
            self.field_4.getter.get_spec(input),
            ops,
            self.field_3.map_codec.map_encode_spec(
            self.field_3.getter.get_spec(input),
            ops,
            self.field_2.map_codec.map_encode_spec(
            self.field_2.getter.get_spec(input),
            ops,
            self.field_1.map_codec.map_encode_spec(
            self.field_1.getter.get_spec(input),
            ops,
            builder,
        ),
        ),
        ),
        ),
        ),
        ),
        ),
        ),
        ),
        )
    }

    fn encode(&self, input: &G1::Record, ops: &JsonOps, prefix: EncoderStructBuilder) -> (r:
        EncoderStructBuilder) {
        let v1 = self.field_1.getter.get(input);
        let prefix = self.field_1.map_codec.encode(v1, ops, prefix);
        let v2 = self.field_2.getter.get(input);
        let prefix = self.field_2.map_codec.encode(v2, ops, prefix);
        let v3 = self.field_3.getter.get(input);
        let prefix = self.field_3.map_codec.encode(v3, ops, prefix);
        let v4 = self.field_4.getter.get(input);
        let prefix = self.field_4.map_codec.encode(v4, ops, prefix);
        let v5 = self.field_5.getter.get(input);
        let prefix = self.field_5.map_codec.encode(v5, ops, prefix);
        let v6 = self.field_6.getter.get(input);
        let prefix = self.field_6.map_codec.encode(v6, ops, prefix);
        let v7 = self.field_7.getter.get(input);
        let prefix = self.field_7.map_codec.encode(v7, ops, prefix);
        let v8 = self.field_8.getter.get(input);
        let prefix = self.field_8.map_codec.encode(v8, ops, prefix);
        let v9 = self.field_9.getter.get(input);
        let prefix = self.field_9.map_codec.encode(v9, ops, prefix);
        let v10 = self.field_10.getter.get(input);
        let prefix = self.field_10.map_codec.encode(v10, ops, prefix);
        prefix
    }

    open spec fn map_decode_spec(
        &self,
        entries: Seq<(Seq<char>, JsonV)>,
        ops: JsonOps,
    ) -> DataResultV<<G1::Record as DeepView>::V> {
        apply10_v(
            self.field_1.map_codec.map_decode_spec(entries, ops),
            self.field_2.map_codec.map_decode_spec(entries, ops),
            self.field_3.map_codec.map_decode_spec(entries, ops),
            self.field_4.map_codec.map_decode_spec(entries, ops),
            self.field_5.map_codec.map_decode_spec(entries, ops),
            self.field_6.map_codec.map_decode_spec(entries, ops),
            self.field_7.map_codec.map_decode_spec(entries, ops),
            self.field_8.map_codec.map_decode_spec(entries, ops),
            self.field_9.map_codec.map_decode_spec(entries, ops),
            self.field_10.map_codec.map_decode_spec(entries, ops),
            |v1, v2, v3, v4, v5, v6, v7, v8, v9, v10| self.apply_function.make_spec(v1, v2, v3, v4, v5, v6, v7, v8, v9, v10),
        )
    }

    fn decode(&self, input: &MapLike, ops: &JsonOps) -> (r: DataResult<G1::Record>) {
        let r1 = self.field_1.map_codec.decode(input, ops);
        let r2 = self.field_2.map_codec.decode(input, ops);
        let r3 = self.field_3.map_codec.decode(input, ops);
        let r4 = self.field_4.map_codec.decode(input, ops);
        let r5 = self.field_5.map_codec.decode(input, ops);
        let r6 = self.field_6.map_codec.decode(input, ops);
        let r7 = self.field_7.map_codec.decode(input, ops);
        let r8 = self.field_8.map_codec.decode(input, ops);
        let r9 = self.field_9.map_codec.decode(input, ops);
        let r10 = self.field_10.map_codec.decode(input, ops);
        let all_success = r1.is_success() && r2.is_success() && r3.is_success() && r4.is_success() && r5.is_success() && r6.is_success() && r7.is_success() && r8.is_success() && r9.is_success() && r10.is_success();
        let (p1, m1) = split_result(r1);
        let (p2, m2) = split_result(r2);
        let (p3, m3) = split_result(r3);
        let (p4, m4) = split_result(r4);
        let (p5, m5) = split_result(r5);
        let (p6, m6) = split_result(r6);
        let (p7, m7) = split_result(r7);
        let (p8, m8) = split_result(r8);
        let (p9, m9) = split_result(r9);
        let (p10, m10) = split_result(r10);
        let merged = merge_messages(merge_messages(merge_messages(merge_messages(merge_messages(merge_messages(merge_messages(merge_messages(merge_messages(m1, m2), m3), m4), m5), m6), m7), m8), m9), m10);
        match (p1, p2, p3, p4, p5, p6, p7, p8, p9, p10) {
            (Some(a1), Some(a2), Some(a3), Some(a4), Some(a5), Some(a6), Some(a7), Some(a8), Some(a9), Some(a10)) => {
                let value = self.apply_function.make(a1, a2, a3, a4, a5, a6, a7, a8, a9, a10);
                if all_success {
                    DataResult::Success { result: value, lifecycle: Lifecycle::Experimental }
                } else {
                    match merged {
                        Some(message) => DataResult::Error {
                            partial_result: Some(value),
                            lifecycle: Lifecycle::Experimental,
                            message,
                        },
                        None => vstd::pervasive::unreached(),
                    }
                }
            },
            _ => {
                match merged {
                    Some(message) => DataResult::Error {
                        partial_result: None,
                        lifecycle: Lifecycle::Experimental,
                        message,
                    },
                    None => vstd::pervasive::unreached(),
                }
            },
        }
    }
}

/// How a struct codec of eleven fields rebuilds a record while decoding.
pub trait RecordCtor11 {
    type V1: DeepView;

    type V2: DeepView;

    type V3: DeepView;

    type V4: DeepView;

    type V5: DeepView;

    type V6: DeepView;

    type V7: DeepView;

    type V8: DeepView;

    type V9: DeepView;

    type V10: DeepView;

    type V11: DeepView;

    type Record: DeepView;

    /// The record built from the fields, at the specification level.
    spec fn make_spec(
        &self,
        v1: <Self::V1 as DeepView>::V,
        v2: <Self::V2 as DeepView>::V,
        v3: <Self::V3 as DeepView>::V,
        v4: <Self::V4 as DeepView>::V,
        v5: <Self::V5 as DeepView>::V,
        v6: <Self::V6 as DeepView>::V,
        v7: <Self::V7 as DeepView>::V,
        v8: <Self::V8 as DeepView>::V,
        v9: <Self::V9 as DeepView>::V,
        v10: <Self::V10 as DeepView>::V,
        v11: <Self::V11 as DeepView>::V,
    ) -> <Self::Record as DeepView>::V;

    /// Builds the record from the decoded fields.
    fn make(&self, v1: Self::V1, v2: Self::V2, v3: Self::V3, v4: Self::V4, v5: Self::V5, v6: Self::V6, v7: Self::V7, v8: Self::V8, v9: Self::V9, v10: Self::V10, v11: Self::V11) -> (r: Self::Record)
        ensures
            r.deep_view() == self.make_spec(
                v1.deep_view(),
                v2.deep_view(),
                v3.deep_view(),
                v4.deep_view(),
                v5.deep_view(),
                v6.deep_view(),
                v7.deep_view(),
                v8.deep_view(),
                v9.deep_view(),
                v10.deep_view(),
                v11.deep_view(),
            ),
    ;
}

/// Eleven decode results combined by the applicative rules.
pub open spec fn apply11_v<V1, V2, V3, V4, V5, V6, V7, V8, V9, V10, V11, T>(
    r1: DataResultV<V1>,
    r2: DataResultV<V2>,
    r3: DataResultV<V3>,
    r4: DataResultV<V4>,
    r5: DataResultV<V5>,
    r6: DataResultV<V6>,
    r7: DataResultV<V7>,
    r8: DataResultV<V8>,
    r9: DataResultV<V9>,
    r10: DataResultV<V10>,
    r11: DataResultV<V11>,
    f: spec_fn(V1, V2, V3, V4, V5, V6, V7, V8, V9, V10, V11) -> T,
) -> DataResultV<T> {
    let merged = merge_msg_opt(merge_msg_opt(merge_msg_opt(merge_msg_opt(merge_msg_opt(merge_msg_opt(merge_msg_opt(merge_msg_opt(merge_msg_opt(merge_msg_opt(r1.message_of(), r2.message_of()), r3.message_of()), r4.message_of()), r5.message_of()), r6.message_of()), r7.message_of()), r8.message_of()), r9.message_of()), r10.message_of()), r11.message_of());
    match (r1.value_of(), r2.value_of(), r3.value_of(), r4.value_of(), r5.value_of(), r6.value_of(), r7.value_of(), r8.value_of(), r9.value_of(), r10.value_of(), r11.value_of()) {
        (Some(a1), Some(a2), Some(a3), Some(a4), Some(a5), Some(a6), Some(a7), Some(a8), Some(a9), Some(a10), Some(a11)) => {
            if r1 is Success && r2 is Success && r3 is Success && r4 is Success && r5 is Success && r6 is Success && r7 is Success && r8 is Success && r9 is Success && r10 is Success && r11 is Success {
                DataResultV::Success { result: f(a1, a2, a3, a4, a5, a6, a7, a8, a9, a10, a11), lifecycle: Lifecycle::Experimental }
            } else {
                DataResultV::Error {
                    partial_result: Some(f(a1, a2, a3, a4, a5, a6, a7, a8, a9, a10, a11)),
                    lifecycle: Lifecycle::Experimental,
                    message: merged->0,
                }
            }
        },
        _ => DataResultV::Error {
            partial_result: None,
            lifecycle: Lifecycle::Experimental,
            message: merged->0,
        },
    }
}

/// A map codec for a record with eleven rigid fields.
pub struct StructMapCodec11<C1: MapCodec, G1, C2: MapCodec, G2, C3: MapCodec, G3, C4: MapCodec, G4, C5: MapCodec, G5, C6: MapCodec, G6, C7: MapCodec, G7, C8: MapCodec, G8, C9: MapCodec, G9, C10: MapCodec, G10, C11: MapCodec, G11, F> {
    pub field_1: Field<C1, G1>,
    pub field_2: Field<C2, G2>,
    pub field_3: Field<C3, G3>,
    pub field_4: Field<C4, G4>,
    pub field_5: Field<C5, G5>,
    pub field_6: Field<C6, G6>,
    pub field_7: Field<C7, G7>,
    pub field_8: Field<C8, G8>,
    pub field_9: Field<C9, G9>,
    pub field_10: Field<C10, G10>,
    pub field_11: Field<C11, G11>,
    pub apply_function: F,
}

/// Returns a struct codec with eleven fields.
pub fn struct_11<
    C1: MapCodec,
    G1: FieldGetter<Field = C1::Value>,
    C2: MapCodec,
    G2: FieldGetter<Field = C2::Value, Record = G1::Record>,
    C3: MapCodec,
    G3: FieldGetter<Field = C3::Value, Record = G1::Record>,
    C4: MapCodec,
    G4: FieldGetter<Field = C4::Value, Record = G1::Record>,
    C5: MapCodec,
    G5: FieldGetter<Field = C5::Value, Record = G1::Record>,
    C6: MapCodec,
    G6: FieldGetter<Field = C6::Value, Record = G1::Record>,
    C7: MapCodec,
    G7: FieldGetter<Field = C7::Value, Record = G1::Record>,
    C8: MapCodec,
    G8: FieldGetter<Field = C8::Value, Record = G1::Record>,
    C9: MapCodec,
    G9: FieldGetter<Field = C9::Value, Record = G1::Record>,
    C10: MapCodec,
    G10: FieldGetter<Field = C10::Value, Record = G1::Record>,
    C11: MapCodec,
    G11: FieldGetter<Field = C11::Value, Record = G1::Record>,
    F: RecordCtor11<V1 = C1::Value, V2 = C2::Value, V3 = C3::Value, V4 = C4::Value, V5 = C5::Value, V6 = C6::Value, V7 = C7::Value, V8 = C8::Value, V9 = C9::Value, V10 = C10::Value, V11 = C11::Value, Record = G1::Record>,
>(
    field_1: Field<C1, G1>,
    field_2: Field<C2, G2>,
    field_3: Field<C3, G3>,
    field_4: Field<C4, G4>,
    field_5: Field<C5, G5>,
    field_6: Field<C6, G6>,
    field_7: Field<C7, G7>,
    field_8: Field<C8, G8>,
    field_9: Field<C9, G9>,
    field_10: Field<C10, G10>,
    field_11: Field<C11, G11>,
    f: F,
) -> (r: MapCodecCodec<StructMapCodec11<C1, G1, C2, G2, C3, G3, C4, G4, C5, G5, C6, G6, C7, G7, C8, G8, C9, G9, C10, G10, C11, G11, F>>)
    ensures
        r.map_codec.field_1 == field_1,
        r.map_codec.field_2 == field_2,
        r.map_codec.field_3 == field_3,
        r.map_codec.field_4 == field_4,
        r.map_codec.field_5 == field_5,
        r.map_codec.field_6 == field_6,
        r.map_codec.field_7 == field_7,
        r.map_codec.field_8 == field_8,
        r.map_codec.field_9 == field_9,
        r.map_codec.field_10 == field_10,
        r.map_codec.field_11 == field_11,
        r.map_codec.apply_function == f,
{
    MapCodecCodec::new(StructMapCodec11 { field_1, field_2, field_3, field_4, field_5, field_6, field_7, field_8, field_9, field_10, field_11, apply_function: f })
}

impl<
    C1: MapCodec,
    G1: FieldGetter<Field = C1::Value>,
    C2: MapCodec,
    G2: FieldGetter<Field = C2::Value, Record = G1::Record>,
    C3: MapCodec,
    G3: FieldGetter<Field = C3::Value, Record = G1::Record>,
    C4: MapCodec,
    G4: FieldGetter<Field = C4::Value, Record = G1::Record>,
    C5: MapCodec,
    G5: FieldGetter<Field = C5::Value, Record = G1::Record>,
    C6: MapCodec,
    G6: FieldGetter<Field = C6::Value, Record = G1::Record>,
    C7: MapCodec,
    G7: FieldGetter<Field = C7::Value, Record = G1::Record>,
    C8: MapCodec,
    G8: FieldGetter<Field = C8::Value, Record = G1::Record>,
    C9: MapCodec,
    G9: FieldGetter<Field = C9::Value, Record = G1::Record>,
    C10: MapCodec,
    G10: FieldGetter<Field = C10::Value, Record = G1::Record>,
    C11: MapCodec,
    G11: FieldGetter<Field = C11::Value, Record = G1::Record>,
    F: RecordCtor11<V1 = C1::Value, V2 = C2::Value, V3 = C3::Value, V4 = C4::Value, V5 = C5::Value, V6 = C6::Value, V7 = C7::Value, V8 = C8::Value, V9 = C9::Value, V10 = C10::Value, V11 = C11::Value, Record = G1::Record>,
> HasValue for StructMapCodec11<C1, G1, C2, G2, C3, G3, C4, G4, C5, G5, C6, G6, C7, G7, C8, G8, C9, G9, C10, G10, C11, G11, F> {
    type Value = G1::Record;
}

impl<
    C1: MapCodec,
    G1: FieldGetter<Field = C1::Value>,
    C2: MapCodec,
    G2: FieldGetter<Field = C2::Value, Record = G1::Record>,
    C3: MapCodec,
    G3: FieldGetter<Field = C3::Value, Record = G1::Record>,
    C4: MapCodec,
    G4: FieldGetter<Field = C4::Value, Record = G1::Record>,
    C5: MapCodec,
    G5: FieldGetter<Field = C5::Value, Record = G1::Record>,
    C6: MapCodec,
    G6: FieldGetter<Field = C6::Value, Record = G1::Record>,
    C7: MapCodec,
    G7: FieldGetter<Field = C7::Value, Record = G1::Record>,
    C8: MapCodec,
    G8: FieldGetter<Field = C8::Value, Record = G1::Record>,
    C9: MapCodec,
    G9: FieldGetter<Field = C9::Value, Record = G1::Record>,
    C10: MapCodec,
    G10: FieldGetter<Field = C10::Value, Record = G1::Record>,
    C11: MapCodec,
    G11: FieldGetter<Field = C11::Value, Record = G1::Record>,
    F: RecordCtor11<V1 = C1::Value, V2 = C2::Value, V3 = C3::Value, V4 = C4::Value, V5 = C5::Value, V6 = C6::Value, V7 = C7::Value, V8 = C8::Value, V9 = C9::Value, V10 = C10::Value, V11 = C11::Value, Record = G1::Record>,
> MapCodec for StructMapCodec11<C1, G1, C2, G2, C3, G3, C4, G4, C5, G5, C6, G6, C7, G7, C8, G8, C9, G9, C10, G10, C11, G11, F> {
    open spec fn keys_spec(&self) -> Seq<Seq<char>> {
        self.field_1.map_codec.keys_spec() + self.field_2.map_codec.keys_spec() + self.field_3.map_codec.keys_spec() + self.field_4.map_codec.keys_spec() + self.field_5.map_codec.keys_spec() + self.field_6.map_codec.keys_spec() + self.field_7.map_codec.keys_spec() + self.field_8.map_codec.keys_spec() + self.field_9.map_codec.keys_spec() + self.field_10.map_codec.keys_spec() + self.field_11.map_codec.keys_spec()
    }

    fn keys(&self) -> (r: Vec<String>) {
        let mut out = self.field_1.map_codec.keys();
        let more_2 = self.field_2.map_codec.keys();
        concat_keys(&mut out, &more_2);
        let more_3 = self.field_3.map_codec.keys();
        concat_keys(&mut out, &more_3);
        let more_4 = self.field_4.map_codec.keys();
        concat_keys(&mut out, &more_4);
        let more_5 = self.field_5.map_codec.keys();
        concat_keys(&mut out, &more_5);
        let more_6 = self.field_6.map_codec.keys();
        concat_keys(&mut out, &more_6);
        let more_7 = self.field_7.map_codec.keys();
        concat_keys(&mut out, &more_7);
        let more_8 = self.field_8.map_codec.keys();
        concat_keys(&mut out, &more_8);
        let more_9 = self.field_9.map_codec.keys();
        concat_keys(&mut out, &more_9);
        let more_10 = self.field_10.map_codec.keys();
        concat_keys(&mut out, &more_10);
        let more_11 = self.field_11.map_codec.keys();
        concat_keys(&mut out, &more_11);
        proof {
            assert(str_views(out@) =~= self.keys_spec());
        }
        out
    }

    open spec fn map_encode_spec(
        &self,
        input: <G1::Record as DeepView>::V,
        ops: JsonOps,
        builder: StructBuilderV,
    ) -> StructBuilderV {
        self.field_11.map_codec.map_encode_spec(
            self.field_11.getter.get_spec(input),
            ops,
            self.field_10.map_codec.map_encode_spec(
            self.field_10.getter.get_spec(input),
            ops,
            self.field_9.map_codec.map_encode_spec(
            self.field_9.getter.get_spec(input),
            ops,
            self.field_8.map_codec.map_encode_spec(
            self.field_8.getter.get_spec(input),
            ops,
            self.field_7.map_codec.map_encode_spec(
            self.field_7.getter.get_spec(input),
            ops,
            self.field_6.map_codec.map_encode_spec(
            self.field_6.getter.get_spec(input),
            ops,
            self.field_5.map_codec.map_encode_spec(
            self.field_5.getter.get_spec(input),
            ops,
            self.field_4.map_codec.map_encode_spec(
            self.field_4.getter.get_spec(input),
            ops,
            self.field_3.map_codec.map_encode_spec(
            self.field_3.getter.get_spec(input),
            ops,
            self.field_2.map_codec.map_encode_spec(
            self.field_2.getter.get_spec(input),
            ops,
            self.field_1.map_codec.map_encode_spec(
            self.field_1.getter.get_spec(input),
            ops,
            builder,
        ),
        ),
        ),
        ),
        ),
        ),
        ),
        ),
        ),
        ),
        )
    }

    fn encode(&self, input: &G1::Record, ops: &JsonOps, prefix: EncoderStructBuilder) -> (r:
        EncoderStructBuilder) {
        let v1 = self.field_1.getter.get(input);
        let prefix = self.field_1.map_codec.encode(v1, ops, prefix);
        let v2 = self.field_2.getter.get(input);
        let prefix = self.field_2.map_codec.encode(v2, ops, prefix);
        let v3 = self.field_3.getter.get(input);
        let prefix = self.field_3.map_codec.encode(v3, ops, prefix);
        let v4 = self.field_4.getter.get(input);
        let prefix = self.field_4.map_codec.encode(v4, ops, prefix);
        let v5 = self.field_5.getter.get(input);
        let prefix = self.field_5.map_codec.encode(v5, ops, prefix);
        let v6 = self.field_6.getter.get(input);
        let prefix = self.field_6.map_codec.encode(v6, ops, prefix);
        let v7 = self.field_7.getter.get(input);
        let prefix = self.field_7.map_codec.encode(v7, ops, prefix);
        let v8 = self.field_8.getter.get(input);
        let prefix = self.field_8.map_codec.encode(v8, ops, prefix);
        let v9 = self.field_9.getter.get(input);
        let prefix = self.field_9.map_codec.encode(v9, ops, prefix);
        let v10 = self.field_10.getter.get(input);
        let prefix = self.field_10.map_codec.encode(v10, ops, prefix);
        let v11 = self.field_11.getter.get(input);
        let prefix = self.field_11.map_codec.encode(v11, ops, prefix);
        prefix
    }

    open spec fn map_decode_spec(
        &self,
        entries: Seq<(Seq<char>, JsonV)>,
        ops: JsonOps,
    ) -> DataResultV<<G1::Record as DeepView>::V> {
        apply11_v(
            self.field_1.map_codec.map_decode_spec(entries, ops),
            self.field_2.map_codec.map_decode_spec(entries, ops),
            self.field_3.map_codec.map_decode_spec(entries, ops),
            self.field_4.map_codec.map_decode_spec(entries, ops),
            self.field_5.map_codec.map_decode_spec(entries, ops),
            self.field_6.map_codec.map_decode_spec(entries, ops),
            self.field_7.map_codec.map_decode_spec(entries, ops),
            self.field_8.map_codec.map_decode_spec(entries, ops),
            self.field_9.map_codec.map_decode_spec(entries, ops),
            self.field_10.map_codec.map_decode_spec(entries, ops),
            self.field_11.map_codec.map_decode_spec(entries, ops),
            |v1, v2, v3, v4, v5, v6, v7, v8, v9, v10, v11| self.apply_function.make_spec(v1, v2, v3, v4, v5, v6, v7, v8, v9, v10, v11),
        )
    }

    fn decode(&self, input: &MapLike, ops: &JsonOps) -> (r: DataResult<G1::Record>) {
        let r1 = self.field_1.map_codec.decode(input, ops);
        let r2 = self.field_2.map_codec.decode(input, ops);
        let r3 = self.field_3.map_codec.decode(input, ops);
        let r4 = self.field_4.map_codec.decode(input, ops);
        let r5 = self.field_5.map_codec.decode(input, ops);
        let r6 = self.field_6.map_codec.decode(input, ops);
        let r7 = self.field_7.map_codec.decode(input, ops);
        let r8 = self.field_8.map_codec.decode(input, ops);
        let r9 = self.field_9.map_codec.decode(input, ops);
        let r10 = self.field_10.map_codec.decode(input, ops);
        let r11 = self.field_11.map_codec.decode(input, ops);
        let all_success = r1.is_success() && r2.is_success() && r3.is_success() && r4.is_success() && r5.is_success() && r6.is_success() && r7.is_success() && r8.is_success() && r9.is_success() && r10.is_success() && r11.is_success();
        let (p1, m1) = split_result(r1);
        let (p2, m2) = split_result(r2);
        let (p3, m3) = split_result(r3);
        let (p4, m4) = split_result(r4);
        let (p5, m5) = split_result(r5);
        let (p6, m6) = split_result(r6);
        let (p7, m7) = split_result(r7);
        let (p8, m8) = split_result(r8);
        let (p9, m9) = split_result(r9);
        let (p10, m10) = split_result(r10);
        let (p11, m11) = split_result(r11);
        let merged = merge_messages(merge_messages(merge_messages(merge_messages(merge_messages(merge_messages(merge_messages(merge_messages(merge_messages(merge_messages(m1, m2), m3), m4), m5), m6), m7), m8), m9), m10), m11);
        match (p1, p2, p3, p4, p5, p6, p7, p8, p9, p10, p11) {
            (Some(a1), Some(a2), Some(a3), Some(a4), Some(a5), Some(a6), Some(a7), Some(a8), Some(a9), Some(a10), Some(a11)) => {
                let value = self.apply_function.make(a1, a2, a3, a4, a5, a6, a7, a8, a9, a10, a11);
                if all_success {
                    DataResult::Success { result: value, lifecycle: Lifecycle::Experimental }
                } else {
                    match merged {
                        Some(message) => DataResult::Error {
                            partial_result: Some(value),
                            lifecycle: Lifecycle::Experimental,
                            message,
                        },
                        None => vstd::pervasive::unreached(),
                    }
                }
            },
            _ => {
                match merged {
                    Some(message) => DataResult::Error {
                        partial_result: None,
                        lifecycle: Lifecycle::Experimental,
                        message,
                    },
                    None => vstd::pervasive::unreached(),
                }
            },
        }
    }
}

/// How a struct codec of twelve fields rebuilds a record while decoding.
pub trait RecordCtor12 {
    type V1: DeepView;

    type V2: DeepView;

    type V3: DeepView;

    type V4: DeepView;

    type V5: DeepView;

    type V6: DeepView;

    type V7: DeepView;

    type V8: DeepView;

    type V9: DeepView;

    type V10: DeepView;

    type V11: DeepView;

    type V12: DeepView;

    type Record: DeepView;

    /// The record built from the fields, at the specification level.
    spec fn make_spec(
        &self,
        v1: <Self::V1 as DeepView>::V,
        v2: <Self::V2 as DeepView>::V,
        v3: <Self::V3 as DeepView>::V,
        v4: <Self::V4 as DeepView>::V,
        v5: <Self::V5 as DeepView>::V,
        v6: <Self::V6 as DeepView>::V,
        v7: <Self::V7 as DeepView>::V,
        v8: <Self::V8 as DeepView>::V,
        v9: <Self::V9 as DeepView>::V,
        v10: <Self::V10 as DeepView>::V,
        v11: <Self::V11 as DeepView>::V,
        v12: <Self::V12 as DeepView>::V,
    ) -> <Self::Record as DeepView>::V;

    /// Builds the record from the decoded fields.
    fn make(&self, v1: Self::V1, v2: Self::V2, v3: Self::V3, v4: Self::V4, v5: Self::V5, v6: Self::V6, v7: Self::V7, v8: Self::V8, v9: Self::V9, v10: Self::V10, v11: Self::V11, v12: Self::V12) -> (r: Self::Record)
        ensures
            r.deep_view() == self.make_spec(
                v1.deep_view(),
                v2.deep_view(),
                v3.deep_view(),
                v4.deep_view(),
                v5.deep_view(),
                v6.deep_view(),
                v7.deep_view(),
                v8.deep_view(),
                v9.deep_view(),
                v10.deep_view(),
                v11.deep_view(),
                v12.deep_view(),
            ),
    ;
}

/// Twelve decode results combined by the applicative rules.
pub open spec fn apply12_v<V1, V2, V3, V4, V5, V6, V7, V8, V9, V10, V11, V12, T>(
    r1: DataResultV<V1>,
    r2: DataResultV<V2>,
    r3: DataResultV<V3>,
    r4: DataResultV<V4>,
    r5: DataResultV<V5>,
    r6: DataResultV<V6>,
    r7: DataResultV<V7>,
    r8: DataResultV<V8>,
    r9: DataResultV<V9>,
    r10: DataResultV<V10>,
    r11: DataResultV<V11>,
    r12: DataResultV<V12>,
    f: spec_fn(V1, V2, V3, V4, V5, V6, V7, V8, V9, V10, V11, V12) -> T,
) -> DataResultV<T> {
    let merged = merge_msg_opt(merge_msg_opt(merge_msg_opt(merge_msg_opt(merge_msg_opt(merge_msg_opt(merge_msg_opt(merge_msg_opt(merge_msg_opt(merge_msg_opt(merge_msg_opt(r1.message_of(), r2.message_of()), r3.message_of()), r4.message_of()), r5.message_of()), r6.message_of()), r7.message_of()), r8.message_of()), r9.message_of()), r10.message_of()), r11.message_of()), r12.message_of());
    match (r1.value_of(), r2.value_of(), r3.value_of(), r4.value_of(), r5.value_of(), r6.value_of(), r7.value_of(), r8.value_of(), r9.value_of(), r10.value_of(), r11.value_of(), r12.value_of()) {
        (Some(a1), Some(a2), Some(a3), Some(a4), Some(a5), Some(a6), Some(a7), Some(a8), Some(a9), Some(a10), Some(a11), Some(a12)) => {
            if r1 is Success && r2 is Success && r3 is Success && r4 is Success && r5 is Success && r6 is Success && r7 is Success && r8 is Success && r9 is Success && r10 is Success && r11 is Success && r12 is Success {
                DataResultV::Success { result: f(a1, a2, a3, a4, a5, a6, a7, a8, a9, a10, a11, a12), lifecycle: Lifecycle::Experimental }
            } else {
                DataResultV::Error {
                    partial_result: Some(f(a1, a2, a3, a4, a5, a6, a7, a8, a9, a10, a11, a12)),
                    lifecycle: Lifecycle::Experimental,
                    message: merged->0,
                }
            }
        },
        _ => DataResultV::Error {
            partial_result: None,
            lifecycle: Lifecycle::Experimental,
            message: merged->0,
        },
    }
}

/// A map codec for a record with twelve rigid fields.
pub struct StructMapCodec12<C1: MapCodec, G1, C2: MapCodec, G2, C3: MapCodec, G3, C4: MapCodec, G4, C5: MapCodec, G5, C6: MapCodec, G6, C7: MapCodec, G7, C8: MapCodec, G8, C9: MapCodec, G9, C10: MapCodec, G10, C11: MapCodec, G11, C12: MapCodec, G12, F> {
    pub field_1: Field<C1, G1>,
    pub field_2: Field<C2, G2>,
    pub field_3: Field<C3, G3>,
    pub field_4: Field<C4, G4>,
    pub field_5: Field<C5, G5>,
    pub field_6: Field<C6, G6>,
    pub field_7: Field<C7, G7>,
    pub field_8: Field<C8, G8>,
    pub field_9: Field<C9, G9>,
    pub field_10: Field<C10, G10>,
    pub field_11: Field<C11, G11>,
    pub field_12: Field<C12, G12>,
    pub apply_function: F,
}

/// Returns a struct codec with twelve fields.
pub fn struct_12<
    C1: MapCodec,
    G1: FieldGetter<Field = C1::Value>,
    C2: MapCodec,
    G2: FieldGetter<Field = C2::Value, Record = G1::Record>,
    C3: MapCodec,
    G3: FieldGetter<Field = C3::Value, Record = G1::Record>,
    C4: MapCodec,
    G4: FieldGetter<Field = C4::Value, Record = G1::Record>,
    C5: MapCodec,
    G5: FieldGetter<Field = C5::Value, Record = G1::Record>,
    C6: MapCodec,
    G6: FieldGetter<Field = C6::Value, Record = G1::Record>,
    C7: MapCodec,
    G7: FieldGetter<Field = C7::Value, Record = G1::Record>,
    C8: MapCodec,
    G8: FieldGetter<Field = C8::Value, Record = G1::Record>,
    C9: MapCodec,
    G9: FieldGetter<Field = C9::Value, Record = G1::Record>,
    C10: MapCodec,
    G10: FieldGetter<Field = C10::Value, Record = G1::Record>,
    C11: MapCodec,
    G11: FieldGetter<Field = C11::Value, Record = G1::Record>,
    C12: MapCodec,
    G12: FieldGetter<Field = C12::Value, Record = G1::Record>,
    F: RecordCtor12<V1 = C1::Value, V2 = C2::Value, V3 = C3::Value, V4 = C4::Value, V5 = C5::Value, V6 = C6::Value, V7 = C7::Value, V8 = C8::Value, V9 = C9::Value, V10 = C10::Value, V11 = C11::Value, V12 = C12::Value, Record = G1::Record>,
>(
    field_1: Field<C1, G1>,
    field_2: Field<C2, G2>,
    field_3: Field<C3, G3>,
    field_4: Field<C4, G4>,
    field_5: Field<C5, G5>,
    field_6: Field<C6, G6>,
    field_7: Field<C7, G7>,
    field_8: Field<C8, G8>,
    field_9: Field<C9, G9>,
    field_10: Field<C10, G10>,
    field_11: Field<C11, G11>,
    field_12: Field<C12, G12>,
    f: F,
) -> (r: MapCodecCodec<StructMapCodec12<C1, G1, C2, G2, C3, G3, C4, G4, C5, G5, C6, G6, C7, G7, C8, G8, C9, G9, C10, G10, C11, G11, C12, G12, F>>)
    ensures
        r.map_codec.field_1 == field_1,
        r.map_codec.field_2 == field_2,
        r.map_codec.field_3 == field_3,
        r.map_codec.field_4 == field_4,
        r.map_codec.field_5 == field_5,
        r.map_codec.field_6 == field_6,
        r.map_codec.field_7 == field_7,
        r.map_codec.field_8 == field_8,
        r.map_codec.field_9 == field_9,
        r.map_codec.field_10 == field_10,
        r.map_codec.field_11 == field_11,
        r.map_codec.field_12 == field_12,
        r.map_codec.apply_function == f,
{
    MapCodecCodec::new(StructMapCodec12 { field_1, field_2, field_3, field_4, field_5, field_6, field_7, field_8, field_9, field_10, field_11, field_12, apply_function: f })
}

impl<
    C1: MapCodec,
    G1: FieldGetter<Field = C1::Value>,
    C2: MapCodec,
    G2: FieldGetter<Field = C2::Value, Record = G1::Record>,
    C3: MapCodec,
    G3: FieldGetter<Field = C3::Value, Record = G1::Record>,
    C4: MapCodec,
    G4: FieldGetter<Field = C4::Value, Record = G1::Record>,
    C5: MapCodec,
    G5: FieldGetter<Field = C5::Value, Record = G1::Record>,
    C6: MapCodec,
    G6: FieldGetter<Field = C6::Value, Record = G1::Record>,
    C7: MapCodec,
    G7: FieldGetter<Field = C7::Value, Record = G1::Record>,
    C8: MapCodec,
    G8: FieldGetter<Field = C8::Value, Record = G1::Record>,
    C9: MapCodec,
    G9: FieldGetter<Field = C9::Value, Record = G1::Record>,
    C10: MapCodec,
    G10: FieldGetter<Field = C10::Value, Record = G1::Record>,
    C11: MapCodec,
    G11: FieldGetter<Field = C11::Value, Record = G1::Record>,
    C12: MapCodec,
    G12: FieldGetter<Field = C12::Value, Record = G1::Record>,
    F: RecordCtor12<V1 = C1::Value, V2 = C2::Value, V3 = C3::Value, V4 = C4::Value, V5 = C5::Value, V6 = C6::Value, V7 = C7::Value, V8 = C8::Value, V9 = C9::Value, V10 = C10::Value, V11 = C11::Value, V12 = C12::Value, Record = G1::Record>,
> HasValue for StructMapCodec12<C1, G1, C2, G2, C3, G3, C4, G4, C5, G5, C6, G6, C7, G7, C8, G8, C9, G9, C10, G10, C11, G11, C12, G12, F> {
    type Value = G1::Record;
}

impl<
    C1: MapCodec,
    G1: FieldGetter<Field = C1::Value>,
    C2: MapCodec,
    G2: FieldGetter<Field = C2::Value, Record = G1::Record>,
    C3: MapCodec,
    G3: FieldGetter<Field = C3::Value, Record = G1::Record>,
    C4: MapCodec,
    G4: FieldGetter<Field = C4::Value, Record = G1::Record>,
    C5: MapCodec,
    G5: FieldGetter<Field = C5::Value, Record = G1::Record>,
    C6: MapCodec,
    G6: FieldGetter<Field = C6::Value, Record = G1::Record>,
    C7: MapCodec,
    G7: FieldGetter<Field = C7::Value, Record = G1::Record>,
    C8: MapCodec,
    G8: FieldGetter<Field = C8::Value, Record = G1::Record>,
    C9: MapCodec,
    G9: FieldGetter<Field = C9::Value, Record = G1::Record>,
    C10: MapCodec,
    G10: FieldGetter<Field = C10::Value, Record = G1::Record>,
    C11: MapCodec,
    G11: FieldGetter<Field = C11::Value, Record = G1::Record>,
    C12: MapCodec,
    G12: FieldGetter<Field = C12::Value, Record = G1::Record>,
    F: RecordCtor12<V1 = C1::Value, V2 = C2::Value, V3 = C3::Value, V4 = C4::Value, V5 = C5::Value, V6 = C6::Value, V7 = C7::Value, V8 = C8::Value, V9 = C9::Value, V10 = C10::Value, V11 = C11::Value, V12 = C12::Value, Record = G1::Record>,
> MapCodec for StructMapCodec12<C1, G1, C2, G2, C3, G3, C4, G4, C5, G5, C6, G6, C7, G7, C8, G8, C9, G9, C10, G10, C11, G11, C12, G12, F> {
    open spec fn keys_spec(&self) -> Seq<Seq<char>> {
        self.field_1.map_codec.keys_spec() + self.field_2.map_codec.keys_spec() + self.field_3.map_codec.keys_spec() + self.field_4.map_codec.keys_spec() + self.field_5.map_codec.keys_spec() + self.field_6.map_codec.keys_spec() + self.field_7.map_codec.keys_spec() + self.field_8.map_codec.keys_spec() + self.field_9.map_codec.keys_spec() + self.field_10.map_codec.keys_spec() + self.field_11.map_codec.keys_spec() + self.field_12.map_codec.keys_spec()
    }

    fn keys(&self) -> (r: Vec<String>) {
        let mut out = self.field_1.map_codec.keys();
        let more_2 = self.field_2.map_codec.keys();
        concat_keys(&mut out, &more_2);
        let more_3 = self.field_3.map_codec.keys();
        concat_keys(&mut out, &more_3);
        let more_4 = self.field_4.map_codec.keys();
        concat_keys(&mut out, &more_4);
        let more_5 = self.field_5.map_codec.keys();
        concat_keys(&mut out, &more_5);
        let more_6 = self.field_6.map_codec.keys();
        concat_keys(&mut out, &more_6);
        let more_7 = self.field_7.map_codec.keys();
        concat_keys(&mut out, &more_7);
        let more_8 = self.field_8.map_codec.keys();
        concat_keys(&mut out, &more_8);
        let more_9 = self.field_9.map_codec.keys();
        concat_keys(&mut out, &more_9);
        let more_10 = self.field_10.map_codec.keys();
        concat_keys(&mut out, &more_10);
        let more_11 = self.field_11.map_codec.keys();
        concat_keys(&mut out, &more_11);
        let more_12 = self.field_12.map_codec.keys();
        concat_keys(&mut out, &more_12);
        proof {
            assert(str_views(out@) =~= self.keys_spec());
        }
        out
    }

    open spec fn map_encode_spec(
        &self,
        input: <G1::Record as DeepView>::V,
        ops: JsonOps,
        builder: StructBuilderV,
    ) -> StructBuilderV {
        self.field_12.map_codec.map_encode_spec(
            self.field_12.getter.get_spec(input),
            ops,
            self.field_11.map_codec.map_encode_spec(
            self.field_11.getter.get_spec(input),
            ops,
            self.field_10.map_codec.map_encode_spec(
            self.field_10.getter.get_spec(input),
            ops,
            self.field_9.map_codec.map_encode_spec(
            self.field_9.getter.get_spec(input),
            ops,
            self.field_8.map_codec.map_encode_spec(
            self.field_8.getter.get_spec(input),
            ops,
            self.field_7.map_codec.map_encode_spec(
            self.field_7.getter.get_spec(input),
            ops,
            self.field_6.map_codec.map_encode_spec(
            self.field_6.getter.get_spec(input),
            ops,
            self.field_5.map_codec.map_encode_spec(
            self.field_5.getter.get_spec(input),
            ops,
            self.field_4.map_codec.map_encode_spec(
            self.field_4.getter.get_spec(input),
            ops,
            self.field_3.map_codec.map_encode_spec(
            self.field_3.getter.get_spec(input),
            ops,
            self.field_2.map_codec.map_encode_spec(
            self.field_2.getter.get_spec(input),
            ops,
            self.field_1.map_codec.map_encode_spec(
            self.field_1.getter.get_spec(input),
            ops,
            builder,
        ),
        ),
        ),
        ),
        ),
        ),
        ),
        ),
        ),
        ),
        ),
        )
    }

    fn encode(&self, input: &G1::Record, ops: &JsonOps, prefix: EncoderStructBuilder) -> (r:
        EncoderStructBuilder) {
        let v1 = self.field_1.getter.get(input);
        let prefix = self.field_1.map_codec.encode(v1, ops, prefix);
        let v2 = self.field_2.getter.get(input);
        let prefix = self.field_2.map_codec.encode(v2, ops, prefix);
        let v3 = self.field_3.getter.get(input);
        let prefix = self.field_3.map_codec.encode(v3, ops, prefix);
        let v4 = self.field_4.getter.get(input);
        let prefix = self.field_4.map_codec.encode(v4, ops, prefix);
        let v5 = self.field_5.getter.get(input);
        let prefix = self.field_5.map_codec.encode(v5, ops, prefix);
        let v6 = self.field_6.getter.get(input);
        let prefix = self.field_6.map_codec.encode(v6, ops, prefix);
        let v7 = self.field_7.getter.get(input);
        let prefix = self.field_7.map_codec.encode(v7, ops, prefix);
        let v8 = self.field_8.getter.get(input);
        let prefix = self.field_8.map_codec.encode(v8, ops, prefix);
        let v9 = self.field_9.getter.get(input);
        let prefix = self.field_9.map_codec.encode(v9, ops, prefix);
        let v10 = self.field_10.getter.get(input);
        let prefix = self.field_10.map_codec.encode(v10, ops, prefix);
        let v11 = self.field_11.getter.get(input);
        let prefix = self.field_11.map_codec.encode(v11, ops, prefix);
        let v12 = self.field_12.getter.get(input);
        let prefix = self.field_12.map_codec.encode(v12, ops, prefix);
        prefix
    }

    open spec fn map_decode_spec(
        &self,
        entries: Seq<(Seq<char>, JsonV)>,
        ops: JsonOps,
    ) -> DataResultV<<G1::Record as DeepView>::V> {
        apply12_v(
            self.field_1.map_codec.map_decode_spec(entries, ops),
            self.field_2.map_codec.map_decode_spec(entries, ops),
            self.field_3.map_codec.map_decode_spec(entries, ops),
            self.field_4.map_codec.map_decode_spec(entries, ops),
            self.field_5.map_codec.map_decode_spec(entries, ops),
            self.field_6.map_codec.map_decode_spec(entries, ops),
            self.field_7.map_codec.map_decode_spec(entries, ops),
            self.field_8.map_codec.map_decode_spec(entries, ops),
            self.field_9.map_codec.map_decode_spec(entries, ops),
            self.field_10.map_codec.map_decode_spec(entries, ops),
            self.field_11.map_codec.map_decode_spec(entries, ops),
            self.field_12.map_codec.map_decode_spec(entries, ops),
            |v1, v2, v3, v4, v5, v6, v7, v8, v9, v10, v11, v12| self.apply_function.make_spec(v1, v2, v3, v4, v5, v6, v7, v8, v9, v10, v11, v12),
        )
    }

    fn decode(&self, input: &MapLike, ops: &JsonOps) -> (r: DataResult<G1::Record>) {
        let r1 = self.field_1.map_codec.decode(input, ops);
        let r2 = self.field_2.map_codec.decode(input, ops);
        let r3 = self.field_3.map_codec.decode(input, ops);
        let r4 = self.field_4.map_codec.decode(input, ops);
        let r5 = self.field_5.map_codec.decode(input, ops);
        let r6 = self.field_6.map_codec.decode(input, ops);
        let r7 = self.field_7.map_codec.decode(input, ops);
        let r8 = self.field_8.map_codec.decode(input, ops);
        let r9 = self.field_9.map_codec.decode(input, ops);
        let r10 = self.field_10.map_codec.decode(input, ops);
        let r11 = self.field_11.map_codec.decode(input, ops);
        let r12 = self.field_12.map_codec.decode(input, ops);
        let all_success = r1.is_success() && r2.is_success() && r3.is_success() && r4.is_success() && r5.is_success() && r6.is_success() && r7.is_success() && r8.is_success() && r9.is_success() && r10.is_success() && r11.is_success() && r12.is_success();
        let (p1, m1) = split_result(r1);
        let (p2, m2) = split_result(r2);
        let (p3, m3) = split_result(r3);
        let (p4, m4) = split_result(r4);
        let (p5, m5) = split_result(r5);
        let (p6, m6) = split_result(r6);
        let (p7, m7) = split_result(r7);
        let (p8, m8) = split_result(r8);
        let (p9, m9) = split_result(r9);
        let (p10, m10) = split_result(r10);
        let (p11, m11) = split_result(r11);
        let (p12, m12) = split_result(r12);
        let merged = merge_messages(merge_messages(merge_messages(merge_messages(merge_messages(merge_messages(merge_messages(merge_messages(merge_messages(merge_messages(merge_messages(m1, m2), m3), m4), m5), m6), m7), m8), m9), m10), m11), m12);
        match (p1, p2, p3, p4, p5, p6, p7, p8, p9, p10, p11, p12) {
            (Some(a1), Some(a2), Some(a3), Some(a4), Some(a5), Some(a6), Some(a7), Some(a8), Some(a9), Some(a10), Some(a11), Some(a12)) => {
                let value = self.apply_function.make(a1, a2, a3, a4, a5, a6, a7, a8, a9, a10, a11, a12);
                if all_success {
                    DataResult::Success { result: value, lifecycle: Lifecycle::Experimental }
                } else {
                    match merged {
                        Some(message) => DataResult::Error {
                            partial_result: Some(value),
                            lifecycle: Lifecycle::Experimental,
                            message,
                        },
                        None => vstd::pervasive::unreached(),
                    }
                }
            },
            _ => {
                match merged {
                    Some(message) => DataResult::Error {
                        partial_result: None,
                        lifecycle: Lifecycle::Experimental,
                        message,
                    },
                    None => vstd::pervasive::unreached(),
                }
            },
        }
    }
}

/// How a struct codec of thirteen fields rebuilds a record while decoding.
pub trait RecordCtor13 {
    type V1: DeepView;

    type V2: DeepView;

    type V3: DeepView;

    type V4: DeepView;

    type V5: DeepView;

    type V6: DeepView;

    type V7: DeepView;

    type V8: DeepView;

    type V9: DeepView;

    type V10: DeepView;

    type V11: DeepView;

    type V12: DeepView;

    type V13: DeepView;

    type Record: DeepView;

    /// The record built from the fields, at the specification level.
    spec fn make_spec(
        &self,
        v1: <Self::V1 as DeepView>::V,
        v2: <Self::V2 as DeepView>::V,
        v3: <Self::V3 as DeepView>::V,
        v4: <Self::V4 as DeepView>::V,
        v5: <Self::V5 as DeepView>::V,
        v6: <Self::V6 as DeepView>::V,
        v7: <Self::V7 as DeepView>::V,
        v8: <Self::V8 as DeepView>::V,
        v9: <Self::V9 as DeepView>::V,
        v10: <Self::V10 as DeepView>::V,
        v11: <Self::V11 as DeepView>::V,
        v12: <Self::V12 as DeepView>::V,
        v13: <Self::V13 as DeepView>::V,
    ) -> <Self::Record as DeepView>::V;

    /// Builds the record from the decoded fields.
    fn make(&self, v1: Self::V1, v2: Self::V2, v3: Self::V3, v4: Self::V4, v5: Self::V5, v6: Self::V6, v7: Self::V7, v8: Self::V8, v9: Self::V9, v10: Self::V10, v11: Self::V11, v12: Self::V12, v13: Self::V13) -> (r: Self::Record)
        ensures
            r.deep_view() == self.make_spec(
                v1.deep_view(),
                v2.deep_view(),
                v3.deep_view(),
                v4.deep_view(),
                v5.deep_view(),
                v6.deep_view(),
                v7.deep_view(),
                v8.deep_view(),
                v9.deep_view(),
                v10.deep_view(),
                v11.deep_view(),
                v12.deep_view(),
                v13.deep_view(),
            ),
    ;
}

/// Thirteen decode results combined by the applicative rules.
pub open spec fn apply13_v<V1, V2, V3, V4, V5, V6, V7, V8, V9, V10, V11, V12, V13, T>(
    r1: DataResultV<V1>,
    r2: DataResultV<V2>,
    r3: DataResultV<V3>,
    r4: DataResultV<V4>,
    r5: DataResultV<V5>,
    r6: DataResultV<V6>,
    r7: DataResultV<V7>,
    r8: DataResultV<V8>,
    r9: DataResultV<V9>,
    r10: DataResultV<V10>,
    r11: DataResultV<V11>,
    r12: DataResultV<V12>,
    r13: DataResultV<V13>,
    f: spec_fn(V1, V2, V3, V4, V5, V6, V7, V8, V9, V10, V11, V12, V13) -> T,
) -> DataResultV<T> {
    let merged = merge_msg_opt(merge_msg_opt(merge_msg_opt(merge_msg_opt(merge_msg_opt(merge_msg_opt(merge_msg_opt(merge_msg_opt(merge_msg_opt(merge_msg_opt(merge_msg_opt(merge_msg_opt(r1.message_of(), r2.message_of()), r3.message_of()), r4.message_of()), r5.message_of()), r6.message_of()), r7.message_of()), r8.message_of()), r9.message_of()), r10.message_of()), r11.message_of()), r12.message_of()), r13.message_of());
    match (r1.value_of(), r2.value_of(), r3.value_of(), r4.value_of(), r5.value_of(), r6.value_of(), r7.value_of(), r8.value_of(), r9.value_of(), r10.value_of(), r11.value_of(), r12.value_of(), r13.value_of()) {
        (Some(a1), Some(a2), Some(a3), Some(a4), Some(a5), Some(a6), Some(a7), Some(a8), Some(a9), Some(a10), Some(a11), Some(a12), Some(a13)) => {
            if r1 is Success && r2 is Success && r3 is Success && r4 is Success && r5 is Success && r6 is Success && r7 is Success && r8 is Success && r9 is Success && r10 is Success && r11 is Success && r12 is Success && r13 is Success {
                DataResultV::Success { result: f(a1, a2, a3, a4, a5, a6, a7, a8, a9, a10, a11, a12, a13), lifecycle: Lifecycle::Experimental }
            } else {
                DataResultV::Error {
                    partial_result: Some(f(a1, a2, a3, a4, a5, a6, a7, a8, a9, a10, a11, a12, a13)),
                    lifecycle: Lifecycle::Experimental,
                    message: merged->0,
                }
            }
        },
        _ => DataResultV::Error {
            partial_result: None,
            lifecycle: Lifecycle::Experimental,
            message: merged->0,
        },
    }
}

/// A map codec for a record with thirteen rigid fields.
pub struct StructMapCodec13<C1: MapCodec, G1, C2: MapCodec, G2, C3: MapCodec, G3, C4: MapCodec, G4, C5: MapCodec, G5, C6: MapCodec, G6, C7: MapCodec, G7, C8: MapCodec, G8, C9: MapCodec, G9, C10: MapCodec, G10, C11: MapCodec, G11, C12: MapCodec, G12, C13: MapCodec, G13, F> {
    pub field_1: Field<C1, G1>,
    pub field_2: Field<C2, G2>,
    pub field_3: Field<C3, G3>,
    pub field_4: Field<C4, G4>,
    pub field_5: Field<C5, G5>,
    pub field_6: Field<C6, G6>,
    pub field_7: Field<C7, G7>,
    pub field_8: Field<C8, G8>,
    pub field_9: Field<C9, G9>,
    pub field_10: Field<C10, G10>,
    pub field_11: Field<C11, G11>,
    pub field_12: Field<C12, G12>,
    pub field_13: Field<C13, G13>,
    pub apply_function: F,
}

/// Returns a struct codec with thirteen fields.
pub fn struct_13<
    C1: MapCodec,
    G1: FieldGetter<Field = C1::Value>,
    C2: MapCodec,
    G2: FieldGetter<Field = C2::Value, Record = G1::Record>,
    C3: MapCodec,
    G3: FieldGetter<Field = C3::Value, Record = G1::Record>,
    C4: MapCodec,
    G4: FieldGetter<Field = C4::Value, Record = G1::Record>,
    C5: MapCodec,
    G5: FieldGetter<Field = C5::Value, Record = G1::Record>,
    C6: MapCodec,
    G6: FieldGetter<Field = C6::Value, Record = G1::Record>,
    C7: MapCodec,
    G7: FieldGetter<Field = C7::Value, Record = G1::Record>,
    C8: MapCodec,
    G8: FieldGetter<Field = C8::Value, Record = G1::Record>,
    C9: MapCodec,
    G9: FieldGetter<Field = C9::Value, Record = G1::Record>,
    C10: MapCodec,
    G10: FieldGetter<Field = C10::Value, Record = G1::Record>,
    C11: MapCodec,
    G11: FieldGetter<Field = C11::Value, Record = G1::Record>,
    C12: MapCodec,
    G12: FieldGetter<Field = C12::Value, Record = G1::Record>,
    C13: MapCodec,
    G13: FieldGetter<Field = C13::Value, Record = G1::Record>,
    F: RecordCtor13<V1 = C1::Value, V2 = C2::Value, V3 = C3::Value, V4 = C4::Value, V5 = C5::Value, V6 = C6::Value, V7 = C7::Value, V8 = C8::Value, V9 = C9::Value, V10 = C10::Value, V11 = C11::Value, V12 = C12::Value, V13 = C13::Value, Record = G1::Record>,
>(
    field_1: Field<C1, G1>,
    field_2: Field<C2, G2>,
    field_3: Field<C3, G3>,
    field_4: Field<C4, G4>,
    field_5: Field<C5, G5>,
    field_6: Field<C6, G6>,
    field_7: Field<C7, G7>,
    field_8: Field<C8, G8>,
    field_9: Field<C9, G9>,
    field_10: Field<C10, G10>,
    field_11: Field<C11, G11>,
    field_12: Field<C12, G12>,
    field_13: Field<C13, G13>,
    f: F,
) -> (r: MapCodecCodec<StructMapCodec13<C1, G1, C2, G2, C3, G3, C4, G4, C5, G5, C6, G6, C7, G7, C8, G8, C9, G9, C10, G10, C11, G11, C12, G12, C13, G13, F>>)
    ensures
        r.map_codec.field_1 == field_1,
        r.map_codec.field_2 == field_2,
        r.map_codec.field_3 == field_3,
        r.map_codec.field_4 == field_4,
        r.map_codec.field_5 == field_5,
        r.map_codec.field_6 == field_6,
        r.map_codec.field_7 == field_7,
        r.map_codec.field_8 == field_8,
        r.map_codec.field_9 == field_9,
        r.map_codec.field_10 == field_10,
        r.map_codec.field_11 == field_11,
        r.map_codec.field_12 == field_12,
        r.map_codec.field_13 == field_13,
        r.map_codec.apply_function == f,
{
    MapCodecCodec::new(StructMapCodec13 { field_1, field_2, field_3, field_4, field_5, field_6, field_7, field_8, field_9, field_10, field_11, field_12, field_13, apply_function: f })
}

impl<
    C1: MapCodec,
    G1: FieldGetter<Field = C1::Value>,
    C2: MapCodec,
    G2: FieldGetter<Field = C2::Value, Record = G1::Record>,
    C3: MapCodec,
    G3: FieldGetter<Field = C3::Value, Record = G1::Record>,
    C4: MapCodec,
    G4: FieldGetter<Field = C4::Value, Record = G1::Record>,
    C5: MapCodec,
    G5: FieldGetter<Field = C5::Value, Record = G1::Record>,
    C6: MapCodec,
    G6: FieldGetter<Field = C6::Value, Record = G1::Record>,
    C7: MapCodec,
    G7: FieldGetter<Field = C7::Value, Record = G1::Record>,
    C8: MapCodec,
    G8: FieldGetter<Field = C8::Value, Record = G1::Record>,
    C9: MapCodec,
    G9: FieldGetter<Field = C9::Value, Record = G1::Record>,
    C10: MapCodec,
    G10: FieldGetter<Field = C10::Value, Record = G1::Record>,
    C11: MapCodec,
    G11: FieldGetter<Field = C11::Value, Record = G1::Record>,
    C12: MapCodec,
    G12: FieldGetter<Field = C12::Value, Record = G1::Record>,
    C13: MapCodec,
    G13: FieldGetter<Field = C13::Value, Record = G1::Record>,
    F: RecordCtor13<V1 = C1::Value, V2 = C2::Value, V3 = C3::Value, V4 = C4::Value, V5 = C5::Value, V6 = C6::Value, V7 = C7::Value, V8 = C8::Value, V9 = C9::Value, V10 = C10::Value, V11 = C11::Value, V12 = C12::Value, V13 = C13::Value, Record = G1::Record>,
> HasValue for StructMapCodec13<C1, G1, C2, G2, C3, G3, C4, G4, C5, G5, C6, G6, C7, G7, C8, G8, C9, G9, C10, G10, C11, G11, C12, G12, C13, G13, F> {
    type Value = G1::Record;
}

impl<
    C1: MapCodec,
    G1: FieldGetter<Field = C1::Value>,
    C2: MapCodec,
    G2: FieldGetter<Field = C2::Value, Record = G1::Record>,
    C3: MapCodec,
    G3: FieldGetter<Field = C3::Value, Record = G1::Record>,
    C4: MapCodec,
    G4: FieldGetter<Field = C4::Value, Record = G1::Record>,
    C5: MapCodec,
    G5: FieldGetter<Field = C5::Value, Record = G1::Record>,
    C6: MapCodec,
    G6: FieldGetter<Field = C6::Value, Record = G1::Record>,
    C7: MapCodec,
    G7: FieldGetter<Field = C7::Value, Record = G1::Record>,
    C8: MapCodec,
    G8: FieldGetter<Field = C8::Value, Record = G1::Record>,
    C9: MapCodec,
    G9: FieldGetter<Field = C9::Value, Record = G1::Record>,
    C10: MapCodec,
    G10: FieldGetter<Field = C10::Value, Record = G1::Record>,
    C11: MapCodec,
    G11: FieldGetter<Field = C11::Value, Record = G1::Record>,
    C12: MapCodec,
    G12: FieldGetter<Field = C12::Value, Record = G1::Record>,
    C13: MapCodec,
    G13: FieldGetter<Field = C13::Value, Record = G1::Record>,
    F: RecordCtor13<V1 = C1::Value, V2 = C2::Value, V3 = C3::Value, V4 = C4::Value, V5 = C5::Value, V6 = C6::Value, V7 = C7::Value, V8 = C8::Value, V9 = C9::Value, V10 = C10::Value, V11 = C11::Value, V12 = C12::Value, V13 = C13::Value, Record = G1::Record>,
> MapCodec for StructMapCodec13<C1, G1, C2, G2, C3, G3, C4, G4, C5, G5, C6, G6, C7, G7, C8, G8, C9, G9, C10, G10, C11, G11, C12, G12, C13, G13, F> {
    open spec fn keys_spec(&self) -> Seq<Seq<char>> {
        self.field_1.map_codec.keys_spec() + self.field_2.map_codec.keys_spec() + self.field_3.map_codec.keys_spec() + self.field_4.map_codec.keys_spec() + self.field_5.map_codec.keys_spec() + self.field_6.map_codec.keys_spec() + self.field_7.map_codec.keys_spec() + self.field_8.map_codec.keys_spec() + self.field_9.map_codec.keys_spec() + self.field_10.map_codec.keys_spec() + self.field_11.map_codec.keys_spec() + self.field_12.map_codec.keys_spec() + self.field_13.map_codec.keys_spec()
    }

    fn keys(&self) -> (r: Vec<String>) {
        let mut out = self.field_1.map_codec.keys();
        let more_2 = self.field_2.map_codec.keys();
        concat_keys(&mut out, &more_2);
        let more_3 = self.field_3.map_codec.keys();
        concat_keys(&mut out, &more_3);
        let more_4 = self.field_4.map_codec.keys();
        concat_keys(&mut out, &more_4);
        let more_5 = self.field_5.map_codec.keys();
        concat_keys(&mut out, &more_5);
        let more_6 = self.field_6.map_codec.keys();
        concat_keys(&mut out, &more_6);
        let more_7 = self.field_7.map_codec.keys();
        concat_keys(&mut out, &more_7);
        let more_8 = self.field_8.map_codec.keys();
        concat_keys(&mut out, &more_8);
        let more_9 = self.field_9.map_codec.keys();
        concat_keys(&mut out, &more_9);
        let more_10 = self.field_10.map_codec.keys();
        concat_keys(&mut out, &more_10);
        let more_11 = self.field_11.map_codec.keys();
        concat_keys(&mut out, &more_11);
        let more_12 = self.field_12.map_codec.keys();
        concat_keys(&mut out, &more_12);
        let more_13 = self.field_13.map_codec.keys();
        concat_keys(&mut out, &more_13);
        proof {
            assert(str_views(out@) =~= self.keys_spec());
        }
        out
    }

    open spec fn map_encode_spec(
        &self,
        input: <G1::Record as DeepView>::V,
        ops: JsonOps,
        builder: StructBuilderV,
    ) -> StructBuilderV {
        self.field_13.map_codec.map_encode_spec(
            self.field_13.getter.get_spec(input),
            ops,
            self.field_12.map_codec.map_encode_spec(
            self.field_12.getter.get_spec(input),
            ops,
            self.field_11.map_codec.map_encode_spec(
            self.field_11.getter.get_spec(input),
            ops,
            self.field_10.map_codec.map_encode_spec(
            self.field_10.getter.get_spec(input),
            ops,
            self.field_9.map_codec.map_encode_spec(
            self.field_9.getter.get_spec(input),
            ops,
            self.field_8.map_codec.map_encode_spec(
            self.field_8.getter.get_spec(input),
            ops,
            self.field_7.map_codec.map_encode_spec(
            self.field_7.getter.get_spec(input),
            ops,
            self.field_6.map_codec.map_encode_spec(
            self.field_6.getter.get_spec(input),
            ops,
            self.field_5.map_codec.map_encode_spec(
            self.field_5.getter.get_spec(input),
            ops,
            self.field_4.map_codec.map_encode_spec(
            self.field_4.getter.get_spec(input),
            ops,
            self.field_3.map_codec.map_encode_spec(
            self.field_3.getter.get_spec(input),
            ops,
            self.field_2.map_codec.map_encode_spec(
            self.field_2.getter.get_spec(input),
            ops,
            self.field_1.map_codec.map_encode_spec(
            self.field_1.getter.get_spec(input),
            ops,
            builder,
        ),
        ),
        ),
        ),
        ),
        ),
        ),
        ),
        ),
        ),
        ),
        ),
        )
    }

    fn encode(&self, input: &G1::Record, ops: &JsonOps, prefix: EncoderStructBuilder) -> (r:
        EncoderStructBuilder) {
        let v1 = self.field_1.getter.get(input);
        let prefix = self.field_1.map_codec.encode(v1, ops, prefix);
        let v2 = self.field_2.getter.get(input);
        let prefix = self.field_2.map_codec.encode(v2, ops, prefix);
        let v3 = self.field_3.getter.get(input);
        let prefix = self.field_3.map_codec.encode(v3, ops, prefix);
        let v4 = self.field_4.getter.get(input);
        let prefix = self.field_4.map_codec.encode(v4, ops, prefix);
        let v5 = self.field_5.getter.get(input);
        let prefix = self.field_5.map_codec.encode(v5, ops, prefix);
        let v6 = self.field_6.getter.get(input);
        let prefix = self.field_6.map_codec.encode(v6, ops, prefix);
        let v7 = self.field_7.getter.get(input);
        let prefix = self.field_7.map_codec.encode(v7, ops, prefix);
        let v8 = self.field_8.getter.get(input);
        let prefix = self.field_8.map_codec.encode(v8, ops, prefix);
        let v9 = self.field_9.getter.get(input);
        let prefix = self.field_9.map_codec.encode(v9, ops, prefix);
        let v10 = self.field_10.getter.get(input);
        let prefix = self.field_10.map_codec.encode(v10, ops, prefix);
        let v11 = self.field_11.getter.get(input);
        let prefix = self.field_11.map_codec.encode(v11, ops, prefix);
        let v12 = self.field_12.getter.get(input);
        let prefix = self.field_12.map_codec.encode(v12, ops, prefix);
        let v13 = self.field_13.getter.get(input);
        let prefix = self.field_13.map_codec.encode(v13, ops, prefix);
        prefix
    }

    open spec fn map_decode_spec(
        &self,
        entries: Seq<(Seq<char>, JsonV)>,
        ops: JsonOps,
    ) -> DataResultV<<G1::Record as DeepView>::V> {
        apply13_v(
            self.field_1.map_codec.map_decode_spec(entries, ops),
            self.field_2.map_codec.map_decode_spec(entries, ops),
            self.field_3.map_codec.map_decode_spec(entries, ops),
            self.field_4.map_codec.map_decode_spec(entries, ops),
            self.field_5.map_codec.map_decode_spec(entries, ops),
            self.field_6.map_codec.map_decode_spec(entries, ops),
            self.field_7.map_codec.map_decode_spec(entries, ops),
            self.field_8.map_codec.map_decode_spec(entries, ops),
            self.field_9.map_codec.map_decode_spec(entries, ops),
            self.field_10.map_codec.map_decode_spec(entries, ops),
            self.field_11.map_codec.map_decode_spec(entries, ops),
            self.field_12.map_codec.map_decode_spec(entries, ops),
            self.field_13.map_codec.map_decode_spec(entries, ops),
            |v1, v2, v3, v4, v5, v6, v7, v8, v9, v10, v11, v12, v13| self.apply_function.make_spec(v1, v2, v3, v4, v5, v6, v7, v8, v9, v10, v11, v12, v13),
        )
    }

    fn decode(&self, input: &MapLike, ops: &JsonOps) -> (r: DataResult<G1::Record>) {
        let r1 = self.field_1.map_codec.decode(input, ops);
        let r2 = self.field_2.map_codec.decode(input, ops);
        let r3 = self.field_3.map_codec.decode(input, ops);
        let r4 = self.field_4.map_codec.decode(input, ops);
        let r5 = self.field_5.map_codec.decode(input, ops);
        let r6 = self.field_6.map_codec.decode(input, ops);
        let r7 = self.field_7.map_codec.decode(input, ops);
        let r8 = self.field_8.map_codec.decode(input, ops);
        let r9 = self.field_9.map_codec.decode(input, ops);
        let r10 = self.field_10.map_codec.decode(input, ops);
        let r11 = self.field_11.map_codec.decode(input, ops);
        let r12 = self.field_12.map_codec.decode(input, ops);
        let r13 = self.field_13.map_codec.decode(input, ops);
        let all_success = r1.is_success() && r2.is_success() && r3.is_success() && r4.is_success() && r5.is_success() && r6.is_success() && r7.is_success() && r8.is_success() && r9.is_success() && r10.is_success() && r11.is_success() && r12.is_success() && r13.is_success();
        let (p1, m1) = split_result(r1);
        let (p2, m2) = split_result(r2);
        let (p3, m3) = split_result(r3);
        let (p4, m4) = split_result(r4);
        let (p5, m5) = split_result(r5);
        let (p6, m6) = split_result(r6);
        let (p7, m7) = split_result(r7);
        let (p8, m8) = split_result(r8);
        let (p9, m9) = split_result(r9);
        let (p10, m10) = split_result(r10);
        let (p11, m11) = split_result(r11);
        let (p12, m12) = split_result(r12);
        let (p13, m13) = split_result(r13);
        let merged = merge_messages(merge_messages(merge_messages(merge_messages(merge_messages(merge_messages(merge_messages(merge_messages(merge_messages(merge_messages(merge_messages(merge_messages(m1, m2), m3), m4), m5), m6), m7), m8), m9), m10), m11), m12), m13);
        match (p1, p2, p3, p4, p5, p6, p7, p8, p9, p10, p11, p12, p13) {
            (Some(a1), Some(a2), Some(a3), Some(a4), Some(a5), Some(a6), Some(a7), Some(a8), Some(a9), Some(a10), Some(a11), Some(a12), Some(a13)) => {
                let value = self.apply_function.make(a1, a2, a3, a4, a5, a6, a7, a8, a9, a10, a11, a12, a13);
                if all_success {
                    DataResult::Success { result: value, lifecycle: Lifecycle::Experimental }
                } else {
                    match merged {
                        Some(message) => DataResult::Error {
                            partial_result: Some(value),
                            lifecycle: Lifecycle::Experimental,
                            message,
                        },
                        None => vstd::pervasive::unreached(),
                    }
                }
            },
            _ => {
                match merged {
                    Some(message) => DataResult::Error {
                        partial_result: None,
                        lifecycle: Lifecycle::Experimental,
                        message,
                    },
                    None => vstd::pervasive::unreached(),
                }
            },
        }
    }
}

/// How a struct codec of fourteen fields rebuilds a record while decoding.
pub trait RecordCtor14 {
    type V1: DeepView;

    type V2: DeepView;

    type V3: DeepView;

    type V4: DeepView;

    type V5: DeepView;

    type V6: DeepView;

    type V7: DeepView;

    type V8: DeepView;

    type V9: DeepView;

    type V10: DeepView;

    type V11: DeepView;

    type V12: DeepView;

    type V13: DeepView;

    type V14: DeepView;

    type Record: DeepView;

    /// The record built from the fields, at the specification level.
    spec fn make_spec(
        &self,
        v1: <Self::V1 as DeepView>::V,
        v2: <Self::V2 as DeepView>::V,
        v3: <Self::V3 as DeepView>::V,
        v4: <Self::V4 as DeepView>::V,
        v5: <Self::V5 as DeepView>::V,
        v6: <Self::V6 as DeepView>::V,
        v7: <Self::V7 as DeepView>::V,
        v8: <Self::V8 as DeepView>::V,
        v9: <Self::V9 as DeepView>::V,
        v10: <Self::V10 as DeepView>::V,
        v11: <Self::V11 as DeepView>::V,
        v12: <Self::V12 as DeepView>::V,
        v13: <Self::V13 as DeepView>::V,
        v14: <Self::V14 as DeepView>::V,
    ) -> <Self::Record as DeepView>::V;

    /// Builds the record from the decoded fields.
    fn make(&self, v1: Self::V1, v2: Self::V2, v3: Self::V3, v4: Self::V4, v5: Self::V5, v6: Self::V6, v7: Self::V7, v8: Self::V8, v9: Self::V9, v10: Self::V10, v11: Self::V11, v12: Self::V12, v13: Self::V13, v14: Self::V14) -> (r: Self::Record)
        ensures
            r.deep_view() == self.make_spec(
                v1.deep_view(),
                v2.deep_view(),
                v3.deep_view(),
                v4.deep_view(),
                v5.deep_view(),
                v6.deep_view(),
                v7.deep_view(),
                v8.deep_view(),
                v9.deep_view(),
                v10.deep_view(),
                v11.deep_view(),
                v12.deep_view(),
                v13.deep_view(),
                v14.deep_view(),
            ),
    ;
}

/// Fourteen decode results combined by the applicative rules.
pub open spec fn apply14_v<V1, V2, V3, V4, V5, V6, V7, V8, V9, V10, V11, V12, V13, V14, T>(
    r1: DataResultV<V1>,
    r2: DataResultV<V2>,
    r3: DataResultV<V3>,
    r4: DataResultV<V4>,
    r5: DataResultV<V5>,
    r6: DataResultV<V6>,
    r7: DataResultV<V7>,
    r8: DataResultV<V8>,
    r9: DataResultV<V9>,
    r10: DataResultV<V10>,
    r11: DataResultV<V11>,
    r12: DataResultV<V12>,
    r13: DataResultV<V13>,
    r14: DataResultV<V14>,
    f: spec_fn(V1, V2, V3, V4, V5, V6, V7, V8, V9, V10, V11, V12, V13, V14) -> T,
) -> DataResultV<T> {
    let merged = merge_msg_opt(merge_msg_opt(merge_msg_opt(merge_msg_opt(merge_msg_opt(merge_msg_opt(merge_msg_opt(merge_msg_opt(merge_msg_opt(merge_msg_opt(merge_msg_opt(merge_msg_opt(merge_msg_opt(r1.message_of(), r2.message_of()), r3.message_of()), r4.message_of()), r5.message_of()), r6.message_of()), r7.message_of()), r8.message_of()), r9.message_of()), r10.message_of()), r11.message_of()), r12.message_of()), r13.message_of()), r14.message_of());
    match (r1.value_of(), r2.value_of(), r3.value_of(), r4.value_of(), r5.value_of(), r6.value_of(), r7.value_of(), r8.value_of(), r9.value_of(), r10.value_of(), r11.value_of(), r12.value_of(), r13.value_of(), r14.value_of()) {
        (Some(a1), Some(a2), Some(a3), Some(a4), Some(a5), Some(a6), Some(a7), Some(a8), Some(a9), Some(a10), Some(a11), Some(a12), Some(a13), Some(a14)) => {
            if r1 is Success && r2 is Success && r3 is Success && r4 is Success && r5 is Success && r6 is Success && r7 is Success && r8 is Success && r9 is Success && r10 is Success && r11 is Success && r12 is Success && r13 is Success && r14 is Success {
                DataResultV::Success { result: f(a1, a2, a3, a4, a5, a6, a7, a8, a9, a10, a11, a12, a13, a14), lifecycle: Lifecycle::Experimental }
            } else {
                DataResultV::Error {
                    partial_result: Some(f(a1, a2, a3, a4, a5, a6, a7, a8, a9, a10, a11, a12, a13, a14)),
                    lifecycle: Lifecycle::Experimental,
                    message: merged->0,
                }
            }
        },
        _ => DataResultV::Error {
            partial_result: None,
            lifecycle: Lifecycle::Experimental,
            message: merged->0,
        },
    }
}

/// A map codec for a record with fourteen rigid fields.
pub struct StructMapCodec14<C1: MapCodec, G1, C2: MapCodec, G2, C3: MapCodec, G3, C4: MapCodec, G4, C5: MapCodec, G5, C6: MapCodec, G6, C7: MapCodec, G7, C8: MapCodec, G8, C9: MapCodec, G9, C10: MapCodec, G10, C11: MapCodec, G11, C12: MapCodec, G12, C13: MapCodec, G13, C14: MapCodec, G14, F> {
    pub field_1: Field<C1, G1>,
    pub field_2: Field<C2, G2>,
    pub field_3: Field<C3, G3>,
    pub field_4: Field<C4, G4>,
    pub field_5: Field<C5, G5>,
    pub field_6: Field<C6, G6>,
    pub field_7: Field<C7, G7>,
    pub field_8: Field<C8, G8>,
    pub field_9: Field<C9, G9>,
    pub field_10: Field<C10, G10>,
    pub field_11: Field<C11, G11>,
    pub field_12: Field<C12, G12>,
    pub field_13: Field<C13, G13>,
    pub field_14: Field<C14, G14>,
    pub apply_function: F,
}

/// Returns a struct codec with fourteen fields.
pub fn struct_14<
    C1: MapCodec,
    G1: FieldGetter<Field = C1::Value>,
    C2: MapCodec,
    G2: FieldGetter<Field = C2::Value, Record = G1::Record>,
    C3: MapCodec,
    G3: FieldGetter<Field = C3::Value, Record = G1::Record>,
    C4: MapCodec,
    G4: FieldGetter<Field = C4::Value, Record = G1::Record>,
    C5: MapCodec,
    G5: FieldGetter<Field = C5::Value, Record = G1::Record>,
    C6: MapCodec,
    G6: FieldGetter<Field = C6::Value, Record = G1::Record>,
    C7: MapCodec,
    G7: FieldGetter<Field = C7::Value, Record = G1::Record>,
    C8: MapCodec,
    G8: FieldGetter<Field = C8::Value, Record = G1::Record>,
    C9: MapCodec,
    G9: FieldGetter<Field = C9::Value, Record = G1::Record>,
    C10: MapCodec,
    G10: FieldGetter<Field = C10::Value, Record = G1::Record>,
    C11: MapCodec,
    G11: FieldGetter<Field = C11::Value, Record = G1::Record>,
    C12: MapCodec,
    G12: FieldGetter<Field = C12::Value, Record = G1::Record>,
    C13: MapCodec,
    G13: FieldGetter<Field = C13::Value, Record = G1::Record>,
    C14: MapCodec,
    G14: FieldGetter<Field = C14::Value, Record = G1::Record>,
    F: RecordCtor14<V1 = C1::Value, V2 = C2::Value, V3 = C3::Value, V4 = C4::Value, V5 = C5::Value, V6 = C6::Value, V7 = C7::Value, V8 = C8::Value, V9 = C9::Value, V10 = C10::Value, V11 = C11::Value, V12 = C12::Value, V13 = C13::Value, V14 = C14::Value, Record = G1::Record>,
>(
    field_1: Field<C1, G1>,
    field_2: Field<C2, G2>,
    field_3: Field<C3, G3>,
    field_4: Field<C4, G4>,
    field_5: Field<C5, G5>,
    field_6: Field<C6, G6>,
    field_7: Field<C7, G7>,
    field_8: Field<C8, G8>,
    field_9: Field<C9, G9>,
    field_10: Field<C10, G10>,
    field_11: Field<C11, G11>,
    field_12: Field<C12, G12>,
    field_13: Field<C13, G13>,
    field_14: Field<C14, G14>,
    f: F,
) -> (r: MapCodecCodec<StructMapCodec14<C1, G1, C2, G2, C3, G3, C4, G4, C5, G5, C6, G6, C7, G7, C8, G8, C9, G9, C10, G10, C11, G11, C12, G12, C13, G13, C14, G14, F>>)
    ensures
        r.map_codec.field_1 == field_1,
        r.map_codec.field_2 == field_2,
        r.map_codec.field_3 == field_3,
        r.map_codec.field_4 == field_4,
        r.map_codec.field_5 == field_5,
        r.map_codec.field_6 == field_6,
        r.map_codec.field_7 == field_7,
        r.map_codec.field_8 == field_8,
        r.map_codec.field_9 == field_9,
        r.map_codec.field_10 == field_10,
        r.map_codec.field_11 == field_11,
        r.map_codec.field_12 == field_12,
        r.map_codec.field_13 == field_13,
        r.map_codec.field_14 == field_14,
        r.map_codec.apply_function == f,
{
    MapCodecCodec::new(StructMapCodec14 { field_1, field_2, field_3, field_4, field_5, field_6, field_7, field_8, field_9, field_10, field_11, field_12, field_13, field_14, apply_function: f })
}

impl<
    C1: MapCodec,
    G1: FieldGetter<Field = C1::Value>,
    C2: MapCodec,
    G2: FieldGetter<Field = C2::Value, Record = G1::Record>,
    C3: MapCodec,
    G3: FieldGetter<Field = C3::Value, Record = G1::Record>,
    C4: MapCodec,
    G4: FieldGetter<Field = C4::Value, Record = G1::Record>,
    C5: MapCodec,
    G5: FieldGetter<Field = C5::Value, Record = G1::Record>,
    C6: MapCodec,
    G6: FieldGetter<Field = C6::Value, Record = G1::Record>,
    C7: MapCodec,
    G7: FieldGetter<Field = C7::Value, Record = G1::Record>,
    C8: MapCodec,
    G8: FieldGetter<Field = C8::Value, Record = G1::Record>,
    C9: MapCodec,
    G9: FieldGetter<Field = C9::Value, Record = G1::Record>,
    C10: MapCodec,
    G10: FieldGetter<Field = C10::Value, Record = G1::Record>,
    C11: MapCodec,
    G11: FieldGetter<Field = C11::Value, Record = G1::Record>,
    C12: MapCodec,
    G12: FieldGetter<Field = C12::Value, Record = G1::Record>,
    C13: MapCodec,
    G13: FieldGetter<Field = C13::Value, Record = G1::Record>,
    C14: MapCodec,
    G14: FieldGetter<Field = C14::Value, Record = G1::Record>,
    F: RecordCtor14<V1 = C1::Value, V2 = C2::Value, V3 = C3::Value, V4 = C4::Value, V5 = C5::Value, V6 = C6::Value, V7 = C7::Value, V8 = C8::Value, V9 = C9::Value, V10 = C10::Value, V11 = C11::Value, V12 = C12::Value, V13 = C13::Value, V14 = C14::Value, Record = G1::Record>,
> HasValue for StructMapCodec14<C1, G1, C2, G2, C3, G3, C4, G4, C5, G5, C6, G6, C7, G7, C8, G8, C9, G9, C10, G10, C11, G11, C12, G12, C13, G13, C14, G14, F> {
    type Value = G1::Record;
}

impl<
    C1: MapCodec,
    G1: FieldGetter<Field = C1::Value>,
    C2: MapCodec,
    G2: FieldGetter<Field = C2::Value, Record = G1::Record>,
    C3: MapCodec,
    G3: FieldGetter<Field = C3::Value, Record = G1::Record>,
    C4: MapCodec,
    G4: FieldGetter<Field = C4::Value, Record = G1::Record>,
    C5: MapCodec,
    G5: FieldGetter<Field = C5::Value, Record = G1::Record>,
    C6: MapCodec,
    G6: FieldGetter<Field = C6::Value, Record = G1::Record>,
    C7: MapCodec,
    G7: FieldGetter<Field = C7::Value, Record = G1::Record>,
    C8: MapCodec,
    G8: FieldGetter<Field = C8::Value, Record = G1::Record>,
    C9: MapCodec,
    G9: FieldGetter<Field = C9::Value, Record = G1::Record>,
    C10: MapCodec,
    G10: FieldGetter<Field = C10::Value, Record = G1::Record>,
    C11: MapCodec,
    G11: FieldGetter<Field = C11::Value, Record = G1::Record>,
    C12: MapCodec,
    G12: FieldGetter<Field = C12::Value, Record = G1::Record>,
    C13: MapCodec,
    G13: FieldGetter<Field = C13::Value, Record = G1::Record>,
    C14: MapCodec,
    G14: FieldGetter<Field = C14::Value, Record = G1::Record>,
    F: RecordCtor14<V1 = C1::Value, V2 = C2::Value, V3 = C3::Value, V4 = C4::Value, V5 = C5::Value, V6 = C6::Value, V7 = C7::Value, V8 = C8::Value, V9 = C9::Value, V10 = C10::Value, V11 = C11::Value, V12 = C12::Value, V13 = C13::Value, V14 = C14::Value, Record = G1::Record>,
> MapCodec for StructMapCodec14<C1, G1, C2, G2, C3, G3, C4, G4, C5, G5, C6, G6, C7, G7, C8, G8, C9, G9, C10, G10, C11, G11, C12, G12, C13, G13, C14, G14, F> {
    open spec fn keys_spec(&self) -> Seq<Seq<char>> {
        self.field_1.map_codec.keys_spec() + self.field_2.map_codec.keys_spec() + self.field_3.map_codec.keys_spec() + self.field_4.map_codec.keys_spec() + self.field_5.map_codec.keys_spec() + self.field_6.map_codec.keys_spec() + self.field_7.map_codec.keys_spec() + self.field_8.map_codec.keys_spec() + self.field_9.map_codec.keys_spec() + self.field_10.map_codec.keys_spec() + self.field_11.map_codec.keys_spec() + self.field_12.map_codec.keys_spec() + self.field_13.map_codec.keys_spec() + self.field_14.map_codec.keys_spec()
    }

    fn keys(&self) -> (r: Vec<String>) {
        let mut out = self.field_1.map_codec.keys();
        let more_2 = self.field_2.map_codec.keys();
        concat_keys(&mut out, &more_2);
        let more_3 = self.field_3.map_codec.keys();
        concat_keys(&mut out, &more_3);
        let more_4 = self.field_4.map_codec.keys();
        concat_keys(&mut out, &more_4);
        let more_5 = self.field_5.map_codec.keys();
        concat_keys(&mut out, &more_5);
        let more_6 = self.field_6.map_codec.keys();
        concat_keys(&mut out, &more_6);
        let more_7 = self.field_7.map_codec.keys();
        concat_keys(&mut out, &more_7);
        let more_8 = self.field_8.map_codec.keys();
        concat_keys(&mut out, &more_8);
        let more_9 = self.field_9.map_codec.keys();
        concat_keys(&mut out, &more_9);
        let more_10 = self.field_10.map_codec.keys();
        concat_keys(&mut out, &more_10);
        let more_11 = self.field_11.map_codec.keys();
        concat_keys(&mut out, &more_11);
        let more_12 = self.field_12.map_codec.keys();
        concat_keys(&mut out, &more_12);
        let more_13 = self.field_13.map_codec.keys();
        concat_keys(&mut out, &more_13);
        let more_14 = self.field_14.map_codec.keys();
        concat_keys(&mut out, &more_14);
        proof {
            assert(str_views(out@) =~= self.keys_spec());
        }
        out
    }

    open spec fn map_encode_spec(
        &self,
        input: <G1::Record as DeepView>::V,
        ops: JsonOps,
        builder: StructBuilderV,
    ) -> StructBuilderV {
        self.field_14.map_codec.map_encode_spec(
            self.field_14.getter.get_spec(input),
            ops,
            self.field_13.map_codec.map_encode_spec(
            self.field_13.getter.get_spec(input),
            ops,
            self.field_12.map_codec.map_encode_spec(
            self.field_12.getter.get_spec(input),
            ops,
            self.field_11.map_codec.map_encode_spec(
            self.field_11.getter.get_spec(input),
            ops,
            self.field_10.map_codec.map_encode_spec(
            self.field_10.getter.get_spec(input),
            ops,
            self.field_9.map_codec.map_encode_spec(
            self.field_9.getter.get_spec(input),
            ops,
            self.field_8.map_codec.map_encode_spec(
            self.field_8.getter.get_spec(input),
            ops,
            self.field_7.map_codec.map_encode_spec(
            self.field_7.getter.get_spec(input),
            ops,
            self.field_6.map_codec.map_encode_spec(
            self.field_6.getter.get_spec(input),
            ops,
            self.field_5.map_codec.map_encode_spec(
            self.field_5.getter.get_spec(input),
            ops,
            self.field_4.map_codec.map_encode_spec(
            self.field_4.getter.get_spec(input),
            ops,
            self.field_3.map_codec.map_encode_spec(
            self.field_3.getter.get_spec(input),
            ops,
            self.field_2.map_codec.map_encode_spec(
            self.field_2.getter.get_spec(input),
            ops,
            self.field_1.map_codec.map_encode_spec(
            self.field_1.getter.get_spec(input),
            ops,
            builder,
        ),
        ),
        ),
        ),
        ),
        ),
        ),
        ),
        ),
        ),
        ),
        ),
        ),
        )
    }

    fn encode(&self, input: &G1::Record, ops: &JsonOps, prefix: EncoderStructBuilder) -> (r:
        EncoderStructBuilder) {
        let v1 = self.field_1.getter.get(input);
        let prefix = self.field_1.map_codec.encode(v1, ops, prefix);
        let v2 = self.field_2.getter.get(input);
        let prefix = self.field_2.map_codec.encode(v2, ops, prefix);
        let v3 = self.field_3.getter.get(input);
        let prefix = self.field_3.map_codec.encode(v3, ops, prefix);
        let v4 = self.field_4.getter.get(input);
        let prefix = self.field_4.map_codec.encode(v4, ops, prefix);
        let v5 = self.field_5.getter.get(input);
        let prefix = self.field_5.map_codec.encode(v5, ops, prefix);
        let v6 = self.field_6.getter.get(input);
        let prefix = self.field_6.map_codec.encode(v6, ops, prefix);
        let v7 = self.field_7.getter.get(input);
        let prefix = self.field_7.map_codec.encode(v7, ops, prefix);
        let v8 = self.field_8.getter.get(input);
        let prefix = self.field_8.map_codec.encode(v8, ops, prefix);
        let v9 = self.field_9.getter.get(input);
        let prefix = self.field_9.map_codec.encode(v9, ops, prefix);
        let v10 = self.field_10.getter.get(input);
        let prefix = self.field_10.map_codec.encode(v10, ops, prefix);
        let v11 = self.field_11.getter.get(input);
        let prefix = self.field_11.map_codec.encode(v11, ops, prefix);
        let v12 = self.field_12.getter.get(input);
        let prefix = self.field_12.map_codec.encode(v12, ops, prefix);
        let v13 = self.field_13.getter.get(input);
        let prefix = self.field_13.map_codec.encode(v13, ops, prefix);
        let v14 = self.field_14.getter.get(input);
        let prefix = self.field_14.map_codec.encode(v14, ops, prefix);
        prefix
    }

    open spec fn map_decode_spec(
        &self,
        entries: Seq<(Seq<char>, JsonV)>,
        ops: JsonOps,
    ) -> DataResultV<<G1::Record as DeepView>::V> {
        apply14_v(
            self.field_1.map_codec.map_decode_spec(entries, ops),
            self.field_2.map_codec.map_decode_spec(entries, ops),
            self.field_3.map_codec.map_decode_spec(entries, ops),
            self.field_4.map_codec.map_decode_spec(entries, ops),
            self.field_5.map_codec.map_decode_spec(entries, ops),
            self.field_6.map_codec.map_decode_spec(entries, ops),
            self.field_7.map_codec.map_decode_spec(entries, ops),
            self.field_8.map_codec.map_decode_spec(entries, ops),
            self.field_9.map_codec.map_decode_spec(entries, ops),
            self.field_10.map_codec.map_decode_spec(entries, ops),
            self.field_11.map_codec.map_decode_spec(entries, ops),
            self.field_12.map_codec.map_decode_spec(entries, ops),
            self.field_13.map_codec.map_decode_spec(entries, ops),
            self.field_14.map_codec.map_decode_spec(entries, ops),
            |v1, v2, v3, v4, v5, v6, v7, v8, v9, v10, v11, v12, v13, v14| self.apply_function.make_spec(v1, v2, v3, v4, v5, v6, v7, v8, v9, v10, v11, v12, v13, v14),
        )
    }

    fn decode(&self, input: &MapLike, ops: &JsonOps) -> (r: DataResult<G1::Record>) {
        let r1 = self.field_1.map_codec.decode(input, ops);
        let r2 = self.field_2.map_codec.decode(input, ops);
        let r3 = self.field_3.map_codec.decode(input, ops);
        let r4 = self.field_4.map_codec.decode(input, ops);
        let r5 = self.field_5.map_codec.decode(input, ops);
        let r6 = self.field_6.map_codec.decode(input, ops);
        let r7 = self.field_7.map_codec.decode(input, ops);
        let r8 = self.field_8.map_codec.decode(input, ops);
        let r9 = self.field_9.map_codec.decode(input, ops);
        let r10 = self.field_10.map_codec.decode(input, ops);
        let r11 = self.field_11.map_codec.decode(input, ops);
        let r12 = self.field_12.map_codec.decode(input, ops);
        let r13 = self.field_13.map_codec.decode(input, ops);
        let r14 = self.field_14.map_codec.decode(input, ops);
        let all_success = r1.is_success() && r2.is_success() && r3.is_success() && r4.is_success() && r5.is_success() && r6.is_success() && r7.is_success() && r8.is_success() && r9.is_success() && r10.is_success() && r11.is_success() && r12.is_success() && r13.is_success() && r14.is_success();
        let (p1, m1) = split_result(r1);
        let (p2, m2) = split_result(r2);
        let (p3, m3) = split_result(r3);
        let (p4, m4) = split_result(r4);
        let (p5, m5) = split_result(r5);
        let (p6, m6) = split_result(r6);
        let (p7, m7) = split_result(r7);
        let (p8, m8) = split_result(r8);
        let (p9, m9) = split_result(r9);
        let (p10, m10) = split_result(r10);
        let (p11, m11) = split_result(r11);
        let (p12, m12) = split_result(r12);
        let (p13, m13) = split_result(r13);
        let (p14, m14) = split_result(r14);
        let merged = merge_messages(merge_messages(merge_messages(merge_messages(merge_messages(merge_messages(merge_messages(merge_messages(merge_messages(merge_messages(merge_messages(merge_messages(merge_messages(m1, m2), m3), m4), m5), m6), m7), m8), m9), m10), m11), m12), m13), m14);
        match (p1, p2, p3, p4, p5, p6, p7, p8, p9, p10, p11, p12, p13, p14) {
            (Some(a1), Some(a2), Some(a3), Some(a4), Some(a5), Some(a6), Some(a7), Some(a8), Some(a9), Some(a10), Some(a11), Some(a12), Some(a13), Some(a14)) => {
                let value = self.apply_function.make(a1, a2, a3, a4, a5, a6, a7, a8, a9, a10, a11, a12, a13, a14);
                if all_success {
                    DataResult::Success { result: value, lifecycle: Lifecycle::Experimental }
                } else {
                    match merged {
                        Some(message) => DataResult::Error {
                            partial_result: Some(value),
                            lifecycle: Lifecycle::Experimental,
                            message,
                        },
                        None => vstd::pervasive::unreached(),
                    }
                }
            },
            _ => {
                match merged {
                    Some(message) => DataResult::Error {
                        partial_result: None,
                        lifecycle: Lifecycle::Experimental,
                        message,
                    },
                    None => vstd::pervasive::unreached(),
                }
            },
        }
    }
}

/// How a struct codec of fifteen fields rebuilds a record while decoding.
pub trait RecordCtor15 {
    type V1: DeepView;

    type V2: DeepView;

    type V3: DeepView;

    type V4: DeepView;

    type V5: DeepView;

    type V6: DeepView;

    type V7: DeepView;

    type V8: DeepView;

    type V9: DeepView;

    type V10: DeepView;

    type V11: DeepView;

    type V12: DeepView;

    type V13: DeepView;

    type V14: DeepView;

    type V15: DeepView;

    type Record: DeepView;

    /// The record built from the fields, at the specification level.
    spec fn make_spec(
        &self,
        v1: <Self::V1 as DeepView>::V,
        v2: <Self::V2 as DeepView>::V,
        v3: <Self::V3 as DeepView>::V,
        v4: <Self::V4 as DeepView>::V,
        v5: <Self::V5 as DeepView>::V,
        v6: <Self::V6 as DeepView>::V,
        v7: <Self::V7 as DeepView>::V,
        v8: <Self::V8 as DeepView>::V,
        v9: <Self::V9 as DeepView>::V,
        v10: <Self::V10 as DeepView>::V,
        v11: <Self::V11 as DeepView>::V,
        v12: <Self::V12 as DeepView>::V,
        v13: <Self::V13 as DeepView>::V,
        v14: <Self::V14 as DeepView>::V,
        v15: <Self::V15 as DeepView>::V,
    ) -> <Self::Record as DeepView>::V;

    /// Builds the record from the decoded fields.
    fn make(&self, v1: Self::V1, v2: Self::V2, v3: Self::V3, v4: Self::V4, v5: Self::V5, v6: Self::V6, v7: Self::V7, v8: Self::V8, v9: Self::V9, v10: Self::V10, v11: Self::V11, v12: Self::V12, v13: Self::V13, v14: Self::V14, v15: Self::V15) -> (r: Self::Record)
        ensures
            r.deep_view() == self.make_spec(
                v1.deep_view(),
                v2.deep_view(),
                v3.deep_view(),
                v4.deep_view(),
                v5.deep_view(),
                v6.deep_view(),
                v7.deep_view(),
                v8.deep_view(),
                v9.deep_view(),
                v10.deep_view(),
                v11.deep_view(),
                v12.deep_view(),
                v13.deep_view(),
                v14.deep_view(),
                v15.deep_view(),
            ),
    ;
}

/// Fifteen decode results combined by the applicative rules.
pub open spec fn apply15_v<V1, V2, V3, V4, V5, V6, V7, V8, V9, V10, V11, V12, V13, V14, V15, T>(
    r1: DataResultV<V1>,
    r2: DataResultV<V2>,
    r3: DataResultV<V3>,
    r4: DataResultV<V4>,
    r5: DataResultV<V5>,
    r6: DataResultV<V6>,
    r7: DataResultV<V7>,
    r8: DataResultV<V8>,
    r9: DataResultV<V9>,
    r10: DataResultV<V10>,
    r11: DataResultV<V11>,
    r12: DataResultV<V12>,
    r13: DataResultV<V13>,
    r14: DataResultV<V14>,
    r15: DataResultV<V15>,
    f: spec_fn(V1, V2, V3, V4, V5, V6, V7, V8, V9, V10, V11, V12, V13, V14, V15) -> T,
) -> DataResultV<T> {
    let merged = merge_msg_opt(merge_msg_opt(merge_msg_opt(merge_msg_opt(merge_msg_opt(merge_msg_opt(merge_msg_opt(merge_msg_opt(merge_msg_opt(merge_msg_opt(merge_msg_opt(merge_msg_opt(merge_msg_opt(merge_msg_opt(r1.message_of(), r2.message_of()), r3.message_of()), r4.message_of()), r5.message_of()), r6.message_of()), r7.message_of()), r8.message_of()), r9.message_of()), r10.message_of()), r11.message_of()), r12.message_of()), r13.message_of()), r14.message_of()), r15.message_of());
    match (r1.value_of(), r2.value_of(), r3.value_of(), r4.value_of(), r5.value_of(), r6.value_of(), r7.value_of(), r8.value_of(), r9.value_of(), r10.value_of(), r11.value_of(), r12.value_of(), r13.value_of(), r14.value_of(), r15.value_of()) {
        (Some(a1), Some(a2), Some(a3), Some(a4), Some(a5), Some(a6), Some(a7), Some(a8), Some(a9), Some(a10), Some(a11), Some(a12), Some(a13), Some(a14), Some(a15)) => {
            if r1 is Success && r2 is Success && r3 is Success && r4 is Success && r5 is Success && r6 is Success && r7 is Success && r8 is Success && r9 is Success && r10 is Success && r11 is Success && r12 is Success && r13 is Success && r14 is Success && r15 is Success {
                DataResultV::Success { result: f(a1, a2, a3, a4, a5, a6, a7, a8, a9, a10, a11, a12, a13, a14, a15), lifecycle: Lifecycle::Experimental }
            } else {
                DataResultV::Error {
                    partial_result: Some(f(a1, a2, a3, a4, a5, a6, a7, a8, a9, a10, a11, a12, a13, a14, a15)),
                    lifecycle: Lifecycle::Experimental,
                    message: merged->0,
                }
            }
        },
        _ => DataResultV::Error {
            partial_result: None,
            lifecycle: Lifecycle::Experimental,
            message: merged->0,
        },
    }
}

/// A map codec for a record with fifteen rigid fields.
pub struct StructMapCodec15<C1: MapCodec, G1, C2: MapCodec, G2, C3: MapCodec, G3, C4: MapCodec, G4, C5: MapCodec, G5, C6: MapCodec, G6, C7: MapCodec, G7, C8: MapCodec, G8, C9: MapCodec, G9, C10: MapCodec, G10, C11: MapCodec, G11, C12: MapCodec, G12, C13: MapCodec, G13, C14: MapCodec, G14, C15: MapCodec, G15, F> {
    pub field_1: Field<C1, G1>,
    pub field_2: Field<C2, G2>,
    pub field_3: Field<C3, G3>,
    pub field_4: Field<C4, G4>,
    pub field_5: Field<C5, G5>,
    pub field_6: Field<C6, G6>,
    pub field_7: Field<C7, G7>,
    pub field_8: Field<C8, G8>,
    pub field_9: Field<C9, G9>,
    pub field_10: Field<C10, G10>,
    pub field_11: Field<C11, G11>,
    pub field_12: Field<C12, G12>,
    pub field_13: Field<C13, G13>,
    pub field_14: Field<C14, G14>,
    pub field_15: Field<C15, G15>,
    pub apply_function: F,
}

/// Returns a struct codec with fifteen fields.
pub fn struct_15<
    C1: MapCodec,
    G1: FieldGetter<Field = C1::Value>,
    C2: MapCodec,
    G2: FieldGetter<Field = C2::Value, Record = G1::Record>,
    C3: MapCodec,
    G3: FieldGetter<Field = C3::Value, Record = G1::Record>,
    C4: MapCodec,
    G4: FieldGetter<Field = C4::Value, Record = G1::Record>,
    C5: MapCodec,
    G5: FieldGetter<Field = C5::Value, Record = G1::Record>,
    C6: MapCodec,
    G6: FieldGetter<Field = C6::Value, Record = G1::Record>,
    C7: MapCodec,
    G7: FieldGetter<Field = C7::Value, Record = G1::Record>,
    C8: MapCodec,
    G8: FieldGetter<Field = C8::Value, Record = G1::Record>,
    C9: MapCodec,
    G9: FieldGetter<Field = C9::Value, Record = G1::Record>,
    C10: MapCodec,
    G10: FieldGetter<Field = C10::Value, Record = G1::Record>,
    C11: MapCodec,
    G11: FieldGetter<Field = C11::Value, Record = G1::Record>,
    C12: MapCodec,
    G12: FieldGetter<Field = C12::Value, Record = G1::Record>,
    C13: MapCodec,
    G13: FieldGetter<Field = C13::Value, Record = G1::Record>,
    C14: MapCodec,
    G14: FieldGetter<Field = C14::Value, Record = G1::Record>,
    C15: MapCodec,
    G15: FieldGetter<Field = C15::Value, Record = G1::Record>,
    F: RecordCtor15<V1 = C1::Value, V2 = C2::Value, V3 = C3::Value, V4 = C4::Value, V5 = C5::Value, V6 = C6::Value, V7 = C7::Value, V8 = C8::Value, V9 = C9::Value, V10 = C10::Value, V11 = C11::Value, V12 = C12::Value, V13 = C13::Value, V14 = C14::Value, V15 = C15::Value, Record = G1::Record>,
>(
    field_1: Field<C1, G1>,
    field_2: Field<C2, G2>,
    field_3: Field<C3, G3>,
    field_4: Field<C4, G4>,
    field_5: Field<C5, G5>,
    field_6: Field<C6, G6>,
    field_7: Field<C7, G7>,
    field_8: Field<C8, G8>,
    field_9: Field<C9, G9>,
    field_10: Field<C10, G10>,
    field_11: Field<C11, G11>,
    field_12: Field<C12, G12>,
    field_13: Field<C13, G13>,
    field_14: Field<C14, G14>,
    field_15: Field<C15, G15>,
    f: F,
) -> (r: MapCodecCodec<StructMapCodec15<C1, G1, C2, G2, C3, G3, C4, G4, C5, G5, C6, G6, C7, G7, C8, G8, C9, G9, C10, G10, C11, G11, C12, G12, C13, G13, C14, G14, C15, G15, F>>)
    ensures
        r.map_codec.field_1 == field_1,
        r.map_codec.field_2 == field_2,
        r.map_codec.field_3 == field_3,
        r.map_codec.field_4 == field_4,
        r.map_codec.field_5 == field_5,
        r.map_codec.field_6 == field_6,
        r.map_codec.field_7 == field_7,
        r.map_codec.field_8 == field_8,
        r.map_codec.field_9 == field_9,
        r.map_codec.field_10 == field_10,
        r.map_codec.field_11 == field_11,
        r.map_codec.field_12 == field_12,
        r.map_codec.field_13 == field_13,
        r.map_codec.field_14 == field_14,
        r.map_codec.field_15 == field_15,
        r.map_codec.apply_function == f,
{
    MapCodecCodec::new(StructMapCodec15 { field_1, field_2, field_3, field_4, field_5, field_6, field_7, field_8, field_9, field_10, field_11, field_12, field_13, field_14, field_15, apply_function: f })
}

impl<
    C1: MapCodec,
    G1: FieldGetter<Field = C1::Value>,
    C2: MapCodec,
    G2: FieldGetter<Field = C2::Value, Record = G1::Record>,
    C3: MapCodec,
    G3: FieldGetter<Field = C3::Value, Record = G1::Record>,
    C4: MapCodec,
    G4: FieldGetter<Field = C4::Value, Record = G1::Record>,
    C5: MapCodec,
    G5: FieldGetter<Field = C5::Value, Record = G1::Record>,
    C6: MapCodec,
    G6: FieldGetter<Field = C6::Value, Record = G1::Record>,
    C7: MapCodec,
    G7: FieldGetter<Field = C7::Value, Record = G1::Record>,
    C8: MapCodec,
    G8: FieldGetter<Field = C8::Value, Record = G1::Record>,
    C9: MapCodec,
    G9: FieldGetter<Field = C9::Value, Record = G1::Record>,
    C10: MapCodec,
    G10: FieldGetter<Field = C10::Value, Record = G1::Record>,
    C11: MapCodec,
    G11: FieldGetter<Field = C11::Value, Record = G1::Record>,
    C12: MapCodec,
    G12: FieldGetter<Field = C12::Value, Record = G1::Record>,
    C13: MapCodec,
    G13: FieldGetter<Field = C13::Value, Record = G1::Record>,
    C14: MapCodec,
    G14: FieldGetter<Field = C14::Value, Record = G1::Record>,
    C15: MapCodec,
    G15: FieldGetter<Field = C15::Value, Record = G1::Record>,
    F: RecordCtor15<V1 = C1::Value, V2 = C2::Value, V3 = C3::Value, V4 = C4::Value, V5 = C5::Value, V6 = C6::Value, V7 = C7::Value, V8 = C8::Value, V9 = C9::Value, V10 = C10::Value, V11 = C11::Value, V12 = C12::Value, V13 = C13::Value, V14 = C14::Value, V15 = C15::Value, Record = G1::Record>,
> HasValue for StructMapCodec15<C1, G1, C2, G2, C3, G3, C4, G4, C5, G5, C6, G6, C7, G7, C8, G8, C9, G9, C10, G10, C11, G11, C12, G12, C13, G13, C14, G14, C15, G15, F> {
    type Value = G1::Record;
}

impl<
    C1: MapCodec,
    G1: FieldGetter<Field = C1::Value>,
    C2: MapCodec,
    G2: FieldGetter<Field = C2::Value, Record = G1::Record>,
    C3: MapCodec,
    G3: FieldGetter<Field = C3::Value, Record = G1::Record>,
    C4: MapCodec,
    G4: FieldGetter<Field = C4::Value, Record = G1::Record>,
    C5: MapCodec,
    G5: FieldGetter<Field = C5::Value, Record = G1::Record>,
    C6: MapCodec,
    G6: FieldGetter<Field = C6::Value, Record = G1::Record>,
    C7: MapCodec,
    G7: FieldGetter<Field = C7::Value, Record = G1::Record>,
    C8: MapCodec,
    G8: FieldGetter<Field = C8::Value, Record = G1::Record>,
    C9: MapCodec,
    G9: FieldGetter<Field = C9::Value, Record = G1::Record>,
    C10: MapCodec,
    G10: FieldGetter<Field = C10::Value, Record = G1::Record>,
    C11: MapCodec,
    G11: FieldGetter<Field = C11::Value, Record = G1::Record>,
    C12: MapCodec,
    G12: FieldGetter<Field = C12::Value, Record = G1::Record>,
    C13: MapCodec,
    G13: FieldGetter<Field = C13::Value, Record = G1::Record>,
    C14: MapCodec,
    G14: FieldGetter<Field = C14::Value, Record = G1::Record>,
    C15: MapCodec,
    G15: FieldGetter<Field = C15::Value, Record = G1::Record>,
    F: RecordCtor15<V1 = C1::Value, V2 = C2::Value, V3 = C3::Value, V4 = C4::Value, V5 = C5::Value, V6 = C6::Value, V7 = C7::Value, V8 = C8::Value, V9 = C9::Value, V10 = C10::Value, V11 = C11::Value, V12 = C12::Value, V13 = C13::Value, V14 = C14::Value, V15 = C15::Value, Record = G1::Record>,
> MapCodec for StructMapCodec15<C1, G1, C2, G2, C3, G3, C4, G4, C5, G5, C6, G6, C7, G7, C8, G8, C9, G9, C10, G10, C11, G11, C12, G12, C13, G13, C14, G14, C15, G15, F> {
    open spec fn keys_spec(&self) -> Seq<Seq<char>> {
        self.field_1.map_codec.keys_spec() + self.field_2.map_codec.keys_spec() + self.field_3.map_codec.keys_spec() + self.field_4.map_codec.keys_spec() + self.field_5.map_codec.keys_spec() + self.field_6.map_codec.keys_spec() + self.field_7.map_codec.keys_spec() + self.field_8.map_codec.keys_spec() + self.field_9.map_codec.keys_spec() + self.field_10.map_codec.keys_spec() + self.field_11.map_codec.keys_spec() + self.field_12.map_codec.keys_spec() + self.field_13.map_codec.keys_spec() + self.field_14.map_codec.keys_spec() + self.field_15.map_codec.keys_spec()
    }

    fn keys(&self) -> (r: Vec<String>) {
        let mut out = self.field_1.map_codec.keys();
        let more_2 = self.field_2.map_codec.keys();
        concat_keys(&mut out, &more_2);
        let more_3 = self.field_3.map_codec.keys();
        concat_keys(&mut out, &more_3);
        let more_4 = self.field_4.map_codec.keys();
        concat_keys(&mut out, &more_4);
        let more_5 = self.field_5.map_codec.keys();
        concat_keys(&mut out, &more_5);
        let more_6 = self.field_6.map_codec.keys();
        concat_keys(&mut out, &more_6);
        let more_7 = self.field_7.map_codec.keys();
        concat_keys(&mut out, &more_7);
        let more_8 = self.field_8.map_codec.keys();
        concat_keys(&mut out, &more_8);
        let more_9 = self.field_9.map_codec.keys();
        concat_keys(&mut out, &more_9);
        let more_10 = self.field_10.map_codec.keys();
        concat_keys(&mut out, &more_10);
        let more_11 = self.field_11.map_codec.keys();
        concat_keys(&mut out, &more_11);
        let more_12 = self.field_12.map_codec.keys();
        concat_keys(&mut out, &more_12);
        let more_13 = self.field_13.map_codec.keys();
        concat_keys(&mut out, &more_13);
        let more_14 = self.field_14.map_codec.keys();
        concat_keys(&mut out, &more_14);
        let more_15 = self.field_15.map_codec.keys();
        concat_keys(&mut out, &more_15);
        proof {
            assert(str_views(out@) =~= self.keys_spec());
        }
        out
    }

    open spec fn map_encode_spec(
        &self,
        input: <G1::Record as DeepView>::V,
        ops: JsonOps,
        builder: StructBuilderV,
    ) -> StructBuilderV {
        self.field_15.map_codec.map_encode_spec(
            self.field_15.getter.get_spec(input),
            ops,
            self.field_14.map_codec.map_encode_spec(
            self.field_14.getter.get_spec(input),
            ops,
            self.field_13.map_codec.map_encode_spec(
            self.field_13.getter.get_spec(input),
            ops,
            self.field_12.map_codec.map_encode_spec(
            self.field_12.getter.get_spec(input),
            ops,
            self.field_11.map_codec.map_encode_spec(
            self.field_11.getter.get_spec(input),
            ops,
            self.field_10.map_codec.map_encode_spec(
            self.field_10.getter.get_spec(input),
            ops,
            self.field_9.map_codec.map_encode_spec(
            self.field_9.getter.get_spec(input),
            ops,
            self.field_8.map_codec.map_encode_spec(
            self.field_8.getter.get_spec(input),
            ops,
            self.field_7.map_codec.map_encode_spec(
            self.field_7.getter.get_spec(input),
            ops,
            self.field_6.map_codec.map_encode_spec(
            self.field_6.getter.get_spec(input),
            ops,
            self.field_5.map_codec.map_encode_spec(
            self.field_5.getter.get_spec(input),
            ops,
            self.field_4.map_codec.map_encode_spec(
            self.field_4.getter.get_spec(input),
            ops,
            self.field_3.map_codec.map_encode_spec(
            self.field_3.getter.get_spec(input),
            ops,
            self.field_2.map_codec.map_encode_spec(
            self.field_2.getter.get_spec(input),
            ops,
            self.field_1.map_codec.map_encode_spec(
            self.field_1.getter.get_spec(input),
            ops,
            builder,
        ),
        ),
        ),
        ),
        ),
        ),
        ),
        ),
        ),
        ),
        ),
        ),
        ),
        ),
        )
    }

    fn encode(&self, input: &G1::Record, ops: &JsonOps, prefix: EncoderStructBuilder) -> (r:
        EncoderStructBuilder) {
        let v1 = self.field_1.getter.get(input);
        let prefix = self.field_1.map_codec.encode(v1, ops, prefix);
        let v2 = self.field_2.getter.get(input);
        let prefix = self.field_2.map_codec.encode(v2, ops, prefix);
        let v3 = self.field_3.getter.get(input);
        let prefix = self.field_3.map_codec.encode(v3, ops, prefix);
        let v4 = self.field_4.getter.get(input);
        let prefix = self.field_4.map_codec.encode(v4, ops, prefix);
        let v5 = self.field_5.getter.get(input);
        let prefix = self.field_5.map_codec.encode(v5, ops, prefix);
        let v6 = self.field_6.getter.get(input);
        let prefix = self.field_6.map_codec.encode(v6, ops, prefix);
        let v7 = self.field_7.getter.get(input);
        let prefix = self.field_7.map_codec.encode(v7, ops, prefix);
        let v8 = self.field_8.getter.get(input);
        let prefix = self.field_8.map_codec.encode(v8, ops, prefix);
        let v9 = self.field_9.getter.get(input);
        let prefix = self.field_9.map_codec.encode(v9, ops, prefix);
        let v10 = self.field_10.getter.get(input);
        let prefix = self.field_10.map_codec.encode(v10, ops, prefix);
        let v11 = self.field_11.getter.get(input);
        let prefix = self.field_11.map_codec.encode(v11, ops, prefix);
        let v12 = self.field_12.getter.get(input);
        let prefix = self.field_12.map_codec.encode(v12, ops, prefix);
        let v13 = self.field_13.getter.get(input);
        let prefix = self.field_13.map_codec.encode(v13, ops, prefix);
        let v14 = self.field_14.getter.get(input);
        let prefix = self.field_14.map_codec.encode(v14, ops, prefix);
        let v15 = self.field_15.getter.get(input);
        let prefix = self.field_15.map_codec.encode(v15, ops, prefix);
        prefix
    }

    open spec fn map_decode_spec(
        &self,
        entries: Seq<(Seq<char>, JsonV)>,
        ops: JsonOps,
    ) -> DataResultV<<G1::Record as DeepView>::V> {
        apply15_v(
            self.field_1.map_codec.map_decode_spec(entries, ops),
            self.field_2.map_codec.map_decode_spec(entries, ops),
            self.field_3.map_codec.map_decode_spec(entries, ops),
            self.field_4.map_codec.map_decode_spec(entries, ops),
            self.field_5.map_codec.map_decode_spec(entries, ops),
            self.field_6.map_codec.map_decode_spec(entries, ops),
            self.field_7.map_codec.map_decode_spec(entries, ops),
            self.field_8.map_codec.map_decode_spec(entries, ops),
            self.field_9.map_codec.map_decode_spec(entries, ops),
            self.field_10.map_codec.map_decode_spec(entries, ops),
            self.field_11.map_codec.map_decode_spec(entries, ops),
            self.field_12.map_codec.map_decode_spec(entries, ops),
            self.field_13.map_codec.map_decode_spec(entries, ops),
            self.field_14.map_codec.map_decode_spec(entries, ops),
            self.field_15.map_codec.map_decode_spec(entries, ops),
            |v1, v2, v3, v4, v5, v6, v7, v8, v9, v10, v11, v12, v13, v14, v15| self.apply_function.make_spec(v1, v2, v3, v4, v5, v6, v7, v8, v9, v10, v11, v12, v13, v14, v15),
        )
    }

    fn decode(&self, input: &MapLike, ops: &JsonOps) -> (r: DataResult<G1::Record>) {
        let r1 = self.field_1.map_codec.decode(input, ops);
        let r2 = self.field_2.map_codec.decode(input, ops);
        let r3 = self.field_3.map_codec.decode(input, ops);
        let r4 = self.field_4.map_codec.decode(input, ops);
        let r5 = self.field_5.map_codec.decode(input, ops);
        let r6 = self.field_6.map_codec.decode(input, ops);
        let r7 = self.field_7.map_codec.decode(input, ops);
        let r8 = self.field_8.map_codec.decode(input, ops);
        let r9 = self.field_9.map_codec.decode(input, ops);
        let r10 = self.field_10.map_codec.decode(input, ops);
        let r11 = self.field_11.map_codec.decode(input, ops);
        let r12 = self.field_12.map_codec.decode(input, ops);
        let r13 = self.field_13.map_codec.decode(input, ops);
        let r14 = self.field_14.map_codec.decode(input, ops);
        let r15 = self.field_15.map_codec.decode(input, ops);
        let all_success = r1.is_success() && r2.is_success() && r3.is_success() && r4.is_success() && r5.is_success() && r6.is_success() && r7.is_success() && r8.is_success() && r9.is_success() && r10.is_success() && r11.is_success() && r12.is_success() && r13.is_success() && r14.is_success() && r15.is_success();
        let (p1, m1) = split_result(r1);
        let (p2, m2) = split_result(r2);
        let (p3, m3) = split_result(r3);
        let (p4, m4) = split_result(r4);
        let (p5, m5) = split_result(r5);
        let (p6, m6) = split_result(r6);
        let (p7, m7) = split_result(r7);
        let (p8, m8) = split_result(r8);
        let (p9, m9) = split_result(r9);
        let (p10, m10) = split_result(r10);
        let (p11, m11) = split_result(r11);
        let (p12, m12) = split_result(r12);
        let (p13, m13) = split_result(r13);
        let (p14, m14) = split_result(r14);
        let (p15, m15) = split_result(r15);
        let merged = merge_messages(merge_messages(merge_messages(merge_messages(merge_messages(merge_messages(merge_messages(merge_messages(merge_messages(merge_messages(merge_messages(merge_messages(merge_messages(merge_messages(m1, m2), m3), m4), m5), m6), m7), m8), m9), m10), m11), m12), m13), m14), m15);
        match (p1, p2, p3, p4, p5, p6, p7, p8, p9, p10, p11, p12, p13, p14, p15) {
            (Some(a1), Some(a2), Some(a3), Some(a4), Some(a5), Some(a6), Some(a7), Some(a8), Some(a9), Some(a10), Some(a11), Some(a12), Some(a13), Some(a14), Some(a15)) => {
                let value = self.apply_function.make(a1, a2, a3, a4, a5, a6, a7, a8, a9, a10, a11, a12, a13, a14, a15);
                if all_success {
                    DataResult::Success { result: value, lifecycle: Lifecycle::Experimental }
                } else {
                    match merged {
                        Some(message) => DataResult::Error {
                            partial_result: Some(value),
                            lifecycle: Lifecycle::Experimental,
                            message,
                        },
                        None => vstd::pervasive::unreached(),
                    }
                }
            },
            _ => {
                match merged {
                    Some(message) => DataResult::Error {
                        partial_result: None,
                        lifecycle: Lifecycle::Experimental,
                        message,
                    },
                    None => vstd::pervasive::unreached(),
                }
            },
        }
    }
}

/// How a struct codec of sixteen fields rebuilds a record while decoding.
pub trait RecordCtor16 {
    type V1: DeepView;

    type V2: DeepView;

    type V3: DeepView;

    type V4: DeepView;

    type V5: DeepView;

    type V6: DeepView;

    type V7: DeepView;

    type V8: DeepView;

    type V9: DeepView;

    type V10: DeepView;

    type V11: DeepView;

    type V12: DeepView;

    type V13: DeepView;

    type V14: DeepView;

    type V15: DeepView;

    type V16: DeepView;

    type Record: DeepView;

    /// The record built from the fields, at the specification level.
    spec fn make_spec(
        &self,
        v1: <Self::V1 as DeepView>::V,
        v2: <Self::V2 as DeepView>::V,
        v3: <Self::V3 as DeepView>::V,
        v4: <Self::V4 as DeepView>::V,
        v5: <Self::V5 as DeepView>::V,
        v6: <Self::V6 as DeepView>::V,
        v7: <Self::V7 as DeepView>::V,
        v8: <Self::V8 as DeepView>::V,
        v9: <Self::V9 as DeepView>::V,
        v10: <Self::V10 as DeepView>::V,
        v11: <Self::V11 as DeepView>::V,
        v12: <Self::V12 as DeepView>::V,
        v13: <Self::V13 as DeepView>::V,
        v14: <Self::V14 as DeepView>::V,
        v15: <Self::V15 as DeepView>::V,
        v16: <Self::V16 as DeepView>::V,
    ) -> <Self::Record as DeepView>::V;

    /// Builds the record from the decoded fields.
    fn make(&self, v1: Self::V1, v2: Self::V2, v3: Self::V3, v4: Self::V4, v5: Self::V5, v6: Self::V6, v7: Self::V7, v8: Self::V8, v9: Self::V9, v10: Self::V10, v11: Self::V11, v12: Self::V12, v13: Self::V13, v14: Self::V14, v15: Self::V15, v16: Self::V16) -> (r: Self::Record)
        ensures
            r.deep_view() == self.make_spec(
                v1.deep_view(),
                v2.deep_view(),
                v3.deep_view(),
                v4.deep_view(),
                v5.deep_view(),
                v6.deep_view(),
                v7.deep_view(),
                v8.deep_view(),
                v9.deep_view(),
                v10.deep_view(),
                v11.deep_view(),
                v12.deep_view(),
                v13.deep_view(),
                v14.deep_view(),
                v15.deep_view(),
                v16.deep_view(),
            ),
    ;
}

/// Sixteen decode results combined by the applicative rules.
pub open spec fn apply16_v<V1, V2, V3, V4, V5, V6, V7, V8, V9, V10, V11, V12, V13, V14, V15, V16, T>(
    r1: DataResultV<V1>,
    r2: DataResultV<V2>,
    r3: DataResultV<V3>,
    r4: DataResultV<V4>,
    r5: DataResultV<V5>,
    r6: DataResultV<V6>,
    r7: DataResultV<V7>,
    r8: DataResultV<V8>,
    r9: DataResultV<V9>,
    r10: DataResultV<V10>,
    r11: DataResultV<V11>,
    r12: DataResultV<V12>,
    r13: DataResultV<V13>,
    r14: DataResultV<V14>,
    r15: DataResultV<V15>,
    r16: DataResultV<V16>,
    f: spec_fn(V1, V2, V3, V4, V5, V6, V7, V8, V9, V10, V11, V12, V13, V14, V15, V16) -> T,
) -> DataResultV<T> {
    let merged = merge_msg_opt(merge_msg_opt(merge_msg_opt(merge_msg_opt(merge_msg_opt(merge_msg_opt(merge_msg_opt(merge_msg_opt(merge_msg_opt(merge_msg_opt(merge_msg_opt(merge_msg_opt(merge_msg_opt(merge_msg_opt(merge_msg_opt(r1.message_of(), r2.message_of()), r3.message_of()), r4.message_of()), r5.message_of()), r6.message_of()), r7.message_of()), r8.message_of()), r9.message_of()), r10.message_of()), r11.message_of()), r12.message_of()), r13.message_of()), r14.message_of()), r15.message_of()), r16.message_of());
    match (r1.value_of(), r2.value_of(), r3.value_of(), r4.value_of(), r5.value_of(), r6.value_of(), r7.value_of(), r8.value_of(), r9.value_of(), r10.value_of(), r11.value_of(), r12.value_of(), r13.value_of(), r14.value_of(), r15.value_of(), r16.value_of()) {
        (Some(a1), Some(a2), Some(a3), Some(a4), Some(a5), Some(a6), Some(a7), Some(a8), Some(a9), Some(a10), Some(a11), Some(a12), Some(a13), Some(a14), Some(a15), Some(a16)) => {
            if r1 is Success && r2 is Success && r3 is Success && r4 is Success && r5 is Success && r6 is Success && r7 is Success && r8 is Success && r9 is Success && r10 is Success && r11 is Success && r12 is Success && r13 is Success && r14 is Success && r15 is Success && r16 is Success {
                DataResultV::Success { result: f(a1, a2, a3, a4, a5, a6, a7, a8, a9, a10, a11, a12, a13, a14, a15, a16), lifecycle: Lifecycle::Experimental }
            } else {
                DataResultV::Error {
                    partial_result: Some(f(a1, a2, a3, a4, a5, a6, a7, a8, a9, a10, a11, a12, a13, a14, a15, a16)),
                    lifecycle: Lifecycle::Experimental,
                    message: merged->0,
                }
            }
        },
        _ => DataResultV::Error {
            partial_result: None,
            lifecycle: Lifecycle::Experimental,
            message: merged->0,
        },
    }
}

/// A map codec for a record with sixteen rigid fields.
pub struct StructMapCodec16<C1: MapCodec, G1, C2: MapCodec, G2, C3: MapCodec, G3, C4: MapCodec, G4, C5: MapCodec, G5, C6: MapCodec, G6, C7: MapCodec, G7, C8: MapCodec, G8, C9: MapCodec, G9, C10: MapCodec, G10, C11: MapCodec, G11, C12: MapCodec, G12, C13: MapCodec, G13, C14: MapCodec, G14, C15: MapCodec, G15, C16: MapCodec, G16, F> {
    pub field_1: Field<C1, G1>,
    pub field_2: Field<C2, G2>,
    pub field_3: Field<C3, G3>,
    pub field_4: Field<C4, G4>,
    pub field_5: Field<C5, G5>,
    pub field_6: Field<C6, G6>,
    pub field_7: Field<C7, G7>,
    pub field_8: Field<C8, G8>,
    pub field_9: Field<C9, G9>,
    pub field_10: Field<C10, G10>,
    pub field_11: Field<C11, G11>,
    pub field_12: Field<C12, G12>,
    pub field_13: Field<C13, G13>,
    pub field_14: Field<C14, G14>,
    pub field_15: Field<C15, G15>,
    pub field_16: Field<C16, G16>,
    pub apply_function: F,
}

/// Returns a struct codec with sixteen fields.
pub fn struct_16<
    C1: MapCodec,
    G1: FieldGetter<Field = C1::Value>,
    C2: MapCodec,
    G2: FieldGetter<Field = C2::Value, Record = G1::Record>,
    C3: MapCodec,
    G3: FieldGetter<Field = C3::Value, Record = G1::Record>,
    C4: MapCodec,
    G4: FieldGetter<Field = C4::Value, Record = G1::Record>,
    C5: MapCodec,
    G5: FieldGetter<Field = C5::Value, Record = G1::Record>,
    C6: MapCodec,
    G6: FieldGetter<Field = C6::Value, Record = G1::Record>,
    C7: MapCodec,
    G7: FieldGetter<Field = C7::Value, Record = G1::Record>,
    C8: MapCodec,
    G8: FieldGetter<Field = C8::Value, Record = G1::Record>,
    C9: MapCodec,
    G9: FieldGetter<Field = C9::Value, Record = G1::Record>,
    C10: MapCodec,
    G10: FieldGetter<Field = C10::Value, Record = G1::Record>,
    C11: MapCodec,
    G11: FieldGetter<Field = C11::Value, Record = G1::Record>,
    C12: MapCodec,
    G12: FieldGetter<Field = C12::Value, Record = G1::Record>,
    C13: MapCodec,
    G13: FieldGetter<Field = C13::Value, Record = G1::Record>,
    C14: MapCodec,
    G14: FieldGetter<Field = C14::Value, Record = G1::Record>,
    C15: MapCodec,
    G15: FieldGetter<Field = C15::Value, Record = G1::Record>,
    C16: MapCodec,
    G16: FieldGetter<Field = C16::Value, Record = G1::Record>,
    F: RecordCtor16<V1 = C1::Value, V2 = C2::Value, V3 = C3::Value, V4 = C4::Value, V5 = C5::Value, V6 = C6::Value, V7 = C7::Value, V8 = C8::Value, V9 = C9::Value, V10 = C10::Value, V11 = C11::Value, V12 = C12::Value, V13 = C13::Value, V14 = C14::Value, V15 = C15::Value, V16 = C16::Value, Record = G1::Record>,
>(
    field_1: Field<C1, G1>,
    field_2: Field<C2, G2>,
    field_3: Field<C3, G3>,
    field_4: Field<C4, G4>,
    field_5: Field<C5, G5>,
    field_6: Field<C6, G6>,
    field_7: Field<C7, G7>,
    field_8: Field<C8, G8>,
    field_9: Field<C9, G9>,
    field_10: Field<C10, G10>,
    field_11: Field<C11, G11>,
    field_12: Field<C12, G12>,
    field_13: Field<C13, G13>,
    field_14: Field<C14, G14>,
    field_15: Field<C15, G15>,
    field_16: Field<C16, G16>,
    f: F,
) -> (r: MapCodecCodec<StructMapCodec16<C1, G1, C2, G2, C3, G3, C4, G4, C5, G5, C6, G6, C7, G7, C8, G8, C9, G9, C10, G10, C11, G11, C12, G12, C13, G13, C14, G14, C15, G15, C16, G16, F>>)
    ensures
        r.map_codec.field_1 == field_1,
        r.map_codec.field_2 == field_2,
        r.map_codec.field_3 == field_3,
        r.map_codec.field_4 == field_4,
        r.map_codec.field_5 == field_5,
        r.map_codec.field_6 == field_6,
        r.map_codec.field_7 == field_7,
        r.map_codec.field_8 == field_8,
        r.map_codec.field_9 == field_9,
        r.map_codec.field_10 == field_10,
        r.map_codec.field_11 == field_11,
        r.map_codec.field_12 == field_12,
        r.map_codec.field_13 == field_13,
        r.map_codec.field_14 == field_14,
        r.map_codec.field_15 == field_15,
        r.map_codec.field_16 == field_16,
        r.map_codec.apply_function == f,
{
    MapCodecCodec::new(StructMapCodec16 { field_1, field_2, field_3, field_4, field_5, field_6, field_7, field_8, field_9, field_10, field_11, field_12, field_13, field_14, field_15, field_16, apply_function: f })
}

impl<
    C1: MapCodec,
    G1: FieldGetter<Field = C1::Value>,
    C2: MapCodec,
    G2: FieldGetter<Field = C2::Value, Record = G1::Record>,
    C3: MapCodec,
    G3: FieldGetter<Field = C3::Value, Record = G1::Record>,
    C4: MapCodec,
    G4: FieldGetter<Field = C4::Value, Record = G1::Record>,
    C5: MapCodec,
    G5: FieldGetter<Field = C5::Value, Record = G1::Record>,
    C6: MapCodec,
    G6: FieldGetter<Field = C6::Value, Record = G1::Record>,
    C7: MapCodec,
    G7: FieldGetter<Field = C7::Value, Record = G1::Record>,
    C8: MapCodec,
    G8: FieldGetter<Field = C8::Value, Record = G1::Record>,
    C9: MapCodec,
    G9: FieldGetter<Field = C9::Value, Record = G1::Record>,
    C10: MapCodec,
    G10: FieldGetter<Field = C10::Value, Record = G1::Record>,
    C11: MapCodec,
    G11: FieldGetter<Field = C11::Value, Record = G1::Record>,
    C12: MapCodec,
    G12: FieldGetter<Field = C12::Value, Record = G1::Record>,
    C13: MapCodec,
    G13: FieldGetter<Field = C13::Value, Record = G1::Record>,
    C14: MapCodec,
    G14: FieldGetter<Field = C14::Value, Record = G1::Record>,
    C15: MapCodec,
    G15: FieldGetter<Field = C15::Value, Record = G1::Record>,
    C16: MapCodec,
    G16: FieldGetter<Field = C16::Value, Record = G1::Record>,
    F: RecordCtor16<V1 = C1::Value, V2 = C2::Value, V3 = C3::Value, V4 = C4::Value, V5 = C5::Value, V6 = C6::Value, V7 = C7::Value, V8 = C8::Value, V9 = C9::Value, V10 = C10::Value, V11 = C11::Value, V12 = C12::Value, V13 = C13::Value, V14 = C14::Value, V15 = C15::Value, V16 = C16::Value, Record = G1::Record>,
> HasValue for StructMapCodec16<C1, G1, C2, G2, C3, G3, C4, G4, C5, G5, C6, G6, C7, G7, C8, G8, C9, G9, C10, G10, C11, G11, C12, G12, C13, G13, C14, G14, C15, G15, C16, G16, F> {
    type Value = G1::Record;
}

impl<
    C1: MapCodec,
    G1: FieldGetter<Field = C1::Value>,
    C2: MapCodec,
    G2: FieldGetter<Field = C2::Value, Record = G1::Record>,
    C3: MapCodec,
    G3: FieldGetter<Field = C3::Value, Record = G1::Record>,
    C4: MapCodec,
    G4: FieldGetter<Field = C4::Value, Record = G1::Record>,
    C5: MapCodec,
    G5: FieldGetter<Field = C5::Value, Record = G1::Record>,
    C6: MapCodec,
    G6: FieldGetter<Field = C6::Value, Record = G1::Record>,
    C7: MapCodec,
    G7: FieldGetter<Field = C7::Value, Record = G1::Record>,
    C8: MapCodec,
    G8: FieldGetter<Field = C8::Value, Record = G1::Record>,
    C9: MapCodec,
    G9: FieldGetter<Field = C9::Value, Record = G1::Record>,
    C10: MapCodec,
    G10: FieldGetter<Field = C10::Value, Record = G1::Record>,
    C11: MapCodec,
    G11: FieldGetter<Field = C11::Value, Record = G1::Record>,
    C12: MapCodec,
    G12: FieldGetter<Field = C12::Value, Record = G1::Record>,
    C13: MapCodec,
    G13: FieldGetter<Field = C13::Value, Record = G1::Record>,
    C14: MapCodec,
    G14: FieldGetter<Field = C14::Value, Record = G1::Record>,
    C15: MapCodec,
    G15: FieldGetter<Field = C15::Value, Record = G1::Record>,
    C16: MapCodec,
    G16: FieldGetter<Field = C16::Value, Record = G1::Record>,
    F: RecordCtor16<V1 = C1::Value, V2 = C2::Value, V3 = C3::Value, V4 = C4::Value, V5 = C5::Value, V6 = C6::Value, V7 = C7::Value, V8 = C8::Value, V9 = C9::Value, V10 = C10::Value, V11 = C11::Value, V12 = C12::Value, V13 = C13::Value, V14 = C14::Value, V15 = C15::Value, V16 = C16::Value, Record = G1::Record>,
> MapCodec for StructMapCodec16<C1, G1, C2, G2, C3, G3, C4, G4, C5, G5, C6, G6, C7, G7, C8, G8, C9, G9, C10, G10, C11, G11, C12, G12, C13, G13, C14, G14, C15, G15, C16, G16, F> {
    open spec fn keys_spec(&self) -> Seq<Seq<char>> {
        self.field_1.map_codec.keys_spec() + self.field_2.map_codec.keys_spec() + self.field_3.map_codec.keys_spec() + self.field_4.map_codec.keys_spec() + self.field_5.map_codec.keys_spec() + self.field_6.map_codec.keys_spec() + self.field_7.map_codec.keys_spec() + self.field_8.map_codec.keys_spec() + self.field_9.map_codec.keys_spec() + self.field_10.map_codec.keys_spec() + self.field_11.map_codec.keys_spec() + self.field_12.map_codec.keys_spec() + self.field_13.map_codec.keys_spec() + self.field_14.map_codec.keys_spec() + self.field_15.map_codec.keys_spec() + self.field_16.map_codec.keys_spec()
    }

    fn keys(&self) -> (r: Vec<String>) {
        let mut out = self.field_1.map_codec.keys();
        let more_2 = self.field_2.map_codec.keys();
        concat_keys(&mut out, &more_2);
        let more_3 = self.field_3.map_codec.keys();
        concat_keys(&mut out, &more_3);
        let more_4 = self.field_4.map_codec.keys();
        concat_keys(&mut out, &more_4);
        let more_5 = self.field_5.map_codec.keys();
        concat_keys(&mut out, &more_5);
        let more_6 = self.field_6.map_codec.keys();
        concat_keys(&mut out, &more_6);
        let more_7 = self.field_7.map_codec.keys();
        concat_keys(&mut out, &more_7);
        let more_8 = self.field_8.map_codec.keys();
        concat_keys(&mut out, &more_8);
        let more_9 = self.field_9.map_codec.keys();
        concat_keys(&mut out, &more_9);
        let more_10 = self.field_10.map_codec.keys();
        concat_keys(&mut out, &more_10);
        let more_11 = self.field_11.map_codec.keys();
        concat_keys(&mut out, &more_11);
        let more_12 = self.field_12.map_codec.keys();
        concat_keys(&mut out, &more_12);
        let more_13 = self.field_13.map_codec.keys();
        concat_keys(&mut out, &more_13);
        let more_14 = self.field_14.map_codec.keys();
        concat_keys(&mut out, &more_14);
        let more_15 = self.field_15.map_codec.keys();
        concat_keys(&mut out, &more_15);
        let more_16 = self.field_16.map_codec.keys();
        concat_keys(&mut out, &more_16);
        proof {
            assert(str_views(out@) =~= self.keys_spec());
        }
        out
    }

    open spec fn map_encode_spec(
        &self,
        input: <G1::Record as DeepView>::V,
        ops: JsonOps,
        builder: StructBuilderV,
    ) -> StructBuilderV {
        self.field_16.map_codec.map_encode_spec(
            self.field_16.getter.get_spec(input),
            ops,
            self.field_15.map_codec.map_encode_spec(
            self.field_15.getter.get_spec(input),
            ops,
            self.field_14.map_codec.map_encode_spec(
            self.field_14.getter.get_spec(input),
            ops,
            self.field_13.map_codec.map_encode_spec(
            self.field_13.getter.get_spec(input),
            ops,
            self.field_12.map_codec.map_encode_spec(
            self.field_12.getter.get_spec(input),
            ops,
            self.field_11.map_codec.map_encode_spec(
            self.field_11.getter.get_spec(input),
            ops,
            self.field_10.map_codec.map_encode_spec(
            self.field_10.getter.get_spec(input),
            ops,
            self.field_9.map_codec.map_encode_spec(
            self.field_9.getter.get_spec(input),
            ops,
            self.field_8.map_codec.map_encode_spec(
            self.field_8.getter.get_spec(input),
            ops,
            self.field_7.map_codec.map_encode_spec(
            self.field_7.getter.get_spec(input),
            ops,
            self.field_6.map_codec.map_encode_spec(
            self.field_6.getter.get_spec(input),
            ops,
            self.field_5.map_codec.map_encode_spec(
            self.field_5.getter.get_spec(input),
            ops,
            self.field_4.map_codec.map_encode_spec(
            self.field_4.getter.get_spec(input),
            ops,
            self.field_3.map_codec.map_encode_spec(
            self.field_3.getter.get_spec(input),
            ops,
            self.field_2.map_codec.map_encode_spec(
            self.field_2.getter.get_spec(input),
            ops,
            self.field_1.map_codec.map_encode_spec(
            self.field_1.getter.get_spec(input),
            ops,
            builder,
        ),
        ),
        ),
        ),
        ),
        ),
        ),
        ),
        ),
        ),
        ),
        ),
        ),
        ),
        ),
        )
    }

    fn encode(&self, input: &G1::Record, ops: &JsonOps, prefix: EncoderStructBuilder) -> (r:
        EncoderStructBuilder) {
        let v1 = self.field_1.getter.get(input);
        let prefix = self.field_1.map_codec.encode(v1, ops, prefix);
        let v2 = self.field_2.getter.get(input);
        let prefix = self.field_2.map_codec.encode(v2, ops, prefix);
        let v3 = self.field_3.getter.get(input);
        let prefix = self.field_3.map_codec.encode(v3, ops, prefix);
        let v4 = self.field_4.getter.get(input);
        let prefix = self.field_4.map_codec.encode(v4, ops, prefix);
        let v5 = self.field_5.getter.get(input);
        let prefix = self.field_5.map_codec.encode(v5, ops, prefix);
        let v6 = self.field_6.getter.get(input);
        let prefix = self.field_6.map_codec.encode(v6, ops, prefix);
        let v7 = self.field_7.getter.get(input);
        let prefix = self.field_7.map_codec.encode(v7, ops, prefix);
        let v8 = self.field_8.getter.get(input);
        let prefix = self.field_8.map_codec.encode(v8, ops, prefix);
        let v9 = self.field_9.getter.get(input);
        let prefix = self.field_9.map_codec.encode(v9, ops, prefix);
        let v10 = self.field_10.getter.get(input);
        let prefix = self.field_10.map_codec.encode(v10, ops, prefix);
        let v11 = self.field_11.getter.get(input);
        let prefix = self.field_11.map_codec.encode(v11, ops, prefix);
        let v12 = self.field_12.getter.get(input);
        let prefix = self.field_12.map_codec.encode(v12, ops, prefix);
        let v13 = self.field_13.getter.get(input);
        let prefix = self.field_13.map_codec.encode(v13, ops, prefix);
        let v14 = self.field_14.getter.get(input);
        let prefix = self.field_14.map_codec.encode(v14, ops, prefix);
        let v15 = self.field_15.getter.get(input);
        let prefix = self.field_15.map_codec.encode(v15, ops, prefix);
        let v16 = self.field_16.getter.get(input);
        let prefix = self.field_16.map_codec.encode(v16, ops, prefix);
        prefix
    }

    open spec fn map_decode_spec(
        &self,
        entries: Seq<(Seq<char>, JsonV)>,
        ops: JsonOps,
    ) -> DataResultV<<G1::Record as DeepView>::V> {
        apply16_v(
            self.field_1.map_codec.map_decode_spec(entries, ops),
            self.field_2.map_codec.map_decode_spec(entries, ops),
            self.field_3.map_codec.map_decode_spec(entries, ops),
            self.field_4.map_codec.map_decode_spec(entries, ops),
            self.field_5.map_codec.map_decode_spec(entries, ops),
            self.field_6.map_codec.map_decode_spec(entries, ops),
            self.field_7.map_codec.map_decode_spec(entries, ops),
            self.field_8.map_codec.map_decode_spec(entries, ops),
            self.field_9.map_codec.map_decode_spec(entries, ops),
            self.field_10.map_codec.map_decode_spec(entries, ops),
            self.field_11.map_codec.map_decode_spec(entries, ops),
            self.field_12.map_codec.map_decode_spec(entries, ops),
            self.field_13.map_codec.map_decode_spec(entries, ops),
            self.field_14.map_codec.map_decode_spec(entries, ops),
            self.field_15.map_codec.map_decode_spec(entries, ops),
            self.field_16.map_codec.map_decode_spec(entries, ops),
            |v1, v2, v3, v4, v5, v6, v7, v8, v9, v10, v11, v12, v13, v14, v15, v16| self.apply_function.make_spec(v1, v2, v3, v4, v5, v6, v7, v8, v9, v10, v11, v12, v13, v14, v15, v16),
        )
    }

    fn decode(&self, input: &MapLike, ops: &JsonOps) -> (r: DataResult<G1::Record>) {
        let r1 = self.field_1.map_codec.decode(input, ops);
        let r2 = self.field_2.map_codec.decode(input, ops);
        let r3 = self.field_3.map_codec.decode(input, ops);
        let r4 = self.field_4.map_codec.decode(input, ops);
        let r5 = self.field_5.map_codec.decode(input, ops);
        let r6 = self.field_6.map_codec.decode(input, ops);
        let r7 = self.field_7.map_codec.decode(input, ops);
        let r8 = self.field_8.map_codec.decode(input, ops);
        let r9 = self.field_9.map_codec.decode(input, ops);
        let r10 = self.field_10.map_codec.decode(input, ops);
        let r11 = self.field_11.map_codec.decode(input, ops);
        let r12 = self.field_12.map_codec.decode(input, ops);
        let r13 = self.field_13.map_codec.decode(input, ops);
        let r14 = self.field_14.map_codec.decode(input, ops);
        let r15 = self.field_15.map_codec.decode(input, ops);
        let r16 = self.field_16.map_codec.decode(input, ops);
        let all_success = r1.is_success() && r2.is_success() && r3.is_success() && r4.is_success() && r5.is_success() && r6.is_success() && r7.is_success() && r8.is_success() && r9.is_success() && r10.is_success() && r11.is_success() && r12.is_success() && r13.is_success() && r14.is_success() && r15.is_success() && r16.is_success();
        let (p1, m1) = split_result(r1);
        let (p2, m2) = split_result(r2);
        let (p3, m3) = split_result(r3);
        let (p4, m4) = split_result(r4);
        let (p5, m5) = split_result(r5);
        let (p6, m6) = split_result(r6);
        let (p7, m7) = split_result(r7);
        let (p8, m8) = split_result(r8);
        let (p9, m9) = split_result(r9);
        let (p10, m10) = split_result(r10);
        let (p11, m11) = split_result(r11);
        let (p12, m12) = split_result(r12);
        let (p13, m13) = split_result(r13);
        let (p14, m14) = split_result(r14);
        let (p15, m15) = split_result(r15);
        let (p16, m16) = split_result(r16);
        let merged = merge_messages(merge_messages(merge_messages(merge_messages(merge_messages(merge_messages(merge_messages(merge_messages(merge_messages(merge_messages(merge_messages(merge_messages(merge_messages(merge_messages(merge_messages(m1, m2), m3), m4), m5), m6), m7), m8), m9), m10), m11), m12), m13), m14), m15), m16);
        match (p1, p2, p3, p4, p5, p6, p7, p8, p9, p10, p11, p12, p13, p14, p15, p16) {
            (Some(a1), Some(a2), Some(a3), Some(a4), Some(a5), Some(a6), Some(a7), Some(a8), Some(a9), Some(a10), Some(a11), Some(a12), Some(a13), Some(a14), Some(a15), Some(a16)) => {
                let value = self.apply_function.make(a1, a2, a3, a4, a5, a6, a7, a8, a9, a10, a11, a12, a13, a14, a15, a16);
                if all_success {
                    DataResult::Success { result: value, lifecycle: Lifecycle::Experimental }
                } else {
                    match merged {
                        Some(message) => DataResult::Error {
                            partial_result: Some(value),
                            lifecycle: Lifecycle::Experimental,
                            message,
                        },
                        None => vstd::pervasive::unreached(),
                    }
                }
            },
            _ => {
                match merged {
                    Some(message) => DataResult::Error {
                        partial_result: None,
                        lifecycle: Lifecycle::Experimental,
                        message,
                    },
                    None => vstd::pervasive::unreached(),
                }
            },
        }
    }
}

} // verus!
