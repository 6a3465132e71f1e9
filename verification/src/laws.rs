//! The laws the codec algebra obeys, stated over the specification
//! functions of the codecs and proved once and for all.

use crate::codecs::either::EitherCodec;
use crate::either::Either;
use crate::codecs::list::{too_long_msg, too_short_msg, ListCodec};
use crate::codecs::primitive::{
    BoolCodec, ByteBufferCodec, ByteCodec, DoubleCodec, FloatCodec, IntCodec, IntStreamCodec,
    LongCodec, LongStreamCodec, ShortCodec, StringCodec,
};
use crate::coders::{parse_of, Codec, Decoder, Encoder, HasValue};
use crate::data_result::{error_v, DataResultV};
use crate::json::JsonV;
use crate::json_ops::JsonOps;
use crate::lifecycle::Lifecycle;
use crate::map_codec::{DefaultProvider, DefaultValueProviderMapCodec, MapCodec, OptionalFieldMapCodec};
use crate::number::{DoubleBits, FloatBits, Number};
use vstd::prelude::*;

verus! {

/// What a codec hands back after encoding a value with no prefix and
/// decoding the result: the round trip of the codec.
pub open spec fn round_trip<C: Codec>(c: C, v: <C::Value as DeepView>::V, ops: JsonOps) -> bool {
    let encoded = c.encode_spec(v, ops, JsonV::Null);
    &&& encoded is Success
    &&& {
        let decoded = parse_of(c.decode_spec(encoded.value_of()->0, ops));
        &&& decoded is Success
        &&& decoded.value_of() == Some(v)
    }
}

/// Round trip of the boolean codec: decoding an encoded boolean gives the
/// boolean back.
pub proof fn lemma_bool_round_trip(v: bool, ops: JsonOps)
    ensures
        round_trip(BoolCodec, v, ops),
{
}

/// Round trip of the byte codec.
pub proof fn lemma_byte_round_trip(v: i8, ops: JsonOps)
    ensures
        round_trip(ByteCodec, v, ops),
{
}

/// Round trip of the short codec.
pub proof fn lemma_short_round_trip(v: i16, ops: JsonOps)
    ensures
        round_trip(ShortCodec, v, ops),
{
}

/// Round trip of the int codec.
pub proof fn lemma_int_round_trip(v: i32, ops: JsonOps)
    ensures
        round_trip(IntCodec, v, ops),
{
}

/// Round trip of the long codec.
pub proof fn lemma_long_round_trip(v: i64, ops: JsonOps)
    ensures
        round_trip(LongCodec, v, ops),
{
}

/// Round trip of the single-precision codec, on the raw bit patterns.
pub proof fn lemma_float_round_trip(v: FloatBits, ops: JsonOps)
    ensures
        round_trip(FloatCodec, v, ops),
{
}

/// Round trip of the double-precision codec, on the raw bit patterns.
pub proof fn lemma_double_round_trip(v: DoubleBits, ops: JsonOps)
    ensures
        round_trip(DoubleCodec, v, ops),
{
}

/// Round trip of the string codec.
pub proof fn lemma_string_round_trip(v: Seq<char>, ops: JsonOps)
    ensures
        round_trip(StringCodec, v, ops),
{
}

/// Round trip of the byte-buffer codec.
pub proof fn lemma_byte_buffer_round_trip(v: Seq<i8>, ops: JsonOps)
    ensures
        round_trip(ByteBufferCodec, v, ops),
{
    let items = Seq::new(v.len(), |i: int| JsonV::Number(Number::Byte(v[i])));
    crate::json_ops::lemma_numbers_of(items);
    assert(numbers_witness(items, v));
    let ns = crate::json_ops::numbers_of(items)->0;
    assert(ns.map_values(|n: Number| n.to_i8_spec()) =~= v);
}

/// Every position of an all-byte item sequence is a number.
pub open spec fn numbers_witness(items: Seq<JsonV>, v: Seq<i8>) -> bool {
    forall|j: int| 0 <= j < items.len() ==> #[trigger] items[j] is Number
}

/// Round trip of the int-list codec.
pub proof fn lemma_int_list_round_trip(v: Seq<i32>, ops: JsonOps)
    ensures
        round_trip(IntStreamCodec, v, ops),
{
    let items = Seq::new(v.len(), |i: int| JsonV::Number(Number::Int(v[i])));
    crate::json_ops::lemma_numbers_of(items);
    assert(forall|j: int| 0 <= j < items.len() ==> #[trigger] items[j] is Number);
    let ns = crate::json_ops::numbers_of(items)->0;
    assert(ns.map_values(|n: Number| n.to_i32_spec()) =~= v);
}

/// Round trip of the long-list codec.
pub proof fn lemma_long_list_round_trip(v: Seq<i64>, ops: JsonOps)
    ensures
        round_trip(LongStreamCodec, v, ops),
{
    let items = Seq::new(v.len(), |i: int| JsonV::Number(Number::Long(v[i])));
    crate::json_ops::lemma_numbers_of(items);
    assert(forall|j: int| 0 <= j < items.len() ==> #[trigger] items[j] is Number);
    let ns = crate::json_ops::numbers_of(items)->0;
    assert(ns.map_values(|n: Number| n.to_i64_spec()) =~= v);
}

/// Encoding a value equal to an optional field's default encodes the absent
/// value.
pub proof fn lemma_default_encodes_absent<D: DefaultProvider, C: MapCodec<
    Value = Option<D::Value>,
>>(
    m: DefaultValueProviderMapCodec<C, D>,
    ops: JsonOps,
    builder: crate::struct_builder::StructBuilderV,
)
    ensures
        m.map_encode_spec(m.default.default_spec(), ops, builder) == m.codec.map_encode_spec(
            None,
            ops,
            builder,
        ),
{
}

/// An optional field encoding the absent value writes nothing into the
/// builder; together with [`lemma_default_encodes_absent`], encoding a value
/// equal to the default omits the field's key.
pub proof fn lemma_optional_encode_absent_omits<C: Codec>(
    o: OptionalFieldMapCodec<C>,
    ops: JsonOps,
    builder: crate::struct_builder::StructBuilderV,
)
    ensures
        o.map_encode_spec(None, ops, builder) == builder,
{
}

/// A defaulted field decoding from a map that lacks its key yields the
/// default, whenever the inner codec decodes the absent key to the absent
/// value; the optional field does (see
/// [`lemma_optional_decode_absent_is_none`]).
pub proof fn lemma_default_decode_absent<D: DefaultProvider, C: MapCodec<
    Value = Option<D::Value>,
>>(m: DefaultValueProviderMapCodec<C, D>, ops: JsonOps, entries: Seq<(Seq<char>, JsonV)>)
    requires
        m.codec.map_decode_spec(entries, ops) == crate::data_result::success_v(
            None::<<D::Value as DeepView>::V>,
        ),
    ensures
        m.map_decode_spec(entries, ops) == crate::data_result::success_v(
            m.default.default_spec(),
        ),
{
}

/// An optional field decodes an absent key to the absent value.
pub proof fn lemma_optional_decode_absent_is_none<C: Codec>(
    o: OptionalFieldMapCodec<C>,
    ops: JsonOps,
    entries: Seq<(Seq<char>, JsonV)>,
)
    requires
        crate::json::obj_get(entries, o.name@) is None,
    ensures
        o.map_decode_spec(entries, ops) == crate::data_result::success_v(
            None::<<C::Value as DeepView>::V>,
        ),
{
}

/// Encoding a list shorter than the codec's minimum is an error naming the
/// bound, and encoding one longer than the maximum likewise.
pub proof fn lemma_list_encode_bounds<C: Codec>(
    c: ListCodec<C>,
    input: Seq<<C::Value as DeepView>::V>,
    ops: JsonOps,
    prefix: JsonV,
)
    ensures
        input.len() < c.min_size ==> c.encode_spec(input, ops, prefix) == error_v::<JsonV>(
            too_short_msg(input.len(), c.min_size as nat, c.max_size as nat),
        ),
        input.len() >= c.min_size && input.len() > c.max_size ==> c.encode_spec(input, ops, prefix)
            == error_v::<JsonV>(
            too_long_msg(input.len(), c.min_size as nat, c.max_size as nat),
        ),
{
}

/// The values the element codec yields for the items it can decode, in
/// order.
pub open spec fn kept_values<C: Codec>(c: ListCodec<C>, items: Seq<JsonV>, ops: JsonOps) -> Seq<
    <C::Value as DeepView>::V,
>
    decreases items.len(),
{
    if items.len() == 0 {
        Seq::empty()
    } else {
        let er = c.element_codec.decode_spec(items[0], ops);
        match er.value_of() {
            Some(p) => seq![p.0] + kept_values(c, items.skip(1), ops),
            None => kept_values(c, items.skip(1), ops),
        }
    }
}

/// The raw items whose decode errs, in order: what the failed sidecar of an
/// in-bounds list decode holds.
pub open spec fn failing_items<C: Codec>(
    c: ListCodec<C>,
    items: Seq<JsonV>,
    ops: JsonOps,
) -> Seq<JsonV>
    decreases items.len(),
{
    if items.len() == 0 {
        Seq::empty()
    } else {
        let er = c.element_codec.decode_spec(items[0], ops);
        if er is Error {
            seq![items[0]] + failing_items(c, items.skip(1), ops)
        } else {
            failing_items(c, items.skip(1), ops)
        }
    }
}

/// Whether every item of a list decodes to a full success.
pub open spec fn all_items_succeed<C: Codec>(
    c: ListCodec<C>,
    items: Seq<JsonV>,
    ops: JsonOps,
) -> bool {
    forall|j: int|
        0 <= j < items.len() ==> (#[trigger] c.element_codec.decode_spec(items[j], ops))
            is Success
}

/// The decode fold of a list whose length stays within the bound: the
/// decoded elements are the values the items yield, in order; the failed
/// sidecar gains exactly the raw items whose decode errs; and no message
/// accumulates exactly when every item fully succeeds.
pub proof fn lemma_list_decode_fold<C: Codec>(
    c: ListCodec<C>,
    items: Seq<JsonV>,
    ops: JsonOps,
    elements: Seq<<C::Value as DeepView>::V>,
    failed: Seq<JsonV>,
    msgs: Option<Seq<char>>,
)
    requires
        elements.len() + items.len() <= c.max_size,
    ensures
        ({
            let folded = c.decode_fold(items, ops, elements, failed, msgs);
            &&& folded.0 == elements + kept_values(c, items, ops)
            &&& folded.1 == failed + failing_items(c, items, ops)
            &&& (folded.2 is None <==> msgs is None && all_items_succeed(c, items, ops))
        }),
    decreases items.len(),
{
    if items.len() == 0 {
        assert(kept_values(c, items, ops) =~= Seq::<<C::Value as DeepView>::V>::empty());
        assert(elements + kept_values(c, items, ops) =~= elements);
        assert(failed + failing_items(c, items, ops) =~= failed);
    } else {
        let er = c.element_codec.decode_spec(items[0], ops);
        let msgs2 = crate::data_result::merge_msg_opt(msgs, er.message_of());
        let elements2 = match er.value_of() {
            Some(p) => elements.push(p.0),
            None => elements,
        };
        let failed2 = if er is Error {
            failed.push(items[0])
        } else {
            failed
        };
        let rest = items.skip(1);
        lemma_list_decode_fold(c, rest, ops, elements2, failed2, msgs2);
        assert(elements2 + kept_values(c, rest, ops) =~= elements + kept_values(c, items, ops));
        assert(failed2 + failing_items(c, rest, ops) =~= failed + failing_items(c, items, ops));
        if msgs is None && all_items_succeed(c, items, ops) {
            assert(er is Success);
            assert(all_items_succeed(c, rest, ops)) by {
                assert forall|j: int| 0 <= j < rest.len() implies (
                #[trigger] c.element_codec.decode_spec(rest[j], ops)) is Success by {
                    assert(rest[j] == items[j + 1]);
                }
            }
        }
        if c.decode_fold(items, ops, elements, failed, msgs).2 is None {
            assert(msgs2 is None);
            assert(er is Success);
            assert forall|j: int| 0 <= j < items.len() implies (
            #[trigger] c.element_codec.decode_spec(items[j], ops)) is Success by {
                if j > 0 {
                    assert(items[j] == rest[j - 1]);
                }
            }
        }
    }
}

/// Decoding a list within the maximum bound: the outcome carries the items'
/// surviving values in order (even when some items fail) paired with the
/// failed sidecar of the raw items whose decode erred, as a success exactly
/// when every item fully succeeds, provided enough values survive.
pub proof fn lemma_list_decode_values<C: Codec>(c: ListCodec<C>, items: Seq<JsonV>, ops: JsonOps)
    requires
        items.len() <= c.max_size,
        kept_values(c, items, ops).len() >= c.min_size,
    ensures
        ({
            let d = c.decode_items_spec(items, ops);
            &&& d.has_value()
            &&& (d.value_of()->0).0 == kept_values(c, items, ops)
            &&& (d.value_of()->0).1 == JsonV::Arr(failing_items(c, items, ops))
            &&& (d is Success <==> all_items_succeed(c, items, ops))
        }),
{
    lemma_list_decode_fold(c, items, ops, Seq::empty(), Seq::empty(), None);
    let folded = c.decode_fold(items, ops, Seq::empty(), Seq::empty(), None);
    assert(folded.0 =~= kept_values(c, items, ops));
    assert(folded.1 =~= failing_items(c, items, ops));
}

/// The preference order of the either codec: the left side's full success
/// wins; otherwise the right side's; otherwise the left side's partial
/// value; otherwise the right side's; otherwise the failure joins both
/// messages.
pub proof fn lemma_either_preference<L: Codec, R: Codec>(
    c: EitherCodec<L, R>,
    input: JsonV,
    ops: JsonOps,
)
    ensures
        ({
            let left = c.left_codec.decode_spec(input, ops);
            let right = c.right_codec.decode_spec(input, ops);
            let d = c.decode_preference(input, ops);
            &&& left is Success ==> d == crate::codecs::either::wrap_left::<
                _,
                <R::Value as DeepView>::V,
                _,
            >(left)
            &&& (!(left is Success) && right is Success) ==> d
                == crate::codecs::either::wrap_right::<<L::Value as DeepView>::V, _, _>(right)
            &&& (!(left is Success) && !(right is Success) && left.has_value()) ==> d
                == crate::codecs::either::wrap_left::<_, <R::Value as DeepView>::V, _>(left)
            &&& (!(left is Success) && !(right is Success) && !left.has_value()
                && right.has_value()) ==> d == crate::codecs::either::wrap_right::<
                <L::Value as DeepView>::V,
                _,
                _,
            >(right)
            &&& (!left.has_value() && !right.has_value()) ==> d == error_v::<
                (
                    crate::either::Either<<L::Value as DeepView>::V, <R::Value as DeepView>::V>,
                    JsonV,
                ),
            >(
                crate::codecs::either::either_failure_msg(
                    left.message_of()->0,
                    right.message_of()->0,
                ),
            )
        }),
{
}

/// Round trip of the book codec: encoding a book and decoding the result
/// gives the book back, for every book whose page count fits the signed
/// 32-bit range and under an adapter that does not compress maps.
/// Round trip of every single-required-field struct codec, generic in the
/// element codec, the getter and the constructor: when the record's field
/// value encodes to a full success and parses back to itself, and the
/// constructor rebuilds the record from that field, then encoding the
/// record and decoding the result gives the record back, under an adapter
/// that does not compress maps.
pub proof fn lemma_struct1_round_trip<
    C1: Codec,
    G1: crate::struct_codecs::FieldGetter<Field = C1::Value>,
    F: crate::struct_codecs::RecordCtor1<V1 = C1::Value, Record = G1::Record>,
>(
    c: crate::map_codec::MapCodecCodec<
        crate::struct_codecs::StructMapCodec1<crate::map_codec::FieldMapCodec<C1>, G1, F>,
    >,
    t: <G1::Record as DeepView>::V,
    ops: JsonOps,
)
    requires
        !ops.compressed,
        ({
            let v1 = c.map_codec.field_1.getter.get_spec(t);
            let ev = c.map_codec.field_1.map_codec.element_codec.encode_spec(
                v1,
                ops,
                JsonV::Null,
            );
            &&& ev is Success
            &&& parse_of(
                c.map_codec.field_1.map_codec.element_codec.decode_spec(
                    ev.value_of()->0,
                    ops,
                ),
            ) matches DataResultV::Success { result, .. } && result == v1
            &&& c.map_codec.apply_function.make_spec(v1) == t
        }),
    ensures
        round_trip(c, t, ops),
{
    let v1 = c.map_codec.field_1.getter.get_spec(t);
    let name = c.map_codec.field_1.map_codec.name@;
    let ev = c.map_codec.field_1.map_codec.element_codec.encode_spec(v1, ops, JsonV::Null);
    let ev0 = ev.value_of()->0;
    let pairs = seq![(JsonV::Str(name), ev0)];
    let built = c.map_codec.map_encode_spec(
        t,
        ops,
        crate::map_codec::fresh_builder_v(ops, c.map_codec.keys_spec()),
    );
    assert(built matches crate::struct_builder::StructBuilderV::Normal { builder, .. } && builder
        matches DataResultV::Success { result, .. } && result =~= pairs);
    let m1 = crate::json::obj_insert(Seq::empty(), name, ev0);
    crate::json::lemma_obj_insert_get(Seq::empty(), name, ev0);
    let encoded = c.encode_spec(t, ops, JsonV::Null);
    assert(encoded is Success && encoded.value_of() == Some(JsonV::Obj(m1))) by {
        let p1 = pairs.skip(1);
        assert(p1.len() == 0);
        let acc0 = crate::data_result::success_v::<JsonV>(JsonV::Null);
        let acc1 = acc0.flat_map_step(
            ops.merge_into_map_spec(JsonV::Null, pairs[0].0, pairs[0].1),
        );
        assert(ops.merge_entries_fold(acc0, pairs) == ops.merge_entries_fold(acc1, p1));
        assert(ops.merge_entries_fold(acc1, p1) == acc1);
        assert(acc1.value_of() == Some(JsonV::Obj(m1)));
    }
    assert(crate::json::obj_get(m1, name) == Some(ev0));
    let decoded = parse_of(c.decode_spec(encoded.value_of()->0, ops));
    assert(decoded is Success && decoded.value_of() == Some(t));
}

/// The entries a pair list leaves in a map when folded in order, each key
/// read as a string.
pub open spec fn insert_pairs(
    acc: Seq<(Seq<char>, JsonV)>,
    pairs: Seq<(JsonV, JsonV)>,
) -> Seq<(Seq<char>, JsonV)>
    decreases pairs.len(),
{
    if pairs.len() == 0 {
        acc
    } else {
        insert_pairs(
            crate::json::obj_insert(
                acc,
                crate::json_ops::json_as_chars(pairs[0].0)->0,
                pairs[0].1,
            ),
            pairs.skip(1),
        )
    }
}

/// Folding one more pair inserts it last.
proof fn lemma_insert_pairs_push(
    acc: Seq<(Seq<char>, JsonV)>,
    pairs: Seq<(JsonV, JsonV)>,
    p: (JsonV, JsonV),
)
    ensures
        insert_pairs(acc, pairs.push(p)) == crate::json::obj_insert(
            insert_pairs(acc, pairs),
            crate::json_ops::json_as_chars(p.0)->0,
            p.1,
        ),
    decreases pairs.len(),
{
    if pairs.len() == 0 {
        assert(pairs.push(p)[0] == p);
        assert(pairs.push(p).skip(1) =~= Seq::<(JsonV, JsonV)>::empty());
        let acc2 = crate::json::obj_insert(
            acc,
            crate::json_ops::json_as_chars(p.0)->0,
            p.1,
        );
        assert(insert_pairs(acc, pairs.push(p)) == insert_pairs(
            acc2,
            pairs.push(p).skip(1),
        ));
        assert(insert_pairs(acc2, pairs.push(p).skip(1)) == acc2);
        assert(insert_pairs(acc, pairs) == acc);
    } else {
        assert(pairs.push(p)[0] == pairs[0]);
        assert(pairs.push(p).skip(1) =~= pairs.skip(1).push(p));
        let acc2 = crate::json::obj_insert(
            acc,
            crate::json_ops::json_as_chars(pairs[0].0)->0,
            pairs[0].1,
        );
        assert(insert_pairs(acc, pairs.push(p)) == insert_pairs(
            acc2,
            pairs.skip(1).push(p),
        ));
        assert(insert_pairs(acc, pairs) == insert_pairs(acc2, pairs.skip(1)));
        lemma_insert_pairs_push(acc2, pairs.skip(1), p);
    }
}

/// Merging string-keyed pairs into a map one by one keeps succeeding and
/// inserts them in order.
proof fn lemma_fold_string_pairs(
    ops: JsonOps,
    acc: Seq<(Seq<char>, JsonV)>,
    pairs: Seq<(JsonV, JsonV)>,
    lc: Lifecycle,
)
    requires
        forall|j: int| 0 <= j < pairs.len() ==> (#[trigger] pairs[j]).0 is Str,
    ensures
        ops.merge_entries_fold(
            DataResultV::Success { result: JsonV::Obj(acc), lifecycle: lc },
            pairs,
        ) matches DataResultV::Success { result, .. } && result == JsonV::Obj(
            insert_pairs(acc, pairs),
        ),
    decreases pairs.len(),
{
    if pairs.len() > 0 {
        let k = pairs[0].0;
        let v = pairs[0].1;
        let acc2 = crate::json::obj_insert(acc, crate::json_ops::json_as_chars(k)->0, v);
        assert(ops.key_ok(k));
        assert forall|j: int| 0 <= j < pairs.skip(1).len() implies (#[trigger] pairs.skip(1)[j]).0
            is Str by {
            assert(pairs.skip(1)[j] == pairs[j + 1]);
        }
        lemma_fold_string_pairs(ops, acc2, pairs.skip(1), Lifecycle::Experimental);
    }
}

/// Round trip of the key-dispatch codec, generic in the dispatched type and
/// in the discriminator's element codec: when the variant's own fields
/// encode to string-keyed pairs, the discriminator value encodes to a full
/// success and parses back to the variant's key, and the type's own map
/// decode rebuilds the variant from the resulting entries, then encoding
/// the variant and decoding the result gives the variant back, under an
/// adapter that does not compress maps.
pub proof fn lemma_dispatch_round_trip<
    T: crate::map_codecs::key_dispatch::KeyDispatchable,
    K: Codec<Value = String>,
>(
    c: crate::map_codec::MapCodecCodec<
        crate::map_codecs::key_dispatch::KeyDispatchMapCodec<
            T,
            crate::map_codec::FieldMapCodec<K>,
        >,
    >,
    t: T::V,
    ops: JsonOps,
    body_pairs: Seq<(JsonV, JsonV)>,
    body_lc: Lifecycle,
    kv: JsonV,
    key_lc: Lifecycle,
)
    requires
        !ops.compressed,
        c.map_codec.key_codec.name@ == "type"@,
        T::map_encode_spec(
            t,
            ops,
            crate::map_codec::fresh_builder_v(ops, c.map_codec.keys_spec()),
        ) == (crate::struct_builder::StructBuilderV::Normal {
            builder: DataResultV::Success { result: body_pairs, lifecycle: body_lc },
            ops,
        }),
        forall|j: int| 0 <= j < body_pairs.len() ==> (#[trigger] body_pairs[j]).0 is Str,
        c.map_codec.key_codec.element_codec.encode_spec(T::key_spec(t), ops, JsonV::Null) == (
        DataResultV::Success { result: kv, lifecycle: key_lc }),
        parse_of(c.map_codec.key_codec.element_codec.decode_spec(kv, ops)) matches
            DataResultV::Success { result, .. } && result == T::key_spec(t),
        T::map_decode_spec(
            T::key_spec(t),
            insert_pairs(Seq::empty(), body_pairs.push((JsonV::Str("type"@), kv))),
            ops,
        ) matches DataResultV::Success { result, .. } && result == t,
    ensures
        round_trip(c, t, ops),
{
    let fresh = crate::map_codec::fresh_builder_v(ops, c.map_codec.keys_spec());
    let built = c.map_codec.map_encode_spec(t, ops, fresh);
    let all_pairs = body_pairs.push((JsonV::Str("type"@), kv));
    assert(built matches crate::struct_builder::StructBuilderV::Normal { builder, .. } && builder
        matches DataResultV::Success { result, .. } && result =~= all_pairs);
    let m = insert_pairs(Seq::empty(), all_pairs);
    assert forall|j: int| 0 <= j < all_pairs.len() implies (#[trigger] all_pairs[j]).0 is Str by {
        if j < body_pairs.len() {
            assert(all_pairs[j] == body_pairs[j]);
        }
    }
    let encoded = c.encode_spec(t, ops, JsonV::Null);
    assert(encoded is Success && encoded.value_of() == Some(JsonV::Obj(m))) by {
        let acc0 = crate::data_result::success_v::<JsonV>(JsonV::Null);
        let first = all_pairs[0];
        let acc1 = acc0.flat_map_step(ops.merge_into_map_spec(JsonV::Null, first.0, first.1));
        let e1 = crate::json::obj_insert(
            Seq::empty(),
            crate::json_ops::json_as_chars(first.0)->0,
            first.1,
        );
        assert(first.0 is Str);
        assert(ops.key_ok(first.0));
        assert(acc1 == DataResultV::Success {
            result: JsonV::Obj(e1),
            lifecycle: Lifecycle::Experimental,
        });
        assert(ops.merge_entries_fold(acc0, all_pairs) == ops.merge_entries_fold(
            acc1,
            all_pairs.skip(1),
        ));
        assert forall|j: int| 0 <= j < all_pairs.skip(1).len() implies (#[trigger] all_pairs.skip(
            1,
        )[j]).0 is Str by {
            assert(all_pairs.skip(1)[j] == all_pairs[j + 1]);
        }
        lemma_fold_string_pairs(ops, e1, all_pairs.skip(1), Lifecycle::Experimental);
        assert(m == insert_pairs(e1, all_pairs.skip(1)));
    }
    assert(crate::json::obj_get(m, "type"@) == Some(kv)) by {
        lemma_insert_pairs_push(Seq::empty(), body_pairs, (JsonV::Str("type"@), kv));
        crate::json::lemma_obj_insert_get(insert_pairs(Seq::empty(), body_pairs), "type"@, kv);
    }
    let decoded = parse_of(c.decode_spec(encoded.value_of()->0, ops));
    assert(decoded is Success && decoded.value_of() == Some(t));
}

pub proof fn lemma_book_round_trip(
    c: crate::map_codec::MapCodecCodec<
        crate::struct_codecs::StructMapCodec3<
            crate::map_codec::FieldMapCodec<StringCodec>,
            crate::samples::BookNameGetter,
            crate::map_codec::FieldMapCodec<StringCodec>,
            crate::samples::BookAuthorGetter,
            crate::map_codec::FieldMapCodec<crate::codec::FlatXmapCodec<
                IntCodec,
                crate::codec::UintXmap,
            >>,
            crate::samples::BookPagesGetter,
            crate::samples::MakeBook,
        >,
    >,
    b: crate::samples::BookV,
    ops: JsonOps,
)
    requires
        !ops.compressed,
        b.pages <= i32::MAX as u32,
        c.map_codec.field_1.map_codec.name@ == "name"@,
        c.map_codec.field_2.map_codec.name@ == "author"@,
        c.map_codec.field_3.map_codec.name@ == "pages"@,
    ensures
        ({
            let encoded = c.encode_spec(b, ops, JsonV::Null);
            &&& encoded is Success
            &&& {
                let decoded = parse_of(c.decode_spec(encoded.value_of()->0, ops));
                &&& decoded is Success
                &&& decoded.value_of() == Some(b)
            }
        }),
{
    reveal_strlit("name");
    reveal_strlit("author");
    reveal_strlit("pages");
    assert("name"@ != "author"@ && "name"@ != "pages"@ && "author"@ != "pages"@);
    let e1 = (("name"@, JsonV::Str(b.name)));
    let e2 = (("author"@, JsonV::Str(b.author)));
    let e3 = (("pages"@, JsonV::Number(Number::Int(b.pages as i32))));
    let pairs = seq![
        (JsonV::Str("name"@), JsonV::Str(b.name)),
        (JsonV::Str("author"@), JsonV::Str(b.author)),
        (JsonV::Str("pages"@), JsonV::Number(Number::Int(b.pages as i32))),
    ];
    let built = c.map_codec.map_encode_spec(
        b,
        ops,
        crate::map_codec::fresh_builder_v(ops, c.map_codec.keys_spec()),
    );
    assert(built matches crate::struct_builder::StructBuilderV::Normal { builder, .. } && builder
        matches DataResultV::Success { result, .. } && result =~= pairs);
    let m1 = crate::json::obj_insert(Seq::empty(), "name"@, JsonV::Str(b.name));
    let m2 = crate::json::obj_insert(m1, "author"@, JsonV::Str(b.author));
    let m3 = crate::json::obj_insert(m2, "pages"@, JsonV::Number(Number::Int(b.pages as i32)));
    crate::json::lemma_obj_insert_get(Seq::empty(), "name"@, JsonV::Str(b.name));
    crate::json::lemma_obj_insert_get_other(m1, "author"@, JsonV::Str(b.author), "name"@);
    crate::json::lemma_obj_insert_get(m1, "author"@, JsonV::Str(b.author));
    crate::json::lemma_obj_insert_get_other(
        m2,
        "pages"@,
        JsonV::Number(Number::Int(b.pages as i32)),
        "name"@,
    );
    crate::json::lemma_obj_insert_get_other(
        m2,
        "pages"@,
        JsonV::Number(Number::Int(b.pages as i32)),
        "author"@,
    );
    crate::json::lemma_obj_insert_get(m2, "pages"@, JsonV::Number(Number::Int(b.pages as i32)));
    let encoded = c.encode_spec(b, ops, JsonV::Null);
    assert(encoded is Success && encoded.value_of() == Some(JsonV::Obj(m3))) by {
        let p1 = pairs.skip(1);
        let p2 = p1.skip(1);
        let p3 = p2.skip(1);
        assert(p1.len() == 2 && p1[0] == pairs[1] && p1[1] == pairs[2]);
        assert(p2.len() == 1 && p2[0] == pairs[2]);
        assert(p3.len() == 0);
        let acc0 = crate::data_result::success_v::<JsonV>(JsonV::Null);
        let acc1 = acc0.flat_map_step(ops.merge_into_map_spec(JsonV::Null, pairs[0].0, pairs[0].1));
        let acc2 = acc1.flat_map_step(
            ops.merge_into_map_spec(acc1.value_of()->0, p1[0].0, p1[0].1),
        );
        let acc3 = acc2.flat_map_step(
            ops.merge_into_map_spec(acc2.value_of()->0, p2[0].0, p2[0].1),
        );
        assert(ops.merge_entries_fold(acc0, pairs) == ops.merge_entries_fold(acc1, p1));
        assert(ops.merge_entries_fold(acc1, p1) == ops.merge_entries_fold(acc2, p2));
        assert(ops.merge_entries_fold(acc2, p2) == ops.merge_entries_fold(acc3, p3));
        assert(ops.merge_entries_fold(acc3, p3) == acc3);
        assert(acc1.value_of() == Some(JsonV::Obj(m1)));
        assert(acc2.value_of() == Some(JsonV::Obj(m2)));
        assert(acc3.value_of() == Some(JsonV::Obj(m3)));
    }
    assert(crate::json::obj_get(m3, "name"@) == Some(JsonV::Str(b.name)));
    assert(crate::json::obj_get(m3, "author"@) == Some(JsonV::Str(b.author)));
    assert(crate::json::obj_get(m3, "pages"@) == Some(
        JsonV::Number(Number::Int(b.pages as i32)),
    ));
    let decoded = parse_of(c.decode_spec(encoded.value_of()->0, ops));
    assert(decoded is Success && decoded.value_of() == Some(b)) by {
        assert((b.pages as i32) as u32 == b.pages);
    }
}

/// Round trip of the shape codec: encoding a shape and decoding the result
/// gives the shape back, for every variant, under an adapter that does not
/// compress maps. A triangle must hold exactly three sides, as its codec
/// demands.
#[verifier::rlimit(60)]
pub proof fn lemma_shape_round_trip(
    c: crate::map_codec::MapCodecCodec<
        crate::map_codecs::key_dispatch::KeyDispatchMapCodec<
            crate::samples::Shape,
            crate::map_codec::FieldMapCodec<StringCodec>,
        >,
    >,
    v: crate::samples::ShapeV,
    ops: JsonOps,
)
    requires
        !ops.compressed,
        c.map_codec.key_codec.name@ == "type"@,
        v matches crate::samples::ShapeV::Triangle { sides } ==> sides.len() == 3,
    ensures
        ({
            let encoded = c.encode_spec(v, ops, JsonV::Null);
            &&& encoded is Success
            &&& {
                let decoded = parse_of(c.decode_spec(encoded.value_of()->0, ops));
                &&& decoded is Success
                &&& decoded.value_of() == Some(v)
            }
        }),
{
    reveal_strlit("type");
    reveal_strlit("circle");
    reveal_strlit("rectangle");
    reveal_strlit("triangle");
    reveal_strlit("radius");
    reveal_strlit("width");
    reveal_strlit("height");
    reveal_strlit("sides");
    match v {
        crate::samples::ShapeV::Circle { radius } => {
            let rv = JsonV::Number(Number::Double(radius.0));
            let m1 = crate::json::obj_insert(Seq::empty(), "radius"@, rv);
            let m2 = crate::json::obj_insert(m1, "type"@, JsonV::Str("circle"@));
            crate::json::lemma_obj_insert_get(Seq::empty(), "radius"@, rv);
            crate::json::lemma_obj_insert_get(m1, "type"@, JsonV::Str("circle"@));
            crate::json::lemma_obj_insert_get_other(m1, "type"@, JsonV::Str("circle"@), "radius"@);
            let pairs = seq![
                (JsonV::Str("radius"@), rv),
                (JsonV::Str("type"@), JsonV::Str("circle"@)),
            ];
            let built = c.map_codec.map_encode_spec(
                v,
                ops,
                crate::map_codec::fresh_builder_v(ops, c.map_codec.keys_spec()),
            );
            assert(built matches crate::struct_builder::StructBuilderV::Normal { builder, .. }
                && builder matches DataResultV::Success { result, .. } && result =~= pairs);
            let encoded = c.encode_spec(v, ops, JsonV::Null);
            assert(encoded is Success && encoded.value_of() == Some(JsonV::Obj(m2))) by {
                let p1 = pairs.skip(1);
                let p2 = p1.skip(1);
                assert(p1.len() == 1 && p1[0] == pairs[1]);
                assert(p2.len() == 0);
                let acc0 = crate::data_result::success_v::<JsonV>(JsonV::Null);
                let acc1 = acc0.flat_map_step(
                    ops.merge_into_map_spec(JsonV::Null, pairs[0].0, pairs[0].1),
                );
                let acc2 = acc1.flat_map_step(
                    ops.merge_into_map_spec(acc1.value_of()->0, p1[0].0, p1[0].1),
                );
                assert(ops.merge_entries_fold(acc0, pairs) == ops.merge_entries_fold(acc1, p1));
                assert(ops.merge_entries_fold(acc1, p1) == ops.merge_entries_fold(acc2, p2));
                assert(ops.merge_entries_fold(acc2, p2) == acc2);
                assert(acc1.value_of() == Some(JsonV::Obj(m1)));
                assert(acc2.value_of() == Some(JsonV::Obj(m2)));
            }
        },
        crate::samples::ShapeV::Rectangle { width, height } => {
            let wv = JsonV::Number(Number::Double(width.0));
            let hv = JsonV::Number(Number::Double(height.0));
            let m1 = crate::json::obj_insert(Seq::empty(), "width"@, wv);
            let m2 = crate::json::obj_insert(m1, "height"@, hv);
            let m3 = crate::json::obj_insert(m2, "type"@, JsonV::Str("rectangle"@));
            crate::json::lemma_obj_insert_get(Seq::empty(), "width"@, wv);
            crate::json::lemma_obj_insert_get(m1, "height"@, hv);
            crate::json::lemma_obj_insert_get_other(m1, "height"@, hv, "width"@);
            crate::json::lemma_obj_insert_get(m2, "type"@, JsonV::Str("rectangle"@));
            crate::json::lemma_obj_insert_get_other(m2, "type"@, JsonV::Str("rectangle"@), "width"@);
            crate::json::lemma_obj_insert_get_other(
                m2,
                "type"@,
                JsonV::Str("rectangle"@),
                "height"@,
            );
            let pairs = seq![
                (JsonV::Str("width"@), wv),
                (JsonV::Str("height"@), hv),
                (JsonV::Str("type"@), JsonV::Str("rectangle"@)),
            ];
            let built = c.map_codec.map_encode_spec(
                v,
                ops,
                crate::map_codec::fresh_builder_v(ops, c.map_codec.keys_spec()),
            );
            assert(built matches crate::struct_builder::StructBuilderV::Normal { builder, .. }
                && builder matches DataResultV::Success { result, .. } && result =~= pairs);
            let encoded = c.encode_spec(v, ops, JsonV::Null);
            assert(encoded is Success && encoded.value_of() == Some(JsonV::Obj(m3))) by {
                let p1 = pairs.skip(1);
                let p2 = p1.skip(1);
                let p3 = p2.skip(1);
                assert(p1.len() == 2 && p1[0] == pairs[1] && p1[1] == pairs[2]);
                assert(p2.len() == 1 && p2[0] == pairs[2]);
                assert(p3.len() == 0);
                let acc0 = crate::data_result::success_v::<JsonV>(JsonV::Null);
                let acc1 = acc0.flat_map_step(
                    ops.merge_into_map_spec(JsonV::Null, pairs[0].0, pairs[0].1),
                );
                let acc2 = acc1.flat_map_step(
                    ops.merge_into_map_spec(acc1.value_of()->0, p1[0].0, p1[0].1),
                );
                let acc3 = acc2.flat_map_step(
                    ops.merge_into_map_spec(acc2.value_of()->0, p2[0].0, p2[0].1),
                );
                assert(ops.merge_entries_fold(acc0, pairs) == ops.merge_entries_fold(acc1, p1));
                assert(ops.merge_entries_fold(acc1, p1) == ops.merge_entries_fold(acc2, p2));
                assert(ops.merge_entries_fold(acc2, p2) == ops.merge_entries_fold(acc3, p3));
                assert(ops.merge_entries_fold(acc3, p3) == acc3);
                assert(acc1.value_of() == Some(JsonV::Obj(m1)));
                assert(acc2.value_of() == Some(JsonV::Obj(m2)));
                assert(acc3.value_of() == Some(JsonV::Obj(m3)));
            }
        },
        crate::samples::ShapeV::Triangle { sides } => {
            let sc = crate::samples::sides_codec_v();
            let encoded_sides = sc.encode_spec(sides, ops, JsonV::Null);
            lemma_sides_encode(sc, sides, ops);
            assert(encoded_sides is Success);
            let sv = encoded_sides.value_of()->0;
            let m1 = crate::json::obj_insert(Seq::empty(), "sides"@, sv);
            let m2 = crate::json::obj_insert(m1, "type"@, JsonV::Str("triangle"@));
            crate::json::lemma_obj_insert_get(Seq::empty(), "sides"@, sv);
            crate::json::lemma_obj_insert_get(m1, "type"@, JsonV::Str("triangle"@));
            crate::json::lemma_obj_insert_get_other(m1, "type"@, JsonV::Str("triangle"@), "sides"@);
            let pairs = seq![
                (JsonV::Str("sides"@), sv),
                (JsonV::Str("type"@), JsonV::Str("triangle"@)),
            ];
            let built = c.map_codec.map_encode_spec(
                v,
                ops,
                crate::map_codec::fresh_builder_v(ops, c.map_codec.keys_spec()),
            );
            assert(built matches crate::struct_builder::StructBuilderV::Normal { builder, .. }
                && builder matches DataResultV::Success { result, .. } && result =~= pairs);
            let encoded = c.encode_spec(v, ops, JsonV::Null);
            assert(encoded is Success && encoded.value_of() == Some(JsonV::Obj(m2))) by {
                let p1 = pairs.skip(1);
                let p2 = p1.skip(1);
                assert(p1.len() == 1 && p1[0] == pairs[1]);
                assert(p2.len() == 0);
                let acc0 = crate::data_result::success_v::<JsonV>(JsonV::Null);
                let acc1 = acc0.flat_map_step(
                    ops.merge_into_map_spec(JsonV::Null, pairs[0].0, pairs[0].1),
                );
                let acc2 = acc1.flat_map_step(
                    ops.merge_into_map_spec(acc1.value_of()->0, p1[0].0, p1[0].1),
                );
                assert(ops.merge_entries_fold(acc0, pairs) == ops.merge_entries_fold(acc1, p1));
                assert(ops.merge_entries_fold(acc1, p1) == ops.merge_entries_fold(acc2, p2));
                assert(ops.merge_entries_fold(acc2, p2) == acc2);
                assert(acc1.value_of() == Some(JsonV::Obj(m1)));
                assert(acc2.value_of() == Some(JsonV::Obj(m2)));
            }
            lemma_sides_decode(sc, sides, ops);
            assert(kept_values(sc, side_items_of(sides), ops).len() >= 3) by {
                lemma_kept_sides(sc, sides, ops);
            }
        },
    }
}

/// Encoding exactly three sides through the triangle's list codec succeeds
/// with the three double-precision items.
proof fn lemma_sides_encode(
    sc: ListCodec<DoubleCodec>,
    sides: Seq<crate::number::DoubleBits>,
    ops: JsonOps,
)
    requires
        sc == crate::samples::sides_codec_v(),
        sides.len() == 3,
    ensures
        ({
            let e = sc.encode_spec(sides, ops, JsonV::Null);
            &&& e is Success
            &&& e.value_of() == Some(
                JsonV::Arr(Seq::new(sides.len(), |i: int| JsonV::Number(Number::Double(sides[i].0)))),
            )
        }),
{
    let s1 = sides.skip(1);
    let s2 = s1.skip(1);
    let s3 = s2.skip(1);
    assert(s1.len() == 2 && s1[0] == sides[1] && s1[1] == sides[2]);
    assert(s2.len() == 1 && s2[0] == sides[2]);
    assert(s3.len() == 0);
    let acc0 = crate::data_result::success_v(Seq::<JsonV>::empty());
    let acc1 = crate::list_builder::lb_add_result(
        acc0,
        sc.element_codec.encode_spec(sides[0], ops, JsonV::Null),
    );
    let acc2 = crate::list_builder::lb_add_result(
        acc1,
        sc.element_codec.encode_spec(s1[0], ops, JsonV::Null),
    );
    let acc3 = crate::list_builder::lb_add_result(
        acc2,
        sc.element_codec.encode_spec(s2[0], ops, JsonV::Null),
    );
    assert(sc.encode_fold(sides, acc0, ops) == sc.encode_fold(s1, acc1, ops));
    assert(sc.encode_fold(s1, acc1, ops) == sc.encode_fold(s2, acc2, ops));
    assert(sc.encode_fold(s2, acc2, ops) == sc.encode_fold(s3, acc3, ops));
    assert(sc.encode_fold(s3, acc3, ops) == acc3);
    let items = seq![
        JsonV::Number(Number::Double(sides[0].0)),
        JsonV::Number(Number::Double(sides[1].0)),
        JsonV::Number(Number::Double(sides[2].0)),
    ];
    assert(acc3.value_of() matches Some(col) && col =~= items);
    let e = sc.encode_spec(sides, ops, JsonV::Null);
    assert(e is Success);
    assert(e.value_of()->0 == JsonV::Arr(items)) by {
        assert(Seq::<JsonV>::empty() + items =~= items);
    }
    assert(items =~= Seq::new(sides.len(), |i: int| JsonV::Number(Number::Double(sides[i].0))));
}

/// Decoding the three encoded sides gives them back.
proof fn lemma_sides_decode(
    sc: ListCodec<DoubleCodec>,
    sides: Seq<crate::number::DoubleBits>,
    ops: JsonOps,
)
    requires
        sc == crate::samples::sides_codec_v(),
        sides.len() == 3,
    ensures
        ({
            let items = Seq::new(
                sides.len(),
                |i: int| JsonV::Number(Number::Double(sides[i].0)),
            );
            let d = parse_of(sc.decode_spec(JsonV::Arr(items), ops));
            &&& d is Success
            &&& d.value_of() == Some(sides)
        }),
{
    let items = side_items_of(sides);
    assert(all_items_succeed(sc, items, ops));
    lemma_kept_sides(sc, sides, ops);
    lemma_list_decode_values(sc, items, ops);
}

/// The items the three sides encode to.
pub open spec fn side_items_of(sides: Seq<crate::number::DoubleBits>) -> Seq<JsonV> {
    Seq::new(sides.len(), |i: int| JsonV::Number(Number::Double(sides[i].0)))
}

/// The values kept while decoding the three encoded sides are the sides.
proof fn lemma_kept_sides(
    sc: ListCodec<DoubleCodec>,
    sides: Seq<crate::number::DoubleBits>,
    ops: JsonOps,
)
    requires
        sc == crate::samples::sides_codec_v(),
        sides.len() == 3,
    ensures
        kept_values(sc, side_items_of(sides), ops) == sides,
{
    let items = side_items_of(sides);
    let i1 = items.skip(1);
    let i2 = i1.skip(1);
    let i3 = i2.skip(1);
    assert(i1.len() == 2 && i1[0] == items[1] && i1[1] == items[2]);
    assert(i2.len() == 1 && i2[0] == items[2]);
    assert(i3.len() == 0);
    assert(kept_values(sc, items, ops) == seq![sides[0]] + kept_values(sc, i1, ops));
    assert(kept_values(sc, i1, ops) == seq![sides[1]] + kept_values(sc, i2, ops));
    assert(kept_values(sc, i2, ops) == seq![sides[2]] + kept_values(sc, i3, ops));
    assert(kept_values(sc, i3, ops) =~= Seq::<crate::number::DoubleBits>::empty());
    assert(kept_values(sc, items, ops) =~= sides);
}

/// The applicative rules, stated once over the two-input combiner the struct
/// codecs decode through: all successes make a success carrying the combined
/// value; a missing value on either side loses the value; and otherwise the
/// combined value survives as a partial result while the messages join in
/// input order.
pub proof fn lemma_applicative_rules<V1, V2, T>(
    r1: DataResultV<V1>,
    r2: DataResultV<V2>,
    f: spec_fn(V1, V2) -> T,
)
    ensures
        r1 is Success && r2 is Success ==> crate::struct_codecs::apply2_v(r1, r2, f)
            == (DataResultV::Success {
            result: f(r1.value_of()->0, r2.value_of()->0),
            lifecycle: Lifecycle::Experimental,
        }),
        !(r1.has_value() && r2.has_value()) ==> crate::struct_codecs::apply2_v(r1, r2, f)
            matches DataResultV::Error { partial_result: None, .. },
        r1.has_value() && r2.has_value() && !(r1 is Success && r2 is Success)
            ==> crate::struct_codecs::apply2_v(r1, r2, f) == (DataResultV::Error {
            partial_result: Some(f(r1.value_of()->0, r2.value_of()->0)),
            lifecycle: Lifecycle::Experimental,
            message: crate::data_result::merge_msg_opt(r1.message_of(), r2.message_of())->0,
        }),
{
}

} // verus!
