//! Cross-adapter conversion: a value of one tree format rebuilt through the
//! constructors of the other, as the format-adapter contract asks.

use crate::json::{arr_view, obj_view, JsonV, JsonValue};
use crate::json_ops::JsonOps;
use crate::nbt_ops::{
    collector_accept_all_v, collector_result_v, nbt_arr_view, nbt_obj_view, CollectorV, NbtOps,
    NbtTag, NbtV,
};
use crate::number::Number;
use vstd::prelude::*;

verus! {

/// The NBT tree a JSON-shaped tree converts to:
/// - the null value becomes the end marker;
/// - a boolean becomes a byte, one for true;
/// - a number keeps its numeric variant (the promotion to the smallest
///   fitting type happens where untagged numbers enter the tree, since this
///   tree already tags them);
/// - a string stays a string;
/// - an array becomes whatever list tag the list collector assembles from
///   its converted items;
/// - an object becomes a compound with the same keys in order.
pub open spec fn json_to_nbt_v(v: JsonV) -> NbtV
    decreases v,
    via json_to_nbt_v_decreases
{
    match v {
        JsonV::Null => NbtV::End,
        JsonV::Bool(b) => NbtV::Byte(
            if b {
                1i8
            } else {
                0i8
            },
        ),
        JsonV::Number(n) => match n {
            Number::Byte(x) => NbtV::Byte(x),
            Number::Short(x) => NbtV::Short(x),
            Number::Int(x) => NbtV::Int(x),
            Number::Long(x) => NbtV::Long(x),
            Number::Float(bits) => NbtV::Float(bits),
            Number::Double(bits) => NbtV::Double(bits),
        },
        JsonV::Str(s) => NbtV::Str(s),
        JsonV::Arr(items) => collector_result_v(
            collector_accept_all_v(CollectorV::Initial, json_items_to_nbt_v(items)),
        ),
        JsonV::Obj(entries) => NbtV::Compound(json_entries_to_nbt_v(entries)),
    }
}

#[via_fn]
proof fn json_to_nbt_v_decreases(v: JsonV) {
    match v {
        JsonV::Arr(items) => {
            assert(decreases_to!(v => items));
        },
        JsonV::Obj(entries) => {
            assert(decreases_to!(v => entries));
        },
        _ => {},
    }
}

/// The items of a JSON-shaped array converted one by one.
pub open spec fn json_items_to_nbt_v(items: Seq<JsonV>) -> Seq<NbtV>
    decreases items,
    via json_items_to_nbt_v_decreases
{
    if items.len() == 0 {
        Seq::empty()
    } else {
        seq![json_to_nbt_v(items[0])] + json_items_to_nbt_v(items.skip(1))
    }
}

#[via_fn]
proof fn json_items_to_nbt_v_decreases(items: Seq<JsonV>) {
    if items.len() > 0 {
        assert(decreases_to!(items => items[0]));
        lemma_convert_skip_decreases(items);
    }
}

/// The entries of a JSON-shaped object converted one by one, keys kept.
pub open spec fn json_entries_to_nbt_v(entries: Seq<(Seq<char>, JsonV)>) -> Seq<
    (Seq<char>, NbtV),
>
    decreases entries,
    via json_entries_to_nbt_v_decreases
{
    if entries.len() == 0 {
        Seq::empty()
    } else {
        seq![(entries[0].0, json_to_nbt_v(entries[0].1))] + json_entries_to_nbt_v(
            entries.skip(1),
        )
    }
}

#[via_fn]
proof fn json_entries_to_nbt_v_decreases(entries: Seq<(Seq<char>, JsonV)>) {
    if entries.len() > 0 {
        let e = entries[0];
        assert(decreases_to!(entries => entries[0]));
        assert(decreases_to!(e => e.1));
        lemma_convert_skip_decreases(entries);
    }
}

/// A sequence with at least one element decreases to the sequence without
/// its first element.
proof fn lemma_convert_skip_decreases<T>(s: Seq<T>)
    requires
        s.len() > 0,
    ensures
        decreases_to!(s => s.skip(1)),
{
    assert(s.skip(1) == s.subrange(1, s.len() as int));
    broadcast use vstd::seq::axiom_seq_subrange_decreases;

    assert(decreases_to!(s => s.subrange(1, s.len() as int)));
}

/// The JSON-shaped tree an NBT tree converts to:
/// - the end marker becomes the null value;
/// - every numeric tag keeps its numeric variant;
/// - a byte array, int array or long array becomes an array of numbers of
///   the matching variant (a byte converts as a signed value);
/// - a string stays a string;
/// - a list becomes an array of its converted items, with each single-entry
///   compound wrapper unwrapped when the list holds compounds, exactly as
///   the list iteration hands them out;
/// - a compound becomes an object with the same keys in order.
pub open spec fn nbt_to_json_v(v: NbtV) -> JsonV
    decreases v, 1int,
    via nbt_to_json_v_decreases
{
    match v {
        NbtV::End => JsonV::Null,
        NbtV::Byte(b) => JsonV::Number(Number::Byte(b)),
        NbtV::Short(s) => JsonV::Number(Number::Short(s)),
        NbtV::Int(i) => JsonV::Number(Number::Int(i)),
        NbtV::Long(l) => JsonV::Number(Number::Long(l)),
        NbtV::Float(bits) => JsonV::Number(Number::Float(bits)),
        NbtV::Double(bits) => JsonV::Number(Number::Double(bits)),
        NbtV::ByteArray(bytes) => JsonV::Arr(
            Seq::new(bytes.len(), |i: int| JsonV::Number(Number::Byte(bytes[i] as i8))),
        ),
        NbtV::Str(s) => JsonV::Str(s),
        NbtV::List(items) => JsonV::Arr(
            nbt_items_to_json_v(items, items.len() > 0 && items[0] is Compound),
        ),
        NbtV::Compound(entries) => JsonV::Obj(nbt_entries_to_json_v(entries)),
        NbtV::IntArray(ints) => JsonV::Arr(
            Seq::new(ints.len(), |i: int| JsonV::Number(Number::Int(ints[i]))),
        ),
        NbtV::LongArray(longs) => JsonV::Arr(
            Seq::new(longs.len(), |i: int| JsonV::Number(Number::Long(longs[i]))),
        ),
    }
}

#[via_fn]
proof fn nbt_to_json_v_decreases(v: NbtV) {
    match v {
        NbtV::List(items) => {
            assert(decreases_to!(v => items));
        },
        NbtV::Compound(entries) => {
            assert(decreases_to!(v => entries));
        },
        _ => {},
    }
}

/// The items of an NBT list converted one by one; when `unwrap` holds, each
/// single-entry compound wrapper is opened first.
pub open spec fn nbt_items_to_json_v(items: Seq<NbtV>, unwrap: bool) -> Seq<JsonV>
    decreases items, 0int,
    via nbt_items_to_json_v_decreases
{
    if items.len() == 0 {
        Seq::empty()
    } else {
        let element = if unwrap {
            crate::nbt_ops::unwrap_if_compound(items[0])
        } else {
            items[0]
        };
        seq![nbt_to_json_v(element)] + nbt_items_to_json_v(items.skip(1), unwrap)
    }
}

#[via_fn]
proof fn nbt_items_to_json_v_decreases(items: Seq<NbtV>, unwrap: bool) {
    if items.len() > 0 {
        assert(decreases_to!(items => items[0]));
        match items[0] {
            NbtV::Compound(entries) => {
                if entries.len() == 1 {
                    let e = entries[0];
                    assert(decreases_to!(items[0] => entries));
                    assert(decreases_to!(entries => entries[0]));
                    assert(decreases_to!(e => e.1));
                }
            },
            _ => {},
        }
        lemma_convert_skip_decreases(items);
    }
}

/// The entries of an NBT compound converted one by one, keys kept.
pub open spec fn nbt_entries_to_json_v(entries: Seq<(Seq<char>, NbtV)>) -> Seq<
    (Seq<char>, JsonV),
>
    decreases entries, 0int,
    via nbt_entries_to_json_v_decreases
{
    if entries.len() == 0 {
        Seq::empty()
    } else {
        seq![(entries[0].0, nbt_to_json_v(entries[0].1))] + nbt_entries_to_json_v(
            entries.skip(1),
        )
    }
}

#[via_fn]
proof fn nbt_entries_to_json_v_decreases(entries: Seq<(Seq<char>, NbtV)>) {
    if entries.len() > 0 {
        let e = entries[0];
        assert(decreases_to!(entries => entries[0]));
        assert(decreases_to!(e => e.1));
        lemma_convert_skip_decreases(entries);
    }
}

impl JsonOps {
    /// Converts a value of this adapter's format to the other adapter's
    /// format, rebuilding it through that adapter's constructors; see
    /// [`json_to_nbt_v`].
    #[verifier::loop_isolation(false)]
    pub fn convert_to(&self, out_ops: &NbtOps, input: &JsonValue) -> (r: NbtTag)
        ensures
            r.view_of() == json_to_nbt_v(input.view_of()),
        decreases *input,
    {
        match input {
            JsonValue::Null => out_ops.empty(),
            JsonValue::Bool(b) => out_ops.create_bool(*b),
            JsonValue::Number(n) => match n {
                Number::Byte(x) => out_ops.create_byte(*x),
                Number::Short(x) => out_ops.create_short(*x),
                Number::Int(x) => out_ops.create_int(*x),
                Number::Long(x) => out_ops.create_long(*x),
                Number::Float(bits) => out_ops.create_float(*bits),
                Number::Double(bits) => out_ops.create_double(*bits),
            },
            JsonValue::Str(s) => out_ops.create_string(s.as_str()),
            JsonValue::Arr(items) => {
                proof {
                    crate::json::lemma_arr_view_index(items@);
                }
                let ghost iv = arr_view(items@);
                let mut converted: Vec<NbtTag> = Vec::new();
                let mut i: usize = 0;
                while i < items.len()
                    invariant
                        i <= items.len(),
                        converted@.len() == i,
                        forall|j: int|
                            0 <= j < i ==> #[trigger] converted@[j].view_of() == json_to_nbt_v(
                                iv[j],
                            ),
                    decreases items.len() - i,
                {
                    proof {
                        broadcast use vstd::std_specs::vec::group_vec_axioms;

                        assert(decreases_to!(*input => items@[i as int])) by {
                            assert(decreases_to!(*input => *items));
                            assert(decreases_to!(*items => items@[i as int]));
                        }
                    }
                    let element = self.convert_to(out_ops, &items[i]);
                    converted.push(element);
                    i += 1;
                }
                proof {
                    crate::nbt_ops::lemma_nbt_arr_view_index(converted@);
                    assert(nbt_arr_view(converted@) =~= json_items_to_nbt_items(iv, i as int));
                    lemma_json_items_prefix(iv, i as int);
                }
                out_ops.create_list(converted)
            },
            JsonValue::Obj(entries) => {
                proof {
                    crate::json::lemma_obj_view_index(entries@);
                }
                let ghost ev = obj_view(entries@);
                let mut converted: Vec<(String, NbtTag)> = Vec::new();
                let mut i: usize = 0;
                while i < entries.len()
                    invariant
                        i <= entries.len(),
                        converted@.len() == i,
                        forall|j: int|
                            0 <= j < i ==> #[trigger] converted@[j].0@ == ev[j].0
                                && converted@[j].1.view_of() == json_to_nbt_v(ev[j].1),
                    decreases entries.len() - i,
                {
                    proof {
                        broadcast use vstd::std_specs::vec::group_vec_axioms;

                        assert(decreases_to!(*input => entries@[i as int].1)) by {
                            let e = entries@[i as int];
                            assert(decreases_to!(*input => *entries));
                            assert(decreases_to!(*entries => entries@[i as int]));
                            assert(decreases_to!(e => e.1));
                        }
                    }
                    let value = self.convert_to(out_ops, &entries[i].1);
                    converted.push((entries[i].0.clone(), value));
                    i += 1;
                }
                proof {
                    crate::nbt_ops::lemma_nbt_obj_view_index(converted@);
                    assert(nbt_obj_view(converted@) =~= json_entries_to_nbt_v(ev)) by {
                        lemma_json_entries_prefix(ev, i as int);
                    }
                }
                NbtTag::Compound(converted)
            },
        }
    }
}

impl NbtOps {
    /// Converts a value of this adapter's format to the other adapter's
    /// format; see [`nbt_to_json_v`].
    #[verifier::loop_isolation(false)]
    pub fn convert_to(&self, out_ops: &JsonOps, input: &NbtTag) -> (r: JsonValue)
        ensures
            r.view_of() == nbt_to_json_v(input.view_of()),
        decreases *input,
    {
        match input {
            NbtTag::End => out_ops.empty(),
            NbtTag::Byte(b) => out_ops.create_byte(*b),
            NbtTag::Short(s) => out_ops.create_short(*s),
            NbtTag::Int(i) => out_ops.create_int(*i),
            NbtTag::Long(l) => out_ops.create_long(*l),
            NbtTag::Float(f) => out_ops.create_float(*f),
            NbtTag::Double(d) => out_ops.create_double(*d),
            NbtTag::Str(s) => out_ops.create_string(s.as_str()),
            NbtTag::ByteArray(bytes) => {
                let mut out: Vec<JsonValue> = Vec::new();
                let mut i: usize = 0;
                while i < bytes.len()
                    invariant
                        i <= bytes.len(),
                        out@.len() == i,
                        forall|j: int|
                            0 <= j < i ==> #[trigger] out@[j].view_of() == JsonV::Number(
                                Number::Byte(bytes@[j] as i8),
                            ),
                    decreases bytes.len() - i,
                {
                    out.push(JsonValue::Number(Number::Byte(#[verifier::truncate] (bytes[i] as i8))));
                    i += 1;
                }
                proof {
                    crate::json::lemma_arr_view_index(out@);
                    assert(arr_view(out@) =~= Seq::new(
                        bytes@.len(),
                        |j: int| JsonV::Number(Number::Byte(bytes@[j] as i8)),
                    ));
                }
                JsonValue::Arr(out)
            },
            NbtTag::IntArray(ints) => {
                let mut out: Vec<JsonValue> = Vec::new();
                let mut i: usize = 0;
                while i < ints.len()
                    invariant
                        i <= ints.len(),
                        out@.len() == i,
                        forall|j: int|
                            0 <= j < i ==> #[trigger] out@[j].view_of() == JsonV::Number(
                                Number::Int(ints@[j]),
                            ),
                    decreases ints.len() - i,
                {
                    out.push(JsonValue::Number(Number::Int(ints[i])));
                    i += 1;
                }
                proof {
                    crate::json::lemma_arr_view_index(out@);
                    assert(arr_view(out@) =~= Seq::new(
                        ints@.len(),
                        |j: int| JsonV::Number(Number::Int(ints@[j])),
                    ));
                }
                JsonValue::Arr(out)
            },
            NbtTag::LongArray(longs) => {
                let mut out: Vec<JsonValue> = Vec::new();
                let mut i: usize = 0;
                while i < longs.len()
                    invariant
                        i <= longs.len(),
                        out@.len() == i,
                        forall|j: int|
                            0 <= j < i ==> #[trigger] out@[j].view_of() == JsonV::Number(
                                Number::Long(longs@[j]),
                            ),
                    decreases longs.len() - i,
                {
                    out.push(JsonValue::Number(Number::Long(longs[i])));
                    i += 1;
                }
                proof {
                    crate::json::lemma_arr_view_index(out@);
                    assert(arr_view(out@) =~= Seq::new(
                        longs@.len(),
                        |j: int| JsonV::Number(Number::Long(longs@[j])),
                    ));
                }
                JsonValue::Arr(out)
            },
            NbtTag::List(items) => {
                proof {
                    crate::nbt_ops::lemma_nbt_arr_view_index(items@);
                }
                let ghost iv = nbt_arr_view(items@);
                let unwrap = items.len() > 0 && items[0].type_id() == 10;
                proof {
                    if items.len() > 0 {
                        assert(unwrap <==> (iv[0] is Compound));
                    }
                }
                let mut out: Vec<JsonValue> = Vec::new();
                let mut i: usize = 0;
                while i < items.len()
                    invariant
                        i <= items.len(),
                        out@.len() == i,
                        forall|j: int|
                            0 <= j < i ==> #[trigger] out@[j].view_of() == nbt_to_json_v(
                                if unwrap {
                                    crate::nbt_ops::unwrap_if_compound(iv[j])
                                } else {
                                    iv[j]
                                },
                            ),
                    decreases items.len() - i,
                {
                    proof {
                        broadcast use vstd::std_specs::vec::group_vec_axioms;

                        assert(decreases_to!(*input => items@[i as int])) by {
                            assert(decreases_to!(*input => *items));
                            assert(decreases_to!(*items => items@[i as int]));
                        }
                    }
                    let item = &items[i];
                    let converted: JsonValue;
                    if unwrap {
                        match item.extract_compound() {
                            Some(entries) => {
                                if entries.len() == 1 && entries[0].0.unicode_len() == 0 {
                                    proof {
                                        crate::nbt_ops::lemma_nbt_obj_view_index(entries@);
                                        let e = entries@[0];
                                        assert(entries@[0].0@ =~= Seq::<char>::empty());
                                        assert(decreases_to!(items@[i as int] => entries@[0].1))
                                            by {
                                            assert(item.view_of() == NbtV::Compound(
                                                nbt_obj_view(entries@),
                                            ));
                                            assert(*item is Compound) by {
                                                crate::nbt_ops::lemma_view_compound_variant(
                                                    item,
                                                );
                                            }
                                            assert(decreases_to!(*item => *entries));
                                            assert(decreases_to!(*entries => entries@[0]));
                                            assert(decreases_to!(e => e.1));
                                        }
                                    }
                                    converted = self.convert_to(out_ops, &entries[0].1);
                                } else {
                                    proof {
                                        crate::nbt_ops::lemma_nbt_obj_view_index(entries@);
                                        if entries.len() == 1 {
                                            assert(entries@[0].0@.len() > 0);
                                        }
                                    }
                                    converted = self.convert_to(out_ops, item);
                                }
                            },
                            None => {
                                converted = self.convert_to(out_ops, item);
                            },
                        }
                    } else {
                        converted = self.convert_to(out_ops, item);
                    }
                    out.push(converted);
                    i += 1;
                }
                proof {
                    crate::json::lemma_arr_view_index(out@);
                    lemma_nbt_items_prefix(iv, unwrap);
                    assert(arr_view(out@) =~= nbt_items_to_json_v(iv, unwrap));
                }
                JsonValue::Arr(out)
            },
            NbtTag::Compound(entries) => {
                proof {
                    crate::nbt_ops::lemma_nbt_obj_view_index(entries@);
                }
                let ghost ev = nbt_obj_view(entries@);
                let mut out: Vec<(String, JsonValue)> = Vec::new();
                let mut i: usize = 0;
                while i < entries.len()
                    invariant
                        i <= entries.len(),
                        out@.len() == i,
                        forall|j: int|
                            0 <= j < i ==> #[trigger] out@[j].0@ == ev[j].0
                                && out@[j].1.view_of() == nbt_to_json_v(ev[j].1),
                    decreases entries.len() - i,
                {
                    proof {
                        broadcast use vstd::std_specs::vec::group_vec_axioms;

                        assert(decreases_to!(*input => entries@[i as int].1)) by {
                            let e = entries@[i as int];
                            assert(decreases_to!(*input => *entries));
                            assert(decreases_to!(*entries => entries@[i as int]));
                            assert(decreases_to!(e => e.1));
                        }
                    }
                    let value = self.convert_to(out_ops, &entries[i].1);
                    out.push((entries[i].0.clone(), value));
                    i += 1;
                }
                proof {
                    crate::json::lemma_obj_view_index(out@);
                    lemma_nbt_entries_prefix(ev);
                    assert(obj_view(out@) =~= nbt_entries_to_json_v(ev));
                }
                JsonValue::Obj(out)
            },
        }
    }
}

/// Converting all items of an NBT list equals the pointwise conversion of
/// the whole list, with each element unwrapped first when asked.
proof fn lemma_nbt_items_prefix(items: Seq<NbtV>, unwrap: bool)
    ensures
        nbt_items_to_json_v(items, unwrap) == Seq::new(
            items.len(),
            |j: int| nbt_to_json_v(
                if unwrap {
                    crate::nbt_ops::unwrap_if_compound(items[j])
                } else {
                    items[j]
                },
            ),
        ),
    decreases items.len(),
{
    let goal = Seq::new(
        items.len(),
        |j: int| nbt_to_json_v(
            if unwrap {
                crate::nbt_ops::unwrap_if_compound(items[j])
            } else {
                items[j]
            },
        ),
    );
    if items.len() == 0 {
        assert(nbt_items_to_json_v(items, unwrap) =~= goal);
    } else {
        lemma_nbt_items_prefix(items.skip(1), unwrap);
        assert forall|j: int| 0 <= j < items.skip(1).len() implies items.skip(1)[j] == items[j
            + 1] by {}
        assert(nbt_items_to_json_v(items, unwrap) =~= goal) by {
            assert(Seq::new(
                items.skip(1).len(),
                |j: int| nbt_to_json_v(
                    if unwrap {
                        crate::nbt_ops::unwrap_if_compound(items.skip(1)[j])
                    } else {
                        items.skip(1)[j]
                    },
                ),
            ) =~= goal.skip(1));
        }
    }
}

/// Converting all entries of a compound equals the pointwise conversion of
/// the whole compound.
proof fn lemma_nbt_entries_prefix(entries: Seq<(Seq<char>, NbtV)>)
    ensures
        nbt_entries_to_json_v(entries) == Seq::new(
            entries.len(),
            |j: int| (entries[j].0, nbt_to_json_v(entries[j].1)),
        ),
    decreases entries.len(),
{
    let goal = Seq::new(entries.len(), |j: int| (entries[j].0, nbt_to_json_v(entries[j].1)));
    if entries.len() == 0 {
        assert(nbt_entries_to_json_v(entries) =~= goal);
    } else {
        lemma_nbt_entries_prefix(entries.skip(1));
        assert forall|j: int| 0 <= j < entries.skip(1).len() implies entries.skip(1)[j]
            == entries[j + 1] by {}
        assert(nbt_entries_to_json_v(entries) =~= goal) by {
            assert(Seq::new(
                entries.skip(1).len(),
                |j: int| (entries.skip(1)[j].0, nbt_to_json_v(entries.skip(1)[j].1)),
            ) =~= goal.skip(1));
        }
    }
}

/// The first `n` items of a JSON-shaped array, converted.
pub open spec fn json_items_to_nbt_items(items: Seq<JsonV>, n: int) -> Seq<NbtV> {
    Seq::new(n as nat, |j: int| json_to_nbt_v(items[j]))
}

/// Converting all items equals the pointwise conversion of the whole array.
proof fn lemma_json_items_prefix(items: Seq<JsonV>, n: int)
    requires
        n == items.len(),
    ensures
        json_items_to_nbt_v(items) == json_items_to_nbt_items(items, n),
    decreases items.len(),
{
    if items.len() == 0 {
        assert(json_items_to_nbt_v(items) =~= json_items_to_nbt_items(items, n));
    } else {
        lemma_json_items_prefix(items.skip(1), n - 1);
        assert forall|j: int| 0 <= j < items.skip(1).len() implies items.skip(1)[j] == items[j
            + 1] by {}
        assert(json_items_to_nbt_v(items) =~= json_items_to_nbt_items(items, n)) by {
            assert(json_items_to_nbt_items(items.skip(1), n - 1) =~= json_items_to_nbt_items(
                items,
                n,
            ).skip(1));
        }
    }
}

/// Converting all entries equals the pointwise conversion of the whole
/// object.
proof fn lemma_json_entries_prefix(entries: Seq<(Seq<char>, JsonV)>, n: int)
    requires
        n == entries.len(),
    ensures
        json_entries_to_nbt_v(entries) == Seq::new(
            n as nat,
            |j: int| (entries[j].0, json_to_nbt_v(entries[j].1)),
        ),
    decreases entries.len(),
{
    if entries.len() == 0 {
        assert(json_entries_to_nbt_v(entries) =~= Seq::new(
            n as nat,
            |j: int| (entries[j].0, json_to_nbt_v(entries[j].1)),
        ));
    } else {
        lemma_json_entries_prefix(entries.skip(1), n - 1);
        assert forall|j: int| 0 <= j < entries.skip(1).len() implies entries.skip(1)[j]
            == entries[j + 1] by {}
        assert(json_entries_to_nbt_v(entries) =~= Seq::new(
            n as nat,
            |j: int| (entries[j].0, json_to_nbt_v(entries[j].1)),
        )) by {
            assert(Seq::new(
                (n - 1) as nat,
                |j: int| (entries.skip(1)[j].0, json_to_nbt_v(entries.skip(1)[j].1)),
            ) =~= Seq::new(n as nat, |j: int| (entries[j].0, json_to_nbt_v(entries[j].1))).skip(
                1,
            ));
        }
    }
}

} // verus!
