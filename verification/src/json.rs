use crate::number::Number;
use vstd::prelude::*;
use vstd::string::StringExecFns;

verus! {

/// Specification-level model of a [`JsonValue`]: strings become character
/// sequences, arrays and objects become sequences.
#[verifier::ext_equal]
pub enum JsonV {
    Null,
    Bool(bool),
    Number(Number),
    Str(Seq<char>),
    Arr(Seq<JsonV>),
    Obj(Seq<(Seq<char>, JsonV)>),
}

/// A JSON-shaped tree value: the dynamic representation this library's
/// format adapter works on. Object entries keep their insertion order and
/// hold each key once.
#[derive(Debug, PartialEq, Eq)]
pub enum JsonValue {
    /// The absent value; also the empty prefix for encoders.
    Null,
    /// A boolean.
    Bool(bool),
    /// A tagged number.
    Number(Number),
    /// A string.
    Str(String),
    /// An array of values.
    Arr(Vec<JsonValue>),
    /// An object: a list of key-value entries in insertion order.
    Obj(Vec<(String, JsonValue)>),
}

impl JsonValue {
    /// The tree this value models.
    pub open spec fn view_of(self) -> JsonV
        decreases self,
        via Self::view_of_decreases
    {
        match self {
            JsonValue::Null => JsonV::Null,
            JsonValue::Bool(b) => JsonV::Bool(b),
            JsonValue::Number(n) => JsonV::Number(n),
            JsonValue::Str(s) => JsonV::Str(s@),
            JsonValue::Arr(items) => JsonV::Arr(arr_view(items@)),
            JsonValue::Obj(entries) => JsonV::Obj(obj_view(entries@)),
        }
    }

    #[via_fn]
    proof fn view_of_decreases(self) {
        broadcast use vstd::std_specs::vec::group_vec_axioms;

        match self {
            JsonValue::Arr(items) => {
                assert(decreases_to!(self => items));
                assert(decreases_to!(items => items@));
            },
            JsonValue::Obj(entries) => {
                assert(decreases_to!(self => entries));
                assert(decreases_to!(entries => entries@));
            },
            _ => {},
        }
    }
}

/// The trees an array's items model, in order.
pub open spec fn arr_view(items: Seq<JsonValue>) -> Seq<JsonV>
    decreases items,
    via arr_view_decreases
{
    if items.len() == 0 {
        Seq::empty()
    } else {
        seq![items[0].view_of()] + arr_view(items.skip(1))
    }
}

#[via_fn]
proof fn arr_view_decreases(items: Seq<JsonValue>) {
    if items.len() > 0 {
        assert(decreases_to!(items => items[0]));
        lemma_seq_skip_decreases(items);
    }
}

/// A sequence with at least one element decreases to the sequence without
/// its first element.
proof fn lemma_seq_skip_decreases<T>(s: Seq<T>)
    requires
        s.len() > 0,
    ensures
        decreases_to!(s => s.skip(1)),
{
    assert(s.skip(1) == s.subrange(1, s.len() as int));
    broadcast use vstd::seq::axiom_seq_subrange_decreases;

    assert(decreases_to!(s => s.subrange(1, s.len() as int)));
}

/// The entries an object's entries model, in order: keys become character
/// sequences and values become their trees.
pub open spec fn obj_view(entries: Seq<(String, JsonValue)>) -> Seq<(Seq<char>, JsonV)>
    decreases entries,
    via obj_view_decreases
{
    if entries.len() == 0 {
        Seq::empty()
    } else {
        seq![(entries[0].0@, entries[0].1.view_of())] + obj_view(entries.skip(1))
    }
}

#[via_fn]
proof fn obj_view_decreases(entries: Seq<(String, JsonValue)>) {
    if entries.len() > 0 {
        let e = entries[0];
        assert(decreases_to!(entries => entries[0]));
        assert(decreases_to!(e => e.1));
        lemma_seq_skip_decreases(entries);
    }
}

/// The length and the elements of an array view, element by element.
pub proof fn lemma_arr_view_index(items: Seq<JsonValue>)
    ensures
        arr_view(items).len() == items.len(),
        forall|i: int|
            0 <= i < items.len() ==> #[trigger] arr_view(items)[i] == items[i].view_of(),
    decreases items.len(),
{
    if items.len() > 0 {
        lemma_arr_view_index(items.skip(1));
        assert forall|i: int| 0 <= i < items.len() implies #[trigger] arr_view(items)[i]
            == items[i].view_of() by {
            if i > 0 {
                assert(arr_view(items)[i] == arr_view(items.skip(1))[i - 1]);
                assert(items.skip(1)[i - 1] == items[i]);
            }
        }
    }
}

/// The length and the elements of an object view, entry by entry.
pub proof fn lemma_obj_view_index(entries: Seq<(String, JsonValue)>)
    ensures
        obj_view(entries).len() == entries.len(),
        forall|i: int|
            0 <= i < entries.len() ==> #[trigger] obj_view(entries)[i] == (
                entries[i].0@,
                entries[i].1.view_of(),
            ),
    decreases entries.len(),
{
    if entries.len() > 0 {
        lemma_obj_view_index(entries.skip(1));
        assert forall|i: int| 0 <= i < entries.len() implies #[trigger] obj_view(entries)[i] == (
            entries[i].0@,
            entries[i].1.view_of(),
        ) by {
            if i > 0 {
                assert(obj_view(entries)[i] == obj_view(entries.skip(1))[i - 1]);
                assert(entries.skip(1)[i - 1] == entries[i]);
            }
        }
    }
}

impl DeepView for JsonValue {
    type V = JsonV;

    open spec fn deep_view(&self) -> JsonV {
        self.view_of()
    }
}

/// The array view of a vector of values is the vector's deep view.
pub proof fn lemma_arr_view_is_deep_view(v: Vec<JsonValue>)
    ensures
        arr_view(v@) == v.deep_view(),
{
    lemma_arr_view_index(v@);
    assert(arr_view(v@) =~= v.deep_view());
}

/// The object view of an entry vector is the vector's deep view.
pub proof fn lemma_obj_view_is_deep_view(v: Vec<(String, JsonValue)>)
    ensures
        obj_view(v@) == v.deep_view(),
{
    lemma_obj_view_index(v@);
    assert(obj_view(v@) =~= v.deep_view());
}

impl Clone for JsonValue {
    /// Clones this value; the copy models the same tree.
    #[verifier::loop_isolation(false)]
    fn clone(&self) -> (r: Self)
        ensures
            r.deep_view() == self.deep_view(),
        decreases self,
    {
        match self {
            JsonValue::Null => JsonValue::Null,
            JsonValue::Bool(b) => JsonValue::Bool(*b),
            JsonValue::Number(n) => JsonValue::Number(*n),
            JsonValue::Str(s) => JsonValue::Str(s.clone()),
            JsonValue::Arr(items) => {
                let mut out: Vec<JsonValue> = Vec::new();
                let mut i: usize = 0;
                while i < items.len()
                    invariant
                        i <= items.len(),
                        out@.len() == i,
                        forall|j: int|
                            0 <= j < i ==> out@[j].view_of() == items@[j].view_of(),
                    decreases items.len() - i,
                {
                    proof {
                        broadcast use vstd::std_specs::vec::group_vec_axioms;

                        assert(decreases_to!(*self => items@[i as int])) by {
                            assert(decreases_to!(*self => *items));
                            assert(decreases_to!(*items => items@[i as int]));
                        }
                    }
                    out.push(items[i].clone());
                    i += 1;
                }
                proof {
                    lemma_arr_view_index(out@);
                    lemma_arr_view_index(items@);
                    assert(arr_view(out@) =~= arr_view(items@));
                }
                JsonValue::Arr(out)
            },
            JsonValue::Obj(entries) => {
                let mut out: Vec<(String, JsonValue)> = Vec::new();
                let mut i: usize = 0;
                while i < entries.len()
                    invariant
                        i <= entries.len(),
                        out@.len() == i,
                        forall|j: int|
                            0 <= j < i ==> out@[j].0@ == entries@[j].0@ && out@[j].1.view_of()
                                == entries@[j].1.view_of(),
                    decreases entries.len() - i,
                {
                    proof {
                        broadcast use vstd::std_specs::vec::group_vec_axioms;

                        assert(decreases_to!(*self => entries@[i as int].1)) by {
                            let e = entries@[i as int];
                            assert(decreases_to!(*self => *entries));
                            assert(decreases_to!(*entries => entries@[i as int]));
                            assert(decreases_to!(e => e.1));
                        }
                    }
                    let entry = &entries[i];
                    out.push((entry.0.clone(), entry.1.clone()));
                    i += 1;
                }
                proof {
                    lemma_obj_view_index(out@);
                    lemma_obj_view_index(entries@);
                    assert(obj_view(out@) =~= obj_view(entries@));
                }
                JsonValue::Obj(out)
            },
        }
    }
}

/// A value and its view agree on their variant.
pub proof fn lemma_view_variants(x: &JsonValue)
    ensures
        (x.view_of() is Null) <==> (*x is Null),
        (x.view_of() is Bool) <==> (*x is Bool),
        (x.view_of() is Number) <==> (*x is Number),
        (x.view_of() is Str) <==> (*x is Str),
        (x.view_of() is Arr) <==> (*x is Arr),
        (x.view_of() is Obj) <==> (*x is Obj),
{
    match x {
        JsonValue::Null => {},
        JsonValue::Bool(_) => {},
        JsonValue::Number(_) => {},
        JsonValue::Str(_) => {},
        JsonValue::Arr(_) => {},
        JsonValue::Obj(_) => {},
    }
}

/// A value whose view is a string is itself the string variant.
pub proof fn lemma_view_str_variant(x: JsonValue)
    requires
        x.view_of() is Str,
    ensures
        x is Str,
{
    match x {
        JsonValue::Null => {
            assert(x.view_of() is Null);
        },
        JsonValue::Bool(_) => {
            assert(x.view_of() is Bool);
        },
        JsonValue::Number(_) => {
            assert(x.view_of() is Number);
        },
        JsonValue::Str(_) => {},
        JsonValue::Arr(_) => {
            assert(x.view_of() is Arr);
        },
        JsonValue::Obj(_) => {
            assert(x.view_of() is Obj);
        },
    }
}

/// Looks up a key among object entries: the value of the first entry whose
/// key matches, if any.
pub open spec fn obj_get(entries: Seq<(Seq<char>, JsonV)>, key: Seq<char>) -> Option<JsonV>
    decreases entries.len(),
{
    if entries.len() == 0 {
        None
    } else if entries[0].0 == key {
        Some(entries[0].1)
    } else {
        obj_get(entries.skip(1), key)
    }
}

/// Inserts a key-value pair among object entries: an existing entry with the
/// same key is replaced in place, otherwise the pair is appended.
pub open spec fn obj_insert(
    entries: Seq<(Seq<char>, JsonV)>,
    key: Seq<char>,
    value: JsonV,
) -> Seq<(Seq<char>, JsonV)>
    decreases entries.len(),
{
    if entries.len() == 0 {
        seq![(key, value)]
    } else if entries[0].0 == key {
        seq![(key, value)] + entries.skip(1)
    } else {
        seq![entries[0]] + obj_insert(entries.skip(1), key, value)
    }
}

/// Removes every entry with the given key from object entries.
pub open spec fn obj_remove(entries: Seq<(Seq<char>, JsonV)>, key: Seq<char>) -> Seq<
    (Seq<char>, JsonV),
>
    decreases entries.len(),
{
    if entries.len() == 0 {
        entries
    } else if entries[0].0 == key {
        obj_remove(entries.skip(1), key)
    } else {
        seq![entries[0]] + obj_remove(entries.skip(1), key)
    }
}

/// When the key first occurs at position `j`, an insert replaces that entry
/// in place.
pub proof fn lemma_obj_insert_found(
    entries: Seq<(Seq<char>, JsonV)>,
    key: Seq<char>,
    value: JsonV,
    j: int,
)
    requires
        0 <= j < entries.len(),
        entries[j].0 == key,
        forall|k: int| 0 <= k < j ==> entries[k].0 != key,
    ensures
        obj_insert(entries, key, value) =~= entries.update(j, (key, value)),
    decreases j,
{
    if j == 0 {
    } else {
        lemma_obj_insert_found(entries.skip(1), key, value, j - 1);
        assert(entries.skip(1)[j - 1] == entries[j]);
        assert(entries.skip(1).update(j - 1, (key, value)) =~= entries.update(
            j,
            (key, value),
        ).skip(1));
    }
}

/// When the key occurs nowhere, an insert appends the entry at the end.
pub proof fn lemma_obj_insert_missing(
    entries: Seq<(Seq<char>, JsonV)>,
    key: Seq<char>,
    value: JsonV,
)
    requires
        forall|k: int| 0 <= k < entries.len() ==> entries[k].0 != key,
    ensures
        obj_insert(entries, key, value) =~= entries.push((key, value)),
    decreases entries.len(),
{
    if entries.len() > 0 {
        lemma_obj_insert_missing(entries.skip(1), key, value);
        assert(entries.skip(1).push((key, value)) =~= entries.push((key, value)).skip(1));
    }
}

/// After an insert, looking the key up finds the inserted value.
pub proof fn lemma_obj_insert_get(entries: Seq<(Seq<char>, JsonV)>, key: Seq<char>, value: JsonV)
    ensures
        obj_get(obj_insert(entries, key, value), key) == Some(value),
    decreases entries.len(),
{
    if entries.len() == 0 {
    } else if entries[0].0 == key {
        assert(obj_insert(entries, key, value)[0] == (key, value));
    } else {
        lemma_obj_insert_get(entries.skip(1), key, value);
        assert(obj_insert(entries, key, value).skip(1) =~= obj_insert(
            entries.skip(1),
            key,
            value,
        ));
    }
}

/// An insert leaves the lookup of every other key unchanged.
pub proof fn lemma_obj_insert_get_other(
    entries: Seq<(Seq<char>, JsonV)>,
    key: Seq<char>,
    value: JsonV,
    other: Seq<char>,
)
    requires
        other != key,
    ensures
        obj_get(obj_insert(entries, key, value), other) == obj_get(entries, other),
    decreases entries.len(),
{
    if entries.len() == 0 {
        let result = obj_insert(entries, key, value);
        assert(result =~= seq![(key, value)]);
        assert(obj_get(result, other) == obj_get(result.skip(1), other));
        assert(result.skip(1).len() == 0);
        assert(obj_get(result.skip(1), other) is None);
    } else if entries[0].0 == key {
        assert(obj_insert(entries, key, value)[0] == (key, value));
        assert(obj_insert(entries, key, value).skip(1) =~= entries.skip(1));
    } else {
        lemma_obj_insert_get_other(entries.skip(1), key, value, other);
        assert(obj_insert(entries, key, value)[0] == entries[0]);
        assert(obj_insert(entries, key, value).skip(1) =~= obj_insert(
            entries.skip(1),
            key,
            value,
        ));
    }
}

/// The text a number is rendered as in error messages: integer variants in
/// decimal; the floating-point variants by the width of their encoding and
/// the decimal of their raw bit pattern, since rendering a floating-point
/// value itself would need floating-point arithmetic.
pub open spec fn number_display(n: Number) -> Seq<char> {
    match n {
        Number::Byte(v) => crate::text::int_digits(v as int),
        Number::Short(v) => crate::text::int_digits(v as int),
        Number::Int(v) => crate::text::int_digits(v as int),
        Number::Long(v) => crate::text::int_digits(v as int),
        Number::Float(bits) => "binary32:"@ + crate::text::dec_digits(bits as nat),
        Number::Double(bits) => "binary64:"@ + crate::text::dec_digits(bits as nat),
    }
}

/// Renders a number for error messages; see [`number_display`].
pub fn render_number(n: &Number) -> (r: String)
    ensures
        r@ == number_display(*n),
{
    match n {
        Number::Byte(v) => crate::text::i64_to_string(*v as i64),
        Number::Short(v) => crate::text::i64_to_string(*v as i64),
        Number::Int(v) => crate::text::i64_to_string(*v as i64),
        Number::Long(v) => crate::text::i64_to_string(*v),
        Number::Float(bits) => {
            let mut m = String::from_str("binary32:");
            m.append(crate::text::u64_to_string(*bits as u64).as_str());
            m
        },
        Number::Double(bits) => {
            let mut m = String::from_str("binary64:");
            m.append(crate::text::u64_to_string(*bits).as_str());
            m
        },
    }
}

/// The text a value is rendered as in error messages: `null`, `true` and
/// `false` as keywords, numbers as in [`number_display`], a string between
/// double quotes (without escaping), an array between brackets and an object
/// between braces, both comma-separated.
pub open spec fn display_of(v: JsonV) -> Seq<char>
    decreases v,
    via display_of_decreases
{
    match v {
        JsonV::Null => "null"@,
        JsonV::Bool(b) => if b {
            "true"@
        } else {
            "false"@
        },
        JsonV::Number(n) => number_display(n),
        JsonV::Str(s) => "\""@ + s + "\""@,
        JsonV::Arr(items) => display_items_from("["@, items, true) + "]"@,
        JsonV::Obj(entries) => display_entries_from("{"@, entries, true) + "}"@,
    }
}

#[via_fn]
proof fn display_of_decreases(v: JsonV) {
    match v {
        JsonV::Arr(items) => {
            assert(decreases_to!(v => items));
        },
        JsonV::Obj(entries) => {
            assert(decreases_to!(v => entries));
        },
        _ => {},
    }
}

/// Renders array items one after the other onto `acc`, comma-separated.
pub open spec fn display_items_from(acc: Seq<char>, items: Seq<JsonV>, first: bool) -> Seq<char>
    decreases items,
    via display_items_from_decreases
{
    if items.len() == 0 {
        acc
    } else {
        display_items_from(
            acc + (if first {
                Seq::<char>::empty()
            } else {
                ", "@
            }) + display_of(items[0]),
            items.skip(1),
            false,
        )
    }
}

#[via_fn]
proof fn display_items_from_decreases(acc: Seq<char>, items: Seq<JsonV>, first: bool) {
    if items.len() > 0 {
        assert(decreases_to!(items => items[0]));
        lemma_seq_skip_decreases(items);
    }
}

/// Renders object entries one after the other onto `acc`, comma-separated,
/// each as its quoted key, a colon and its value.
pub open spec fn display_entries_from(
    acc: Seq<char>,
    entries: Seq<(Seq<char>, JsonV)>,
    first: bool,
) -> Seq<char>
    decreases entries,
    via display_entries_from_decreases
{
    if entries.len() == 0 {
        acc
    } else {
        display_entries_from(
            acc + (if first {
                Seq::<char>::empty()
            } else {
                ", "@
            }) + "\""@ + entries[0].0 + "\": "@ + display_of(entries[0].1),
            entries.skip(1),
            false,
        )
    }
}

#[via_fn]
proof fn display_entries_from_decreases(
    acc: Seq<char>,
    entries: Seq<(Seq<char>, JsonV)>,
    first: bool,
) {
    if entries.len() > 0 {
        let e = entries[0];
        assert(decreases_to!(entries => entries[0]));
        assert(decreases_to!(e => e.1));
        lemma_seq_skip_decreases(entries);
    }
}

/// Renders a value for error messages; see [`display_of`].
#[verifier::loop_isolation(false)]
pub fn render_value(v: &JsonValue) -> (r: String)
    ensures
        r@ == display_of(v.view_of()),
    decreases v,
{
    match v {
        JsonValue::Null => String::from_str("null"),
        JsonValue::Bool(b) => {
            if *b {
                String::from_str("true")
            } else {
                String::from_str("false")
            }
        },
        JsonValue::Number(n) => render_number(n),
        JsonValue::Str(s) => {
            let mut m = String::from_str("\"");
            m.append(s.as_str());
            m.append("\"");
            m
        },
        JsonValue::Arr(items) => {
            proof {
                lemma_arr_view_index(items@);
            }
            let ghost iv = arr_view(items@);
            let mut m = String::from_str("[");
            let mut i: usize = 0;
            proof {
                assert(iv.skip(0) =~= iv);
            }
            while i < items.len()
                invariant
                    i <= items.len(),
                    display_items_from(m@, iv.skip(i as int), i == 0) == display_items_from(
                        "["@,
                        iv,
                        true,
                    ),
                decreases items.len() - i,
            {
                proof {
                    broadcast use vstd::std_specs::vec::group_vec_axioms;

                    assert(decreases_to!(*v => items@[i as int])) by {
                        assert(decreases_to!(*v => *items));
                        assert(decreases_to!(*items => items@[i as int]));
                    }
                    let rest = iv.skip(i as int);
                    assert(rest[0] == iv[i as int]);
                    assert(rest.skip(1) =~= iv.skip(i + 1));
                }
                if i > 0 {
                    m.append(", ");
                }
                let rendered = render_value(&items[i]);
                m.append(rendered.as_str());
                i += 1;
            }
            proof {
                assert(iv.skip(items@.len() as int) =~= Seq::<JsonV>::empty());
            }
            m.append("]");
            m
        },
        JsonValue::Obj(entries) => {
            proof {
                lemma_obj_view_index(entries@);
            }
            let ghost ev = obj_view(entries@);
            let mut m = String::from_str("{");
            let mut i: usize = 0;
            proof {
                assert(ev.skip(0) =~= ev);
            }
            while i < entries.len()
                invariant
                    i <= entries.len(),
                    display_entries_from(m@, ev.skip(i as int), i == 0) == display_entries_from(
                        "{"@,
                        ev,
                        true,
                    ),
                decreases entries.len() - i,
            {
                proof {
                    broadcast use vstd::std_specs::vec::group_vec_axioms;

                    assert(decreases_to!(*v => entries@[i as int].1)) by {
                        let e = entries@[i as int];
                        assert(decreases_to!(*v => *entries));
                        assert(decreases_to!(*entries => entries@[i as int]));
                        assert(decreases_to!(e => e.1));
                    }
                    let rest = ev.skip(i as int);
                    assert(rest[0] == ev[i as int]);
                    assert(rest.skip(1) =~= ev.skip(i + 1));
                }
                if i > 0 {
                    m.append(", ");
                }
                m.append("\"");
                m.append(entries[i].0.as_str());
                m.append("\": ");
                let rendered = render_value(&entries[i].1);
                m.append(rendered.as_str());
                i += 1;
            }
            proof {
                assert(ev.skip(entries@.len() as int) =~= Seq::<(Seq<char>, JsonV)>::empty());
            }
            m.append("}");
            m
        },
    }
}

} // verus!
