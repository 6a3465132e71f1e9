use crate::data_result::{error_partial_v, error_v, success_v, DataResult, DataResultV};
use crate::json::{arr_view, lemma_arr_view_index, obj_insert, obj_view, JsonV, JsonValue};
use crate::map_like::MapLike;
use crate::number::Number;
use crate::text::{i64_to_string, str_eq};
use vstd::prelude::*;
use vstd::string::StringExecFns;

verus! {

/// The format adapter for the JSON-shaped tree values of this library.
///
/// A *compressed* adapter is a little more lenient about where values stand:
/// numbers are accepted where strings are expected, and fixed-schema maps are
/// packed as lists.
#[derive(Clone, Copy, Debug, PartialEq, Eq, Structural)]
pub struct JsonOps {
    /// Whether this adapter works on compressed data.
    pub compressed: bool,
}

/// An error [`DataResult`] with the given message.
pub(crate) fn error_result<T: DeepView>(msg: &str) -> (r: DataResult<T>)
    ensures
        r.deep_view() == error_v::<T::V>(msg@),
{
    DataResult::error(String::from_str(msg))
}

/// An error [`DataResult`] whose message names the offending value.
pub(crate) fn error_naming<T: DeepView>(prefix: &str, value: &JsonValue) -> (r: DataResult<T>)
    ensures
        r.deep_view() == error_v::<T::V>(prefix@ + crate::json::display_of(value.view_of())),
{
    let mut m = String::from_str(prefix);
    m.append(crate::json::render_value(value).as_str());
    DataResult::error(m)
}

/// An error [`DataResult`] whose message names the offending value and keeps
/// it as the partial result.
pub(crate) fn error_partial_naming(prefix: &str, value: JsonValue) -> (r: DataResult<JsonValue>)
    ensures
        r.deep_view() == error_partial_v(
            prefix@ + crate::json::display_of(value.view_of()),
            value.view_of(),
        ),
{
    let mut m = String::from_str(prefix);
    m.append(crate::json::render_value(&value).as_str());
    DataResult::error_partial(m, value)
}

/// The string a value reads as, if any. Only these read as a string:
/// - booleans, as `true` or `false`;
/// - integer-valued numbers, in decimal (a floating-point number does not
///   name a string here);
/// - strings themselves;
/// - an array of exactly one element that itself reads as a string.
pub open spec fn json_as_chars(v: JsonV) -> Option<Seq<char>>
    decreases v,
    via json_as_chars_decreases
{
    match v {
        JsonV::Bool(b) => if b {
            Some("true"@)
        } else {
            Some("false"@)
        },
        JsonV::Number(n) => match n {
            Number::Byte(x) => Some(crate::text::int_digits(x as int)),
            Number::Short(x) => Some(crate::text::int_digits(x as int)),
            Number::Int(x) => Some(crate::text::int_digits(x as int)),
            Number::Long(x) => Some(crate::text::int_digits(x as int)),
            Number::Float(_) => None,
            Number::Double(_) => None,
        },
        JsonV::Str(s) => Some(s),
        JsonV::Arr(items) => if items.len() == 1 {
            json_as_chars(items[0])
        } else {
            None
        },
        _ => None,
    }
}

#[via_fn]
proof fn json_as_chars_decreases(v: JsonV) {
    match v {
        JsonV::Arr(items) => {
            if items.len() == 1 {
                assert(decreases_to!(v => items));
                assert(decreases_to!(items => items[0]));
            }
        },
        _ => {},
    }
}

impl JsonOps {
    /// An adapter for ordinary JSON-shaped data.
    pub fn new() -> (r: Self)
        ensures
            !r.compressed,
    {
        JsonOps { compressed: false }
    }

    /// An adapter for compressed JSON-shaped data.
    pub fn new_compressed() -> (r: Self)
        ensures
            r.compressed,
    {
        JsonOps { compressed: true }
    }

    /// Whether maps should be compressed under this adapter.
    pub fn compress_maps(&self) -> (r: bool)
        ensures
            r == self.compressed,
    {
        self.compressed
    }

    /// Returns how an empty value is represented: the null value.
    pub fn empty(&self) -> (r: JsonValue)
        ensures
            r.view_of() == JsonV::Null,
    {
        JsonValue::Null
    }

    /// Returns an empty list value.
    pub fn empty_list(&self) -> (r: JsonValue)
        ensures
            r.view_of() == JsonV::Arr(Seq::empty()),
    {
        proof {
            assert(arr_view(Seq::empty()) =~= Seq::empty());
        }
        JsonValue::Arr(Vec::new())
    }

    /// Returns an empty map value.
    pub fn empty_map(&self) -> (r: JsonValue)
        ensures
            r.view_of() == JsonV::Obj(Seq::empty()),
    {
        proof {
            assert(obj_view(Seq::empty()) =~= Seq::empty());
        }
        JsonValue::Obj(Vec::new())
    }

    /// Returns how a generic number is represented.
    pub fn create_number(&self, n: Number) -> (r: JsonValue)
        ensures
            r.view_of() == JsonV::Number(n),
    {
        JsonValue::Number(n)
    }

    /// Returns how a byte is represented.
    pub fn create_byte(&self, data: i8) -> (r: JsonValue)
        ensures
            r.view_of() == JsonV::Number(Number::Byte(data)),
    {
        JsonValue::Number(Number::Byte(data))
    }

    /// Returns how a short is represented.
    pub fn create_short(&self, data: i16) -> (r: JsonValue)
        ensures
            r.view_of() == JsonV::Number(Number::Short(data)),
    {
        JsonValue::Number(Number::Short(data))
    }

    /// Returns how an int is represented.
    pub fn create_int(&self, data: i32) -> (r: JsonValue)
        ensures
            r.view_of() == JsonV::Number(Number::Int(data)),
    {
        JsonValue::Number(Number::Int(data))
    }

    /// Returns how a long is represented.
    pub fn create_long(&self, data: i64) -> (r: JsonValue)
        ensures
            r.view_of() == JsonV::Number(Number::Long(data)),
    {
        JsonValue::Number(Number::Long(data))
    }

    /// Returns how a single-precision value is represented, given its raw
    /// bit pattern.
    pub fn create_float(&self, data: u32) -> (r: JsonValue)
        ensures
            r.view_of() == JsonV::Number(Number::Float(data)),
    {
        JsonValue::Number(Number::Float(data))
    }

    /// Returns how a double-precision value is represented, given its raw
    /// bit pattern.
    pub fn create_double(&self, data: u64) -> (r: JsonValue)
        ensures
            r.view_of() == JsonV::Number(Number::Double(data)),
    {
        JsonValue::Number(Number::Double(data))
    }

    /// Returns how a boolean is represented.
    pub fn create_bool(&self, data: bool) -> (r: JsonValue)
        ensures
            r.view_of() == JsonV::Bool(data),
    {
        JsonValue::Bool(data)
    }

    /// Returns how a string is represented.
    pub fn create_string(&self, data: &str) -> (r: JsonValue)
        ensures
            r.view_of() == JsonV::Str(data@),
    {
        JsonValue::Str(String::from_str(data))
    }

    /// Returns how a list of values is represented.
    pub fn create_list(&self, values: Vec<JsonValue>) -> (r: JsonValue)
        ensures
            r.view_of() == JsonV::Arr(arr_view(values@)),
    {
        JsonValue::Arr(values)
    }

    /// The string a value reads as, if any; see [`json_as_chars`].
    pub fn get_as_string(input: &JsonValue) -> (r: Option<String>)
        ensures
            match r {
                Some(s) => json_as_chars(input.view_of()) == Some(s@),
                None => json_as_chars(input.view_of()) is None,
            },
        decreases *input,
    {
        match input {
            JsonValue::Bool(b) => {
                if *b {
                    Some(String::from_str("true"))
                } else {
                    Some(String::from_str("false"))
                }
            },
            JsonValue::Number(n) => match n {
                Number::Byte(x) => Some(i64_to_string(*x as i64)),
                Number::Short(x) => Some(i64_to_string(*x as i64)),
                Number::Int(x) => Some(i64_to_string(*x as i64)),
                Number::Long(x) => Some(i64_to_string(*x)),
                Number::Float(_) => None,
                Number::Double(_) => None,
            },
            JsonValue::Str(s) => Some(s.clone()),
            JsonValue::Arr(items) => {
                if items.len() == 1 {
                    proof {
                        broadcast use vstd::std_specs::vec::group_vec_axioms;

                        assert(decreases_to!(*input => items@[0])) by {
                            assert(decreases_to!(*input => *items));
                            assert(decreases_to!(*items => items@[0]));
                        }
                        lemma_arr_view_index(items@);
                    }
                    Self::get_as_string(&items[0])
                } else {
                    proof {
                        lemma_arr_view_index(items@);
                    }
                    None
                }
            },
            _ => None,
        }
    }

    /// Returns how a map is represented: entries whose key does not read as
    /// a string are dropped.
    pub fn create_map(&self, entries: Vec<(JsonValue, JsonValue)>) -> (r: JsonValue)
        ensures
            r.view_of() == JsonV::Obj(create_map_entries(pair_views(entries@))),
    {
        let mut out: Vec<(String, JsonValue)> = Vec::new();
        let mut i: usize = 0;
        proof {
            assert(pair_views(entries@).skip(0) =~= pair_views(entries@));
            assert(obj_view(out@) =~= Seq::empty());
        }
        while i < entries.len()
            invariant
                i <= entries.len(),
                obj_view(out@) + create_map_entries(pair_views(entries@).skip(i as int))
                    =~= create_map_entries(pair_views(entries@)),
            decreases entries.len() - i,
        {
            let ghost old_out = out@;
            let entry = &entries[i];
            let key = Self::get_as_string(&entry.0);
            match key {
                Some(k) => {
                    out.push((k, entry.1.clone()));
                },
                None => {},
            }
            proof {
                let pv = pair_views(entries@).skip(i as int);
                assert(pv[0] == (entries@[i as int].0.view_of(), entries@[i as int].1.view_of()));
                assert(pv.skip(1) =~= pair_views(entries@).skip(i + 1));
                crate::json::lemma_obj_view_index(out@);
                crate::json::lemma_obj_view_index(old_out);
                if key is Some {
                    assert(obj_view(out@) =~= obj_view(old_out) + seq![
                        (out@.last().0@, out@.last().1.view_of()),
                    ]);
                }
                assert(obj_view(out@) + create_map_entries(pair_views(entries@).skip(i + 1))
                    =~= create_map_entries(pair_views(entries@)));
            }
            i += 1;
        }
        proof {
            assert(create_map_entries(pair_views(entries@).skip(entries@.len() as int))
                =~= Seq::empty());
            assert(obj_view(out@) =~= create_map_entries(pair_views(entries@)));
        }
        JsonValue::Obj(out)
    }

    /// Tries to read a boolean.
    pub fn get_bool(&self, input: &JsonValue) -> (r: DataResult<bool>)
        ensures
            r.deep_view() == self.get_bool_spec(input.view_of()),
    {
        match input {
            JsonValue::Bool(b) => DataResult::success(*b),
            _ => error_naming("Not a boolean: ", input),
        }
    }

    /// What reading a boolean returns: only a boolean value reads as one,
    /// and the error names the offending value.
    pub open spec fn get_bool_spec(self, v: JsonV) -> DataResultV<bool> {
        match v {
            JsonV::Bool(b) => success_v(b),
            _ => error_v("Not a boolean: "@ + crate::json::display_of(v)),
        }
    }

    /// Tries to read a number. Under a compressed adapter a decimal string
    /// within the int range is accepted too.
    pub fn get_number(&self, input: &JsonValue) -> (r: DataResult<Number>)
        ensures
            r.deep_view() == self.get_number_spec(input.view_of()),
    {
        match input {
            JsonValue::Number(n) => DataResult::success(*n),
            JsonValue::Str(s) => {
                if self.compressed {
                    match crate::text::parse_i32(s.as_str()) {
                        Some(n) => DataResult::success(Number::Int(n)),
                        None => error_naming("Not a number: ", input),
                    }
                } else {
                    error_naming("Not a number: ", input)
                }
            },
            _ => error_naming("Not a number: ", input),
        }
    }

    /// What reading a number returns: a number value always, and under a
    /// compressed adapter a decimal string within the int range.
    pub open spec fn get_number_spec(self, v: JsonV) -> DataResultV<Number> {
        match v {
            JsonV::Number(n) => success_v(n),
            JsonV::Str(s) => {
                if self.compressed && (crate::text::parse_signed(s) matches Some(n) && i32::MIN
                    <= n <= i32::MAX) {
                    success_v(Number::Int(crate::text::parse_signed(s)->0 as i32))
                } else {
                    error_v("Not a number: "@ + crate::json::display_of(v))
                }
            },
            _ => error_v("Not a number: "@ + crate::json::display_of(v)),
        }
    }

    /// Tries to read a string. Under a compressed adapter, a value that
    /// reads as a string (see [`json_as_chars`]) is accepted too.
    pub fn get_string(&self, input: &JsonValue) -> (r: DataResult<String>)
        ensures
            r.deep_view() == self.get_string_spec(input.view_of()),
    {
        match input {
            JsonValue::Str(s) => DataResult::success(s.clone()),
            JsonValue::Number(_) => {
                if self.compressed {
                    match Self::get_as_string(input) {
                        Some(s) => DataResult::success(s),
                        None => error_naming("Not a string: ", input),
                    }
                } else {
                    error_naming("Not a string: ", input)
                }
            },
            _ => error_naming("Not a string: ", input),
        }
    }

    /// What reading a string returns: a string value always, and under a
    /// compressed adapter an integer-valued number in decimal.
    pub open spec fn get_string_spec(self, v: JsonV) -> DataResultV<Seq<char>> {
        match v {
            JsonV::Str(s) => success_v(s),
            JsonV::Number(_) => if self.compressed {
                match json_as_chars(v) {
                    Some(s) => success_v(s),
                    None => error_v("Not a string: "@ + crate::json::display_of(v)),
                }
            } else {
                error_v("Not a string: "@ + crate::json::display_of(v))
            },
            _ => error_v("Not a string: "@ + crate::json::display_of(v)),
        }
    }

    /// Tries to view a value as a map.
    pub fn get_map(&self, input: JsonValue) -> (r: DataResult<MapLike>)
        ensures
            r.deep_view() == self.get_map_spec(input.view_of()),
            r matches DataResult::Success { result, .. } ==> result.wf(),
    {
        match input {
            JsonValue::Obj(entries) => DataResult::success(MapLike::Entries(entries)),
            other => {
                proof {
                    crate::json::lemma_view_variants(&other);
                }
                error_naming("Not a JSON object: ", &other)
            },
        }
    }

    /// What viewing a value as a map returns: the entries of an object, and
    /// otherwise an error naming the offending value.
    pub open spec fn get_map_spec(self, v: JsonV) -> DataResultV<Seq<(Seq<char>, JsonV)>> {
        match v {
            JsonV::Obj(entries) => success_v(entries),
            _ => error_v("Not a JSON object: "@ + crate::json::display_of(v)),
        }
    }

    /// Tries to read a value as a list of values.
    pub fn get_iter(&self, input: JsonValue) -> (r: DataResult<Vec<JsonValue>>)
        ensures
            r.deep_view() == self.get_iter_spec(input.view_of()),
    {
        match input {
            JsonValue::Arr(items) => {
                proof {
                    lemma_arr_view_index(items@);
                    assert(Seq::new(items@.len(), |i: int| items@[i].deep_view()) =~= arr_view(
                        items@,
                    ));
                }
                DataResult::success(items)
            },
            other => {
                proof {
                    crate::json::lemma_view_variants(&other);
                }
                error_naming("Not a JSON array: ", &other)
            },
        }
    }

    /// What reading a list returns: the items of an array, and otherwise an
    /// error naming the offending value.
    pub open spec fn get_iter_spec(self, v: JsonV) -> DataResultV<Seq<JsonV>> {
        match v {
            JsonV::Arr(items) => success_v(items),
            _ => error_v("Not a JSON array: "@ + crate::json::display_of(v)),
        }
    }
}

/// Whether a sequence of values consists of numbers alone, and those numbers
/// in order if so.
pub open spec fn numbers_of(items: Seq<JsonV>) -> Option<Seq<Number>>
    decreases items.len(),
{
    if items.len() == 0 {
        Some(Seq::empty())
    } else {
        match items[0] {
            JsonV::Number(n) => match numbers_of(items.skip(1)) {
                Some(rest) => Some(seq![n] + rest),
                None => None,
            },
            _ => None,
        }
    }
}

/// `numbers_of` succeeds exactly on all-number sequences, and then returns
/// the numbers pointwise.
pub proof fn lemma_numbers_of(items: Seq<JsonV>)
    ensures
        (numbers_of(items) is Some) <==> (forall|j: int|
            0 <= j < items.len() ==> items[j] is Number),
        numbers_of(items) matches Some(ns) ==> ns.len() == items.len() && forall|j: int|
            0 <= j < items.len() ==> #[trigger] ns[j] == items[j]->Number_0,
    decreases items.len(),
{
    if items.len() > 0 {
        let rest = items.skip(1);
        lemma_numbers_of(rest);
        assert forall|j: int| 0 <= j < rest.len() implies #[trigger] rest[j] == items[j + 1] by {}
        if forall|j: int| 0 <= j < items.len() ==> items[j] is Number {
            assert(items[0] is Number);
            assert forall|j: int| 0 <= j < rest.len() implies rest[j] is Number by {
                assert(rest[j] == items[j + 1]);
            }
            assert(numbers_of(rest) is Some);
        }
        if numbers_of(items) is Some {
            assert(items[0] is Number);
            assert(numbers_of(rest) is Some);
            let ns = numbers_of(items)->0;
            let rest_ns = numbers_of(rest)->0;
            assert(ns == seq![items[0]->Number_0] + rest_ns);
            assert forall|j: int| 0 <= j < items.len() implies #[trigger] items[j] is Number by {
                if j > 0 {
                    assert(rest[j - 1] == items[j]);
                }
            }
            assert forall|j: int| 0 <= j < items.len() implies #[trigger] ns[j]
                == items[j]->Number_0 by {
                if j > 0 {
                    assert(rest[j - 1] == items[j]);
                    assert(ns[j] == rest_ns[j - 1]);
                }
            }
        }
    }
}

impl JsonOps {
    /// Reads a value as a byte buffer: an array whose elements are all
    /// numbers, each converted to a byte.
    #[verifier::loop_isolation(false)]
    pub fn get_byte_buffer(&self, input: JsonValue) -> (r: DataResult<Vec<i8>>)
        ensures
            r.deep_view() == self.get_byte_buffer_spec(input.view_of()),
    {
        let ghost iv0 = input.view_of();
        let snapshot = input.clone();
        proof {
            assert(snapshot.view_of() == iv0);
        }
        match input {
            JsonValue::Arr(items) => {
                proof {
                    lemma_arr_view_index(items@);
                    lemma_numbers_of(arr_view(items@));
                }
                let ghost iv = arr_view(items@);
                let mut out: Vec<i8> = Vec::new();
                let mut i: usize = 0;
                while i < items.len()
                    invariant
                        i <= items.len(),
                        out@.len() == i,
                        iv == arr_view(items@),
                        iv.len() == items@.len(),
                        forall|j: int| 0 <= j < items@.len() ==> iv[j] == items@[j].view_of(),
                        forall|j: int| 0 <= j < i ==> iv[j] is Number,
                        forall|j: int|
                            0 <= j < i ==> #[trigger] out@[j] == iv[j]->Number_0.to_i8_spec(),
                    decreases items.len() - i,
                {
                    match &items[i] {
                        JsonValue::Number(n) => out.push(n.to_i8()),
                        _ => {
                            proof {
                                assert(!(iv[i as int] is Number));
                            }
                            return error_naming("Some elements are not bytes: ", &snapshot);
                        },
                    }
                    i += 1;
                }
                proof {
                    let ns = numbers_of(iv)->0;
                    assert(out.deep_view() =~= ns.map_values(|n: Number| n.to_i8_spec()));
                }
                DataResult::success(out)
            },
            other => {
                proof {
                    crate::json::lemma_view_variants(&other);
                }
                error_naming("Not a JSON array: ", &other)
            },
        }
    }

    /// What reading a byte buffer returns: the bytes of an all-number array,
    /// and an error otherwise.
    pub open spec fn get_byte_buffer_spec(self, v: JsonV) -> DataResultV<Seq<i8>> {
        match v {
            JsonV::Arr(items) => match numbers_of(items) {
                Some(ns) => success_v(ns.map_values(|n: Number| n.to_i8_spec())),
                None => error_v("Some elements are not bytes: "@ + crate::json::display_of(v)),
            },
            _ => error_v("Not a JSON array: "@ + crate::json::display_of(v)),
        }
    }

    /// Reads a value as an int list: an array whose elements are all
    /// numbers, each converted to an int.
    #[verifier::loop_isolation(false)]
    pub fn get_int_list(&self, input: JsonValue) -> (r: DataResult<Vec<i32>>)
        ensures
            r.deep_view() == self.get_int_list_spec(input.view_of()),
    {
        let ghost iv0 = input.view_of();
        let snapshot = input.clone();
        proof {
            assert(snapshot.view_of() == iv0);
        }
        match input {
            JsonValue::Arr(items) => {
                proof {
                    lemma_arr_view_index(items@);
                    lemma_numbers_of(arr_view(items@));
                }
                let ghost iv = arr_view(items@);
                let mut out: Vec<i32> = Vec::new();
                let mut i: usize = 0;
                while i < items.len()
                    invariant
                        i <= items.len(),
                        out@.len() == i,
                        iv == arr_view(items@),
                        iv.len() == items@.len(),
                        forall|j: int| 0 <= j < items@.len() ==> iv[j] == items@[j].view_of(),
                        forall|j: int| 0 <= j < i ==> iv[j] is Number,
                        forall|j: int|
                            0 <= j < i ==> #[trigger] out@[j] == iv[j]->Number_0.to_i32_spec(),
                    decreases items.len() - i,
                {
                    match &items[i] {
                        JsonValue::Number(n) => out.push(n.to_i32()),
                        _ => {
                            proof {
                                assert(!(iv[i as int] is Number));
                            }
                            return error_naming("Some elements are not ints: ", &snapshot);
                        },
                    }
                    i += 1;
                }
                proof {
                    let ns = numbers_of(iv)->0;
                    assert(out.deep_view() =~= ns.map_values(|n: Number| n.to_i32_spec()));
                }
                DataResult::success(out)
            },
            other => {
                proof {
                    crate::json::lemma_view_variants(&other);
                }
                error_naming("Not a JSON array: ", &other)
            },
        }
    }

    /// What reading an int list returns.
    pub open spec fn get_int_list_spec(self, v: JsonV) -> DataResultV<Seq<i32>> {
        match v {
            JsonV::Arr(items) => match numbers_of(items) {
                Some(ns) => success_v(ns.map_values(|n: Number| n.to_i32_spec())),
                None => error_v("Some elements are not ints: "@ + crate::json::display_of(v)),
            },
            _ => error_v("Not a JSON array: "@ + crate::json::display_of(v)),
        }
    }

    /// Reads a value as a long list: an array whose elements are all
    /// numbers, each converted to a long.
    #[verifier::loop_isolation(false)]
    pub fn get_long_list(&self, input: JsonValue) -> (r: DataResult<Vec<i64>>)
        ensures
            r.deep_view() == self.get_long_list_spec(input.view_of()),
    {
        let ghost iv0 = input.view_of();
        let snapshot = input.clone();
        proof {
            assert(snapshot.view_of() == iv0);
        }
        match input {
            JsonValue::Arr(items) => {
                proof {
                    lemma_arr_view_index(items@);
                    lemma_numbers_of(arr_view(items@));
                }
                let ghost iv = arr_view(items@);
                let mut out: Vec<i64> = Vec::new();
                let mut i: usize = 0;
                while i < items.len()
                    invariant
                        i <= items.len(),
                        out@.len() == i,
                        iv == arr_view(items@),
                        iv.len() == items@.len(),
                        forall|j: int| 0 <= j < items@.len() ==> iv[j] == items@[j].view_of(),
                        forall|j: int| 0 <= j < i ==> iv[j] is Number,
                        forall|j: int|
                            0 <= j < i ==> #[trigger] out@[j] == iv[j]->Number_0.to_i64_spec(),
                    decreases items.len() - i,
                {
                    match &items[i] {
                        JsonValue::Number(n) => out.push(n.to_i64()),
                        _ => {
                            proof {
                                assert(!(iv[i as int] is Number));
                            }
                            return error_naming("Some elements are not longs: ", &snapshot);
                        },
                    }
                    i += 1;
                }
                proof {
                    let ns = numbers_of(iv)->0;
                    assert(out.deep_view() =~= ns.map_values(|n: Number| n.to_i64_spec()));
                }
                DataResult::success(out)
            },
            other => {
                proof {
                    crate::json::lemma_view_variants(&other);
                }
                error_naming("Not a JSON array: ", &other)
            },
        }
    }

    /// What reading a long list returns.
    pub open spec fn get_long_list_spec(self, v: JsonV) -> DataResultV<Seq<i64>> {
        match v {
            JsonV::Arr(items) => match numbers_of(items) {
                Some(ns) => success_v(ns.map_values(|n: Number| n.to_i64_spec())),
                None => error_v("Some elements are not longs: "@ + crate::json::display_of(v)),
            },
            _ => error_v("Not a JSON array: "@ + crate::json::display_of(v)),
        }
    }

    /// Creates a list of byte values from a byte buffer.
    pub fn create_byte_buffer(&self, buffer: Vec<i8>) -> (r: JsonValue)
        ensures
            r.view_of() == JsonV::Arr(
                Seq::new(buffer@.len(), |i: int| JsonV::Number(Number::Byte(buffer@[i]))),
            ),
    {
        let mut out: Vec<JsonValue> = Vec::new();
        let mut i: usize = 0;
        while i < buffer.len()
            invariant
                i <= buffer.len(),
                out@.len() == i,
                forall|j: int|
                    0 <= j < i ==> #[trigger] out@[j].view_of() == JsonV::Number(
                        Number::Byte(buffer@[j]),
                    ),
            decreases buffer.len() - i,
        {
            out.push(JsonValue::Number(Number::Byte(buffer[i])));
            i += 1;
        }
        proof {
            lemma_arr_view_index(out@);
            assert(arr_view(out@) =~= Seq::new(
                buffer@.len(),
                |i: int| JsonV::Number(Number::Byte(buffer@[i])),
            ));
        }
        JsonValue::Arr(out)
    }

    /// Creates a list of int values.
    pub fn create_int_list(&self, list: Vec<i32>) -> (r: JsonValue)
        ensures
            r.view_of() == JsonV::Arr(
                Seq::new(list@.len(), |i: int| JsonV::Number(Number::Int(list@[i]))),
            ),
    {
        let mut out: Vec<JsonValue> = Vec::new();
        let mut i: usize = 0;
        while i < list.len()
            invariant
                i <= list.len(),
                out@.len() == i,
                forall|j: int|
                    0 <= j < i ==> #[trigger] out@[j].view_of() == JsonV::Number(
                        Number::Int(list@[j]),
                    ),
            decreases list.len() - i,
        {
            out.push(JsonValue::Number(Number::Int(list[i])));
            i += 1;
        }
        proof {
            lemma_arr_view_index(out@);
            assert(arr_view(out@) =~= Seq::new(
                list@.len(),
                |i: int| JsonV::Number(Number::Int(list@[i])),
            ));
        }
        JsonValue::Arr(out)
    }

    /// Creates a list of long values.
    pub fn create_long_list(&self, list: Vec<i64>) -> (r: JsonValue)
        ensures
            r.view_of() == JsonV::Arr(
                Seq::new(list@.len(), |i: int| JsonV::Number(Number::Long(list@[i]))),
            ),
    {
        let mut out: Vec<JsonValue> = Vec::new();
        let mut i: usize = 0;
        while i < list.len()
            invariant
                i <= list.len(),
                out@.len() == i,
                forall|j: int|
                    0 <= j < i ==> #[trigger] out@[j].view_of() == JsonV::Number(
                        Number::Long(list@[j]),
                    ),
            decreases list.len() - i,
        {
            out.push(JsonValue::Number(Number::Long(list[i])));
            i += 1;
        }
        proof {
            lemma_arr_view_index(out@);
            assert(arr_view(out@) =~= Seq::new(
                list@.len(),
                |i: int| JsonV::Number(Number::Long(list@[i])),
            ));
        }
        JsonValue::Arr(out)
    }

    /// Merges a value into a list: valid when `list` is an actual list or
    /// the empty value.
    pub fn merge_into_list(&self, list: JsonValue, value: JsonValue) -> (r: DataResult<JsonValue>)
        ensures
            r.deep_view() == self.merge_into_list_spec(list.view_of(), value.view_of()),
    {
        match list {
            JsonValue::Null => {
                let mut items: Vec<JsonValue> = Vec::new();
                items.push(value);
                proof {
                    lemma_arr_view_index(items@);
                    assert(arr_view(items@) =~= Seq::empty().push(items@[0].view_of()));
                }
                DataResult::success(JsonValue::Arr(items))
            },
            JsonValue::Arr(items) => {
                let ghost old_items = items@;
                let mut items = items;
                items.push(value);
                proof {
                    lemma_arr_view_index(items@);
                    lemma_arr_view_index(old_items);
                    assert(arr_view(items@) =~= arr_view(old_items).push(
                        items@.last().view_of(),
                    ));
                }
                DataResult::success(JsonValue::Arr(items))
            },
            other => error_partial_naming("merge_into_list called with not a list: ", other),
        }
    }

    /// What merging a value into a list returns: the extended list, or an
    /// error keeping the original value as a partial result.
    pub open spec fn merge_into_list_spec(self, l: JsonV, v: JsonV) -> DataResultV<JsonV> {
        match l {
            JsonV::Null => success_v(JsonV::Arr(Seq::empty().push(v))),
            JsonV::Arr(items) => success_v(JsonV::Arr(items.push(v))),
            _ => error_partial_v(
                "merge_into_list called with not a list: "@ + crate::json::display_of(l),
                l,
            ),
        }
    }

    /// Merges several values into a list: valid when `list` is an actual
    /// list or the empty value.
    #[verifier::loop_isolation(false)]
    pub fn merge_values_into_list(&self, list: JsonValue, values: Vec<JsonValue>) -> (r: DataResult<
        JsonValue,
    >)
        ensures
            r.deep_view() == self.merge_values_into_list_spec(list.view_of(), arr_view(values@)),
    {
        let mut base: Vec<JsonValue> = match list {
            JsonValue::Null => Vec::new(),
            JsonValue::Arr(items) => items,
            other => {
                return error_partial_naming("merge_values_into_list called with not a list: ", other);
            },
        };
        let ghost base0 = base@;
        let mut i: usize = 0;
        let ghost vs = arr_view(values@);
        proof {
            lemma_arr_view_index(values@);
        }
        while i < values.len()
            invariant
                i <= values.len(),
                base@.len() == base0.len() + i,
                forall|j: int|
                    0 <= j < base0.len() ==> #[trigger] base@[j].view_of()
                        == base0[j].view_of(),
                vs == arr_view(values@),
                vs.len() == values@.len(),
                forall|j: int| 0 <= j < values@.len() ==> vs[j] == values@[j].view_of(),
                forall|j: int|
                    0 <= j < i ==> #[trigger] base@[base0.len() + j].view_of() == vs[j],
            decreases values.len() - i,
        {
            let v = values[i].clone();
            base.push(v);
            i += 1;
        }
        proof {
            lemma_arr_view_index(base@);
            lemma_arr_view_index(base0);
            assert forall|k: int| 0 <= k < base@.len() implies arr_view(base@)[k] == (arr_view(
                base0,
            ) + vs)[k] by {
                if k < base0.len() {
                    assert(base@[k].view_of() == base0[k].view_of());
                } else {
                    let j = k - base0.len();
                    assert(base@[base0.len() + j].view_of() == vs[j]);
                }
            }
            assert(arr_view(base@) =~= arr_view(base0) + vs);
        }
        DataResult::success(JsonValue::Arr(base))
    }

    /// What merging several values into a list returns.
    pub open spec fn merge_values_into_list_spec(self, l: JsonV, vs: Seq<JsonV>) -> DataResultV<
        JsonV,
    > {
        match l {
            JsonV::Null => success_v(JsonV::Arr(Seq::empty() + vs)),
            JsonV::Arr(items) => success_v(JsonV::Arr(items + vs)),
            _ => error_partial_v(
                "merge_values_into_list called with not a list: "@ + crate::json::display_of(l),
                l,
            ),
        }
    }

    /// Whether a value may serve as a map key: it must read as a string, and
    /// an uncompressed adapter insists on an actual string.
    pub open spec fn key_ok(self, k: JsonV) -> bool {
        (k is Str || self.compressed) && json_as_chars(k) is Some
    }

    /// Merges a key-value pair into a map: valid when `map` is an actual map
    /// or the empty value, and the key is acceptable (see
    /// [`JsonOps::key_ok`]).
    pub fn merge_into_map(&self, map: JsonValue, key: JsonValue, value: JsonValue) -> (r:
        DataResult<JsonValue>)
        ensures
            r.deep_view() == self.merge_into_map_spec(
                map.view_of(),
                key.view_of(),
                value.view_of(),
            ),
    {
        let mut entries: Vec<(String, JsonValue)> = match map {
            JsonValue::Null => Vec::new(),
            JsonValue::Obj(entries) => entries,
            other => {
                return error_partial_naming("merge_into_map called with not a map: ", other);
            },
        };
        let key_valid = match &key {
            JsonValue::Str(_) => true,
            _ => self.compressed,
        };
        let key_str = if key_valid {
            Self::get_as_string(&key)
        } else {
            None
        };
        match key_str {
            Some(k) => {
                put_entry(&mut entries, k, value);
                DataResult::success(JsonValue::Obj(entries))
            },
            None => {
                let mut m = String::from_str("key is not a string: ");
                m.append(crate::json::render_value(&key).as_str());
                DataResult::error_partial(m, JsonValue::Obj(entries))
            },
        }
    }

    /// What merging a key-value pair into a map returns: the map with the
    /// entry inserted (replacing an entry with the same key in place), or an
    /// error keeping the map as a partial result.
    pub open spec fn merge_into_map_spec(self, m: JsonV, k: JsonV, v: JsonV) -> DataResultV<JsonV> {
        match m {
            JsonV::Null => self.merge_entry_spec(Seq::empty(), k, v),
            JsonV::Obj(entries) => self.merge_entry_spec(entries, k, v),
            _ => error_partial_v(
                "merge_into_map called with not a map: "@ + crate::json::display_of(m),
                m,
            ),
        }
    }

    /// The insertion step shared by the map merges.
    pub open spec fn merge_entry_spec(
        self,
        entries: Seq<(Seq<char>, JsonV)>,
        k: JsonV,
        v: JsonV,
    ) -> DataResultV<JsonV> {
        if self.key_ok(k) {
            success_v(JsonV::Obj(obj_insert(entries, json_as_chars(k)->0, v)))
        } else {
            error_partial_v(
                "key is not a string: "@ + crate::json::display_of(k),
                JsonV::Obj(entries),
            )
        }
    }

    /// The fold that merges key-value pairs into a map one by one, chaining
    /// each step through the accumulated result as `flat_map` would.
    pub open spec fn merge_entries_fold(
        self,
        acc: DataResultV<JsonV>,
        pairs: Seq<(JsonV, JsonV)>,
    ) -> DataResultV<JsonV>
        decreases pairs.len(),
    {
        if pairs.len() == 0 {
            acc
        } else {
            let step = match acc.value_of() {
                Some(m) => acc.flat_map_step(self.merge_into_map_spec(m, pairs[0].0, pairs[0].1)),
                None => acc,
            };
            self.merge_entries_fold(step, pairs.skip(1))
        }
    }

    /// Merges key-value pairs into a map one by one: each step requires the
    /// running value to still be a map and its key to be acceptable, and the
    /// errors of failing steps accumulate.
    pub fn merge_entries_into_map(&self, map: JsonValue, entries: Vec<(JsonValue, JsonValue)>) -> (r:
        DataResult<JsonValue>)
        ensures
            r.deep_view() == self.merge_entries_fold(
                success_v(map.view_of()),
                pair_views(entries@),
            ),
    {
        let ghost pairs = pair_views(entries@);
        let ghost goal = self.merge_entries_fold(success_v(map.view_of()), pairs);
        let mut acc: DataResult<JsonValue> = DataResult::success(map);
        let mut i: usize = 0;
        proof {
            assert(pairs.skip(0) =~= pairs);
        }
        while i < entries.len()
            invariant
                i <= entries.len(),
                pairs == pair_views(entries@),
                pairs.len() == entries@.len(),
                forall|j: int|
                    0 <= j < entries@.len() ==> pairs[j] == (
                        entries@[j].0.view_of(),
                        entries@[j].1.view_of(),
                    ),
                self.merge_entries_fold(acc.deep_view(), pairs.skip(i as int)) == goal,
            decreases entries.len() - i,
        {
            let ghost acc0 = acc.deep_view();
            let k = entries[i].0.clone();
            let v = entries[i].1.clone();
            acc = match acc {
                DataResult::Success { result: m, lifecycle } => self.merge_into_map(
                    m,
                    k,
                    v,
                ).add_lifecycle(lifecycle),
                DataResult::Error { partial_result: Some(m), lifecycle, message } => {
                    let second = self.merge_into_map(m, k, v);
                    let combined = second.lifecycle().add(lifecycle);
                    match second {
                        DataResult::Success { result, .. } => DataResult::Error {
                            partial_result: Some(result),
                            message,
                            lifecycle: combined,
                        },
                        DataResult::Error { partial_result, message: second_message, .. } => DataResult::Error {
                            partial_result,
                            message: DataResult::<JsonValue>::append_messages(
                                message.as_str(),
                                second_message.as_str(),
                            ),
                            lifecycle: combined,
                        },
                    }
                },
                DataResult::Error { partial_result: None, lifecycle, message } => DataResult::Error {
                    partial_result: None,
                    lifecycle,
                    message,
                },
            };
            proof {
                let pv = pairs.skip(i as int);
                assert(pv[0] == pairs[i as int]);
                assert(pv.skip(1) =~= pairs.skip(i + 1));
                assert(acc.deep_view() == match acc0.value_of() {
                    Some(m) => acc0.flat_map_step(self.merge_into_map_spec(m, pv[0].0, pv[0].1)),
                    None => acc0,
                });
            }
            i += 1;
        }
        proof {
            assert(pairs.skip(entries@.len() as int) =~= Seq::<(JsonV, JsonV)>::empty());
        }
        acc
    }

    /// Inserts each of a map view's entries into object entries, in order.
    pub open spec fn obj_insert_all(
        es: Seq<(Seq<char>, JsonV)>,
        pairs: Seq<(Seq<char>, JsonV)>,
    ) -> Seq<(Seq<char>, JsonV)>
        decreases pairs.len(),
    {
        if pairs.len() == 0 {
            es
        } else {
            Self::obj_insert_all(obj_insert(es, pairs[0].0, pairs[0].1), pairs.skip(1))
        }
    }

    /// Merges the entries of a map view into a map: valid when `map` is an
    /// actual map or the empty value. Every key of a map view is a string,
    /// so each entry lands.
    #[verifier::loop_isolation(false)]
    pub fn merge_map_like_into_map(&self, map: JsonValue, other: &MapLike) -> (r: DataResult<
        JsonValue,
    >)
        ensures
            r.deep_view() == self.merge_map_like_spec(map.view_of(), other.entries_of()),
    {
        let mut entries: Vec<(String, JsonValue)> = match map {
            JsonValue::Null => Vec::new(),
            JsonValue::Obj(entries) => entries,
            other_value => {
                return error_partial_naming(
                    "merge_map_like_into_map called with not a map: ",
                    other_value,
                );
            },
        };
        let ghost base = obj_view(entries@);
        let ghost pairs = other.entries_of();
        let others = other.entries();
        let mut i: usize = 0;
        proof {
            assert(pairs.skip(0) =~= pairs);
        }
        while i < others.len()
            invariant
                i <= others.len(),
                pairs == other.entries_of(),
                others@.len() == pairs.len(),
                forall|j: int|
                    0 <= j < others@.len() ==> #[trigger] others@[j].0.view_of() == JsonV::Str(
                        pairs[j].0,
                    ) && others@[j].1.view_of() == pairs[j].1,
                Self::obj_insert_all(obj_view(entries@), pairs.skip(i as int))
                    == Self::obj_insert_all(base, pairs),
            decreases others.len() - i,
        {
            let ghost before = obj_view(entries@);
            proof {
                crate::json::lemma_view_str_variant(others@[i as int].0);
            }
            let key = match &others[i].0 {
                JsonValue::Str(s) => s.clone(),
                _ => vstd::pervasive::unreached(),
            };
            let value = others[i].1.clone();
            put_entry(&mut entries, key, value);
            proof {
                let pv = pairs.skip(i as int);
                assert(pv[0] == pairs[i as int]);
                assert(pv.skip(1) =~= pairs.skip(i + 1));
                assert(obj_view(entries@) == obj_insert(before, pv[0].0, pv[0].1));
            }
            i += 1;
        }
        proof {
            assert(pairs.skip(others@.len() as int) =~= Seq::<(Seq<char>, JsonV)>::empty());
        }
        DataResult::success(JsonValue::Obj(entries))
    }

    /// What merging a map view into a map returns: the map with every entry
    /// of the view inserted in order, or an error keeping the original value
    /// as a partial result.
    pub open spec fn merge_map_like_spec(
        self,
        m: JsonV,
        pairs: Seq<(Seq<char>, JsonV)>,
    ) -> DataResultV<JsonV> {
        match m {
            JsonV::Null => success_v(JsonV::Obj(Self::obj_insert_all(Seq::empty(), pairs))),
            JsonV::Obj(es) => success_v(JsonV::Obj(Self::obj_insert_all(es, pairs))),
            _ => error_partial_v(
                "merge_map_like_into_map called with not a map: "@ + crate::json::display_of(m),
                m,
            ),
        }
    }

    /// Removes every entry with the given key from a map value; any other
    /// value is returned unchanged.
    pub fn remove(&self, input: JsonValue, key: &str) -> (r: JsonValue)
        ensures
            r.view_of() == match input.view_of() {
                JsonV::Obj(entries) => JsonV::Obj(crate::json::obj_remove(entries, key@)),
                other => other,
            },
    {
        match input {
            JsonValue::Obj(entries) => {
                let ghost old_entries = obj_view(entries@);
                proof {
                    crate::json::lemma_obj_view_index(entries@);
                }
                let mut out: Vec<(String, JsonValue)> = Vec::new();
                let mut i: usize = 0;
                proof {
                    assert(old_entries.skip(0) =~= old_entries);
                    assert(obj_view(out@) =~= Seq::empty());
                }
                while i < entries.len()
                    invariant
                        i <= entries.len(),
                        old_entries == obj_view(entries@),
                        old_entries.len() == entries@.len(),
                        forall|j: int|
                            0 <= j < entries@.len() ==> #[trigger] old_entries[j] == (
                                entries@[j].0@,
                                entries@[j].1.view_of(),
                            ),
                        obj_view(out@) + crate::json::obj_remove(
                            old_entries.skip(i as int),
                            key@,
                        ) =~= crate::json::obj_remove(old_entries, key@),
                    decreases entries.len() - i,
                {
                    let ghost old_out = out@;
                    let keep = !str_eq(entries[i].0.as_str(), key);
                    if keep {
                        out.push((entries[i].0.clone(), entries[i].1.clone()));
                    }
                    proof {
                        let ov = old_entries.skip(i as int);
                        assert(ov[0] == old_entries[i as int]);
                        assert(ov.skip(1) =~= old_entries.skip(i + 1));
                        crate::json::lemma_obj_view_index(out@);
                        crate::json::lemma_obj_view_index(old_out);
                        if keep {
                            assert(obj_view(out@) =~= obj_view(old_out) + seq![
                                (out@.last().0@, out@.last().1.view_of()),
                            ]);
                        }
                        assert(obj_view(out@) + crate::json::obj_remove(
                            old_entries.skip(i + 1),
                            key@,
                        ) =~= crate::json::obj_remove(old_entries, key@));
                    }
                    i += 1;
                }
                proof {
                    assert(crate::json::obj_remove(
                        old_entries.skip(entries@.len() as int),
                        key@,
                    ) =~= Seq::empty());
                    assert(obj_view(out@) =~= crate::json::obj_remove(old_entries, key@));
                }
                JsonValue::Obj(out)
            },
            other => other,
        }
    }

    /// Merges a value into a primitive prefix: this succeeds only when the
    /// prefix is the empty value.
    pub fn merge_into_primitive(&self, prefix: JsonValue, value: JsonValue) -> (r: DataResult<
        JsonValue,
    >)
        ensures
            r.deep_view() == self.merge_into_primitive_spec(prefix.view_of(), value.view_of()),
    {
        match prefix {
            JsonValue::Null => DataResult::success(value),
            other => {
                let mut m = String::from_str("Do not know how to append a primitive value ");
                m.append(crate::json::render_value(&value).as_str());
                m.append(" to ");
                m.append(crate::json::render_value(&other).as_str());
                DataResult::error(m)
            },
        }
    }

    /// What merging into a primitive prefix returns: the value itself over
    /// an empty prefix, and otherwise an error naming the value and the
    /// prefix.
    pub open spec fn merge_into_primitive_spec(self, prefix: JsonV, v: JsonV) -> DataResultV<
        JsonV,
    > {
        if prefix is Null {
            success_v(v)
        } else {
            error_v(
                "Do not know how to append a primitive value "@ + crate::json::display_of(v)
                    + " to "@ + crate::json::display_of(prefix),
            )
        }
    }
}

/// Replaces the first entry with the given key in place, or appends the
/// entry when the key is absent.
#[verifier::loop_isolation(false)]
fn put_entry(entries: &mut Vec<(String, JsonValue)>, key: String, value: JsonValue)
    ensures
        obj_view(final(entries)@) == obj_insert(obj_view(old(entries)@), key@, value.view_of()),
{
    proof {
        crate::json::lemma_obj_view_index(entries@);
    }
    let ghost old_entries = obj_view(entries@);
    let mut i: usize = 0;
    while i < entries.len()
        invariant
            i <= entries@.len(),
            old_entries == obj_view(entries@),
            old_entries.len() == entries@.len(),
            forall|j: int|
                0 <= j < entries@.len() ==> #[trigger] old_entries[j] == (
                    entries@[j].0@,
                    entries@[j].1.view_of(),
                ),
            forall|j: int| 0 <= j < i ==> old_entries[j].0 != key@,
        decreases entries@.len() - i,
    {
        if str_eq(entries[i].0.as_str(), key.as_str()) {
            proof {
                crate::json::lemma_obj_insert_found(old_entries, key@, value.view_of(), i as int);
            }
            entries.set(i, (key, value));
            proof {
                crate::json::lemma_obj_view_index(entries@);
                assert(obj_view(entries@) =~= old_entries.update(
                    i as int,
                    (key@, value.view_of()),
                ));
            }
            return ;
        }
        i += 1;
    }
    proof {
        crate::json::lemma_obj_insert_missing(old_entries, key@, value.view_of());
    }
    entries.push((key, value));
    proof {
        crate::json::lemma_obj_view_index(entries@);
        assert(obj_view(entries@) =~= old_entries.push((key@, value.view_of())));
    }
}

/// The trees a list of key-value pairs models.
pub open spec fn pair_views(s: Seq<(JsonValue, JsonValue)>) -> Seq<(JsonV, JsonV)> {
    Seq::new(s.len(), |i: int| (s[i].0.view_of(), s[i].1.view_of()))
}

/// The object entries built from dynamic key-value pairs: a pair whose key
/// reads as a string becomes an entry; other pairs are dropped.
pub open spec fn create_map_entries(s: Seq<(JsonV, JsonV)>) -> Seq<(Seq<char>, JsonV)>
    decreases s.len(),
{
    if s.len() == 0 {
        Seq::empty()
    } else {
        match json_as_chars(s[0].0) {
            Some(k) => seq![(k, s[0].1)] + create_map_entries(s.skip(1)),
            None => create_map_entries(s.skip(1)),
        }
    }
}

} // verus!
