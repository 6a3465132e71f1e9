use crate::json::JsonValue;
use crate::struct_builder::{compress_key_spec, key_index, lemma_key_index_first,
    lemma_key_index_none};
use crate::text::str_eq;
use vstd::prelude::*;

verus! {

/// The character sequences of a sequence of strings, in order.
pub open spec fn str_views(keys: Seq<String>) -> Seq<Seq<char>> {
    Seq::new(keys.len(), |i: int| keys[i]@)
}

/// Folds keys into an accumulator, keeping the first occurrence of each key
/// and dropping later duplicates.
pub open spec fn dedup_keys_from(acc: Seq<Seq<char>>, keys: Seq<Seq<char>>) -> Seq<Seq<char>>
    decreases keys.len(),
{
    if keys.len() == 0 {
        acc
    } else if acc.contains(keys[0]) {
        dedup_keys_from(acc, keys.skip(1))
    } else {
        dedup_keys_from(acc.push(keys[0]), keys.skip(1))
    }
}

/// The distinct keys of a key list, each at the position of its first
/// occurrence.
pub open spec fn dedup_keys(keys: Seq<Seq<char>>) -> Seq<Seq<char>> {
    dedup_keys_from(Seq::empty(), keys)
}

/// A table that compresses the keys of a fixed-schema map into small indexes
/// (making a kind of list) and back. Each distinct key receives the index of
/// its first occurrence in the key list the table was built from.
pub struct KeyCompressor {
    keys: Vec<String>,
}

impl KeyCompressor {
    /// The compressed key table: position `i` holds the key that compresses
    /// to index `i`.
    pub closed spec fn keys_of(self) -> Seq<Seq<char>> {
        str_views(self.keys@)
    }

    /// The table holds each key at most once.
    pub open spec fn wf(self) -> bool {
        forall|i: int, j: int|
            0 <= i < j < self.keys_of().len() ==> self.keys_of()[i] != self.keys_of()[j]
    }

    /// Builds a compressor from a key list; the first occurrence of each key
    /// wins its index, assigned in insertion order.
    pub fn of_keys(keys: &Vec<String>) -> (r: Self)
        ensures
            r.keys_of() == dedup_keys(str_views(keys@)),
            r.wf(),
    {
        let mut table: Vec<String> = Vec::new();
        let mut i: usize = 0;
        proof {
            assert(str_views(keys@).skip(0) =~= str_views(keys@));
            assert(str_views(table@) =~= Seq::<Seq<char>>::empty());
        }
        while i < keys.len()
            invariant
                i <= keys.len(),
                dedup_keys_from(str_views(table@), str_views(keys@).skip(i as int)) == dedup_keys(
                    str_views(keys@),
                ),
                forall|p: int, q: int|
                    0 <= p < q < table@.len() ==> str_views(table@)[p] != str_views(table@)[q],
            decreases keys.len() - i,
        {
            let ghost old_table = table@;
            let present = Self::contains_key(&table, keys[i].as_str());
            if !present {
                table.push(keys[i].clone());
            }
            proof {
                let kv = str_views(keys@).skip(i as int);
                assert(kv[0] == keys@[i as int]@);
                assert(kv.skip(1) =~= str_views(keys@).skip(i + 1));
                if present {
                    assert(str_views(table@).contains(kv[0]));
                } else {
                    assert(str_views(table@) =~= str_views(old_table).push(kv[0]));
                }
            }
            i += 1;
        }
        KeyCompressor { keys: table }
    }

    /// Whether a key is already in the table.
    fn contains_key(table: &Vec<String>, key: &str) -> (r: bool)
        ensures
            r == str_views(table@).contains(key@),
    {
        let mut i: usize = 0;
        while i < table.len()
            invariant
                i <= table.len(),
                forall|j: int| 0 <= j < i ==> str_views(table@)[j] != key@,
            decreases table.len() - i,
        {
            if str_eq(table[i].as_str(), key) {
                proof {
                    assert(str_views(table@)[i as int] == key@);
                }
                return true;
            }
            i += 1;
        }
        proof {
            assert forall|j: int| 0 <= j < str_views(table@).len() implies str_views(table@)[j]
                != key@ by {}
        }
        false
    }

    /// Gets the compressed index of a string key, if the key is in the table.
    /// The index of a key is its first position in the table.
    pub fn compress_key_str(&self, key: &str) -> (r: Option<usize>)
        ensures
            match r {
                Some(i) => i < self.keys_of().len() && self.keys_of()[i as int] == key@
                    && key_index(self.keys_of(), key@) == Some(i as int),
                None => !self.keys_of().contains(key@) && key_index(self.keys_of(), key@)
                    is None,
            },
    {
        let mut i: usize = 0;
        while i < self.keys.len()
            invariant
                i <= self.keys.len(),
                forall|j: int| 0 <= j < i ==> str_views(self.keys@)[j] != key@,
            decreases self.keys.len() - i,
        {
            if str_eq(self.keys[i].as_str(), key) {
                proof {
                    assert(str_views(self.keys@)[i as int] == key@);
                    lemma_key_index_first(self.keys_of(), key@, i as int);
                }
                return Some(i);
            }
            i += 1;
        }
        proof {
            assert forall|j: int| 0 <= j < self.keys_of().len() implies self.keys_of()[j]
                != key@ by {}
            lemma_key_index_none(self.keys_of(), key@);
        }
        None
    }

    /// Gets the compressed index of a dynamic key: the key must read as a
    /// string under the adapter, and that string must be in the table.
    pub fn compress_key(&self, key: &JsonValue, ops: &crate::json_ops::JsonOps) -> (r: Option<
        usize,
    >)
        ensures
            compress_key_spec(self.keys_of(), *ops, key.view_of()) == (match r {
                Some(i) => Some(i as int),
                None => None::<int>,
            }),
    {
        match ops.get_string(key) {
            crate::data_result::DataResult::Success { result, .. } => self.compress_key_str(
                result.as_str(),
            ),
            crate::data_result::DataResult::Error { .. } => None,
        }
    }

    /// Gets the decompressed string key of an index, if the index is in
    /// range.
    pub fn decompress_key_str(&self, key: usize) -> (r: Option<String>)
        ensures
            match r {
                Some(s) => key < self.keys_of().len() && s@ == self.keys_of()[key as int],
                None => key >= self.keys_of().len(),
            },
    {
        if key < self.keys.len() {
            Some(self.keys[key].clone())
        } else {
            None
        }
    }

    /// Gets the decompressed key of an index as a dynamic string value.
    pub fn decompress_key(&self, key: usize) -> (r: Option<JsonValue>)
        ensures
            match r {
                Some(v) => key < self.keys_of().len() && v.view_of() == crate::json::JsonV::Str(
                    self.keys_of()[key as int],
                ),
                None => key >= self.keys_of().len(),
            },
    {
        match self.decompress_key_str(key) {
            Some(s) => Some(JsonValue::Str(s)),
            None => None,
        }
    }

    /// Returns the number of distinct keys in the table.
    pub fn size(&self) -> (r: usize)
        ensures
            r == self.keys_of().len(),
    {
        self.keys.len()
    }
}

} // verus!
