use crate::json::{obj_get, obj_view, JsonV, JsonValue};
use crate::key_compressor::KeyCompressor;
use vstd::prelude::*;

verus! {

/// No entry before `j` holds the key, and entry `j` does: then the lookup
/// finds entry `j`.
pub proof fn lemma_obj_get_first(s: Seq<(Seq<char>, JsonV)>, key: Seq<char>, j: int)
    requires
        0 <= j < s.len(),
        s[j].0 == key,
        forall|k: int| 0 <= k < j ==> s[k].0 != key,
    ensures
        obj_get(s, key) == Some(s[j].1),
    decreases j,
{
    if j > 0 {
        lemma_obj_get_first(s.skip(1), key, j - 1);
        assert(s.skip(1)[j - 1] == s[j]);
    }
}

/// No entry holds the key: then the lookup finds nothing.
pub proof fn lemma_obj_get_none(s: Seq<(Seq<char>, JsonV)>, key: Seq<char>)
    requires
        forall|k: int| 0 <= k < s.len() ==> s[k].0 != key,
    ensures
        obj_get(s, key) is None,
    decreases s.len(),
{
    if s.len() > 0 {
        lemma_obj_get_none(s.skip(1), key);
    }
}

/// A read-only map view of a dynamic value. A map codec decodes from such a
/// view rather than from a whole value.
///
/// The compressed form wraps a list whose positions stand for the keys of a
/// [`KeyCompressor`] table; it is how a fixed-schema map reads when the
/// format packs maps as lists.
pub enum MapLike {
    /// The entries of an ordinary map, in order.
    Entries(Vec<(String, JsonValue)>),
    /// A list read through a key table: position `i` belongs to key `i`.
    Compressed { list: Vec<JsonValue>, compressor: KeyCompressor },
}

impl MapLike {
    /// The entries this view models, as key-value pairs in order.
    pub open spec fn entries_of(self) -> Seq<(Seq<char>, JsonV)> {
        match self {
            MapLike::Entries(es) => obj_view(es@),
            MapLike::Compressed { list, compressor } => {
                let n = if list@.len() < compressor.keys_of().len() {
                    list@.len() as int
                } else {
                    compressor.keys_of().len() as int
                };
                Seq::new(n as nat, |i: int| (compressor.keys_of()[i], list@[i].view_of()))
            },
        }
    }

    /// A compressed view is well formed when its key table is.
    pub open spec fn wf(self) -> bool {
        match self {
            MapLike::Entries(_) => true,
            MapLike::Compressed { compressor, .. } => compressor.wf(),
        }
    }

    /// Gets the value of the first entry whose key matches, if any.
    #[verifier::loop_isolation(false)]
    pub fn get_str(&self, key: &str) -> (r: Option<&JsonValue>)
        requires
            self.wf(),
        ensures
            match r {
                Some(v) => obj_get(self.entries_of(), key@) == Some(v.view_of()),
                None => obj_get(self.entries_of(), key@) is None,
            },
    {
        match self {
            MapLike::Entries(es) => {
                proof {
                    crate::json::lemma_obj_view_index(es@);
                }
                let mut i: usize = 0;
                while i < es.len()
                    invariant
                        i <= es.len(),
                        forall|j: int| 0 <= j < i ==> obj_view(es@)[j].0 != key@,
                        obj_view(es@).len() == es@.len(),
                        forall|j: int|
                            0 <= j < es@.len() ==> #[trigger] obj_view(es@)[j] == (
                                es@[j].0@,
                                es@[j].1.view_of(),
                            ),
                    decreases es.len() - i,
                {
                    if crate::text::str_eq(es[i].0.as_str(), key) {
                        proof {
                            assert(self.entries_of() == obj_view(es@));
                            assert(obj_view(es@)[i as int] == (es@[i as int].0@, es@[
                                i as int
                            ].1.view_of()));
                            lemma_obj_get_first(obj_view(es@), key@, i as int);
                        }
                        return Some(&es[i].1);
                    }
                    i += 1;
                }
                proof {
                    lemma_obj_get_none(obj_view(es@), key@);
                }
                None
            },
            MapLike::Compressed { list, compressor } => {
                match compressor.compress_key_str(key) {
                    Some(i) => {
                        if i < list.len() {
                            proof {
                                lemma_obj_get_first(self.entries_of(), key@, i as int);
                            }
                            Some(&list[i])
                        } else {
                            proof {
                                lemma_obj_get_none(self.entries_of(), key@);
                            }
                            None
                        }
                    },
                    None => {
                        proof {
                            lemma_obj_get_none(self.entries_of(), key@);
                        }
                        None
                    },
                }
            },
        }
    }

    /// Returns the entries of this view as dynamic key-value pairs, keys
    /// wrapped as string values.
    #[verifier::loop_isolation(false)]
    pub fn entries(&self) -> (r: Vec<(JsonValue, JsonValue)>)
        ensures
            r@.len() == self.entries_of().len(),
            forall|i: int|
                0 <= i < r@.len() ==> #[trigger] r@[i].0.view_of() == JsonV::Str(
                    self.entries_of()[i].0,
                ) && r@[i].1.view_of() == self.entries_of()[i].1,
    {
        let mut out: Vec<(JsonValue, JsonValue)> = Vec::new();
        match self {
            MapLike::Entries(es) => {
                proof {
                    crate::json::lemma_obj_view_index(es@);
                }
                let mut i: usize = 0;
                while i < es.len()
                    invariant
                        i <= es.len(),
                        out@.len() == i,
                        obj_view(es@).len() == es@.len(),
                        forall|j: int|
                            0 <= j < es@.len() ==> #[trigger] obj_view(es@)[j] == (
                                es@[j].0@,
                                es@[j].1.view_of(),
                            ),
                        forall|j: int|
                            0 <= j < i ==> #[trigger] out@[j].0.view_of() == JsonV::Str(
                                obj_view(es@)[j].0,
                            ) && out@[j].1.view_of() == obj_view(es@)[j].1,
                    decreases es.len() - i,
                {
                    out.push((JsonValue::Str(es[i].0.clone()), es[i].1.clone()));
                    i += 1;
                }
            },
            MapLike::Compressed { list, compressor } => {
                let n = if list.len() < compressor.size() {
                    list.len()
                } else {
                    compressor.size()
                };
                let mut i: usize = 0;
                while i < n
                    invariant
                        i <= n,
                        n == if list@.len() < compressor.keys_of().len() {
                            list@.len() as int
                        } else {
                            compressor.keys_of().len() as int
                        },
                        out@.len() == i,
                        forall|j: int|
                            0 <= j < i ==> #[trigger] out@[j].0.view_of() == JsonV::Str(
                                compressor.keys_of()[j],
                            ) && out@[j].1.view_of() == list@[j].view_of(),
                    decreases n - i,
                {
                    let key = match compressor.decompress_key_str(i) {
                        Some(k) => k,
                        None => vstd::pervasive::unreached(),
                    };
                    out.push((JsonValue::Str(key), list[i].clone()));
                    i += 1;
                }
            },
        }
        out
    }
}

impl DeepView for MapLike {
    type V = Seq<(Seq<char>, JsonV)>;

    open spec fn deep_view(&self) -> Self::V {
        self.entries_of()
    }
}

} // verus!
