use crate::data_result::{error_partial_v, success_v, DataResult, DataResultV};
use crate::number::Number;
use vstd::prelude::*;
use vstd::string::StrSliceExecFns;
use vstd::string::StringExecFns;

verus! {

/// Specification-level model of an [`NbtTag`].
#[verifier::ext_equal]
pub enum NbtV {
    End,
    Byte(i8),
    Short(i16),
    Int(i32),
    Long(i64),
    Float(u32),
    Double(u64),
    ByteArray(Seq<u8>),
    Str(Seq<char>),
    List(Seq<NbtV>),
    Compound(Seq<(Seq<char>, NbtV)>),
    IntArray(Seq<i32>),
    LongArray(Seq<i64>),
}

/// A tag of the NBT tree format. Lists are homogeneous on the wire, so the
/// list-building operations wrap mixed elements in single-entry compounds.
/// The floating-point tags carry raw bit patterns.
#[derive(Debug, PartialEq, Eq)]
pub enum NbtTag {
    /// The end marker; also the empty prefix.
    End,
    Byte(i8),
    Short(i16),
    Int(i32),
    Long(i64),
    /// A single-precision value, as its raw bit pattern.
    Float(u32),
    /// A double-precision value, as its raw bit pattern.
    Double(u64),
    ByteArray(Vec<u8>),
    Str(String),
    List(Vec<NbtTag>),
    /// A compound: a list of key-value entries in insertion order.
    Compound(Vec<(String, NbtTag)>),
    IntArray(Vec<i32>),
    LongArray(Vec<i64>),
}

impl NbtTag {
    /// The tree this tag models.
    pub open spec fn view_of(self) -> NbtV
        decreases self,
        via Self::view_of_decreases
    {
        match self {
            NbtTag::End => NbtV::End,
            NbtTag::Byte(b) => NbtV::Byte(b),
            NbtTag::Short(s) => NbtV::Short(s),
            NbtTag::Int(i) => NbtV::Int(i),
            NbtTag::Long(l) => NbtV::Long(l),
            NbtTag::Float(f) => NbtV::Float(f),
            NbtTag::Double(d) => NbtV::Double(d),
            NbtTag::ByteArray(b) => NbtV::ByteArray(b@),
            NbtTag::Str(s) => NbtV::Str(s@),
            NbtTag::List(items) => NbtV::List(nbt_arr_view(items@)),
            NbtTag::Compound(entries) => NbtV::Compound(nbt_obj_view(entries@)),
            NbtTag::IntArray(i) => NbtV::IntArray(i@),
            NbtTag::LongArray(l) => NbtV::LongArray(l@),
        }
    }

    #[via_fn]
    proof fn view_of_decreases(self) {
        broadcast use vstd::std_specs::vec::group_vec_axioms;

        match self {
            NbtTag::List(items) => {
                assert(decreases_to!(self => items));
                assert(decreases_to!(items => items@));
            },
            NbtTag::Compound(entries) => {
                assert(decreases_to!(self => entries));
                assert(decreases_to!(entries => entries@));
            },
            _ => {},
        }
    }

    /// The numeric wire identifier of this tag's kind.
    pub fn type_id(&self) -> (r: u8)
        ensures
            r == nbt_type_id(self.view_of()),
    {
        match self {
            NbtTag::End => 0,
            NbtTag::Byte(_) => 1,
            NbtTag::Short(_) => 2,
            NbtTag::Int(_) => 3,
            NbtTag::Long(_) => 4,
            NbtTag::Float(_) => 5,
            NbtTag::Double(_) => 6,
            NbtTag::ByteArray(_) => 7,
            NbtTag::Str(_) => 8,
            NbtTag::List(_) => 9,
            NbtTag::Compound(_) => 10,
            NbtTag::IntArray(_) => 11,
            NbtTag::LongArray(_) => 12,
        }
    }

    /// The entries of this tag, when it is a compound.
    pub fn extract_compound(&self) -> (r: Option<&Vec<(String, NbtTag)>>)
        ensures
            match r {
                Some(entries) => *self == NbtTag::Compound(*entries) && self.view_of()
                    == NbtV::Compound(nbt_obj_view(entries@)),
                None => !(self.view_of() is Compound),
            },
    {
        match self {
            NbtTag::Compound(entries) => Some(entries),
            _ => None,
        }
    }
}

impl DeepView for NbtTag {
    type V = NbtV;

    open spec fn deep_view(&self) -> NbtV {
        self.view_of()
    }
}

/// The trees a list of tags models, in order.
pub open spec fn nbt_arr_view(items: Seq<NbtTag>) -> Seq<NbtV>
    decreases items,
    via nbt_arr_view_decreases
{
    if items.len() == 0 {
        Seq::empty()
    } else {
        seq![items[0].view_of()] + nbt_arr_view(items.skip(1))
    }
}

#[via_fn]
proof fn nbt_arr_view_decreases(items: Seq<NbtTag>) {
    if items.len() > 0 {
        assert(decreases_to!(items => items[0]));
        lemma_nbt_seq_skip_decreases(items);
    }
}

/// A sequence with at least one element decreases to the sequence without
/// its first element.
proof fn lemma_nbt_seq_skip_decreases<T>(s: Seq<T>)
    requires
        s.len() > 0,
    ensures
        decreases_to!(s => s.skip(1)),
{
    assert(s.skip(1) == s.subrange(1, s.len() as int));
    broadcast use vstd::seq::axiom_seq_subrange_decreases;

    assert(decreases_to!(s => s.subrange(1, s.len() as int)));
}

/// The entries a compound's entries model, in order.
pub open spec fn nbt_obj_view(entries: Seq<(String, NbtTag)>) -> Seq<(Seq<char>, NbtV)>
    decreases entries,
    via nbt_obj_view_decreases
{
    if entries.len() == 0 {
        Seq::empty()
    } else {
        seq![(entries[0].0@, entries[0].1.view_of())] + nbt_obj_view(entries.skip(1))
    }
}

#[via_fn]
proof fn nbt_obj_view_decreases(entries: Seq<(String, NbtTag)>) {
    if entries.len() > 0 {
        let e = entries[0];
        assert(decreases_to!(entries => entries[0]));
        assert(decreases_to!(e => e.1));
        lemma_nbt_seq_skip_decreases(entries);
    }
}

/// The length and the elements of a list view, element by element.
pub proof fn lemma_nbt_arr_view_index(items: Seq<NbtTag>)
    ensures
        nbt_arr_view(items).len() == items.len(),
        forall|i: int|
            0 <= i < items.len() ==> #[trigger] nbt_arr_view(items)[i] == items[i].view_of(),
    decreases items.len(),
{
    if items.len() > 0 {
        lemma_nbt_arr_view_index(items.skip(1));
        assert forall|i: int| 0 <= i < items.len() implies #[trigger] nbt_arr_view(items)[i]
            == items[i].view_of() by {
            if i > 0 {
                assert(nbt_arr_view(items)[i] == nbt_arr_view(items.skip(1))[i - 1]);
                assert(items.skip(1)[i - 1] == items[i]);
            }
        }
    }
}

/// The numeric wire identifier of a tag kind.
pub open spec fn nbt_type_id(v: NbtV) -> u8 {
    match v {
        NbtV::End => 0u8,
        NbtV::Byte(_) => 1u8,
        NbtV::Short(_) => 2u8,
        NbtV::Int(_) => 3u8,
        NbtV::Long(_) => 4u8,
        NbtV::Float(_) => 5u8,
        NbtV::Double(_) => 6u8,
        NbtV::ByteArray(_) => 7u8,
        NbtV::Str(_) => 8u8,
        NbtV::List(_) => 9u8,
        NbtV::Compound(_) => 10u8,
        NbtV::IntArray(_) => 11u8,
        NbtV::LongArray(_) => 12u8,
    }
}

/// Whether a tag already has the single-entry compound shape that the list
/// collector wraps mixed elements in.
pub open spec fn is_wrapper_v(v: NbtV) -> bool {
    match v {
        NbtV::Compound(entries) => entries.len() == 1,
        _ => false,
    }
}

/// A tag wrapped in a compound under the empty key.
pub open spec fn wrap_element_v(v: NbtV) -> NbtV {
    NbtV::Compound(seq![(Seq::<char>::empty(), v)])
}

/// The wrapping a heterogeneous list applies: a compound of more than one
/// entry keeps its shape, anything else is wrapped under the empty key.
pub open spec fn wrap_if_required_v(v: NbtV) -> NbtV {
    if v is Compound && !is_wrapper_v(v) {
        v
    } else {
        wrap_element_v(v)
    }
}

/// Specification-level model of a [`ListCollector`].
pub enum CollectorV {
    Heterogeneous(Seq<NbtV>),
    Homogeneous(Seq<NbtV>),
    Initial,
    Bytes(Seq<i8>),
    Ints(Seq<i32>),
    Longs(Seq<i64>),
}

/// The element kind of a homogeneous collection: the kind of its first
/// element, or the end marker when it is empty.
pub open spec fn homo_element_type(items: Seq<NbtV>) -> u8 {
    if items.len() == 0 {
        0u8
    } else {
        nbt_type_id(items[0])
    }
}

/// The bytes of a byte collection, wrapped for a heterogeneous list.
pub open spec fn bytes_wrapped(items: Seq<i8>) -> Seq<NbtV> {
    Seq::new(items.len(), |i: int| wrap_element_v(NbtV::Byte(items[i])))
}

/// The ints of an int collection, wrapped for a heterogeneous list.
pub open spec fn ints_wrapped(items: Seq<i32>) -> Seq<NbtV> {
    Seq::new(items.len(), |i: int| wrap_element_v(NbtV::Int(items[i])))
}

/// The longs of a long collection, wrapped for a heterogeneous list.
pub open spec fn longs_wrapped(items: Seq<i64>) -> Seq<NbtV> {
    Seq::new(items.len(), |i: int| wrap_element_v(NbtV::Long(items[i])))
}

/// One tag accepted into a collector state.
pub open spec fn collector_accept_v(state: CollectorV, t: NbtV) -> CollectorV {
    match state {
        CollectorV::Initial => match t {
            NbtV::Compound(_) => CollectorV::Heterogeneous(seq![t]),
            NbtV::Byte(b) => CollectorV::Bytes(seq![b]),
            NbtV::Int(i) => CollectorV::Ints(seq![i]),
            NbtV::Long(l) => CollectorV::Longs(seq![l]),
            _ => CollectorV::Homogeneous(seq![t]),
        },
        CollectorV::Heterogeneous(items) => CollectorV::Heterogeneous(
            items.push(wrap_if_required_v(t)),
        ),
        CollectorV::Homogeneous(items) => {
            if nbt_type_id(t) == homo_element_type(items) {
                CollectorV::Homogeneous(items.push(t))
            } else {
                CollectorV::Heterogeneous(items.push(t))
            }
        },
        CollectorV::Bytes(items) => match t {
            NbtV::Byte(b) => CollectorV::Bytes(items.push(b)),
            _ => CollectorV::Heterogeneous(bytes_wrapped(items).push(wrap_if_required_v(t))),
        },
        CollectorV::Ints(items) => match t {
            NbtV::Int(i) => CollectorV::Ints(items.push(i)),
            _ => CollectorV::Heterogeneous(ints_wrapped(items).push(wrap_if_required_v(t))),
        },
        CollectorV::Longs(items) => match t {
            NbtV::Long(l) => CollectorV::Longs(items.push(l)),
            _ => CollectorV::Heterogeneous(longs_wrapped(items).push(wrap_if_required_v(t))),
        },
    }
}

/// The final tag a collector state assembles.
pub open spec fn collector_result_v(state: CollectorV) -> NbtV {
    match state {
        CollectorV::Heterogeneous(items) => NbtV::List(items),
        CollectorV::Homogeneous(items) => NbtV::List(items),
        CollectorV::Initial => NbtV::List(Seq::empty()),
        CollectorV::Bytes(items) => NbtV::ByteArray(Seq::new(items.len(), |i: int| items[i] as u8)),
        CollectorV::Ints(items) => NbtV::IntArray(items),
        CollectorV::Longs(items) => NbtV::LongArray(items),
    }
}

/// The collector state a list-shaped tag opens, when the tag is list-shaped.
pub open spec fn collector_of_v(v: NbtV) -> Option<CollectorV> {
    match v {
        NbtV::End => Some(CollectorV::Initial),
        NbtV::List(items) => if items.len() == 0 {
            Some(CollectorV::Initial)
        } else if nbt_type_id(items[0]) == 0 {
            Some(CollectorV::Initial)
        } else if nbt_type_id(items[0]) == 10 {
            Some(CollectorV::Heterogeneous(items))
        } else {
            Some(CollectorV::Homogeneous(items))
        },
        NbtV::ByteArray(items) => if items.len() == 0 {
            Some(CollectorV::Initial)
        } else {
            Some(CollectorV::Bytes(Seq::new(items.len(), |i: int| items[i] as i8)))
        },
        NbtV::IntArray(items) => if items.len() == 0 {
            Some(CollectorV::Initial)
        } else {
            Some(CollectorV::Ints(items))
        },
        NbtV::LongArray(items) => if items.len() == 0 {
            Some(CollectorV::Initial)
        } else {
            Some(CollectorV::Longs(items))
        },
        _ => None,
    }
}

/// A collector object for NBT lists: it watches the kinds of the elements it
/// is given and assembles the most specific list tag that can hold them,
/// falling back to a list of single-entry compound wrappers when the kinds
/// mix.
pub enum ListCollector {
    Heterogeneous(Vec<NbtTag>),
    Homogeneous(Vec<NbtTag>),
    Initial,
    Bytes(Vec<i8>),
    Ints(Vec<i32>),
    Longs(Vec<i64>),
}

impl ListCollector {
    /// The state this collector models.
    pub open spec fn state_of(self) -> CollectorV {
        match self {
            ListCollector::Heterogeneous(items) => CollectorV::Heterogeneous(
                nbt_arr_view(items@),
            ),
            ListCollector::Homogeneous(items) => CollectorV::Homogeneous(nbt_arr_view(items@)),
            ListCollector::Initial => CollectorV::Initial,
            ListCollector::Bytes(items) => CollectorV::Bytes(items@),
            ListCollector::Ints(items) => CollectorV::Ints(items@),
            ListCollector::Longs(items) => CollectorV::Longs(items@),
        }
    }

    /// Creates a new collector from a list-shaped tag; any other tag comes
    /// back unchanged.
    pub fn new(tag: NbtTag) -> (r: Result<Self, NbtTag>)
        ensures
            match r {
                Ok(c) => collector_of_v(tag.view_of()) == Some(c.state_of()),
                Err(t) => t == tag && collector_of_v(tag.view_of()) is None,
            },
    {
        match tag {
            NbtTag::End => Ok(Self::Initial),
            NbtTag::List(items) => {
                proof {
                    lemma_nbt_arr_view_index(items@);
                }
                if items.len() == 0 {
                    Ok(Self::Initial)
                } else {
                    let first_id = items[0].type_id();
                    if first_id == 0 {
                        Ok(Self::Initial)
                    } else if first_id == 10 {
                        Ok(Self::Heterogeneous(items))
                    } else {
                        Ok(Self::Homogeneous(items))
                    }
                }
            },
            NbtTag::ByteArray(items) => {
                if items.len() == 0 {
                    Ok(Self::Initial)
                } else {
                    let mut signed: Vec<i8> = Vec::new();
                    let mut i: usize = 0;
                    while i < items.len()
                        invariant
                            i <= items.len(),
                            signed@.len() == i,
                            forall|j: int| 0 <= j < i ==> signed@[j] == items@[j] as i8,
                        decreases items.len() - i,
                    {
                        signed.push(#[verifier::truncate] (items[i] as i8));
                        i += 1;
                    }
                    proof {
                        assert(signed@ =~= Seq::new(items@.len(), |i: int| items@[i] as i8));
                    }
                    Ok(Self::Bytes(signed))
                }
            },
            NbtTag::IntArray(items) => {
                if items.len() == 0 {
                    Ok(Self::Initial)
                } else {
                    Ok(Self::Ints(items))
                }
            },
            NbtTag::LongArray(items) => {
                if items.len() == 0 {
                    Ok(Self::Initial)
                } else {
                    Ok(Self::Longs(items))
                }
            },
            other => Err(other),
        }
    }

    /// Creates a new collector that has seen nothing yet: tags of any kind
    /// can be added to it without type worries.
    pub fn new_initial_collector() -> (r: Self)
        ensures
            r.state_of() == CollectorV::Initial,
    {
        Self::Initial
    }

    /// Accepts one tag.
    #[must_use]
    pub fn accept(self, tag: NbtTag) -> (r: Self)
        ensures
            r.state_of() == collector_accept_v(self.state_of(), tag.view_of()),
    {
        match self {
            Self::Initial => match tag {
                NbtTag::Compound(entries) => {
                    let mut items: Vec<NbtTag> = Vec::new();
                    items.push(NbtTag::Compound(entries));
                    proof {
                        lemma_nbt_arr_view_index(items@);
                        assert(nbt_arr_view(items@) =~= seq![items@[0].view_of()]);
                    }
                    Self::Heterogeneous(items)
                },
                NbtTag::Byte(b) => {
                    let mut items: Vec<i8> = Vec::new();
                    items.push(b);
                    proof {
                        assert(items@ =~= seq![b]);
                    }
                    Self::Bytes(items)
                },
                NbtTag::Int(i) => {
                    let mut items: Vec<i32> = Vec::new();
                    items.push(i);
                    proof {
                        assert(items@ =~= seq![i]);
                    }
                    Self::Ints(items)
                },
                NbtTag::Long(l) => {
                    let mut items: Vec<i64> = Vec::new();
                    items.push(l);
                    proof {
                        assert(items@ =~= seq![l]);
                    }
                    Self::Longs(items)
                },
                other => {
                    let mut items: Vec<NbtTag> = Vec::new();
                    items.push(other);
                    proof {
                        lemma_nbt_arr_view_index(items@);
                        assert(nbt_arr_view(items@) =~= seq![items@[0].view_of()]);
                    }
                    Self::Homogeneous(items)
                },
            },
            Self::Heterogeneous(items) => {
                let mut items = items;
                let ghost before = items@;
                let wrapped = wrap_if_required(tag);
                items.push(wrapped);
                proof {
                    lemma_nbt_arr_view_index(before);
                    lemma_nbt_arr_view_index(items@);
                    assert(nbt_arr_view(items@) =~= nbt_arr_view(before).push(
                        items@.last().view_of(),
                    ));
                }
                Self::Heterogeneous(items)
            },
            Self::Homogeneous(items) => {
                let ghost before = items@;
                let element_type = if items.len() == 0 {
                    0
                } else {
                    items[0].type_id()
                };
                proof {
                    lemma_nbt_arr_view_index(items@);
                }
                let mut items = items;
                if tag.type_id() == element_type {
                    items.push(tag);
                    proof {
                        lemma_nbt_arr_view_index(before);
                        lemma_nbt_arr_view_index(items@);
                        assert(nbt_arr_view(items@) =~= nbt_arr_view(before).push(
                            items@.last().view_of(),
                        ));
                    }
                    Self::Homogeneous(items)
                } else {
                    items.push(tag);
                    proof {
                        lemma_nbt_arr_view_index(before);
                        lemma_nbt_arr_view_index(items@);
                        assert(nbt_arr_view(items@) =~= nbt_arr_view(before).push(
                            items@.last().view_of(),
                        ));
                    }
                    Self::Heterogeneous(items)
                }
            },
            Self::Bytes(items) => {
                match tag {
                    NbtTag::Byte(b) => {
                        let mut items = items;
                        let ghost before = items@;
                        items.push(b);
                        proof {
                            assert(items@ =~= before.push(b));
                        }
                        Self::Bytes(items)
                    },
                    other => {
                        let mut wrapped: Vec<NbtTag> = Vec::new();
                        let mut i: usize = 0;
                        while i < items.len()
                            invariant
                                i <= items.len(),
                                wrapped@.len() == i,
                                forall|j: int|
                                    0 <= j < i ==> #[trigger] wrapped@[j].view_of()
                                        == wrap_element_v(NbtV::Byte(items@[j])),
                            decreases items.len() - i,
                        {
                            wrapped.push(wrap_element(NbtTag::Byte(items[i])));
                            i += 1;
                        }
                        let ghost base = wrapped@;
                        let w = wrap_if_required(other);
                        let mut wrapped = wrapped;
                        wrapped.push(w);
                        proof {
                            lemma_nbt_arr_view_index(base);
                            lemma_nbt_arr_view_index(wrapped@);
                            assert(nbt_arr_view(base) =~= bytes_wrapped(items@));
                            assert(nbt_arr_view(wrapped@) =~= bytes_wrapped(items@).push(
                                wrapped@.last().view_of(),
                            ));
                        }
                        Self::Heterogeneous(wrapped)
                    },
                }
            },
            Self::Ints(items) => {
                match tag {
                    NbtTag::Int(v) => {
                        let mut items = items;
                        let ghost before = items@;
                        items.push(v);
                        proof {
                            assert(items@ =~= before.push(v));
                        }
                        Self::Ints(items)
                    },
                    other => {
                        let mut wrapped: Vec<NbtTag> = Vec::new();
                        let mut i: usize = 0;
                        while i < items.len()
                            invariant
                                i <= items.len(),
                                wrapped@.len() == i,
                                forall|j: int|
                                    0 <= j < i ==> #[trigger] wrapped@[j].view_of()
                                        == wrap_element_v(NbtV::Int(items@[j])),
                            decreases items.len() - i,
                        {
                            wrapped.push(wrap_element(NbtTag::Int(items[i])));
                            i += 1;
                        }
                        let ghost base = wrapped@;
                        let w = wrap_if_required(other);
                        let mut wrapped = wrapped;
                        wrapped.push(w);
                        proof {
                            lemma_nbt_arr_view_index(base);
                            lemma_nbt_arr_view_index(wrapped@);
                            assert(nbt_arr_view(base) =~= ints_wrapped(items@));
                            assert(nbt_arr_view(wrapped@) =~= ints_wrapped(items@).push(
                                wrapped@.last().view_of(),
                            ));
                        }
                        Self::Heterogeneous(wrapped)
                    },
                }
            },
            Self::Longs(items) => {
                match tag {
                    NbtTag::Long(v) => {
                        let mut items = items;
                        let ghost before = items@;
                        items.push(v);
                        proof {
                            assert(items@ =~= before.push(v));
                        }
                        Self::Longs(items)
                    },
                    other => {
                        let mut wrapped: Vec<NbtTag> = Vec::new();
                        let mut i: usize = 0;
                        while i < items.len()
                            invariant
                                i <= items.len(),
                                wrapped@.len() == i,
                                forall|j: int|
                                    0 <= j < i ==> #[trigger] wrapped@[j].view_of()
                                        == wrap_element_v(NbtV::Long(items@[j])),
                            decreases items.len() - i,
                        {
                            wrapped.push(wrap_element(NbtTag::Long(items[i])));
                            i += 1;
                        }
                        let ghost base = wrapped@;
                        let w = wrap_if_required(other);
                        let mut wrapped = wrapped;
                        wrapped.push(w);
                        proof {
                            lemma_nbt_arr_view_index(base);
                            lemma_nbt_arr_view_index(wrapped@);
                            assert(nbt_arr_view(base) =~= longs_wrapped(items@));
                            assert(nbt_arr_view(wrapped@) =~= longs_wrapped(items@).push(
                                wrapped@.last().view_of(),
                            ));
                        }
                        Self::Heterogeneous(wrapped)
                    },
                }
            },
        }
    }

    /// Accepts every tag of a list, in order.
    #[must_use]
    #[verifier::loop_isolation(false)]
    pub fn accept_all(self, tags: Vec<NbtTag>) -> (r: Self)
        ensures
            r.state_of() == collector_accept_all_v(self.state_of(), nbt_arr_view(tags@)),
    {
        let ghost tv = nbt_arr_view(tags@);
        let ghost goal = collector_accept_all_v(self.state_of(), tv);
        proof {
            lemma_nbt_arr_view_index(tags@);
            assert(tv.skip(0) =~= tv);
        }
        let mut collector = self;
        let mut tags = tags;
        let n = tags.len();
        let mut i: usize = 0;
        while i < n
            invariant
                i <= n,
                tags@.len() + i == n,
                tv.len() == n,
                forall|j: int|
                    0 <= j < tags@.len() ==> #[trigger] tags@[j].view_of() == tv[j + i],
                collector_accept_all_v(collector.state_of(), tv.skip(i as int)) == goal,
            decreases n - i,
        {
            let ghost before = tags@;
            proof {
                let rest = tv.skip(i as int);
                assert(rest[0] == tv[i as int]);
                assert(rest.skip(1) =~= tv.skip(i + 1));
                assert(before[0].view_of() == tv[0 + i]);
            }
            let tag = tags.remove(0);
            proof {
                assert forall|j: int| 0 <= j < tags@.len() implies #[trigger] tags@[j].view_of()
                    == tv[j + i + 1] by {
                    assert(tags@[j] == before[j + 1]);
                    assert(before[j + 1].view_of() == tv[(j + 1) + i]);
                }
            }
            collector = collector.accept(tag);
            i += 1;
        }
        proof {
            assert(tv.skip(n as int) =~= Seq::<NbtV>::empty());
        }
        collector
    }

    /// Provides the final tag.
    pub fn result(self) -> (r: NbtTag)
        ensures
            r.view_of() == collector_result_v(self.state_of()),
    {
        match self {
            Self::Heterogeneous(items) => NbtTag::List(items),
            Self::Homogeneous(items) => NbtTag::List(items),
            Self::Initial => {
                let r = NbtTag::List(Vec::new());
                proof {
                    assert(r.view_of() =~~= NbtV::List(Seq::empty()));
                }
                r
            },
            Self::Bytes(items) => {
                let mut unsigned: Vec<u8> = Vec::new();
                let mut i: usize = 0;
                while i < items.len()
                    invariant
                        i <= items.len(),
                        unsigned@.len() == i,
                        forall|j: int| 0 <= j < i ==> unsigned@[j] == items@[j] as u8,
                    decreases items.len() - i,
                {
                    unsigned.push(#[verifier::truncate] (items[i] as u8));
                    i += 1;
                }
                proof {
                    assert(unsigned@ =~= Seq::new(items@.len(), |i: int| items@[i] as u8));
                }
                NbtTag::ByteArray(unsigned)
            },
            Self::Ints(items) => NbtTag::IntArray(items),
            Self::Longs(items) => NbtTag::LongArray(items),
        }
    }
}

/// A whole sequence of tags accepted into a collector state, in order.
pub open spec fn collector_accept_all_v(state: CollectorV, tags: Seq<NbtV>) -> CollectorV
    decreases tags.len(),
{
    if tags.len() == 0 {
        state
    } else {
        collector_accept_all_v(collector_accept_v(state, tags[0]), tags.skip(1))
    }
}

/// Wraps a tag in a compound under the empty key.
pub fn wrap_element(tag: NbtTag) -> (r: NbtTag)
    ensures
        r.view_of() == wrap_element_v(tag.view_of()),
{
    let mut entries: Vec<(String, NbtTag)> = Vec::new();
    entries.push((String::new(), tag));
    proof {
        assert(entries@.skip(1).len() == 0);
        assert(nbt_obj_view(entries@.skip(1)) =~= Seq::<(Seq<char>, NbtV)>::empty());
        assert(nbt_obj_view(entries@) =~= seq![
            (Seq::<char>::empty(), entries@[0].1.view_of()),
        ]);
    }
    NbtTag::Compound(entries)
}

/// Applies the heterogeneous-list wrapping: a compound of more than one
/// entry keeps its shape, anything else is wrapped under the empty key.
pub fn wrap_if_required(tag: NbtTag) -> (r: NbtTag)
    ensures
        r.view_of() == wrap_if_required_v(tag.view_of()),
{
    match tag {
        NbtTag::Compound(entries) => {
            if entries.len() != 1 {
                proof {
                    crate::nbt_ops::lemma_nbt_obj_view_len(entries@);
                }
                NbtTag::Compound(entries)
            } else {
                proof {
                    crate::nbt_ops::lemma_nbt_obj_view_len(entries@);
                }
                wrap_element(NbtTag::Compound(entries))
            }
        },
        other => wrap_element(other),
    }
}

/// The length of a compound view equals the number of its entries.
pub proof fn lemma_nbt_obj_view_len(entries: Seq<(String, NbtTag)>)
    ensures
        nbt_obj_view(entries).len() == entries.len(),
    decreases entries.len(),
{
    if entries.len() > 0 {
        lemma_nbt_obj_view_len(entries.skip(1));
    }
}

/// The format adapter for NBT tags.
pub struct NbtOps;

impl NbtOps {
    /// Returns how an empty value is represented: the end marker.
    pub fn empty(&self) -> (r: NbtTag)
        ensures
            r.view_of() == NbtV::End,
    {
        NbtTag::End
    }

    /// Returns how a boolean is represented: a byte, one for true.
    pub fn create_bool(&self, data: bool) -> (r: NbtTag)
        ensures
            r.view_of() == NbtV::Byte(
                if data {
                    1i8
                } else {
                    0i8
                },
            ),
    {
        NbtTag::Byte(
            if data {
                1
            } else {
                0
            },
        )
    }

    /// Returns how a byte is represented.
    pub fn create_byte(&self, data: i8) -> (r: NbtTag)
        ensures
            r.view_of() == NbtV::Byte(data),
    {
        NbtTag::Byte(data)
    }

    /// Returns how a short is represented.
    pub fn create_short(&self, data: i16) -> (r: NbtTag)
        ensures
            r.view_of() == NbtV::Short(data),
    {
        NbtTag::Short(data)
    }

    /// Returns how an int is represented.
    pub fn create_int(&self, data: i32) -> (r: NbtTag)
        ensures
            r.view_of() == NbtV::Int(data),
    {
        NbtTag::Int(data)
    }

    /// Returns how a long is represented.
    pub fn create_long(&self, data: i64) -> (r: NbtTag)
        ensures
            r.view_of() == NbtV::Long(data),
    {
        NbtTag::Long(data)
    }

    /// Returns how a single-precision value is represented, given its raw
    /// bit pattern.
    pub fn create_float(&self, data: u32) -> (r: NbtTag)
        ensures
            r.view_of() == NbtV::Float(data),
    {
        NbtTag::Float(data)
    }

    /// Returns how a double-precision value is represented, given its raw
    /// bit pattern.
    pub fn create_double(&self, data: u64) -> (r: NbtTag)
        ensures
            r.view_of() == NbtV::Double(data),
    {
        NbtTag::Double(data)
    }

    /// Returns how a string is represented.
    pub fn create_string(&self, data: &str) -> (r: NbtTag)
        ensures
            r.view_of() == NbtV::Str(data@),
    {
        NbtTag::Str(String::from_str(data))
    }

    /// Returns how a list of tags is represented: the most specific list tag
    /// that can hold them, assembled by a [`ListCollector`].
    pub fn create_list(&self, values: Vec<NbtTag>) -> (r: NbtTag)
        ensures
            r.view_of() == collector_result_v(
                collector_accept_all_v(CollectorV::Initial, nbt_arr_view(values@)),
            ),
    {
        ListCollector::new_initial_collector().accept_all(values).result()
    }

    /// Tries to read a number: every numeric tag reads as the matching
    /// numeric variant.
    pub fn get_number(&self, input: &NbtTag) -> (r: DataResult<Number>)
        ensures
            r.deep_view() == self.get_number_spec(input.view_of()),
    {
        match input {
            NbtTag::Byte(b) => DataResult::success(Number::Byte(*b)),
            NbtTag::Short(s) => DataResult::success(Number::Short(*s)),
            NbtTag::Int(i) => DataResult::success(Number::Int(*i)),
            NbtTag::Long(l) => DataResult::success(Number::Long(*l)),
            NbtTag::Float(f) => DataResult::success(Number::Float(*f)),
            NbtTag::Double(d) => DataResult::success(Number::Double(*d)),
            _ => crate::json_ops::error_result("Not a number"),
        }
    }

    /// What reading a number returns.
    pub open spec fn get_number_spec(self, v: NbtV) -> DataResultV<Number> {
        match v {
            NbtV::Byte(b) => success_v(Number::Byte(b)),
            NbtV::Short(s) => success_v(Number::Short(s)),
            NbtV::Int(i) => success_v(Number::Int(i)),
            NbtV::Long(l) => success_v(Number::Long(l)),
            NbtV::Float(f) => success_v(Number::Float(f)),
            NbtV::Double(d) => success_v(Number::Double(d)),
            _ => crate::data_result::error_v("Not a number"@),
        }
    }

    /// Tries to read a string.
    pub fn get_string(&self, input: &NbtTag) -> (r: DataResult<String>)
        ensures
            r.deep_view() == self.get_string_spec(input.view_of()),
    {
        match input {
            NbtTag::Str(s) => DataResult::success(s.clone()),
            _ => crate::json_ops::error_result("Not a string"),
        }
    }

    /// What reading a string returns.
    pub open spec fn get_string_spec(self, v: NbtV) -> DataResultV<Seq<char>> {
        match v {
            NbtV::Str(s) => success_v(s),
            _ => crate::data_result::error_v("Not a string"@),
        }
    }

    /// Merges a tag into a list-shaped tag; any other target keeps its value
    /// as the partial result of an error.
    pub fn merge_into_list(&self, list: NbtTag, value: NbtTag) -> (r: DataResult<NbtTag>)
        ensures
            r.deep_view() == self.merge_into_list_spec(list.view_of(), value.view_of()),
    {
        match ListCollector::new(list) {
            Ok(collector) => DataResult::success(collector.accept(value).result()),
            Err(original) => DataResult::error_partial(
                String::from_str("Not a list"),
                original,
            ),
        }
    }

    /// What merging a tag into a list returns: the collector opens on the
    /// target, accepts the tag and assembles the result.
    pub open spec fn merge_into_list_spec(self, l: NbtV, v: NbtV) -> DataResultV<NbtV> {
        match collector_of_v(l) {
            Some(state) => success_v(collector_result_v(collector_accept_v(state, v))),
            None => error_partial_v("Not a list"@, l),
        }
    }

    /// Merges several tags into a list-shaped tag.
    pub fn merge_values_into_list(&self, list: NbtTag, values: Vec<NbtTag>) -> (r: DataResult<
        NbtTag,
    >)
        ensures
            r.deep_view() == self.merge_values_into_list_spec(
                list.view_of(),
                nbt_arr_view(values@),
            ),
    {
        match ListCollector::new(list) {
            Ok(collector) => DataResult::success(collector.accept_all(values).result()),
            Err(original) => DataResult::error_partial(
                String::from_str("Not a list"),
                original,
            ),
        }
    }

    /// What merging several tags into a list returns.
    pub open spec fn merge_values_into_list_spec(self, l: NbtV, vs: Seq<NbtV>) -> DataResultV<
        NbtV,
    > {
        match collector_of_v(l) {
            Some(state) => success_v(collector_result_v(collector_accept_all_v(state, vs))),
            None => error_partial_v("Not a list"@, l),
        }
    }
}

/// The length and the entries of a compound view, entry by entry.
pub proof fn lemma_nbt_obj_view_index(entries: Seq<(String, NbtTag)>)
    ensures
        nbt_obj_view(entries).len() == entries.len(),
        forall|i: int|
            0 <= i < entries.len() ==> #[trigger] nbt_obj_view(entries)[i] == (
                entries[i].0@,
                entries[i].1.view_of(),
            ),
    decreases entries.len(),
{
    if entries.len() > 0 {
        lemma_nbt_obj_view_index(entries.skip(1));
        assert forall|i: int| 0 <= i < entries.len() implies #[trigger] nbt_obj_view(entries)[i]
            == (entries[i].0@, entries[i].1.view_of()) by {
            if i > 0 {
                assert(nbt_obj_view(entries)[i] == nbt_obj_view(entries.skip(1))[i - 1]);
                assert(entries.skip(1)[i - 1] == entries[i]);
            }
        }
    }
}

/// A single-entry compound under the empty key unwraps to the entry's value;
/// any other compound keeps its shape.
pub open spec fn try_unwrap_v(entries: Seq<(Seq<char>, NbtV)>) -> NbtV {
    if entries.len() == 1 && entries[0].0 == Seq::<char>::empty() {
        entries[0].1
    } else {
        NbtV::Compound(entries)
    }
}

/// The element a list iteration hands out: a compound unwraps when it is a
/// single-entry wrapper, anything else passes through.
pub open spec fn unwrap_if_compound(v: NbtV) -> NbtV {
    match v {
        NbtV::Compound(entries) => try_unwrap_v(entries),
        _ => v,
    }
}

/// What iterating a tag's elements returns.
pub open spec fn get_iter_spec(v: NbtV) -> DataResultV<Seq<NbtV>> {
    match v {
        NbtV::List(items) => {
            if items.len() > 0 && items[0] is Compound {
                success_v(Seq::new(items.len(), |i: int| unwrap_if_compound(items[i])))
            } else {
                success_v(items)
            }
        },
        NbtV::ByteArray(items) => success_v(
            Seq::new(items.len(), |i: int| NbtV::Byte(items[i] as i8)),
        ),
        NbtV::IntArray(items) => success_v(Seq::new(items.len(), |i: int| NbtV::Int(items[i]))),
        NbtV::LongArray(items) => success_v(
            Seq::new(items.len(), |i: int| NbtV::Long(items[i])),
        ),
        _ => crate::data_result::error_v("Not a list"@),
    }
}

/// Tries to unwrap a compound: a single entry under the empty key comes out
/// of its wrapper; any other compound keeps its shape.
pub fn try_unwrap(entries: Vec<(String, NbtTag)>) -> (r: NbtTag)
    ensures
        r.view_of() == try_unwrap_v(nbt_obj_view(entries@)),
{
    proof {
        lemma_nbt_obj_view_index(entries@);
    }
    if entries.len() == 1 && entries[0].0.as_str().unicode_len() == 0 {
        proof {
            assert(entries@[0].0@ =~= Seq::<char>::empty());
        }
        let mut entries = entries;
        let entry = entries.remove(0);
        entry.1
    } else {
        NbtTag::Compound(entries)
    }
}

impl NbtOps {
    /// Reads the elements of a list-shaped tag: the items of a list (each
    /// single-entry compound wrapper unwrapped when the list holds
    /// compounds), or the values of a typed array, each as its own tag.
    pub fn get_iter(&self, input: NbtTag) -> (r: DataResult<Vec<NbtTag>>)
        ensures
            r.deep_view() == get_iter_spec(input.view_of()),
    {
        match input {
            NbtTag::List(items) => {
                proof {
                    lemma_nbt_arr_view_index(items@);
                }
                let unwrap_wrappers = items.len() > 0 && items[0].type_id() == 10;
                if unwrap_wrappers {
                    let ghost iv = nbt_arr_view(items@);
                    let mut out: Vec<NbtTag> = Vec::new();
                    let mut items = items;
                    let n = items.len();
                    let mut i: usize = 0;
                    while i < n
                        invariant
                            i <= n,
                            items@.len() + i == n,
                            iv.len() == n,
                            forall|j: int|
                                0 <= j < items@.len() ==> #[trigger] items@[j].view_of() == iv[j
                                    + i],
                            out@.len() == i,
                            forall|j: int|
                                0 <= j < i ==> #[trigger] out@[j].view_of()
                                    == unwrap_if_compound(iv[j]),
                        decreases n - i,
                    {
                        let ghost before = items@;
                        proof {
                            assert(before[0].view_of() == iv[0 + i]);
                        }
                        let item = items.remove(0);
                        proof {
                            assert forall|j: int| 0 <= j < items@.len() implies (#[trigger]
                            items@[j]).view_of() == iv[j + i + 1] by {
                                assert(items@[j] == before[j + 1]);
                                assert(before[j + 1].view_of() == iv[(j + 1) + i]);
                            }
                        }
                        let unwrapped = match item {
                            NbtTag::Compound(entries) => try_unwrap(entries),
                            other => other,
                        };
                        out.push(unwrapped);
                        i += 1;
                    }
                    proof {
                        assert(out.deep_view() =~= Seq::new(
                            iv.len(),
                            |j: int| unwrap_if_compound(iv[j]),
                        ));
                    }
                    DataResult::success(out)
                } else {
                    proof {
                        crate::nbt_ops::lemma_nbt_arr_is_deep(items);
                    }
                    DataResult::success(items)
                }
            },
            NbtTag::ByteArray(items) => {
                let mut out: Vec<NbtTag> = Vec::new();
                let mut i: usize = 0;
                while i < items.len()
                    invariant
                        i <= items.len(),
                        out@.len() == i,
                        forall|j: int|
                            0 <= j < i ==> #[trigger] out@[j].view_of() == NbtV::Byte(
                                items@[j] as i8,
                            ),
                    decreases items.len() - i,
                {
                    out.push(NbtTag::Byte(#[verifier::truncate] (items[i] as i8)));
                    i += 1;
                }
                proof {
                    assert(out.deep_view() =~= Seq::new(
                        items@.len(),
                        |j: int| NbtV::Byte(items@[j] as i8),
                    ));
                }
                DataResult::success(out)
            },
            NbtTag::IntArray(items) => {
                let mut out: Vec<NbtTag> = Vec::new();
                let mut i: usize = 0;
                while i < items.len()
                    invariant
                        i <= items.len(),
                        out@.len() == i,
                        forall|j: int|
                            0 <= j < i ==> #[trigger] out@[j].view_of() == NbtV::Int(items@[j]),
                    decreases items.len() - i,
                {
                    out.push(NbtTag::Int(items[i]));
                    i += 1;
                }
                proof {
                    assert(out.deep_view() =~= Seq::new(
                        items@.len(),
                        |j: int| NbtV::Int(items@[j]),
                    ));
                }
                DataResult::success(out)
            },
            NbtTag::LongArray(items) => {
                let mut out: Vec<NbtTag> = Vec::new();
                let mut i: usize = 0;
                while i < items.len()
                    invariant
                        i <= items.len(),
                        out@.len() == i,
                        forall|j: int|
                            0 <= j < i ==> #[trigger] out@[j].view_of() == NbtV::Long(items@[j]),
                    decreases items.len() - i,
                {
                    out.push(NbtTag::Long(items[i]));
                    i += 1;
                }
                proof {
                    assert(out.deep_view() =~= Seq::new(
                        items@.len(),
                        |j: int| NbtV::Long(items@[j]),
                    ));
                }
                DataResult::success(out)
            },
            _ => crate::json_ops::error_result("Not a list"),
        }
    }

    /// Merges a key-value pair into a compound-shaped tag: valid when the
    /// target is a compound or the end marker, and the key is a string.
    pub fn merge_into_map(&self, map: NbtTag, key: NbtTag, value: NbtTag) -> (r: DataResult<
        NbtTag,
    >)
        ensures
            r.deep_view() == merge_into_map_spec(map.view_of(), key.view_of(), value.view_of()),
    {
        let mut entries: Vec<(String, NbtTag)> = match map {
            NbtTag::End => Vec::new(),
            NbtTag::Compound(entries) => entries,
            other => {
                return DataResult::error_partial(String::from_str("Not a map"), other);
            },
        };
        match key {
            NbtTag::Str(k) => {
                nbt_put_entry(&mut entries, k, value);
                DataResult::success(NbtTag::Compound(entries))
            },
            _ => DataResult::error_partial(
                String::from_str("Key is not a string"),
                NbtTag::Compound(entries),
            ),
        }
    }

    /// Returns a fresh builder for compound-shaped tags.
    pub fn map_builder(&self) -> (r: NbtStructBuilder)
        ensures
            r.builder.deep_view() == (DataResultV::Success {
                result: NbtV::Compound(Seq::<(Seq<char>, NbtV)>::empty()),
                lifecycle: crate::lifecycle::Lifecycle::Stable,
            }),
    {
        let r = NbtStructBuilder {
            builder: DataResult::success_with_lifecycle(
                NbtTag::Compound(Vec::new()),
                crate::lifecycle::Lifecycle::Stable,
            ),
        };
        proof {
            assert(nbt_obj_view(Seq::empty()) =~= Seq::<(Seq<char>, NbtV)>::empty());
        }
        r
    }
}

/// The elements of a vector of tags are the vector's deep view.
pub proof fn lemma_nbt_arr_is_deep(v: Vec<NbtTag>)
    ensures
        nbt_arr_view(v@) == v.deep_view(),
{
    lemma_nbt_arr_view_index(v@);
    assert(nbt_arr_view(v@) =~= v.deep_view());
}

/// Inserts a key-value pair among compound entries: an existing entry with
/// the same key is replaced in place, otherwise the pair is appended.
pub open spec fn nbt_obj_insert(
    entries: Seq<(Seq<char>, NbtV)>,
    key: Seq<char>,
    value: NbtV,
) -> Seq<(Seq<char>, NbtV)>
    decreases entries.len(),
{
    if entries.len() == 0 {
        seq![(key, value)]
    } else if entries[0].0 == key {
        seq![(key, value)] + entries.skip(1)
    } else {
        seq![entries[0]] + nbt_obj_insert(entries.skip(1), key, value)
    }
}

/// When the key first occurs at position `j`, an insert replaces that entry
/// in place.
pub proof fn lemma_nbt_obj_insert_found(
    entries: Seq<(Seq<char>, NbtV)>,
    key: Seq<char>,
    value: NbtV,
    j: int,
)
    requires
        0 <= j < entries.len(),
        entries[j].0 == key,
        forall|k: int| 0 <= k < j ==> entries[k].0 != key,
    ensures
        nbt_obj_insert(entries, key, value) =~= entries.update(j, (key, value)),
    decreases j,
{
    if j == 0 {
    } else {
        lemma_nbt_obj_insert_found(entries.skip(1), key, value, j - 1);
        assert(entries.skip(1)[j - 1] == entries[j]);
        assert(entries.skip(1).update(j - 1, (key, value)) =~= entries.update(
            j,
            (key, value),
        ).skip(1));
    }
}

/// When the key occurs nowhere, an insert appends the entry at the end.
pub proof fn lemma_nbt_obj_insert_missing(
    entries: Seq<(Seq<char>, NbtV)>,
    key: Seq<char>,
    value: NbtV,
)
    requires
        forall|k: int| 0 <= k < entries.len() ==> entries[k].0 != key,
    ensures
        nbt_obj_insert(entries, key, value) =~= entries.push((key, value)),
    decreases entries.len(),
{
    if entries.len() > 0 {
        lemma_nbt_obj_insert_missing(entries.skip(1), key, value);
        assert(entries.skip(1).push((key, value)) =~= entries.push((key, value)).skip(1));
    }
}

/// What merging a key-value pair into a compound returns.
pub open spec fn merge_into_map_spec(m: NbtV, k: NbtV, v: NbtV) -> DataResultV<NbtV> {
    match m {
        NbtV::End => match k {
            NbtV::Str(key) => success_v(NbtV::Compound(nbt_obj_insert(Seq::empty(), key, v))),
            _ => error_partial_v(
                "Key is not a string"@,
                NbtV::Compound(Seq::<(Seq<char>, NbtV)>::empty()),
            ),
        },
        NbtV::Compound(entries) => match k {
            NbtV::Str(key) => success_v(NbtV::Compound(nbt_obj_insert(entries, key, v))),
            _ => error_partial_v("Key is not a string"@, NbtV::Compound(entries)),
        },
        _ => error_partial_v("Not a map"@, m),
    }
}

/// Replaces the first entry with the given key in place, or appends the
/// entry when the key is absent.
#[verifier::loop_isolation(false)]
fn nbt_put_entry(entries: &mut Vec<(String, NbtTag)>, key: String, value: NbtTag)
    ensures
        nbt_obj_view(final(entries)@) == nbt_obj_insert(
            nbt_obj_view(old(entries)@),
            key@,
            value.view_of(),
        ),
{
    proof {
        lemma_nbt_obj_view_index(entries@);
    }
    let ghost old_entries = nbt_obj_view(entries@);
    let mut i: usize = 0;
    while i < entries.len()
        invariant
            i <= entries@.len(),
            old_entries == nbt_obj_view(entries@),
            old_entries.len() == entries@.len(),
            forall|j: int|
                0 <= j < entries@.len() ==> #[trigger] old_entries[j] == (
                    entries@[j].0@,
                    entries@[j].1.view_of(),
                ),
            forall|j: int| 0 <= j < i ==> old_entries[j].0 != key@,
        decreases entries@.len() - i,
    {
        if crate::text::str_eq(entries[i].0.as_str(), key.as_str()) {
            proof {
                lemma_nbt_obj_insert_found(old_entries, key@, value.view_of(), i as int);
            }
            entries.set(i, (key, value));
            proof {
                lemma_nbt_obj_view_index(entries@);
                assert(nbt_obj_view(entries@) =~= old_entries.update(
                    i as int,
                    (key@, value.view_of()),
                ));
            }
            return ;
        }
        i += 1;
    }
    proof {
        lemma_nbt_obj_insert_missing(old_entries, key@, value.view_of());
    }
    entries.push((key, value));
    proof {
        lemma_nbt_obj_view_index(entries@);
        assert(nbt_obj_view(entries@) =~= old_entries.push((key@, value.view_of())));
    }
}

/// A builder assembling a compound-shaped tag from string-keyed values.
pub struct NbtStructBuilder {
    /// The compound collected so far, or the error met while collecting.
    pub builder: DataResult<NbtTag>,
}

impl NbtStructBuilder {
    /// Adds a string key-'value result' pair to this builder, with the
    /// applicative rules: messages join, a compound survives as a partial
    /// value, and the result is stable.
    #[must_use]
    pub fn add_string_key_value_result(self, key: &str, value: DataResult<NbtTag>) -> (r: Self)
        ensures
            r.builder.deep_view() == nbt_builder_add(
                self.builder.deep_view(),
                key@,
                value.deep_view(),
            ),
    {
        let both_success = self.builder.is_success() && value.is_success();
        let (b, m1) = split_tag(self.builder);
        let (v, m2) = split_tag(value);
        let merged = crate::data_result::merge_messages(m1, m2);
        let builder = match (b, v) {
            (Some(b), Some(v)) => {
                let appended = nbt_append(b, key, v);
                if both_success {
                    DataResult::Success {
                        result: appended,
                        lifecycle: crate::lifecycle::Lifecycle::Stable,
                    }
                } else {
                    match merged {
                        Some(message) => DataResult::Error {
                            partial_result: Some(appended),
                            lifecycle: crate::lifecycle::Lifecycle::Stable,
                            message,
                        },
                        None => vstd::pervasive::unreached(),
                    }
                }
            },
            _ => {
                match merged {
                    Some(message) => DataResult::Error {
                        partial_result: None,
                        lifecycle: crate::lifecycle::Lifecycle::Stable,
                        message,
                    },
                    None => vstd::pervasive::unreached(),
                }
            },
        };
        NbtStructBuilder { builder }
    }

    /// Builds the compound stored in this builder over a prefix: the end
    /// marker takes the compound as it is, and a compound prefix receives
    /// the collected entries.
    pub fn build(self, prefix: NbtTag) -> (r: DataResult<NbtTag>)
        ensures
            r.deep_view() == nbt_builder_build(self.builder.deep_view(), prefix.view_of()),
    {
        match self.builder {
            DataResult::Success { result, lifecycle } => build_with_tag(
                result,
                prefix,
            ).add_lifecycle(lifecycle),
            DataResult::Error { partial_result: Some(b), lifecycle, message } => {
                let second = build_with_tag(b, prefix);
                let combined = second.lifecycle().add(lifecycle);
                match second {
                    DataResult::Success { result, .. } => DataResult::Error {
                        partial_result: Some(result),
                        message,
                        lifecycle: combined,
                    },
                    DataResult::Error { partial_result, message: second_message, .. } => DataResult::Error {
                        partial_result,
                        message: DataResult::<NbtTag>::append_messages(
                            message.as_str(),
                            second_message.as_str(),
                        ),
                        lifecycle: combined,
                    },
                }
            },
            DataResult::Error { partial_result: None, lifecycle, message } => DataResult::Error {
                partial_result: None,
                lifecycle,
                message,
            },
        }
    }
}

/// A key-value pair folded into the collected compound, at the specification
/// level.
pub open spec fn nbt_builder_add(
    acc: DataResultV<NbtV>,
    key: Seq<char>,
    v: DataResultV<NbtV>,
) -> DataResultV<NbtV> {
    let merged = crate::data_result::merge_msg_opt(acc.message_of(), v.message_of());
    match (acc.value_of(), v.value_of()) {
        (Some(b), Some(x)) => {
            if acc is Success && v is Success {
                DataResultV::Success {
                    result: nbt_append_v(b, key, x),
                    lifecycle: crate::lifecycle::Lifecycle::Stable,
                }
            } else {
                DataResultV::Error {
                    partial_result: Some(nbt_append_v(b, key, x)),
                    lifecycle: crate::lifecycle::Lifecycle::Stable,
                    message: merged->0,
                }
            }
        },
        _ => DataResultV::Error {
            partial_result: None,
            lifecycle: crate::lifecycle::Lifecycle::Stable,
            message: merged->0,
        },
    }
}

/// A key-value pair appended to a compound-shaped tag; any other tag keeps
/// its shape.
pub open spec fn nbt_append_v(b: NbtV, key: Seq<char>, v: NbtV) -> NbtV {
    match b {
        NbtV::Compound(entries) => NbtV::Compound(nbt_obj_insert(entries, key, v)),
        _ => b,
    }
}

/// What building the collected compound over a prefix returns.
pub open spec fn nbt_builder_build(acc: DataResultV<NbtV>, prefix: NbtV) -> DataResultV<NbtV> {
    match acc.value_of() {
        Some(b) => acc.flat_map_step(build_with_tag_spec(b, prefix)),
        None => acc.flat_map_step(arbitrary::<DataResultV<NbtV>>()),
    }
}

/// What merging a collected compound into a prefix returns: the end marker
/// takes the compound as it is, and a compound prefix receives the entries.
pub open spec fn build_with_tag_spec(b: NbtV, prefix: NbtV) -> DataResultV<NbtV> {
    match prefix {
        NbtV::End => success_v(b),
        NbtV::Compound(entries) => match b {
            NbtV::Compound(collected) => success_v(
                NbtV::Compound(nbt_obj_insert_all(entries, collected)),
            ),
            _ => success_v(NbtV::Compound(entries)),
        },
        _ => error_partial_v("Prefix is not a map"@, prefix),
    }
}

/// Inserts each collected entry into a prefix compound, in order.
pub open spec fn nbt_obj_insert_all(
    entries: Seq<(Seq<char>, NbtV)>,
    collected: Seq<(Seq<char>, NbtV)>,
) -> Seq<(Seq<char>, NbtV)>
    decreases collected.len(),
{
    if collected.len() == 0 {
        entries
    } else {
        nbt_obj_insert_all(
            nbt_obj_insert(entries, collected[0].0, collected[0].1),
            collected.skip(1),
        )
    }
}

/// Appends a key-value pair to a compound-shaped tag; any other tag keeps
/// its shape.
fn nbt_append(b: NbtTag, key: &str, v: NbtTag) -> (r: NbtTag)
    ensures
        r.view_of() == nbt_append_v(b.view_of(), key@, v.view_of()),
{
    match b {
        NbtTag::Compound(entries) => {
            let mut entries = entries;
            nbt_put_entry(&mut entries, String::from_str(key), v);
            NbtTag::Compound(entries)
        },
        other => other,
    }
}

/// Merges a collected compound into a prefix tag.
#[verifier::loop_isolation(false)]
fn build_with_tag(b: NbtTag, prefix: NbtTag) -> (r: DataResult<NbtTag>)
    ensures
        r.deep_view() == build_with_tag_spec(b.view_of(), prefix.view_of()),
{
    match prefix {
        NbtTag::End => DataResult::success(b),
        NbtTag::Compound(entries) => {
            match b {
                NbtTag::Compound(collected) => {
                    let ghost base = nbt_obj_view(entries@);
                    let ghost cv = nbt_obj_view(collected@);
                    proof {
                        lemma_nbt_obj_view_index(collected@);
                        assert(cv.skip(0) =~= cv);
                    }
                    let mut entries = entries;
                    let mut collected = collected;
                    let n = collected.len();
                    let mut i: usize = 0;
                    while i < n
                        invariant
                            i <= n,
                            collected@.len() + i == n,
                            cv.len() == n,
                            forall|j: int|
                                0 <= j < collected@.len() ==> #[trigger] nbt_obj_view(
                                    collected@,
                                )[j] == cv[j + i],
                            nbt_obj_insert_all(nbt_obj_view(entries@), cv.skip(i as int))
                                == nbt_obj_insert_all(base, cv),
                        decreases n - i,
                    {
                        let ghost before = collected@;
                        proof {
                            lemma_nbt_obj_view_index(collected@);
                            let rest = cv.skip(i as int);
                            assert(rest[0] == cv[i as int]);
                            assert(rest.skip(1) =~= cv.skip(i + 1));
                            assert(nbt_obj_view(before)[0] == cv[0 + i]);
                        }
                        let entry = collected.remove(0);
                        proof {
                            lemma_nbt_obj_view_index(collected@);
                            lemma_nbt_obj_view_index(before);
                            assert forall|j: int| 0 <= j < collected@.len() implies #[trigger]
                            nbt_obj_view(collected@)[j] == cv[j + i + 1] by {
                                assert(collected@[j] == before[j + 1]);
                                assert(nbt_obj_view(before)[j + 1] == cv[(j + 1) + i]);
                            }
                            assert((entry.0@, entry.1.view_of()) == cv[i as int]);
                        }
                        nbt_put_entry(&mut entries, entry.0, entry.1);
                        i += 1;
                    }
                    proof {
                        assert(cv.skip(n as int) =~= Seq::<(Seq<char>, NbtV)>::empty());
                    }
                    DataResult::success(NbtTag::Compound(entries))
                },
                other => {
                    proof {
                        crate::nbt_ops::lemma_view_compound_variant(&other);
                    }
                    DataResult::success(NbtTag::Compound(entries))
                },
            }
        },
        other => DataResult::error_partial(String::from_str("Prefix is not a map"), other),
    }
}

/// A tag whose view is not a compound is itself not the compound variant.
pub proof fn lemma_view_compound_variant(x: &NbtTag)
    ensures
        (x.view_of() is Compound) <==> (*x is Compound),
{
    match x {
        NbtTag::Compound(_) => {},
        _ => {},
    }
}

/// Splits a tag result into its value and its message.
fn split_tag(r: DataResult<NbtTag>) -> (out: (Option<NbtTag>, Option<String>))
    ensures
        match out.0 {
            Some(v) => r.deep_view().value_of() == Some(v.view_of()),
            None => r.deep_view().value_of() is None,
        },
        crate::data_result::msg_opt_seq(out.1) == r.deep_view().message_of(),
        out.1 is None ==> out.0 is Some,
{
    match r {
        DataResult::Success { result, .. } => (Some(result), None),
        DataResult::Error { partial_result, message, .. } => (partial_result, Some(message)),
    }
}

} // verus!
