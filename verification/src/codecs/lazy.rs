use crate::coders::{Codec, Decoder, Encoder, HasValue};
use crate::data_result::{DataResult, DataResultV};
use crate::json::{JsonV, JsonValue};
use crate::json_ops::JsonOps;
use vstd::prelude::*;

verus! {

/// A supplier of a codec, for deferred construction: `get` builds the codec,
/// and every call builds the same one, so a lazy wrapper may run it at any
/// time. Implement it to break a cyclic codec graph: the supplier's body may
/// refer back to the codec under construction without evaluating it until
/// the wrapper is first used.
pub trait CodecSupplier {
    /// The codec this supplier builds.
    type C: Codec;

    /// The built codec, at the specification level.
    spec fn codec_spec(&self) -> Self::C;

    /// Builds the codec; every call returns the same codec.
    fn get(&self) -> (r: Self::C)
        ensures
            r == self.codec_spec(),
    ;
}

#[verifier::external_type_specification]
#[verifier::external_body]
#[verifier::reject_recursive_types(T)]
pub struct ExOnceLock<T>(std::sync::OnceLock<T>);

/// Relies on `std::sync::OnceLock::new`: an empty cell.
#[verifier::external_body]
fn new_once_lock<T>() -> (r: std::sync::OnceLock<T>) {
    std::sync::OnceLock::new()
}

/// A codec built from a [`CodecSupplier`] on first use. The supplier runs at
/// most once — on the first encode or decode, not at construction — and the
/// single codec it builds serves every later call.
pub struct LazyCodec<S: CodecSupplier> {
    /// The supplier of the codec.
    supplier: S,
    /// The cell holding the codec once it is built. It is initialized in one
    /// place only, with `supplier.get()`.
    cell: std::sync::OnceLock<S::C>,
}

/// Creates a new [`LazyCodec`]; the supplier runs at most once, on first
/// use.
pub fn new_lazy_codec<S: CodecSupplier>(supplier: S) -> (r: LazyCodec<S>)
    ensures
        r.codec_of() == supplier.codec_spec(),
{
    LazyCodec { supplier, cell: new_once_lock() }
}

impl<S: CodecSupplier> LazyCodec<S> {
    /// The codec this lazy wrapper delegates to: the one its supplier
    /// builds.
    pub closed spec fn codec_of(&self) -> S::C {
        self.supplier.codec_spec()
    }

    /// Relies on `std::sync::OnceLock::get_or_init`: the first call runs the
    /// initializer and stores its result, and every later call returns the
    /// stored value. The cell is private and initialized in this one place,
    /// always with this supplier's codec, so whichever call came first the
    /// returned codec is the supplier's.
    #[verifier::external_body]
    fn force(&self) -> (r: &S::C)
        ensures
            *r == self.codec_of(),
    {
        self.cell.get_or_init(|| self.supplier.get())
    }
}

impl<S: CodecSupplier> HasValue for LazyCodec<S> {
    type Value = <S::C as HasValue>::Value;
}

impl<S: CodecSupplier> Encoder for LazyCodec<S> {
    open spec fn encode_spec(
        &self,
        input: <<S::C as HasValue>::Value as DeepView>::V,
        ops: JsonOps,
        prefix: JsonV,
    ) -> DataResultV<JsonV> {
        self.codec_of().encode_spec(input, ops, prefix)
    }

    fn encode(&self, input: &<S::C as HasValue>::Value, ops: &JsonOps, prefix: JsonValue) -> (r:
        DataResult<JsonValue>) {
        self.force().encode(input, ops, prefix)
    }
}

impl<S: CodecSupplier> Decoder for LazyCodec<S> {
    open spec fn decode_spec(&self, input: JsonV, ops: JsonOps) -> DataResultV<
        (<<S::C as HasValue>::Value as DeepView>::V, JsonV),
    > {
        self.codec_of().decode_spec(input, ops)
    }

    fn decode(&self, input: JsonValue, ops: &JsonOps) -> (r: DataResult<
        (<S::C as HasValue>::Value, JsonValue),
    >) {
        self.force().decode(input, ops)
    }
}

} // verus!
