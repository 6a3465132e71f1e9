use vstd::prelude::*;

verus! {

/// A marker conveying the lifecycle of some piece of serialized data.
/// It can be stable, experimental, or deprecated since some version.
#[derive(Clone, Copy, Debug, PartialEq, Eq, Structural)]
pub enum Lifecycle {
    /// Represents something stable.
    Stable,
    /// Represents something experimental.
    Experimental,
    /// Represents something deprecated. The `u32` is the version from which
    /// the data was marked deprecated: a smaller number means deprecated
    /// earlier, a bigger number means deprecated later.
    Deprecated(u32),
}

impl DeepView for Lifecycle {
    type V = Lifecycle;

    open spec fn deep_view(&self) -> Lifecycle {
        *self
    }
}

impl Lifecycle {
    /// The result of merging two lifecycles, as a specification-level function.
    pub open spec fn add_spec(self, other: Self) -> Self {
        match (self, other) {
            (Lifecycle::Experimental, _) => Lifecycle::Experimental,
            (_, Lifecycle::Experimental) => Lifecycle::Experimental,
            (Lifecycle::Deprecated(a), Lifecycle::Deprecated(b)) => if a < b {
                self
            } else {
                other
            },
            (Lifecycle::Deprecated(_), _) => self,
            (_, Lifecycle::Deprecated(_)) => other,
            _ => Lifecycle::Stable,
        }
    }

    /// Merges this lifecycle with another, returning the more restrictive one:
    /// - If at least one of the lifecycles is *experimental*, the result is
    ///   [`Lifecycle::Experimental`].
    /// - If both lifecycles are *deprecated*, the earlier-deprecated one wins.
    /// - If exactly one lifecycle is *deprecated*, that lifecycle is returned.
    /// - Otherwise, the result is [`Lifecycle::Stable`].
    #[must_use]
    pub fn add(self, other: Self) -> (r: Self)
        ensures
            r == self.add_spec(other),
    {
        match (self, other) {
            (Self::Experimental, _) | (_, Self::Experimental) => Self::Experimental,
            (Self::Deprecated(a), Self::Deprecated(b)) => {
                if a < b {
                    Self::Deprecated(a)
                } else {
                    Self::Deprecated(b)
                }
            },
            (Self::Deprecated(a), _) => Self::Deprecated(a),
            (_, Self::Deprecated(b)) => Self::Deprecated(b),
            _ => Self::Stable,
        }
    }
}

/// Merging lifecycles is commutative.
pub proof fn lemma_lifecycle_add_commutative(a: Lifecycle, b: Lifecycle)
    ensures
        a.add_spec(b) == b.add_spec(a),
{
}

/// Merging lifecycles is associative.
pub proof fn lemma_lifecycle_add_associative(a: Lifecycle, b: Lifecycle, c: Lifecycle)
    ensures
        a.add_spec(b).add_spec(c) == a.add_spec(b.add_spec(c)),
{
}

/// `Stable` is the identity of the merge operation: merging with `Stable`
/// on either side leaves a lifecycle unchanged.
pub proof fn lemma_lifecycle_add_stable_identity(a: Lifecycle)
    ensures
        Lifecycle::Stable.add_spec(a) == a,
        a.add_spec(Lifecycle::Stable) == a,
{
}

} // verus!
