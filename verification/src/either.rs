use vstd::prelude::*;

verus! {

/// A value that can store a value of one of two types.
#[must_use]
#[derive(Debug, PartialEq, Eq, Clone)]
pub enum Either<L, R> {
    /// The `Either` value of the left type.
    Left(L),
    /// The `Either` value of the right type.
    Right(R),
}

impl<L, R> Either<L, R> {
    /// The left value at the specification level, if any.
    pub open spec fn left_of(self) -> Option<L> {
        match self {
            Either::Left(l) => Some(l),
            Either::Right(_) => None,
        }
    }

    /// The right value at the specification level, if any.
    pub open spec fn right_of(self) -> Option<R> {
        match self {
            Either::Left(_) => None,
            Either::Right(r) => Some(r),
        }
    }

    /// Returns the left value wrapped in a `Some` if this `Either` holds the
    /// left type, and `None` otherwise.
    pub fn left(self) -> (r: Option<L>)
        ensures
            r == self.left_of(),
    {
        match self {
            Self::Left(l) => Some(l),
            Self::Right(_) => None,
        }
    }

    /// Returns the right value wrapped in a `Some` if this `Either` holds the
    /// right type, and `None` otherwise.
    pub fn right(self) -> (r: Option<R>)
        ensures
            r == self.right_of(),
    {
        match self {
            Self::Left(_) => None,
            Self::Right(r) => Some(r),
        }
    }

    /// Maps this `Either`'s value to a common type, handing the stored value
    /// to whichever of the two functions matches its side.
    pub fn map<T, FL: FnOnce(L) -> T, FR: FnOnce(R) -> T>(self, left: FL, right: FR) -> (r: T)
        requires
            self matches Either::Left(l) ==> call_requires(left, (l,)),
            self matches Either::Right(v) ==> call_requires(right, (v,)),
        ensures
            self matches Either::Left(l) ==> call_ensures(left, (l,), r),
            self matches Either::Right(v) ==> call_ensures(right, (v,), r),
    {
        match self {
            Self::Left(l) => left(l),
            Self::Right(r) => right(r),
        }
    }

    /// Maps each side of this `Either` with its own function, returning a new
    /// `Either` on the same side.
    pub fn map_both<L2, R2, FL: FnOnce(L) -> L2, FR: FnOnce(R) -> R2>(self, left: FL, right: FR) -> (r:
        Either<L2, R2>)
        requires
            self matches Either::Left(l) ==> call_requires(left, (l,)),
            self matches Either::Right(v) ==> call_requires(right, (v,)),
        ensures
            self matches Either::Left(l) ==> r matches Either::Left(l2) && call_ensures(
                left,
                (l,),
                l2,
            ),
            self matches Either::Right(v) ==> r matches Either::Right(r2) && call_ensures(
                right,
                (v,),
                r2,
            ),
    {
        match self {
            Self::Left(l) => Either::Left(left(l)),
            Self::Right(r) => Either::Right(right(r)),
        }
    }

    /// Hands the left value to the provided consumer function, if this
    /// `Either` holds the left type.
    pub fn consume_if_left<F: FnOnce(L)>(self, consumer: F)
        requires
            self matches Either::Left(l) ==> call_requires(consumer, (l,)),
    {
        if let Self::Left(l) = self {
            consumer(l);
        }
    }

    /// Hands the right value to the provided consumer function, if this
    /// `Either` holds the right type.
    pub fn consume_if_right<F: FnOnce(R)>(self, consumer: F)
        requires
            self matches Either::Right(r) ==> call_requires(consumer, (r,)),
    {
        if let Self::Right(r) = self {
            consumer(r);
        }
    }

    /// Unwraps the left value of this `Either`, returning it wrapped in a
    /// [`Some`], if any. If no such value exists, this returns [`None`].
    pub fn into_left(self) -> (r: Option<L>)
        ensures
            r == self.left_of(),
    {
        if let Self::Left(l) = self {
            Some(l)
        } else {
            None
        }
    }

    /// Unwraps the right value of this `Either`, returning it wrapped in a
    /// [`Some`], if any. If no such value exists, this returns [`None`].
    pub fn into_right(self) -> (r: Option<R>)
        ensures
            r == self.right_of(),
    {
        if let Self::Right(r) = self {
            Some(r)
        } else {
            None
        }
    }

    /// Unwraps the left value of this `Either`, which the caller must know to
    /// be present.
    pub fn unwrap_left(self) -> (r: L)
        requires
            self is Left,
        ensures
            Some(r) == self.left_of(),
    {
        self.expect_left("No left value found in Either")
    }

    /// Unwraps the right value of this `Either`, which the caller must know
    /// to be present.
    pub fn unwrap_right(self) -> (r: R)
        requires
            self is Right,
        ensures
            Some(r) == self.right_of(),
    {
        self.expect_right("No right value found in Either")
    }

    /// Unwraps the left value of this `Either`, which the caller must know to
    /// be present. The message names the caller's expectation.
    pub fn expect_left(self, message: &str) -> (r: L)
        requires
            self is Left,
        ensures
            Some(r) == self.left_of(),
    {
        match self {
            Self::Left(l) => l,
            Self::Right(_) => vstd::pervasive::unreached(),
        }
    }

    /// Unwraps the right value of this `Either`, which the caller must know
    /// to be present. The message names the caller's expectation.
    pub fn expect_right(self, message: &str) -> (r: R)
        requires
            self is Right,
        ensures
            Some(r) == self.right_of(),
    {
        match self {
            Self::Left(_) => vstd::pervasive::unreached(),
            Self::Right(r) => r,
        }
    }
}

impl<L: DeepView, R: DeepView> DeepView for Either<L, R> {
    type V = Either<L::V, R::V>;

    open spec fn deep_view(&self) -> Self::V {
        match self {
            Either::Left(l) => Either::Left(l.deep_view()),
            Either::Right(r) => Either::Right(r.deep_view()),
        }
    }
}

} // verus!
