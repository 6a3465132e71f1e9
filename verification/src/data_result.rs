use crate::lifecycle::Lifecycle;
use vstd::prelude::*;
use vstd::string::StringExecFns;

verus! {

/// Specification-level model of a [`DataResult`]: the same shape, with the
/// message modelled as a sequence of characters and the payload modelled by
/// the payload type's deep view.
pub enum DataResultV<R> {
    /// Contains a complete result and has no error.
    Success { result: R, lifecycle: Lifecycle },
    /// Contains no result or a partial result, and has an error message.
    Error { partial_result: Option<R>, lifecycle: Lifecycle, message: Seq<char> },
}

impl<R> DataResultV<R> {
    /// The lifecycle carried by this result.
    pub open spec fn lifecycle_of(self) -> Lifecycle {
        match self {
            DataResultV::Success { lifecycle, .. } => lifecycle,
            DataResultV::Error { lifecycle, .. } => lifecycle,
        }
    }

    /// The complete or partial value carried by this result, if any.
    pub open spec fn value_of(self) -> Option<R> {
        match self {
            DataResultV::Success { result, .. } => Some(result),
            DataResultV::Error { partial_result, .. } => partial_result,
        }
    }

    /// The complete value carried by this result, if any.
    pub open spec fn complete_of(self) -> Option<R> {
        match self {
            DataResultV::Success { result, .. } => Some(result),
            DataResultV::Error { .. } => None,
        }
    }

    /// The error message, if this is an error.
    pub open spec fn message_of(self) -> Option<Seq<char>> {
        match self {
            DataResultV::Success { .. } => None,
            DataResultV::Error { message, .. } => Some(message),
        }
    }

    /// Whether this result holds a complete or partial value.
    pub open spec fn has_value(self) -> bool {
        self.value_of() is Some
    }

    /// The same result with its lifecycle replaced.
    pub open spec fn with_lifecycle_v(self, new_lifecycle: Lifecycle) -> Self {
        match self {
            DataResultV::Success { result, .. } => DataResultV::Success {
                result,
                lifecycle: new_lifecycle,
            },
            DataResultV::Error { partial_result, message, .. } => DataResultV::Error {
                partial_result,
                message,
                lifecycle: new_lifecycle,
            },
        }
    }

    /// The same result with another lifecycle merged into its own.
    pub open spec fn add_lifecycle_v(self, added: Lifecycle) -> Self {
        self.with_lifecycle_v(self.lifecycle_of().add_spec(added))
    }

    /// An error result keeps its message but the partial value is replaced;
    /// a success passes through unchanged.
    pub open spec fn with_partial_v(self, partial_value: R) -> Self {
        match self {
            DataResultV::Success { .. } => self,
            DataResultV::Error { message, lifecycle, .. } => DataResultV::Error {
                partial_result: Some(partial_value),
                message,
                lifecycle,
            },
        }
    }

    /// Replaces the payload while keeping the success / partial / no-result
    /// shape of this result.
    pub open spec fn with_complete_or_partial_v<T>(self, value: T) -> DataResultV<T> {
        match self {
            DataResultV::Success { lifecycle, .. } => DataResultV::Success { result: value, lifecycle },
            DataResultV::Error { partial_result: Some(_), message, lifecycle } => DataResultV::Error {
                partial_result: Some(value),
                message,
                lifecycle,
            },
            DataResultV::Error { message, lifecycle, .. } => DataResultV::Error {
                partial_result: None,
                message,
                lifecycle,
            },
        }
    }

    /// Folds the message of `other` into this result; the combined result is
    /// always stable, and it keeps a partial value only when both results
    /// carry a value.
    pub open spec fn add_message_v<T>(self, other: DataResultV<T>) -> Self {
        match (self, other) {
            (DataResultV::Success { result, .. }, DataResultV::Success { .. }) => DataResultV::Success {
                result,
                lifecycle: Lifecycle::Stable,
            },
            (
                DataResultV::Error { partial_result: p1, message: m1, .. },
                DataResultV::Error { partial_result: p2, message: m2, .. },
            ) => DataResultV::Error {
                partial_result: if p1 is Some && p2 is Some {
                    p1
                } else {
                    None
                },
                message: join_messages(m1, m2),
                lifecycle: Lifecycle::Stable,
            },
            (DataResultV::Error { message: m1, .. }, _) => DataResultV::Error {
                partial_result: None,
                message: m1,
                lifecycle: Lifecycle::Stable,
            },
            (_, DataResultV::Error { message: m2, .. }) => DataResultV::Error {
                partial_result: None,
                message: m2,
                lifecycle: Lifecycle::Stable,
            },
        }
    }

    /// This result paired with another by the applicative rules: the pair is
    /// stable, messages join in order, and a value survives only when both
    /// sides hold one.
    pub open spec fn apply_pair<T2>(self, other: DataResultV<T2>) -> DataResultV<(R, T2)> {
        let merged = merge_msg_opt(self.message_of(), other.message_of());
        match (self.value_of(), other.value_of()) {
            (Some(a), Some(b)) => {
                if self is Success && other is Success {
                    DataResultV::Success { result: (a, b), lifecycle: Lifecycle::Stable }
                } else {
                    DataResultV::Error {
                        partial_result: Some((a, b)),
                        lifecycle: Lifecycle::Stable,
                        message: merged->0,
                    }
                }
            },
            _ => DataResultV::Error {
                partial_result: None,
                lifecycle: Lifecycle::Stable,
                message: merged->0,
            },
        }
    }

    /// The combination that `flat_map` applies once the output of the chained
    /// function is known: `second` is what the function returned for the
    /// complete or partial value of `first`.
    pub open spec fn flat_map_step<T>(self, second: DataResultV<T>) -> DataResultV<T> {
        match self {
            DataResultV::Success { lifecycle, .. } => second.add_lifecycle_v(lifecycle),
            DataResultV::Error { partial_result: Some(_), lifecycle, message } => {
                let combined = second.lifecycle_of().add_spec(lifecycle);
                match second {
                    DataResultV::Success { result, .. } => DataResultV::Error {
                        partial_result: Some(result),
                        message,
                        lifecycle: combined,
                    },
                    DataResultV::Error { partial_result, message: second_message, .. } => DataResultV::Error {
                        partial_result,
                        message: join_messages(message, second_message),
                        lifecycle: combined,
                    },
                }
            },
            DataResultV::Error { lifecycle, message, .. } => DataResultV::Error {
                partial_result: None,
                lifecycle,
                message,
            },
        }
    }
}

/// Two error messages joined with `"; "`, the library's message separator.
pub open spec fn join_messages(first: Seq<char>, second: Seq<char>) -> Seq<char> {
    first + "; "@ + second
}

/// A successful result with an experimental lifecycle, at the specification
/// level.
pub open spec fn success_v<T>(value: T) -> DataResultV<T> {
    DataResultV::Success { result: value, lifecycle: Lifecycle::Experimental }
}

/// An error result with no value and an experimental lifecycle, at the
/// specification level.
pub open spec fn error_v<T>(message: Seq<char>) -> DataResultV<T> {
    DataResultV::Error { partial_result: None, lifecycle: Lifecycle::Experimental, message }
}

/// An error result carrying a partial value, with an experimental lifecycle,
/// at the specification level.
pub open spec fn error_partial_v<T>(message: Seq<char>, partial: T) -> DataResultV<T> {
    DataResultV::Error {
        partial_result: Some(partial),
        lifecycle: Lifecycle::Experimental,
        message,
    }
}

/// A result that can either represent a successful value, or a *partial* or
/// missing value together with an error message.
///
/// `R` is the type of result stored.
#[derive(Clone, Debug)]
pub enum DataResult<R> {
    /// Contains a complete result and has no error.
    Success { result: R, lifecycle: Lifecycle },
    /// Contains no result or a partial result, and has an error message.
    Error { partial_result: Option<R>, lifecycle: Lifecycle, message: String },
}

impl<R: DeepView> DeepView for DataResult<R> {
    type V = DataResultV<R::V>;

    open spec fn deep_view(&self) -> Self::V {
        match self {
            DataResult::Success { result, lifecycle } => DataResultV::Success {
                result: result.deep_view(),
                lifecycle: *lifecycle,
            },
            DataResult::Error { partial_result, lifecycle, message } => DataResultV::Error {
                partial_result: partial_result.deep_view(),
                lifecycle: *lifecycle,
                message: message.deep_view(),
            },
        }
    }
}

impl<R> DataResult<R> {
    /// The complete or partial value carried by this result, if any, at the
    /// specification level and without going through views.
    pub open spec fn contained_value(self) -> Option<R> {
        match self {
            DataResult::Success { result, .. } => Some(result),
            DataResult::Error { partial_result, .. } => partial_result,
        }
    }

    /// Returns this result's lifecycle.
    pub fn lifecycle(&self) -> (r: Lifecycle)
        ensures
            r == match self {
                DataResult::Success { lifecycle, .. } => *lifecycle,
                DataResult::Error { lifecycle, .. } => *lifecycle,
            },
    {
        match self {
            Self::Success { lifecycle, .. } => *lifecycle,
            Self::Error { lifecycle, .. } => *lifecycle,
        }
    }

    /// Returns a *successful* result with an experimental lifecycle.
    pub fn success(result: R) -> (r: Self)
        ensures
            r == (DataResult::Success { result, lifecycle: Lifecycle::Experimental }),
    {
        Self::Success { result, lifecycle: Lifecycle::Experimental }
    }

    /// Returns a *successful* result with the given lifecycle.
    pub fn success_with_lifecycle(result: R, lifecycle: Lifecycle) -> (r: Self)
        ensures
            r == (DataResult::Success { result, lifecycle }),
    {
        Self::Success { result, lifecycle }
    }

    /// Returns an *errored* result with no value and an experimental lifecycle.
    pub fn error(message: String) -> (r: Self)
        ensures
            r == (DataResult::Error {
                partial_result: None::<R>,
                lifecycle: Lifecycle::Experimental,
                message,
            }),
    {
        Self::Error { partial_result: None, lifecycle: Lifecycle::Experimental, message }
    }

    /// Returns an *errored* result with a partial value and an experimental
    /// lifecycle.
    pub fn error_partial(message: String, partial_result: R) -> (r: Self)
        ensures
            r == (DataResult::Error {
                partial_result: Some(partial_result),
                lifecycle: Lifecycle::Experimental,
                message,
            }),
    {
        Self::Error {
            partial_result: Some(partial_result),
            lifecycle: Lifecycle::Experimental,
            message,
        }
    }

    /// Returns an *errored* result with no value and the given lifecycle.
    pub fn error_with_lifecycle(message: String, lifecycle: Lifecycle) -> (r: Self)
        ensures
            r == (DataResult::Error { partial_result: None::<R>, lifecycle, message }),
    {
        Self::Error { partial_result: None, lifecycle, message }
    }

    /// Returns an *errored* result with a partial value and the given lifecycle.
    pub fn error_partial_with_lifecycle(message: String, partial_result: R, lifecycle: Lifecycle) -> (r:
        Self)
        ensures
            r == (DataResult::Error { partial_result: Some(partial_result), lifecycle, message }),
    {
        Self::Error { partial_result: Some(partial_result), lifecycle, message }
    }

    /// Returns an *errored* result with an optional partial value and the
    /// given lifecycle.
    pub fn error_any_with_lifecycle(message: String, partial_result: Option<R>, lifecycle: Lifecycle) -> (r:
        Self)
        ensures
            r == (DataResult::Error { partial_result, lifecycle, message }),
    {
        Self::Error { partial_result, lifecycle, message }
    }

    /// Tries to get a complete result. For errors this returns [`None`], even
    /// when a partial value is present; to accept partial values, use
    /// [`DataResult::into_result_or_partial`].
    pub fn into_result(self) -> (r: Option<R>)
        ensures
            r == match self {
                DataResult::Success { result, .. } => Some(result),
                DataResult::Error { .. } => None::<R>,
            },
    {
        if let Self::Success { result, .. } = self {
            Some(result)
        } else {
            None
        }
    }

    /// Tries to get a complete or partial value. If no such value exists,
    /// this returns [`None`].
    pub fn into_result_or_partial(self) -> (r: Option<R>)
        ensures
            r == self.contained_value(),
    {
        match self {
            Self::Success { result, .. } => Some(result),
            Self::Error { partial_result, .. } => partial_result,
        }
    }

    /// Gets the complete result of this `DataResult`, which the caller must
    /// know to be a success.
    pub fn unwrap(self) -> (r: R)
        requires
            self is Success,
        ensures
            Some(r) == self.contained_value(),
    {
        match self {
            Self::Success { result, .. } => result,
            Self::Error { .. } => vstd::pervasive::unreached(),
        }
    }

    /// Gets the complete result of this `DataResult`, which the caller must
    /// know to be a success. The message names the caller's expectation.
    pub fn expect(self, message: &str) -> (r: R)
        requires
            self is Success,
        ensures
            Some(r) == self.contained_value(),
    {
        match self {
            Self::Success { result, .. } => result,
            Self::Error { .. } => vstd::pervasive::unreached(),
        }
    }

    /// Gets the complete or partial value of this `DataResult`, which the
    /// caller must know to be present.
    pub fn unwrap_or_partial(self) -> (r: R)
        requires
            self.contained_value() is Some,
        ensures
            Some(r) == self.contained_value(),
    {
        match self {
            Self::Success { result, .. } => result,
            Self::Error { partial_result: Some(result), .. } => result,
            Self::Error { partial_result: None, .. } => vstd::pervasive::unreached(),
        }
    }

    /// Whether this result holds a complete or partial value.
    pub fn has_result_or_partial(&self) -> (r: bool)
        ensures
            r == (self.contained_value() is Some),
    {
        !matches!(self, Self::Error { partial_result: None, .. })
    }

    /// The error message of this result, if it is an error.
    pub fn get_message(&self) -> (r: Option<String>)
        ensures
            match self {
                DataResult::Success { .. } => r is None,
                DataResult::Error { message, .. } => {
                    &&& r is Some
                    &&& r->0@ == message@
                },
            },
    {
        match self {
            Self::Success { .. } => None,
            Self::Error { message, .. } => Some(message.clone()),
        }
    }

    /// Returns whether this result is a success.
    pub fn is_success(&self) -> (r: bool)
        ensures
            r == (self is Success),
    {
        matches!(self, Self::Success { .. })
    }

    /// Returns whether this result is an error (partial values included).
    pub fn is_error(&self) -> (r: bool)
        ensures
            r == !(self is Success),
    {
        !self.is_success()
    }

    /// Appends two messages to form a bigger one, separated by `"; "`.
    /// This is how messages of results with more than one error stack up.
    pub fn append_messages(first: &str, second: &str) -> (r: String)
        ensures
            r@ == join_messages(first@, second@),
    {
        let mut s = String::from_str(first);
        s.append("; ");
        s.append(second);
        s
    }

    /// The error message of this result at the specification level, if any.
    pub open spec fn msg_seq(self) -> Option<Seq<char>> {
        match self {
            DataResult::Success { .. } => None,
            DataResult::Error { message, .. } => Some(message@),
        }
    }

    /// The lifecycle of this result at the specification level.
    pub open spec fn spec_lifecycle(self) -> Lifecycle {
        match self {
            DataResult::Success { lifecycle, .. } => lifecycle,
            DataResult::Error { lifecycle, .. } => lifecycle,
        }
    }

    /// The same result with its lifecycle replaced, at the specification level.
    pub open spec fn spec_with_lifecycle(self, new_lifecycle: Lifecycle) -> Self {
        match self {
            DataResult::Success { result, .. } => DataResult::Success {
                result,
                lifecycle: new_lifecycle,
            },
            DataResult::Error { partial_result, message, .. } => DataResult::Error {
                partial_result,
                message,
                lifecycle: new_lifecycle,
            },
        }
    }

    /// Sets this result's lifecycle and returns the new result.
    #[must_use]
    pub fn with_lifecycle(self, new_lifecycle: Lifecycle) -> (r: Self)
        ensures
            r == self.spec_with_lifecycle(new_lifecycle),
    {
        match self {
            Self::Success { result, .. } => Self::Success { result, lifecycle: new_lifecycle },
            Self::Error { partial_result, message, .. } => Self::Error {
                partial_result,
                message,
                lifecycle: new_lifecycle,
            },
        }
    }

    /// Merges another [`Lifecycle`] into this result's lifecycle and returns
    /// the new result.
    #[must_use]
    pub fn add_lifecycle(self, added_lifecycle: Lifecycle) -> (r: Self)
        ensures
            r == self.spec_with_lifecycle(self.spec_lifecycle().add_spec(added_lifecycle)),
    {
        let new_lifecycle = self.lifecycle().add(added_lifecycle);
        self.with_lifecycle(new_lifecycle)
    }

    /// Maps a `DataResult` of a type `R` to a `DataResult` of a type `T` by
    /// applying a function to the complete result and to the partial result
    /// if one is present, leaving lifecycle and message untouched.
    #[must_use]
    pub fn map<T, F: FnOnce(R) -> T>(self, op: F) -> (r: DataResult<T>)
        requires
            self.contained_value() matches Some(v) ==> call_requires(op, (v,)),
        ensures
            match self {
                DataResult::Success { result, lifecycle } => r matches DataResult::Success {
                    result: t,
                    lifecycle: l2,
                } && l2 == lifecycle && call_ensures(op, (result,), t),
                DataResult::Error { partial_result: None, lifecycle, message } => r
                    == (DataResult::Error {
                    partial_result: None::<T>,
                    lifecycle,
                    message,
                }),
                DataResult::Error { partial_result: Some(p), lifecycle, message } => r
                    matches DataResult::Error {
                    partial_result: Some(t),
                    lifecycle: l2,
                    message: m2,
                } && l2 == lifecycle && m2 == message && call_ensures(op, (p,), t),
            },
    {
        match self {
            Self::Success { result, lifecycle } => DataResult::Success {
                result: op(result),
                lifecycle,
            },
            Self::Error { partial_result, lifecycle, message } => DataResult::Error {
                partial_result: match partial_result {
                    Some(p) => Some(op(p)),
                    None => None,
                },
                lifecycle,
                message,
            },
        }
    }

    /// Maps a `DataResult` of a type `R` to a plain value of type `T`:
    /// - a complete result is handed to `f`;
    /// - an error (partial or not) is handed, whole, to `default`.
    #[must_use]
    pub fn map_or_else<T, D: FnOnce(Self) -> T, F: FnOnce(R) -> T>(self, default: D, f: F) -> (r: T)
        requires
            match self {
                DataResult::Success { result, .. } => call_requires(f, (result,)),
                DataResult::Error { .. } => call_requires(default, (self,)),
            },
        ensures
            match self {
                DataResult::Success { result, .. } => call_ensures(f, (result,), r),
                DataResult::Error { .. } => call_ensures(default, (self,), r),
            },
    {
        match self {
            Self::Success { result, .. } => f(result),
            Self::Error { partial_result, lifecycle, message } => default(
                Self::Error { partial_result, lifecycle, message },
            ),
        }
    }

    /// Applies a function to `DataResult` errors, leaving successes
    /// untouched. This can be used to provide additional context to an error.
    #[must_use]
    pub fn map_error<F: FnOnce(String) -> String>(self, f: F) -> (r: Self)
        requires
            self matches DataResult::Error { message, .. } ==> call_requires(f, (message,)),
        ensures
            match self {
                DataResult::Success { .. } => r == self,
                DataResult::Error { partial_result, lifecycle, message } => r
                    matches DataResult::Error {
                    partial_result: p2,
                    lifecycle: l2,
                    message: m2,
                } && p2 == partial_result && l2 == lifecycle && call_ensures(f, (message,), m2),
            },
    {
        match self {
            Self::Success { result, lifecycle } => Self::Success { result, lifecycle },
            Self::Error { message, lifecycle, partial_result } => Self::Error {
                partial_result,
                lifecycle,
                message: f(message),
            },
        }
    }

    /// Promotes a `DataResult` containing a partial value to a success,
    /// handing the error message to `f` and removing it from the new result.
    /// Results with no value or a complete value are left untouched.
    #[must_use]
    pub fn promote_partial<F: FnOnce(String)>(self, f: F) -> (r: Self)
        requires
            self matches DataResult::Error { message, .. } ==> call_requires(f, (message,)),
        ensures
            match self {
                DataResult::Success { .. } => r == self,
                DataResult::Error { partial_result: Some(p), lifecycle, .. } => r
                    == (DataResult::Success { result: p, lifecycle }),
                DataResult::Error { partial_result: None, lifecycle, message } => r
                    == (DataResult::Error { partial_result: None::<R>, lifecycle, message }),
            },
    {
        match self {
            Self::Success { result, lifecycle } => Self::Success { result, lifecycle },
            Self::Error { message, lifecycle, partial_result } => {
                f(message.clone());
                match partial_result {
                    Some(result) => Self::Success { result, lifecycle },
                    None => Self::Error { partial_result: None, lifecycle, message },
                }
            },
        }
    }

    /// Returns a `DataResult` with a new partial value, leaving results with
    /// no error untouched.
    #[must_use]
    pub fn with_partial(self, partial_value: R) -> (r: Self)
        ensures
            match self {
                DataResult::Success { .. } => r == self,
                DataResult::Error { lifecycle, message, .. } => r == (DataResult::Error {
                    partial_result: Some(partial_value),
                    lifecycle,
                    message,
                }),
            },
    {
        match self {
            Self::Success { result, lifecycle } => Self::Success { result, lifecycle },
            Self::Error { message, lifecycle, .. } => Self::Error {
                partial_result: Some(partial_value),
                lifecycle,
                message,
            },
        }
    }

    /// Replaces the payload while keeping the shape of this result:
    /// - a complete result gets `value` as its new complete result;
    /// - a partial result gets `value` as its new partial result;
    /// - a result with no value stays without one.
    #[must_use]
    pub fn with_complete_or_partial<T>(self, value: T) -> (r: DataResult<T>)
        ensures
            match self {
                DataResult::Success { lifecycle, .. } => r == (DataResult::Success {
                    result: value,
                    lifecycle,
                }),
                DataResult::Error { partial_result: Some(_), lifecycle, message } => r
                    == (DataResult::Error { partial_result: Some(value), lifecycle, message }),
                DataResult::Error { partial_result: None, lifecycle, message } => r
                    == (DataResult::Error { partial_result: None::<T>, lifecycle, message }),
            },
    {
        match self {
            Self::Success { lifecycle, .. } => DataResult::Success { result: value, lifecycle },
            Self::Error { message, lifecycle, partial_result: Some(_) } => DataResult::Error {
                partial_result: Some(value),
                lifecycle,
                message,
            },
            Self::Error { message, lifecycle, partial_result: None } => DataResult::Error {
                partial_result: None,
                lifecycle,
                message,
            },
        }
    }

    /// Folds the message of another `DataResult` into this one. This is
    /// useful for accumulating the errors of several steps into one result.
    /// - If `other_result` is a complete result, only the lifecycle changes.
    /// - If both results are partial, the returned result is also partial;
    ///   otherwise it carries no value.
    /// - Messages found in either error are concatenated.
    ///
    /// This always returns a *stable* result.
    #[must_use]
    pub fn add_message<T>(self, other_result: &DataResult<T>) -> (r: Self)
        ensures
            match (self, *other_result) {
                (DataResult::Success { result, .. }, DataResult::Success { .. }) => r
                    == (DataResult::Success { result, lifecycle: Lifecycle::Stable }),
                (
                    DataResult::Error { partial_result: p1, message: m1, .. },
                    DataResult::Error { partial_result: p2, message: m2, .. },
                ) => r matches DataResult::Error {
                    partial_result: p,
                    lifecycle: Lifecycle::Stable,
                    message: m,
                } && m@ == join_messages(m1@, m2@) && p == (if p1 is Some && p2 is Some {
                    p1
                } else {
                    None::<R>
                }),
                (DataResult::Error { message: m1, .. }, _) => r matches DataResult::Error {
                    partial_result: None,
                    lifecycle: Lifecycle::Stable,
                    message: m,
                } && m == m1,
                (_, DataResult::Error { message: m2, .. }) => r matches DataResult::Error {
                    partial_result: None,
                    lifecycle: Lifecycle::Stable,
                    message: m,
                } && m@ == m2@,
            },
    {
        match (self, other_result) {
            (Self::Success { result, .. }, DataResult::Success { .. }) => Self::Success {
                result,
                lifecycle: Lifecycle::Stable,
            },
            (
                Self::Error { partial_result: p1, message: m1, .. },
                DataResult::Error { partial_result: p2, message: m2, .. },
            ) => Self::Error {
                message: Self::append_messages(m1.as_str(), m2.as_str()),
                partial_result: if p1.is_some() && p2.is_some() {
                    p1
                } else {
                    None
                },
                lifecycle: Lifecycle::Stable,
            },
            (Self::Error { message: m1, .. }, _) => Self::Error {
                partial_result: None,
                lifecycle: Lifecycle::Stable,
                message: m1,
            },
            (Self::Success { .. }, DataResult::Error { message: m2, .. }) => Self::Error {
                partial_result: None,
                lifecycle: Lifecycle::Stable,
                message: m2.clone(),
            },
        }
    }
}

/// The message of `b` folded into `a`: when both are present they join with
/// `"; "`, otherwise whichever is present survives.
pub open spec fn merge_msg_opt(a: Option<Seq<char>>, b: Option<Seq<char>>) -> Option<Seq<char>> {
    match (a, b) {
        (Some(x), Some(y)) => Some(join_messages(x, y)),
        (Some(x), None) => Some(x),
        (None, Some(y)) => Some(y),
        (None, None) => None,
    }
}

/// The specification-level view of an optional message.
pub open spec fn msg_opt_seq(o: Option<String>) -> Option<Seq<char>> {
    match o {
        Some(m) => Some(m@),
        None => None,
    }
}

/// Merges two optional error messages, joining them with `"; "` when both
/// are present.
pub fn merge_messages(a: Option<String>, b: Option<String>) -> (r: Option<String>)
    ensures
        msg_opt_seq(r) == merge_msg_opt(msg_opt_seq(a), msg_opt_seq(b)),
{
    match (a, b) {
        (Some(x), Some(y)) => Some(
            DataResult::<u8>::append_messages(x.as_str(), y.as_str()),
        ),
        (Some(x), None) => Some(x),
        (None, Some(y)) => Some(y),
        (None, None) => None,
    }
}

impl<R> DataResult<R> {
    /// Splits this result into its contained value and its error message.
    fn split(self) -> (r: (Option<R>, Option<String>))
        ensures
            r.0 == self.contained_value(),
            msg_opt_seq(r.1) == self.msg_seq(),
            r.1 is None ==> r.0 is Some,
    {
        match self {
            Self::Success { result, .. } => (Some(result), None),
            Self::Error { partial_result, message, .. } => (partial_result, Some(message)),
        }
    }

    /// Applies a function wrapped in a `DataResult` to the value wrapped in
    /// this `DataResult`. Lifecycles merge; messages of both errors join; a
    /// value is produced only when both a function and an argument (complete
    /// or partial) are available.
    #[must_use]
    pub fn apply<T, F: FnOnce(R) -> T>(self, function_result: DataResult<F>) -> (r: DataResult<T>)
        requires
            self.contained_value() matches Some(v)
                ==> function_result.contained_value() matches Some(g) ==> call_requires(g, (v,)),
        ensures
            ({
                let combined = self.spec_lifecycle().add_spec(function_result.spec_lifecycle());
                let merged = merge_msg_opt(self.msg_seq(), function_result.msg_seq());
                match (self.contained_value(), function_result.contained_value()) {
                    (Some(v), Some(g)) => {
                        if self is Success && function_result is Success {
                            r matches DataResult::Success { result: t, lifecycle: l } && l
                                == combined && call_ensures(g, (v,), t)
                        } else {
                            r matches DataResult::Error {
                                partial_result: Some(t),
                                lifecycle: l,
                                message: m,
                            } && l == combined && Some(m@) == merged && call_ensures(g, (v,), t)
                        }
                    },
                    _ => r matches DataResult::Error {
                        partial_result: None,
                        lifecycle: l,
                        message: m,
                    } && l == combined && Some(m@) == merged,
                }
            }),
    {
        let combined = self.lifecycle().add(function_result.lifecycle());
        let both_success = self.is_success() && function_result.is_success();
        let (value, m1) = self.split();
        let (function, m2) = function_result.split();
        let merged = merge_messages(m1, m2);
        match (value, function) {
            (Some(v), Some(g)) => {
                if both_success {
                    DataResult::Success { result: g(v), lifecycle: combined }
                } else {
                    match merged {
                        Some(message) => DataResult::Error {
                            partial_result: Some(g(v)),
                            lifecycle: combined,
                            message,
                        },
                        None => vstd::pervasive::unreached(),
                    }
                }
            },
            _ => {
                match merged {
                    Some(message) => DataResult::Error {
                        partial_result: None,
                        lifecycle: combined,
                        message,
                    },
                    None => vstd::pervasive::unreached(),
                }
            },
        }
    }

    /// Applies a function to the values of two `DataResult`s of possibly
    /// different types.
    /// - If both results are successes, the result is a success with `f`'s
    ///   output and an experimental lifecycle.
    /// - If both results hold at least a partial value but one is an error,
    ///   the result is an error carrying `f`'s output as a partial value.
    /// - Otherwise the result is an error with no value.
    ///
    /// Messages of the error inputs concatenate in input order.
    #[must_use]
    pub fn apply_2<R2, T, F: FnOnce(R, R2) -> T>(self, f: F, second_result: DataResult<R2>) -> (r:
        DataResult<T>)
        requires
            self.contained_value() matches Some(a)
                ==> second_result.contained_value() matches Some(b) ==> call_requires(f, (a, b)),
        ensures
            ({
                let merged = merge_msg_opt(self.msg_seq(), second_result.msg_seq());
                match (self.contained_value(), second_result.contained_value()) {
                    (Some(a), Some(b)) => {
                        if self is Success && second_result is Success {
                            r matches DataResult::Success { result: t, lifecycle: l } && l
                                == Lifecycle::Experimental && call_ensures(f, (a, b), t)
                        } else {
                            r matches DataResult::Error {
                                partial_result: Some(t),
                                lifecycle: l,
                                message: m,
                            } && l == Lifecycle::Experimental && Some(m@) == merged
                                && call_ensures(f, (a, b), t)
                        }
                    },
                    _ => r matches DataResult::Error {
                        partial_result: None,
                        lifecycle: l,
                        message: m,
                    } && l == Lifecycle::Experimental && Some(m@) == merged,
                }
            }),
    {
        let both_success = self.is_success() && second_result.is_success();
        let (p1, m1) = self.split();
        let (p2, m2) = second_result.split();
        let merged = merge_messages(m1, m2);
        match (p1, p2) {
            (Some(a), Some(b)) => {
                if both_success {
                    DataResult::Success { result: f(a, b), lifecycle: Lifecycle::Experimental }
                } else {
                    match merged {
                        Some(message) => DataResult::Error {
                            partial_result: Some(f(a, b)),
                            lifecycle: Lifecycle::Experimental,
                            message,
                        },
                        None => vstd::pervasive::unreached(),
                    }
                }
            },
            _ => {
                match merged {
                    Some(message) => DataResult::Error {
                        partial_result: None,
                        lifecycle: Lifecycle::Experimental,
                        message,
                    },
                    None => vstd::pervasive::unreached(),
                }
            },
        }
    }

    /// Like [`DataResult::apply_2`], but the returned result is marked
    /// [`Lifecycle::Stable`].
    #[must_use]
    pub fn apply_2_and_make_stable<R2, T, F: FnOnce(R, R2) -> T>(
        self,
        f: F,
        second_result: DataResult<R2>,
    ) -> (r: DataResult<T>)
        requires
            self.contained_value() matches Some(a)
                ==> second_result.contained_value() matches Some(b) ==> call_requires(f, (a, b)),
        ensures
            ({
                let merged = merge_msg_opt(self.msg_seq(), second_result.msg_seq());
                match (self.contained_value(), second_result.contained_value()) {
                    (Some(a), Some(b)) => {
                        if self is Success && second_result is Success {
                            r matches DataResult::Success { result: t, lifecycle: l } && l
                                == Lifecycle::Stable && call_ensures(f, (a, b), t)
                        } else {
                            r matches DataResult::Error {
                                partial_result: Some(t),
                                lifecycle: l,
                                message: m,
                            } && l == Lifecycle::Stable && Some(m@) == merged && call_ensures(
                                f,
                                (a, b),
                                t,
                            )
                        }
                    },
                    _ => r matches DataResult::Error {
                        partial_result: None,
                        lifecycle: l,
                        message: m,
                    } && l == Lifecycle::Stable && Some(m@) == merged,
                }
            }),
    {
        self.apply_2(f, second_result).with_lifecycle(Lifecycle::Stable)
    }

    /// Applies a function to the values of three `DataResult`s, with the same
    /// success, partial, message and lifecycle rules as [`DataResult::apply_2`].
    #[must_use]
    pub fn apply_3<R2, R3, T, F: FnOnce(R, R2, R3) -> T>(
        self,
        f: F,
        result_2: DataResult<R2>,
        result_3: DataResult<R3>,
    ) -> (r: DataResult<T>)
        requires
            self.contained_value() matches Some(a)
                ==> result_2.contained_value() matches Some(b)
                ==> result_3.contained_value() matches Some(c) ==> call_requires(f, (a, b, c)),
        ensures
            ({
                let merged = merge_msg_opt(
                    merge_msg_opt(self.msg_seq(), result_2.msg_seq()),
                    result_3.msg_seq(),
                );
                match (self.contained_value(), result_2.contained_value(), result_3.contained_value()) {
                    (Some(a), Some(b), Some(c)) => {
                        if self is Success && result_2 is Success && result_3 is Success {
                            r matches DataResult::Success { result: t, lifecycle: l } && l
                                == Lifecycle::Experimental && call_ensures(f, (a, b, c), t)
                        } else {
                            r matches DataResult::Error {
                                partial_result: Some(t),
                                lifecycle: l,
                                message: m,
                            } && l == Lifecycle::Experimental && Some(m@) == merged
                                && call_ensures(f, (a, b, c), t)
                        }
                    },
                    _ => r matches DataResult::Error {
                        partial_result: None,
                        lifecycle: l,
                        message: m,
                    } && l == Lifecycle::Experimental && Some(m@) == merged,
                }
            }),
    {
        let all_success = self.is_success() && result_2.is_success() && result_3.is_success();
        let (p1, m1) = self.split();
        let (p2, m2) = result_2.split();
        let (p3, m3) = result_3.split();
        let merged = merge_messages(merge_messages(m1, m2), m3);
        match (p1, p2, p3) {
            (Some(a), Some(b), Some(c)) => {
                if all_success {
                    DataResult::Success { result: f(a, b, c), lifecycle: Lifecycle::Experimental }
                } else {
                    match merged {
                        Some(message) => DataResult::Error {
                            partial_result: Some(f(a, b, c)),
                            lifecycle: Lifecycle::Experimental,
                            message,
                        },
                        None => vstd::pervasive::unreached(),
                    }
                }
            },
            _ => {
                match merged {
                    Some(message) => DataResult::Error {
                        partial_result: None,
                        lifecycle: Lifecycle::Experimental,
                        message,
                    },
                    None => vstd::pervasive::unreached(),
                }
            },
        }
    }

    /// Applies a function to the values of four `DataResult`s, with the same
    /// success, partial, message and lifecycle rules as [`DataResult::apply_2`].
    #[must_use]
    pub fn apply_4<R2, R3, R4, T, F: FnOnce(R, R2, R3, R4) -> T>(
        self,
        f: F,
        result_2: DataResult<R2>,
        result_3: DataResult<R3>,
        result_4: DataResult<R4>,
    ) -> (r: DataResult<T>)
        requires
            self.contained_value() matches Some(a)
                ==> result_2.contained_value() matches Some(b)
                ==> result_3.contained_value() matches Some(c)
                ==> result_4.contained_value() matches Some(d) ==> call_requires(f, (a, b, c, d)),
        ensures
            ({
                let merged = merge_msg_opt(
                    merge_msg_opt(
                        merge_msg_opt(self.msg_seq(), result_2.msg_seq()),
                        result_3.msg_seq(),
                    ),
                    result_4.msg_seq(),
                );
                match (
                    self.contained_value(),
                    result_2.contained_value(),
                    result_3.contained_value(),
                    result_4.contained_value(),
                ) {
                    (Some(a), Some(b), Some(c), Some(d)) => {
                        if self is Success && result_2 is Success && result_3 is Success
                            && result_4 is Success {
                            r matches DataResult::Success { result: t, lifecycle: l } && l
                                == Lifecycle::Experimental && call_ensures(f, (a, b, c, d), t)
                        } else {
                            r matches DataResult::Error {
                                partial_result: Some(t),
                                lifecycle: l,
                                message: m,
                            } && l == Lifecycle::Experimental && Some(m@) == merged
                                && call_ensures(f, (a, b, c, d), t)
                        }
                    },
                    _ => r matches DataResult::Error {
                        partial_result: None,
                        lifecycle: l,
                        message: m,
                    } && l == Lifecycle::Experimental && Some(m@) == merged,
                }
            }),
    {
        let all_success = self.is_success() && result_2.is_success() && result_3.is_success()
            && result_4.is_success();
        let (p1, m1) = self.split();
        let (p2, m2) = result_2.split();
        let (p3, m3) = result_3.split();
        let (p4, m4) = result_4.split();
        let merged = merge_messages(merge_messages(merge_messages(m1, m2), m3), m4);
        match (p1, p2, p3, p4) {
            (Some(a), Some(b), Some(c), Some(d)) => {
                if all_success {
                    DataResult::Success {
                        result: f(a, b, c, d),
                        lifecycle: Lifecycle::Experimental,
                    }
                } else {
                    match merged {
                        Some(message) => DataResult::Error {
                            partial_result: Some(f(a, b, c, d)),
                            lifecycle: Lifecycle::Experimental,
                            message,
                        },
                        None => vstd::pervasive::unreached(),
                    }
                }
            },
            _ => {
                match merged {
                    Some(message) => DataResult::Error {
                        partial_result: None,
                        lifecycle: Lifecycle::Experimental,
                        message,
                    },
                    None => vstd::pervasive::unreached(),
                }
            },
        }
    }

    /// Applies a function to the values of five `DataResult`s, with the same
    /// success, partial, message and lifecycle rules as [`DataResult::apply_2`].
    #[must_use]
    pub fn apply_5<R2, R3, R4, R5, T, F: FnOnce(R, R2, R3, R4, R5) -> T>(
        self,
        f: F,
        result_2: DataResult<R2>,
        result_3: DataResult<R3>,
        result_4: DataResult<R4>,
        result_5: DataResult<R5>,
    ) -> (r: DataResult<T>)
        requires
            self.contained_value() matches Some(a)
                ==> result_2.contained_value() matches Some(b)
                ==> result_3.contained_value() matches Some(c)
                ==> result_4.contained_value() matches Some(d)
                ==> result_5.contained_value() matches Some(e) ==> call_requires(
                f,
                (a, b, c, d, e),
            ),
        ensures
            ({
                let merged = merge_msg_opt(
                    merge_msg_opt(
                        merge_msg_opt(
                            merge_msg_opt(self.msg_seq(), result_2.msg_seq()),
                            result_3.msg_seq(),
                        ),
                        result_4.msg_seq(),
                    ),
                    result_5.msg_seq(),
                );
                match (
                    self.contained_value(),
                    result_2.contained_value(),
                    result_3.contained_value(),
                    result_4.contained_value(),
                    result_5.contained_value(),
                ) {
                    (Some(a), Some(b), Some(c), Some(d), Some(e)) => {
                        if self is Success && result_2 is Success && result_3 is Success
                            && result_4 is Success && result_5 is Success {
                            r matches DataResult::Success { result: t, lifecycle: l } && l
                                == Lifecycle::Experimental && call_ensures(f, (a, b, c, d, e), t)
                        } else {
                            r matches DataResult::Error {
                                partial_result: Some(t),
                                lifecycle: l,
                                message: m,
                            } && l == Lifecycle::Experimental && Some(m@) == merged
                                && call_ensures(f, (a, b, c, d, e), t)
                        }
                    },
                    _ => r matches DataResult::Error {
                        partial_result: None,
                        lifecycle: l,
                        message: m,
                    } && l == Lifecycle::Experimental && Some(m@) == merged,
                }
            }),
    {
        let all_success = self.is_success() && result_2.is_success() && result_3.is_success()
            && result_4.is_success() && result_5.is_success();
        let (p1, m1) = self.split();
        let (p2, m2) = result_2.split();
        let (p3, m3) = result_3.split();
        let (p4, m4) = result_4.split();
        let (p5, m5) = result_5.split();
        let merged = merge_messages(
            merge_messages(merge_messages(merge_messages(m1, m2), m3), m4),
            m5,
        );
        match (p1, p2, p3, p4, p5) {
            (Some(a), Some(b), Some(c), Some(d), Some(e)) => {
                if all_success {
                    DataResult::Success {
                        result: f(a, b, c, d, e),
                        lifecycle: Lifecycle::Experimental,
                    }
                } else {
                    match merged {
                        Some(message) => DataResult::Error {
                            partial_result: Some(f(a, b, c, d, e)),
                            lifecycle: Lifecycle::Experimental,
                            message,
                        },
                        None => vstd::pervasive::unreached(),
                    }
                }
            },
            _ => {
                match merged {
                    Some(message) => DataResult::Error {
                        partial_result: None,
                        lifecycle: Lifecycle::Experimental,
                        message,
                    },
                    None => vstd::pervasive::unreached(),
                }
            },
        }
    }

    /// Applies a function to the values of six `DataResult`s, with the
    /// same success, partial, message and lifecycle rules as
    /// [`DataResult::apply_2`].
    #[must_use]
    pub fn apply_6<R2, R3, R4, R5, R6, T, F: FnOnce(R, R2, R3, R4, R5, R6) -> T>(
        self,
        f: F,
        result_2: DataResult<R2>,
        result_3: DataResult<R3>,
        result_4: DataResult<R4>,
        result_5: DataResult<R5>,
        result_6: DataResult<R6>,
    ) -> (r: DataResult<T>)
        requires
            self.contained_value() matches Some(a)
                ==> result_2.contained_value() matches Some(b)
                ==> result_3.contained_value() matches Some(c)
                ==> result_4.contained_value() matches Some(d)
                ==> result_5.contained_value() matches Some(e)
                ==> result_6.contained_value() matches Some(g) ==> call_requires(
                f,
                (a, b, c, d, e, g),
            ),
        ensures
            ({
                let merged = merge_msg_opt(merge_msg_opt(merge_msg_opt(merge_msg_opt(merge_msg_opt(self.msg_seq(), result_2.msg_seq()), result_3.msg_seq()), result_4.msg_seq()), result_5.msg_seq()), result_6.msg_seq());
                match (
                    self.contained_value(),
                    result_2.contained_value(),
                    result_3.contained_value(),
                    result_4.contained_value(),
                    result_5.contained_value(),
                    result_6.contained_value(),
                ) {
                    (Some(a), Some(b), Some(c), Some(d), Some(e), Some(g)) => {
                        if self is Success && result_2 is Success && result_3 is Success && result_4 is Success && result_5 is Success && result_6 is Success {
                            r matches DataResult::Success { result: t, lifecycle: l } && l
                                == Lifecycle::Experimental && call_ensures(f, (a, b, c, d, e, g), t)
                        } else {
                            r matches DataResult::Error {
                                partial_result: Some(t),
                                lifecycle: l,
                                message: m,
                            } && l == Lifecycle::Experimental && Some(m@) == merged
                                && call_ensures(f, (a, b, c, d, e, g), t)
                        }
                    },
                    _ => r matches DataResult::Error {
                        partial_result: None,
                        lifecycle: l,
                        message: m,
                    } && l == Lifecycle::Experimental && Some(m@) == merged,
                }
            }),
    {
        let all_success = self.is_success() && result_2.is_success() && result_3.is_success() && result_4.is_success() && result_5.is_success() && result_6.is_success();
        let (p1, m1) = self.split();
        let (p2, m2) = result_2.split();
        let (p3, m3) = result_3.split();
        let (p4, m4) = result_4.split();
        let (p5, m5) = result_5.split();
        let (p6, m6) = result_6.split();
        let merged = merge_messages(merge_messages(merge_messages(merge_messages(merge_messages(m1, m2), m3), m4), m5), m6);
        match (p1, p2, p3, p4, p5, p6) {
            (Some(a), Some(b), Some(c), Some(d), Some(e), Some(g)) => {
                if all_success {
                    DataResult::Success {
                        result: f(a, b, c, d, e, g),
                        lifecycle: Lifecycle::Experimental,
                    }
                } else {
                    match merged {
                        Some(message) => DataResult::Error {
                            partial_result: Some(f(a, b, c, d, e, g)),
                            lifecycle: Lifecycle::Experimental,
                            message,
                        },
                        None => vstd::pervasive::unreached(),
                    }
                }
            },
            _ => {
                match merged {
                    Some(message) => DataResult::Error {
                        partial_result: None,
                        lifecycle: Lifecycle::Experimental,
                        message,
                    },
                    None => vstd::pervasive::unreached(),
                }
            },
        }
    }

    /// Applies a function to the values of seven `DataResult`s, with the
    /// same success, partial, message and lifecycle rules as
    /// [`DataResult::apply_2`].
    #[must_use]
    pub fn apply_7<R2, R3, R4, R5, R6, R7, T, F: FnOnce(R, R2, R3, R4, R5, R6, R7) -> T>(
        self,
        f: F,
        result_2: DataResult<R2>,
        result_3: DataResult<R3>,
        result_4: DataResult<R4>,
        result_5: DataResult<R5>,
        result_6: DataResult<R6>,
        result_7: DataResult<R7>,
    ) -> (r: DataResult<T>)
        requires
            self.contained_value() matches Some(a)
                ==> result_2.contained_value() matches Some(b)
                ==> result_3.contained_value() matches Some(c)
                ==> result_4.contained_value() matches Some(d)
                ==> result_5.contained_value() matches Some(e)
                ==> result_6.contained_value() matches Some(g)
                ==> result_7.contained_value() matches Some(h) ==> call_requires(
                f,
                (a, b, c, d, e, g, h),
            ),
        ensures
            ({
                let merged = merge_msg_opt(merge_msg_opt(merge_msg_opt(merge_msg_opt(merge_msg_opt(merge_msg_opt(self.msg_seq(), result_2.msg_seq()), result_3.msg_seq()), result_4.msg_seq()), result_5.msg_seq()), result_6.msg_seq()), result_7.msg_seq());
                match (
                    self.contained_value(),
                    result_2.contained_value(),
                    result_3.contained_value(),
                    result_4.contained_value(),
                    result_5.contained_value(),
                    result_6.contained_value(),
                    result_7.contained_value(),
                ) {
                    (Some(a), Some(b), Some(c), Some(d), Some(e), Some(g), Some(h)) => {
                        if self is Success && result_2 is Success && result_3 is Success && result_4 is Success && result_5 is Success && result_6 is Success && result_7 is Success {
                            r matches DataResult::Success { result: t, lifecycle: l } && l
                                == Lifecycle::Experimental && call_ensures(f, (a, b, c, d, e, g, h), t)
                        } else {
                            r matches DataResult::Error {
                                partial_result: Some(t),
                                lifecycle: l,
                                message: m,
                            } && l == Lifecycle::Experimental && Some(m@) == merged
                                && call_ensures(f, (a, b, c, d, e, g, h), t)
                        }
                    },
                    _ => r matches DataResult::Error {
                        partial_result: None,
                        lifecycle: l,
                        message: m,
                    } && l == Lifecycle::Experimental && Some(m@) == merged,
                }
            }),
    {
        let all_success = self.is_success() && result_2.is_success() && result_3.is_success() && result_4.is_success() && result_5.is_success() && result_6.is_success() && result_7.is_success();
        let (p1, m1) = self.split();
        let (p2, m2) = result_2.split();
        let (p3, m3) = result_3.split();
        let (p4, m4) = result_4.split();
        let (p5, m5) = result_5.split();
        let (p6, m6) = result_6.split();
        let (p7, m7) = result_7.split();
        let merged = merge_messages(merge_messages(merge_messages(merge_messages(merge_messages(merge_messages(m1, m2), m3), m4), m5), m6), m7);
        match (p1, p2, p3, p4, p5, p6, p7) {
            (Some(a), Some(b), Some(c), Some(d), Some(e), Some(g), Some(h)) => {
                if all_success {
                    DataResult::Success {
                        result: f(a, b, c, d, e, g, h),
                        lifecycle: Lifecycle::Experimental,
                    }
                } else {
                    match merged {
                        Some(message) => DataResult::Error {
                            partial_result: Some(f(a, b, c, d, e, g, h)),
                            lifecycle: Lifecycle::Experimental,
                            message,
                        },
                        None => vstd::pervasive::unreached(),
                    }
                }
            },
            _ => {
                match merged {
                    Some(message) => DataResult::Error {
                        partial_result: None,
                        lifecycle: Lifecycle::Experimental,
                        message,
                    },
                    None => vstd::pervasive::unreached(),
                }
            },
        }
    }

    /// Applies a function to the values of eight `DataResult`s, with the
    /// same success, partial, message and lifecycle rules as
    /// [`DataResult::apply_2`].
    #[must_use]
    pub fn apply_8<R2, R3, R4, R5, R6, R7, R8, T, F: FnOnce(R, R2, R3, R4, R5, R6, R7, R8) -> T>(
        self,
        f: F,
        result_2: DataResult<R2>,
        result_3: DataResult<R3>,
        result_4: DataResult<R4>,
        result_5: DataResult<R5>,
        result_6: DataResult<R6>,
        result_7: DataResult<R7>,
        result_8: DataResult<R8>,
    ) -> (r: DataResult<T>)
        requires
            self.contained_value() matches Some(a)
                ==> result_2.contained_value() matches Some(b)
                ==> result_3.contained_value() matches Some(c)
                ==> result_4.contained_value() matches Some(d)
                ==> result_5.contained_value() matches Some(e)
                ==> result_6.contained_value() matches Some(g)
                ==> result_7.contained_value() matches Some(h)
                ==> result_8.contained_value() matches Some(k) ==> call_requires(
                f,
                (a, b, c, d, e, g, h, k),
            ),
        ensures
            ({
                let merged = merge_msg_opt(merge_msg_opt(merge_msg_opt(merge_msg_opt(merge_msg_opt(merge_msg_opt(merge_msg_opt(self.msg_seq(), result_2.msg_seq()), result_3.msg_seq()), result_4.msg_seq()), result_5.msg_seq()), result_6.msg_seq()), result_7.msg_seq()), result_8.msg_seq());
                match (
                    self.contained_value(),
                    result_2.contained_value(),
                    result_3.contained_value(),
                    result_4.contained_value(),
                    result_5.contained_value(),
                    result_6.contained_value(),
                    result_7.contained_value(),
                    result_8.contained_value(),
                ) {
                    (Some(a), Some(b), Some(c), Some(d), Some(e), Some(g), Some(h), Some(k)) => {
                        if self is Success && result_2 is Success && result_3 is Success && result_4 is Success && result_5 is Success && result_6 is Success && result_7 is Success && result_8 is Success {
                            r matches DataResult::Success { result: t, lifecycle: l } && l
                                == Lifecycle::Experimental && call_ensures(f, (a, b, c, d, e, g, h, k), t)
                        } else {
                            r matches DataResult::Error {
                                partial_result: Some(t),
                                lifecycle: l,
                                message: m,
                            } && l == Lifecycle::Experimental && Some(m@) == merged
                                && call_ensures(f, (a, b, c, d, e, g, h, k), t)
                        }
                    },
                    _ => r matches DataResult::Error {
                        partial_result: None,
                        lifecycle: l,
                        message: m,
                    } && l == Lifecycle::Experimental && Some(m@) == merged,
                }
            }),
    {
        let all_success = self.is_success() && result_2.is_success() && result_3.is_success() && result_4.is_success() && result_5.is_success() && result_6.is_success() && result_7.is_success() && result_8.is_success();
        let (p1, m1) = self.split();
        let (p2, m2) = result_2.split();
        let (p3, m3) = result_3.split();
        let (p4, m4) = result_4.split();
        let (p5, m5) = result_5.split();
        let (p6, m6) = result_6.split();
        let (p7, m7) = result_7.split();
        let (p8, m8) = result_8.split();
        let merged = merge_messages(merge_messages(merge_messages(merge_messages(merge_messages(merge_messages(merge_messages(m1, m2), m3), m4), m5), m6), m7), m8);
        match (p1, p2, p3, p4, p5, p6, p7, p8) {
            (Some(a), Some(b), Some(c), Some(d), Some(e), Some(g), Some(h), Some(k)) => {
                if all_success {
                    DataResult::Success {
                        result: f(a, b, c, d, e, g, h, k),
                        lifecycle: Lifecycle::Experimental,
                    }
                } else {
                    match merged {
                        Some(message) => DataResult::Error {
                            partial_result: Some(f(a, b, c, d, e, g, h, k)),
                            lifecycle: Lifecycle::Experimental,
                            message,
                        },
                        None => vstd::pervasive::unreached(),
                    }
                }
            },
            _ => {
                match merged {
                    Some(message) => DataResult::Error {
                        partial_result: None,
                        lifecycle: Lifecycle::Experimental,
                        message,
                    },
                    None => vstd::pervasive::unreached(),
                }
            },
        }
    }

    /// Applies a function to the values of nine `DataResult`s, with the
    /// same success, partial, message and lifecycle rules as
    /// [`DataResult::apply_2`].
    #[must_use]
    pub fn apply_9<R2, R3, R4, R5, R6, R7, R8, R9, T, F: FnOnce(R, R2, R3, R4, R5, R6, R7, R8, R9) -> T>(
        self,
        f: F,
        result_2: DataResult<R2>,
        result_3: DataResult<R3>,
        result_4: DataResult<R4>,
        result_5: DataResult<R5>,
        result_6: DataResult<R6>,
        result_7: DataResult<R7>,
        result_8: DataResult<R8>,
        result_9: DataResult<R9>,
    ) -> (r: DataResult<T>)
        requires
            self.contained_value() matches Some(a)
                ==> result_2.contained_value() matches Some(b)
                ==> result_3.contained_value() matches Some(c)
                ==> result_4.contained_value() matches Some(d)
                ==> result_5.contained_value() matches Some(e)
                ==> result_6.contained_value() matches Some(g)
                ==> result_7.contained_value() matches Some(h)
                ==> result_8.contained_value() matches Some(k)
                ==> result_9.contained_value() matches Some(m2) ==> call_requires(
                f,
                (a, b, c, d, e, g, h, k, m2),
            ),
        ensures
            ({
                let merged = merge_msg_opt(merge_msg_opt(merge_msg_opt(merge_msg_opt(merge_msg_opt(merge_msg_opt(merge_msg_opt(merge_msg_opt(self.msg_seq(), result_2.msg_seq()), result_3.msg_seq()), result_4.msg_seq()), result_5.msg_seq()), result_6.msg_seq()), result_7.msg_seq()), result_8.msg_seq()), result_9.msg_seq());
                match (
                    self.contained_value(),
                    result_2.contained_value(),
                    result_3.contained_value(),
                    result_4.contained_value(),
                    result_5.contained_value(),
                    result_6.contained_value(),
                    result_7.contained_value(),
                    result_8.contained_value(),
                    result_9.contained_value(),
                ) {
                    (Some(a), Some(b), Some(c), Some(d), Some(e), Some(g), Some(h), Some(k), Some(m2)) => {
                        if self is Success && result_2 is Success && result_3 is Success && result_4 is Success && result_5 is Success && result_6 is Success && result_7 is Success && result_8 is Success && result_9 is Success {
                            r matches DataResult::Success { result: t, lifecycle: l } && l
                                == Lifecycle::Experimental && call_ensures(f, (a, b, c, d, e, g, h, k, m2), t)
                        } else {
                            r matches DataResult::Error {
                                partial_result: Some(t),
                                lifecycle: l,
                                message: m,
                            } && l == Lifecycle::Experimental && Some(m@) == merged
                                && call_ensures(f, (a, b, c, d, e, g, h, k, m2), t)
                        }
                    },
                    _ => r matches DataResult::Error {
                        partial_result: None,
                        lifecycle: l,
                        message: m,
                    } && l == Lifecycle::Experimental && Some(m@) == merged,
                }
            }),
    {
        let all_success = self.is_success() && result_2.is_success() && result_3.is_success() && result_4.is_success() && result_5.is_success() && result_6.is_success() && result_7.is_success() && result_8.is_success() && result_9.is_success();
        let (p1, m1) = self.split();
        let (p2, m2) = result_2.split();
        let (p3, m3) = result_3.split();
        let (p4, m4) = result_4.split();
        let (p5, m5) = result_5.split();
        let (p6, m6) = result_6.split();
        let (p7, m7) = result_7.split();
        let (p8, m8) = result_8.split();
        let (p9, m9) = result_9.split();
        let merged = merge_messages(merge_messages(merge_messages(merge_messages(merge_messages(merge_messages(merge_messages(merge_messages(m1, m2), m3), m4), m5), m6), m7), m8), m9);
        match (p1, p2, p3, p4, p5, p6, p7, p8, p9) {
            (Some(a), Some(b), Some(c), Some(d), Some(e), Some(g), Some(h), Some(k), Some(m2)) => {
                if all_success {
                    DataResult::Success {
                        result: f(a, b, c, d, e, g, h, k, m2),
                        lifecycle: Lifecycle::Experimental,
                    }
                } else {
                    match merged {
                        Some(message) => DataResult::Error {
                            partial_result: Some(f(a, b, c, d, e, g, h, k, m2)),
                            lifecycle: Lifecycle::Experimental,
                            message,
                        },
                        None => vstd::pervasive::unreached(),
                    }
                }
            },
            _ => {
                match merged {
                    Some(message) => DataResult::Error {
                        partial_result: None,
                        lifecycle: Lifecycle::Experimental,
                        message,
                    },
                    None => vstd::pervasive::unreached(),
                }
            },
        }
    }

    /// Applies a function to the values of ten `DataResult`s, with the
    /// same success, partial, message and lifecycle rules as
    /// [`DataResult::apply_2`].
    #[must_use]
    pub fn apply_10<R2, R3, R4, R5, R6, R7, R8, R9, R10, T, F: FnOnce(R, R2, R3, R4, R5, R6, R7, R8, R9, R10) -> T>(
        self,
        f: F,
        result_2: DataResult<R2>,
        result_3: DataResult<R3>,
        result_4: DataResult<R4>,
        result_5: DataResult<R5>,
        result_6: DataResult<R6>,
        result_7: DataResult<R7>,
        result_8: DataResult<R8>,
        result_9: DataResult<R9>,
        result_10: DataResult<R10>,
    ) -> (r: DataResult<T>)
        requires
            self.contained_value() matches Some(a)
                ==> result_2.contained_value() matches Some(b)
                ==> result_3.contained_value() matches Some(c)
                ==> result_4.contained_value() matches Some(d)
                ==> result_5.contained_value() matches Some(e)
                ==> result_6.contained_value() matches Some(g)
                ==> result_7.contained_value() matches Some(h)
                ==> result_8.contained_value() matches Some(k)
                ==> result_9.contained_value() matches Some(m2)
                ==> result_10.contained_value() matches Some(n2) ==> call_requires(
                f,
                (a, b, c, d, e, g, h, k, m2, n2),
            ),
        ensures
            ({
                let merged = merge_msg_opt(merge_msg_opt(merge_msg_opt(merge_msg_opt(merge_msg_opt(merge_msg_opt(merge_msg_opt(merge_msg_opt(merge_msg_opt(self.msg_seq(), result_2.msg_seq()), result_3.msg_seq()), result_4.msg_seq()), result_5.msg_seq()), result_6.msg_seq()), result_7.msg_seq()), result_8.msg_seq()), result_9.msg_seq()), result_10.msg_seq());
                match (
                    self.contained_value(),
                    result_2.contained_value(),
                    result_3.contained_value(),
                    result_4.contained_value(),
                    result_5.contained_value(),
                    result_6.contained_value(),
                    result_7.contained_value(),
                    result_8.contained_value(),
                    result_9.contained_value(),
                    result_10.contained_value(),
                ) {
                    (Some(a), Some(b), Some(c), Some(d), Some(e), Some(g), Some(h), Some(k), Some(m2), Some(n2)) => {
                        if self is Success && result_2 is Success && result_3 is Success && result_4 is Success && result_5 is Success && result_6 is Success && result_7 is Success && result_8 is Success && result_9 is Success && result_10 is Success {
                            r matches DataResult::Success { result: t, lifecycle: l } && l
                                == Lifecycle::Experimental && call_ensures(f, (a, b, c, d, e, g, h, k, m2, n2), t)
                        } else {
                            r matches DataResult::Error {
                                partial_result: Some(t),
                                lifecycle: l,
                                message: m,
                            } && l == Lifecycle::Experimental && Some(m@) == merged
                                && call_ensures(f, (a, b, c, d, e, g, h, k, m2, n2), t)
                        }
                    },
                    _ => r matches DataResult::Error {
                        partial_result: None,
                        lifecycle: l,
                        message: m,
                    } && l == Lifecycle::Experimental && Some(m@) == merged,
                }
            }),
    {
        let all_success = self.is_success() && result_2.is_success() && result_3.is_success() && result_4.is_success() && result_5.is_success() && result_6.is_success() && result_7.is_success() && result_8.is_success() && result_9.is_success() && result_10.is_success();
        let (p1, m1) = self.split();
        let (p2, m2) = result_2.split();
        let (p3, m3) = result_3.split();
        let (p4, m4) = result_4.split();
        let (p5, m5) = result_5.split();
        let (p6, m6) = result_6.split();
        let (p7, m7) = result_7.split();
        let (p8, m8) = result_8.split();
        let (p9, m9) = result_9.split();
        let (p10, m10) = result_10.split();
        let merged = merge_messages(merge_messages(merge_messages(merge_messages(merge_messages(merge_messages(merge_messages(merge_messages(merge_messages(m1, m2), m3), m4), m5), m6), m7), m8), m9), m10);
        match (p1, p2, p3, p4, p5, p6, p7, p8, p9, p10) {
            (Some(a), Some(b), Some(c), Some(d), Some(e), Some(g), Some(h), Some(k), Some(m2), Some(n2)) => {
                if all_success {
                    DataResult::Success {
                        result: f(a, b, c, d, e, g, h, k, m2, n2),
                        lifecycle: Lifecycle::Experimental,
                    }
                } else {
                    match merged {
                        Some(message) => DataResult::Error {
                            partial_result: Some(f(a, b, c, d, e, g, h, k, m2, n2)),
                            lifecycle: Lifecycle::Experimental,
                            message,
                        },
                        None => vstd::pervasive::unreached(),
                    }
                }
            },
            _ => {
                match merged {
                    Some(message) => DataResult::Error {
                        partial_result: None,
                        lifecycle: Lifecycle::Experimental,
                        message,
                    },
                    None => vstd::pervasive::unreached(),
                }
            },
        }
    }

    /// Applies a function to the values of eleven `DataResult`s, with the
    /// same success, partial, message and lifecycle rules as
    /// [`DataResult::apply_2`].
    #[must_use]
    pub fn apply_11<R2, R3, R4, R5, R6, R7, R8, R9, R10, R11, T, F: FnOnce(R, R2, R3, R4, R5, R6, R7, R8, R9, R10, R11) -> T>(
        self,
        f: F,
        result_2: DataResult<R2>,
        result_3: DataResult<R3>,
        result_4: DataResult<R4>,
        result_5: DataResult<R5>,
        result_6: DataResult<R6>,
        result_7: DataResult<R7>,
        result_8: DataResult<R8>,
        result_9: DataResult<R9>,
        result_10: DataResult<R10>,
        result_11: DataResult<R11>,
    ) -> (r: DataResult<T>)
        requires
            self.contained_value() matches Some(a)
                ==> result_2.contained_value() matches Some(b)
                ==> result_3.contained_value() matches Some(c)
                ==> result_4.contained_value() matches Some(d)
                ==> result_5.contained_value() matches Some(e)
                ==> result_6.contained_value() matches Some(g)
                ==> result_7.contained_value() matches Some(h)
                ==> result_8.contained_value() matches Some(k)
                ==> result_9.contained_value() matches Some(m2)
                ==> result_10.contained_value() matches Some(n2)
                ==> result_11.contained_value() matches Some(p2) ==> call_requires(
                f,
                (a, b, c, d, e, g, h, k, m2, n2, p2),
            ),
        ensures
            ({
                let merged = merge_msg_opt(merge_msg_opt(merge_msg_opt(merge_msg_opt(merge_msg_opt(merge_msg_opt(merge_msg_opt(merge_msg_opt(merge_msg_opt(merge_msg_opt(self.msg_seq(), result_2.msg_seq()), result_3.msg_seq()), result_4.msg_seq()), result_5.msg_seq()), result_6.msg_seq()), result_7.msg_seq()), result_8.msg_seq()), result_9.msg_seq()), result_10.msg_seq()), result_11.msg_seq());
                match (
                    self.contained_value(),
                    result_2.contained_value(),
                    result_3.contained_value(),
                    result_4.contained_value(),
                    result_5.contained_value(),
                    result_6.contained_value(),
                    result_7.contained_value(),
                    result_8.contained_value(),
                    result_9.contained_value(),
                    result_10.contained_value(),
                    result_11.contained_value(),
                ) {
                    (Some(a), Some(b), Some(c), Some(d), Some(e), Some(g), Some(h), Some(k), Some(m2), Some(n2), Some(p2)) => {
                        if self is Success && result_2 is Success && result_3 is Success && result_4 is Success && result_5 is Success && result_6 is Success && result_7 is Success && result_8 is Success && result_9 is Success && result_10 is Success && result_11 is Success {
                            r matches DataResult::Success { result: t, lifecycle: l } && l
                                == Lifecycle::Experimental && call_ensures(f, (a, b, c, d, e, g, h, k, m2, n2, p2), t)
                        } else {
                            r matches DataResult::Error {
                                partial_result: Some(t),
                                lifecycle: l,
                                message: m,
                            } && l == Lifecycle::Experimental && Some(m@) == merged
                                && call_ensures(f, (a, b, c, d, e, g, h, k, m2, n2, p2), t)
                        }
                    },
                    _ => r matches DataResult::Error {
                        partial_result: None,
                        lifecycle: l,
                        message: m,
                    } && l == Lifecycle::Experimental && Some(m@) == merged,
                }
            }),
    {
        let all_success = self.is_success() && result_2.is_success() && result_3.is_success() && result_4.is_success() && result_5.is_success() && result_6.is_success() && result_7.is_success() && result_8.is_success() && result_9.is_success() && result_10.is_success() && result_11.is_success();
        let (p1, m1) = self.split();
        let (p2, m2) = result_2.split();
        let (p3, m3) = result_3.split();
        let (p4, m4) = result_4.split();
        let (p5, m5) = result_5.split();
        let (p6, m6) = result_6.split();
        let (p7, m7) = result_7.split();
        let (p8, m8) = result_8.split();
        let (p9, m9) = result_9.split();
        let (p10, m10) = result_10.split();
        let (p11, m11) = result_11.split();
        let merged = merge_messages(merge_messages(merge_messages(merge_messages(merge_messages(merge_messages(merge_messages(merge_messages(merge_messages(merge_messages(m1, m2), m3), m4), m5), m6), m7), m8), m9), m10), m11);
        match (p1, p2, p3, p4, p5, p6, p7, p8, p9, p10, p11) {
            (Some(a), Some(b), Some(c), Some(d), Some(e), Some(g), Some(h), Some(k), Some(m2), Some(n2), Some(p2)) => {
                if all_success {
                    DataResult::Success {
                        result: f(a, b, c, d, e, g, h, k, m2, n2, p2),
                        lifecycle: Lifecycle::Experimental,
                    }
                } else {
                    match merged {
                        Some(message) => DataResult::Error {
                            partial_result: Some(f(a, b, c, d, e, g, h, k, m2, n2, p2)),
                            lifecycle: Lifecycle::Experimental,
                            message,
                        },
                        None => vstd::pervasive::unreached(),
                    }
                }
            },
            _ => {
                match merged {
                    Some(message) => DataResult::Error {
                        partial_result: None,
                        lifecycle: Lifecycle::Experimental,
                        message,
                    },
                    None => vstd::pervasive::unreached(),
                }
            },
        }
    }

    /// Applies a function to the values of twelve `DataResult`s, with the
    /// same success, partial, message and lifecycle rules as
    /// [`DataResult::apply_2`].
    #[must_use]
    pub fn apply_12<R2, R3, R4, R5, R6, R7, R8, R9, R10, R11, R12, T, F: FnOnce(R, R2, R3, R4, R5, R6, R7, R8, R9, R10, R11, R12) -> T>(
        self,
        f: F,
        result_2: DataResult<R2>,
        result_3: DataResult<R3>,
        result_4: DataResult<R4>,
        result_5: DataResult<R5>,
        result_6: DataResult<R6>,
        result_7: DataResult<R7>,
        result_8: DataResult<R8>,
        result_9: DataResult<R9>,
        result_10: DataResult<R10>,
        result_11: DataResult<R11>,
        result_12: DataResult<R12>,
    ) -> (r: DataResult<T>)
        requires
            self.contained_value() matches Some(a)
                ==> result_2.contained_value() matches Some(b)
                ==> result_3.contained_value() matches Some(c)
                ==> result_4.contained_value() matches Some(d)
                ==> result_5.contained_value() matches Some(e)
                ==> result_6.contained_value() matches Some(g)
                ==> result_7.contained_value() matches Some(h)
                ==> result_8.contained_value() matches Some(k)
                ==> result_9.contained_value() matches Some(m2)
                ==> result_10.contained_value() matches Some(n2)
                ==> result_11.contained_value() matches Some(p2)
                ==> result_12.contained_value() matches Some(q2) ==> call_requires(
                f,
                (a, b, c, d, e, g, h, k, m2, n2, p2, q2),
            ),
        ensures
            ({
                let merged = merge_msg_opt(merge_msg_opt(merge_msg_opt(merge_msg_opt(merge_msg_opt(merge_msg_opt(merge_msg_opt(merge_msg_opt(merge_msg_opt(merge_msg_opt(merge_msg_opt(self.msg_seq(), result_2.msg_seq()), result_3.msg_seq()), result_4.msg_seq()), result_5.msg_seq()), result_6.msg_seq()), result_7.msg_seq()), result_8.msg_seq()), result_9.msg_seq()), result_10.msg_seq()), result_11.msg_seq()), result_12.msg_seq());
                match (
                    self.contained_value(),
                    result_2.contained_value(),
                    result_3.contained_value(),
                    result_4.contained_value(),
                    result_5.contained_value(),
                    result_6.contained_value(),
                    result_7.contained_value(),
                    result_8.contained_value(),
                    result_9.contained_value(),
                    result_10.contained_value(),
                    result_11.contained_value(),
                    result_12.contained_value(),
                ) {
                    (Some(a), Some(b), Some(c), Some(d), Some(e), Some(g), Some(h), Some(k), Some(m2), Some(n2), Some(p2), Some(q2)) => {
                        if self is Success && result_2 is Success && result_3 is Success && result_4 is Success && result_5 is Success && result_6 is Success && result_7 is Success && result_8 is Success && result_9 is Success && result_10 is Success && result_11 is Success && result_12 is Success {
                            r matches DataResult::Success { result: t, lifecycle: l } && l
                                == Lifecycle::Experimental && call_ensures(f, (a, b, c, d, e, g, h, k, m2, n2, p2, q2), t)
                        } else {
                            r matches DataResult::Error {
                                partial_result: Some(t),
                                lifecycle: l,
                                message: m,
                            } && l == Lifecycle::Experimental && Some(m@) == merged
                                && call_ensures(f, (a, b, c, d, e, g, h, k, m2, n2, p2, q2), t)
                        }
                    },
                    _ => r matches DataResult::Error {
                        partial_result: None,
                        lifecycle: l,
                        message: m,
                    } && l == Lifecycle::Experimental && Some(m@) == merged,
                }
            }),
    {
        let all_success = self.is_success() && result_2.is_success() && result_3.is_success() && result_4.is_success() && result_5.is_success() && result_6.is_success() && result_7.is_success() && result_8.is_success() && result_9.is_success() && result_10.is_success() && result_11.is_success() && result_12.is_success();
        let (p1, m1) = self.split();
        let (p2, m2) = result_2.split();
        let (p3, m3) = result_3.split();
        let (p4, m4) = result_4.split();
        let (p5, m5) = result_5.split();
        let (p6, m6) = result_6.split();
        let (p7, m7) = result_7.split();
        let (p8, m8) = result_8.split();
        let (p9, m9) = result_9.split();
        let (p10, m10) = result_10.split();
        let (p11, m11) = result_11.split();
        let (p12, m12) = result_12.split();
        let merged = merge_messages(merge_messages(merge_messages(merge_messages(merge_messages(merge_messages(merge_messages(merge_messages(merge_messages(merge_messages(merge_messages(m1, m2), m3), m4), m5), m6), m7), m8), m9), m10), m11), m12);
        match (p1, p2, p3, p4, p5, p6, p7, p8, p9, p10, p11, p12) {
            (Some(a), Some(b), Some(c), Some(d), Some(e), Some(g), Some(h), Some(k), Some(m2), Some(n2), Some(p2), Some(q2)) => {
                if all_success {
                    DataResult::Success {
                        result: f(a, b, c, d, e, g, h, k, m2, n2, p2, q2),
                        lifecycle: Lifecycle::Experimental,
                    }
                } else {
                    match merged {
                        Some(message) => DataResult::Error {
                            partial_result: Some(f(a, b, c, d, e, g, h, k, m2, n2, p2, q2)),
                            lifecycle: Lifecycle::Experimental,
                            message,
                        },
                        None => vstd::pervasive::unreached(),
                    }
                }
            },
            _ => {
                match merged {
                    Some(message) => DataResult::Error {
                        partial_result: None,
                        lifecycle: Lifecycle::Experimental,
                        message,
                    },
                    None => vstd::pervasive::unreached(),
                }
            },
        }
    }

    /// Applies a function to the values of thirteen `DataResult`s, with the
    /// same success, partial, message and lifecycle rules as
    /// [`DataResult::apply_2`].
    #[must_use]
    pub fn apply_13<R2, R3, R4, R5, R6, R7, R8, R9, R10, R11, R12, R13, T, F: FnOnce(R, R2, R3, R4, R5, R6, R7, R8, R9, R10, R11, R12, R13) -> T>(
        self,
        f: F,
        result_2: DataResult<R2>,
        result_3: DataResult<R3>,
        result_4: DataResult<R4>,
        result_5: DataResult<R5>,
        result_6: DataResult<R6>,
        result_7: DataResult<R7>,
        result_8: DataResult<R8>,
        result_9: DataResult<R9>,
        result_10: DataResult<R10>,
        result_11: DataResult<R11>,
        result_12: DataResult<R12>,
        result_13: DataResult<R13>,
    ) -> (r: DataResult<T>)
        requires
            self.contained_value() matches Some(a)
                ==> result_2.contained_value() matches Some(b)
                ==> result_3.contained_value() matches Some(c)
                ==> result_4.contained_value() matches Some(d)
                ==> result_5.contained_value() matches Some(e)
                ==> result_6.contained_value() matches Some(g)
                ==> result_7.contained_value() matches Some(h)
                ==> result_8.contained_value() matches Some(k)
                ==> result_9.contained_value() matches Some(m2)
                ==> result_10.contained_value() matches Some(n2)
                ==> result_11.contained_value() matches Some(p2)
                ==> result_12.contained_value() matches Some(q2)
                ==> result_13.contained_value() matches Some(s2) ==> call_requires(
                f,
                (a, b, c, d, e, g, h, k, m2, n2, p2, q2, s2),
            ),
        ensures
            ({
                let merged = merge_msg_opt(merge_msg_opt(merge_msg_opt(merge_msg_opt(merge_msg_opt(merge_msg_opt(merge_msg_opt(merge_msg_opt(merge_msg_opt(merge_msg_opt(merge_msg_opt(merge_msg_opt(self.msg_seq(), result_2.msg_seq()), result_3.msg_seq()), result_4.msg_seq()), result_5.msg_seq()), result_6.msg_seq()), result_7.msg_seq()), result_8.msg_seq()), result_9.msg_seq()), result_10.msg_seq()), result_11.msg_seq()), result_12.msg_seq()), result_13.msg_seq());
                match (
                    self.contained_value(),
                    result_2.contained_value(),
                    result_3.contained_value(),
                    result_4.contained_value(),
                    result_5.contained_value(),
                    result_6.contained_value(),
                    result_7.contained_value(),
                    result_8.contained_value(),
                    result_9.contained_value(),
                    result_10.contained_value(),
                    result_11.contained_value(),
                    result_12.contained_value(),
                    result_13.contained_value(),
                ) {
                    (Some(a), Some(b), Some(c), Some(d), Some(e), Some(g), Some(h), Some(k), Some(m2), Some(n2), Some(p2), Some(q2), Some(s2)) => {
                        if self is Success && result_2 is Success && result_3 is Success && result_4 is Success && result_5 is Success && result_6 is Success && result_7 is Success && result_8 is Success && result_9 is Success && result_10 is Success && result_11 is Success && result_12 is Success && result_13 is Success {
                            r matches DataResult::Success { result: t, lifecycle: l } && l
                                == Lifecycle::Experimental && call_ensures(f, (a, b, c, d, e, g, h, k, m2, n2, p2, q2, s2), t)
                        } else {
                            r matches DataResult::Error {
                                partial_result: Some(t),
                                lifecycle: l,
                                message: m,
                            } && l == Lifecycle::Experimental && Some(m@) == merged
                                && call_ensures(f, (a, b, c, d, e, g, h, k, m2, n2, p2, q2, s2), t)
                        }
                    },
                    _ => r matches DataResult::Error {
                        partial_result: None,
                        lifecycle: l,
                        message: m,
                    } && l == Lifecycle::Experimental && Some(m@) == merged,
                }
            }),
    {
        let all_success = self.is_success() && result_2.is_success() && result_3.is_success() && result_4.is_success() && result_5.is_success() && result_6.is_success() && result_7.is_success() && result_8.is_success() && result_9.is_success() && result_10.is_success() && result_11.is_success() && result_12.is_success() && result_13.is_success();
        let (p1, m1) = self.split();
        let (p2, m2) = result_2.split();
        let (p3, m3) = result_3.split();
        let (p4, m4) = result_4.split();
        let (p5, m5) = result_5.split();
        let (p6, m6) = result_6.split();
        let (p7, m7) = result_7.split();
        let (p8, m8) = result_8.split();
        let (p9, m9) = result_9.split();
        let (p10, m10) = result_10.split();
        let (p11, m11) = result_11.split();
        let (p12, m12) = result_12.split();
        let (p13, m13) = result_13.split();
        let merged = merge_messages(merge_messages(merge_messages(merge_messages(merge_messages(merge_messages(merge_messages(merge_messages(merge_messages(merge_messages(merge_messages(merge_messages(m1, m2), m3), m4), m5), m6), m7), m8), m9), m10), m11), m12), m13);
        match (p1, p2, p3, p4, p5, p6, p7, p8, p9, p10, p11, p12, p13) {
            (Some(a), Some(b), Some(c), Some(d), Some(e), Some(g), Some(h), Some(k), Some(m2), Some(n2), Some(p2), Some(q2), Some(s2)) => {
                if all_success {
                    DataResult::Success {
                        result: f(a, b, c, d, e, g, h, k, m2, n2, p2, q2, s2),
                        lifecycle: Lifecycle::Experimental,
                    }
                } else {
                    match merged {
                        Some(message) => DataResult::Error {
                            partial_result: Some(f(a, b, c, d, e, g, h, k, m2, n2, p2, q2, s2)),
                            lifecycle: Lifecycle::Experimental,
                            message,
                        },
                        None => vstd::pervasive::unreached(),
                    }
                }
            },
            _ => {
                match merged {
                    Some(message) => DataResult::Error {
                        partial_result: None,
                        lifecycle: Lifecycle::Experimental,
                        message,
                    },
                    None => vstd::pervasive::unreached(),
                }
            },
        }
    }

    /// Applies a function to the values of fourteen `DataResult`s, with the
    /// same success, partial, message and lifecycle rules as
    /// [`DataResult::apply_2`].
    #[must_use]
    pub fn apply_14<R2, R3, R4, R5, R6, R7, R8, R9, R10, R11, R12, R13, R14, T, F: FnOnce(R, R2, R3, R4, R5, R6, R7, R8, R9, R10, R11, R12, R13, R14) -> T>(
        self,
        f: F,
        result_2: DataResult<R2>,
        result_3: DataResult<R3>,
        result_4: DataResult<R4>,
        result_5: DataResult<R5>,
        result_6: DataResult<R6>,
        result_7: DataResult<R7>,
        result_8: DataResult<R8>,
        result_9: DataResult<R9>,
        result_10: DataResult<R10>,
        result_11: DataResult<R11>,
        result_12: DataResult<R12>,
        result_13: DataResult<R13>,
        result_14: DataResult<R14>,
    ) -> (r: DataResult<T>)
        requires
            self.contained_value() matches Some(a)
                ==> result_2.contained_value() matches Some(b)
                ==> result_3.contained_value() matches Some(c)
                ==> result_4.contained_value() matches Some(d)
                ==> result_5.contained_value() matches Some(e)
                ==> result_6.contained_value() matches Some(g)
                ==> result_7.contained_value() matches Some(h)
                ==> result_8.contained_value() matches Some(k)
                ==> result_9.contained_value() matches Some(m2)
                ==> result_10.contained_value() matches Some(n2)
                ==> result_11.contained_value() matches Some(p2)
                ==> result_12.contained_value() matches Some(q2)
                ==> result_13.contained_value() matches Some(s2)
                ==> result_14.contained_value() matches Some(t2) ==> call_requires(
                f,
                (a, b, c, d, e, g, h, k, m2, n2, p2, q2, s2, t2),
            ),
        ensures
            ({
                let merged = merge_msg_opt(merge_msg_opt(merge_msg_opt(merge_msg_opt(merge_msg_opt(merge_msg_opt(merge_msg_opt(merge_msg_opt(merge_msg_opt(merge_msg_opt(merge_msg_opt(merge_msg_opt(merge_msg_opt(self.msg_seq(), result_2.msg_seq()), result_3.msg_seq()), result_4.msg_seq()), result_5.msg_seq()), result_6.msg_seq()), result_7.msg_seq()), result_8.msg_seq()), result_9.msg_seq()), result_10.msg_seq()), result_11.msg_seq()), result_12.msg_seq()), result_13.msg_seq()), result_14.msg_seq());
                match (
                    self.contained_value(),
                    result_2.contained_value(),
                    result_3.contained_value(),
                    result_4.contained_value(),
                    result_5.contained_value(),
                    result_6.contained_value(),
                    result_7.contained_value(),
                    result_8.contained_value(),
                    result_9.contained_value(),
                    result_10.contained_value(),
                    result_11.contained_value(),
                    result_12.contained_value(),
                    result_13.contained_value(),
                    result_14.contained_value(),
                ) {
                    (Some(a), Some(b), Some(c), Some(d), Some(e), Some(g), Some(h), Some(k), Some(m2), Some(n2), Some(p2), Some(q2), Some(s2), Some(t2)) => {
                        if self is Success && result_2 is Success && result_3 is Success && result_4 is Success && result_5 is Success && result_6 is Success && result_7 is Success && result_8 is Success && result_9 is Success && result_10 is Success && result_11 is Success && result_12 is Success && result_13 is Success && result_14 is Success {
                            r matches DataResult::Success { result: t, lifecycle: l } && l
                                == Lifecycle::Experimental && call_ensures(f, (a, b, c, d, e, g, h, k, m2, n2, p2, q2, s2, t2), t)
                        } else {
                            r matches DataResult::Error {
                                partial_result: Some(t),
                                lifecycle: l,
                                message: m,
                            } && l == Lifecycle::Experimental && Some(m@) == merged
                                && call_ensures(f, (a, b, c, d, e, g, h, k, m2, n2, p2, q2, s2, t2), t)
                        }
                    },
                    _ => r matches DataResult::Error {
                        partial_result: None,
                        lifecycle: l,
                        message: m,
                    } && l == Lifecycle::Experimental && Some(m@) == merged,
                }
            }),
    {
        let all_success = self.is_success() && result_2.is_success() && result_3.is_success() && result_4.is_success() && result_5.is_success() && result_6.is_success() && result_7.is_success() && result_8.is_success() && result_9.is_success() && result_10.is_success() && result_11.is_success() && result_12.is_success() && result_13.is_success() && result_14.is_success();
        let (p1, m1) = self.split();
        let (p2, m2) = result_2.split();
        let (p3, m3) = result_3.split();
        let (p4, m4) = result_4.split();
        let (p5, m5) = result_5.split();
        let (p6, m6) = result_6.split();
        let (p7, m7) = result_7.split();
        let (p8, m8) = result_8.split();
        let (p9, m9) = result_9.split();
        let (p10, m10) = result_10.split();
        let (p11, m11) = result_11.split();
        let (p12, m12) = result_12.split();
        let (p13, m13) = result_13.split();
        let (p14, m14) = result_14.split();
        let merged = merge_messages(merge_messages(merge_messages(merge_messages(merge_messages(merge_messages(merge_messages(merge_messages(merge_messages(merge_messages(merge_messages(merge_messages(merge_messages(m1, m2), m3), m4), m5), m6), m7), m8), m9), m10), m11), m12), m13), m14);
        match (p1, p2, p3, p4, p5, p6, p7, p8, p9, p10, p11, p12, p13, p14) {
            (Some(a), Some(b), Some(c), Some(d), Some(e), Some(g), Some(h), Some(k), Some(m2), Some(n2), Some(p2), Some(q2), Some(s2), Some(t2)) => {
                if all_success {
                    DataResult::Success {
                        result: f(a, b, c, d, e, g, h, k, m2, n2, p2, q2, s2, t2),
                        lifecycle: Lifecycle::Experimental,
                    }
                } else {
                    match merged {
                        Some(message) => DataResult::Error {
                            partial_result: Some(f(a, b, c, d, e, g, h, k, m2, n2, p2, q2, s2, t2)),
                            lifecycle: Lifecycle::Experimental,
                            message,
                        },
                        None => vstd::pervasive::unreached(),
                    }
                }
            },
            _ => {
                match merged {
                    Some(message) => DataResult::Error {
                        partial_result: None,
                        lifecycle: Lifecycle::Experimental,
                        message,
                    },
                    None => vstd::pervasive::unreached(),
                }
            },
        }
    }

    /// Applies a function to the values of fifteen `DataResult`s, with the
    /// same success, partial, message and lifecycle rules as
    /// [`DataResult::apply_2`].
    #[must_use]
    pub fn apply_15<R2, R3, R4, R5, R6, R7, R8, R9, R10, R11, R12, R13, R14, R15, T, F: FnOnce(R, R2, R3, R4, R5, R6, R7, R8, R9, R10, R11, R12, R13, R14, R15) -> T>(
        self,
        f: F,
        result_2: DataResult<R2>,
        result_3: DataResult<R3>,
        result_4: DataResult<R4>,
        result_5: DataResult<R5>,
        result_6: DataResult<R6>,
        result_7: DataResult<R7>,
        result_8: DataResult<R8>,
        result_9: DataResult<R9>,
        result_10: DataResult<R10>,
        result_11: DataResult<R11>,
        result_12: DataResult<R12>,
        result_13: DataResult<R13>,
        result_14: DataResult<R14>,
        result_15: DataResult<R15>,
    ) -> (r: DataResult<T>)
        requires
            self.contained_value() matches Some(a)
                ==> result_2.contained_value() matches Some(b)
                ==> result_3.contained_value() matches Some(c)
                ==> result_4.contained_value() matches Some(d)
                ==> result_5.contained_value() matches Some(e)
                ==> result_6.contained_value() matches Some(g)
                ==> result_7.contained_value() matches Some(h)
                ==> result_8.contained_value() matches Some(k)
                ==> result_9.contained_value() matches Some(m2)
                ==> result_10.contained_value() matches Some(n2)
                ==> result_11.contained_value() matches Some(p2)
                ==> result_12.contained_value() matches Some(q2)
                ==> result_13.contained_value() matches Some(s2)
                ==> result_14.contained_value() matches Some(t2)
                ==> result_15.contained_value() matches Some(u2) ==> call_requires(
                f,
                (a, b, c, d, e, g, h, k, m2, n2, p2, q2, s2, t2, u2),
            ),
        ensures
            ({
                let merged = merge_msg_opt(merge_msg_opt(merge_msg_opt(merge_msg_opt(merge_msg_opt(merge_msg_opt(merge_msg_opt(merge_msg_opt(merge_msg_opt(merge_msg_opt(merge_msg_opt(merge_msg_opt(merge_msg_opt(merge_msg_opt(self.msg_seq(), result_2.msg_seq()), result_3.msg_seq()), result_4.msg_seq()), result_5.msg_seq()), result_6.msg_seq()), result_7.msg_seq()), result_8.msg_seq()), result_9.msg_seq()), result_10.msg_seq()), result_11.msg_seq()), result_12.msg_seq()), result_13.msg_seq()), result_14.msg_seq()), result_15.msg_seq());
                match (
                    self.contained_value(),
                    result_2.contained_value(),
                    result_3.contained_value(),
                    result_4.contained_value(),
                    result_5.contained_value(),
                    result_6.contained_value(),
                    result_7.contained_value(),
                    result_8.contained_value(),
                    result_9.contained_value(),
                    result_10.contained_value(),
                    result_11.contained_value(),
                    result_12.contained_value(),
                    result_13.contained_value(),
                    result_14.contained_value(),
                    result_15.contained_value(),
                ) {
                    (Some(a), Some(b), Some(c), Some(d), Some(e), Some(g), Some(h), Some(k), Some(m2), Some(n2), Some(p2), Some(q2), Some(s2), Some(t2), Some(u2)) => {
                        if self is Success && result_2 is Success && result_3 is Success && result_4 is Success && result_5 is Success && result_6 is Success && result_7 is Success && result_8 is Success && result_9 is Success && result_10 is Success && result_11 is Success && result_12 is Success && result_13 is Success && result_14 is Success && result_15 is Success {
                            r matches DataResult::Success { result: t, lifecycle: l } && l
                                == Lifecycle::Experimental && call_ensures(f, (a, b, c, d, e, g, h, k, m2, n2, p2, q2, s2, t2, u2), t)
                        } else {
                            r matches DataResult::Error {
                                partial_result: Some(t),
                                lifecycle: l,
                                message: m,
                            } && l == Lifecycle::Experimental && Some(m@) == merged
                                && call_ensures(f, (a, b, c, d, e, g, h, k, m2, n2, p2, q2, s2, t2, u2), t)
                        }
                    },
                    _ => r matches DataResult::Error {
                        partial_result: None,
                        lifecycle: l,
                        message: m,
                    } && l == Lifecycle::Experimental && Some(m@) == merged,
                }
            }),
    {
        let all_success = self.is_success() && result_2.is_success() && result_3.is_success() && result_4.is_success() && result_5.is_success() && result_6.is_success() && result_7.is_success() && result_8.is_success() && result_9.is_success() && result_10.is_success() && result_11.is_success() && result_12.is_success() && result_13.is_success() && result_14.is_success() && result_15.is_success();
        let (p1, m1) = self.split();
        let (p2, m2) = result_2.split();
        let (p3, m3) = result_3.split();
        let (p4, m4) = result_4.split();
        let (p5, m5) = result_5.split();
        let (p6, m6) = result_6.split();
        let (p7, m7) = result_7.split();
        let (p8, m8) = result_8.split();
        let (p9, m9) = result_9.split();
        let (p10, m10) = result_10.split();
        let (p11, m11) = result_11.split();
        let (p12, m12) = result_12.split();
        let (p13, m13) = result_13.split();
        let (p14, m14) = result_14.split();
        let (p15, m15) = result_15.split();
        let merged = merge_messages(merge_messages(merge_messages(merge_messages(merge_messages(merge_messages(merge_messages(merge_messages(merge_messages(merge_messages(merge_messages(merge_messages(merge_messages(merge_messages(m1, m2), m3), m4), m5), m6), m7), m8), m9), m10), m11), m12), m13), m14), m15);
        match (p1, p2, p3, p4, p5, p6, p7, p8, p9, p10, p11, p12, p13, p14, p15) {
            (Some(a), Some(b), Some(c), Some(d), Some(e), Some(g), Some(h), Some(k), Some(m2), Some(n2), Some(p2), Some(q2), Some(s2), Some(t2), Some(u2)) => {
                if all_success {
                    DataResult::Success {
                        result: f(a, b, c, d, e, g, h, k, m2, n2, p2, q2, s2, t2, u2),
                        lifecycle: Lifecycle::Experimental,
                    }
                } else {
                    match merged {
                        Some(message) => DataResult::Error {
                            partial_result: Some(f(a, b, c, d, e, g, h, k, m2, n2, p2, q2, s2, t2, u2)),
                            lifecycle: Lifecycle::Experimental,
                            message,
                        },
                        None => vstd::pervasive::unreached(),
                    }
                }
            },
            _ => {
                match merged {
                    Some(message) => DataResult::Error {
                        partial_result: None,
                        lifecycle: Lifecycle::Experimental,
                        message,
                    },
                    None => vstd::pervasive::unreached(),
                }
            },
        }
    }

    /// Applies a function to the values of sixteen `DataResult`s, with the
    /// same success, partial, message and lifecycle rules as
    /// [`DataResult::apply_2`].
    #[must_use]
    pub fn apply_16<R2, R3, R4, R5, R6, R7, R8, R9, R10, R11, R12, R13, R14, R15, R16, T, F: FnOnce(R, R2, R3, R4, R5, R6, R7, R8, R9, R10, R11, R12, R13, R14, R15, R16) -> T>(
        self,
        f: F,
        result_2: DataResult<R2>,
        result_3: DataResult<R3>,
        result_4: DataResult<R4>,
        result_5: DataResult<R5>,
        result_6: DataResult<R6>,
        result_7: DataResult<R7>,
        result_8: DataResult<R8>,
        result_9: DataResult<R9>,
        result_10: DataResult<R10>,
        result_11: DataResult<R11>,
        result_12: DataResult<R12>,
        result_13: DataResult<R13>,
        result_14: DataResult<R14>,
        result_15: DataResult<R15>,
        result_16: DataResult<R16>,
    ) -> (r: DataResult<T>)
        requires
            self.contained_value() matches Some(a)
                ==> result_2.contained_value() matches Some(b)
                ==> result_3.contained_value() matches Some(c)
                ==> result_4.contained_value() matches Some(d)
                ==> result_5.contained_value() matches Some(e)
                ==> result_6.contained_value() matches Some(g)
                ==> result_7.contained_value() matches Some(h)
                ==> result_8.contained_value() matches Some(k)
                ==> result_9.contained_value() matches Some(m2)
                ==> result_10.contained_value() matches Some(n2)
                ==> result_11.contained_value() matches Some(p2)
                ==> result_12.contained_value() matches Some(q2)
                ==> result_13.contained_value() matches Some(s2)
                ==> result_14.contained_value() matches Some(t2)
                ==> result_15.contained_value() matches Some(u2)
                ==> result_16.contained_value() matches Some(w2) ==> call_requires(
                f,
                (a, b, c, d, e, g, h, k, m2, n2, p2, q2, s2, t2, u2, w2),
            ),
        ensures
            ({
                let merged = merge_msg_opt(merge_msg_opt(merge_msg_opt(merge_msg_opt(merge_msg_opt(merge_msg_opt(merge_msg_opt(merge_msg_opt(merge_msg_opt(merge_msg_opt(merge_msg_opt(merge_msg_opt(merge_msg_opt(merge_msg_opt(merge_msg_opt(self.msg_seq(), result_2.msg_seq()), result_3.msg_seq()), result_4.msg_seq()), result_5.msg_seq()), result_6.msg_seq()), result_7.msg_seq()), result_8.msg_seq()), result_9.msg_seq()), result_10.msg_seq()), result_11.msg_seq()), result_12.msg_seq()), result_13.msg_seq()), result_14.msg_seq()), result_15.msg_seq()), result_16.msg_seq());
                match (
                    self.contained_value(),
                    result_2.contained_value(),
                    result_3.contained_value(),
                    result_4.contained_value(),
                    result_5.contained_value(),
                    result_6.contained_value(),
                    result_7.contained_value(),
                    result_8.contained_value(),
                    result_9.contained_value(),
                    result_10.contained_value(),
                    result_11.contained_value(),
                    result_12.contained_value(),
                    result_13.contained_value(),
                    result_14.contained_value(),
                    result_15.contained_value(),
                    result_16.contained_value(),
                ) {
                    (Some(a), Some(b), Some(c), Some(d), Some(e), Some(g), Some(h), Some(k), Some(m2), Some(n2), Some(p2), Some(q2), Some(s2), Some(t2), Some(u2), Some(w2)) => {
                        if self is Success && result_2 is Success && result_3 is Success && result_4 is Success && result_5 is Success && result_6 is Success && result_7 is Success && result_8 is Success && result_9 is Success && result_10 is Success && result_11 is Success && result_12 is Success && result_13 is Success && result_14 is Success && result_15 is Success && result_16 is Success {
                            r matches DataResult::Success { result: t, lifecycle: l } && l
                                == Lifecycle::Experimental && call_ensures(f, (a, b, c, d, e, g, h, k, m2, n2, p2, q2, s2, t2, u2, w2), t)
                        } else {
                            r matches DataResult::Error {
                                partial_result: Some(t),
                                lifecycle: l,
                                message: m,
                            } && l == Lifecycle::Experimental && Some(m@) == merged
                                && call_ensures(f, (a, b, c, d, e, g, h, k, m2, n2, p2, q2, s2, t2, u2, w2), t)
                        }
                    },
                    _ => r matches DataResult::Error {
                        partial_result: None,
                        lifecycle: l,
                        message: m,
                    } && l == Lifecycle::Experimental && Some(m@) == merged,
                }
            }),
    {
        let all_success = self.is_success() && result_2.is_success() && result_3.is_success() && result_4.is_success() && result_5.is_success() && result_6.is_success() && result_7.is_success() && result_8.is_success() && result_9.is_success() && result_10.is_success() && result_11.is_success() && result_12.is_success() && result_13.is_success() && result_14.is_success() && result_15.is_success() && result_16.is_success();
        let (p1, m1) = self.split();
        let (p2, m2) = result_2.split();
        let (p3, m3) = result_3.split();
        let (p4, m4) = result_4.split();
        let (p5, m5) = result_5.split();
        let (p6, m6) = result_6.split();
        let (p7, m7) = result_7.split();
        let (p8, m8) = result_8.split();
        let (p9, m9) = result_9.split();
        let (p10, m10) = result_10.split();
        let (p11, m11) = result_11.split();
        let (p12, m12) = result_12.split();
        let (p13, m13) = result_13.split();
        let (p14, m14) = result_14.split();
        let (p15, m15) = result_15.split();
        let (p16, m16) = result_16.split();
        let merged = merge_messages(merge_messages(merge_messages(merge_messages(merge_messages(merge_messages(merge_messages(merge_messages(merge_messages(merge_messages(merge_messages(merge_messages(merge_messages(merge_messages(merge_messages(m1, m2), m3), m4), m5), m6), m7), m8), m9), m10), m11), m12), m13), m14), m15), m16);
        match (p1, p2, p3, p4, p5, p6, p7, p8, p9, p10, p11, p12, p13, p14, p15, p16) {
            (Some(a), Some(b), Some(c), Some(d), Some(e), Some(g), Some(h), Some(k), Some(m2), Some(n2), Some(p2), Some(q2), Some(s2), Some(t2), Some(u2), Some(w2)) => {
                if all_success {
                    DataResult::Success {
                        result: f(a, b, c, d, e, g, h, k, m2, n2, p2, q2, s2, t2, u2, w2),
                        lifecycle: Lifecycle::Experimental,
                    }
                } else {
                    match merged {
                        Some(message) => DataResult::Error {
                            partial_result: Some(f(a, b, c, d, e, g, h, k, m2, n2, p2, q2, s2, t2, u2, w2)),
                            lifecycle: Lifecycle::Experimental,
                            message,
                        },
                        None => vstd::pervasive::unreached(),
                    }
                }
            },
            _ => {
                match merged {
                    Some(message) => DataResult::Error {
                        partial_result: None,
                        lifecycle: Lifecycle::Experimental,
                        message,
                    },
                    None => vstd::pervasive::unreached(),
                }
            },
        }
    }
}

impl<R: DeepView> DataResult<R> {
    /// Chains this `DataResult` into a function producing another one.
    /// - A complete or partial value is handed to `f`, and `f`'s output is
    ///   combined with this result: lifecycles merge, and for a partial input
    ///   the messages concatenate.
    /// - An error with no value is returned unchanged.
    #[must_use]
    pub fn flat_map<T: DeepView, F: FnOnce(R) -> DataResult<T>>(self, f: F) -> (r: DataResult<T>)
        requires
            self.contained_value() matches Some(v) ==> call_requires(f, (v,)),
        ensures
            match self.contained_value() {
                Some(v) => exists|m: DataResult<T>|
                    {
                        &&& #[trigger] call_ensures(f, (v,), m)
                        &&& r.deep_view() == self.deep_view().flat_map_step(m.deep_view())
                    },
                None => r.deep_view() == self.deep_view().flat_map_step(
                    arbitrary::<DataResultV<T::V>>(),
                ),
            },
    {
        match self {
            Self::Success { result, lifecycle } => {
                let m = f(result);
                m.add_lifecycle(lifecycle)
            },
            Self::Error { partial_result: Some(p), lifecycle, message } => {
                let second = f(p);
                let combined = second.lifecycle().add(lifecycle);
                match second {
                    DataResult::Success { result, .. } => DataResult::Error {
                        partial_result: Some(result),
                        message,
                        lifecycle: combined,
                    },
                    DataResult::Error { partial_result, message: second_message, .. } => DataResult::Error {
                        partial_result,
                        message: DataResult::<R>::append_messages(
                            message.as_str(),
                            second_message.as_str(),
                        ),
                        lifecycle: combined,
                    },
                }
            },
            Self::Error { partial_result: None, lifecycle, message } => DataResult::Error {
                partial_result: None,
                lifecycle,
                message,
            },
        }
    }
}

} // verus!
