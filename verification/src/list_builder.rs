use crate::data_result::{DataResult, DataResultV};
use crate::json::{JsonV, JsonValue};
use crate::json_ops::JsonOps;
use crate::lifecycle::Lifecycle;
use vstd::prelude::*;

verus! {

/// A builder for list values. If anything goes wrong while adding elements,
/// the stored [`DataResult`] becomes an error.
pub struct ListBuilderImpl {
    /// The elements collected so far, or the error met while collecting.
    pub elements: DataResult<Vec<JsonValue>>,
    /// The adapter that will assemble the final list.
    pub ops: JsonOps,
}

/// One element added to the collected elements: a complete or partial
/// collection receives the element, an empty error stays as it is.
pub open spec fn lb_add(acc: DataResultV<Seq<JsonV>>, v: JsonV) -> DataResultV<Seq<JsonV>> {
    match acc {
        DataResultV::Success { result, lifecycle } => DataResultV::Success {
            result: result.push(v),
            lifecycle,
        },
        DataResultV::Error { partial_result: Some(s), lifecycle, message } => DataResultV::Error {
            partial_result: Some(s.push(v)),
            lifecycle,
            message,
        },
        e => e,
    }
}

/// One element result folded into the collected elements, with the combining
/// rules of the applicative: messages join, a value survives only when both
/// sides hold one, and the result is stable.
pub open spec fn lb_add_result(acc: DataResultV<Seq<JsonV>>, v: DataResultV<JsonV>) -> DataResultV<
    Seq<JsonV>,
> {
    let merged = crate::data_result::merge_msg_opt(acc.message_of(), v.message_of());
    match (acc.value_of(), v.value_of()) {
        (Some(s), Some(x)) => {
            if acc is Success && v is Success {
                DataResultV::Success { result: s.push(x), lifecycle: Lifecycle::Stable }
            } else {
                DataResultV::Error {
                    partial_result: Some(s.push(x)),
                    lifecycle: Lifecycle::Stable,
                    message: merged->0,
                }
            }
        },
        _ => DataResultV::Error {
            partial_result: None,
            lifecycle: Lifecycle::Stable,
            message: merged->0,
        },
    }
}

/// The final list built from the collected elements and a prefix.
pub open spec fn lb_build(acc: DataResultV<Seq<JsonV>>, ops: JsonOps, prefix: JsonV) -> DataResultV<
    JsonV,
> {
    match acc.value_of() {
        Some(s) => acc.flat_map_step(ops.merge_values_into_list_spec(prefix, s)),
        None => acc.flat_map_step(arbitrary::<DataResultV<JsonV>>()),
    }
}

/// Returns a fresh [`ListBuilderImpl`] with no elements.
pub fn new_list_builder_impl(ops: &JsonOps) -> (r: ListBuilderImpl)
    ensures
        r.elements.deep_view() == crate::data_result::success_v(Seq::<JsonV>::empty()),
        r.ops == *ops,
{
    let r = ListBuilderImpl { elements: DataResult::success(Vec::new()), ops: *ops };
    proof {
        let dv = r.elements.deep_view();
        assert(dv.value_of()->0 =~= Seq::<JsonV>::empty());
        assert(dv == crate::data_result::success_v(Seq::<JsonV>::empty()));
    }
    r
}

impl ListBuilderImpl {
    /// Adds a direct value to this builder.
    #[must_use]
    pub fn add(self, value: JsonValue) -> (r: Self)
        ensures
            r.elements.deep_view() == lb_add(self.elements.deep_view(), value.view_of()),
            r.ops == self.ops,
    {
        let ops = self.ops;
        match self.elements {
            DataResult::Success { result, lifecycle } => {
                let mut result = result;
                let ghost before = result.deep_view();
                result.push(value);
                proof {
                    assert(result.deep_view() =~= before.push(value.view_of()));
                }
                ListBuilderImpl { elements: DataResult::Success { result, lifecycle }, ops }
            },
            DataResult::Error { partial_result: Some(s), lifecycle, message } => {
                let mut s = s;
                let ghost before = s.deep_view();
                s.push(value);
                proof {
                    assert(s.deep_view() =~= before.push(value.view_of()));
                }
                ListBuilderImpl {
                    elements: DataResult::Error { partial_result: Some(s), lifecycle, message },
                    ops,
                }
            },
            e => ListBuilderImpl { elements: e, ops },
        }
    }

    /// Adds an element result to this builder, folding its error in.
    #[must_use]
    pub fn add_data_result(self, value: DataResult<JsonValue>) -> (r: Self)
        ensures
            r.elements.deep_view() == lb_add_result(self.elements.deep_view(), value.deep_view()),
            r.ops == self.ops,
    {
        let ops = self.ops;
        let both_success = self.elements.is_success() && value.is_success();
        let ghost acc0 = self.elements.deep_view();
        let ghost v0 = value.deep_view();
        let (s, m1) = split_elements(self.elements);
        let (x, m2) = split_value(value);
        let merged = crate::data_result::merge_messages(m1, m2);
        match (s, x) {
            (Some(s), Some(x)) => {
                let mut s = s;
                let ghost before = s.deep_view();
                let ghost xv = x.view_of();
                s.push(x);
                proof {
                    assert(s.deep_view() =~= before.push(xv));
                }
                if both_success {
                    ListBuilderImpl {
                        elements: DataResult::Success { result: s, lifecycle: Lifecycle::Stable },
                        ops,
                    }
                } else {
                    match merged {
                        Some(message) => ListBuilderImpl {
                            elements: DataResult::Error {
                                partial_result: Some(s),
                                lifecycle: Lifecycle::Stable,
                                message,
                            },
                            ops,
                        },
                        None => vstd::pervasive::unreached(),
                    }
                }
            },
            _ => {
                match merged {
                    Some(message) => ListBuilderImpl {
                        elements: DataResult::Error {
                            partial_result: None,
                            lifecycle: Lifecycle::Stable,
                            message,
                        },
                        ops,
                    },
                    None => vstd::pervasive::unreached(),
                }
            },
        }
    }

    /// Builds the final list from the collected elements and a prefix.
    pub fn build(self, prefix: JsonValue) -> (r: DataResult<JsonValue>)
        ensures
            r.deep_view() == lb_build(self.elements.deep_view(), self.ops, prefix.view_of()),
    {
        let ops = self.ops;
        match self.elements {
            DataResult::Success { result, lifecycle } => {
                proof {
                    crate::json::lemma_arr_view_is_deep_view(result);
                }
                ops.merge_values_into_list(prefix, result).add_lifecycle(lifecycle)
            },
            DataResult::Error { partial_result: Some(s), lifecycle, message } => {
                proof {
                    crate::json::lemma_arr_view_is_deep_view(s);
                }
                let second = ops.merge_values_into_list(prefix, s);
                let combined = second.lifecycle().add(lifecycle);
                match second {
                    DataResult::Success { result, .. } => DataResult::Error {
                        partial_result: Some(result),
                        message,
                        lifecycle: combined,
                    },
                    DataResult::Error { partial_result, message: second_message, .. } => DataResult::Error {
                        partial_result,
                        message: DataResult::<JsonValue>::append_messages(
                            message.as_str(),
                            second_message.as_str(),
                        ),
                        lifecycle: combined,
                    },
                }
            },
            DataResult::Error { partial_result: None, lifecycle, message } => DataResult::Error {
                partial_result: None,
                lifecycle,
                message,
            },
        }
    }
}

/// Splits an element collection into its value and its message.
fn split_elements(r: DataResult<Vec<JsonValue>>) -> (out: (Option<Vec<JsonValue>>, Option<String>))
    ensures
        match out.0 {
            Some(s) => r.deep_view().value_of() == Some(s.deep_view()),
            None => r.deep_view().value_of() is None,
        },
        crate::data_result::msg_opt_seq(out.1) == r.deep_view().message_of(),
        out.1 is None ==> out.0 is Some,
{
    match r {
        DataResult::Success { result, .. } => (Some(result), None),
        DataResult::Error { partial_result, message, .. } => (partial_result, Some(message)),
    }
}

/// Splits an element result into its value and its message.
fn split_value(r: DataResult<JsonValue>) -> (out: (Option<JsonValue>, Option<String>))
    ensures
        match out.0 {
            Some(s) => r.deep_view().value_of() == Some(s.view_of()),
            None => r.deep_view().value_of() is None,
        },
        crate::data_result::msg_opt_seq(out.1) == r.deep_view().message_of(),
        out.1 is None ==> out.0 is Some,
{
    match r {
        DataResult::Success { result, .. } => (Some(result), None),
        DataResult::Error { partial_result, message, .. } => (partial_result, Some(message)),
    }
}

} // verus!
