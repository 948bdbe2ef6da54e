//! Control flows that never break.
//!
//! [`Unbreakable`] is a break payload without values. A
//! [`ControlFlow<Unbreakable, C>`](ControlFlow) is therefore always a
//! [`Continue`](ControlFlow::Continue), and [`NoBreak`] hands out the value it
//! holds without a case for the break that cannot be there.

use core::convert::Infallible;
use core::ops::ControlFlow;
use vstd::prelude::*;

verus! {

/// A [`ControlFlow::Break`] type that can never happen.
///
/// It serves the purpose of [`Infallible`], for control flows. Its only field
/// is private and of a type without values, so that no Rust code can build
/// one; its type invariant, which Verus holds every value in executable code
/// to, is `false`, so that no verified code can either, and code that is
/// handed one may conclude anything.
pub struct Unbreakable {
    never: Infallible,
}

impl Unbreakable {
    /// What holds of every `Unbreakable` in executable code: nothing can.
    #[verifier::type_invariant]
    pub open spec fn exists_at_run_time(self) -> bool {
        false
    }

    /// The type has no values at run time: no value meets the invariant that
    /// each of them would have to meet.
    pub proof fn lemma_uninhabited(self)
        ensures
            !self.exists_at_run_time(),
    {
    }
}

/// A trait to extract continuation values from [control flows](ControlFlow)
/// that never break.
pub trait NoBreak {
    /// The type of the value in the [`Continue`](ControlFlow::Continue)
    /// variant of the control flow.
    type Continue;

    /// The value that the control flow continues with.
    spec fn continue_payload(self) -> Self::Continue;

    /// Returns the continue value of the control flow.
    fn continue_value_no_break(self) -> (value: Self::Continue)
        ensures
            value == self.continue_payload(),
    ;
}

impl<C> NoBreak for ControlFlow<Unbreakable, C> {
    type Continue = C;

    open spec fn continue_payload(self) -> C {
        match self {
            ControlFlow::Continue(value) => value,
            ControlFlow::Break(_) => arbitrary(),
        }
    }

    /// Returns the value of the [`Continue`](ControlFlow::Continue) that
    /// `self` is, as it stands.
    #[inline(always)]
    fn continue_value_no_break(self) -> (value: C)
        ensures
            self == ControlFlow::<Unbreakable, C>::Continue(value),
    {
        match self {
            ControlFlow::Continue(value) => value,
            ControlFlow::Break(never) => {
                proof {
                    use_type_invariant(&never);
                }
                vstd::pervasive::unreached()
            },
        }
    }
}

/// Extraction undoes [`Continue`](ControlFlow::Continue): a control flow that
/// continues with `value` holds `value`, and every call on it returns `value`.
pub proof fn lemma_continue_round_trip<C>(value: C)
    ensures
        ControlFlow::<Unbreakable, C>::Continue(value).continue_payload() == value,
        forall|returned: C|
            call_ensures(
                ControlFlow::<Unbreakable, C>::continue_value_no_break,
                (ControlFlow::<Unbreakable, C>::Continue(value),),
                returned,
            ) ==> returned == value,
{
}

/// Extraction is a function of its input: two calls on equal control flows
/// return equal values.
pub proof fn lemma_equal_flows_equal_values<C>(
    first: ControlFlow<Unbreakable, C>,
    second: ControlFlow<Unbreakable, C>,
    first_value: C,
    second_value: C,
)
    requires
        first == second,
        call_ensures(ControlFlow::<Unbreakable, C>::continue_value_no_break, (first,), first_value),
        call_ensures(
            ControlFlow::<Unbreakable, C>::continue_value_no_break,
            (second,),
            second_value,
        ),
    ensures
        first_value == second_value,
{
}

} // verus!
