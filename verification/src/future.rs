//! Poll-based futures: the unit of asynchronous work that services hand out.
use vstd::prelude::*;
use core::task::Context;

verus! {

/// The waker context handed down by whoever drives a future. The library only
/// passes it on to the futures it wraps.
#[verifier::external_type_specification]
#[verifier::external_body]
pub struct ExContext<'a>(Context<'a>);

/// The outcome of polling a future once.
#[derive(Debug)]
pub enum Poll<T> {
    /// The future has completed with this value.
    Ready(T),
    /// The future is not done yet; it must be polled again later.
    Pending,
}

/// An asynchronous computation that is driven to completion by repeated polling.
///
/// Its model is the set of values it may still complete with (`may_output`) and
/// whether it may be polled at all in its current state (`can_poll`).
pub trait Future: Sized {
    /// The value the future completes with.
    type Output;

    /// Whether the future may be polled in this state (it has not completed).
    /// A future that says nothing of itself may always be polled.
    open spec fn can_poll(&self) -> bool {
        true
    }

    /// Whether `out` is a value this future may still complete with. A future
    /// that says nothing of itself may complete with any value.
    open spec fn may_output(&self, out: Self::Output) -> bool {
        true
    }

    /// Whether one poll of the future in this state may give `out` and leave the
    /// future in state `next`. A future that says nothing of itself may give any
    /// outcome.
    open spec fn polls_to(&self, next: Self, out: Poll<Self::Output>) -> bool {
        true
    }

    /// Drives the future one step.
    ///
    /// A `Ready` value is one the future could complete with before this call; a
    /// `Pending` result leaves a future that may be polled again and that cannot
    /// complete with anything it could not complete with before.
    fn poll(&mut self, cx: &mut Context<'_>) -> (out: Poll<Self::Output>)
        requires
            old(self).can_poll(),
        ensures
            old(self).polls_to(*final(self), out),
            out matches Poll::Ready(v) ==> old(self).may_output(v),
            out is Pending ==> final(self).can_poll(),
            out is Pending ==> forall|v: Self::Output| #[trigger]
                final(self).may_output(v) ==> old(self).may_output(v),
    ;
}

/// A future that is immediately ready with a value.
pub struct Ready<T> {
    value: Option<T>,
}

impl<T> Ready<T> {
    /// The value the future still holds, if it has not completed yet.
    pub closed spec fn held(&self) -> Option<T> {
        self.value
    }
}

/// Creates a future that completes with `value` on its first poll.
pub fn ready<T>(value: T) -> (fut: Ready<T>)
    ensures
        fut.held() == Some(value),
        fut.can_poll(),
        forall|v: T| fut.may_output(v) <==> v == value,
{
    Ready { value: Some(value) }
}

impl<T> Future for Ready<T> {
    type Output = T;

    closed spec fn can_poll(&self) -> bool {
        self.value is Some
    }

    closed spec fn may_output(&self, out: T) -> bool {
        self.value == Some(out)
    }

    /// A poll hands out the held value and leaves nothing behind.
    closed spec fn polls_to(&self, next: Self, out: Poll<T>) -> bool {
        &&& out == Poll::Ready(self.value.unwrap())
        &&& next.value is None
    }

    /// Completes with the held value; the future is then spent.
    fn poll(&mut self, cx: &mut Context<'_>) -> (out: Poll<T>)
        ensures
            out == Poll::Ready(old(self).held().unwrap()),
            final(self).held() is None,
            !final(self).can_poll(),
    {
        let value = self.value.take();
        match value {
            Some(v) => Poll::Ready(v),
            None => unreached(),
        }
    }
}

impl<F: Future> Future for Box<F> {
    type Output = F::Output;

    open spec fn can_poll(&self) -> bool {
        (**self).can_poll()
    }

    open spec fn may_output(&self, out: F::Output) -> bool {
        (**self).may_output(out)
    }

    open spec fn polls_to(&self, next: Self, out: Poll<F::Output>) -> bool {
        (**self).polls_to(*next, out)
    }

    /// Polls the boxed future.
    fn poll(&mut self, cx: &mut Context<'_>) -> (out: Poll<F::Output>) {
        (**self).poll(cx)
    }
}

} // verus!

verus! {

/// A ready future may be polled while it still holds its value, completes only
/// with that value, and one poll hands the value out and leaves it empty.
pub proof fn ready_model<T>(fut: Ready<T>)
    ensures
        fut.can_poll() <==> fut.held() is Some,
        forall|v: T| #[trigger] fut.may_output(v) <==> fut.held() == Some(v),
        forall|next: Ready<T>, p: Poll<T>| #[trigger] fut.polls_to(next, p) <==> {
            &&& p == Poll::Ready(fut.held().unwrap())
            &&& next.held() is None
        },
{
}

} // verus!

verus! {

/// What one poll of a future guarantees: the step is one the future allows, a
/// `Ready` value is one it could complete with, and a `Pending` result leaves a
/// future that may be polled again and has no new outcomes.
pub open spec fn poll_step<F: Future>(before: F, after: F, out: Poll<F::Output>) -> bool {
    &&& before.polls_to(after, out)
    &&& out matches Poll::Ready(v) ==> before.may_output(v)
    &&& out is Pending ==> after.can_poll()
    &&& out is Pending ==> forall|v: F::Output| #[trigger] after.may_output(v) ==> before.may_output(v)
}

/// Polling a future until it is ready: if `states[0]` is polled `outs.len()`
/// times, passing through `states`, and only the last poll is ready with `v`,
/// then `v` is a value the future could complete with from the start.
pub proof fn run_completes_with<F: Future>(states: Seq<F>, outs: Seq<Poll<F::Output>>, v: F::Output)
    requires
        outs.len() >= 1,
        states.len() == outs.len() + 1,
        forall|k: int| 0 <= k < outs.len() ==> poll_step(states[k], states[k + 1], #[trigger] outs[k]),
        forall|k: int| 0 <= k < outs.len() - 1 ==> #[trigger] outs[k] is Pending,
        outs.last() == Poll::Ready(v),
    ensures
        states[0].may_output(v),
    decreases outs.len(),
{
    let o0 = outs[0];
    assert(poll_step(states[0], states[1], o0));
    if outs.len() > 1 {
        let rest_states = states.drop_first();
        let rest_outs = outs.drop_first();
        assert forall|k: int| 0 <= k < rest_outs.len() implies poll_step(rest_states[k], rest_states[k + 1], #[trigger] rest_outs[k]) by {
            let o = outs[k + 1];
            assert(rest_states[k] == states[k + 1] && rest_states[k + 1] == states[k + 2]);
        }
        assert forall|k: int| 0 <= k < rest_outs.len() - 1 implies #[trigger] rest_outs[k] is Pending by {
            assert(outs[k + 1] is Pending);
        }
        run_completes_with(rest_states, rest_outs, v);
        assert(outs[0] is Pending);
    }
}

} // verus!
