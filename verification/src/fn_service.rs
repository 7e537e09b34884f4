//! Services made from functions that return futures.
use vstd::prelude::*;
use core::task::Context;

use crate::future::{Future, Poll};
use crate::Svc;

verus! {

/// A service that answers each request with the future its function returns.
pub struct FnSvc<F> {
    f: F,
}

impl<F> FnSvc<F> {
    /// The function the service calls.
    pub closed spec fn func(&self) -> F {
        self.f
    }

    /// Wraps `f` as a service.
    pub fn new(f: F) -> (svc: Self)
        ensures
            svc.func() == f,
    {
        Self { f }
    }
}

impl<F, Req, Fut> Svc<Req> for FnSvc<F> where F: FnMut(Req) -> Fut, Fut: Future {
    type Res = Fut::Output;

    type Fut = Fut;

    /// Every future the function may return may be polled.
    closed spec fn can_exec(&self) -> bool {
        forall|req: Req, fut: Fut| #[trigger] call_ensures(self.f, (req,), fut) ==> fut.can_poll()
    }

    /// The function accepts the request.
    closed spec fn accepts(&self, req: Req) -> bool {
        call_requires(self.f, (req,))
    }

    /// The function is kept.
    closed spec fn execs_to(&self, req: Req, next: Self) -> bool {
        next.f == self.f
    }

    closed spec fn may_respond(&self, req: Req, res: Fut::Output) -> bool {
        exists|fut: Fut| #[trigger] call_ensures(self.f, (req,), fut) && fut.may_output(res)
    }

    /// Always ready: there is no back-pressure.
    fn poll_ready(&mut self, cx: &mut Context<'_>) -> (out: Poll<()>) {
        Poll::Ready(())
    }

    /// Calls the function on the request.
    fn exec(&mut self, req: Req) -> (fut: Fut)
        ensures
            call_ensures(old(self).func(), (req,), fut),
            final(self).func() == old(self).func(),
            final(self).can_exec() == old(self).can_exec(),
    {
        (self.f)(req)
    }
}

/// Wraps `f`, a function from requests to futures, as a service.
pub fn fn_service<F, Req, Fut>(f: F) -> (svc: FnSvc<F>) where F: FnMut(Req) -> Fut, Fut: Future
    ensures
        svc.func() == f,
{
    FnSvc { f }
}

} // verus!

verus! {

/// A function service answers a request with any output of any future its
/// function may return for it. It takes the requests its function accepts, as
/// long as the function returns futures that may be polled.
pub proof fn fn_svc_model<F, Req, Fut>(svc: FnSvc<F>, req: Req, res: Fut::Output) where
    F: FnMut(Req) -> Fut,
    Fut: Future,
    ensures
        forall|next: FnSvc<F>| #[trigger] svc.execs_to(req, next) <==> next.func() == svc.func(),
        svc.may_respond(req, res) <==> exists|fut: Fut| #[trigger]
            call_ensures(svc.func(), (req,), fut) && fut.may_output(res),
        svc.can_exec() <==> forall|r: Req, fut: Fut| #[trigger]
            call_ensures(svc.func(), (r,), fut) ==> fut.can_poll(),
        svc.accepts(req) <==> call_requires(svc.func(), (req,)),
{
    assert(svc.func() == svc.f);
    assert(svc.may_respond(req, res) == (exists|fut: Fut| #[trigger]
            call_ensures(svc.f, (req,), fut) && fut.may_output(res)));
    assert forall|next: FnSvc<F>| #[trigger] svc.execs_to(req, next) <==> next.func() == svc.func() by {
        assert(next.func() == next.f);
    }
}

/// A function service keeps taking requests after processing one: the state
/// `exec` leaves it in takes requests whenever the state before did.
pub proof fn fn_svc_stays_ready<F, Req, Fut>(svc: FnSvc<F>, req: Req, next: FnSvc<F>) where
    F: FnMut(Req) -> Fut,
    Fut: Future,
    requires
        svc.can_exec(),
        svc.execs_to(req, next),
    ensures
        next.can_exec(),
        forall|r: Req| #[trigger] next.accepts(r) == svc.accepts(r),
{
}

} // verus!
