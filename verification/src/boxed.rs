//! Services and futures that live on the heap.
use vstd::prelude::*;
use core::task::Context;
use core::marker::PhantomData;

use crate::future::Poll;
use crate::Svc;

verus! {

/// A boxed future.
pub type BoxFut<F> = Box<F>;

/// A boxed service whose futures are boxed too.
pub type BoxSvc<S, Req> = Box<SvcWrapper<S, Req>>;

/// Runs the wrapped service and boxes each of its futures.
#[verifier::reject_recursive_types(Req)]
pub struct SvcWrapper<S, Req> {
    svc: S,
    _req: PhantomData<Req>,
}

impl<S, Req> SvcWrapper<S, Req> {
    /// The wrapped service.
    pub closed spec fn inner(&self) -> S {
        self.svc
    }

    /// Wraps `svc`.
    pub fn new(svc: S) -> (w: Self)
        ensures
            w.inner() == svc,
    {
        Self { svc, _req: PhantomData }
    }
}

impl<S, Req> Svc<Req> for SvcWrapper<S, Req> where S: Svc<Req> {
    type Res = S::Res;

    type Fut = BoxFut<S::Fut>;

    closed spec fn can_exec(&self) -> bool {
        self.svc.can_exec()
    }

    closed spec fn accepts(&self, req: Req) -> bool {
        self.svc.accepts(req)
    }

    closed spec fn may_respond(&self, req: Req, res: S::Res) -> bool {
        self.svc.may_respond(req, res)
    }

    closed spec fn execs_to(&self, req: Req, next: Self) -> bool {
        self.svc.execs_to(req, next.svc)
    }

    /// Always ready: there is no back-pressure.
    fn poll_ready(&mut self, cx: &mut Context<'_>) -> (out: Poll<()>) {
        Poll::Ready(())
    }

    /// Runs the wrapped service and boxes its future.
    fn exec(&mut self, req: Req) -> (fut: BoxFut<S::Fut>) {
        Box::new(self.svc.exec(req))
    }
}

/// Moves `svc` to the heap, behind a wrapper that boxes its futures.
pub fn box_svc<S, Req>(svc: S) -> (b: BoxSvc<S, Req>) where S: Svc<Req>
    ensures
        b.inner() == svc,
{
    Box::new(SvcWrapper::new(svc))
}

} // verus!

verus! {

/// Boxing a service changes neither the requests it takes nor the responses it
/// gives.
pub proof fn box_svc_model<S, Req>(b: BoxSvc<S, Req>, req: Req, res: S::Res) where S: Svc<Req>
    ensures
        b.can_exec() == b.inner().can_exec(),
        b.may_respond(req, res) == b.inner().may_respond(req, res),
        b.accepts(req) == b.inner().accepts(req),
        forall|next: BoxSvc<S, Req>| #[trigger] b.execs_to(req, next) == b.inner().execs_to(req, next.inner()),
{
}

/// A boxed service keeps taking requests after processing one whenever the
/// service in the box does.
pub proof fn box_svc_stays_ready<S, Req>(b: BoxSvc<S, Req>, req: Req, next: BoxSvc<S, Req>) where S: Svc<Req>
    requires
        b.can_exec(),
        b.execs_to(req, next),
        forall|n: S| #[trigger] b.inner().execs_to(req, n) ==> n.can_exec(),
    ensures
        next.can_exec(),
{
    assert(b.inner().execs_to(req, next.inner()));
}

} // verus!
