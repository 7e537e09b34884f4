//! Service trait representing an asynchronous request/response operation, and
//! combinators that build services out of functions and other services.
use vstd::prelude::*;
use core::task::Context;

mod boxed;
mod ext;
mod factory;
mod fn_factory;
mod fn_service;
mod future;
mod map;
mod then;

pub use boxed::{box_svc, BoxFut, BoxSvc, SvcWrapper};
pub use ext::SvcExt;
pub use factory::SvcFactory;
pub use fn_factory::{fn_factory, FnFactory};
pub use fn_service::{fn_service, FnSvc};
pub use future::{ready, Future, Poll, Ready};
pub use map::{MapSvc, MapSvcFut};
pub use then::{ThenStage, ThenSvc, ThenSvcFut};

verus! {

/// Service trait representing an asynchronous request/response operation.
///
/// Its model: whether it may process a request in its current state
/// (`can_exec`), and which responses it may produce for a request
/// (`may_respond`).
pub trait Svc<Req>: Sized {
    /// Output type.
    type Res;

    /// Response future.
    type Fut: Future<Output = Self::Res>;

    /// Whether the service may process a request in this state. A service that
    /// says nothing of itself may always process requests.
    open spec fn can_exec(&self) -> bool {
        true
    }

    /// Whether the service, in this state, takes the request `req`. A service
    /// that says nothing of itself takes every request.
    open spec fn accepts(&self, req: Req) -> bool {
        true
    }

    /// Whether `res` is a response the service, in this state, may give to
    /// `req`. A service that says nothing of itself may give any response.
    open spec fn may_respond(&self, req: Req, res: Self::Res) -> bool {
        true
    }

    /// Whether processing `req` in this state may leave the service in state
    /// `next`. A service that says nothing of itself may be left in any state.
    open spec fn execs_to(&self, req: Req, next: Self) -> bool {
        true
    }

    /// Whether asking the service in this state whether it is ready may answer
    /// `out` and leave it in state `next`. A service that says nothing of
    /// itself is always ready and stays as it is.
    open spec fn ready_step(&self, next: Self, out: Poll<()>) -> bool {
        out == Poll::Ready(()) && next == *self
    }

    /// To be called before `exec` to signal whether the service is ready to process requests.
    /// As such, it should be inexpensive. Returning `Poll::Pending` acts as back-pressure.
    /// A service without back-pressure answers `Poll::Ready(())` and stays as it is.
    fn poll_ready(&mut self, cx: &mut Context<'_>) -> (out: Poll<()>)
        ensures
            old(self).ready_step(*final(self), out),
            old(self).can_exec() ==> final(self).can_exec(),
    ;

    /// Processes request, producing a future that outputs the response type.
    fn exec(&mut self, req: Req) -> (fut: Self::Fut)
        requires
            old(self).can_exec(),
            old(self).accepts(req),
        ensures
            fut.can_poll(),
            forall|res: Self::Res| #[trigger] fut.may_output(res) ==> old(self).may_respond(req, res),
            old(self).execs_to(req, *final(self)),
    ;
}

impl<S: Svc<Req>, Req> Svc<Req> for Box<S> {
    type Res = S::Res;

    type Fut = S::Fut;

    open spec fn can_exec(&self) -> bool {
        (**self).can_exec()
    }

    open spec fn accepts(&self, req: Req) -> bool {
        (**self).accepts(req)
    }

    open spec fn may_respond(&self, req: Req, res: S::Res) -> bool {
        (**self).may_respond(req, res)
    }

    open spec fn execs_to(&self, req: Req, next: Self) -> bool {
        (**self).execs_to(req, *next)
    }

    open spec fn ready_step(&self, next: Self, out: Poll<()>) -> bool {
        (**self).ready_step(*next, out)
    }

    /// Asks the boxed service.
    fn poll_ready(&mut self, cx: &mut Context<'_>) -> (out: Poll<()>) {
        (**self).poll_ready(cx)
    }

    /// Runs the boxed service.
    fn exec(&mut self, req: Req) -> (fut: S::Fut) {
        (**self).exec(req)
    }
}

} // verus!
