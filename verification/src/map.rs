//! A service whose responses pass through a mapping function.
use vstd::prelude::*;
use core::marker::PhantomData;
use core::task::Context;

use crate::future::{Future, Poll};
use crate::Svc;

verus! {

/// Runs `svc` and passes each of its responses through `mapper`.
///
/// Each request's future carries its own copy of the mapper, so the mapper is
/// a `Copy` function (one that captures only copyable values).
pub struct MapSvc<S, F, Res> {
    svc: S,
    mapper: F,
    _res: PhantomData<Res>,
}

impl<S, F, Res> MapSvc<S, F, Res> {
    /// The wrapped service.
    pub closed spec fn inner(&self) -> S {
        self.svc
    }

    /// The mapping function.
    pub closed spec fn mapper(&self) -> F {
        self.mapper
    }

    /// Wraps `svc` so that its responses are mapped by `mapper`.
    pub fn new(svc: S, mapper: F) -> (m: Self)
        ensures
            m.inner() == svc,
            m.mapper() == mapper,
    {
        Self { svc, mapper, _res: PhantomData }
    }
}

impl<S, Req, F, Res> Svc<Req> for MapSvc<S, F, Res> where S: Svc<Req>, F: FnMut(S::Res) -> Res + Copy {
    type Res = Res;

    type Fut = MapSvcFut<S, F, Req, Res>;

    /// The inner service is ready.
    closed spec fn can_exec(&self) -> bool {
        self.svc.can_exec()
    }

    /// The inner service takes the request, and the mapper accepts every
    /// response the inner service may give to it.
    closed spec fn accepts(&self, req: Req) -> bool {
        &&& self.svc.accepts(req)
        &&& forall|v: S::Res| #[trigger] self.svc.may_respond(req, v) ==> call_requires(self.mapper, (v,))
    }

    /// `res` is what the mapper makes of a response of the inner service.
    closed spec fn may_respond(&self, req: Req, res: Res) -> bool {
        exists|v: S::Res| #[trigger]
            self.svc.may_respond(req, v) && call_ensures(self.mapper, (v,), res)
    }

    /// The inner service moves as its own `exec` does; the mapper is kept.
    closed spec fn execs_to(&self, req: Req, next: Self) -> bool {
        self.svc.execs_to(req, next.svc) && next.mapper == self.mapper
    }

    /// Always ready: there is no back-pressure.
    fn poll_ready(&mut self, cx: &mut Context<'_>) -> (out: Poll<()>) {
        Poll::Ready(())
    }

    /// Starts the inner service and pairs its future with the mapper.
    fn exec(&mut self, req: Req) -> (fut: MapSvcFut<S, F, Req, Res>)
        ensures
            fut.mapper() == old(self).mapper(),
            final(self).mapper() == old(self).mapper(),
            fut.inner().can_poll(),
            forall|v: S::Res| #[trigger]
                fut.inner().may_output(v) ==> old(self).inner().may_respond(req, v),
    {
        let mapper = self.mapper;
        let inner = self.svc.exec(req);
        let fut = MapSvcFut::new(inner, mapper);
        assert(fut.can_poll());
        fut
    }
}

/// The future of a [`MapSvc`]: the inner service's future and the mapper to
/// apply to its output.
#[verifier::reject_recursive_types(Res)]
pub struct MapSvcFut<S, F, Req, Res> where S: Svc<Req>, F: FnMut(S::Res) -> Res {
    mapper: F,
    fut: S::Fut,
}

impl<S, F, Req, Res> MapSvcFut<S, F, Req, Res> where S: Svc<Req>, F: FnMut(S::Res) -> Res {
    /// The inner future.
    pub closed spec fn inner(&self) -> S::Fut {
        self.fut
    }

    /// The mapping function.
    pub closed spec fn mapper(&self) -> F {
        self.mapper
    }

    /// Pairs `fut` with the `mapper` to apply to its output.
    pub fn new(fut: S::Fut, mapper: F) -> (m: Self)
        ensures
            m.inner() == fut,
            m.mapper() == mapper,
    {
        Self { fut, mapper }
    }
}

impl<S, F, Req, Res> Future for MapSvcFut<S, F, Req, Res> where S: Svc<Req>, F: FnMut(S::Res) -> Res {
    type Output = Res;

    /// The inner future may be polled and the mapper accepts every value it
    /// may complete with.
    closed spec fn can_poll(&self) -> bool {
        &&& self.fut.can_poll()
        &&& forall|v: S::Res| #[trigger] self.fut.may_output(v) ==> call_requires(self.mapper, (v,))
    }

    closed spec fn may_output(&self, out: Res) -> bool {
        exists|v: S::Res| #[trigger] self.fut.may_output(v) && call_ensures(self.mapper, (v,), out)
    }

    /// One poll of the inner future; a `Ready` output of it goes through the
    /// mapper.
    closed spec fn polls_to(&self, next: Self, out: Poll<Res>) -> bool {
        &&& next.mapper == self.mapper
        &&& exists|inner: Poll<S::Res>| #[trigger] self.fut.polls_to(next.fut, inner) && match inner {
            Poll::Pending => out is Pending,
            Poll::Ready(v) => out matches Poll::Ready(w) && call_ensures(self.mapper, (v,), w),
        }
    }

    /// Polls the inner future and maps its output once it is ready.
    fn poll(&mut self, cx: &mut Context<'_>) -> (out: Poll<Res>)
        ensures
            final(self).mapper() == old(self).mapper(),
    {
        let ghost start = *self;
        let inner = self.fut.poll(cx);
        let ghost inner_out = inner;
        let out = match inner {
            Poll::Pending => Poll::Pending,
            Poll::Ready(v) => Poll::Ready((self.mapper)(v)),
        };
        assert(start.fut.polls_to(self.fut, inner_out));
        out
    }
}

} // verus!

verus! {

/// A mapped service responds with what its mapper makes of a response of the
/// inner service; it is ready while the inner service is, and takes a request
/// the inner service takes when the mapper accepts every response to it.
pub proof fn map_svc_model<S, F, Req, Res>(m: MapSvc<S, F, Res>, req: Req, res: Res) where
    S: Svc<Req>,
    F: FnMut(S::Res) -> Res + Copy,
    ensures
        m.may_respond(req, res) <==> exists|v: S::Res| #[trigger]
            m.inner().may_respond(req, v) && call_ensures(m.mapper(), (v,), res),
        m.can_exec() <==> m.inner().can_exec(),
        m.accepts(req) <==> {
            &&& m.inner().accepts(req)
            &&& forall|v: S::Res| #[trigger] m.inner().may_respond(req, v) ==> call_requires(m.mapper(), (v,))
        },
        forall|next: MapSvc<S, F, Res>| #[trigger] m.execs_to(req, next) <==> {
            &&& m.inner().execs_to(req, next.inner())
            &&& next.mapper() == m.mapper()
        },
{
    assert(m.inner() == m.svc && m.mapper() == m.mapper);
    assert forall|next: MapSvc<S, F, Res>| #[trigger] m.execs_to(req, next) <==> {
        &&& m.inner().execs_to(req, next.inner())
        &&& next.mapper() == m.mapper()
    } by {
        assert(next.inner() == next.svc && next.mapper() == next.mapper);
    }
}

/// A mapped service keeps taking requests after processing one whenever its
/// inner service does, and keeps its mapper.
pub proof fn map_svc_stays_ready<S, F, Req, Res>(m: MapSvc<S, F, Res>, req: Req, next: MapSvc<S, F, Res>) where
    S: Svc<Req>,
    F: FnMut(S::Res) -> Res + Copy,
    requires
        m.can_exec(),
        m.execs_to(req, next),
        forall|n: S| #[trigger] m.inner().execs_to(req, n) ==> n.can_exec(),
    ensures
        next.can_exec(),
        next.mapper() == m.mapper(),
{
    assert(m.inner().execs_to(req, next.svc));
}

/// The future of a mapped service completes with what its mapper makes of an
/// output of the inner future, and one poll is one poll of the inner future
/// followed, once that is ready, by one call of the mapper.
pub proof fn map_svc_fut_model<S, F, Req, Res>(fut: MapSvcFut<S, F, Req, Res>, out: Res) where
    S: Svc<Req>,
    F: FnMut(S::Res) -> Res,
    ensures
        fut.may_output(out) <==> exists|v: S::Res| #[trigger]
            fut.inner().may_output(v) && call_ensures(fut.mapper(), (v,), out),
        fut.can_poll() <==> {
            &&& fut.inner().can_poll()
            &&& forall|v: S::Res| #[trigger] fut.inner().may_output(v) ==> call_requires(fut.mapper(), (v,))
        },
        forall|next: MapSvcFut<S, F, Req, Res>, p: Poll<Res>| #[trigger] fut.polls_to(next, p) <==> {
            &&& next.mapper() == fut.mapper()
            &&& exists|inner: Poll<S::Res>| #[trigger] fut.inner().polls_to(next.inner(), inner) && match inner {
                Poll::Pending => p is Pending,
                Poll::Ready(v) => p matches Poll::Ready(w) && call_ensures(fut.mapper(), (v,), w),
            }
        },
{
    assert(fut.inner() == fut.fut && fut.mapper() == fut.mapper);
    assert forall|next: MapSvcFut<S, F, Req, Res>, p: Poll<Res>| #[trigger] fut.polls_to(next, p) <==> {
        &&& next.mapper() == fut.mapper()
        &&& exists|inner: Poll<S::Res>| #[trigger] fut.inner().polls_to(next.inner(), inner) && match inner {
            Poll::Pending => p is Pending,
            Poll::Ready(v) => p matches Poll::Ready(w) && call_ensures(fut.mapper(), (v,), w),
        }
    } by {
        assert(next.inner() == next.fut && next.mapper() == next.mapper);
    }
}

/// Mapping twice: a response of `map(map(svc, f), g)` is what `g` makes of what
/// `f` makes of a response of `svc`.
pub proof fn map_map_responses<S, F, G, Req, Mid, Res>(
    m: MapSvc<MapSvc<S, F, Mid>, G, Res>,
    req: Req,
    res: Res,
) where
    S: Svc<Req>,
    F: FnMut(S::Res) -> Mid + Copy,
    G: FnMut(Mid) -> Res + Copy,
    ensures
        m.may_respond(req, res) <==> exists|v: S::Res, mid: Mid|
            #![trigger m.inner().inner().may_respond(req, v), call_ensures(m.mapper(), (mid,), res)]
            {
                &&& m.inner().inner().may_respond(req, v)
                &&& call_ensures(m.inner().mapper(), (v,), mid)
                &&& call_ensures(m.mapper(), (mid,), res)
            },
{
    assert(m.inner() == m.svc && m.mapper() == m.mapper);
    assert(m.svc.inner() == m.svc.svc && m.svc.mapper() == m.svc.mapper);
    if m.may_respond(req, res) {
        let mid = choose|mid: Mid| m.svc.may_respond(req, mid) && call_ensures(m.mapper, (mid,), res);
        let v = choose|v: S::Res| m.svc.svc.may_respond(req, v) && call_ensures(m.svc.mapper, (v,), mid);
        assert(m.inner().inner().may_respond(req, v));
    }
    if exists|v: S::Res, mid: Mid|
        #![trigger m.inner().inner().may_respond(req, v), call_ensures(m.mapper(), (mid,), res)]
        {
            &&& m.inner().inner().may_respond(req, v)
            &&& call_ensures(m.inner().mapper(), (v,), mid)
            &&& call_ensures(m.mapper(), (mid,), res)
        } {
        let (v, mid) = choose|v: S::Res, mid: Mid|
            {
                &&& m.inner().inner().may_respond(req, v)
                &&& call_ensures(m.inner().mapper(), (v,), mid)
                &&& call_ensures(m.mapper(), (mid,), res)
            };
        assert(m.svc.may_respond(req, mid));
    }
}

} // verus!
