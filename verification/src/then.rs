//! Service1(Response) -> Intermediate => Service2(Intermediate) -> Response
use vstd::prelude::*;
use core::marker::PhantomData;
use core::task::Context;

use crate::future::{poll_step, run_completes_with, Future, Poll};
use crate::Svc;

verus! {

/// Service1(Response) -> Intermediate => Service2(Intermediate) -> Response
///
/// The second service moves into the future of the first request, so a
/// `ThenSvc` processes exactly one request ("Service must not be executed
/// twice"): its futures own what they use and never borrow the chain.
pub struct ThenSvc<S1, S2, Int, Res> {
    svc1: S1,
    svc2: Option<S2>,
    _int: PhantomData<Int>,
    _res: PhantomData<Res>,
}

impl<S1, S2, Int, Res> ThenSvc<S1, S2, Int, Res> {
    /// The first service.
    pub closed spec fn first(&self) -> S1 {
        self.svc1
    }

    /// The second service, while it has not been handed to a future.
    pub closed spec fn second(&self) -> Option<S2> {
        self.svc2
    }

    /// Chains `svc2` after `svc1`.
    pub fn new(svc1: S1, svc2: S2) -> (t: Self)
        ensures
            t.first() == svc1,
            t.second() == Some(svc2),
    {
        Self { svc1, svc2: Some(svc2), _int: PhantomData, _res: PhantomData }
    }
}

impl<S1, S2, Req, Int, Res> Svc<Req> for ThenSvc<S1, S2, Int, Res> where
    S1: Svc<Req, Res = Int>,
    S2: Svc<Int, Res = Res>,
 {
    type Res = Res;

    type Fut = ThenSvcFut<S1, S2, Req, Int, Res>;

    /// Both services are ready and the second one has not been handed out.
    closed spec fn can_exec(&self) -> bool {
        &&& self.svc1.can_exec()
        &&& self.svc2 matches Some(s2) && s2.can_exec()
    }

    /// The first service takes the request, and the second one takes every
    /// response the first may give to it.
    closed spec fn accepts(&self, req: Req) -> bool {
        &&& self.svc1.accepts(req)
        &&& self.svc2 matches Some(s2) ==> forall|mid: Int| #[trigger]
            self.svc1.may_respond(req, mid) ==> s2.accepts(mid)
    }

    /// `res` is a response of the second service to a response of the first.
    closed spec fn may_respond(&self, req: Req, res: Res) -> bool {
        exists|mid: Int|
            #![trigger self.svc1.may_respond(req, mid)]
            self.svc1.may_respond(req, mid) && (self.svc2 matches Some(s2) && s2.may_respond(mid, res))
    }

    /// The first service moves as its own `exec` does; the second one is handed
    /// to the future.
    closed spec fn execs_to(&self, req: Req, next: Self) -> bool {
        self.svc1.execs_to(req, next.svc1) && next.svc2 is None
    }

    /// Always ready: there is no back-pressure.
    fn poll_ready(&mut self, cx: &mut Context<'_>) -> (out: Poll<()>) {
        Poll::Ready(())
    }

    /// Starts the first service and moves the second one into the future.
    fn exec(&mut self, req: Req) -> (fut: ThenSvcFut<S1, S2, Req, Int, Res>)
        ensures
            final(self).second() is None,
            !final(self).can_exec(),
            fut.stage() == ThenStage::First,
            fut.first_future().can_poll(),
            forall|mid: Int| #[trigger]
                fut.first_future().may_output(mid) ==> old(self).first().may_respond(req, mid),
            old(self).second() == Some(fut.second_service()),
    {
        let svc2 = self.svc2.take();
        match svc2 {
            Some(s2) => {
                let fut1 = self.svc1.exec(req);
                ThenSvcFut { state: State::Svc1(fut1, s2) }
            },
            None => unreached(),
        }
    }
}

/// Which of the two services a [`ThenSvcFut`] is waiting on.
#[derive(Debug)]
pub enum ThenStage {
    /// Waiting for the first service's response.
    First,
    /// Waiting for the second service's response.
    Second,
    /// The response has been handed out.
    Done,
}

enum State<F1, S2, F2> {
    Svc1(F1, S2),
    Svc2(F2),
    Done,
}

/// The future of a [`ThenSvc`]: first the first service's future, then the
/// second service's future on its output.
#[verifier::reject_recursive_types(Req)]
#[verifier::reject_recursive_types(Int)]
#[verifier::reject_recursive_types(Res)]
pub struct ThenSvcFut<S1, S2, Req, Int, Res> where S1: Svc<Req, Res = Int>, S2: Svc<Int, Res = Res> {
    state: State<S1::Fut, S2, S2::Fut>,
}

impl<S1, S2, Req, Int, Res> ThenSvcFut<S1, S2, Req, Int, Res> where
    S1: Svc<Req, Res = Int>,
    S2: Svc<Int, Res = Res>,
 {
    /// After the second service's future gave `o2` and became `f2n`: a `Ready`
    /// output is the outcome and the future is done; otherwise the outcome is
    /// `Pending` and the future waits on `f2n`.
    closed spec fn second_polled(o2: Poll<Res>, f2n: S2::Fut, next: Self, out: Poll<Res>) -> bool {
        match o2 {
            Poll::Pending => out is Pending && next.state == State::<S1::Fut, S2, S2::Fut>::Svc2(f2n),
            Poll::Ready(r) => out == Poll::Ready(r) && next.state is Done,
        }
    }

    /// The future of the first service, while the future waits on it.
    pub closed spec fn first_future(&self) -> S1::Fut {
        match self.state {
            State::Svc1(f1, _) => f1,
            _ => arbitrary(),
        }
    }

    /// The second service, while the future waits on the first one.
    pub closed spec fn second_service(&self) -> S2 {
        match self.state {
            State::Svc1(_, s2) => s2,
            _ => arbitrary(),
        }
    }

    /// The future of the second service, while the future waits on it.
    pub closed spec fn second_future(&self) -> S2::Fut {
        match self.state {
            State::Svc2(f2) => f2,
            _ => arbitrary(),
        }
    }

    /// The stage the future is in.
    pub closed spec fn stage(&self) -> ThenStage {
        match self.state {
            State::Svc1(..) => ThenStage::First,
            State::Svc2(..) => ThenStage::Second,
            State::Done => ThenStage::Done,
        }
    }
}

impl<S1, S2, Req, Int, Res> Future for ThenSvcFut<S1, S2, Req, Int, Res> where
    S1: Svc<Req, Res = Int>,
    S2: Svc<Int, Res = Res>,
 {
    type Output = Res;

    closed spec fn can_poll(&self) -> bool {
        match self.state {
            State::Svc1(f1, s2) => {
                &&& f1.can_poll()
                &&& s2.can_exec()
                &&& forall|mid: Int| #[trigger] f1.may_output(mid) ==> s2.accepts(mid)
            },
            State::Svc2(f2) => f2.can_poll(),
            State::Done => false,
        }
    }

    closed spec fn may_output(&self, out: Res) -> bool {
        match self.state {
            State::Svc1(f1, s2) => exists|mid: Int| #[trigger]
                f1.may_output(mid) && s2.may_respond(mid, out),
            State::Svc2(f2) => f2.may_output(out),
            State::Done => false,
        }
    }

    /// Waiting on the first service: one poll of its future; once that is
    /// ready, a future of the second service for its output (one that may be
    /// polled and completes only with the second service's responses to it) is
    /// polled once. Waiting on the second service: one poll of its future. A
    /// `Ready` output of the second future is the outcome, and the future is
    /// then done; otherwise the outcome is `Pending` and the future keeps
    /// waiting on the future it polled last.
    closed spec fn polls_to(&self, next: Self, out: Poll<Res>) -> bool {
        match self.state {
            State::Svc1(f1, s2) => exists|o1: Poll<Int>, f1n: S1::Fut| #[trigger]
                f1.polls_to(f1n, o1) && match o1 {
                    Poll::Pending => out is Pending && next.state == State::<S1::Fut, S2, S2::Fut>::Svc1(f1n, s2),
                    Poll::Ready(mid) => exists|f2: S2::Fut, o2: Poll<Res>, f2n: S2::Fut| #[trigger]
                        f2.polls_to(f2n, o2) && {
                            &&& f2.can_poll()
                            &&& forall|r: Res| #[trigger] f2.may_output(r) ==> s2.may_respond(mid, r)
                            &&& Self::second_polled(o2, f2n, next, out)
                        },
                },
            State::Svc2(f2) => exists|o2: Poll<Res>, f2n: S2::Fut| #[trigger]
                f2.polls_to(f2n, o2) && Self::second_polled(o2, f2n, next, out),
            State::Done => false,
        }
    }

    /// Polls the first future; once it is ready, runs the second service on its
    /// output and polls that future. The future is done once it returns `Ready`.
    fn poll(&mut self, cx: &mut Context<'_>) -> (out: Poll<Res>)
        ensures
            out is Ready <==> final(self).stage() == ThenStage::Done,
            old(self).stage() == ThenStage::Second ==> final(self).stage() != ThenStage::First,
    {
        let mut state = State::Done;
        core::mem::swap(&mut state, &mut self.state);
        match state {
            State::Svc1(mut f1, mut s2) => {
                let ghost f1_start = f1;
                let o1 = f1.poll(cx);
                let ghost o1_g = o1;
                match o1 {
                    Poll::Pending => {
                        self.state = State::Svc1(f1, s2);
                        assert(f1_start.polls_to(f1, o1_g));
                        Poll::Pending
                    },
                    Poll::Ready(mid) => {
                        let mut f2 = s2.exec(mid);
                        let ghost f2_start = f2;
                        let o2 = f2.poll(cx);
                        let ghost o2_g = o2;
                        let out = match o2 {
                            Poll::Pending => {
                                self.state = State::Svc2(f2);
                                Poll::Pending
                            },
                            Poll::Ready(res) => Poll::Ready(res),
                        };
                        assert(Self::second_polled(o2_g, f2, *self, out));
                        assert(f2_start.polls_to(f2, o2_g));
                        assert(f1_start.polls_to(f1, o1_g));
                        out
                    },
                }
            },
            State::Svc2(mut f2) => {
                let ghost f2_start = f2;
                let o2 = f2.poll(cx);
                let ghost o2_g = o2;
                let out = match o2 {
                    Poll::Pending => {
                        self.state = State::Svc2(f2);
                        Poll::Pending
                    },
                    Poll::Ready(res) => Poll::Ready(res),
                };
                assert(Self::second_polled(o2_g, f2, *self, out));
                assert(f2_start.polls_to(f2, o2_g));
                out
            },
            State::Done => unreached(),
        }
    }
}

} // verus!

verus! {

/// A chained service responds with a response of its second service to a
/// response of its first, and takes a request only while both services do and
/// the second one has not been handed to a future yet.
pub proof fn then_svc_model<S1, S2, Req, Mid, Res>(t: ThenSvc<S1, S2, Mid, Res>, req: Req, res: Res) where
    S1: Svc<Req, Res = Mid>,
    S2: Svc<Mid, Res = Res>,
    ensures
        t.may_respond(req, res) <==> exists|mid: Mid| #[trigger]
            t.first().may_respond(req, mid) && (t.second() matches Some(s2) && s2.may_respond(mid, res)),
        t.can_exec() <==> t.first().can_exec() && (t.second() matches Some(s2) && s2.can_exec()),
        t.accepts(req) <==> {
            &&& t.first().accepts(req)
            &&& t.second() matches Some(s2) ==> forall|mid: Mid| #[trigger]
                t.first().may_respond(req, mid) ==> s2.accepts(mid)
        },
{
    assert(t.first() == t.svc1 && t.second() == t.svc2);
}

/// Chaining is associative: `(a then b) then c` and `a then (b then c)`, built
/// from the same services, take the same requests and give the same responses.
pub proof fn then_assoc<A, B, C, Req, AB, BC, Res>(
    left: ThenSvc<ThenSvc<A, B, AB, BC>, C, BC, Res>,
    right: ThenSvc<A, ThenSvc<B, C, BC, Res>, AB, Res>,
    req: Req,
    res: Res,
) where
    A: Svc<Req, Res = AB>,
    B: Svc<AB, Res = BC>,
    C: Svc<BC, Res = Res>,
    requires
        left.first().first() == right.first(),
        left.first().second() matches Some(b) && right.second() matches Some(bc) && bc.first() == b,
        left.second() matches Some(c) && right.second() matches Some(bc) && bc.second() == Some(c),
    ensures
        left.can_exec() == right.can_exec(),
        left.accepts(req) == right.accepts(req),
        left.may_respond(req, res) == right.may_respond(req, res),
{
    let b = left.svc1.svc2.unwrap();
    let c = left.svc2.unwrap();
    let bc = right.svc2.unwrap();
    assert(bc.svc1 == b && bc.svc2 == Some(c));
    if left.accepts(req) {
        assert forall|x: AB| #[trigger] right.svc1.may_respond(req, x) implies bc.accepts(x) by {
            assert(left.svc1.svc1.may_respond(req, x));
            assert forall|y: BC| #[trigger] b.may_respond(x, y) implies c.accepts(y) by {
                assert(left.svc1.may_respond(req, y));
            }
        }
    }
    if right.accepts(req) {
        assert forall|x: AB| #[trigger] left.svc1.svc1.may_respond(req, x) implies b.accepts(x) by {
            assert(right.svc1.may_respond(req, x));
            assert(bc.accepts(x));
        }
        assert forall|y: BC| #[trigger] left.svc1.may_respond(req, y) implies c.accepts(y) by {
            let x = choose|x: AB| left.svc1.svc1.may_respond(req, x) && b.may_respond(x, y);
            assert(right.svc1.may_respond(req, x));
            assert(bc.accepts(x));
        }
    }
    if left.may_respond(req, res) {
        let y = choose|y: BC| left.svc1.may_respond(req, y) && c.may_respond(y, res);
        let x = choose|x: AB| left.svc1.svc1.may_respond(req, x) && b.may_respond(x, y);
        assert(bc.may_respond(x, res));
        assert(right.svc1.may_respond(req, x));
    }
    if right.may_respond(req, res) {
        let x = choose|x: AB| right.svc1.may_respond(req, x) && bc.may_respond(x, res);
        let y = choose|y: BC| b.may_respond(x, y) && c.may_respond(y, res);
        assert(left.svc1.svc1.may_respond(req, x));
        assert(left.svc1.may_respond(req, y));
    }
}

} // verus!

verus! {

/// After the second service's future gave `o2` and became `f2n`, the chained
/// future gave `out` and became `next`: a `Ready` output of the second future
/// is the outcome and the chained future is done; otherwise the outcome is
/// `Pending` and it waits on `f2n`.
pub open spec fn then_second_step<S1, S2, Req, Mid, Res>(
    o2: Poll<Res>,
    f2n: S2::Fut,
    next: ThenSvcFut<S1, S2, Req, Mid, Res>,
    out: Poll<Res>,
) -> bool where S1: Svc<Req, Res = Mid>, S2: Svc<Mid, Res = Res> {
    match o2 {
        Poll::Pending => out is Pending && next.stage() == ThenStage::Second && next.second_future() == f2n,
        Poll::Ready(r) => out == Poll::Ready(r) && next.stage() == ThenStage::Done,
    }
}

/// The future of a chained service, stage by stage: when it may be polled,
/// what it may complete with, and what one poll does.
///
/// Waiting on the first service, one poll polls the first future once; once
/// that is ready with `mid`, a future of the second service for `mid` (one
/// that may be polled and completes only with the second service's responses
/// to `mid`) is polled once. Waiting on the second service, one poll polls its
/// future once. A done future may not be polled.
#[verifier::spinoff_prover]
pub proof fn then_svc_fut_model<S1, S2, Req, Mid, Res>(fut: ThenSvcFut<S1, S2, Req, Mid, Res>) where
    S1: Svc<Req, Res = Mid>,
    S2: Svc<Mid, Res = Res>,
    ensures
        fut.stage() == ThenStage::First ==> {
            &&& fut.can_poll() <==> {
                &&& fut.first_future().can_poll()
                &&& fut.second_service().can_exec()
                &&& forall|mid: Mid| #[trigger] fut.first_future().may_output(mid) ==> fut.second_service().accepts(mid)
            }
            &&& forall|r: Res| #[trigger] fut.may_output(r) <==> exists|mid: Mid| #[trigger]
                fut.first_future().may_output(mid) && fut.second_service().may_respond(mid, r)
            &&& forall|next: ThenSvcFut<S1, S2, Req, Mid, Res>, p: Poll<Res>| #[trigger]
                fut.polls_to(next, p) <==> exists|o1: Poll<Mid>, f1n: S1::Fut| #[trigger]
                    fut.first_future().polls_to(f1n, o1) && match o1 {
                        Poll::Pending => {
                            &&& p is Pending
                            &&& next.stage() == ThenStage::First
                            &&& next.first_future() == f1n
                            &&& next.second_service() == fut.second_service()
                        },
                        Poll::Ready(mid) => exists|f2: S2::Fut, o2: Poll<Res>, f2n: S2::Fut| #[trigger]
                            f2.polls_to(f2n, o2) && {
                                &&& f2.can_poll()
                                &&& forall|r: Res| #[trigger] f2.may_output(r) ==> fut.second_service().may_respond(mid, r)
                                &&& then_second_step(o2, f2n, next, p)
                            },
                    }
        },
        fut.stage() == ThenStage::Second ==> {
            &&& fut.can_poll() <==> fut.second_future().can_poll()
            &&& forall|r: Res| #[trigger] fut.may_output(r) <==> fut.second_future().may_output(r)
            &&& forall|next: ThenSvcFut<S1, S2, Req, Mid, Res>, p: Poll<Res>| #[trigger]
                fut.polls_to(next, p) <==> exists|o2: Poll<Res>, f2n: S2::Fut| #[trigger]
                    fut.second_future().polls_to(f2n, o2) && then_second_step(o2, f2n, next, p)
        },
        fut.stage() == ThenStage::Done ==> {
            &&& !fut.can_poll()
            &&& forall|r: Res| !#[trigger] fut.may_output(r)
            &&& forall|next: ThenSvcFut<S1, S2, Req, Mid, Res>, p: Poll<Res>| !#[trigger] fut.polls_to(next, p)
        },
{
    assert forall|o2: Poll<Res>, f2n: S2::Fut, next: ThenSvcFut<S1, S2, Req, Mid, Res>, p: Poll<Res>|
        #[trigger] ThenSvcFut::<S1, S2, Req, Mid, Res>::second_polled(o2, f2n, next, p)
        <==> then_second_step(o2, f2n, next, p) by {
        match next.state {
            State::Svc1(..) => {},
            State::Svc2(..) => {},
            State::Done => {},
        }
    }
    match fut.state {
        State::Svc1(f1, s2) => {
            assert(fut.first_future() == f1 && fut.second_service() == s2);
        },
        State::Svc2(f2) => {
            assert(fut.second_future() == f2);
            assert forall|next: ThenSvcFut<S1, S2, Req, Mid, Res>, p: Poll<Res>| #[trigger]
                fut.polls_to(next, p) <==> exists|o2: Poll<Res>, f2n: S2::Fut| #[trigger]
                    fut.second_future().polls_to(f2n, o2) && then_second_step(o2, f2n, next, p) by {
                if fut.polls_to(next, p) {
                    let (o2, f2n) = choose|o2: Poll<Res>, f2n: S2::Fut| #[trigger]
                        f2.polls_to(f2n, o2) && ThenSvcFut::<S1, S2, Req, Mid, Res>::second_polled(o2, f2n, next, p);
                    assert(then_second_step(o2, f2n, next, p));
                }
                if exists|o2: Poll<Res>, f2n: S2::Fut| #[trigger]
                    fut.second_future().polls_to(f2n, o2) && then_second_step(o2, f2n, next, p) {
                    let (o2, f2n) = choose|o2: Poll<Res>, f2n: S2::Fut| #[trigger]
                        fut.second_future().polls_to(f2n, o2) && then_second_step(o2, f2n, next, p);
                    assert(ThenSvcFut::<S1, S2, Req, Mid, Res>::second_polled(o2, f2n, next, p));
                }
            }
        },
        State::Done => {},
    }
}

/// A chained service keeps the state its first service's `exec` leaves and
/// hands its second service to the future.
pub proof fn then_svc_execs_to<S1, S2, Req, Mid, Res>(t: ThenSvc<S1, S2, Mid, Res>, req: Req) where
    S1: Svc<Req, Res = Mid>,
    S2: Svc<Mid, Res = Res>,
    ensures
        forall|next: ThenSvc<S1, S2, Mid, Res>| #[trigger] t.execs_to(req, next) <==> {
            &&& t.first().execs_to(req, next.first())
            &&& next.second() is None
        },
{
    assert forall|next: ThenSvc<S1, S2, Mid, Res>| #[trigger] t.execs_to(req, next) <==> {
        &&& t.first().execs_to(req, next.first())
        &&& next.second() is None
    } by {
        assert(next.first() == next.svc1 && next.second() == next.svc2);
    }
}

} // verus!

verus! {

/// Polling the future of a chained service until it is ready: if a future the
/// service handed out for `req` is polled through `states`, and only the last
/// poll is ready with `v`, then `v` is a response of the second service to a
/// response of the first service to `req`.
pub proof fn then_run_completes_with<S1, S2, Req, Mid, Res>(
    t: ThenSvc<S1, S2, Mid, Res>,
    req: Req,
    states: Seq<ThenSvcFut<S1, S2, Req, Mid, Res>>,
    outs: Seq<Poll<Res>>,
    v: Res,
) where
    S1: Svc<Req, Res = Mid>,
    S2: Svc<Mid, Res = Res>,
    requires
        forall|r: Res| #[trigger] states[0].may_output(r) ==> t.may_respond(req, r),
        outs.len() >= 1,
        states.len() == outs.len() + 1,
        forall|k: int| 0 <= k < outs.len() ==> poll_step(states[k], states[k + 1], #[trigger] outs[k]),
        forall|k: int| 0 <= k < outs.len() - 1 ==> #[trigger] outs[k] is Pending,
        outs.last() == Poll::Ready(v),
    ensures
        exists|mid: Mid| #[trigger]
            t.first().may_respond(req, mid) && (t.second() matches Some(s2) && s2.may_respond(mid, v)),
{
    run_completes_with(states, outs, v);
    then_svc_model(t, req, v);
}

} // verus!
