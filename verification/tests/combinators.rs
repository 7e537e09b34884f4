use std::fmt;
use std::task::{Context, Waker};

use async_svc::{fn_service, ready, FnSvc, Future, MapSvc, MapSvcFut, Poll, Ready, Svc, SvcExt, ThenSvc};

fn block_on<F: Future>(mut fut: F) -> F::Output {
    let mut cx = Context::from_waker(Waker::noop());
    loop {
        if let Poll::Ready(out) = fut.poll(&mut cx) {
            return out;
        }
    }
}

fn doubler(n: u64) -> Ready<u64> {
    ready(n * 2)
}

fn prefixer(val: impl fmt::Display) -> String {
    format!("foo {val}")
}

/// A future that is pending on its first poll and ready with its value on the second.
struct PendingOnce<T> {
    value: Option<T>,
    polled: bool,
}

fn pending_once<T>(value: T) -> PendingOnce<T> {
    PendingOnce { value: Some(value), polled: false }
}

impl<T> Future for PendingOnce<T> {
    type Output = T;

    fn poll(&mut self, _cx: &mut Context<'_>) -> Poll<T> {
        if self.polled {
            Poll::Ready(self.value.take().expect("polled after completion"))
        } else {
            self.polled = true;
            Poll::Pending
        }
    }
}

#[test]
fn map() {
    let mut svc = fn_service(doubler).map(prefixer);
    assert_eq!(block_on(svc.exec(1)), "foo 2");
    assert_eq!(block_on(svc.exec(3)), "foo 6");
}

#[test]
fn map_owning() {
    let svc = fn_service(doubler);
    let mut bnf = MapSvc::new(svc, |res| res + 2);

    assert_eq!(block_on(bnf.exec(42)), 86);
    assert_eq!(block_on(bnf.exec(2)), 6);
}

#[test]
fn map_borrowing() {
    let prefix = "foo".to_owned();
    let prefix = prefix.as_str();

    let svc = fn_service(doubler);
    let mut bnf = MapSvc::new(svc, |res| format!("{prefix} {res}"));

    assert_eq!(block_on(bnf.exec(42)), "foo 84");
    assert_eq!(block_on(bnf.exec(2)), "foo 4");
}

#[test]
fn map_test_map_service() {
    let svc = FnSvc::new(doubler);
    let mut bnf = MapSvc::new(svc, |res| res + 2);

    let res = block_on(bnf.exec(42));
    assert_eq!(res, 86);
}

#[test]
fn map_svc_fut_maps_the_output_once_ready() {
    let mut fut: MapSvcFut<FnSvc<fn(u64) -> Ready<u64>>, _, u64, u64> =
        MapSvcFut::new(ready(10), |v: u64| v * 3);
    let mut cx = Context::from_waker(Waker::noop());
    assert!(matches!(fut.poll(&mut cx), Poll::Ready(30)));
}

#[test]
fn map_svc_fut_waits_while_the_inner_future_is_pending() {
    let mut svc = MapSvc::new(fn_service(|n: u64| pending_once(n + 1)), |v: u64| v * 10);
    let mut fut = svc.exec(4);
    let mut cx = Context::from_waker(Waker::noop());
    assert!(matches!(fut.poll(&mut cx), Poll::Pending));
    assert!(matches!(fut.poll(&mut cx), Poll::Ready(50)));
}

#[test]
fn then_test_map_service() {
    let svc1 = FnSvc::new(doubler);
    let svc2 = FnSvc::new(doubler);
    let mut bnf = ThenSvc::new(svc1, svc2);

    let res = block_on(bnf.exec(42));
    assert_eq!(res, 168);
}

#[test]
fn then_feeds_the_first_response_to_the_second_service() {
    let mut svc = fn_service(doubler).then(fn_service(|n: u64| ready(format!("got {n}"))));
    assert_eq!(block_on(svc.exec(5)), "got 10");
}

#[test]
fn then_future_goes_through_both_stages() {
    let mut svc = ThenSvc::new(
        fn_service(|n: u64| pending_once(n + 1)),
        fn_service(|n: u64| pending_once(n * 100)),
    );
    let mut fut = svc.exec(1);
    let mut cx = Context::from_waker(Waker::noop());
    assert!(matches!(fut.poll(&mut cx), Poll::Pending));
    assert!(matches!(fut.poll(&mut cx), Poll::Pending));
    assert!(matches!(fut.poll(&mut cx), Poll::Ready(200)));
}

#[test]
fn then_future_with_ready_stages_completes_on_first_poll() {
    let mut svc = ThenSvc::new(fn_service(doubler), fn_service(doubler));
    let mut fut = svc.exec(3);
    let mut cx = Context::from_waker(Waker::noop());
    assert!(matches!(fut.poll(&mut cx), Poll::Ready(12)));
}

#[test]
fn then_is_associative_on_values() {
    let mut left = ThenSvc::new(
        ThenSvc::new(fn_service(doubler), fn_service(|n: u64| ready(n + 1))),
        fn_service(|n: u64| ready(n * 10)),
    );
    let mut right = ThenSvc::new(
        fn_service(doubler),
        ThenSvc::new(fn_service(|n: u64| ready(n + 1)), fn_service(|n: u64| ready(n * 10))),
    );
    assert_eq!(block_on(left.exec(4)), 90);
    assert_eq!(block_on(right.exec(4)), 90);
}

#[test]
fn map_of_map_composes_the_mappers() {
    let mut svc = fn_service(doubler).map(|n: u64| n + 1).map(|n: u64| n * 10);
    assert_eq!(block_on(svc.exec(4)), 90);
}
