use std::cell::RefCell;
use std::rc::Rc;
use std::task::{Context, Waker};

use async_svc::{box_svc, fn_service, ready, FnSvc, Future, Poll, Ready, Svc};

fn block_on<F: Future>(mut fut: F) -> F::Output {
    let mut cx = Context::from_waker(Waker::noop());
    loop {
        if let Poll::Ready(out) = fut.poll(&mut cx) {
            return out;
        }
    }
}

fn doubler(n: u64) -> Ready<u64> {
    ready(n * 2)
}

#[test]
fn test_fn_service() {
    let mut svc = fn_service(|n: u64| ready(n * 2));

    let res = block_on(svc.exec(42));
    assert_eq!(res, 84);

    let res = block_on(svc.exec(43));
    assert_eq!(res, 86);
}

#[test]
fn fn_service_owning() {
    let mut svc = fn_service(|n: u64| ready(n * 2));

    let res = block_on(svc.exec(42));
    assert_eq!(res, 84);

    let res = block_on(svc.exec(43));
    assert_eq!(res, 86);
}

#[test]
fn fn_service_borrowing() {
    let prefix = "prefix".to_owned();

    let mut svc = fn_service(|n: u64| {
        let prefix = prefix.as_str();
        ready(format!("{prefix} {}", n * 2))
    });

    let res = block_on(svc.exec(42));
    assert_eq!(res, "prefix 84");

    let res = block_on(svc.exec(43));
    assert_eq!(res, "prefix 86");
}

#[test]
fn fn_svc_new_calls_its_function() {
    let mut svc = FnSvc::new(doubler);
    assert_eq!(block_on(svc.exec(0)), 0);
    assert_eq!(block_on(svc.exec(21)), 42);
}

#[test]
fn test_boxed() {
    let sum = Rc::new(RefCell::new(0));
    let sum2 = Rc::clone(&sum);
    let running_sum = move |n: u64| {
        let sum = Rc::clone(&sum2);
        *sum.borrow_mut() += n;
        let total = *sum.borrow();
        ready(total)
    };

    let svc = FnSvc::new(running_sum);
    let mut boxed_srv = box_svc(svc);

    let res = block_on(boxed_srv.exec(20));
    assert_eq!(res, 20);

    let res = block_on(boxed_srv.exec(14));
    assert_eq!(res, 34);
}

#[test]
fn boxed_service_forwards_readiness() {
    let mut svc = Box::new(FnSvc::new(doubler));
    let mut cx = Context::from_waker(Waker::noop());
    assert!(matches!(svc.poll_ready(&mut cx), Poll::Ready(())));
    let mut wrapped = box_svc(FnSvc::new(doubler));
    assert!(matches!(wrapped.poll_ready(&mut cx), Poll::Ready(())));
}

#[test]
fn boxed_service_forwards_to_the_service_in_the_box() {
    let mut svc = Box::new(FnSvc::new(doubler));
    assert_eq!(block_on(svc.exec(5)), 10);
    assert_eq!(block_on(svc.exec(7)), 14);
}

#[test]
fn ready_future_completes_on_first_poll() {
    let mut fut = ready(7u8);
    let mut cx = Context::from_waker(Waker::noop());
    assert!(matches!(fut.poll(&mut cx), Poll::Ready(7)));
}

#[test]
fn fn_service_is_always_ready() {
    let mut svc = fn_service(doubler);
    let mut cx = Context::from_waker(Waker::noop());
    assert!(matches!(svc.poll_ready(&mut cx), Poll::Ready(())));
    assert_eq!(block_on(svc.exec(4)), 8);
}

struct ReturnsAsyncFn(String);

impl Svc<()> for ReturnsAsyncFn {
    type Res = usize;
    type Fut = Ready<usize>;

    fn poll_ready(&mut self, _cx: &mut Context<'_>) -> Poll<()> {
        Poll::Ready(())
    }

    fn exec(&mut self, _req: ()) -> Ready<usize> {
        let a = self.0.as_bytes();
        ready(a.len())
    }
}

#[test]
fn async_svc_borrowing_self() {
    let mut svc = ReturnsAsyncFn("".to_owned());
    assert_eq!(block_on(svc.exec(())), 0);
    assert_eq!(block_on(svc.exec(())), 0);

    let mut svc = ReturnsAsyncFn("foo".to_owned());
    assert_eq!(block_on(svc.exec(())), 3);
    assert_eq!(block_on(svc.exec(())), 3);
}

struct ReqLen;

impl Svc<String> for ReqLen {
    type Res = usize;
    type Fut = Ready<usize>;

    fn poll_ready(&mut self, _cx: &mut Context<'_>) -> Poll<()> {
        Poll::Ready(())
    }

    fn exec(&mut self, req: String) -> Ready<usize> {
        let a = req.as_bytes();
        ready(a.len())
    }
}

#[test]
fn async_svc_borrowing_req() {
    let mut svc = ReqLen;
    assert_eq!(block_on(svc.exec("".to_owned())), 0);
    assert_eq!(block_on(svc.exec("foo".to_owned())), 3);
}

struct PrependStringDelay<'a>(&'a str);

impl Svc<String> for PrependStringDelay<'_> {
    type Res = String;
    type Fut = Ready<String>;

    fn poll_ready(&mut self, _cx: &mut Context<'_>) -> Poll<()> {
        Poll::Ready(())
    }

    fn exec(&mut self, req: String) -> Ready<String> {
        ready(format!("{} {req}", &self.0))
    }
}

#[test]
fn async_svc_borrowing_both() {
    let prefix = "foo".to_owned();
    let mut svc = PrependStringDelay(prefix.as_str());
    assert_eq!(block_on(svc.exec("bar".to_owned())), "foo bar");
    assert_eq!(block_on(svc.exec("baz".to_owned())), "foo baz");
}
