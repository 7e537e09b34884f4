use std::rc::Rc;
use std::sync::Arc;
use std::task::{Context, Waker};

use async_svc::{fn_factory, fn_service, ready, Future, Poll, Svc, SvcFactory};

fn block_on<F: Future>(mut fut: F) -> F::Output {
    let mut cx = Context::from_waker(Waker::noop());
    loop {
        if let Poll::Ready(out) = fut.poll(&mut cx) {
            return out;
        }
    }
}

#[test]
fn test_smart_pointer_factories() {
    let doubler_fac =
        fn_factory::<_, _, _, _, _, u64>(|_: ()| ready(Ok::<_, ()>(fn_service(|n: u64| ready(n * 2)))));
    let fac = Rc::new(doubler_fac);
    block_on(SvcFactory::<u64>::init_svc(&fac, ())).unwrap();
}

#[test]
fn test_fn_factory_no_cfg() {
    let no_cfg_fac =
        fn_factory::<_, _, _, _, _, u64>(|_: ()| ready(Ok::<_, ()>(fn_service(|n: u64| ready(n * 2)))));

    {
        let mut svc = block_on(SvcFactory::<u64>::init_svc(&no_cfg_fac, ())).unwrap();
        let res = block_on(svc.exec(42));
        assert_eq!(res, 84);
    }

    {
        let mut svc = block_on(SvcFactory::<u64>::init_svc(&no_cfg_fac, ())).unwrap();
        let res = block_on(svc.exec(43));
        assert_eq!(res, 86);
    }
}

#[test]
fn test_fn_factory_with_cfg() {
    let cfg_fac = fn_factory::<_, _, _, _, _, u64>(|shift: u64| {
        ready(Ok::<_, ()>(fn_service(move |n: u64| ready((n * 2) + shift))))
    });

    {
        let mut svc = block_on(SvcFactory::<u64>::init_svc(&cfg_fac, 7)).unwrap();
        let res = block_on(svc.exec(42));
        assert_eq!(res, 91);
    }

    {
        let mut svc = block_on(SvcFactory::<u64>::init_svc(&cfg_fac, 7)).unwrap();
        let res = block_on(svc.exec(43));
        assert_eq!(res, 93);
    }
}

#[test]
fn shared_factories_build_what_the_inner_factory_builds() {
    let fac = fn_factory::<_, _, _, _, _, u64>(|shift: u64| {
        ready(Ok::<_, ()>(fn_service(move |n: u64| ready(n + shift))))
    });
    let boxed = Box::new(fac);
    let mut svc = block_on(SvcFactory::<u64>::init_svc(&boxed, 1)).unwrap();
    assert_eq!(block_on(svc.exec(1)), 2);

    let arc = Arc::new(*boxed);
    let mut svc = block_on(SvcFactory::<u64>::init_svc(&arc, 10)).unwrap();
    assert_eq!(block_on(svc.exec(1)), 11);
}

#[test]
fn factory_errors_are_passed_on() {
    let failing = fn_factory::<_, _, _, _, _, u64>(|code: u8| {
        ready(if code == 0 { Ok(fn_service(|n: u64| ready(n))) } else { Err(code) })
    });
    assert!(block_on(SvcFactory::<u64>::init_svc(&failing, 0)).is_ok());
    assert_eq!(block_on(SvcFactory::<u64>::init_svc(&failing, 3)).err(), Some(3));
}

#[test]
fn borrowed_factory_builds_what_the_factory_builds() {
    let fac = fn_factory::<_, _, _, _, _, u64>(|shift: u64| {
        ready(Ok::<_, ()>(fn_service(move |n: u64| ready(n * shift))))
    });
    let by_ref = &fac;
    let mut svc = block_on(SvcFactory::<u64>::init_svc(&by_ref, 3)).unwrap();
    assert_eq!(block_on(svc.exec(5)), 15);
}
