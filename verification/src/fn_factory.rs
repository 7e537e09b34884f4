//! Factories made from functions that return futures of services.
use vstd::prelude::*;
use core::marker::PhantomData;

use crate::factory::SvcFactory;
use crate::future::Future;
use crate::Svc;

verus! {

/// A factory that builds each service by calling its function on the
/// configuration.
pub struct FnFactory<Fac, Cfg> {
    fac: Fac,
    _phantom: PhantomData<Cfg>,
}

impl<Fac, Cfg> FnFactory<Fac, Cfg> {
    /// The function that builds services.
    pub closed spec fn func(&self) -> Fac {
        self.fac
    }
}

impl<Fac, Cfg, InitFut, InitErr, InitSvc, Req> SvcFactory<Req> for FnFactory<Fac, Cfg> where
    Fac: Fn(Cfg) -> InitFut,
    InitFut: Future<Output = Result<InitSvc, InitErr>>,
    InitSvc: Svc<Req>,
 {
    type InitSvc = InitSvc;

    type Cfg = Cfg;

    type InitErr = InitErr;

    type InitFut = InitFut;

    /// Every future the function may return may be polled.
    closed spec fn can_init(&self) -> bool {
        forall|cfg: Cfg, fut: InitFut| #[trigger] call_ensures(self.fac, (cfg,), fut) ==> fut.can_poll()
    }

    /// The function accepts the configuration.
    closed spec fn accepts(&self, cfg: Cfg) -> bool {
        call_requires(self.fac, (cfg,))
    }

    /// `out` is an outcome of a future the function may return for `cfg`.
    closed spec fn may_init(&self, cfg: Cfg, out: Result<InitSvc, InitErr>) -> bool {
        exists|fut: InitFut| #[trigger] call_ensures(self.fac, (cfg,), fut) && fut.may_output(out)
    }

    /// Calls the function on the configuration.
    fn init_svc(&self, cfg: Cfg) -> (fut: InitFut)
        ensures
            call_ensures(self.func(), (cfg,), fut),
    {
        (self.fac)(cfg)
    }
}

/// Makes a factory out of `fac`, a function from configurations to futures of
/// services.
pub fn fn_factory<Fac, Cfg, InitFut, InitErr, OutSvc, Req>(fac: Fac) -> (f: FnFactory<Fac, Cfg>) where
    Fac: Fn(Cfg) -> InitFut,
    InitFut: Future<Output = Result<OutSvc, InitErr>>,
    OutSvc: Svc<Req>,
    ensures
        f.func() == fac,
{
    FnFactory { fac, _phantom: PhantomData }
}

} // verus!

verus! {

/// A function factory builds what a future its function may return for the
/// configuration completes with; it takes the configurations its function
/// accepts, as long as the function returns futures that may be polled.
pub proof fn fn_factory_model<Fac, Cfg, InitFut, InitErr, InitSvc, Req>(
    f: FnFactory<Fac, Cfg>,
    cfg: Cfg,
    out: Result<InitSvc, InitErr>,
) where
    Fac: Fn(Cfg) -> InitFut,
    InitFut: Future<Output = Result<InitSvc, InitErr>>,
    InitSvc: Svc<Req>,
    ensures
        SvcFactory::<Req>::may_init(&f, cfg, out) <==> exists|fut: InitFut| #[trigger]
            call_ensures(f.func(), (cfg,), fut) && fut.may_output(out),
        SvcFactory::<Req>::accepts(&f, cfg) <==> call_requires(f.func(), (cfg,)),
        SvcFactory::<Req>::can_init(&f) <==> forall|c: Cfg, fut: InitFut| #[trigger]
            call_ensures(f.func(), (c,), fut) ==> fut.can_poll(),
{
    assert(f.func() == f.fac);
}

} // verus!
