//! Factories that build services from configuration.
use vstd::prelude::*;
use std::rc::Rc;
use std::sync::Arc;

use crate::future::Future;
use crate::Svc;

verus! {

/// Builds services of one kind, asynchronously, from a configuration value.
pub trait SvcFactory<Req>: Sized {
    /// The service it builds.
    type InitSvc: Svc<Req>;

    /// The configuration a service is built from.
    type Cfg;

    /// The error building may fail with.
    type InitErr;

    /// The future of a built service.
    type InitFut: Future<Output = Result<Self::InitSvc, Self::InitErr>>;

    /// Whether the factory may build a service in this state. A factory that
    /// says nothing of itself may always build.
    open spec fn can_init(&self) -> bool {
        true
    }

    /// Whether the factory takes the configuration `cfg`. A factory that says
    /// nothing of itself takes every configuration.
    open spec fn accepts(&self, cfg: Self::Cfg) -> bool {
        true
    }

    /// Whether `out` is an outcome of building a service from `cfg`. A factory
    /// that says nothing of itself may give any outcome.
    open spec fn may_init(&self, cfg: Self::Cfg, out: Result<Self::InitSvc, Self::InitErr>) -> bool {
        true
    }

    /// Starts building a service from `cfg`.
    fn init_svc(&self, cfg: Self::Cfg) -> (fut: Self::InitFut)
        requires
            self.can_init(),
            self.accepts(cfg),
        ensures
            fut.can_poll(),
            forall|out: Result<Self::InitSvc, Self::InitErr>| #[trigger]
                fut.may_output(out) ==> self.may_init(cfg, out),
    ;
}

/// A boxed factory builds what the factory in the box builds.
impl<SF: SvcFactory<Req>, Req> SvcFactory<Req> for Box<SF> {
    type InitSvc = SF::InitSvc;

    type Cfg = SF::Cfg;

    type InitErr = SF::InitErr;

    type InitFut = SF::InitFut;

    open spec fn can_init(&self) -> bool {
        (**self).can_init()
    }

    open spec fn accepts(&self, cfg: SF::Cfg) -> bool {
        (**self).accepts(cfg)
    }

    open spec fn may_init(&self, cfg: SF::Cfg, out: Result<SF::InitSvc, SF::InitErr>) -> bool {
        (**self).may_init(cfg, out)
    }

    /// Asks the factory it points to.
    fn init_svc(&self, cfg: SF::Cfg) -> (fut: SF::InitFut) {
        (**self).init_svc(cfg)
    }
}

/// A shared factory builds what the factory it points to builds.
impl<SF: SvcFactory<Req>, Req> SvcFactory<Req> for Rc<SF> {
    type InitSvc = SF::InitSvc;

    type Cfg = SF::Cfg;

    type InitErr = SF::InitErr;

    type InitFut = SF::InitFut;

    open spec fn can_init(&self) -> bool {
        (**self).can_init()
    }

    open spec fn accepts(&self, cfg: SF::Cfg) -> bool {
        (**self).accepts(cfg)
    }

    open spec fn may_init(&self, cfg: SF::Cfg, out: Result<SF::InitSvc, SF::InitErr>) -> bool {
        (**self).may_init(cfg, out)
    }

    /// Asks the factory it points to.
    fn init_svc(&self, cfg: SF::Cfg) -> (fut: SF::InitFut) {
        (**self).init_svc(cfg)
    }
}

/// A factory shared across threads builds what the factory it points to builds.
impl<SF: SvcFactory<Req>, Req> SvcFactory<Req> for Arc<SF> {
    type InitSvc = SF::InitSvc;

    type Cfg = SF::Cfg;

    type InitErr = SF::InitErr;

    type InitFut = SF::InitFut;

    open spec fn can_init(&self) -> bool {
        (**self).can_init()
    }

    open spec fn accepts(&self, cfg: SF::Cfg) -> bool {
        (**self).accepts(cfg)
    }

    open spec fn may_init(&self, cfg: SF::Cfg, out: Result<SF::InitSvc, SF::InitErr>) -> bool {
        (**self).may_init(cfg, out)
    }

    /// Asks the factory it points to.
    fn init_svc(&self, cfg: SF::Cfg) -> (fut: SF::InitFut) {
        (**self).init_svc(cfg)
    }
}

/// A borrowed factory builds what the factory it refers to builds.
impl<SF: SvcFactory<Req>, Req> SvcFactory<Req> for &SF {
    type InitSvc = SF::InitSvc;

    type Cfg = SF::Cfg;

    type InitErr = SF::InitErr;

    type InitFut = SF::InitFut;

    open spec fn can_init(&self) -> bool {
        (**self).can_init()
    }

    open spec fn accepts(&self, cfg: SF::Cfg) -> bool {
        (**self).accepts(cfg)
    }

    open spec fn may_init(&self, cfg: SF::Cfg, out: Result<SF::InitSvc, SF::InitErr>) -> bool {
        (**self).may_init(cfg, out)
    }

    /// Asks the factory it points to.
    fn init_svc(&self, cfg: SF::Cfg) -> (fut: SF::InitFut) {
        (**self).init_svc(cfg)
    }
}

} // verus!
