//! Combinator methods available on every service.
use vstd::prelude::*;

use crate::map::MapSvc;
use crate::then::ThenSvc;
use crate::Svc;

verus! {

/// Builds combined services from a service.
pub trait SvcExt<Req>: Svc<Req> {
    /// A service that runs this one and passes each response through `f`.
    fn map<F, Res>(self, f: F) -> (m: MapSvc<Self, F, Res>) where F: FnMut(Self::Res) -> Res
        ensures
            m.inner() == self,
            m.mapper() == f,
    {
        MapSvc::new(self, f)
    }

    /// A service that runs this one and then `svc2` on its response.
    fn then<S2, Res>(self, svc2: S2) -> (t: ThenSvc<Self, S2, Self::Res, Res>) where
        S2: Svc<Self::Res, Res = Res>,
        ensures
            t.first() == self,
            t.second() == Some(svc2),
    {
        ThenSvc::new(self, svc2)
    }
}

impl<S, Req> SvcExt<Req> for S where S: Svc<Req> {

}

} // verus!
