use vstd::prelude::*;

use crate::errors::ErrorReport;
use crate::gateways::ListWindowsWindowSystemGateway;
use crate::results::ResultType;
use crate::walker::text_views;

verus! {

/// Whether an executed enumeration matches the gateway's modeled outcome: the
/// titles are wrapped as a list result, a failure is propagated unchanged.
pub open spec fn list_usecase_matches(
    r: Result<ResultType, ErrorReport>,
    o: Result<Seq<Seq<char>>, Seq<char>>,
) -> bool {
    match o {
        Ok(titles) => r matches Ok(ResultType::ListWindowResult(v)) && text_views(v@) == titles,
        Err(msg) => r matches Err(e) && e@ == msg,
    }
}

/// Enumerate all titled windows: pure sequencing over the window-system
/// gateway, with the outcome or the failure propagated unchanged.
pub struct ListWindowsUseCase<G: ListWindowsWindowSystemGateway> {
    window_system_gateway: G,
}

impl<G: ListWindowsWindowSystemGateway> ListWindowsUseCase<G> {
    pub closed spec fn gateway(&self) -> G {
        self.window_system_gateway
    }

    pub fn new(window_system_gateway: G) -> (r: Self)
        ensures
            r.gateway() == window_system_gateway,
    {
        ListWindowsUseCase { window_system_gateway }
    }

    /// One enumeration: no retry, no caching, fail-fast on the first error.
    pub fn execute(&mut self) -> (r: Result<ResultType, ErrorReport>)
        requires
            old(self).gateway().inv(),
        ensures
            final(self).gateway().inv(),
            final(self).gateway().list_view() == old(self).gateway().list_view(),
            list_usecase_matches(r, old(self).gateway().list_view()),
    {
        match self.window_system_gateway.list_windows() {
            Ok(windows) => Ok(ResultType::ListWindowResult(windows)),
            Err(e) => Err(e),
        }
    }
}

} // verus!
