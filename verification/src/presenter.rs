use vstd::prelude::*;

use crate::errors::ErrorReport;
use crate::gateways::PresenterGateway;
use crate::results::ResultType;

verus! {

/// Hand a use-case outcome to the presentation gateway: the result where it
/// succeeded, the failure text where it did not.
pub struct Presenter<P: PresenterGateway> {
    presenter_gateway: P,
}

impl<P: PresenterGateway> Presenter<P> {
    pub closed spec fn gateway(&self) -> P {
        self.presenter_gateway
    }

    pub fn new(presenter_gateway: P) -> (r: Presenter<P>)
        ensures
            r.gateway() == presenter_gateway,
    {
        Presenter { presenter_gateway }
    }

    pub fn present(&self, response: &Result<ResultType, ErrorReport>) -> (r: Result<
        (),
        ErrorReport,
    >)
        requires
            self.gateway().inv(),
        ensures
            r is Ok <==> self.gateway().presents_ok(),
    {
        match response {
            Ok(result) => self.presenter_gateway.present_result(result),
            Err(cause) => self.presenter_gateway.present_error(cause.message.clone()),
        }
    }
}

} // verus!
