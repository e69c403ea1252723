//! Jurisdictions, their compliance strategies and the selection of the one
//! that governs the process.

use crate::messages::{FlightPlanRequest, FlightPlanResponse, FlightReleaseRequest, FlightReleaseResponse};
use vstd::prelude::*;

verus! {

/// Code of the United States jurisdiction.
pub const REGION_CODE_US: &'static str = "us";

/// Code of the Netherlands jurisdiction.
pub const REGION_CODE_NE: &'static str = "ne";

/// Code of the stand-in jurisdiction that accepts every request.
pub const REGION_CODE_STUB: &'static str = "stub";

/// A fatal startup error: the process must not serve requests.
#[derive(Debug, Copy, Clone, PartialEq, Eq, Structural)]
pub enum ConfigurationError {
    /// The configured jurisdiction code names no supported jurisdiction.
    UnknownRegion,
    /// The configuration names no jurisdiction.
    MissingRegion,
}

/// A per-request failure of a compliance strategy.
#[derive(Debug, Copy, Clone, PartialEq, Eq, Structural)]
pub enum StrategyError {
    /// The jurisdiction has no implemented rule set yet.
    NotImplemented,
}

/// Strategy of the United States jurisdiction, which has no rules yet.
#[derive(Debug, Copy, Clone, PartialEq, Eq, Structural)]
pub struct USImpl {}

/// Strategy of the Netherlands jurisdiction, which has no rules yet.
#[derive(Debug, Copy, Clone, PartialEq, Eq, Structural)]
pub struct NEImpl {}

/// Stand-in strategy that accepts every submission and release.
#[derive(Debug, Copy, Clone, PartialEq, Eq, Structural)]
pub struct StubImpl {}

/// The stand-in strategy's answer to a submission: accepted, nothing more.
pub open spec fn accepted_plan(request: FlightPlanRequest) -> FlightPlanResponse {
    FlightPlanResponse { flight_plan_id: request.flight_plan_id, submitted: true, result: None }
}

/// The stand-in strategy's answer to a release request: released, nothing more.
pub open spec fn released_flight(request: FlightReleaseRequest) -> FlightReleaseResponse {
    FlightReleaseResponse { flight_plan_id: request.flight_plan_id, released: true, result: None }
}

impl USImpl {
    pub fn submit_flight_plan(&self, request: FlightPlanRequest) -> (r: Result<FlightPlanResponse, StrategyError>)
        ensures
            r == Err::<FlightPlanResponse, StrategyError>(StrategyError::NotImplemented),
    {
        Err(StrategyError::NotImplemented)
    }

    pub fn request_flight_release(&self, request: FlightReleaseRequest) -> (r: Result<FlightReleaseResponse, StrategyError>)
        ensures
            r == Err::<FlightReleaseResponse, StrategyError>(StrategyError::NotImplemented),
    {
        Err(StrategyError::NotImplemented)
    }
}

impl NEImpl {
    pub fn submit_flight_plan(&self, request: FlightPlanRequest) -> (r: Result<FlightPlanResponse, StrategyError>)
        ensures
            r == Err::<FlightPlanResponse, StrategyError>(StrategyError::NotImplemented),
    {
        Err(StrategyError::NotImplemented)
    }

    pub fn request_flight_release(&self, request: FlightReleaseRequest) -> (r: Result<FlightReleaseResponse, StrategyError>)
        ensures
            r == Err::<FlightReleaseResponse, StrategyError>(StrategyError::NotImplemented),
    {
        Err(StrategyError::NotImplemented)
    }
}

impl StubImpl {
    pub fn submit_flight_plan(&self, request: FlightPlanRequest) -> (r: Result<FlightPlanResponse, StrategyError>)
        ensures
            r == Ok::<FlightPlanResponse, StrategyError>(accepted_plan(request)),
    {
        Ok(FlightPlanResponse { flight_plan_id: request.flight_plan_id, submitted: true, result: None })
    }

    pub fn request_flight_release(&self, request: FlightReleaseRequest) -> (r: Result<FlightReleaseResponse, StrategyError>)
        ensures
            r == Ok::<FlightReleaseResponse, StrategyError>(released_flight(request)),
    {
        Ok(FlightReleaseResponse { flight_plan_id: request.flight_plan_id, released: true, result: None })
    }
}

/// The closed set of supported jurisdictions, each with its strategy.
#[derive(Debug, Copy, Clone, PartialEq, Eq, Structural)]
pub enum RegionImpl {
    Us(USImpl),
    Ne(NEImpl),
    Stub(StubImpl),
}

impl RegionImpl {
    /// Whether the jurisdiction has an implemented rule set.
    pub open spec fn has_rules(self) -> bool {
        self is Stub
    }

    /// The strategy's answer to a submission.
    pub open spec fn submit_result(self, request: FlightPlanRequest) -> Result<FlightPlanResponse, StrategyError> {
        if self.has_rules() {
            Ok(accepted_plan(request))
        } else {
            Err(StrategyError::NotImplemented)
        }
    }

    /// The strategy's answer to a release request.
    pub open spec fn release_result(self, request: FlightReleaseRequest) -> Result<FlightReleaseResponse, StrategyError> {
        if self.has_rules() {
            Ok(released_flight(request))
        } else {
            Err(StrategyError::NotImplemented)
        }
    }

    /// Submits a flight plan to the jurisdiction's strategy.
    pub fn submit_flight_plan(&self, request: FlightPlanRequest) -> (r: Result<FlightPlanResponse, StrategyError>)
        ensures
            r == self.submit_result(request),
    {
        match self {
            RegionImpl::Us(s) => s.submit_flight_plan(request),
            RegionImpl::Ne(s) => s.submit_flight_plan(request),
            RegionImpl::Stub(s) => s.submit_flight_plan(request),
        }
    }

    /// Asks the jurisdiction's strategy to release a flight.
    pub fn request_flight_release(&self, request: FlightReleaseRequest) -> (r: Result<FlightReleaseResponse, StrategyError>)
        ensures
            r == self.release_result(request),
    {
        match self {
            RegionImpl::Us(s) => s.request_flight_release(request),
            RegionImpl::Ne(s) => s.request_flight_release(request),
            RegionImpl::Stub(s) => s.request_flight_release(request),
        }
    }
}

/// A supported jurisdiction without an implemented rule set answers every
/// submission and every release request with `NotImplemented`, an ordinary
/// result rather than a failure of the request.
pub proof fn lemma_unimplemented_rules(
    region: RegionImpl,
    plan: FlightPlanRequest,
    release: FlightReleaseRequest,
)
    requires
        !region.has_rules(),
    ensures
        region.submit_result(plan) == Err::<FlightPlanResponse, StrategyError>(StrategyError::NotImplemented),
        region.release_result(release) == Err::<FlightReleaseResponse, StrategyError>(StrategyError::NotImplemented),
{
}

/// The jurisdiction that `code` names, if it is supported.
pub open spec fn region_for(code: Seq<char>) -> Option<RegionImpl> {
    if code == REGION_CODE_US@ {
        Some(RegionImpl::Us(USImpl {}))
    } else if code == REGION_CODE_NE@ {
        Some(RegionImpl::Ne(NEImpl {}))
    } else if code == REGION_CODE_STUB@ {
        Some(RegionImpl::Stub(StubImpl {}))
    } else {
        None
    }
}

/// Whether two strings hold the same characters.
pub fn str_equals(a: &str, b: &str) -> (r: bool)
    ensures
        r == (a@ == b@),
{
    let n = a.unicode_len();
    let m = b.unicode_len();
    if n != m {
        return false;
    }
    let mut i: usize = 0;
    while i < n
        invariant
            n == a@.len(),
            m == b@.len(),
            n == m,
            i <= n,
            forall|j: int| 0 <= j < i ==> a@[j] == b@[j],
        decreases n - i,
    {
        if a.get_char(i) != b.get_char(i) {
            return false;
        }
        i = i + 1;
    }
    assert(a@ =~= b@);
    true
}

/// Returns the strategy of the jurisdiction that `code` names, or
/// `UnknownRegion` when no supported jurisdiction has that code.
pub fn get_region_impl(code: &str) -> (r: Result<RegionImpl, ConfigurationError>)
    ensures
        region_for(code@) matches Some(region) ==> r == Ok::<RegionImpl, ConfigurationError>(region),
        region_for(code@) is None ==> r == Err::<RegionImpl, ConfigurationError>(ConfigurationError::UnknownRegion),
{
    if str_equals(code, REGION_CODE_US) {
        Ok(RegionImpl::Us(USImpl {}))
    } else if str_equals(code, REGION_CODE_NE) {
        Ok(RegionImpl::Ne(NEImpl {}))
    } else if str_equals(code, REGION_CODE_STUB) {
        Ok(RegionImpl::Stub(StubImpl {}))
    } else {
        Err(ConfigurationError::UnknownRegion)
    }
}

} // verus!
