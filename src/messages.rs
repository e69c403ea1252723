//! The request and response shapes of the compliance RPC surface.

use vstd::prelude::*;

verus! {

/// A flight plan submitted for compliance checks.
#[derive(Debug, Clone, PartialEq)]
pub struct FlightPlanRequest {
    /// Flight plan id.
    pub flight_plan_id: String,
    /// Serialized flight plan, opaque to the gateway.
    pub data: String,
}

/// The answer to a flight plan submission.
#[derive(Debug, Clone, PartialEq)]
pub struct FlightPlanResponse {
    /// Flight plan id.
    pub flight_plan_id: String,
    /// Whether the plan was accepted.
    pub submitted: bool,
    /// Optional error or warning message.
    pub result: Option<String>,
}

/// A request to release a flight.
#[derive(Debug, Clone, PartialEq)]
pub struct FlightReleaseRequest {
    /// Flight plan id.
    pub flight_plan_id: String,
    /// Serialized flight plan, opaque to the gateway.
    pub data: String,
}

/// The answer to a release request.
#[derive(Debug, Clone, PartialEq)]
pub struct FlightReleaseResponse {
    /// Flight plan id.
    pub flight_plan_id: String,
    /// Whether the flight was released.
    pub released: bool,
    /// Optional error or warning message.
    pub result: Option<String>,
}

/// A liveness query; it carries nothing.
#[derive(Debug, Copy, Clone, PartialEq, Eq, Structural)]
pub struct QueryIsReady {}

/// The answer to a liveness query.
#[derive(Debug, Copy, Clone, PartialEq, Eq, Structural)]
pub struct ReadyResponse {
    /// True if the service is ready.
    pub ready: bool,
}

} // verus!
