//! The request facade: the jurisdiction's strategy, resolved once at
//! startup, answers every request, and accepted plans are announced on the
//! broker under the chosen publish policy.

use crate::amqp::{
    publish_outcome, AMQPError, PublishPolicy, PublishStep, EXCHANGE_NAME_FLIGHTPLAN,
    ROUTING_KEY_CARGO,
};
use crate::messages::{
    FlightPlanRequest, FlightPlanResponse, FlightReleaseRequest, FlightReleaseResponse,
    QueryIsReady, ReadyResponse,
};
use crate::region::{get_region_impl, region_for, ConfigurationError, RegionImpl, StrategyError};
use vstd::prelude::*;

verus! {

/// A message to publish on the broker.
#[derive(Debug, Clone, PartialEq)]
pub struct Announcement {
    /// Exchange the message goes to.
    pub exchange: String,
    /// Routing key of the message.
    pub routing_key: String,
    /// Message body.
    pub payload: String,
}

/// Whether `a` announces the plan `request` on the cargo routing key of the
/// flight plan exchange.
pub open spec fn announces(a: Announcement, request: FlightPlanRequest) -> bool {
    &&& a.exchange@ == EXCHANGE_NAME_FLIGHTPLAN@
    &&& a.routing_key@ == ROUTING_KEY_CARGO@
    &&& a.payload@ == request.data@
}

/// The announcement of a submission's outcome: the plan's data goes to the
/// cargo routing key of the flight plan exchange when the plan was accepted,
/// and nothing is announced otherwise.
pub fn cargo_announcement(request: &FlightPlanRequest, response: &FlightPlanResponse) -> (r: Option<Announcement>)
    ensures
        response.submitted <==> r is Some,
        r matches Some(a) ==> announces(a, *request),
{
    if response.submitted {
        Some(Announcement {
            exchange: String::from_str(EXCHANGE_NAME_FLIGHTPLAN),
            routing_key: String::from_str(ROUTING_KEY_CARGO),
            payload: request.data.clone(),
        })
    } else {
        None
    }
}

/// What handling a submission yields: the strategy's result, unchanged, and
/// the announcement to publish with the step its publish takes.
pub struct Submission {
    /// The strategy's result.
    pub result: Result<FlightPlanResponse, StrategyError>,
    /// The announcement of an accepted plan and how it is published.
    pub announcement: Option<(Announcement, PublishStep)>,
}

/// The RPC endpoints. The only way to build one resolves the jurisdiction,
/// so a gateway with a missing or unknown jurisdiction never exists.
pub struct ComplianceImpl {
    region: RegionImpl,
    policy: PublishPolicy,
}

impl ComplianceImpl {
    /// The jurisdiction whose strategy answers requests.
    pub closed spec fn region(&self) -> RegionImpl {
        self.region
    }

    /// The publish policy in force.
    pub closed spec fn policy(&self) -> PublishPolicy {
        self.policy
    }

    /// Resolves the jurisdiction once, from the configured selector, and
    /// fixes the publish policy. A missing or unknown jurisdiction is a
    /// fatal configuration error.
    pub fn new(selector: Option<String>, policy: PublishPolicy) -> (r: Result<ComplianceImpl, ConfigurationError>)
        ensures
            match selector {
                None => r == Err::<ComplianceImpl, ConfigurationError>(ConfigurationError::MissingRegion),
                Some(code) => match region_for(code@) {
                    None => r == Err::<ComplianceImpl, ConfigurationError>(ConfigurationError::UnknownRegion),
                    Some(region) => r matches Ok(c) && c.region() == region && c.policy() == policy,
                },
            },
    {
        match &selector {
            Some(code) => match get_region_impl(code.as_str()) {
                Ok(region) => Ok(ComplianceImpl { region, policy }),
                Err(e) => Err(e),
            },
            None => Err(ConfigurationError::MissingRegion),
        }
    }

    /// The jurisdiction whose strategy answers requests.
    pub fn get_region(&self) -> (r: RegionImpl)
        ensures
            r == self.region(),
    {
        self.region
    }

    /// Always ready once built.
    pub fn is_ready(&self, request: QueryIsReady) -> (r: ReadyResponse)
        ensures
            r.ready,
    {
        ReadyResponse { ready: true }
    }

    /// Hands the submission to the jurisdiction's strategy and returns its
    /// result unchanged.
    pub fn submit_flight_plan(&self, request: FlightPlanRequest) -> (r: Result<FlightPlanResponse, StrategyError>)
        ensures
            r == self.region().submit_result(request),
    {
        self.region.submit_flight_plan(request)
    }

    /// Hands the release request to the jurisdiction's strategy and returns
    /// its result unchanged.
    pub fn request_flight_release(&self, request: FlightReleaseRequest) -> (r: Result<FlightReleaseResponse, StrategyError>)
        ensures
            r == self.region().release_result(request),
    {
        self.region.request_flight_release(request)
    }

    /// How a publish proceeds under this gateway's policy.
    pub fn publish_step(&self, channel_open: bool) -> (r: PublishStep)
        ensures
            r == self.policy().plan_spec(channel_open),
    {
        self.policy.plan(channel_open)
    }

    /// Handles a submission: the strategy's result, and for an accepted plan
    /// its announcement with the step its publish takes.
    pub fn submit_and_announce(&self, request: FlightPlanRequest, channel_open: bool) -> (r: Submission)
        ensures
            r.result == self.region().submit_result(request),
            (r.result matches Ok(response) && response.submitted) <==> r.announcement is Some,
            r.announcement matches Some(pair) ==> announces(pair.0, request)
                && pair.1 == self.policy().plan_spec(channel_open),
    {
        let copy = FlightPlanRequest {
            flight_plan_id: request.flight_plan_id.clone(),
            data: request.data.clone(),
        };
        let result = self.region.submit_flight_plan(copy);
        let announcement = match &result {
            Ok(response) => match cargo_announcement(&request, response) {
                Some(a) => Some((a, self.policy.plan(channel_open))),
                None => None,
            },
            Err(_) => None,
        };
        Submission { result, announcement }
    }
}

/// Under the stand-in jurisdiction with the no-op publish policy, every
/// submission is accepted and its announcement is skipped: the publish
/// succeeds at once, with or without a channel, and no broker call is made.
pub proof fn lemma_stub_submission_never_waits_on_broker(
    gateway: ComplianceImpl,
    request: FlightPlanRequest,
    channel_open: bool,
)
    requires
        gateway.region() is Stub,
        gateway.policy() == PublishPolicy::NoOp,
    ensures
        gateway.region().submit_result(request) matches Ok(response) && response.submitted
            && response.flight_plan_id@ == request.flight_plan_id@,
        gateway.policy().plan_spec(channel_open) == PublishStep::Skip,
        PublishStep::Skip.outcome_spec(None) == Ok::<(), AMQPError>(()),
{
}

} // verus!
