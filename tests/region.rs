use svc_compliance::amqp::{PublishPolicy, PublishStep};
use svc_compliance::compliance::{cargo_announcement, ComplianceImpl};
use svc_compliance::messages::{FlightPlanRequest, FlightReleaseRequest, QueryIsReady};
use svc_compliance::region::{
    get_region_impl, str_equals, ConfigurationError, NEImpl, RegionImpl, StrategyError, StubImpl,
    USImpl,
};

fn plan(id: &str, data: &str) -> FlightPlanRequest {
    FlightPlanRequest { flight_plan_id: id.to_string(), data: data.to_string() }
}

fn release(id: &str, data: &str) -> FlightReleaseRequest {
    FlightReleaseRequest { flight_plan_id: id.to_string(), data: data.to_string() }
}

#[test]
fn supported_codes_resolve() {
    assert_eq!(get_region_impl("us"), Ok(RegionImpl::Us(USImpl {})));
    assert_eq!(get_region_impl("ne"), Ok(RegionImpl::Ne(NEImpl {})));
    assert_eq!(get_region_impl("stub"), Ok(RegionImpl::Stub(StubImpl {})));
}

#[test]
fn unknown_codes_are_configuration_errors() {
    for code in ["nl", "", "US", "u", "usa", "stubs", "n\u{e9}"] {
        assert_eq!(get_region_impl(code), Err(ConfigurationError::UnknownRegion));
        assert!(matches!(
            ComplianceImpl::new(Some(code.to_string()), PublishPolicy::Strict),
            Err(ConfigurationError::UnknownRegion)
        ));
    }
}

#[test]
fn missing_selector_is_configuration_error() {
    assert!(matches!(
        ComplianceImpl::new(None, PublishPolicy::Strict),
        Err(ConfigurationError::MissingRegion)
    ));
    assert!(matches!(
        ComplianceImpl::new(None, PublishPolicy::NoOp),
        Err(ConfigurationError::MissingRegion)
    ));
}

#[test]
fn us_selector_resolves_us_region() {
    let gateway = ComplianceImpl::new(Some("us".to_string()), PublishPolicy::Strict).ok().unwrap();
    assert_eq!(gateway.get_region(), RegionImpl::Us(USImpl {}));
}

#[test]
fn string_comparison() {
    assert!(str_equals("", ""));
    assert!(str_equals("stub", "stub"));
    assert!(!str_equals("stub", "stuB"));
    assert!(!str_equals("ne", "nee"));
}

#[test]
fn unimplemented_regions_answer_not_implemented() {
    for code in ["us", "ne"] {
        let gateway = ComplianceImpl::new(Some(code.to_string()), PublishPolicy::NoOp).ok().unwrap();
        assert_eq!(gateway.submit_flight_plan(plan("FP-1", "{}")), Err(StrategyError::NotImplemented));
        assert_eq!(
            gateway.request_flight_release(release("FP-1", "{}")),
            Err(StrategyError::NotImplemented)
        );
    }
}

#[test]
fn stub_submission_is_accepted_without_blocking_on_broker() {
    let gateway = ComplianceImpl::new(Some("stub".to_string()), PublishPolicy::NoOp).ok().unwrap();
    let request = plan("FP-1", "{}");
    let response = gateway.submit_flight_plan(request.clone()).unwrap();
    assert_eq!(response.flight_plan_id, "FP-1");
    assert!(response.submitted);
    assert_eq!(response.result, None);
    let announcement = cargo_announcement(&request, &response).unwrap();
    assert_eq!(announcement.exchange, "flightplan");
    assert_eq!(announcement.routing_key, "cargo");
    assert_eq!(announcement.payload, "{}");
    assert_eq!(gateway.publish_step(false), PublishStep::Skip);
    assert_eq!(gateway.publish_step(true), PublishStep::Skip);
}

#[test]
fn stub_submission_with_announcement() {
    let gateway = ComplianceImpl::new(Some("stub".to_string()), PublishPolicy::NoOp).ok().unwrap();
    let handled = gateway.submit_and_announce(plan("FP-1", "{}"), true);
    let response = handled.result.unwrap();
    assert!(response.submitted);
    assert_eq!(response.flight_plan_id, "FP-1");
    let (announcement, step) = handled.announcement.unwrap();
    assert_eq!(announcement.payload, "{}");
    assert_eq!(announcement.exchange, "flightplan");
    assert_eq!(step, PublishStep::Skip);

    let strict = ComplianceImpl::new(Some("stub".to_string()), PublishPolicy::Strict).ok().unwrap();
    let (_, step) = strict.submit_and_announce(plan("FP-2", "{}"), true).announcement.unwrap();
    assert_eq!(step, PublishStep::Send);
    let (_, step) = strict.submit_and_announce(plan("FP-2", "{}"), false).announcement.unwrap();
    assert_eq!(step, PublishStep::Fail { error: svc_compliance::amqp::AMQPError::InvalidChannelState });
}

#[test]
fn unimplemented_submission_announces_nothing() {
    let gateway = ComplianceImpl::new(Some("ne".to_string()), PublishPolicy::Strict).ok().unwrap();
    let handled = gateway.submit_and_announce(plan("FP-1", "{}"), true);
    assert_eq!(handled.result, Err(StrategyError::NotImplemented));
    assert!(handled.announcement.is_none());
}

#[test]
fn release_under_unimplemented_region_is_not_implemented() {
    let gateway = ComplianceImpl::new(Some("ne".to_string()), PublishPolicy::Strict).ok().unwrap();
    let result = gateway.request_flight_release(release("FP-1", "{}"));
    assert_eq!(result, Err(StrategyError::NotImplemented));
}

#[test]
fn stub_release_is_granted() {
    let gateway = ComplianceImpl::new(Some("stub".to_string()), PublishPolicy::NoOp).ok().unwrap();
    let response = gateway.request_flight_release(release("FP-2", "{\"a\":1}")).unwrap();
    assert_eq!(response.flight_plan_id, "FP-2");
    assert!(response.released);
    assert_eq!(response.result, None);
}

#[test]
fn rejected_plans_are_not_announced() {
    let request = plan("FP-3", "{}");
    let response = svc_compliance::messages::FlightPlanResponse {
        flight_plan_id: "FP-3".to_string(),
        submitted: false,
        result: Some("rejected".to_string()),
    };
    assert!(cargo_announcement(&request, &response).is_none());
}

#[test]
fn gateway_is_ready() {
    let gateway = ComplianceImpl::new(Some("ne".to_string()), PublishPolicy::Strict).ok().unwrap();
    assert!(gateway.is_ready(QueryIsReady {}).ready);
}
