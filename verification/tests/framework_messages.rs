use siri_rs::framework::{
    CapabilityRequestPolicy, CheckStatusResponse, ConnectionLinkPermissionItem,
    ConnectionLinkPermissions, ConnectionServicePermission, CoordinateFormat, ErrorCodeDetail,
    ErrorCondition, HeartbeatNotification, LinePermission, LinePermissionItem, LinePermissions,
    LinesRequest, LinesScope, OperatorPermission, OperatorPermissionItem, OperatorPermissions,
    PermissionScope, ServiceRequestError, SituationExchangeCapabilitiesResponse,
    SituationExchangePermission, SituationExchangeServiceCapabilities, Siri, SiriPayload,
    StatusError, StatusResponse, StopPointsRequest, StopPointsScope, SubscriptionRequestPayload,
    SubscriptionResponse, TerminateSubscriptionRequest, TerminationScope,
};
use siri_rs::model::{DirectionRef, LineDirection, LineRef, OperatorRef, PlaceRef};
use siri_rs::pt::{ProductionTimetableRequest, ProductionTimetableSubscriptionRequest};
use siri_rs::types::{DateTime, Empty, ParticipantRef, SubscriptionQualifier, SubscriptionRef};

fn at(seconds: i64) -> DateTime {
    DateTime::new(seconds, 0, -5 * 3600).expect("a valid timestamp")
}

#[test]
fn per_line_permissions_keep_the_lines_in_order_and_no_blanket_entry() {
    let permissions = LinePermissions::per_line(vec![
        LinePermission {
            allow: true,
            line_ref: LineRef::new("Line564"),
            direction_ref: vec![DirectionRef::new("NORTH")],
        },
        LinePermission {
            allow: false,
            line_ref: LineRef::new("Line565"),
            direction_ref: Vec::new(),
        },
    ]);
    assert_eq!(permissions.items.len(), 2);
    assert!(matches!(&permissions.items[0], LinePermissionItem::LinePermission(p)
        if p.line_ref.as_str() == "Line564" && p.direction_ref[0].as_str() == "NORTH"));
    assert!(matches!(&permissions.items[1], LinePermissionItem::LinePermission(p)
        if p.line_ref.as_str() == "Line565" && !p.allow));
    assert!(!permissions
        .items
        .iter()
        .any(|item| matches!(item, LinePermissionItem::AllowAll(_))));
}

#[test]
fn per_operator_and_per_link_permissions_wrap_each_entry() {
    let operators = OperatorPermissions::per_operator(vec![OperatorPermission {
        allow: true,
        operator_ref: OperatorRef::new("OP1"),
    }]);
    assert!(matches!(&operators.items[..], [OperatorPermissionItem::OperatorPermission(p)]
        if p.operator_ref.as_str() == "OP1"));
    assert_eq!(ConnectionLinkPermissions::per_link(Vec::new()).items.len(), 0);
}

#[test]
fn a_blanket_permission_is_one_allow_all_entry() {
    assert_eq!(OperatorPermissions::allow_all().items, vec![OperatorPermissionItem::AllowAll(true)]);
    assert_eq!(LinePermissions::allow_all().items, vec![LinePermissionItem::AllowAll(true)]);
    assert_eq!(
        ConnectionLinkPermissions::allow_all().items,
        vec![ConnectionLinkPermissionItem::AllowAll(true)]
    );
}

#[test]
fn a_timetable_permission_for_everybody_allows_every_operator_line_and_link() {
    let permission = ConnectionServicePermission::for_all_participants();
    assert_eq!(permission.scope, PermissionScope::AllParticipants(Empty));
    assert_eq!(permission.general_capabilities, None);
    assert_eq!(permission.operator_permissions, OperatorPermissions::allow_all());
    assert_eq!(permission.line_permissions, LinePermissions::allow_all());
    assert_eq!(
        permission.connection_link_permissions,
        ConnectionLinkPermissions::allow_all()
    );
}

#[test]
fn a_permission_names_the_participant_it_applies_to() {
    let everybody = SituationExchangePermission::for_all_participants(
        OperatorPermissions::allow_all(),
        LinePermissions::allow_all(),
    );
    assert_eq!(everybody.scope, PermissionScope::AllParticipants(Empty::new()));
    let nader = SituationExchangePermission::for_participant(
        ParticipantRef::new("NADER"),
        OperatorPermissions::allow_all(),
        LinePermissions::allow_all(),
    );
    assert_eq!(nader.scope, PermissionScope::ParticipantRef(ParticipantRef::new("NADER")));
}

#[test]
fn a_request_policy_in_one_language_uses_decimal_degrees() {
    let policy = CapabilityRequestPolicy::in_language("en-uk".to_owned());
    assert_eq!(policy.national_language, ["en-uk"]);
    assert_eq!(policy.translations, None);
    assert_eq!(policy.coordinate_format, CoordinateFormat::WgsDecimalDegrees(Empty));
}

#[test]
fn a_new_capabilities_response_reports_success_until_told_otherwise() {
    let mut response = SituationExchangeCapabilitiesResponse::new(
        at(1_008_602_047),
        SituationExchangeServiceCapabilities::default(),
    );
    assert_eq!(response.status, Some(true));
    assert!(response.is_success());
    response.status = None;
    assert!(response.is_success());
    response.status = Some(false);
    assert!(!response.is_success());
}

#[test]
fn a_healthy_status_reports_health_and_when_the_service_started() {
    let response = CheckStatusResponse::healthy(
        at(1_103_293_847),
        ParticipantRef::new("KUBRICK"),
        at(1_103_200_000),
    );
    assert!(response.is_healthy());
    assert_eq!(response.service_started_time, Some(at(1_103_200_000)));
    assert_eq!(response.producer_ref, Some(ParticipantRef::new("KUBRICK")));

    let heartbeat = HeartbeatNotification::healthy(
        at(1_103_293_847),
        ParticipantRef::new("KUBRICK"),
        at(1_103_200_000),
    );
    assert_eq!(heartbeat.status, Some(true));
}

#[test]
fn a_subscription_response_is_all_accepted_only_when_no_status_refuses() {
    let accepted = StatusResponse::accepted(at(10), SubscriptionRef::new("0000456"));
    let refused = StatusResponse::refused(
        at(10),
        SubscriptionRef::new("0000457"),
        ErrorCondition::with_description(
            ServiceRequestError::OtherError(ErrorCodeDetail::default()),
            "not today".to_owned(),
        ),
    );
    assert!(accepted.is_accepted());
    assert!(!refused.is_accepted());
    assert_eq!(refused.subscription_ref, SubscriptionRef::new("0000457"));
    assert_eq!(refused.error_condition.as_ref().unwrap().description.as_deref(), Some("not today"));

    let responder = ParticipantRef::new("KUBRICK");
    assert!(SubscriptionResponse::new(at(10), responder.clone(), vec![accepted.clone()]).all_accepted());
    assert!(SubscriptionResponse::new(at(10), responder.clone(), Vec::new()).all_accepted());
    assert!(!SubscriptionResponse::new(at(10), responder, vec![accepted, refused]).all_accepted());
}

#[test]
fn a_termination_request_reports_what_it_closes() {
    let requestor = ParticipantRef::new("NADER");
    let all = TerminateSubscriptionRequest::all(at(20), requestor.clone());
    assert_eq!(all.scope(), Some(TerminationScope::All));

    let named = TerminateSubscriptionRequest::subscriptions(
        at(20),
        requestor.clone(),
        vec![SubscriptionQualifier::new("0000456")],
    );
    assert!(matches!(named.scope(), Some(TerminationScope::Subscriptions([only]))
        if only.as_str() == "0000456"));

    let none = TerminateSubscriptionRequest::subscriptions(at(20), requestor, Vec::new());
    assert_eq!(none.scope(), None);
}

#[test]
fn a_discovery_request_reports_the_area_it_narrows_to() {
    let mut stops = StopPointsRequest::new(at(30), ParticipantRef::new("NADER"));
    assert_eq!(stops.scope(), None);
    stops.place_ref = Some(PlaceRef::new("PLace45"));
    assert!(matches!(stops.scope(), Some(StopPointsScope::Place(place)) if place.as_str() == "PLace45"));

    let mut lines = LinesRequest::new(at(30), ParticipantRef::new("NADER"));
    assert_eq!(lines.scope(), None);
    lines.line_direction_ref = Some(LineDirection::with_direction(
        LineRef::new("Line564"),
        DirectionRef::new("NORTH"),
    ));
    assert!(matches!(lines.scope(), Some(LinesScope::LineDirection(line))
        if line.direction_ref.as_ref().unwrap().as_str() == "NORTH"));
    lines.place_ref = Some(PlaceRef::new("PLace45"));
    assert!(matches!(lines.scope(), Some(LinesScope::Place(_))));
}

#[test]
fn an_envelope_hands_back_the_message_it_wraps() {
    let heartbeat = HeartbeatNotification::healthy(at(40), ParticipantRef::new("KUBRICK"), at(0));
    let document = Siri::new("2.0".to_owned(), SiriPayload::from(heartbeat.clone()));
    assert_eq!(document.version.as_deref(), Some("2.0"));
    assert_eq!(document.extensions, None);
    assert_eq!(document.payload.as_heartbeat_notification(), Some(&heartbeat));
    assert_eq!(document.payload.as_check_status_response(), None);
    assert_eq!(document.payload.as_service_request(), None);
}

#[test]
fn a_subscription_payload_is_named_by_the_subscribers_identifier() {
    let request = ProductionTimetableSubscriptionRequest::new(
        SubscriptionQualifier::new("0000456"),
        at(50),
        ProductionTimetableRequest::new(at(50)),
    );
    let payload = SubscriptionRequestPayload::from(request);
    assert_eq!(payload.subscription_identifier().as_str(), "0000456");
}

#[test]
fn an_error_condition_carries_its_code_and_optional_description() {
    let plain = ErrorCondition::new(StatusError::OtherError(ErrorCodeDetail::default()));
    assert_eq!(plain.description, None);
    let described = ErrorCondition::with_description(
        StatusError::OtherError(ErrorCodeDetail { number: Some(7), error_text: None }),
        "down for maintenance".to_owned(),
    );
    assert_eq!(described.description.as_deref(), Some("down for maintenance"));
    assert!(matches!(described.code, StatusError::OtherError(ErrorCodeDetail { number: Some(7), .. })));
}
