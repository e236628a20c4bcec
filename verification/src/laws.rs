//! What holds across the library's functions: an accessor that reports which
//! alternative of a schema choice a value carries reports the one the value was
//! built with, a status flag reads as the constructor that set it meant it, and a
//! message wrapped in the envelope is handed back unchanged.
//!
//! Every law is stated over the functions themselves: `call_ensures(f, args, r)`
//! says that `r` is a result `f` may return for `args`.

use crate::framework::{
    CheckStatusResponse, ErrorCondition, HeartbeatNotification, LinesRequest, LinesScope,
    ServiceRequestError, SituationExchangeCapabilitiesResponse,
    SituationExchangeServiceCapabilities, SiriPayload, StatusResponse, StopPointsRequest,
    StopPointsScope, SubscriptionRequestPayload, SubscriptionResponse,
    TerminateSubscriptionRequest, TerminationScope,
};
use crate::gm::{GeneralMessageCapabilitiesResponse, GeneralMessageServiceCapabilities};
use crate::model::{
    BoardingPositionRef, BoundingBox, CircularArea, DatedVehicleJourneyRef, DirectionRef,
    EstimatedCall, EstimatedVehicleJourney, Facility, FacilityCondition, FacilityRef,
    FacilityStatus, FacilitySubject, FlexibleArea, FlexibleShape, FormationCondition,
    FormationConditionStatus, FormationStatus, JourneyAlteration, JourneyIdentity,
    JourneyRelation, JourneyRelationScope, LineRef, Location, PlannedStopAssignment, Polygon,
    Position, QuayRef, RelatedJourney, StandingPlace, StopAssignment, StopPointRef,
    VehicleInFormationStatusRecord, CallAlteration,
};
use crate::enumerations::JourneyRelationType;
use crate::pt::{
    ProductionTimetableCapabilitiesResponse, ProductionTimetableServiceCapabilities,
    ProductionTimetableSubscriptionRequest,
};
use crate::types::{
    status_or_default, Binary64, DateTime, ParticipantRef, SubscriptionQualifier, SubscriptionRef,
};
use crate::model::DatedVehicleJourney;
use crate::pt::{DatedTimetableVersionFrame, ProductionTimetableDelivery};
use vstd::prelude::*;

verus! {

/// A condition made for a facility the consumer knows by reference reports that
/// reference as its subject.
pub proof fn law_condition_for_reference_reports_the_reference(
    facility_ref: FacilityRef,
    facility_status: FacilityStatus,
)
    ensures
        forall|condition: FacilityCondition|
            call_ensures(
                FacilityCondition::for_reference,
                (facility_ref, facility_status),
                condition,
            ) ==> forall|subject: Option<FacilitySubject>|
                call_ensures(FacilityCondition::subject, (&condition,), subject) ==> subject
                    == Some(FacilitySubject::Reference(&facility_ref)),
{
}

/// A condition made for a facility described in place reports that description
/// as its subject.
pub proof fn law_condition_for_facility_reports_the_facility(
    facility: Facility,
    facility_status: FacilityStatus,
)
    ensures
        forall|condition: FacilityCondition|
            call_ensures(FacilityCondition::for_facility, (facility, facility_status), condition)
                ==> forall|subject: Option<FacilitySubject>|
                call_ensures(FacilityCondition::subject, (&condition,), subject) ==> subject
                    == Some(FacilitySubject::Facility(&facility)),
{
}

/// An area drawn as a rectangle reports the rectangle as its shape.
pub proof fn law_area_drawn_as_a_box_reports_the_box(bounding_box: BoundingBox)
    ensures
        forall|area: FlexibleArea|
            call_ensures(FlexibleArea::bounding_box, (bounding_box,), area) ==> forall|
                shape: Option<FlexibleShape>,
            |
                call_ensures(FlexibleArea::shape, (&area,), shape) ==> shape == Some(
                    FlexibleShape::BoundingBox(&bounding_box),
                ),
{
}

/// An area drawn as a circle reports the circle as its shape.
pub proof fn law_area_drawn_as_a_circle_reports_the_circle(circular_area: CircularArea)
    ensures
        forall|area: FlexibleArea|
            call_ensures(FlexibleArea::circular_area, (circular_area,), area) ==> forall|
                shape: Option<FlexibleShape>,
            |
                call_ensures(FlexibleArea::shape, (&area,), shape) ==> shape == Some(
                    FlexibleShape::CircularArea(&circular_area),
                ),
{
}

/// An area drawn as a polygon reports the polygon as its shape.
pub proof fn law_area_drawn_as_a_polygon_reports_the_polygon(polygon: Polygon)
    ensures
        forall|area: FlexibleArea|
            call_ensures(FlexibleArea::polygon, (polygon,), area) ==> forall|
                shape: Option<FlexibleShape>,
            |
                call_ensures(FlexibleArea::shape, (&area,), shape) ==> shape == Some(
                    FlexibleShape::Polygon(&polygon),
                ),
{
}

/// A location given in WGS 84 degrees reports those degrees, with no altitude.
pub proof fn law_wgs84_location_reports_its_degrees(longitude: Binary64, latitude: Binary64)
    ensures
        forall|location: Location|
            call_ensures(Location::wgs84, (longitude, latitude), location) ==> forall|
                position: Option<Position>,
            |
                call_ensures(Location::position, (&location,), position) ==> position == Some(
                    Position::Wgs84 { longitude, latitude, altitude: None },
                ),
{
}

/// A location given as a projected coordinate list reports that list.
pub proof fn law_projected_location_reports_its_coordinates(
    srs_name: String,
    coordinates: String,
)
    ensures
        forall|location: Location|
            call_ensures(Location::coordinates, (srs_name, coordinates), location) ==> forall|
                position: Option<Position>,
            |
                call_ensures(Location::position, (&location,), position) ==> (position matches Some(
                    Position::Coordinates(list),
                ) && list@ == coordinates@),
{
}

/// A request to close every subscription reports that it closes them all.
pub proof fn law_terminate_all_reports_all(
    request_timestamp: DateTime,
    requestor_ref: ParticipantRef,
)
    ensures
        forall|request: TerminateSubscriptionRequest|
            call_ensures(TerminateSubscriptionRequest::all, (request_timestamp, requestor_ref), request)
                ==> forall|scope: Option<TerminationScope>|
                call_ensures(TerminateSubscriptionRequest::scope, (&request,), scope) ==> scope
                    == Some(TerminationScope::All),
{
}

/// A request to close named subscriptions reports the names it was given, as long
/// as it was given at least one; given none it names no subscription at all.
pub proof fn law_terminate_named_reports_the_names(
    request_timestamp: DateTime,
    requestor_ref: ParticipantRef,
    subscription_ref: Vec<SubscriptionQualifier>,
)
    ensures
        forall|request: TerminateSubscriptionRequest|
            call_ensures(
                TerminateSubscriptionRequest::subscriptions,
                (request_timestamp, requestor_ref, subscription_ref),
                request,
            ) ==> forall|scope: Option<TerminationScope>|
                call_ensures(TerminateSubscriptionRequest::scope, (&request,), scope) ==> if subscription_ref@.len()
                    == 0 {
                    scope is None
                } else {
                    scope matches Some(TerminationScope::Subscriptions(named)) && named@
                        == subscription_ref@
                },
{
}

/// A journey made from a timetabled run names that run, and neither adds nor
/// cancels one.
pub proof fn law_dated_journey_names_its_run(
    line_ref: LineRef,
    direction_ref: DirectionRef,
    dated_vehicle_journey_ref: DatedVehicleJourneyRef,
)
    ensures
        forall|journey: EstimatedVehicleJourney|
            call_ensures(
                EstimatedVehicleJourney::dated,
                (line_ref, direction_ref, dated_vehicle_journey_ref),
                journey,
            ) ==> {
                &&& forall|identity: Option<JourneyIdentity>|
                    call_ensures(EstimatedVehicleJourney::identity, (&journey,), identity)
                        ==> identity == Some(JourneyIdentity::Dated(&dated_vehicle_journey_ref))
                &&& forall|alteration: Option<JourneyAlteration>|
                    call_ensures(EstimatedVehicleJourney::alteration, (&journey,), alteration)
                        ==> alteration is None
            },
{
}

/// Cancelling a journey that is not an extra run makes it report a cancellation;
/// an extra run keeps reporting that it is extra.
pub proof fn law_cancelled_journey_reports_the_cancellation(journey: EstimatedVehicleJourney)
    ensures
        forall|cancelled: EstimatedVehicleJourney|
            call_ensures(EstimatedVehicleJourney::cancelled, (journey,), cancelled) ==> forall|
                alteration: Option<JourneyAlteration>,
            |
                call_ensures(EstimatedVehicleJourney::alteration, (&cancelled,), alteration)
                    ==> alteration == if journey.extra_journey == Some(true) {
                    Some(JourneyAlteration::Extra)
                } else {
                    Some(JourneyAlteration::Cancelled)
                },
{
}

/// A call made at a stop is neither added nor skipped until it is cancelled, and
/// then it is skipped.
pub proof fn law_cancelled_call_reports_the_skip(stop_point_ref: StopPointRef)
    ensures
        forall|call: EstimatedCall|
            call_ensures(EstimatedCall::at, (stop_point_ref,), call) ==> {
                &&& forall|alteration: Option<CallAlteration>|
                    call_ensures(EstimatedCall::alteration, (&call,), alteration)
                        ==> alteration is None
                &&& forall|cancelled: EstimatedCall|
                    call_ensures(EstimatedCall::cancelled, (call,), cancelled) ==> forall|
                        alteration: Option<CallAlteration>,
                    |
                        call_ensures(EstimatedCall::alteration, (&cancelled,), alteration)
                            ==> alteration == Some(CallAlteration::Cancelled)
            },
{
}

/// A formation condition reports the change it was made with: the formation as a
/// whole, or one vehicle within it.
pub proof fn law_formation_condition_reports_its_change(
    formation: FormationStatus,
    vehicle: VehicleInFormationStatusRecord,
)
    ensures
        forall|condition: FormationCondition|
            call_ensures(FormationCondition::formation, (formation,), condition) ==> forall|
                status: Option<FormationConditionStatus>,
            |
                call_ensures(FormationCondition::status, (&condition,), status) ==> status
                    == Some(FormationConditionStatus::Formation(&formation)),
        forall|condition: FormationCondition|
            call_ensures(FormationCondition::vehicle, (vehicle,), condition) ==> forall|
                status: Option<FormationConditionStatus>,
            |
                call_ensures(FormationCondition::status, (&condition,), status) ==> status
                    == Some(FormationConditionStatus::Vehicle(&vehicle)),
{
}

/// A journey relation made from its type and journeys alone takes effect at no
/// particular call or part.
pub proof fn law_new_journey_relation_has_no_scope(
    journey_relation_type: JourneyRelationType,
    related_journey: Vec<RelatedJourney>,
)
    ensures
        forall|relation: JourneyRelation|
            call_ensures(JourneyRelation::new, (journey_relation_type, related_journey), relation)
                ==> forall|scope: Option<JourneyRelationScope>|
                call_ensures(JourneyRelation::scope, (&relation,), scope) ==> scope is None,
{
}

/// A stop assignment reports the kind of place it was made for.
pub proof fn law_stop_assignment_reports_its_place(
    quay: QuayRef,
    boarding_position: BoardingPositionRef,
)
    ensures
        forall|assignment: StopAssignment|
            call_ensures(StopAssignment::at_quay, (quay,), assignment) ==> forall|
                place: Option<StandingPlace>,
            |
                call_ensures(StopAssignment::place, (&assignment,), place) ==> place == Some(
                    StandingPlace::Quay,
                ),
        forall|assignment: StopAssignment|
            call_ensures(StopAssignment::at_boarding_position, (boarding_position,), assignment)
                ==> forall|place: Option<StandingPlace>|
                call_ensures(StopAssignment::place, (&assignment,), place) ==> place == Some(
                    StandingPlace::BoardingPosition,
                ),
        forall|assignment: PlannedStopAssignment|
            call_ensures(PlannedStopAssignment::at_quay, (quay,), assignment) ==> forall|
                place: Option<StandingPlace>,
            |
                call_ensures(PlannedStopAssignment::place, (&assignment,), place) ==> place
                    == Some(StandingPlace::Quay),
{
}

/// A discovery request made with only a timestamp and a requestor asks about
/// every stop, or every line.
pub proof fn law_new_discovery_requests_are_unscoped(
    request_timestamp: DateTime,
    requestor_ref: ParticipantRef,
)
    ensures
        forall|request: StopPointsRequest|
            call_ensures(StopPointsRequest::new, (request_timestamp, requestor_ref), request)
                ==> forall|scope: Option<StopPointsScope>|
                call_ensures(StopPointsRequest::scope, (&request,), scope) ==> scope is None,
        forall|request: LinesRequest|
            call_ensures(LinesRequest::new, (request_timestamp, requestor_ref), request)
                ==> forall|scope: Option<LinesScope>|
                call_ensures(LinesRequest::scope, (&request,), scope) ==> scope is None,
{
}

/// A capabilities response made with `new` reports that the request was processed.
pub proof fn law_new_capabilities_responses_report_success(
    response_timestamp: DateTime,
    situation_exchange: SituationExchangeServiceCapabilities,
    production_timetable: ProductionTimetableServiceCapabilities,
    general_message: GeneralMessageServiceCapabilities,
)
    ensures
        forall|response: SituationExchangeCapabilitiesResponse|
            call_ensures(
                SituationExchangeCapabilitiesResponse::new,
                (response_timestamp, situation_exchange),
                response,
            ) ==> forall|success: bool|
                call_ensures(SituationExchangeCapabilitiesResponse::is_success, (&response,), success)
                    ==> success,
        forall|response: ProductionTimetableCapabilitiesResponse|
            call_ensures(
                ProductionTimetableCapabilitiesResponse::new,
                (response_timestamp, production_timetable),
                response,
            ) ==> forall|success: bool|
                call_ensures(ProductionTimetableCapabilitiesResponse::is_success, (&response,), success)
                    ==> success,
        forall|response: GeneralMessageCapabilitiesResponse|
            call_ensures(
                GeneralMessageCapabilitiesResponse::new,
                (response_timestamp, general_message),
                response,
            ) ==> forall|success: bool|
                call_ensures(GeneralMessageCapabilitiesResponse::is_success, (&response,), success)
                    ==> success,
{
}

/// A healthy status response reports the service as healthy.
pub proof fn law_healthy_status_reports_health(
    response_timestamp: DateTime,
    producer_ref: ParticipantRef,
    service_started_time: DateTime,
)
    ensures
        forall|response: CheckStatusResponse|
            call_ensures(
                CheckStatusResponse::healthy,
                (response_timestamp, producer_ref, service_started_time),
                response,
            ) ==> forall|healthy: bool|
                call_ensures(CheckStatusResponse::is_healthy, (&response,), healthy) ==> healthy,
{
}

/// An accepted subscription status reads as accepted, a refused one as refused.
pub proof fn law_subscription_status_reads_as_it_was_set(
    response_timestamp: DateTime,
    subscription_ref: SubscriptionRef,
    error_condition: ErrorCondition<ServiceRequestError>,
)
    ensures
        forall|status: StatusResponse|
            call_ensures(StatusResponse::accepted, (response_timestamp, subscription_ref), status)
                ==> forall|accepted: bool|
                call_ensures(StatusResponse::is_accepted, (&status,), accepted) ==> accepted,
        forall|status: StatusResponse|
            call_ensures(
                StatusResponse::refused,
                (response_timestamp, subscription_ref, error_condition),
                status,
            ) ==> forall|accepted: bool|
                call_ensures(StatusResponse::is_accepted, (&status,), accepted) ==> !accepted,
{
}

/// A subscription response reports every subscription accepted exactly when each
/// status it was made with reads as accepted, i.e. states no `false`.
pub proof fn law_all_accepted_means_each_accepted(
    response_timestamp: DateTime,
    responder_ref: ParticipantRef,
    response_status: Vec<StatusResponse>,
)
    ensures
        forall|response: SubscriptionResponse|
            call_ensures(
                SubscriptionResponse::new,
                (response_timestamp, responder_ref, response_status),
                response,
            ) ==> forall|all: bool|
                call_ensures(SubscriptionResponse::all_accepted, (&response,), all) ==> (all
                    <==> forall|i: int|
                    0 <= i < response_status@.len() ==> #[trigger] response_status@[i].status
                        != Some(false)),
{
    assert forall|response: SubscriptionResponse, all: bool|
        call_ensures(
            SubscriptionResponse::new,
            (response_timestamp, responder_ref, response_status),
            response,
        ) && call_ensures(SubscriptionResponse::all_accepted, (&response,), all) implies (all
        <==> forall|i: int|
        0 <= i < response_status@.len() ==> #[trigger] response_status@[i].status != Some(
            false,
        )) by {
        assert(response.response_status@ == response_status@);
        assert forall|i: int| 0 <= i < response_status@.len() implies (status_or_default(
            response_status@[i].status,
        ) <==> response_status@[i].status != Some(false)) by {}
    }
}

/// A heartbeat wrapped in the envelope is handed back unchanged by the accessor
/// for heartbeats, and by no other.
pub proof fn law_envelope_hands_back_a_heartbeat(notification: HeartbeatNotification)
    ensures
        forall|payload: SiriPayload|
            call_ensures(
                <SiriPayload as From<HeartbeatNotification>>::from,
                (notification,),
                payload,
            ) ==> {
                &&& forall|inner: Option<&HeartbeatNotification>|
                    call_ensures(SiriPayload::as_heartbeat_notification, (&payload,), inner)
                        ==> inner == Some(&notification)
                &&& forall|inner: Option<&CheckStatusResponse>|
                    call_ensures(SiriPayload::as_check_status_response, (&payload,), inner)
                        ==> inner is None
            },
{
}

/// A subscription wrapped as a subscription request payload is named by the
/// identifier the subscriber gave it.
pub proof fn law_payload_names_its_subscription(
    request: ProductionTimetableSubscriptionRequest,
)
    ensures
        forall|payload: SubscriptionRequestPayload|
            call_ensures(
                <SubscriptionRequestPayload as From<ProductionTimetableSubscriptionRequest>>::from,
                (request,),
                payload,
            ) ==> forall|identifier: &SubscriptionQualifier|
                call_ensures(SubscriptionRequestPayload::subscription_identifier, (&payload,), identifier)
                    ==> *identifier == request.subscription_identifier,
{
}

/// Two timestamps naming the same instant are equal, whatever offsets they were
/// written in.
pub proof fn law_timestamps_compare_by_instant(
    seconds: i64,
    nanosecond: u32,
    first_offset: i32,
    second_offset: i32,
)
    ensures
        forall|first: Option<DateTime>, second: Option<DateTime>|
            call_ensures(DateTime::new, (seconds, nanosecond, first_offset), first) && call_ensures(
                DateTime::new,
                (seconds, nanosecond, second_offset),
                second,
            ) ==> (first matches Some(a) ==> second matches Some(b) ==> forall|same: bool|
                call_ensures(<DateTime as PartialEq>::eq, (&a, &b), same) ==> same),
{
}


// Wrapping a message and reading it back.

/// A `ServiceRequest` wrapped in the envelope's payload is handed back unchanged by the
/// accessor for its type.
pub proof fn law_payload_hands_back_a_service_request(message: crate::framework::ServiceRequest)
    ensures
        forall|payload: SiriPayload|
            call_ensures(<SiriPayload as From<crate::framework::ServiceRequest>>::from, (message,), payload)
                ==> forall|inner: Option<&crate::framework::ServiceRequest>|
                call_ensures(SiriPayload::as_service_request, (&payload,), inner) ==> inner == Some(
                    &message,
                ),
{
}

/// A `SubscriptionRequest` wrapped in the envelope's payload is handed back unchanged by the
/// accessor for its type.
pub proof fn law_payload_hands_back_a_subscription_request(message: crate::framework::SubscriptionRequest)
    ensures
        forall|payload: SiriPayload|
            call_ensures(<SiriPayload as From<crate::framework::SubscriptionRequest>>::from, (message,), payload)
                ==> forall|inner: Option<&crate::framework::SubscriptionRequest>|
                call_ensures(SiriPayload::as_subscription_request, (&payload,), inner) ==> inner == Some(
                    &message,
                ),
{
}

/// A `TerminateSubscriptionRequest` wrapped in the envelope's payload is handed back unchanged by the
/// accessor for its type.
pub proof fn law_payload_hands_back_a_terminate_subscription_request(message: crate::framework::TerminateSubscriptionRequest)
    ensures
        forall|payload: SiriPayload|
            call_ensures(<SiriPayload as From<crate::framework::TerminateSubscriptionRequest>>::from, (message,), payload)
                ==> forall|inner: Option<&crate::framework::TerminateSubscriptionRequest>|
                call_ensures(SiriPayload::as_terminate_subscription_request, (&payload,), inner) ==> inner == Some(
                    &message,
                ),
{
}

/// A `DataReadyNotification` wrapped in the envelope's payload is handed back unchanged by the
/// accessor for its type.
pub proof fn law_payload_hands_back_a_data_ready_notification(message: crate::framework::DataReadyNotification)
    ensures
        forall|payload: SiriPayload|
            call_ensures(<SiriPayload as From<crate::framework::DataReadyNotification>>::from, (message,), payload)
                ==> forall|inner: Option<&crate::framework::DataReadyNotification>|
                call_ensures(SiriPayload::as_data_ready_notification, (&payload,), inner) ==> inner == Some(
                    &message,
                ),
{
}

/// A `DataSupplyRequest` wrapped in the envelope's payload is handed back unchanged by the
/// accessor for its type.
pub proof fn law_payload_hands_back_a_data_supply_request(message: crate::framework::DataSupplyRequest)
    ensures
        forall|payload: SiriPayload|
            call_ensures(<SiriPayload as From<crate::framework::DataSupplyRequest>>::from, (message,), payload)
                ==> forall|inner: Option<&crate::framework::DataSupplyRequest>|
                call_ensures(SiriPayload::as_data_supply_request, (&payload,), inner) ==> inner == Some(
                    &message,
                ),
{
}

/// A `CheckStatusRequest` wrapped in the envelope's payload is handed back unchanged by the
/// accessor for its type.
pub proof fn law_payload_hands_back_a_check_status_request(message: crate::framework::CheckStatusRequest)
    ensures
        forall|payload: SiriPayload|
            call_ensures(<SiriPayload as From<crate::framework::CheckStatusRequest>>::from, (message,), payload)
                ==> forall|inner: Option<&crate::framework::CheckStatusRequest>|
                call_ensures(SiriPayload::as_check_status_request, (&payload,), inner) ==> inner == Some(
                    &message,
                ),
{
}

/// A `HeartbeatNotification` wrapped in the envelope's payload is handed back unchanged by the
/// accessor for its type.
pub proof fn law_payload_hands_back_a_heartbeat_notification(message: crate::framework::HeartbeatNotification)
    ensures
        forall|payload: SiriPayload|
            call_ensures(<SiriPayload as From<crate::framework::HeartbeatNotification>>::from, (message,), payload)
                ==> forall|inner: Option<&crate::framework::HeartbeatNotification>|
                call_ensures(SiriPayload::as_heartbeat_notification, (&payload,), inner) ==> inner == Some(
                    &message,
                ),
{
}

/// A `CapabilitiesRequest` wrapped in the envelope's payload is handed back unchanged by the
/// accessor for its type.
pub proof fn law_payload_hands_back_a_capabilities_request(message: crate::framework::CapabilitiesRequest)
    ensures
        forall|payload: SiriPayload|
            call_ensures(<SiriPayload as From<crate::framework::CapabilitiesRequest>>::from, (message,), payload)
                ==> forall|inner: Option<&crate::framework::CapabilitiesRequest>|
                call_ensures(SiriPayload::as_capabilities_request, (&payload,), inner) ==> inner == Some(
                    &message,
                ),
{
}

/// A `StopPointsRequest` wrapped in the envelope's payload is handed back unchanged by the
/// accessor for its type.
pub proof fn law_payload_hands_back_a_stop_points_request(message: crate::framework::StopPointsRequest)
    ensures
        forall|payload: SiriPayload|
            call_ensures(<SiriPayload as From<crate::framework::StopPointsRequest>>::from, (message,), payload)
                ==> forall|inner: Option<&crate::framework::StopPointsRequest>|
                call_ensures(SiriPayload::as_stop_points_request, (&payload,), inner) ==> inner == Some(
                    &message,
                ),
{
}

/// A `LinesRequest` wrapped in the envelope's payload is handed back unchanged by the
/// accessor for its type.
pub proof fn law_payload_hands_back_a_lines_request(message: crate::framework::LinesRequest)
    ensures
        forall|payload: SiriPayload|
            call_ensures(<SiriPayload as From<crate::framework::LinesRequest>>::from, (message,), payload)
                ==> forall|inner: Option<&crate::framework::LinesRequest>|
                call_ensures(SiriPayload::as_lines_request, (&payload,), inner) ==> inner == Some(
                    &message,
                ),
{
}

/// A `ServiceFeaturesRequest` wrapped in the envelope's payload is handed back unchanged by the
/// accessor for its type.
pub proof fn law_payload_hands_back_a_service_features_request(message: crate::framework::ServiceFeaturesRequest)
    ensures
        forall|payload: SiriPayload|
            call_ensures(<SiriPayload as From<crate::framework::ServiceFeaturesRequest>>::from, (message,), payload)
                ==> forall|inner: Option<&crate::framework::ServiceFeaturesRequest>|
                call_ensures(SiriPayload::as_service_features_request, (&payload,), inner) ==> inner == Some(
                    &message,
                ),
{
}

/// A `VehicleFeaturesRequest` wrapped in the envelope's payload is handed back unchanged by the
/// accessor for its type.
pub proof fn law_payload_hands_back_a_vehicle_features_request(message: crate::framework::VehicleFeaturesRequest)
    ensures
        forall|payload: SiriPayload|
            call_ensures(<SiriPayload as From<crate::framework::VehicleFeaturesRequest>>::from, (message,), payload)
                ==> forall|inner: Option<&crate::framework::VehicleFeaturesRequest>|
                call_ensures(SiriPayload::as_vehicle_features_request, (&payload,), inner) ==> inner == Some(
                    &message,
                ),
{
}

/// A `ProductCategoriesRequest` wrapped in the envelope's payload is handed back unchanged by the
/// accessor for its type.
pub proof fn law_payload_hands_back_a_product_categories_request(message: crate::framework::ProductCategoriesRequest)
    ensures
        forall|payload: SiriPayload|
            call_ensures(<SiriPayload as From<crate::framework::ProductCategoriesRequest>>::from, (message,), payload)
                ==> forall|inner: Option<&crate::framework::ProductCategoriesRequest>|
                call_ensures(SiriPayload::as_product_categories_request, (&payload,), inner) ==> inner == Some(
                    &message,
                ),
{
}

/// A `SubscriptionResponse` wrapped in the envelope's payload is handed back unchanged by the
/// accessor for its type.
pub proof fn law_payload_hands_back_a_subscription_response(message: crate::framework::SubscriptionResponse)
    ensures
        forall|payload: SiriPayload|
            call_ensures(<SiriPayload as From<crate::framework::SubscriptionResponse>>::from, (message,), payload)
                ==> forall|inner: Option<&crate::framework::SubscriptionResponse>|
                call_ensures(SiriPayload::as_subscription_response, (&payload,), inner) ==> inner == Some(
                    &message,
                ),
{
}

/// A `TerminateSubscriptionResponse` wrapped in the envelope's payload is handed back unchanged by the
/// accessor for its type.
pub proof fn law_payload_hands_back_a_terminate_subscription_response(message: crate::framework::TerminateSubscriptionResponse)
    ensures
        forall|payload: SiriPayload|
            call_ensures(<SiriPayload as From<crate::framework::TerminateSubscriptionResponse>>::from, (message,), payload)
                ==> forall|inner: Option<&crate::framework::TerminateSubscriptionResponse>|
                call_ensures(SiriPayload::as_terminate_subscription_response, (&payload,), inner) ==> inner == Some(
                    &message,
                ),
{
}

/// A `SubscriptionTerminatedNotification` wrapped in the envelope's payload is handed back unchanged by the
/// accessor for its type.
pub proof fn law_payload_hands_back_a_subscription_terminated_notification(message: crate::framework::SubscriptionTerminatedNotification)
    ensures
        forall|payload: SiriPayload|
            call_ensures(<SiriPayload as From<crate::framework::SubscriptionTerminatedNotification>>::from, (message,), payload)
                ==> forall|inner: Option<&crate::framework::SubscriptionTerminatedNotification>|
                call_ensures(SiriPayload::as_subscription_terminated_notification, (&payload,), inner) ==> inner == Some(
                    &message,
                ),
{
}

/// A `DataReadyAcknowledgement` wrapped in the envelope's payload is handed back unchanged by the
/// accessor for its type.
pub proof fn law_payload_hands_back_a_data_ready_acknowledgement(message: crate::framework::DataReadyAcknowledgement)
    ensures
        forall|payload: SiriPayload|
            call_ensures(<SiriPayload as From<crate::framework::DataReadyAcknowledgement>>::from, (message,), payload)
                ==> forall|inner: Option<&crate::framework::DataReadyAcknowledgement>|
                call_ensures(SiriPayload::as_data_ready_acknowledgement, (&payload,), inner) ==> inner == Some(
                    &message,
                ),
{
}

/// A `ServiceDelivery` wrapped in the envelope's payload is handed back unchanged by the
/// accessor for its type.
pub proof fn law_payload_hands_back_a_service_delivery(message: crate::framework::ServiceDelivery)
    ensures
        forall|payload: SiriPayload|
            call_ensures(<SiriPayload as From<crate::framework::ServiceDelivery>>::from, (message,), payload)
                ==> forall|inner: Option<&crate::framework::ServiceDelivery>|
                call_ensures(SiriPayload::as_service_delivery, (&payload,), inner) ==> inner == Some(
                    &message,
                ),
{
}

/// A `DataReceivedAcknowledgement` wrapped in the envelope's payload is handed back unchanged by the
/// accessor for its type.
pub proof fn law_payload_hands_back_a_data_received_acknowledgement(message: crate::framework::DataReceivedAcknowledgement)
    ensures
        forall|payload: SiriPayload|
            call_ensures(<SiriPayload as From<crate::framework::DataReceivedAcknowledgement>>::from, (message,), payload)
                ==> forall|inner: Option<&crate::framework::DataReceivedAcknowledgement>|
                call_ensures(SiriPayload::as_data_received_acknowledgement, (&payload,), inner) ==> inner == Some(
                    &message,
                ),
{
}

/// A `CheckStatusResponse` wrapped in the envelope's payload is handed back unchanged by the
/// accessor for its type.
pub proof fn law_payload_hands_back_a_check_status_response(message: crate::framework::CheckStatusResponse)
    ensures
        forall|payload: SiriPayload|
            call_ensures(<SiriPayload as From<crate::framework::CheckStatusResponse>>::from, (message,), payload)
                ==> forall|inner: Option<&crate::framework::CheckStatusResponse>|
                call_ensures(SiriPayload::as_check_status_response, (&payload,), inner) ==> inner == Some(
                    &message,
                ),
{
}

/// A `CapabilitiesResponse` wrapped in the envelope's payload is handed back unchanged by the
/// accessor for its type.
pub proof fn law_payload_hands_back_a_capabilities_response(message: crate::framework::CapabilitiesResponse)
    ensures
        forall|payload: SiriPayload|
            call_ensures(<SiriPayload as From<crate::framework::CapabilitiesResponse>>::from, (message,), payload)
                ==> forall|inner: Option<&crate::framework::CapabilitiesResponse>|
                call_ensures(SiriPayload::as_capabilities_response, (&payload,), inner) ==> inner == Some(
                    &message,
                ),
{
}

/// A `StopPointsDelivery` wrapped in the envelope's payload is handed back unchanged by the
/// accessor for its type.
pub proof fn law_payload_hands_back_a_stop_points_delivery(message: crate::framework::StopPointsDelivery)
    ensures
        forall|payload: SiriPayload|
            call_ensures(<SiriPayload as From<crate::framework::StopPointsDelivery>>::from, (message,), payload)
                ==> forall|inner: Option<&crate::framework::StopPointsDelivery>|
                call_ensures(SiriPayload::as_stop_points_delivery, (&payload,), inner) ==> inner == Some(
                    &message,
                ),
{
}

/// A `LinesDelivery` wrapped in the envelope's payload is handed back unchanged by the
/// accessor for its type.
pub proof fn law_payload_hands_back_a_lines_delivery(message: crate::framework::LinesDelivery)
    ensures
        forall|payload: SiriPayload|
            call_ensures(<SiriPayload as From<crate::framework::LinesDelivery>>::from, (message,), payload)
                ==> forall|inner: Option<&crate::framework::LinesDelivery>|
                call_ensures(SiriPayload::as_lines_delivery, (&payload,), inner) ==> inner == Some(
                    &message,
                ),
{
}

/// A `ServiceFeaturesDelivery` wrapped in the envelope's payload is handed back unchanged by the
/// accessor for its type.
pub proof fn law_payload_hands_back_a_service_features_delivery(message: crate::framework::ServiceFeaturesDelivery)
    ensures
        forall|payload: SiriPayload|
            call_ensures(<SiriPayload as From<crate::framework::ServiceFeaturesDelivery>>::from, (message,), payload)
                ==> forall|inner: Option<&crate::framework::ServiceFeaturesDelivery>|
                call_ensures(SiriPayload::as_service_features_delivery, (&payload,), inner) ==> inner == Some(
                    &message,
                ),
{
}

/// A `VehicleFeaturesDelivery` wrapped in the envelope's payload is handed back unchanged by the
/// accessor for its type.
pub proof fn law_payload_hands_back_a_vehicle_features_delivery(message: crate::framework::VehicleFeaturesDelivery)
    ensures
        forall|payload: SiriPayload|
            call_ensures(<SiriPayload as From<crate::framework::VehicleFeaturesDelivery>>::from, (message,), payload)
                ==> forall|inner: Option<&crate::framework::VehicleFeaturesDelivery>|
                call_ensures(SiriPayload::as_vehicle_features_delivery, (&payload,), inner) ==> inner == Some(
                    &message,
                ),
{
}

/// A `ProductCategoriesDelivery` wrapped in the envelope's payload is handed back unchanged by the
/// accessor for its type.
pub proof fn law_payload_hands_back_a_product_categories_delivery(message: crate::framework::ProductCategoriesDelivery)
    ensures
        forall|payload: SiriPayload|
            call_ensures(<SiriPayload as From<crate::framework::ProductCategoriesDelivery>>::from, (message,), payload)
                ==> forall|inner: Option<&crate::framework::ProductCategoriesDelivery>|
                call_ensures(SiriPayload::as_product_categories_delivery, (&payload,), inner) ==> inner == Some(
                    &message,
                ),
{
}

/// A `ProductionTimetableRequest` carried as a service request payload is carried unchanged, filters and
/// all, as a `ProductionTimetableRequest`.
pub proof fn law_service_request_payload_carries_a_production_timetable_request(request: crate::pt::ProductionTimetableRequest)
    ensures
        forall|payload: crate::framework::ServiceRequestPayload|
            call_ensures(<crate::framework::ServiceRequestPayload as From<crate::pt::ProductionTimetableRequest>>::from, (request,), payload)
                ==> (payload matches crate::framework::ServiceRequestPayload::ProductionTimetableRequest(carried) && *carried == request),
{
}

/// A `GeneralMessageRequest` carried as a service request payload is carried unchanged, filters and
/// all, as a `GeneralMessageRequest`.
pub proof fn law_service_request_payload_carries_a_general_message_request(request: crate::gm::GeneralMessageRequest)
    ensures
        forall|payload: crate::framework::ServiceRequestPayload|
            call_ensures(<crate::framework::ServiceRequestPayload as From<crate::gm::GeneralMessageRequest>>::from, (request,), payload)
                ==> (payload matches crate::framework::ServiceRequestPayload::GeneralMessageRequest(carried) && *carried == request),
{
}

/// A `ProductionTimetableDelivery` carried as a service delivery payload is carried unchanged, filters and
/// all, as a `ProductionTimetableDelivery`.
pub proof fn law_service_delivery_payload_carries_a_production_timetable_delivery(delivery: crate::pt::ProductionTimetableDelivery)
    ensures
        forall|payload: crate::framework::ServiceDeliveryPayload|
            call_ensures(<crate::framework::ServiceDeliveryPayload as From<crate::pt::ProductionTimetableDelivery>>::from, (delivery,), payload)
                ==> (payload matches crate::framework::ServiceDeliveryPayload::ProductionTimetableDelivery(carried) && *carried == delivery),
{
}

/// A `GeneralMessageDelivery` carried as a service delivery payload is carried unchanged, filters and
/// all, as a `GeneralMessageDelivery`.
pub proof fn law_service_delivery_payload_carries_a_general_message_delivery(delivery: crate::gm::GeneralMessageDelivery)
    ensures
        forall|payload: crate::framework::ServiceDeliveryPayload|
            call_ensures(<crate::framework::ServiceDeliveryPayload as From<crate::gm::GeneralMessageDelivery>>::from, (delivery,), payload)
                ==> (payload matches crate::framework::ServiceDeliveryPayload::GeneralMessageDelivery(carried) && *carried == delivery),
{
}

/// A `ProductionTimetableSubscriptionRequest` carried as a service request payload is carried unchanged, filters and
/// all, as a `ProductionTimetableSubscriptionRequest`.
pub proof fn law_subscription_request_payload_carries_a_production_timetable_subscription_request(request: crate::pt::ProductionTimetableSubscriptionRequest)
    ensures
        forall|payload: crate::framework::SubscriptionRequestPayload|
            call_ensures(<crate::framework::SubscriptionRequestPayload as From<crate::pt::ProductionTimetableSubscriptionRequest>>::from, (request,), payload)
                ==> (payload matches crate::framework::SubscriptionRequestPayload::ProductionTimetableSubscriptionRequest(carried) && *carried == request),
{
}

/// A `GeneralMessageSubscriptionRequest` carried as a service request payload is carried unchanged, filters and
/// all, as a `GeneralMessageSubscriptionRequest`.
pub proof fn law_subscription_request_payload_carries_a_general_message_subscription_request(request: crate::gm::GeneralMessageSubscriptionRequest)
    ensures
        forall|payload: crate::framework::SubscriptionRequestPayload|
            call_ensures(<crate::framework::SubscriptionRequestPayload as From<crate::gm::GeneralMessageSubscriptionRequest>>::from, (request,), payload)
                ==> (payload matches crate::framework::SubscriptionRequestPayload::GeneralMessageSubscriptionRequest(carried) && *carried == request),
{
}

/// A `ProductionTimetableCapabilitiesResponse` carried as a capabilities response payload is carried unchanged.
pub proof fn law_capabilities_response_payload_carries_a_production_timetable_capabilities_response(response: crate::pt::ProductionTimetableCapabilitiesResponse)
    ensures
        forall|payload: crate::framework::CapabilitiesResponsePayload|
            call_ensures(<crate::framework::CapabilitiesResponsePayload as From<crate::pt::ProductionTimetableCapabilitiesResponse>>::from, (response,), payload)
                ==> (payload matches crate::framework::CapabilitiesResponsePayload::ProductionTimetableCapabilitiesResponse(carried) && carried == response),
{
}

/// A `SituationExchangeCapabilitiesResponse` carried as a capabilities response payload is carried unchanged.
pub proof fn law_capabilities_response_payload_carries_a_situation_exchange_capabilities_response(response: crate::framework::SituationExchangeCapabilitiesResponse)
    ensures
        forall|payload: crate::framework::CapabilitiesResponsePayload|
            call_ensures(<crate::framework::CapabilitiesResponsePayload as From<crate::framework::SituationExchangeCapabilitiesResponse>>::from, (response,), payload)
                ==> (payload matches crate::framework::CapabilitiesResponsePayload::SituationExchangeCapabilitiesResponse(carried) && carried == response),
{
}

/// A air submode is written as the token of the air value it wraps.
pub proof fn law_air_submode_is_written_as_its_value(value: crate::enumerations::AirSubmodesOfTransport)
    ensures
        forall|token: &str|
            call_ensures(crate::model::Submode::as_str, (&crate::model::Submode::Air(value),), token)
                ==> forall|value_token: &str|
                call_ensures(crate::enumerations::AirSubmodesOfTransport::as_str, (&value,), value_token)
                    ==> token@ == value_token@,
{
}

/// A bus submode is written as the token of the bus value it wraps.
pub proof fn law_bus_submode_is_written_as_its_value(value: crate::enumerations::BusSubmodesOfTransport)
    ensures
        forall|token: &str|
            call_ensures(crate::model::Submode::as_str, (&crate::model::Submode::Bus(value),), token)
                ==> forall|value_token: &str|
                call_ensures(crate::enumerations::BusSubmodesOfTransport::as_str, (&value,), value_token)
                    ==> token@ == value_token@,
{
}

/// A coach submode is written as the token of the coach value it wraps.
pub proof fn law_coach_submode_is_written_as_its_value(value: crate::enumerations::CoachSubmodesOfTransport)
    ensures
        forall|token: &str|
            call_ensures(crate::model::Submode::as_str, (&crate::model::Submode::Coach(value),), token)
                ==> forall|value_token: &str|
                call_ensures(crate::enumerations::CoachSubmodesOfTransport::as_str, (&value,), value_token)
                    ==> token@ == value_token@,
{
}

/// A metro submode is written as the token of the metro value it wraps.
pub proof fn law_metro_submode_is_written_as_its_value(value: crate::enumerations::MetroSubmodesOfTransport)
    ensures
        forall|token: &str|
            call_ensures(crate::model::Submode::as_str, (&crate::model::Submode::Metro(value),), token)
                ==> forall|value_token: &str|
                call_ensures(crate::enumerations::MetroSubmodesOfTransport::as_str, (&value,), value_token)
                    ==> token@ == value_token@,
{
}

/// A rail submode is written as the token of the rail value it wraps.
pub proof fn law_rail_submode_is_written_as_its_value(value: crate::enumerations::RailSubmodesOfTransport)
    ensures
        forall|token: &str|
            call_ensures(crate::model::Submode::as_str, (&crate::model::Submode::Rail(value),), token)
                ==> forall|value_token: &str|
                call_ensures(crate::enumerations::RailSubmodesOfTransport::as_str, (&value,), value_token)
                    ==> token@ == value_token@,
{
}

/// A tram submode is written as the token of the tram value it wraps.
pub proof fn law_tram_submode_is_written_as_its_value(value: crate::enumerations::TramSubmodesOfTransport)
    ensures
        forall|token: &str|
            call_ensures(crate::model::Submode::as_str, (&crate::model::Submode::Tram(value),), token)
                ==> forall|value_token: &str|
                call_ensures(crate::enumerations::TramSubmodesOfTransport::as_str, (&value,), value_token)
                    ==> token@ == value_token@,
{
}

/// A water submode is written as the token of the water value it wraps.
pub proof fn law_water_submode_is_written_as_its_value(value: crate::enumerations::WaterSubmodesOfTransport)
    ensures
        forall|token: &str|
            call_ensures(crate::model::Submode::as_str, (&crate::model::Submode::Water(value),), token)
                ==> forall|value_token: &str|
                call_ensures(crate::enumerations::WaterSubmodesOfTransport::as_str, (&value,), value_token)
                    ==> token@ == value_token@,
{
}

/// A telecabin submode is written as the token of the telecabin value it wraps.
pub proof fn law_telecabin_submode_is_written_as_its_value(value: crate::enumerations::TelecabinSubmodesOfTransport)
    ensures
        forall|token: &str|
            call_ensures(crate::model::Submode::as_str, (&crate::model::Submode::Telecabin(value),), token)
                ==> forall|value_token: &str|
                call_ensures(crate::enumerations::TelecabinSubmodesOfTransport::as_str, (&value,), value_token)
                    ==> token@ == value_token@,
{
}

/// A stop assignment that names a quay at any stage, aimed, expected or actual,
/// by reference or by name, or that states the kind of quay, reports a quay;
/// one that names no quay but a boarding position at any stage reports a
/// boarding position; one that names neither reports no place.
pub proof fn law_assignment_reports_a_quay_named_at_any_stage(assignment: StopAssignment)
    ensures
        forall|place: Option<StandingPlace>|
            call_ensures(StopAssignment::place, (&assignment,), place) ==> {
                let quay = assignment.aimed_quay_ref is Some || assignment.expected_quay_ref is Some
                    || assignment.actual_quay_ref is Some || assignment.aimed_quay_name.len() > 0
                    || assignment.expected_quay_name.len() > 0
                    || assignment.actual_quay_name.len() > 0 || assignment.quay_type is Some;
                let position = assignment.aimed_boarding_position_ref is Some
                    || assignment.expected_boarding_position_ref is Some
                    || assignment.actual_boarding_position_ref is Some
                    || assignment.aimed_boarding_position_name.len() > 0
                    || assignment.expected_boarding_position_name.len() > 0
                    || assignment.actual_boarding_position_name.len() > 0;
                &&& quay ==> place == Some(StandingPlace::Quay)
                &&& !quay && position ==> place == Some(StandingPlace::BoardingPosition)
                &&& !quay && !position ==> place is None
            },
{
}

/// A planned stop assignment that names a quay, by reference or by name, or that
/// states the kind of quay, reports a quay; one that names no quay but a boarding
/// position reports a boarding position; one that names neither reports no place.
pub proof fn law_planned_assignment_reports_the_place_it_names(assignment: PlannedStopAssignment)
    ensures
        forall|place: Option<StandingPlace>|
            call_ensures(PlannedStopAssignment::place, (&assignment,), place) ==> {
                let quay = assignment.aimed_quay_ref is Some || assignment.aimed_quay_name.len() > 0
                    || assignment.quay_type is Some;
                let position = assignment.aimed_boarding_position_ref is Some
                    || assignment.aimed_boarding_position_name.len() > 0;
                &&& quay ==> place == Some(StandingPlace::Quay)
                &&& !quay && position ==> place == Some(StandingPlace::BoardingPosition)
                &&& !quay && !position ==> place is None
            },
{
}

/// A delivery without frames carries no planned runs.
pub proof fn law_a_delivery_without_frames_lists_no_runs(delivery: ProductionTimetableDelivery)
    requires
        delivery.dated_timetable_version_frame.len() == 0,
    ensures
        forall|runs: Vec<&DatedVehicleJourney>|
            call_ensures(ProductionTimetableDelivery::journeys, (&delivery,), runs) ==> runs.len()
                == 0,
{
}

/// A delivery of one frame lists exactly that frame's runs, in its order.
pub proof fn law_a_delivery_of_one_frame_lists_its_runs(delivery: ProductionTimetableDelivery)
    requires
        delivery.dated_timetable_version_frame.len() == 1,
    ensures
        forall|runs: Vec<&DatedVehicleJourney>|
            call_ensures(ProductionTimetableDelivery::journeys, (&delivery,), runs) ==> {
                let frame = delivery.dated_timetable_version_frame[0];
                &&& runs.len() == frame.dated_vehicle_journey.len()
                &&& forall|i: int|
                    0 <= i < runs.len() ==> *#[trigger] runs@[i] == frame.dated_vehicle_journey@[i]
            },
{
    let frames = delivery.dated_timetable_version_frame@;
    assert(frames.drop_last().len() == 0);
    assert(crate::pt::delivery::journeys_of(frames.drop_last()).len() == 0);
    assert(frames.last() == frames[0]);
    assert(crate::pt::delivery::journeys_of(frames) =~= frames[0].dated_vehicle_journey@);
}

/// A delivery with one frame more lists the runs of the delivery without it,
/// followed by every run of the added frame, in that frame's order.
pub proof fn law_an_added_frame_appends_its_runs(
    delivery: ProductionTimetableDelivery,
    extended: ProductionTimetableDelivery,
    frame: DatedTimetableVersionFrame,
)
    requires
        extended.dated_timetable_version_frame@ == delivery.dated_timetable_version_frame@.push(
            frame,
        ),
    ensures
        forall|before: Vec<&DatedVehicleJourney>, after: Vec<&DatedVehicleJourney>|
            call_ensures(ProductionTimetableDelivery::journeys, (&delivery,), before)
                && call_ensures(ProductionTimetableDelivery::journeys, (&extended,), after) ==> {
                &&& after.len() == before.len() + frame.dated_vehicle_journey.len()
                &&& forall|i: int| 0 <= i < before.len() ==> *#[trigger] after@[i] == *before@[i]
                &&& forall|j: int|
                    0 <= j < frame.dated_vehicle_journey.len() ==> *#[trigger] after@[before.len()
                        + j] == frame.dated_vehicle_journey@[j]
            },
{
    let frames = extended.dated_timetable_version_frame@;
    assert(frames.drop_last() =~= delivery.dated_timetable_version_frame@);
    assert(frames.last() == frame);
}

} // verus!
