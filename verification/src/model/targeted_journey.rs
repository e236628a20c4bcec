//! The timetabled view of a journey as one stop sees it.
//!
//! A [`TargetedVehicleJourney`] is what a departure board would show before the day
//! begins: the journey's identity and the single [`TargetedCall`] it is to make at
//! the stop being asked about. It carries aimed times only — what is actually
//! happening belongs to the estimated and monitored views.
//!
//! As in those, the schema's groups are inlined: a group contributes its elements
//! to the enclosing sequence rather than nesting them.

use crate::enumerations::{
    ArrivalBoardingActivity, DepartureBoardingActivity, FirstOrLastJourney, VehicleModesOfTransport,
};
use crate::model::call::PlannedStopAssignment;
use crate::model::formation::FormationAssignment;
use crate::model::journey::{
    Branding, BrandingRef, GroupOfLinesRef, JourneyPlaceRef, SimpleContact, ViaName,
};
use crate::model::reference::{
    DestinationRef, DirectionRef, FramedVehicleJourneyRef, JourneyPatternRef, LineRef, OperatorRef,
    ProductCategoryRef, RouteRef, ServiceFeatureRef, StopPointRef, VehicleFeatureRef,
};
use crate::types::{Duration, NaturalLanguagePlaceName, NaturalLanguageString};
use crate::types::DateTime;
use vstd::prelude::*;

verus! {

/// A timetabled journey, together with the call it makes at the stop in question.
#[derive(Debug, Clone, PartialEq)]
pub struct TargetedVehicleJourney {
    /// The line the journey runs on.
    pub line_ref: LineRef,
    /// The direction it runs in.
    pub direction_ref: DirectionRef,
    /// The timetabled journey on its operational day.
    pub framed_vehicle_journey_ref: Option<FramedVehicleJourneyRef>,
    /// The journey pattern the journey follows.
    pub journey_pattern_ref: Option<JourneyPatternRef>,
    /// The journey pattern's name.
    pub journey_pattern_name: Option<NaturalLanguageString>,
    /// The modes of transport the journey uses.
    pub vehicle_mode: Vec<VehicleModesOfTransport>,
    /// The route the journey follows.
    pub route_ref: Option<RouteRef>,
    /// The line's name as shown to passengers, one per language.
    pub published_line_name: Vec<NaturalLanguageString>,
    /// The group of lines the line is marketed within.
    pub group_of_lines_ref: Option<GroupOfLinesRef>,
    /// The direction's name as shown to passengers, one per language.
    pub direction_name: Vec<NaturalLanguageString>,
    /// The line as another operator's network identifies it.
    pub external_line_ref: Option<LineRef>,
    /// The brand the service is presented under, stated elsewhere.
    pub branding_ref: Option<BrandingRef>,
    /// The brand the service is presented under, stated here.
    pub branding: Option<Branding>,
    /// The operator running the journey.
    pub operator_ref: Option<OperatorRef>,
    /// The commercial category the service belongs to.
    pub product_category_ref: Option<ProductCategoryRef>,
    /// Properties of the service, e.g. that cycles may be carried.
    pub service_feature_ref: Vec<ServiceFeatureRef>,
    /// Properties of the vehicle, e.g. that it has a low floor.
    pub vehicle_feature_ref: Vec<VehicleFeatureRef>,
    /// Where the journey starts.
    pub origin_ref: Option<JourneyPlaceRef>,
    /// Names of the origin, one per language.
    pub origin_name: Vec<NaturalLanguagePlaceName>,
    /// Shorter names of the origin, one per language.
    pub origin_short_name: Vec<NaturalLanguagePlaceName>,
    /// What is shown at the origin as the destination, one per language.
    pub destination_display_at_origin: Vec<NaturalLanguagePlaceName>,
    /// Places passed through that tell this journey apart from similar ones.
    pub via: Vec<ViaName>,
    /// Where the journey ends.
    pub destination_ref: Option<DestinationRef>,
    /// Names of the destination, one per language.
    pub destination_name: Vec<NaturalLanguageString>,
    /// Shorter names of the destination, one per language.
    pub destination_short_name: Vec<NaturalLanguagePlaceName>,
    /// What is shown at the destination as the origin, one per language.
    pub origin_display_at_destination: Vec<NaturalLanguagePlaceName>,
    /// The journey's own name, one per language.
    pub vehicle_journey_name: Vec<NaturalLanguageString>,
    /// Notes about the journey, one per language.
    pub journey_note: Vec<NaturalLanguageString>,
    /// How passengers can reach the operator.
    pub public_contact: Option<SimpleContact>,
    /// How staff can reach the operator's control room.
    pub operations_contact: Option<SimpleContact>,
    /// Whether the service runs to a headway rather than to fixed times.
    pub headway_service: Option<bool>,
    /// When the journey is planned to leave its origin.
    pub origin_aimed_departure_time: Option<DateTime>,
    /// When it is planned to reach its destination.
    pub destination_aimed_arrival_time: Option<DateTime>,
    /// Whether this is the first or the last journey of the day on the line.
    pub first_or_last_journey: Option<FirstOrLastJourney>,
    /// The call the journey makes at the stop being asked about.
    pub targeted_call: Option<TargetedCall>,
}

impl TargetedVehicleJourney {
    /// A journey on the given line and direction, with nothing else said about it yet.
    pub fn new(line_ref: LineRef, direction_ref: DirectionRef) -> (result: Self)
        ensures
            result.line_ref == line_ref,
            result.direction_ref == direction_ref,
            result.framed_vehicle_journey_ref is None,
            result.journey_pattern_ref is None,
            result.journey_pattern_name is None,
            result.vehicle_mode@.len() == 0,
            result.route_ref is None,
            result.published_line_name@.len() == 0,
            result.group_of_lines_ref is None,
            result.direction_name@.len() == 0,
            result.external_line_ref is None,
            result.branding_ref is None,
            result.branding is None,
            result.operator_ref is None,
            result.product_category_ref is None,
            result.service_feature_ref@.len() == 0,
            result.vehicle_feature_ref@.len() == 0,
            result.origin_ref is None,
            result.origin_name@.len() == 0,
            result.origin_short_name@.len() == 0,
            result.destination_display_at_origin@.len() == 0,
            result.via@.len() == 0,
            result.destination_ref is None,
            result.destination_name@.len() == 0,
            result.destination_short_name@.len() == 0,
            result.origin_display_at_destination@.len() == 0,
            result.vehicle_journey_name@.len() == 0,
            result.journey_note@.len() == 0,
            result.public_contact is None,
            result.operations_contact is None,
            result.headway_service is None,
            result.origin_aimed_departure_time is None,
            result.destination_aimed_arrival_time is None,
            result.first_or_last_journey is None,
            result.targeted_call is None,
    {
        Self {
            line_ref,
            direction_ref,
            framed_vehicle_journey_ref: None,
            journey_pattern_ref: None,
            journey_pattern_name: None,
            vehicle_mode: Vec::new(),
            route_ref: None,
            published_line_name: Vec::new(),
            group_of_lines_ref: None,
            direction_name: Vec::new(),
            external_line_ref: None,
            branding_ref: None,
            branding: None,
            operator_ref: None,
            product_category_ref: None,
            service_feature_ref: Vec::new(),
            vehicle_feature_ref: Vec::new(),
            origin_ref: None,
            origin_name: Vec::new(),
            origin_short_name: Vec::new(),
            destination_display_at_origin: Vec::new(),
            via: Vec::new(),
            destination_ref: None,
            destination_name: Vec::new(),
            destination_short_name: Vec::new(),
            origin_display_at_destination: Vec::new(),
            vehicle_journey_name: Vec::new(),
            journey_note: Vec::new(),
            public_contact: None,
            operations_contact: None,
            headway_service: None,
            origin_aimed_departure_time: None,
            destination_aimed_arrival_time: None,
            first_or_last_journey: None,
            targeted_call: None,
        }
    }
}

/// One stop a timetabled journey is to make, with its aimed times.
#[derive(Debug, Clone, PartialEq)]
pub struct TargetedCall {
    /// The stop.
    pub stop_point_ref: Option<StopPointRef>,
    /// Which visit to that stop this is, when the journey calls more than once.
    pub visit_number: u64,
    /// Where the stop comes in the journey, counting from one.
    pub order: Option<u64>,
    /// Whether the stop is a timing point the timetable is measured against.
    pub timing_point: Option<bool>,
    /// The operator running the journey, when it differs from stop to stop.
    pub operator_ref: Option<OperatorRef>,
    /// The commercial category the service belongs to.
    pub product_category_ref: Option<ProductCategoryRef>,
    /// Properties of the service from this stop on.
    pub service_feature_ref: Vec<ServiceFeatureRef>,
    /// Properties of the vehicle serving this stop.
    pub vehicle_feature_ref: Vec<VehicleFeatureRef>,
    /// When the vehicle is planned to arrive.
    pub aimed_arrival_time: Option<DateTime>,
    /// The platform the vehicle is planned to arrive at, one name per language.
    pub arrival_platform_name: Vec<NaturalLanguageString>,
    /// Whether passengers may alight here.
    pub arrival_boarding_activity: Option<ArrivalBoardingActivity>,
    /// Where the vehicle is planned to stand on arrival.
    pub arrival_stop_assignment: Vec<PlannedStopAssignment>,
    /// Where each part of the train is planned to stand on arrival.
    pub arrival_formation_assignment: Vec<FormationAssignment>,
    /// The operators whose tickets are valid on arrival.
    pub arrival_operator_refs: Vec<OperatorRef>,
    /// When the vehicle is planned to leave.
    pub aimed_departure_time: Option<DateTime>,
    /// The platform the vehicle is planned to leave from, one name per language.
    pub departure_platform_name: Vec<NaturalLanguageString>,
    /// Whether passengers may board here.
    pub departure_boarding_activity: Option<DepartureBoardingActivity>,
    /// Where the vehicle is planned to stand for departure.
    pub departure_stop_assignment: Vec<PlannedStopAssignment>,
    /// Where each part of the train is planned to stand for departure.
    pub departure_formation_assignment: Vec<FormationAssignment>,
    /// The operators whose tickets are valid on departure.
    pub departure_operator_refs: Vec<OperatorRef>,
    /// When passengers must be aboard by.
    pub aimed_latest_passenger_access_time: Option<DateTime>,
    /// The planned interval between vehicles on a headway service.
    pub aimed_headway_interval: Option<Duration>,
}

impl TargetedCall {
    /// The journey's `visit_number`th call, with nothing said about it yet.
    pub fn new(visit_number: u64) -> (result: Self)
        ensures
            result.stop_point_ref is None,
            result.visit_number == visit_number,
            result.order is None,
            result.timing_point is None,
            result.operator_ref is None,
            result.product_category_ref is None,
            result.service_feature_ref@.len() == 0,
            result.vehicle_feature_ref@.len() == 0,
            result.aimed_arrival_time is None,
            result.arrival_platform_name@.len() == 0,
            result.arrival_boarding_activity is None,
            result.arrival_stop_assignment@.len() == 0,
            result.arrival_formation_assignment@.len() == 0,
            result.arrival_operator_refs@.len() == 0,
            result.aimed_departure_time is None,
            result.departure_platform_name@.len() == 0,
            result.departure_boarding_activity is None,
            result.departure_stop_assignment@.len() == 0,
            result.departure_formation_assignment@.len() == 0,
            result.departure_operator_refs@.len() == 0,
            result.aimed_latest_passenger_access_time is None,
            result.aimed_headway_interval is None,
    {
        Self {
            stop_point_ref: None,
            visit_number,
            order: None,
            timing_point: None,
            operator_ref: None,
            product_category_ref: None,
            service_feature_ref: Vec::new(),
            vehicle_feature_ref: Vec::new(),
            aimed_arrival_time: None,
            arrival_platform_name: Vec::new(),
            arrival_boarding_activity: None,
            arrival_stop_assignment: Vec::new(),
            arrival_formation_assignment: Vec::new(),
            arrival_operator_refs: Vec::new(),
            aimed_departure_time: None,
            departure_platform_name: Vec::new(),
            departure_boarding_activity: None,
            departure_stop_assignment: Vec::new(),
            departure_formation_assignment: Vec::new(),
            departure_operator_refs: Vec::new(),
            aimed_latest_passenger_access_time: None,
            aimed_headway_interval: None,
        }
    }
}

} // verus!
