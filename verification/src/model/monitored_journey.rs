//! The tracked view of a journey: where the vehicle is and what it has done.
//!
//! A [`MonitoredVehicleJourney`] is what a vehicle-tracking system knows about a
//! run in progress — its position, how it is getting on, the stop it is at now
//! ([`MonitoredCall`]), the ones behind it ([`PreviousCall`]) and the ones ahead
//! ([`OnwardCall`]).
//!
//! As in the estimated view, the schema's groups are inlined: a group contributes
//! its elements to the enclosing sequence rather than nesting them.

use crate::enumerations::{
    ArrivalBoardingActivity, CallStatus, DepartureBoardingActivity, FirstOrLastJourney, Occupancy,
    PredictionInaccurateReason, ProgressRate, QualityIndex, VehicleModesOfTransport, VehicleStatus,
};
use crate::model::call::StopAssignment;
use crate::model::facility::{FacilityChange, FacilityCondition};
use crate::model::formation::{
    CompoundTrains, FormationAssignment, FormationCondition, PassengerCapacity, TrainElements,
    Trains, VehicleOccupancy,
};
use crate::model::journey::{
    Branding, BrandingRef, GroupOfLinesRef, JourneyParts, JourneyPlaceRef, PredictionQuality,
    SimpleContact, TrainBlockPart, TrainNumbers, ViaName,
};
use crate::model::location::Location;
use crate::model::reference::{
    BlockRef, ControlActionRef, CourseOfJourneyRef, DestinationRef, DirectionRef,
    FramedVehicleJourneyRef, JourneyPatternRef, LineRef, OperatorRef, ProductCategoryRef, RouteRef,
    ServiceFeatureRef, SituationRef, StopPointRef, VehicleFeatureRef, VehicleJourneyRef, VehicleRef,
};
use crate::types::{Duration, Empty, Extensions, NaturalLanguagePlaceName, NaturalLanguageString};
use crate::types::{DateTime, Binary64};
use vstd::prelude::*;

verus! {

/// A journey as a tracking system currently sees it.
#[derive(Debug, Clone, Default, PartialEq)]
pub struct MonitoredVehicleJourney {
    /// The line the journey runs on.
    pub line_ref: Option<LineRef>,
    /// The direction it runs in.
    pub direction_ref: Option<DirectionRef>,
    /// The timetabled journey on its operational day.
    pub framed_vehicle_journey_ref: Option<FramedVehicleJourneyRef>,
    /// The journey pattern the journey follows.
    pub journey_pattern_ref: Option<JourneyPatternRef>,
    /// The journey pattern's name.
    pub journey_pattern_name: Option<NaturalLanguageString>,
    /// The modes of transport the journey uses.
    pub vehicle_mode: Vec<VehicleModesOfTransport>,
    /// The route the journey follows.
    pub route_ref: Option<RouteRef>,
    /// The line's name as shown to passengers, one per language.
    pub published_line_name: Vec<NaturalLanguageString>,
    /// The group of lines the line is marketed within.
    pub group_of_lines_ref: Option<GroupOfLinesRef>,
    /// The direction's name as shown to passengers, one per language.
    pub direction_name: Vec<NaturalLanguageString>,
    /// The line as another operator's network identifies it.
    pub external_line_ref: Option<LineRef>,
    /// The brand the service is presented under, stated elsewhere.
    pub branding_ref: Option<BrandingRef>,
    /// The brand the service is presented under, stated here.
    pub branding: Option<Branding>,
    /// The operator running the journey.
    pub operator_ref: Option<OperatorRef>,
    /// The commercial category the service belongs to.
    pub product_category_ref: Option<ProductCategoryRef>,
    /// Properties of the service, e.g. that cycles may be carried.
    pub service_feature_ref: Vec<ServiceFeatureRef>,
    /// Properties of the vehicle, e.g. that it has a low floor.
    pub vehicle_feature_ref: Vec<VehicleFeatureRef>,
    /// Where the journey starts.
    pub origin_ref: Option<JourneyPlaceRef>,
    /// Names of the origin, one per language.
    pub origin_name: Vec<NaturalLanguagePlaceName>,
    /// Shorter names of the origin, one per language.
    pub origin_short_name: Vec<NaturalLanguagePlaceName>,
    /// What is shown at the origin as the destination, one per language.
    pub destination_display_at_origin: Vec<NaturalLanguagePlaceName>,
    /// Places passed through that tell this journey apart from similar ones.
    pub via: Vec<ViaName>,
    /// Where the journey ends.
    pub destination_ref: Option<DestinationRef>,
    /// Names of the destination, one per language.
    pub destination_name: Vec<NaturalLanguageString>,
    /// Shorter names of the destination, one per language.
    pub destination_short_name: Vec<NaturalLanguagePlaceName>,
    /// What is shown at the destination as the origin, one per language.
    pub origin_display_at_destination: Vec<NaturalLanguagePlaceName>,
    /// The journey's own name, one per language.
    pub vehicle_journey_name: Vec<NaturalLanguageString>,
    /// Notes about the journey, one per language.
    pub journey_note: Vec<NaturalLanguageString>,
    /// How passengers can reach the operator.
    pub public_contact: Option<SimpleContact>,
    /// How staff can reach the operator's control room.
    pub operations_contact: Option<SimpleContact>,
    /// Whether the service runs to a headway rather than to fixed times.
    pub headway_service: Option<bool>,
    /// When the journey is planned to leave its origin.
    pub origin_aimed_departure_time: Option<DateTime>,
    /// When it is planned to reach its destination.
    pub destination_aimed_arrival_time: Option<DateTime>,
    /// Whether this is the first or the last journey of the day on the line.
    pub first_or_last_journey: Option<FirstOrLastJourney>,
    /// Changes to how the train is put together.
    pub formation_condition: Vec<FormationCondition>,
    /// Facilities along the journey whose state has changed.
    pub facility_condition_element: Vec<FacilityCondition>,
    /// The same, in the older spelling the schema still allows.
    pub facility_change_element: Option<FacilityChange>,
    /// Situations that explain the state of the journey.
    pub situation_ref: Vec<SituationRef>,
    /// The control action taken to manage the journey.
    pub control_action_ref: Option<ControlActionRef>,
    /// Whether the journey is being tracked in real time.
    pub monitored: Option<bool>,
    /// Why tracking is not working, in the producer's own codes.
    pub monitoring_error: Vec<String>,
    /// Whether the vehicle is caught in traffic.
    pub in_congestion: Option<bool>,
    /// Whether the crew has raised an alarm.
    pub in_panic: Option<bool>,
    /// Whether the predicted times should be treated as unreliable.
    pub prediction_inaccurate: Option<bool>,
    /// Why they are unreliable.
    pub prediction_inaccurate_reason: Option<PredictionInaccurateReason>,
    /// Which system the real-time data came from.
    pub data_source: Option<String>,
    /// How much confidence to put in the data.
    pub confidence_level: Option<QualityIndex>,
    /// Where the vehicle is.
    pub vehicle_location: Option<Location>,
    /// When the position was taken.
    pub location_recorded_at_time: Option<DateTime>,
    /// Which way the vehicle is pointing, in degrees from north.
    pub bearing: Option<Binary64>,
    /// How well the vehicle is getting on.
    pub progress_rate: Option<ProgressRate>,
    /// How fast it is going, in metres per second.
    pub velocity: Option<u64>,
    /// Whether the engine is running.
    pub engine_on: Option<bool>,
    /// How full the vehicle is.
    pub occupancy: Option<Occupancy>,
    /// How far behind the timetable the journey is running.
    pub delay: Option<Duration>,
    /// How the journey is getting on, in the producer's own words.
    pub progress_status: Vec<NaturalLanguageString>,
    /// Where the vehicle is in its day's work.
    pub vehicle_status: Option<VehicleStatus>,
    /// The parts the train is formed of, and where each sits.
    pub train_block_part: Vec<TrainBlockPart>,
    /// The day's work the journey belongs to.
    pub block_ref: Option<BlockRef>,
    /// The run of journeys within that work.
    pub course_of_journey_ref: Option<CourseOfJourneyRef>,
    /// The timetabled journey this run realises.
    pub vehicle_journey_ref: Option<VehicleJourneyRef>,
    /// The vehicle running it.
    pub vehicle_ref: Option<VehicleRef>,
    /// Further journeys the same vehicle is running at the same time.
    pub additional_vehicle_journey_ref: Vec<FramedVehicleJourneyRef>,
    /// The driver on duty.
    pub driver_ref: Option<String>,
    /// The driver's name.
    pub driver_name: Option<String>,
    /// The train numbers the journey runs under.
    pub train_numbers: Option<TrainNumbers>,
    /// The parts the journey is split into.
    pub journey_parts: Option<JourneyParts>,
    /// The carriages and engines the train is made of.
    pub train_elements: Option<TrainElements>,
    /// The trains those elements are coupled into.
    pub trains: Option<Trains>,
    /// The compound trains those trains are joined into.
    pub compound_trains: Option<CompoundTrains>,
    /// The stops the vehicle has already served.
    pub previous_calls: Option<PreviousCalls>,
    /// The stop the vehicle is at or heading for.
    pub monitored_call: Option<MonitoredCall>,
    /// The stops still ahead of it.
    pub onward_calls: Option<OnwardCalls>,
    /// Whether the calls above are the journey's whole stop sequence.
    pub is_complete_stop_sequence: Option<bool>,
}

impl MonitoredVehicleJourney {
    /// A journey on the given line, with nothing else said about it yet.
    pub fn on_line(line_ref: LineRef) -> (result: Self)
        ensures
            result.line_ref == Some(line_ref),
            result.direction_ref is None,
            result.framed_vehicle_journey_ref is None,
            result.journey_pattern_ref is None,
            result.journey_pattern_name is None,
            result.vehicle_mode@.len() == 0,
            result.route_ref is None,
            result.published_line_name@.len() == 0,
            result.group_of_lines_ref is None,
            result.direction_name@.len() == 0,
            result.external_line_ref is None,
            result.branding_ref is None,
            result.branding is None,
            result.operator_ref is None,
            result.product_category_ref is None,
            result.service_feature_ref@.len() == 0,
            result.vehicle_feature_ref@.len() == 0,
            result.origin_ref is None,
            result.origin_name@.len() == 0,
            result.origin_short_name@.len() == 0,
            result.destination_display_at_origin@.len() == 0,
            result.via@.len() == 0,
            result.destination_ref is None,
            result.destination_name@.len() == 0,
            result.destination_short_name@.len() == 0,
            result.origin_display_at_destination@.len() == 0,
            result.vehicle_journey_name@.len() == 0,
            result.journey_note@.len() == 0,
            result.public_contact is None,
            result.operations_contact is None,
            result.headway_service is None,
            result.origin_aimed_departure_time is None,
            result.destination_aimed_arrival_time is None,
            result.first_or_last_journey is None,
            result.formation_condition@.len() == 0,
            result.facility_condition_element@.len() == 0,
            result.facility_change_element is None,
            result.situation_ref@.len() == 0,
            result.control_action_ref is None,
            result.monitored is None,
            result.monitoring_error@.len() == 0,
            result.in_congestion is None,
            result.in_panic is None,
            result.prediction_inaccurate is None,
            result.prediction_inaccurate_reason is None,
            result.data_source is None,
            result.confidence_level is None,
            result.vehicle_location is None,
            result.location_recorded_at_time is None,
            result.bearing is None,
            result.progress_rate is None,
            result.velocity is None,
            result.engine_on is None,
            result.occupancy is None,
            result.delay is None,
            result.progress_status@.len() == 0,
            result.vehicle_status is None,
            result.train_block_part@.len() == 0,
            result.block_ref is None,
            result.course_of_journey_ref is None,
            result.vehicle_journey_ref is None,
            result.vehicle_ref is None,
            result.additional_vehicle_journey_ref@.len() == 0,
            result.driver_ref is None,
            result.driver_name is None,
            result.train_numbers is None,
            result.journey_parts is None,
            result.train_elements is None,
            result.trains is None,
            result.compound_trains is None,
            result.previous_calls is None,
            result.monitored_call is None,
            result.onward_calls is None,
            result.is_complete_stop_sequence is None,
    {
        Self {
            line_ref: Some(line_ref),
            direction_ref: None,
            framed_vehicle_journey_ref: None,
            journey_pattern_ref: None,
            journey_pattern_name: None,
            vehicle_mode: Vec::new(),
            route_ref: None,
            published_line_name: Vec::new(),
            group_of_lines_ref: None,
            direction_name: Vec::new(),
            external_line_ref: None,
            branding_ref: None,
            branding: None,
            operator_ref: None,
            product_category_ref: None,
            service_feature_ref: Vec::new(),
            vehicle_feature_ref: Vec::new(),
            origin_ref: None,
            origin_name: Vec::new(),
            origin_short_name: Vec::new(),
            destination_display_at_origin: Vec::new(),
            via: Vec::new(),
            destination_ref: None,
            destination_name: Vec::new(),
            destination_short_name: Vec::new(),
            origin_display_at_destination: Vec::new(),
            vehicle_journey_name: Vec::new(),
            journey_note: Vec::new(),
            public_contact: None,
            operations_contact: None,
            headway_service: None,
            origin_aimed_departure_time: None,
            destination_aimed_arrival_time: None,
            first_or_last_journey: None,
            formation_condition: Vec::new(),
            facility_condition_element: Vec::new(),
            facility_change_element: None,
            situation_ref: Vec::new(),
            control_action_ref: None,
            monitored: None,
            monitoring_error: Vec::new(),
            in_congestion: None,
            in_panic: None,
            prediction_inaccurate: None,
            prediction_inaccurate_reason: None,
            data_source: None,
            confidence_level: None,
            vehicle_location: None,
            location_recorded_at_time: None,
            bearing: None,
            progress_rate: None,
            velocity: None,
            engine_on: None,
            occupancy: None,
            delay: None,
            progress_status: Vec::new(),
            vehicle_status: None,
            train_block_part: Vec::new(),
            block_ref: None,
            course_of_journey_ref: None,
            vehicle_journey_ref: None,
            vehicle_ref: None,
            additional_vehicle_journey_ref: Vec::new(),
            driver_ref: None,
            driver_name: None,
            train_numbers: None,
            journey_parts: None,
            train_elements: None,
            trains: None,
            compound_trains: None,
            previous_calls: None,
            monitored_call: None,
            onward_calls: None,
            is_complete_stop_sequence: None,
        }
    }

    /// The stops the vehicle has already served; none when the journey carries no
    /// such list.
    pub fn previous_calls(&self) -> (calls: &[PreviousCall])
        ensures
            match self.previous_calls {
                Some(list) => calls@ == list.previous_call@,
                None => calls@.len() == 0,
            },
    {
        match &self.previous_calls {
            Some(list) => list.previous_call.as_slice(),
            None => &[],
        }
    }

    /// The stops still ahead of the vehicle; none when the journey carries no such
    /// list.
    pub fn onward_calls(&self) -> (calls: &[OnwardCall])
        ensures
            match self.onward_calls {
                Some(list) => calls@ == list.onward_call@,
                None => calls@.len() == 0,
            },
    {
        match &self.onward_calls {
            Some(list) => list.onward_call.as_slice(),
            None => &[],
        }
    }
}

/// The stops a vehicle has already served on the current journey.
#[derive(Debug, Clone, Default, PartialEq)]
pub struct PreviousCalls {
    /// The calls, at least one.
    pub previous_call: Vec<PreviousCall>,
}

/// The stops a vehicle has still to serve on the current journey.
#[derive(Debug, Clone, Default, PartialEq)]
pub struct OnwardCalls {
    /// The calls, at least one.
    pub onward_call: Vec<OnwardCall>,
}

/// A stop the vehicle has already served, and when it did.
#[derive(Debug, Clone, Default, PartialEq)]
pub struct PreviousCall {
    /// The stop.
    pub stop_point_ref: Option<StopPointRef>,
    /// Which visit to that stop this was, when the journey calls more than once.
    pub visit_number: Option<u64>,
    /// Where the stop came in the journey, counting from one.
    pub order: Option<u64>,
    /// Names of the stop, one per language.
    pub stop_point_name: Vec<NaturalLanguageString>,
    /// Whether the vehicle is standing at the stop.
    pub vehicle_at_stop: Option<bool>,
    /// When the vehicle was planned to arrive.
    pub aimed_arrival_time: Option<DateTime>,
    /// When it did arrive.
    pub actual_arrival_time: Option<DateTime>,
    /// When it was expected to arrive, if the arrival was not recorded.
    pub expected_arrival_time: Option<DateTime>,
    /// When the vehicle was planned to leave.
    pub aimed_departure_time: Option<DateTime>,
    /// When it did leave.
    pub actual_departure_time: Option<DateTime>,
    /// When it was expected to leave, if the departure was not recorded.
    pub expected_departure_time: Option<DateTime>,
    /// How full the vehicle was when it left.
    pub recorded_departure_occupancy: Vec<VehicleOccupancy>,
    /// How many passengers the vehicle could take when it left.
    pub recorded_departure_capacities: Vec<PassengerCapacity>,
    /// Implementation-defined content.
    pub extensions: Option<Extensions>,
}

/// The stop a vehicle is at, or is on its way to.
#[derive(Debug, Clone, Default, PartialEq)]
pub struct MonitoredCall {
    /// The stop.
    pub stop_point_ref: Option<StopPointRef>,
    /// Which visit to that stop this is, when the journey calls more than once.
    pub visit_number: Option<u64>,
    /// Where the stop comes in the journey, counting from one.
    pub order: Option<u64>,
    /// Names of the stop, one per language.
    pub stop_point_name: Vec<NaturalLanguageString>,
    /// Whether the vehicle is standing at the stop.
    pub vehicle_at_stop: Option<bool>,
    /// Where the vehicle is standing, when that is more precise than the stop.
    pub vehicle_location_at_stop: Option<Location>,
    /// Whether the train changes direction here.
    pub reverses_at_stop: Option<bool>,
    /// Whether the train runs through the platform without stopping.
    pub platform_traversal: Option<bool>,
    /// The state of the signal governing the approach, in the operator's own codes.
    pub signal_status: Option<String>,
    /// Whether the stop is a timing point the timetable is measured against.
    pub timing_point: Option<bool>,
    /// Whether passengers may board anywhere along the stretch before this stop.
    pub boarding_stretch: Option<bool>,
    /// Whether the vehicle calls only when asked to.
    pub request_stop: Option<bool>,
    /// What is shown as the origin from this stop on, one per language.
    pub origin_display: Vec<NaturalLanguageString>,
    /// What is shown as the destination from this stop on, one per language.
    pub destination_display: Vec<NaturalLanguageString>,
    /// Notes about this call, one per language.
    pub call_note: Vec<NaturalLanguageString>,
    /// Changes to how the train is put together, taking effect here.
    pub formation_condition: Vec<FormationCondition>,
    /// Facilities at this stop whose state has changed.
    pub facility_condition_element: Vec<FacilityCondition>,
    /// The same, in the older spelling the schema still allows.
    pub facility_change_element: Option<FacilityChange>,
    /// Situations that explain the state of this call.
    pub situation_ref: Vec<SituationRef>,
    /// The control action taken at this call.
    pub control_action_ref: Option<ControlActionRef>,
    /// When the vehicle is planned to arrive.
    pub aimed_arrival_time: Option<DateTime>,
    /// When it did arrive.
    pub actual_arrival_time: Option<DateTime>,
    /// When it is now expected to arrive.
    pub expected_arrival_time: Option<DateTime>,
    /// The latest it could still arrive.
    pub latest_expected_arrival_time: Option<DateTime>,
    /// How the arrival stands against the timetable.
    pub arrival_status: Option<CallStatus>,
    /// Why the arrival was cancelled, one per language.
    pub arrival_cancellation_reason: Vec<NaturalLanguageString>,
    /// How near the vehicle is, in words for a display.
    pub arrival_proximity_text: Vec<NaturalLanguageString>,
    /// The platform the vehicle arrives at, one name per language.
    pub arrival_platform_name: Vec<NaturalLanguageString>,
    /// Whether passengers may alight here.
    pub arrival_boarding_activity: Option<ArrivalBoardingActivity>,
    /// Where the vehicle stands on arrival.
    pub arrival_stop_assignment: Vec<StopAssignment>,
    /// Where each part of the train stands on arrival.
    pub arrival_formation_assignment: Vec<FormationAssignment>,
    /// Which way round the vehicle stands on arrival, one text per language.
    pub arrival_orientation_relative_to_quay: Vec<NaturalLanguageString>,
    /// The operators whose tickets are valid on arrival.
    pub arrival_operator_refs: Vec<OperatorRef>,
    /// When the vehicle is planned to leave.
    pub aimed_departure_time: Option<DateTime>,
    /// When it did leave.
    pub actual_departure_time: Option<DateTime>,
    /// When it is now expected to leave.
    pub expected_departure_time: Option<DateTime>,
    /// A working estimate of the departure, pending a firmer one.
    pub provisional_expected_departure_time: Option<DateTime>,
    /// The earliest the vehicle will leave, whatever else happens.
    pub earliest_expected_departure_time: Option<DateTime>,
    /// How much confidence to put in the expected departure.
    pub expected_departure_prediction_quality: Option<PredictionQuality>,
    /// When passengers must be aboard by, as planned.
    pub aimed_latest_passenger_access_time: Option<DateTime>,
    /// When passengers must be aboard by, as now expected.
    pub expected_latest_passenger_access_time: Option<DateTime>,
    /// How the departure stands against the timetable.
    pub departure_status: Option<CallStatus>,
    /// Why the departure was cancelled, one per language.
    pub departure_cancellation_reason: Vec<NaturalLanguageString>,
    /// How near departure is, in words for a display.
    pub departure_proximity_text: Vec<NaturalLanguageString>,
    /// The platform the vehicle leaves from, one name per language.
    pub departure_platform_name: Vec<NaturalLanguageString>,
    /// Whether passengers may board here.
    pub departure_boarding_activity: Option<DepartureBoardingActivity>,
    /// Where the vehicle stands for departure.
    pub departure_stop_assignment: Vec<StopAssignment>,
    /// Where each part of the train stands for departure.
    pub departure_formation_assignment: Vec<FormationAssignment>,
    /// Which way round the vehicle stands for departure, one text per language.
    pub departure_orientation_relative_to_quay: Vec<NaturalLanguageString>,
    /// How full the vehicle is expected to be when it leaves.
    pub expected_departure_occupancy: Vec<VehicleOccupancy>,
    /// How many passengers the vehicle is expected to be able to take on departure.
    pub expected_departure_capacities: Vec<PassengerCapacity>,
    /// How full the vehicle was when it left, instead of the expected figures.
    pub recorded_departure_occupancy: Vec<VehicleOccupancy>,
    /// How many passengers the vehicle could take when it left.
    pub recorded_departure_capacities: Vec<PassengerCapacity>,
    /// The operators whose tickets are valid on departure.
    pub departure_operator_refs: Vec<OperatorRef>,
    /// The planned interval between vehicles on a headway service.
    pub aimed_headway_interval: Option<Duration>,
    /// The interval now expected.
    pub expected_headway_interval: Option<Duration>,
    /// How far away the vehicle still is, in metres.
    pub distance_from_stop: Option<u64>,
    /// How many stops away it still is.
    pub number_of_stops_away: Option<u64>,
    /// Implementation-defined content.
    pub extensions: Option<Extensions>,
}

/// A stop still ahead of the vehicle, and what is expected there.
#[derive(Debug, Clone, Default, PartialEq)]
pub struct OnwardCall {
    /// The stop.
    pub stop_point_ref: Option<StopPointRef>,
    /// Which visit to that stop this is, when the journey calls more than once.
    pub visit_number: Option<u64>,
    /// Where the stop comes in the journey, counting from one.
    pub order: Option<u64>,
    /// Names of the stop, one per language.
    pub stop_point_name: Vec<NaturalLanguageString>,
    /// Whether the vehicle is standing at the stop.
    pub vehicle_at_stop: Option<bool>,
    /// Whether the stop is a timing point the timetable is measured against.
    pub timing_point: Option<bool>,
    /// When the vehicle is planned to arrive.
    pub aimed_arrival_time: Option<DateTime>,
    /// When it is now expected to arrive.
    pub expected_arrival_time: Option<DateTime>,
    /// The latest it could still arrive.
    pub latest_expected_arrival_time: Option<DateTime>,
    /// How much confidence to put in the expected arrival.
    pub expected_arrival_prediction_quality: Option<PredictionQuality>,
    /// That the arrival cannot be predicted at all, instead of the times above.
    pub arrival_prediction_unknown: Option<Empty>,
    /// How the arrival stands against the timetable.
    pub arrival_status: Option<CallStatus>,
    /// Why the arrival was cancelled, one per language.
    pub arrival_cancellation_reason: Vec<NaturalLanguageString>,
    /// How near the vehicle is, in words for a display.
    pub arrival_proximity_text: Vec<NaturalLanguageString>,
    /// The platform the vehicle arrives at, one name per language.
    pub arrival_platform_name: Vec<NaturalLanguageString>,
    /// Whether passengers may alight here.
    pub arrival_boarding_activity: Option<ArrivalBoardingActivity>,
    /// Where the vehicle stands on arrival.
    pub arrival_stop_assignment: Vec<StopAssignment>,
    /// Where each part of the train stands on arrival.
    pub arrival_formation_assignment: Vec<FormationAssignment>,
    /// Which way round the vehicle stands on arrival, one text per language.
    pub arrival_orientation_relative_to_quay: Vec<NaturalLanguageString>,
    /// The operators whose tickets are valid on arrival.
    pub arrival_operator_refs: Vec<OperatorRef>,
    /// When the vehicle is planned to leave.
    pub aimed_departure_time: Option<DateTime>,
    /// When it is now expected to leave.
    pub expected_departure_time: Option<DateTime>,
    /// A working estimate of the departure, pending a firmer one.
    pub provisional_expected_departure_time: Option<DateTime>,
    /// The earliest the vehicle will leave, whatever else happens.
    pub earliest_expected_departure_time: Option<DateTime>,
    /// How much confidence to put in the expected departure.
    pub expected_departure_prediction_quality: Option<PredictionQuality>,
    /// That the departure cannot be predicted at all, instead of the times above.
    pub departure_prediction_unknown: Option<Empty>,
    /// When passengers must be aboard by, as planned.
    pub aimed_latest_passenger_access_time: Option<DateTime>,
    /// When passengers must be aboard by, as now expected.
    pub expected_latest_passenger_access_time: Option<DateTime>,
    /// How the departure stands against the timetable.
    pub departure_status: Option<CallStatus>,
    /// Why the departure was cancelled, one per language.
    pub departure_cancellation_reason: Vec<NaturalLanguageString>,
    /// How near departure is, in words for a display.
    pub departure_proximity_text: Vec<NaturalLanguageString>,
    /// The platform the vehicle leaves from, one name per language.
    pub departure_platform_name: Vec<NaturalLanguageString>,
    /// Whether passengers may board here.
    pub departure_boarding_activity: Option<DepartureBoardingActivity>,
    /// Where the vehicle stands for departure.
    pub departure_stop_assignment: Vec<StopAssignment>,
    /// Where each part of the train stands for departure.
    pub departure_formation_assignment: Vec<FormationAssignment>,
    /// Which way round the vehicle stands for departure, one text per language.
    pub departure_orientation_relative_to_quay: Vec<NaturalLanguageString>,
    /// How full the vehicle is expected to be when it leaves.
    pub expected_departure_occupancy: Vec<VehicleOccupancy>,
    /// How many passengers the vehicle is expected to be able to take on departure.
    pub expected_departure_capacities: Vec<PassengerCapacity>,
    /// How full the vehicle was when it left, instead of the expected figures.
    pub recorded_departure_occupancy: Vec<VehicleOccupancy>,
    /// How many passengers the vehicle could take when it left.
    pub recorded_departure_capacities: Vec<PassengerCapacity>,
    /// The operators whose tickets are valid on departure.
    pub departure_operator_refs: Vec<OperatorRef>,
    /// The planned interval between vehicles on a headway service.
    pub aimed_headway_interval: Option<Duration>,
    /// The interval now expected.
    pub expected_headway_interval: Option<Duration>,
    /// How far away the vehicle still is, in metres.
    pub distance_from_stop: Option<u64>,
    /// How many stops away it still is.
    pub number_of_stops_away: Option<u64>,
    /// Implementation-defined content.
    pub extensions: Option<Extensions>,
}

impl OnwardCall {
    /// A call at the given stop with nothing said about it yet.
    pub fn at(stop_point_ref: StopPointRef) -> (result: Self)
        ensures
            result.stop_point_ref == Some(stop_point_ref),
            result.visit_number is None,
            result.order is None,
            result.stop_point_name@.len() == 0,
            result.vehicle_at_stop is None,
            result.timing_point is None,
            result.aimed_arrival_time is None,
            result.expected_arrival_time is None,
            result.latest_expected_arrival_time is None,
            result.expected_arrival_prediction_quality is None,
            result.arrival_prediction_unknown is None,
            result.arrival_status is None,
            result.arrival_cancellation_reason@.len() == 0,
            result.arrival_proximity_text@.len() == 0,
            result.arrival_platform_name@.len() == 0,
            result.arrival_boarding_activity is None,
            result.arrival_stop_assignment@.len() == 0,
            result.arrival_formation_assignment@.len() == 0,
            result.arrival_orientation_relative_to_quay@.len() == 0,
            result.arrival_operator_refs@.len() == 0,
            result.aimed_departure_time is None,
            result.expected_departure_time is None,
            result.provisional_expected_departure_time is None,
            result.earliest_expected_departure_time is None,
            result.expected_departure_prediction_quality is None,
            result.departure_prediction_unknown is None,
            result.aimed_latest_passenger_access_time is None,
            result.expected_latest_passenger_access_time is None,
            result.departure_status is None,
            result.departure_cancellation_reason@.len() == 0,
            result.departure_proximity_text@.len() == 0,
            result.departure_platform_name@.len() == 0,
            result.departure_boarding_activity is None,
            result.departure_stop_assignment@.len() == 0,
            result.departure_formation_assignment@.len() == 0,
            result.departure_orientation_relative_to_quay@.len() == 0,
            result.expected_departure_occupancy@.len() == 0,
            result.expected_departure_capacities@.len() == 0,
            result.recorded_departure_occupancy@.len() == 0,
            result.recorded_departure_capacities@.len() == 0,
            result.departure_operator_refs@.len() == 0,
            result.aimed_headway_interval is None,
            result.expected_headway_interval is None,
            result.distance_from_stop is None,
            result.number_of_stops_away is None,
            result.extensions is None,
    {
        Self {
            stop_point_ref: Some(stop_point_ref),
            visit_number: None,
            order: None,
            stop_point_name: Vec::new(),
            vehicle_at_stop: None,
            timing_point: None,
            aimed_arrival_time: None,
            expected_arrival_time: None,
            latest_expected_arrival_time: None,
            expected_arrival_prediction_quality: None,
            arrival_prediction_unknown: None,
            arrival_status: None,
            arrival_cancellation_reason: Vec::new(),
            arrival_proximity_text: Vec::new(),
            arrival_platform_name: Vec::new(),
            arrival_boarding_activity: None,
            arrival_stop_assignment: Vec::new(),
            arrival_formation_assignment: Vec::new(),
            arrival_orientation_relative_to_quay: Vec::new(),
            arrival_operator_refs: Vec::new(),
            aimed_departure_time: None,
            expected_departure_time: None,
            provisional_expected_departure_time: None,
            earliest_expected_departure_time: None,
            expected_departure_prediction_quality: None,
            departure_prediction_unknown: None,
            aimed_latest_passenger_access_time: None,
            expected_latest_passenger_access_time: None,
            departure_status: None,
            departure_cancellation_reason: Vec::new(),
            departure_proximity_text: Vec::new(),
            departure_platform_name: Vec::new(),
            departure_boarding_activity: None,
            departure_stop_assignment: Vec::new(),
            departure_formation_assignment: Vec::new(),
            departure_orientation_relative_to_quay: Vec::new(),
            expected_departure_occupancy: Vec::new(),
            expected_departure_capacities: Vec::new(),
            recorded_departure_occupancy: Vec::new(),
            recorded_departure_capacities: Vec::new(),
            departure_operator_refs: Vec::new(),
            aimed_headway_interval: None,
            expected_headway_interval: None,
            distance_from_stop: None,
            number_of_stops_away: None,
            extensions: None,
        }
    }
}

} // verus!
