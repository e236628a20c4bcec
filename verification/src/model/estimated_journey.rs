//! The real-time view of a journey: what is now expected to happen, and what did.
//!
//! An [`EstimatedVehicleJourney`] is a running journey as the operator currently
//! sees it. It restates only what the timetable cannot say: which calls have already
//! happened ([`RecordedCall`]) and what is now expected at the ones still to come
//! ([`EstimatedCall`]), together with the journey's own alterations — a run added
//! today, a run cancelled, a stop skipped.
//!
//! The schema builds these out of groups shared with the planned and monitored
//! views; a group contributes its elements to the enclosing sequence rather than
//! nesting them, so they appear here as runs of fields rather than as members.

use crate::enumerations::{
    ArrivalBoardingActivity, CallStatus, DepartureBoardingActivity, FirstOrLastJourney,
    InterchangeStatus, Occupancy, PredictionInaccurateReason, ProgressRate, QualityIndex,
    VehicleModesOfTransport, VehicleStatus,
};
use crate::model::call::StopAssignment;
use crate::model::facility::{FacilityChange, FacilityCondition};
use crate::model::formation::{
    CompoundTrains, FormationAssignment, FormationCondition, PassengerCapacity, TrainElements,
    Trains, VehicleOccupancy,
};
use crate::model::journey::{
    Branding, BrandingRef, ConnectingJourneyRef, DatedVehicleJourneyIndirectRef, GroupOfLinesRef,
    JourneyParts, JourneyPlaceRef, JourneyRelations, PredictionQuality, SimpleContact,
    TrainBlockPart, TrainNumbers, ViaName,
};
use crate::model::location::Location;
use crate::model::reference::{
    BlockRef, ConnectionLinkRef, CourseOfJourneyRef, ControlActionRef, DatedVehicleJourneyRef,
    DestinationRef, DirectionRef, FramedVehicleJourneyRef, InterchangeRef, JourneyPatternRef,
    LineRef, OperatorRef, ProductCategoryRef, RouteRef, ServiceFeatureRef, SituationRef,
    StopPointRef, VehicleFeatureRef, VehicleJourneyRef, VehicleRef,
};
use crate::types::{
    Duration, Empty, Extensions, NaturalLanguagePlaceName, NaturalLanguageString,
};
use crate::types::{DateTime, Binary64};
use vstd::prelude::*;

verus! {

/// A journey as the operator now expects it to run.
///
/// The journey is identified either by an existing timetabled run — through
/// `framed_vehicle_journey_ref` or `dated_vehicle_journey_ref` — or, for a run that
/// is not in any timetable, by an `estimated_vehicle_journey_code` of its own.
/// [`EstimatedVehicleJourney::identity`] reports which was used and
/// [`EstimatedVehicleJourney::alteration`] whether the journey is an addition or a
/// cancellation.
#[derive(Debug, Clone, PartialEq)]
pub struct EstimatedVehicleJourney {
    /// When the producer last knew this to be true.
    pub recorded_at_time: Option<DateTime>,
    /// The line the journey runs on.
    pub line_ref: LineRef,
    /// The direction it runs in.
    pub direction_ref: DirectionRef,
    /// The timetabled journey on its operational day.
    pub framed_vehicle_journey_ref: Option<FramedVehicleJourneyRef>,
    /// The timetabled journey, when the operational day is understood.
    pub dated_vehicle_journey_ref: Option<DatedVehicleJourneyRef>,
    /// The timetabled journey, named by where and when it runs.
    pub dated_vehicle_journey_indirect_ref: Option<DatedVehicleJourneyIndirectRef>,
    /// The producer's own identifier for a journey that is in no timetable.
    pub estimated_vehicle_journey_code: Option<String>,
    /// Whether this journey is being run in addition to the timetable.
    pub extra_journey: Option<bool>,
    /// Whether the timetabled journey will not run.
    pub cancellation: Option<bool>,
    /// The journey pattern the journey follows.
    pub journey_pattern_ref: Option<JourneyPatternRef>,
    /// The journey pattern's name.
    pub journey_pattern_name: Option<NaturalLanguageString>,
    /// The modes of transport the journey uses.
    pub vehicle_mode: Vec<VehicleModesOfTransport>,
    /// The route the journey follows.
    pub route_ref: Option<RouteRef>,
    /// The line's name as shown to passengers, one per language.
    pub published_line_name: Vec<NaturalLanguageString>,
    /// The group of lines the line is marketed within.
    pub group_of_lines_ref: Option<GroupOfLinesRef>,
    /// The direction's name as shown to passengers, one per language.
    pub direction_name: Vec<NaturalLanguageString>,
    /// The line as another operator's network identifies it.
    pub external_line_ref: Option<LineRef>,
    /// The brand the service is presented under, stated elsewhere.
    pub branding_ref: Option<BrandingRef>,
    /// The brand the service is presented under, stated here.
    pub branding: Option<Branding>,
    /// Where the journey starts.
    pub origin_ref: Option<JourneyPlaceRef>,
    /// Names of the origin, one per language.
    pub origin_name: Vec<NaturalLanguagePlaceName>,
    /// Shorter names of the origin, one per language.
    pub origin_short_name: Vec<NaturalLanguagePlaceName>,
    /// What is shown at the origin as the destination, one per language.
    pub destination_display_at_origin: Vec<NaturalLanguagePlaceName>,
    /// Places passed through that tell this journey apart from similar ones.
    pub via: Vec<ViaName>,
    /// Where the journey ends.
    pub destination_ref: Option<DestinationRef>,
    /// Names of the destination, one per language.
    pub destination_name: Vec<NaturalLanguageString>,
    /// Shorter names of the destination, one per language.
    pub destination_short_name: Vec<NaturalLanguagePlaceName>,
    /// What is shown at the destination as the origin, one per language.
    pub origin_display_at_destination: Vec<NaturalLanguagePlaceName>,
    /// The operator running the journey.
    pub operator_ref: Option<OperatorRef>,
    /// The commercial category the service belongs to.
    pub product_category_ref: Option<ProductCategoryRef>,
    /// Properties of the service, e.g. that cycles may be carried.
    pub service_feature_ref: Vec<ServiceFeatureRef>,
    /// Properties of the vehicle, e.g. that it has a low floor.
    pub vehicle_feature_ref: Vec<VehicleFeatureRef>,
    /// The journey's own name, one per language.
    pub vehicle_journey_name: Vec<NaturalLanguageString>,
    /// Notes about the journey, one per language.
    pub journey_note: Vec<NaturalLanguageString>,
    /// How passengers can reach the operator.
    pub public_contact: Option<SimpleContact>,
    /// How staff can reach the operator's control room.
    pub operations_contact: Option<SimpleContact>,
    /// Whether the service runs to a headway rather than to fixed times.
    pub headway_service: Option<bool>,
    /// When the journey is planned to leave its origin.
    pub origin_aimed_departure_time: Option<DateTime>,
    /// When it is planned to reach its destination.
    pub destination_aimed_arrival_time: Option<DateTime>,
    /// Whether this is the first or the last journey of the day on the line.
    pub first_or_last_journey: Option<FirstOrLastJourney>,
    /// Changes to how the train is put together.
    pub formation_condition: Vec<FormationCondition>,
    /// Facilities along the journey whose state has changed.
    pub facility_condition_element: Vec<FacilityCondition>,
    /// The same, in the older spelling the schema still allows.
    pub facility_change_element: Option<FacilityChange>,
    /// Situations that explain the state of the journey.
    pub situation_ref: Vec<SituationRef>,
    /// The control action taken to manage the journey.
    pub control_action_ref: Option<ControlActionRef>,
    /// Whether the journey is being tracked in real time.
    pub monitored: Option<bool>,
    /// Why tracking is not working, in the producer's own codes.
    pub monitoring_error: Vec<String>,
    /// Whether the vehicle is caught in traffic.
    pub in_congestion: Option<bool>,
    /// Whether the crew has raised an alarm.
    pub in_panic: Option<bool>,
    /// Whether the predicted times should be treated as unreliable.
    pub prediction_inaccurate: Option<bool>,
    /// Why they are unreliable.
    pub prediction_inaccurate_reason: Option<PredictionInaccurateReason>,
    /// Which system the real-time data came from.
    pub data_source: Option<String>,
    /// How much confidence to put in the data.
    pub confidence_level: Option<QualityIndex>,
    /// Where the vehicle is.
    pub vehicle_location: Option<Location>,
    /// When the position was taken.
    pub location_recorded_at_time: Option<DateTime>,
    /// Which way the vehicle is pointing, in degrees from north.
    pub bearing: Option<Binary64>,
    /// How well the vehicle is getting on.
    pub progress_rate: Option<ProgressRate>,
    /// How fast it is going, in metres per second.
    pub velocity: Option<u64>,
    /// Whether the engine is running.
    pub engine_on: Option<bool>,
    /// How full the vehicle is.
    pub occupancy: Option<Occupancy>,
    /// How far behind the timetable the journey is running.
    pub delay: Option<Duration>,
    /// How the journey is getting on, in the producer's own words.
    pub progress_status: Vec<NaturalLanguageString>,
    /// Where the vehicle is in its day's work.
    pub vehicle_status: Option<VehicleStatus>,
    /// The parts the train is formed of, and where each sits.
    pub train_block_part: Vec<TrainBlockPart>,
    /// The day's work the journey belongs to.
    pub block_ref: Option<BlockRef>,
    /// The run of journeys within that work.
    pub course_of_journey_ref: Option<CourseOfJourneyRef>,
    /// The timetabled journey this run realises.
    pub vehicle_journey_ref: Option<VehicleJourneyRef>,
    /// The vehicle running it.
    pub vehicle_ref: Option<VehicleRef>,
    /// Further journeys the same vehicle is running at the same time.
    pub additional_vehicle_journey_ref: Vec<FramedVehicleJourneyRef>,
    /// The driver on duty.
    pub driver_ref: Option<String>,
    /// The driver's name.
    pub driver_name: Option<String>,
    /// The train numbers the journey runs under.
    pub train_numbers: Option<TrainNumbers>,
    /// The parts the journey is split into.
    pub journey_parts: Option<JourneyParts>,
    /// The carriages and engines the train is made of.
    pub train_elements: Option<TrainElements>,
    /// The trains those elements are coupled into.
    pub trains: Option<Trains>,
    /// The compound trains those trains are joined into.
    pub compound_trains: Option<CompoundTrains>,
    /// The calls that have already happened.
    pub recorded_calls: Option<RecordedCalls>,
    /// The calls still to come.
    pub estimated_calls: Option<EstimatedCalls>,
    /// Whether the calls above are the journey's whole stop sequence.
    pub is_complete_stop_sequence: Option<bool>,
    /// Other journeys this one is joined to, split from or continues as.
    pub journey_relations: Option<JourneyRelations>,
    /// Implementation-defined content.
    pub extensions: Option<Extensions>,
}

/// How an [`EstimatedVehicleJourney`] names the journey it is about.
#[derive(Debug, Clone, Copy, PartialEq, Eq)]
#[non_exhaustive]
pub enum JourneyIdentity<'a> {
    /// A timetabled journey on a stated operational day.
    Framed(&'a FramedVehicleJourneyRef),
    /// A timetabled journey, the operational day being understood.
    Dated(&'a DatedVehicleJourneyRef),
    /// A journey that is in no timetable, under the producer's own code.
    Code(&'a str),
}

/// Whether an [`EstimatedVehicleJourney`] adds a run or takes one away.
#[derive(Debug, Clone, Copy, PartialEq, Eq)]
#[non_exhaustive]
pub enum JourneyAlteration {
    /// The journey is being run in addition to the timetable.
    Extra,
    /// The timetabled journey will not run.
    Cancelled,
}

impl EstimatedVehicleJourney {
    /// A journey on the given line and direction, identified by a timetabled run.
    pub fn dated(
        line_ref: LineRef,
        direction_ref: DirectionRef,
        dated_vehicle_journey_ref: DatedVehicleJourneyRef,
    ) -> (result: Self)
        ensures
            result.recorded_at_time is None,
            result.line_ref == line_ref,
            result.direction_ref == direction_ref,
            result.framed_vehicle_journey_ref is None,
            result.dated_vehicle_journey_ref == Some(dated_vehicle_journey_ref),
            result.dated_vehicle_journey_indirect_ref is None,
            result.estimated_vehicle_journey_code is None,
            result.extra_journey is None,
            result.cancellation is None,
            result.journey_pattern_ref is None,
            result.journey_pattern_name is None,
            result.vehicle_mode@.len() == 0,
            result.route_ref is None,
            result.published_line_name@.len() == 0,
            result.group_of_lines_ref is None,
            result.direction_name@.len() == 0,
            result.external_line_ref is None,
            result.branding_ref is None,
            result.branding is None,
            result.origin_ref is None,
            result.origin_name@.len() == 0,
            result.origin_short_name@.len() == 0,
            result.destination_display_at_origin@.len() == 0,
            result.via@.len() == 0,
            result.destination_ref is None,
            result.destination_name@.len() == 0,
            result.destination_short_name@.len() == 0,
            result.origin_display_at_destination@.len() == 0,
            result.operator_ref is None,
            result.product_category_ref is None,
            result.service_feature_ref@.len() == 0,
            result.vehicle_feature_ref@.len() == 0,
            result.vehicle_journey_name@.len() == 0,
            result.journey_note@.len() == 0,
            result.public_contact is None,
            result.operations_contact is None,
            result.headway_service is None,
            result.origin_aimed_departure_time is None,
            result.destination_aimed_arrival_time is None,
            result.first_or_last_journey is None,
            result.formation_condition@.len() == 0,
            result.facility_condition_element@.len() == 0,
            result.facility_change_element is None,
            result.situation_ref@.len() == 0,
            result.control_action_ref is None,
            result.monitored is None,
            result.monitoring_error@.len() == 0,
            result.in_congestion is None,
            result.in_panic is None,
            result.prediction_inaccurate is None,
            result.prediction_inaccurate_reason is None,
            result.data_source is None,
            result.confidence_level is None,
            result.vehicle_location is None,
            result.location_recorded_at_time is None,
            result.bearing is None,
            result.progress_rate is None,
            result.velocity is None,
            result.engine_on is None,
            result.occupancy is None,
            result.delay is None,
            result.progress_status@.len() == 0,
            result.vehicle_status is None,
            result.train_block_part@.len() == 0,
            result.block_ref is None,
            result.course_of_journey_ref is None,
            result.vehicle_journey_ref is None,
            result.vehicle_ref is None,
            result.additional_vehicle_journey_ref@.len() == 0,
            result.driver_ref is None,
            result.driver_name is None,
            result.train_numbers is None,
            result.journey_parts is None,
            result.train_elements is None,
            result.trains is None,
            result.compound_trains is None,
            result.recorded_calls is None,
            result.estimated_calls is None,
            result.is_complete_stop_sequence is None,
            result.journey_relations is None,
            result.extensions is None,
    {
        Self {
            recorded_at_time: None,
            line_ref,
            direction_ref,
            framed_vehicle_journey_ref: None,
            dated_vehicle_journey_ref: Some(dated_vehicle_journey_ref),
            dated_vehicle_journey_indirect_ref: None,
            estimated_vehicle_journey_code: None,
            extra_journey: None,
            cancellation: None,
            journey_pattern_ref: None,
            journey_pattern_name: None,
            vehicle_mode: Vec::new(),
            route_ref: None,
            published_line_name: Vec::new(),
            group_of_lines_ref: None,
            direction_name: Vec::new(),
            external_line_ref: None,
            branding_ref: None,
            branding: None,
            origin_ref: None,
            origin_name: Vec::new(),
            origin_short_name: Vec::new(),
            destination_display_at_origin: Vec::new(),
            via: Vec::new(),
            destination_ref: None,
            destination_name: Vec::new(),
            destination_short_name: Vec::new(),
            origin_display_at_destination: Vec::new(),
            operator_ref: None,
            product_category_ref: None,
            service_feature_ref: Vec::new(),
            vehicle_feature_ref: Vec::new(),
            vehicle_journey_name: Vec::new(),
            journey_note: Vec::new(),
            public_contact: None,
            operations_contact: None,
            headway_service: None,
            origin_aimed_departure_time: None,
            destination_aimed_arrival_time: None,
            first_or_last_journey: None,
            formation_condition: Vec::new(),
            facility_condition_element: Vec::new(),
            facility_change_element: None,
            situation_ref: Vec::new(),
            control_action_ref: None,
            monitored: None,
            monitoring_error: Vec::new(),
            in_congestion: None,
            in_panic: None,
            prediction_inaccurate: None,
            prediction_inaccurate_reason: None,
            data_source: None,
            confidence_level: None,
            vehicle_location: None,
            location_recorded_at_time: None,
            bearing: None,
            progress_rate: None,
            velocity: None,
            engine_on: None,
            occupancy: None,
            delay: None,
            progress_status: Vec::new(),
            vehicle_status: None,
            train_block_part: Vec::new(),
            block_ref: None,
            course_of_journey_ref: None,
            vehicle_journey_ref: None,
            vehicle_ref: None,
            additional_vehicle_journey_ref: Vec::new(),
            driver_ref: None,
            driver_name: None,
            train_numbers: None,
            journey_parts: None,
            train_elements: None,
            trains: None,
            compound_trains: None,
            recorded_calls: None,
            estimated_calls: None,
            is_complete_stop_sequence: None,
            journey_relations: None,
            extensions: None,
        }
    }

    /// The same journey, cancelled.
    pub fn cancelled(self) -> (result: Self)
        ensures
            result == (EstimatedVehicleJourney { cancellation: Some(true), ..self }),
    {
        let mut journey = self;
        journey.cancellation = Some(true);
        journey
    }

    /// The same journey, carrying the given calls still to come.
    pub fn with_estimated_calls(self, estimated_call: Vec<EstimatedCall>) -> (result: Self)
        ensures
            result == (EstimatedVehicleJourney {
                estimated_calls: Some(EstimatedCalls { estimated_call }),
                ..self
            }),
    {
        let mut journey = self;
        journey.estimated_calls = Some(EstimatedCalls { estimated_call });
        journey
    }

    /// How the journey names the run it is about, or `None` when it names none.
    ///
    /// A framed reference is preferred to a dated one, and a dated one to the
    /// producer's own code, should a journey carry more than one.
    pub fn identity(&self) -> (identity: Option<JourneyIdentity<'_>>)
        ensures
            match identity {
                Some(JourneyIdentity::Framed(framed)) => {
                    self.framed_vehicle_journey_ref == Some(*framed)
                },
                Some(JourneyIdentity::Dated(dated)) => {
                    &&& self.framed_vehicle_journey_ref is None
                    &&& self.dated_vehicle_journey_ref == Some(*dated)
                },
                Some(JourneyIdentity::Code(code)) => {
                    &&& self.framed_vehicle_journey_ref is None
                    &&& self.dated_vehicle_journey_ref is None
                    &&& self.estimated_vehicle_journey_code matches Some(own) && own@ == code@
                },
                None => {
                    &&& self.framed_vehicle_journey_ref is None
                    &&& self.dated_vehicle_journey_ref is None
                    &&& self.estimated_vehicle_journey_code is None
                },
            },
    {
        if let Some(framed) = &self.framed_vehicle_journey_ref {
            Some(JourneyIdentity::Framed(framed))
        } else if let Some(dated) = &self.dated_vehicle_journey_ref {
            Some(JourneyIdentity::Dated(dated))
        } else if let Some(code) = &self.estimated_vehicle_journey_code {
            Some(JourneyIdentity::Code(code.as_str()))
        } else {
            None
        }
    }

    /// Whether the journey adds a run or takes one away, or `None` when it does
    /// neither and merely updates a timetabled run. An extra journey is reported
    /// should both flags be set.
    pub fn alteration(&self) -> (alteration: Option<JourneyAlteration>)
        ensures
            alteration == (if self.extra_journey == Some(true) {
                Some(JourneyAlteration::Extra)
            } else if self.cancellation == Some(true) {
                Some(JourneyAlteration::Cancelled)
            } else {
                None
            }),
    {
        if self.extra_journey == Some(true) {
            Some(JourneyAlteration::Extra)
        } else if self.cancellation == Some(true) {
            Some(JourneyAlteration::Cancelled)
        } else {
            None
        }
    }

    /// The calls still to come; none when the journey carries no such list.
    pub fn estimated_calls(&self) -> (calls: &[EstimatedCall])
        ensures
            match self.estimated_calls {
                Some(list) => calls@ == list.estimated_call@,
                None => calls@.len() == 0,
            },
    {
        match &self.estimated_calls {
            Some(list) => list.estimated_call.as_slice(),
            None => &[],
        }
    }

    /// The calls that have already happened; none when the journey carries no
    /// such list.
    pub fn recorded_calls(&self) -> (calls: &[RecordedCall])
        ensures
            match self.recorded_calls {
                Some(list) => calls@ == list.recorded_call@,
                None => calls@.len() == 0,
            },
    {
        match &self.recorded_calls {
            Some(list) => list.recorded_call.as_slice(),
            None => &[],
        }
    }
}

/// The calls of a journey that are still to come.
#[derive(Debug, Clone, Default, PartialEq)]
pub struct EstimatedCalls {
    /// The calls, at least one.
    pub estimated_call: Vec<EstimatedCall>,
}

/// The calls of a journey that have already happened.
#[derive(Debug, Clone, Default, PartialEq)]
pub struct RecordedCalls {
    /// The calls, at least one.
    pub recorded_call: Vec<RecordedCall>,
}

/// A call still to come, with what is now expected to happen at it.
///
/// A call that is being skipped carries `cancellation`; one that is being made in
/// addition to the timetable carries `extra_call`.
/// [`EstimatedCall::alteration`] reports which.
#[derive(Debug, Clone, PartialEq)]
pub struct EstimatedCall {
    /// The stop.
    pub stop_point_ref: StopPointRef,
    /// Which visit to that stop this is, when the journey calls more than once.
    pub visit_number: Option<u64>,
    /// Where the stop comes in the journey, counting from one.
    pub order: Option<u64>,
    /// Names of the stop, one per language.
    pub stop_point_name: Vec<NaturalLanguageString>,
    /// Whether the call is being made in addition to the timetable.
    pub extra_call: Option<bool>,
    /// Whether the stop is being skipped.
    pub cancellation: Option<bool>,
    /// Whether the predicted times should be treated as unreliable.
    pub prediction_inaccurate: Option<bool>,
    /// Why they are unreliable.
    pub prediction_inaccurate_reason: Option<PredictionInaccurateReason>,
    /// How full the vehicle is expected to be here.
    pub occupancy: Option<Occupancy>,
    /// Whether the stop is a timing point the timetable is measured against.
    pub timing_point: Option<bool>,
    /// Whether passengers may board anywhere along the stretch before this stop.
    pub boarding_stretch: Option<bool>,
    /// Whether the vehicle calls only when asked to.
    pub request_stop: Option<bool>,
    /// What is shown as the origin from this stop on, one per language.
    pub origin_display: Vec<NaturalLanguageString>,
    /// What is shown as the destination from this stop on, one per language.
    pub destination_display: Vec<NaturalLanguageString>,
    /// Notes about this call, one per language.
    pub call_note: Vec<NaturalLanguageString>,
    /// Changes to how the train is put together, taking effect here.
    pub formation_condition: Vec<FormationCondition>,
    /// Facilities at this stop whose state has changed.
    pub facility_condition_element: Vec<FacilityCondition>,
    /// The same, in the older spelling the schema still allows.
    pub facility_change_element: Option<FacilityChange>,
    /// Situations that explain the state of this call.
    pub situation_ref: Vec<SituationRef>,
    /// The control action taken at this call.
    pub control_action_ref: Option<ControlActionRef>,
    /// When the vehicle is planned to arrive.
    pub aimed_arrival_time: Option<DateTime>,
    /// When it is now expected to arrive.
    pub expected_arrival_time: Option<DateTime>,
    /// The latest it could still arrive.
    pub latest_expected_arrival_time: Option<DateTime>,
    /// How much confidence to put in the expected arrival.
    pub expected_arrival_prediction_quality: Option<PredictionQuality>,
    /// That the arrival cannot be predicted at all, instead of the times above.
    pub arrival_prediction_unknown: Option<Empty>,
    /// How the arrival stands against the timetable.
    pub arrival_status: Option<CallStatus>,
    /// Why the arrival was cancelled, one per language.
    pub arrival_cancellation_reason: Vec<NaturalLanguageString>,
    /// How near the vehicle is, in words for a display.
    pub arrival_proximity_text: Vec<NaturalLanguageString>,
    /// The platform the vehicle arrives at, one name per language.
    pub arrival_platform_name: Vec<NaturalLanguageString>,
    /// Whether passengers may alight here.
    pub arrival_boarding_activity: Option<ArrivalBoardingActivity>,
    /// Where the vehicle stands on arrival.
    pub arrival_stop_assignment: Vec<StopAssignment>,
    /// Where each part of the train stands on arrival.
    pub arrival_formation_assignment: Vec<FormationAssignment>,
    /// Which way round the vehicle stands on arrival, one text per language.
    pub arrival_orientation_relative_to_quay: Vec<NaturalLanguageString>,
    /// The operators whose tickets are valid on arrival.
    pub arrival_operator_refs: Vec<OperatorRef>,
    /// When the vehicle is planned to leave.
    pub aimed_departure_time: Option<DateTime>,
    /// When it is now expected to leave.
    pub expected_departure_time: Option<DateTime>,
    /// A working estimate of the departure, pending a firmer one.
    pub provisional_expected_departure_time: Option<DateTime>,
    /// The earliest the vehicle will leave, whatever else happens.
    pub earliest_expected_departure_time: Option<DateTime>,
    /// How much confidence to put in the expected departure.
    pub expected_departure_prediction_quality: Option<PredictionQuality>,
    /// That the departure cannot be predicted at all, instead of the times above.
    pub departure_prediction_unknown: Option<Empty>,
    /// When passengers must be aboard by, as planned.
    pub aimed_latest_passenger_access_time: Option<DateTime>,
    /// When passengers must be aboard by, as now expected.
    pub expected_latest_passenger_access_time: Option<DateTime>,
    /// How the departure stands against the timetable.
    pub departure_status: Option<CallStatus>,
    /// Why the departure was cancelled, one per language.
    pub departure_cancellation_reason: Vec<NaturalLanguageString>,
    /// How near departure is, in words for a display.
    pub departure_proximity_text: Vec<NaturalLanguageString>,
    /// The platform the vehicle leaves from, one name per language.
    pub departure_platform_name: Vec<NaturalLanguageString>,
    /// Whether passengers may board here.
    pub departure_boarding_activity: Option<DepartureBoardingActivity>,
    /// Where the vehicle stands for departure.
    pub departure_stop_assignment: Vec<StopAssignment>,
    /// Where each part of the train stands for departure.
    pub departure_formation_assignment: Vec<FormationAssignment>,
    /// Which way round the vehicle stands for departure, one text per language.
    pub departure_orientation_relative_to_quay: Vec<NaturalLanguageString>,
    /// How full the vehicle is expected to be when it leaves.
    pub expected_departure_occupancy: Vec<VehicleOccupancy>,
    /// How many passengers the vehicle is expected to be able to take on departure.
    pub expected_departure_capacities: Vec<PassengerCapacity>,
    /// How full the vehicle was when it left, instead of the expected figures.
    pub recorded_departure_occupancy: Vec<VehicleOccupancy>,
    /// How many passengers the vehicle could take when it left.
    pub recorded_departure_capacities: Vec<PassengerCapacity>,
    /// The operators whose tickets are valid on departure.
    pub departure_operator_refs: Vec<OperatorRef>,
    /// The planned interval between vehicles on a headway service.
    pub aimed_headway_interval: Option<Duration>,
    /// The interval now expected.
    pub expected_headway_interval: Option<Duration>,
    /// How far away the vehicle still is, in metres.
    pub distance_from_stop: Option<u64>,
    /// How many stops away it still is.
    pub number_of_stops_away: Option<u64>,
    /// Implementation-defined content.
    pub extensions: Option<Extensions>,
}

/// Whether a call is being added or skipped.
#[derive(Debug, Clone, Copy, PartialEq, Eq)]
#[non_exhaustive]
pub enum CallAlteration {
    /// The call is being made in addition to the timetable.
    Extra,
    /// The stop is being skipped.
    Cancelled,
}

impl EstimatedCall {
    /// A call at the given stop with nothing said about it yet.
    pub fn at(stop_point_ref: StopPointRef) -> (result: Self)
        ensures
            result.stop_point_ref == stop_point_ref,
            result.visit_number is None,
            result.order is None,
            result.stop_point_name@.len() == 0,
            result.extra_call is None,
            result.cancellation is None,
            result.prediction_inaccurate is None,
            result.prediction_inaccurate_reason is None,
            result.occupancy is None,
            result.timing_point is None,
            result.boarding_stretch is None,
            result.request_stop is None,
            result.origin_display@.len() == 0,
            result.destination_display@.len() == 0,
            result.call_note@.len() == 0,
            result.formation_condition@.len() == 0,
            result.facility_condition_element@.len() == 0,
            result.facility_change_element is None,
            result.situation_ref@.len() == 0,
            result.control_action_ref is None,
            result.aimed_arrival_time is None,
            result.expected_arrival_time is None,
            result.latest_expected_arrival_time is None,
            result.expected_arrival_prediction_quality is None,
            result.arrival_prediction_unknown is None,
            result.arrival_status is None,
            result.arrival_cancellation_reason@.len() == 0,
            result.arrival_proximity_text@.len() == 0,
            result.arrival_platform_name@.len() == 0,
            result.arrival_boarding_activity is None,
            result.arrival_stop_assignment@.len() == 0,
            result.arrival_formation_assignment@.len() == 0,
            result.arrival_orientation_relative_to_quay@.len() == 0,
            result.arrival_operator_refs@.len() == 0,
            result.aimed_departure_time is None,
            result.expected_departure_time is None,
            result.provisional_expected_departure_time is None,
            result.earliest_expected_departure_time is None,
            result.expected_departure_prediction_quality is None,
            result.departure_prediction_unknown is None,
            result.aimed_latest_passenger_access_time is None,
            result.expected_latest_passenger_access_time is None,
            result.departure_status is None,
            result.departure_cancellation_reason@.len() == 0,
            result.departure_proximity_text@.len() == 0,
            result.departure_platform_name@.len() == 0,
            result.departure_boarding_activity is None,
            result.departure_stop_assignment@.len() == 0,
            result.departure_formation_assignment@.len() == 0,
            result.departure_orientation_relative_to_quay@.len() == 0,
            result.expected_departure_occupancy@.len() == 0,
            result.expected_departure_capacities@.len() == 0,
            result.recorded_departure_occupancy@.len() == 0,
            result.recorded_departure_capacities@.len() == 0,
            result.departure_operator_refs@.len() == 0,
            result.aimed_headway_interval is None,
            result.expected_headway_interval is None,
            result.distance_from_stop is None,
            result.number_of_stops_away is None,
            result.extensions is None,
    {
        Self {
            stop_point_ref,
            visit_number: None,
            order: None,
            stop_point_name: Vec::new(),
            extra_call: None,
            cancellation: None,
            prediction_inaccurate: None,
            prediction_inaccurate_reason: None,
            occupancy: None,
            timing_point: None,
            boarding_stretch: None,
            request_stop: None,
            origin_display: Vec::new(),
            destination_display: Vec::new(),
            call_note: Vec::new(),
            formation_condition: Vec::new(),
            facility_condition_element: Vec::new(),
            facility_change_element: None,
            situation_ref: Vec::new(),
            control_action_ref: None,
            aimed_arrival_time: None,
            expected_arrival_time: None,
            latest_expected_arrival_time: None,
            expected_arrival_prediction_quality: None,
            arrival_prediction_unknown: None,
            arrival_status: None,
            arrival_cancellation_reason: Vec::new(),
            arrival_proximity_text: Vec::new(),
            arrival_platform_name: Vec::new(),
            arrival_boarding_activity: None,
            arrival_stop_assignment: Vec::new(),
            arrival_formation_assignment: Vec::new(),
            arrival_orientation_relative_to_quay: Vec::new(),
            arrival_operator_refs: Vec::new(),
            aimed_departure_time: None,
            expected_departure_time: None,
            provisional_expected_departure_time: None,
            earliest_expected_departure_time: None,
            expected_departure_prediction_quality: None,
            departure_prediction_unknown: None,
            aimed_latest_passenger_access_time: None,
            expected_latest_passenger_access_time: None,
            departure_status: None,
            departure_cancellation_reason: Vec::new(),
            departure_proximity_text: Vec::new(),
            departure_platform_name: Vec::new(),
            departure_boarding_activity: None,
            departure_stop_assignment: Vec::new(),
            departure_formation_assignment: Vec::new(),
            departure_orientation_relative_to_quay: Vec::new(),
            expected_departure_occupancy: Vec::new(),
            expected_departure_capacities: Vec::new(),
            recorded_departure_occupancy: Vec::new(),
            recorded_departure_capacities: Vec::new(),
            departure_operator_refs: Vec::new(),
            aimed_headway_interval: None,
            expected_headway_interval: None,
            distance_from_stop: None,
            number_of_stops_away: None,
            extensions: None,
        }
    }

    /// The same call, skipped.
    pub fn cancelled(self) -> (result: Self)
        ensures
            result == (EstimatedCall { cancellation: Some(true), ..self }),
    {
        let mut call = self;
        call.cancellation = Some(true);
        call
    }

    /// Whether the call is being added or skipped, or `None` when it is neither.
    /// An extra call is reported should both flags be set.
    pub fn alteration(&self) -> (alteration: Option<CallAlteration>)
        ensures
            alteration == (if self.extra_call == Some(true) {
                Some(CallAlteration::Extra)
            } else if self.cancellation == Some(true) {
                Some(CallAlteration::Cancelled)
            } else {
                None
            }),
    {
        if self.extra_call == Some(true) {
            Some(CallAlteration::Extra)
        } else if self.cancellation == Some(true) {
            Some(CallAlteration::Cancelled)
        } else {
            None
        }
    }
}

/// A call that has already happened, with what actually did.
#[derive(Debug, Clone, PartialEq)]
pub struct RecordedCall {
    /// The stop.
    pub stop_point_ref: StopPointRef,
    /// Which visit to that stop this was, when the journey calls more than once.
    pub visit_number: Option<u64>,
    /// Where the stop came in the journey, counting from one.
    pub order: Option<u64>,
    /// Names of the stop, one per language.
    pub stop_point_name: Vec<NaturalLanguageString>,
    /// Whether the call was made in addition to the timetable.
    pub extra_call: Option<bool>,
    /// Whether the stop was skipped.
    pub cancellation: Option<bool>,
    /// Whether the times recorded should be treated as unreliable.
    pub prediction_inaccurate: Option<bool>,
    /// Why they are unreliable.
    pub prediction_inaccurate_reason: Option<PredictionInaccurateReason>,
    /// How full the vehicle was here.
    pub occupancy: Option<Occupancy>,
    /// Whether the stop is a timing point the timetable is measured against.
    pub timing_point: Option<bool>,
    /// Whether passengers could board anywhere along the stretch before this stop.
    pub boarding_stretch: Option<bool>,
    /// Whether the vehicle called only because it was asked to.
    pub request_stop: Option<bool>,
    /// What was shown as the origin from this stop on, one per language.
    pub origin_display: Vec<NaturalLanguageString>,
    /// What was shown as the destination from this stop on, one per language.
    pub destination_display: Vec<NaturalLanguageString>,
    /// Notes about this call, one per language.
    pub call_note: Vec<NaturalLanguageString>,
    /// Changes to how the train was put together, taking effect here.
    pub formation_condition: Vec<FormationCondition>,
    /// Facilities at this stop whose state has changed.
    pub facility_condition_element: Vec<FacilityCondition>,
    /// The same, in the older spelling the schema still allows.
    pub facility_change_element: Option<FacilityChange>,
    /// Situations that explain the state of this call.
    pub situation_ref: Vec<SituationRef>,
    /// The control action taken at this call.
    pub control_action_ref: Option<ControlActionRef>,
    /// When the vehicle was planned to arrive.
    pub aimed_arrival_time: Option<DateTime>,
    /// When it was last expected to arrive.
    pub expected_arrival_time: Option<DateTime>,
    /// When it did arrive.
    pub actual_arrival_time: Option<DateTime>,
    /// How the arrival stood against the timetable.
    pub arrival_status: Option<CallStatus>,
    /// Why the arrival was cancelled, one per language.
    pub arrival_cancellation_reason: Vec<NaturalLanguageString>,
    /// How near the vehicle was, in words for a display.
    pub arrival_proximity_text: Vec<NaturalLanguageString>,
    /// The platform the vehicle arrived at, one name per language.
    pub arrival_platform_name: Vec<NaturalLanguageString>,
    /// Whether passengers could alight here.
    pub arrival_boarding_activity: Option<ArrivalBoardingActivity>,
    /// Where the vehicle stood on arrival.
    pub arrival_stop_assignment: Vec<StopAssignment>,
    /// Where each part of the train stood on arrival.
    pub arrival_formation_assignment: Vec<FormationAssignment>,
    /// Which way round the vehicle stood on arrival, one text per language.
    pub arrival_orientation_relative_to_quay: Vec<NaturalLanguageString>,
    /// The operators whose tickets were valid on arrival.
    pub arrival_operator_refs: Vec<OperatorRef>,
    /// When the vehicle was planned to leave.
    pub aimed_departure_time: Option<DateTime>,
    /// When it was last expected to leave.
    pub expected_departure_time: Option<DateTime>,
    /// The platform the vehicle left from, one name per language.
    ///
    /// The schema puts this element here, between the expected and the actual
    /// departure, only in a recorded call; everywhere else it comes after the
    /// departure status. The schema says so explicitly, and calls it an old mistake
    /// that backward compatibility forbids correcting.
    pub departure_platform_name: Vec<NaturalLanguageString>,
    /// When it did leave.
    pub actual_departure_time: Option<DateTime>,
    /// How the departure stood against the timetable.
    pub departure_status: Option<CallStatus>,
    /// Why the departure was cancelled, one per language.
    pub departure_cancellation_reason: Vec<NaturalLanguageString>,
    /// How near departure was, in words for a display.
    pub departure_proximity_text: Vec<NaturalLanguageString>,
    /// Whether passengers could board here.
    pub departure_boarding_activity: Option<DepartureBoardingActivity>,
    /// Where the vehicle stood for departure.
    pub departure_stop_assignment: Vec<StopAssignment>,
    /// Where each part of the train stood for departure.
    pub departure_formation_assignment: Vec<FormationAssignment>,
    /// Which way round the vehicle stood for departure, one text per language.
    pub departure_orientation_relative_to_quay: Vec<NaturalLanguageString>,
    /// How full the vehicle was when it left.
    pub recorded_departure_occupancy: Vec<VehicleOccupancy>,
    /// How many passengers the vehicle could take when it left.
    pub recorded_departure_capacities: Vec<PassengerCapacity>,
    /// The operators whose tickets were valid on departure.
    pub departure_operator_refs: Vec<OperatorRef>,
    /// The planned interval between vehicles on a headway service.
    pub aimed_headway_interval: Option<Duration>,
    /// The interval that was last expected.
    pub expected_headway_interval: Option<Duration>,
    /// The interval there actually was.
    pub actual_headway_interval: Option<Duration>,
    /// Implementation-defined content.
    pub extensions: Option<Extensions>,
}

/// An interchange between two journeys, as it is now expected to work out.
///
/// The feeder is the journey passengers arrive on, the distributor the one they
/// leave on. `will_not_wait` and `will_wait` are the schema's two answers to the
/// only question that matters once the feeder is late.
#[derive(Debug, Clone, PartialEq)]
pub struct EstimatedServiceJourneyInterchange {
    /// The planned interchange this updates.
    pub interchange_ref: Option<InterchangeRef>,
    /// The producer's code for an interchange that is not separately identified.
    pub interchange_code: Option<String>,
    /// The link passengers walk along between the two.
    pub connection_link_ref: Option<ConnectionLinkRef>,
    /// The journey passengers arrive on.
    pub feeder_journey_ref: Option<ConnectingJourneyRef>,
    /// Where they arrive.
    pub feeder_arrival_stop_ref: Option<StopPointRef>,
    /// Which visit to that stop the arrival is.
    pub feeder_visit_number: Option<u64>,
    /// Where that stop comes in the feeder's journey.
    pub feeder_stop_order: Option<u64>,
    /// When the feeder is planned to arrive.
    pub aimed_arrival_time_of_feeder: Option<DateTime>,
    /// The journey passengers leave on.
    pub distributor_journey_ref: Option<ConnectingJourneyRef>,
    /// Where they leave from.
    pub distributor_departure_stop_ref: Option<StopPointRef>,
    /// Which visit to that stop the departure is.
    pub distributor_visit_number: Option<u64>,
    /// Where that stop comes in the distributor's journey.
    pub distributor_stop_order: Option<u64>,
    /// When the distributor is planned to leave.
    pub aimed_departure_time_of_distributor: Option<DateTime>,
    /// Whether passengers may stay in their seats.
    pub stay_seated: Option<bool>,
    /// Whether the connection is guaranteed to be held.
    pub guaranteed: Option<bool>,
    /// Whether the connection is shown to passengers.
    pub advertised: Option<bool>,
    /// How the interchange is being managed.
    pub interchange_status: Option<InterchangeStatus>,
    /// That the distributor will leave without the feeder's passengers.
    pub will_not_wait: Option<Empty>,
    /// That the distributor will be held, and until when.
    pub will_wait: Option<WillWait>,
    /// When the feeder is now expected to arrive.
    pub expected_arrival_time_of_feeder: Option<DateTime>,
    /// When the distributor is now expected to leave.
    pub expected_departure_time_of_distributor: Option<DateTime>,
    /// Whether the connection is being watched.
    pub connection_monitoring: Option<bool>,
    /// How long the distributor normally waits.
    pub standard_wait_time: Option<Duration>,
    /// The longest it will wait.
    pub maximum_wait_time: Option<Duration>,
    /// The longest it will wait without a controller deciding.
    pub maximum_automatic_wait_time: Option<Duration>,
    /// How long the transfer normally takes.
    pub standard_transfer_time: Option<Duration>,
    /// The shortest time it can be made in.
    pub minimum_transfer_time: Option<Duration>,
    /// The longest it may take.
    pub maximum_transfer_time: Option<Duration>,
    /// Implementation-defined content.
    pub extensions: Option<Extensions>,
}

/// That a distributor will be held for a late feeder, and until when.
#[derive(Debug, Clone, PartialEq)]
pub struct WillWait {
    /// The latest the distributor will leave.
    pub wait_until_time: DateTime,
    /// Whether the driver has confirmed the wait.
    ///
    /// The schema offers this element under two spellings, one of them a
    /// misspelling it keeps for backward compatibility; both are read, and the
    /// corrected spelling is what gets written.
    pub driver_has_acknowledged_will_wait: Option<bool>,
}

impl WillWait {
    /// A distributor held until the given time.
    pub fn until(wait_until_time: DateTime) -> (result: Self)
        ensures
            result.wait_until_time == wait_until_time,
            result.driver_has_acknowledged_will_wait is None,
    {
        Self {
            wait_until_time,
            driver_has_acknowledged_will_wait: None,
        }
    }
}

} // verus!
