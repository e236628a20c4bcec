//! The planned view of a journey: what the timetable says will happen.
//!
//! A [`DatedVehicleJourney`] is one run on one operational day, with the stops it
//! is planned to make ([`DatedCall`]) and the connections planned around it. It
//! carries only aimed times: what is actually happening belongs to the estimated
//! and monitored views.
//!
//! As in those, the schema's groups are inlined: a group contributes its elements
//! to the enclosing sequence rather than nesting them.

use crate::enumerations::{
    ArrivalBoardingActivity, DepartureBoardingActivity, FirstOrLastJourney, VehicleModesOfTransport,
};
use crate::model::call::PlannedStopAssignment;
use crate::model::formation::{CompoundTrains, FormationAssignment, TrainElements, Trains};
use crate::model::journey::{
    Branding, BrandingRef, ConnectingJourneyRef, DatedVehicleJourneyIndirectRef, GroupOfLinesRef,
    JourneyParts, JourneyPlaceRef, JourneyRelations, SimpleContact, TrainBlockPart, TrainNumbers,
    ViaName,
};
use crate::model::reference::{
    BlockRef, ConnectionLinkRef, CourseOfJourneyRef, DatedVehicleJourneyRef, DestinationRef,
    FramedVehicleJourneyRef, InterchangeRef, JourneyPatternRef, LineRef, OperatorRef,
    ProductCategoryRef, RouteRef, ServiceFeatureRef, StopPointRef, VehicleFeatureRef,
    VehicleJourneyRef, VehicleRef,
};
use crate::types::{Duration, Extensions, NaturalLanguagePlaceName, NaturalLanguageString};
use crate::types::DateTime;
use vstd::prelude::*;

verus! {

/// One planned run of a journey on one operational day.
#[derive(Debug, Clone, Default, PartialEq)]
pub struct DatedVehicleJourney {
    /// The producer's identifier for this run.
    pub dated_vehicle_journey_code: Option<String>,
    /// The journey this run realises, on its operational day.
    pub framed_vehicle_journey_ref: Option<FramedVehicleJourneyRef>,
    /// The journey this run realises, the operational day being understood.
    pub vehicle_journey_ref: Option<VehicleJourneyRef>,
    /// Whether this run is being added to the timetable.
    pub extra_journey: Option<bool>,
    /// Whether the timetabled run will not happen.
    pub cancellation: Option<bool>,
    /// The journey pattern the run follows.
    pub journey_pattern_ref: Option<JourneyPatternRef>,
    /// The journey pattern's name.
    pub journey_pattern_name: Option<NaturalLanguageString>,
    /// The modes of transport the run uses.
    pub vehicle_mode: Vec<VehicleModesOfTransport>,
    /// The route the run follows.
    pub route_ref: Option<RouteRef>,
    /// The line's name as shown to passengers, one per language.
    pub published_line_name: Vec<NaturalLanguageString>,
    /// The group of lines the line is marketed within.
    pub group_of_lines_ref: Option<GroupOfLinesRef>,
    /// The direction's name as shown to passengers, one per language.
    pub direction_name: Vec<NaturalLanguageString>,
    /// The line as another operator's network identifies it.
    pub external_line_ref: Option<LineRef>,
    /// The brand the service is presented under, stated elsewhere.
    pub branding_ref: Option<BrandingRef>,
    /// The brand the service is presented under, stated here.
    pub branding: Option<Branding>,
    /// Where the run starts.
    pub origin_ref: Option<JourneyPlaceRef>,
    /// Names of the origin, one per language.
    pub origin_name: Vec<NaturalLanguagePlaceName>,
    /// Shorter names of the origin, one per language.
    pub origin_short_name: Vec<NaturalLanguagePlaceName>,
    /// What is shown at the origin as the destination, one per language.
    pub destination_display_at_origin: Vec<NaturalLanguagePlaceName>,
    /// Places passed through that tell this run apart from similar ones.
    pub via: Vec<ViaName>,
    /// Where the run ends.
    pub destination_ref: Option<DestinationRef>,
    /// Names of the destination, one per language.
    pub destination_name: Vec<NaturalLanguageString>,
    /// Shorter names of the destination, one per language.
    pub destination_short_name: Vec<NaturalLanguagePlaceName>,
    /// What is shown at the destination as the origin, one per language.
    pub origin_display_at_destination: Vec<NaturalLanguagePlaceName>,
    /// The operator running the service.
    pub operator_ref: Option<OperatorRef>,
    /// The commercial category the service belongs to.
    pub product_category_ref: Option<ProductCategoryRef>,
    /// Properties of the service, e.g. that cycles may be carried.
    pub service_feature_ref: Vec<ServiceFeatureRef>,
    /// Properties of the vehicle, e.g. that it has a low floor.
    pub vehicle_feature_ref: Vec<VehicleFeatureRef>,
    /// The run's own name, one per language.
    pub vehicle_journey_name: Vec<NaturalLanguageString>,
    /// Notes about the run, one per language.
    pub journey_note: Vec<NaturalLanguageString>,
    /// How passengers can reach the operator.
    pub public_contact: Option<SimpleContact>,
    /// How staff can reach the operator's control room.
    pub operations_contact: Option<SimpleContact>,
    /// What is shown as the origin, one per language.
    pub origin_display: Vec<NaturalLanguageString>,
    /// What is shown as the destination, one per language.
    pub destination_display: Vec<NaturalLanguageString>,
    /// Notes about the line, one per language.
    pub line_note: Vec<NaturalLanguagePlaceName>,
    /// Whether this is the first or the last run of the day on the line.
    pub first_or_last_journey: Option<FirstOrLastJourney>,
    /// Whether the service runs to a headway rather than to fixed times.
    pub headway_service: Option<bool>,
    /// Whether the run will be tracked in real time.
    pub monitored: Option<bool>,
    /// The parts the train is formed of, and where each sits.
    pub train_block_part: Vec<TrainBlockPart>,
    /// The day's work the run belongs to.
    pub block_ref: Option<BlockRef>,
    /// The sequence of runs within that work.
    pub course_of_journey_ref: Option<CourseOfJourneyRef>,
    /// The vehicle planned to run it.
    pub vehicle_ref: Option<VehicleRef>,
    /// The train numbers the run is planned under.
    pub train_numbers: Option<TrainNumbers>,
    /// The parts the run is split into.
    pub journey_parts: Option<JourneyParts>,
    /// The carriages and engines the train is made of.
    pub train_elements: Option<TrainElements>,
    /// The trains those elements are coupled into.
    pub trains: Option<Trains>,
    /// The compound trains those trains are joined into.
    pub compound_trains: Option<CompoundTrains>,
    /// The stops the run is planned to make; the schema requires at least two.
    pub dated_calls: DatedCalls,
    /// Other runs this one is joined to, split from or continues as.
    pub journey_relations: Option<JourneyRelations>,
    /// Implementation-defined content.
    pub extensions: Option<Extensions>,
}

impl DatedVehicleJourney {
    /// A run under the given code, calling at the given stops.
    pub fn new(dated_vehicle_journey_code: String, dated_call: Vec<DatedCall>) -> (result: Self)
        ensures
            result.dated_vehicle_journey_code == Some(dated_vehicle_journey_code),
            result.framed_vehicle_journey_ref is None,
            result.vehicle_journey_ref is None,
            result.extra_journey is None,
            result.cancellation is None,
            result.journey_pattern_ref is None,
            result.journey_pattern_name is None,
            result.vehicle_mode@.len() == 0,
            result.route_ref is None,
            result.published_line_name@.len() == 0,
            result.group_of_lines_ref is None,
            result.direction_name@.len() == 0,
            result.external_line_ref is None,
            result.branding_ref is None,
            result.branding is None,
            result.origin_ref is None,
            result.origin_name@.len() == 0,
            result.origin_short_name@.len() == 0,
            result.destination_display_at_origin@.len() == 0,
            result.via@.len() == 0,
            result.destination_ref is None,
            result.destination_name@.len() == 0,
            result.destination_short_name@.len() == 0,
            result.origin_display_at_destination@.len() == 0,
            result.operator_ref is None,
            result.product_category_ref is None,
            result.service_feature_ref@.len() == 0,
            result.vehicle_feature_ref@.len() == 0,
            result.vehicle_journey_name@.len() == 0,
            result.journey_note@.len() == 0,
            result.public_contact is None,
            result.operations_contact is None,
            result.origin_display@.len() == 0,
            result.destination_display@.len() == 0,
            result.line_note@.len() == 0,
            result.first_or_last_journey is None,
            result.headway_service is None,
            result.monitored is None,
            result.train_block_part@.len() == 0,
            result.block_ref is None,
            result.course_of_journey_ref is None,
            result.vehicle_ref is None,
            result.train_numbers is None,
            result.journey_parts is None,
            result.train_elements is None,
            result.trains is None,
            result.compound_trains is None,
            result.dated_calls == (DatedCalls { dated_call }),
            result.journey_relations is None,
            result.extensions is None,
    {
        Self {
            dated_vehicle_journey_code: Some(dated_vehicle_journey_code),
            framed_vehicle_journey_ref: None,
            vehicle_journey_ref: None,
            extra_journey: None,
            cancellation: None,
            journey_pattern_ref: None,
            journey_pattern_name: None,
            vehicle_mode: Vec::new(),
            route_ref: None,
            published_line_name: Vec::new(),
            group_of_lines_ref: None,
            direction_name: Vec::new(),
            external_line_ref: None,
            branding_ref: None,
            branding: None,
            origin_ref: None,
            origin_name: Vec::new(),
            origin_short_name: Vec::new(),
            destination_display_at_origin: Vec::new(),
            via: Vec::new(),
            destination_ref: None,
            destination_name: Vec::new(),
            destination_short_name: Vec::new(),
            origin_display_at_destination: Vec::new(),
            operator_ref: None,
            product_category_ref: None,
            service_feature_ref: Vec::new(),
            vehicle_feature_ref: Vec::new(),
            vehicle_journey_name: Vec::new(),
            journey_note: Vec::new(),
            public_contact: None,
            operations_contact: None,
            origin_display: Vec::new(),
            destination_display: Vec::new(),
            line_note: Vec::new(),
            first_or_last_journey: None,
            headway_service: None,
            monitored: None,
            train_block_part: Vec::new(),
            block_ref: None,
            course_of_journey_ref: None,
            vehicle_ref: None,
            train_numbers: None,
            journey_parts: None,
            train_elements: None,
            trains: None,
            compound_trains: None,
            dated_calls: DatedCalls { dated_call },
            journey_relations: None,
            extensions: None,
        }
    }

    /// The stops the run is planned to make.
    pub fn dated_calls(&self) -> (calls: &[DatedCall])
        ensures
            calls@ == self.dated_calls.dated_call@,
    {
        self.dated_calls.dated_call.as_slice()
    }
}

/// The stops a planned run is to make.
#[derive(Debug, Clone, Default, PartialEq)]
pub struct DatedCalls {
    /// The calls; the schema requires at least two.
    pub dated_call: Vec<DatedCall>,
}

/// One stop a planned run is to make, with its aimed times.
#[derive(Debug, Clone, PartialEq)]
pub struct DatedCall {
    /// The stop.
    pub stop_point_ref: StopPointRef,
    /// Which visit to that stop this is, when the run calls more than once.
    pub visit_number: Option<u64>,
    /// Where the stop comes in the run, counting from one.
    pub order: Option<u64>,
    /// Names of the stop, one per language.
    pub stop_point_name: Vec<NaturalLanguageString>,
    /// Whether the call is being added to the timetable.
    pub extra_call: Option<bool>,
    /// Whether the stop is being skipped.
    pub cancellation: Option<bool>,
    /// Whether the stop is a timing point the timetable is measured against.
    pub timing_point: Option<bool>,
    /// Whether passengers may board anywhere along the stretch before this stop.
    pub boarding_stretch: Option<bool>,
    /// Whether the vehicle calls only when asked to.
    pub request_stop: Option<bool>,
    /// What is shown as the origin from this stop on, one per language.
    pub origin_display: Vec<NaturalLanguageString>,
    /// What is shown as the destination from this stop on, one per language.
    pub destination_display: Vec<NaturalLanguageString>,
    /// Notes about this call, one per language.
    pub call_note: Vec<NaturalLanguageString>,
    /// When the vehicle is planned to arrive.
    pub aimed_arrival_time: Option<DateTime>,
    /// The platform the vehicle is planned to arrive at, one name per language.
    pub arrival_platform_name: Vec<NaturalLanguageString>,
    /// Whether passengers may alight here.
    pub arrival_boarding_activity: Option<ArrivalBoardingActivity>,
    /// Where the vehicle is planned to stand on arrival.
    pub arrival_stop_assignment: Vec<PlannedStopAssignment>,
    /// Where each part of the train is planned to stand on arrival.
    pub arrival_formation_assignment: Vec<FormationAssignment>,
    /// The operators whose tickets are valid on arrival.
    pub arrival_operator_refs: Vec<OperatorRef>,
    /// When the vehicle is planned to leave.
    pub aimed_departure_time: Option<DateTime>,
    /// The platform the vehicle is planned to leave from, one name per language.
    pub departure_platform_name: Vec<NaturalLanguageString>,
    /// Whether passengers may board here.
    pub departure_boarding_activity: Option<DepartureBoardingActivity>,
    /// Where the vehicle is planned to stand for departure.
    pub departure_stop_assignment: Vec<PlannedStopAssignment>,
    /// Where each part of the train is planned to stand for departure.
    pub departure_formation_assignment: Vec<FormationAssignment>,
    /// The operators whose tickets are valid on departure.
    pub departure_operator_refs: Vec<OperatorRef>,
    /// When passengers must be aboard by.
    pub aimed_latest_passenger_access_time: Option<DateTime>,
    /// The planned interval between vehicles on a headway service.
    pub aimed_headway_interval: Option<Duration>,
    /// Connections onto other services planned from this call.
    pub targeted_interchange: Vec<TargetedInterchange>,
    /// Interchanges at which this call is the arrival passengers change from.
    pub from_service_journey_interchange: Vec<FromServiceJourneyInterchange>,
    /// Interchanges at which this call is the departure passengers change onto.
    pub to_service_journey_interchange: Vec<ToServiceJourneyInterchange>,
    /// Implementation-defined content.
    pub extensions: Option<Extensions>,
}

impl DatedCall {
    /// A call at the given stop with nothing said about it yet.
    pub fn at(stop_point_ref: StopPointRef) -> (result: Self)
        ensures
            result.stop_point_ref == stop_point_ref,
            result.visit_number is None,
            result.order is None,
            result.stop_point_name@.len() == 0,
            result.extra_call is None,
            result.cancellation is None,
            result.timing_point is None,
            result.boarding_stretch is None,
            result.request_stop is None,
            result.origin_display@.len() == 0,
            result.destination_display@.len() == 0,
            result.call_note@.len() == 0,
            result.aimed_arrival_time is None,
            result.arrival_platform_name@.len() == 0,
            result.arrival_boarding_activity is None,
            result.arrival_stop_assignment@.len() == 0,
            result.arrival_formation_assignment@.len() == 0,
            result.arrival_operator_refs@.len() == 0,
            result.aimed_departure_time is None,
            result.departure_platform_name@.len() == 0,
            result.departure_boarding_activity is None,
            result.departure_stop_assignment@.len() == 0,
            result.departure_formation_assignment@.len() == 0,
            result.departure_operator_refs@.len() == 0,
            result.aimed_latest_passenger_access_time is None,
            result.aimed_headway_interval is None,
            result.targeted_interchange@.len() == 0,
            result.from_service_journey_interchange@.len() == 0,
            result.to_service_journey_interchange@.len() == 0,
            result.extensions is None,
    {
        Self {
            stop_point_ref,
            visit_number: None,
            order: None,
            stop_point_name: Vec::new(),
            extra_call: None,
            cancellation: None,
            timing_point: None,
            boarding_stretch: None,
            request_stop: None,
            origin_display: Vec::new(),
            destination_display: Vec::new(),
            call_note: Vec::new(),
            aimed_arrival_time: None,
            arrival_platform_name: Vec::new(),
            arrival_boarding_activity: None,
            arrival_stop_assignment: Vec::new(),
            arrival_formation_assignment: Vec::new(),
            arrival_operator_refs: Vec::new(),
            aimed_departure_time: None,
            departure_platform_name: Vec::new(),
            departure_boarding_activity: None,
            departure_stop_assignment: Vec::new(),
            departure_formation_assignment: Vec::new(),
            departure_operator_refs: Vec::new(),
            aimed_latest_passenger_access_time: None,
            aimed_headway_interval: None,
            targeted_interchange: Vec::new(),
            from_service_journey_interchange: Vec::new(),
            to_service_journey_interchange: Vec::new(),
            extensions: None,
        }
    }
}

/// A run that has been taken out of a timetable already published.
#[derive(Debug, Clone, PartialEq)]
pub struct RemovedDatedVehicleJourney {
    /// The run being removed.
    pub framed_vehicle_journey_ref: FramedVehicleJourneyRef,
    /// The same run, named by where and when it ran.
    pub dated_vehicle_journey_indirect_ref: Option<DatedVehicleJourneyIndirectRef>,
    /// The train numbers it was planned under.
    pub train_numbers: Option<TrainNumbers>,
    /// Why it was removed, in words.
    pub reason_for_removal: NaturalLanguageString,
}

/// A connection planned from one call onto a named onward service.
#[derive(Debug, Clone, PartialEq)]
pub struct TargetedInterchange {
    /// The producer's code for the interchange.
    pub interchange_code: Option<String>,
    /// The onward run passengers change onto.
    pub distributor_vehicle_journey_ref: DatedVehicleJourneyRef,
    /// The link passengers walk along, stated elsewhere.
    pub distributor_connection_link_ref: Option<ConnectionLinkRef>,
    /// The link passengers walk along, stated here.
    pub distributor_connection_link: Option<ContextualisedConnectionLink>,
    /// Which visit to the departure stop the onward service makes.
    pub distributor_visit_number: Option<u64>,
    /// Where that stop comes in the onward run.
    pub distributor_order: Option<u64>,
    /// Whether passengers may stay in their seats.
    pub stay_seated: Option<bool>,
    /// Whether the connection is guaranteed to be held.
    pub guaranteed: Option<bool>,
    /// Whether the connection is shown to passengers.
    pub advertised: Option<bool>,
    /// How long the onward service normally waits.
    pub standard_wait_time: Option<Duration>,
    /// The longest it will wait.
    pub maximum_wait_time: Option<Duration>,
    /// The longest it will wait without a controller deciding.
    pub maximum_automatic_wait_time: Option<Duration>,
    /// How long the transfer normally takes.
    pub standard_transfer_time: Option<Duration>,
    /// The shortest time it can be made in.
    pub minimum_transfer_time: Option<Duration>,
    /// The longest it may take.
    pub maximum_transfer_time: Option<Duration>,
}

impl TargetedInterchange {
    /// A connection onto the given run, with nothing else said about it yet.
    pub fn onto(distributor_vehicle_journey_ref: DatedVehicleJourneyRef) -> (result: Self)
        ensures
            result.interchange_code is None,
            result.distributor_vehicle_journey_ref == distributor_vehicle_journey_ref,
            result.distributor_connection_link_ref is None,
            result.distributor_connection_link is None,
            result.distributor_visit_number is None,
            result.distributor_order is None,
            result.stay_seated is None,
            result.guaranteed is None,
            result.advertised is None,
            result.standard_wait_time is None,
            result.maximum_wait_time is None,
            result.maximum_automatic_wait_time is None,
            result.standard_transfer_time is None,
            result.minimum_transfer_time is None,
            result.maximum_transfer_time is None,
    {
        Self {
            interchange_code: None,
            distributor_vehicle_journey_ref,
            distributor_connection_link_ref: None,
            distributor_connection_link: None,
            distributor_visit_number: None,
            distributor_order: None,
            stay_seated: None,
            guaranteed: None,
            advertised: None,
            standard_wait_time: None,
            maximum_wait_time: None,
            maximum_automatic_wait_time: None,
            standard_transfer_time: None,
            minimum_transfer_time: None,
            maximum_transfer_time: None,
        }
    }
}

/// A walking link between two services, described where it is used.
#[derive(Debug, Clone, Default, PartialEq)]
pub struct ContextualisedConnectionLink {
    /// The producer's code for the link.
    pub connection_link_code: Option<String>,
    /// The stop the link runs within or from.
    pub stop_point_ref: Option<StopPointRef>,
    /// That stop's name.
    pub stop_point_name: Option<NaturalLanguageString>,
    /// How long the walk normally takes.
    pub default_duration: Option<Duration>,
    /// How long it takes someone who knows the way.
    pub frequent_traveller_duration: Option<Duration>,
    /// How long it takes someone who does not.
    pub occasional_traveller_duration: Option<Duration>,
    /// How long it takes someone with impaired mobility.
    pub impaired_access_duration: Option<Duration>,
}

/// A planned interchange between two runs, stated as part of a timetable.
#[derive(Debug, Clone, PartialEq)]
pub struct ServiceJourneyInterchange {
    /// The producer's code for the interchange.
    pub interchange_code: Option<String>,
    /// The link passengers walk along.
    pub connection_link_ref: Option<ConnectionLinkRef>,
    /// Whether the interchange is being added to the timetable.
    pub extra_interchange: Option<bool>,
    /// Whether the planned interchange will not happen.
    pub cancellation: Option<bool>,
    /// The run passengers arrive on.
    pub feeder_ref: ConnectingJourneyRef,
    /// Where they arrive.
    pub feeder_arrival_stop_ref: StopPointRef,
    /// Which visit to that stop the arrival is.
    pub feeder_visit_number: Option<u64>,
    /// Where that stop comes in the feeder's run.
    pub feeder_stop_order: Option<u64>,
    /// When the feeder is planned to arrive.
    pub aimed_arrival_time_of_feeder: Option<DateTime>,
    /// The run passengers leave on.
    pub distributor_ref: ConnectingJourneyRef,
    /// Where they leave from.
    pub distributor_departure_stop_ref: StopPointRef,
    /// Which visit to that stop the departure is.
    pub distributor_visit_number: Option<u64>,
    /// Where that stop comes in the distributor's run.
    pub distributor_stop_order: Option<u64>,
    /// When the distributor is planned to leave.
    pub aimed_departure_time_of_distributor: Option<DateTime>,
    /// Whether passengers may stay in their seats.
    pub stay_seated: Option<bool>,
    /// Whether the connection is guaranteed to be held.
    pub guaranteed: Option<bool>,
    /// Whether the connection is shown to passengers.
    pub advertised: Option<bool>,
    /// How long the distributor normally waits.
    pub standard_wait_time: Option<Duration>,
    /// The longest it will wait.
    pub maximum_wait_time: Option<Duration>,
    /// The longest it will wait without a controller deciding.
    pub maximum_automatic_wait_time: Option<Duration>,
    /// How long the transfer normally takes.
    pub standard_transfer_time: Option<Duration>,
    /// The shortest time it can be made in.
    pub minimum_transfer_time: Option<Duration>,
    /// The longest it may take.
    pub maximum_transfer_time: Option<Duration>,
    /// Implementation-defined content.
    pub extensions: Option<Extensions>,
}

/// An interchange seen from the arriving side: the call is where passengers get off.
#[derive(Debug, Clone, PartialEq)]
pub struct FromServiceJourneyInterchange {
    /// The producer's code for the interchange.
    pub interchange_code: Option<String>,
    /// The link passengers walk along.
    pub connection_link_ref: Option<ConnectionLinkRef>,
    /// The run passengers arrive on.
    pub feeder_ref: ConnectingJourneyRef,
    /// Where they arrive.
    pub feeder_arrival_stop_ref: StopPointRef,
    /// Which visit to that stop the arrival is.
    pub feeder_visit_number: Option<u64>,
    /// Where that stop comes in the feeder's run.
    pub feeder_stop_order: Option<u64>,
    /// When the feeder is planned to arrive.
    pub aimed_arrival_time_of_feeder: Option<DateTime>,
    /// Where the onward stop comes in the onward run.
    pub distributor_stop_order: Option<u64>,
    /// When the onward service is planned to leave.
    pub aimed_departure_time_of_distributor: Option<DateTime>,
    /// Whether passengers may stay in their seats.
    pub stay_seated: Option<bool>,
    /// Whether the connection is guaranteed to be held.
    pub guaranteed: Option<bool>,
    /// Whether the connection is shown to passengers.
    pub advertised: Option<bool>,
    /// How long the onward service normally waits.
    pub standard_wait_time: Option<Duration>,
    /// The longest it will wait.
    pub maximum_wait_time: Option<Duration>,
    /// The longest it will wait without a controller deciding.
    pub maximum_automatic_wait_time: Option<Duration>,
    /// How long the transfer normally takes.
    pub standard_transfer_time: Option<Duration>,
    /// The shortest time it can be made in.
    pub minimum_transfer_time: Option<Duration>,
    /// The longest it may take.
    pub maximum_transfer_time: Option<Duration>,
    /// Implementation-defined content.
    pub extensions: Option<Extensions>,
}

/// An interchange seen from the onward side: the call is where passengers get on.
#[derive(Debug, Clone, PartialEq)]
pub struct ToServiceJourneyInterchange {
    /// The producer's code for the interchange.
    pub interchange_code: Option<String>,
    /// The link passengers walk along.
    pub connection_link_ref: Option<ConnectionLinkRef>,
    /// Where the arriving stop comes in the feeder's run.
    pub feeder_stop_order: Option<u64>,
    /// When the feeder is planned to arrive.
    pub aimed_arrival_time_of_feeder: Option<DateTime>,
    /// The run passengers leave on.
    pub distributor_ref: ConnectingJourneyRef,
    /// Where they leave from.
    pub distributor_departure_stop_ref: StopPointRef,
    /// Which visit to that stop the departure is.
    pub distributor_visit_number: Option<u64>,
    /// Where that stop comes in the distributor's run.
    pub distributor_stop_order: Option<u64>,
    /// When the distributor is planned to leave.
    pub aimed_departure_time_of_distributor: Option<DateTime>,
    /// Whether passengers may stay in their seats.
    pub stay_seated: Option<bool>,
    /// Whether the connection is guaranteed to be held.
    pub guaranteed: Option<bool>,
    /// Whether the connection is shown to passengers.
    pub advertised: Option<bool>,
    /// How long the distributor normally waits.
    pub standard_wait_time: Option<Duration>,
    /// The longest it will wait.
    pub maximum_wait_time: Option<Duration>,
    /// The longest it will wait without a controller deciding.
    pub maximum_automatic_wait_time: Option<Duration>,
    /// How long the transfer normally takes.
    pub standard_transfer_time: Option<Duration>,
    /// The shortest time it can be made in.
    pub minimum_transfer_time: Option<Duration>,
    /// The longest it may take.
    pub maximum_transfer_time: Option<Duration>,
    /// Implementation-defined content.
    pub extensions: Option<Extensions>,
}

/// A planned interchange that has been taken out of a timetable already published.
#[derive(Debug, Clone, PartialEq)]
pub struct RemovedServiceJourneyInterchange {
    /// The interchange being removed.
    pub interchange_ref: InterchangeRef,
    /// The link passengers would have walked along.
    pub connection_link_ref: Option<ConnectionLinkRef>,
    /// Why it was removed, in words.
    pub reason_for_removal: NaturalLanguageString,
    /// The run passengers would have arrived on.
    pub feeder_ref: ConnectingJourneyRef,
    /// Where they would have arrived.
    pub feeder_arrival_stop_ref: StopPointRef,
    /// Which visit to that stop the arrival would have been.
    pub feeder_visit_number: Option<u64>,
    /// Where that stop comes in the feeder's run.
    pub feeder_stop_order: Option<u64>,
    /// When the feeder was planned to arrive.
    pub aimed_arrival_time_of_feeder: Option<DateTime>,
    /// The run passengers would have left on.
    pub distributor_ref: ConnectingJourneyRef,
    /// Where they would have left from.
    pub distributor_departure_stop_ref: StopPointRef,
    /// Which visit to that stop the departure would have been.
    pub distributor_visit_number: Option<u64>,
    /// Where that stop comes in the distributor's run.
    pub distributor_stop_order: Option<u64>,
    /// When the distributor was planned to leave.
    pub aimed_departure_time_of_distributor: Option<DateTime>,
    /// Implementation-defined content.
    pub extensions: Option<Extensions>,
}

} // verus!
