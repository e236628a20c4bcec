//! The journeys on either side of a connection.
//!
//! Both connection services describe a change between two journeys with the same
//! structure, [`InterchangeJourney`]: the *feeder* is the journey passengers arrive
//! on, the *distributor* the one they leave on. It is a cut-down journey — enough to
//! recognise the service and know when it is due, without the calling pattern the
//! timetable services carry.
//!
//! As elsewhere in the model, the schema's groups are inlined: a group contributes
//! its elements to the enclosing sequence rather than nesting them.

use crate::enumerations::{FirstOrLastJourney, VehicleModesOfTransport};
use crate::model::facility::{FacilityChange, FacilityCondition};
use crate::model::formation::FormationCondition;
use crate::model::journey::{
    Branding, BrandingRef, GroupOfLinesRef, JourneyPlaceRef, SimpleContact, ViaName,
};
use crate::model::reference::{
    BlockRef, ControlActionRef, CourseOfJourneyRef, DestinationRef, DirectionRef,
    FramedVehicleJourneyRef, JourneyPatternRef, LineRef, OperatorRef, ProductCategoryRef, RouteRef,
    ServiceFeatureRef, SituationRef, VehicleFeatureRef, VehicleJourneyRef, VehicleRef,
};
use crate::types::{Extensions, NaturalLanguagePlaceName, NaturalLanguageString};
use crate::types::DateTime;
use vstd::prelude::*;

verus! {

/// One of the two journeys a connection joins.
#[derive(Debug, Clone, PartialEq)]
pub struct InterchangeJourney {
    /// The line the journey runs on.
    pub line_ref: LineRef,
    /// The direction it runs in.
    pub direction_ref: DirectionRef,
    /// The timetabled journey on its operational day.
    pub framed_vehicle_journey_ref: Option<FramedVehicleJourneyRef>,
    /// The journey pattern the journey follows.
    pub journey_pattern_ref: Option<JourneyPatternRef>,
    /// The journey pattern's name.
    pub journey_pattern_name: Option<NaturalLanguageString>,
    /// The modes of transport the journey uses.
    pub vehicle_mode: Vec<VehicleModesOfTransport>,
    /// The route the journey follows.
    pub route_ref: Option<RouteRef>,
    /// The line's name as shown to passengers, one per language.
    pub published_line_name: Vec<NaturalLanguageString>,
    /// The group of lines the line is marketed within.
    pub group_of_lines_ref: Option<GroupOfLinesRef>,
    /// The direction's name as shown to passengers, one per language.
    pub direction_name: Vec<NaturalLanguageString>,
    /// The line as another operator's network identifies it.
    pub external_line_ref: Option<LineRef>,
    /// The brand the service is presented under, stated elsewhere.
    pub branding_ref: Option<BrandingRef>,
    /// The brand the service is presented under, stated here.
    pub branding: Option<Branding>,
    /// The operator running the journey.
    pub operator_ref: Option<OperatorRef>,
    /// The commercial category the service belongs to.
    pub product_category_ref: Option<ProductCategoryRef>,
    /// Properties of the service, e.g. that cycles may be carried.
    pub service_feature_ref: Vec<ServiceFeatureRef>,
    /// Properties of the vehicle, e.g. that it has a low floor.
    pub vehicle_feature_ref: Vec<VehicleFeatureRef>,
    /// Where the journey starts.
    pub origin_ref: Option<JourneyPlaceRef>,
    /// Names of the origin, one per language.
    pub origin_name: Vec<NaturalLanguagePlaceName>,
    /// Shorter names of the origin, one per language.
    pub origin_short_name: Vec<NaturalLanguagePlaceName>,
    /// What is shown at the origin as the destination, one per language.
    pub destination_display_at_origin: Vec<NaturalLanguagePlaceName>,
    /// Places passed through that tell this journey apart from similar ones.
    pub via: Vec<ViaName>,
    /// Where the journey ends.
    pub destination_ref: Option<DestinationRef>,
    /// Names of the destination, one per language.
    pub destination_name: Vec<NaturalLanguageString>,
    /// Shorter names of the destination, one per language.
    pub destination_short_name: Vec<NaturalLanguagePlaceName>,
    /// What is shown at the destination as the origin, one per language.
    pub origin_display_at_destination: Vec<NaturalLanguagePlaceName>,
    /// The journey's own name, one per language.
    pub vehicle_journey_name: Vec<NaturalLanguageString>,
    /// Notes about the journey, one per language.
    pub journey_note: Vec<NaturalLanguageString>,
    /// How passengers can reach the operator.
    pub public_contact: Option<SimpleContact>,
    /// How staff can reach the operator's control room.
    pub operations_contact: Option<SimpleContact>,
    /// Whether the service runs to a headway rather than to fixed times.
    pub headway_service: Option<bool>,
    /// When the journey is planned to leave its origin.
    pub origin_aimed_departure_time: Option<DateTime>,
    /// When it is planned to reach its destination.
    pub destination_aimed_arrival_time: Option<DateTime>,
    /// Whether this is the first or the last journey of the day on the line.
    pub first_or_last_journey: Option<FirstOrLastJourney>,
    /// Changes to how the train is put together.
    pub formation_condition: Vec<FormationCondition>,
    /// Facilities along the journey whose state has changed.
    pub facility_condition_element: Vec<FacilityCondition>,
    /// The same, in the older spelling the schema still allows.
    pub facility_change_element: Option<FacilityChange>,
    /// Situations that explain the state of the journey.
    pub situation_ref: Vec<SituationRef>,
    /// The control action taken to manage the journey.
    pub control_action_ref: Option<ControlActionRef>,
    /// The day's work the journey belongs to.
    pub block_ref: Option<BlockRef>,
    /// The run of journeys within that work.
    pub course_of_journey_ref: Option<CourseOfJourneyRef>,
    /// The timetabled journey this run realises.
    pub vehicle_journey_ref: Option<VehicleJourneyRef>,
    /// The vehicle running it.
    pub vehicle_ref: Option<VehicleRef>,
    /// Further journeys the same vehicle is running at the same time.
    pub additional_vehicle_journey_ref: Vec<FramedVehicleJourneyRef>,
    /// The driver on duty.
    pub driver_ref: Option<String>,
    /// The driver's name.
    pub driver_name: Option<String>,
    /// Whether the journey is being tracked in real time.
    pub monitored: Option<bool>,
    /// When the journey is planned to leave the interchange stop.
    pub aimed_departure_time: Option<DateTime>,
    /// Implementation-defined content.
    pub extensions: Option<Extensions>,
}

impl InterchangeJourney {
    /// A journey on the given line and direction, with nothing else said about it yet.
    pub fn new(line_ref: LineRef, direction_ref: DirectionRef) -> (result: Self)
        ensures
            result.line_ref == line_ref,
            result.direction_ref == direction_ref,
            result.framed_vehicle_journey_ref is None,
            result.journey_pattern_ref is None,
            result.journey_pattern_name is None,
            result.vehicle_mode@.len() == 0,
            result.route_ref is None,
            result.published_line_name@.len() == 0,
            result.group_of_lines_ref is None,
            result.direction_name@.len() == 0,
            result.external_line_ref is None,
            result.branding_ref is None,
            result.branding is None,
            result.operator_ref is None,
            result.product_category_ref is None,
            result.service_feature_ref@.len() == 0,
            result.vehicle_feature_ref@.len() == 0,
            result.origin_ref is None,
            result.origin_name@.len() == 0,
            result.origin_short_name@.len() == 0,
            result.destination_display_at_origin@.len() == 0,
            result.via@.len() == 0,
            result.destination_ref is None,
            result.destination_name@.len() == 0,
            result.destination_short_name@.len() == 0,
            result.origin_display_at_destination@.len() == 0,
            result.vehicle_journey_name@.len() == 0,
            result.journey_note@.len() == 0,
            result.public_contact is None,
            result.operations_contact is None,
            result.headway_service is None,
            result.origin_aimed_departure_time is None,
            result.destination_aimed_arrival_time is None,
            result.first_or_last_journey is None,
            result.formation_condition@.len() == 0,
            result.facility_condition_element@.len() == 0,
            result.facility_change_element is None,
            result.situation_ref@.len() == 0,
            result.control_action_ref is None,
            result.block_ref is None,
            result.course_of_journey_ref is None,
            result.vehicle_journey_ref is None,
            result.vehicle_ref is None,
            result.additional_vehicle_journey_ref@.len() == 0,
            result.driver_ref is None,
            result.driver_name is None,
            result.monitored is None,
            result.aimed_departure_time is None,
            result.extensions is None,
    {
        Self {
            line_ref,
            direction_ref,
            framed_vehicle_journey_ref: None,
            journey_pattern_ref: None,
            journey_pattern_name: None,
            vehicle_mode: Vec::new(),
            route_ref: None,
            published_line_name: Vec::new(),
            group_of_lines_ref: None,
            direction_name: Vec::new(),
            external_line_ref: None,
            branding_ref: None,
            branding: None,
            operator_ref: None,
            product_category_ref: None,
            service_feature_ref: Vec::new(),
            vehicle_feature_ref: Vec::new(),
            origin_ref: None,
            origin_name: Vec::new(),
            origin_short_name: Vec::new(),
            destination_display_at_origin: Vec::new(),
            via: Vec::new(),
            destination_ref: None,
            destination_name: Vec::new(),
            destination_short_name: Vec::new(),
            origin_display_at_destination: Vec::new(),
            vehicle_journey_name: Vec::new(),
            journey_note: Vec::new(),
            public_contact: None,
            operations_contact: None,
            headway_service: None,
            origin_aimed_departure_time: None,
            destination_aimed_arrival_time: None,
            first_or_last_journey: None,
            formation_condition: Vec::new(),
            facility_condition_element: Vec::new(),
            facility_change_element: None,
            situation_ref: Vec::new(),
            control_action_ref: None,
            block_ref: None,
            course_of_journey_ref: None,
            vehicle_journey_ref: None,
            vehicle_ref: None,
            additional_vehicle_journey_ref: Vec::new(),
            driver_ref: None,
            driver_name: None,
            monitored: None,
            aimed_departure_time: None,
            extensions: None,
        }
    }
}

} // verus!
