//! Train formation: how a train is put together, and what that means for a stop.
//!
//! A rail journey is not always run by one indivisible vehicle. SIRI 2.1 borrows
//! NeTEx's formation model to say what a train is made of — [`TrainElement`] for a
//! single carriage or engine, [`Train`] for the set of them that run coupled, and
//! [`CompoundTrain`] for several trains joined for part of a journey — and lets a
//! call point at those parts: which sector of a platform a carriage will stop at
//! ([`FormationAssignment`]), and whether a part is missing, added or out of order
//! ([`FormationCondition`]).
//!
//! The German VDV 454 profile is the reason the model exists: its `FoFahrzeuge`,
//! `FoFahrzeugPosition` and `FoFahrzeugGruppe` are [`TrainElement`],
//! [`TrainComponent`] and [`Train`] respectively.
//!
//! Occupancy and capacity ([`VehicleOccupancy`], [`PassengerCapacity`]) are here
//! too, because both are stated *per part of a train*: a train may be full in
//! second class and empty in first.

use crate::enumerations::{
    FareClass, FormationChange, Occupancy, TrainElementType, TrainSize, TypeOfFuel,
    VehicleInFormationStatus,
};
use crate::model::accessibility::AccessibilityAssessment;
use crate::model::call::StopAssignment;
use crate::model::journey::{CompoundTrainRef, JourneyPlaceRef, ViaName};
use crate::model::reference::{DestinationRef, SituationRef};
use crate::types::{Extensions, NaturalLanguagePlaceName, NaturalLanguageString};
use crate::types::Binary64;
use vstd::prelude::*;

verus! {

/// Identifies one train element — a carriage, an engine, a van.
#[derive(Debug, Clone, PartialEq, Eq, PartialOrd, Ord, Hash)]
pub struct TrainElementRef(String);

impl View for TrainElementRef {
    type V = Seq<char>;

    closed spec fn view(&self) -> Seq<char> {
        self.0@
    }
}

impl TrainElementRef {
    /// Wraps a value of this reference type.
    pub fn new(value: &str) -> (reference: Self)
        ensures
            reference@ == value@,
    {
        TrainElementRef(value.to_owned())
    }

    /// The underlying text.
    pub fn as_str(&self) -> (text: &str)
        ensures
            text@ == self@,
    {
        self.0.as_str()
    }

    /// Consumes the reference and returns the underlying text.
    pub fn into_inner(self) -> (text: String)
        ensures
            text@ == self@,
    {
        self.0
    }
}

impl AsRef<str> for TrainElementRef {
    fn as_ref(&self) -> (text: &str)
        ensures
            text@ == self@,
    {
        self.0.as_str()
    }
}

impl From<String> for TrainElementRef {
    fn from(value: String) -> (reference: Self)
        ensures
            reference@ == value@,
    {
        TrainElementRef(value)
    }
}

impl vstd::std_specs::convert::FromSpecImpl<String> for TrainElementRef {
    open spec fn obeys_from_spec() -> bool {
        true
    }

    closed spec fn from_spec(value: String) -> Self {
        TrainElementRef(value)
    }
}

/// Identifies the position one train element occupies within a train.
#[derive(Debug, Clone, PartialEq, Eq, PartialOrd, Ord, Hash)]
pub struct TrainComponentRef(String);

impl View for TrainComponentRef {
    type V = Seq<char>;

    closed spec fn view(&self) -> Seq<char> {
        self.0@
    }
}

impl TrainComponentRef {
    /// Wraps a value of this reference type.
    pub fn new(value: &str) -> (reference: Self)
        ensures
            reference@ == value@,
    {
        TrainComponentRef(value.to_owned())
    }

    /// The underlying text.
    pub fn as_str(&self) -> (text: &str)
        ensures
            text@ == self@,
    {
        self.0.as_str()
    }

    /// Consumes the reference and returns the underlying text.
    pub fn into_inner(self) -> (text: String)
        ensures
            text@ == self@,
    {
        self.0
    }
}

impl AsRef<str> for TrainComponentRef {
    fn as_ref(&self) -> (text: &str)
        ensures
            text@ == self@,
    {
        self.0.as_str()
    }
}

impl From<String> for TrainComponentRef {
    fn from(value: String) -> (reference: Self)
        ensures
            reference@ == value@,
    {
        TrainComponentRef(value)
    }
}

impl vstd::std_specs::convert::FromSpecImpl<String> for TrainComponentRef {
    open spec fn obeys_from_spec() -> bool {
        true
    }

    closed spec fn from_spec(value: String) -> Self {
        TrainComponentRef(value)
    }
}

/// Identifies a train, i.e. a set of coupled train elements.
#[derive(Debug, Clone, PartialEq, Eq, PartialOrd, Ord, Hash)]
pub struct TrainRef(String);

impl View for TrainRef {
    type V = Seq<char>;

    closed spec fn view(&self) -> Seq<char> {
        self.0@
    }
}

impl TrainRef {
    /// Wraps a value of this reference type.
    pub fn new(value: &str) -> (reference: Self)
        ensures
            reference@ == value@,
    {
        TrainRef(value.to_owned())
    }

    /// The underlying text.
    pub fn as_str(&self) -> (text: &str)
        ensures
            text@ == self@,
    {
        self.0.as_str()
    }

    /// Consumes the reference and returns the underlying text.
    pub fn into_inner(self) -> (text: String)
        ensures
            text@ == self@,
    {
        self.0
    }
}

impl AsRef<str> for TrainRef {
    fn as_ref(&self) -> (text: &str)
        ensures
            text@ == self@,
    {
        self.0.as_str()
    }
}

impl From<String> for TrainRef {
    fn from(value: String) -> (reference: Self)
        ensures
            reference@ == value@,
    {
        TrainRef(value)
    }
}

impl vstd::std_specs::convert::FromSpecImpl<String> for TrainRef {
    open spec fn obeys_from_spec() -> bool {
        true
    }

    closed spec fn from_spec(value: String) -> Self {
        TrainRef(value)
    }
}

/// Identifies one train within a compound train.
#[derive(Debug, Clone, PartialEq, Eq, PartialOrd, Ord, Hash)]
pub struct TrainInCompoundTrainRef(String);

impl View for TrainInCompoundTrainRef {
    type V = Seq<char>;

    closed spec fn view(&self) -> Seq<char> {
        self.0@
    }
}

impl TrainInCompoundTrainRef {
    /// Wraps a value of this reference type.
    pub fn new(value: &str) -> (reference: Self)
        ensures
            reference@ == value@,
    {
        TrainInCompoundTrainRef(value.to_owned())
    }

    /// The underlying text.
    pub fn as_str(&self) -> (text: &str)
        ensures
            text@ == self@,
    {
        self.0.as_str()
    }

    /// Consumes the reference and returns the underlying text.
    pub fn into_inner(self) -> (text: String)
        ensures
            text@ == self@,
    {
        self.0
    }
}

impl AsRef<str> for TrainInCompoundTrainRef {
    fn as_ref(&self) -> (text: &str)
        ensures
            text@ == self@,
    {
        self.0.as_str()
    }
}

impl From<String> for TrainInCompoundTrainRef {
    fn from(value: String) -> (reference: Self)
        ensures
            reference@ == value@,
    {
        TrainInCompoundTrainRef(value)
    }
}

impl vstd::std_specs::convert::FromSpecImpl<String> for TrainInCompoundTrainRef {
    open spec fn obeys_from_spec() -> bool {
        true
    }

    closed spec fn from_spec(value: String) -> Self {
        TrainInCompoundTrainRef(value)
    }
}

/// Identifies a door or other entrance of a vehicle.
#[derive(Debug, Clone, PartialEq, Eq, PartialOrd, Ord, Hash)]
pub struct EntranceToVehicleRef(String);

impl View for EntranceToVehicleRef {
    type V = Seq<char>;

    closed spec fn view(&self) -> Seq<char> {
        self.0@
    }
}

impl EntranceToVehicleRef {
    /// Wraps a value of this reference type.
    pub fn new(value: &str) -> (reference: Self)
        ensures
            reference@ == value@,
    {
        EntranceToVehicleRef(value.to_owned())
    }

    /// The underlying text.
    pub fn as_str(&self) -> (text: &str)
        ensures
            text@ == self@,
    {
        self.0.as_str()
    }

    /// Consumes the reference and returns the underlying text.
    pub fn into_inner(self) -> (text: String)
        ensures
            text@ == self@,
    {
        self.0
    }
}

impl AsRef<str> for EntranceToVehicleRef {
    fn as_ref(&self) -> (text: &str)
        ensures
            text@ == self@,
    {
        self.0.as_str()
    }
}

impl From<String> for EntranceToVehicleRef {
    fn from(value: String) -> (reference: Self)
        ensures
            reference@ == value@,
    {
        EntranceToVehicleRef(value)
    }
}

impl vstd::std_specs::convert::FromSpecImpl<String> for EntranceToVehicleRef {
    open spec fn obeys_from_spec() -> bool {
        true
    }

    closed spec fn from_spec(value: String) -> Self {
        EntranceToVehicleRef(value)
    }
}

/// Identifies a type of value in a producer's own vocabulary.
#[derive(Debug, Clone, PartialEq, Eq, PartialOrd, Ord, Hash)]
pub struct TypeOfActionRef(String);

impl View for TypeOfActionRef {
    type V = Seq<char>;

    closed spec fn view(&self) -> Seq<char> {
        self.0@
    }
}

impl TypeOfActionRef {
    /// Wraps a value of this reference type.
    pub fn new(value: &str) -> (reference: Self)
        ensures
            reference@ == value@,
    {
        TypeOfActionRef(value.to_owned())
    }

    /// The underlying text.
    pub fn as_str(&self) -> (text: &str)
        ensures
            text@ == self@,
    {
        self.0.as_str()
    }

    /// Consumes the reference and returns the underlying text.
    pub fn into_inner(self) -> (text: String)
        ensures
            text@ == self@,
    {
        self.0
    }
}

impl AsRef<str> for TypeOfActionRef {
    fn as_ref(&self) -> (text: &str)
        ensures
            text@ == self@,
    {
        self.0.as_str()
    }
}

impl From<String> for TypeOfActionRef {
    fn from(value: String) -> (reference: Self)
        ensures
            reference@ == value@,
    {
        TypeOfActionRef(value)
    }
}

impl vstd::std_specs::convert::FromSpecImpl<String> for TypeOfActionRef {
    open spec fn obeys_from_spec() -> bool {
        true
    }

    closed spec fn from_spec(value: String) -> Self {
        TypeOfActionRef(value)
    }
}

/// Which part of a train something is said about.
///
/// The schema states this as a group repeated inside several structures, so its
/// fields are inlined wherever it appears rather than nested; this type is the
/// documentation of what those fields mean together. The references narrow from
/// the outside in: a compound train, one train within it, one element or position
/// within that train, and finally one entrance of that element.
#[derive(Debug, Clone, Default, PartialEq, Eq)]
pub struct TrainFormationReference {
    /// The compound train concerned.
    pub compound_train_ref: Option<CompoundTrainRef>,
    /// The train concerned.
    pub train_ref: Option<TrainRef>,
    /// The train within the compound train concerned, instead of `train_ref`.
    pub train_in_compound_train_ref: Option<TrainInCompoundTrainRef>,
    /// The train element concerned.
    pub train_element_ref: Option<TrainElementRef>,
    /// The position within the train concerned, instead of `train_element_ref`.
    pub train_component_ref: Option<TrainComponentRef>,
    /// The entrance of the vehicle concerned.
    pub entrance_to_vehicle_ref: Option<EntranceToVehicleRef>,
}

/// Where a part of a train will stand at a stop.
#[derive(Debug, Clone, PartialEq)]
pub struct FormationAssignment {
    /// The compound train concerned.
    pub compound_train_ref: Option<CompoundTrainRef>,
    /// The train concerned.
    pub train_ref: Option<TrainRef>,
    /// The train within the compound train concerned.
    pub train_in_compound_train_ref: Option<TrainInCompoundTrainRef>,
    /// The train element concerned.
    pub train_element_ref: Option<TrainElementRef>,
    /// The position within the train concerned.
    pub train_component_ref: Option<TrainComponentRef>,
    /// The entrance of the vehicle concerned.
    pub entrance_to_vehicle_ref: Option<EntranceToVehicleRef>,
    /// Whether that part is available, missing, defective and so on.
    pub vehicle_in_formation_status: Option<VehicleInFormationStatusRecord>,
    /// Where the part stands, at least one assignment.
    pub train_stop_assignment: Vec<StopAssignment>,
}

/// Something out of the ordinary about a train's formation.
#[derive(Debug, Clone, PartialEq)]
pub struct FormationCondition {
    /// The compound train concerned.
    pub compound_train_ref: Option<CompoundTrainRef>,
    /// The train concerned.
    pub train_ref: Option<TrainRef>,
    /// The train within the compound train concerned.
    pub train_in_compound_train_ref: Option<TrainInCompoundTrainRef>,
    /// The train element concerned.
    pub train_element_ref: Option<TrainElementRef>,
    /// The position within the train concerned.
    pub train_component_ref: Option<TrainComponentRef>,
    /// The entrance of the vehicle concerned.
    pub entrance_to_vehicle_ref: Option<EntranceToVehicleRef>,
    /// What changed about the formation as a whole.
    pub formation_status: Option<FormationStatus>,
    /// What changed about one vehicle in it, instead of `formation_status`.
    pub vehicle_in_formation_status: Option<VehicleInFormationStatusRecord>,
    /// The situation that explains the change.
    pub situation_ref: Option<SituationRef>,
    /// What passengers should do about it.
    pub recommended_action: Option<RecommendedAction>,
    /// Implementation-defined content.
    pub extensions: Option<Extensions>,
}

/// Which alternative of a [`FormationCondition`]'s choice is present.
#[derive(Debug, Clone, Copy, PartialEq)]
pub enum FormationConditionStatus<'a> {
    /// The formation as a whole changed.
    Formation(&'a FormationStatus),
    /// One vehicle within the formation changed.
    Vehicle(&'a VehicleInFormationStatusRecord),
}

impl FormationCondition {
    /// A condition describing a change to the formation as a whole.
    pub fn formation(status: FormationStatus) -> (result: Self)
        ensures
            result.compound_train_ref is None,
            result.train_ref is None,
            result.train_in_compound_train_ref is None,
            result.train_element_ref is None,
            result.train_component_ref is None,
            result.entrance_to_vehicle_ref is None,
            result.formation_status == Some(status),
            result.vehicle_in_formation_status is None,
            result.situation_ref is None,
            result.recommended_action is None,
            result.extensions is None,
    {
        Self {
            compound_train_ref: None,
            train_ref: None,
            train_in_compound_train_ref: None,
            train_element_ref: None,
            train_component_ref: None,
            entrance_to_vehicle_ref: None,
            formation_status: Some(status),
            vehicle_in_formation_status: None,
            situation_ref: None,
            recommended_action: None,
            extensions: None,
        }
    }

    /// A condition describing a change to one vehicle in the formation.
    pub fn vehicle(status: VehicleInFormationStatusRecord) -> (result: Self)
        ensures
            result.compound_train_ref is None,
            result.train_ref is None,
            result.train_in_compound_train_ref is None,
            result.train_element_ref is None,
            result.train_component_ref is None,
            result.entrance_to_vehicle_ref is None,
            result.formation_status is None,
            result.vehicle_in_formation_status == Some(status),
            result.situation_ref is None,
            result.recommended_action is None,
            result.extensions is None,
    {
        Self {
            compound_train_ref: None,
            train_ref: None,
            train_in_compound_train_ref: None,
            train_element_ref: None,
            train_component_ref: None,
            entrance_to_vehicle_ref: None,
            formation_status: None,
            vehicle_in_formation_status: Some(status),
            situation_ref: None,
            recommended_action: None,
            extensions: None,
        }
    }

    /// Which alternative of the schema's choice this condition carries, or `None`
    /// when neither is present. The formation as a whole is reported should both be.
    pub fn status(&self) -> (status: Option<FormationConditionStatus<'_>>)
        ensures
            match status {
                Some(FormationConditionStatus::Formation(formation)) => {
                    self.formation_status == Some(*formation)
                },
                Some(FormationConditionStatus::Vehicle(vehicle)) => {
                    &&& self.formation_status is None
                    &&& self.vehicle_in_formation_status == Some(*vehicle)
                },
                None => self.formation_status is None && self.vehicle_in_formation_status is None,
            },
    {
        if let Some(formation) = &self.formation_status {
            Some(FormationConditionStatus::Formation(formation))
        } else if let Some(vehicle) = &self.vehicle_in_formation_status {
            Some(FormationConditionStatus::Vehicle(vehicle))
        } else {
            None
        }
    }
}

/// A change to a train's formation as a whole.
#[derive(Debug, Clone, PartialEq)]
pub struct FormationStatus {
    /// What changed.
    pub status: FormationChange,
    /// The change described for passengers, one text per language.
    pub description: Vec<NaturalLanguageString>,
    /// How the change affects passengers with accessibility needs.
    pub accessibility_assessment: Option<AccessibilityAssessment>,
    /// Implementation-defined content.
    pub extensions: Option<Extensions>,
}

impl FormationStatus {
    /// A change of the given kind, with nothing said about it yet.
    pub fn new(status: FormationChange) -> (result: Self)
        ensures
            result.status == status,
            result.description@.len() == 0,
            result.accessibility_assessment is None,
            result.extensions is None,
    {
        Self {
            status,
            description: Vec::new(),
            accessibility_assessment: None,
            extensions: None,
        }
    }
}

/// A change to one vehicle within a train's formation.
#[derive(Debug, Clone, PartialEq)]
pub struct VehicleInFormationStatusRecord {
    /// What changed.
    pub status: VehicleInFormationStatus,
    /// The change described for passengers, one text per language.
    pub description: Vec<NaturalLanguageString>,
    /// How the change affects passengers with accessibility needs.
    pub accessibility_assessment: Option<AccessibilityAssessment>,
    /// Implementation-defined content.
    pub extensions: Option<Extensions>,
}

impl VehicleInFormationStatusRecord {
    /// A change of the given kind, with nothing said about it yet.
    pub fn new(status: VehicleInFormationStatus) -> (result: Self)
        ensures
            result.status == status,
            result.description@.len() == 0,
            result.accessibility_assessment is None,
            result.extensions is None,
    {
        Self {
            status,
            description: Vec::new(),
            accessibility_assessment: None,
            extensions: None,
        }
    }
}

/// What passengers should do about a formation change.
#[derive(Debug, Clone, PartialEq)]
pub struct RecommendedAction {
    /// The kind of action, in the producer's own vocabulary.
    pub type_of_action_ref: TypeOfActionRef,
    /// The action described for passengers, one text per language.
    pub description: Vec<NaturalLanguageString>,
    /// Implementation-defined content.
    pub extensions: Option<Extensions>,
}

/// How full a vehicle, or one part of one, is.
///
/// The leading references and the fare class say *what* the counts are about; a
/// record without them is about the whole vehicle.
#[derive(Debug, Clone, Default, PartialEq)]
pub struct VehicleOccupancy {
    /// The compound train concerned.
    pub compound_train_ref: Option<CompoundTrainRef>,
    /// The train concerned.
    pub train_ref: Option<TrainRef>,
    /// The train within the compound train concerned.
    pub train_in_compound_train_ref: Option<TrainInCompoundTrainRef>,
    /// The train element concerned.
    pub train_element_ref: Option<TrainElementRef>,
    /// The position within the train concerned.
    pub train_component_ref: Option<TrainComponentRef>,
    /// The entrance of the vehicle concerned.
    pub entrance_to_vehicle_ref: Option<EntranceToVehicleRef>,
    /// The fare class the counts are about.
    pub fare_class: Option<FareClass>,
    /// The kind of passenger the counts are about, in the producer's own words.
    pub passenger_category: Option<NaturalLanguageString>,
    /// How full it is, as a band.
    pub occupancy_level: Option<Occupancy>,
    /// How full it is, as a percentage of capacity.
    pub occupancy_percentage: Option<Binary64>,
    /// How many passengers alighted.
    pub alighting_count: Option<u64>,
    /// How many passengers boarded.
    pub boarding_count: Option<u64>,
    /// How many passengers are on board.
    pub onboard_count: Option<u64>,
    /// How many places reserved for particular needs are taken.
    pub special_places_occupied: Option<u64>,
    /// How many pushchairs are on board.
    pub pushchairs_onboard_count: Option<u64>,
    /// How many wheelchairs are on board.
    pub wheelchairs_onboard_count: Option<u64>,
    /// How many prams are on board.
    pub prams_onboard_count: Option<u64>,
    /// How many bicycles are on board.
    pub bicycle_onboard_count: Option<u64>,
    /// How many seats are reserved in total.
    pub total_number_of_reserved_seats: Option<u64>,
    /// Group bookings held on this vehicle.
    pub group_reservation: Vec<GroupReservation>,
}

/// A block of seats reserved for a named group.
#[derive(Debug, Clone, PartialEq)]
pub struct GroupReservation {
    /// Who the group is.
    pub name_of_group: NaturalLanguageString,
    /// How many seats they hold.
    pub number_of_reserved_seats: u64,
}

/// How many passengers a vehicle, or one part of one, can take.
#[derive(Debug, Clone, Default, PartialEq)]
pub struct PassengerCapacity {
    /// The compound train concerned.
    pub compound_train_ref: Option<CompoundTrainRef>,
    /// The train concerned.
    pub train_ref: Option<TrainRef>,
    /// The train within the compound train concerned.
    pub train_in_compound_train_ref: Option<TrainInCompoundTrainRef>,
    /// The train element concerned.
    pub train_element_ref: Option<TrainElementRef>,
    /// The position within the train concerned.
    pub train_component_ref: Option<TrainComponentRef>,
    /// The entrance of the vehicle concerned.
    pub entrance_to_vehicle_ref: Option<EntranceToVehicleRef>,
    /// The fare class the capacities are about.
    pub fare_class: Option<FareClass>,
    /// The kind of passenger the capacities are about.
    pub passenger_category: Option<NaturalLanguageString>,
    /// Seated and standing places together.
    pub total_capacity: Option<u64>,
    /// Seated places.
    pub seating_capacity: Option<u64>,
    /// Standing places.
    pub standing_capacity: Option<u64>,
    /// Places reserved for particular needs.
    pub special_place_capacity: Option<u64>,
    /// Places for pushchairs.
    pub pushchair_capacity: Option<u64>,
    /// Places for wheelchairs.
    pub wheelchair_place_capacity: Option<u64>,
    /// Places for prams.
    pub pram_place_capacity: Option<u64>,
    /// Places on the bicycle rack.
    pub bicycle_rack_capacity: Option<u64>,
}

/// One carriage, engine or van — NeTEx's TRAIN ELEMENT, VDV 454's `FoFahrzeuge`.
#[derive(Debug, Clone, PartialEq)]
pub struct TrainElement {
    /// The producer's identifier for this element.
    pub train_element_code: TrainElementRef,
    /// What kind of element it is.
    pub train_element_type: Option<TrainElementType>,
    /// The number painted on the vehicle.
    pub vehicle_number: Option<String>,
    /// The fare classes this element carries, written as a space-separated list.
    pub fare_classes: Vec<FareClass>,
    /// The vehicle type's name.
    pub name: Option<NaturalLanguageString>,
    /// A shorter name for it.
    pub short_name: Option<NaturalLanguageString>,
    /// The vehicle type described.
    pub description: Option<NaturalLanguageString>,
    /// The producer's own code for it.
    pub private_code: Option<String>,
    /// Whether it can be driven from either end.
    pub reversing_direction: Option<bool>,
    /// Whether it can move under its own power.
    pub self_propelled: Option<bool>,
    /// What it runs on.
    pub type_of_fuel: Option<TypeOfFuel>,
    /// Its emission class.
    pub euro_class: Option<String>,
    /// How many passengers it can take.
    pub maximum_passenger_capacities: Option<MaximumPassengerCapacities>,
    /// Whether it has a low floor.
    pub low_floor: Option<bool>,
    /// Whether it has a lift or a ramp.
    pub has_lift_or_ramp: Option<bool>,
    /// Whether it has a hoist.
    pub has_hoist: Option<bool>,
    /// Its length in metres.
    pub length: Option<Binary64>,
    /// Its width in metres.
    pub width: Option<Binary64>,
    /// Its height in metres.
    pub height: Option<Binary64>,
    /// Its weight in tonnes.
    pub weight: Option<Binary64>,
}

impl TrainElement {
    /// An element with the given code and nothing else said about it.
    pub fn new(train_element_code: TrainElementRef) -> (result: Self)
        ensures
            result.train_element_code == train_element_code,
            result.train_element_type is None,
            result.vehicle_number is None,
            result.fare_classes@.len() == 0,
            result.name is None,
            result.short_name is None,
            result.description is None,
            result.private_code is None,
            result.reversing_direction is None,
            result.self_propelled is None,
            result.type_of_fuel is None,
            result.euro_class is None,
            result.maximum_passenger_capacities is None,
            result.low_floor is None,
            result.has_lift_or_ramp is None,
            result.has_hoist is None,
            result.length is None,
            result.width is None,
            result.height is None,
            result.weight is None,
    {
        Self {
            train_element_code,
            train_element_type: None,
            vehicle_number: None,
            fare_classes: Vec::new(),
            name: None,
            short_name: None,
            description: None,
            private_code: None,
            reversing_direction: None,
            self_propelled: None,
            type_of_fuel: None,
            euro_class: None,
            maximum_passenger_capacities: None,
            low_floor: None,
            has_lift_or_ramp: None,
            has_hoist: None,
            length: None,
            width: None,
            height: None,
            weight: None,
        }
    }
}

/// One position within a train — NeTEx's TRAIN COMPONENT, VDV 454's
/// `FoFahrzeugPosition`.
#[derive(Debug, Clone, PartialEq)]
pub struct TrainComponent {
    /// The producer's identifier for this position.
    pub train_component_code: Option<TrainComponentRef>,
    /// Where in the train this position is, counting from one.
    pub order: u64,
    /// A short label for the position, as shown to passengers.
    pub label: Option<NaturalLanguageString>,
    /// The position described for passengers.
    pub description: Option<NaturalLanguageString>,
    /// The element standing in this position, by reference.
    pub train_element_ref: Option<TrainElementRef>,
    /// The element standing in this position, in full.
    pub train_element: Option<TrainElement>,
    /// Whether the element is coupled the other way round.
    pub reversed_orientation: Option<bool>,
}

/// A set of coupled train elements — NeTEx's TRAIN, VDV 454's `FoFahrzeugGruppe`.
#[derive(Debug, Clone, Default, PartialEq)]
pub struct Train {
    /// The producer's identifier for this train.
    pub train_code: Option<TrainRef>,
    /// The vehicle type's name.
    pub name: Option<NaturalLanguageString>,
    /// A shorter name for it.
    pub short_name: Option<NaturalLanguageString>,
    /// The vehicle type described.
    pub description: Option<NaturalLanguageString>,
    /// The producer's own code for it.
    pub private_code: Option<String>,
    /// Whether it can be driven from either end.
    pub reversing_direction: Option<bool>,
    /// Whether it can move under its own power.
    pub self_propelled: Option<bool>,
    /// What it runs on.
    pub type_of_fuel: Option<TypeOfFuel>,
    /// Its emission class.
    pub euro_class: Option<String>,
    /// How many passengers it can take.
    pub maximum_passenger_capacities: Option<MaximumPassengerCapacities>,
    /// Whether it has a low floor.
    pub low_floor: Option<bool>,
    /// Whether it has a lift or a ramp.
    pub has_lift_or_ramp: Option<bool>,
    /// Whether it has a hoist.
    pub has_hoist: Option<bool>,
    /// Its length in metres.
    pub length: Option<Binary64>,
    /// Its width in metres.
    pub width: Option<Binary64>,
    /// Its height in metres.
    pub height: Option<Binary64>,
    /// Its weight in tonnes.
    pub weight: Option<Binary64>,
    /// How many cars it has.
    pub number_of_cars: Option<u64>,
    /// Whether it is running at normal, short or long length today.
    pub train_size_type: Option<TrainSize>,
    /// The positions it is made up of.
    pub train_components: Option<TrainComponents>,
}

/// The positions a [`Train`] is made up of, each given by reference or in full.
#[derive(Debug, Clone, Default, PartialEq)]
pub struct TrainComponents {
    /// The positions, in the order the schema wrote them.
    pub items: Vec<TrainComponentItem>,
}

/// One entry of a [`TrainComponents`] list.
#[derive(Debug, Clone, PartialEq)]
pub enum TrainComponentItem {
    /// A position stated elsewhere.
    TrainComponentRef(TrainComponentRef),
    /// A position stated here.
    TrainComponent(Box<TrainComponent>),
}

/// Several trains joined for part of a journey — NeTEx's COMPOUND TRAIN, VDV 454's
/// `FoFahrzeugGruppenFahrtAbschnitt` when read together with the compound train
/// reference in a journey part.
#[derive(Debug, Clone, Default, PartialEq)]
pub struct CompoundTrain {
    /// The producer's identifier for this compound train.
    pub compound_train_code: Option<CompoundTrainRef>,
    /// The vehicle type's name.
    pub name: Option<NaturalLanguageString>,
    /// A shorter name for it.
    pub short_name: Option<NaturalLanguageString>,
    /// The vehicle type described.
    pub description: Option<NaturalLanguageString>,
    /// The producer's own code for it.
    pub private_code: Option<String>,
    /// Whether it can be driven from either end.
    pub reversing_direction: Option<bool>,
    /// Whether it can move under its own power.
    pub self_propelled: Option<bool>,
    /// What it runs on.
    pub type_of_fuel: Option<TypeOfFuel>,
    /// Its emission class.
    pub euro_class: Option<String>,
    /// How many passengers it can take.
    pub maximum_passenger_capacities: Option<MaximumPassengerCapacities>,
    /// Whether it has a low floor.
    pub low_floor: Option<bool>,
    /// Whether it has a lift or a ramp.
    pub has_lift_or_ramp: Option<bool>,
    /// Whether it has a hoist.
    pub has_hoist: Option<bool>,
    /// Its length in metres.
    pub length: Option<Binary64>,
    /// Its width in metres.
    pub width: Option<Binary64>,
    /// Its height in metres.
    pub height: Option<Binary64>,
    /// Its weight in tonnes.
    pub weight: Option<Binary64>,
    /// The trains it is made up of.
    pub trains_in_compound_train: Option<TrainsInCompoundTrain>,
}

/// The trains a [`CompoundTrain`] is made up of, each by reference or in full.
#[derive(Debug, Clone, Default, PartialEq)]
pub struct TrainsInCompoundTrain {
    /// The trains, in the order the schema wrote them.
    pub items: Vec<TrainInCompoundTrainItem>,
}

/// One entry of a [`TrainsInCompoundTrain`] list.
#[derive(Debug, Clone, PartialEq)]
pub enum TrainInCompoundTrainItem {
    /// A train stated elsewhere.
    TrainInCompoundTrainRef(TrainInCompoundTrainRef),
    /// A train stated here.
    TrainInCompoundTrain(Box<TrainInCompoundTrain>),
}

/// One train's place within a compound train.
#[derive(Debug, Clone, PartialEq)]
pub struct TrainInCompoundTrain {
    /// The producer's identifier for this place.
    pub train_in_compound_train_code: Option<TrainInCompoundTrainRef>,
    /// Where in the compound train it is, counting from one.
    pub order: u64,
    /// A short label for the place, as shown to passengers.
    pub label: Option<NaturalLanguageString>,
    /// The place described for passengers.
    pub description: Option<NaturalLanguageString>,
    /// The train in this place, by reference.
    pub train_ref: Option<TrainRef>,
    /// The train in this place, in full.
    pub train: Option<Train>,
    /// Where the train starts, when it differs from the whole journey.
    pub origin_ref: Option<JourneyPlaceRef>,
    /// Names of that origin, one per language.
    pub origin_name: Vec<NaturalLanguagePlaceName>,
    /// Shorter names of that origin, one per language.
    pub origin_short_name: Vec<NaturalLanguagePlaceName>,
    /// What is shown at the origin as the destination, one per language.
    pub destination_display_at_origin: Vec<NaturalLanguagePlaceName>,
    /// Places passed through that tell this train apart from similar ones.
    pub via: Vec<ViaName>,
    /// Where the train ends, when it differs from the whole journey.
    pub destination_ref: Option<DestinationRef>,
    /// Names of that destination, one per language.
    pub destination_name: Vec<NaturalLanguageString>,
    /// Shorter names of that destination, one per language.
    pub destination_short_name: Vec<NaturalLanguagePlaceName>,
    /// What is shown at the destination as the origin, one per language.
    pub origin_display_at_destination: Vec<NaturalLanguagePlaceName>,
    /// Whether the train is coupled the other way round.
    pub reversed_orientation: Option<bool>,
    /// Whether passengers can walk between this train and its neighbours.
    pub passages: Option<Passages>,
}

/// Whether passengers can walk between two coupled trains.
#[derive(Debug, Clone, Default, PartialEq)]
pub struct Passages {
    /// One entry per end of the train, so at most two.
    pub passage_between_trains: Vec<PassageBetweenTrains>,
}

/// Whether passengers can walk into the train on one particular side.
#[derive(Debug, Clone, PartialEq)]
pub struct PassageBetweenTrains {
    /// The train on the other side.
    pub train_ref: TrainRef,
    /// The position within that train that adjoins this one.
    pub train_component_ref: Option<TrainComponentRef>,
    /// Whether the passage is open.
    pub passage_is_possible: bool,
}

/// The capacities a vehicle type offers, one entry per fare class or passenger kind.
#[derive(Debug, Clone, Default, PartialEq)]
pub struct MaximumPassengerCapacities {
    /// The capacities, at least one.
    pub maximum_passenger_capacity: Vec<PassengerCapacity>,
}

/// The train elements a journey runs with, each given by reference or in full.
#[derive(Debug, Clone, Default, PartialEq)]
pub struct TrainElements {
    /// The elements, in the order the producer wrote them.
    pub items: Vec<TrainElementItem>,
}

/// One entry of a [`TrainElements`] list.
#[derive(Debug, Clone, PartialEq)]
pub enum TrainElementItem {
    /// An element stated elsewhere.
    TrainElementRef(TrainElementRef),
    /// An element stated here.
    TrainElement(Box<TrainElement>),
}

/// The trains a journey runs with, each given by reference or in full.
#[derive(Debug, Clone, Default, PartialEq)]
pub struct Trains {
    /// The trains, in the order the producer wrote them.
    pub items: Vec<TrainItem>,
}

/// One entry of a [`Trains`] list.
#[derive(Debug, Clone, PartialEq)]
pub enum TrainItem {
    /// A train stated elsewhere.
    TrainRef(TrainRef),
    /// A train stated here.
    Train(Box<Train>),
}

/// The compound trains a journey runs with, each by reference or in full.
#[derive(Debug, Clone, Default, PartialEq)]
pub struct CompoundTrains {
    /// The compound trains, in the order the producer wrote them.
    pub items: Vec<CompoundTrainItem>,
}

/// One entry of a [`CompoundTrains`] list.
#[derive(Debug, Clone, PartialEq)]
pub enum CompoundTrainItem {
    /// A compound train stated elsewhere.
    CompoundTrainRef(CompoundTrainRef),
    /// A compound train stated here.
    CompoundTrain(Box<CompoundTrain>),
}

} // verus!
