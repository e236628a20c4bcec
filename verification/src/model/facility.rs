//! Passenger facilities: what a place or vehicle offers, and whether it works.
//!
//! A [`Facility`] is something passengers use — a lift, a ticket machine, a waiting
//! room, a cycle rack. A [`FacilityCondition`] says what state one is in, which is
//! what the Facility Monitoring service delivers and what any journey message may
//! embed to explain a disruption.
//!
//! The older SIRI 1.0 spelling of the same idea, [`FacilityChange`], is kept because
//! the schema still allows it inside a journey.

use crate::enumerations::{
    AccessFacility, Accessibility, AccommodationFacility, AssistanceFacility, CountedFeatureUnit,
    CountingTrend, CountingType, DaysOfWeek, EquipmentStatus, FacilityCategory, FareClassFacility,
    HireFacility,
    HolidayType, LuggageFacility, MobilityFacility, MonitoringType, NuisanceFacility,
    ParkingFacility, PassengerCommsFacility, PassengerInformationFacility, RefreshmentFacility,
    RemedyType, ReservedSpaceFacility, RetailFacility, SanitaryFacility, TicketingFacility,
};
use crate::model::accessibility::{acsb_namespace, AccessibilityAssessment, Suitabilities, ACSB_NAMESPACE};
use crate::model::formation::{
    EntranceToVehicleRef, TrainComponentRef, TrainElementRef, TrainInCompoundTrainRef, TrainRef,
};
use crate::model::journey::CompoundTrainRef;
use crate::model::location::Location;
use crate::model::reference::{
    ConnectionLinkRef, DatedVehicleJourneyRef, EquipmentRef, EquipmentTypeRef, FacilityRef,
    FeatureRef, InterchangeRef, LineRef, OperatorRef, OrganisationRef, ProductCategoryRef,
    ServiceFeatureRef, SituationRef, StopPlaceComponentRef, StopPlaceRef, StopPointRef,
    VehicleFeatureRef, VehicleRef,
};
use crate::types::{
    Duration, Extensions, HalfOpenTimeRange, HalfOpenTimestampInputRange,
    HalfOpenTimestampOutputRange, NaturalLanguageString,
};
use crate::types::Binary64;
use vstd::prelude::*;

verus! {

/// Something passengers use, described in enough detail to be recognised.
#[derive(Debug, Clone, Default, PartialEq, Eq)]
pub struct Facility {
    /// The producer's code for this facility.
    pub facility_code: Option<String>,
    /// What the facility is, in words, one text per language.
    pub description: Vec<NaturalLanguageString>,
    /// What kind of thing it is: fixed equipment, a service, a reserved area.
    pub facility_class: Vec<FacilityCategory>,
    /// What the facility offers.
    pub features: Option<FacilityFeatures>,
    /// The organisation answerable for the facility.
    pub owner_ref: Option<OrganisationRef>,
    /// That organisation's name.
    pub owner_name: Option<NaturalLanguageString>,
    /// When the facility is there to be used.
    pub validity_condition: Option<MonitoringValidityCondition>,
    /// Where it is, and which services it serves.
    pub facility_location: Option<FacilityLocation>,
    /// What it does and does not allow a passenger with restricted mobility to do.
    pub limitations: Option<FacilityLimitations>,
    /// Judgements of the facility against individual passenger needs.
    pub suitabilities: Option<Suitabilities>,
    /// A fuller statement of what the facility offers such passengers.
    pub accessibility_assessment: Option<AccessibilityAssessment>,
    /// Implementation-defined content.
    pub extensions: Option<Extensions>,
}

impl Facility {
    /// A facility identified by the producer's own code.
    pub fn with_code(facility_code: String) -> (result: Self)
        ensures
            result.facility_code == Some(facility_code),
            result.description@.len() == 0,
            result.facility_class@.len() == 0,
            result.features is None,
            result.owner_ref is None,
            result.owner_name is None,
            result.validity_condition is None,
            result.facility_location is None,
            result.limitations is None,
            result.suitabilities is None,
            result.accessibility_assessment is None,
            result.extensions is None,
    {
        Self {
            facility_code: Some(facility_code),
            description: Vec::new(),
            facility_class: Vec::new(),
            features: None,
            owner_ref: None,
            owner_name: None,
            validity_condition: None,
            facility_location: None,
            limitations: None,
            suitabilities: None,
            accessibility_assessment: None,
            extensions: None,
        }
    }
}

/// What a facility offers, one entry per feature.
#[derive(Debug, Clone, Default, PartialEq, Eq)]
pub struct FacilityFeatures {
    /// The features.
    pub feature: Vec<FacilityFeature>,
}

/// One thing a facility offers, drawn from one of the sixteen TPEG feature lists.
#[derive(Debug, Clone, PartialEq, Eq)]
pub struct FacilityFeature {
    /// Which list the feature comes from, and which value within it.
    pub feature: FacilityFeatureKind,
}

impl FacilityFeature {
    /// A feature drawn from one of the lists.
    pub fn new(feature: FacilityFeatureKind) -> (result: Self)
        ensures
            result.feature == feature,
    {
        Self {
            feature,
        }
    }
}

/// The sixteen families of facility feature, of which a [`FacilityFeature`] names one.
///
/// The variant is written as the element name.
#[derive(Debug, Clone, PartialEq, Eq)]
pub enum FacilityFeatureKind {
    /// How passengers get to or through the place: lifts, ramps, stairs.
    AccessFacility(AccessFacility),
    /// What the place or vehicle offers passengers to sit or sleep in.
    AccommodationFacility(AccommodationFacility),
    /// Help available to passengers, from staff or from a device.
    AssistanceFacility(AssistanceFacility),
    /// Which class of travel the facility belongs to.
    FareClassFacility(FareClassFacility),
    /// Vehicles and equipment passengers can hire.
    HireFacility(HireFacility),
    /// What passengers can do with their luggage.
    LuggageFacility(LuggageFacility),
    /// Equipment for passengers with restricted mobility.
    MobilityFacility(MobilityFacility),
    /// Restrictions on what other passengers may do, e.g. a quiet coach.
    NuisanceFacility(NuisanceFacility),
    /// Parking for cars and cycles.
    ParkingFacility(ParkingFacility),
    /// How passengers can communicate from the place or vehicle.
    PassengerCommsFacility(PassengerCommsFacility),
    /// How passengers are told what is happening.
    PassengerInformationFacility(PassengerInformationFacility),
    /// Food and drink.
    RefreshmentFacility(RefreshmentFacility),
    /// Space set aside for a particular use or group.
    ReservedSpaceFacility(ReservedSpaceFacility),
    /// Shops.
    RetailFacility(RetailFacility),
    /// Lavatories, showers and baby-changing.
    SanitaryFacility(SanitaryFacility),
    /// Where and how passengers can buy or validate a ticket.
    TicketingFacility(TicketingFacility),
}

/// What a facility does and does not allow a passenger with restricted mobility to do.
///
/// This is the accessibility annex's limitation group as SIRI embeds it directly in a
/// facility, without the surrounding `AccessibilityLimitation` the annex's own
/// assessment uses.
#[derive(Debug, Clone, PartialEq, Eq)]
pub struct FacilityLimitations {
    /// Binding of the `acsb` prefix used by this element's children.
    pub acsb_namespace: String,
    /// Whether a wheelchair user can use the facility.
    pub wheelchair_access: Accessibility,
    /// Whether using it avoids steps.
    pub step_free_access: Option<Accessibility>,
    /// Whether using it avoids escalators.
    pub escalator_free_access: Option<Accessibility>,
    /// Whether using it avoids lifts.
    pub lift_free_access: Option<Accessibility>,
    /// Whether it signals audibly.
    pub audible_signals_available: Option<Accessibility>,
    /// Whether it signals visually.
    pub visual_signs_available: Option<Accessibility>,
}

impl FacilityLimitations {
    /// Limitations stating only whether a wheelchair user can use the facility.
    pub fn new(wheelchair_access: Accessibility) -> (result: Self)
        ensures
            result.acsb_namespace@ == ACSB_NAMESPACE@,
            result.wheelchair_access == wheelchair_access,
            result.step_free_access is None,
            result.escalator_free_access is None,
            result.lift_free_access is None,
            result.audible_signals_available is None,
            result.visual_signs_available is None,
    {
        Self {
            acsb_namespace: acsb_namespace(),
            wheelchair_access,
            step_free_access: None,
            escalator_free_access: None,
            lift_free_access: None,
            audible_signals_available: None,
            visual_signs_available: None,
        }
    }
}

/// Where a facility is, and which services it serves.
#[derive(Debug, Clone, Default, PartialEq, Eq)]
pub struct FacilityLocation {
    /// The line the facility serves.
    pub line_ref: Option<LineRef>,
    /// The stop it is at.
    pub stop_point_ref: Option<StopPointRef>,
    /// The vehicle it is aboard.
    pub vehicle_ref: Option<VehicleRef>,
    /// The compound train it is aboard.
    pub compound_train_ref: Option<CompoundTrainRef>,
    /// The train it is aboard.
    pub train_ref: Option<TrainRef>,
    /// The train within the compound train it is aboard, instead of `train_ref`.
    pub train_in_compound_train_ref: Option<TrainInCompoundTrainRef>,
    /// The carriage it is in.
    pub train_element_ref: Option<TrainElementRef>,
    /// The position within the train it is at, instead of `train_element_ref`.
    pub train_component_ref: Option<TrainComponentRef>,
    /// The vehicle entrance it is at.
    pub entrance_to_vehicle_ref: Option<EntranceToVehicleRef>,
    /// The journey it serves.
    pub dated_vehicle_journey_ref: Option<DatedVehicleJourneyRef>,
    /// The connection link it is on.
    pub connection_link_ref: Option<ConnectionLinkRef>,
    /// The interchange it serves.
    pub interchange_ref: Option<InterchangeRef>,
    /// The stop place it is in.
    pub stop_place_ref: Option<StopPlaceRef>,
    /// The part of that stop place it is in.
    pub stop_place_component_id: Option<StopPlaceComponentRef>,
    /// The operator whose services it serves.
    pub operator_ref: Option<OperatorRef>,
    /// The commercial category of those services.
    pub product_category_ref: Option<ProductCategoryRef>,
    /// Properties of those services.
    pub service_feature_ref: Vec<ServiceFeatureRef>,
    /// Properties of the vehicles running them.
    pub vehicle_feature_ref: Vec<VehicleFeatureRef>,
}

/// When a facility is available, or when a producer is watching it.
#[derive(Debug, Clone, Default, PartialEq, Eq)]
pub struct MonitoringValidityCondition {
    /// The stretches of calendar time it holds over.
    pub period: Vec<HalfOpenTimestampOutputRange>,
    /// The times of day within those stretches.
    pub timeband: Vec<HalfOpenTimeRange>,
    /// The kinds of day it holds on.
    pub day_type: Vec<DaysOfWeek>,
    /// The kinds of holiday it holds on.
    pub holiday_type: Vec<HolidayType>,
}

/// What state a facility is in.
#[derive(Debug, Clone, PartialEq, Eq)]
pub struct FacilityStatus {
    /// Whether it is available, and how far.
    pub status: crate::enumerations::FacilityStatus,
    /// What is the matter with it, one text per language.
    pub description: Vec<NaturalLanguageString>,
    /// What the facility now offers passengers with restricted mobility.
    pub accessibility_assessment: Option<AccessibilityAssessment>,
    /// Implementation-defined content.
    pub extensions: Option<Extensions>,
}

impl FacilityStatus {
    /// A bare statement of availability.
    pub fn new(status: crate::enumerations::FacilityStatus) -> (result: Self)
        ensures
            result.status == status,
            result.description@.len() == 0,
            result.accessibility_assessment is None,
            result.extensions is None,
    {
        Self {
            status,
            description: Vec::new(),
            accessibility_assessment: None,
            extensions: None,
        }
    }
}

/// A count taken at a facility: free parking bays, charge remaining, people waiting.
#[derive(Debug, Clone, PartialEq)]
pub struct MonitoredCounting {
    /// What the count means: how many are available, in use, out of order.
    pub counting_type: CountingType,
    /// The unit counted in.
    pub counted_feature_unit: Option<CountedFeatureUnit>,
    /// What is counted, where the unit alone does not say.
    pub type_of_counted_feature: Option<TypeOfValue>,
    /// The figure itself, either absolute or as a percentage.
    pub amount: CountedAmount,
    /// Which way the figure is moving.
    pub trend: Option<CountingTrend>,
    /// How exact the figure is, as a percentage.
    pub accuracy: Option<Binary64>,
    /// What the count is about, in words, one text per language.
    pub description: Vec<NaturalLanguageString>,
    /// The individual things counted, where the producer can name them.
    pub counted_items_id_list: Option<CountedItemsIdList>,
    /// Implementation-defined content.
    pub extensions: Option<Extensions>,
}

impl MonitoredCounting {
    /// A count of the given kind and size.
    pub fn new(counting_type: CountingType, amount: CountedAmount) -> (result: Self)
        ensures
            result.counting_type == counting_type,
            result.counted_feature_unit is None,
            result.type_of_counted_feature is None,
            result.amount == amount,
            result.trend is None,
            result.accuracy is None,
            result.description@.len() == 0,
            result.counted_items_id_list is None,
            result.extensions is None,
    {
        Self {
            counting_type,
            counted_feature_unit: None,
            type_of_counted_feature: None,
            amount,
            trend: None,
            accuracy: None,
            description: Vec::new(),
            counted_items_id_list: None,
            extensions: None,
        }
    }
}

/// How large a [`MonitoredCounting`] is, stated one of the two ways the schema allows.
#[derive(Debug, Clone, Copy, PartialEq)]
pub enum CountedAmount {
    /// A number of whatever is being counted.
    Count(i64),
    /// A share of the whole, in per cent.
    Percentage(Binary64),
}

/// The identifiers of the things a count covers.
#[derive(Debug, Clone, Default, PartialEq, Eq)]
pub struct CountedItemsIdList {
    /// One identifier per thing counted.
    pub item_id: Vec<String>,
}

/// An open-ended classification value, named by a code within a class.
#[derive(Debug, Clone, PartialEq, Eq)]
pub struct TypeOfValue {
    /// The code identifying the value.
    pub type_of_value_code: String,
    /// The class of values the code belongs to.
    pub name_of_class: String,
    /// The value's name.
    pub name: Option<NaturalLanguageString>,
    /// A shorter name for it.
    pub short_name: Option<NaturalLanguageString>,
    /// What it means, in words.
    pub description: Option<NaturalLanguageString>,
    /// An image standing for it.
    pub image: Option<String>,
    /// A page describing it.
    pub url: Option<String>,
    /// The sender's own code for it.
    pub private_code: Option<String>,
}

impl TypeOfValue {
    /// A value named by its code within a class.
    pub fn new(type_of_value_code: String, name_of_class: String) -> (result: Self)
        ensures
            result.type_of_value_code == type_of_value_code,
            result.name_of_class == name_of_class,
            result.name is None,
            result.short_name is None,
            result.description is None,
            result.image is None,
            result.url is None,
            result.private_code is None,
    {
        Self {
            type_of_value_code,
            name_of_class,
            name: None,
            short_name: None,
            description: None,
            image: None,
            url: None,
            private_code: None,
        }
    }
}

/// What is being done about a facility that is not working.
#[derive(Debug, Clone, Default, PartialEq, Eq)]
pub struct Remedy {
    /// What kind of remedy: repair it, replace it, send passengers another way.
    pub remedy_type: Option<RemedyType>,
    /// What is being done, in words, one text per language.
    pub description: Vec<NaturalLanguageString>,
    /// When the remedy is expected to be in place.
    pub remedy_period: Option<HalfOpenTimestampInputRange>,
    /// Implementation-defined content.
    pub extensions: Option<Extensions>,
}

/// How a producer watches a facility, so that a consumer knows what silence means.
#[derive(Debug, Clone, Default, PartialEq, Eq)]
pub struct MonitoringInformation {
    /// How often the facility is looked at.
    pub monitoring_interval: Option<Duration>,
    /// Whether it is looked at by a person or by a machine.
    pub monitoring_type: Option<MonitoringType>,
    /// When it is looked at.
    pub monitoring_period: Option<MonitoringValidityCondition>,
    /// Implementation-defined content.
    pub extensions: Option<Extensions>,
}

/// The state of one facility, and what is being done about it.
///
/// The facility is either described in full or referred to by identifier; use
/// [`FacilityCondition::subject`] to see which.
#[derive(Debug, Clone, PartialEq)]
pub struct FacilityCondition {
    /// The facility, described here.
    pub facility: Option<Facility>,
    /// The facility, described elsewhere, instead of `facility`.
    pub facility_ref: Option<FacilityRef>,
    /// What state it is in.
    pub facility_status: FacilityStatus,
    /// Counts taken at the facility.
    pub monitored_counting: Vec<MonitoredCounting>,
    /// Where the facility has moved to, for one that moves.
    pub facility_updated_position: Option<Location>,
    /// The situation that explains the state.
    pub situation_ref: Option<SituationRef>,
    /// What is being done about it.
    pub remedy: Option<Remedy>,
    /// How the producer is watching it.
    pub monitoring_info: Option<MonitoringInformation>,
    /// How long this statement holds.
    pub validity_period: Option<HalfOpenTimestampOutputRange>,
    /// Implementation-defined content.
    pub extensions: Option<Extensions>,
}

/// Which alternative of the schema's choice a [`FacilityCondition`] names its
/// facility with.
#[derive(Debug, Clone, Copy, PartialEq, Eq)]
pub enum FacilitySubject<'a> {
    /// The facility, described in the condition itself.
    Facility(&'a Facility),
    /// The facility, named by a reference the consumer already knows.
    Reference(&'a FacilityRef),
}

impl FacilityCondition {
    /// The state of a facility the consumer already knows by reference.
    pub fn for_reference(
        facility_ref: FacilityRef,
        facility_status: FacilityStatus,
    ) -> (result: Self)
        ensures
            result.facility is None,
            result.facility_ref == Some(facility_ref),
            result.facility_status == facility_status,
            result.monitored_counting@.len() == 0,
            result.facility_updated_position is None,
            result.situation_ref is None,
            result.remedy is None,
            result.monitoring_info is None,
            result.validity_period is None,
            result.extensions is None,
    {
        Self::new(None, Some(facility_ref), facility_status)
    }

    /// The state of a facility described here.
    pub fn for_facility(facility: Facility, facility_status: FacilityStatus) -> (result: Self)
        ensures
            result.facility == Some(facility),
            result.facility_ref is None,
            result.facility_status == facility_status,
            result.monitored_counting@.len() == 0,
            result.facility_updated_position is None,
            result.situation_ref is None,
            result.remedy is None,
            result.monitoring_info is None,
            result.validity_period is None,
            result.extensions is None,
    {
        Self::new(Some(facility), None, facility_status)
    }

    /// A condition with the given subject and status and nothing else stated.
    fn new(
        facility: Option<Facility>,
        facility_ref: Option<FacilityRef>,
        facility_status: FacilityStatus,
    ) -> (result: Self)
        ensures
            result.facility == facility,
            result.facility_ref == facility_ref,
            result.facility_status == facility_status,
            result.monitored_counting@.len() == 0,
            result.facility_updated_position is None,
            result.situation_ref is None,
            result.remedy is None,
            result.monitoring_info is None,
            result.validity_period is None,
            result.extensions is None,
    {
        Self {
            facility,
            facility_ref,
            facility_status,
            monitored_counting: Vec::new(),
            facility_updated_position: None,
            situation_ref: None,
            remedy: None,
            monitoring_info: None,
            validity_period: None,
            extensions: None,
        }
    }

    /// Which alternative of the schema's choice this condition carries, or `None`
    /// when it carries neither. The description is reported should both be present.
    pub fn subject(&self) -> (subject: Option<FacilitySubject<'_>>)
        ensures
            match subject {
                Some(FacilitySubject::Facility(facility)) => self.facility == Some(*facility),
                Some(FacilitySubject::Reference(reference)) => {
                    &&& self.facility is None
                    &&& self.facility_ref == Some(*reference)
                },
                None => self.facility is None && self.facility_ref is None,
            },
    {
        if let Some(facility) = &self.facility {
            Some(FacilitySubject::Facility(facility))
        } else if let Some(reference) = &self.facility_ref {
            Some(FacilitySubject::Reference(reference))
        } else {
            None
        }
    }
}

/// A facility a producer will report on, paired with whether it is being watched.
#[derive(Debug, Clone, PartialEq, Eq)]
pub struct AnnotatedFacility {
    /// The facility.
    pub facility_ref: FacilityRef,
    /// Whether the producer is watching it in real time.
    pub monitored: Option<bool>,
    /// What the facility is.
    pub facility: Option<Facility>,
}

/// A change to a facility, in the SIRI 1.0 spelling the schema still allows.
///
/// [`FacilityCondition`] says the same thing in more detail and is what a new
/// implementation should send; this stays so that documents written the older way
/// keep their meaning.
#[derive(Debug, Clone, Default, PartialEq, Eq)]
pub struct FacilityChange {
    /// Which piece of equipment has changed, and how.
    pub equipment_availability: Option<EquipmentAvailability>,
    /// The situation that explains the change.
    pub situation_ref: Option<SituationRef>,
    /// What the change means for passengers with restricted mobility.
    pub mobility_disruption: Option<MobilityDisruption>,
}

/// Whether one piece of equipment can be used.
#[derive(Debug, Clone, PartialEq, Eq)]
pub struct EquipmentAvailability {
    /// The equipment concerned.
    pub equipment_ref: Option<EquipmentRef>,
    /// What it is, in words, one text per language.
    pub description: Vec<NaturalLanguageString>,
    /// What kind of equipment it is.
    pub equipment_type_ref: Option<EquipmentTypeRef>,
    /// How long this statement holds.
    pub validity_period: Option<HalfOpenTimestampOutputRange>,
    /// Whether the equipment can be used.
    pub equipment_status: EquipmentStatus,
    /// What the equipment offers.
    pub equipment_features: Option<EquipmentFeatures>,
    /// Implementation-defined content.
    pub extensions: Option<Extensions>,
}

impl EquipmentAvailability {
    /// A bare statement that a piece of equipment is in the given state.
    pub fn new(equipment_status: EquipmentStatus) -> (result: Self)
        ensures
            result.equipment_ref is None,
            result.description@.len() == 0,
            result.equipment_type_ref is None,
            result.validity_period is None,
            result.equipment_status == equipment_status,
            result.equipment_features is None,
            result.extensions is None,
    {
        Self {
            equipment_ref: None,
            description: Vec::new(),
            equipment_type_ref: None,
            validity_period: None,
            equipment_status,
            equipment_features: None,
            extensions: None,
        }
    }
}

/// What a piece of equipment offers.
#[derive(Debug, Clone, Default, PartialEq, Eq)]
pub struct EquipmentFeatures {
    /// The features.
    pub feature_ref: Vec<FeatureRef>,
}

/// What a change means for passengers with restricted mobility.
#[derive(Debug, Clone, PartialEq, Eq)]
pub struct MobilityDisruption {
    /// Whether such passengers can still get through.
    pub mobility_impaired_access: bool,
    /// The ways in and out that are affected.
    pub access_facility: Vec<AccessFacility>,
}

} // verus!
