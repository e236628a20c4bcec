//! Elements of a vehicle journey that several services describe alike.
//!
//! Production Timetable, Estimated Timetable and Vehicle Monitoring each publish a
//! different view of the same thing — a vehicle running a route on a day — so the
//! schema factors the common parts into groups the three share: who runs the
//! journey, where it starts and ends, how it is progressing, which vehicle is on it.
//! Those groups are modelled here once and inlined into each service's own journey
//! type, because a schema group contributes its elements to the enclosing sequence
//! rather than nesting them.

use crate::enumerations::{JourneyRelationType, QualityIndex};
use crate::model::reference::{
    DirectionRef, FramedVehicleJourneyRef, LineRef, OperatorRef, StopPointRef,
};
use crate::types::{NaturalLanguagePlaceName, NaturalLanguageString, ParticipantRef};
use crate::types::{DateTime, Binary64};
use vstd::prelude::*;

verus! {

/// Identifies a train number allocated to a journey.
#[derive(Debug, Clone, PartialEq, Eq, PartialOrd, Ord, Hash)]
pub struct TrainNumberRef(String);

impl View for TrainNumberRef {
    type V = Seq<char>;

    closed spec fn view(&self) -> Seq<char> {
        self.0@
    }
}

impl TrainNumberRef {
    /// Wraps a value of this reference type.
    pub fn new(value: &str) -> (reference: Self)
        ensures
            reference@ == value@,
    {
        TrainNumberRef(value.to_owned())
    }

    /// The underlying text.
    pub fn as_str(&self) -> (text: &str)
        ensures
            text@ == self@,
    {
        self.0.as_str()
    }

    /// Consumes the reference and returns the underlying text.
    pub fn into_inner(self) -> (text: String)
        ensures
            text@ == self@,
    {
        self.0
    }
}

impl AsRef<str> for TrainNumberRef {
    fn as_ref(&self) -> (text: &str)
        ensures
            text@ == self@,
    {
        self.0.as_str()
    }
}

impl From<String> for TrainNumberRef {
    fn from(value: String) -> (reference: Self)
        ensures
            reference@ == value@,
    {
        TrainNumberRef(value)
    }
}

impl vstd::std_specs::convert::FromSpecImpl<String> for TrainNumberRef {
    open spec fn obeys_from_spec() -> bool {
        true
    }

    closed spec fn from_spec(value: String) -> Self {
        TrainNumberRef(value)
    }
}

/// Identifies one physical part of a train that can be joined or split.
#[derive(Debug, Clone, PartialEq, Eq, PartialOrd, Ord, Hash)]
pub struct TrainPartRef(String);

impl View for TrainPartRef {
    type V = Seq<char>;

    closed spec fn view(&self) -> Seq<char> {
        self.0@
    }
}

impl TrainPartRef {
    /// Wraps a value of this reference type.
    pub fn new(value: &str) -> (reference: Self)
        ensures
            reference@ == value@,
    {
        TrainPartRef(value.to_owned())
    }

    /// The underlying text.
    pub fn as_str(&self) -> (text: &str)
        ensures
            text@ == self@,
    {
        self.0.as_str()
    }

    /// Consumes the reference and returns the underlying text.
    pub fn into_inner(self) -> (text: String)
        ensures
            text@ == self@,
    {
        self.0
    }
}

impl AsRef<str> for TrainPartRef {
    fn as_ref(&self) -> (text: &str)
        ensures
            text@ == self@,
    {
        self.0.as_str()
    }
}

impl From<String> for TrainPartRef {
    fn from(value: String) -> (reference: Self)
        ensures
            reference@ == value@,
    {
        TrainPartRef(value)
    }
}

impl vstd::std_specs::convert::FromSpecImpl<String> for TrainPartRef {
    open spec fn obeys_from_spec() -> bool {
        true
    }

    closed spec fn from_spec(value: String) -> Self {
        TrainPartRef(value)
    }
}

/// Identifies a train formed by joining several trains.
#[derive(Debug, Clone, PartialEq, Eq, PartialOrd, Ord, Hash)]
pub struct CompoundTrainRef(String);

impl View for CompoundTrainRef {
    type V = Seq<char>;

    closed spec fn view(&self) -> Seq<char> {
        self.0@
    }
}

impl CompoundTrainRef {
    /// Wraps a value of this reference type.
    pub fn new(value: &str) -> (reference: Self)
        ensures
            reference@ == value@,
    {
        CompoundTrainRef(value.to_owned())
    }

    /// The underlying text.
    pub fn as_str(&self) -> (text: &str)
        ensures
            text@ == self@,
    {
        self.0.as_str()
    }

    /// Consumes the reference and returns the underlying text.
    pub fn into_inner(self) -> (text: String)
        ensures
            text@ == self@,
    {
        self.0
    }
}

impl AsRef<str> for CompoundTrainRef {
    fn as_ref(&self) -> (text: &str)
        ensures
            text@ == self@,
    {
        self.0.as_str()
    }
}

impl From<String> for CompoundTrainRef {
    fn from(value: String) -> (reference: Self)
        ensures
            reference@ == value@,
    {
        CompoundTrainRef(value)
    }
}

impl vstd::std_specs::convert::FromSpecImpl<String> for CompoundTrainRef {
    open spec fn obeys_from_spec() -> bool {
        true
    }

    closed spec fn from_spec(value: String) -> Self {
        CompoundTrainRef(value)
    }
}

/// Identifies one part of a journey run by a distinct part of a train.
#[derive(Debug, Clone, PartialEq, Eq, PartialOrd, Ord, Hash)]
pub struct JourneyPartRef(String);

impl View for JourneyPartRef {
    type V = Seq<char>;

    closed spec fn view(&self) -> Seq<char> {
        self.0@
    }
}

impl JourneyPartRef {
    /// Wraps a value of this reference type.
    pub fn new(value: &str) -> (reference: Self)
        ensures
            reference@ == value@,
    {
        JourneyPartRef(value.to_owned())
    }

    /// The underlying text.
    pub fn as_str(&self) -> (text: &str)
        ensures
            text@ == self@,
    {
        self.0.as_str()
    }

    /// Consumes the reference and returns the underlying text.
    pub fn into_inner(self) -> (text: String)
        ensures
            text@ == self@,
    {
        self.0
    }
}

impl AsRef<str> for JourneyPartRef {
    fn as_ref(&self) -> (text: &str)
        ensures
            text@ == self@,
    {
        self.0.as_str()
    }
}

impl From<String> for JourneyPartRef {
    fn from(value: String) -> (reference: Self)
        ensures
            reference@ == value@,
    {
        JourneyPartRef(value)
    }
}

impl vstd::std_specs::convert::FromSpecImpl<String> for JourneyPartRef {
    open spec fn obeys_from_spec() -> bool {
        true
    }

    closed spec fn from_spec(value: String) -> Self {
        JourneyPartRef(value)
    }
}

/// Identifies a place a journey starts at, passes or ends at.
#[derive(Debug, Clone, PartialEq, Eq, PartialOrd, Ord, Hash)]
pub struct JourneyPlaceRef(String);

impl View for JourneyPlaceRef {
    type V = Seq<char>;

    closed spec fn view(&self) -> Seq<char> {
        self.0@
    }
}

impl JourneyPlaceRef {
    /// Wraps a value of this reference type.
    pub fn new(value: &str) -> (reference: Self)
        ensures
            reference@ == value@,
    {
        JourneyPlaceRef(value.to_owned())
    }

    /// The underlying text.
    pub fn as_str(&self) -> (text: &str)
        ensures
            text@ == self@,
    {
        self.0.as_str()
    }

    /// Consumes the reference and returns the underlying text.
    pub fn into_inner(self) -> (text: String)
        ensures
            text@ == self@,
    {
        self.0
    }
}

impl AsRef<str> for JourneyPlaceRef {
    fn as_ref(&self) -> (text: &str)
        ensures
            text@ == self@,
    {
        self.0.as_str()
    }
}

impl From<String> for JourneyPlaceRef {
    fn from(value: String) -> (reference: Self)
        ensures
            reference@ == value@,
    {
        JourneyPlaceRef(value)
    }
}

impl vstd::std_specs::convert::FromSpecImpl<String> for JourneyPlaceRef {
    open spec fn obeys_from_spec() -> bool {
        true
    }

    closed spec fn from_spec(value: String) -> Self {
        JourneyPlaceRef(value)
    }
}

/// Identifies a group of lines marketed together.
#[derive(Debug, Clone, PartialEq, Eq, PartialOrd, Ord, Hash)]
pub struct GroupOfLinesRef(String);

impl View for GroupOfLinesRef {
    type V = Seq<char>;

    closed spec fn view(&self) -> Seq<char> {
        self.0@
    }
}

impl GroupOfLinesRef {
    /// Wraps a value of this reference type.
    pub fn new(value: &str) -> (reference: Self)
        ensures
            reference@ == value@,
    {
        GroupOfLinesRef(value.to_owned())
    }

    /// The underlying text.
    pub fn as_str(&self) -> (text: &str)
        ensures
            text@ == self@,
    {
        self.0.as_str()
    }

    /// Consumes the reference and returns the underlying text.
    pub fn into_inner(self) -> (text: String)
        ensures
            text@ == self@,
    {
        self.0
    }
}

impl AsRef<str> for GroupOfLinesRef {
    fn as_ref(&self) -> (text: &str)
        ensures
            text@ == self@,
    {
        self.0.as_str()
    }
}

impl From<String> for GroupOfLinesRef {
    fn from(value: String) -> (reference: Self)
        ensures
            reference@ == value@,
    {
        GroupOfLinesRef(value)
    }
}

impl vstd::std_specs::convert::FromSpecImpl<String> for GroupOfLinesRef {
    open spec fn obeys_from_spec() -> bool {
        true
    }

    closed spec fn from_spec(value: String) -> Self {
        GroupOfLinesRef(value)
    }
}

/// Identifies a brand a service is presented under.
#[derive(Debug, Clone, PartialEq, Eq, PartialOrd, Ord, Hash)]
pub struct BrandingRef(String);

impl View for BrandingRef {
    type V = Seq<char>;

    closed spec fn view(&self) -> Seq<char> {
        self.0@
    }
}

impl BrandingRef {
    /// Wraps a value of this reference type.
    pub fn new(value: &str) -> (reference: Self)
        ensures
            reference@ == value@,
    {
        BrandingRef(value.to_owned())
    }

    /// The underlying text.
    pub fn as_str(&self) -> (text: &str)
        ensures
            text@ == self@,
    {
        self.0.as_str()
    }

    /// Consumes the reference and returns the underlying text.
    pub fn into_inner(self) -> (text: String)
        ensures
            text@ == self@,
    {
        self.0
    }
}

impl AsRef<str> for BrandingRef {
    fn as_ref(&self) -> (text: &str)
        ensures
            text@ == self@,
    {
        self.0.as_str()
    }
}

impl From<String> for BrandingRef {
    fn from(value: String) -> (reference: Self)
        ensures
            reference@ == value@,
    {
        BrandingRef(value)
    }
}

impl vstd::std_specs::convert::FromSpecImpl<String> for BrandingRef {
    open spec fn obeys_from_spec() -> bool {
        true
    }

    closed spec fn from_spec(value: String) -> Self {
        BrandingRef(value)
    }
}

/// A direction of travel along a line, with the names shown to passengers.
#[derive(Debug, Clone, PartialEq, Eq)]
pub struct Direction {
    /// The direction.
    pub direction_ref: DirectionRef,
    /// Names of the direction, one per language.
    pub direction_name: Vec<NaturalLanguageString>,
}

impl Direction {
    /// A direction with no names attached.
    pub fn new(direction_ref: DirectionRef) -> (result: Self)
        ensures
            result.direction_ref == direction_ref,
            result.direction_name@.len() == 0,
    {
        Self {
            direction_ref,
            direction_name: Vec::new(),
        }
    }
}

/// How to reach the people running or selling a service.
#[derive(Debug, Clone, Default, PartialEq, Eq)]
pub struct SimpleContact {
    /// A telephone number.
    pub phone_number: Option<String>,
    /// A web address.
    pub url: Option<String>,
}

/// A place a journey passes through, named to tell it apart from similar journeys.
///
/// "Luton to Luton via Sutton" is why these exist: the endpoints alone do not
/// identify the service.
#[derive(Debug, Clone, Default, PartialEq, Eq)]
pub struct ViaName {
    /// The place, in a gazetteer.
    pub place_ref: Option<JourneyPlaceRef>,
    /// Names of the place, one per language.
    pub place_name: Vec<NaturalLanguagePlaceName>,
    /// Shorter names of the place, one per language.
    pub place_short_name: Vec<NaturalLanguagePlaceName>,
    /// How prominently to show this place; lower numbers come first.
    pub via_priority: Option<u64>,
}

impl ViaName {
    /// A via point given only by name.
    pub fn named(place_name: NaturalLanguagePlaceName) -> (result: Self)
        ensures
            result.place_ref is None,
            result.place_name@ == seq![place_name],
            result.place_short_name@.len() == 0,
            result.via_priority is None,
    {
        Self {
            place_ref: None,
            place_name: vec![place_name],
            place_short_name: Vec::new(),
            via_priority: None,
        }
    }
}

/// A brand a service is presented under.
#[derive(Debug, Clone, Default, PartialEq, Eq)]
pub struct Branding {
    /// The producer's code for the brand.
    pub branding_code: String,
    /// The brand's name.
    pub name: Option<NaturalLanguageString>,
    /// A shorter name for it.
    pub short_name: Option<NaturalLanguageString>,
    /// The brand described.
    pub description: Option<NaturalLanguageString>,
    /// A logo to present it with.
    pub image: Option<String>,
    /// A web address for it.
    pub url: Option<String>,
    /// The producer's own code for it.
    pub private_code: Option<String>,
}

/// How far a vehicle has come between the stop behind it and the stop ahead.
#[derive(Debug, Clone, Default, PartialEq)]
pub struct ProgressBetweenStops {
    /// The distance between the two stops, in metres.
    pub link_distance: Option<Binary64>,
    /// How much of that distance has been covered, as a percentage.
    pub percentage: Option<Binary64>,
}

/// How much confidence to put in a predicted time.
#[derive(Debug, Clone, PartialEq)]
pub struct PredictionQuality {
    /// How good the prediction is thought to be.
    pub prediction_level: QualityIndex,
    /// The share of vehicles expected to fall within the limits below.
    pub percentile: Option<Binary64>,
    /// The earliest time within that share.
    pub lower_time_limit: Option<DateTime>,
    /// The latest time within that share.
    pub higher_time_limit: Option<DateTime>,
}

impl PredictionQuality {
    /// A prediction of the stated quality, with no confidence interval attached.
    pub fn new(prediction_level: QualityIndex) -> (result: Self)
        ensures
            result.prediction_level == prediction_level,
            result.percentile is None,
            result.lower_time_limit is None,
            result.higher_time_limit is None,
    {
        Self {
            prediction_level,
            percentile: None,
            lower_time_limit: None,
            higher_time_limit: None,
        }
    }
}

/// One part of a journey run by a distinct part of a train.
///
/// A train that splits en route runs as several journey parts over the same
/// timetabled journey, each with its own train number and its own stretch of route.
#[derive(Debug, Clone, Default, PartialEq, Eq)]
pub struct JourneyPartInfo {
    /// The journey part.
    pub journey_part_ref: Option<JourneyPartRef>,
    /// The train number this part runs under.
    pub train_number_ref: Option<TrainNumberRef>,
    /// The operator running this part.
    pub operator_ref: Option<OperatorRef>,
    /// The joined train this part belongs to, while it is joined.
    pub compound_train_ref: Option<CompoundTrainRef>,
    /// Where this part starts.
    pub from_stop_point_ref: Option<StopPointRef>,
    /// Where this part ends.
    pub to_stop_point_ref: Option<StopPointRef>,
    /// When this part starts.
    pub start_time: Option<DateTime>,
    /// When this part ends.
    pub end_time: Option<DateTime>,
}

/// The parts a journey is split into.
#[derive(Debug, Clone, Default, PartialEq, Eq)]
pub struct JourneyParts {
    /// The parts, at least one.
    pub journey_part_info: Vec<JourneyPartInfo>,
}

/// The train numbers a journey runs under.
#[derive(Debug, Clone, Default, PartialEq, Eq)]
pub struct TrainNumbers {
    /// The numbers, at least one.
    pub train_number_ref: Vec<TrainNumberRef>,
}

/// One part of a train, and where it sits in the formation.
#[derive(Debug, Clone, PartialEq, Eq)]
pub struct TrainBlockPart {
    /// How many parts the train is formed of.
    pub number_of_block_parts: u64,
    /// The part this entry describes.
    pub train_part_ref: TrainPartRef,
    /// Where the part sits, described for passengers, one per language.
    pub position_of_train_block_part: Vec<NaturalLanguageString>,
}

/// A journey named by where and when it runs rather than by an identifier.
///
/// Two operators that do not share journey identifiers can still mean the same run:
/// it is the one leaving that origin at that time and reaching that destination at
/// that time.
#[derive(Debug, Clone, PartialEq, Eq)]
pub struct DatedVehicleJourneyIndirectRef {
    /// Where the journey starts.
    pub origin_ref: StopPointRef,
    /// When it is planned to leave there.
    pub aimed_departure_time: DateTime,
    /// Where it ends.
    pub destination_ref: StopPointRef,
    /// When it is planned to arrive there.
    pub aimed_arrival_time: DateTime,
}

/// A journey referred to from another one, as a feeder, distributor or relation.
#[derive(Debug, Clone, Default, PartialEq, Eq)]
pub struct ConnectingJourneyRef {
    /// The journey on its operational day.
    pub framed_vehicle_journey_ref: Option<FramedVehicleJourneyRef>,
    /// The journey named by where and when it runs.
    pub dated_vehicle_journey_indirect_ref: Option<DatedVehicleJourneyIndirectRef>,
    /// The line it runs on.
    pub line_ref: Option<LineRef>,
    /// The train number it runs under.
    pub train_number_ref: Option<TrainNumberRef>,
    /// The operator running it.
    pub operator_ref: Option<OperatorRef>,
    /// The participant whose identifiers the reference is drawn from.
    pub participant_ref: Option<ParticipantRef>,
}

/// The other journeys a journey stands in a relation to.
#[derive(Debug, Clone, Default, PartialEq, Eq)]
pub struct JourneyRelations {
    /// The relations, at least one.
    pub journey_relation: Vec<JourneyRelation>,
}

/// One relation between a journey and one or more others.
///
/// A journey may be joined to another, split from it, replaced by it or continue as
/// it. `journey_relation_type` says which; the call or the journey parts say where
/// the relation takes effect.
#[derive(Debug, Clone, PartialEq, Eq)]
pub struct JourneyRelation {
    /// What kind of relation it is.
    pub journey_relation_type: JourneyRelationType,
    /// The call the relation takes effect at.
    pub call_info: Option<RelatedCall>,
    /// The journey parts the relation is about, instead of `call_info`.
    pub journey_parts: Option<JourneyParts>,
    /// The journeys on the other side of the relation, at least one.
    pub related_journey: Vec<RelatedJourney>,
}

/// Which alternative of a journey relation's choice is present.
#[derive(Debug, Clone, Copy, PartialEq, Eq)]
pub enum JourneyRelationScope<'a> {
    /// The relation takes effect at one call.
    Call(&'a RelatedCall),
    /// The relation is about whole journey parts.
    Parts(&'a JourneyParts),
}

impl JourneyRelation {
    /// A relation of the given kind to the given journeys.
    pub fn new(
        journey_relation_type: JourneyRelationType,
        related_journey: Vec<RelatedJourney>,
    ) -> (result: Self)
        ensures
            result.journey_relation_type == journey_relation_type,
            result.call_info is None,
            result.journey_parts is None,
            result.related_journey == related_journey,
    {
        Self {
            journey_relation_type,
            call_info: None,
            journey_parts: None,
            related_journey,
        }
    }

    /// Which alternative of the schema's choice this relation carries, or `None`
    /// when neither is present. The call is reported should both be.
    pub fn scope(&self) -> (scope: Option<JourneyRelationScope<'_>>)
        ensures
            match scope {
                Some(JourneyRelationScope::Call(call)) => self.call_info == Some(*call),
                Some(JourneyRelationScope::Parts(parts)) => {
                    &&& self.call_info is None
                    &&& self.journey_parts == Some(*parts)
                },
                None => self.call_info is None && self.journey_parts is None,
            },
    {
        if let Some(call) = &self.call_info {
            Some(JourneyRelationScope::Call(call))
        } else if let Some(parts) = &self.journey_parts {
            Some(JourneyRelationScope::Parts(parts))
        } else {
            None
        }
    }
}

/// The call a journey relation takes effect at.
#[derive(Debug, Clone, PartialEq, Eq)]
pub struct RelatedCall {
    /// The stop.
    pub stop_point_ref: StopPointRef,
    /// Which visit to that stop this is, when the journey calls more than once.
    pub visit_number: Option<u64>,
    /// Where the stop comes in the journey, counting from one.
    pub order: Option<u64>,
    /// Names of the stop, one per language.
    pub stop_point_name: Vec<NaturalLanguageString>,
    /// When the vehicle is planned to leave.
    pub aimed_departure_time: Option<DateTime>,
    /// When it is planned to arrive.
    pub aimed_arrival_time: Option<DateTime>,
}

impl RelatedCall {
    /// A call at the given stop with no times attached.
    pub fn at(stop_point_ref: StopPointRef) -> (result: Self)
        ensures
            result.stop_point_ref == stop_point_ref,
            result.visit_number is None,
            result.order is None,
            result.stop_point_name@.len() == 0,
            result.aimed_departure_time is None,
            result.aimed_arrival_time is None,
    {
        Self {
            stop_point_ref,
            visit_number: None,
            order: None,
            stop_point_name: Vec::new(),
            aimed_departure_time: None,
            aimed_arrival_time: None,
        }
    }
}

/// A journey on the other side of a relation.
#[derive(Debug, Clone, Default, PartialEq, Eq)]
pub struct RelatedJourney {
    /// The journey on its operational day.
    pub framed_vehicle_journey_ref: Option<FramedVehicleJourneyRef>,
    /// The journey named by where and when it runs.
    pub dated_vehicle_journey_indirect_ref: Option<DatedVehicleJourneyIndirectRef>,
    /// The line it runs on.
    pub line_ref: Option<LineRef>,
    /// The train number it runs under.
    pub train_number_ref: Option<TrainNumberRef>,
    /// The operator running it.
    pub operator_ref: Option<OperatorRef>,
    /// The participant whose identifiers the reference is drawn from.
    pub participant_ref: Option<ParticipantRef>,
    /// The call the relation takes effect at, seen from this journey.
    pub call_info: Option<RelatedCall>,
    /// The journey parts the relation is about, seen from this journey.
    pub journey_parts: Option<JourneyParts>,
}

} // verus!
