//! References to the entities of a transport network.

use crate::types::{CountryRef, ParticipantRef};
use vstd::prelude::*;

verus! {

/// Identifies a block, i.e. a day's work for one vehicle.
#[derive(Debug, Clone, PartialEq, Eq, PartialOrd, Ord, Hash)]
pub struct BlockRef(String);

impl View for BlockRef {
    type V = Seq<char>;

    closed spec fn view(&self) -> Seq<char> {
        self.0@
    }
}

impl BlockRef {
    /// Wraps a value of this reference type.
    pub fn new(value: &str) -> (reference: Self)
        ensures
            reference@ == value@,
    {
        BlockRef(value.to_owned())
    }

    /// The underlying text.
    pub fn as_str(&self) -> (text: &str)
        ensures
            text@ == self@,
    {
        self.0.as_str()
    }

    /// Consumes the reference and returns the underlying text.
    pub fn into_inner(self) -> (text: String)
        ensures
            text@ == self@,
    {
        self.0
    }
}

impl AsRef<str> for BlockRef {
    fn as_ref(&self) -> (text: &str)
        ensures
            text@ == self@,
    {
        self.0.as_str()
    }
}

impl From<String> for BlockRef {
    fn from(value: String) -> (reference: Self)
        ensures
            reference@ == value@,
    {
        BlockRef(value)
    }
}

impl vstd::std_specs::convert::FromSpecImpl<String> for BlockRef {
    open spec fn obeys_from_spec() -> bool {
        true
    }

    closed spec fn from_spec(value: String) -> Self {
        BlockRef(value)
    }
}

/// Identifies the sequence of journeys a single vehicle runs within a block.
#[derive(Debug, Clone, PartialEq, Eq, PartialOrd, Ord, Hash)]
pub struct CourseOfJourneyRef(String);

impl View for CourseOfJourneyRef {
    type V = Seq<char>;

    closed spec fn view(&self) -> Seq<char> {
        self.0@
    }
}

impl CourseOfJourneyRef {
    /// Wraps a value of this reference type.
    pub fn new(value: &str) -> (reference: Self)
        ensures
            reference@ == value@,
    {
        CourseOfJourneyRef(value.to_owned())
    }

    /// The underlying text.
    pub fn as_str(&self) -> (text: &str)
        ensures
            text@ == self@,
    {
        self.0.as_str()
    }

    /// Consumes the reference and returns the underlying text.
    pub fn into_inner(self) -> (text: String)
        ensures
            text@ == self@,
    {
        self.0
    }
}

impl AsRef<str> for CourseOfJourneyRef {
    fn as_ref(&self) -> (text: &str)
        ensures
            text@ == self@,
    {
        self.0.as_str()
    }
}

impl From<String> for CourseOfJourneyRef {
    fn from(value: String) -> (reference: Self)
        ensures
            reference@ == value@,
    {
        CourseOfJourneyRef(value)
    }
}

impl vstd::std_specs::convert::FromSpecImpl<String> for CourseOfJourneyRef {
    open spec fn obeys_from_spec() -> bool {
        true
    }

    closed spec fn from_spec(value: String) -> Self {
        CourseOfJourneyRef(value)
    }
}

/// Identifies an edition of a timetable.
#[derive(Debug, Clone, PartialEq, Eq, PartialOrd, Ord, Hash)]
pub struct VersionRef(String);

impl View for VersionRef {
    type V = Seq<char>;

    closed spec fn view(&self) -> Seq<char> {
        self.0@
    }
}

impl VersionRef {
    /// Wraps a value of this reference type.
    pub fn new(value: &str) -> (reference: Self)
        ensures
            reference@ == value@,
    {
        VersionRef(value.to_owned())
    }

    /// The underlying text.
    pub fn as_str(&self) -> (text: &str)
        ensures
            text@ == self@,
    {
        self.0.as_str()
    }

    /// Consumes the reference and returns the underlying text.
    pub fn into_inner(self) -> (text: String)
        ensures
            text@ == self@,
    {
        self.0
    }
}

impl AsRef<str> for VersionRef {
    fn as_ref(&self) -> (text: &str)
        ensures
            text@ == self@,
    {
        self.0.as_str()
    }
}

impl From<String> for VersionRef {
    fn from(value: String) -> (reference: Self)
        ensures
            reference@ == value@,
    {
        VersionRef(value)
    }
}

impl vstd::std_specs::convert::FromSpecImpl<String> for VersionRef {
    open spec fn obeys_from_spec() -> bool {
        true
    }

    closed spec fn from_spec(value: String) -> Self {
        VersionRef(value)
    }
}

/// Identifies a situation within the participant that raised it.
///
/// The number stays the same across every update to the situation; the update's
/// `Version` distinguishes the revisions.
#[derive(Debug, Clone, PartialEq, Eq, PartialOrd, Ord, Hash)]
pub struct SituationNumber(String);

impl View for SituationNumber {
    type V = Seq<char>;

    closed spec fn view(&self) -> Seq<char> {
        self.0@
    }
}

impl SituationNumber {
    /// Wraps a value of this reference type.
    pub fn new(value: &str) -> (reference: Self)
        ensures
            reference@ == value@,
    {
        SituationNumber(value.to_owned())
    }

    /// The underlying text.
    pub fn as_str(&self) -> (text: &str)
        ensures
            text@ == self@,
    {
        self.0.as_str()
    }

    /// Consumes the reference and returns the underlying text.
    pub fn into_inner(self) -> (text: String)
        ensures
            text@ == self@,
    {
        self.0
    }
}

impl AsRef<str> for SituationNumber {
    fn as_ref(&self) -> (text: &str)
        ensures
            text@ == self@,
    {
        self.0.as_str()
    }
}

impl From<String> for SituationNumber {
    fn from(value: String) -> (reference: Self)
        ensures
            reference@ == value@,
    {
        SituationNumber(value)
    }
}

impl vstd::std_specs::convert::FromSpecImpl<String> for SituationNumber {
    open spec fn obeys_from_spec() -> bool {
        true
    }

    closed spec fn from_spec(value: String) -> Self {
        SituationNumber(value)
    }
}

/// Identifies an operator, i.e. a company running services.
#[derive(Debug, Clone, PartialEq, Eq, PartialOrd, Ord, Hash)]
pub struct OperatorRef(String);

impl View for OperatorRef {
    type V = Seq<char>;

    closed spec fn view(&self) -> Seq<char> {
        self.0@
    }
}

impl OperatorRef {
    /// Wraps a value of this reference type.
    pub fn new(value: &str) -> (reference: Self)
        ensures
            reference@ == value@,
    {
        OperatorRef(value.to_owned())
    }

    /// The underlying text.
    pub fn as_str(&self) -> (text: &str)
        ensures
            text@ == self@,
    {
        self.0.as_str()
    }

    /// Consumes the reference and returns the underlying text.
    pub fn into_inner(self) -> (text: String)
        ensures
            text@ == self@,
    {
        self.0
    }
}

impl AsRef<str> for OperatorRef {
    fn as_ref(&self) -> (text: &str)
        ensures
            text@ == self@,
    {
        self.0.as_str()
    }
}

impl From<String> for OperatorRef {
    fn from(value: String) -> (reference: Self)
        ensures
            reference@ == value@,
    {
        OperatorRef(value)
    }
}

impl vstd::std_specs::convert::FromSpecImpl<String> for OperatorRef {
    open spec fn obeys_from_spec() -> bool {
        true
    }

    closed spec fn from_spec(value: String) -> Self {
        OperatorRef(value)
    }
}

/// Identifies a part of an operator's organisation.
#[derive(Debug, Clone, PartialEq, Eq, PartialOrd, Ord, Hash)]
pub struct OperationalUnitRef(String);

impl View for OperationalUnitRef {
    type V = Seq<char>;

    closed spec fn view(&self) -> Seq<char> {
        self.0@
    }
}

impl OperationalUnitRef {
    /// Wraps a value of this reference type.
    pub fn new(value: &str) -> (reference: Self)
        ensures
            reference@ == value@,
    {
        OperationalUnitRef(value.to_owned())
    }

    /// The underlying text.
    pub fn as_str(&self) -> (text: &str)
        ensures
            text@ == self@,
    {
        self.0.as_str()
    }

    /// Consumes the reference and returns the underlying text.
    pub fn into_inner(self) -> (text: String)
        ensures
            text@ == self@,
    {
        self.0
    }
}

impl AsRef<str> for OperationalUnitRef {
    fn as_ref(&self) -> (text: &str)
        ensures
            text@ == self@,
    {
        self.0.as_str()
    }
}

impl From<String> for OperationalUnitRef {
    fn from(value: String) -> (reference: Self)
        ensures
            reference@ == value@,
    {
        OperationalUnitRef(value)
    }
}

impl vstd::std_specs::convert::FromSpecImpl<String> for OperationalUnitRef {
    open spec fn obeys_from_spec() -> bool {
        true
    }

    closed spec fn from_spec(value: String) -> Self {
        OperationalUnitRef(value)
    }
}

/// Identifies a line — a named group of routes presented to the public as one.
#[derive(Debug, Clone, PartialEq, Eq, PartialOrd, Ord, Hash)]
pub struct LineRef(String);

impl View for LineRef {
    type V = Seq<char>;

    closed spec fn view(&self) -> Seq<char> {
        self.0@
    }
}

impl LineRef {
    /// Wraps a value of this reference type.
    pub fn new(value: &str) -> (reference: Self)
        ensures
            reference@ == value@,
    {
        LineRef(value.to_owned())
    }

    /// The underlying text.
    pub fn as_str(&self) -> (text: &str)
        ensures
            text@ == self@,
    {
        self.0.as_str()
    }

    /// Consumes the reference and returns the underlying text.
    pub fn into_inner(self) -> (text: String)
        ensures
            text@ == self@,
    {
        self.0
    }
}

impl AsRef<str> for LineRef {
    fn as_ref(&self) -> (text: &str)
        ensures
            text@ == self@,
    {
        self.0.as_str()
    }
}

impl From<String> for LineRef {
    fn from(value: String) -> (reference: Self)
        ensures
            reference@ == value@,
    {
        LineRef(value)
    }
}

impl vstd::std_specs::convert::FromSpecImpl<String> for LineRef {
    open spec fn obeys_from_spec() -> bool {
        true
    }

    closed spec fn from_spec(value: String) -> Self {
        LineRef(value)
    }
}

/// Identifies a direction of travel along a line.
#[derive(Debug, Clone, PartialEq, Eq, PartialOrd, Ord, Hash)]
pub struct DirectionRef(String);

impl View for DirectionRef {
    type V = Seq<char>;

    closed spec fn view(&self) -> Seq<char> {
        self.0@
    }
}

impl DirectionRef {
    /// Wraps a value of this reference type.
    pub fn new(value: &str) -> (reference: Self)
        ensures
            reference@ == value@,
    {
        DirectionRef(value.to_owned())
    }

    /// The underlying text.
    pub fn as_str(&self) -> (text: &str)
        ensures
            text@ == self@,
    {
        self.0.as_str()
    }

    /// Consumes the reference and returns the underlying text.
    pub fn into_inner(self) -> (text: String)
        ensures
            text@ == self@,
    {
        self.0
    }
}

impl AsRef<str> for DirectionRef {
    fn as_ref(&self) -> (text: &str)
        ensures
            text@ == self@,
    {
        self.0.as_str()
    }
}

impl From<String> for DirectionRef {
    fn from(value: String) -> (reference: Self)
        ensures
            reference@ == value@,
    {
        DirectionRef(value)
    }
}

impl vstd::std_specs::convert::FromSpecImpl<String> for DirectionRef {
    open spec fn obeys_from_spec() -> bool {
        true
    }

    closed spec fn from_spec(value: String) -> Self {
        DirectionRef(value)
    }
}

/// Identifies a scheduled stopping place.
#[derive(Debug, Clone, PartialEq, Eq, PartialOrd, Ord, Hash)]
pub struct StopPointRef(String);

impl View for StopPointRef {
    type V = Seq<char>;

    closed spec fn view(&self) -> Seq<char> {
        self.0@
    }
}

impl StopPointRef {
    /// Wraps a value of this reference type.
    pub fn new(value: &str) -> (reference: Self)
        ensures
            reference@ == value@,
    {
        StopPointRef(value.to_owned())
    }

    /// The underlying text.
    pub fn as_str(&self) -> (text: &str)
        ensures
            text@ == self@,
    {
        self.0.as_str()
    }

    /// Consumes the reference and returns the underlying text.
    pub fn into_inner(self) -> (text: String)
        ensures
            text@ == self@,
    {
        self.0
    }
}

impl AsRef<str> for StopPointRef {
    fn as_ref(&self) -> (text: &str)
        ensures
            text@ == self@,
    {
        self.0.as_str()
    }
}

impl From<String> for StopPointRef {
    fn from(value: String) -> (reference: Self)
        ensures
            reference@ == value@,
    {
        StopPointRef(value)
    }
}

impl vstd::std_specs::convert::FromSpecImpl<String> for StopPointRef {
    open spec fn obeys_from_spec() -> bool {
        true
    }

    closed spec fn from_spec(value: String) -> Self {
        StopPointRef(value)
    }
}

/// Identifies a group of stop points treated as one place.
#[derive(Debug, Clone, PartialEq, Eq, PartialOrd, Ord, Hash)]
pub struct StopAreaRef(String);

impl View for StopAreaRef {
    type V = Seq<char>;

    closed spec fn view(&self) -> Seq<char> {
        self.0@
    }
}

impl StopAreaRef {
    /// Wraps a value of this reference type.
    pub fn new(value: &str) -> (reference: Self)
        ensures
            reference@ == value@,
    {
        StopAreaRef(value.to_owned())
    }

    /// The underlying text.
    pub fn as_str(&self) -> (text: &str)
        ensures
            text@ == self@,
    {
        self.0.as_str()
    }

    /// Consumes the reference and returns the underlying text.
    pub fn into_inner(self) -> (text: String)
        ensures
            text@ == self@,
    {
        self.0
    }
}

impl AsRef<str> for StopAreaRef {
    fn as_ref(&self) -> (text: &str)
        ensures
            text@ == self@,
    {
        self.0.as_str()
    }
}

impl From<String> for StopAreaRef {
    fn from(value: String) -> (reference: Self)
        ensures
            reference@ == value@,
    {
        StopAreaRef(value)
    }
}

impl vstd::std_specs::convert::FromSpecImpl<String> for StopAreaRef {
    open spec fn obeys_from_spec() -> bool {
        true
    }

    closed spec fn from_spec(value: String) -> Self {
        StopAreaRef(value)
    }
}

/// Identifies a place where passengers board and alight, in IFOPT terms.
#[derive(Debug, Clone, PartialEq, Eq, PartialOrd, Ord, Hash)]
pub struct StopPlaceRef(String);

impl View for StopPlaceRef {
    type V = Seq<char>;

    closed spec fn view(&self) -> Seq<char> {
        self.0@
    }
}

impl StopPlaceRef {
    /// Wraps a value of this reference type.
    pub fn new(value: &str) -> (reference: Self)
        ensures
            reference@ == value@,
    {
        StopPlaceRef(value.to_owned())
    }

    /// The underlying text.
    pub fn as_str(&self) -> (text: &str)
        ensures
            text@ == self@,
    {
        self.0.as_str()
    }

    /// Consumes the reference and returns the underlying text.
    pub fn into_inner(self) -> (text: String)
        ensures
            text@ == self@,
    {
        self.0
    }
}

impl AsRef<str> for StopPlaceRef {
    fn as_ref(&self) -> (text: &str)
        ensures
            text@ == self@,
    {
        self.0.as_str()
    }
}

impl From<String> for StopPlaceRef {
    fn from(value: String) -> (reference: Self)
        ensures
            reference@ == value@,
    {
        StopPlaceRef(value)
    }
}

impl vstd::std_specs::convert::FromSpecImpl<String> for StopPlaceRef {
    open spec fn obeys_from_spec() -> bool {
        true
    }

    closed spec fn from_spec(value: String) -> Self {
        StopPlaceRef(value)
    }
}

/// Identifies a component of a stop place, e.g. a quay or an entrance.
#[derive(Debug, Clone, PartialEq, Eq, PartialOrd, Ord, Hash)]
pub struct StopPlaceComponentRef(String);

impl View for StopPlaceComponentRef {
    type V = Seq<char>;

    closed spec fn view(&self) -> Seq<char> {
        self.0@
    }
}

impl StopPlaceComponentRef {
    /// Wraps a value of this reference type.
    pub fn new(value: &str) -> (reference: Self)
        ensures
            reference@ == value@,
    {
        StopPlaceComponentRef(value.to_owned())
    }

    /// The underlying text.
    pub fn as_str(&self) -> (text: &str)
        ensures
            text@ == self@,
    {
        self.0.as_str()
    }

    /// Consumes the reference and returns the underlying text.
    pub fn into_inner(self) -> (text: String)
        ensures
            text@ == self@,
    {
        self.0
    }
}

impl AsRef<str> for StopPlaceComponentRef {
    fn as_ref(&self) -> (text: &str)
        ensures
            text@ == self@,
    {
        self.0.as_str()
    }
}

impl From<String> for StopPlaceComponentRef {
    fn from(value: String) -> (reference: Self)
        ensures
            reference@ == value@,
    {
        StopPlaceComponentRef(value)
    }
}

impl vstd::std_specs::convert::FromSpecImpl<String> for StopPlaceComponentRef {
    open spec fn obeys_from_spec() -> bool {
        true
    }

    closed spec fn from_spec(value: String) -> Self {
        StopPlaceComponentRef(value)
    }
}

/// Identifies a physical link between two stop points used for interchange.
#[derive(Debug, Clone, PartialEq, Eq, PartialOrd, Ord, Hash)]
pub struct ConnectionLinkRef(String);

impl View for ConnectionLinkRef {
    type V = Seq<char>;

    closed spec fn view(&self) -> Seq<char> {
        self.0@
    }
}

impl ConnectionLinkRef {
    /// Wraps a value of this reference type.
    pub fn new(value: &str) -> (reference: Self)
        ensures
            reference@ == value@,
    {
        ConnectionLinkRef(value.to_owned())
    }

    /// The underlying text.
    pub fn as_str(&self) -> (text: &str)
        ensures
            text@ == self@,
    {
        self.0.as_str()
    }

    /// Consumes the reference and returns the underlying text.
    pub fn into_inner(self) -> (text: String)
        ensures
            text@ == self@,
    {
        self.0
    }
}

impl AsRef<str> for ConnectionLinkRef {
    fn as_ref(&self) -> (text: &str)
        ensures
            text@ == self@,
    {
        self.0.as_str()
    }
}

impl From<String> for ConnectionLinkRef {
    fn from(value: String) -> (reference: Self)
        ensures
            reference@ == value@,
    {
        ConnectionLinkRef(value)
    }
}

impl vstd::std_specs::convert::FromSpecImpl<String> for ConnectionLinkRef {
    open spec fn obeys_from_spec() -> bool {
        true
    }

    closed spec fn from_spec(value: String) -> Self {
        ConnectionLinkRef(value)
    }
}

/// Identifies a passenger facility, e.g. a lift or a ticket machine.
#[derive(Debug, Clone, PartialEq, Eq, PartialOrd, Ord, Hash)]
pub struct FacilityRef(String);

impl View for FacilityRef {
    type V = Seq<char>;

    closed spec fn view(&self) -> Seq<char> {
        self.0@
    }
}

impl FacilityRef {
    /// Wraps a value of this reference type.
    pub fn new(value: &str) -> (reference: Self)
        ensures
            reference@ == value@,
    {
        FacilityRef(value.to_owned())
    }

    /// The underlying text.
    pub fn as_str(&self) -> (text: &str)
        ensures
            text@ == self@,
    {
        self.0.as_str()
    }

    /// Consumes the reference and returns the underlying text.
    pub fn into_inner(self) -> (text: String)
        ensures
            text@ == self@,
    {
        self.0
    }
}

impl AsRef<str> for FacilityRef {
    fn as_ref(&self) -> (text: &str)
        ensures
            text@ == self@,
    {
        self.0.as_str()
    }
}

impl From<String> for FacilityRef {
    fn from(value: String) -> (reference: Self)
        ensures
            reference@ == value@,
    {
        FacilityRef(value)
    }
}

impl vstd::std_specs::convert::FromSpecImpl<String> for FacilityRef {
    open spec fn obeys_from_spec() -> bool {
        true
    }

    closed spec fn from_spec(value: String) -> Self {
        FacilityRef(value)
    }
}

/// Identifies a physical vehicle.
#[derive(Debug, Clone, PartialEq, Eq, PartialOrd, Ord, Hash)]
pub struct VehicleRef(String);

impl View for VehicleRef {
    type V = Seq<char>;

    closed spec fn view(&self) -> Seq<char> {
        self.0@
    }
}

impl VehicleRef {
    /// Wraps a value of this reference type.
    pub fn new(value: &str) -> (reference: Self)
        ensures
            reference@ == value@,
    {
        VehicleRef(value.to_owned())
    }

    /// The underlying text.
    pub fn as_str(&self) -> (text: &str)
        ensures
            text@ == self@,
    {
        self.0.as_str()
    }

    /// Consumes the reference and returns the underlying text.
    pub fn into_inner(self) -> (text: String)
        ensures
            text@ == self@,
    {
        self.0
    }
}

impl AsRef<str> for VehicleRef {
    fn as_ref(&self) -> (text: &str)
        ensures
            text@ == self@,
    {
        self.0.as_str()
    }
}

impl From<String> for VehicleRef {
    fn from(value: String) -> (reference: Self)
        ensures
            reference@ == value@,
    {
        VehicleRef(value)
    }
}

impl vstd::std_specs::convert::FromSpecImpl<String> for VehicleRef {
    open spec fn obeys_from_spec() -> bool {
        true
    }

    closed spec fn from_spec(value: String) -> Self {
        VehicleRef(value)
    }
}

/// Identifies a planned journey of a vehicle along a route.
#[derive(Debug, Clone, PartialEq, Eq, PartialOrd, Ord, Hash)]
pub struct VehicleJourneyRef(String);

impl View for VehicleJourneyRef {
    type V = Seq<char>;

    closed spec fn view(&self) -> Seq<char> {
        self.0@
    }
}

impl VehicleJourneyRef {
    /// Wraps a value of this reference type.
    pub fn new(value: &str) -> (reference: Self)
        ensures
            reference@ == value@,
    {
        VehicleJourneyRef(value.to_owned())
    }

    /// The underlying text.
    pub fn as_str(&self) -> (text: &str)
        ensures
            text@ == self@,
    {
        self.0.as_str()
    }

    /// Consumes the reference and returns the underlying text.
    pub fn into_inner(self) -> (text: String)
        ensures
            text@ == self@,
    {
        self.0
    }
}

impl AsRef<str> for VehicleJourneyRef {
    fn as_ref(&self) -> (text: &str)
        ensures
            text@ == self@,
    {
        self.0.as_str()
    }
}

impl From<String> for VehicleJourneyRef {
    fn from(value: String) -> (reference: Self)
        ensures
            reference@ == value@,
    {
        VehicleJourneyRef(value)
    }
}

impl vstd::std_specs::convert::FromSpecImpl<String> for VehicleJourneyRef {
    open spec fn obeys_from_spec() -> bool {
        true
    }

    closed spec fn from_spec(value: String) -> Self {
        VehicleJourneyRef(value)
    }
}

/// Identifies a planned interchange between two journeys.
#[derive(Debug, Clone, PartialEq, Eq, PartialOrd, Ord, Hash)]
pub struct InterchangeRef(String);

impl View for InterchangeRef {
    type V = Seq<char>;

    closed spec fn view(&self) -> Seq<char> {
        self.0@
    }
}

impl InterchangeRef {
    /// Wraps a value of this reference type.
    pub fn new(value: &str) -> (reference: Self)
        ensures
            reference@ == value@,
    {
        InterchangeRef(value.to_owned())
    }

    /// The underlying text.
    pub fn as_str(&self) -> (text: &str)
        ensures
            text@ == self@,
    {
        self.0.as_str()
    }

    /// Consumes the reference and returns the underlying text.
    pub fn into_inner(self) -> (text: String)
        ensures
            text@ == self@,
    {
        self.0
    }
}

impl AsRef<str> for InterchangeRef {
    fn as_ref(&self) -> (text: &str)
        ensures
            text@ == self@,
    {
        self.0.as_str()
    }
}

impl From<String> for InterchangeRef {
    fn from(value: String) -> (reference: Self)
        ensures
            reference@ == value@,
    {
        InterchangeRef(value)
    }
}

impl vstd::std_specs::convert::FromSpecImpl<String> for InterchangeRef {
    open spec fn obeys_from_spec() -> bool {
        true
    }

    closed spec fn from_spec(value: String) -> Self {
        InterchangeRef(value)
    }
}

/// Identifies a control action taken to manage operations.
#[derive(Debug, Clone, PartialEq, Eq, PartialOrd, Ord, Hash)]
pub struct ControlActionRef(String);

impl View for ControlActionRef {
    type V = Seq<char>;

    closed spec fn view(&self) -> Seq<char> {
        self.0@
    }
}

impl ControlActionRef {
    /// Wraps a value of this reference type.
    pub fn new(value: &str) -> (reference: Self)
        ensures
            reference@ == value@,
    {
        ControlActionRef(value.to_owned())
    }

    /// The underlying text.
    pub fn as_str(&self) -> (text: &str)
        ensures
            text@ == self@,
    {
        self.0.as_str()
    }

    /// Consumes the reference and returns the underlying text.
    pub fn into_inner(self) -> (text: String)
        ensures
            text@ == self@,
    {
        self.0
    }
}

impl AsRef<str> for ControlActionRef {
    fn as_ref(&self) -> (text: &str)
        ensures
            text@ == self@,
    {
        self.0.as_str()
    }
}

impl From<String> for ControlActionRef {
    fn from(value: String) -> (reference: Self)
        ensures
            reference@ == value@,
    {
        ControlActionRef(value)
    }
}

impl vstd::std_specs::convert::FromSpecImpl<String> for ControlActionRef {
    open spec fn obeys_from_spec() -> bool {
        true
    }

    closed spec fn from_spec(value: String) -> Self {
        ControlActionRef(value)
    }
}

/// Identifies the operational day a dated journey belongs to.
#[derive(Debug, Clone, PartialEq, Eq, PartialOrd, Ord, Hash)]
pub struct DataFrameRef(String);

impl View for DataFrameRef {
    type V = Seq<char>;

    closed spec fn view(&self) -> Seq<char> {
        self.0@
    }
}

impl DataFrameRef {
    /// Wraps a value of this reference type.
    pub fn new(value: &str) -> (reference: Self)
        ensures
            reference@ == value@,
    {
        DataFrameRef(value.to_owned())
    }

    /// The underlying text.
    pub fn as_str(&self) -> (text: &str)
        ensures
            text@ == self@,
    {
        self.0.as_str()
    }

    /// Consumes the reference and returns the underlying text.
    pub fn into_inner(self) -> (text: String)
        ensures
            text@ == self@,
    {
        self.0
    }
}

impl AsRef<str> for DataFrameRef {
    fn as_ref(&self) -> (text: &str)
        ensures
            text@ == self@,
    {
        self.0.as_str()
    }
}

impl From<String> for DataFrameRef {
    fn from(value: String) -> (reference: Self)
        ensures
            reference@ == value@,
    {
        DataFrameRef(value)
    }
}

impl vstd::std_specs::convert::FromSpecImpl<String> for DataFrameRef {
    open spec fn obeys_from_spec() -> bool {
        true
    }

    closed spec fn from_spec(value: String) -> Self {
        DataFrameRef(value)
    }
}

/// Identifies a journey on a particular operational day.
#[derive(Debug, Clone, PartialEq, Eq, PartialOrd, Ord, Hash)]
pub struct DatedVehicleJourneyRef(String);

impl View for DatedVehicleJourneyRef {
    type V = Seq<char>;

    closed spec fn view(&self) -> Seq<char> {
        self.0@
    }
}

impl DatedVehicleJourneyRef {
    /// Wraps a value of this reference type.
    pub fn new(value: &str) -> (reference: Self)
        ensures
            reference@ == value@,
    {
        DatedVehicleJourneyRef(value.to_owned())
    }

    /// The underlying text.
    pub fn as_str(&self) -> (text: &str)
        ensures
            text@ == self@,
    {
        self.0.as_str()
    }

    /// Consumes the reference and returns the underlying text.
    pub fn into_inner(self) -> (text: String)
        ensures
            text@ == self@,
    {
        self.0
    }
}

impl AsRef<str> for DatedVehicleJourneyRef {
    fn as_ref(&self) -> (text: &str)
        ensures
            text@ == self@,
    {
        self.0.as_str()
    }
}

impl From<String> for DatedVehicleJourneyRef {
    fn from(value: String) -> (reference: Self)
        ensures
            reference@ == value@,
    {
        DatedVehicleJourneyRef(value)
    }
}

impl vstd::std_specs::convert::FromSpecImpl<String> for DatedVehicleJourneyRef {
    open spec fn obeys_from_spec() -> bool {
        true
    }

    closed spec fn from_spec(value: String) -> Self {
        DatedVehicleJourneyRef(value)
    }
}

/// Identifies the destination shown to passengers.
#[derive(Debug, Clone, PartialEq, Eq, PartialOrd, Ord, Hash)]
pub struct DestinationRef(String);

impl View for DestinationRef {
    type V = Seq<char>;

    closed spec fn view(&self) -> Seq<char> {
        self.0@
    }
}

impl DestinationRef {
    /// Wraps a value of this reference type.
    pub fn new(value: &str) -> (reference: Self)
        ensures
            reference@ == value@,
    {
        DestinationRef(value.to_owned())
    }

    /// The underlying text.
    pub fn as_str(&self) -> (text: &str)
        ensures
            text@ == self@,
    {
        self.0.as_str()
    }

    /// Consumes the reference and returns the underlying text.
    pub fn into_inner(self) -> (text: String)
        ensures
            text@ == self@,
    {
        self.0
    }
}

impl AsRef<str> for DestinationRef {
    fn as_ref(&self) -> (text: &str)
        ensures
            text@ == self@,
    {
        self.0.as_str()
    }
}

impl From<String> for DestinationRef {
    fn from(value: String) -> (reference: Self)
        ensures
            reference@ == value@,
    {
        DestinationRef(value)
    }
}

impl vstd::std_specs::convert::FromSpecImpl<String> for DestinationRef {
    open spec fn obeys_from_spec() -> bool {
        true
    }

    closed spec fn from_spec(value: String) -> Self {
        DestinationRef(value)
    }
}

/// Identifies a journey pattern, i.e. an ordered list of stop points.
#[derive(Debug, Clone, PartialEq, Eq, PartialOrd, Ord, Hash)]
pub struct JourneyPatternRef(String);

impl View for JourneyPatternRef {
    type V = Seq<char>;

    closed spec fn view(&self) -> Seq<char> {
        self.0@
    }
}

impl JourneyPatternRef {
    /// Wraps a value of this reference type.
    pub fn new(value: &str) -> (reference: Self)
        ensures
            reference@ == value@,
    {
        JourneyPatternRef(value.to_owned())
    }

    /// The underlying text.
    pub fn as_str(&self) -> (text: &str)
        ensures
            text@ == self@,
    {
        self.0.as_str()
    }

    /// Consumes the reference and returns the underlying text.
    pub fn into_inner(self) -> (text: String)
        ensures
            text@ == self@,
    {
        self.0
    }
}

impl AsRef<str> for JourneyPatternRef {
    fn as_ref(&self) -> (text: &str)
        ensures
            text@ == self@,
    {
        self.0.as_str()
    }
}

impl From<String> for JourneyPatternRef {
    fn from(value: String) -> (reference: Self)
        ensures
            reference@ == value@,
    {
        JourneyPatternRef(value)
    }
}

impl vstd::std_specs::convert::FromSpecImpl<String> for JourneyPatternRef {
    open spec fn obeys_from_spec() -> bool {
        true
    }

    closed spec fn from_spec(value: String) -> Self {
        JourneyPatternRef(value)
    }
}

/// Identifies a route.
#[derive(Debug, Clone, PartialEq, Eq, PartialOrd, Ord, Hash)]
pub struct RouteRef(String);

impl View for RouteRef {
    type V = Seq<char>;

    closed spec fn view(&self) -> Seq<char> {
        self.0@
    }
}

impl RouteRef {
    /// Wraps a value of this reference type.
    pub fn new(value: &str) -> (reference: Self)
        ensures
            reference@ == value@,
    {
        RouteRef(value.to_owned())
    }

    /// The underlying text.
    pub fn as_str(&self) -> (text: &str)
        ensures
            text@ == self@,
    {
        self.0.as_str()
    }

    /// Consumes the reference and returns the underlying text.
    pub fn into_inner(self) -> (text: String)
        ensures
            text@ == self@,
    {
        self.0
    }
}

impl AsRef<str> for RouteRef {
    fn as_ref(&self) -> (text: &str)
        ensures
            text@ == self@,
    {
        self.0.as_str()
    }
}

impl From<String> for RouteRef {
    fn from(value: String) -> (reference: Self)
        ensures
            reference@ == value@,
    {
        RouteRef(value)
    }
}

impl vstd::std_specs::convert::FromSpecImpl<String> for RouteRef {
    open spec fn obeys_from_spec() -> bool {
        true
    }

    closed spec fn from_spec(value: String) -> Self {
        RouteRef(value)
    }
}

/// Identifies a place in a topographic gazetteer.
#[derive(Debug, Clone, PartialEq, Eq, PartialOrd, Ord, Hash)]
pub struct PlaceRef(String);

impl View for PlaceRef {
    type V = Seq<char>;

    closed spec fn view(&self) -> Seq<char> {
        self.0@
    }
}

impl PlaceRef {
    /// Wraps a value of this reference type.
    pub fn new(value: &str) -> (reference: Self)
        ensures
            reference@ == value@,
    {
        PlaceRef(value.to_owned())
    }

    /// The underlying text.
    pub fn as_str(&self) -> (text: &str)
        ensures
            text@ == self@,
    {
        self.0.as_str()
    }

    /// Consumes the reference and returns the underlying text.
    pub fn into_inner(self) -> (text: String)
        ensures
            text@ == self@,
    {
        self.0
    }
}

impl AsRef<str> for PlaceRef {
    fn as_ref(&self) -> (text: &str)
        ensures
            text@ == self@,
    {
        self.0.as_str()
    }
}

impl From<String> for PlaceRef {
    fn from(value: String) -> (reference: Self)
        ensures
            reference@ == value@,
    {
        PlaceRef(value)
    }
}

impl vstd::std_specs::convert::FromSpecImpl<String> for PlaceRef {
    open spec fn obeys_from_spec() -> bool {
        true
    }

    closed spec fn from_spec(value: String) -> Self {
        PlaceRef(value)
    }
}

/// Identifies a service feature, e.g. `lowFloor`.
#[derive(Debug, Clone, PartialEq, Eq, PartialOrd, Ord, Hash)]
pub struct ServiceFeatureRef(String);

impl View for ServiceFeatureRef {
    type V = Seq<char>;

    closed spec fn view(&self) -> Seq<char> {
        self.0@
    }
}

impl ServiceFeatureRef {
    /// Wraps a value of this reference type.
    pub fn new(value: &str) -> (reference: Self)
        ensures
            reference@ == value@,
    {
        ServiceFeatureRef(value.to_owned())
    }

    /// The underlying text.
    pub fn as_str(&self) -> (text: &str)
        ensures
            text@ == self@,
    {
        self.0.as_str()
    }

    /// Consumes the reference and returns the underlying text.
    pub fn into_inner(self) -> (text: String)
        ensures
            text@ == self@,
    {
        self.0
    }
}

impl AsRef<str> for ServiceFeatureRef {
    fn as_ref(&self) -> (text: &str)
        ensures
            text@ == self@,
    {
        self.0.as_str()
    }
}

impl From<String> for ServiceFeatureRef {
    fn from(value: String) -> (reference: Self)
        ensures
            reference@ == value@,
    {
        ServiceFeatureRef(value)
    }
}

impl vstd::std_specs::convert::FromSpecImpl<String> for ServiceFeatureRef {
    open spec fn obeys_from_spec() -> bool {
        true
    }

    closed spec fn from_spec(value: String) -> Self {
        ServiceFeatureRef(value)
    }
}

/// Identifies a product category, e.g. `express`.
#[derive(Debug, Clone, PartialEq, Eq, PartialOrd, Ord, Hash)]
pub struct ProductCategoryRef(String);

impl View for ProductCategoryRef {
    type V = Seq<char>;

    closed spec fn view(&self) -> Seq<char> {
        self.0@
    }
}

impl ProductCategoryRef {
    /// Wraps a value of this reference type.
    pub fn new(value: &str) -> (reference: Self)
        ensures
            reference@ == value@,
    {
        ProductCategoryRef(value.to_owned())
    }

    /// The underlying text.
    pub fn as_str(&self) -> (text: &str)
        ensures
            text@ == self@,
    {
        self.0.as_str()
    }

    /// Consumes the reference and returns the underlying text.
    pub fn into_inner(self) -> (text: String)
        ensures
            text@ == self@,
    {
        self.0
    }
}

impl AsRef<str> for ProductCategoryRef {
    fn as_ref(&self) -> (text: &str)
        ensures
            text@ == self@,
    {
        self.0.as_str()
    }
}

impl From<String> for ProductCategoryRef {
    fn from(value: String) -> (reference: Self)
        ensures
            reference@ == value@,
    {
        ProductCategoryRef(value)
    }
}

impl vstd::std_specs::convert::FromSpecImpl<String> for ProductCategoryRef {
    open spec fn obeys_from_spec() -> bool {
        true
    }

    closed spec fn from_spec(value: String) -> Self {
        ProductCategoryRef(value)
    }
}

/// Identifies a vehicle feature.
#[derive(Debug, Clone, PartialEq, Eq, PartialOrd, Ord, Hash)]
pub struct VehicleFeatureRef(String);

impl View for VehicleFeatureRef {
    type V = Seq<char>;

    closed spec fn view(&self) -> Seq<char> {
        self.0@
    }
}

impl VehicleFeatureRef {
    /// Wraps a value of this reference type.
    pub fn new(value: &str) -> (reference: Self)
        ensures
            reference@ == value@,
    {
        VehicleFeatureRef(value.to_owned())
    }

    /// The underlying text.
    pub fn as_str(&self) -> (text: &str)
        ensures
            text@ == self@,
    {
        self.0.as_str()
    }

    /// Consumes the reference and returns the underlying text.
    pub fn into_inner(self) -> (text: String)
        ensures
            text@ == self@,
    {
        self.0
    }
}

impl AsRef<str> for VehicleFeatureRef {
    fn as_ref(&self) -> (text: &str)
        ensures
            text@ == self@,
    {
        self.0.as_str()
    }
}

impl From<String> for VehicleFeatureRef {
    fn from(value: String) -> (reference: Self)
        ensures
            reference@ == value@,
    {
        VehicleFeatureRef(value)
    }
}

impl vstd::std_specs::convert::FromSpecImpl<String> for VehicleFeatureRef {
    open spec fn obeys_from_spec() -> bool {
        true
    }

    closed spec fn from_spec(value: String) -> Self {
        VehicleFeatureRef(value)
    }
}

/// Identifies a quay — the boarding position within a stop place.
#[derive(Debug, Clone, PartialEq, Eq, PartialOrd, Ord, Hash)]
pub struct QuayRef(String);

impl View for QuayRef {
    type V = Seq<char>;

    closed spec fn view(&self) -> Seq<char> {
        self.0@
    }
}

impl QuayRef {
    /// Wraps a value of this reference type.
    pub fn new(value: &str) -> (reference: Self)
        ensures
            reference@ == value@,
    {
        QuayRef(value.to_owned())
    }

    /// The underlying text.
    pub fn as_str(&self) -> (text: &str)
        ensures
            text@ == self@,
    {
        self.0.as_str()
    }

    /// Consumes the reference and returns the underlying text.
    pub fn into_inner(self) -> (text: String)
        ensures
            text@ == self@,
    {
        self.0
    }
}

impl AsRef<str> for QuayRef {
    fn as_ref(&self) -> (text: &str)
        ensures
            text@ == self@,
    {
        self.0.as_str()
    }
}

impl From<String> for QuayRef {
    fn from(value: String) -> (reference: Self)
        ensures
            reference@ == value@,
    {
        QuayRef(value)
    }
}

impl vstd::std_specs::convert::FromSpecImpl<String> for QuayRef {
    open spec fn obeys_from_spec() -> bool {
        true
    }

    closed spec fn from_spec(value: String) -> Self {
        QuayRef(value)
    }
}

/// Identifies a piece of equipment, e.g. one lift of a station.
#[derive(Debug, Clone, PartialEq, Eq, PartialOrd, Ord, Hash)]
pub struct EquipmentRef(String);

impl View for EquipmentRef {
    type V = Seq<char>;

    closed spec fn view(&self) -> Seq<char> {
        self.0@
    }
}

impl EquipmentRef {
    /// Wraps a value of this reference type.
    pub fn new(value: &str) -> (reference: Self)
        ensures
            reference@ == value@,
    {
        EquipmentRef(value.to_owned())
    }

    /// The underlying text.
    pub fn as_str(&self) -> (text: &str)
        ensures
            text@ == self@,
    {
        self.0.as_str()
    }

    /// Consumes the reference and returns the underlying text.
    pub fn into_inner(self) -> (text: String)
        ensures
            text@ == self@,
    {
        self.0
    }
}

impl AsRef<str> for EquipmentRef {
    fn as_ref(&self) -> (text: &str)
        ensures
            text@ == self@,
    {
        self.0.as_str()
    }
}

impl From<String> for EquipmentRef {
    fn from(value: String) -> (reference: Self)
        ensures
            reference@ == value@,
    {
        EquipmentRef(value)
    }
}

impl vstd::std_specs::convert::FromSpecImpl<String> for EquipmentRef {
    open spec fn obeys_from_spec() -> bool {
        true
    }

    closed spec fn from_spec(value: String) -> Self {
        EquipmentRef(value)
    }
}

/// Identifies a type of equipment.
#[derive(Debug, Clone, PartialEq, Eq, PartialOrd, Ord, Hash)]
pub struct EquipmentTypeRef(String);

impl View for EquipmentTypeRef {
    type V = Seq<char>;

    closed spec fn view(&self) -> Seq<char> {
        self.0@
    }
}

impl EquipmentTypeRef {
    /// Wraps a value of this reference type.
    pub fn new(value: &str) -> (reference: Self)
        ensures
            reference@ == value@,
    {
        EquipmentTypeRef(value.to_owned())
    }

    /// The underlying text.
    pub fn as_str(&self) -> (text: &str)
        ensures
            text@ == self@,
    {
        self.0.as_str()
    }

    /// Consumes the reference and returns the underlying text.
    pub fn into_inner(self) -> (text: String)
        ensures
            text@ == self@,
    {
        self.0
    }
}

impl AsRef<str> for EquipmentTypeRef {
    fn as_ref(&self) -> (text: &str)
        ensures
            text@ == self@,
    {
        self.0.as_str()
    }
}

impl From<String> for EquipmentTypeRef {
    fn from(value: String) -> (reference: Self)
        ensures
            reference@ == value@,
    {
        EquipmentTypeRef(value)
    }
}

impl vstd::std_specs::convert::FromSpecImpl<String> for EquipmentTypeRef {
    open spec fn obeys_from_spec() -> bool {
        true
    }

    closed spec fn from_spec(value: String) -> Self {
        EquipmentTypeRef(value)
    }
}

/// Identifies a feature of a place or vehicle.
#[derive(Debug, Clone, PartialEq, Eq, PartialOrd, Ord, Hash)]
pub struct FeatureRef(String);

impl View for FeatureRef {
    type V = Seq<char>;

    closed spec fn view(&self) -> Seq<char> {
        self.0@
    }
}

impl FeatureRef {
    /// Wraps a value of this reference type.
    pub fn new(value: &str) -> (reference: Self)
        ensures
            reference@ == value@,
    {
        FeatureRef(value.to_owned())
    }

    /// The underlying text.
    pub fn as_str(&self) -> (text: &str)
        ensures
            text@ == self@,
    {
        self.0.as_str()
    }

    /// Consumes the reference and returns the underlying text.
    pub fn into_inner(self) -> (text: String)
        ensures
            text@ == self@,
    {
        self.0
    }
}

impl AsRef<str> for FeatureRef {
    fn as_ref(&self) -> (text: &str)
        ensures
            text@ == self@,
    {
        self.0.as_str()
    }
}

impl From<String> for FeatureRef {
    fn from(value: String) -> (reference: Self)
        ensures
            reference@ == value@,
    {
        FeatureRef(value)
    }
}

impl vstd::std_specs::convert::FromSpecImpl<String> for FeatureRef {
    open spec fn obeys_from_spec() -> bool {
        true
    }

    closed spec fn from_spec(value: String) -> Self {
        FeatureRef(value)
    }
}

/// Identifies an organisation.
#[derive(Debug, Clone, PartialEq, Eq, PartialOrd, Ord, Hash)]
pub struct OrganisationRef(String);

impl View for OrganisationRef {
    type V = Seq<char>;

    closed spec fn view(&self) -> Seq<char> {
        self.0@
    }
}

impl OrganisationRef {
    /// Wraps a value of this reference type.
    pub fn new(value: &str) -> (reference: Self)
        ensures
            reference@ == value@,
    {
        OrganisationRef(value.to_owned())
    }

    /// The underlying text.
    pub fn as_str(&self) -> (text: &str)
        ensures
            text@ == self@,
    {
        self.0.as_str()
    }

    /// Consumes the reference and returns the underlying text.
    pub fn into_inner(self) -> (text: String)
        ensures
            text@ == self@,
    {
        self.0
    }
}

impl AsRef<str> for OrganisationRef {
    fn as_ref(&self) -> (text: &str)
        ensures
            text@ == self@,
    {
        self.0.as_str()
    }
}

impl From<String> for OrganisationRef {
    fn from(value: String) -> (reference: Self)
        ensures
            reference@ == value@,
    {
        OrganisationRef(value)
    }
}

impl vstd::std_specs::convert::FromSpecImpl<String> for OrganisationRef {
    open spec fn obeys_from_spec() -> bool {
        true
    }

    closed spec fn from_spec(value: String) -> Self {
        OrganisationRef(value)
    }
}

/// Identifies a clear-down, i.e. the withdrawal of a departure from a display.
#[derive(Debug, Clone, PartialEq, Eq, PartialOrd, Ord, Hash)]
pub struct ClearDownRef(String);

impl View for ClearDownRef {
    type V = Seq<char>;

    closed spec fn view(&self) -> Seq<char> {
        self.0@
    }
}

impl ClearDownRef {
    /// Wraps a value of this reference type.
    pub fn new(value: &str) -> (reference: Self)
        ensures
            reference@ == value@,
    {
        ClearDownRef(value.to_owned())
    }

    /// The underlying text.
    pub fn as_str(&self) -> (text: &str)
        ensures
            text@ == self@,
    {
        self.0.as_str()
    }

    /// Consumes the reference and returns the underlying text.
    pub fn into_inner(self) -> (text: String)
        ensures
            text@ == self@,
    {
        self.0
    }
}

impl AsRef<str> for ClearDownRef {
    fn as_ref(&self) -> (text: &str)
        ensures
            text@ == self@,
    {
        self.0.as_str()
    }
}

impl From<String> for ClearDownRef {
    fn from(value: String) -> (reference: Self)
        ensures
            reference@ == value@,
    {
        ClearDownRef(value)
    }
}

impl vstd::std_specs::convert::FromSpecImpl<String> for ClearDownRef {
    open spec fn obeys_from_spec() -> bool {
        true
    }

    closed spec fn from_spec(value: String) -> Self {
        ClearDownRef(value)
    }
}

/// Identifies a monitoring point, e.g. a stop whose departures are reported.
#[derive(Debug, Clone, PartialEq, Eq, PartialOrd, Ord, Hash)]
pub struct MonitoringRef(String);

impl View for MonitoringRef {
    type V = Seq<char>;

    closed spec fn view(&self) -> Seq<char> {
        self.0@
    }
}

impl MonitoringRef {
    /// Wraps a value of this reference type.
    pub fn new(value: &str) -> (reference: Self)
        ensures
            reference@ == value@,
    {
        MonitoringRef(value.to_owned())
    }

    /// The underlying text.
    pub fn as_str(&self) -> (text: &str)
        ensures
            text@ == self@,
    {
        self.0.as_str()
    }

    /// Consumes the reference and returns the underlying text.
    pub fn into_inner(self) -> (text: String)
        ensures
            text@ == self@,
    {
        self.0
    }
}

impl AsRef<str> for MonitoringRef {
    fn as_ref(&self) -> (text: &str)
        ensures
            text@ == self@,
    {
        self.0.as_str()
    }
}

impl From<String> for MonitoringRef {
    fn from(value: String) -> (reference: Self)
        ensures
            reference@ == value@,
    {
        MonitoringRef(value)
    }
}

impl vstd::std_specs::convert::FromSpecImpl<String> for MonitoringRef {
    open spec fn obeys_from_spec() -> bool {
        true
    }

    closed spec fn from_spec(value: String) -> Self {
        MonitoringRef(value)
    }
}

/// Identifies a site, e.g. a station.
#[derive(Debug, Clone, PartialEq, Eq, PartialOrd, Ord, Hash)]
pub struct SiteRef(String);

impl View for SiteRef {
    type V = Seq<char>;

    closed spec fn view(&self) -> Seq<char> {
        self.0@
    }
}

impl SiteRef {
    /// Wraps a value of this reference type.
    pub fn new(value: &str) -> (reference: Self)
        ensures
            reference@ == value@,
    {
        SiteRef(value.to_owned())
    }

    /// The underlying text.
    pub fn as_str(&self) -> (text: &str)
        ensures
            text@ == self@,
    {
        self.0.as_str()
    }

    /// Consumes the reference and returns the underlying text.
    pub fn into_inner(self) -> (text: String)
        ensures
            text@ == self@,
    {
        self.0
    }
}

impl AsRef<str> for SiteRef {
    fn as_ref(&self) -> (text: &str)
        ensures
            text@ == self@,
    {
        self.0.as_str()
    }
}

impl From<String> for SiteRef {
    fn from(value: String) -> (reference: Self)
        ensures
            reference@ == value@,
    {
        SiteRef(value)
    }
}

impl vstd::std_specs::convert::FromSpecImpl<String> for SiteRef {
    open spec fn obeys_from_spec() -> bool {
        true
    }

    closed spec fn from_spec(value: String) -> Self {
        SiteRef(value)
    }
}

/// A reference to a situation, either by its number alone or in full.
///
/// The short form works within one participant's own data; the full form names the
/// participant, and optionally the revision, so that a situation raised elsewhere
/// can be referred to without ambiguity.
#[derive(Debug, Clone, Default, PartialEq, Eq)]
pub struct SituationRef {
    /// The situation, by number alone.
    pub situation_simple_ref: Option<SituationNumber>,
    /// The situation, named in full.
    pub situation_full_ref: Option<SituationFullRef>,
}

impl SituationRef {
    /// A reference by situation number alone.
    pub fn simple(situation_number: SituationNumber) -> (result: Self)
        ensures
            result.situation_simple_ref == Some(situation_number),
            result.situation_full_ref is None,
    {
        Self {
            situation_simple_ref: Some(situation_number),
            situation_full_ref: None,
        }
    }
}

/// A situation named by the participant that raised it, and optionally by revision.
#[derive(Debug, Clone, PartialEq, Eq)]
pub struct SituationFullRef {
    /// The country the raising participant belongs to.
    pub version_country_ref: Option<CountryRef>,
    /// The participant that raised the situation.
    pub participant_ref: ParticipantRef,
    /// The situation's number within that participant.
    pub situation_number: SituationNumber,
    /// The country the updating participant belongs to.
    pub update_country_ref: Option<CountryRef>,
    /// The participant that made the revision being referred to.
    pub update_participant_ref: Option<ParticipantRef>,
    /// The revision being referred to.
    pub version: Option<i64>,
}

impl SituationFullRef {
    /// A reference to the given participant's situation.
    pub fn new(participant_ref: ParticipantRef, situation_number: SituationNumber) -> (result: Self)
        ensures
            result.version_country_ref is None,
            result.participant_ref == participant_ref,
            result.situation_number == situation_number,
            result.update_country_ref is None,
            result.update_participant_ref is None,
            result.version is None,
    {
        Self {
            version_country_ref: None,
            participant_ref,
            situation_number,
            update_country_ref: None,
            update_participant_ref: None,
            version: None,
        }
    }
}

/// A line, optionally narrowed to one direction of travel.
#[derive(Debug, Clone, PartialEq, Eq)]
pub struct LineDirection {
    /// The line.
    pub line_ref: LineRef,
    /// The direction along the line, if the reference is direction-specific.
    pub direction_ref: Option<DirectionRef>,
}

impl LineDirection {
    /// A reference to a whole line.
    pub fn new(line_ref: LineRef) -> (result: Self)
        ensures
            result.line_ref == line_ref,
            result.direction_ref is None,
    {
        Self {
            line_ref,
            direction_ref: None,
        }
    }

    /// A reference to one direction of a line.
    pub fn with_direction(line_ref: LineRef, direction_ref: DirectionRef) -> (result: Self)
        ensures
            result.line_ref == line_ref,
            result.direction_ref == Some(direction_ref),
    {
        Self {
            line_ref,
            direction_ref: Some(direction_ref),
        }
    }
}

/// Lines, each optionally narrowed to one direction, that a request filters on.
///
/// The schema gives every service that filters by line the same `Lines` wrapper.
#[derive(Debug, Clone, Default, PartialEq, Eq)]
pub struct RequestedLines {
    /// The lines and directions.
    pub line_direction: Vec<LineDirection>,
}

/// A journey identified by the operational day it runs on plus its timetable id.
///
/// A `DatedVehicleJourneyRef` is only unique within one operational day, so both
/// halves are needed to name a specific run.
#[derive(Debug, Clone, PartialEq, Eq)]
pub struct FramedVehicleJourneyRef {
    /// The operational day.
    pub data_frame_ref: DataFrameRef,
    /// The journey within that day.
    pub dated_vehicle_journey_ref: DatedVehicleJourneyRef,
}

} // verus!
