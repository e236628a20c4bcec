//! Where a vehicle stands at a stop.
//!
//! A call says *when* a vehicle serves a stop; a stop assignment says *where* — at
//! which quay, at which boarding position along it, or, for a service that is not
//! bound to a fixed stop at all, within which area. Each of those is given up to
//! three times: as planned (`Aimed`), as currently predicted (`Expected`) and as it
//! turned out (`Actual`).

use crate::enumerations::TypeOfNestedQuay;
use crate::model::location::FlexibleArea;
use crate::model::reference::QuayRef;
use crate::types::NaturalLanguageString;
use vstd::prelude::*;

verus! {

/// Identifies one position along a quay a vehicle door comes to rest at.
#[derive(Debug, Clone, PartialEq, Eq, PartialOrd, Ord, Hash)]
pub struct BoardingPositionRef(String);

impl View for BoardingPositionRef {
    type V = Seq<char>;

    closed spec fn view(&self) -> Seq<char> {
        self.0@
    }
}

impl BoardingPositionRef {
    /// Wraps a value of this reference type.
    pub fn new(value: &str) -> (reference: Self)
        ensures
            reference@ == value@,
    {
        BoardingPositionRef(value.to_owned())
    }

    /// The underlying text.
    pub fn as_str(&self) -> (text: &str)
        ensures
            text@ == self@,
    {
        self.0.as_str()
    }

    /// Consumes the reference and returns the underlying text.
    pub fn into_inner(self) -> (text: String)
        ensures
            text@ == self@,
    {
        self.0
    }
}

impl AsRef<str> for BoardingPositionRef {
    fn as_ref(&self) -> (text: &str)
        ensures
            text@ == self@,
    {
        self.0.as_str()
    }
}

impl From<String> for BoardingPositionRef {
    fn from(value: String) -> (reference: Self)
        ensures
            reference@ == value@,
    {
        BoardingPositionRef(value)
    }
}

impl vstd::std_specs::convert::FromSpecImpl<String> for BoardingPositionRef {
    open spec fn obeys_from_spec() -> bool {
        true
    }

    closed spec fn from_spec(value: String) -> Self {
        BoardingPositionRef(value)
    }
}

/// Identifies an area a flexible service may be boarded within.
#[derive(Debug, Clone, PartialEq, Eq, PartialOrd, Ord, Hash)]
pub struct FlexibleAreaRef(String);

impl View for FlexibleAreaRef {
    type V = Seq<char>;

    closed spec fn view(&self) -> Seq<char> {
        self.0@
    }
}

impl FlexibleAreaRef {
    /// Wraps a value of this reference type.
    pub fn new(value: &str) -> (reference: Self)
        ensures
            reference@ == value@,
    {
        FlexibleAreaRef(value.to_owned())
    }

    /// The underlying text.
    pub fn as_str(&self) -> (text: &str)
        ensures
            text@ == self@,
    {
        self.0.as_str()
    }

    /// Consumes the reference and returns the underlying text.
    pub fn into_inner(self) -> (text: String)
        ensures
            text@ == self@,
    {
        self.0
    }
}

impl AsRef<str> for FlexibleAreaRef {
    fn as_ref(&self) -> (text: &str)
        ensures
            text@ == self@,
    {
        self.0.as_str()
    }
}

impl From<String> for FlexibleAreaRef {
    fn from(value: String) -> (reference: Self)
        ensures
            reference@ == value@,
    {
        FlexibleAreaRef(value)
    }
}

impl vstd::std_specs::convert::FromSpecImpl<String> for FlexibleAreaRef {
    open spec fn obeys_from_spec() -> bool {
        true
    }

    closed spec fn from_spec(value: String) -> Self {
        FlexibleAreaRef(value)
    }
}

/// Where a vehicle stands at a stop, as planned, predicted and observed.
///
/// The schema offers a choice between naming a quay and naming a boarding position
/// along one; both sets of fields are optional here, and
/// [`StopAssignment::place`] reports which one is filled in.
#[derive(Debug, Clone, Default, PartialEq)]
pub struct StopAssignment {
    /// The quay the vehicle is planned to use.
    pub aimed_quay_ref: Option<QuayRef>,
    /// Names of the planned quay, one per language.
    pub aimed_quay_name: Vec<NaturalLanguageString>,
    /// The quay the vehicle is now expected to use.
    pub expected_quay_ref: Option<QuayRef>,
    /// Names of the expected quay, one per language.
    pub expected_quay_name: Vec<NaturalLanguageString>,
    /// The quay the vehicle used.
    pub actual_quay_ref: Option<QuayRef>,
    /// Names of the quay used, one per language.
    pub actual_quay_name: Vec<NaturalLanguageString>,
    /// What kind of quay it is.
    pub quay_type: Option<TypeOfNestedQuay>,
    /// The boarding position the vehicle is planned to come to rest at.
    pub aimed_boarding_position_ref: Option<BoardingPositionRef>,
    /// Names of the planned boarding position, one per language.
    pub aimed_boarding_position_name: Vec<NaturalLanguageString>,
    /// The boarding position the vehicle is now expected at.
    pub expected_boarding_position_ref: Option<BoardingPositionRef>,
    /// Names of the expected boarding position, one per language.
    pub expected_boarding_position_name: Vec<NaturalLanguageString>,
    /// The boarding position the vehicle came to rest at.
    pub actual_boarding_position_ref: Option<BoardingPositionRef>,
    /// Names of the boarding position used, one per language.
    pub actual_boarding_position_name: Vec<NaturalLanguageString>,
    /// The area boarding is planned to happen within.
    pub aimed_flexible_area: Option<FlexibleArea>,
    /// The planned area, stated elsewhere.
    pub aimed_flexible_area_ref: Option<FlexibleAreaRef>,
    /// Names of the planned area, one per language.
    pub aimed_location_name: Vec<NaturalLanguageString>,
    /// The area boarding is now expected within.
    pub expected_flexible_area: Option<FlexibleArea>,
    /// The expected area, stated elsewhere.
    pub expected_flexible_area_ref: Option<FlexibleAreaRef>,
    /// Names of the expected area, one per language.
    pub expected_location_name: Vec<NaturalLanguageString>,
    /// The area boarding happened within.
    pub actual_flexible_area: Option<FlexibleArea>,
    /// The area used, stated elsewhere.
    pub actual_flexible_area_ref: Option<FlexibleAreaRef>,
    /// Names of the area used, one per language.
    pub actual_location_name: Vec<NaturalLanguageString>,
}

/// Which of the two ways of naming a standing place an assignment uses.
#[derive(Debug, Clone, Copy, PartialEq, Eq)]
#[non_exhaustive]
pub enum StandingPlace {
    /// The assignment names quays.
    Quay,
    /// The assignment names boarding positions along a quay.
    BoardingPosition,
}

impl StopAssignment {
    /// A vehicle standing at the given planned quay.
    pub fn at_quay(aimed_quay_ref: QuayRef) -> (result: Self)
        ensures
            result.aimed_quay_ref == Some(aimed_quay_ref),
            result.aimed_quay_name@.len() == 0,
            result.expected_quay_ref is None,
            result.expected_quay_name@.len() == 0,
            result.actual_quay_ref is None,
            result.actual_quay_name@.len() == 0,
            result.quay_type is None,
            result.aimed_boarding_position_ref is None,
            result.aimed_boarding_position_name@.len() == 0,
            result.expected_boarding_position_ref is None,
            result.expected_boarding_position_name@.len() == 0,
            result.actual_boarding_position_ref is None,
            result.actual_boarding_position_name@.len() == 0,
            result.aimed_flexible_area is None,
            result.aimed_flexible_area_ref is None,
            result.aimed_location_name@.len() == 0,
            result.expected_flexible_area is None,
            result.expected_flexible_area_ref is None,
            result.expected_location_name@.len() == 0,
            result.actual_flexible_area is None,
            result.actual_flexible_area_ref is None,
            result.actual_location_name@.len() == 0,
    {
        Self {
            aimed_quay_ref: Some(aimed_quay_ref),
            aimed_quay_name: Vec::new(),
            expected_quay_ref: None,
            expected_quay_name: Vec::new(),
            actual_quay_ref: None,
            actual_quay_name: Vec::new(),
            quay_type: None,
            aimed_boarding_position_ref: None,
            aimed_boarding_position_name: Vec::new(),
            expected_boarding_position_ref: None,
            expected_boarding_position_name: Vec::new(),
            actual_boarding_position_ref: None,
            actual_boarding_position_name: Vec::new(),
            aimed_flexible_area: None,
            aimed_flexible_area_ref: None,
            aimed_location_name: Vec::new(),
            expected_flexible_area: None,
            expected_flexible_area_ref: None,
            expected_location_name: Vec::new(),
            actual_flexible_area: None,
            actual_flexible_area_ref: None,
            actual_location_name: Vec::new(),
        }
    }

    /// A vehicle stopping at the given planned boarding position.
    pub fn at_boarding_position(aimed_boarding_position_ref: BoardingPositionRef) -> (result: Self)
        ensures
            result.aimed_quay_ref is None,
            result.aimed_quay_name@.len() == 0,
            result.expected_quay_ref is None,
            result.expected_quay_name@.len() == 0,
            result.actual_quay_ref is None,
            result.actual_quay_name@.len() == 0,
            result.quay_type is None,
            result.aimed_boarding_position_ref == Some(aimed_boarding_position_ref),
            result.aimed_boarding_position_name@.len() == 0,
            result.expected_boarding_position_ref is None,
            result.expected_boarding_position_name@.len() == 0,
            result.actual_boarding_position_ref is None,
            result.actual_boarding_position_name@.len() == 0,
            result.aimed_flexible_area is None,
            result.aimed_flexible_area_ref is None,
            result.aimed_location_name@.len() == 0,
            result.expected_flexible_area is None,
            result.expected_flexible_area_ref is None,
            result.expected_location_name@.len() == 0,
            result.actual_flexible_area is None,
            result.actual_flexible_area_ref is None,
            result.actual_location_name@.len() == 0,
    {
        Self {
            aimed_quay_ref: None,
            aimed_quay_name: Vec::new(),
            expected_quay_ref: None,
            expected_quay_name: Vec::new(),
            actual_quay_ref: None,
            actual_quay_name: Vec::new(),
            quay_type: None,
            aimed_boarding_position_ref: Some(aimed_boarding_position_ref),
            aimed_boarding_position_name: Vec::new(),
            expected_boarding_position_ref: None,
            expected_boarding_position_name: Vec::new(),
            actual_boarding_position_ref: None,
            actual_boarding_position_name: Vec::new(),
            aimed_flexible_area: None,
            aimed_flexible_area_ref: None,
            aimed_location_name: Vec::new(),
            expected_flexible_area: None,
            expected_flexible_area_ref: None,
            expected_location_name: Vec::new(),
            actual_flexible_area: None,
            actual_flexible_area_ref: None,
            actual_location_name: Vec::new(),
        }
    }

    /// Whether any of the quay alternative's elements is present.
    pub open spec fn spec_names_quay(&self) -> bool {
        ||| self.aimed_quay_ref is Some
        ||| self.expected_quay_ref is Some
        ||| self.actual_quay_ref is Some
        ||| self.aimed_quay_name@.len() > 0
        ||| self.expected_quay_name@.len() > 0
        ||| self.actual_quay_name@.len() > 0
        ||| self.quay_type is Some
    }

    /// Whether any of the boarding position alternative's elements is present.
    pub open spec fn spec_names_boarding_position(&self) -> bool {
        ||| self.aimed_boarding_position_ref is Some
        ||| self.expected_boarding_position_ref is Some
        ||| self.actual_boarding_position_ref is Some
        ||| self.aimed_boarding_position_name@.len() > 0
        ||| self.expected_boarding_position_name@.len() > 0
        ||| self.actual_boarding_position_name@.len() > 0
    }

    /// Which alternative of the schema's choice this assignment carries, or `None`
    /// when it names neither. A quay is reported should both be present.
    pub fn place(&self) -> (place: Option<StandingPlace>)
        ensures
            place == (if self.spec_names_quay() {
                Some(StandingPlace::Quay)
            } else if self.spec_names_boarding_position() {
                Some(StandingPlace::BoardingPosition)
            } else {
                None
            }),
    {
        let quay = self.aimed_quay_ref.is_some() || self.expected_quay_ref.is_some()
            || self.actual_quay_ref.is_some() || self.aimed_quay_name.len() > 0
            || self.expected_quay_name.len() > 0 || self.actual_quay_name.len() > 0
            || self.quay_type.is_some();
        let position = self.aimed_boarding_position_ref.is_some()
            || self.expected_boarding_position_ref.is_some()
            || self.actual_boarding_position_ref.is_some()
            || self.aimed_boarding_position_name.len() > 0
            || self.expected_boarding_position_name.len() > 0
            || self.actual_boarding_position_name.len() > 0;
        if quay {
            Some(StandingPlace::Quay)
        } else if position {
            Some(StandingPlace::BoardingPosition)
        } else {
            None
        }
    }
}

/// Where a vehicle is *planned* to stand at a stop.
///
/// The planned form of [`StopAssignment`]: a timetable states only the aimed values,
/// so the expected and actual ones are absent from the schema rather than merely
/// left empty.
#[derive(Debug, Clone, Default, PartialEq)]
pub struct PlannedStopAssignment {
    /// The quay the vehicle is planned to use.
    pub aimed_quay_ref: Option<QuayRef>,
    /// Names of the planned quay, one per language.
    pub aimed_quay_name: Vec<NaturalLanguageString>,
    /// What kind of quay it is.
    pub quay_type: Option<TypeOfNestedQuay>,
    /// The boarding position the vehicle is planned to come to rest at.
    pub aimed_boarding_position_ref: Option<BoardingPositionRef>,
    /// Names of the planned boarding position, one per language.
    pub aimed_boarding_position_name: Vec<NaturalLanguageString>,
    /// The area boarding is planned to happen within.
    pub aimed_flexible_area: Option<FlexibleArea>,
    /// The planned area, stated elsewhere.
    pub aimed_flexible_area_ref: Option<FlexibleAreaRef>,
    /// Names of the planned area, one per language.
    pub aimed_location_name: Vec<NaturalLanguageString>,
}

impl PlannedStopAssignment {
    /// A vehicle planned to stand at the given quay.
    pub fn at_quay(aimed_quay_ref: QuayRef) -> (result: Self)
        ensures
            result.aimed_quay_ref == Some(aimed_quay_ref),
            result.aimed_quay_name@.len() == 0,
            result.quay_type is None,
            result.aimed_boarding_position_ref is None,
            result.aimed_boarding_position_name@.len() == 0,
            result.aimed_flexible_area is None,
            result.aimed_flexible_area_ref is None,
            result.aimed_location_name@.len() == 0,
    {
        Self {
            aimed_quay_ref: Some(aimed_quay_ref),
            aimed_quay_name: Vec::new(),
            quay_type: None,
            aimed_boarding_position_ref: None,
            aimed_boarding_position_name: Vec::new(),
            aimed_flexible_area: None,
            aimed_flexible_area_ref: None,
            aimed_location_name: Vec::new(),
        }
    }

    /// Whether any of the quay alternative's elements is present.
    pub open spec fn spec_names_quay(&self) -> bool {
        ||| self.aimed_quay_ref is Some
        ||| self.aimed_quay_name@.len() > 0
        ||| self.quay_type is Some
    }

    /// Whether any of the boarding position alternative's elements is present.
    pub open spec fn spec_names_boarding_position(&self) -> bool {
        ||| self.aimed_boarding_position_ref is Some
        ||| self.aimed_boarding_position_name@.len() > 0
    }

    /// Which alternative of the schema's choice this assignment carries, or `None`
    /// when it names neither. A quay is reported should both be present.
    pub fn place(&self) -> (place: Option<StandingPlace>)
        ensures
            place == (if self.spec_names_quay() {
                Some(StandingPlace::Quay)
            } else if self.spec_names_boarding_position() {
                Some(StandingPlace::BoardingPosition)
            } else {
                None
            }),
    {
        if self.aimed_quay_ref.is_some() || self.aimed_quay_name.len() > 0
            || self.quay_type.is_some() {
            Some(StandingPlace::Quay)
        } else if self.aimed_boarding_position_ref.is_some()
            || self.aimed_boarding_position_name.len() > 0 {
            Some(StandingPlace::BoardingPosition)
        } else {
            None
        }
    }
}

/// How many calls before and after the current one a request asks for.
///
/// The stop and vehicle monitoring services both cap the calling pattern this way.
#[derive(Debug, Clone, Copy, Default, PartialEq, Eq)]
pub struct MaximumNumberOfCalls {
    /// At most this many stops already served.
    pub previous: Option<u64>,
    /// At most this many stops still to come.
    pub onwards: Option<u64>,
}

} // verus!
