//! The schema's enumerated code lists.
//!
//! Each list is a Rust enum whose variants are the tokens the schema defines, plus
//! one variant that keeps any other token as it was read, so that a value written
//! to a later release of the schema does not cost the document that carries it.

use vstd::prelude::*;

verus! {

/// The `AccessFacilityEnumeration` code list.
#[derive(Debug, Clone, PartialEq, Eq, PartialOrd, Ord, Hash)]
pub enum AccessFacility {
    /// `unknown`
    Unknown,
    /// `lift`
    Lift,
    /// `wheelchairLift`
    WheelchairLift,
    /// `escalator`
    Escalator,
    /// `travelator`
    Travelator,
    /// `ramp`
    Ramp,
    /// `stairs`
    Stairs,
    /// `shuttle`
    Shuttle,
    /// `narrowEntrance`
    NarrowEntrance,
    /// `barrier`
    Barrier,
    /// `palletAccess_lowFloor`
    PalletAccessLowFloor,
    /// `validator`
    Validator,
    /// A token this list does not define, kept as it was read.
    Unrecognised(String),
}

impl core::str::FromStr for AccessFacility {
    type Err = core::convert::Infallible;

    /// Every token is a value, so this never fails; see `from_token`.
    fn from_str(token: &str) -> (result: Result<Self, Self::Err>)
        ensures
            result matches Ok(value) && value.spec_token() == token@ && match Self::spec_listed(
                token@,
            ) {
                Some(listed) => value == listed,
                None => value is Unrecognised,
            },
    {
        Ok(Self::from_token(token))
    }
}

impl AccessFacility {
    /// Name of the XML Schema type this list transcribes.
    pub const XSD_TYPE: &'static str = "AccessFacilityEnumeration";

    /// Every value the schema defines, in schema order.
    pub open spec fn spec_all() -> Seq<AccessFacility> {
        seq![AccessFacility::Unknown, AccessFacility::Lift, AccessFacility::WheelchairLift, AccessFacility::Escalator, AccessFacility::Travelator, AccessFacility::Ramp, AccessFacility::Stairs, AccessFacility::Shuttle, AccessFacility::NarrowEntrance, AccessFacility::Barrier, AccessFacility::PalletAccessLowFloor, AccessFacility::Validator]
    }

    /// Every value the schema defines, in schema order.
    pub fn all() -> (values: Vec<Self>)
        ensures
            values@ == Self::spec_all(),
    {
        vec![AccessFacility::Unknown, AccessFacility::Lift, AccessFacility::WheelchairLift, AccessFacility::Escalator, AccessFacility::Travelator, AccessFacility::Ramp, AccessFacility::Stairs, AccessFacility::Shuttle, AccessFacility::NarrowEntrance, AccessFacility::Barrier, AccessFacility::PalletAccessLowFloor, AccessFacility::Validator]
    }

    /// The token a value is written as on the wire.
    pub open spec fn spec_token(&self) -> Seq<char> {
        match self {
            AccessFacility::Unknown => "unknown"@,
            AccessFacility::Lift => "lift"@,
            AccessFacility::WheelchairLift => "wheelchairLift"@,
            AccessFacility::Escalator => "escalator"@,
            AccessFacility::Travelator => "travelator"@,
            AccessFacility::Ramp => "ramp"@,
            AccessFacility::Stairs => "stairs"@,
            AccessFacility::Shuttle => "shuttle"@,
            AccessFacility::NarrowEntrance => "narrowEntrance"@,
            AccessFacility::Barrier => "barrier"@,
            AccessFacility::PalletAccessLowFloor => "palletAccess_lowFloor"@,
            AccessFacility::Validator => "validator"@,
            AccessFacility::Unrecognised(token) => token@,
        }
    }

    /// The value the schema defines for a token, if it defines one.
    pub open spec fn spec_listed(token: Seq<char>) -> Option<AccessFacility> {
        if token == "unknown"@ {
            Some(AccessFacility::Unknown)
        } else if token == "lift"@ {
            Some(AccessFacility::Lift)
        } else if token == "wheelchairLift"@ {
            Some(AccessFacility::WheelchairLift)
        } else if token == "escalator"@ {
            Some(AccessFacility::Escalator)
        } else if token == "travelator"@ {
            Some(AccessFacility::Travelator)
        } else if token == "ramp"@ {
            Some(AccessFacility::Ramp)
        } else if token == "stairs"@ {
            Some(AccessFacility::Stairs)
        } else if token == "shuttle"@ {
            Some(AccessFacility::Shuttle)
        } else if token == "narrowEntrance"@ {
            Some(AccessFacility::NarrowEntrance)
        } else if token == "barrier"@ {
            Some(AccessFacility::Barrier)
        } else if token == "palletAccess_lowFloor"@ {
            Some(AccessFacility::PalletAccessLowFloor)
        } else if token == "validator"@ {
            Some(AccessFacility::Validator)
        } else {
            None
        }
    }

    /// The value a wire token denotes: the listed variant when the schema defines
    /// the token, `Unrecognised` holding the token otherwise.
    pub fn from_token(token: &str) -> (result: Self)
        ensures
            result.spec_token() == token@,
            match Self::spec_listed(token@) {
                Some(listed) => result == listed,
                None => result is Unrecognised,
            },
    {
        let owned: String = token.to_owned();
        if owned == "unknown".to_owned() {
            AccessFacility::Unknown
        } else if owned == "lift".to_owned() {
            AccessFacility::Lift
        } else if owned == "wheelchairLift".to_owned() {
            AccessFacility::WheelchairLift
        } else if owned == "escalator".to_owned() {
            AccessFacility::Escalator
        } else if owned == "travelator".to_owned() {
            AccessFacility::Travelator
        } else if owned == "ramp".to_owned() {
            AccessFacility::Ramp
        } else if owned == "stairs".to_owned() {
            AccessFacility::Stairs
        } else if owned == "shuttle".to_owned() {
            AccessFacility::Shuttle
        } else if owned == "narrowEntrance".to_owned() {
            AccessFacility::NarrowEntrance
        } else if owned == "barrier".to_owned() {
            AccessFacility::Barrier
        } else if owned == "palletAccess_lowFloor".to_owned() {
            AccessFacility::PalletAccessLowFloor
        } else if owned == "validator".to_owned() {
            AccessFacility::Validator
        } else {
            AccessFacility::Unrecognised(owned)
        }
    }

    /// The token this value is written as on the wire.
    pub fn as_str(&self) -> (token: &str)
        ensures
            token@ == self.spec_token(),
    {
        match self {
            AccessFacility::Unknown => "unknown",
            AccessFacility::Lift => "lift",
            AccessFacility::WheelchairLift => "wheelchairLift",
            AccessFacility::Escalator => "escalator",
            AccessFacility::Travelator => "travelator",
            AccessFacility::Ramp => "ramp",
            AccessFacility::Stairs => "stairs",
            AccessFacility::Shuttle => "shuttle",
            AccessFacility::NarrowEntrance => "narrowEntrance",
            AccessFacility::Barrier => "barrier",
            AccessFacility::PalletAccessLowFloor => "palletAccess_lowFloor",
            AccessFacility::Validator => "validator",
            AccessFacility::Unrecognised(token) => token.as_str(),
        }
    }
}

/// The `AccessibilityEnumeration` code list.
#[derive(Debug, Clone, PartialEq, Eq, PartialOrd, Ord, Hash)]
pub enum Accessibility {
    /// `unknown`
    Unknown,
    /// `false`
    False,
    /// `true`
    True,
    /// A token this list does not define, kept as it was read.
    Unrecognised(String),
}

impl core::str::FromStr for Accessibility {
    type Err = core::convert::Infallible;

    /// Every token is a value, so this never fails; see `from_token`.
    fn from_str(token: &str) -> (result: Result<Self, Self::Err>)
        ensures
            result matches Ok(value) && value.spec_token() == token@ && match Self::spec_listed(
                token@,
            ) {
                Some(listed) => value == listed,
                None => value is Unrecognised,
            },
    {
        Ok(Self::from_token(token))
    }
}

impl Accessibility {
    /// Name of the XML Schema type this list transcribes.
    pub const XSD_TYPE: &'static str = "AccessibilityEnumeration";

    /// Every value the schema defines, in schema order.
    pub open spec fn spec_all() -> Seq<Accessibility> {
        seq![Accessibility::Unknown, Accessibility::False, Accessibility::True]
    }

    /// Every value the schema defines, in schema order.
    pub fn all() -> (values: Vec<Self>)
        ensures
            values@ == Self::spec_all(),
    {
        vec![Accessibility::Unknown, Accessibility::False, Accessibility::True]
    }

    /// The token a value is written as on the wire.
    pub open spec fn spec_token(&self) -> Seq<char> {
        match self {
            Accessibility::Unknown => "unknown"@,
            Accessibility::False => "false"@,
            Accessibility::True => "true"@,
            Accessibility::Unrecognised(token) => token@,
        }
    }

    /// The value the schema defines for a token, if it defines one.
    pub open spec fn spec_listed(token: Seq<char>) -> Option<Accessibility> {
        if token == "unknown"@ {
            Some(Accessibility::Unknown)
        } else if token == "false"@ {
            Some(Accessibility::False)
        } else if token == "true"@ {
            Some(Accessibility::True)
        } else {
            None
        }
    }

    /// The value a wire token denotes: the listed variant when the schema defines
    /// the token, `Unrecognised` holding the token otherwise.
    pub fn from_token(token: &str) -> (result: Self)
        ensures
            result.spec_token() == token@,
            match Self::spec_listed(token@) {
                Some(listed) => result == listed,
                None => result is Unrecognised,
            },
    {
        let owned: String = token.to_owned();
        if owned == "unknown".to_owned() {
            Accessibility::Unknown
        } else if owned == "false".to_owned() {
            Accessibility::False
        } else if owned == "true".to_owned() {
            Accessibility::True
        } else {
            Accessibility::Unrecognised(owned)
        }
    }

    /// The token this value is written as on the wire.
    pub fn as_str(&self) -> (token: &str)
        ensures
            token@ == self.spec_token(),
    {
        match self {
            Accessibility::Unknown => "unknown",
            Accessibility::False => "false",
            Accessibility::True => "true",
            Accessibility::Unrecognised(token) => token.as_str(),
        }
    }
}

/// The `AccommodationFacilityEnumeration` code list.
#[derive(Debug, Clone, PartialEq, Eq, PartialOrd, Ord, Hash)]
pub enum AccommodationFacility {
    /// `unknown`
    Unknown,
    /// `sleeper`
    Sleeper,
    /// `couchette`
    Couchette,
    /// `specialSeating`
    SpecialSeating,
    /// `recliningSeats`
    RecliningSeats,
    /// `babyCompartment`
    BabyCompartment,
    /// `familyCarriage`
    FamilyCarriage,
    /// A token this list does not define, kept as it was read.
    Unrecognised(String),
}

impl core::str::FromStr for AccommodationFacility {
    type Err = core::convert::Infallible;

    /// Every token is a value, so this never fails; see `from_token`.
    fn from_str(token: &str) -> (result: Result<Self, Self::Err>)
        ensures
            result matches Ok(value) && value.spec_token() == token@ && match Self::spec_listed(
                token@,
            ) {
                Some(listed) => value == listed,
                None => value is Unrecognised,
            },
    {
        Ok(Self::from_token(token))
    }
}

impl AccommodationFacility {
    /// Name of the XML Schema type this list transcribes.
    pub const XSD_TYPE: &'static str = "AccommodationFacilityEnumeration";

    /// Every value the schema defines, in schema order.
    pub open spec fn spec_all() -> Seq<AccommodationFacility> {
        seq![AccommodationFacility::Unknown, AccommodationFacility::Sleeper, AccommodationFacility::Couchette, AccommodationFacility::SpecialSeating, AccommodationFacility::RecliningSeats, AccommodationFacility::BabyCompartment, AccommodationFacility::FamilyCarriage]
    }

    /// Every value the schema defines, in schema order.
    pub fn all() -> (values: Vec<Self>)
        ensures
            values@ == Self::spec_all(),
    {
        vec![AccommodationFacility::Unknown, AccommodationFacility::Sleeper, AccommodationFacility::Couchette, AccommodationFacility::SpecialSeating, AccommodationFacility::RecliningSeats, AccommodationFacility::BabyCompartment, AccommodationFacility::FamilyCarriage]
    }

    /// The token a value is written as on the wire.
    pub open spec fn spec_token(&self) -> Seq<char> {
        match self {
            AccommodationFacility::Unknown => "unknown"@,
            AccommodationFacility::Sleeper => "sleeper"@,
            AccommodationFacility::Couchette => "couchette"@,
            AccommodationFacility::SpecialSeating => "specialSeating"@,
            AccommodationFacility::RecliningSeats => "recliningSeats"@,
            AccommodationFacility::BabyCompartment => "babyCompartment"@,
            AccommodationFacility::FamilyCarriage => "familyCarriage"@,
            AccommodationFacility::Unrecognised(token) => token@,
        }
    }

    /// The value the schema defines for a token, if it defines one.
    pub open spec fn spec_listed(token: Seq<char>) -> Option<AccommodationFacility> {
        if token == "unknown"@ {
            Some(AccommodationFacility::Unknown)
        } else if token == "sleeper"@ {
            Some(AccommodationFacility::Sleeper)
        } else if token == "couchette"@ {
            Some(AccommodationFacility::Couchette)
        } else if token == "specialSeating"@ {
            Some(AccommodationFacility::SpecialSeating)
        } else if token == "recliningSeats"@ {
            Some(AccommodationFacility::RecliningSeats)
        } else if token == "babyCompartment"@ {
            Some(AccommodationFacility::BabyCompartment)
        } else if token == "familyCarriage"@ {
            Some(AccommodationFacility::FamilyCarriage)
        } else {
            None
        }
    }

    /// The value a wire token denotes: the listed variant when the schema defines
    /// the token, `Unrecognised` holding the token otherwise.
    pub fn from_token(token: &str) -> (result: Self)
        ensures
            result.spec_token() == token@,
            match Self::spec_listed(token@) {
                Some(listed) => result == listed,
                None => result is Unrecognised,
            },
    {
        let owned: String = token.to_owned();
        if owned == "unknown".to_owned() {
            AccommodationFacility::Unknown
        } else if owned == "sleeper".to_owned() {
            AccommodationFacility::Sleeper
        } else if owned == "couchette".to_owned() {
            AccommodationFacility::Couchette
        } else if owned == "specialSeating".to_owned() {
            AccommodationFacility::SpecialSeating
        } else if owned == "recliningSeats".to_owned() {
            AccommodationFacility::RecliningSeats
        } else if owned == "babyCompartment".to_owned() {
            AccommodationFacility::BabyCompartment
        } else if owned == "familyCarriage".to_owned() {
            AccommodationFacility::FamilyCarriage
        } else {
            AccommodationFacility::Unrecognised(owned)
        }
    }

    /// The token this value is written as on the wire.
    pub fn as_str(&self) -> (token: &str)
        ensures
            token@ == self.spec_token(),
    {
        match self {
            AccommodationFacility::Unknown => "unknown",
            AccommodationFacility::Sleeper => "sleeper",
            AccommodationFacility::Couchette => "couchette",
            AccommodationFacility::SpecialSeating => "specialSeating",
            AccommodationFacility::RecliningSeats => "recliningSeats",
            AccommodationFacility::BabyCompartment => "babyCompartment",
            AccommodationFacility::FamilyCarriage => "familyCarriage",
            AccommodationFacility::Unrecognised(token) => token.as_str(),
        }
    }
}

/// The `AirSubmodesOfTransportEnumeration` code list.
#[derive(Debug, Clone, PartialEq, Eq, PartialOrd, Ord, Hash)]
pub enum AirSubmodesOfTransport {
    /// `unknown`
    Unknown,
    /// `undefinedAircraftService`
    UndefinedAircraftService,
    /// `internationalFlight`
    InternationalFlight,
    /// `domesticScheduledFlight`
    DomesticScheduledFlight,
    /// `intercontinentalFlight`
    IntercontinentalFlight,
    /// `domesticCharterFlight`
    DomesticCharterFlight,
    /// `internationalCharterFlight`
    InternationalCharterFlight,
    /// `roundTripCharterFlight`
    RoundTripCharterFlight,
    /// `sightseeingFlight`
    SightseeingFlight,
    /// `helicopterService`
    HelicopterService,
    /// `domesticScheduledHelicopterService`
    DomesticScheduledHelicopterService,
    /// A token this list does not define, kept as it was read.
    Unrecognised(String),
}

impl core::str::FromStr for AirSubmodesOfTransport {
    type Err = core::convert::Infallible;

    /// Every token is a value, so this never fails; see `from_token`.
    fn from_str(token: &str) -> (result: Result<Self, Self::Err>)
        ensures
            result matches Ok(value) && value.spec_token() == token@ && match Self::spec_listed(
                token@,
            ) {
                Some(listed) => value == listed,
                None => value is Unrecognised,
            },
    {
        Ok(Self::from_token(token))
    }
}

impl AirSubmodesOfTransport {
    /// Name of the XML Schema type this list transcribes.
    pub const XSD_TYPE: &'static str = "AirSubmodesOfTransportEnumeration";

    /// Every value the schema defines, in schema order.
    pub open spec fn spec_all() -> Seq<AirSubmodesOfTransport> {
        seq![AirSubmodesOfTransport::Unknown, AirSubmodesOfTransport::UndefinedAircraftService, AirSubmodesOfTransport::InternationalFlight, AirSubmodesOfTransport::DomesticScheduledFlight, AirSubmodesOfTransport::IntercontinentalFlight, AirSubmodesOfTransport::DomesticCharterFlight, AirSubmodesOfTransport::InternationalCharterFlight, AirSubmodesOfTransport::RoundTripCharterFlight, AirSubmodesOfTransport::SightseeingFlight, AirSubmodesOfTransport::HelicopterService, AirSubmodesOfTransport::DomesticScheduledHelicopterService]
    }

    /// Every value the schema defines, in schema order.
    pub fn all() -> (values: Vec<Self>)
        ensures
            values@ == Self::spec_all(),
    {
        vec![AirSubmodesOfTransport::Unknown, AirSubmodesOfTransport::UndefinedAircraftService, AirSubmodesOfTransport::InternationalFlight, AirSubmodesOfTransport::DomesticScheduledFlight, AirSubmodesOfTransport::IntercontinentalFlight, AirSubmodesOfTransport::DomesticCharterFlight, AirSubmodesOfTransport::InternationalCharterFlight, AirSubmodesOfTransport::RoundTripCharterFlight, AirSubmodesOfTransport::SightseeingFlight, AirSubmodesOfTransport::HelicopterService, AirSubmodesOfTransport::DomesticScheduledHelicopterService]
    }

    /// The token a value is written as on the wire.
    pub open spec fn spec_token(&self) -> Seq<char> {
        match self {
            AirSubmodesOfTransport::Unknown => "unknown"@,
            AirSubmodesOfTransport::UndefinedAircraftService => "undefinedAircraftService"@,
            AirSubmodesOfTransport::InternationalFlight => "internationalFlight"@,
            AirSubmodesOfTransport::DomesticScheduledFlight => "domesticScheduledFlight"@,
            AirSubmodesOfTransport::IntercontinentalFlight => "intercontinentalFlight"@,
            AirSubmodesOfTransport::DomesticCharterFlight => "domesticCharterFlight"@,
            AirSubmodesOfTransport::InternationalCharterFlight => "internationalCharterFlight"@,
            AirSubmodesOfTransport::RoundTripCharterFlight => "roundTripCharterFlight"@,
            AirSubmodesOfTransport::SightseeingFlight => "sightseeingFlight"@,
            AirSubmodesOfTransport::HelicopterService => "helicopterService"@,
            AirSubmodesOfTransport::DomesticScheduledHelicopterService => "domesticScheduledHelicopterService"@,
            AirSubmodesOfTransport::Unrecognised(token) => token@,
        }
    }

    /// The value the schema defines for a token, if it defines one.
    pub open spec fn spec_listed(token: Seq<char>) -> Option<AirSubmodesOfTransport> {
        if token == "unknown"@ {
            Some(AirSubmodesOfTransport::Unknown)
        } else if token == "undefinedAircraftService"@ {
            Some(AirSubmodesOfTransport::UndefinedAircraftService)
        } else if token == "internationalFlight"@ {
            Some(AirSubmodesOfTransport::InternationalFlight)
        } else if token == "domesticScheduledFlight"@ {
            Some(AirSubmodesOfTransport::DomesticScheduledFlight)
        } else if token == "intercontinentalFlight"@ {
            Some(AirSubmodesOfTransport::IntercontinentalFlight)
        } else if token == "domesticCharterFlight"@ {
            Some(AirSubmodesOfTransport::DomesticCharterFlight)
        } else if token == "internationalCharterFlight"@ {
            Some(AirSubmodesOfTransport::InternationalCharterFlight)
        } else if token == "roundTripCharterFlight"@ {
            Some(AirSubmodesOfTransport::RoundTripCharterFlight)
        } else if token == "sightseeingFlight"@ {
            Some(AirSubmodesOfTransport::SightseeingFlight)
        } else if token == "helicopterService"@ {
            Some(AirSubmodesOfTransport::HelicopterService)
        } else if token == "domesticScheduledHelicopterService"@ {
            Some(AirSubmodesOfTransport::DomesticScheduledHelicopterService)
        } else {
            None
        }
    }

    /// The value a wire token denotes: the listed variant when the schema defines
    /// the token, `Unrecognised` holding the token otherwise.
    pub fn from_token(token: &str) -> (result: Self)
        ensures
            result.spec_token() == token@,
            match Self::spec_listed(token@) {
                Some(listed) => result == listed,
                None => result is Unrecognised,
            },
    {
        let owned: String = token.to_owned();
        if owned == "unknown".to_owned() {
            AirSubmodesOfTransport::Unknown
        } else if owned == "undefinedAircraftService".to_owned() {
            AirSubmodesOfTransport::UndefinedAircraftService
        } else if owned == "internationalFlight".to_owned() {
            AirSubmodesOfTransport::InternationalFlight
        } else if owned == "domesticScheduledFlight".to_owned() {
            AirSubmodesOfTransport::DomesticScheduledFlight
        } else if owned == "intercontinentalFlight".to_owned() {
            AirSubmodesOfTransport::IntercontinentalFlight
        } else if owned == "domesticCharterFlight".to_owned() {
            AirSubmodesOfTransport::DomesticCharterFlight
        } else if owned == "internationalCharterFlight".to_owned() {
            AirSubmodesOfTransport::InternationalCharterFlight
        } else if owned == "roundTripCharterFlight".to_owned() {
            AirSubmodesOfTransport::RoundTripCharterFlight
        } else if owned == "sightseeingFlight".to_owned() {
            AirSubmodesOfTransport::SightseeingFlight
        } else if owned == "helicopterService".to_owned() {
            AirSubmodesOfTransport::HelicopterService
        } else if owned == "domesticScheduledHelicopterService".to_owned() {
            AirSubmodesOfTransport::DomesticScheduledHelicopterService
        } else {
            AirSubmodesOfTransport::Unrecognised(owned)
        }
    }

    /// The token this value is written as on the wire.
    pub fn as_str(&self) -> (token: &str)
        ensures
            token@ == self.spec_token(),
    {
        match self {
            AirSubmodesOfTransport::Unknown => "unknown",
            AirSubmodesOfTransport::UndefinedAircraftService => "undefinedAircraftService",
            AirSubmodesOfTransport::InternationalFlight => "internationalFlight",
            AirSubmodesOfTransport::DomesticScheduledFlight => "domesticScheduledFlight",
            AirSubmodesOfTransport::IntercontinentalFlight => "intercontinentalFlight",
            AirSubmodesOfTransport::DomesticCharterFlight => "domesticCharterFlight",
            AirSubmodesOfTransport::InternationalCharterFlight => "internationalCharterFlight",
            AirSubmodesOfTransport::RoundTripCharterFlight => "roundTripCharterFlight",
            AirSubmodesOfTransport::SightseeingFlight => "sightseeingFlight",
            AirSubmodesOfTransport::HelicopterService => "helicopterService",
            AirSubmodesOfTransport::DomesticScheduledHelicopterService => "domesticScheduledHelicopterService",
            AirSubmodesOfTransport::Unrecognised(token) => token.as_str(),
        }
    }
}

/// The `ArrivalBoardingActivityEnumeration` code list.
#[derive(Debug, Clone, PartialEq, Eq, PartialOrd, Ord, Hash)]
pub enum ArrivalBoardingActivity {
    /// `alighting`
    Alighting,
    /// `noAlighting`
    NoAlighting,
    /// `passThru`
    PassThru,
    /// A token this list does not define, kept as it was read.
    Unrecognised(String),
}

impl core::str::FromStr for ArrivalBoardingActivity {
    type Err = core::convert::Infallible;

    /// Every token is a value, so this never fails; see `from_token`.
    fn from_str(token: &str) -> (result: Result<Self, Self::Err>)
        ensures
            result matches Ok(value) && value.spec_token() == token@ && match Self::spec_listed(
                token@,
            ) {
                Some(listed) => value == listed,
                None => value is Unrecognised,
            },
    {
        Ok(Self::from_token(token))
    }
}

impl ArrivalBoardingActivity {
    /// Name of the XML Schema type this list transcribes.
    pub const XSD_TYPE: &'static str = "ArrivalBoardingActivityEnumeration";

    /// Every value the schema defines, in schema order.
    pub open spec fn spec_all() -> Seq<ArrivalBoardingActivity> {
        seq![ArrivalBoardingActivity::Alighting, ArrivalBoardingActivity::NoAlighting, ArrivalBoardingActivity::PassThru]
    }

    /// Every value the schema defines, in schema order.
    pub fn all() -> (values: Vec<Self>)
        ensures
            values@ == Self::spec_all(),
    {
        vec![ArrivalBoardingActivity::Alighting, ArrivalBoardingActivity::NoAlighting, ArrivalBoardingActivity::PassThru]
    }

    /// The token a value is written as on the wire.
    pub open spec fn spec_token(&self) -> Seq<char> {
        match self {
            ArrivalBoardingActivity::Alighting => "alighting"@,
            ArrivalBoardingActivity::NoAlighting => "noAlighting"@,
            ArrivalBoardingActivity::PassThru => "passThru"@,
            ArrivalBoardingActivity::Unrecognised(token) => token@,
        }
    }

    /// The value the schema defines for a token, if it defines one.
    pub open spec fn spec_listed(token: Seq<char>) -> Option<ArrivalBoardingActivity> {
        if token == "alighting"@ {
            Some(ArrivalBoardingActivity::Alighting)
        } else if token == "noAlighting"@ {
            Some(ArrivalBoardingActivity::NoAlighting)
        } else if token == "passThru"@ {
            Some(ArrivalBoardingActivity::PassThru)
        } else {
            None
        }
    }

    /// The value a wire token denotes: the listed variant when the schema defines
    /// the token, `Unrecognised` holding the token otherwise.
    pub fn from_token(token: &str) -> (result: Self)
        ensures
            result.spec_token() == token@,
            match Self::spec_listed(token@) {
                Some(listed) => result == listed,
                None => result is Unrecognised,
            },
    {
        let owned: String = token.to_owned();
        if owned == "alighting".to_owned() {
            ArrivalBoardingActivity::Alighting
        } else if owned == "noAlighting".to_owned() {
            ArrivalBoardingActivity::NoAlighting
        } else if owned == "passThru".to_owned() {
            ArrivalBoardingActivity::PassThru
        } else {
            ArrivalBoardingActivity::Unrecognised(owned)
        }
    }

    /// The token this value is written as on the wire.
    pub fn as_str(&self) -> (token: &str)
        ensures
            token@ == self.spec_token(),
    {
        match self {
            ArrivalBoardingActivity::Alighting => "alighting",
            ArrivalBoardingActivity::NoAlighting => "noAlighting",
            ArrivalBoardingActivity::PassThru => "passThru",
            ArrivalBoardingActivity::Unrecognised(token) => token.as_str(),
        }
    }
}

/// The `AssistanceFacilityEnumeration` code list.
#[derive(Debug, Clone, PartialEq, Eq, PartialOrd, Ord, Hash)]
pub enum AssistanceFacility {
    /// `unknown`
    Unknown,
    /// `personalAssistance`
    PersonalAssistance,
    /// `boardingAssistance`
    BoardingAssistance,
    /// `wheechairAssistance`
    WheechairAssistance,
    /// `unaccompaniedMinorAssistance`
    UnaccompaniedMinorAssistance,
    /// `wheelchairUse`
    WheelchairUse,
    /// `conductor`
    Conductor,
    /// `information`
    Information,
    /// `other`
    Other,
    /// A token this list does not define, kept as it was read.
    Unrecognised(String),
}

impl core::str::FromStr for AssistanceFacility {
    type Err = core::convert::Infallible;

    /// Every token is a value, so this never fails; see `from_token`.
    fn from_str(token: &str) -> (result: Result<Self, Self::Err>)
        ensures
            result matches Ok(value) && value.spec_token() == token@ && match Self::spec_listed(
                token@,
            ) {
                Some(listed) => value == listed,
                None => value is Unrecognised,
            },
    {
        Ok(Self::from_token(token))
    }
}

impl AssistanceFacility {
    /// Name of the XML Schema type this list transcribes.
    pub const XSD_TYPE: &'static str = "AssistanceFacilityEnumeration";

    /// Every value the schema defines, in schema order.
    pub open spec fn spec_all() -> Seq<AssistanceFacility> {
        seq![AssistanceFacility::Unknown, AssistanceFacility::PersonalAssistance, AssistanceFacility::BoardingAssistance, AssistanceFacility::WheechairAssistance, AssistanceFacility::UnaccompaniedMinorAssistance, AssistanceFacility::WheelchairUse, AssistanceFacility::Conductor, AssistanceFacility::Information, AssistanceFacility::Other]
    }

    /// Every value the schema defines, in schema order.
    pub fn all() -> (values: Vec<Self>)
        ensures
            values@ == Self::spec_all(),
    {
        vec![AssistanceFacility::Unknown, AssistanceFacility::PersonalAssistance, AssistanceFacility::BoardingAssistance, AssistanceFacility::WheechairAssistance, AssistanceFacility::UnaccompaniedMinorAssistance, AssistanceFacility::WheelchairUse, AssistanceFacility::Conductor, AssistanceFacility::Information, AssistanceFacility::Other]
    }

    /// The token a value is written as on the wire.
    pub open spec fn spec_token(&self) -> Seq<char> {
        match self {
            AssistanceFacility::Unknown => "unknown"@,
            AssistanceFacility::PersonalAssistance => "personalAssistance"@,
            AssistanceFacility::BoardingAssistance => "boardingAssistance"@,
            AssistanceFacility::WheechairAssistance => "wheechairAssistance"@,
            AssistanceFacility::UnaccompaniedMinorAssistance => "unaccompaniedMinorAssistance"@,
            AssistanceFacility::WheelchairUse => "wheelchairUse"@,
            AssistanceFacility::Conductor => "conductor"@,
            AssistanceFacility::Information => "information"@,
            AssistanceFacility::Other => "other"@,
            AssistanceFacility::Unrecognised(token) => token@,
        }
    }

    /// The value the schema defines for a token, if it defines one.
    pub open spec fn spec_listed(token: Seq<char>) -> Option<AssistanceFacility> {
        if token == "unknown"@ {
            Some(AssistanceFacility::Unknown)
        } else if token == "personalAssistance"@ {
            Some(AssistanceFacility::PersonalAssistance)
        } else if token == "boardingAssistance"@ {
            Some(AssistanceFacility::BoardingAssistance)
        } else if token == "wheechairAssistance"@ {
            Some(AssistanceFacility::WheechairAssistance)
        } else if token == "unaccompaniedMinorAssistance"@ {
            Some(AssistanceFacility::UnaccompaniedMinorAssistance)
        } else if token == "wheelchairUse"@ {
            Some(AssistanceFacility::WheelchairUse)
        } else if token == "conductor"@ {
            Some(AssistanceFacility::Conductor)
        } else if token == "information"@ {
            Some(AssistanceFacility::Information)
        } else if token == "other"@ {
            Some(AssistanceFacility::Other)
        } else {
            None
        }
    }

    /// The value a wire token denotes: the listed variant when the schema defines
    /// the token, `Unrecognised` holding the token otherwise.
    pub fn from_token(token: &str) -> (result: Self)
        ensures
            result.spec_token() == token@,
            match Self::spec_listed(token@) {
                Some(listed) => result == listed,
                None => result is Unrecognised,
            },
    {
        let owned: String = token.to_owned();
        if owned == "unknown".to_owned() {
            AssistanceFacility::Unknown
        } else if owned == "personalAssistance".to_owned() {
            AssistanceFacility::PersonalAssistance
        } else if owned == "boardingAssistance".to_owned() {
            AssistanceFacility::BoardingAssistance
        } else if owned == "wheechairAssistance".to_owned() {
            AssistanceFacility::WheechairAssistance
        } else if owned == "unaccompaniedMinorAssistance".to_owned() {
            AssistanceFacility::UnaccompaniedMinorAssistance
        } else if owned == "wheelchairUse".to_owned() {
            AssistanceFacility::WheelchairUse
        } else if owned == "conductor".to_owned() {
            AssistanceFacility::Conductor
        } else if owned == "information".to_owned() {
            AssistanceFacility::Information
        } else if owned == "other".to_owned() {
            AssistanceFacility::Other
        } else {
            AssistanceFacility::Unrecognised(owned)
        }
    }

    /// The token this value is written as on the wire.
    pub fn as_str(&self) -> (token: &str)
        ensures
            token@ == self.spec_token(),
    {
        match self {
            AssistanceFacility::Unknown => "unknown",
            AssistanceFacility::PersonalAssistance => "personalAssistance",
            AssistanceFacility::BoardingAssistance => "boardingAssistance",
            AssistanceFacility::WheechairAssistance => "wheechairAssistance",
            AssistanceFacility::UnaccompaniedMinorAssistance => "unaccompaniedMinorAssistance",
            AssistanceFacility::WheelchairUse => "wheelchairUse",
            AssistanceFacility::Conductor => "conductor",
            AssistanceFacility::Information => "information",
            AssistanceFacility::Other => "other",
            AssistanceFacility::Unrecognised(token) => token.as_str(),
        }
    }
}

/// The `BusSubmodesOfTransportEnumeration` code list.
#[derive(Debug, Clone, PartialEq, Eq, PartialOrd, Ord, Hash)]
pub enum BusSubmodesOfTransport {
    /// `unknown`
    Unknown,
    /// `undefined`
    Undefined,
    /// `localBus`
    LocalBus,
    /// `regionalBus`
    RegionalBus,
    /// `expressBus`
    ExpressBus,
    /// `nightBus`
    NightBus,
    /// `postBus`
    PostBus,
    /// `specialNeedsBus`
    SpecialNeedsBus,
    /// `mobilityBus`
    MobilityBus,
    /// `mobilityBusForRegisteredDisabled`
    MobilityBusForRegisteredDisabled,
    /// `sightseeingBus`
    SightseeingBus,
    /// `shuttleBus`
    ShuttleBus,
    /// `schoolBus`
    SchoolBus,
    /// `schoolAndPublicServiceBus`
    SchoolAndPublicServiceBus,
    /// `railReplacementBus`
    RailReplacementBus,
    /// `demandAndResponseBus`
    DemandAndResponseBus,
    /// `airportLinkBus`
    AirportLinkBus,
    /// A token this list does not define, kept as it was read.
    Unrecognised(String),
}

impl core::str::FromStr for BusSubmodesOfTransport {
    type Err = core::convert::Infallible;

    /// Every token is a value, so this never fails; see `from_token`.
    fn from_str(token: &str) -> (result: Result<Self, Self::Err>)
        ensures
            result matches Ok(value) && value.spec_token() == token@ && match Self::spec_listed(
                token@,
            ) {
                Some(listed) => value == listed,
                None => value is Unrecognised,
            },
    {
        Ok(Self::from_token(token))
    }
}

impl BusSubmodesOfTransport {
    /// Name of the XML Schema type this list transcribes.
    pub const XSD_TYPE: &'static str = "BusSubmodesOfTransportEnumeration";

    /// Every value the schema defines, in schema order.
    pub open spec fn spec_all() -> Seq<BusSubmodesOfTransport> {
        seq![BusSubmodesOfTransport::Unknown, BusSubmodesOfTransport::Undefined, BusSubmodesOfTransport::LocalBus, BusSubmodesOfTransport::RegionalBus, BusSubmodesOfTransport::ExpressBus, BusSubmodesOfTransport::NightBus, BusSubmodesOfTransport::PostBus, BusSubmodesOfTransport::SpecialNeedsBus, BusSubmodesOfTransport::MobilityBus, BusSubmodesOfTransport::MobilityBusForRegisteredDisabled, BusSubmodesOfTransport::SightseeingBus, BusSubmodesOfTransport::ShuttleBus, BusSubmodesOfTransport::SchoolBus, BusSubmodesOfTransport::SchoolAndPublicServiceBus, BusSubmodesOfTransport::RailReplacementBus, BusSubmodesOfTransport::DemandAndResponseBus, BusSubmodesOfTransport::AirportLinkBus]
    }

    /// Every value the schema defines, in schema order.
    pub fn all() -> (values: Vec<Self>)
        ensures
            values@ == Self::spec_all(),
    {
        vec![BusSubmodesOfTransport::Unknown, BusSubmodesOfTransport::Undefined, BusSubmodesOfTransport::LocalBus, BusSubmodesOfTransport::RegionalBus, BusSubmodesOfTransport::ExpressBus, BusSubmodesOfTransport::NightBus, BusSubmodesOfTransport::PostBus, BusSubmodesOfTransport::SpecialNeedsBus, BusSubmodesOfTransport::MobilityBus, BusSubmodesOfTransport::MobilityBusForRegisteredDisabled, BusSubmodesOfTransport::SightseeingBus, BusSubmodesOfTransport::ShuttleBus, BusSubmodesOfTransport::SchoolBus, BusSubmodesOfTransport::SchoolAndPublicServiceBus, BusSubmodesOfTransport::RailReplacementBus, BusSubmodesOfTransport::DemandAndResponseBus, BusSubmodesOfTransport::AirportLinkBus]
    }

    /// The token a value is written as on the wire.
    pub open spec fn spec_token(&self) -> Seq<char> {
        match self {
            BusSubmodesOfTransport::Unknown => "unknown"@,
            BusSubmodesOfTransport::Undefined => "undefined"@,
            BusSubmodesOfTransport::LocalBus => "localBus"@,
            BusSubmodesOfTransport::RegionalBus => "regionalBus"@,
            BusSubmodesOfTransport::ExpressBus => "expressBus"@,
            BusSubmodesOfTransport::NightBus => "nightBus"@,
            BusSubmodesOfTransport::PostBus => "postBus"@,
            BusSubmodesOfTransport::SpecialNeedsBus => "specialNeedsBus"@,
            BusSubmodesOfTransport::MobilityBus => "mobilityBus"@,
            BusSubmodesOfTransport::MobilityBusForRegisteredDisabled => "mobilityBusForRegisteredDisabled"@,
            BusSubmodesOfTransport::SightseeingBus => "sightseeingBus"@,
            BusSubmodesOfTransport::ShuttleBus => "shuttleBus"@,
            BusSubmodesOfTransport::SchoolBus => "schoolBus"@,
            BusSubmodesOfTransport::SchoolAndPublicServiceBus => "schoolAndPublicServiceBus"@,
            BusSubmodesOfTransport::RailReplacementBus => "railReplacementBus"@,
            BusSubmodesOfTransport::DemandAndResponseBus => "demandAndResponseBus"@,
            BusSubmodesOfTransport::AirportLinkBus => "airportLinkBus"@,
            BusSubmodesOfTransport::Unrecognised(token) => token@,
        }
    }

    /// The value the schema defines for a token, if it defines one.
    pub open spec fn spec_listed(token: Seq<char>) -> Option<BusSubmodesOfTransport> {
        if token == "unknown"@ {
            Some(BusSubmodesOfTransport::Unknown)
        } else if token == "undefined"@ {
            Some(BusSubmodesOfTransport::Undefined)
        } else if token == "localBus"@ {
            Some(BusSubmodesOfTransport::LocalBus)
        } else if token == "regionalBus"@ {
            Some(BusSubmodesOfTransport::RegionalBus)
        } else if token == "expressBus"@ {
            Some(BusSubmodesOfTransport::ExpressBus)
        } else if token == "nightBus"@ {
            Some(BusSubmodesOfTransport::NightBus)
        } else if token == "postBus"@ {
            Some(BusSubmodesOfTransport::PostBus)
        } else if token == "specialNeedsBus"@ {
            Some(BusSubmodesOfTransport::SpecialNeedsBus)
        } else if token == "mobilityBus"@ {
            Some(BusSubmodesOfTransport::MobilityBus)
        } else if token == "mobilityBusForRegisteredDisabled"@ {
            Some(BusSubmodesOfTransport::MobilityBusForRegisteredDisabled)
        } else if token == "sightseeingBus"@ {
            Some(BusSubmodesOfTransport::SightseeingBus)
        } else if token == "shuttleBus"@ {
            Some(BusSubmodesOfTransport::ShuttleBus)
        } else if token == "schoolBus"@ {
            Some(BusSubmodesOfTransport::SchoolBus)
        } else if token == "schoolAndPublicServiceBus"@ {
            Some(BusSubmodesOfTransport::SchoolAndPublicServiceBus)
        } else if token == "railReplacementBus"@ {
            Some(BusSubmodesOfTransport::RailReplacementBus)
        } else if token == "demandAndResponseBus"@ {
            Some(BusSubmodesOfTransport::DemandAndResponseBus)
        } else if token == "airportLinkBus"@ {
            Some(BusSubmodesOfTransport::AirportLinkBus)
        } else {
            None
        }
    }

    /// The value a wire token denotes: the listed variant when the schema defines
    /// the token, `Unrecognised` holding the token otherwise.
    pub fn from_token(token: &str) -> (result: Self)
        ensures
            result.spec_token() == token@,
            match Self::spec_listed(token@) {
                Some(listed) => result == listed,
                None => result is Unrecognised,
            },
    {
        let owned: String = token.to_owned();
        if owned == "unknown".to_owned() {
            BusSubmodesOfTransport::Unknown
        } else if owned == "undefined".to_owned() {
            BusSubmodesOfTransport::Undefined
        } else if owned == "localBus".to_owned() {
            BusSubmodesOfTransport::LocalBus
        } else if owned == "regionalBus".to_owned() {
            BusSubmodesOfTransport::RegionalBus
        } else if owned == "expressBus".to_owned() {
            BusSubmodesOfTransport::ExpressBus
        } else if owned == "nightBus".to_owned() {
            BusSubmodesOfTransport::NightBus
        } else if owned == "postBus".to_owned() {
            BusSubmodesOfTransport::PostBus
        } else if owned == "specialNeedsBus".to_owned() {
            BusSubmodesOfTransport::SpecialNeedsBus
        } else if owned == "mobilityBus".to_owned() {
            BusSubmodesOfTransport::MobilityBus
        } else if owned == "mobilityBusForRegisteredDisabled".to_owned() {
            BusSubmodesOfTransport::MobilityBusForRegisteredDisabled
        } else if owned == "sightseeingBus".to_owned() {
            BusSubmodesOfTransport::SightseeingBus
        } else if owned == "shuttleBus".to_owned() {
            BusSubmodesOfTransport::ShuttleBus
        } else if owned == "schoolBus".to_owned() {
            BusSubmodesOfTransport::SchoolBus
        } else if owned == "schoolAndPublicServiceBus".to_owned() {
            BusSubmodesOfTransport::SchoolAndPublicServiceBus
        } else if owned == "railReplacementBus".to_owned() {
            BusSubmodesOfTransport::RailReplacementBus
        } else if owned == "demandAndResponseBus".to_owned() {
            BusSubmodesOfTransport::DemandAndResponseBus
        } else if owned == "airportLinkBus".to_owned() {
            BusSubmodesOfTransport::AirportLinkBus
        } else {
            BusSubmodesOfTransport::Unrecognised(owned)
        }
    }

    /// The token this value is written as on the wire.
    pub fn as_str(&self) -> (token: &str)
        ensures
            token@ == self.spec_token(),
    {
        match self {
            BusSubmodesOfTransport::Unknown => "unknown",
            BusSubmodesOfTransport::Undefined => "undefined",
            BusSubmodesOfTransport::LocalBus => "localBus",
            BusSubmodesOfTransport::RegionalBus => "regionalBus",
            BusSubmodesOfTransport::ExpressBus => "expressBus",
            BusSubmodesOfTransport::NightBus => "nightBus",
            BusSubmodesOfTransport::PostBus => "postBus",
            BusSubmodesOfTransport::SpecialNeedsBus => "specialNeedsBus",
            BusSubmodesOfTransport::MobilityBus => "mobilityBus",
            BusSubmodesOfTransport::MobilityBusForRegisteredDisabled => "mobilityBusForRegisteredDisabled",
            BusSubmodesOfTransport::SightseeingBus => "sightseeingBus",
            BusSubmodesOfTransport::ShuttleBus => "shuttleBus",
            BusSubmodesOfTransport::SchoolBus => "schoolBus",
            BusSubmodesOfTransport::SchoolAndPublicServiceBus => "schoolAndPublicServiceBus",
            BusSubmodesOfTransport::RailReplacementBus => "railReplacementBus",
            BusSubmodesOfTransport::DemandAndResponseBus => "demandAndResponseBus",
            BusSubmodesOfTransport::AirportLinkBus => "airportLinkBus",
            BusSubmodesOfTransport::Unrecognised(token) => token.as_str(),
        }
    }
}

/// The `CallStatusEnumeration` code list.
#[derive(Debug, Clone, PartialEq, Eq, PartialOrd, Ord, Hash)]
pub enum CallStatus {
    /// `onTime`
    OnTime,
    /// `early`
    Early,
    /// `delayed`
    Delayed,
    /// `cancelled`
    Cancelled,
    /// `arrived`
    Arrived,
    /// `departed`
    Departed,
    /// `missed`
    Missed,
    /// `noReport`
    NoReport,
    /// `notExpected`
    NotExpected,
    /// A token this list does not define, kept as it was read.
    Unrecognised(String),
}

impl core::str::FromStr for CallStatus {
    type Err = core::convert::Infallible;

    /// Every token is a value, so this never fails; see `from_token`.
    fn from_str(token: &str) -> (result: Result<Self, Self::Err>)
        ensures
            result matches Ok(value) && value.spec_token() == token@ && match Self::spec_listed(
                token@,
            ) {
                Some(listed) => value == listed,
                None => value is Unrecognised,
            },
    {
        Ok(Self::from_token(token))
    }
}

impl CallStatus {
    /// Name of the XML Schema type this list transcribes.
    pub const XSD_TYPE: &'static str = "CallStatusEnumeration";

    /// Every value the schema defines, in schema order.
    pub open spec fn spec_all() -> Seq<CallStatus> {
        seq![CallStatus::OnTime, CallStatus::Early, CallStatus::Delayed, CallStatus::Cancelled, CallStatus::Arrived, CallStatus::Departed, CallStatus::Missed, CallStatus::NoReport, CallStatus::NotExpected]
    }

    /// Every value the schema defines, in schema order.
    pub fn all() -> (values: Vec<Self>)
        ensures
            values@ == Self::spec_all(),
    {
        vec![CallStatus::OnTime, CallStatus::Early, CallStatus::Delayed, CallStatus::Cancelled, CallStatus::Arrived, CallStatus::Departed, CallStatus::Missed, CallStatus::NoReport, CallStatus::NotExpected]
    }

    /// The token a value is written as on the wire.
    pub open spec fn spec_token(&self) -> Seq<char> {
        match self {
            CallStatus::OnTime => "onTime"@,
            CallStatus::Early => "early"@,
            CallStatus::Delayed => "delayed"@,
            CallStatus::Cancelled => "cancelled"@,
            CallStatus::Arrived => "arrived"@,
            CallStatus::Departed => "departed"@,
            CallStatus::Missed => "missed"@,
            CallStatus::NoReport => "noReport"@,
            CallStatus::NotExpected => "notExpected"@,
            CallStatus::Unrecognised(token) => token@,
        }
    }

    /// The value the schema defines for a token, if it defines one.
    pub open spec fn spec_listed(token: Seq<char>) -> Option<CallStatus> {
        if token == "onTime"@ {
            Some(CallStatus::OnTime)
        } else if token == "early"@ {
            Some(CallStatus::Early)
        } else if token == "delayed"@ {
            Some(CallStatus::Delayed)
        } else if token == "cancelled"@ {
            Some(CallStatus::Cancelled)
        } else if token == "arrived"@ {
            Some(CallStatus::Arrived)
        } else if token == "departed"@ {
            Some(CallStatus::Departed)
        } else if token == "missed"@ {
            Some(CallStatus::Missed)
        } else if token == "noReport"@ {
            Some(CallStatus::NoReport)
        } else if token == "notExpected"@ {
            Some(CallStatus::NotExpected)
        } else {
            None
        }
    }

    /// The value a wire token denotes: the listed variant when the schema defines
    /// the token, `Unrecognised` holding the token otherwise.
    pub fn from_token(token: &str) -> (result: Self)
        ensures
            result.spec_token() == token@,
            match Self::spec_listed(token@) {
                Some(listed) => result == listed,
                None => result is Unrecognised,
            },
    {
        let owned: String = token.to_owned();
        if owned == "onTime".to_owned() {
            CallStatus::OnTime
        } else if owned == "early".to_owned() {
            CallStatus::Early
        } else if owned == "delayed".to_owned() {
            CallStatus::Delayed
        } else if owned == "cancelled".to_owned() {
            CallStatus::Cancelled
        } else if owned == "arrived".to_owned() {
            CallStatus::Arrived
        } else if owned == "departed".to_owned() {
            CallStatus::Departed
        } else if owned == "missed".to_owned() {
            CallStatus::Missed
        } else if owned == "noReport".to_owned() {
            CallStatus::NoReport
        } else if owned == "notExpected".to_owned() {
            CallStatus::NotExpected
        } else {
            CallStatus::Unrecognised(owned)
        }
    }

    /// The token this value is written as on the wire.
    pub fn as_str(&self) -> (token: &str)
        ensures
            token@ == self.spec_token(),
    {
        match self {
            CallStatus::OnTime => "onTime",
            CallStatus::Early => "early",
            CallStatus::Delayed => "delayed",
            CallStatus::Cancelled => "cancelled",
            CallStatus::Arrived => "arrived",
            CallStatus::Departed => "departed",
            CallStatus::Missed => "missed",
            CallStatus::NoReport => "noReport",
            CallStatus::NotExpected => "notExpected",
            CallStatus::Unrecognised(token) => token.as_str(),
        }
    }
}

/// The `CoachSubmodesOfTransportEnumeration` code list.
#[derive(Debug, Clone, PartialEq, Eq, PartialOrd, Ord, Hash)]
pub enum CoachSubmodesOfTransport {
    /// `unknown`
    Unknown,
    /// `undefined`
    Undefined,
    /// `internationalCoach`
    InternationalCoach,
    /// `nationalCoach`
    NationalCoach,
    /// `shuttleCoach`
    ShuttleCoach,
    /// `regionalCoach`
    RegionalCoach,
    /// `specialCoach`
    SpecialCoach,
    /// `sightseeingCoach`
    SightseeingCoach,
    /// `touristCoach`
    TouristCoach,
    /// `commuterCoach`
    CommuterCoach,
    /// A token this list does not define, kept as it was read.
    Unrecognised(String),
}

impl core::str::FromStr for CoachSubmodesOfTransport {
    type Err = core::convert::Infallible;

    /// Every token is a value, so this never fails; see `from_token`.
    fn from_str(token: &str) -> (result: Result<Self, Self::Err>)
        ensures
            result matches Ok(value) && value.spec_token() == token@ && match Self::spec_listed(
                token@,
            ) {
                Some(listed) => value == listed,
                None => value is Unrecognised,
            },
    {
        Ok(Self::from_token(token))
    }
}

impl CoachSubmodesOfTransport {
    /// Name of the XML Schema type this list transcribes.
    pub const XSD_TYPE: &'static str = "CoachSubmodesOfTransportEnumeration";

    /// Every value the schema defines, in schema order.
    pub open spec fn spec_all() -> Seq<CoachSubmodesOfTransport> {
        seq![CoachSubmodesOfTransport::Unknown, CoachSubmodesOfTransport::Undefined, CoachSubmodesOfTransport::InternationalCoach, CoachSubmodesOfTransport::NationalCoach, CoachSubmodesOfTransport::ShuttleCoach, CoachSubmodesOfTransport::RegionalCoach, CoachSubmodesOfTransport::SpecialCoach, CoachSubmodesOfTransport::SightseeingCoach, CoachSubmodesOfTransport::TouristCoach, CoachSubmodesOfTransport::CommuterCoach]
    }

    /// Every value the schema defines, in schema order.
    pub fn all() -> (values: Vec<Self>)
        ensures
            values@ == Self::spec_all(),
    {
        vec![CoachSubmodesOfTransport::Unknown, CoachSubmodesOfTransport::Undefined, CoachSubmodesOfTransport::InternationalCoach, CoachSubmodesOfTransport::NationalCoach, CoachSubmodesOfTransport::ShuttleCoach, CoachSubmodesOfTransport::RegionalCoach, CoachSubmodesOfTransport::SpecialCoach, CoachSubmodesOfTransport::SightseeingCoach, CoachSubmodesOfTransport::TouristCoach, CoachSubmodesOfTransport::CommuterCoach]
    }

    /// The token a value is written as on the wire.
    pub open spec fn spec_token(&self) -> Seq<char> {
        match self {
            CoachSubmodesOfTransport::Unknown => "unknown"@,
            CoachSubmodesOfTransport::Undefined => "undefined"@,
            CoachSubmodesOfTransport::InternationalCoach => "internationalCoach"@,
            CoachSubmodesOfTransport::NationalCoach => "nationalCoach"@,
            CoachSubmodesOfTransport::ShuttleCoach => "shuttleCoach"@,
            CoachSubmodesOfTransport::RegionalCoach => "regionalCoach"@,
            CoachSubmodesOfTransport::SpecialCoach => "specialCoach"@,
            CoachSubmodesOfTransport::SightseeingCoach => "sightseeingCoach"@,
            CoachSubmodesOfTransport::TouristCoach => "touristCoach"@,
            CoachSubmodesOfTransport::CommuterCoach => "commuterCoach"@,
            CoachSubmodesOfTransport::Unrecognised(token) => token@,
        }
    }

    /// The value the schema defines for a token, if it defines one.
    pub open spec fn spec_listed(token: Seq<char>) -> Option<CoachSubmodesOfTransport> {
        if token == "unknown"@ {
            Some(CoachSubmodesOfTransport::Unknown)
        } else if token == "undefined"@ {
            Some(CoachSubmodesOfTransport::Undefined)
        } else if token == "internationalCoach"@ {
            Some(CoachSubmodesOfTransport::InternationalCoach)
        } else if token == "nationalCoach"@ {
            Some(CoachSubmodesOfTransport::NationalCoach)
        } else if token == "shuttleCoach"@ {
            Some(CoachSubmodesOfTransport::ShuttleCoach)
        } else if token == "regionalCoach"@ {
            Some(CoachSubmodesOfTransport::RegionalCoach)
        } else if token == "specialCoach"@ {
            Some(CoachSubmodesOfTransport::SpecialCoach)
        } else if token == "sightseeingCoach"@ {
            Some(CoachSubmodesOfTransport::SightseeingCoach)
        } else if token == "touristCoach"@ {
            Some(CoachSubmodesOfTransport::TouristCoach)
        } else if token == "commuterCoach"@ {
            Some(CoachSubmodesOfTransport::CommuterCoach)
        } else {
            None
        }
    }

    /// The value a wire token denotes: the listed variant when the schema defines
    /// the token, `Unrecognised` holding the token otherwise.
    pub fn from_token(token: &str) -> (result: Self)
        ensures
            result.spec_token() == token@,
            match Self::spec_listed(token@) {
                Some(listed) => result == listed,
                None => result is Unrecognised,
            },
    {
        let owned: String = token.to_owned();
        if owned == "unknown".to_owned() {
            CoachSubmodesOfTransport::Unknown
        } else if owned == "undefined".to_owned() {
            CoachSubmodesOfTransport::Undefined
        } else if owned == "internationalCoach".to_owned() {
            CoachSubmodesOfTransport::InternationalCoach
        } else if owned == "nationalCoach".to_owned() {
            CoachSubmodesOfTransport::NationalCoach
        } else if owned == "shuttleCoach".to_owned() {
            CoachSubmodesOfTransport::ShuttleCoach
        } else if owned == "regionalCoach".to_owned() {
            CoachSubmodesOfTransport::RegionalCoach
        } else if owned == "specialCoach".to_owned() {
            CoachSubmodesOfTransport::SpecialCoach
        } else if owned == "sightseeingCoach".to_owned() {
            CoachSubmodesOfTransport::SightseeingCoach
        } else if owned == "touristCoach".to_owned() {
            CoachSubmodesOfTransport::TouristCoach
        } else if owned == "commuterCoach".to_owned() {
            CoachSubmodesOfTransport::CommuterCoach
        } else {
            CoachSubmodesOfTransport::Unrecognised(owned)
        }
    }

    /// The token this value is written as on the wire.
    pub fn as_str(&self) -> (token: &str)
        ensures
            token@ == self.spec_token(),
    {
        match self {
            CoachSubmodesOfTransport::Unknown => "unknown",
            CoachSubmodesOfTransport::Undefined => "undefined",
            CoachSubmodesOfTransport::InternationalCoach => "internationalCoach",
            CoachSubmodesOfTransport::NationalCoach => "nationalCoach",
            CoachSubmodesOfTransport::ShuttleCoach => "shuttleCoach",
            CoachSubmodesOfTransport::RegionalCoach => "regionalCoach",
            CoachSubmodesOfTransport::SpecialCoach => "specialCoach",
            CoachSubmodesOfTransport::SightseeingCoach => "sightseeingCoach",
            CoachSubmodesOfTransport::TouristCoach => "touristCoach",
            CoachSubmodesOfTransport::CommuterCoach => "commuterCoach",
            CoachSubmodesOfTransport::Unrecognised(token) => token.as_str(),
        }
    }
}

/// The `CommunicationsTransportMethodEnumeration` code list.
#[derive(Debug, Clone, PartialEq, Eq, PartialOrd, Ord, Hash)]
pub enum CommunicationsTransportMethod {
    /// `httpPost`
    HttpPost,
    /// `soap`
    Soap,
    /// `ftp`
    Ftp,
    /// `email`
    Email,
    /// A token this list does not define, kept as it was read.
    Unrecognised(String),
}

impl core::str::FromStr for CommunicationsTransportMethod {
    type Err = core::convert::Infallible;

    /// Every token is a value, so this never fails; see `from_token`.
    fn from_str(token: &str) -> (result: Result<Self, Self::Err>)
        ensures
            result matches Ok(value) && value.spec_token() == token@ && match Self::spec_listed(
                token@,
            ) {
                Some(listed) => value == listed,
                None => value is Unrecognised,
            },
    {
        Ok(Self::from_token(token))
    }
}

impl CommunicationsTransportMethod {
    /// Name of the XML Schema type this list transcribes.
    pub const XSD_TYPE: &'static str = "CommunicationsTransportMethodEnumeration";

    /// Every value the schema defines, in schema order.
    pub open spec fn spec_all() -> Seq<CommunicationsTransportMethod> {
        seq![CommunicationsTransportMethod::HttpPost, CommunicationsTransportMethod::Soap, CommunicationsTransportMethod::Ftp, CommunicationsTransportMethod::Email]
    }

    /// Every value the schema defines, in schema order.
    pub fn all() -> (values: Vec<Self>)
        ensures
            values@ == Self::spec_all(),
    {
        vec![CommunicationsTransportMethod::HttpPost, CommunicationsTransportMethod::Soap, CommunicationsTransportMethod::Ftp, CommunicationsTransportMethod::Email]
    }

    /// The token a value is written as on the wire.
    pub open spec fn spec_token(&self) -> Seq<char> {
        match self {
            CommunicationsTransportMethod::HttpPost => "httpPost"@,
            CommunicationsTransportMethod::Soap => "soap"@,
            CommunicationsTransportMethod::Ftp => "ftp"@,
            CommunicationsTransportMethod::Email => "email"@,
            CommunicationsTransportMethod::Unrecognised(token) => token@,
        }
    }

    /// The value the schema defines for a token, if it defines one.
    pub open spec fn spec_listed(token: Seq<char>) -> Option<CommunicationsTransportMethod> {
        if token == "httpPost"@ {
            Some(CommunicationsTransportMethod::HttpPost)
        } else if token == "soap"@ {
            Some(CommunicationsTransportMethod::Soap)
        } else if token == "ftp"@ {
            Some(CommunicationsTransportMethod::Ftp)
        } else if token == "email"@ {
            Some(CommunicationsTransportMethod::Email)
        } else {
            None
        }
    }

    /// The value a wire token denotes: the listed variant when the schema defines
    /// the token, `Unrecognised` holding the token otherwise.
    pub fn from_token(token: &str) -> (result: Self)
        ensures
            result.spec_token() == token@,
            match Self::spec_listed(token@) {
                Some(listed) => result == listed,
                None => result is Unrecognised,
            },
    {
        let owned: String = token.to_owned();
        if owned == "httpPost".to_owned() {
            CommunicationsTransportMethod::HttpPost
        } else if owned == "soap".to_owned() {
            CommunicationsTransportMethod::Soap
        } else if owned == "ftp".to_owned() {
            CommunicationsTransportMethod::Ftp
        } else if owned == "email".to_owned() {
            CommunicationsTransportMethod::Email
        } else {
            CommunicationsTransportMethod::Unrecognised(owned)
        }
    }

    /// The token this value is written as on the wire.
    pub fn as_str(&self) -> (token: &str)
        ensures
            token@ == self.spec_token(),
    {
        match self {
            CommunicationsTransportMethod::HttpPost => "httpPost",
            CommunicationsTransportMethod::Soap => "soap",
            CommunicationsTransportMethod::Ftp => "ftp",
            CommunicationsTransportMethod::Email => "email",
            CommunicationsTransportMethod::Unrecognised(token) => token.as_str(),
        }
    }
}

/// The `CompressionMethodEnumeration` code list.
#[derive(Debug, Clone, PartialEq, Eq, PartialOrd, Ord, Hash)]
pub enum CompressionMethod {
    /// `none`
    Uncompressed,
    /// `gzip`
    Gzip,
    /// A token this list does not define, kept as it was read.
    Unrecognised(String),
}

impl core::str::FromStr for CompressionMethod {
    type Err = core::convert::Infallible;

    /// Every token is a value, so this never fails; see `from_token`.
    fn from_str(token: &str) -> (result: Result<Self, Self::Err>)
        ensures
            result matches Ok(value) && value.spec_token() == token@ && match Self::spec_listed(
                token@,
            ) {
                Some(listed) => value == listed,
                None => value is Unrecognised,
            },
    {
        Ok(Self::from_token(token))
    }
}

impl CompressionMethod {
    /// Name of the XML Schema type this list transcribes.
    pub const XSD_TYPE: &'static str = "CompressionMethodEnumeration";

    /// Every value the schema defines, in schema order.
    pub open spec fn spec_all() -> Seq<CompressionMethod> {
        seq![CompressionMethod::Uncompressed, CompressionMethod::Gzip]
    }

    /// Every value the schema defines, in schema order.
    pub fn all() -> (values: Vec<Self>)
        ensures
            values@ == Self::spec_all(),
    {
        vec![CompressionMethod::Uncompressed, CompressionMethod::Gzip]
    }

    /// The token a value is written as on the wire.
    pub open spec fn spec_token(&self) -> Seq<char> {
        match self {
            CompressionMethod::Uncompressed => "none"@,
            CompressionMethod::Gzip => "gzip"@,
            CompressionMethod::Unrecognised(token) => token@,
        }
    }

    /// The value the schema defines for a token, if it defines one.
    pub open spec fn spec_listed(token: Seq<char>) -> Option<CompressionMethod> {
        if token == "none"@ {
            Some(CompressionMethod::Uncompressed)
        } else if token == "gzip"@ {
            Some(CompressionMethod::Gzip)
        } else {
            None
        }
    }

    /// The value a wire token denotes: the listed variant when the schema defines
    /// the token, `Unrecognised` holding the token otherwise.
    pub fn from_token(token: &str) -> (result: Self)
        ensures
            result.spec_token() == token@,
            match Self::spec_listed(token@) {
                Some(listed) => result == listed,
                None => result is Unrecognised,
            },
    {
        let owned: String = token.to_owned();
        if owned == "none".to_owned() {
            CompressionMethod::Uncompressed
        } else if owned == "gzip".to_owned() {
            CompressionMethod::Gzip
        } else {
            CompressionMethod::Unrecognised(owned)
        }
    }

    /// The token this value is written as on the wire.
    pub fn as_str(&self) -> (token: &str)
        ensures
            token@ == self.spec_token(),
    {
        match self {
            CompressionMethod::Uncompressed => "none",
            CompressionMethod::Gzip => "gzip",
            CompressionMethod::Unrecognised(token) => token.as_str(),
        }
    }
}

/// The `CountedFeatureUnitEnumeration` code list.
#[derive(Debug, Clone, PartialEq, Eq, PartialOrd, Ord, Hash)]
pub enum CountedFeatureUnit {
    /// `bays`
    Bays,
    /// `seats`
    Seats,
    /// `devices`
    Devices,
    /// `vehicles`
    Vehicles,
    /// `kW`
    KW,
    /// `kWh`
    KWh,
    /// `percentage`
    Percentage,
    /// `other`
    Other,
    /// A token this list does not define, kept as it was read.
    Unrecognised(String),
}

impl core::str::FromStr for CountedFeatureUnit {
    type Err = core::convert::Infallible;

    /// Every token is a value, so this never fails; see `from_token`.
    fn from_str(token: &str) -> (result: Result<Self, Self::Err>)
        ensures
            result matches Ok(value) && value.spec_token() == token@ && match Self::spec_listed(
                token@,
            ) {
                Some(listed) => value == listed,
                None => value is Unrecognised,
            },
    {
        Ok(Self::from_token(token))
    }
}

impl CountedFeatureUnit {
    /// Name of the XML Schema type this list transcribes.
    pub const XSD_TYPE: &'static str = "CountedFeatureUnitEnumeration";

    /// Every value the schema defines, in schema order.
    pub open spec fn spec_all() -> Seq<CountedFeatureUnit> {
        seq![CountedFeatureUnit::Bays, CountedFeatureUnit::Seats, CountedFeatureUnit::Devices, CountedFeatureUnit::Vehicles, CountedFeatureUnit::KW, CountedFeatureUnit::KWh, CountedFeatureUnit::Percentage, CountedFeatureUnit::Other]
    }

    /// Every value the schema defines, in schema order.
    pub fn all() -> (values: Vec<Self>)
        ensures
            values@ == Self::spec_all(),
    {
        vec![CountedFeatureUnit::Bays, CountedFeatureUnit::Seats, CountedFeatureUnit::Devices, CountedFeatureUnit::Vehicles, CountedFeatureUnit::KW, CountedFeatureUnit::KWh, CountedFeatureUnit::Percentage, CountedFeatureUnit::Other]
    }

    /// The token a value is written as on the wire.
    pub open spec fn spec_token(&self) -> Seq<char> {
        match self {
            CountedFeatureUnit::Bays => "bays"@,
            CountedFeatureUnit::Seats => "seats"@,
            CountedFeatureUnit::Devices => "devices"@,
            CountedFeatureUnit::Vehicles => "vehicles"@,
            CountedFeatureUnit::KW => "kW"@,
            CountedFeatureUnit::KWh => "kWh"@,
            CountedFeatureUnit::Percentage => "percentage"@,
            CountedFeatureUnit::Other => "other"@,
            CountedFeatureUnit::Unrecognised(token) => token@,
        }
    }

    /// The value the schema defines for a token, if it defines one.
    pub open spec fn spec_listed(token: Seq<char>) -> Option<CountedFeatureUnit> {
        if token == "bays"@ {
            Some(CountedFeatureUnit::Bays)
        } else if token == "seats"@ {
            Some(CountedFeatureUnit::Seats)
        } else if token == "devices"@ {
            Some(CountedFeatureUnit::Devices)
        } else if token == "vehicles"@ {
            Some(CountedFeatureUnit::Vehicles)
        } else if token == "kW"@ {
            Some(CountedFeatureUnit::KW)
        } else if token == "kWh"@ {
            Some(CountedFeatureUnit::KWh)
        } else if token == "percentage"@ {
            Some(CountedFeatureUnit::Percentage)
        } else if token == "other"@ {
            Some(CountedFeatureUnit::Other)
        } else {
            None
        }
    }

    /// The value a wire token denotes: the listed variant when the schema defines
    /// the token, `Unrecognised` holding the token otherwise.
    pub fn from_token(token: &str) -> (result: Self)
        ensures
            result.spec_token() == token@,
            match Self::spec_listed(token@) {
                Some(listed) => result == listed,
                None => result is Unrecognised,
            },
    {
        let owned: String = token.to_owned();
        if owned == "bays".to_owned() {
            CountedFeatureUnit::Bays
        } else if owned == "seats".to_owned() {
            CountedFeatureUnit::Seats
        } else if owned == "devices".to_owned() {
            CountedFeatureUnit::Devices
        } else if owned == "vehicles".to_owned() {
            CountedFeatureUnit::Vehicles
        } else if owned == "kW".to_owned() {
            CountedFeatureUnit::KW
        } else if owned == "kWh".to_owned() {
            CountedFeatureUnit::KWh
        } else if owned == "percentage".to_owned() {
            CountedFeatureUnit::Percentage
        } else if owned == "other".to_owned() {
            CountedFeatureUnit::Other
        } else {
            CountedFeatureUnit::Unrecognised(owned)
        }
    }

    /// The token this value is written as on the wire.
    pub fn as_str(&self) -> (token: &str)
        ensures
            token@ == self.spec_token(),
    {
        match self {
            CountedFeatureUnit::Bays => "bays",
            CountedFeatureUnit::Seats => "seats",
            CountedFeatureUnit::Devices => "devices",
            CountedFeatureUnit::Vehicles => "vehicles",
            CountedFeatureUnit::KW => "kW",
            CountedFeatureUnit::KWh => "kWh",
            CountedFeatureUnit::Percentage => "percentage",
            CountedFeatureUnit::Other => "other",
            CountedFeatureUnit::Unrecognised(token) => token.as_str(),
        }
    }
}

/// The `CountingTrendEnumeration` code list.
#[derive(Debug, Clone, PartialEq, Eq, PartialOrd, Ord, Hash)]
pub enum CountingTrend {
    /// `unknown`
    Unknown,
    /// `decreasing`
    Decreasing,
    /// `stable`
    Stable,
    /// `increasing`
    Increasing,
    /// A token this list does not define, kept as it was read.
    Unrecognised(String),
}

impl core::str::FromStr for CountingTrend {
    type Err = core::convert::Infallible;

    /// Every token is a value, so this never fails; see `from_token`.
    fn from_str(token: &str) -> (result: Result<Self, Self::Err>)
        ensures
            result matches Ok(value) && value.spec_token() == token@ && match Self::spec_listed(
                token@,
            ) {
                Some(listed) => value == listed,
                None => value is Unrecognised,
            },
    {
        Ok(Self::from_token(token))
    }
}

impl CountingTrend {
    /// Name of the XML Schema type this list transcribes.
    pub const XSD_TYPE: &'static str = "CountingTrendEnumeration";

    /// Every value the schema defines, in schema order.
    pub open spec fn spec_all() -> Seq<CountingTrend> {
        seq![CountingTrend::Unknown, CountingTrend::Decreasing, CountingTrend::Stable, CountingTrend::Increasing]
    }

    /// Every value the schema defines, in schema order.
    pub fn all() -> (values: Vec<Self>)
        ensures
            values@ == Self::spec_all(),
    {
        vec![CountingTrend::Unknown, CountingTrend::Decreasing, CountingTrend::Stable, CountingTrend::Increasing]
    }

    /// The token a value is written as on the wire.
    pub open spec fn spec_token(&self) -> Seq<char> {
        match self {
            CountingTrend::Unknown => "unknown"@,
            CountingTrend::Decreasing => "decreasing"@,
            CountingTrend::Stable => "stable"@,
            CountingTrend::Increasing => "increasing"@,
            CountingTrend::Unrecognised(token) => token@,
        }
    }

    /// The value the schema defines for a token, if it defines one.
    pub open spec fn spec_listed(token: Seq<char>) -> Option<CountingTrend> {
        if token == "unknown"@ {
            Some(CountingTrend::Unknown)
        } else if token == "decreasing"@ {
            Some(CountingTrend::Decreasing)
        } else if token == "stable"@ {
            Some(CountingTrend::Stable)
        } else if token == "increasing"@ {
            Some(CountingTrend::Increasing)
        } else {
            None
        }
    }

    /// The value a wire token denotes: the listed variant when the schema defines
    /// the token, `Unrecognised` holding the token otherwise.
    pub fn from_token(token: &str) -> (result: Self)
        ensures
            result.spec_token() == token@,
            match Self::spec_listed(token@) {
                Some(listed) => result == listed,
                None => result is Unrecognised,
            },
    {
        let owned: String = token.to_owned();
        if owned == "unknown".to_owned() {
            CountingTrend::Unknown
        } else if owned == "decreasing".to_owned() {
            CountingTrend::Decreasing
        } else if owned == "stable".to_owned() {
            CountingTrend::Stable
        } else if owned == "increasing".to_owned() {
            CountingTrend::Increasing
        } else {
            CountingTrend::Unrecognised(owned)
        }
    }

    /// The token this value is written as on the wire.
    pub fn as_str(&self) -> (token: &str)
        ensures
            token@ == self.spec_token(),
    {
        match self {
            CountingTrend::Unknown => "unknown",
            CountingTrend::Decreasing => "decreasing",
            CountingTrend::Stable => "stable",
            CountingTrend::Increasing => "increasing",
            CountingTrend::Unrecognised(token) => token.as_str(),
        }
    }
}

/// The `CountingTypeEnumeration` code list.
#[derive(Debug, Clone, PartialEq, Eq, PartialOrd, Ord, Hash)]
pub enum CountingType {
    /// `availabilityCount`
    AvailabilityCount,
    /// `reservedCount`
    ReservedCount,
    /// `outOfOrderCount`
    OutOfOrderCount,
    /// `presentCount`
    PresentCount,
    /// `chargingLevel`
    ChargingLevel,
    /// A token this list does not define, kept as it was read.
    Unrecognised(String),
}

impl core::str::FromStr for CountingType {
    type Err = core::convert::Infallible;

    /// Every token is a value, so this never fails; see `from_token`.
    fn from_str(token: &str) -> (result: Result<Self, Self::Err>)
        ensures
            result matches Ok(value) && value.spec_token() == token@ && match Self::spec_listed(
                token@,
            ) {
                Some(listed) => value == listed,
                None => value is Unrecognised,
            },
    {
        Ok(Self::from_token(token))
    }
}

impl CountingType {
    /// Name of the XML Schema type this list transcribes.
    pub const XSD_TYPE: &'static str = "CountingTypeEnumeration";

    /// Every value the schema defines, in schema order.
    pub open spec fn spec_all() -> Seq<CountingType> {
        seq![CountingType::AvailabilityCount, CountingType::ReservedCount, CountingType::OutOfOrderCount, CountingType::PresentCount, CountingType::ChargingLevel]
    }

    /// Every value the schema defines, in schema order.
    pub fn all() -> (values: Vec<Self>)
        ensures
            values@ == Self::spec_all(),
    {
        vec![CountingType::AvailabilityCount, CountingType::ReservedCount, CountingType::OutOfOrderCount, CountingType::PresentCount, CountingType::ChargingLevel]
    }

    /// The token a value is written as on the wire.
    pub open spec fn spec_token(&self) -> Seq<char> {
        match self {
            CountingType::AvailabilityCount => "availabilityCount"@,
            CountingType::ReservedCount => "reservedCount"@,
            CountingType::OutOfOrderCount => "outOfOrderCount"@,
            CountingType::PresentCount => "presentCount"@,
            CountingType::ChargingLevel => "chargingLevel"@,
            CountingType::Unrecognised(token) => token@,
        }
    }

    /// The value the schema defines for a token, if it defines one.
    pub open spec fn spec_listed(token: Seq<char>) -> Option<CountingType> {
        if token == "availabilityCount"@ {
            Some(CountingType::AvailabilityCount)
        } else if token == "reservedCount"@ {
            Some(CountingType::ReservedCount)
        } else if token == "outOfOrderCount"@ {
            Some(CountingType::OutOfOrderCount)
        } else if token == "presentCount"@ {
            Some(CountingType::PresentCount)
        } else if token == "chargingLevel"@ {
            Some(CountingType::ChargingLevel)
        } else {
            None
        }
    }

    /// The value a wire token denotes: the listed variant when the schema defines
    /// the token, `Unrecognised` holding the token otherwise.
    pub fn from_token(token: &str) -> (result: Self)
        ensures
            result.spec_token() == token@,
            match Self::spec_listed(token@) {
                Some(listed) => result == listed,
                None => result is Unrecognised,
            },
    {
        let owned: String = token.to_owned();
        if owned == "availabilityCount".to_owned() {
            CountingType::AvailabilityCount
        } else if owned == "reservedCount".to_owned() {
            CountingType::ReservedCount
        } else if owned == "outOfOrderCount".to_owned() {
            CountingType::OutOfOrderCount
        } else if owned == "presentCount".to_owned() {
            CountingType::PresentCount
        } else if owned == "chargingLevel".to_owned() {
            CountingType::ChargingLevel
        } else {
            CountingType::Unrecognised(owned)
        }
    }

    /// The token this value is written as on the wire.
    pub fn as_str(&self) -> (token: &str)
        ensures
            token@ == self.spec_token(),
    {
        match self {
            CountingType::AvailabilityCount => "availabilityCount",
            CountingType::ReservedCount => "reservedCount",
            CountingType::OutOfOrderCount => "outOfOrderCount",
            CountingType::PresentCount => "presentCount",
            CountingType::ChargingLevel => "chargingLevel",
            CountingType::Unrecognised(token) => token.as_str(),
        }
    }
}

/// The `DaysOfWeekEnumeration` code list.
#[derive(Debug, Clone, PartialEq, Eq, PartialOrd, Ord, Hash)]
pub enum DaysOfWeek {
    /// `monday`
    Monday,
    /// `tuesday`
    Tuesday,
    /// `wednesday`
    Wednesday,
    /// `thursday`
    Thursday,
    /// `friday`
    Friday,
    /// `saturday`
    Saturday,
    /// `sunday`
    Sunday,
    /// `everyday`
    Everyday,
    /// `weekdays`
    Weekdays,
    /// `weekend`
    Weekend,
    /// A token this list does not define, kept as it was read.
    Unrecognised(String),
}

impl core::str::FromStr for DaysOfWeek {
    type Err = core::convert::Infallible;

    /// Every token is a value, so this never fails; see `from_token`.
    fn from_str(token: &str) -> (result: Result<Self, Self::Err>)
        ensures
            result matches Ok(value) && value.spec_token() == token@ && match Self::spec_listed(
                token@,
            ) {
                Some(listed) => value == listed,
                None => value is Unrecognised,
            },
    {
        Ok(Self::from_token(token))
    }
}

impl DaysOfWeek {
    /// Name of the XML Schema type this list transcribes.
    pub const XSD_TYPE: &'static str = "DaysOfWeekEnumeration";

    /// Every value the schema defines, in schema order.
    pub open spec fn spec_all() -> Seq<DaysOfWeek> {
        seq![DaysOfWeek::Monday, DaysOfWeek::Tuesday, DaysOfWeek::Wednesday, DaysOfWeek::Thursday, DaysOfWeek::Friday, DaysOfWeek::Saturday, DaysOfWeek::Sunday, DaysOfWeek::Everyday, DaysOfWeek::Weekdays, DaysOfWeek::Weekend]
    }

    /// Every value the schema defines, in schema order.
    pub fn all() -> (values: Vec<Self>)
        ensures
            values@ == Self::spec_all(),
    {
        vec![DaysOfWeek::Monday, DaysOfWeek::Tuesday, DaysOfWeek::Wednesday, DaysOfWeek::Thursday, DaysOfWeek::Friday, DaysOfWeek::Saturday, DaysOfWeek::Sunday, DaysOfWeek::Everyday, DaysOfWeek::Weekdays, DaysOfWeek::Weekend]
    }

    /// The token a value is written as on the wire.
    pub open spec fn spec_token(&self) -> Seq<char> {
        match self {
            DaysOfWeek::Monday => "monday"@,
            DaysOfWeek::Tuesday => "tuesday"@,
            DaysOfWeek::Wednesday => "wednesday"@,
            DaysOfWeek::Thursday => "thursday"@,
            DaysOfWeek::Friday => "friday"@,
            DaysOfWeek::Saturday => "saturday"@,
            DaysOfWeek::Sunday => "sunday"@,
            DaysOfWeek::Everyday => "everyday"@,
            DaysOfWeek::Weekdays => "weekdays"@,
            DaysOfWeek::Weekend => "weekend"@,
            DaysOfWeek::Unrecognised(token) => token@,
        }
    }

    /// The value the schema defines for a token, if it defines one.
    pub open spec fn spec_listed(token: Seq<char>) -> Option<DaysOfWeek> {
        if token == "monday"@ {
            Some(DaysOfWeek::Monday)
        } else if token == "tuesday"@ {
            Some(DaysOfWeek::Tuesday)
        } else if token == "wednesday"@ {
            Some(DaysOfWeek::Wednesday)
        } else if token == "thursday"@ {
            Some(DaysOfWeek::Thursday)
        } else if token == "friday"@ {
            Some(DaysOfWeek::Friday)
        } else if token == "saturday"@ {
            Some(DaysOfWeek::Saturday)
        } else if token == "sunday"@ {
            Some(DaysOfWeek::Sunday)
        } else if token == "everyday"@ {
            Some(DaysOfWeek::Everyday)
        } else if token == "weekdays"@ {
            Some(DaysOfWeek::Weekdays)
        } else if token == "weekend"@ {
            Some(DaysOfWeek::Weekend)
        } else {
            None
        }
    }

    /// The value a wire token denotes: the listed variant when the schema defines
    /// the token, `Unrecognised` holding the token otherwise.
    pub fn from_token(token: &str) -> (result: Self)
        ensures
            result.spec_token() == token@,
            match Self::spec_listed(token@) {
                Some(listed) => result == listed,
                None => result is Unrecognised,
            },
    {
        let owned: String = token.to_owned();
        if owned == "monday".to_owned() {
            DaysOfWeek::Monday
        } else if owned == "tuesday".to_owned() {
            DaysOfWeek::Tuesday
        } else if owned == "wednesday".to_owned() {
            DaysOfWeek::Wednesday
        } else if owned == "thursday".to_owned() {
            DaysOfWeek::Thursday
        } else if owned == "friday".to_owned() {
            DaysOfWeek::Friday
        } else if owned == "saturday".to_owned() {
            DaysOfWeek::Saturday
        } else if owned == "sunday".to_owned() {
            DaysOfWeek::Sunday
        } else if owned == "everyday".to_owned() {
            DaysOfWeek::Everyday
        } else if owned == "weekdays".to_owned() {
            DaysOfWeek::Weekdays
        } else if owned == "weekend".to_owned() {
            DaysOfWeek::Weekend
        } else {
            DaysOfWeek::Unrecognised(owned)
        }
    }

    /// The token this value is written as on the wire.
    pub fn as_str(&self) -> (token: &str)
        ensures
            token@ == self.spec_token(),
    {
        match self {
            DaysOfWeek::Monday => "monday",
            DaysOfWeek::Tuesday => "tuesday",
            DaysOfWeek::Wednesday => "wednesday",
            DaysOfWeek::Thursday => "thursday",
            DaysOfWeek::Friday => "friday",
            DaysOfWeek::Saturday => "saturday",
            DaysOfWeek::Sunday => "sunday",
            DaysOfWeek::Everyday => "everyday",
            DaysOfWeek::Weekdays => "weekdays",
            DaysOfWeek::Weekend => "weekend",
            DaysOfWeek::Unrecognised(token) => token.as_str(),
        }
    }
}

/// The `DeliveryMethodEnumeration` code list.
#[derive(Debug, Clone, PartialEq, Eq, PartialOrd, Ord, Hash)]
pub enum DeliveryMethod {
    /// `direct`
    Direct,
    /// `fetched`
    Fetched,
    /// A token this list does not define, kept as it was read.
    Unrecognised(String),
}

impl core::str::FromStr for DeliveryMethod {
    type Err = core::convert::Infallible;

    /// Every token is a value, so this never fails; see `from_token`.
    fn from_str(token: &str) -> (result: Result<Self, Self::Err>)
        ensures
            result matches Ok(value) && value.spec_token() == token@ && match Self::spec_listed(
                token@,
            ) {
                Some(listed) => value == listed,
                None => value is Unrecognised,
            },
    {
        Ok(Self::from_token(token))
    }
}

impl DeliveryMethod {
    /// Name of the XML Schema type this list transcribes.
    pub const XSD_TYPE: &'static str = "DeliveryMethodEnumeration";

    /// Every value the schema defines, in schema order.
    pub open spec fn spec_all() -> Seq<DeliveryMethod> {
        seq![DeliveryMethod::Direct, DeliveryMethod::Fetched]
    }

    /// Every value the schema defines, in schema order.
    pub fn all() -> (values: Vec<Self>)
        ensures
            values@ == Self::spec_all(),
    {
        vec![DeliveryMethod::Direct, DeliveryMethod::Fetched]
    }

    /// The token a value is written as on the wire.
    pub open spec fn spec_token(&self) -> Seq<char> {
        match self {
            DeliveryMethod::Direct => "direct"@,
            DeliveryMethod::Fetched => "fetched"@,
            DeliveryMethod::Unrecognised(token) => token@,
        }
    }

    /// The value the schema defines for a token, if it defines one.
    pub open spec fn spec_listed(token: Seq<char>) -> Option<DeliveryMethod> {
        if token == "direct"@ {
            Some(DeliveryMethod::Direct)
        } else if token == "fetched"@ {
            Some(DeliveryMethod::Fetched)
        } else {
            None
        }
    }

    /// The value a wire token denotes: the listed variant when the schema defines
    /// the token, `Unrecognised` holding the token otherwise.
    pub fn from_token(token: &str) -> (result: Self)
        ensures
            result.spec_token() == token@,
            match Self::spec_listed(token@) {
                Some(listed) => result == listed,
                None => result is Unrecognised,
            },
    {
        let owned: String = token.to_owned();
        if owned == "direct".to_owned() {
            DeliveryMethod::Direct
        } else if owned == "fetched".to_owned() {
            DeliveryMethod::Fetched
        } else {
            DeliveryMethod::Unrecognised(owned)
        }
    }

    /// The token this value is written as on the wire.
    pub fn as_str(&self) -> (token: &str)
        ensures
            token@ == self.spec_token(),
    {
        match self {
            DeliveryMethod::Direct => "direct",
            DeliveryMethod::Fetched => "fetched",
            DeliveryMethod::Unrecognised(token) => token.as_str(),
        }
    }
}

/// The `DepartureBoardingActivityEnumeration` code list.
#[derive(Debug, Clone, PartialEq, Eq, PartialOrd, Ord, Hash)]
pub enum DepartureBoardingActivity {
    /// `boarding`
    Boarding,
    /// `noBoarding`
    NoBoarding,
    /// `passThru`
    PassThru,
    /// A token this list does not define, kept as it was read.
    Unrecognised(String),
}

impl core::str::FromStr for DepartureBoardingActivity {
    type Err = core::convert::Infallible;

    /// Every token is a value, so this never fails; see `from_token`.
    fn from_str(token: &str) -> (result: Result<Self, Self::Err>)
        ensures
            result matches Ok(value) && value.spec_token() == token@ && match Self::spec_listed(
                token@,
            ) {
                Some(listed) => value == listed,
                None => value is Unrecognised,
            },
    {
        Ok(Self::from_token(token))
    }
}

impl DepartureBoardingActivity {
    /// Name of the XML Schema type this list transcribes.
    pub const XSD_TYPE: &'static str = "DepartureBoardingActivityEnumeration";

    /// Every value the schema defines, in schema order.
    pub open spec fn spec_all() -> Seq<DepartureBoardingActivity> {
        seq![DepartureBoardingActivity::Boarding, DepartureBoardingActivity::NoBoarding, DepartureBoardingActivity::PassThru]
    }

    /// Every value the schema defines, in schema order.
    pub fn all() -> (values: Vec<Self>)
        ensures
            values@ == Self::spec_all(),
    {
        vec![DepartureBoardingActivity::Boarding, DepartureBoardingActivity::NoBoarding, DepartureBoardingActivity::PassThru]
    }

    /// The token a value is written as on the wire.
    pub open spec fn spec_token(&self) -> Seq<char> {
        match self {
            DepartureBoardingActivity::Boarding => "boarding"@,
            DepartureBoardingActivity::NoBoarding => "noBoarding"@,
            DepartureBoardingActivity::PassThru => "passThru"@,
            DepartureBoardingActivity::Unrecognised(token) => token@,
        }
    }

    /// The value the schema defines for a token, if it defines one.
    pub open spec fn spec_listed(token: Seq<char>) -> Option<DepartureBoardingActivity> {
        if token == "boarding"@ {
            Some(DepartureBoardingActivity::Boarding)
        } else if token == "noBoarding"@ {
            Some(DepartureBoardingActivity::NoBoarding)
        } else if token == "passThru"@ {
            Some(DepartureBoardingActivity::PassThru)
        } else {
            None
        }
    }

    /// The value a wire token denotes: the listed variant when the schema defines
    /// the token, `Unrecognised` holding the token otherwise.
    pub fn from_token(token: &str) -> (result: Self)
        ensures
            result.spec_token() == token@,
            match Self::spec_listed(token@) {
                Some(listed) => result == listed,
                None => result is Unrecognised,
            },
    {
        let owned: String = token.to_owned();
        if owned == "boarding".to_owned() {
            DepartureBoardingActivity::Boarding
        } else if owned == "noBoarding".to_owned() {
            DepartureBoardingActivity::NoBoarding
        } else if owned == "passThru".to_owned() {
            DepartureBoardingActivity::PassThru
        } else {
            DepartureBoardingActivity::Unrecognised(owned)
        }
    }

    /// The token this value is written as on the wire.
    pub fn as_str(&self) -> (token: &str)
        ensures
            token@ == self.spec_token(),
    {
        match self {
            DepartureBoardingActivity::Boarding => "boarding",
            DepartureBoardingActivity::NoBoarding => "noBoarding",
            DepartureBoardingActivity::PassThru => "passThru",
            DepartureBoardingActivity::Unrecognised(token) => token.as_str(),
        }
    }
}

/// The `EncumbranceEnumeration` code list.
#[derive(Debug, Clone, PartialEq, Eq, PartialOrd, Ord, Hash)]
pub enum Encumbrance {
    /// `luggageEncumbered`
    LuggageEncumbered,
    /// `pushchair`
    Pushchair,
    /// `baggageTrolley`
    BaggageTrolley,
    /// `oversizeBaggage`
    OversizeBaggage,
    /// `guideDog`
    GuideDog,
    /// `otherAnimal`
    OtherAnimal,
    /// `otherEncumbrance`
    OtherEncumbrance,
    /// A token this list does not define, kept as it was read.
    Unrecognised(String),
}

impl core::str::FromStr for Encumbrance {
    type Err = core::convert::Infallible;

    /// Every token is a value, so this never fails; see `from_token`.
    fn from_str(token: &str) -> (result: Result<Self, Self::Err>)
        ensures
            result matches Ok(value) && value.spec_token() == token@ && match Self::spec_listed(
                token@,
            ) {
                Some(listed) => value == listed,
                None => value is Unrecognised,
            },
    {
        Ok(Self::from_token(token))
    }
}

impl Encumbrance {
    /// Name of the XML Schema type this list transcribes.
    pub const XSD_TYPE: &'static str = "EncumbranceEnumeration";

    /// Every value the schema defines, in schema order.
    pub open spec fn spec_all() -> Seq<Encumbrance> {
        seq![Encumbrance::LuggageEncumbered, Encumbrance::Pushchair, Encumbrance::BaggageTrolley, Encumbrance::OversizeBaggage, Encumbrance::GuideDog, Encumbrance::OtherAnimal, Encumbrance::OtherEncumbrance]
    }

    /// Every value the schema defines, in schema order.
    pub fn all() -> (values: Vec<Self>)
        ensures
            values@ == Self::spec_all(),
    {
        vec![Encumbrance::LuggageEncumbered, Encumbrance::Pushchair, Encumbrance::BaggageTrolley, Encumbrance::OversizeBaggage, Encumbrance::GuideDog, Encumbrance::OtherAnimal, Encumbrance::OtherEncumbrance]
    }

    /// The token a value is written as on the wire.
    pub open spec fn spec_token(&self) -> Seq<char> {
        match self {
            Encumbrance::LuggageEncumbered => "luggageEncumbered"@,
            Encumbrance::Pushchair => "pushchair"@,
            Encumbrance::BaggageTrolley => "baggageTrolley"@,
            Encumbrance::OversizeBaggage => "oversizeBaggage"@,
            Encumbrance::GuideDog => "guideDog"@,
            Encumbrance::OtherAnimal => "otherAnimal"@,
            Encumbrance::OtherEncumbrance => "otherEncumbrance"@,
            Encumbrance::Unrecognised(token) => token@,
        }
    }

    /// The value the schema defines for a token, if it defines one.
    pub open spec fn spec_listed(token: Seq<char>) -> Option<Encumbrance> {
        if token == "luggageEncumbered"@ {
            Some(Encumbrance::LuggageEncumbered)
        } else if token == "pushchair"@ {
            Some(Encumbrance::Pushchair)
        } else if token == "baggageTrolley"@ {
            Some(Encumbrance::BaggageTrolley)
        } else if token == "oversizeBaggage"@ {
            Some(Encumbrance::OversizeBaggage)
        } else if token == "guideDog"@ {
            Some(Encumbrance::GuideDog)
        } else if token == "otherAnimal"@ {
            Some(Encumbrance::OtherAnimal)
        } else if token == "otherEncumbrance"@ {
            Some(Encumbrance::OtherEncumbrance)
        } else {
            None
        }
    }

    /// The value a wire token denotes: the listed variant when the schema defines
    /// the token, `Unrecognised` holding the token otherwise.
    pub fn from_token(token: &str) -> (result: Self)
        ensures
            result.spec_token() == token@,
            match Self::spec_listed(token@) {
                Some(listed) => result == listed,
                None => result is Unrecognised,
            },
    {
        let owned: String = token.to_owned();
        if owned == "luggageEncumbered".to_owned() {
            Encumbrance::LuggageEncumbered
        } else if owned == "pushchair".to_owned() {
            Encumbrance::Pushchair
        } else if owned == "baggageTrolley".to_owned() {
            Encumbrance::BaggageTrolley
        } else if owned == "oversizeBaggage".to_owned() {
            Encumbrance::OversizeBaggage
        } else if owned == "guideDog".to_owned() {
            Encumbrance::GuideDog
        } else if owned == "otherAnimal".to_owned() {
            Encumbrance::OtherAnimal
        } else if owned == "otherEncumbrance".to_owned() {
            Encumbrance::OtherEncumbrance
        } else {
            Encumbrance::Unrecognised(owned)
        }
    }

    /// The token this value is written as on the wire.
    pub fn as_str(&self) -> (token: &str)
        ensures
            token@ == self.spec_token(),
    {
        match self {
            Encumbrance::LuggageEncumbered => "luggageEncumbered",
            Encumbrance::Pushchair => "pushchair",
            Encumbrance::BaggageTrolley => "baggageTrolley",
            Encumbrance::OversizeBaggage => "oversizeBaggage",
            Encumbrance::GuideDog => "guideDog",
            Encumbrance::OtherAnimal => "otherAnimal",
            Encumbrance::OtherEncumbrance => "otherEncumbrance",
            Encumbrance::Unrecognised(token) => token.as_str(),
        }
    }
}

/// The `EquipmentStatusEnumeration` code list.
#[derive(Debug, Clone, PartialEq, Eq, PartialOrd, Ord, Hash)]
pub enum EquipmentStatus {
    /// `unknown`
    Unknown,
    /// `available`
    Available,
    /// `notAvailable`
    NotAvailable,
    /// A token this list does not define, kept as it was read.
    Unrecognised(String),
}

impl core::str::FromStr for EquipmentStatus {
    type Err = core::convert::Infallible;

    /// Every token is a value, so this never fails; see `from_token`.
    fn from_str(token: &str) -> (result: Result<Self, Self::Err>)
        ensures
            result matches Ok(value) && value.spec_token() == token@ && match Self::spec_listed(
                token@,
            ) {
                Some(listed) => value == listed,
                None => value is Unrecognised,
            },
    {
        Ok(Self::from_token(token))
    }
}

impl EquipmentStatus {
    /// Name of the XML Schema type this list transcribes.
    pub const XSD_TYPE: &'static str = "EquipmentStatusEnumeration";

    /// Every value the schema defines, in schema order.
    pub open spec fn spec_all() -> Seq<EquipmentStatus> {
        seq![EquipmentStatus::Unknown, EquipmentStatus::Available, EquipmentStatus::NotAvailable]
    }

    /// Every value the schema defines, in schema order.
    pub fn all() -> (values: Vec<Self>)
        ensures
            values@ == Self::spec_all(),
    {
        vec![EquipmentStatus::Unknown, EquipmentStatus::Available, EquipmentStatus::NotAvailable]
    }

    /// The token a value is written as on the wire.
    pub open spec fn spec_token(&self) -> Seq<char> {
        match self {
            EquipmentStatus::Unknown => "unknown"@,
            EquipmentStatus::Available => "available"@,
            EquipmentStatus::NotAvailable => "notAvailable"@,
            EquipmentStatus::Unrecognised(token) => token@,
        }
    }

    /// The value the schema defines for a token, if it defines one.
    pub open spec fn spec_listed(token: Seq<char>) -> Option<EquipmentStatus> {
        if token == "unknown"@ {
            Some(EquipmentStatus::Unknown)
        } else if token == "available"@ {
            Some(EquipmentStatus::Available)
        } else if token == "notAvailable"@ {
            Some(EquipmentStatus::NotAvailable)
        } else {
            None
        }
    }

    /// The value a wire token denotes: the listed variant when the schema defines
    /// the token, `Unrecognised` holding the token otherwise.
    pub fn from_token(token: &str) -> (result: Self)
        ensures
            result.spec_token() == token@,
            match Self::spec_listed(token@) {
                Some(listed) => result == listed,
                None => result is Unrecognised,
            },
    {
        let owned: String = token.to_owned();
        if owned == "unknown".to_owned() {
            EquipmentStatus::Unknown
        } else if owned == "available".to_owned() {
            EquipmentStatus::Available
        } else if owned == "notAvailable".to_owned() {
            EquipmentStatus::NotAvailable
        } else {
            EquipmentStatus::Unrecognised(owned)
        }
    }

    /// The token this value is written as on the wire.
    pub fn as_str(&self) -> (token: &str)
        ensures
            token@ == self.spec_token(),
    {
        match self {
            EquipmentStatus::Unknown => "unknown",
            EquipmentStatus::Available => "available",
            EquipmentStatus::NotAvailable => "notAvailable",
            EquipmentStatus::Unrecognised(token) => token.as_str(),
        }
    }
}

/// The `FacilityCategoryEnumeration` code list.
#[derive(Debug, Clone, PartialEq, Eq, PartialOrd, Ord, Hash)]
pub enum FacilityCategory {
    /// `unknown`
    Unknown,
    /// `fixedEquipment`
    FixedEquipment,
    /// `serviceProvidedByIndividual`
    ServiceProvidedByIndividual,
    /// `serviceForPersonalAssistance`
    ServiceForPersonalAssistance,
    /// A token this list does not define, kept as it was read.
    Unrecognised(String),
}

impl core::str::FromStr for FacilityCategory {
    type Err = core::convert::Infallible;

    /// Every token is a value, so this never fails; see `from_token`.
    fn from_str(token: &str) -> (result: Result<Self, Self::Err>)
        ensures
            result matches Ok(value) && value.spec_token() == token@ && match Self::spec_listed(
                token@,
            ) {
                Some(listed) => value == listed,
                None => value is Unrecognised,
            },
    {
        Ok(Self::from_token(token))
    }
}

impl FacilityCategory {
    /// Name of the XML Schema type this list transcribes.
    pub const XSD_TYPE: &'static str = "FacilityCategoryEnumeration";

    /// Every value the schema defines, in schema order.
    pub open spec fn spec_all() -> Seq<FacilityCategory> {
        seq![FacilityCategory::Unknown, FacilityCategory::FixedEquipment, FacilityCategory::ServiceProvidedByIndividual, FacilityCategory::ServiceForPersonalAssistance]
    }

    /// Every value the schema defines, in schema order.
    pub fn all() -> (values: Vec<Self>)
        ensures
            values@ == Self::spec_all(),
    {
        vec![FacilityCategory::Unknown, FacilityCategory::FixedEquipment, FacilityCategory::ServiceProvidedByIndividual, FacilityCategory::ServiceForPersonalAssistance]
    }

    /// The token a value is written as on the wire.
    pub open spec fn spec_token(&self) -> Seq<char> {
        match self {
            FacilityCategory::Unknown => "unknown"@,
            FacilityCategory::FixedEquipment => "fixedEquipment"@,
            FacilityCategory::ServiceProvidedByIndividual => "serviceProvidedByIndividual"@,
            FacilityCategory::ServiceForPersonalAssistance => "serviceForPersonalAssistance"@,
            FacilityCategory::Unrecognised(token) => token@,
        }
    }

    /// The value the schema defines for a token, if it defines one.
    pub open spec fn spec_listed(token: Seq<char>) -> Option<FacilityCategory> {
        if token == "unknown"@ {
            Some(FacilityCategory::Unknown)
        } else if token == "fixedEquipment"@ {
            Some(FacilityCategory::FixedEquipment)
        } else if token == "serviceProvidedByIndividual"@ {
            Some(FacilityCategory::ServiceProvidedByIndividual)
        } else if token == "serviceForPersonalAssistance"@ {
            Some(FacilityCategory::ServiceForPersonalAssistance)
        } else {
            None
        }
    }

    /// The value a wire token denotes: the listed variant when the schema defines
    /// the token, `Unrecognised` holding the token otherwise.
    pub fn from_token(token: &str) -> (result: Self)
        ensures
            result.spec_token() == token@,
            match Self::spec_listed(token@) {
                Some(listed) => result == listed,
                None => result is Unrecognised,
            },
    {
        let owned: String = token.to_owned();
        if owned == "unknown".to_owned() {
            FacilityCategory::Unknown
        } else if owned == "fixedEquipment".to_owned() {
            FacilityCategory::FixedEquipment
        } else if owned == "serviceProvidedByIndividual".to_owned() {
            FacilityCategory::ServiceProvidedByIndividual
        } else if owned == "serviceForPersonalAssistance".to_owned() {
            FacilityCategory::ServiceForPersonalAssistance
        } else {
            FacilityCategory::Unrecognised(owned)
        }
    }

    /// The token this value is written as on the wire.
    pub fn as_str(&self) -> (token: &str)
        ensures
            token@ == self.spec_token(),
    {
        match self {
            FacilityCategory::Unknown => "unknown",
            FacilityCategory::FixedEquipment => "fixedEquipment",
            FacilityCategory::ServiceProvidedByIndividual => "serviceProvidedByIndividual",
            FacilityCategory::ServiceForPersonalAssistance => "serviceForPersonalAssistance",
            FacilityCategory::Unrecognised(token) => token.as_str(),
        }
    }
}

/// The `FacilityStatusEnumeration` code list.
#[derive(Debug, Clone, PartialEq, Eq, PartialOrd, Ord, Hash)]
pub enum FacilityStatus {
    /// `unknown`
    Unknown,
    /// `available`
    Available,
    /// `notAvailable`
    NotAvailable,
    /// `partiallyAvailable`
    PartiallyAvailable,
    /// `added`
    Added,
    /// `removed`
    Removed,
    /// A token this list does not define, kept as it was read.
    Unrecognised(String),
}

impl core::str::FromStr for FacilityStatus {
    type Err = core::convert::Infallible;

    /// Every token is a value, so this never fails; see `from_token`.
    fn from_str(token: &str) -> (result: Result<Self, Self::Err>)
        ensures
            result matches Ok(value) && value.spec_token() == token@ && match Self::spec_listed(
                token@,
            ) {
                Some(listed) => value == listed,
                None => value is Unrecognised,
            },
    {
        Ok(Self::from_token(token))
    }
}

impl FacilityStatus {
    /// Name of the XML Schema type this list transcribes.
    pub const XSD_TYPE: &'static str = "FacilityStatusEnumeration";

    /// Every value the schema defines, in schema order.
    pub open spec fn spec_all() -> Seq<FacilityStatus> {
        seq![FacilityStatus::Unknown, FacilityStatus::Available, FacilityStatus::NotAvailable, FacilityStatus::PartiallyAvailable, FacilityStatus::Added, FacilityStatus::Removed]
    }

    /// Every value the schema defines, in schema order.
    pub fn all() -> (values: Vec<Self>)
        ensures
            values@ == Self::spec_all(),
    {
        vec![FacilityStatus::Unknown, FacilityStatus::Available, FacilityStatus::NotAvailable, FacilityStatus::PartiallyAvailable, FacilityStatus::Added, FacilityStatus::Removed]
    }

    /// The token a value is written as on the wire.
    pub open spec fn spec_token(&self) -> Seq<char> {
        match self {
            FacilityStatus::Unknown => "unknown"@,
            FacilityStatus::Available => "available"@,
            FacilityStatus::NotAvailable => "notAvailable"@,
            FacilityStatus::PartiallyAvailable => "partiallyAvailable"@,
            FacilityStatus::Added => "added"@,
            FacilityStatus::Removed => "removed"@,
            FacilityStatus::Unrecognised(token) => token@,
        }
    }

    /// The value the schema defines for a token, if it defines one.
    pub open spec fn spec_listed(token: Seq<char>) -> Option<FacilityStatus> {
        if token == "unknown"@ {
            Some(FacilityStatus::Unknown)
        } else if token == "available"@ {
            Some(FacilityStatus::Available)
        } else if token == "notAvailable"@ {
            Some(FacilityStatus::NotAvailable)
        } else if token == "partiallyAvailable"@ {
            Some(FacilityStatus::PartiallyAvailable)
        } else if token == "added"@ {
            Some(FacilityStatus::Added)
        } else if token == "removed"@ {
            Some(FacilityStatus::Removed)
        } else {
            None
        }
    }

    /// The value a wire token denotes: the listed variant when the schema defines
    /// the token, `Unrecognised` holding the token otherwise.
    pub fn from_token(token: &str) -> (result: Self)
        ensures
            result.spec_token() == token@,
            match Self::spec_listed(token@) {
                Some(listed) => result == listed,
                None => result is Unrecognised,
            },
    {
        let owned: String = token.to_owned();
        if owned == "unknown".to_owned() {
            FacilityStatus::Unknown
        } else if owned == "available".to_owned() {
            FacilityStatus::Available
        } else if owned == "notAvailable".to_owned() {
            FacilityStatus::NotAvailable
        } else if owned == "partiallyAvailable".to_owned() {
            FacilityStatus::PartiallyAvailable
        } else if owned == "added".to_owned() {
            FacilityStatus::Added
        } else if owned == "removed".to_owned() {
            FacilityStatus::Removed
        } else {
            FacilityStatus::Unrecognised(owned)
        }
    }

    /// The token this value is written as on the wire.
    pub fn as_str(&self) -> (token: &str)
        ensures
            token@ == self.spec_token(),
    {
        match self {
            FacilityStatus::Unknown => "unknown",
            FacilityStatus::Available => "available",
            FacilityStatus::NotAvailable => "notAvailable",
            FacilityStatus::PartiallyAvailable => "partiallyAvailable",
            FacilityStatus::Added => "added",
            FacilityStatus::Removed => "removed",
            FacilityStatus::Unrecognised(token) => token.as_str(),
        }
    }
}

/// The `FareClassEnumeration` code list.
#[derive(Debug, Clone, PartialEq, Eq, PartialOrd, Ord, Hash)]
pub enum FareClass {
    /// `unknown`
    Unknown,
    /// `firstClass`
    FirstClass,
    /// `secondClass`
    SecondClass,
    /// `thirdClass`
    ThirdClass,
    /// `economyClass`
    EconomyClass,
    /// `businessClass`
    BusinessClass,
    /// `premiumClass`
    PremiumClass,
    /// `any`
    Any,
    /// A token this list does not define, kept as it was read.
    Unrecognised(String),
}

impl core::str::FromStr for FareClass {
    type Err = core::convert::Infallible;

    /// Every token is a value, so this never fails; see `from_token`.
    fn from_str(token: &str) -> (result: Result<Self, Self::Err>)
        ensures
            result matches Ok(value) && value.spec_token() == token@ && match Self::spec_listed(
                token@,
            ) {
                Some(listed) => value == listed,
                None => value is Unrecognised,
            },
    {
        Ok(Self::from_token(token))
    }
}

impl FareClass {
    /// Name of the XML Schema type this list transcribes.
    pub const XSD_TYPE: &'static str = "FareClassEnumeration";

    /// Every value the schema defines, in schema order.
    pub open spec fn spec_all() -> Seq<FareClass> {
        seq![FareClass::Unknown, FareClass::FirstClass, FareClass::SecondClass, FareClass::ThirdClass, FareClass::EconomyClass, FareClass::BusinessClass, FareClass::PremiumClass, FareClass::Any]
    }

    /// Every value the schema defines, in schema order.
    pub fn all() -> (values: Vec<Self>)
        ensures
            values@ == Self::spec_all(),
    {
        vec![FareClass::Unknown, FareClass::FirstClass, FareClass::SecondClass, FareClass::ThirdClass, FareClass::EconomyClass, FareClass::BusinessClass, FareClass::PremiumClass, FareClass::Any]
    }

    /// The token a value is written as on the wire.
    pub open spec fn spec_token(&self) -> Seq<char> {
        match self {
            FareClass::Unknown => "unknown"@,
            FareClass::FirstClass => "firstClass"@,
            FareClass::SecondClass => "secondClass"@,
            FareClass::ThirdClass => "thirdClass"@,
            FareClass::EconomyClass => "economyClass"@,
            FareClass::BusinessClass => "businessClass"@,
            FareClass::PremiumClass => "premiumClass"@,
            FareClass::Any => "any"@,
            FareClass::Unrecognised(token) => token@,
        }
    }

    /// The value the schema defines for a token, if it defines one.
    pub open spec fn spec_listed(token: Seq<char>) -> Option<FareClass> {
        if token == "unknown"@ {
            Some(FareClass::Unknown)
        } else if token == "firstClass"@ {
            Some(FareClass::FirstClass)
        } else if token == "secondClass"@ {
            Some(FareClass::SecondClass)
        } else if token == "thirdClass"@ {
            Some(FareClass::ThirdClass)
        } else if token == "economyClass"@ {
            Some(FareClass::EconomyClass)
        } else if token == "businessClass"@ {
            Some(FareClass::BusinessClass)
        } else if token == "premiumClass"@ {
            Some(FareClass::PremiumClass)
        } else if token == "any"@ {
            Some(FareClass::Any)
        } else {
            None
        }
    }

    /// The value a wire token denotes: the listed variant when the schema defines
    /// the token, `Unrecognised` holding the token otherwise.
    pub fn from_token(token: &str) -> (result: Self)
        ensures
            result.spec_token() == token@,
            match Self::spec_listed(token@) {
                Some(listed) => result == listed,
                None => result is Unrecognised,
            },
    {
        let owned: String = token.to_owned();
        if owned == "unknown".to_owned() {
            FareClass::Unknown
        } else if owned == "firstClass".to_owned() {
            FareClass::FirstClass
        } else if owned == "secondClass".to_owned() {
            FareClass::SecondClass
        } else if owned == "thirdClass".to_owned() {
            FareClass::ThirdClass
        } else if owned == "economyClass".to_owned() {
            FareClass::EconomyClass
        } else if owned == "businessClass".to_owned() {
            FareClass::BusinessClass
        } else if owned == "premiumClass".to_owned() {
            FareClass::PremiumClass
        } else if owned == "any".to_owned() {
            FareClass::Any
        } else {
            FareClass::Unrecognised(owned)
        }
    }

    /// The token this value is written as on the wire.
    pub fn as_str(&self) -> (token: &str)
        ensures
            token@ == self.spec_token(),
    {
        match self {
            FareClass::Unknown => "unknown",
            FareClass::FirstClass => "firstClass",
            FareClass::SecondClass => "secondClass",
            FareClass::ThirdClass => "thirdClass",
            FareClass::EconomyClass => "economyClass",
            FareClass::BusinessClass => "businessClass",
            FareClass::PremiumClass => "premiumClass",
            FareClass::Any => "any",
            FareClass::Unrecognised(token) => token.as_str(),
        }
    }
}

/// The `FareClassFacilityEnumeration` code list.
#[derive(Debug, Clone, PartialEq, Eq, PartialOrd, Ord, Hash)]
pub enum FareClassFacility {
    /// `unknown`
    Unknown,
    /// `firstClass`
    FirstClass,
    /// `secondClass`
    SecondClass,
    /// `thirdClass`
    ThirdClass,
    /// `economyClass`
    EconomyClass,
    /// `businessClass`
    BusinessClass,
    /// `premiumClass`
    PremiumClass,
    /// A token this list does not define, kept as it was read.
    Unrecognised(String),
}

impl core::str::FromStr for FareClassFacility {
    type Err = core::convert::Infallible;

    /// Every token is a value, so this never fails; see `from_token`.
    fn from_str(token: &str) -> (result: Result<Self, Self::Err>)
        ensures
            result matches Ok(value) && value.spec_token() == token@ && match Self::spec_listed(
                token@,
            ) {
                Some(listed) => value == listed,
                None => value is Unrecognised,
            },
    {
        Ok(Self::from_token(token))
    }
}

impl FareClassFacility {
    /// Name of the XML Schema type this list transcribes.
    pub const XSD_TYPE: &'static str = "FareClassFacilityEnumeration";

    /// Every value the schema defines, in schema order.
    pub open spec fn spec_all() -> Seq<FareClassFacility> {
        seq![FareClassFacility::Unknown, FareClassFacility::FirstClass, FareClassFacility::SecondClass, FareClassFacility::ThirdClass, FareClassFacility::EconomyClass, FareClassFacility::BusinessClass, FareClassFacility::PremiumClass]
    }

    /// Every value the schema defines, in schema order.
    pub fn all() -> (values: Vec<Self>)
        ensures
            values@ == Self::spec_all(),
    {
        vec![FareClassFacility::Unknown, FareClassFacility::FirstClass, FareClassFacility::SecondClass, FareClassFacility::ThirdClass, FareClassFacility::EconomyClass, FareClassFacility::BusinessClass, FareClassFacility::PremiumClass]
    }

    /// The token a value is written as on the wire.
    pub open spec fn spec_token(&self) -> Seq<char> {
        match self {
            FareClassFacility::Unknown => "unknown"@,
            FareClassFacility::FirstClass => "firstClass"@,
            FareClassFacility::SecondClass => "secondClass"@,
            FareClassFacility::ThirdClass => "thirdClass"@,
            FareClassFacility::EconomyClass => "economyClass"@,
            FareClassFacility::BusinessClass => "businessClass"@,
            FareClassFacility::PremiumClass => "premiumClass"@,
            FareClassFacility::Unrecognised(token) => token@,
        }
    }

    /// The value the schema defines for a token, if it defines one.
    pub open spec fn spec_listed(token: Seq<char>) -> Option<FareClassFacility> {
        if token == "unknown"@ {
            Some(FareClassFacility::Unknown)
        } else if token == "firstClass"@ {
            Some(FareClassFacility::FirstClass)
        } else if token == "secondClass"@ {
            Some(FareClassFacility::SecondClass)
        } else if token == "thirdClass"@ {
            Some(FareClassFacility::ThirdClass)
        } else if token == "economyClass"@ {
            Some(FareClassFacility::EconomyClass)
        } else if token == "businessClass"@ {
            Some(FareClassFacility::BusinessClass)
        } else if token == "premiumClass"@ {
            Some(FareClassFacility::PremiumClass)
        } else {
            None
        }
    }

    /// The value a wire token denotes: the listed variant when the schema defines
    /// the token, `Unrecognised` holding the token otherwise.
    pub fn from_token(token: &str) -> (result: Self)
        ensures
            result.spec_token() == token@,
            match Self::spec_listed(token@) {
                Some(listed) => result == listed,
                None => result is Unrecognised,
            },
    {
        let owned: String = token.to_owned();
        if owned == "unknown".to_owned() {
            FareClassFacility::Unknown
        } else if owned == "firstClass".to_owned() {
            FareClassFacility::FirstClass
        } else if owned == "secondClass".to_owned() {
            FareClassFacility::SecondClass
        } else if owned == "thirdClass".to_owned() {
            FareClassFacility::ThirdClass
        } else if owned == "economyClass".to_owned() {
            FareClassFacility::EconomyClass
        } else if owned == "businessClass".to_owned() {
            FareClassFacility::BusinessClass
        } else if owned == "premiumClass".to_owned() {
            FareClassFacility::PremiumClass
        } else {
            FareClassFacility::Unrecognised(owned)
        }
    }

    /// The token this value is written as on the wire.
    pub fn as_str(&self) -> (token: &str)
        ensures
            token@ == self.spec_token(),
    {
        match self {
            FareClassFacility::Unknown => "unknown",
            FareClassFacility::FirstClass => "firstClass",
            FareClassFacility::SecondClass => "secondClass",
            FareClassFacility::ThirdClass => "thirdClass",
            FareClassFacility::EconomyClass => "economyClass",
            FareClassFacility::BusinessClass => "businessClass",
            FareClassFacility::PremiumClass => "premiumClass",
            FareClassFacility::Unrecognised(token) => token.as_str(),
        }
    }
}

/// The `FirstOrLastJourneyEnumeration` code list.
#[derive(Debug, Clone, PartialEq, Eq, PartialOrd, Ord, Hash)]
pub enum FirstOrLastJourney {
    /// `firstServiceOfDay`
    FirstServiceOfDay,
    /// `otherService`
    OtherService,
    /// `lastServiceOfDay`
    LastServiceOfDay,
    /// `unspecified`
    Unspecified,
    /// A token this list does not define, kept as it was read.
    Unrecognised(String),
}

impl core::str::FromStr for FirstOrLastJourney {
    type Err = core::convert::Infallible;

    /// Every token is a value, so this never fails; see `from_token`.
    fn from_str(token: &str) -> (result: Result<Self, Self::Err>)
        ensures
            result matches Ok(value) && value.spec_token() == token@ && match Self::spec_listed(
                token@,
            ) {
                Some(listed) => value == listed,
                None => value is Unrecognised,
            },
    {
        Ok(Self::from_token(token))
    }
}

impl FirstOrLastJourney {
    /// Name of the XML Schema type this list transcribes.
    pub const XSD_TYPE: &'static str = "FirstOrLastJourneyEnumeration";

    /// Every value the schema defines, in schema order.
    pub open spec fn spec_all() -> Seq<FirstOrLastJourney> {
        seq![FirstOrLastJourney::FirstServiceOfDay, FirstOrLastJourney::OtherService, FirstOrLastJourney::LastServiceOfDay, FirstOrLastJourney::Unspecified]
    }

    /// Every value the schema defines, in schema order.
    pub fn all() -> (values: Vec<Self>)
        ensures
            values@ == Self::spec_all(),
    {
        vec![FirstOrLastJourney::FirstServiceOfDay, FirstOrLastJourney::OtherService, FirstOrLastJourney::LastServiceOfDay, FirstOrLastJourney::Unspecified]
    }

    /// The token a value is written as on the wire.
    pub open spec fn spec_token(&self) -> Seq<char> {
        match self {
            FirstOrLastJourney::FirstServiceOfDay => "firstServiceOfDay"@,
            FirstOrLastJourney::OtherService => "otherService"@,
            FirstOrLastJourney::LastServiceOfDay => "lastServiceOfDay"@,
            FirstOrLastJourney::Unspecified => "unspecified"@,
            FirstOrLastJourney::Unrecognised(token) => token@,
        }
    }

    /// The value the schema defines for a token, if it defines one.
    pub open spec fn spec_listed(token: Seq<char>) -> Option<FirstOrLastJourney> {
        if token == "firstServiceOfDay"@ {
            Some(FirstOrLastJourney::FirstServiceOfDay)
        } else if token == "otherService"@ {
            Some(FirstOrLastJourney::OtherService)
        } else if token == "lastServiceOfDay"@ {
            Some(FirstOrLastJourney::LastServiceOfDay)
        } else if token == "unspecified"@ {
            Some(FirstOrLastJourney::Unspecified)
        } else {
            None
        }
    }

    /// The value a wire token denotes: the listed variant when the schema defines
    /// the token, `Unrecognised` holding the token otherwise.
    pub fn from_token(token: &str) -> (result: Self)
        ensures
            result.spec_token() == token@,
            match Self::spec_listed(token@) {
                Some(listed) => result == listed,
                None => result is Unrecognised,
            },
    {
        let owned: String = token.to_owned();
        if owned == "firstServiceOfDay".to_owned() {
            FirstOrLastJourney::FirstServiceOfDay
        } else if owned == "otherService".to_owned() {
            FirstOrLastJourney::OtherService
        } else if owned == "lastServiceOfDay".to_owned() {
            FirstOrLastJourney::LastServiceOfDay
        } else if owned == "unspecified".to_owned() {
            FirstOrLastJourney::Unspecified
        } else {
            FirstOrLastJourney::Unrecognised(owned)
        }
    }

    /// The token this value is written as on the wire.
    pub fn as_str(&self) -> (token: &str)
        ensures
            token@ == self.spec_token(),
    {
        match self {
            FirstOrLastJourney::FirstServiceOfDay => "firstServiceOfDay",
            FirstOrLastJourney::OtherService => "otherService",
            FirstOrLastJourney::LastServiceOfDay => "lastServiceOfDay",
            FirstOrLastJourney::Unspecified => "unspecified",
            FirstOrLastJourney::Unrecognised(token) => token.as_str(),
        }
    }
}

/// The `FormationChangeEnumeration` code list.
#[derive(Debug, Clone, PartialEq, Eq, PartialOrd, Ord, Hash)]
pub enum FormationChange {
    /// `unknown`
    Unknown,
    /// `normalFormation`
    NormalFormation,
    /// `changedFormation`
    ChangedFormation,
    /// `reversedFormation`
    ReversedFormation,
    /// `missingVehicle`
    MissingVehicle,
    /// `additionalVehicle`
    AdditionalVehicle,
    /// `missingRestaurantCoach`
    MissingRestaurantCoach,
    /// A token this list does not define, kept as it was read.
    Unrecognised(String),
}

impl core::str::FromStr for FormationChange {
    type Err = core::convert::Infallible;

    /// Every token is a value, so this never fails; see `from_token`.
    fn from_str(token: &str) -> (result: Result<Self, Self::Err>)
        ensures
            result matches Ok(value) && value.spec_token() == token@ && match Self::spec_listed(
                token@,
            ) {
                Some(listed) => value == listed,
                None => value is Unrecognised,
            },
    {
        Ok(Self::from_token(token))
    }
}

impl FormationChange {
    /// Name of the XML Schema type this list transcribes.
    pub const XSD_TYPE: &'static str = "FormationChangeEnumeration";

    /// Every value the schema defines, in schema order.
    pub open spec fn spec_all() -> Seq<FormationChange> {
        seq![FormationChange::Unknown, FormationChange::NormalFormation, FormationChange::ChangedFormation, FormationChange::ReversedFormation, FormationChange::MissingVehicle, FormationChange::AdditionalVehicle, FormationChange::MissingRestaurantCoach]
    }

    /// Every value the schema defines, in schema order.
    pub fn all() -> (values: Vec<Self>)
        ensures
            values@ == Self::spec_all(),
    {
        vec![FormationChange::Unknown, FormationChange::NormalFormation, FormationChange::ChangedFormation, FormationChange::ReversedFormation, FormationChange::MissingVehicle, FormationChange::AdditionalVehicle, FormationChange::MissingRestaurantCoach]
    }

    /// The token a value is written as on the wire.
    pub open spec fn spec_token(&self) -> Seq<char> {
        match self {
            FormationChange::Unknown => "unknown"@,
            FormationChange::NormalFormation => "normalFormation"@,
            FormationChange::ChangedFormation => "changedFormation"@,
            FormationChange::ReversedFormation => "reversedFormation"@,
            FormationChange::MissingVehicle => "missingVehicle"@,
            FormationChange::AdditionalVehicle => "additionalVehicle"@,
            FormationChange::MissingRestaurantCoach => "missingRestaurantCoach"@,
            FormationChange::Unrecognised(token) => token@,
        }
    }

    /// The value the schema defines for a token, if it defines one.
    pub open spec fn spec_listed(token: Seq<char>) -> Option<FormationChange> {
        if token == "unknown"@ {
            Some(FormationChange::Unknown)
        } else if token == "normalFormation"@ {
            Some(FormationChange::NormalFormation)
        } else if token == "changedFormation"@ {
            Some(FormationChange::ChangedFormation)
        } else if token == "reversedFormation"@ {
            Some(FormationChange::ReversedFormation)
        } else if token == "missingVehicle"@ {
            Some(FormationChange::MissingVehicle)
        } else if token == "additionalVehicle"@ {
            Some(FormationChange::AdditionalVehicle)
        } else if token == "missingRestaurantCoach"@ {
            Some(FormationChange::MissingRestaurantCoach)
        } else {
            None
        }
    }

    /// The value a wire token denotes: the listed variant when the schema defines
    /// the token, `Unrecognised` holding the token otherwise.
    pub fn from_token(token: &str) -> (result: Self)
        ensures
            result.spec_token() == token@,
            match Self::spec_listed(token@) {
                Some(listed) => result == listed,
                None => result is Unrecognised,
            },
    {
        let owned: String = token.to_owned();
        if owned == "unknown".to_owned() {
            FormationChange::Unknown
        } else if owned == "normalFormation".to_owned() {
            FormationChange::NormalFormation
        } else if owned == "changedFormation".to_owned() {
            FormationChange::ChangedFormation
        } else if owned == "reversedFormation".to_owned() {
            FormationChange::ReversedFormation
        } else if owned == "missingVehicle".to_owned() {
            FormationChange::MissingVehicle
        } else if owned == "additionalVehicle".to_owned() {
            FormationChange::AdditionalVehicle
        } else if owned == "missingRestaurantCoach".to_owned() {
            FormationChange::MissingRestaurantCoach
        } else {
            FormationChange::Unrecognised(owned)
        }
    }

    /// The token this value is written as on the wire.
    pub fn as_str(&self) -> (token: &str)
        ensures
            token@ == self.spec_token(),
    {
        match self {
            FormationChange::Unknown => "unknown",
            FormationChange::NormalFormation => "normalFormation",
            FormationChange::ChangedFormation => "changedFormation",
            FormationChange::ReversedFormation => "reversedFormation",
            FormationChange::MissingVehicle => "missingVehicle",
            FormationChange::AdditionalVehicle => "additionalVehicle",
            FormationChange::MissingRestaurantCoach => "missingRestaurantCoach",
            FormationChange::Unrecognised(token) => token.as_str(),
        }
    }
}

/// The `HireFacilityEnumeration` code list.
#[derive(Debug, Clone, PartialEq, Eq, PartialOrd, Ord, Hash)]
pub enum HireFacility {
    /// `unknown`
    Unknown,
    /// `scooterHire`
    ScooterHire,
    /// `vehicleHire`
    VehicleHire,
    /// `carHire`
    CarHire,
    /// `motorCycleHire`
    MotorCycleHire,
    /// `cycleHire`
    CycleHire,
    /// `taxi`
    Taxi,
    /// `recreationDeviceHire`
    RecreationDeviceHire,
    /// A token this list does not define, kept as it was read.
    Unrecognised(String),
}

impl core::str::FromStr for HireFacility {
    type Err = core::convert::Infallible;

    /// Every token is a value, so this never fails; see `from_token`.
    fn from_str(token: &str) -> (result: Result<Self, Self::Err>)
        ensures
            result matches Ok(value) && value.spec_token() == token@ && match Self::spec_listed(
                token@,
            ) {
                Some(listed) => value == listed,
                None => value is Unrecognised,
            },
    {
        Ok(Self::from_token(token))
    }
}

impl HireFacility {
    /// Name of the XML Schema type this list transcribes.
    pub const XSD_TYPE: &'static str = "HireFacilityEnumeration";

    /// Every value the schema defines, in schema order.
    pub open spec fn spec_all() -> Seq<HireFacility> {
        seq![HireFacility::Unknown, HireFacility::ScooterHire, HireFacility::VehicleHire, HireFacility::CarHire, HireFacility::MotorCycleHire, HireFacility::CycleHire, HireFacility::Taxi, HireFacility::RecreationDeviceHire]
    }

    /// Every value the schema defines, in schema order.
    pub fn all() -> (values: Vec<Self>)
        ensures
            values@ == Self::spec_all(),
    {
        vec![HireFacility::Unknown, HireFacility::ScooterHire, HireFacility::VehicleHire, HireFacility::CarHire, HireFacility::MotorCycleHire, HireFacility::CycleHire, HireFacility::Taxi, HireFacility::RecreationDeviceHire]
    }

    /// The token a value is written as on the wire.
    pub open spec fn spec_token(&self) -> Seq<char> {
        match self {
            HireFacility::Unknown => "unknown"@,
            HireFacility::ScooterHire => "scooterHire"@,
            HireFacility::VehicleHire => "vehicleHire"@,
            HireFacility::CarHire => "carHire"@,
            HireFacility::MotorCycleHire => "motorCycleHire"@,
            HireFacility::CycleHire => "cycleHire"@,
            HireFacility::Taxi => "taxi"@,
            HireFacility::RecreationDeviceHire => "recreationDeviceHire"@,
            HireFacility::Unrecognised(token) => token@,
        }
    }

    /// The value the schema defines for a token, if it defines one.
    pub open spec fn spec_listed(token: Seq<char>) -> Option<HireFacility> {
        if token == "unknown"@ {
            Some(HireFacility::Unknown)
        } else if token == "scooterHire"@ {
            Some(HireFacility::ScooterHire)
        } else if token == "vehicleHire"@ {
            Some(HireFacility::VehicleHire)
        } else if token == "carHire"@ {
            Some(HireFacility::CarHire)
        } else if token == "motorCycleHire"@ {
            Some(HireFacility::MotorCycleHire)
        } else if token == "cycleHire"@ {
            Some(HireFacility::CycleHire)
        } else if token == "taxi"@ {
            Some(HireFacility::Taxi)
        } else if token == "recreationDeviceHire"@ {
            Some(HireFacility::RecreationDeviceHire)
        } else {
            None
        }
    }

    /// The value a wire token denotes: the listed variant when the schema defines
    /// the token, `Unrecognised` holding the token otherwise.
    pub fn from_token(token: &str) -> (result: Self)
        ensures
            result.spec_token() == token@,
            match Self::spec_listed(token@) {
                Some(listed) => result == listed,
                None => result is Unrecognised,
            },
    {
        let owned: String = token.to_owned();
        if owned == "unknown".to_owned() {
            HireFacility::Unknown
        } else if owned == "scooterHire".to_owned() {
            HireFacility::ScooterHire
        } else if owned == "vehicleHire".to_owned() {
            HireFacility::VehicleHire
        } else if owned == "carHire".to_owned() {
            HireFacility::CarHire
        } else if owned == "motorCycleHire".to_owned() {
            HireFacility::MotorCycleHire
        } else if owned == "cycleHire".to_owned() {
            HireFacility::CycleHire
        } else if owned == "taxi".to_owned() {
            HireFacility::Taxi
        } else if owned == "recreationDeviceHire".to_owned() {
            HireFacility::RecreationDeviceHire
        } else {
            HireFacility::Unrecognised(owned)
        }
    }

    /// The token this value is written as on the wire.
    pub fn as_str(&self) -> (token: &str)
        ensures
            token@ == self.spec_token(),
    {
        match self {
            HireFacility::Unknown => "unknown",
            HireFacility::ScooterHire => "scooterHire",
            HireFacility::VehicleHire => "vehicleHire",
            HireFacility::CarHire => "carHire",
            HireFacility::MotorCycleHire => "motorCycleHire",
            HireFacility::CycleHire => "cycleHire",
            HireFacility::Taxi => "taxi",
            HireFacility::RecreationDeviceHire => "recreationDeviceHire",
            HireFacility::Unrecognised(token) => token.as_str(),
        }
    }
}

/// The `HolidayTypeEnumeration` code list.
#[derive(Debug, Clone, PartialEq, Eq, PartialOrd, Ord, Hash)]
pub enum HolidayType {
    /// `anyDay`
    AnyDay,
    /// `workingDay`
    WorkingDay,
    /// `schoolDay`
    SchoolDay,
    /// `holiday`
    Holiday,
    /// `localHoliday`
    LocalHoliday,
    /// `regionalHoliday`
    RegionalHoliday,
    /// `nationalHoliday`
    NationalHoliday,
    /// A token this list does not define, kept as it was read.
    Unrecognised(String),
}

impl core::str::FromStr for HolidayType {
    type Err = core::convert::Infallible;

    /// Every token is a value, so this never fails; see `from_token`.
    fn from_str(token: &str) -> (result: Result<Self, Self::Err>)
        ensures
            result matches Ok(value) && value.spec_token() == token@ && match Self::spec_listed(
                token@,
            ) {
                Some(listed) => value == listed,
                None => value is Unrecognised,
            },
    {
        Ok(Self::from_token(token))
    }
}

impl HolidayType {
    /// Name of the XML Schema type this list transcribes.
    pub const XSD_TYPE: &'static str = "HolidayTypeEnumeration";

    /// Every value the schema defines, in schema order.
    pub open spec fn spec_all() -> Seq<HolidayType> {
        seq![HolidayType::AnyDay, HolidayType::WorkingDay, HolidayType::SchoolDay, HolidayType::Holiday, HolidayType::LocalHoliday, HolidayType::RegionalHoliday, HolidayType::NationalHoliday]
    }

    /// Every value the schema defines, in schema order.
    pub fn all() -> (values: Vec<Self>)
        ensures
            values@ == Self::spec_all(),
    {
        vec![HolidayType::AnyDay, HolidayType::WorkingDay, HolidayType::SchoolDay, HolidayType::Holiday, HolidayType::LocalHoliday, HolidayType::RegionalHoliday, HolidayType::NationalHoliday]
    }

    /// The token a value is written as on the wire.
    pub open spec fn spec_token(&self) -> Seq<char> {
        match self {
            HolidayType::AnyDay => "anyDay"@,
            HolidayType::WorkingDay => "workingDay"@,
            HolidayType::SchoolDay => "schoolDay"@,
            HolidayType::Holiday => "holiday"@,
            HolidayType::LocalHoliday => "localHoliday"@,
            HolidayType::RegionalHoliday => "regionalHoliday"@,
            HolidayType::NationalHoliday => "nationalHoliday"@,
            HolidayType::Unrecognised(token) => token@,
        }
    }

    /// The value the schema defines for a token, if it defines one.
    pub open spec fn spec_listed(token: Seq<char>) -> Option<HolidayType> {
        if token == "anyDay"@ {
            Some(HolidayType::AnyDay)
        } else if token == "workingDay"@ {
            Some(HolidayType::WorkingDay)
        } else if token == "schoolDay"@ {
            Some(HolidayType::SchoolDay)
        } else if token == "holiday"@ {
            Some(HolidayType::Holiday)
        } else if token == "localHoliday"@ {
            Some(HolidayType::LocalHoliday)
        } else if token == "regionalHoliday"@ {
            Some(HolidayType::RegionalHoliday)
        } else if token == "nationalHoliday"@ {
            Some(HolidayType::NationalHoliday)
        } else {
            None
        }
    }

    /// The value a wire token denotes: the listed variant when the schema defines
    /// the token, `Unrecognised` holding the token otherwise.
    pub fn from_token(token: &str) -> (result: Self)
        ensures
            result.spec_token() == token@,
            match Self::spec_listed(token@) {
                Some(listed) => result == listed,
                None => result is Unrecognised,
            },
    {
        let owned: String = token.to_owned();
        if owned == "anyDay".to_owned() {
            HolidayType::AnyDay
        } else if owned == "workingDay".to_owned() {
            HolidayType::WorkingDay
        } else if owned == "schoolDay".to_owned() {
            HolidayType::SchoolDay
        } else if owned == "holiday".to_owned() {
            HolidayType::Holiday
        } else if owned == "localHoliday".to_owned() {
            HolidayType::LocalHoliday
        } else if owned == "regionalHoliday".to_owned() {
            HolidayType::RegionalHoliday
        } else if owned == "nationalHoliday".to_owned() {
            HolidayType::NationalHoliday
        } else {
            HolidayType::Unrecognised(owned)
        }
    }

    /// The token this value is written as on the wire.
    pub fn as_str(&self) -> (token: &str)
        ensures
            token@ == self.spec_token(),
    {
        match self {
            HolidayType::AnyDay => "anyDay",
            HolidayType::WorkingDay => "workingDay",
            HolidayType::SchoolDay => "schoolDay",
            HolidayType::Holiday => "holiday",
            HolidayType::LocalHoliday => "localHoliday",
            HolidayType::RegionalHoliday => "regionalHoliday",
            HolidayType::NationalHoliday => "nationalHoliday",
            HolidayType::Unrecognised(token) => token.as_str(),
        }
    }
}

/// The `InterchangeStatusEnumeration` code list.
#[derive(Debug, Clone, PartialEq, Eq, PartialOrd, Ord, Hash)]
pub enum InterchangeStatus {
    /// `unknown`
    Unknown,
    /// `connection`
    Connection,
    /// `replaced`
    Replaced,
    /// `supplement`
    Supplement,
    /// A token this list does not define, kept as it was read.
    Unrecognised(String),
}

impl core::str::FromStr for InterchangeStatus {
    type Err = core::convert::Infallible;

    /// Every token is a value, so this never fails; see `from_token`.
    fn from_str(token: &str) -> (result: Result<Self, Self::Err>)
        ensures
            result matches Ok(value) && value.spec_token() == token@ && match Self::spec_listed(
                token@,
            ) {
                Some(listed) => value == listed,
                None => value is Unrecognised,
            },
    {
        Ok(Self::from_token(token))
    }
}

impl InterchangeStatus {
    /// Name of the XML Schema type this list transcribes.
    pub const XSD_TYPE: &'static str = "InterchangeStatusEnumeration";

    /// Every value the schema defines, in schema order.
    pub open spec fn spec_all() -> Seq<InterchangeStatus> {
        seq![InterchangeStatus::Unknown, InterchangeStatus::Connection, InterchangeStatus::Replaced, InterchangeStatus::Supplement]
    }

    /// Every value the schema defines, in schema order.
    pub fn all() -> (values: Vec<Self>)
        ensures
            values@ == Self::spec_all(),
    {
        vec![InterchangeStatus::Unknown, InterchangeStatus::Connection, InterchangeStatus::Replaced, InterchangeStatus::Supplement]
    }

    /// The token a value is written as on the wire.
    pub open spec fn spec_token(&self) -> Seq<char> {
        match self {
            InterchangeStatus::Unknown => "unknown"@,
            InterchangeStatus::Connection => "connection"@,
            InterchangeStatus::Replaced => "replaced"@,
            InterchangeStatus::Supplement => "supplement"@,
            InterchangeStatus::Unrecognised(token) => token@,
        }
    }

    /// The value the schema defines for a token, if it defines one.
    pub open spec fn spec_listed(token: Seq<char>) -> Option<InterchangeStatus> {
        if token == "unknown"@ {
            Some(InterchangeStatus::Unknown)
        } else if token == "connection"@ {
            Some(InterchangeStatus::Connection)
        } else if token == "replaced"@ {
            Some(InterchangeStatus::Replaced)
        } else if token == "supplement"@ {
            Some(InterchangeStatus::Supplement)
        } else {
            None
        }
    }

    /// The value a wire token denotes: the listed variant when the schema defines
    /// the token, `Unrecognised` holding the token otherwise.
    pub fn from_token(token: &str) -> (result: Self)
        ensures
            result.spec_token() == token@,
            match Self::spec_listed(token@) {
                Some(listed) => result == listed,
                None => result is Unrecognised,
            },
    {
        let owned: String = token.to_owned();
        if owned == "unknown".to_owned() {
            InterchangeStatus::Unknown
        } else if owned == "connection".to_owned() {
            InterchangeStatus::Connection
        } else if owned == "replaced".to_owned() {
            InterchangeStatus::Replaced
        } else if owned == "supplement".to_owned() {
            InterchangeStatus::Supplement
        } else {
            InterchangeStatus::Unrecognised(owned)
        }
    }

    /// The token this value is written as on the wire.
    pub fn as_str(&self) -> (token: &str)
        ensures
            token@ == self.spec_token(),
    {
        match self {
            InterchangeStatus::Unknown => "unknown",
            InterchangeStatus::Connection => "connection",
            InterchangeStatus::Replaced => "replaced",
            InterchangeStatus::Supplement => "supplement",
            InterchangeStatus::Unrecognised(token) => token.as_str(),
        }
    }
}

/// The `JourneyRelationTypeEnumeration` code list.
#[derive(Debug, Clone, PartialEq, Eq, PartialOrd, Ord, Hash)]
pub enum JourneyRelationType {
    /// `continuationOf`
    ContinuationOf,
    /// `continuationOfSameVehicle`
    ContinuationOfSameVehicle,
    /// `joiningOfJourneys`
    JoiningOfJourneys,
    /// `splittingOfJourneys`
    SplittingOfJourneys,
    /// `replacementOf`
    ReplacementOf,
    /// `partialReplacementOf`
    PartialReplacementOf,
    /// `replacedBy`
    ReplacedBy,
    /// A token this list does not define, kept as it was read.
    Unrecognised(String),
}

impl core::str::FromStr for JourneyRelationType {
    type Err = core::convert::Infallible;

    /// Every token is a value, so this never fails; see `from_token`.
    fn from_str(token: &str) -> (result: Result<Self, Self::Err>)
        ensures
            result matches Ok(value) && value.spec_token() == token@ && match Self::spec_listed(
                token@,
            ) {
                Some(listed) => value == listed,
                None => value is Unrecognised,
            },
    {
        Ok(Self::from_token(token))
    }
}

impl JourneyRelationType {
    /// Name of the XML Schema type this list transcribes.
    pub const XSD_TYPE: &'static str = "JourneyRelationTypeEnumeration";

    /// Every value the schema defines, in schema order.
    pub open spec fn spec_all() -> Seq<JourneyRelationType> {
        seq![JourneyRelationType::ContinuationOf, JourneyRelationType::ContinuationOfSameVehicle, JourneyRelationType::JoiningOfJourneys, JourneyRelationType::SplittingOfJourneys, JourneyRelationType::ReplacementOf, JourneyRelationType::PartialReplacementOf, JourneyRelationType::ReplacedBy]
    }

    /// Every value the schema defines, in schema order.
    pub fn all() -> (values: Vec<Self>)
        ensures
            values@ == Self::spec_all(),
    {
        vec![JourneyRelationType::ContinuationOf, JourneyRelationType::ContinuationOfSameVehicle, JourneyRelationType::JoiningOfJourneys, JourneyRelationType::SplittingOfJourneys, JourneyRelationType::ReplacementOf, JourneyRelationType::PartialReplacementOf, JourneyRelationType::ReplacedBy]
    }

    /// The token a value is written as on the wire.
    pub open spec fn spec_token(&self) -> Seq<char> {
        match self {
            JourneyRelationType::ContinuationOf => "continuationOf"@,
            JourneyRelationType::ContinuationOfSameVehicle => "continuationOfSameVehicle"@,
            JourneyRelationType::JoiningOfJourneys => "joiningOfJourneys"@,
            JourneyRelationType::SplittingOfJourneys => "splittingOfJourneys"@,
            JourneyRelationType::ReplacementOf => "replacementOf"@,
            JourneyRelationType::PartialReplacementOf => "partialReplacementOf"@,
            JourneyRelationType::ReplacedBy => "replacedBy"@,
            JourneyRelationType::Unrecognised(token) => token@,
        }
    }

    /// The value the schema defines for a token, if it defines one.
    pub open spec fn spec_listed(token: Seq<char>) -> Option<JourneyRelationType> {
        if token == "continuationOf"@ {
            Some(JourneyRelationType::ContinuationOf)
        } else if token == "continuationOfSameVehicle"@ {
            Some(JourneyRelationType::ContinuationOfSameVehicle)
        } else if token == "joiningOfJourneys"@ {
            Some(JourneyRelationType::JoiningOfJourneys)
        } else if token == "splittingOfJourneys"@ {
            Some(JourneyRelationType::SplittingOfJourneys)
        } else if token == "replacementOf"@ {
            Some(JourneyRelationType::ReplacementOf)
        } else if token == "partialReplacementOf"@ {
            Some(JourneyRelationType::PartialReplacementOf)
        } else if token == "replacedBy"@ {
            Some(JourneyRelationType::ReplacedBy)
        } else {
            None
        }
    }

    /// The value a wire token denotes: the listed variant when the schema defines
    /// the token, `Unrecognised` holding the token otherwise.
    pub fn from_token(token: &str) -> (result: Self)
        ensures
            result.spec_token() == token@,
            match Self::spec_listed(token@) {
                Some(listed) => result == listed,
                None => result is Unrecognised,
            },
    {
        let owned: String = token.to_owned();
        if owned == "continuationOf".to_owned() {
            JourneyRelationType::ContinuationOf
        } else if owned == "continuationOfSameVehicle".to_owned() {
            JourneyRelationType::ContinuationOfSameVehicle
        } else if owned == "joiningOfJourneys".to_owned() {
            JourneyRelationType::JoiningOfJourneys
        } else if owned == "splittingOfJourneys".to_owned() {
            JourneyRelationType::SplittingOfJourneys
        } else if owned == "replacementOf".to_owned() {
            JourneyRelationType::ReplacementOf
        } else if owned == "partialReplacementOf".to_owned() {
            JourneyRelationType::PartialReplacementOf
        } else if owned == "replacedBy".to_owned() {
            JourneyRelationType::ReplacedBy
        } else {
            JourneyRelationType::Unrecognised(owned)
        }
    }

    /// The token this value is written as on the wire.
    pub fn as_str(&self) -> (token: &str)
        ensures
            token@ == self.spec_token(),
    {
        match self {
            JourneyRelationType::ContinuationOf => "continuationOf",
            JourneyRelationType::ContinuationOfSameVehicle => "continuationOfSameVehicle",
            JourneyRelationType::JoiningOfJourneys => "joiningOfJourneys",
            JourneyRelationType::SplittingOfJourneys => "splittingOfJourneys",
            JourneyRelationType::ReplacementOf => "replacementOf",
            JourneyRelationType::PartialReplacementOf => "partialReplacementOf",
            JourneyRelationType::ReplacedBy => "replacedBy",
            JourneyRelationType::Unrecognised(token) => token.as_str(),
        }
    }
}

/// The `LinesDetailEnumeration` code list.
#[derive(Debug, Clone, PartialEq, Eq, PartialOrd, Ord, Hash)]
pub enum LinesDetail {
    /// `minimum`
    Minimum,
    /// `normal`
    Normal,
    /// `stops`
    Stops,
    /// `full`
    Full,
    /// A token this list does not define, kept as it was read.
    Unrecognised(String),
}

impl core::str::FromStr for LinesDetail {
    type Err = core::convert::Infallible;

    /// Every token is a value, so this never fails; see `from_token`.
    fn from_str(token: &str) -> (result: Result<Self, Self::Err>)
        ensures
            result matches Ok(value) && value.spec_token() == token@ && match Self::spec_listed(
                token@,
            ) {
                Some(listed) => value == listed,
                None => value is Unrecognised,
            },
    {
        Ok(Self::from_token(token))
    }
}

impl LinesDetail {
    /// Name of the XML Schema type this list transcribes.
    pub const XSD_TYPE: &'static str = "LinesDetailEnumeration";

    /// Every value the schema defines, in schema order.
    pub open spec fn spec_all() -> Seq<LinesDetail> {
        seq![LinesDetail::Minimum, LinesDetail::Normal, LinesDetail::Stops, LinesDetail::Full]
    }

    /// Every value the schema defines, in schema order.
    pub fn all() -> (values: Vec<Self>)
        ensures
            values@ == Self::spec_all(),
    {
        vec![LinesDetail::Minimum, LinesDetail::Normal, LinesDetail::Stops, LinesDetail::Full]
    }

    /// The token a value is written as on the wire.
    pub open spec fn spec_token(&self) -> Seq<char> {
        match self {
            LinesDetail::Minimum => "minimum"@,
            LinesDetail::Normal => "normal"@,
            LinesDetail::Stops => "stops"@,
            LinesDetail::Full => "full"@,
            LinesDetail::Unrecognised(token) => token@,
        }
    }

    /// The value the schema defines for a token, if it defines one.
    pub open spec fn spec_listed(token: Seq<char>) -> Option<LinesDetail> {
        if token == "minimum"@ {
            Some(LinesDetail::Minimum)
        } else if token == "normal"@ {
            Some(LinesDetail::Normal)
        } else if token == "stops"@ {
            Some(LinesDetail::Stops)
        } else if token == "full"@ {
            Some(LinesDetail::Full)
        } else {
            None
        }
    }

    /// The value a wire token denotes: the listed variant when the schema defines
    /// the token, `Unrecognised` holding the token otherwise.
    pub fn from_token(token: &str) -> (result: Self)
        ensures
            result.spec_token() == token@,
            match Self::spec_listed(token@) {
                Some(listed) => result == listed,
                None => result is Unrecognised,
            },
    {
        let owned: String = token.to_owned();
        if owned == "minimum".to_owned() {
            LinesDetail::Minimum
        } else if owned == "normal".to_owned() {
            LinesDetail::Normal
        } else if owned == "stops".to_owned() {
            LinesDetail::Stops
        } else if owned == "full".to_owned() {
            LinesDetail::Full
        } else {
            LinesDetail::Unrecognised(owned)
        }
    }

    /// The token this value is written as on the wire.
    pub fn as_str(&self) -> (token: &str)
        ensures
            token@ == self.spec_token(),
    {
        match self {
            LinesDetail::Minimum => "minimum",
            LinesDetail::Normal => "normal",
            LinesDetail::Stops => "stops",
            LinesDetail::Full => "full",
            LinesDetail::Unrecognised(token) => token.as_str(),
        }
    }
}

/// The `LuggageFacilityEnumeration` code list.
#[derive(Debug, Clone, PartialEq, Eq, PartialOrd, Ord, Hash)]
pub enum LuggageFacility {
    /// `unknown`
    Unknown,
    /// `pushchairs`
    Pushchairs,
    /// `baggageStorage`
    BaggageStorage,
    /// `leftLuggage`
    LeftLuggage,
    /// `trolleys`
    Trolleys,
    /// A token this list does not define, kept as it was read.
    Unrecognised(String),
}

impl core::str::FromStr for LuggageFacility {
    type Err = core::convert::Infallible;

    /// Every token is a value, so this never fails; see `from_token`.
    fn from_str(token: &str) -> (result: Result<Self, Self::Err>)
        ensures
            result matches Ok(value) && value.spec_token() == token@ && match Self::spec_listed(
                token@,
            ) {
                Some(listed) => value == listed,
                None => value is Unrecognised,
            },
    {
        Ok(Self::from_token(token))
    }
}

impl LuggageFacility {
    /// Name of the XML Schema type this list transcribes.
    pub const XSD_TYPE: &'static str = "LuggageFacilityEnumeration";

    /// Every value the schema defines, in schema order.
    pub open spec fn spec_all() -> Seq<LuggageFacility> {
        seq![LuggageFacility::Unknown, LuggageFacility::Pushchairs, LuggageFacility::BaggageStorage, LuggageFacility::LeftLuggage, LuggageFacility::Trolleys]
    }

    /// Every value the schema defines, in schema order.
    pub fn all() -> (values: Vec<Self>)
        ensures
            values@ == Self::spec_all(),
    {
        vec![LuggageFacility::Unknown, LuggageFacility::Pushchairs, LuggageFacility::BaggageStorage, LuggageFacility::LeftLuggage, LuggageFacility::Trolleys]
    }

    /// The token a value is written as on the wire.
    pub open spec fn spec_token(&self) -> Seq<char> {
        match self {
            LuggageFacility::Unknown => "unknown"@,
            LuggageFacility::Pushchairs => "pushchairs"@,
            LuggageFacility::BaggageStorage => "baggageStorage"@,
            LuggageFacility::LeftLuggage => "leftLuggage"@,
            LuggageFacility::Trolleys => "trolleys"@,
            LuggageFacility::Unrecognised(token) => token@,
        }
    }

    /// The value the schema defines for a token, if it defines one.
    pub open spec fn spec_listed(token: Seq<char>) -> Option<LuggageFacility> {
        if token == "unknown"@ {
            Some(LuggageFacility::Unknown)
        } else if token == "pushchairs"@ {
            Some(LuggageFacility::Pushchairs)
        } else if token == "baggageStorage"@ {
            Some(LuggageFacility::BaggageStorage)
        } else if token == "leftLuggage"@ {
            Some(LuggageFacility::LeftLuggage)
        } else if token == "trolleys"@ {
            Some(LuggageFacility::Trolleys)
        } else {
            None
        }
    }

    /// The value a wire token denotes: the listed variant when the schema defines
    /// the token, `Unrecognised` holding the token otherwise.
    pub fn from_token(token: &str) -> (result: Self)
        ensures
            result.spec_token() == token@,
            match Self::spec_listed(token@) {
                Some(listed) => result == listed,
                None => result is Unrecognised,
            },
    {
        let owned: String = token.to_owned();
        if owned == "unknown".to_owned() {
            LuggageFacility::Unknown
        } else if owned == "pushchairs".to_owned() {
            LuggageFacility::Pushchairs
        } else if owned == "baggageStorage".to_owned() {
            LuggageFacility::BaggageStorage
        } else if owned == "leftLuggage".to_owned() {
            LuggageFacility::LeftLuggage
        } else if owned == "trolleys".to_owned() {
            LuggageFacility::Trolleys
        } else {
            LuggageFacility::Unrecognised(owned)
        }
    }

    /// The token this value is written as on the wire.
    pub fn as_str(&self) -> (token: &str)
        ensures
            token@ == self.spec_token(),
    {
        match self {
            LuggageFacility::Unknown => "unknown",
            LuggageFacility::Pushchairs => "pushchairs",
            LuggageFacility::BaggageStorage => "baggageStorage",
            LuggageFacility::LeftLuggage => "leftLuggage",
            LuggageFacility::Trolleys => "trolleys",
            LuggageFacility::Unrecognised(token) => token.as_str(),
        }
    }
}

/// The `MedicalNeedEnumeration` code list.
#[derive(Debug, Clone, PartialEq, Eq, PartialOrd, Ord, Hash)]
pub enum MedicalNeed {
    /// `allergic`
    Allergic,
    /// `heartCondition`
    HeartCondition,
    /// `otherMedicalNeed`
    OtherMedicalNeed,
    /// A token this list does not define, kept as it was read.
    Unrecognised(String),
}

impl core::str::FromStr for MedicalNeed {
    type Err = core::convert::Infallible;

    /// Every token is a value, so this never fails; see `from_token`.
    fn from_str(token: &str) -> (result: Result<Self, Self::Err>)
        ensures
            result matches Ok(value) && value.spec_token() == token@ && match Self::spec_listed(
                token@,
            ) {
                Some(listed) => value == listed,
                None => value is Unrecognised,
            },
    {
        Ok(Self::from_token(token))
    }
}

impl MedicalNeed {
    /// Name of the XML Schema type this list transcribes.
    pub const XSD_TYPE: &'static str = "MedicalNeedEnumeration";

    /// Every value the schema defines, in schema order.
    pub open spec fn spec_all() -> Seq<MedicalNeed> {
        seq![MedicalNeed::Allergic, MedicalNeed::HeartCondition, MedicalNeed::OtherMedicalNeed]
    }

    /// Every value the schema defines, in schema order.
    pub fn all() -> (values: Vec<Self>)
        ensures
            values@ == Self::spec_all(),
    {
        vec![MedicalNeed::Allergic, MedicalNeed::HeartCondition, MedicalNeed::OtherMedicalNeed]
    }

    /// The token a value is written as on the wire.
    pub open spec fn spec_token(&self) -> Seq<char> {
        match self {
            MedicalNeed::Allergic => "allergic"@,
            MedicalNeed::HeartCondition => "heartCondition"@,
            MedicalNeed::OtherMedicalNeed => "otherMedicalNeed"@,
            MedicalNeed::Unrecognised(token) => token@,
        }
    }

    /// The value the schema defines for a token, if it defines one.
    pub open spec fn spec_listed(token: Seq<char>) -> Option<MedicalNeed> {
        if token == "allergic"@ {
            Some(MedicalNeed::Allergic)
        } else if token == "heartCondition"@ {
            Some(MedicalNeed::HeartCondition)
        } else if token == "otherMedicalNeed"@ {
            Some(MedicalNeed::OtherMedicalNeed)
        } else {
            None
        }
    }

    /// The value a wire token denotes: the listed variant when the schema defines
    /// the token, `Unrecognised` holding the token otherwise.
    pub fn from_token(token: &str) -> (result: Self)
        ensures
            result.spec_token() == token@,
            match Self::spec_listed(token@) {
                Some(listed) => result == listed,
                None => result is Unrecognised,
            },
    {
        let owned: String = token.to_owned();
        if owned == "allergic".to_owned() {
            MedicalNeed::Allergic
        } else if owned == "heartCondition".to_owned() {
            MedicalNeed::HeartCondition
        } else if owned == "otherMedicalNeed".to_owned() {
            MedicalNeed::OtherMedicalNeed
        } else {
            MedicalNeed::Unrecognised(owned)
        }
    }

    /// The token this value is written as on the wire.
    pub fn as_str(&self) -> (token: &str)
        ensures
            token@ == self.spec_token(),
    {
        match self {
            MedicalNeed::Allergic => "allergic",
            MedicalNeed::HeartCondition => "heartCondition",
            MedicalNeed::OtherMedicalNeed => "otherMedicalNeed",
            MedicalNeed::Unrecognised(token) => token.as_str(),
        }
    }
}

/// The `MetroSubmodesOfTransportEnumeration` code list.
#[derive(Debug, Clone, PartialEq, Eq, PartialOrd, Ord, Hash)]
pub enum MetroSubmodesOfTransport {
    /// `unknown`
    Unknown,
    /// `undefined`
    Undefined,
    /// `metro`
    Metro,
    /// `tube`
    Tube,
    /// `urbanRailway`
    UrbanRailway,
    /// A token this list does not define, kept as it was read.
    Unrecognised(String),
}

impl core::str::FromStr for MetroSubmodesOfTransport {
    type Err = core::convert::Infallible;

    /// Every token is a value, so this never fails; see `from_token`.
    fn from_str(token: &str) -> (result: Result<Self, Self::Err>)
        ensures
            result matches Ok(value) && value.spec_token() == token@ && match Self::spec_listed(
                token@,
            ) {
                Some(listed) => value == listed,
                None => value is Unrecognised,
            },
    {
        Ok(Self::from_token(token))
    }
}

impl MetroSubmodesOfTransport {
    /// Name of the XML Schema type this list transcribes.
    pub const XSD_TYPE: &'static str = "MetroSubmodesOfTransportEnumeration";

    /// Every value the schema defines, in schema order.
    pub open spec fn spec_all() -> Seq<MetroSubmodesOfTransport> {
        seq![MetroSubmodesOfTransport::Unknown, MetroSubmodesOfTransport::Undefined, MetroSubmodesOfTransport::Metro, MetroSubmodesOfTransport::Tube, MetroSubmodesOfTransport::UrbanRailway]
    }

    /// Every value the schema defines, in schema order.
    pub fn all() -> (values: Vec<Self>)
        ensures
            values@ == Self::spec_all(),
    {
        vec![MetroSubmodesOfTransport::Unknown, MetroSubmodesOfTransport::Undefined, MetroSubmodesOfTransport::Metro, MetroSubmodesOfTransport::Tube, MetroSubmodesOfTransport::UrbanRailway]
    }

    /// The token a value is written as on the wire.
    pub open spec fn spec_token(&self) -> Seq<char> {
        match self {
            MetroSubmodesOfTransport::Unknown => "unknown"@,
            MetroSubmodesOfTransport::Undefined => "undefined"@,
            MetroSubmodesOfTransport::Metro => "metro"@,
            MetroSubmodesOfTransport::Tube => "tube"@,
            MetroSubmodesOfTransport::UrbanRailway => "urbanRailway"@,
            MetroSubmodesOfTransport::Unrecognised(token) => token@,
        }
    }

    /// The value the schema defines for a token, if it defines one.
    pub open spec fn spec_listed(token: Seq<char>) -> Option<MetroSubmodesOfTransport> {
        if token == "unknown"@ {
            Some(MetroSubmodesOfTransport::Unknown)
        } else if token == "undefined"@ {
            Some(MetroSubmodesOfTransport::Undefined)
        } else if token == "metro"@ {
            Some(MetroSubmodesOfTransport::Metro)
        } else if token == "tube"@ {
            Some(MetroSubmodesOfTransport::Tube)
        } else if token == "urbanRailway"@ {
            Some(MetroSubmodesOfTransport::UrbanRailway)
        } else {
            None
        }
    }

    /// The value a wire token denotes: the listed variant when the schema defines
    /// the token, `Unrecognised` holding the token otherwise.
    pub fn from_token(token: &str) -> (result: Self)
        ensures
            result.spec_token() == token@,
            match Self::spec_listed(token@) {
                Some(listed) => result == listed,
                None => result is Unrecognised,
            },
    {
        let owned: String = token.to_owned();
        if owned == "unknown".to_owned() {
            MetroSubmodesOfTransport::Unknown
        } else if owned == "undefined".to_owned() {
            MetroSubmodesOfTransport::Undefined
        } else if owned == "metro".to_owned() {
            MetroSubmodesOfTransport::Metro
        } else if owned == "tube".to_owned() {
            MetroSubmodesOfTransport::Tube
        } else if owned == "urbanRailway".to_owned() {
            MetroSubmodesOfTransport::UrbanRailway
        } else {
            MetroSubmodesOfTransport::Unrecognised(owned)
        }
    }

    /// The token this value is written as on the wire.
    pub fn as_str(&self) -> (token: &str)
        ensures
            token@ == self.spec_token(),
    {
        match self {
            MetroSubmodesOfTransport::Unknown => "unknown",
            MetroSubmodesOfTransport::Undefined => "undefined",
            MetroSubmodesOfTransport::Metro => "metro",
            MetroSubmodesOfTransport::Tube => "tube",
            MetroSubmodesOfTransport::UrbanRailway => "urbanRailway",
            MetroSubmodesOfTransport::Unrecognised(token) => token.as_str(),
        }
    }
}

/// The `MobilityEnumeration` code list.
#[derive(Debug, Clone, PartialEq, Eq, PartialOrd, Ord, Hash)]
pub enum Mobility {
    /// `wheelchair`
    Wheelchair,
    /// `assistedWheelchair`
    AssistedWheelchair,
    /// `motorizedWheelchair`
    MotorizedWheelchair,
    /// `walkingFrame`
    WalkingFrame,
    /// `restrictedMobility`
    RestrictedMobility,
    /// `otherMobilityNeed`
    OtherMobilityNeed,
    /// A token this list does not define, kept as it was read.
    Unrecognised(String),
}

impl core::str::FromStr for Mobility {
    type Err = core::convert::Infallible;

    /// Every token is a value, so this never fails; see `from_token`.
    fn from_str(token: &str) -> (result: Result<Self, Self::Err>)
        ensures
            result matches Ok(value) && value.spec_token() == token@ && match Self::spec_listed(
                token@,
            ) {
                Some(listed) => value == listed,
                None => value is Unrecognised,
            },
    {
        Ok(Self::from_token(token))
    }
}

impl Mobility {
    /// Name of the XML Schema type this list transcribes.
    pub const XSD_TYPE: &'static str = "MobilityEnumeration";

    /// Every value the schema defines, in schema order.
    pub open spec fn spec_all() -> Seq<Mobility> {
        seq![Mobility::Wheelchair, Mobility::AssistedWheelchair, Mobility::MotorizedWheelchair, Mobility::WalkingFrame, Mobility::RestrictedMobility, Mobility::OtherMobilityNeed]
    }

    /// Every value the schema defines, in schema order.
    pub fn all() -> (values: Vec<Self>)
        ensures
            values@ == Self::spec_all(),
    {
        vec![Mobility::Wheelchair, Mobility::AssistedWheelchair, Mobility::MotorizedWheelchair, Mobility::WalkingFrame, Mobility::RestrictedMobility, Mobility::OtherMobilityNeed]
    }

    /// The token a value is written as on the wire.
    pub open spec fn spec_token(&self) -> Seq<char> {
        match self {
            Mobility::Wheelchair => "wheelchair"@,
            Mobility::AssistedWheelchair => "assistedWheelchair"@,
            Mobility::MotorizedWheelchair => "motorizedWheelchair"@,
            Mobility::WalkingFrame => "walkingFrame"@,
            Mobility::RestrictedMobility => "restrictedMobility"@,
            Mobility::OtherMobilityNeed => "otherMobilityNeed"@,
            Mobility::Unrecognised(token) => token@,
        }
    }

    /// The value the schema defines for a token, if it defines one.
    pub open spec fn spec_listed(token: Seq<char>) -> Option<Mobility> {
        if token == "wheelchair"@ {
            Some(Mobility::Wheelchair)
        } else if token == "assistedWheelchair"@ {
            Some(Mobility::AssistedWheelchair)
        } else if token == "motorizedWheelchair"@ {
            Some(Mobility::MotorizedWheelchair)
        } else if token == "walkingFrame"@ {
            Some(Mobility::WalkingFrame)
        } else if token == "restrictedMobility"@ {
            Some(Mobility::RestrictedMobility)
        } else if token == "otherMobilityNeed"@ {
            Some(Mobility::OtherMobilityNeed)
        } else {
            None
        }
    }

    /// The value a wire token denotes: the listed variant when the schema defines
    /// the token, `Unrecognised` holding the token otherwise.
    pub fn from_token(token: &str) -> (result: Self)
        ensures
            result.spec_token() == token@,
            match Self::spec_listed(token@) {
                Some(listed) => result == listed,
                None => result is Unrecognised,
            },
    {
        let owned: String = token.to_owned();
        if owned == "wheelchair".to_owned() {
            Mobility::Wheelchair
        } else if owned == "assistedWheelchair".to_owned() {
            Mobility::AssistedWheelchair
        } else if owned == "motorizedWheelchair".to_owned() {
            Mobility::MotorizedWheelchair
        } else if owned == "walkingFrame".to_owned() {
            Mobility::WalkingFrame
        } else if owned == "restrictedMobility".to_owned() {
            Mobility::RestrictedMobility
        } else if owned == "otherMobilityNeed".to_owned() {
            Mobility::OtherMobilityNeed
        } else {
            Mobility::Unrecognised(owned)
        }
    }

    /// The token this value is written as on the wire.
    pub fn as_str(&self) -> (token: &str)
        ensures
            token@ == self.spec_token(),
    {
        match self {
            Mobility::Wheelchair => "wheelchair",
            Mobility::AssistedWheelchair => "assistedWheelchair",
            Mobility::MotorizedWheelchair => "motorizedWheelchair",
            Mobility::WalkingFrame => "walkingFrame",
            Mobility::RestrictedMobility => "restrictedMobility",
            Mobility::OtherMobilityNeed => "otherMobilityNeed",
            Mobility::Unrecognised(token) => token.as_str(),
        }
    }
}

/// The `MobilityFacilityEnumeration` code list.
#[derive(Debug, Clone, PartialEq, Eq, PartialOrd, Ord, Hash)]
pub enum MobilityFacility {
    /// `unknown`
    Unknown,
    /// `lowFloor`
    LowFloor,
    /// `stepFreeAccess`
    StepFreeAccess,
    /// `suitableForWheelchairs`
    SuitableForWheelchairs,
    /// `boardingAssistance`
    BoardingAssistance,
    /// `onboardAssistance`
    OnboardAssistance,
    /// `unaccompaniedMinorAssistance`
    UnaccompaniedMinorAssistance,
    /// `tactilePlatformEdges`
    TactilePlatformEdges,
    /// `tactileGuidingStrips`
    TactileGuidingStrips,
    /// A token this list does not define, kept as it was read.
    Unrecognised(String),
}

impl core::str::FromStr for MobilityFacility {
    type Err = core::convert::Infallible;

    /// Every token is a value, so this never fails; see `from_token`.
    fn from_str(token: &str) -> (result: Result<Self, Self::Err>)
        ensures
            result matches Ok(value) && value.spec_token() == token@ && match Self::spec_listed(
                token@,
            ) {
                Some(listed) => value == listed,
                None => value is Unrecognised,
            },
    {
        Ok(Self::from_token(token))
    }
}

impl MobilityFacility {
    /// Name of the XML Schema type this list transcribes.
    pub const XSD_TYPE: &'static str = "MobilityFacilityEnumeration";

    /// Every value the schema defines, in schema order.
    pub open spec fn spec_all() -> Seq<MobilityFacility> {
        seq![MobilityFacility::Unknown, MobilityFacility::LowFloor, MobilityFacility::StepFreeAccess, MobilityFacility::SuitableForWheelchairs, MobilityFacility::BoardingAssistance, MobilityFacility::OnboardAssistance, MobilityFacility::UnaccompaniedMinorAssistance, MobilityFacility::TactilePlatformEdges, MobilityFacility::TactileGuidingStrips]
    }

    /// Every value the schema defines, in schema order.
    pub fn all() -> (values: Vec<Self>)
        ensures
            values@ == Self::spec_all(),
    {
        vec![MobilityFacility::Unknown, MobilityFacility::LowFloor, MobilityFacility::StepFreeAccess, MobilityFacility::SuitableForWheelchairs, MobilityFacility::BoardingAssistance, MobilityFacility::OnboardAssistance, MobilityFacility::UnaccompaniedMinorAssistance, MobilityFacility::TactilePlatformEdges, MobilityFacility::TactileGuidingStrips]
    }

    /// The token a value is written as on the wire.
    pub open spec fn spec_token(&self) -> Seq<char> {
        match self {
            MobilityFacility::Unknown => "unknown"@,
            MobilityFacility::LowFloor => "lowFloor"@,
            MobilityFacility::StepFreeAccess => "stepFreeAccess"@,
            MobilityFacility::SuitableForWheelchairs => "suitableForWheelchairs"@,
            MobilityFacility::BoardingAssistance => "boardingAssistance"@,
            MobilityFacility::OnboardAssistance => "onboardAssistance"@,
            MobilityFacility::UnaccompaniedMinorAssistance => "unaccompaniedMinorAssistance"@,
            MobilityFacility::TactilePlatformEdges => "tactilePlatformEdges"@,
            MobilityFacility::TactileGuidingStrips => "tactileGuidingStrips"@,
            MobilityFacility::Unrecognised(token) => token@,
        }
    }

    /// The value the schema defines for a token, if it defines one.
    pub open spec fn spec_listed(token: Seq<char>) -> Option<MobilityFacility> {
        if token == "unknown"@ {
            Some(MobilityFacility::Unknown)
        } else if token == "lowFloor"@ {
            Some(MobilityFacility::LowFloor)
        } else if token == "stepFreeAccess"@ {
            Some(MobilityFacility::StepFreeAccess)
        } else if token == "suitableForWheelchairs"@ {
            Some(MobilityFacility::SuitableForWheelchairs)
        } else if token == "boardingAssistance"@ {
            Some(MobilityFacility::BoardingAssistance)
        } else if token == "onboardAssistance"@ {
            Some(MobilityFacility::OnboardAssistance)
        } else if token == "unaccompaniedMinorAssistance"@ {
            Some(MobilityFacility::UnaccompaniedMinorAssistance)
        } else if token == "tactilePlatformEdges"@ {
            Some(MobilityFacility::TactilePlatformEdges)
        } else if token == "tactileGuidingStrips"@ {
            Some(MobilityFacility::TactileGuidingStrips)
        } else {
            None
        }
    }

    /// The value a wire token denotes: the listed variant when the schema defines
    /// the token, `Unrecognised` holding the token otherwise.
    pub fn from_token(token: &str) -> (result: Self)
        ensures
            result.spec_token() == token@,
            match Self::spec_listed(token@) {
                Some(listed) => result == listed,
                None => result is Unrecognised,
            },
    {
        let owned: String = token.to_owned();
        if owned == "unknown".to_owned() {
            MobilityFacility::Unknown
        } else if owned == "lowFloor".to_owned() {
            MobilityFacility::LowFloor
        } else if owned == "stepFreeAccess".to_owned() {
            MobilityFacility::StepFreeAccess
        } else if owned == "suitableForWheelchairs".to_owned() {
            MobilityFacility::SuitableForWheelchairs
        } else if owned == "boardingAssistance".to_owned() {
            MobilityFacility::BoardingAssistance
        } else if owned == "onboardAssistance".to_owned() {
            MobilityFacility::OnboardAssistance
        } else if owned == "unaccompaniedMinorAssistance".to_owned() {
            MobilityFacility::UnaccompaniedMinorAssistance
        } else if owned == "tactilePlatformEdges".to_owned() {
            MobilityFacility::TactilePlatformEdges
        } else if owned == "tactileGuidingStrips".to_owned() {
            MobilityFacility::TactileGuidingStrips
        } else {
            MobilityFacility::Unrecognised(owned)
        }
    }

    /// The token this value is written as on the wire.
    pub fn as_str(&self) -> (token: &str)
        ensures
            token@ == self.spec_token(),
    {
        match self {
            MobilityFacility::Unknown => "unknown",
            MobilityFacility::LowFloor => "lowFloor",
            MobilityFacility::StepFreeAccess => "stepFreeAccess",
            MobilityFacility::SuitableForWheelchairs => "suitableForWheelchairs",
            MobilityFacility::BoardingAssistance => "boardingAssistance",
            MobilityFacility::OnboardAssistance => "onboardAssistance",
            MobilityFacility::UnaccompaniedMinorAssistance => "unaccompaniedMinorAssistance",
            MobilityFacility::TactilePlatformEdges => "tactilePlatformEdges",
            MobilityFacility::TactileGuidingStrips => "tactileGuidingStrips",
            MobilityFacility::Unrecognised(token) => token.as_str(),
        }
    }
}

/// The `MonitoringTypeEnumeration` code list.
#[derive(Debug, Clone, PartialEq, Eq, PartialOrd, Ord, Hash)]
pub enum MonitoringType {
    /// `unknown`
    Unknown,
    /// `manual`
    Manual,
    /// `automatic`
    Automatic,
    /// A token this list does not define, kept as it was read.
    Unrecognised(String),
}

impl core::str::FromStr for MonitoringType {
    type Err = core::convert::Infallible;

    /// Every token is a value, so this never fails; see `from_token`.
    fn from_str(token: &str) -> (result: Result<Self, Self::Err>)
        ensures
            result matches Ok(value) && value.spec_token() == token@ && match Self::spec_listed(
                token@,
            ) {
                Some(listed) => value == listed,
                None => value is Unrecognised,
            },
    {
        Ok(Self::from_token(token))
    }
}

impl MonitoringType {
    /// Name of the XML Schema type this list transcribes.
    pub const XSD_TYPE: &'static str = "MonitoringTypeEnumeration";

    /// Every value the schema defines, in schema order.
    pub open spec fn spec_all() -> Seq<MonitoringType> {
        seq![MonitoringType::Unknown, MonitoringType::Manual, MonitoringType::Automatic]
    }

    /// Every value the schema defines, in schema order.
    pub fn all() -> (values: Vec<Self>)
        ensures
            values@ == Self::spec_all(),
    {
        vec![MonitoringType::Unknown, MonitoringType::Manual, MonitoringType::Automatic]
    }

    /// The token a value is written as on the wire.
    pub open spec fn spec_token(&self) -> Seq<char> {
        match self {
            MonitoringType::Unknown => "unknown"@,
            MonitoringType::Manual => "manual"@,
            MonitoringType::Automatic => "automatic"@,
            MonitoringType::Unrecognised(token) => token@,
        }
    }

    /// The value the schema defines for a token, if it defines one.
    pub open spec fn spec_listed(token: Seq<char>) -> Option<MonitoringType> {
        if token == "unknown"@ {
            Some(MonitoringType::Unknown)
        } else if token == "manual"@ {
            Some(MonitoringType::Manual)
        } else if token == "automatic"@ {
            Some(MonitoringType::Automatic)
        } else {
            None
        }
    }

    /// The value a wire token denotes: the listed variant when the schema defines
    /// the token, `Unrecognised` holding the token otherwise.
    pub fn from_token(token: &str) -> (result: Self)
        ensures
            result.spec_token() == token@,
            match Self::spec_listed(token@) {
                Some(listed) => result == listed,
                None => result is Unrecognised,
            },
    {
        let owned: String = token.to_owned();
        if owned == "unknown".to_owned() {
            MonitoringType::Unknown
        } else if owned == "manual".to_owned() {
            MonitoringType::Manual
        } else if owned == "automatic".to_owned() {
            MonitoringType::Automatic
        } else {
            MonitoringType::Unrecognised(owned)
        }
    }

    /// The token this value is written as on the wire.
    pub fn as_str(&self) -> (token: &str)
        ensures
            token@ == self.spec_token(),
    {
        match self {
            MonitoringType::Unknown => "unknown",
            MonitoringType::Manual => "manual",
            MonitoringType::Automatic => "automatic",
            MonitoringType::Unrecognised(token) => token.as_str(),
        }
    }
}

/// The `NuisanceFacilityEnumeration` code list.
#[derive(Debug, Clone, PartialEq, Eq, PartialOrd, Ord, Hash)]
pub enum NuisanceFacility {
    /// `unknown`
    Unknown,
    /// `smoking`
    Smoking,
    /// `noSmoking`
    NoSmoking,
    /// `mobilePhoneUseZone`
    MobilePhoneUseZone,
    /// `mobilePhoneFreeZone`
    MobilePhoneFreeZone,
    /// `familyArea`
    FamilyArea,
    /// `childfreeArea`
    ChildfreeArea,
    /// A token this list does not define, kept as it was read.
    Unrecognised(String),
}

impl core::str::FromStr for NuisanceFacility {
    type Err = core::convert::Infallible;

    /// Every token is a value, so this never fails; see `from_token`.
    fn from_str(token: &str) -> (result: Result<Self, Self::Err>)
        ensures
            result matches Ok(value) && value.spec_token() == token@ && match Self::spec_listed(
                token@,
            ) {
                Some(listed) => value == listed,
                None => value is Unrecognised,
            },
    {
        Ok(Self::from_token(token))
    }
}

impl NuisanceFacility {
    /// Name of the XML Schema type this list transcribes.
    pub const XSD_TYPE: &'static str = "NuisanceFacilityEnumeration";

    /// Every value the schema defines, in schema order.
    pub open spec fn spec_all() -> Seq<NuisanceFacility> {
        seq![NuisanceFacility::Unknown, NuisanceFacility::Smoking, NuisanceFacility::NoSmoking, NuisanceFacility::MobilePhoneUseZone, NuisanceFacility::MobilePhoneFreeZone, NuisanceFacility::FamilyArea, NuisanceFacility::ChildfreeArea]
    }

    /// Every value the schema defines, in schema order.
    pub fn all() -> (values: Vec<Self>)
        ensures
            values@ == Self::spec_all(),
    {
        vec![NuisanceFacility::Unknown, NuisanceFacility::Smoking, NuisanceFacility::NoSmoking, NuisanceFacility::MobilePhoneUseZone, NuisanceFacility::MobilePhoneFreeZone, NuisanceFacility::FamilyArea, NuisanceFacility::ChildfreeArea]
    }

    /// The token a value is written as on the wire.
    pub open spec fn spec_token(&self) -> Seq<char> {
        match self {
            NuisanceFacility::Unknown => "unknown"@,
            NuisanceFacility::Smoking => "smoking"@,
            NuisanceFacility::NoSmoking => "noSmoking"@,
            NuisanceFacility::MobilePhoneUseZone => "mobilePhoneUseZone"@,
            NuisanceFacility::MobilePhoneFreeZone => "mobilePhoneFreeZone"@,
            NuisanceFacility::FamilyArea => "familyArea"@,
            NuisanceFacility::ChildfreeArea => "childfreeArea"@,
            NuisanceFacility::Unrecognised(token) => token@,
        }
    }

    /// The value the schema defines for a token, if it defines one.
    pub open spec fn spec_listed(token: Seq<char>) -> Option<NuisanceFacility> {
        if token == "unknown"@ {
            Some(NuisanceFacility::Unknown)
        } else if token == "smoking"@ {
            Some(NuisanceFacility::Smoking)
        } else if token == "noSmoking"@ {
            Some(NuisanceFacility::NoSmoking)
        } else if token == "mobilePhoneUseZone"@ {
            Some(NuisanceFacility::MobilePhoneUseZone)
        } else if token == "mobilePhoneFreeZone"@ {
            Some(NuisanceFacility::MobilePhoneFreeZone)
        } else if token == "familyArea"@ {
            Some(NuisanceFacility::FamilyArea)
        } else if token == "childfreeArea"@ {
            Some(NuisanceFacility::ChildfreeArea)
        } else {
            None
        }
    }

    /// The value a wire token denotes: the listed variant when the schema defines
    /// the token, `Unrecognised` holding the token otherwise.
    pub fn from_token(token: &str) -> (result: Self)
        ensures
            result.spec_token() == token@,
            match Self::spec_listed(token@) {
                Some(listed) => result == listed,
                None => result is Unrecognised,
            },
    {
        let owned: String = token.to_owned();
        if owned == "unknown".to_owned() {
            NuisanceFacility::Unknown
        } else if owned == "smoking".to_owned() {
            NuisanceFacility::Smoking
        } else if owned == "noSmoking".to_owned() {
            NuisanceFacility::NoSmoking
        } else if owned == "mobilePhoneUseZone".to_owned() {
            NuisanceFacility::MobilePhoneUseZone
        } else if owned == "mobilePhoneFreeZone".to_owned() {
            NuisanceFacility::MobilePhoneFreeZone
        } else if owned == "familyArea".to_owned() {
            NuisanceFacility::FamilyArea
        } else if owned == "childfreeArea".to_owned() {
            NuisanceFacility::ChildfreeArea
        } else {
            NuisanceFacility::Unrecognised(owned)
        }
    }

    /// The token this value is written as on the wire.
    pub fn as_str(&self) -> (token: &str)
        ensures
            token@ == self.spec_token(),
    {
        match self {
            NuisanceFacility::Unknown => "unknown",
            NuisanceFacility::Smoking => "smoking",
            NuisanceFacility::NoSmoking => "noSmoking",
            NuisanceFacility::MobilePhoneUseZone => "mobilePhoneUseZone",
            NuisanceFacility::MobilePhoneFreeZone => "mobilePhoneFreeZone",
            NuisanceFacility::FamilyArea => "familyArea",
            NuisanceFacility::ChildfreeArea => "childfreeArea",
            NuisanceFacility::Unrecognised(token) => token.as_str(),
        }
    }
}

/// The `OccupancyEnumeration` code list.
#[derive(Debug, Clone, PartialEq, Eq, PartialOrd, Ord, Hash)]
pub enum Occupancy {
    /// `unknown`
    Unknown,
    /// `empty`
    Empty,
    /// `manySeatsAvailable`
    ManySeatsAvailable,
    /// `fewSeatsAvailable`
    FewSeatsAvailable,
    /// `standingRoomOnly`
    StandingRoomOnly,
    /// `crushedStandingRoomOnly`
    CrushedStandingRoomOnly,
    /// `full`
    Full,
    /// `notAcceptingPassengers`
    NotAcceptingPassengers,
    /// `seatsAvailable`
    SeatsAvailable,
    /// `standingAvailable`
    StandingAvailable,
    /// A token this list does not define, kept as it was read.
    Unrecognised(String),
}

impl core::str::FromStr for Occupancy {
    type Err = core::convert::Infallible;

    /// Every token is a value, so this never fails; see `from_token`.
    fn from_str(token: &str) -> (result: Result<Self, Self::Err>)
        ensures
            result matches Ok(value) && value.spec_token() == token@ && match Self::spec_listed(
                token@,
            ) {
                Some(listed) => value == listed,
                None => value is Unrecognised,
            },
    {
        Ok(Self::from_token(token))
    }
}

impl Occupancy {
    /// Name of the XML Schema type this list transcribes.
    pub const XSD_TYPE: &'static str = "OccupancyEnumeration";

    /// Every value the schema defines, in schema order.
    pub open spec fn spec_all() -> Seq<Occupancy> {
        seq![Occupancy::Unknown, Occupancy::Empty, Occupancy::ManySeatsAvailable, Occupancy::FewSeatsAvailable, Occupancy::StandingRoomOnly, Occupancy::CrushedStandingRoomOnly, Occupancy::Full, Occupancy::NotAcceptingPassengers, Occupancy::SeatsAvailable, Occupancy::StandingAvailable]
    }

    /// Every value the schema defines, in schema order.
    pub fn all() -> (values: Vec<Self>)
        ensures
            values@ == Self::spec_all(),
    {
        vec![Occupancy::Unknown, Occupancy::Empty, Occupancy::ManySeatsAvailable, Occupancy::FewSeatsAvailable, Occupancy::StandingRoomOnly, Occupancy::CrushedStandingRoomOnly, Occupancy::Full, Occupancy::NotAcceptingPassengers, Occupancy::SeatsAvailable, Occupancy::StandingAvailable]
    }

    /// The token a value is written as on the wire.
    pub open spec fn spec_token(&self) -> Seq<char> {
        match self {
            Occupancy::Unknown => "unknown"@,
            Occupancy::Empty => "empty"@,
            Occupancy::ManySeatsAvailable => "manySeatsAvailable"@,
            Occupancy::FewSeatsAvailable => "fewSeatsAvailable"@,
            Occupancy::StandingRoomOnly => "standingRoomOnly"@,
            Occupancy::CrushedStandingRoomOnly => "crushedStandingRoomOnly"@,
            Occupancy::Full => "full"@,
            Occupancy::NotAcceptingPassengers => "notAcceptingPassengers"@,
            Occupancy::SeatsAvailable => "seatsAvailable"@,
            Occupancy::StandingAvailable => "standingAvailable"@,
            Occupancy::Unrecognised(token) => token@,
        }
    }

    /// The value the schema defines for a token, if it defines one.
    pub open spec fn spec_listed(token: Seq<char>) -> Option<Occupancy> {
        if token == "unknown"@ {
            Some(Occupancy::Unknown)
        } else if token == "empty"@ {
            Some(Occupancy::Empty)
        } else if token == "manySeatsAvailable"@ {
            Some(Occupancy::ManySeatsAvailable)
        } else if token == "fewSeatsAvailable"@ {
            Some(Occupancy::FewSeatsAvailable)
        } else if token == "standingRoomOnly"@ {
            Some(Occupancy::StandingRoomOnly)
        } else if token == "crushedStandingRoomOnly"@ {
            Some(Occupancy::CrushedStandingRoomOnly)
        } else if token == "full"@ {
            Some(Occupancy::Full)
        } else if token == "notAcceptingPassengers"@ {
            Some(Occupancy::NotAcceptingPassengers)
        } else if token == "seatsAvailable"@ {
            Some(Occupancy::SeatsAvailable)
        } else if token == "standingAvailable"@ {
            Some(Occupancy::StandingAvailable)
        } else {
            None
        }
    }

    /// The value a wire token denotes: the listed variant when the schema defines
    /// the token, `Unrecognised` holding the token otherwise.
    pub fn from_token(token: &str) -> (result: Self)
        ensures
            result.spec_token() == token@,
            match Self::spec_listed(token@) {
                Some(listed) => result == listed,
                None => result is Unrecognised,
            },
    {
        let owned: String = token.to_owned();
        if owned == "unknown".to_owned() {
            Occupancy::Unknown
        } else if owned == "empty".to_owned() {
            Occupancy::Empty
        } else if owned == "manySeatsAvailable".to_owned() {
            Occupancy::ManySeatsAvailable
        } else if owned == "fewSeatsAvailable".to_owned() {
            Occupancy::FewSeatsAvailable
        } else if owned == "standingRoomOnly".to_owned() {
            Occupancy::StandingRoomOnly
        } else if owned == "crushedStandingRoomOnly".to_owned() {
            Occupancy::CrushedStandingRoomOnly
        } else if owned == "full".to_owned() {
            Occupancy::Full
        } else if owned == "notAcceptingPassengers".to_owned() {
            Occupancy::NotAcceptingPassengers
        } else if owned == "seatsAvailable".to_owned() {
            Occupancy::SeatsAvailable
        } else if owned == "standingAvailable".to_owned() {
            Occupancy::StandingAvailable
        } else {
            Occupancy::Unrecognised(owned)
        }
    }

    /// The token this value is written as on the wire.
    pub fn as_str(&self) -> (token: &str)
        ensures
            token@ == self.spec_token(),
    {
        match self {
            Occupancy::Unknown => "unknown",
            Occupancy::Empty => "empty",
            Occupancy::ManySeatsAvailable => "manySeatsAvailable",
            Occupancy::FewSeatsAvailable => "fewSeatsAvailable",
            Occupancy::StandingRoomOnly => "standingRoomOnly",
            Occupancy::CrushedStandingRoomOnly => "crushedStandingRoomOnly",
            Occupancy::Full => "full",
            Occupancy::NotAcceptingPassengers => "notAcceptingPassengers",
            Occupancy::SeatsAvailable => "seatsAvailable",
            Occupancy::StandingAvailable => "standingAvailable",
            Occupancy::Unrecognised(token) => token.as_str(),
        }
    }
}

/// The `ParkingFacilityEnumeration` code list.
#[derive(Debug, Clone, PartialEq, Eq, PartialOrd, Ord, Hash)]
pub enum ParkingFacility {
    /// `unknown`
    Unknown,
    /// `carPark`
    CarPark,
    /// `parkAndRidePark`
    ParkAndRidePark,
    /// `motorcyclePark`
    MotorcyclePark,
    /// `cyclePark`
    CyclePark,
    /// `rentalCarPark`
    RentalCarPark,
    /// `coachPark`
    CoachPark,
    /// A token this list does not define, kept as it was read.
    Unrecognised(String),
}

impl core::str::FromStr for ParkingFacility {
    type Err = core::convert::Infallible;

    /// Every token is a value, so this never fails; see `from_token`.
    fn from_str(token: &str) -> (result: Result<Self, Self::Err>)
        ensures
            result matches Ok(value) && value.spec_token() == token@ && match Self::spec_listed(
                token@,
            ) {
                Some(listed) => value == listed,
                None => value is Unrecognised,
            },
    {
        Ok(Self::from_token(token))
    }
}

impl ParkingFacility {
    /// Name of the XML Schema type this list transcribes.
    pub const XSD_TYPE: &'static str = "ParkingFacilityEnumeration";

    /// Every value the schema defines, in schema order.
    pub open spec fn spec_all() -> Seq<ParkingFacility> {
        seq![ParkingFacility::Unknown, ParkingFacility::CarPark, ParkingFacility::ParkAndRidePark, ParkingFacility::MotorcyclePark, ParkingFacility::CyclePark, ParkingFacility::RentalCarPark, ParkingFacility::CoachPark]
    }

    /// Every value the schema defines, in schema order.
    pub fn all() -> (values: Vec<Self>)
        ensures
            values@ == Self::spec_all(),
    {
        vec![ParkingFacility::Unknown, ParkingFacility::CarPark, ParkingFacility::ParkAndRidePark, ParkingFacility::MotorcyclePark, ParkingFacility::CyclePark, ParkingFacility::RentalCarPark, ParkingFacility::CoachPark]
    }

    /// The token a value is written as on the wire.
    pub open spec fn spec_token(&self) -> Seq<char> {
        match self {
            ParkingFacility::Unknown => "unknown"@,
            ParkingFacility::CarPark => "carPark"@,
            ParkingFacility::ParkAndRidePark => "parkAndRidePark"@,
            ParkingFacility::MotorcyclePark => "motorcyclePark"@,
            ParkingFacility::CyclePark => "cyclePark"@,
            ParkingFacility::RentalCarPark => "rentalCarPark"@,
            ParkingFacility::CoachPark => "coachPark"@,
            ParkingFacility::Unrecognised(token) => token@,
        }
    }

    /// The value the schema defines for a token, if it defines one.
    pub open spec fn spec_listed(token: Seq<char>) -> Option<ParkingFacility> {
        if token == "unknown"@ {
            Some(ParkingFacility::Unknown)
        } else if token == "carPark"@ {
            Some(ParkingFacility::CarPark)
        } else if token == "parkAndRidePark"@ {
            Some(ParkingFacility::ParkAndRidePark)
        } else if token == "motorcyclePark"@ {
            Some(ParkingFacility::MotorcyclePark)
        } else if token == "cyclePark"@ {
            Some(ParkingFacility::CyclePark)
        } else if token == "rentalCarPark"@ {
            Some(ParkingFacility::RentalCarPark)
        } else if token == "coachPark"@ {
            Some(ParkingFacility::CoachPark)
        } else {
            None
        }
    }

    /// The value a wire token denotes: the listed variant when the schema defines
    /// the token, `Unrecognised` holding the token otherwise.
    pub fn from_token(token: &str) -> (result: Self)
        ensures
            result.spec_token() == token@,
            match Self::spec_listed(token@) {
                Some(listed) => result == listed,
                None => result is Unrecognised,
            },
    {
        let owned: String = token.to_owned();
        if owned == "unknown".to_owned() {
            ParkingFacility::Unknown
        } else if owned == "carPark".to_owned() {
            ParkingFacility::CarPark
        } else if owned == "parkAndRidePark".to_owned() {
            ParkingFacility::ParkAndRidePark
        } else if owned == "motorcyclePark".to_owned() {
            ParkingFacility::MotorcyclePark
        } else if owned == "cyclePark".to_owned() {
            ParkingFacility::CyclePark
        } else if owned == "rentalCarPark".to_owned() {
            ParkingFacility::RentalCarPark
        } else if owned == "coachPark".to_owned() {
            ParkingFacility::CoachPark
        } else {
            ParkingFacility::Unrecognised(owned)
        }
    }

    /// The token this value is written as on the wire.
    pub fn as_str(&self) -> (token: &str)
        ensures
            token@ == self.spec_token(),
    {
        match self {
            ParkingFacility::Unknown => "unknown",
            ParkingFacility::CarPark => "carPark",
            ParkingFacility::ParkAndRidePark => "parkAndRidePark",
            ParkingFacility::MotorcyclePark => "motorcyclePark",
            ParkingFacility::CyclePark => "cyclePark",
            ParkingFacility::RentalCarPark => "rentalCarPark",
            ParkingFacility::CoachPark => "coachPark",
            ParkingFacility::Unrecognised(token) => token.as_str(),
        }
    }
}

/// The `PassengerCommsFacilityEnumeration` code list.
#[derive(Debug, Clone, PartialEq, Eq, PartialOrd, Ord, Hash)]
pub enum PassengerCommsFacility {
    /// `unknown`
    Unknown,
    /// `freeWifi`
    FreeWifi,
    /// `publicWifi`
    PublicWifi,
    /// `powerSupplySockets`
    PowerSupplySockets,
    /// `telephone`
    Telephone,
    /// `audioEntertainment`
    AudioEntertainment,
    /// `videoEntertainment`
    VideoEntertainment,
    /// `businessServices`
    BusinessServices,
    /// `internet`
    Internet,
    /// `postoffice`
    Postoffice,
    /// `postbox`
    Postbox,
    /// A token this list does not define, kept as it was read.
    Unrecognised(String),
}

impl core::str::FromStr for PassengerCommsFacility {
    type Err = core::convert::Infallible;

    /// Every token is a value, so this never fails; see `from_token`.
    fn from_str(token: &str) -> (result: Result<Self, Self::Err>)
        ensures
            result matches Ok(value) && value.spec_token() == token@ && match Self::spec_listed(
                token@,
            ) {
                Some(listed) => value == listed,
                None => value is Unrecognised,
            },
    {
        Ok(Self::from_token(token))
    }
}

impl PassengerCommsFacility {
    /// Name of the XML Schema type this list transcribes.
    pub const XSD_TYPE: &'static str = "PassengerCommsFacilityEnumeration";

    /// Every value the schema defines, in schema order.
    pub open spec fn spec_all() -> Seq<PassengerCommsFacility> {
        seq![PassengerCommsFacility::Unknown, PassengerCommsFacility::FreeWifi, PassengerCommsFacility::PublicWifi, PassengerCommsFacility::PowerSupplySockets, PassengerCommsFacility::Telephone, PassengerCommsFacility::AudioEntertainment, PassengerCommsFacility::VideoEntertainment, PassengerCommsFacility::BusinessServices, PassengerCommsFacility::Internet, PassengerCommsFacility::Postoffice, PassengerCommsFacility::Postbox]
    }

    /// Every value the schema defines, in schema order.
    pub fn all() -> (values: Vec<Self>)
        ensures
            values@ == Self::spec_all(),
    {
        vec![PassengerCommsFacility::Unknown, PassengerCommsFacility::FreeWifi, PassengerCommsFacility::PublicWifi, PassengerCommsFacility::PowerSupplySockets, PassengerCommsFacility::Telephone, PassengerCommsFacility::AudioEntertainment, PassengerCommsFacility::VideoEntertainment, PassengerCommsFacility::BusinessServices, PassengerCommsFacility::Internet, PassengerCommsFacility::Postoffice, PassengerCommsFacility::Postbox]
    }

    /// The token a value is written as on the wire.
    pub open spec fn spec_token(&self) -> Seq<char> {
        match self {
            PassengerCommsFacility::Unknown => "unknown"@,
            PassengerCommsFacility::FreeWifi => "freeWifi"@,
            PassengerCommsFacility::PublicWifi => "publicWifi"@,
            PassengerCommsFacility::PowerSupplySockets => "powerSupplySockets"@,
            PassengerCommsFacility::Telephone => "telephone"@,
            PassengerCommsFacility::AudioEntertainment => "audioEntertainment"@,
            PassengerCommsFacility::VideoEntertainment => "videoEntertainment"@,
            PassengerCommsFacility::BusinessServices => "businessServices"@,
            PassengerCommsFacility::Internet => "internet"@,
            PassengerCommsFacility::Postoffice => "postoffice"@,
            PassengerCommsFacility::Postbox => "postbox"@,
            PassengerCommsFacility::Unrecognised(token) => token@,
        }
    }

    /// The value the schema defines for a token, if it defines one.
    pub open spec fn spec_listed(token: Seq<char>) -> Option<PassengerCommsFacility> {
        if token == "unknown"@ {
            Some(PassengerCommsFacility::Unknown)
        } else if token == "freeWifi"@ {
            Some(PassengerCommsFacility::FreeWifi)
        } else if token == "publicWifi"@ {
            Some(PassengerCommsFacility::PublicWifi)
        } else if token == "powerSupplySockets"@ {
            Some(PassengerCommsFacility::PowerSupplySockets)
        } else if token == "telephone"@ {
            Some(PassengerCommsFacility::Telephone)
        } else if token == "audioEntertainment"@ {
            Some(PassengerCommsFacility::AudioEntertainment)
        } else if token == "videoEntertainment"@ {
            Some(PassengerCommsFacility::VideoEntertainment)
        } else if token == "businessServices"@ {
            Some(PassengerCommsFacility::BusinessServices)
        } else if token == "internet"@ {
            Some(PassengerCommsFacility::Internet)
        } else if token == "postoffice"@ {
            Some(PassengerCommsFacility::Postoffice)
        } else if token == "postbox"@ {
            Some(PassengerCommsFacility::Postbox)
        } else {
            None
        }
    }

    /// The value a wire token denotes: the listed variant when the schema defines
    /// the token, `Unrecognised` holding the token otherwise.
    pub fn from_token(token: &str) -> (result: Self)
        ensures
            result.spec_token() == token@,
            match Self::spec_listed(token@) {
                Some(listed) => result == listed,
                None => result is Unrecognised,
            },
    {
        let owned: String = token.to_owned();
        if owned == "unknown".to_owned() {
            PassengerCommsFacility::Unknown
        } else if owned == "freeWifi".to_owned() {
            PassengerCommsFacility::FreeWifi
        } else if owned == "publicWifi".to_owned() {
            PassengerCommsFacility::PublicWifi
        } else if owned == "powerSupplySockets".to_owned() {
            PassengerCommsFacility::PowerSupplySockets
        } else if owned == "telephone".to_owned() {
            PassengerCommsFacility::Telephone
        } else if owned == "audioEntertainment".to_owned() {
            PassengerCommsFacility::AudioEntertainment
        } else if owned == "videoEntertainment".to_owned() {
            PassengerCommsFacility::VideoEntertainment
        } else if owned == "businessServices".to_owned() {
            PassengerCommsFacility::BusinessServices
        } else if owned == "internet".to_owned() {
            PassengerCommsFacility::Internet
        } else if owned == "postoffice".to_owned() {
            PassengerCommsFacility::Postoffice
        } else if owned == "postbox".to_owned() {
            PassengerCommsFacility::Postbox
        } else {
            PassengerCommsFacility::Unrecognised(owned)
        }
    }

    /// The token this value is written as on the wire.
    pub fn as_str(&self) -> (token: &str)
        ensures
            token@ == self.spec_token(),
    {
        match self {
            PassengerCommsFacility::Unknown => "unknown",
            PassengerCommsFacility::FreeWifi => "freeWifi",
            PassengerCommsFacility::PublicWifi => "publicWifi",
            PassengerCommsFacility::PowerSupplySockets => "powerSupplySockets",
            PassengerCommsFacility::Telephone => "telephone",
            PassengerCommsFacility::AudioEntertainment => "audioEntertainment",
            PassengerCommsFacility::VideoEntertainment => "videoEntertainment",
            PassengerCommsFacility::BusinessServices => "businessServices",
            PassengerCommsFacility::Internet => "internet",
            PassengerCommsFacility::Postoffice => "postoffice",
            PassengerCommsFacility::Postbox => "postbox",
            PassengerCommsFacility::Unrecognised(token) => token.as_str(),
        }
    }
}

/// The `PassengerInformationFacilityEnumeration` code list.
#[derive(Debug, Clone, PartialEq, Eq, PartialOrd, Ord, Hash)]
pub enum PassengerInformationFacility {
    /// `nextStopIndicator`
    NextStopIndicator,
    /// `stopAnnouncements`
    StopAnnouncements,
    /// `passengerInformationDisplay`
    PassengerInformationDisplay,
    /// `realTimeConnections`
    RealTimeConnections,
    /// `other`
    Other,
    /// A token this list does not define, kept as it was read.
    Unrecognised(String),
}

impl core::str::FromStr for PassengerInformationFacility {
    type Err = core::convert::Infallible;

    /// Every token is a value, so this never fails; see `from_token`.
    fn from_str(token: &str) -> (result: Result<Self, Self::Err>)
        ensures
            result matches Ok(value) && value.spec_token() == token@ && match Self::spec_listed(
                token@,
            ) {
                Some(listed) => value == listed,
                None => value is Unrecognised,
            },
    {
        Ok(Self::from_token(token))
    }
}

impl PassengerInformationFacility {
    /// Name of the XML Schema type this list transcribes.
    pub const XSD_TYPE: &'static str = "PassengerInformationFacilityEnumeration";

    /// Every value the schema defines, in schema order.
    pub open spec fn spec_all() -> Seq<PassengerInformationFacility> {
        seq![PassengerInformationFacility::NextStopIndicator, PassengerInformationFacility::StopAnnouncements, PassengerInformationFacility::PassengerInformationDisplay, PassengerInformationFacility::RealTimeConnections, PassengerInformationFacility::Other]
    }

    /// Every value the schema defines, in schema order.
    pub fn all() -> (values: Vec<Self>)
        ensures
            values@ == Self::spec_all(),
    {
        vec![PassengerInformationFacility::NextStopIndicator, PassengerInformationFacility::StopAnnouncements, PassengerInformationFacility::PassengerInformationDisplay, PassengerInformationFacility::RealTimeConnections, PassengerInformationFacility::Other]
    }

    /// The token a value is written as on the wire.
    pub open spec fn spec_token(&self) -> Seq<char> {
        match self {
            PassengerInformationFacility::NextStopIndicator => "nextStopIndicator"@,
            PassengerInformationFacility::StopAnnouncements => "stopAnnouncements"@,
            PassengerInformationFacility::PassengerInformationDisplay => "passengerInformationDisplay"@,
            PassengerInformationFacility::RealTimeConnections => "realTimeConnections"@,
            PassengerInformationFacility::Other => "other"@,
            PassengerInformationFacility::Unrecognised(token) => token@,
        }
    }

    /// The value the schema defines for a token, if it defines one.
    pub open spec fn spec_listed(token: Seq<char>) -> Option<PassengerInformationFacility> {
        if token == "nextStopIndicator"@ {
            Some(PassengerInformationFacility::NextStopIndicator)
        } else if token == "stopAnnouncements"@ {
            Some(PassengerInformationFacility::StopAnnouncements)
        } else if token == "passengerInformationDisplay"@ {
            Some(PassengerInformationFacility::PassengerInformationDisplay)
        } else if token == "realTimeConnections"@ {
            Some(PassengerInformationFacility::RealTimeConnections)
        } else if token == "other"@ {
            Some(PassengerInformationFacility::Other)
        } else {
            None
        }
    }

    /// The value a wire token denotes: the listed variant when the schema defines
    /// the token, `Unrecognised` holding the token otherwise.
    pub fn from_token(token: &str) -> (result: Self)
        ensures
            result.spec_token() == token@,
            match Self::spec_listed(token@) {
                Some(listed) => result == listed,
                None => result is Unrecognised,
            },
    {
        let owned: String = token.to_owned();
        if owned == "nextStopIndicator".to_owned() {
            PassengerInformationFacility::NextStopIndicator
        } else if owned == "stopAnnouncements".to_owned() {
            PassengerInformationFacility::StopAnnouncements
        } else if owned == "passengerInformationDisplay".to_owned() {
            PassengerInformationFacility::PassengerInformationDisplay
        } else if owned == "realTimeConnections".to_owned() {
            PassengerInformationFacility::RealTimeConnections
        } else if owned == "other".to_owned() {
            PassengerInformationFacility::Other
        } else {
            PassengerInformationFacility::Unrecognised(owned)
        }
    }

    /// The token this value is written as on the wire.
    pub fn as_str(&self) -> (token: &str)
        ensures
            token@ == self.spec_token(),
    {
        match self {
            PassengerInformationFacility::NextStopIndicator => "nextStopIndicator",
            PassengerInformationFacility::StopAnnouncements => "stopAnnouncements",
            PassengerInformationFacility::PassengerInformationDisplay => "passengerInformationDisplay",
            PassengerInformationFacility::RealTimeConnections => "realTimeConnections",
            PassengerInformationFacility::Other => "other",
            PassengerInformationFacility::Unrecognised(token) => token.as_str(),
        }
    }
}

/// The `PredictionInaccurateReasonEnumeration` code list.
#[derive(Debug, Clone, PartialEq, Eq, PartialOrd, Ord, Hash)]
pub enum PredictionInaccurateReason {
    /// `unknown`
    Unknown,
    /// `trafficJam`
    TrafficJam,
    /// `technicalProblem`
    TechnicalProblem,
    /// `despatchingIntervention`
    DespatchingIntervention,
    /// `communicationProblem`
    CommunicationProblem,
    /// `other`
    Other,
    /// A token this list does not define, kept as it was read.
    Unrecognised(String),
}

impl core::str::FromStr for PredictionInaccurateReason {
    type Err = core::convert::Infallible;

    /// Every token is a value, so this never fails; see `from_token`.
    fn from_str(token: &str) -> (result: Result<Self, Self::Err>)
        ensures
            result matches Ok(value) && value.spec_token() == token@ && match Self::spec_listed(
                token@,
            ) {
                Some(listed) => value == listed,
                None => value is Unrecognised,
            },
    {
        Ok(Self::from_token(token))
    }
}

impl PredictionInaccurateReason {
    /// Name of the XML Schema type this list transcribes.
    pub const XSD_TYPE: &'static str = "PredictionInaccurateReasonEnumeration";

    /// Every value the schema defines, in schema order.
    pub open spec fn spec_all() -> Seq<PredictionInaccurateReason> {
        seq![PredictionInaccurateReason::Unknown, PredictionInaccurateReason::TrafficJam, PredictionInaccurateReason::TechnicalProblem, PredictionInaccurateReason::DespatchingIntervention, PredictionInaccurateReason::CommunicationProblem, PredictionInaccurateReason::Other]
    }

    /// Every value the schema defines, in schema order.
    pub fn all() -> (values: Vec<Self>)
        ensures
            values@ == Self::spec_all(),
    {
        vec![PredictionInaccurateReason::Unknown, PredictionInaccurateReason::TrafficJam, PredictionInaccurateReason::TechnicalProblem, PredictionInaccurateReason::DespatchingIntervention, PredictionInaccurateReason::CommunicationProblem, PredictionInaccurateReason::Other]
    }

    /// The token a value is written as on the wire.
    pub open spec fn spec_token(&self) -> Seq<char> {
        match self {
            PredictionInaccurateReason::Unknown => "unknown"@,
            PredictionInaccurateReason::TrafficJam => "trafficJam"@,
            PredictionInaccurateReason::TechnicalProblem => "technicalProblem"@,
            PredictionInaccurateReason::DespatchingIntervention => "despatchingIntervention"@,
            PredictionInaccurateReason::CommunicationProblem => "communicationProblem"@,
            PredictionInaccurateReason::Other => "other"@,
            PredictionInaccurateReason::Unrecognised(token) => token@,
        }
    }

    /// The value the schema defines for a token, if it defines one.
    pub open spec fn spec_listed(token: Seq<char>) -> Option<PredictionInaccurateReason> {
        if token == "unknown"@ {
            Some(PredictionInaccurateReason::Unknown)
        } else if token == "trafficJam"@ {
            Some(PredictionInaccurateReason::TrafficJam)
        } else if token == "technicalProblem"@ {
            Some(PredictionInaccurateReason::TechnicalProblem)
        } else if token == "despatchingIntervention"@ {
            Some(PredictionInaccurateReason::DespatchingIntervention)
        } else if token == "communicationProblem"@ {
            Some(PredictionInaccurateReason::CommunicationProblem)
        } else if token == "other"@ {
            Some(PredictionInaccurateReason::Other)
        } else {
            None
        }
    }

    /// The value a wire token denotes: the listed variant when the schema defines
    /// the token, `Unrecognised` holding the token otherwise.
    pub fn from_token(token: &str) -> (result: Self)
        ensures
            result.spec_token() == token@,
            match Self::spec_listed(token@) {
                Some(listed) => result == listed,
                None => result is Unrecognised,
            },
    {
        let owned: String = token.to_owned();
        if owned == "unknown".to_owned() {
            PredictionInaccurateReason::Unknown
        } else if owned == "trafficJam".to_owned() {
            PredictionInaccurateReason::TrafficJam
        } else if owned == "technicalProblem".to_owned() {
            PredictionInaccurateReason::TechnicalProblem
        } else if owned == "despatchingIntervention".to_owned() {
            PredictionInaccurateReason::DespatchingIntervention
        } else if owned == "communicationProblem".to_owned() {
            PredictionInaccurateReason::CommunicationProblem
        } else if owned == "other".to_owned() {
            PredictionInaccurateReason::Other
        } else {
            PredictionInaccurateReason::Unrecognised(owned)
        }
    }

    /// The token this value is written as on the wire.
    pub fn as_str(&self) -> (token: &str)
        ensures
            token@ == self.spec_token(),
    {
        match self {
            PredictionInaccurateReason::Unknown => "unknown",
            PredictionInaccurateReason::TrafficJam => "trafficJam",
            PredictionInaccurateReason::TechnicalProblem => "technicalProblem",
            PredictionInaccurateReason::DespatchingIntervention => "despatchingIntervention",
            PredictionInaccurateReason::CommunicationProblem => "communicationProblem",
            PredictionInaccurateReason::Other => "other",
            PredictionInaccurateReason::Unrecognised(token) => token.as_str(),
        }
    }
}

/// The `PredictorsEnumeration` code list.
#[derive(Debug, Clone, PartialEq, Eq, PartialOrd, Ord, Hash)]
pub enum Predictors {
    /// `avmsOnly`
    AvmsOnly,
    /// `anyone`
    Anyone,
    /// A token this list does not define, kept as it was read.
    Unrecognised(String),
}

impl core::str::FromStr for Predictors {
    type Err = core::convert::Infallible;

    /// Every token is a value, so this never fails; see `from_token`.
    fn from_str(token: &str) -> (result: Result<Self, Self::Err>)
        ensures
            result matches Ok(value) && value.spec_token() == token@ && match Self::spec_listed(
                token@,
            ) {
                Some(listed) => value == listed,
                None => value is Unrecognised,
            },
    {
        Ok(Self::from_token(token))
    }
}

impl Predictors {
    /// Name of the XML Schema type this list transcribes.
    pub const XSD_TYPE: &'static str = "PredictorsEnumeration";

    /// Every value the schema defines, in schema order.
    pub open spec fn spec_all() -> Seq<Predictors> {
        seq![Predictors::AvmsOnly, Predictors::Anyone]
    }

    /// Every value the schema defines, in schema order.
    pub fn all() -> (values: Vec<Self>)
        ensures
            values@ == Self::spec_all(),
    {
        vec![Predictors::AvmsOnly, Predictors::Anyone]
    }

    /// The token a value is written as on the wire.
    pub open spec fn spec_token(&self) -> Seq<char> {
        match self {
            Predictors::AvmsOnly => "avmsOnly"@,
            Predictors::Anyone => "anyone"@,
            Predictors::Unrecognised(token) => token@,
        }
    }

    /// The value the schema defines for a token, if it defines one.
    pub open spec fn spec_listed(token: Seq<char>) -> Option<Predictors> {
        if token == "avmsOnly"@ {
            Some(Predictors::AvmsOnly)
        } else if token == "anyone"@ {
            Some(Predictors::Anyone)
        } else {
            None
        }
    }

    /// The value a wire token denotes: the listed variant when the schema defines
    /// the token, `Unrecognised` holding the token otherwise.
    pub fn from_token(token: &str) -> (result: Self)
        ensures
            result.spec_token() == token@,
            match Self::spec_listed(token@) {
                Some(listed) => result == listed,
                None => result is Unrecognised,
            },
    {
        let owned: String = token.to_owned();
        if owned == "avmsOnly".to_owned() {
            Predictors::AvmsOnly
        } else if owned == "anyone".to_owned() {
            Predictors::Anyone
        } else {
            Predictors::Unrecognised(owned)
        }
    }

    /// The token this value is written as on the wire.
    pub fn as_str(&self) -> (token: &str)
        ensures
            token@ == self.spec_token(),
    {
        match self {
            Predictors::AvmsOnly => "avmsOnly",
            Predictors::Anyone => "anyone",
            Predictors::Unrecognised(token) => token.as_str(),
        }
    }
}

/// The `ProgressRateEnumeration` code list.
#[derive(Debug, Clone, PartialEq, Eq, PartialOrd, Ord, Hash)]
pub enum ProgressRate {
    /// `noProgress`
    NoProgress,
    /// `slowProgress`
    SlowProgress,
    /// `normalProgress`
    NormalProgress,
    /// `fastProgress`
    FastProgress,
    /// `unknown`
    Unknown,
    /// A token this list does not define, kept as it was read.
    Unrecognised(String),
}

impl core::str::FromStr for ProgressRate {
    type Err = core::convert::Infallible;

    /// Every token is a value, so this never fails; see `from_token`.
    fn from_str(token: &str) -> (result: Result<Self, Self::Err>)
        ensures
            result matches Ok(value) && value.spec_token() == token@ && match Self::spec_listed(
                token@,
            ) {
                Some(listed) => value == listed,
                None => value is Unrecognised,
            },
    {
        Ok(Self::from_token(token))
    }
}

impl ProgressRate {
    /// Name of the XML Schema type this list transcribes.
    pub const XSD_TYPE: &'static str = "ProgressRateEnumeration";

    /// Every value the schema defines, in schema order.
    pub open spec fn spec_all() -> Seq<ProgressRate> {
        seq![ProgressRate::NoProgress, ProgressRate::SlowProgress, ProgressRate::NormalProgress, ProgressRate::FastProgress, ProgressRate::Unknown]
    }

    /// Every value the schema defines, in schema order.
    pub fn all() -> (values: Vec<Self>)
        ensures
            values@ == Self::spec_all(),
    {
        vec![ProgressRate::NoProgress, ProgressRate::SlowProgress, ProgressRate::NormalProgress, ProgressRate::FastProgress, ProgressRate::Unknown]
    }

    /// The token a value is written as on the wire.
    pub open spec fn spec_token(&self) -> Seq<char> {
        match self {
            ProgressRate::NoProgress => "noProgress"@,
            ProgressRate::SlowProgress => "slowProgress"@,
            ProgressRate::NormalProgress => "normalProgress"@,
            ProgressRate::FastProgress => "fastProgress"@,
            ProgressRate::Unknown => "unknown"@,
            ProgressRate::Unrecognised(token) => token@,
        }
    }

    /// The value the schema defines for a token, if it defines one.
    pub open spec fn spec_listed(token: Seq<char>) -> Option<ProgressRate> {
        if token == "noProgress"@ {
            Some(ProgressRate::NoProgress)
        } else if token == "slowProgress"@ {
            Some(ProgressRate::SlowProgress)
        } else if token == "normalProgress"@ {
            Some(ProgressRate::NormalProgress)
        } else if token == "fastProgress"@ {
            Some(ProgressRate::FastProgress)
        } else if token == "unknown"@ {
            Some(ProgressRate::Unknown)
        } else {
            None
        }
    }

    /// The value a wire token denotes: the listed variant when the schema defines
    /// the token, `Unrecognised` holding the token otherwise.
    pub fn from_token(token: &str) -> (result: Self)
        ensures
            result.spec_token() == token@,
            match Self::spec_listed(token@) {
                Some(listed) => result == listed,
                None => result is Unrecognised,
            },
    {
        let owned: String = token.to_owned();
        if owned == "noProgress".to_owned() {
            ProgressRate::NoProgress
        } else if owned == "slowProgress".to_owned() {
            ProgressRate::SlowProgress
        } else if owned == "normalProgress".to_owned() {
            ProgressRate::NormalProgress
        } else if owned == "fastProgress".to_owned() {
            ProgressRate::FastProgress
        } else if owned == "unknown".to_owned() {
            ProgressRate::Unknown
        } else {
            ProgressRate::Unrecognised(owned)
        }
    }

    /// The token this value is written as on the wire.
    pub fn as_str(&self) -> (token: &str)
        ensures
            token@ == self.spec_token(),
    {
        match self {
            ProgressRate::NoProgress => "noProgress",
            ProgressRate::SlowProgress => "slowProgress",
            ProgressRate::NormalProgress => "normalProgress",
            ProgressRate::FastProgress => "fastProgress",
            ProgressRate::Unknown => "unknown",
            ProgressRate::Unrecognised(token) => token.as_str(),
        }
    }
}

/// The `PyschosensoryNeedEnumeration` code list.
#[derive(Debug, Clone, PartialEq, Eq, PartialOrd, Ord, Hash)]
pub enum PyschosensoryNeed {
    /// `visualImpairment`
    VisualImpairment,
    /// `auditoryImpairment`
    AuditoryImpairment,
    /// `cognitiveInputImpairment`
    CognitiveInputImpairment,
    /// `averseToLifts`
    AverseToLifts,
    /// `averseToEscalators`
    AverseToEscalators,
    /// `averseToConfinedSpaces`
    AverseToConfinedSpaces,
    /// `averseToCrowds`
    AverseToCrowds,
    /// `otherPsychosensoryNeed`
    OtherPsychosensoryNeed,
    /// A token this list does not define, kept as it was read.
    Unrecognised(String),
}

impl core::str::FromStr for PyschosensoryNeed {
    type Err = core::convert::Infallible;

    /// Every token is a value, so this never fails; see `from_token`.
    fn from_str(token: &str) -> (result: Result<Self, Self::Err>)
        ensures
            result matches Ok(value) && value.spec_token() == token@ && match Self::spec_listed(
                token@,
            ) {
                Some(listed) => value == listed,
                None => value is Unrecognised,
            },
    {
        Ok(Self::from_token(token))
    }
}

impl PyschosensoryNeed {
    /// Name of the XML Schema type this list transcribes.
    pub const XSD_TYPE: &'static str = "PyschosensoryNeedEnumeration";

    /// Every value the schema defines, in schema order.
    pub open spec fn spec_all() -> Seq<PyschosensoryNeed> {
        seq![PyschosensoryNeed::VisualImpairment, PyschosensoryNeed::AuditoryImpairment, PyschosensoryNeed::CognitiveInputImpairment, PyschosensoryNeed::AverseToLifts, PyschosensoryNeed::AverseToEscalators, PyschosensoryNeed::AverseToConfinedSpaces, PyschosensoryNeed::AverseToCrowds, PyschosensoryNeed::OtherPsychosensoryNeed]
    }

    /// Every value the schema defines, in schema order.
    pub fn all() -> (values: Vec<Self>)
        ensures
            values@ == Self::spec_all(),
    {
        vec![PyschosensoryNeed::VisualImpairment, PyschosensoryNeed::AuditoryImpairment, PyschosensoryNeed::CognitiveInputImpairment, PyschosensoryNeed::AverseToLifts, PyschosensoryNeed::AverseToEscalators, PyschosensoryNeed::AverseToConfinedSpaces, PyschosensoryNeed::AverseToCrowds, PyschosensoryNeed::OtherPsychosensoryNeed]
    }

    /// The token a value is written as on the wire.
    pub open spec fn spec_token(&self) -> Seq<char> {
        match self {
            PyschosensoryNeed::VisualImpairment => "visualImpairment"@,
            PyschosensoryNeed::AuditoryImpairment => "auditoryImpairment"@,
            PyschosensoryNeed::CognitiveInputImpairment => "cognitiveInputImpairment"@,
            PyschosensoryNeed::AverseToLifts => "averseToLifts"@,
            PyschosensoryNeed::AverseToEscalators => "averseToEscalators"@,
            PyschosensoryNeed::AverseToConfinedSpaces => "averseToConfinedSpaces"@,
            PyschosensoryNeed::AverseToCrowds => "averseToCrowds"@,
            PyschosensoryNeed::OtherPsychosensoryNeed => "otherPsychosensoryNeed"@,
            PyschosensoryNeed::Unrecognised(token) => token@,
        }
    }

    /// The value the schema defines for a token, if it defines one.
    pub open spec fn spec_listed(token: Seq<char>) -> Option<PyschosensoryNeed> {
        if token == "visualImpairment"@ {
            Some(PyschosensoryNeed::VisualImpairment)
        } else if token == "auditoryImpairment"@ {
            Some(PyschosensoryNeed::AuditoryImpairment)
        } else if token == "cognitiveInputImpairment"@ {
            Some(PyschosensoryNeed::CognitiveInputImpairment)
        } else if token == "averseToLifts"@ {
            Some(PyschosensoryNeed::AverseToLifts)
        } else if token == "averseToEscalators"@ {
            Some(PyschosensoryNeed::AverseToEscalators)
        } else if token == "averseToConfinedSpaces"@ {
            Some(PyschosensoryNeed::AverseToConfinedSpaces)
        } else if token == "averseToCrowds"@ {
            Some(PyschosensoryNeed::AverseToCrowds)
        } else if token == "otherPsychosensoryNeed"@ {
            Some(PyschosensoryNeed::OtherPsychosensoryNeed)
        } else {
            None
        }
    }

    /// The value a wire token denotes: the listed variant when the schema defines
    /// the token, `Unrecognised` holding the token otherwise.
    pub fn from_token(token: &str) -> (result: Self)
        ensures
            result.spec_token() == token@,
            match Self::spec_listed(token@) {
                Some(listed) => result == listed,
                None => result is Unrecognised,
            },
    {
        let owned: String = token.to_owned();
        if owned == "visualImpairment".to_owned() {
            PyschosensoryNeed::VisualImpairment
        } else if owned == "auditoryImpairment".to_owned() {
            PyschosensoryNeed::AuditoryImpairment
        } else if owned == "cognitiveInputImpairment".to_owned() {
            PyschosensoryNeed::CognitiveInputImpairment
        } else if owned == "averseToLifts".to_owned() {
            PyschosensoryNeed::AverseToLifts
        } else if owned == "averseToEscalators".to_owned() {
            PyschosensoryNeed::AverseToEscalators
        } else if owned == "averseToConfinedSpaces".to_owned() {
            PyschosensoryNeed::AverseToConfinedSpaces
        } else if owned == "averseToCrowds".to_owned() {
            PyschosensoryNeed::AverseToCrowds
        } else if owned == "otherPsychosensoryNeed".to_owned() {
            PyschosensoryNeed::OtherPsychosensoryNeed
        } else {
            PyschosensoryNeed::Unrecognised(owned)
        }
    }

    /// The token this value is written as on the wire.
    pub fn as_str(&self) -> (token: &str)
        ensures
            token@ == self.spec_token(),
    {
        match self {
            PyschosensoryNeed::VisualImpairment => "visualImpairment",
            PyschosensoryNeed::AuditoryImpairment => "auditoryImpairment",
            PyschosensoryNeed::CognitiveInputImpairment => "cognitiveInputImpairment",
            PyschosensoryNeed::AverseToLifts => "averseToLifts",
            PyschosensoryNeed::AverseToEscalators => "averseToEscalators",
            PyschosensoryNeed::AverseToConfinedSpaces => "averseToConfinedSpaces",
            PyschosensoryNeed::AverseToCrowds => "averseToCrowds",
            PyschosensoryNeed::OtherPsychosensoryNeed => "otherPsychosensoryNeed",
            PyschosensoryNeed::Unrecognised(token) => token.as_str(),
        }
    }
}

/// The `QualityIndexEnumeration` code list.
#[derive(Debug, Clone, PartialEq, Eq, PartialOrd, Ord, Hash)]
pub enum QualityIndex {
    /// `certain`
    Certain,
    /// `veryReliable`
    VeryReliable,
    /// `reliable`
    Reliable,
    /// `probablyReliable`
    ProbablyReliable,
    /// `unconfirmed`
    Unconfirmed,
    /// A token this list does not define, kept as it was read.
    Unrecognised(String),
}

impl core::str::FromStr for QualityIndex {
    type Err = core::convert::Infallible;

    /// Every token is a value, so this never fails; see `from_token`.
    fn from_str(token: &str) -> (result: Result<Self, Self::Err>)
        ensures
            result matches Ok(value) && value.spec_token() == token@ && match Self::spec_listed(
                token@,
            ) {
                Some(listed) => value == listed,
                None => value is Unrecognised,
            },
    {
        Ok(Self::from_token(token))
    }
}

impl QualityIndex {
    /// Name of the XML Schema type this list transcribes.
    pub const XSD_TYPE: &'static str = "QualityIndexEnumeration";

    /// Every value the schema defines, in schema order.
    pub open spec fn spec_all() -> Seq<QualityIndex> {
        seq![QualityIndex::Certain, QualityIndex::VeryReliable, QualityIndex::Reliable, QualityIndex::ProbablyReliable, QualityIndex::Unconfirmed]
    }

    /// Every value the schema defines, in schema order.
    pub fn all() -> (values: Vec<Self>)
        ensures
            values@ == Self::spec_all(),
    {
        vec![QualityIndex::Certain, QualityIndex::VeryReliable, QualityIndex::Reliable, QualityIndex::ProbablyReliable, QualityIndex::Unconfirmed]
    }

    /// The token a value is written as on the wire.
    pub open spec fn spec_token(&self) -> Seq<char> {
        match self {
            QualityIndex::Certain => "certain"@,
            QualityIndex::VeryReliable => "veryReliable"@,
            QualityIndex::Reliable => "reliable"@,
            QualityIndex::ProbablyReliable => "probablyReliable"@,
            QualityIndex::Unconfirmed => "unconfirmed"@,
            QualityIndex::Unrecognised(token) => token@,
        }
    }

    /// The value the schema defines for a token, if it defines one.
    pub open spec fn spec_listed(token: Seq<char>) -> Option<QualityIndex> {
        if token == "certain"@ {
            Some(QualityIndex::Certain)
        } else if token == "veryReliable"@ {
            Some(QualityIndex::VeryReliable)
        } else if token == "reliable"@ {
            Some(QualityIndex::Reliable)
        } else if token == "probablyReliable"@ {
            Some(QualityIndex::ProbablyReliable)
        } else if token == "unconfirmed"@ {
            Some(QualityIndex::Unconfirmed)
        } else {
            None
        }
    }

    /// The value a wire token denotes: the listed variant when the schema defines
    /// the token, `Unrecognised` holding the token otherwise.
    pub fn from_token(token: &str) -> (result: Self)
        ensures
            result.spec_token() == token@,
            match Self::spec_listed(token@) {
                Some(listed) => result == listed,
                None => result is Unrecognised,
            },
    {
        let owned: String = token.to_owned();
        if owned == "certain".to_owned() {
            QualityIndex::Certain
        } else if owned == "veryReliable".to_owned() {
            QualityIndex::VeryReliable
        } else if owned == "reliable".to_owned() {
            QualityIndex::Reliable
        } else if owned == "probablyReliable".to_owned() {
            QualityIndex::ProbablyReliable
        } else if owned == "unconfirmed".to_owned() {
            QualityIndex::Unconfirmed
        } else {
            QualityIndex::Unrecognised(owned)
        }
    }

    /// The token this value is written as on the wire.
    pub fn as_str(&self) -> (token: &str)
        ensures
            token@ == self.spec_token(),
    {
        match self {
            QualityIndex::Certain => "certain",
            QualityIndex::VeryReliable => "veryReliable",
            QualityIndex::Reliable => "reliable",
            QualityIndex::ProbablyReliable => "probablyReliable",
            QualityIndex::Unconfirmed => "unconfirmed",
            QualityIndex::Unrecognised(token) => token.as_str(),
        }
    }
}

/// The `RailSubmodesOfTransportEnumeration` code list.
#[derive(Debug, Clone, PartialEq, Eq, PartialOrd, Ord, Hash)]
pub enum RailSubmodesOfTransport {
    /// `unknown`
    Unknown,
    /// `local`
    Local,
    /// `highSpeedRail`
    HighSpeedRail,
    /// `suburbanRailway`
    SuburbanRailway,
    /// `regionalRail`
    RegionalRail,
    /// `interregionalRail`
    InterregionalRail,
    /// `longDistance`
    LongDistance,
    /// `international`
    International,
    /// `sleeperRailService`
    SleeperRailService,
    /// `nightRail`
    NightRail,
    /// `carTransportRailService`
    CarTransportRailService,
    /// `touristRailway`
    TouristRailway,
    /// `railShuttle`
    RailShuttle,
    /// `replacementRailService`
    ReplacementRailService,
    /// `specialTrain`
    SpecialTrain,
    /// `crossCountryRail`
    CrossCountryRail,
    /// `rackAndPinionRailway`
    RackAndPinionRailway,
    /// A token this list does not define, kept as it was read.
    Unrecognised(String),
}

impl core::str::FromStr for RailSubmodesOfTransport {
    type Err = core::convert::Infallible;

    /// Every token is a value, so this never fails; see `from_token`.
    fn from_str(token: &str) -> (result: Result<Self, Self::Err>)
        ensures
            result matches Ok(value) && value.spec_token() == token@ && match Self::spec_listed(
                token@,
            ) {
                Some(listed) => value == listed,
                None => value is Unrecognised,
            },
    {
        Ok(Self::from_token(token))
    }
}

impl RailSubmodesOfTransport {
    /// Name of the XML Schema type this list transcribes.
    pub const XSD_TYPE: &'static str = "RailSubmodesOfTransportEnumeration";

    /// Every value the schema defines, in schema order.
    pub open spec fn spec_all() -> Seq<RailSubmodesOfTransport> {
        seq![RailSubmodesOfTransport::Unknown, RailSubmodesOfTransport::Local, RailSubmodesOfTransport::HighSpeedRail, RailSubmodesOfTransport::SuburbanRailway, RailSubmodesOfTransport::RegionalRail, RailSubmodesOfTransport::InterregionalRail, RailSubmodesOfTransport::LongDistance, RailSubmodesOfTransport::International, RailSubmodesOfTransport::SleeperRailService, RailSubmodesOfTransport::NightRail, RailSubmodesOfTransport::CarTransportRailService, RailSubmodesOfTransport::TouristRailway, RailSubmodesOfTransport::RailShuttle, RailSubmodesOfTransport::ReplacementRailService, RailSubmodesOfTransport::SpecialTrain, RailSubmodesOfTransport::CrossCountryRail, RailSubmodesOfTransport::RackAndPinionRailway]
    }

    /// Every value the schema defines, in schema order.
    pub fn all() -> (values: Vec<Self>)
        ensures
            values@ == Self::spec_all(),
    {
        vec![RailSubmodesOfTransport::Unknown, RailSubmodesOfTransport::Local, RailSubmodesOfTransport::HighSpeedRail, RailSubmodesOfTransport::SuburbanRailway, RailSubmodesOfTransport::RegionalRail, RailSubmodesOfTransport::InterregionalRail, RailSubmodesOfTransport::LongDistance, RailSubmodesOfTransport::International, RailSubmodesOfTransport::SleeperRailService, RailSubmodesOfTransport::NightRail, RailSubmodesOfTransport::CarTransportRailService, RailSubmodesOfTransport::TouristRailway, RailSubmodesOfTransport::RailShuttle, RailSubmodesOfTransport::ReplacementRailService, RailSubmodesOfTransport::SpecialTrain, RailSubmodesOfTransport::CrossCountryRail, RailSubmodesOfTransport::RackAndPinionRailway]
    }

    /// The token a value is written as on the wire.
    pub open spec fn spec_token(&self) -> Seq<char> {
        match self {
            RailSubmodesOfTransport::Unknown => "unknown"@,
            RailSubmodesOfTransport::Local => "local"@,
            RailSubmodesOfTransport::HighSpeedRail => "highSpeedRail"@,
            RailSubmodesOfTransport::SuburbanRailway => "suburbanRailway"@,
            RailSubmodesOfTransport::RegionalRail => "regionalRail"@,
            RailSubmodesOfTransport::InterregionalRail => "interregionalRail"@,
            RailSubmodesOfTransport::LongDistance => "longDistance"@,
            RailSubmodesOfTransport::International => "international"@,
            RailSubmodesOfTransport::SleeperRailService => "sleeperRailService"@,
            RailSubmodesOfTransport::NightRail => "nightRail"@,
            RailSubmodesOfTransport::CarTransportRailService => "carTransportRailService"@,
            RailSubmodesOfTransport::TouristRailway => "touristRailway"@,
            RailSubmodesOfTransport::RailShuttle => "railShuttle"@,
            RailSubmodesOfTransport::ReplacementRailService => "replacementRailService"@,
            RailSubmodesOfTransport::SpecialTrain => "specialTrain"@,
            RailSubmodesOfTransport::CrossCountryRail => "crossCountryRail"@,
            RailSubmodesOfTransport::RackAndPinionRailway => "rackAndPinionRailway"@,
            RailSubmodesOfTransport::Unrecognised(token) => token@,
        }
    }

    /// The value the schema defines for a token, if it defines one.
    pub open spec fn spec_listed(token: Seq<char>) -> Option<RailSubmodesOfTransport> {
        if token == "unknown"@ {
            Some(RailSubmodesOfTransport::Unknown)
        } else if token == "local"@ {
            Some(RailSubmodesOfTransport::Local)
        } else if token == "highSpeedRail"@ {
            Some(RailSubmodesOfTransport::HighSpeedRail)
        } else if token == "suburbanRailway"@ {
            Some(RailSubmodesOfTransport::SuburbanRailway)
        } else if token == "regionalRail"@ {
            Some(RailSubmodesOfTransport::RegionalRail)
        } else if token == "interregionalRail"@ {
            Some(RailSubmodesOfTransport::InterregionalRail)
        } else if token == "longDistance"@ {
            Some(RailSubmodesOfTransport::LongDistance)
        } else if token == "international"@ {
            Some(RailSubmodesOfTransport::International)
        } else if token == "sleeperRailService"@ {
            Some(RailSubmodesOfTransport::SleeperRailService)
        } else if token == "nightRail"@ {
            Some(RailSubmodesOfTransport::NightRail)
        } else if token == "carTransportRailService"@ {
            Some(RailSubmodesOfTransport::CarTransportRailService)
        } else if token == "touristRailway"@ {
            Some(RailSubmodesOfTransport::TouristRailway)
        } else if token == "railShuttle"@ {
            Some(RailSubmodesOfTransport::RailShuttle)
        } else if token == "replacementRailService"@ {
            Some(RailSubmodesOfTransport::ReplacementRailService)
        } else if token == "specialTrain"@ {
            Some(RailSubmodesOfTransport::SpecialTrain)
        } else if token == "crossCountryRail"@ {
            Some(RailSubmodesOfTransport::CrossCountryRail)
        } else if token == "rackAndPinionRailway"@ {
            Some(RailSubmodesOfTransport::RackAndPinionRailway)
        } else {
            None
        }
    }

    /// The value a wire token denotes: the listed variant when the schema defines
    /// the token, `Unrecognised` holding the token otherwise.
    pub fn from_token(token: &str) -> (result: Self)
        ensures
            result.spec_token() == token@,
            match Self::spec_listed(token@) {
                Some(listed) => result == listed,
                None => result is Unrecognised,
            },
    {
        let owned: String = token.to_owned();
        if owned == "unknown".to_owned() {
            RailSubmodesOfTransport::Unknown
        } else if owned == "local".to_owned() {
            RailSubmodesOfTransport::Local
        } else if owned == "highSpeedRail".to_owned() {
            RailSubmodesOfTransport::HighSpeedRail
        } else if owned == "suburbanRailway".to_owned() {
            RailSubmodesOfTransport::SuburbanRailway
        } else if owned == "regionalRail".to_owned() {
            RailSubmodesOfTransport::RegionalRail
        } else if owned == "interregionalRail".to_owned() {
            RailSubmodesOfTransport::InterregionalRail
        } else if owned == "longDistance".to_owned() {
            RailSubmodesOfTransport::LongDistance
        } else if owned == "international".to_owned() {
            RailSubmodesOfTransport::International
        } else if owned == "sleeperRailService".to_owned() {
            RailSubmodesOfTransport::SleeperRailService
        } else if owned == "nightRail".to_owned() {
            RailSubmodesOfTransport::NightRail
        } else if owned == "carTransportRailService".to_owned() {
            RailSubmodesOfTransport::CarTransportRailService
        } else if owned == "touristRailway".to_owned() {
            RailSubmodesOfTransport::TouristRailway
        } else if owned == "railShuttle".to_owned() {
            RailSubmodesOfTransport::RailShuttle
        } else if owned == "replacementRailService".to_owned() {
            RailSubmodesOfTransport::ReplacementRailService
        } else if owned == "specialTrain".to_owned() {
            RailSubmodesOfTransport::SpecialTrain
        } else if owned == "crossCountryRail".to_owned() {
            RailSubmodesOfTransport::CrossCountryRail
        } else if owned == "rackAndPinionRailway".to_owned() {
            RailSubmodesOfTransport::RackAndPinionRailway
        } else {
            RailSubmodesOfTransport::Unrecognised(owned)
        }
    }

    /// The token this value is written as on the wire.
    pub fn as_str(&self) -> (token: &str)
        ensures
            token@ == self.spec_token(),
    {
        match self {
            RailSubmodesOfTransport::Unknown => "unknown",
            RailSubmodesOfTransport::Local => "local",
            RailSubmodesOfTransport::HighSpeedRail => "highSpeedRail",
            RailSubmodesOfTransport::SuburbanRailway => "suburbanRailway",
            RailSubmodesOfTransport::RegionalRail => "regionalRail",
            RailSubmodesOfTransport::InterregionalRail => "interregionalRail",
            RailSubmodesOfTransport::LongDistance => "longDistance",
            RailSubmodesOfTransport::International => "international",
            RailSubmodesOfTransport::SleeperRailService => "sleeperRailService",
            RailSubmodesOfTransport::NightRail => "nightRail",
            RailSubmodesOfTransport::CarTransportRailService => "carTransportRailService",
            RailSubmodesOfTransport::TouristRailway => "touristRailway",
            RailSubmodesOfTransport::RailShuttle => "railShuttle",
            RailSubmodesOfTransport::ReplacementRailService => "replacementRailService",
            RailSubmodesOfTransport::SpecialTrain => "specialTrain",
            RailSubmodesOfTransport::CrossCountryRail => "crossCountryRail",
            RailSubmodesOfTransport::RackAndPinionRailway => "rackAndPinionRailway",
            RailSubmodesOfTransport::Unrecognised(token) => token.as_str(),
        }
    }
}

/// The `RefreshmentFacilityEnumeration` code list.
#[derive(Debug, Clone, PartialEq, Eq, PartialOrd, Ord, Hash)]
pub enum RefreshmentFacility {
    /// `unknown`
    Unknown,
    /// `restaurant`
    Restaurant,
    /// `snacks`
    Snacks,
    /// `trolley`
    Trolley,
    /// `bar`
    Bar,
    /// `foodNotAvailable`
    FoodNotAvailable,
    /// `beveragesNotAvailable`
    BeveragesNotAvailable,
    /// `bistro`
    Bistro,
    /// `foodVendor`
    FoodVendor,
    /// `coffeeShop`
    CoffeeShop,
    /// A token this list does not define, kept as it was read.
    Unrecognised(String),
}

impl core::str::FromStr for RefreshmentFacility {
    type Err = core::convert::Infallible;

    /// Every token is a value, so this never fails; see `from_token`.
    fn from_str(token: &str) -> (result: Result<Self, Self::Err>)
        ensures
            result matches Ok(value) && value.spec_token() == token@ && match Self::spec_listed(
                token@,
            ) {
                Some(listed) => value == listed,
                None => value is Unrecognised,
            },
    {
        Ok(Self::from_token(token))
    }
}

impl RefreshmentFacility {
    /// Name of the XML Schema type this list transcribes.
    pub const XSD_TYPE: &'static str = "RefreshmentFacilityEnumeration";

    /// Every value the schema defines, in schema order.
    pub open spec fn spec_all() -> Seq<RefreshmentFacility> {
        seq![RefreshmentFacility::Unknown, RefreshmentFacility::Restaurant, RefreshmentFacility::Snacks, RefreshmentFacility::Trolley, RefreshmentFacility::Bar, RefreshmentFacility::FoodNotAvailable, RefreshmentFacility::BeveragesNotAvailable, RefreshmentFacility::Bistro, RefreshmentFacility::FoodVendor, RefreshmentFacility::CoffeeShop]
    }

    /// Every value the schema defines, in schema order.
    pub fn all() -> (values: Vec<Self>)
        ensures
            values@ == Self::spec_all(),
    {
        vec![RefreshmentFacility::Unknown, RefreshmentFacility::Restaurant, RefreshmentFacility::Snacks, RefreshmentFacility::Trolley, RefreshmentFacility::Bar, RefreshmentFacility::FoodNotAvailable, RefreshmentFacility::BeveragesNotAvailable, RefreshmentFacility::Bistro, RefreshmentFacility::FoodVendor, RefreshmentFacility::CoffeeShop]
    }

    /// The token a value is written as on the wire.
    pub open spec fn spec_token(&self) -> Seq<char> {
        match self {
            RefreshmentFacility::Unknown => "unknown"@,
            RefreshmentFacility::Restaurant => "restaurant"@,
            RefreshmentFacility::Snacks => "snacks"@,
            RefreshmentFacility::Trolley => "trolley"@,
            RefreshmentFacility::Bar => "bar"@,
            RefreshmentFacility::FoodNotAvailable => "foodNotAvailable"@,
            RefreshmentFacility::BeveragesNotAvailable => "beveragesNotAvailable"@,
            RefreshmentFacility::Bistro => "bistro"@,
            RefreshmentFacility::FoodVendor => "foodVendor"@,
            RefreshmentFacility::CoffeeShop => "coffeeShop"@,
            RefreshmentFacility::Unrecognised(token) => token@,
        }
    }

    /// The value the schema defines for a token, if it defines one.
    pub open spec fn spec_listed(token: Seq<char>) -> Option<RefreshmentFacility> {
        if token == "unknown"@ {
            Some(RefreshmentFacility::Unknown)
        } else if token == "restaurant"@ {
            Some(RefreshmentFacility::Restaurant)
        } else if token == "snacks"@ {
            Some(RefreshmentFacility::Snacks)
        } else if token == "trolley"@ {
            Some(RefreshmentFacility::Trolley)
        } else if token == "bar"@ {
            Some(RefreshmentFacility::Bar)
        } else if token == "foodNotAvailable"@ {
            Some(RefreshmentFacility::FoodNotAvailable)
        } else if token == "beveragesNotAvailable"@ {
            Some(RefreshmentFacility::BeveragesNotAvailable)
        } else if token == "bistro"@ {
            Some(RefreshmentFacility::Bistro)
        } else if token == "foodVendor"@ {
            Some(RefreshmentFacility::FoodVendor)
        } else if token == "coffeeShop"@ {
            Some(RefreshmentFacility::CoffeeShop)
        } else {
            None
        }
    }

    /// The value a wire token denotes: the listed variant when the schema defines
    /// the token, `Unrecognised` holding the token otherwise.
    pub fn from_token(token: &str) -> (result: Self)
        ensures
            result.spec_token() == token@,
            match Self::spec_listed(token@) {
                Some(listed) => result == listed,
                None => result is Unrecognised,
            },
    {
        let owned: String = token.to_owned();
        if owned == "unknown".to_owned() {
            RefreshmentFacility::Unknown
        } else if owned == "restaurant".to_owned() {
            RefreshmentFacility::Restaurant
        } else if owned == "snacks".to_owned() {
            RefreshmentFacility::Snacks
        } else if owned == "trolley".to_owned() {
            RefreshmentFacility::Trolley
        } else if owned == "bar".to_owned() {
            RefreshmentFacility::Bar
        } else if owned == "foodNotAvailable".to_owned() {
            RefreshmentFacility::FoodNotAvailable
        } else if owned == "beveragesNotAvailable".to_owned() {
            RefreshmentFacility::BeveragesNotAvailable
        } else if owned == "bistro".to_owned() {
            RefreshmentFacility::Bistro
        } else if owned == "foodVendor".to_owned() {
            RefreshmentFacility::FoodVendor
        } else if owned == "coffeeShop".to_owned() {
            RefreshmentFacility::CoffeeShop
        } else {
            RefreshmentFacility::Unrecognised(owned)
        }
    }

    /// The token this value is written as on the wire.
    pub fn as_str(&self) -> (token: &str)
        ensures
            token@ == self.spec_token(),
    {
        match self {
            RefreshmentFacility::Unknown => "unknown",
            RefreshmentFacility::Restaurant => "restaurant",
            RefreshmentFacility::Snacks => "snacks",
            RefreshmentFacility::Trolley => "trolley",
            RefreshmentFacility::Bar => "bar",
            RefreshmentFacility::FoodNotAvailable => "foodNotAvailable",
            RefreshmentFacility::BeveragesNotAvailable => "beveragesNotAvailable",
            RefreshmentFacility::Bistro => "bistro",
            RefreshmentFacility::FoodVendor => "foodVendor",
            RefreshmentFacility::CoffeeShop => "coffeeShop",
            RefreshmentFacility::Unrecognised(token) => token.as_str(),
        }
    }
}

/// The `RemedyTypeEnumeration` code list.
#[derive(Debug, Clone, PartialEq, Eq, PartialOrd, Ord, Hash)]
pub enum RemedyType {
    /// `unknown`
    Unknown,
    /// `replace`
    Replace,
    /// `repair`
    Repair,
    /// `remove`
    Remove,
    /// `otherRoute`
    OtherRoute,
    /// `otherLocation`
    OtherLocation,
    /// A token this list does not define, kept as it was read.
    Unrecognised(String),
}

impl core::str::FromStr for RemedyType {
    type Err = core::convert::Infallible;

    /// Every token is a value, so this never fails; see `from_token`.
    fn from_str(token: &str) -> (result: Result<Self, Self::Err>)
        ensures
            result matches Ok(value) && value.spec_token() == token@ && match Self::spec_listed(
                token@,
            ) {
                Some(listed) => value == listed,
                None => value is Unrecognised,
            },
    {
        Ok(Self::from_token(token))
    }
}

impl RemedyType {
    /// Name of the XML Schema type this list transcribes.
    pub const XSD_TYPE: &'static str = "RemedyTypeEnumeration";

    /// Every value the schema defines, in schema order.
    pub open spec fn spec_all() -> Seq<RemedyType> {
        seq![RemedyType::Unknown, RemedyType::Replace, RemedyType::Repair, RemedyType::Remove, RemedyType::OtherRoute, RemedyType::OtherLocation]
    }

    /// Every value the schema defines, in schema order.
    pub fn all() -> (values: Vec<Self>)
        ensures
            values@ == Self::spec_all(),
    {
        vec![RemedyType::Unknown, RemedyType::Replace, RemedyType::Repair, RemedyType::Remove, RemedyType::OtherRoute, RemedyType::OtherLocation]
    }

    /// The token a value is written as on the wire.
    pub open spec fn spec_token(&self) -> Seq<char> {
        match self {
            RemedyType::Unknown => "unknown"@,
            RemedyType::Replace => "replace"@,
            RemedyType::Repair => "repair"@,
            RemedyType::Remove => "remove"@,
            RemedyType::OtherRoute => "otherRoute"@,
            RemedyType::OtherLocation => "otherLocation"@,
            RemedyType::Unrecognised(token) => token@,
        }
    }

    /// The value the schema defines for a token, if it defines one.
    pub open spec fn spec_listed(token: Seq<char>) -> Option<RemedyType> {
        if token == "unknown"@ {
            Some(RemedyType::Unknown)
        } else if token == "replace"@ {
            Some(RemedyType::Replace)
        } else if token == "repair"@ {
            Some(RemedyType::Repair)
        } else if token == "remove"@ {
            Some(RemedyType::Remove)
        } else if token == "otherRoute"@ {
            Some(RemedyType::OtherRoute)
        } else if token == "otherLocation"@ {
            Some(RemedyType::OtherLocation)
        } else {
            None
        }
    }

    /// The value a wire token denotes: the listed variant when the schema defines
    /// the token, `Unrecognised` holding the token otherwise.
    pub fn from_token(token: &str) -> (result: Self)
        ensures
            result.spec_token() == token@,
            match Self::spec_listed(token@) {
                Some(listed) => result == listed,
                None => result is Unrecognised,
            },
    {
        let owned: String = token.to_owned();
        if owned == "unknown".to_owned() {
            RemedyType::Unknown
        } else if owned == "replace".to_owned() {
            RemedyType::Replace
        } else if owned == "repair".to_owned() {
            RemedyType::Repair
        } else if owned == "remove".to_owned() {
            RemedyType::Remove
        } else if owned == "otherRoute".to_owned() {
            RemedyType::OtherRoute
        } else if owned == "otherLocation".to_owned() {
            RemedyType::OtherLocation
        } else {
            RemedyType::Unrecognised(owned)
        }
    }

    /// The token this value is written as on the wire.
    pub fn as_str(&self) -> (token: &str)
        ensures
            token@ == self.spec_token(),
    {
        match self {
            RemedyType::Unknown => "unknown",
            RemedyType::Replace => "replace",
            RemedyType::Repair => "repair",
            RemedyType::Remove => "remove",
            RemedyType::OtherRoute => "otherRoute",
            RemedyType::OtherLocation => "otherLocation",
            RemedyType::Unrecognised(token) => token.as_str(),
        }
    }
}

/// The `ReservedSpaceFacilityEnumeration` code list.
#[derive(Debug, Clone, PartialEq, Eq, PartialOrd, Ord, Hash)]
pub enum ReservedSpaceFacility {
    /// `unknown`
    Unknown,
    /// `lounge`
    Lounge,
    /// `hall`
    Hall,
    /// `meetingPoint`
    MeetingPoint,
    /// `groupPoint`
    GroupPoint,
    /// `reception`
    Reception,
    /// `shelter`
    Shelter,
    /// `seats`
    Seats,
    /// A token this list does not define, kept as it was read.
    Unrecognised(String),
}

impl core::str::FromStr for ReservedSpaceFacility {
    type Err = core::convert::Infallible;

    /// Every token is a value, so this never fails; see `from_token`.
    fn from_str(token: &str) -> (result: Result<Self, Self::Err>)
        ensures
            result matches Ok(value) && value.spec_token() == token@ && match Self::spec_listed(
                token@,
            ) {
                Some(listed) => value == listed,
                None => value is Unrecognised,
            },
    {
        Ok(Self::from_token(token))
    }
}

impl ReservedSpaceFacility {
    /// Name of the XML Schema type this list transcribes.
    pub const XSD_TYPE: &'static str = "ReservedSpaceFacilityEnumeration";

    /// Every value the schema defines, in schema order.
    pub open spec fn spec_all() -> Seq<ReservedSpaceFacility> {
        seq![ReservedSpaceFacility::Unknown, ReservedSpaceFacility::Lounge, ReservedSpaceFacility::Hall, ReservedSpaceFacility::MeetingPoint, ReservedSpaceFacility::GroupPoint, ReservedSpaceFacility::Reception, ReservedSpaceFacility::Shelter, ReservedSpaceFacility::Seats]
    }

    /// Every value the schema defines, in schema order.
    pub fn all() -> (values: Vec<Self>)
        ensures
            values@ == Self::spec_all(),
    {
        vec![ReservedSpaceFacility::Unknown, ReservedSpaceFacility::Lounge, ReservedSpaceFacility::Hall, ReservedSpaceFacility::MeetingPoint, ReservedSpaceFacility::GroupPoint, ReservedSpaceFacility::Reception, ReservedSpaceFacility::Shelter, ReservedSpaceFacility::Seats]
    }

    /// The token a value is written as on the wire.
    pub open spec fn spec_token(&self) -> Seq<char> {
        match self {
            ReservedSpaceFacility::Unknown => "unknown"@,
            ReservedSpaceFacility::Lounge => "lounge"@,
            ReservedSpaceFacility::Hall => "hall"@,
            ReservedSpaceFacility::MeetingPoint => "meetingPoint"@,
            ReservedSpaceFacility::GroupPoint => "groupPoint"@,
            ReservedSpaceFacility::Reception => "reception"@,
            ReservedSpaceFacility::Shelter => "shelter"@,
            ReservedSpaceFacility::Seats => "seats"@,
            ReservedSpaceFacility::Unrecognised(token) => token@,
        }
    }

    /// The value the schema defines for a token, if it defines one.
    pub open spec fn spec_listed(token: Seq<char>) -> Option<ReservedSpaceFacility> {
        if token == "unknown"@ {
            Some(ReservedSpaceFacility::Unknown)
        } else if token == "lounge"@ {
            Some(ReservedSpaceFacility::Lounge)
        } else if token == "hall"@ {
            Some(ReservedSpaceFacility::Hall)
        } else if token == "meetingPoint"@ {
            Some(ReservedSpaceFacility::MeetingPoint)
        } else if token == "groupPoint"@ {
            Some(ReservedSpaceFacility::GroupPoint)
        } else if token == "reception"@ {
            Some(ReservedSpaceFacility::Reception)
        } else if token == "shelter"@ {
            Some(ReservedSpaceFacility::Shelter)
        } else if token == "seats"@ {
            Some(ReservedSpaceFacility::Seats)
        } else {
            None
        }
    }

    /// The value a wire token denotes: the listed variant when the schema defines
    /// the token, `Unrecognised` holding the token otherwise.
    pub fn from_token(token: &str) -> (result: Self)
        ensures
            result.spec_token() == token@,
            match Self::spec_listed(token@) {
                Some(listed) => result == listed,
                None => result is Unrecognised,
            },
    {
        let owned: String = token.to_owned();
        if owned == "unknown".to_owned() {
            ReservedSpaceFacility::Unknown
        } else if owned == "lounge".to_owned() {
            ReservedSpaceFacility::Lounge
        } else if owned == "hall".to_owned() {
            ReservedSpaceFacility::Hall
        } else if owned == "meetingPoint".to_owned() {
            ReservedSpaceFacility::MeetingPoint
        } else if owned == "groupPoint".to_owned() {
            ReservedSpaceFacility::GroupPoint
        } else if owned == "reception".to_owned() {
            ReservedSpaceFacility::Reception
        } else if owned == "shelter".to_owned() {
            ReservedSpaceFacility::Shelter
        } else if owned == "seats".to_owned() {
            ReservedSpaceFacility::Seats
        } else {
            ReservedSpaceFacility::Unrecognised(owned)
        }
    }

    /// The token this value is written as on the wire.
    pub fn as_str(&self) -> (token: &str)
        ensures
            token@ == self.spec_token(),
    {
        match self {
            ReservedSpaceFacility::Unknown => "unknown",
            ReservedSpaceFacility::Lounge => "lounge",
            ReservedSpaceFacility::Hall => "hall",
            ReservedSpaceFacility::MeetingPoint => "meetingPoint",
            ReservedSpaceFacility::GroupPoint => "groupPoint",
            ReservedSpaceFacility::Reception => "reception",
            ReservedSpaceFacility::Shelter => "shelter",
            ReservedSpaceFacility::Seats => "seats",
            ReservedSpaceFacility::Unrecognised(token) => token.as_str(),
        }
    }
}

/// The `RetailFacilityEnumeration` code list.
#[derive(Debug, Clone, PartialEq, Eq, PartialOrd, Ord, Hash)]
pub enum RetailFacility {
    /// `unknown`
    Unknown,
    /// `food`
    Food,
    /// `newspaperTobacco`
    NewspaperTobacco,
    /// `recreationTravel`
    RecreationTravel,
    /// `hygieneHealthBeauty`
    HygieneHealthBeauty,
    /// `fashionAccessories`
    FashionAccessories,
    /// `bankFinanceInsurance`
    BankFinanceInsurance,
    /// `cashMachine`
    CashMachine,
    /// `currencyExchange`
    CurrencyExchange,
    /// `tourismService`
    TourismService,
    /// `photoBooth`
    PhotoBooth,
    /// A token this list does not define, kept as it was read.
    Unrecognised(String),
}

impl core::str::FromStr for RetailFacility {
    type Err = core::convert::Infallible;

    /// Every token is a value, so this never fails; see `from_token`.
    fn from_str(token: &str) -> (result: Result<Self, Self::Err>)
        ensures
            result matches Ok(value) && value.spec_token() == token@ && match Self::spec_listed(
                token@,
            ) {
                Some(listed) => value == listed,
                None => value is Unrecognised,
            },
    {
        Ok(Self::from_token(token))
    }
}

impl RetailFacility {
    /// Name of the XML Schema type this list transcribes.
    pub const XSD_TYPE: &'static str = "RetailFacilityEnumeration";

    /// Every value the schema defines, in schema order.
    pub open spec fn spec_all() -> Seq<RetailFacility> {
        seq![RetailFacility::Unknown, RetailFacility::Food, RetailFacility::NewspaperTobacco, RetailFacility::RecreationTravel, RetailFacility::HygieneHealthBeauty, RetailFacility::FashionAccessories, RetailFacility::BankFinanceInsurance, RetailFacility::CashMachine, RetailFacility::CurrencyExchange, RetailFacility::TourismService, RetailFacility::PhotoBooth]
    }

    /// Every value the schema defines, in schema order.
    pub fn all() -> (values: Vec<Self>)
        ensures
            values@ == Self::spec_all(),
    {
        vec![RetailFacility::Unknown, RetailFacility::Food, RetailFacility::NewspaperTobacco, RetailFacility::RecreationTravel, RetailFacility::HygieneHealthBeauty, RetailFacility::FashionAccessories, RetailFacility::BankFinanceInsurance, RetailFacility::CashMachine, RetailFacility::CurrencyExchange, RetailFacility::TourismService, RetailFacility::PhotoBooth]
    }

    /// The token a value is written as on the wire.
    pub open spec fn spec_token(&self) -> Seq<char> {
        match self {
            RetailFacility::Unknown => "unknown"@,
            RetailFacility::Food => "food"@,
            RetailFacility::NewspaperTobacco => "newspaperTobacco"@,
            RetailFacility::RecreationTravel => "recreationTravel"@,
            RetailFacility::HygieneHealthBeauty => "hygieneHealthBeauty"@,
            RetailFacility::FashionAccessories => "fashionAccessories"@,
            RetailFacility::BankFinanceInsurance => "bankFinanceInsurance"@,
            RetailFacility::CashMachine => "cashMachine"@,
            RetailFacility::CurrencyExchange => "currencyExchange"@,
            RetailFacility::TourismService => "tourismService"@,
            RetailFacility::PhotoBooth => "photoBooth"@,
            RetailFacility::Unrecognised(token) => token@,
        }
    }

    /// The value the schema defines for a token, if it defines one.
    pub open spec fn spec_listed(token: Seq<char>) -> Option<RetailFacility> {
        if token == "unknown"@ {
            Some(RetailFacility::Unknown)
        } else if token == "food"@ {
            Some(RetailFacility::Food)
        } else if token == "newspaperTobacco"@ {
            Some(RetailFacility::NewspaperTobacco)
        } else if token == "recreationTravel"@ {
            Some(RetailFacility::RecreationTravel)
        } else if token == "hygieneHealthBeauty"@ {
            Some(RetailFacility::HygieneHealthBeauty)
        } else if token == "fashionAccessories"@ {
            Some(RetailFacility::FashionAccessories)
        } else if token == "bankFinanceInsurance"@ {
            Some(RetailFacility::BankFinanceInsurance)
        } else if token == "cashMachine"@ {
            Some(RetailFacility::CashMachine)
        } else if token == "currencyExchange"@ {
            Some(RetailFacility::CurrencyExchange)
        } else if token == "tourismService"@ {
            Some(RetailFacility::TourismService)
        } else if token == "photoBooth"@ {
            Some(RetailFacility::PhotoBooth)
        } else {
            None
        }
    }

    /// The value a wire token denotes: the listed variant when the schema defines
    /// the token, `Unrecognised` holding the token otherwise.
    pub fn from_token(token: &str) -> (result: Self)
        ensures
            result.spec_token() == token@,
            match Self::spec_listed(token@) {
                Some(listed) => result == listed,
                None => result is Unrecognised,
            },
    {
        let owned: String = token.to_owned();
        if owned == "unknown".to_owned() {
            RetailFacility::Unknown
        } else if owned == "food".to_owned() {
            RetailFacility::Food
        } else if owned == "newspaperTobacco".to_owned() {
            RetailFacility::NewspaperTobacco
        } else if owned == "recreationTravel".to_owned() {
            RetailFacility::RecreationTravel
        } else if owned == "hygieneHealthBeauty".to_owned() {
            RetailFacility::HygieneHealthBeauty
        } else if owned == "fashionAccessories".to_owned() {
            RetailFacility::FashionAccessories
        } else if owned == "bankFinanceInsurance".to_owned() {
            RetailFacility::BankFinanceInsurance
        } else if owned == "cashMachine".to_owned() {
            RetailFacility::CashMachine
        } else if owned == "currencyExchange".to_owned() {
            RetailFacility::CurrencyExchange
        } else if owned == "tourismService".to_owned() {
            RetailFacility::TourismService
        } else if owned == "photoBooth".to_owned() {
            RetailFacility::PhotoBooth
        } else {
            RetailFacility::Unrecognised(owned)
        }
    }

    /// The token this value is written as on the wire.
    pub fn as_str(&self) -> (token: &str)
        ensures
            token@ == self.spec_token(),
    {
        match self {
            RetailFacility::Unknown => "unknown",
            RetailFacility::Food => "food",
            RetailFacility::NewspaperTobacco => "newspaperTobacco",
            RetailFacility::RecreationTravel => "recreationTravel",
            RetailFacility::HygieneHealthBeauty => "hygieneHealthBeauty",
            RetailFacility::FashionAccessories => "fashionAccessories",
            RetailFacility::BankFinanceInsurance => "bankFinanceInsurance",
            RetailFacility::CashMachine => "cashMachine",
            RetailFacility::CurrencyExchange => "currencyExchange",
            RetailFacility::TourismService => "tourismService",
            RetailFacility::PhotoBooth => "photoBooth",
            RetailFacility::Unrecognised(token) => token.as_str(),
        }
    }
}

/// The `SanitaryFacilityEnumeration` code list.
#[derive(Debug, Clone, PartialEq, Eq, PartialOrd, Ord, Hash)]
pub enum SanitaryFacility {
    /// `unknown`
    Unknown,
    /// `toilet`
    Toilet,
    /// `noToilet`
    NoToilet,
    /// `shower`
    Shower,
    /// `wheelchairAcccessToilet`
    WheelchairAcccessToilet,
    /// `babyChange`
    BabyChange,
    /// A token this list does not define, kept as it was read.
    Unrecognised(String),
}

impl core::str::FromStr for SanitaryFacility {
    type Err = core::convert::Infallible;

    /// Every token is a value, so this never fails; see `from_token`.
    fn from_str(token: &str) -> (result: Result<Self, Self::Err>)
        ensures
            result matches Ok(value) && value.spec_token() == token@ && match Self::spec_listed(
                token@,
            ) {
                Some(listed) => value == listed,
                None => value is Unrecognised,
            },
    {
        Ok(Self::from_token(token))
    }
}

impl SanitaryFacility {
    /// Name of the XML Schema type this list transcribes.
    pub const XSD_TYPE: &'static str = "SanitaryFacilityEnumeration";

    /// Every value the schema defines, in schema order.
    pub open spec fn spec_all() -> Seq<SanitaryFacility> {
        seq![SanitaryFacility::Unknown, SanitaryFacility::Toilet, SanitaryFacility::NoToilet, SanitaryFacility::Shower, SanitaryFacility::WheelchairAcccessToilet, SanitaryFacility::BabyChange]
    }

    /// Every value the schema defines, in schema order.
    pub fn all() -> (values: Vec<Self>)
        ensures
            values@ == Self::spec_all(),
    {
        vec![SanitaryFacility::Unknown, SanitaryFacility::Toilet, SanitaryFacility::NoToilet, SanitaryFacility::Shower, SanitaryFacility::WheelchairAcccessToilet, SanitaryFacility::BabyChange]
    }

    /// The token a value is written as on the wire.
    pub open spec fn spec_token(&self) -> Seq<char> {
        match self {
            SanitaryFacility::Unknown => "unknown"@,
            SanitaryFacility::Toilet => "toilet"@,
            SanitaryFacility::NoToilet => "noToilet"@,
            SanitaryFacility::Shower => "shower"@,
            SanitaryFacility::WheelchairAcccessToilet => "wheelchairAcccessToilet"@,
            SanitaryFacility::BabyChange => "babyChange"@,
            SanitaryFacility::Unrecognised(token) => token@,
        }
    }

    /// The value the schema defines for a token, if it defines one.
    pub open spec fn spec_listed(token: Seq<char>) -> Option<SanitaryFacility> {
        if token == "unknown"@ {
            Some(SanitaryFacility::Unknown)
        } else if token == "toilet"@ {
            Some(SanitaryFacility::Toilet)
        } else if token == "noToilet"@ {
            Some(SanitaryFacility::NoToilet)
        } else if token == "shower"@ {
            Some(SanitaryFacility::Shower)
        } else if token == "wheelchairAcccessToilet"@ {
            Some(SanitaryFacility::WheelchairAcccessToilet)
        } else if token == "babyChange"@ {
            Some(SanitaryFacility::BabyChange)
        } else {
            None
        }
    }

    /// The value a wire token denotes: the listed variant when the schema defines
    /// the token, `Unrecognised` holding the token otherwise.
    pub fn from_token(token: &str) -> (result: Self)
        ensures
            result.spec_token() == token@,
            match Self::spec_listed(token@) {
                Some(listed) => result == listed,
                None => result is Unrecognised,
            },
    {
        let owned: String = token.to_owned();
        if owned == "unknown".to_owned() {
            SanitaryFacility::Unknown
        } else if owned == "toilet".to_owned() {
            SanitaryFacility::Toilet
        } else if owned == "noToilet".to_owned() {
            SanitaryFacility::NoToilet
        } else if owned == "shower".to_owned() {
            SanitaryFacility::Shower
        } else if owned == "wheelchairAcccessToilet".to_owned() {
            SanitaryFacility::WheelchairAcccessToilet
        } else if owned == "babyChange".to_owned() {
            SanitaryFacility::BabyChange
        } else {
            SanitaryFacility::Unrecognised(owned)
        }
    }

    /// The token this value is written as on the wire.
    pub fn as_str(&self) -> (token: &str)
        ensures
            token@ == self.spec_token(),
    {
        match self {
            SanitaryFacility::Unknown => "unknown",
            SanitaryFacility::Toilet => "toilet",
            SanitaryFacility::NoToilet => "noToilet",
            SanitaryFacility::Shower => "shower",
            SanitaryFacility::WheelchairAcccessToilet => "wheelchairAcccessToilet",
            SanitaryFacility::BabyChange => "babyChange",
            SanitaryFacility::Unrecognised(token) => token.as_str(),
        }
    }
}

/// The `StopPointsDetailEnumeration` code list.
#[derive(Debug, Clone, PartialEq, Eq, PartialOrd, Ord, Hash)]
pub enum StopPointsDetail {
    /// `minimum`
    Minimum,
    /// `normal`
    Normal,
    /// `full`
    Full,
    /// A token this list does not define, kept as it was read.
    Unrecognised(String),
}

impl core::str::FromStr for StopPointsDetail {
    type Err = core::convert::Infallible;

    /// Every token is a value, so this never fails; see `from_token`.
    fn from_str(token: &str) -> (result: Result<Self, Self::Err>)
        ensures
            result matches Ok(value) && value.spec_token() == token@ && match Self::spec_listed(
                token@,
            ) {
                Some(listed) => value == listed,
                None => value is Unrecognised,
            },
    {
        Ok(Self::from_token(token))
    }
}

impl StopPointsDetail {
    /// Name of the XML Schema type this list transcribes.
    pub const XSD_TYPE: &'static str = "StopPointsDetailEnumeration";

    /// Every value the schema defines, in schema order.
    pub open spec fn spec_all() -> Seq<StopPointsDetail> {
        seq![StopPointsDetail::Minimum, StopPointsDetail::Normal, StopPointsDetail::Full]
    }

    /// Every value the schema defines, in schema order.
    pub fn all() -> (values: Vec<Self>)
        ensures
            values@ == Self::spec_all(),
    {
        vec![StopPointsDetail::Minimum, StopPointsDetail::Normal, StopPointsDetail::Full]
    }

    /// The token a value is written as on the wire.
    pub open spec fn spec_token(&self) -> Seq<char> {
        match self {
            StopPointsDetail::Minimum => "minimum"@,
            StopPointsDetail::Normal => "normal"@,
            StopPointsDetail::Full => "full"@,
            StopPointsDetail::Unrecognised(token) => token@,
        }
    }

    /// The value the schema defines for a token, if it defines one.
    pub open spec fn spec_listed(token: Seq<char>) -> Option<StopPointsDetail> {
        if token == "minimum"@ {
            Some(StopPointsDetail::Minimum)
        } else if token == "normal"@ {
            Some(StopPointsDetail::Normal)
        } else if token == "full"@ {
            Some(StopPointsDetail::Full)
        } else {
            None
        }
    }

    /// The value a wire token denotes: the listed variant when the schema defines
    /// the token, `Unrecognised` holding the token otherwise.
    pub fn from_token(token: &str) -> (result: Self)
        ensures
            result.spec_token() == token@,
            match Self::spec_listed(token@) {
                Some(listed) => result == listed,
                None => result is Unrecognised,
            },
    {
        let owned: String = token.to_owned();
        if owned == "minimum".to_owned() {
            StopPointsDetail::Minimum
        } else if owned == "normal".to_owned() {
            StopPointsDetail::Normal
        } else if owned == "full".to_owned() {
            StopPointsDetail::Full
        } else {
            StopPointsDetail::Unrecognised(owned)
        }
    }

    /// The token this value is written as on the wire.
    pub fn as_str(&self) -> (token: &str)
        ensures
            token@ == self.spec_token(),
    {
        match self {
            StopPointsDetail::Minimum => "minimum",
            StopPointsDetail::Normal => "normal",
            StopPointsDetail::Full => "full",
            StopPointsDetail::Unrecognised(token) => token.as_str(),
        }
    }
}

/// The `SuitabilityEnumeration` code list.
#[derive(Debug, Clone, PartialEq, Eq, PartialOrd, Ord, Hash)]
pub enum Suitability {
    /// `suitable`
    Suitable,
    /// `notSuitable`
    NotSuitable,
    /// A token this list does not define, kept as it was read.
    Unrecognised(String),
}

impl core::str::FromStr for Suitability {
    type Err = core::convert::Infallible;

    /// Every token is a value, so this never fails; see `from_token`.
    fn from_str(token: &str) -> (result: Result<Self, Self::Err>)
        ensures
            result matches Ok(value) && value.spec_token() == token@ && match Self::spec_listed(
                token@,
            ) {
                Some(listed) => value == listed,
                None => value is Unrecognised,
            },
    {
        Ok(Self::from_token(token))
    }
}

impl Suitability {
    /// Name of the XML Schema type this list transcribes.
    pub const XSD_TYPE: &'static str = "SuitabilityEnumeration";

    /// Every value the schema defines, in schema order.
    pub open spec fn spec_all() -> Seq<Suitability> {
        seq![Suitability::Suitable, Suitability::NotSuitable]
    }

    /// Every value the schema defines, in schema order.
    pub fn all() -> (values: Vec<Self>)
        ensures
            values@ == Self::spec_all(),
    {
        vec![Suitability::Suitable, Suitability::NotSuitable]
    }

    /// The token a value is written as on the wire.
    pub open spec fn spec_token(&self) -> Seq<char> {
        match self {
            Suitability::Suitable => "suitable"@,
            Suitability::NotSuitable => "notSuitable"@,
            Suitability::Unrecognised(token) => token@,
        }
    }

    /// The value the schema defines for a token, if it defines one.
    pub open spec fn spec_listed(token: Seq<char>) -> Option<Suitability> {
        if token == "suitable"@ {
            Some(Suitability::Suitable)
        } else if token == "notSuitable"@ {
            Some(Suitability::NotSuitable)
        } else {
            None
        }
    }

    /// The value a wire token denotes: the listed variant when the schema defines
    /// the token, `Unrecognised` holding the token otherwise.
    pub fn from_token(token: &str) -> (result: Self)
        ensures
            result.spec_token() == token@,
            match Self::spec_listed(token@) {
                Some(listed) => result == listed,
                None => result is Unrecognised,
            },
    {
        let owned: String = token.to_owned();
        if owned == "suitable".to_owned() {
            Suitability::Suitable
        } else if owned == "notSuitable".to_owned() {
            Suitability::NotSuitable
        } else {
            Suitability::Unrecognised(owned)
        }
    }

    /// The token this value is written as on the wire.
    pub fn as_str(&self) -> (token: &str)
        ensures
            token@ == self.spec_token(),
    {
        match self {
            Suitability::Suitable => "suitable",
            Suitability::NotSuitable => "notSuitable",
            Suitability::Unrecognised(token) => token.as_str(),
        }
    }
}

/// The `TelecabinSubmodesOfTransportEnumeration` code list.
#[derive(Debug, Clone, PartialEq, Eq, PartialOrd, Ord, Hash)]
pub enum TelecabinSubmodesOfTransport {
    /// `unknown`
    Unknown,
    /// `undefined`
    Undefined,
    /// `telecabin`
    Telecabin,
    /// `cableCar`
    CableCar,
    /// `lift`
    Lift,
    /// `chairLift`
    ChairLift,
    /// `dragLift`
    DragLift,
    /// `telecabinLink`
    TelecabinLink,
    /// A token this list does not define, kept as it was read.
    Unrecognised(String),
}

impl core::str::FromStr for TelecabinSubmodesOfTransport {
    type Err = core::convert::Infallible;

    /// Every token is a value, so this never fails; see `from_token`.
    fn from_str(token: &str) -> (result: Result<Self, Self::Err>)
        ensures
            result matches Ok(value) && value.spec_token() == token@ && match Self::spec_listed(
                token@,
            ) {
                Some(listed) => value == listed,
                None => value is Unrecognised,
            },
    {
        Ok(Self::from_token(token))
    }
}

impl TelecabinSubmodesOfTransport {
    /// Name of the XML Schema type this list transcribes.
    pub const XSD_TYPE: &'static str = "TelecabinSubmodesOfTransportEnumeration";

    /// Every value the schema defines, in schema order.
    pub open spec fn spec_all() -> Seq<TelecabinSubmodesOfTransport> {
        seq![TelecabinSubmodesOfTransport::Unknown, TelecabinSubmodesOfTransport::Undefined, TelecabinSubmodesOfTransport::Telecabin, TelecabinSubmodesOfTransport::CableCar, TelecabinSubmodesOfTransport::Lift, TelecabinSubmodesOfTransport::ChairLift, TelecabinSubmodesOfTransport::DragLift, TelecabinSubmodesOfTransport::TelecabinLink]
    }

    /// Every value the schema defines, in schema order.
    pub fn all() -> (values: Vec<Self>)
        ensures
            values@ == Self::spec_all(),
    {
        vec![TelecabinSubmodesOfTransport::Unknown, TelecabinSubmodesOfTransport::Undefined, TelecabinSubmodesOfTransport::Telecabin, TelecabinSubmodesOfTransport::CableCar, TelecabinSubmodesOfTransport::Lift, TelecabinSubmodesOfTransport::ChairLift, TelecabinSubmodesOfTransport::DragLift, TelecabinSubmodesOfTransport::TelecabinLink]
    }

    /// The token a value is written as on the wire.
    pub open spec fn spec_token(&self) -> Seq<char> {
        match self {
            TelecabinSubmodesOfTransport::Unknown => "unknown"@,
            TelecabinSubmodesOfTransport::Undefined => "undefined"@,
            TelecabinSubmodesOfTransport::Telecabin => "telecabin"@,
            TelecabinSubmodesOfTransport::CableCar => "cableCar"@,
            TelecabinSubmodesOfTransport::Lift => "lift"@,
            TelecabinSubmodesOfTransport::ChairLift => "chairLift"@,
            TelecabinSubmodesOfTransport::DragLift => "dragLift"@,
            TelecabinSubmodesOfTransport::TelecabinLink => "telecabinLink"@,
            TelecabinSubmodesOfTransport::Unrecognised(token) => token@,
        }
    }

    /// The value the schema defines for a token, if it defines one.
    pub open spec fn spec_listed(token: Seq<char>) -> Option<TelecabinSubmodesOfTransport> {
        if token == "unknown"@ {
            Some(TelecabinSubmodesOfTransport::Unknown)
        } else if token == "undefined"@ {
            Some(TelecabinSubmodesOfTransport::Undefined)
        } else if token == "telecabin"@ {
            Some(TelecabinSubmodesOfTransport::Telecabin)
        } else if token == "cableCar"@ {
            Some(TelecabinSubmodesOfTransport::CableCar)
        } else if token == "lift"@ {
            Some(TelecabinSubmodesOfTransport::Lift)
        } else if token == "chairLift"@ {
            Some(TelecabinSubmodesOfTransport::ChairLift)
        } else if token == "dragLift"@ {
            Some(TelecabinSubmodesOfTransport::DragLift)
        } else if token == "telecabinLink"@ {
            Some(TelecabinSubmodesOfTransport::TelecabinLink)
        } else {
            None
        }
    }

    /// The value a wire token denotes: the listed variant when the schema defines
    /// the token, `Unrecognised` holding the token otherwise.
    pub fn from_token(token: &str) -> (result: Self)
        ensures
            result.spec_token() == token@,
            match Self::spec_listed(token@) {
                Some(listed) => result == listed,
                None => result is Unrecognised,
            },
    {
        let owned: String = token.to_owned();
        if owned == "unknown".to_owned() {
            TelecabinSubmodesOfTransport::Unknown
        } else if owned == "undefined".to_owned() {
            TelecabinSubmodesOfTransport::Undefined
        } else if owned == "telecabin".to_owned() {
            TelecabinSubmodesOfTransport::Telecabin
        } else if owned == "cableCar".to_owned() {
            TelecabinSubmodesOfTransport::CableCar
        } else if owned == "lift".to_owned() {
            TelecabinSubmodesOfTransport::Lift
        } else if owned == "chairLift".to_owned() {
            TelecabinSubmodesOfTransport::ChairLift
        } else if owned == "dragLift".to_owned() {
            TelecabinSubmodesOfTransport::DragLift
        } else if owned == "telecabinLink".to_owned() {
            TelecabinSubmodesOfTransport::TelecabinLink
        } else {
            TelecabinSubmodesOfTransport::Unrecognised(owned)
        }
    }

    /// The token this value is written as on the wire.
    pub fn as_str(&self) -> (token: &str)
        ensures
            token@ == self.spec_token(),
    {
        match self {
            TelecabinSubmodesOfTransport::Unknown => "unknown",
            TelecabinSubmodesOfTransport::Undefined => "undefined",
            TelecabinSubmodesOfTransport::Telecabin => "telecabin",
            TelecabinSubmodesOfTransport::CableCar => "cableCar",
            TelecabinSubmodesOfTransport::Lift => "lift",
            TelecabinSubmodesOfTransport::ChairLift => "chairLift",
            TelecabinSubmodesOfTransport::DragLift => "dragLift",
            TelecabinSubmodesOfTransport::TelecabinLink => "telecabinLink",
            TelecabinSubmodesOfTransport::Unrecognised(token) => token.as_str(),
        }
    }
}

/// The `TicketingFacilityEnumeration` code list.
#[derive(Debug, Clone, PartialEq, Eq, PartialOrd, Ord, Hash)]
pub enum TicketingFacility {
    /// `unknown`
    Unknown,
    /// `purchase`
    Purchase,
    /// `collection`
    Collection,
    /// `cardTopUp`
    CardTopUp,
    /// `reservations`
    Reservations,
    /// `exchange`
    Exchange,
    /// `refund`
    Refund,
    /// `renewal`
    Renewal,
    /// `excessFares`
    ExcessFares,
    /// `other`
    Other,
    /// A token this list does not define, kept as it was read.
    Unrecognised(String),
}

impl core::str::FromStr for TicketingFacility {
    type Err = core::convert::Infallible;

    /// Every token is a value, so this never fails; see `from_token`.
    fn from_str(token: &str) -> (result: Result<Self, Self::Err>)
        ensures
            result matches Ok(value) && value.spec_token() == token@ && match Self::spec_listed(
                token@,
            ) {
                Some(listed) => value == listed,
                None => value is Unrecognised,
            },
    {
        Ok(Self::from_token(token))
    }
}

impl TicketingFacility {
    /// Name of the XML Schema type this list transcribes.
    pub const XSD_TYPE: &'static str = "TicketingFacilityEnumeration";

    /// Every value the schema defines, in schema order.
    pub open spec fn spec_all() -> Seq<TicketingFacility> {
        seq![TicketingFacility::Unknown, TicketingFacility::Purchase, TicketingFacility::Collection, TicketingFacility::CardTopUp, TicketingFacility::Reservations, TicketingFacility::Exchange, TicketingFacility::Refund, TicketingFacility::Renewal, TicketingFacility::ExcessFares, TicketingFacility::Other]
    }

    /// Every value the schema defines, in schema order.
    pub fn all() -> (values: Vec<Self>)
        ensures
            values@ == Self::spec_all(),
    {
        vec![TicketingFacility::Unknown, TicketingFacility::Purchase, TicketingFacility::Collection, TicketingFacility::CardTopUp, TicketingFacility::Reservations, TicketingFacility::Exchange, TicketingFacility::Refund, TicketingFacility::Renewal, TicketingFacility::ExcessFares, TicketingFacility::Other]
    }

    /// The token a value is written as on the wire.
    pub open spec fn spec_token(&self) -> Seq<char> {
        match self {
            TicketingFacility::Unknown => "unknown"@,
            TicketingFacility::Purchase => "purchase"@,
            TicketingFacility::Collection => "collection"@,
            TicketingFacility::CardTopUp => "cardTopUp"@,
            TicketingFacility::Reservations => "reservations"@,
            TicketingFacility::Exchange => "exchange"@,
            TicketingFacility::Refund => "refund"@,
            TicketingFacility::Renewal => "renewal"@,
            TicketingFacility::ExcessFares => "excessFares"@,
            TicketingFacility::Other => "other"@,
            TicketingFacility::Unrecognised(token) => token@,
        }
    }

    /// The value the schema defines for a token, if it defines one.
    pub open spec fn spec_listed(token: Seq<char>) -> Option<TicketingFacility> {
        if token == "unknown"@ {
            Some(TicketingFacility::Unknown)
        } else if token == "purchase"@ {
            Some(TicketingFacility::Purchase)
        } else if token == "collection"@ {
            Some(TicketingFacility::Collection)
        } else if token == "cardTopUp"@ {
            Some(TicketingFacility::CardTopUp)
        } else if token == "reservations"@ {
            Some(TicketingFacility::Reservations)
        } else if token == "exchange"@ {
            Some(TicketingFacility::Exchange)
        } else if token == "refund"@ {
            Some(TicketingFacility::Refund)
        } else if token == "renewal"@ {
            Some(TicketingFacility::Renewal)
        } else if token == "excessFares"@ {
            Some(TicketingFacility::ExcessFares)
        } else if token == "other"@ {
            Some(TicketingFacility::Other)
        } else {
            None
        }
    }

    /// The value a wire token denotes: the listed variant when the schema defines
    /// the token, `Unrecognised` holding the token otherwise.
    pub fn from_token(token: &str) -> (result: Self)
        ensures
            result.spec_token() == token@,
            match Self::spec_listed(token@) {
                Some(listed) => result == listed,
                None => result is Unrecognised,
            },
    {
        let owned: String = token.to_owned();
        if owned == "unknown".to_owned() {
            TicketingFacility::Unknown
        } else if owned == "purchase".to_owned() {
            TicketingFacility::Purchase
        } else if owned == "collection".to_owned() {
            TicketingFacility::Collection
        } else if owned == "cardTopUp".to_owned() {
            TicketingFacility::CardTopUp
        } else if owned == "reservations".to_owned() {
            TicketingFacility::Reservations
        } else if owned == "exchange".to_owned() {
            TicketingFacility::Exchange
        } else if owned == "refund".to_owned() {
            TicketingFacility::Refund
        } else if owned == "renewal".to_owned() {
            TicketingFacility::Renewal
        } else if owned == "excessFares".to_owned() {
            TicketingFacility::ExcessFares
        } else if owned == "other".to_owned() {
            TicketingFacility::Other
        } else {
            TicketingFacility::Unrecognised(owned)
        }
    }

    /// The token this value is written as on the wire.
    pub fn as_str(&self) -> (token: &str)
        ensures
            token@ == self.spec_token(),
    {
        match self {
            TicketingFacility::Unknown => "unknown",
            TicketingFacility::Purchase => "purchase",
            TicketingFacility::Collection => "collection",
            TicketingFacility::CardTopUp => "cardTopUp",
            TicketingFacility::Reservations => "reservations",
            TicketingFacility::Exchange => "exchange",
            TicketingFacility::Refund => "refund",
            TicketingFacility::Renewal => "renewal",
            TicketingFacility::ExcessFares => "excessFares",
            TicketingFacility::Other => "other",
            TicketingFacility::Unrecognised(token) => token.as_str(),
        }
    }
}

/// The `TrainElementTypeEnumeration` code list.
#[derive(Debug, Clone, PartialEq, Eq, PartialOrd, Ord, Hash)]
pub enum TrainElementType {
    /// `carriage`
    Carriage,
    /// `engine`
    Engine,
    /// `robotCar`
    RobotCar,
    /// `selfPropelledCarriage`
    SelfPropelledCarriage,
    /// `restaurantCarriage`
    RestaurantCarriage,
    /// `sleeperCarriage`
    SleeperCarriage,
    /// `carTransporter`
    CarTransporter,
    /// A token this list does not define, kept as it was read.
    Unrecognised(String),
}

impl core::str::FromStr for TrainElementType {
    type Err = core::convert::Infallible;

    /// Every token is a value, so this never fails; see `from_token`.
    fn from_str(token: &str) -> (result: Result<Self, Self::Err>)
        ensures
            result matches Ok(value) && value.spec_token() == token@ && match Self::spec_listed(
                token@,
            ) {
                Some(listed) => value == listed,
                None => value is Unrecognised,
            },
    {
        Ok(Self::from_token(token))
    }
}

impl TrainElementType {
    /// Name of the XML Schema type this list transcribes.
    pub const XSD_TYPE: &'static str = "TrainElementTypeEnumeration";

    /// Every value the schema defines, in schema order.
    pub open spec fn spec_all() -> Seq<TrainElementType> {
        seq![TrainElementType::Carriage, TrainElementType::Engine, TrainElementType::RobotCar, TrainElementType::SelfPropelledCarriage, TrainElementType::RestaurantCarriage, TrainElementType::SleeperCarriage, TrainElementType::CarTransporter]
    }

    /// Every value the schema defines, in schema order.
    pub fn all() -> (values: Vec<Self>)
        ensures
            values@ == Self::spec_all(),
    {
        vec![TrainElementType::Carriage, TrainElementType::Engine, TrainElementType::RobotCar, TrainElementType::SelfPropelledCarriage, TrainElementType::RestaurantCarriage, TrainElementType::SleeperCarriage, TrainElementType::CarTransporter]
    }

    /// The token a value is written as on the wire.
    pub open spec fn spec_token(&self) -> Seq<char> {
        match self {
            TrainElementType::Carriage => "carriage"@,
            TrainElementType::Engine => "engine"@,
            TrainElementType::RobotCar => "robotCar"@,
            TrainElementType::SelfPropelledCarriage => "selfPropelledCarriage"@,
            TrainElementType::RestaurantCarriage => "restaurantCarriage"@,
            TrainElementType::SleeperCarriage => "sleeperCarriage"@,
            TrainElementType::CarTransporter => "carTransporter"@,
            TrainElementType::Unrecognised(token) => token@,
        }
    }

    /// The value the schema defines for a token, if it defines one.
    pub open spec fn spec_listed(token: Seq<char>) -> Option<TrainElementType> {
        if token == "carriage"@ {
            Some(TrainElementType::Carriage)
        } else if token == "engine"@ {
            Some(TrainElementType::Engine)
        } else if token == "robotCar"@ {
            Some(TrainElementType::RobotCar)
        } else if token == "selfPropelledCarriage"@ {
            Some(TrainElementType::SelfPropelledCarriage)
        } else if token == "restaurantCarriage"@ {
            Some(TrainElementType::RestaurantCarriage)
        } else if token == "sleeperCarriage"@ {
            Some(TrainElementType::SleeperCarriage)
        } else if token == "carTransporter"@ {
            Some(TrainElementType::CarTransporter)
        } else {
            None
        }
    }

    /// The value a wire token denotes: the listed variant when the schema defines
    /// the token, `Unrecognised` holding the token otherwise.
    pub fn from_token(token: &str) -> (result: Self)
        ensures
            result.spec_token() == token@,
            match Self::spec_listed(token@) {
                Some(listed) => result == listed,
                None => result is Unrecognised,
            },
    {
        let owned: String = token.to_owned();
        if owned == "carriage".to_owned() {
            TrainElementType::Carriage
        } else if owned == "engine".to_owned() {
            TrainElementType::Engine
        } else if owned == "robotCar".to_owned() {
            TrainElementType::RobotCar
        } else if owned == "selfPropelledCarriage".to_owned() {
            TrainElementType::SelfPropelledCarriage
        } else if owned == "restaurantCarriage".to_owned() {
            TrainElementType::RestaurantCarriage
        } else if owned == "sleeperCarriage".to_owned() {
            TrainElementType::SleeperCarriage
        } else if owned == "carTransporter".to_owned() {
            TrainElementType::CarTransporter
        } else {
            TrainElementType::Unrecognised(owned)
        }
    }

    /// The token this value is written as on the wire.
    pub fn as_str(&self) -> (token: &str)
        ensures
            token@ == self.spec_token(),
    {
        match self {
            TrainElementType::Carriage => "carriage",
            TrainElementType::Engine => "engine",
            TrainElementType::RobotCar => "robotCar",
            TrainElementType::SelfPropelledCarriage => "selfPropelledCarriage",
            TrainElementType::RestaurantCarriage => "restaurantCarriage",
            TrainElementType::SleeperCarriage => "sleeperCarriage",
            TrainElementType::CarTransporter => "carTransporter",
            TrainElementType::Unrecognised(token) => token.as_str(),
        }
    }
}

/// The `TrainSizeEnumeration` code list.
#[derive(Debug, Clone, PartialEq, Eq, PartialOrd, Ord, Hash)]
pub enum TrainSize {
    /// `short`
    Short,
    /// `normal`
    Normal,
    /// `long`
    Long,
    /// A token this list does not define, kept as it was read.
    Unrecognised(String),
}

impl core::str::FromStr for TrainSize {
    type Err = core::convert::Infallible;

    /// Every token is a value, so this never fails; see `from_token`.
    fn from_str(token: &str) -> (result: Result<Self, Self::Err>)
        ensures
            result matches Ok(value) && value.spec_token() == token@ && match Self::spec_listed(
                token@,
            ) {
                Some(listed) => value == listed,
                None => value is Unrecognised,
            },
    {
        Ok(Self::from_token(token))
    }
}

impl TrainSize {
    /// Name of the XML Schema type this list transcribes.
    pub const XSD_TYPE: &'static str = "TrainSizeEnumeration";

    /// Every value the schema defines, in schema order.
    pub open spec fn spec_all() -> Seq<TrainSize> {
        seq![TrainSize::Short, TrainSize::Normal, TrainSize::Long]
    }

    /// Every value the schema defines, in schema order.
    pub fn all() -> (values: Vec<Self>)
        ensures
            values@ == Self::spec_all(),
    {
        vec![TrainSize::Short, TrainSize::Normal, TrainSize::Long]
    }

    /// The token a value is written as on the wire.
    pub open spec fn spec_token(&self) -> Seq<char> {
        match self {
            TrainSize::Short => "short"@,
            TrainSize::Normal => "normal"@,
            TrainSize::Long => "long"@,
            TrainSize::Unrecognised(token) => token@,
        }
    }

    /// The value the schema defines for a token, if it defines one.
    pub open spec fn spec_listed(token: Seq<char>) -> Option<TrainSize> {
        if token == "short"@ {
            Some(TrainSize::Short)
        } else if token == "normal"@ {
            Some(TrainSize::Normal)
        } else if token == "long"@ {
            Some(TrainSize::Long)
        } else {
            None
        }
    }

    /// The value a wire token denotes: the listed variant when the schema defines
    /// the token, `Unrecognised` holding the token otherwise.
    pub fn from_token(token: &str) -> (result: Self)
        ensures
            result.spec_token() == token@,
            match Self::spec_listed(token@) {
                Some(listed) => result == listed,
                None => result is Unrecognised,
            },
    {
        let owned: String = token.to_owned();
        if owned == "short".to_owned() {
            TrainSize::Short
        } else if owned == "normal".to_owned() {
            TrainSize::Normal
        } else if owned == "long".to_owned() {
            TrainSize::Long
        } else {
            TrainSize::Unrecognised(owned)
        }
    }

    /// The token this value is written as on the wire.
    pub fn as_str(&self) -> (token: &str)
        ensures
            token@ == self.spec_token(),
    {
        match self {
            TrainSize::Short => "short",
            TrainSize::Normal => "normal",
            TrainSize::Long => "long",
            TrainSize::Unrecognised(token) => token.as_str(),
        }
    }
}

/// The `TramSubmodesOfTransportEnumeration` code list.
#[derive(Debug, Clone, PartialEq, Eq, PartialOrd, Ord, Hash)]
pub enum TramSubmodesOfTransport {
    /// `unknown`
    Unknown,
    /// `undefined`
    Undefined,
    /// `cityTram`
    CityTram,
    /// `localTram`
    LocalTram,
    /// `regionalTram`
    RegionalTram,
    /// `sightseeingTram`
    SightseeingTram,
    /// `shuttleTram`
    ShuttleTram,
    /// `trainTram`
    TrainTram,
    /// A token this list does not define, kept as it was read.
    Unrecognised(String),
}

impl core::str::FromStr for TramSubmodesOfTransport {
    type Err = core::convert::Infallible;

    /// Every token is a value, so this never fails; see `from_token`.
    fn from_str(token: &str) -> (result: Result<Self, Self::Err>)
        ensures
            result matches Ok(value) && value.spec_token() == token@ && match Self::spec_listed(
                token@,
            ) {
                Some(listed) => value == listed,
                None => value is Unrecognised,
            },
    {
        Ok(Self::from_token(token))
    }
}

impl TramSubmodesOfTransport {
    /// Name of the XML Schema type this list transcribes.
    pub const XSD_TYPE: &'static str = "TramSubmodesOfTransportEnumeration";

    /// Every value the schema defines, in schema order.
    pub open spec fn spec_all() -> Seq<TramSubmodesOfTransport> {
        seq![TramSubmodesOfTransport::Unknown, TramSubmodesOfTransport::Undefined, TramSubmodesOfTransport::CityTram, TramSubmodesOfTransport::LocalTram, TramSubmodesOfTransport::RegionalTram, TramSubmodesOfTransport::SightseeingTram, TramSubmodesOfTransport::ShuttleTram, TramSubmodesOfTransport::TrainTram]
    }

    /// Every value the schema defines, in schema order.
    pub fn all() -> (values: Vec<Self>)
        ensures
            values@ == Self::spec_all(),
    {
        vec![TramSubmodesOfTransport::Unknown, TramSubmodesOfTransport::Undefined, TramSubmodesOfTransport::CityTram, TramSubmodesOfTransport::LocalTram, TramSubmodesOfTransport::RegionalTram, TramSubmodesOfTransport::SightseeingTram, TramSubmodesOfTransport::ShuttleTram, TramSubmodesOfTransport::TrainTram]
    }

    /// The token a value is written as on the wire.
    pub open spec fn spec_token(&self) -> Seq<char> {
        match self {
            TramSubmodesOfTransport::Unknown => "unknown"@,
            TramSubmodesOfTransport::Undefined => "undefined"@,
            TramSubmodesOfTransport::CityTram => "cityTram"@,
            TramSubmodesOfTransport::LocalTram => "localTram"@,
            TramSubmodesOfTransport::RegionalTram => "regionalTram"@,
            TramSubmodesOfTransport::SightseeingTram => "sightseeingTram"@,
            TramSubmodesOfTransport::ShuttleTram => "shuttleTram"@,
            TramSubmodesOfTransport::TrainTram => "trainTram"@,
            TramSubmodesOfTransport::Unrecognised(token) => token@,
        }
    }

    /// The value the schema defines for a token, if it defines one.
    pub open spec fn spec_listed(token: Seq<char>) -> Option<TramSubmodesOfTransport> {
        if token == "unknown"@ {
            Some(TramSubmodesOfTransport::Unknown)
        } else if token == "undefined"@ {
            Some(TramSubmodesOfTransport::Undefined)
        } else if token == "cityTram"@ {
            Some(TramSubmodesOfTransport::CityTram)
        } else if token == "localTram"@ {
            Some(TramSubmodesOfTransport::LocalTram)
        } else if token == "regionalTram"@ {
            Some(TramSubmodesOfTransport::RegionalTram)
        } else if token == "sightseeingTram"@ {
            Some(TramSubmodesOfTransport::SightseeingTram)
        } else if token == "shuttleTram"@ {
            Some(TramSubmodesOfTransport::ShuttleTram)
        } else if token == "trainTram"@ {
            Some(TramSubmodesOfTransport::TrainTram)
        } else {
            None
        }
    }

    /// The value a wire token denotes: the listed variant when the schema defines
    /// the token, `Unrecognised` holding the token otherwise.
    pub fn from_token(token: &str) -> (result: Self)
        ensures
            result.spec_token() == token@,
            match Self::spec_listed(token@) {
                Some(listed) => result == listed,
                None => result is Unrecognised,
            },
    {
        let owned: String = token.to_owned();
        if owned == "unknown".to_owned() {
            TramSubmodesOfTransport::Unknown
        } else if owned == "undefined".to_owned() {
            TramSubmodesOfTransport::Undefined
        } else if owned == "cityTram".to_owned() {
            TramSubmodesOfTransport::CityTram
        } else if owned == "localTram".to_owned() {
            TramSubmodesOfTransport::LocalTram
        } else if owned == "regionalTram".to_owned() {
            TramSubmodesOfTransport::RegionalTram
        } else if owned == "sightseeingTram".to_owned() {
            TramSubmodesOfTransport::SightseeingTram
        } else if owned == "shuttleTram".to_owned() {
            TramSubmodesOfTransport::ShuttleTram
        } else if owned == "trainTram".to_owned() {
            TramSubmodesOfTransport::TrainTram
        } else {
            TramSubmodesOfTransport::Unrecognised(owned)
        }
    }

    /// The token this value is written as on the wire.
    pub fn as_str(&self) -> (token: &str)
        ensures
            token@ == self.spec_token(),
    {
        match self {
            TramSubmodesOfTransport::Unknown => "unknown",
            TramSubmodesOfTransport::Undefined => "undefined",
            TramSubmodesOfTransport::CityTram => "cityTram",
            TramSubmodesOfTransport::LocalTram => "localTram",
            TramSubmodesOfTransport::RegionalTram => "regionalTram",
            TramSubmodesOfTransport::SightseeingTram => "sightseeingTram",
            TramSubmodesOfTransport::ShuttleTram => "shuttleTram",
            TramSubmodesOfTransport::TrainTram => "trainTram",
            TramSubmodesOfTransport::Unrecognised(token) => token.as_str(),
        }
    }
}

/// The `TypeOfFuelEnumeration` code list.
#[derive(Debug, Clone, PartialEq, Eq, PartialOrd, Ord, Hash)]
pub enum TypeOfFuel {
    /// `petrol`
    Petrol,
    /// `diesel`
    Diesel,
    /// `naturalGas`
    NaturalGas,
    /// `biodiesel`
    Biodiesel,
    /// `electricity`
    Electricity,
    /// `other`
    Other,
    /// A token this list does not define, kept as it was read.
    Unrecognised(String),
}

impl core::str::FromStr for TypeOfFuel {
    type Err = core::convert::Infallible;

    /// Every token is a value, so this never fails; see `from_token`.
    fn from_str(token: &str) -> (result: Result<Self, Self::Err>)
        ensures
            result matches Ok(value) && value.spec_token() == token@ && match Self::spec_listed(
                token@,
            ) {
                Some(listed) => value == listed,
                None => value is Unrecognised,
            },
    {
        Ok(Self::from_token(token))
    }
}

impl TypeOfFuel {
    /// Name of the XML Schema type this list transcribes.
    pub const XSD_TYPE: &'static str = "TypeOfFuelEnumeration";

    /// Every value the schema defines, in schema order.
    pub open spec fn spec_all() -> Seq<TypeOfFuel> {
        seq![TypeOfFuel::Petrol, TypeOfFuel::Diesel, TypeOfFuel::NaturalGas, TypeOfFuel::Biodiesel, TypeOfFuel::Electricity, TypeOfFuel::Other]
    }

    /// Every value the schema defines, in schema order.
    pub fn all() -> (values: Vec<Self>)
        ensures
            values@ == Self::spec_all(),
    {
        vec![TypeOfFuel::Petrol, TypeOfFuel::Diesel, TypeOfFuel::NaturalGas, TypeOfFuel::Biodiesel, TypeOfFuel::Electricity, TypeOfFuel::Other]
    }

    /// The token a value is written as on the wire.
    pub open spec fn spec_token(&self) -> Seq<char> {
        match self {
            TypeOfFuel::Petrol => "petrol"@,
            TypeOfFuel::Diesel => "diesel"@,
            TypeOfFuel::NaturalGas => "naturalGas"@,
            TypeOfFuel::Biodiesel => "biodiesel"@,
            TypeOfFuel::Electricity => "electricity"@,
            TypeOfFuel::Other => "other"@,
            TypeOfFuel::Unrecognised(token) => token@,
        }
    }

    /// The value the schema defines for a token, if it defines one.
    pub open spec fn spec_listed(token: Seq<char>) -> Option<TypeOfFuel> {
        if token == "petrol"@ {
            Some(TypeOfFuel::Petrol)
        } else if token == "diesel"@ {
            Some(TypeOfFuel::Diesel)
        } else if token == "naturalGas"@ {
            Some(TypeOfFuel::NaturalGas)
        } else if token == "biodiesel"@ {
            Some(TypeOfFuel::Biodiesel)
        } else if token == "electricity"@ {
            Some(TypeOfFuel::Electricity)
        } else if token == "other"@ {
            Some(TypeOfFuel::Other)
        } else {
            None
        }
    }

    /// The value a wire token denotes: the listed variant when the schema defines
    /// the token, `Unrecognised` holding the token otherwise.
    pub fn from_token(token: &str) -> (result: Self)
        ensures
            result.spec_token() == token@,
            match Self::spec_listed(token@) {
                Some(listed) => result == listed,
                None => result is Unrecognised,
            },
    {
        let owned: String = token.to_owned();
        if owned == "petrol".to_owned() {
            TypeOfFuel::Petrol
        } else if owned == "diesel".to_owned() {
            TypeOfFuel::Diesel
        } else if owned == "naturalGas".to_owned() {
            TypeOfFuel::NaturalGas
        } else if owned == "biodiesel".to_owned() {
            TypeOfFuel::Biodiesel
        } else if owned == "electricity".to_owned() {
            TypeOfFuel::Electricity
        } else if owned == "other".to_owned() {
            TypeOfFuel::Other
        } else {
            TypeOfFuel::Unrecognised(owned)
        }
    }

    /// The token this value is written as on the wire.
    pub fn as_str(&self) -> (token: &str)
        ensures
            token@ == self.spec_token(),
    {
        match self {
            TypeOfFuel::Petrol => "petrol",
            TypeOfFuel::Diesel => "diesel",
            TypeOfFuel::NaturalGas => "naturalGas",
            TypeOfFuel::Biodiesel => "biodiesel",
            TypeOfFuel::Electricity => "electricity",
            TypeOfFuel::Other => "other",
            TypeOfFuel::Unrecognised(token) => token.as_str(),
        }
    }
}

/// The `TypeOfNestedQuayEnumeration` code list.
#[derive(Debug, Clone, PartialEq, Eq, PartialOrd, Ord, Hash)]
pub enum TypeOfNestedQuay {
    /// `platform`
    Platform,
    /// `bay`
    Bay,
    /// `gate`
    Gate,
    /// `berth`
    Berth,
    /// A token this list does not define, kept as it was read.
    Unrecognised(String),
}

impl core::str::FromStr for TypeOfNestedQuay {
    type Err = core::convert::Infallible;

    /// Every token is a value, so this never fails; see `from_token`.
    fn from_str(token: &str) -> (result: Result<Self, Self::Err>)
        ensures
            result matches Ok(value) && value.spec_token() == token@ && match Self::spec_listed(
                token@,
            ) {
                Some(listed) => value == listed,
                None => value is Unrecognised,
            },
    {
        Ok(Self::from_token(token))
    }
}

impl TypeOfNestedQuay {
    /// Name of the XML Schema type this list transcribes.
    pub const XSD_TYPE: &'static str = "TypeOfNestedQuayEnumeration";

    /// Every value the schema defines, in schema order.
    pub open spec fn spec_all() -> Seq<TypeOfNestedQuay> {
        seq![TypeOfNestedQuay::Platform, TypeOfNestedQuay::Bay, TypeOfNestedQuay::Gate, TypeOfNestedQuay::Berth]
    }

    /// Every value the schema defines, in schema order.
    pub fn all() -> (values: Vec<Self>)
        ensures
            values@ == Self::spec_all(),
    {
        vec![TypeOfNestedQuay::Platform, TypeOfNestedQuay::Bay, TypeOfNestedQuay::Gate, TypeOfNestedQuay::Berth]
    }

    /// The token a value is written as on the wire.
    pub open spec fn spec_token(&self) -> Seq<char> {
        match self {
            TypeOfNestedQuay::Platform => "platform"@,
            TypeOfNestedQuay::Bay => "bay"@,
            TypeOfNestedQuay::Gate => "gate"@,
            TypeOfNestedQuay::Berth => "berth"@,
            TypeOfNestedQuay::Unrecognised(token) => token@,
        }
    }

    /// The value the schema defines for a token, if it defines one.
    pub open spec fn spec_listed(token: Seq<char>) -> Option<TypeOfNestedQuay> {
        if token == "platform"@ {
            Some(TypeOfNestedQuay::Platform)
        } else if token == "bay"@ {
            Some(TypeOfNestedQuay::Bay)
        } else if token == "gate"@ {
            Some(TypeOfNestedQuay::Gate)
        } else if token == "berth"@ {
            Some(TypeOfNestedQuay::Berth)
        } else {
            None
        }
    }

    /// The value a wire token denotes: the listed variant when the schema defines
    /// the token, `Unrecognised` holding the token otherwise.
    pub fn from_token(token: &str) -> (result: Self)
        ensures
            result.spec_token() == token@,
            match Self::spec_listed(token@) {
                Some(listed) => result == listed,
                None => result is Unrecognised,
            },
    {
        let owned: String = token.to_owned();
        if owned == "platform".to_owned() {
            TypeOfNestedQuay::Platform
        } else if owned == "bay".to_owned() {
            TypeOfNestedQuay::Bay
        } else if owned == "gate".to_owned() {
            TypeOfNestedQuay::Gate
        } else if owned == "berth".to_owned() {
            TypeOfNestedQuay::Berth
        } else {
            TypeOfNestedQuay::Unrecognised(owned)
        }
    }

    /// The token this value is written as on the wire.
    pub fn as_str(&self) -> (token: &str)
        ensures
            token@ == self.spec_token(),
    {
        match self {
            TypeOfNestedQuay::Platform => "platform",
            TypeOfNestedQuay::Bay => "bay",
            TypeOfNestedQuay::Gate => "gate",
            TypeOfNestedQuay::Berth => "berth",
            TypeOfNestedQuay::Unrecognised(token) => token.as_str(),
        }
    }
}

/// The `VehicleInFormationStatusEnumeration` code list.
#[derive(Debug, Clone, PartialEq, Eq, PartialOrd, Ord, Hash)]
pub enum VehicleInFormationStatus {
    /// `unknown`
    Unknown,
    /// `normal`
    Normal,
    /// `defective`
    Defective,
    /// `locked`
    Locked,
    /// `closed`
    Closed,
    /// A token this list does not define, kept as it was read.
    Unrecognised(String),
}

impl core::str::FromStr for VehicleInFormationStatus {
    type Err = core::convert::Infallible;

    /// Every token is a value, so this never fails; see `from_token`.
    fn from_str(token: &str) -> (result: Result<Self, Self::Err>)
        ensures
            result matches Ok(value) && value.spec_token() == token@ && match Self::spec_listed(
                token@,
            ) {
                Some(listed) => value == listed,
                None => value is Unrecognised,
            },
    {
        Ok(Self::from_token(token))
    }
}

impl VehicleInFormationStatus {
    /// Name of the XML Schema type this list transcribes.
    pub const XSD_TYPE: &'static str = "VehicleInFormationStatusEnumeration";

    /// Every value the schema defines, in schema order.
    pub open spec fn spec_all() -> Seq<VehicleInFormationStatus> {
        seq![VehicleInFormationStatus::Unknown, VehicleInFormationStatus::Normal, VehicleInFormationStatus::Defective, VehicleInFormationStatus::Locked, VehicleInFormationStatus::Closed]
    }

    /// Every value the schema defines, in schema order.
    pub fn all() -> (values: Vec<Self>)
        ensures
            values@ == Self::spec_all(),
    {
        vec![VehicleInFormationStatus::Unknown, VehicleInFormationStatus::Normal, VehicleInFormationStatus::Defective, VehicleInFormationStatus::Locked, VehicleInFormationStatus::Closed]
    }

    /// The token a value is written as on the wire.
    pub open spec fn spec_token(&self) -> Seq<char> {
        match self {
            VehicleInFormationStatus::Unknown => "unknown"@,
            VehicleInFormationStatus::Normal => "normal"@,
            VehicleInFormationStatus::Defective => "defective"@,
            VehicleInFormationStatus::Locked => "locked"@,
            VehicleInFormationStatus::Closed => "closed"@,
            VehicleInFormationStatus::Unrecognised(token) => token@,
        }
    }

    /// The value the schema defines for a token, if it defines one.
    pub open spec fn spec_listed(token: Seq<char>) -> Option<VehicleInFormationStatus> {
        if token == "unknown"@ {
            Some(VehicleInFormationStatus::Unknown)
        } else if token == "normal"@ {
            Some(VehicleInFormationStatus::Normal)
        } else if token == "defective"@ {
            Some(VehicleInFormationStatus::Defective)
        } else if token == "locked"@ {
            Some(VehicleInFormationStatus::Locked)
        } else if token == "closed"@ {
            Some(VehicleInFormationStatus::Closed)
        } else {
            None
        }
    }

    /// The value a wire token denotes: the listed variant when the schema defines
    /// the token, `Unrecognised` holding the token otherwise.
    pub fn from_token(token: &str) -> (result: Self)
        ensures
            result.spec_token() == token@,
            match Self::spec_listed(token@) {
                Some(listed) => result == listed,
                None => result is Unrecognised,
            },
    {
        let owned: String = token.to_owned();
        if owned == "unknown".to_owned() {
            VehicleInFormationStatus::Unknown
        } else if owned == "normal".to_owned() {
            VehicleInFormationStatus::Normal
        } else if owned == "defective".to_owned() {
            VehicleInFormationStatus::Defective
        } else if owned == "locked".to_owned() {
            VehicleInFormationStatus::Locked
        } else if owned == "closed".to_owned() {
            VehicleInFormationStatus::Closed
        } else {
            VehicleInFormationStatus::Unrecognised(owned)
        }
    }

    /// The token this value is written as on the wire.
    pub fn as_str(&self) -> (token: &str)
        ensures
            token@ == self.spec_token(),
    {
        match self {
            VehicleInFormationStatus::Unknown => "unknown",
            VehicleInFormationStatus::Normal => "normal",
            VehicleInFormationStatus::Defective => "defective",
            VehicleInFormationStatus::Locked => "locked",
            VehicleInFormationStatus::Closed => "closed",
            VehicleInFormationStatus::Unrecognised(token) => token.as_str(),
        }
    }
}

/// The `VehicleModesOfTransportEnumeration` code list.
#[derive(Debug, Clone, PartialEq, Eq, PartialOrd, Ord, Hash)]
pub enum VehicleModesOfTransport {
    /// `unknown`
    Unknown,
    /// `air`
    Air,
    /// `bus`
    Bus,
    /// `trolleyBus`
    TrolleyBus,
    /// `tram`
    Tram,
    /// `coach`
    Coach,
    /// `rail`
    Rail,
    /// `intercityRail`
    IntercityRail,
    /// `urbanRail`
    UrbanRail,
    /// `metro`
    Metro,
    /// `water`
    Water,
    /// `cableway`
    Cableway,
    /// `funicular`
    Funicular,
    /// `taxi`
    Taxi,
    /// `selfDrive`
    SelfDrive,
    /// `all`
    All,
    /// `other`
    Other,
    /// A token this list does not define, kept as it was read.
    Unrecognised(String),
}

impl core::str::FromStr for VehicleModesOfTransport {
    type Err = core::convert::Infallible;

    /// Every token is a value, so this never fails; see `from_token`.
    fn from_str(token: &str) -> (result: Result<Self, Self::Err>)
        ensures
            result matches Ok(value) && value.spec_token() == token@ && match Self::spec_listed(
                token@,
            ) {
                Some(listed) => value == listed,
                None => value is Unrecognised,
            },
    {
        Ok(Self::from_token(token))
    }
}

impl VehicleModesOfTransport {
    /// Name of the XML Schema type this list transcribes.
    pub const XSD_TYPE: &'static str = "VehicleModesOfTransportEnumeration";

    /// Every value the schema defines, in schema order.
    pub open spec fn spec_all() -> Seq<VehicleModesOfTransport> {
        seq![VehicleModesOfTransport::Unknown, VehicleModesOfTransport::Air, VehicleModesOfTransport::Bus, VehicleModesOfTransport::TrolleyBus, VehicleModesOfTransport::Tram, VehicleModesOfTransport::Coach, VehicleModesOfTransport::Rail, VehicleModesOfTransport::IntercityRail, VehicleModesOfTransport::UrbanRail, VehicleModesOfTransport::Metro, VehicleModesOfTransport::Water, VehicleModesOfTransport::Cableway, VehicleModesOfTransport::Funicular, VehicleModesOfTransport::Taxi, VehicleModesOfTransport::SelfDrive, VehicleModesOfTransport::All, VehicleModesOfTransport::Other]
    }

    /// Every value the schema defines, in schema order.
    pub fn all() -> (values: Vec<Self>)
        ensures
            values@ == Self::spec_all(),
    {
        vec![VehicleModesOfTransport::Unknown, VehicleModesOfTransport::Air, VehicleModesOfTransport::Bus, VehicleModesOfTransport::TrolleyBus, VehicleModesOfTransport::Tram, VehicleModesOfTransport::Coach, VehicleModesOfTransport::Rail, VehicleModesOfTransport::IntercityRail, VehicleModesOfTransport::UrbanRail, VehicleModesOfTransport::Metro, VehicleModesOfTransport::Water, VehicleModesOfTransport::Cableway, VehicleModesOfTransport::Funicular, VehicleModesOfTransport::Taxi, VehicleModesOfTransport::SelfDrive, VehicleModesOfTransport::All, VehicleModesOfTransport::Other]
    }

    /// The token a value is written as on the wire.
    pub open spec fn spec_token(&self) -> Seq<char> {
        match self {
            VehicleModesOfTransport::Unknown => "unknown"@,
            VehicleModesOfTransport::Air => "air"@,
            VehicleModesOfTransport::Bus => "bus"@,
            VehicleModesOfTransport::TrolleyBus => "trolleyBus"@,
            VehicleModesOfTransport::Tram => "tram"@,
            VehicleModesOfTransport::Coach => "coach"@,
            VehicleModesOfTransport::Rail => "rail"@,
            VehicleModesOfTransport::IntercityRail => "intercityRail"@,
            VehicleModesOfTransport::UrbanRail => "urbanRail"@,
            VehicleModesOfTransport::Metro => "metro"@,
            VehicleModesOfTransport::Water => "water"@,
            VehicleModesOfTransport::Cableway => "cableway"@,
            VehicleModesOfTransport::Funicular => "funicular"@,
            VehicleModesOfTransport::Taxi => "taxi"@,
            VehicleModesOfTransport::SelfDrive => "selfDrive"@,
            VehicleModesOfTransport::All => "all"@,
            VehicleModesOfTransport::Other => "other"@,
            VehicleModesOfTransport::Unrecognised(token) => token@,
        }
    }

    /// The value the schema defines for a token, if it defines one.
    pub open spec fn spec_listed(token: Seq<char>) -> Option<VehicleModesOfTransport> {
        if token == "unknown"@ {
            Some(VehicleModesOfTransport::Unknown)
        } else if token == "air"@ {
            Some(VehicleModesOfTransport::Air)
        } else if token == "bus"@ {
            Some(VehicleModesOfTransport::Bus)
        } else if token == "trolleyBus"@ {
            Some(VehicleModesOfTransport::TrolleyBus)
        } else if token == "tram"@ {
            Some(VehicleModesOfTransport::Tram)
        } else if token == "coach"@ {
            Some(VehicleModesOfTransport::Coach)
        } else if token == "rail"@ {
            Some(VehicleModesOfTransport::Rail)
        } else if token == "intercityRail"@ {
            Some(VehicleModesOfTransport::IntercityRail)
        } else if token == "urbanRail"@ {
            Some(VehicleModesOfTransport::UrbanRail)
        } else if token == "metro"@ {
            Some(VehicleModesOfTransport::Metro)
        } else if token == "water"@ {
            Some(VehicleModesOfTransport::Water)
        } else if token == "cableway"@ {
            Some(VehicleModesOfTransport::Cableway)
        } else if token == "funicular"@ {
            Some(VehicleModesOfTransport::Funicular)
        } else if token == "taxi"@ {
            Some(VehicleModesOfTransport::Taxi)
        } else if token == "selfDrive"@ {
            Some(VehicleModesOfTransport::SelfDrive)
        } else if token == "all"@ {
            Some(VehicleModesOfTransport::All)
        } else if token == "other"@ {
            Some(VehicleModesOfTransport::Other)
        } else {
            None
        }
    }

    /// The value a wire token denotes: the listed variant when the schema defines
    /// the token, `Unrecognised` holding the token otherwise.
    pub fn from_token(token: &str) -> (result: Self)
        ensures
            result.spec_token() == token@,
            match Self::spec_listed(token@) {
                Some(listed) => result == listed,
                None => result is Unrecognised,
            },
    {
        let owned: String = token.to_owned();
        if owned == "unknown".to_owned() {
            VehicleModesOfTransport::Unknown
        } else if owned == "air".to_owned() {
            VehicleModesOfTransport::Air
        } else if owned == "bus".to_owned() {
            VehicleModesOfTransport::Bus
        } else if owned == "trolleyBus".to_owned() {
            VehicleModesOfTransport::TrolleyBus
        } else if owned == "tram".to_owned() {
            VehicleModesOfTransport::Tram
        } else if owned == "coach".to_owned() {
            VehicleModesOfTransport::Coach
        } else if owned == "rail".to_owned() {
            VehicleModesOfTransport::Rail
        } else if owned == "intercityRail".to_owned() {
            VehicleModesOfTransport::IntercityRail
        } else if owned == "urbanRail".to_owned() {
            VehicleModesOfTransport::UrbanRail
        } else if owned == "metro".to_owned() {
            VehicleModesOfTransport::Metro
        } else if owned == "water".to_owned() {
            VehicleModesOfTransport::Water
        } else if owned == "cableway".to_owned() {
            VehicleModesOfTransport::Cableway
        } else if owned == "funicular".to_owned() {
            VehicleModesOfTransport::Funicular
        } else if owned == "taxi".to_owned() {
            VehicleModesOfTransport::Taxi
        } else if owned == "selfDrive".to_owned() {
            VehicleModesOfTransport::SelfDrive
        } else if owned == "all".to_owned() {
            VehicleModesOfTransport::All
        } else if owned == "other".to_owned() {
            VehicleModesOfTransport::Other
        } else {
            VehicleModesOfTransport::Unrecognised(owned)
        }
    }

    /// The token this value is written as on the wire.
    pub fn as_str(&self) -> (token: &str)
        ensures
            token@ == self.spec_token(),
    {
        match self {
            VehicleModesOfTransport::Unknown => "unknown",
            VehicleModesOfTransport::Air => "air",
            VehicleModesOfTransport::Bus => "bus",
            VehicleModesOfTransport::TrolleyBus => "trolleyBus",
            VehicleModesOfTransport::Tram => "tram",
            VehicleModesOfTransport::Coach => "coach",
            VehicleModesOfTransport::Rail => "rail",
            VehicleModesOfTransport::IntercityRail => "intercityRail",
            VehicleModesOfTransport::UrbanRail => "urbanRail",
            VehicleModesOfTransport::Metro => "metro",
            VehicleModesOfTransport::Water => "water",
            VehicleModesOfTransport::Cableway => "cableway",
            VehicleModesOfTransport::Funicular => "funicular",
            VehicleModesOfTransport::Taxi => "taxi",
            VehicleModesOfTransport::SelfDrive => "selfDrive",
            VehicleModesOfTransport::All => "all",
            VehicleModesOfTransport::Other => "other",
            VehicleModesOfTransport::Unrecognised(token) => token.as_str(),
        }
    }
}

/// The `VehicleStatusEnumeration` code list.
#[derive(Debug, Clone, PartialEq, Eq, PartialOrd, Ord, Hash)]
pub enum VehicleStatus {
    /// `expected`
    Expected,
    /// `notExpected`
    NotExpected,
    /// `cancelled`
    Cancelled,
    /// `assigned`
    Assigned,
    /// `signedOn`
    SignedOn,
    /// `atOrigin`
    AtOrigin,
    /// `inProgress`
    InProgress,
    /// `aborted`
    Aborted,
    /// `offRoute`
    OffRoute,
    /// `completed`
    Completed,
    /// `assumedCompleted`
    AssumedCompleted,
    /// `notRun`
    NotRun,
    /// A token this list does not define, kept as it was read.
    Unrecognised(String),
}

impl core::str::FromStr for VehicleStatus {
    type Err = core::convert::Infallible;

    /// Every token is a value, so this never fails; see `from_token`.
    fn from_str(token: &str) -> (result: Result<Self, Self::Err>)
        ensures
            result matches Ok(value) && value.spec_token() == token@ && match Self::spec_listed(
                token@,
            ) {
                Some(listed) => value == listed,
                None => value is Unrecognised,
            },
    {
        Ok(Self::from_token(token))
    }
}

impl VehicleStatus {
    /// Name of the XML Schema type this list transcribes.
    pub const XSD_TYPE: &'static str = "VehicleStatusEnumeration";

    /// Every value the schema defines, in schema order.
    pub open spec fn spec_all() -> Seq<VehicleStatus> {
        seq![VehicleStatus::Expected, VehicleStatus::NotExpected, VehicleStatus::Cancelled, VehicleStatus::Assigned, VehicleStatus::SignedOn, VehicleStatus::AtOrigin, VehicleStatus::InProgress, VehicleStatus::Aborted, VehicleStatus::OffRoute, VehicleStatus::Completed, VehicleStatus::AssumedCompleted, VehicleStatus::NotRun]
    }

    /// Every value the schema defines, in schema order.
    pub fn all() -> (values: Vec<Self>)
        ensures
            values@ == Self::spec_all(),
    {
        vec![VehicleStatus::Expected, VehicleStatus::NotExpected, VehicleStatus::Cancelled, VehicleStatus::Assigned, VehicleStatus::SignedOn, VehicleStatus::AtOrigin, VehicleStatus::InProgress, VehicleStatus::Aborted, VehicleStatus::OffRoute, VehicleStatus::Completed, VehicleStatus::AssumedCompleted, VehicleStatus::NotRun]
    }

    /// The token a value is written as on the wire.
    pub open spec fn spec_token(&self) -> Seq<char> {
        match self {
            VehicleStatus::Expected => "expected"@,
            VehicleStatus::NotExpected => "notExpected"@,
            VehicleStatus::Cancelled => "cancelled"@,
            VehicleStatus::Assigned => "assigned"@,
            VehicleStatus::SignedOn => "signedOn"@,
            VehicleStatus::AtOrigin => "atOrigin"@,
            VehicleStatus::InProgress => "inProgress"@,
            VehicleStatus::Aborted => "aborted"@,
            VehicleStatus::OffRoute => "offRoute"@,
            VehicleStatus::Completed => "completed"@,
            VehicleStatus::AssumedCompleted => "assumedCompleted"@,
            VehicleStatus::NotRun => "notRun"@,
            VehicleStatus::Unrecognised(token) => token@,
        }
    }

    /// The value the schema defines for a token, if it defines one.
    pub open spec fn spec_listed(token: Seq<char>) -> Option<VehicleStatus> {
        if token == "expected"@ {
            Some(VehicleStatus::Expected)
        } else if token == "notExpected"@ {
            Some(VehicleStatus::NotExpected)
        } else if token == "cancelled"@ {
            Some(VehicleStatus::Cancelled)
        } else if token == "assigned"@ {
            Some(VehicleStatus::Assigned)
        } else if token == "signedOn"@ {
            Some(VehicleStatus::SignedOn)
        } else if token == "atOrigin"@ {
            Some(VehicleStatus::AtOrigin)
        } else if token == "inProgress"@ {
            Some(VehicleStatus::InProgress)
        } else if token == "aborted"@ {
            Some(VehicleStatus::Aborted)
        } else if token == "offRoute"@ {
            Some(VehicleStatus::OffRoute)
        } else if token == "completed"@ {
            Some(VehicleStatus::Completed)
        } else if token == "assumedCompleted"@ {
            Some(VehicleStatus::AssumedCompleted)
        } else if token == "notRun"@ {
            Some(VehicleStatus::NotRun)
        } else {
            None
        }
    }

    /// The value a wire token denotes: the listed variant when the schema defines
    /// the token, `Unrecognised` holding the token otherwise.
    pub fn from_token(token: &str) -> (result: Self)
        ensures
            result.spec_token() == token@,
            match Self::spec_listed(token@) {
                Some(listed) => result == listed,
                None => result is Unrecognised,
            },
    {
        let owned: String = token.to_owned();
        if owned == "expected".to_owned() {
            VehicleStatus::Expected
        } else if owned == "notExpected".to_owned() {
            VehicleStatus::NotExpected
        } else if owned == "cancelled".to_owned() {
            VehicleStatus::Cancelled
        } else if owned == "assigned".to_owned() {
            VehicleStatus::Assigned
        } else if owned == "signedOn".to_owned() {
            VehicleStatus::SignedOn
        } else if owned == "atOrigin".to_owned() {
            VehicleStatus::AtOrigin
        } else if owned == "inProgress".to_owned() {
            VehicleStatus::InProgress
        } else if owned == "aborted".to_owned() {
            VehicleStatus::Aborted
        } else if owned == "offRoute".to_owned() {
            VehicleStatus::OffRoute
        } else if owned == "completed".to_owned() {
            VehicleStatus::Completed
        } else if owned == "assumedCompleted".to_owned() {
            VehicleStatus::AssumedCompleted
        } else if owned == "notRun".to_owned() {
            VehicleStatus::NotRun
        } else {
            VehicleStatus::Unrecognised(owned)
        }
    }

    /// The token this value is written as on the wire.
    pub fn as_str(&self) -> (token: &str)
        ensures
            token@ == self.spec_token(),
    {
        match self {
            VehicleStatus::Expected => "expected",
            VehicleStatus::NotExpected => "notExpected",
            VehicleStatus::Cancelled => "cancelled",
            VehicleStatus::Assigned => "assigned",
            VehicleStatus::SignedOn => "signedOn",
            VehicleStatus::AtOrigin => "atOrigin",
            VehicleStatus::InProgress => "inProgress",
            VehicleStatus::Aborted => "aborted",
            VehicleStatus::OffRoute => "offRoute",
            VehicleStatus::Completed => "completed",
            VehicleStatus::AssumedCompleted => "assumedCompleted",
            VehicleStatus::NotRun => "notRun",
            VehicleStatus::Unrecognised(token) => token.as_str(),
        }
    }
}

/// The `WaterSubmodesOfTransportEnumeration` code list.
#[derive(Debug, Clone, PartialEq, Eq, PartialOrd, Ord, Hash)]
pub enum WaterSubmodesOfTransport {
    /// `unknown`
    Unknown,
    /// `undefined`
    Undefined,
    /// `internationalCarFerry`
    InternationalCarFerry,
    /// `nationalCarFerry`
    NationalCarFerry,
    /// `regionalCarFerry`
    RegionalCarFerry,
    /// `localCarFerry`
    LocalCarFerry,
    /// `internationalPassengerFerry`
    InternationalPassengerFerry,
    /// `nationalPassengerFerry`
    NationalPassengerFerry,
    /// `regionalPassengerFerry`
    RegionalPassengerFerry,
    /// `localPassengerFerry`
    LocalPassengerFerry,
    /// `postBoat`
    PostBoat,
    /// `trainFerry`
    TrainFerry,
    /// `roadFerryLink`
    RoadFerryLink,
    /// `airportBoatLink`
    AirportBoatLink,
    /// `highSpeedVehicleService`
    HighSpeedVehicleService,
    /// `highSpeedPassengerService`
    HighSpeedPassengerService,
    /// `sightseeingService`
    SightseeingService,
    /// `schoolBoat`
    SchoolBoat,
    /// `cableFerry`
    CableFerry,
    /// `riverBus`
    RiverBus,
    /// `scheduledFerry`
    ScheduledFerry,
    /// `shuttleFerryService`
    ShuttleFerryService,
    /// A token this list does not define, kept as it was read.
    Unrecognised(String),
}

impl core::str::FromStr for WaterSubmodesOfTransport {
    type Err = core::convert::Infallible;

    /// Every token is a value, so this never fails; see `from_token`.
    fn from_str(token: &str) -> (result: Result<Self, Self::Err>)
        ensures
            result matches Ok(value) && value.spec_token() == token@ && match Self::spec_listed(
                token@,
            ) {
                Some(listed) => value == listed,
                None => value is Unrecognised,
            },
    {
        Ok(Self::from_token(token))
    }
}

impl WaterSubmodesOfTransport {
    /// Name of the XML Schema type this list transcribes.
    pub const XSD_TYPE: &'static str = "WaterSubmodesOfTransportEnumeration";

    /// Every value the schema defines, in schema order.
    pub open spec fn spec_all() -> Seq<WaterSubmodesOfTransport> {
        seq![WaterSubmodesOfTransport::Unknown, WaterSubmodesOfTransport::Undefined, WaterSubmodesOfTransport::InternationalCarFerry, WaterSubmodesOfTransport::NationalCarFerry, WaterSubmodesOfTransport::RegionalCarFerry, WaterSubmodesOfTransport::LocalCarFerry, WaterSubmodesOfTransport::InternationalPassengerFerry, WaterSubmodesOfTransport::NationalPassengerFerry, WaterSubmodesOfTransport::RegionalPassengerFerry, WaterSubmodesOfTransport::LocalPassengerFerry, WaterSubmodesOfTransport::PostBoat, WaterSubmodesOfTransport::TrainFerry, WaterSubmodesOfTransport::RoadFerryLink, WaterSubmodesOfTransport::AirportBoatLink, WaterSubmodesOfTransport::HighSpeedVehicleService, WaterSubmodesOfTransport::HighSpeedPassengerService, WaterSubmodesOfTransport::SightseeingService, WaterSubmodesOfTransport::SchoolBoat, WaterSubmodesOfTransport::CableFerry, WaterSubmodesOfTransport::RiverBus, WaterSubmodesOfTransport::ScheduledFerry, WaterSubmodesOfTransport::ShuttleFerryService]
    }

    /// Every value the schema defines, in schema order.
    pub fn all() -> (values: Vec<Self>)
        ensures
            values@ == Self::spec_all(),
    {
        vec![WaterSubmodesOfTransport::Unknown, WaterSubmodesOfTransport::Undefined, WaterSubmodesOfTransport::InternationalCarFerry, WaterSubmodesOfTransport::NationalCarFerry, WaterSubmodesOfTransport::RegionalCarFerry, WaterSubmodesOfTransport::LocalCarFerry, WaterSubmodesOfTransport::InternationalPassengerFerry, WaterSubmodesOfTransport::NationalPassengerFerry, WaterSubmodesOfTransport::RegionalPassengerFerry, WaterSubmodesOfTransport::LocalPassengerFerry, WaterSubmodesOfTransport::PostBoat, WaterSubmodesOfTransport::TrainFerry, WaterSubmodesOfTransport::RoadFerryLink, WaterSubmodesOfTransport::AirportBoatLink, WaterSubmodesOfTransport::HighSpeedVehicleService, WaterSubmodesOfTransport::HighSpeedPassengerService, WaterSubmodesOfTransport::SightseeingService, WaterSubmodesOfTransport::SchoolBoat, WaterSubmodesOfTransport::CableFerry, WaterSubmodesOfTransport::RiverBus, WaterSubmodesOfTransport::ScheduledFerry, WaterSubmodesOfTransport::ShuttleFerryService]
    }

    /// The token a value is written as on the wire.
    pub open spec fn spec_token(&self) -> Seq<char> {
        match self {
            WaterSubmodesOfTransport::Unknown => "unknown"@,
            WaterSubmodesOfTransport::Undefined => "undefined"@,
            WaterSubmodesOfTransport::InternationalCarFerry => "internationalCarFerry"@,
            WaterSubmodesOfTransport::NationalCarFerry => "nationalCarFerry"@,
            WaterSubmodesOfTransport::RegionalCarFerry => "regionalCarFerry"@,
            WaterSubmodesOfTransport::LocalCarFerry => "localCarFerry"@,
            WaterSubmodesOfTransport::InternationalPassengerFerry => "internationalPassengerFerry"@,
            WaterSubmodesOfTransport::NationalPassengerFerry => "nationalPassengerFerry"@,
            WaterSubmodesOfTransport::RegionalPassengerFerry => "regionalPassengerFerry"@,
            WaterSubmodesOfTransport::LocalPassengerFerry => "localPassengerFerry"@,
            WaterSubmodesOfTransport::PostBoat => "postBoat"@,
            WaterSubmodesOfTransport::TrainFerry => "trainFerry"@,
            WaterSubmodesOfTransport::RoadFerryLink => "roadFerryLink"@,
            WaterSubmodesOfTransport::AirportBoatLink => "airportBoatLink"@,
            WaterSubmodesOfTransport::HighSpeedVehicleService => "highSpeedVehicleService"@,
            WaterSubmodesOfTransport::HighSpeedPassengerService => "highSpeedPassengerService"@,
            WaterSubmodesOfTransport::SightseeingService => "sightseeingService"@,
            WaterSubmodesOfTransport::SchoolBoat => "schoolBoat"@,
            WaterSubmodesOfTransport::CableFerry => "cableFerry"@,
            WaterSubmodesOfTransport::RiverBus => "riverBus"@,
            WaterSubmodesOfTransport::ScheduledFerry => "scheduledFerry"@,
            WaterSubmodesOfTransport::ShuttleFerryService => "shuttleFerryService"@,
            WaterSubmodesOfTransport::Unrecognised(token) => token@,
        }
    }

    /// The value the schema defines for a token, if it defines one.
    pub open spec fn spec_listed(token: Seq<char>) -> Option<WaterSubmodesOfTransport> {
        if token == "unknown"@ {
            Some(WaterSubmodesOfTransport::Unknown)
        } else if token == "undefined"@ {
            Some(WaterSubmodesOfTransport::Undefined)
        } else if token == "internationalCarFerry"@ {
            Some(WaterSubmodesOfTransport::InternationalCarFerry)
        } else if token == "nationalCarFerry"@ {
            Some(WaterSubmodesOfTransport::NationalCarFerry)
        } else if token == "regionalCarFerry"@ {
            Some(WaterSubmodesOfTransport::RegionalCarFerry)
        } else if token == "localCarFerry"@ {
            Some(WaterSubmodesOfTransport::LocalCarFerry)
        } else if token == "internationalPassengerFerry"@ {
            Some(WaterSubmodesOfTransport::InternationalPassengerFerry)
        } else if token == "nationalPassengerFerry"@ {
            Some(WaterSubmodesOfTransport::NationalPassengerFerry)
        } else if token == "regionalPassengerFerry"@ {
            Some(WaterSubmodesOfTransport::RegionalPassengerFerry)
        } else if token == "localPassengerFerry"@ {
            Some(WaterSubmodesOfTransport::LocalPassengerFerry)
        } else if token == "postBoat"@ {
            Some(WaterSubmodesOfTransport::PostBoat)
        } else if token == "trainFerry"@ {
            Some(WaterSubmodesOfTransport::TrainFerry)
        } else if token == "roadFerryLink"@ {
            Some(WaterSubmodesOfTransport::RoadFerryLink)
        } else if token == "airportBoatLink"@ {
            Some(WaterSubmodesOfTransport::AirportBoatLink)
        } else if token == "highSpeedVehicleService"@ {
            Some(WaterSubmodesOfTransport::HighSpeedVehicleService)
        } else if token == "highSpeedPassengerService"@ {
            Some(WaterSubmodesOfTransport::HighSpeedPassengerService)
        } else if token == "sightseeingService"@ {
            Some(WaterSubmodesOfTransport::SightseeingService)
        } else if token == "schoolBoat"@ {
            Some(WaterSubmodesOfTransport::SchoolBoat)
        } else if token == "cableFerry"@ {
            Some(WaterSubmodesOfTransport::CableFerry)
        } else if token == "riverBus"@ {
            Some(WaterSubmodesOfTransport::RiverBus)
        } else if token == "scheduledFerry"@ {
            Some(WaterSubmodesOfTransport::ScheduledFerry)
        } else if token == "shuttleFerryService"@ {
            Some(WaterSubmodesOfTransport::ShuttleFerryService)
        } else {
            None
        }
    }

    /// The value a wire token denotes: the listed variant when the schema defines
    /// the token, `Unrecognised` holding the token otherwise.
    pub fn from_token(token: &str) -> (result: Self)
        ensures
            result.spec_token() == token@,
            match Self::spec_listed(token@) {
                Some(listed) => result == listed,
                None => result is Unrecognised,
            },
    {
        let owned: String = token.to_owned();
        if owned == "unknown".to_owned() {
            WaterSubmodesOfTransport::Unknown
        } else if owned == "undefined".to_owned() {
            WaterSubmodesOfTransport::Undefined
        } else if owned == "internationalCarFerry".to_owned() {
            WaterSubmodesOfTransport::InternationalCarFerry
        } else if owned == "nationalCarFerry".to_owned() {
            WaterSubmodesOfTransport::NationalCarFerry
        } else if owned == "regionalCarFerry".to_owned() {
            WaterSubmodesOfTransport::RegionalCarFerry
        } else if owned == "localCarFerry".to_owned() {
            WaterSubmodesOfTransport::LocalCarFerry
        } else if owned == "internationalPassengerFerry".to_owned() {
            WaterSubmodesOfTransport::InternationalPassengerFerry
        } else if owned == "nationalPassengerFerry".to_owned() {
            WaterSubmodesOfTransport::NationalPassengerFerry
        } else if owned == "regionalPassengerFerry".to_owned() {
            WaterSubmodesOfTransport::RegionalPassengerFerry
        } else if owned == "localPassengerFerry".to_owned() {
            WaterSubmodesOfTransport::LocalPassengerFerry
        } else if owned == "postBoat".to_owned() {
            WaterSubmodesOfTransport::PostBoat
        } else if owned == "trainFerry".to_owned() {
            WaterSubmodesOfTransport::TrainFerry
        } else if owned == "roadFerryLink".to_owned() {
            WaterSubmodesOfTransport::RoadFerryLink
        } else if owned == "airportBoatLink".to_owned() {
            WaterSubmodesOfTransport::AirportBoatLink
        } else if owned == "highSpeedVehicleService".to_owned() {
            WaterSubmodesOfTransport::HighSpeedVehicleService
        } else if owned == "highSpeedPassengerService".to_owned() {
            WaterSubmodesOfTransport::HighSpeedPassengerService
        } else if owned == "sightseeingService".to_owned() {
            WaterSubmodesOfTransport::SightseeingService
        } else if owned == "schoolBoat".to_owned() {
            WaterSubmodesOfTransport::SchoolBoat
        } else if owned == "cableFerry".to_owned() {
            WaterSubmodesOfTransport::CableFerry
        } else if owned == "riverBus".to_owned() {
            WaterSubmodesOfTransport::RiverBus
        } else if owned == "scheduledFerry".to_owned() {
            WaterSubmodesOfTransport::ScheduledFerry
        } else if owned == "shuttleFerryService".to_owned() {
            WaterSubmodesOfTransport::ShuttleFerryService
        } else {
            WaterSubmodesOfTransport::Unrecognised(owned)
        }
    }

    /// The token this value is written as on the wire.
    pub fn as_str(&self) -> (token: &str)
        ensures
            token@ == self.spec_token(),
    {
        match self {
            WaterSubmodesOfTransport::Unknown => "unknown",
            WaterSubmodesOfTransport::Undefined => "undefined",
            WaterSubmodesOfTransport::InternationalCarFerry => "internationalCarFerry",
            WaterSubmodesOfTransport::NationalCarFerry => "nationalCarFerry",
            WaterSubmodesOfTransport::RegionalCarFerry => "regionalCarFerry",
            WaterSubmodesOfTransport::LocalCarFerry => "localCarFerry",
            WaterSubmodesOfTransport::InternationalPassengerFerry => "internationalPassengerFerry",
            WaterSubmodesOfTransport::NationalPassengerFerry => "nationalPassengerFerry",
            WaterSubmodesOfTransport::RegionalPassengerFerry => "regionalPassengerFerry",
            WaterSubmodesOfTransport::LocalPassengerFerry => "localPassengerFerry",
            WaterSubmodesOfTransport::PostBoat => "postBoat",
            WaterSubmodesOfTransport::TrainFerry => "trainFerry",
            WaterSubmodesOfTransport::RoadFerryLink => "roadFerryLink",
            WaterSubmodesOfTransport::AirportBoatLink => "airportBoatLink",
            WaterSubmodesOfTransport::HighSpeedVehicleService => "highSpeedVehicleService",
            WaterSubmodesOfTransport::HighSpeedPassengerService => "highSpeedPassengerService",
            WaterSubmodesOfTransport::SightseeingService => "sightseeingService",
            WaterSubmodesOfTransport::SchoolBoat => "schoolBoat",
            WaterSubmodesOfTransport::CableFerry => "cableFerry",
            WaterSubmodesOfTransport::RiverBus => "riverBus",
            WaterSubmodesOfTransport::ScheduledFerry => "scheduledFerry",
            WaterSubmodesOfTransport::ShuttleFerryService => "shuttleFerryService",
            WaterSubmodesOfTransport::Unrecognised(token) => token.as_str(),
        }
    }
}

/// A token the `AccessFacility` list defines reads back as the value that writes it:
/// `from_token(v.as_str()) == v` for every value `v` other than `Unrecognised`.
pub proof fn law_access_facility_tokens_round_trip(value: AccessFacility)
    requires
        !(value is Unrecognised),
    ensures
        AccessFacility::spec_listed(value.spec_token()) == Some(value),
{
    match value {
        AccessFacility::Unknown => {
            reveal_strlit("unknown");
        },
        AccessFacility::Lift => {
            reveal_strlit("lift");
            reveal_strlit("unknown");
            assert("lift"@.len() != "unknown"@.len());
        },
        AccessFacility::WheelchairLift => {
            reveal_strlit("wheelchairLift");
            reveal_strlit("unknown");
            assert("wheelchairLift"@.len() != "unknown"@.len());
            reveal_strlit("lift");
            assert("wheelchairLift"@.len() != "lift"@.len());
        },
        AccessFacility::Escalator => {
            reveal_strlit("escalator");
            reveal_strlit("unknown");
            assert("escalator"@.len() != "unknown"@.len());
            reveal_strlit("lift");
            assert("escalator"@.len() != "lift"@.len());
            reveal_strlit("wheelchairLift");
            assert("escalator"@.len() != "wheelchairLift"@.len());
        },
        AccessFacility::Travelator => {
            reveal_strlit("travelator");
            reveal_strlit("unknown");
            assert("travelator"@.len() != "unknown"@.len());
            reveal_strlit("lift");
            assert("travelator"@.len() != "lift"@.len());
            reveal_strlit("wheelchairLift");
            assert("travelator"@.len() != "wheelchairLift"@.len());
            reveal_strlit("escalator");
            assert("travelator"@.len() != "escalator"@.len());
        },
        AccessFacility::Ramp => {
            reveal_strlit("ramp");
            reveal_strlit("unknown");
            assert("ramp"@.len() != "unknown"@.len());
            reveal_strlit("lift");
            assert("ramp"@[0] != "lift"@[0]);
            reveal_strlit("wheelchairLift");
            assert("ramp"@.len() != "wheelchairLift"@.len());
            reveal_strlit("escalator");
            assert("ramp"@.len() != "escalator"@.len());
            reveal_strlit("travelator");
            assert("ramp"@.len() != "travelator"@.len());
        },
        AccessFacility::Stairs => {
            reveal_strlit("stairs");
            reveal_strlit("unknown");
            assert("stairs"@.len() != "unknown"@.len());
            reveal_strlit("lift");
            assert("stairs"@.len() != "lift"@.len());
            reveal_strlit("wheelchairLift");
            assert("stairs"@.len() != "wheelchairLift"@.len());
            reveal_strlit("escalator");
            assert("stairs"@.len() != "escalator"@.len());
            reveal_strlit("travelator");
            assert("stairs"@.len() != "travelator"@.len());
            reveal_strlit("ramp");
            assert("stairs"@.len() != "ramp"@.len());
        },
        AccessFacility::Shuttle => {
            reveal_strlit("shuttle");
            reveal_strlit("unknown");
            assert("shuttle"@[0] != "unknown"@[0]);
            reveal_strlit("lift");
            assert("shuttle"@.len() != "lift"@.len());
            reveal_strlit("wheelchairLift");
            assert("shuttle"@.len() != "wheelchairLift"@.len());
            reveal_strlit("escalator");
            assert("shuttle"@.len() != "escalator"@.len());
            reveal_strlit("travelator");
            assert("shuttle"@.len() != "travelator"@.len());
            reveal_strlit("ramp");
            assert("shuttle"@.len() != "ramp"@.len());
            reveal_strlit("stairs");
            assert("shuttle"@.len() != "stairs"@.len());
        },
        AccessFacility::NarrowEntrance => {
            reveal_strlit("narrowEntrance");
            reveal_strlit("unknown");
            assert("narrowEntrance"@.len() != "unknown"@.len());
            reveal_strlit("lift");
            assert("narrowEntrance"@.len() != "lift"@.len());
            reveal_strlit("wheelchairLift");
            assert("narrowEntrance"@[0] != "wheelchairLift"@[0]);
            reveal_strlit("escalator");
            assert("narrowEntrance"@.len() != "escalator"@.len());
            reveal_strlit("travelator");
            assert("narrowEntrance"@.len() != "travelator"@.len());
            reveal_strlit("ramp");
            assert("narrowEntrance"@.len() != "ramp"@.len());
            reveal_strlit("stairs");
            assert("narrowEntrance"@.len() != "stairs"@.len());
            reveal_strlit("shuttle");
            assert("narrowEntrance"@.len() != "shuttle"@.len());
        },
        AccessFacility::Barrier => {
            reveal_strlit("barrier");
            reveal_strlit("unknown");
            assert("barrier"@[0] != "unknown"@[0]);
            reveal_strlit("lift");
            assert("barrier"@.len() != "lift"@.len());
            reveal_strlit("wheelchairLift");
            assert("barrier"@.len() != "wheelchairLift"@.len());
            reveal_strlit("escalator");
            assert("barrier"@.len() != "escalator"@.len());
            reveal_strlit("travelator");
            assert("barrier"@.len() != "travelator"@.len());
            reveal_strlit("ramp");
            assert("barrier"@.len() != "ramp"@.len());
            reveal_strlit("stairs");
            assert("barrier"@.len() != "stairs"@.len());
            reveal_strlit("shuttle");
            assert("barrier"@[0] != "shuttle"@[0]);
            reveal_strlit("narrowEntrance");
            assert("barrier"@.len() != "narrowEntrance"@.len());
        },
        AccessFacility::PalletAccessLowFloor => {
            reveal_strlit("palletAccess_lowFloor");
            reveal_strlit("unknown");
            assert("palletAccess_lowFloor"@.len() != "unknown"@.len());
            reveal_strlit("lift");
            assert("palletAccess_lowFloor"@.len() != "lift"@.len());
            reveal_strlit("wheelchairLift");
            assert("palletAccess_lowFloor"@.len() != "wheelchairLift"@.len());
            reveal_strlit("escalator");
            assert("palletAccess_lowFloor"@.len() != "escalator"@.len());
            reveal_strlit("travelator");
            assert("palletAccess_lowFloor"@.len() != "travelator"@.len());
            reveal_strlit("ramp");
            assert("palletAccess_lowFloor"@.len() != "ramp"@.len());
            reveal_strlit("stairs");
            assert("palletAccess_lowFloor"@.len() != "stairs"@.len());
            reveal_strlit("shuttle");
            assert("palletAccess_lowFloor"@.len() != "shuttle"@.len());
            reveal_strlit("narrowEntrance");
            assert("palletAccess_lowFloor"@.len() != "narrowEntrance"@.len());
            reveal_strlit("barrier");
            assert("palletAccess_lowFloor"@.len() != "barrier"@.len());
        },
        AccessFacility::Validator => {
            reveal_strlit("validator");
            reveal_strlit("unknown");
            assert("validator"@.len() != "unknown"@.len());
            reveal_strlit("lift");
            assert("validator"@.len() != "lift"@.len());
            reveal_strlit("wheelchairLift");
            assert("validator"@.len() != "wheelchairLift"@.len());
            reveal_strlit("escalator");
            assert("validator"@[0] != "escalator"@[0]);
            reveal_strlit("travelator");
            assert("validator"@.len() != "travelator"@.len());
            reveal_strlit("ramp");
            assert("validator"@.len() != "ramp"@.len());
            reveal_strlit("stairs");
            assert("validator"@.len() != "stairs"@.len());
            reveal_strlit("shuttle");
            assert("validator"@.len() != "shuttle"@.len());
            reveal_strlit("narrowEntrance");
            assert("validator"@.len() != "narrowEntrance"@.len());
            reveal_strlit("barrier");
            assert("validator"@.len() != "barrier"@.len());
            reveal_strlit("palletAccess_lowFloor");
            assert("validator"@.len() != "palletAccess_lowFloor"@.len());
        },
        AccessFacility::Unrecognised(_) => {},
    }
}

/// A token the `Accessibility` list defines reads back as the value that writes it:
/// `from_token(v.as_str()) == v` for every value `v` other than `Unrecognised`.
pub proof fn law_accessibility_tokens_round_trip(value: Accessibility)
    requires
        !(value is Unrecognised),
    ensures
        Accessibility::spec_listed(value.spec_token()) == Some(value),
{
    match value {
        Accessibility::Unknown => {
            reveal_strlit("unknown");
        },
        Accessibility::False => {
            reveal_strlit("false");
            reveal_strlit("unknown");
            assert("false"@.len() != "unknown"@.len());
        },
        Accessibility::True => {
            reveal_strlit("true");
            reveal_strlit("unknown");
            assert("true"@.len() != "unknown"@.len());
            reveal_strlit("false");
            assert("true"@.len() != "false"@.len());
        },
        Accessibility::Unrecognised(_) => {},
    }
}

/// A token the `AccommodationFacility` list defines reads back as the value that writes it:
/// `from_token(v.as_str()) == v` for every value `v` other than `Unrecognised`.
pub proof fn law_accommodation_facility_tokens_round_trip(value: AccommodationFacility)
    requires
        !(value is Unrecognised),
    ensures
        AccommodationFacility::spec_listed(value.spec_token()) == Some(value),
{
    match value {
        AccommodationFacility::Unknown => {
            reveal_strlit("unknown");
        },
        AccommodationFacility::Sleeper => {
            reveal_strlit("sleeper");
            reveal_strlit("unknown");
            assert("sleeper"@[0] != "unknown"@[0]);
        },
        AccommodationFacility::Couchette => {
            reveal_strlit("couchette");
            reveal_strlit("unknown");
            assert("couchette"@.len() != "unknown"@.len());
            reveal_strlit("sleeper");
            assert("couchette"@.len() != "sleeper"@.len());
        },
        AccommodationFacility::SpecialSeating => {
            reveal_strlit("specialSeating");
            reveal_strlit("unknown");
            assert("specialSeating"@.len() != "unknown"@.len());
            reveal_strlit("sleeper");
            assert("specialSeating"@.len() != "sleeper"@.len());
            reveal_strlit("couchette");
            assert("specialSeating"@.len() != "couchette"@.len());
        },
        AccommodationFacility::RecliningSeats => {
            reveal_strlit("recliningSeats");
            reveal_strlit("unknown");
            assert("recliningSeats"@.len() != "unknown"@.len());
            reveal_strlit("sleeper");
            assert("recliningSeats"@.len() != "sleeper"@.len());
            reveal_strlit("couchette");
            assert("recliningSeats"@.len() != "couchette"@.len());
            reveal_strlit("specialSeating");
            assert("recliningSeats"@[0] != "specialSeating"@[0]);
        },
        AccommodationFacility::BabyCompartment => {
            reveal_strlit("babyCompartment");
            reveal_strlit("unknown");
            assert("babyCompartment"@.len() != "unknown"@.len());
            reveal_strlit("sleeper");
            assert("babyCompartment"@.len() != "sleeper"@.len());
            reveal_strlit("couchette");
            assert("babyCompartment"@.len() != "couchette"@.len());
            reveal_strlit("specialSeating");
            assert("babyCompartment"@.len() != "specialSeating"@.len());
            reveal_strlit("recliningSeats");
            assert("babyCompartment"@.len() != "recliningSeats"@.len());
        },
        AccommodationFacility::FamilyCarriage => {
            reveal_strlit("familyCarriage");
            reveal_strlit("unknown");
            assert("familyCarriage"@.len() != "unknown"@.len());
            reveal_strlit("sleeper");
            assert("familyCarriage"@.len() != "sleeper"@.len());
            reveal_strlit("couchette");
            assert("familyCarriage"@.len() != "couchette"@.len());
            reveal_strlit("specialSeating");
            assert("familyCarriage"@[0] != "specialSeating"@[0]);
            reveal_strlit("recliningSeats");
            assert("familyCarriage"@[0] != "recliningSeats"@[0]);
            reveal_strlit("babyCompartment");
            assert("familyCarriage"@.len() != "babyCompartment"@.len());
        },
        AccommodationFacility::Unrecognised(_) => {},
    }
}

/// A token the `AirSubmodesOfTransport` list defines reads back as the value that writes it:
/// `from_token(v.as_str()) == v` for every value `v` other than `Unrecognised`.
pub proof fn law_air_submodes_of_transport_tokens_round_trip(value: AirSubmodesOfTransport)
    requires
        !(value is Unrecognised),
    ensures
        AirSubmodesOfTransport::spec_listed(value.spec_token()) == Some(value),
{
    match value {
        AirSubmodesOfTransport::Unknown => {
            reveal_strlit("unknown");
        },
        AirSubmodesOfTransport::UndefinedAircraftService => {
            reveal_strlit("undefinedAircraftService");
            reveal_strlit("unknown");
            assert("undefinedAircraftService"@.len() != "unknown"@.len());
        },
        AirSubmodesOfTransport::InternationalFlight => {
            reveal_strlit("internationalFlight");
            reveal_strlit("unknown");
            assert("internationalFlight"@.len() != "unknown"@.len());
            reveal_strlit("undefinedAircraftService");
            assert("internationalFlight"@.len() != "undefinedAircraftService"@.len());
        },
        AirSubmodesOfTransport::DomesticScheduledFlight => {
            reveal_strlit("domesticScheduledFlight");
            reveal_strlit("unknown");
            assert("domesticScheduledFlight"@.len() != "unknown"@.len());
            reveal_strlit("undefinedAircraftService");
            assert("domesticScheduledFlight"@.len() != "undefinedAircraftService"@.len());
            reveal_strlit("internationalFlight");
            assert("domesticScheduledFlight"@.len() != "internationalFlight"@.len());
        },
        AirSubmodesOfTransport::IntercontinentalFlight => {
            reveal_strlit("intercontinentalFlight");
            reveal_strlit("unknown");
            assert("intercontinentalFlight"@.len() != "unknown"@.len());
            reveal_strlit("undefinedAircraftService");
            assert("intercontinentalFlight"@.len() != "undefinedAircraftService"@.len());
            reveal_strlit("internationalFlight");
            assert("intercontinentalFlight"@.len() != "internationalFlight"@.len());
            reveal_strlit("domesticScheduledFlight");
            assert("intercontinentalFlight"@.len() != "domesticScheduledFlight"@.len());
        },
        AirSubmodesOfTransport::DomesticCharterFlight => {
            reveal_strlit("domesticCharterFlight");
            reveal_strlit("unknown");
            assert("domesticCharterFlight"@.len() != "unknown"@.len());
            reveal_strlit("undefinedAircraftService");
            assert("domesticCharterFlight"@.len() != "undefinedAircraftService"@.len());
            reveal_strlit("internationalFlight");
            assert("domesticCharterFlight"@.len() != "internationalFlight"@.len());
            reveal_strlit("domesticScheduledFlight");
            assert("domesticCharterFlight"@.len() != "domesticScheduledFlight"@.len());
            reveal_strlit("intercontinentalFlight");
            assert("domesticCharterFlight"@.len() != "intercontinentalFlight"@.len());
        },
        AirSubmodesOfTransport::InternationalCharterFlight => {
            reveal_strlit("internationalCharterFlight");
            reveal_strlit("unknown");
            assert("internationalCharterFlight"@.len() != "unknown"@.len());
            reveal_strlit("undefinedAircraftService");
            assert("internationalCharterFlight"@.len() != "undefinedAircraftService"@.len());
            reveal_strlit("internationalFlight");
            assert("internationalCharterFlight"@.len() != "internationalFlight"@.len());
            reveal_strlit("domesticScheduledFlight");
            assert("internationalCharterFlight"@.len() != "domesticScheduledFlight"@.len());
            reveal_strlit("intercontinentalFlight");
            assert("internationalCharterFlight"@.len() != "intercontinentalFlight"@.len());
            reveal_strlit("domesticCharterFlight");
            assert("internationalCharterFlight"@.len() != "domesticCharterFlight"@.len());
        },
        AirSubmodesOfTransport::RoundTripCharterFlight => {
            reveal_strlit("roundTripCharterFlight");
            reveal_strlit("unknown");
            assert("roundTripCharterFlight"@.len() != "unknown"@.len());
            reveal_strlit("undefinedAircraftService");
            assert("roundTripCharterFlight"@.len() != "undefinedAircraftService"@.len());
            reveal_strlit("internationalFlight");
            assert("roundTripCharterFlight"@.len() != "internationalFlight"@.len());
            reveal_strlit("domesticScheduledFlight");
            assert("roundTripCharterFlight"@.len() != "domesticScheduledFlight"@.len());
            reveal_strlit("intercontinentalFlight");
            assert("roundTripCharterFlight"@[0] != "intercontinentalFlight"@[0]);
            reveal_strlit("domesticCharterFlight");
            assert("roundTripCharterFlight"@.len() != "domesticCharterFlight"@.len());
            reveal_strlit("internationalCharterFlight");
            assert("roundTripCharterFlight"@.len() != "internationalCharterFlight"@.len());
        },
        AirSubmodesOfTransport::SightseeingFlight => {
            reveal_strlit("sightseeingFlight");
            reveal_strlit("unknown");
            assert("sightseeingFlight"@.len() != "unknown"@.len());
            reveal_strlit("undefinedAircraftService");
            assert("sightseeingFlight"@.len() != "undefinedAircraftService"@.len());
            reveal_strlit("internationalFlight");
            assert("sightseeingFlight"@.len() != "internationalFlight"@.len());
            reveal_strlit("domesticScheduledFlight");
            assert("sightseeingFlight"@.len() != "domesticScheduledFlight"@.len());
            reveal_strlit("intercontinentalFlight");
            assert("sightseeingFlight"@.len() != "intercontinentalFlight"@.len());
            reveal_strlit("domesticCharterFlight");
            assert("sightseeingFlight"@.len() != "domesticCharterFlight"@.len());
            reveal_strlit("internationalCharterFlight");
            assert("sightseeingFlight"@.len() != "internationalCharterFlight"@.len());
            reveal_strlit("roundTripCharterFlight");
            assert("sightseeingFlight"@.len() != "roundTripCharterFlight"@.len());
        },
        AirSubmodesOfTransport::HelicopterService => {
            reveal_strlit("helicopterService");
            reveal_strlit("unknown");
            assert("helicopterService"@.len() != "unknown"@.len());
            reveal_strlit("undefinedAircraftService");
            assert("helicopterService"@.len() != "undefinedAircraftService"@.len());
            reveal_strlit("internationalFlight");
            assert("helicopterService"@.len() != "internationalFlight"@.len());
            reveal_strlit("domesticScheduledFlight");
            assert("helicopterService"@.len() != "domesticScheduledFlight"@.len());
            reveal_strlit("intercontinentalFlight");
            assert("helicopterService"@.len() != "intercontinentalFlight"@.len());
            reveal_strlit("domesticCharterFlight");
            assert("helicopterService"@.len() != "domesticCharterFlight"@.len());
            reveal_strlit("internationalCharterFlight");
            assert("helicopterService"@.len() != "internationalCharterFlight"@.len());
            reveal_strlit("roundTripCharterFlight");
            assert("helicopterService"@.len() != "roundTripCharterFlight"@.len());
            reveal_strlit("sightseeingFlight");
            assert("helicopterService"@[0] != "sightseeingFlight"@[0]);
        },
        AirSubmodesOfTransport::DomesticScheduledHelicopterService => {
            reveal_strlit("domesticScheduledHelicopterService");
            reveal_strlit("unknown");
            assert("domesticScheduledHelicopterService"@.len() != "unknown"@.len());
            reveal_strlit("undefinedAircraftService");
            assert("domesticScheduledHelicopterService"@.len() != "undefinedAircraftService"@.len());
            reveal_strlit("internationalFlight");
            assert("domesticScheduledHelicopterService"@.len() != "internationalFlight"@.len());
            reveal_strlit("domesticScheduledFlight");
            assert("domesticScheduledHelicopterService"@.len() != "domesticScheduledFlight"@.len());
            reveal_strlit("intercontinentalFlight");
            assert("domesticScheduledHelicopterService"@.len() != "intercontinentalFlight"@.len());
            reveal_strlit("domesticCharterFlight");
            assert("domesticScheduledHelicopterService"@.len() != "domesticCharterFlight"@.len());
            reveal_strlit("internationalCharterFlight");
            assert("domesticScheduledHelicopterService"@.len() != "internationalCharterFlight"@.len());
            reveal_strlit("roundTripCharterFlight");
            assert("domesticScheduledHelicopterService"@.len() != "roundTripCharterFlight"@.len());
            reveal_strlit("sightseeingFlight");
            assert("domesticScheduledHelicopterService"@.len() != "sightseeingFlight"@.len());
            reveal_strlit("helicopterService");
            assert("domesticScheduledHelicopterService"@.len() != "helicopterService"@.len());
        },
        AirSubmodesOfTransport::Unrecognised(_) => {},
    }
}

/// A token the `ArrivalBoardingActivity` list defines reads back as the value that writes it:
/// `from_token(v.as_str()) == v` for every value `v` other than `Unrecognised`.
pub proof fn law_arrival_boarding_activity_tokens_round_trip(value: ArrivalBoardingActivity)
    requires
        !(value is Unrecognised),
    ensures
        ArrivalBoardingActivity::spec_listed(value.spec_token()) == Some(value),
{
    match value {
        ArrivalBoardingActivity::Alighting => {
            reveal_strlit("alighting");
        },
        ArrivalBoardingActivity::NoAlighting => {
            reveal_strlit("noAlighting");
            reveal_strlit("alighting");
            assert("noAlighting"@.len() != "alighting"@.len());
        },
        ArrivalBoardingActivity::PassThru => {
            reveal_strlit("passThru");
            reveal_strlit("alighting");
            assert("passThru"@.len() != "alighting"@.len());
            reveal_strlit("noAlighting");
            assert("passThru"@.len() != "noAlighting"@.len());
        },
        ArrivalBoardingActivity::Unrecognised(_) => {},
    }
}

/// A token the `AssistanceFacility` list defines reads back as the value that writes it:
/// `from_token(v.as_str()) == v` for every value `v` other than `Unrecognised`.
pub proof fn law_assistance_facility_tokens_round_trip(value: AssistanceFacility)
    requires
        !(value is Unrecognised),
    ensures
        AssistanceFacility::spec_listed(value.spec_token()) == Some(value),
{
    match value {
        AssistanceFacility::Unknown => {
            reveal_strlit("unknown");
        },
        AssistanceFacility::PersonalAssistance => {
            reveal_strlit("personalAssistance");
            reveal_strlit("unknown");
            assert("personalAssistance"@.len() != "unknown"@.len());
        },
        AssistanceFacility::BoardingAssistance => {
            reveal_strlit("boardingAssistance");
            reveal_strlit("unknown");
            assert("boardingAssistance"@.len() != "unknown"@.len());
            reveal_strlit("personalAssistance");
            assert("boardingAssistance"@[0] != "personalAssistance"@[0]);
        },
        AssistanceFacility::WheechairAssistance => {
            reveal_strlit("wheechairAssistance");
            reveal_strlit("unknown");
            assert("wheechairAssistance"@.len() != "unknown"@.len());
            reveal_strlit("personalAssistance");
            assert("wheechairAssistance"@.len() != "personalAssistance"@.len());
            reveal_strlit("boardingAssistance");
            assert("wheechairAssistance"@.len() != "boardingAssistance"@.len());
        },
        AssistanceFacility::UnaccompaniedMinorAssistance => {
            reveal_strlit("unaccompaniedMinorAssistance");
            reveal_strlit("unknown");
            assert("unaccompaniedMinorAssistance"@.len() != "unknown"@.len());
            reveal_strlit("personalAssistance");
            assert("unaccompaniedMinorAssistance"@.len() != "personalAssistance"@.len());
            reveal_strlit("boardingAssistance");
            assert("unaccompaniedMinorAssistance"@.len() != "boardingAssistance"@.len());
            reveal_strlit("wheechairAssistance");
            assert("unaccompaniedMinorAssistance"@.len() != "wheechairAssistance"@.len());
        },
        AssistanceFacility::WheelchairUse => {
            reveal_strlit("wheelchairUse");
            reveal_strlit("unknown");
            assert("wheelchairUse"@.len() != "unknown"@.len());
            reveal_strlit("personalAssistance");
            assert("wheelchairUse"@.len() != "personalAssistance"@.len());
            reveal_strlit("boardingAssistance");
            assert("wheelchairUse"@.len() != "boardingAssistance"@.len());
            reveal_strlit("wheechairAssistance");
            assert("wheelchairUse"@.len() != "wheechairAssistance"@.len());
            reveal_strlit("unaccompaniedMinorAssistance");
            assert("wheelchairUse"@.len() != "unaccompaniedMinorAssistance"@.len());
        },
        AssistanceFacility::Conductor => {
            reveal_strlit("conductor");
            reveal_strlit("unknown");
            assert("conductor"@.len() != "unknown"@.len());
            reveal_strlit("personalAssistance");
            assert("conductor"@.len() != "personalAssistance"@.len());
            reveal_strlit("boardingAssistance");
            assert("conductor"@.len() != "boardingAssistance"@.len());
            reveal_strlit("wheechairAssistance");
            assert("conductor"@.len() != "wheechairAssistance"@.len());
            reveal_strlit("unaccompaniedMinorAssistance");
            assert("conductor"@.len() != "unaccompaniedMinorAssistance"@.len());
            reveal_strlit("wheelchairUse");
            assert("conductor"@.len() != "wheelchairUse"@.len());
        },
        AssistanceFacility::Information => {
            reveal_strlit("information");
            reveal_strlit("unknown");
            assert("information"@.len() != "unknown"@.len());
            reveal_strlit("personalAssistance");
            assert("information"@.len() != "personalAssistance"@.len());
            reveal_strlit("boardingAssistance");
            assert("information"@.len() != "boardingAssistance"@.len());
            reveal_strlit("wheechairAssistance");
            assert("information"@.len() != "wheechairAssistance"@.len());
            reveal_strlit("unaccompaniedMinorAssistance");
            assert("information"@.len() != "unaccompaniedMinorAssistance"@.len());
            reveal_strlit("wheelchairUse");
            assert("information"@.len() != "wheelchairUse"@.len());
            reveal_strlit("conductor");
            assert("information"@.len() != "conductor"@.len());
        },
        AssistanceFacility::Other => {
            reveal_strlit("other");
            reveal_strlit("unknown");
            assert("other"@.len() != "unknown"@.len());
            reveal_strlit("personalAssistance");
            assert("other"@.len() != "personalAssistance"@.len());
            reveal_strlit("boardingAssistance");
            assert("other"@.len() != "boardingAssistance"@.len());
            reveal_strlit("wheechairAssistance");
            assert("other"@.len() != "wheechairAssistance"@.len());
            reveal_strlit("unaccompaniedMinorAssistance");
            assert("other"@.len() != "unaccompaniedMinorAssistance"@.len());
            reveal_strlit("wheelchairUse");
            assert("other"@.len() != "wheelchairUse"@.len());
            reveal_strlit("conductor");
            assert("other"@.len() != "conductor"@.len());
            reveal_strlit("information");
            assert("other"@.len() != "information"@.len());
        },
        AssistanceFacility::Unrecognised(_) => {},
    }
}

/// A token the `BusSubmodesOfTransport` list defines reads back as the value that writes it:
/// `from_token(v.as_str()) == v` for every value `v` other than `Unrecognised`.
pub proof fn law_bus_submodes_of_transport_tokens_round_trip(value: BusSubmodesOfTransport)
    requires
        !(value is Unrecognised),
    ensures
        BusSubmodesOfTransport::spec_listed(value.spec_token()) == Some(value),
{
    match value {
        BusSubmodesOfTransport::Unknown => {
            reveal_strlit("unknown");
        },
        BusSubmodesOfTransport::Undefined => {
            reveal_strlit("undefined");
            reveal_strlit("unknown");
            assert("undefined"@.len() != "unknown"@.len());
        },
        BusSubmodesOfTransport::LocalBus => {
            reveal_strlit("localBus");
            reveal_strlit("unknown");
            assert("localBus"@.len() != "unknown"@.len());
            reveal_strlit("undefined");
            assert("localBus"@.len() != "undefined"@.len());
        },
        BusSubmodesOfTransport::RegionalBus => {
            reveal_strlit("regionalBus");
            reveal_strlit("unknown");
            assert("regionalBus"@.len() != "unknown"@.len());
            reveal_strlit("undefined");
            assert("regionalBus"@.len() != "undefined"@.len());
            reveal_strlit("localBus");
            assert("regionalBus"@.len() != "localBus"@.len());
        },
        BusSubmodesOfTransport::ExpressBus => {
            reveal_strlit("expressBus");
            reveal_strlit("unknown");
            assert("expressBus"@.len() != "unknown"@.len());
            reveal_strlit("undefined");
            assert("expressBus"@.len() != "undefined"@.len());
            reveal_strlit("localBus");
            assert("expressBus"@.len() != "localBus"@.len());
            reveal_strlit("regionalBus");
            assert("expressBus"@.len() != "regionalBus"@.len());
        },
        BusSubmodesOfTransport::NightBus => {
            reveal_strlit("nightBus");
            reveal_strlit("unknown");
            assert("nightBus"@.len() != "unknown"@.len());
            reveal_strlit("undefined");
            assert("nightBus"@.len() != "undefined"@.len());
            reveal_strlit("localBus");
            assert("nightBus"@[0] != "localBus"@[0]);
            reveal_strlit("regionalBus");
            assert("nightBus"@.len() != "regionalBus"@.len());
            reveal_strlit("expressBus");
            assert("nightBus"@.len() != "expressBus"@.len());
        },
        BusSubmodesOfTransport::PostBus => {
            reveal_strlit("postBus");
            reveal_strlit("unknown");
            assert("postBus"@[0] != "unknown"@[0]);
            reveal_strlit("undefined");
            assert("postBus"@.len() != "undefined"@.len());
            reveal_strlit("localBus");
            assert("postBus"@.len() != "localBus"@.len());
            reveal_strlit("regionalBus");
            assert("postBus"@.len() != "regionalBus"@.len());
            reveal_strlit("expressBus");
            assert("postBus"@.len() != "expressBus"@.len());
            reveal_strlit("nightBus");
            assert("postBus"@.len() != "nightBus"@.len());
        },
        BusSubmodesOfTransport::SpecialNeedsBus => {
            reveal_strlit("specialNeedsBus");
            reveal_strlit("unknown");
            assert("specialNeedsBus"@.len() != "unknown"@.len());
            reveal_strlit("undefined");
            assert("specialNeedsBus"@.len() != "undefined"@.len());
            reveal_strlit("localBus");
            assert("specialNeedsBus"@.len() != "localBus"@.len());
            reveal_strlit("regionalBus");
            assert("specialNeedsBus"@.len() != "regionalBus"@.len());
            reveal_strlit("expressBus");
            assert("specialNeedsBus"@.len() != "expressBus"@.len());
            reveal_strlit("nightBus");
            assert("specialNeedsBus"@.len() != "nightBus"@.len());
            reveal_strlit("postBus");
            assert("specialNeedsBus"@.len() != "postBus"@.len());
        },
        BusSubmodesOfTransport::MobilityBus => {
            reveal_strlit("mobilityBus");
            reveal_strlit("unknown");
            assert("mobilityBus"@.len() != "unknown"@.len());
            reveal_strlit("undefined");
            assert("mobilityBus"@.len() != "undefined"@.len());
            reveal_strlit("localBus");
            assert("mobilityBus"@.len() != "localBus"@.len());
            reveal_strlit("regionalBus");
            assert("mobilityBus"@[0] != "regionalBus"@[0]);
            reveal_strlit("expressBus");
            assert("mobilityBus"@.len() != "expressBus"@.len());
            reveal_strlit("nightBus");
            assert("mobilityBus"@.len() != "nightBus"@.len());
            reveal_strlit("postBus");
            assert("mobilityBus"@.len() != "postBus"@.len());
            reveal_strlit("specialNeedsBus");
            assert("mobilityBus"@.len() != "specialNeedsBus"@.len());
        },
        BusSubmodesOfTransport::MobilityBusForRegisteredDisabled => {
            reveal_strlit("mobilityBusForRegisteredDisabled");
            reveal_strlit("unknown");
            assert("mobilityBusForRegisteredDisabled"@.len() != "unknown"@.len());
            reveal_strlit("undefined");
            assert("mobilityBusForRegisteredDisabled"@.len() != "undefined"@.len());
            reveal_strlit("localBus");
            assert("mobilityBusForRegisteredDisabled"@.len() != "localBus"@.len());
            reveal_strlit("regionalBus");
            assert("mobilityBusForRegisteredDisabled"@.len() != "regionalBus"@.len());
            reveal_strlit("expressBus");
            assert("mobilityBusForRegisteredDisabled"@.len() != "expressBus"@.len());
            reveal_strlit("nightBus");
            assert("mobilityBusForRegisteredDisabled"@.len() != "nightBus"@.len());
            reveal_strlit("postBus");
            assert("mobilityBusForRegisteredDisabled"@.len() != "postBus"@.len());
            reveal_strlit("specialNeedsBus");
            assert("mobilityBusForRegisteredDisabled"@.len() != "specialNeedsBus"@.len());
            reveal_strlit("mobilityBus");
            assert("mobilityBusForRegisteredDisabled"@.len() != "mobilityBus"@.len());
        },
        BusSubmodesOfTransport::SightseeingBus => {
            reveal_strlit("sightseeingBus");
            reveal_strlit("unknown");
            assert("sightseeingBus"@.len() != "unknown"@.len());
            reveal_strlit("undefined");
            assert("sightseeingBus"@.len() != "undefined"@.len());
            reveal_strlit("localBus");
            assert("sightseeingBus"@.len() != "localBus"@.len());
            reveal_strlit("regionalBus");
            assert("sightseeingBus"@.len() != "regionalBus"@.len());
            reveal_strlit("expressBus");
            assert("sightseeingBus"@.len() != "expressBus"@.len());
            reveal_strlit("nightBus");
            assert("sightseeingBus"@.len() != "nightBus"@.len());
            reveal_strlit("postBus");
            assert("sightseeingBus"@.len() != "postBus"@.len());
            reveal_strlit("specialNeedsBus");
            assert("sightseeingBus"@.len() != "specialNeedsBus"@.len());
            reveal_strlit("mobilityBus");
            assert("sightseeingBus"@.len() != "mobilityBus"@.len());
            reveal_strlit("mobilityBusForRegisteredDisabled");
            assert("sightseeingBus"@.len() != "mobilityBusForRegisteredDisabled"@.len());
        },
        BusSubmodesOfTransport::ShuttleBus => {
            reveal_strlit("shuttleBus");
            reveal_strlit("unknown");
            assert("shuttleBus"@.len() != "unknown"@.len());
            reveal_strlit("undefined");
            assert("shuttleBus"@.len() != "undefined"@.len());
            reveal_strlit("localBus");
            assert("shuttleBus"@.len() != "localBus"@.len());
            reveal_strlit("regionalBus");
            assert("shuttleBus"@.len() != "regionalBus"@.len());
            reveal_strlit("expressBus");
            assert("shuttleBus"@[0] != "expressBus"@[0]);
            reveal_strlit("nightBus");
            assert("shuttleBus"@.len() != "nightBus"@.len());
            reveal_strlit("postBus");
            assert("shuttleBus"@.len() != "postBus"@.len());
            reveal_strlit("specialNeedsBus");
            assert("shuttleBus"@.len() != "specialNeedsBus"@.len());
            reveal_strlit("mobilityBus");
            assert("shuttleBus"@.len() != "mobilityBus"@.len());
            reveal_strlit("mobilityBusForRegisteredDisabled");
            assert("shuttleBus"@.len() != "mobilityBusForRegisteredDisabled"@.len());
            reveal_strlit("sightseeingBus");
            assert("shuttleBus"@.len() != "sightseeingBus"@.len());
        },
        BusSubmodesOfTransport::SchoolBus => {
            reveal_strlit("schoolBus");
            reveal_strlit("unknown");
            assert("schoolBus"@.len() != "unknown"@.len());
            reveal_strlit("undefined");
            assert("schoolBus"@[0] != "undefined"@[0]);
            reveal_strlit("localBus");
            assert("schoolBus"@.len() != "localBus"@.len());
            reveal_strlit("regionalBus");
            assert("schoolBus"@.len() != "regionalBus"@.len());
            reveal_strlit("expressBus");
            assert("schoolBus"@.len() != "expressBus"@.len());
            reveal_strlit("nightBus");
            assert("schoolBus"@.len() != "nightBus"@.len());
            reveal_strlit("postBus");
            assert("schoolBus"@.len() != "postBus"@.len());
            reveal_strlit("specialNeedsBus");
            assert("schoolBus"@.len() != "specialNeedsBus"@.len());
            reveal_strlit("mobilityBus");
            assert("schoolBus"@.len() != "mobilityBus"@.len());
            reveal_strlit("mobilityBusForRegisteredDisabled");
            assert("schoolBus"@.len() != "mobilityBusForRegisteredDisabled"@.len());
            reveal_strlit("sightseeingBus");
            assert("schoolBus"@.len() != "sightseeingBus"@.len());
            reveal_strlit("shuttleBus");
            assert("schoolBus"@.len() != "shuttleBus"@.len());
        },
        BusSubmodesOfTransport::SchoolAndPublicServiceBus => {
            reveal_strlit("schoolAndPublicServiceBus");
            reveal_strlit("unknown");
            assert("schoolAndPublicServiceBus"@.len() != "unknown"@.len());
            reveal_strlit("undefined");
            assert("schoolAndPublicServiceBus"@.len() != "undefined"@.len());
            reveal_strlit("localBus");
            assert("schoolAndPublicServiceBus"@.len() != "localBus"@.len());
            reveal_strlit("regionalBus");
            assert("schoolAndPublicServiceBus"@.len() != "regionalBus"@.len());
            reveal_strlit("expressBus");
            assert("schoolAndPublicServiceBus"@.len() != "expressBus"@.len());
            reveal_strlit("nightBus");
            assert("schoolAndPublicServiceBus"@.len() != "nightBus"@.len());
            reveal_strlit("postBus");
            assert("schoolAndPublicServiceBus"@.len() != "postBus"@.len());
            reveal_strlit("specialNeedsBus");
            assert("schoolAndPublicServiceBus"@.len() != "specialNeedsBus"@.len());
            reveal_strlit("mobilityBus");
            assert("schoolAndPublicServiceBus"@.len() != "mobilityBus"@.len());
            reveal_strlit("mobilityBusForRegisteredDisabled");
            assert("schoolAndPublicServiceBus"@.len() != "mobilityBusForRegisteredDisabled"@.len());
            reveal_strlit("sightseeingBus");
            assert("schoolAndPublicServiceBus"@.len() != "sightseeingBus"@.len());
            reveal_strlit("shuttleBus");
            assert("schoolAndPublicServiceBus"@.len() != "shuttleBus"@.len());
            reveal_strlit("schoolBus");
            assert("schoolAndPublicServiceBus"@.len() != "schoolBus"@.len());
        },
        BusSubmodesOfTransport::RailReplacementBus => {
            reveal_strlit("railReplacementBus");
            reveal_strlit("unknown");
            assert("railReplacementBus"@.len() != "unknown"@.len());
            reveal_strlit("undefined");
            assert("railReplacementBus"@.len() != "undefined"@.len());
            reveal_strlit("localBus");
            assert("railReplacementBus"@.len() != "localBus"@.len());
            reveal_strlit("regionalBus");
            assert("railReplacementBus"@.len() != "regionalBus"@.len());
            reveal_strlit("expressBus");
            assert("railReplacementBus"@.len() != "expressBus"@.len());
            reveal_strlit("nightBus");
            assert("railReplacementBus"@.len() != "nightBus"@.len());
            reveal_strlit("postBus");
            assert("railReplacementBus"@.len() != "postBus"@.len());
            reveal_strlit("specialNeedsBus");
            assert("railReplacementBus"@.len() != "specialNeedsBus"@.len());
            reveal_strlit("mobilityBus");
            assert("railReplacementBus"@.len() != "mobilityBus"@.len());
            reveal_strlit("mobilityBusForRegisteredDisabled");
            assert("railReplacementBus"@.len() != "mobilityBusForRegisteredDisabled"@.len());
            reveal_strlit("sightseeingBus");
            assert("railReplacementBus"@.len() != "sightseeingBus"@.len());
            reveal_strlit("shuttleBus");
            assert("railReplacementBus"@.len() != "shuttleBus"@.len());
            reveal_strlit("schoolBus");
            assert("railReplacementBus"@.len() != "schoolBus"@.len());
            reveal_strlit("schoolAndPublicServiceBus");
            assert("railReplacementBus"@.len() != "schoolAndPublicServiceBus"@.len());
        },
        BusSubmodesOfTransport::DemandAndResponseBus => {
            reveal_strlit("demandAndResponseBus");
            reveal_strlit("unknown");
            assert("demandAndResponseBus"@.len() != "unknown"@.len());
            reveal_strlit("undefined");
            assert("demandAndResponseBus"@.len() != "undefined"@.len());
            reveal_strlit("localBus");
            assert("demandAndResponseBus"@.len() != "localBus"@.len());
            reveal_strlit("regionalBus");
            assert("demandAndResponseBus"@.len() != "regionalBus"@.len());
            reveal_strlit("expressBus");
            assert("demandAndResponseBus"@.len() != "expressBus"@.len());
            reveal_strlit("nightBus");
            assert("demandAndResponseBus"@.len() != "nightBus"@.len());
            reveal_strlit("postBus");
            assert("demandAndResponseBus"@.len() != "postBus"@.len());
            reveal_strlit("specialNeedsBus");
            assert("demandAndResponseBus"@.len() != "specialNeedsBus"@.len());
            reveal_strlit("mobilityBus");
            assert("demandAndResponseBus"@.len() != "mobilityBus"@.len());
            reveal_strlit("mobilityBusForRegisteredDisabled");
            assert("demandAndResponseBus"@.len() != "mobilityBusForRegisteredDisabled"@.len());
            reveal_strlit("sightseeingBus");
            assert("demandAndResponseBus"@.len() != "sightseeingBus"@.len());
            reveal_strlit("shuttleBus");
            assert("demandAndResponseBus"@.len() != "shuttleBus"@.len());
            reveal_strlit("schoolBus");
            assert("demandAndResponseBus"@.len() != "schoolBus"@.len());
            reveal_strlit("schoolAndPublicServiceBus");
            assert("demandAndResponseBus"@.len() != "schoolAndPublicServiceBus"@.len());
            reveal_strlit("railReplacementBus");
            assert("demandAndResponseBus"@.len() != "railReplacementBus"@.len());
        },
        BusSubmodesOfTransport::AirportLinkBus => {
            reveal_strlit("airportLinkBus");
            reveal_strlit("unknown");
            assert("airportLinkBus"@.len() != "unknown"@.len());
            reveal_strlit("undefined");
            assert("airportLinkBus"@.len() != "undefined"@.len());
            reveal_strlit("localBus");
            assert("airportLinkBus"@.len() != "localBus"@.len());
            reveal_strlit("regionalBus");
            assert("airportLinkBus"@.len() != "regionalBus"@.len());
            reveal_strlit("expressBus");
            assert("airportLinkBus"@.len() != "expressBus"@.len());
            reveal_strlit("nightBus");
            assert("airportLinkBus"@.len() != "nightBus"@.len());
            reveal_strlit("postBus");
            assert("airportLinkBus"@.len() != "postBus"@.len());
            reveal_strlit("specialNeedsBus");
            assert("airportLinkBus"@.len() != "specialNeedsBus"@.len());
            reveal_strlit("mobilityBus");
            assert("airportLinkBus"@.len() != "mobilityBus"@.len());
            reveal_strlit("mobilityBusForRegisteredDisabled");
            assert("airportLinkBus"@.len() != "mobilityBusForRegisteredDisabled"@.len());
            reveal_strlit("sightseeingBus");
            assert("airportLinkBus"@[0] != "sightseeingBus"@[0]);
            reveal_strlit("shuttleBus");
            assert("airportLinkBus"@.len() != "shuttleBus"@.len());
            reveal_strlit("schoolBus");
            assert("airportLinkBus"@.len() != "schoolBus"@.len());
            reveal_strlit("schoolAndPublicServiceBus");
            assert("airportLinkBus"@.len() != "schoolAndPublicServiceBus"@.len());
            reveal_strlit("railReplacementBus");
            assert("airportLinkBus"@.len() != "railReplacementBus"@.len());
            reveal_strlit("demandAndResponseBus");
            assert("airportLinkBus"@.len() != "demandAndResponseBus"@.len());
        },
        BusSubmodesOfTransport::Unrecognised(_) => {},
    }
}

/// A token the `CallStatus` list defines reads back as the value that writes it:
/// `from_token(v.as_str()) == v` for every value `v` other than `Unrecognised`.
pub proof fn law_call_status_tokens_round_trip(value: CallStatus)
    requires
        !(value is Unrecognised),
    ensures
        CallStatus::spec_listed(value.spec_token()) == Some(value),
{
    match value {
        CallStatus::OnTime => {
            reveal_strlit("onTime");
        },
        CallStatus::Early => {
            reveal_strlit("early");
            reveal_strlit("onTime");
            assert("early"@.len() != "onTime"@.len());
        },
        CallStatus::Delayed => {
            reveal_strlit("delayed");
            reveal_strlit("onTime");
            assert("delayed"@.len() != "onTime"@.len());
            reveal_strlit("early");
            assert("delayed"@.len() != "early"@.len());
        },
        CallStatus::Cancelled => {
            reveal_strlit("cancelled");
            reveal_strlit("onTime");
            assert("cancelled"@.len() != "onTime"@.len());
            reveal_strlit("early");
            assert("cancelled"@.len() != "early"@.len());
            reveal_strlit("delayed");
            assert("cancelled"@.len() != "delayed"@.len());
        },
        CallStatus::Arrived => {
            reveal_strlit("arrived");
            reveal_strlit("onTime");
            assert("arrived"@.len() != "onTime"@.len());
            reveal_strlit("early");
            assert("arrived"@.len() != "early"@.len());
            reveal_strlit("delayed");
            assert("arrived"@[0] != "delayed"@[0]);
            reveal_strlit("cancelled");
            assert("arrived"@.len() != "cancelled"@.len());
        },
        CallStatus::Departed => {
            reveal_strlit("departed");
            reveal_strlit("onTime");
            assert("departed"@.len() != "onTime"@.len());
            reveal_strlit("early");
            assert("departed"@.len() != "early"@.len());
            reveal_strlit("delayed");
            assert("departed"@.len() != "delayed"@.len());
            reveal_strlit("cancelled");
            assert("departed"@.len() != "cancelled"@.len());
            reveal_strlit("arrived");
            assert("departed"@.len() != "arrived"@.len());
        },
        CallStatus::Missed => {
            reveal_strlit("missed");
            reveal_strlit("onTime");
            assert("missed"@[0] != "onTime"@[0]);
            reveal_strlit("early");
            assert("missed"@.len() != "early"@.len());
            reveal_strlit("delayed");
            assert("missed"@.len() != "delayed"@.len());
            reveal_strlit("cancelled");
            assert("missed"@.len() != "cancelled"@.len());
            reveal_strlit("arrived");
            assert("missed"@.len() != "arrived"@.len());
            reveal_strlit("departed");
            assert("missed"@.len() != "departed"@.len());
        },
        CallStatus::NoReport => {
            reveal_strlit("noReport");
            reveal_strlit("onTime");
            assert("noReport"@.len() != "onTime"@.len());
            reveal_strlit("early");
            assert("noReport"@.len() != "early"@.len());
            reveal_strlit("delayed");
            assert("noReport"@.len() != "delayed"@.len());
            reveal_strlit("cancelled");
            assert("noReport"@.len() != "cancelled"@.len());
            reveal_strlit("arrived");
            assert("noReport"@.len() != "arrived"@.len());
            reveal_strlit("departed");
            assert("noReport"@[0] != "departed"@[0]);
            reveal_strlit("missed");
            assert("noReport"@.len() != "missed"@.len());
        },
        CallStatus::NotExpected => {
            reveal_strlit("notExpected");
            reveal_strlit("onTime");
            assert("notExpected"@.len() != "onTime"@.len());
            reveal_strlit("early");
            assert("notExpected"@.len() != "early"@.len());
            reveal_strlit("delayed");
            assert("notExpected"@.len() != "delayed"@.len());
            reveal_strlit("cancelled");
            assert("notExpected"@.len() != "cancelled"@.len());
            reveal_strlit("arrived");
            assert("notExpected"@.len() != "arrived"@.len());
            reveal_strlit("departed");
            assert("notExpected"@.len() != "departed"@.len());
            reveal_strlit("missed");
            assert("notExpected"@.len() != "missed"@.len());
            reveal_strlit("noReport");
            assert("notExpected"@.len() != "noReport"@.len());
        },
        CallStatus::Unrecognised(_) => {},
    }
}

/// A token the `CoachSubmodesOfTransport` list defines reads back as the value that writes it:
/// `from_token(v.as_str()) == v` for every value `v` other than `Unrecognised`.
pub proof fn law_coach_submodes_of_transport_tokens_round_trip(value: CoachSubmodesOfTransport)
    requires
        !(value is Unrecognised),
    ensures
        CoachSubmodesOfTransport::spec_listed(value.spec_token()) == Some(value),
{
    match value {
        CoachSubmodesOfTransport::Unknown => {
            reveal_strlit("unknown");
        },
        CoachSubmodesOfTransport::Undefined => {
            reveal_strlit("undefined");
            reveal_strlit("unknown");
            assert("undefined"@.len() != "unknown"@.len());
        },
        CoachSubmodesOfTransport::InternationalCoach => {
            reveal_strlit("internationalCoach");
            reveal_strlit("unknown");
            assert("internationalCoach"@.len() != "unknown"@.len());
            reveal_strlit("undefined");
            assert("internationalCoach"@.len() != "undefined"@.len());
        },
        CoachSubmodesOfTransport::NationalCoach => {
            reveal_strlit("nationalCoach");
            reveal_strlit("unknown");
            assert("nationalCoach"@.len() != "unknown"@.len());
            reveal_strlit("undefined");
            assert("nationalCoach"@.len() != "undefined"@.len());
            reveal_strlit("internationalCoach");
            assert("nationalCoach"@.len() != "internationalCoach"@.len());
        },
        CoachSubmodesOfTransport::ShuttleCoach => {
            reveal_strlit("shuttleCoach");
            reveal_strlit("unknown");
            assert("shuttleCoach"@.len() != "unknown"@.len());
            reveal_strlit("undefined");
            assert("shuttleCoach"@.len() != "undefined"@.len());
            reveal_strlit("internationalCoach");
            assert("shuttleCoach"@.len() != "internationalCoach"@.len());
            reveal_strlit("nationalCoach");
            assert("shuttleCoach"@.len() != "nationalCoach"@.len());
        },
        CoachSubmodesOfTransport::RegionalCoach => {
            reveal_strlit("regionalCoach");
            reveal_strlit("unknown");
            assert("regionalCoach"@.len() != "unknown"@.len());
            reveal_strlit("undefined");
            assert("regionalCoach"@.len() != "undefined"@.len());
            reveal_strlit("internationalCoach");
            assert("regionalCoach"@.len() != "internationalCoach"@.len());
            reveal_strlit("nationalCoach");
            assert("regionalCoach"@[0] != "nationalCoach"@[0]);
            reveal_strlit("shuttleCoach");
            assert("regionalCoach"@.len() != "shuttleCoach"@.len());
        },
        CoachSubmodesOfTransport::SpecialCoach => {
            reveal_strlit("specialCoach");
            reveal_strlit("unknown");
            assert("specialCoach"@.len() != "unknown"@.len());
            reveal_strlit("undefined");
            assert("specialCoach"@.len() != "undefined"@.len());
            reveal_strlit("internationalCoach");
            assert("specialCoach"@.len() != "internationalCoach"@.len());
            reveal_strlit("nationalCoach");
            assert("specialCoach"@.len() != "nationalCoach"@.len());
            reveal_strlit("shuttleCoach");
            assert("specialCoach"@[1] != "shuttleCoach"@[1]);
            reveal_strlit("regionalCoach");
            assert("specialCoach"@.len() != "regionalCoach"@.len());
        },
        CoachSubmodesOfTransport::SightseeingCoach => {
            reveal_strlit("sightseeingCoach");
            reveal_strlit("unknown");
            assert("sightseeingCoach"@.len() != "unknown"@.len());
            reveal_strlit("undefined");
            assert("sightseeingCoach"@.len() != "undefined"@.len());
            reveal_strlit("internationalCoach");
            assert("sightseeingCoach"@.len() != "internationalCoach"@.len());
            reveal_strlit("nationalCoach");
            assert("sightseeingCoach"@.len() != "nationalCoach"@.len());
            reveal_strlit("shuttleCoach");
            assert("sightseeingCoach"@.len() != "shuttleCoach"@.len());
            reveal_strlit("regionalCoach");
            assert("sightseeingCoach"@.len() != "regionalCoach"@.len());
            reveal_strlit("specialCoach");
            assert("sightseeingCoach"@.len() != "specialCoach"@.len());
        },
        CoachSubmodesOfTransport::TouristCoach => {
            reveal_strlit("touristCoach");
            reveal_strlit("unknown");
            assert("touristCoach"@.len() != "unknown"@.len());
            reveal_strlit("undefined");
            assert("touristCoach"@.len() != "undefined"@.len());
            reveal_strlit("internationalCoach");
            assert("touristCoach"@.len() != "internationalCoach"@.len());
            reveal_strlit("nationalCoach");
            assert("touristCoach"@.len() != "nationalCoach"@.len());
            reveal_strlit("shuttleCoach");
            assert("touristCoach"@[0] != "shuttleCoach"@[0]);
            reveal_strlit("regionalCoach");
            assert("touristCoach"@.len() != "regionalCoach"@.len());
            reveal_strlit("specialCoach");
            assert("touristCoach"@[0] != "specialCoach"@[0]);
            reveal_strlit("sightseeingCoach");
            assert("touristCoach"@.len() != "sightseeingCoach"@.len());
        },
        CoachSubmodesOfTransport::CommuterCoach => {
            reveal_strlit("commuterCoach");
            reveal_strlit("unknown");
            assert("commuterCoach"@.len() != "unknown"@.len());
            reveal_strlit("undefined");
            assert("commuterCoach"@.len() != "undefined"@.len());
            reveal_strlit("internationalCoach");
            assert("commuterCoach"@.len() != "internationalCoach"@.len());
            reveal_strlit("nationalCoach");
            assert("commuterCoach"@[0] != "nationalCoach"@[0]);
            reveal_strlit("shuttleCoach");
            assert("commuterCoach"@.len() != "shuttleCoach"@.len());
            reveal_strlit("regionalCoach");
            assert("commuterCoach"@[0] != "regionalCoach"@[0]);
            reveal_strlit("specialCoach");
            assert("commuterCoach"@.len() != "specialCoach"@.len());
            reveal_strlit("sightseeingCoach");
            assert("commuterCoach"@.len() != "sightseeingCoach"@.len());
            reveal_strlit("touristCoach");
            assert("commuterCoach"@.len() != "touristCoach"@.len());
        },
        CoachSubmodesOfTransport::Unrecognised(_) => {},
    }
}

/// A token the `CommunicationsTransportMethod` list defines reads back as the value that writes it:
/// `from_token(v.as_str()) == v` for every value `v` other than `Unrecognised`.
pub proof fn law_communications_transport_method_tokens_round_trip(value: CommunicationsTransportMethod)
    requires
        !(value is Unrecognised),
    ensures
        CommunicationsTransportMethod::spec_listed(value.spec_token()) == Some(value),
{
    match value {
        CommunicationsTransportMethod::HttpPost => {
            reveal_strlit("httpPost");
        },
        CommunicationsTransportMethod::Soap => {
            reveal_strlit("soap");
            reveal_strlit("httpPost");
            assert("soap"@.len() != "httpPost"@.len());
        },
        CommunicationsTransportMethod::Ftp => {
            reveal_strlit("ftp");
            reveal_strlit("httpPost");
            assert("ftp"@.len() != "httpPost"@.len());
            reveal_strlit("soap");
            assert("ftp"@.len() != "soap"@.len());
        },
        CommunicationsTransportMethod::Email => {
            reveal_strlit("email");
            reveal_strlit("httpPost");
            assert("email"@.len() != "httpPost"@.len());
            reveal_strlit("soap");
            assert("email"@.len() != "soap"@.len());
            reveal_strlit("ftp");
            assert("email"@.len() != "ftp"@.len());
        },
        CommunicationsTransportMethod::Unrecognised(_) => {},
    }
}

/// A token the `CompressionMethod` list defines reads back as the value that writes it:
/// `from_token(v.as_str()) == v` for every value `v` other than `Unrecognised`.
pub proof fn law_compression_method_tokens_round_trip(value: CompressionMethod)
    requires
        !(value is Unrecognised),
    ensures
        CompressionMethod::spec_listed(value.spec_token()) == Some(value),
{
    match value {
        CompressionMethod::Uncompressed => {
            reveal_strlit("none");
        },
        CompressionMethod::Gzip => {
            reveal_strlit("gzip");
            reveal_strlit("none");
            assert("gzip"@[0] != "none"@[0]);
        },
        CompressionMethod::Unrecognised(_) => {},
    }
}

/// A token the `CountedFeatureUnit` list defines reads back as the value that writes it:
/// `from_token(v.as_str()) == v` for every value `v` other than `Unrecognised`.
pub proof fn law_counted_feature_unit_tokens_round_trip(value: CountedFeatureUnit)
    requires
        !(value is Unrecognised),
    ensures
        CountedFeatureUnit::spec_listed(value.spec_token()) == Some(value),
{
    match value {
        CountedFeatureUnit::Bays => {
            reveal_strlit("bays");
        },
        CountedFeatureUnit::Seats => {
            reveal_strlit("seats");
            reveal_strlit("bays");
            assert("seats"@.len() != "bays"@.len());
        },
        CountedFeatureUnit::Devices => {
            reveal_strlit("devices");
            reveal_strlit("bays");
            assert("devices"@.len() != "bays"@.len());
            reveal_strlit("seats");
            assert("devices"@.len() != "seats"@.len());
        },
        CountedFeatureUnit::Vehicles => {
            reveal_strlit("vehicles");
            reveal_strlit("bays");
            assert("vehicles"@.len() != "bays"@.len());
            reveal_strlit("seats");
            assert("vehicles"@.len() != "seats"@.len());
            reveal_strlit("devices");
            assert("vehicles"@.len() != "devices"@.len());
        },
        CountedFeatureUnit::KW => {
            reveal_strlit("kW");
            reveal_strlit("bays");
            assert("kW"@.len() != "bays"@.len());
            reveal_strlit("seats");
            assert("kW"@.len() != "seats"@.len());
            reveal_strlit("devices");
            assert("kW"@.len() != "devices"@.len());
            reveal_strlit("vehicles");
            assert("kW"@.len() != "vehicles"@.len());
        },
        CountedFeatureUnit::KWh => {
            reveal_strlit("kWh");
            reveal_strlit("bays");
            assert("kWh"@.len() != "bays"@.len());
            reveal_strlit("seats");
            assert("kWh"@.len() != "seats"@.len());
            reveal_strlit("devices");
            assert("kWh"@.len() != "devices"@.len());
            reveal_strlit("vehicles");
            assert("kWh"@.len() != "vehicles"@.len());
            reveal_strlit("kW");
            assert("kWh"@.len() != "kW"@.len());
        },
        CountedFeatureUnit::Percentage => {
            reveal_strlit("percentage");
            reveal_strlit("bays");
            assert("percentage"@.len() != "bays"@.len());
            reveal_strlit("seats");
            assert("percentage"@.len() != "seats"@.len());
            reveal_strlit("devices");
            assert("percentage"@.len() != "devices"@.len());
            reveal_strlit("vehicles");
            assert("percentage"@.len() != "vehicles"@.len());
            reveal_strlit("kW");
            assert("percentage"@.len() != "kW"@.len());
            reveal_strlit("kWh");
            assert("percentage"@.len() != "kWh"@.len());
        },
        CountedFeatureUnit::Other => {
            reveal_strlit("other");
            reveal_strlit("bays");
            assert("other"@.len() != "bays"@.len());
            reveal_strlit("seats");
            assert("other"@[0] != "seats"@[0]);
            reveal_strlit("devices");
            assert("other"@.len() != "devices"@.len());
            reveal_strlit("vehicles");
            assert("other"@.len() != "vehicles"@.len());
            reveal_strlit("kW");
            assert("other"@.len() != "kW"@.len());
            reveal_strlit("kWh");
            assert("other"@.len() != "kWh"@.len());
            reveal_strlit("percentage");
            assert("other"@.len() != "percentage"@.len());
        },
        CountedFeatureUnit::Unrecognised(_) => {},
    }
}

/// A token the `CountingTrend` list defines reads back as the value that writes it:
/// `from_token(v.as_str()) == v` for every value `v` other than `Unrecognised`.
pub proof fn law_counting_trend_tokens_round_trip(value: CountingTrend)
    requires
        !(value is Unrecognised),
    ensures
        CountingTrend::spec_listed(value.spec_token()) == Some(value),
{
    match value {
        CountingTrend::Unknown => {
            reveal_strlit("unknown");
        },
        CountingTrend::Decreasing => {
            reveal_strlit("decreasing");
            reveal_strlit("unknown");
            assert("decreasing"@.len() != "unknown"@.len());
        },
        CountingTrend::Stable => {
            reveal_strlit("stable");
            reveal_strlit("unknown");
            assert("stable"@.len() != "unknown"@.len());
            reveal_strlit("decreasing");
            assert("stable"@.len() != "decreasing"@.len());
        },
        CountingTrend::Increasing => {
            reveal_strlit("increasing");
            reveal_strlit("unknown");
            assert("increasing"@.len() != "unknown"@.len());
            reveal_strlit("decreasing");
            assert("increasing"@[0] != "decreasing"@[0]);
            reveal_strlit("stable");
            assert("increasing"@.len() != "stable"@.len());
        },
        CountingTrend::Unrecognised(_) => {},
    }
}

/// A token the `CountingType` list defines reads back as the value that writes it:
/// `from_token(v.as_str()) == v` for every value `v` other than `Unrecognised`.
pub proof fn law_counting_type_tokens_round_trip(value: CountingType)
    requires
        !(value is Unrecognised),
    ensures
        CountingType::spec_listed(value.spec_token()) == Some(value),
{
    match value {
        CountingType::AvailabilityCount => {
            reveal_strlit("availabilityCount");
        },
        CountingType::ReservedCount => {
            reveal_strlit("reservedCount");
            reveal_strlit("availabilityCount");
            assert("reservedCount"@.len() != "availabilityCount"@.len());
        },
        CountingType::OutOfOrderCount => {
            reveal_strlit("outOfOrderCount");
            reveal_strlit("availabilityCount");
            assert("outOfOrderCount"@.len() != "availabilityCount"@.len());
            reveal_strlit("reservedCount");
            assert("outOfOrderCount"@.len() != "reservedCount"@.len());
        },
        CountingType::PresentCount => {
            reveal_strlit("presentCount");
            reveal_strlit("availabilityCount");
            assert("presentCount"@.len() != "availabilityCount"@.len());
            reveal_strlit("reservedCount");
            assert("presentCount"@.len() != "reservedCount"@.len());
            reveal_strlit("outOfOrderCount");
            assert("presentCount"@.len() != "outOfOrderCount"@.len());
        },
        CountingType::ChargingLevel => {
            reveal_strlit("chargingLevel");
            reveal_strlit("availabilityCount");
            assert("chargingLevel"@.len() != "availabilityCount"@.len());
            reveal_strlit("reservedCount");
            assert("chargingLevel"@[0] != "reservedCount"@[0]);
            reveal_strlit("outOfOrderCount");
            assert("chargingLevel"@.len() != "outOfOrderCount"@.len());
            reveal_strlit("presentCount");
            assert("chargingLevel"@.len() != "presentCount"@.len());
        },
        CountingType::Unrecognised(_) => {},
    }
}

/// A token the `DaysOfWeek` list defines reads back as the value that writes it:
/// `from_token(v.as_str()) == v` for every value `v` other than `Unrecognised`.
pub proof fn law_days_of_week_tokens_round_trip(value: DaysOfWeek)
    requires
        !(value is Unrecognised),
    ensures
        DaysOfWeek::spec_listed(value.spec_token()) == Some(value),
{
    match value {
        DaysOfWeek::Monday => {
            reveal_strlit("monday");
        },
        DaysOfWeek::Tuesday => {
            reveal_strlit("tuesday");
            reveal_strlit("monday");
            assert("tuesday"@.len() != "monday"@.len());
        },
        DaysOfWeek::Wednesday => {
            reveal_strlit("wednesday");
            reveal_strlit("monday");
            assert("wednesday"@.len() != "monday"@.len());
            reveal_strlit("tuesday");
            assert("wednesday"@.len() != "tuesday"@.len());
        },
        DaysOfWeek::Thursday => {
            reveal_strlit("thursday");
            reveal_strlit("monday");
            assert("thursday"@.len() != "monday"@.len());
            reveal_strlit("tuesday");
            assert("thursday"@.len() != "tuesday"@.len());
            reveal_strlit("wednesday");
            assert("thursday"@.len() != "wednesday"@.len());
        },
        DaysOfWeek::Friday => {
            reveal_strlit("friday");
            reveal_strlit("monday");
            assert("friday"@[0] != "monday"@[0]);
            reveal_strlit("tuesday");
            assert("friday"@.len() != "tuesday"@.len());
            reveal_strlit("wednesday");
            assert("friday"@.len() != "wednesday"@.len());
            reveal_strlit("thursday");
            assert("friday"@.len() != "thursday"@.len());
        },
        DaysOfWeek::Saturday => {
            reveal_strlit("saturday");
            reveal_strlit("monday");
            assert("saturday"@.len() != "monday"@.len());
            reveal_strlit("tuesday");
            assert("saturday"@.len() != "tuesday"@.len());
            reveal_strlit("wednesday");
            assert("saturday"@.len() != "wednesday"@.len());
            reveal_strlit("thursday");
            assert("saturday"@[0] != "thursday"@[0]);
            reveal_strlit("friday");
            assert("saturday"@.len() != "friday"@.len());
        },
        DaysOfWeek::Sunday => {
            reveal_strlit("sunday");
            reveal_strlit("monday");
            assert("sunday"@[0] != "monday"@[0]);
            reveal_strlit("tuesday");
            assert("sunday"@.len() != "tuesday"@.len());
            reveal_strlit("wednesday");
            assert("sunday"@.len() != "wednesday"@.len());
            reveal_strlit("thursday");
            assert("sunday"@.len() != "thursday"@.len());
            reveal_strlit("friday");
            assert("sunday"@[0] != "friday"@[0]);
            reveal_strlit("saturday");
            assert("sunday"@.len() != "saturday"@.len());
        },
        DaysOfWeek::Everyday => {
            reveal_strlit("everyday");
            reveal_strlit("monday");
            assert("everyday"@.len() != "monday"@.len());
            reveal_strlit("tuesday");
            assert("everyday"@.len() != "tuesday"@.len());
            reveal_strlit("wednesday");
            assert("everyday"@.len() != "wednesday"@.len());
            reveal_strlit("thursday");
            assert("everyday"@[0] != "thursday"@[0]);
            reveal_strlit("friday");
            assert("everyday"@.len() != "friday"@.len());
            reveal_strlit("saturday");
            assert("everyday"@[0] != "saturday"@[0]);
            reveal_strlit("sunday");
            assert("everyday"@.len() != "sunday"@.len());
        },
        DaysOfWeek::Weekdays => {
            reveal_strlit("weekdays");
            reveal_strlit("monday");
            assert("weekdays"@.len() != "monday"@.len());
            reveal_strlit("tuesday");
            assert("weekdays"@.len() != "tuesday"@.len());
            reveal_strlit("wednesday");
            assert("weekdays"@.len() != "wednesday"@.len());
            reveal_strlit("thursday");
            assert("weekdays"@[0] != "thursday"@[0]);
            reveal_strlit("friday");
            assert("weekdays"@.len() != "friday"@.len());
            reveal_strlit("saturday");
            assert("weekdays"@[0] != "saturday"@[0]);
            reveal_strlit("sunday");
            assert("weekdays"@.len() != "sunday"@.len());
            reveal_strlit("everyday");
            assert("weekdays"@[0] != "everyday"@[0]);
        },
        DaysOfWeek::Weekend => {
            reveal_strlit("weekend");
            reveal_strlit("monday");
            assert("weekend"@.len() != "monday"@.len());
            reveal_strlit("tuesday");
            assert("weekend"@[0] != "tuesday"@[0]);
            reveal_strlit("wednesday");
            assert("weekend"@.len() != "wednesday"@.len());
            reveal_strlit("thursday");
            assert("weekend"@.len() != "thursday"@.len());
            reveal_strlit("friday");
            assert("weekend"@.len() != "friday"@.len());
            reveal_strlit("saturday");
            assert("weekend"@.len() != "saturday"@.len());
            reveal_strlit("sunday");
            assert("weekend"@.len() != "sunday"@.len());
            reveal_strlit("everyday");
            assert("weekend"@.len() != "everyday"@.len());
            reveal_strlit("weekdays");
            assert("weekend"@.len() != "weekdays"@.len());
        },
        DaysOfWeek::Unrecognised(_) => {},
    }
}

/// A token the `DeliveryMethod` list defines reads back as the value that writes it:
/// `from_token(v.as_str()) == v` for every value `v` other than `Unrecognised`.
pub proof fn law_delivery_method_tokens_round_trip(value: DeliveryMethod)
    requires
        !(value is Unrecognised),
    ensures
        DeliveryMethod::spec_listed(value.spec_token()) == Some(value),
{
    match value {
        DeliveryMethod::Direct => {
            reveal_strlit("direct");
        },
        DeliveryMethod::Fetched => {
            reveal_strlit("fetched");
            reveal_strlit("direct");
            assert("fetched"@.len() != "direct"@.len());
        },
        DeliveryMethod::Unrecognised(_) => {},
    }
}

/// A token the `DepartureBoardingActivity` list defines reads back as the value that writes it:
/// `from_token(v.as_str()) == v` for every value `v` other than `Unrecognised`.
pub proof fn law_departure_boarding_activity_tokens_round_trip(value: DepartureBoardingActivity)
    requires
        !(value is Unrecognised),
    ensures
        DepartureBoardingActivity::spec_listed(value.spec_token()) == Some(value),
{
    match value {
        DepartureBoardingActivity::Boarding => {
            reveal_strlit("boarding");
        },
        DepartureBoardingActivity::NoBoarding => {
            reveal_strlit("noBoarding");
            reveal_strlit("boarding");
            assert("noBoarding"@.len() != "boarding"@.len());
        },
        DepartureBoardingActivity::PassThru => {
            reveal_strlit("passThru");
            reveal_strlit("boarding");
            assert("passThru"@[0] != "boarding"@[0]);
            reveal_strlit("noBoarding");
            assert("passThru"@.len() != "noBoarding"@.len());
        },
        DepartureBoardingActivity::Unrecognised(_) => {},
    }
}

/// A token the `Encumbrance` list defines reads back as the value that writes it:
/// `from_token(v.as_str()) == v` for every value `v` other than `Unrecognised`.
pub proof fn law_encumbrance_tokens_round_trip(value: Encumbrance)
    requires
        !(value is Unrecognised),
    ensures
        Encumbrance::spec_listed(value.spec_token()) == Some(value),
{
    match value {
        Encumbrance::LuggageEncumbered => {
            reveal_strlit("luggageEncumbered");
        },
        Encumbrance::Pushchair => {
            reveal_strlit("pushchair");
            reveal_strlit("luggageEncumbered");
            assert("pushchair"@.len() != "luggageEncumbered"@.len());
        },
        Encumbrance::BaggageTrolley => {
            reveal_strlit("baggageTrolley");
            reveal_strlit("luggageEncumbered");
            assert("baggageTrolley"@.len() != "luggageEncumbered"@.len());
            reveal_strlit("pushchair");
            assert("baggageTrolley"@.len() != "pushchair"@.len());
        },
        Encumbrance::OversizeBaggage => {
            reveal_strlit("oversizeBaggage");
            reveal_strlit("luggageEncumbered");
            assert("oversizeBaggage"@.len() != "luggageEncumbered"@.len());
            reveal_strlit("pushchair");
            assert("oversizeBaggage"@.len() != "pushchair"@.len());
            reveal_strlit("baggageTrolley");
            assert("oversizeBaggage"@.len() != "baggageTrolley"@.len());
        },
        Encumbrance::GuideDog => {
            reveal_strlit("guideDog");
            reveal_strlit("luggageEncumbered");
            assert("guideDog"@.len() != "luggageEncumbered"@.len());
            reveal_strlit("pushchair");
            assert("guideDog"@.len() != "pushchair"@.len());
            reveal_strlit("baggageTrolley");
            assert("guideDog"@.len() != "baggageTrolley"@.len());
            reveal_strlit("oversizeBaggage");
            assert("guideDog"@.len() != "oversizeBaggage"@.len());
        },
        Encumbrance::OtherAnimal => {
            reveal_strlit("otherAnimal");
            reveal_strlit("luggageEncumbered");
            assert("otherAnimal"@.len() != "luggageEncumbered"@.len());
            reveal_strlit("pushchair");
            assert("otherAnimal"@.len() != "pushchair"@.len());
            reveal_strlit("baggageTrolley");
            assert("otherAnimal"@.len() != "baggageTrolley"@.len());
            reveal_strlit("oversizeBaggage");
            assert("otherAnimal"@.len() != "oversizeBaggage"@.len());
            reveal_strlit("guideDog");
            assert("otherAnimal"@.len() != "guideDog"@.len());
        },
        Encumbrance::OtherEncumbrance => {
            reveal_strlit("otherEncumbrance");
            reveal_strlit("luggageEncumbered");
            assert("otherEncumbrance"@.len() != "luggageEncumbered"@.len());
            reveal_strlit("pushchair");
            assert("otherEncumbrance"@.len() != "pushchair"@.len());
            reveal_strlit("baggageTrolley");
            assert("otherEncumbrance"@.len() != "baggageTrolley"@.len());
            reveal_strlit("oversizeBaggage");
            assert("otherEncumbrance"@.len() != "oversizeBaggage"@.len());
            reveal_strlit("guideDog");
            assert("otherEncumbrance"@.len() != "guideDog"@.len());
            reveal_strlit("otherAnimal");
            assert("otherEncumbrance"@.len() != "otherAnimal"@.len());
        },
        Encumbrance::Unrecognised(_) => {},
    }
}

/// A token the `EquipmentStatus` list defines reads back as the value that writes it:
/// `from_token(v.as_str()) == v` for every value `v` other than `Unrecognised`.
pub proof fn law_equipment_status_tokens_round_trip(value: EquipmentStatus)
    requires
        !(value is Unrecognised),
    ensures
        EquipmentStatus::spec_listed(value.spec_token()) == Some(value),
{
    match value {
        EquipmentStatus::Unknown => {
            reveal_strlit("unknown");
        },
        EquipmentStatus::Available => {
            reveal_strlit("available");
            reveal_strlit("unknown");
            assert("available"@.len() != "unknown"@.len());
        },
        EquipmentStatus::NotAvailable => {
            reveal_strlit("notAvailable");
            reveal_strlit("unknown");
            assert("notAvailable"@.len() != "unknown"@.len());
            reveal_strlit("available");
            assert("notAvailable"@.len() != "available"@.len());
        },
        EquipmentStatus::Unrecognised(_) => {},
    }
}

/// A token the `FacilityCategory` list defines reads back as the value that writes it:
/// `from_token(v.as_str()) == v` for every value `v` other than `Unrecognised`.
pub proof fn law_facility_category_tokens_round_trip(value: FacilityCategory)
    requires
        !(value is Unrecognised),
    ensures
        FacilityCategory::spec_listed(value.spec_token()) == Some(value),
{
    match value {
        FacilityCategory::Unknown => {
            reveal_strlit("unknown");
        },
        FacilityCategory::FixedEquipment => {
            reveal_strlit("fixedEquipment");
            reveal_strlit("unknown");
            assert("fixedEquipment"@.len() != "unknown"@.len());
        },
        FacilityCategory::ServiceProvidedByIndividual => {
            reveal_strlit("serviceProvidedByIndividual");
            reveal_strlit("unknown");
            assert("serviceProvidedByIndividual"@.len() != "unknown"@.len());
            reveal_strlit("fixedEquipment");
            assert("serviceProvidedByIndividual"@.len() != "fixedEquipment"@.len());
        },
        FacilityCategory::ServiceForPersonalAssistance => {
            reveal_strlit("serviceForPersonalAssistance");
            reveal_strlit("unknown");
            assert("serviceForPersonalAssistance"@.len() != "unknown"@.len());
            reveal_strlit("fixedEquipment");
            assert("serviceForPersonalAssistance"@.len() != "fixedEquipment"@.len());
            reveal_strlit("serviceProvidedByIndividual");
            assert("serviceForPersonalAssistance"@.len() != "serviceProvidedByIndividual"@.len());
        },
        FacilityCategory::Unrecognised(_) => {},
    }
}

/// A token the `FacilityStatus` list defines reads back as the value that writes it:
/// `from_token(v.as_str()) == v` for every value `v` other than `Unrecognised`.
pub proof fn law_facility_status_tokens_round_trip(value: FacilityStatus)
    requires
        !(value is Unrecognised),
    ensures
        FacilityStatus::spec_listed(value.spec_token()) == Some(value),
{
    match value {
        FacilityStatus::Unknown => {
            reveal_strlit("unknown");
        },
        FacilityStatus::Available => {
            reveal_strlit("available");
            reveal_strlit("unknown");
            assert("available"@.len() != "unknown"@.len());
        },
        FacilityStatus::NotAvailable => {
            reveal_strlit("notAvailable");
            reveal_strlit("unknown");
            assert("notAvailable"@.len() != "unknown"@.len());
            reveal_strlit("available");
            assert("notAvailable"@.len() != "available"@.len());
        },
        FacilityStatus::PartiallyAvailable => {
            reveal_strlit("partiallyAvailable");
            reveal_strlit("unknown");
            assert("partiallyAvailable"@.len() != "unknown"@.len());
            reveal_strlit("available");
            assert("partiallyAvailable"@.len() != "available"@.len());
            reveal_strlit("notAvailable");
            assert("partiallyAvailable"@.len() != "notAvailable"@.len());
        },
        FacilityStatus::Added => {
            reveal_strlit("added");
            reveal_strlit("unknown");
            assert("added"@.len() != "unknown"@.len());
            reveal_strlit("available");
            assert("added"@.len() != "available"@.len());
            reveal_strlit("notAvailable");
            assert("added"@.len() != "notAvailable"@.len());
            reveal_strlit("partiallyAvailable");
            assert("added"@.len() != "partiallyAvailable"@.len());
        },
        FacilityStatus::Removed => {
            reveal_strlit("removed");
            reveal_strlit("unknown");
            assert("removed"@[0] != "unknown"@[0]);
            reveal_strlit("available");
            assert("removed"@.len() != "available"@.len());
            reveal_strlit("notAvailable");
            assert("removed"@.len() != "notAvailable"@.len());
            reveal_strlit("partiallyAvailable");
            assert("removed"@.len() != "partiallyAvailable"@.len());
            reveal_strlit("added");
            assert("removed"@.len() != "added"@.len());
        },
        FacilityStatus::Unrecognised(_) => {},
    }
}

/// A token the `FareClass` list defines reads back as the value that writes it:
/// `from_token(v.as_str()) == v` for every value `v` other than `Unrecognised`.
pub proof fn law_fare_class_tokens_round_trip(value: FareClass)
    requires
        !(value is Unrecognised),
    ensures
        FareClass::spec_listed(value.spec_token()) == Some(value),
{
    match value {
        FareClass::Unknown => {
            reveal_strlit("unknown");
        },
        FareClass::FirstClass => {
            reveal_strlit("firstClass");
            reveal_strlit("unknown");
            assert("firstClass"@.len() != "unknown"@.len());
        },
        FareClass::SecondClass => {
            reveal_strlit("secondClass");
            reveal_strlit("unknown");
            assert("secondClass"@.len() != "unknown"@.len());
            reveal_strlit("firstClass");
            assert("secondClass"@.len() != "firstClass"@.len());
        },
        FareClass::ThirdClass => {
            reveal_strlit("thirdClass");
            reveal_strlit("unknown");
            assert("thirdClass"@.len() != "unknown"@.len());
            reveal_strlit("firstClass");
            assert("thirdClass"@[0] != "firstClass"@[0]);
            reveal_strlit("secondClass");
            assert("thirdClass"@.len() != "secondClass"@.len());
        },
        FareClass::EconomyClass => {
            reveal_strlit("economyClass");
            reveal_strlit("unknown");
            assert("economyClass"@.len() != "unknown"@.len());
            reveal_strlit("firstClass");
            assert("economyClass"@.len() != "firstClass"@.len());
            reveal_strlit("secondClass");
            assert("economyClass"@.len() != "secondClass"@.len());
            reveal_strlit("thirdClass");
            assert("economyClass"@.len() != "thirdClass"@.len());
        },
        FareClass::BusinessClass => {
            reveal_strlit("businessClass");
            reveal_strlit("unknown");
            assert("businessClass"@.len() != "unknown"@.len());
            reveal_strlit("firstClass");
            assert("businessClass"@.len() != "firstClass"@.len());
            reveal_strlit("secondClass");
            assert("businessClass"@.len() != "secondClass"@.len());
            reveal_strlit("thirdClass");
            assert("businessClass"@.len() != "thirdClass"@.len());
            reveal_strlit("economyClass");
            assert("businessClass"@.len() != "economyClass"@.len());
        },
        FareClass::PremiumClass => {
            reveal_strlit("premiumClass");
            reveal_strlit("unknown");
            assert("premiumClass"@.len() != "unknown"@.len());
            reveal_strlit("firstClass");
            assert("premiumClass"@.len() != "firstClass"@.len());
            reveal_strlit("secondClass");
            assert("premiumClass"@.len() != "secondClass"@.len());
            reveal_strlit("thirdClass");
            assert("premiumClass"@.len() != "thirdClass"@.len());
            reveal_strlit("economyClass");
            assert("premiumClass"@[0] != "economyClass"@[0]);
            reveal_strlit("businessClass");
            assert("premiumClass"@.len() != "businessClass"@.len());
        },
        FareClass::Any => {
            reveal_strlit("any");
            reveal_strlit("unknown");
            assert("any"@.len() != "unknown"@.len());
            reveal_strlit("firstClass");
            assert("any"@.len() != "firstClass"@.len());
            reveal_strlit("secondClass");
            assert("any"@.len() != "secondClass"@.len());
            reveal_strlit("thirdClass");
            assert("any"@.len() != "thirdClass"@.len());
            reveal_strlit("economyClass");
            assert("any"@.len() != "economyClass"@.len());
            reveal_strlit("businessClass");
            assert("any"@.len() != "businessClass"@.len());
            reveal_strlit("premiumClass");
            assert("any"@.len() != "premiumClass"@.len());
        },
        FareClass::Unrecognised(_) => {},
    }
}

/// A token the `FareClassFacility` list defines reads back as the value that writes it:
/// `from_token(v.as_str()) == v` for every value `v` other than `Unrecognised`.
pub proof fn law_fare_class_facility_tokens_round_trip(value: FareClassFacility)
    requires
        !(value is Unrecognised),
    ensures
        FareClassFacility::spec_listed(value.spec_token()) == Some(value),
{
    match value {
        FareClassFacility::Unknown => {
            reveal_strlit("unknown");
        },
        FareClassFacility::FirstClass => {
            reveal_strlit("firstClass");
            reveal_strlit("unknown");
            assert("firstClass"@.len() != "unknown"@.len());
        },
        FareClassFacility::SecondClass => {
            reveal_strlit("secondClass");
            reveal_strlit("unknown");
            assert("secondClass"@.len() != "unknown"@.len());
            reveal_strlit("firstClass");
            assert("secondClass"@.len() != "firstClass"@.len());
        },
        FareClassFacility::ThirdClass => {
            reveal_strlit("thirdClass");
            reveal_strlit("unknown");
            assert("thirdClass"@.len() != "unknown"@.len());
            reveal_strlit("firstClass");
            assert("thirdClass"@[0] != "firstClass"@[0]);
            reveal_strlit("secondClass");
            assert("thirdClass"@.len() != "secondClass"@.len());
        },
        FareClassFacility::EconomyClass => {
            reveal_strlit("economyClass");
            reveal_strlit("unknown");
            assert("economyClass"@.len() != "unknown"@.len());
            reveal_strlit("firstClass");
            assert("economyClass"@.len() != "firstClass"@.len());
            reveal_strlit("secondClass");
            assert("economyClass"@.len() != "secondClass"@.len());
            reveal_strlit("thirdClass");
            assert("economyClass"@.len() != "thirdClass"@.len());
        },
        FareClassFacility::BusinessClass => {
            reveal_strlit("businessClass");
            reveal_strlit("unknown");
            assert("businessClass"@.len() != "unknown"@.len());
            reveal_strlit("firstClass");
            assert("businessClass"@.len() != "firstClass"@.len());
            reveal_strlit("secondClass");
            assert("businessClass"@.len() != "secondClass"@.len());
            reveal_strlit("thirdClass");
            assert("businessClass"@.len() != "thirdClass"@.len());
            reveal_strlit("economyClass");
            assert("businessClass"@.len() != "economyClass"@.len());
        },
        FareClassFacility::PremiumClass => {
            reveal_strlit("premiumClass");
            reveal_strlit("unknown");
            assert("premiumClass"@.len() != "unknown"@.len());
            reveal_strlit("firstClass");
            assert("premiumClass"@.len() != "firstClass"@.len());
            reveal_strlit("secondClass");
            assert("premiumClass"@.len() != "secondClass"@.len());
            reveal_strlit("thirdClass");
            assert("premiumClass"@.len() != "thirdClass"@.len());
            reveal_strlit("economyClass");
            assert("premiumClass"@[0] != "economyClass"@[0]);
            reveal_strlit("businessClass");
            assert("premiumClass"@.len() != "businessClass"@.len());
        },
        FareClassFacility::Unrecognised(_) => {},
    }
}

/// A token the `FirstOrLastJourney` list defines reads back as the value that writes it:
/// `from_token(v.as_str()) == v` for every value `v` other than `Unrecognised`.
pub proof fn law_first_or_last_journey_tokens_round_trip(value: FirstOrLastJourney)
    requires
        !(value is Unrecognised),
    ensures
        FirstOrLastJourney::spec_listed(value.spec_token()) == Some(value),
{
    match value {
        FirstOrLastJourney::FirstServiceOfDay => {
            reveal_strlit("firstServiceOfDay");
        },
        FirstOrLastJourney::OtherService => {
            reveal_strlit("otherService");
            reveal_strlit("firstServiceOfDay");
            assert("otherService"@.len() != "firstServiceOfDay"@.len());
        },
        FirstOrLastJourney::LastServiceOfDay => {
            reveal_strlit("lastServiceOfDay");
            reveal_strlit("firstServiceOfDay");
            assert("lastServiceOfDay"@.len() != "firstServiceOfDay"@.len());
            reveal_strlit("otherService");
            assert("lastServiceOfDay"@.len() != "otherService"@.len());
        },
        FirstOrLastJourney::Unspecified => {
            reveal_strlit("unspecified");
            reveal_strlit("firstServiceOfDay");
            assert("unspecified"@.len() != "firstServiceOfDay"@.len());
            reveal_strlit("otherService");
            assert("unspecified"@.len() != "otherService"@.len());
            reveal_strlit("lastServiceOfDay");
            assert("unspecified"@.len() != "lastServiceOfDay"@.len());
        },
        FirstOrLastJourney::Unrecognised(_) => {},
    }
}

/// A token the `FormationChange` list defines reads back as the value that writes it:
/// `from_token(v.as_str()) == v` for every value `v` other than `Unrecognised`.
pub proof fn law_formation_change_tokens_round_trip(value: FormationChange)
    requires
        !(value is Unrecognised),
    ensures
        FormationChange::spec_listed(value.spec_token()) == Some(value),
{
    match value {
        FormationChange::Unknown => {
            reveal_strlit("unknown");
        },
        FormationChange::NormalFormation => {
            reveal_strlit("normalFormation");
            reveal_strlit("unknown");
            assert("normalFormation"@.len() != "unknown"@.len());
        },
        FormationChange::ChangedFormation => {
            reveal_strlit("changedFormation");
            reveal_strlit("unknown");
            assert("changedFormation"@.len() != "unknown"@.len());
            reveal_strlit("normalFormation");
            assert("changedFormation"@.len() != "normalFormation"@.len());
        },
        FormationChange::ReversedFormation => {
            reveal_strlit("reversedFormation");
            reveal_strlit("unknown");
            assert("reversedFormation"@.len() != "unknown"@.len());
            reveal_strlit("normalFormation");
            assert("reversedFormation"@.len() != "normalFormation"@.len());
            reveal_strlit("changedFormation");
            assert("reversedFormation"@.len() != "changedFormation"@.len());
        },
        FormationChange::MissingVehicle => {
            reveal_strlit("missingVehicle");
            reveal_strlit("unknown");
            assert("missingVehicle"@.len() != "unknown"@.len());
            reveal_strlit("normalFormation");
            assert("missingVehicle"@.len() != "normalFormation"@.len());
            reveal_strlit("changedFormation");
            assert("missingVehicle"@.len() != "changedFormation"@.len());
            reveal_strlit("reversedFormation");
            assert("missingVehicle"@.len() != "reversedFormation"@.len());
        },
        FormationChange::AdditionalVehicle => {
            reveal_strlit("additionalVehicle");
            reveal_strlit("unknown");
            assert("additionalVehicle"@.len() != "unknown"@.len());
            reveal_strlit("normalFormation");
            assert("additionalVehicle"@.len() != "normalFormation"@.len());
            reveal_strlit("changedFormation");
            assert("additionalVehicle"@.len() != "changedFormation"@.len());
            reveal_strlit("reversedFormation");
            assert("additionalVehicle"@[0] != "reversedFormation"@[0]);
            reveal_strlit("missingVehicle");
            assert("additionalVehicle"@.len() != "missingVehicle"@.len());
        },
        FormationChange::MissingRestaurantCoach => {
            reveal_strlit("missingRestaurantCoach");
            reveal_strlit("unknown");
            assert("missingRestaurantCoach"@.len() != "unknown"@.len());
            reveal_strlit("normalFormation");
            assert("missingRestaurantCoach"@.len() != "normalFormation"@.len());
            reveal_strlit("changedFormation");
            assert("missingRestaurantCoach"@.len() != "changedFormation"@.len());
            reveal_strlit("reversedFormation");
            assert("missingRestaurantCoach"@.len() != "reversedFormation"@.len());
            reveal_strlit("missingVehicle");
            assert("missingRestaurantCoach"@.len() != "missingVehicle"@.len());
            reveal_strlit("additionalVehicle");
            assert("missingRestaurantCoach"@.len() != "additionalVehicle"@.len());
        },
        FormationChange::Unrecognised(_) => {},
    }
}

/// A token the `HireFacility` list defines reads back as the value that writes it:
/// `from_token(v.as_str()) == v` for every value `v` other than `Unrecognised`.
pub proof fn law_hire_facility_tokens_round_trip(value: HireFacility)
    requires
        !(value is Unrecognised),
    ensures
        HireFacility::spec_listed(value.spec_token()) == Some(value),
{
    match value {
        HireFacility::Unknown => {
            reveal_strlit("unknown");
        },
        HireFacility::ScooterHire => {
            reveal_strlit("scooterHire");
            reveal_strlit("unknown");
            assert("scooterHire"@.len() != "unknown"@.len());
        },
        HireFacility::VehicleHire => {
            reveal_strlit("vehicleHire");
            reveal_strlit("unknown");
            assert("vehicleHire"@.len() != "unknown"@.len());
            reveal_strlit("scooterHire");
            assert("vehicleHire"@[0] != "scooterHire"@[0]);
        },
        HireFacility::CarHire => {
            reveal_strlit("carHire");
            reveal_strlit("unknown");
            assert("carHire"@[0] != "unknown"@[0]);
            reveal_strlit("scooterHire");
            assert("carHire"@.len() != "scooterHire"@.len());
            reveal_strlit("vehicleHire");
            assert("carHire"@.len() != "vehicleHire"@.len());
        },
        HireFacility::MotorCycleHire => {
            reveal_strlit("motorCycleHire");
            reveal_strlit("unknown");
            assert("motorCycleHire"@.len() != "unknown"@.len());
            reveal_strlit("scooterHire");
            assert("motorCycleHire"@.len() != "scooterHire"@.len());
            reveal_strlit("vehicleHire");
            assert("motorCycleHire"@.len() != "vehicleHire"@.len());
            reveal_strlit("carHire");
            assert("motorCycleHire"@.len() != "carHire"@.len());
        },
        HireFacility::CycleHire => {
            reveal_strlit("cycleHire");
            reveal_strlit("unknown");
            assert("cycleHire"@.len() != "unknown"@.len());
            reveal_strlit("scooterHire");
            assert("cycleHire"@.len() != "scooterHire"@.len());
            reveal_strlit("vehicleHire");
            assert("cycleHire"@.len() != "vehicleHire"@.len());
            reveal_strlit("carHire");
            assert("cycleHire"@.len() != "carHire"@.len());
            reveal_strlit("motorCycleHire");
            assert("cycleHire"@.len() != "motorCycleHire"@.len());
        },
        HireFacility::Taxi => {
            reveal_strlit("taxi");
            reveal_strlit("unknown");
            assert("taxi"@.len() != "unknown"@.len());
            reveal_strlit("scooterHire");
            assert("taxi"@.len() != "scooterHire"@.len());
            reveal_strlit("vehicleHire");
            assert("taxi"@.len() != "vehicleHire"@.len());
            reveal_strlit("carHire");
            assert("taxi"@.len() != "carHire"@.len());
            reveal_strlit("motorCycleHire");
            assert("taxi"@.len() != "motorCycleHire"@.len());
            reveal_strlit("cycleHire");
            assert("taxi"@.len() != "cycleHire"@.len());
        },
        HireFacility::RecreationDeviceHire => {
            reveal_strlit("recreationDeviceHire");
            reveal_strlit("unknown");
            assert("recreationDeviceHire"@.len() != "unknown"@.len());
            reveal_strlit("scooterHire");
            assert("recreationDeviceHire"@.len() != "scooterHire"@.len());
            reveal_strlit("vehicleHire");
            assert("recreationDeviceHire"@.len() != "vehicleHire"@.len());
            reveal_strlit("carHire");
            assert("recreationDeviceHire"@.len() != "carHire"@.len());
            reveal_strlit("motorCycleHire");
            assert("recreationDeviceHire"@.len() != "motorCycleHire"@.len());
            reveal_strlit("cycleHire");
            assert("recreationDeviceHire"@.len() != "cycleHire"@.len());
            reveal_strlit("taxi");
            assert("recreationDeviceHire"@.len() != "taxi"@.len());
        },
        HireFacility::Unrecognised(_) => {},
    }
}

/// A token the `HolidayType` list defines reads back as the value that writes it:
/// `from_token(v.as_str()) == v` for every value `v` other than `Unrecognised`.
pub proof fn law_holiday_type_tokens_round_trip(value: HolidayType)
    requires
        !(value is Unrecognised),
    ensures
        HolidayType::spec_listed(value.spec_token()) == Some(value),
{
    match value {
        HolidayType::AnyDay => {
            reveal_strlit("anyDay");
        },
        HolidayType::WorkingDay => {
            reveal_strlit("workingDay");
            reveal_strlit("anyDay");
            assert("workingDay"@.len() != "anyDay"@.len());
        },
        HolidayType::SchoolDay => {
            reveal_strlit("schoolDay");
            reveal_strlit("anyDay");
            assert("schoolDay"@.len() != "anyDay"@.len());
            reveal_strlit("workingDay");
            assert("schoolDay"@.len() != "workingDay"@.len());
        },
        HolidayType::Holiday => {
            reveal_strlit("holiday");
            reveal_strlit("anyDay");
            assert("holiday"@.len() != "anyDay"@.len());
            reveal_strlit("workingDay");
            assert("holiday"@.len() != "workingDay"@.len());
            reveal_strlit("schoolDay");
            assert("holiday"@.len() != "schoolDay"@.len());
        },
        HolidayType::LocalHoliday => {
            reveal_strlit("localHoliday");
            reveal_strlit("anyDay");
            assert("localHoliday"@.len() != "anyDay"@.len());
            reveal_strlit("workingDay");
            assert("localHoliday"@.len() != "workingDay"@.len());
            reveal_strlit("schoolDay");
            assert("localHoliday"@.len() != "schoolDay"@.len());
            reveal_strlit("holiday");
            assert("localHoliday"@.len() != "holiday"@.len());
        },
        HolidayType::RegionalHoliday => {
            reveal_strlit("regionalHoliday");
            reveal_strlit("anyDay");
            assert("regionalHoliday"@.len() != "anyDay"@.len());
            reveal_strlit("workingDay");
            assert("regionalHoliday"@.len() != "workingDay"@.len());
            reveal_strlit("schoolDay");
            assert("regionalHoliday"@.len() != "schoolDay"@.len());
            reveal_strlit("holiday");
            assert("regionalHoliday"@.len() != "holiday"@.len());
            reveal_strlit("localHoliday");
            assert("regionalHoliday"@.len() != "localHoliday"@.len());
        },
        HolidayType::NationalHoliday => {
            reveal_strlit("nationalHoliday");
            reveal_strlit("anyDay");
            assert("nationalHoliday"@.len() != "anyDay"@.len());
            reveal_strlit("workingDay");
            assert("nationalHoliday"@.len() != "workingDay"@.len());
            reveal_strlit("schoolDay");
            assert("nationalHoliday"@.len() != "schoolDay"@.len());
            reveal_strlit("holiday");
            assert("nationalHoliday"@.len() != "holiday"@.len());
            reveal_strlit("localHoliday");
            assert("nationalHoliday"@.len() != "localHoliday"@.len());
            reveal_strlit("regionalHoliday");
            assert("nationalHoliday"@[0] != "regionalHoliday"@[0]);
        },
        HolidayType::Unrecognised(_) => {},
    }
}

/// A token the `InterchangeStatus` list defines reads back as the value that writes it:
/// `from_token(v.as_str()) == v` for every value `v` other than `Unrecognised`.
pub proof fn law_interchange_status_tokens_round_trip(value: InterchangeStatus)
    requires
        !(value is Unrecognised),
    ensures
        InterchangeStatus::spec_listed(value.spec_token()) == Some(value),
{
    match value {
        InterchangeStatus::Unknown => {
            reveal_strlit("unknown");
        },
        InterchangeStatus::Connection => {
            reveal_strlit("connection");
            reveal_strlit("unknown");
            assert("connection"@.len() != "unknown"@.len());
        },
        InterchangeStatus::Replaced => {
            reveal_strlit("replaced");
            reveal_strlit("unknown");
            assert("replaced"@.len() != "unknown"@.len());
            reveal_strlit("connection");
            assert("replaced"@.len() != "connection"@.len());
        },
        InterchangeStatus::Supplement => {
            reveal_strlit("supplement");
            reveal_strlit("unknown");
            assert("supplement"@.len() != "unknown"@.len());
            reveal_strlit("connection");
            assert("supplement"@[0] != "connection"@[0]);
            reveal_strlit("replaced");
            assert("supplement"@.len() != "replaced"@.len());
        },
        InterchangeStatus::Unrecognised(_) => {},
    }
}

/// A token the `JourneyRelationType` list defines reads back as the value that writes it:
/// `from_token(v.as_str()) == v` for every value `v` other than `Unrecognised`.
pub proof fn law_journey_relation_type_tokens_round_trip(value: JourneyRelationType)
    requires
        !(value is Unrecognised),
    ensures
        JourneyRelationType::spec_listed(value.spec_token()) == Some(value),
{
    match value {
        JourneyRelationType::ContinuationOf => {
            reveal_strlit("continuationOf");
        },
        JourneyRelationType::ContinuationOfSameVehicle => {
            reveal_strlit("continuationOfSameVehicle");
            reveal_strlit("continuationOf");
            assert("continuationOfSameVehicle"@.len() != "continuationOf"@.len());
        },
        JourneyRelationType::JoiningOfJourneys => {
            reveal_strlit("joiningOfJourneys");
            reveal_strlit("continuationOf");
            assert("joiningOfJourneys"@.len() != "continuationOf"@.len());
            reveal_strlit("continuationOfSameVehicle");
            assert("joiningOfJourneys"@.len() != "continuationOfSameVehicle"@.len());
        },
        JourneyRelationType::SplittingOfJourneys => {
            reveal_strlit("splittingOfJourneys");
            reveal_strlit("continuationOf");
            assert("splittingOfJourneys"@.len() != "continuationOf"@.len());
            reveal_strlit("continuationOfSameVehicle");
            assert("splittingOfJourneys"@.len() != "continuationOfSameVehicle"@.len());
            reveal_strlit("joiningOfJourneys");
            assert("splittingOfJourneys"@.len() != "joiningOfJourneys"@.len());
        },
        JourneyRelationType::ReplacementOf => {
            reveal_strlit("replacementOf");
            reveal_strlit("continuationOf");
            assert("replacementOf"@.len() != "continuationOf"@.len());
            reveal_strlit("continuationOfSameVehicle");
            assert("replacementOf"@.len() != "continuationOfSameVehicle"@.len());
            reveal_strlit("joiningOfJourneys");
            assert("replacementOf"@.len() != "joiningOfJourneys"@.len());
            reveal_strlit("splittingOfJourneys");
            assert("replacementOf"@.len() != "splittingOfJourneys"@.len());
        },
        JourneyRelationType::PartialReplacementOf => {
            reveal_strlit("partialReplacementOf");
            reveal_strlit("continuationOf");
            assert("partialReplacementOf"@.len() != "continuationOf"@.len());
            reveal_strlit("continuationOfSameVehicle");
            assert("partialReplacementOf"@.len() != "continuationOfSameVehicle"@.len());
            reveal_strlit("joiningOfJourneys");
            assert("partialReplacementOf"@.len() != "joiningOfJourneys"@.len());
            reveal_strlit("splittingOfJourneys");
            assert("partialReplacementOf"@.len() != "splittingOfJourneys"@.len());
            reveal_strlit("replacementOf");
            assert("partialReplacementOf"@.len() != "replacementOf"@.len());
        },
        JourneyRelationType::ReplacedBy => {
            reveal_strlit("replacedBy");
            reveal_strlit("continuationOf");
            assert("replacedBy"@.len() != "continuationOf"@.len());
            reveal_strlit("continuationOfSameVehicle");
            assert("replacedBy"@.len() != "continuationOfSameVehicle"@.len());
            reveal_strlit("joiningOfJourneys");
            assert("replacedBy"@.len() != "joiningOfJourneys"@.len());
            reveal_strlit("splittingOfJourneys");
            assert("replacedBy"@.len() != "splittingOfJourneys"@.len());
            reveal_strlit("replacementOf");
            assert("replacedBy"@.len() != "replacementOf"@.len());
            reveal_strlit("partialReplacementOf");
            assert("replacedBy"@.len() != "partialReplacementOf"@.len());
        },
        JourneyRelationType::Unrecognised(_) => {},
    }
}

/// A token the `LinesDetail` list defines reads back as the value that writes it:
/// `from_token(v.as_str()) == v` for every value `v` other than `Unrecognised`.
pub proof fn law_lines_detail_tokens_round_trip(value: LinesDetail)
    requires
        !(value is Unrecognised),
    ensures
        LinesDetail::spec_listed(value.spec_token()) == Some(value),
{
    match value {
        LinesDetail::Minimum => {
            reveal_strlit("minimum");
        },
        LinesDetail::Normal => {
            reveal_strlit("normal");
            reveal_strlit("minimum");
            assert("normal"@.len() != "minimum"@.len());
        },
        LinesDetail::Stops => {
            reveal_strlit("stops");
            reveal_strlit("minimum");
            assert("stops"@.len() != "minimum"@.len());
            reveal_strlit("normal");
            assert("stops"@.len() != "normal"@.len());
        },
        LinesDetail::Full => {
            reveal_strlit("full");
            reveal_strlit("minimum");
            assert("full"@.len() != "minimum"@.len());
            reveal_strlit("normal");
            assert("full"@.len() != "normal"@.len());
            reveal_strlit("stops");
            assert("full"@.len() != "stops"@.len());
        },
        LinesDetail::Unrecognised(_) => {},
    }
}

/// A token the `LuggageFacility` list defines reads back as the value that writes it:
/// `from_token(v.as_str()) == v` for every value `v` other than `Unrecognised`.
pub proof fn law_luggage_facility_tokens_round_trip(value: LuggageFacility)
    requires
        !(value is Unrecognised),
    ensures
        LuggageFacility::spec_listed(value.spec_token()) == Some(value),
{
    match value {
        LuggageFacility::Unknown => {
            reveal_strlit("unknown");
        },
        LuggageFacility::Pushchairs => {
            reveal_strlit("pushchairs");
            reveal_strlit("unknown");
            assert("pushchairs"@.len() != "unknown"@.len());
        },
        LuggageFacility::BaggageStorage => {
            reveal_strlit("baggageStorage");
            reveal_strlit("unknown");
            assert("baggageStorage"@.len() != "unknown"@.len());
            reveal_strlit("pushchairs");
            assert("baggageStorage"@.len() != "pushchairs"@.len());
        },
        LuggageFacility::LeftLuggage => {
            reveal_strlit("leftLuggage");
            reveal_strlit("unknown");
            assert("leftLuggage"@.len() != "unknown"@.len());
            reveal_strlit("pushchairs");
            assert("leftLuggage"@.len() != "pushchairs"@.len());
            reveal_strlit("baggageStorage");
            assert("leftLuggage"@.len() != "baggageStorage"@.len());
        },
        LuggageFacility::Trolleys => {
            reveal_strlit("trolleys");
            reveal_strlit("unknown");
            assert("trolleys"@.len() != "unknown"@.len());
            reveal_strlit("pushchairs");
            assert("trolleys"@.len() != "pushchairs"@.len());
            reveal_strlit("baggageStorage");
            assert("trolleys"@.len() != "baggageStorage"@.len());
            reveal_strlit("leftLuggage");
            assert("trolleys"@.len() != "leftLuggage"@.len());
        },
        LuggageFacility::Unrecognised(_) => {},
    }
}

/// A token the `MedicalNeed` list defines reads back as the value that writes it:
/// `from_token(v.as_str()) == v` for every value `v` other than `Unrecognised`.
pub proof fn law_medical_need_tokens_round_trip(value: MedicalNeed)
    requires
        !(value is Unrecognised),
    ensures
        MedicalNeed::spec_listed(value.spec_token()) == Some(value),
{
    match value {
        MedicalNeed::Allergic => {
            reveal_strlit("allergic");
        },
        MedicalNeed::HeartCondition => {
            reveal_strlit("heartCondition");
            reveal_strlit("allergic");
            assert("heartCondition"@.len() != "allergic"@.len());
        },
        MedicalNeed::OtherMedicalNeed => {
            reveal_strlit("otherMedicalNeed");
            reveal_strlit("allergic");
            assert("otherMedicalNeed"@.len() != "allergic"@.len());
            reveal_strlit("heartCondition");
            assert("otherMedicalNeed"@.len() != "heartCondition"@.len());
        },
        MedicalNeed::Unrecognised(_) => {},
    }
}

/// A token the `MetroSubmodesOfTransport` list defines reads back as the value that writes it:
/// `from_token(v.as_str()) == v` for every value `v` other than `Unrecognised`.
pub proof fn law_metro_submodes_of_transport_tokens_round_trip(value: MetroSubmodesOfTransport)
    requires
        !(value is Unrecognised),
    ensures
        MetroSubmodesOfTransport::spec_listed(value.spec_token()) == Some(value),
{
    match value {
        MetroSubmodesOfTransport::Unknown => {
            reveal_strlit("unknown");
        },
        MetroSubmodesOfTransport::Undefined => {
            reveal_strlit("undefined");
            reveal_strlit("unknown");
            assert("undefined"@.len() != "unknown"@.len());
        },
        MetroSubmodesOfTransport::Metro => {
            reveal_strlit("metro");
            reveal_strlit("unknown");
            assert("metro"@.len() != "unknown"@.len());
            reveal_strlit("undefined");
            assert("metro"@.len() != "undefined"@.len());
        },
        MetroSubmodesOfTransport::Tube => {
            reveal_strlit("tube");
            reveal_strlit("unknown");
            assert("tube"@.len() != "unknown"@.len());
            reveal_strlit("undefined");
            assert("tube"@.len() != "undefined"@.len());
            reveal_strlit("metro");
            assert("tube"@.len() != "metro"@.len());
        },
        MetroSubmodesOfTransport::UrbanRailway => {
            reveal_strlit("urbanRailway");
            reveal_strlit("unknown");
            assert("urbanRailway"@.len() != "unknown"@.len());
            reveal_strlit("undefined");
            assert("urbanRailway"@.len() != "undefined"@.len());
            reveal_strlit("metro");
            assert("urbanRailway"@.len() != "metro"@.len());
            reveal_strlit("tube");
            assert("urbanRailway"@.len() != "tube"@.len());
        },
        MetroSubmodesOfTransport::Unrecognised(_) => {},
    }
}

/// A token the `Mobility` list defines reads back as the value that writes it:
/// `from_token(v.as_str()) == v` for every value `v` other than `Unrecognised`.
pub proof fn law_mobility_tokens_round_trip(value: Mobility)
    requires
        !(value is Unrecognised),
    ensures
        Mobility::spec_listed(value.spec_token()) == Some(value),
{
    match value {
        Mobility::Wheelchair => {
            reveal_strlit("wheelchair");
        },
        Mobility::AssistedWheelchair => {
            reveal_strlit("assistedWheelchair");
            reveal_strlit("wheelchair");
            assert("assistedWheelchair"@.len() != "wheelchair"@.len());
        },
        Mobility::MotorizedWheelchair => {
            reveal_strlit("motorizedWheelchair");
            reveal_strlit("wheelchair");
            assert("motorizedWheelchair"@.len() != "wheelchair"@.len());
            reveal_strlit("assistedWheelchair");
            assert("motorizedWheelchair"@.len() != "assistedWheelchair"@.len());
        },
        Mobility::WalkingFrame => {
            reveal_strlit("walkingFrame");
            reveal_strlit("wheelchair");
            assert("walkingFrame"@.len() != "wheelchair"@.len());
            reveal_strlit("assistedWheelchair");
            assert("walkingFrame"@.len() != "assistedWheelchair"@.len());
            reveal_strlit("motorizedWheelchair");
            assert("walkingFrame"@.len() != "motorizedWheelchair"@.len());
        },
        Mobility::RestrictedMobility => {
            reveal_strlit("restrictedMobility");
            reveal_strlit("wheelchair");
            assert("restrictedMobility"@.len() != "wheelchair"@.len());
            reveal_strlit("assistedWheelchair");
            assert("restrictedMobility"@[0] != "assistedWheelchair"@[0]);
            reveal_strlit("motorizedWheelchair");
            assert("restrictedMobility"@.len() != "motorizedWheelchair"@.len());
            reveal_strlit("walkingFrame");
            assert("restrictedMobility"@.len() != "walkingFrame"@.len());
        },
        Mobility::OtherMobilityNeed => {
            reveal_strlit("otherMobilityNeed");
            reveal_strlit("wheelchair");
            assert("otherMobilityNeed"@.len() != "wheelchair"@.len());
            reveal_strlit("assistedWheelchair");
            assert("otherMobilityNeed"@.len() != "assistedWheelchair"@.len());
            reveal_strlit("motorizedWheelchair");
            assert("otherMobilityNeed"@.len() != "motorizedWheelchair"@.len());
            reveal_strlit("walkingFrame");
            assert("otherMobilityNeed"@.len() != "walkingFrame"@.len());
            reveal_strlit("restrictedMobility");
            assert("otherMobilityNeed"@.len() != "restrictedMobility"@.len());
        },
        Mobility::Unrecognised(_) => {},
    }
}

/// A token the `MobilityFacility` list defines reads back as the value that writes it:
/// `from_token(v.as_str()) == v` for every value `v` other than `Unrecognised`.
pub proof fn law_mobility_facility_tokens_round_trip(value: MobilityFacility)
    requires
        !(value is Unrecognised),
    ensures
        MobilityFacility::spec_listed(value.spec_token()) == Some(value),
{
    match value {
        MobilityFacility::Unknown => {
            reveal_strlit("unknown");
        },
        MobilityFacility::LowFloor => {
            reveal_strlit("lowFloor");
            reveal_strlit("unknown");
            assert("lowFloor"@.len() != "unknown"@.len());
        },
        MobilityFacility::StepFreeAccess => {
            reveal_strlit("stepFreeAccess");
            reveal_strlit("unknown");
            assert("stepFreeAccess"@.len() != "unknown"@.len());
            reveal_strlit("lowFloor");
            assert("stepFreeAccess"@.len() != "lowFloor"@.len());
        },
        MobilityFacility::SuitableForWheelchairs => {
            reveal_strlit("suitableForWheelchairs");
            reveal_strlit("unknown");
            assert("suitableForWheelchairs"@.len() != "unknown"@.len());
            reveal_strlit("lowFloor");
            assert("suitableForWheelchairs"@.len() != "lowFloor"@.len());
            reveal_strlit("stepFreeAccess");
            assert("suitableForWheelchairs"@.len() != "stepFreeAccess"@.len());
        },
        MobilityFacility::BoardingAssistance => {
            reveal_strlit("boardingAssistance");
            reveal_strlit("unknown");
            assert("boardingAssistance"@.len() != "unknown"@.len());
            reveal_strlit("lowFloor");
            assert("boardingAssistance"@.len() != "lowFloor"@.len());
            reveal_strlit("stepFreeAccess");
            assert("boardingAssistance"@.len() != "stepFreeAccess"@.len());
            reveal_strlit("suitableForWheelchairs");
            assert("boardingAssistance"@.len() != "suitableForWheelchairs"@.len());
        },
        MobilityFacility::OnboardAssistance => {
            reveal_strlit("onboardAssistance");
            reveal_strlit("unknown");
            assert("onboardAssistance"@.len() != "unknown"@.len());
            reveal_strlit("lowFloor");
            assert("onboardAssistance"@.len() != "lowFloor"@.len());
            reveal_strlit("stepFreeAccess");
            assert("onboardAssistance"@.len() != "stepFreeAccess"@.len());
            reveal_strlit("suitableForWheelchairs");
            assert("onboardAssistance"@.len() != "suitableForWheelchairs"@.len());
            reveal_strlit("boardingAssistance");
            assert("onboardAssistance"@.len() != "boardingAssistance"@.len());
        },
        MobilityFacility::UnaccompaniedMinorAssistance => {
            reveal_strlit("unaccompaniedMinorAssistance");
            reveal_strlit("unknown");
            assert("unaccompaniedMinorAssistance"@.len() != "unknown"@.len());
            reveal_strlit("lowFloor");
            assert("unaccompaniedMinorAssistance"@.len() != "lowFloor"@.len());
            reveal_strlit("stepFreeAccess");
            assert("unaccompaniedMinorAssistance"@.len() != "stepFreeAccess"@.len());
            reveal_strlit("suitableForWheelchairs");
            assert("unaccompaniedMinorAssistance"@.len() != "suitableForWheelchairs"@.len());
            reveal_strlit("boardingAssistance");
            assert("unaccompaniedMinorAssistance"@.len() != "boardingAssistance"@.len());
            reveal_strlit("onboardAssistance");
            assert("unaccompaniedMinorAssistance"@.len() != "onboardAssistance"@.len());
        },
        MobilityFacility::TactilePlatformEdges => {
            reveal_strlit("tactilePlatformEdges");
            reveal_strlit("unknown");
            assert("tactilePlatformEdges"@.len() != "unknown"@.len());
            reveal_strlit("lowFloor");
            assert("tactilePlatformEdges"@.len() != "lowFloor"@.len());
            reveal_strlit("stepFreeAccess");
            assert("tactilePlatformEdges"@.len() != "stepFreeAccess"@.len());
            reveal_strlit("suitableForWheelchairs");
            assert("tactilePlatformEdges"@.len() != "suitableForWheelchairs"@.len());
            reveal_strlit("boardingAssistance");
            assert("tactilePlatformEdges"@.len() != "boardingAssistance"@.len());
            reveal_strlit("onboardAssistance");
            assert("tactilePlatformEdges"@.len() != "onboardAssistance"@.len());
            reveal_strlit("unaccompaniedMinorAssistance");
            assert("tactilePlatformEdges"@.len() != "unaccompaniedMinorAssistance"@.len());
        },
        MobilityFacility::TactileGuidingStrips => {
            reveal_strlit("tactileGuidingStrips");
            reveal_strlit("unknown");
            assert("tactileGuidingStrips"@.len() != "unknown"@.len());
            reveal_strlit("lowFloor");
            assert("tactileGuidingStrips"@.len() != "lowFloor"@.len());
            reveal_strlit("stepFreeAccess");
            assert("tactileGuidingStrips"@.len() != "stepFreeAccess"@.len());
            reveal_strlit("suitableForWheelchairs");
            assert("tactileGuidingStrips"@.len() != "suitableForWheelchairs"@.len());
            reveal_strlit("boardingAssistance");
            assert("tactileGuidingStrips"@.len() != "boardingAssistance"@.len());
            reveal_strlit("onboardAssistance");
            assert("tactileGuidingStrips"@.len() != "onboardAssistance"@.len());
            reveal_strlit("unaccompaniedMinorAssistance");
            assert("tactileGuidingStrips"@.len() != "unaccompaniedMinorAssistance"@.len());
            reveal_strlit("tactilePlatformEdges");
            assert("tactileGuidingStrips"@[7] != "tactilePlatformEdges"@[7]);
        },
        MobilityFacility::Unrecognised(_) => {},
    }
}

/// A token the `MonitoringType` list defines reads back as the value that writes it:
/// `from_token(v.as_str()) == v` for every value `v` other than `Unrecognised`.
pub proof fn law_monitoring_type_tokens_round_trip(value: MonitoringType)
    requires
        !(value is Unrecognised),
    ensures
        MonitoringType::spec_listed(value.spec_token()) == Some(value),
{
    match value {
        MonitoringType::Unknown => {
            reveal_strlit("unknown");
        },
        MonitoringType::Manual => {
            reveal_strlit("manual");
            reveal_strlit("unknown");
            assert("manual"@.len() != "unknown"@.len());
        },
        MonitoringType::Automatic => {
            reveal_strlit("automatic");
            reveal_strlit("unknown");
            assert("automatic"@.len() != "unknown"@.len());
            reveal_strlit("manual");
            assert("automatic"@.len() != "manual"@.len());
        },
        MonitoringType::Unrecognised(_) => {},
    }
}

/// A token the `NuisanceFacility` list defines reads back as the value that writes it:
/// `from_token(v.as_str()) == v` for every value `v` other than `Unrecognised`.
pub proof fn law_nuisance_facility_tokens_round_trip(value: NuisanceFacility)
    requires
        !(value is Unrecognised),
    ensures
        NuisanceFacility::spec_listed(value.spec_token()) == Some(value),
{
    match value {
        NuisanceFacility::Unknown => {
            reveal_strlit("unknown");
        },
        NuisanceFacility::Smoking => {
            reveal_strlit("smoking");
            reveal_strlit("unknown");
            assert("smoking"@[0] != "unknown"@[0]);
        },
        NuisanceFacility::NoSmoking => {
            reveal_strlit("noSmoking");
            reveal_strlit("unknown");
            assert("noSmoking"@.len() != "unknown"@.len());
            reveal_strlit("smoking");
            assert("noSmoking"@.len() != "smoking"@.len());
        },
        NuisanceFacility::MobilePhoneUseZone => {
            reveal_strlit("mobilePhoneUseZone");
            reveal_strlit("unknown");
            assert("mobilePhoneUseZone"@.len() != "unknown"@.len());
            reveal_strlit("smoking");
            assert("mobilePhoneUseZone"@.len() != "smoking"@.len());
            reveal_strlit("noSmoking");
            assert("mobilePhoneUseZone"@.len() != "noSmoking"@.len());
        },
        NuisanceFacility::MobilePhoneFreeZone => {
            reveal_strlit("mobilePhoneFreeZone");
            reveal_strlit("unknown");
            assert("mobilePhoneFreeZone"@.len() != "unknown"@.len());
            reveal_strlit("smoking");
            assert("mobilePhoneFreeZone"@.len() != "smoking"@.len());
            reveal_strlit("noSmoking");
            assert("mobilePhoneFreeZone"@.len() != "noSmoking"@.len());
            reveal_strlit("mobilePhoneUseZone");
            assert("mobilePhoneFreeZone"@.len() != "mobilePhoneUseZone"@.len());
        },
        NuisanceFacility::FamilyArea => {
            reveal_strlit("familyArea");
            reveal_strlit("unknown");
            assert("familyArea"@.len() != "unknown"@.len());
            reveal_strlit("smoking");
            assert("familyArea"@.len() != "smoking"@.len());
            reveal_strlit("noSmoking");
            assert("familyArea"@.len() != "noSmoking"@.len());
            reveal_strlit("mobilePhoneUseZone");
            assert("familyArea"@.len() != "mobilePhoneUseZone"@.len());
            reveal_strlit("mobilePhoneFreeZone");
            assert("familyArea"@.len() != "mobilePhoneFreeZone"@.len());
        },
        NuisanceFacility::ChildfreeArea => {
            reveal_strlit("childfreeArea");
            reveal_strlit("unknown");
            assert("childfreeArea"@.len() != "unknown"@.len());
            reveal_strlit("smoking");
            assert("childfreeArea"@.len() != "smoking"@.len());
            reveal_strlit("noSmoking");
            assert("childfreeArea"@.len() != "noSmoking"@.len());
            reveal_strlit("mobilePhoneUseZone");
            assert("childfreeArea"@.len() != "mobilePhoneUseZone"@.len());
            reveal_strlit("mobilePhoneFreeZone");
            assert("childfreeArea"@.len() != "mobilePhoneFreeZone"@.len());
            reveal_strlit("familyArea");
            assert("childfreeArea"@.len() != "familyArea"@.len());
        },
        NuisanceFacility::Unrecognised(_) => {},
    }
}

/// A token the `Occupancy` list defines reads back as the value that writes it:
/// `from_token(v.as_str()) == v` for every value `v` other than `Unrecognised`.
pub proof fn law_occupancy_tokens_round_trip(value: Occupancy)
    requires
        !(value is Unrecognised),
    ensures
        Occupancy::spec_listed(value.spec_token()) == Some(value),
{
    match value {
        Occupancy::Unknown => {
            reveal_strlit("unknown");
        },
        Occupancy::Empty => {
            reveal_strlit("empty");
            reveal_strlit("unknown");
            assert("empty"@.len() != "unknown"@.len());
        },
        Occupancy::ManySeatsAvailable => {
            reveal_strlit("manySeatsAvailable");
            reveal_strlit("unknown");
            assert("manySeatsAvailable"@.len() != "unknown"@.len());
            reveal_strlit("empty");
            assert("manySeatsAvailable"@.len() != "empty"@.len());
        },
        Occupancy::FewSeatsAvailable => {
            reveal_strlit("fewSeatsAvailable");
            reveal_strlit("unknown");
            assert("fewSeatsAvailable"@.len() != "unknown"@.len());
            reveal_strlit("empty");
            assert("fewSeatsAvailable"@.len() != "empty"@.len());
            reveal_strlit("manySeatsAvailable");
            assert("fewSeatsAvailable"@.len() != "manySeatsAvailable"@.len());
        },
        Occupancy::StandingRoomOnly => {
            reveal_strlit("standingRoomOnly");
            reveal_strlit("unknown");
            assert("standingRoomOnly"@.len() != "unknown"@.len());
            reveal_strlit("empty");
            assert("standingRoomOnly"@.len() != "empty"@.len());
            reveal_strlit("manySeatsAvailable");
            assert("standingRoomOnly"@.len() != "manySeatsAvailable"@.len());
            reveal_strlit("fewSeatsAvailable");
            assert("standingRoomOnly"@.len() != "fewSeatsAvailable"@.len());
        },
        Occupancy::CrushedStandingRoomOnly => {
            reveal_strlit("crushedStandingRoomOnly");
            reveal_strlit("unknown");
            assert("crushedStandingRoomOnly"@.len() != "unknown"@.len());
            reveal_strlit("empty");
            assert("crushedStandingRoomOnly"@.len() != "empty"@.len());
            reveal_strlit("manySeatsAvailable");
            assert("crushedStandingRoomOnly"@.len() != "manySeatsAvailable"@.len());
            reveal_strlit("fewSeatsAvailable");
            assert("crushedStandingRoomOnly"@.len() != "fewSeatsAvailable"@.len());
            reveal_strlit("standingRoomOnly");
            assert("crushedStandingRoomOnly"@.len() != "standingRoomOnly"@.len());
        },
        Occupancy::Full => {
            reveal_strlit("full");
            reveal_strlit("unknown");
            assert("full"@.len() != "unknown"@.len());
            reveal_strlit("empty");
            assert("full"@.len() != "empty"@.len());
            reveal_strlit("manySeatsAvailable");
            assert("full"@.len() != "manySeatsAvailable"@.len());
            reveal_strlit("fewSeatsAvailable");
            assert("full"@.len() != "fewSeatsAvailable"@.len());
            reveal_strlit("standingRoomOnly");
            assert("full"@.len() != "standingRoomOnly"@.len());
            reveal_strlit("crushedStandingRoomOnly");
            assert("full"@.len() != "crushedStandingRoomOnly"@.len());
        },
        Occupancy::NotAcceptingPassengers => {
            reveal_strlit("notAcceptingPassengers");
            reveal_strlit("unknown");
            assert("notAcceptingPassengers"@.len() != "unknown"@.len());
            reveal_strlit("empty");
            assert("notAcceptingPassengers"@.len() != "empty"@.len());
            reveal_strlit("manySeatsAvailable");
            assert("notAcceptingPassengers"@.len() != "manySeatsAvailable"@.len());
            reveal_strlit("fewSeatsAvailable");
            assert("notAcceptingPassengers"@.len() != "fewSeatsAvailable"@.len());
            reveal_strlit("standingRoomOnly");
            assert("notAcceptingPassengers"@.len() != "standingRoomOnly"@.len());
            reveal_strlit("crushedStandingRoomOnly");
            assert("notAcceptingPassengers"@.len() != "crushedStandingRoomOnly"@.len());
            reveal_strlit("full");
            assert("notAcceptingPassengers"@.len() != "full"@.len());
        },
        Occupancy::SeatsAvailable => {
            reveal_strlit("seatsAvailable");
            reveal_strlit("unknown");
            assert("seatsAvailable"@.len() != "unknown"@.len());
            reveal_strlit("empty");
            assert("seatsAvailable"@.len() != "empty"@.len());
            reveal_strlit("manySeatsAvailable");
            assert("seatsAvailable"@.len() != "manySeatsAvailable"@.len());
            reveal_strlit("fewSeatsAvailable");
            assert("seatsAvailable"@.len() != "fewSeatsAvailable"@.len());
            reveal_strlit("standingRoomOnly");
            assert("seatsAvailable"@.len() != "standingRoomOnly"@.len());
            reveal_strlit("crushedStandingRoomOnly");
            assert("seatsAvailable"@.len() != "crushedStandingRoomOnly"@.len());
            reveal_strlit("full");
            assert("seatsAvailable"@.len() != "full"@.len());
            reveal_strlit("notAcceptingPassengers");
            assert("seatsAvailable"@.len() != "notAcceptingPassengers"@.len());
        },
        Occupancy::StandingAvailable => {
            reveal_strlit("standingAvailable");
            reveal_strlit("unknown");
            assert("standingAvailable"@.len() != "unknown"@.len());
            reveal_strlit("empty");
            assert("standingAvailable"@.len() != "empty"@.len());
            reveal_strlit("manySeatsAvailable");
            assert("standingAvailable"@.len() != "manySeatsAvailable"@.len());
            reveal_strlit("fewSeatsAvailable");
            assert("standingAvailable"@[0] != "fewSeatsAvailable"@[0]);
            reveal_strlit("standingRoomOnly");
            assert("standingAvailable"@.len() != "standingRoomOnly"@.len());
            reveal_strlit("crushedStandingRoomOnly");
            assert("standingAvailable"@.len() != "crushedStandingRoomOnly"@.len());
            reveal_strlit("full");
            assert("standingAvailable"@.len() != "full"@.len());
            reveal_strlit("notAcceptingPassengers");
            assert("standingAvailable"@.len() != "notAcceptingPassengers"@.len());
            reveal_strlit("seatsAvailable");
            assert("standingAvailable"@.len() != "seatsAvailable"@.len());
        },
        Occupancy::Unrecognised(_) => {},
    }
}

/// A token the `ParkingFacility` list defines reads back as the value that writes it:
/// `from_token(v.as_str()) == v` for every value `v` other than `Unrecognised`.
pub proof fn law_parking_facility_tokens_round_trip(value: ParkingFacility)
    requires
        !(value is Unrecognised),
    ensures
        ParkingFacility::spec_listed(value.spec_token()) == Some(value),
{
    match value {
        ParkingFacility::Unknown => {
            reveal_strlit("unknown");
        },
        ParkingFacility::CarPark => {
            reveal_strlit("carPark");
            reveal_strlit("unknown");
            assert("carPark"@[0] != "unknown"@[0]);
        },
        ParkingFacility::ParkAndRidePark => {
            reveal_strlit("parkAndRidePark");
            reveal_strlit("unknown");
            assert("parkAndRidePark"@.len() != "unknown"@.len());
            reveal_strlit("carPark");
            assert("parkAndRidePark"@.len() != "carPark"@.len());
        },
        ParkingFacility::MotorcyclePark => {
            reveal_strlit("motorcyclePark");
            reveal_strlit("unknown");
            assert("motorcyclePark"@.len() != "unknown"@.len());
            reveal_strlit("carPark");
            assert("motorcyclePark"@.len() != "carPark"@.len());
            reveal_strlit("parkAndRidePark");
            assert("motorcyclePark"@.len() != "parkAndRidePark"@.len());
        },
        ParkingFacility::CyclePark => {
            reveal_strlit("cyclePark");
            reveal_strlit("unknown");
            assert("cyclePark"@.len() != "unknown"@.len());
            reveal_strlit("carPark");
            assert("cyclePark"@.len() != "carPark"@.len());
            reveal_strlit("parkAndRidePark");
            assert("cyclePark"@.len() != "parkAndRidePark"@.len());
            reveal_strlit("motorcyclePark");
            assert("cyclePark"@.len() != "motorcyclePark"@.len());
        },
        ParkingFacility::RentalCarPark => {
            reveal_strlit("rentalCarPark");
            reveal_strlit("unknown");
            assert("rentalCarPark"@.len() != "unknown"@.len());
            reveal_strlit("carPark");
            assert("rentalCarPark"@.len() != "carPark"@.len());
            reveal_strlit("parkAndRidePark");
            assert("rentalCarPark"@.len() != "parkAndRidePark"@.len());
            reveal_strlit("motorcyclePark");
            assert("rentalCarPark"@.len() != "motorcyclePark"@.len());
            reveal_strlit("cyclePark");
            assert("rentalCarPark"@.len() != "cyclePark"@.len());
        },
        ParkingFacility::CoachPark => {
            reveal_strlit("coachPark");
            reveal_strlit("unknown");
            assert("coachPark"@.len() != "unknown"@.len());
            reveal_strlit("carPark");
            assert("coachPark"@.len() != "carPark"@.len());
            reveal_strlit("parkAndRidePark");
            assert("coachPark"@.len() != "parkAndRidePark"@.len());
            reveal_strlit("motorcyclePark");
            assert("coachPark"@.len() != "motorcyclePark"@.len());
            reveal_strlit("cyclePark");
            assert("coachPark"@[1] != "cyclePark"@[1]);
            reveal_strlit("rentalCarPark");
            assert("coachPark"@.len() != "rentalCarPark"@.len());
        },
        ParkingFacility::Unrecognised(_) => {},
    }
}

/// A token the `PassengerCommsFacility` list defines reads back as the value that writes it:
/// `from_token(v.as_str()) == v` for every value `v` other than `Unrecognised`.
pub proof fn law_passenger_comms_facility_tokens_round_trip(value: PassengerCommsFacility)
    requires
        !(value is Unrecognised),
    ensures
        PassengerCommsFacility::spec_listed(value.spec_token()) == Some(value),
{
    match value {
        PassengerCommsFacility::Unknown => {
            reveal_strlit("unknown");
        },
        PassengerCommsFacility::FreeWifi => {
            reveal_strlit("freeWifi");
            reveal_strlit("unknown");
            assert("freeWifi"@.len() != "unknown"@.len());
        },
        PassengerCommsFacility::PublicWifi => {
            reveal_strlit("publicWifi");
            reveal_strlit("unknown");
            assert("publicWifi"@.len() != "unknown"@.len());
            reveal_strlit("freeWifi");
            assert("publicWifi"@.len() != "freeWifi"@.len());
        },
        PassengerCommsFacility::PowerSupplySockets => {
            reveal_strlit("powerSupplySockets");
            reveal_strlit("unknown");
            assert("powerSupplySockets"@.len() != "unknown"@.len());
            reveal_strlit("freeWifi");
            assert("powerSupplySockets"@.len() != "freeWifi"@.len());
            reveal_strlit("publicWifi");
            assert("powerSupplySockets"@.len() != "publicWifi"@.len());
        },
        PassengerCommsFacility::Telephone => {
            reveal_strlit("telephone");
            reveal_strlit("unknown");
            assert("telephone"@.len() != "unknown"@.len());
            reveal_strlit("freeWifi");
            assert("telephone"@.len() != "freeWifi"@.len());
            reveal_strlit("publicWifi");
            assert("telephone"@.len() != "publicWifi"@.len());
            reveal_strlit("powerSupplySockets");
            assert("telephone"@.len() != "powerSupplySockets"@.len());
        },
        PassengerCommsFacility::AudioEntertainment => {
            reveal_strlit("audioEntertainment");
            reveal_strlit("unknown");
            assert("audioEntertainment"@.len() != "unknown"@.len());
            reveal_strlit("freeWifi");
            assert("audioEntertainment"@.len() != "freeWifi"@.len());
            reveal_strlit("publicWifi");
            assert("audioEntertainment"@.len() != "publicWifi"@.len());
            reveal_strlit("powerSupplySockets");
            assert("audioEntertainment"@[0] != "powerSupplySockets"@[0]);
            reveal_strlit("telephone");
            assert("audioEntertainment"@.len() != "telephone"@.len());
        },
        PassengerCommsFacility::VideoEntertainment => {
            reveal_strlit("videoEntertainment");
            reveal_strlit("unknown");
            assert("videoEntertainment"@.len() != "unknown"@.len());
            reveal_strlit("freeWifi");
            assert("videoEntertainment"@.len() != "freeWifi"@.len());
            reveal_strlit("publicWifi");
            assert("videoEntertainment"@.len() != "publicWifi"@.len());
            reveal_strlit("powerSupplySockets");
            assert("videoEntertainment"@[0] != "powerSupplySockets"@[0]);
            reveal_strlit("telephone");
            assert("videoEntertainment"@.len() != "telephone"@.len());
            reveal_strlit("audioEntertainment");
            assert("videoEntertainment"@[0] != "audioEntertainment"@[0]);
        },
        PassengerCommsFacility::BusinessServices => {
            reveal_strlit("businessServices");
            reveal_strlit("unknown");
            assert("businessServices"@.len() != "unknown"@.len());
            reveal_strlit("freeWifi");
            assert("businessServices"@.len() != "freeWifi"@.len());
            reveal_strlit("publicWifi");
            assert("businessServices"@.len() != "publicWifi"@.len());
            reveal_strlit("powerSupplySockets");
            assert("businessServices"@.len() != "powerSupplySockets"@.len());
            reveal_strlit("telephone");
            assert("businessServices"@.len() != "telephone"@.len());
            reveal_strlit("audioEntertainment");
            assert("businessServices"@.len() != "audioEntertainment"@.len());
            reveal_strlit("videoEntertainment");
            assert("businessServices"@.len() != "videoEntertainment"@.len());
        },
        PassengerCommsFacility::Internet => {
            reveal_strlit("internet");
            reveal_strlit("unknown");
            assert("internet"@.len() != "unknown"@.len());
            reveal_strlit("freeWifi");
            assert("internet"@[0] != "freeWifi"@[0]);
            reveal_strlit("publicWifi");
            assert("internet"@.len() != "publicWifi"@.len());
            reveal_strlit("powerSupplySockets");
            assert("internet"@.len() != "powerSupplySockets"@.len());
            reveal_strlit("telephone");
            assert("internet"@.len() != "telephone"@.len());
            reveal_strlit("audioEntertainment");
            assert("internet"@.len() != "audioEntertainment"@.len());
            reveal_strlit("videoEntertainment");
            assert("internet"@.len() != "videoEntertainment"@.len());
            reveal_strlit("businessServices");
            assert("internet"@.len() != "businessServices"@.len());
        },
        PassengerCommsFacility::Postoffice => {
            reveal_strlit("postoffice");
            reveal_strlit("unknown");
            assert("postoffice"@.len() != "unknown"@.len());
            reveal_strlit("freeWifi");
            assert("postoffice"@.len() != "freeWifi"@.len());
            reveal_strlit("publicWifi");
            assert("postoffice"@[1] != "publicWifi"@[1]);
            reveal_strlit("powerSupplySockets");
            assert("postoffice"@.len() != "powerSupplySockets"@.len());
            reveal_strlit("telephone");
            assert("postoffice"@.len() != "telephone"@.len());
            reveal_strlit("audioEntertainment");
            assert("postoffice"@.len() != "audioEntertainment"@.len());
            reveal_strlit("videoEntertainment");
            assert("postoffice"@.len() != "videoEntertainment"@.len());
            reveal_strlit("businessServices");
            assert("postoffice"@.len() != "businessServices"@.len());
            reveal_strlit("internet");
            assert("postoffice"@.len() != "internet"@.len());
        },
        PassengerCommsFacility::Postbox => {
            reveal_strlit("postbox");
            reveal_strlit("unknown");
            assert("postbox"@[0] != "unknown"@[0]);
            reveal_strlit("freeWifi");
            assert("postbox"@.len() != "freeWifi"@.len());
            reveal_strlit("publicWifi");
            assert("postbox"@.len() != "publicWifi"@.len());
            reveal_strlit("powerSupplySockets");
            assert("postbox"@.len() != "powerSupplySockets"@.len());
            reveal_strlit("telephone");
            assert("postbox"@.len() != "telephone"@.len());
            reveal_strlit("audioEntertainment");
            assert("postbox"@.len() != "audioEntertainment"@.len());
            reveal_strlit("videoEntertainment");
            assert("postbox"@.len() != "videoEntertainment"@.len());
            reveal_strlit("businessServices");
            assert("postbox"@.len() != "businessServices"@.len());
            reveal_strlit("internet");
            assert("postbox"@.len() != "internet"@.len());
            reveal_strlit("postoffice");
            assert("postbox"@.len() != "postoffice"@.len());
        },
        PassengerCommsFacility::Unrecognised(_) => {},
    }
}

/// A token the `PassengerInformationFacility` list defines reads back as the value that writes it:
/// `from_token(v.as_str()) == v` for every value `v` other than `Unrecognised`.
pub proof fn law_passenger_information_facility_tokens_round_trip(value: PassengerInformationFacility)
    requires
        !(value is Unrecognised),
    ensures
        PassengerInformationFacility::spec_listed(value.spec_token()) == Some(value),
{
    match value {
        PassengerInformationFacility::NextStopIndicator => {
            reveal_strlit("nextStopIndicator");
        },
        PassengerInformationFacility::StopAnnouncements => {
            reveal_strlit("stopAnnouncements");
            reveal_strlit("nextStopIndicator");
            assert("stopAnnouncements"@[0] != "nextStopIndicator"@[0]);
        },
        PassengerInformationFacility::PassengerInformationDisplay => {
            reveal_strlit("passengerInformationDisplay");
            reveal_strlit("nextStopIndicator");
            assert("passengerInformationDisplay"@.len() != "nextStopIndicator"@.len());
            reveal_strlit("stopAnnouncements");
            assert("passengerInformationDisplay"@.len() != "stopAnnouncements"@.len());
        },
        PassengerInformationFacility::RealTimeConnections => {
            reveal_strlit("realTimeConnections");
            reveal_strlit("nextStopIndicator");
            assert("realTimeConnections"@.len() != "nextStopIndicator"@.len());
            reveal_strlit("stopAnnouncements");
            assert("realTimeConnections"@.len() != "stopAnnouncements"@.len());
            reveal_strlit("passengerInformationDisplay");
            assert("realTimeConnections"@.len() != "passengerInformationDisplay"@.len());
        },
        PassengerInformationFacility::Other => {
            reveal_strlit("other");
            reveal_strlit("nextStopIndicator");
            assert("other"@.len() != "nextStopIndicator"@.len());
            reveal_strlit("stopAnnouncements");
            assert("other"@.len() != "stopAnnouncements"@.len());
            reveal_strlit("passengerInformationDisplay");
            assert("other"@.len() != "passengerInformationDisplay"@.len());
            reveal_strlit("realTimeConnections");
            assert("other"@.len() != "realTimeConnections"@.len());
        },
        PassengerInformationFacility::Unrecognised(_) => {},
    }
}

/// A token the `PredictionInaccurateReason` list defines reads back as the value that writes it:
/// `from_token(v.as_str()) == v` for every value `v` other than `Unrecognised`.
pub proof fn law_prediction_inaccurate_reason_tokens_round_trip(value: PredictionInaccurateReason)
    requires
        !(value is Unrecognised),
    ensures
        PredictionInaccurateReason::spec_listed(value.spec_token()) == Some(value),
{
    match value {
        PredictionInaccurateReason::Unknown => {
            reveal_strlit("unknown");
        },
        PredictionInaccurateReason::TrafficJam => {
            reveal_strlit("trafficJam");
            reveal_strlit("unknown");
            assert("trafficJam"@.len() != "unknown"@.len());
        },
        PredictionInaccurateReason::TechnicalProblem => {
            reveal_strlit("technicalProblem");
            reveal_strlit("unknown");
            assert("technicalProblem"@.len() != "unknown"@.len());
            reveal_strlit("trafficJam");
            assert("technicalProblem"@.len() != "trafficJam"@.len());
        },
        PredictionInaccurateReason::DespatchingIntervention => {
            reveal_strlit("despatchingIntervention");
            reveal_strlit("unknown");
            assert("despatchingIntervention"@.len() != "unknown"@.len());
            reveal_strlit("trafficJam");
            assert("despatchingIntervention"@.len() != "trafficJam"@.len());
            reveal_strlit("technicalProblem");
            assert("despatchingIntervention"@.len() != "technicalProblem"@.len());
        },
        PredictionInaccurateReason::CommunicationProblem => {
            reveal_strlit("communicationProblem");
            reveal_strlit("unknown");
            assert("communicationProblem"@.len() != "unknown"@.len());
            reveal_strlit("trafficJam");
            assert("communicationProblem"@.len() != "trafficJam"@.len());
            reveal_strlit("technicalProblem");
            assert("communicationProblem"@.len() != "technicalProblem"@.len());
            reveal_strlit("despatchingIntervention");
            assert("communicationProblem"@.len() != "despatchingIntervention"@.len());
        },
        PredictionInaccurateReason::Other => {
            reveal_strlit("other");
            reveal_strlit("unknown");
            assert("other"@.len() != "unknown"@.len());
            reveal_strlit("trafficJam");
            assert("other"@.len() != "trafficJam"@.len());
            reveal_strlit("technicalProblem");
            assert("other"@.len() != "technicalProblem"@.len());
            reveal_strlit("despatchingIntervention");
            assert("other"@.len() != "despatchingIntervention"@.len());
            reveal_strlit("communicationProblem");
            assert("other"@.len() != "communicationProblem"@.len());
        },
        PredictionInaccurateReason::Unrecognised(_) => {},
    }
}

/// A token the `Predictors` list defines reads back as the value that writes it:
/// `from_token(v.as_str()) == v` for every value `v` other than `Unrecognised`.
pub proof fn law_predictors_tokens_round_trip(value: Predictors)
    requires
        !(value is Unrecognised),
    ensures
        Predictors::spec_listed(value.spec_token()) == Some(value),
{
    match value {
        Predictors::AvmsOnly => {
            reveal_strlit("avmsOnly");
        },
        Predictors::Anyone => {
            reveal_strlit("anyone");
            reveal_strlit("avmsOnly");
            assert("anyone"@.len() != "avmsOnly"@.len());
        },
        Predictors::Unrecognised(_) => {},
    }
}

/// A token the `ProgressRate` list defines reads back as the value that writes it:
/// `from_token(v.as_str()) == v` for every value `v` other than `Unrecognised`.
pub proof fn law_progress_rate_tokens_round_trip(value: ProgressRate)
    requires
        !(value is Unrecognised),
    ensures
        ProgressRate::spec_listed(value.spec_token()) == Some(value),
{
    match value {
        ProgressRate::NoProgress => {
            reveal_strlit("noProgress");
        },
        ProgressRate::SlowProgress => {
            reveal_strlit("slowProgress");
            reveal_strlit("noProgress");
            assert("slowProgress"@.len() != "noProgress"@.len());
        },
        ProgressRate::NormalProgress => {
            reveal_strlit("normalProgress");
            reveal_strlit("noProgress");
            assert("normalProgress"@.len() != "noProgress"@.len());
            reveal_strlit("slowProgress");
            assert("normalProgress"@.len() != "slowProgress"@.len());
        },
        ProgressRate::FastProgress => {
            reveal_strlit("fastProgress");
            reveal_strlit("noProgress");
            assert("fastProgress"@.len() != "noProgress"@.len());
            reveal_strlit("slowProgress");
            assert("fastProgress"@[0] != "slowProgress"@[0]);
            reveal_strlit("normalProgress");
            assert("fastProgress"@.len() != "normalProgress"@.len());
        },
        ProgressRate::Unknown => {
            reveal_strlit("unknown");
            reveal_strlit("noProgress");
            assert("unknown"@.len() != "noProgress"@.len());
            reveal_strlit("slowProgress");
            assert("unknown"@.len() != "slowProgress"@.len());
            reveal_strlit("normalProgress");
            assert("unknown"@.len() != "normalProgress"@.len());
            reveal_strlit("fastProgress");
            assert("unknown"@.len() != "fastProgress"@.len());
        },
        ProgressRate::Unrecognised(_) => {},
    }
}

/// A token the `PyschosensoryNeed` list defines reads back as the value that writes it:
/// `from_token(v.as_str()) == v` for every value `v` other than `Unrecognised`.
pub proof fn law_pyschosensory_need_tokens_round_trip(value: PyschosensoryNeed)
    requires
        !(value is Unrecognised),
    ensures
        PyschosensoryNeed::spec_listed(value.spec_token()) == Some(value),
{
    match value {
        PyschosensoryNeed::VisualImpairment => {
            reveal_strlit("visualImpairment");
        },
        PyschosensoryNeed::AuditoryImpairment => {
            reveal_strlit("auditoryImpairment");
            reveal_strlit("visualImpairment");
            assert("auditoryImpairment"@.len() != "visualImpairment"@.len());
        },
        PyschosensoryNeed::CognitiveInputImpairment => {
            reveal_strlit("cognitiveInputImpairment");
            reveal_strlit("visualImpairment");
            assert("cognitiveInputImpairment"@.len() != "visualImpairment"@.len());
            reveal_strlit("auditoryImpairment");
            assert("cognitiveInputImpairment"@.len() != "auditoryImpairment"@.len());
        },
        PyschosensoryNeed::AverseToLifts => {
            reveal_strlit("averseToLifts");
            reveal_strlit("visualImpairment");
            assert("averseToLifts"@.len() != "visualImpairment"@.len());
            reveal_strlit("auditoryImpairment");
            assert("averseToLifts"@.len() != "auditoryImpairment"@.len());
            reveal_strlit("cognitiveInputImpairment");
            assert("averseToLifts"@.len() != "cognitiveInputImpairment"@.len());
        },
        PyschosensoryNeed::AverseToEscalators => {
            reveal_strlit("averseToEscalators");
            reveal_strlit("visualImpairment");
            assert("averseToEscalators"@.len() != "visualImpairment"@.len());
            reveal_strlit("auditoryImpairment");
            assert("averseToEscalators"@[1] != "auditoryImpairment"@[1]);
            reveal_strlit("cognitiveInputImpairment");
            assert("averseToEscalators"@.len() != "cognitiveInputImpairment"@.len());
            reveal_strlit("averseToLifts");
            assert("averseToEscalators"@.len() != "averseToLifts"@.len());
        },
        PyschosensoryNeed::AverseToConfinedSpaces => {
            reveal_strlit("averseToConfinedSpaces");
            reveal_strlit("visualImpairment");
            assert("averseToConfinedSpaces"@.len() != "visualImpairment"@.len());
            reveal_strlit("auditoryImpairment");
            assert("averseToConfinedSpaces"@.len() != "auditoryImpairment"@.len());
            reveal_strlit("cognitiveInputImpairment");
            assert("averseToConfinedSpaces"@.len() != "cognitiveInputImpairment"@.len());
            reveal_strlit("averseToLifts");
            assert("averseToConfinedSpaces"@.len() != "averseToLifts"@.len());
            reveal_strlit("averseToEscalators");
            assert("averseToConfinedSpaces"@.len() != "averseToEscalators"@.len());
        },
        PyschosensoryNeed::AverseToCrowds => {
            reveal_strlit("averseToCrowds");
            reveal_strlit("visualImpairment");
            assert("averseToCrowds"@.len() != "visualImpairment"@.len());
            reveal_strlit("auditoryImpairment");
            assert("averseToCrowds"@.len() != "auditoryImpairment"@.len());
            reveal_strlit("cognitiveInputImpairment");
            assert("averseToCrowds"@.len() != "cognitiveInputImpairment"@.len());
            reveal_strlit("averseToLifts");
            assert("averseToCrowds"@.len() != "averseToLifts"@.len());
            reveal_strlit("averseToEscalators");
            assert("averseToCrowds"@.len() != "averseToEscalators"@.len());
            reveal_strlit("averseToConfinedSpaces");
            assert("averseToCrowds"@.len() != "averseToConfinedSpaces"@.len());
        },
        PyschosensoryNeed::OtherPsychosensoryNeed => {
            reveal_strlit("otherPsychosensoryNeed");
            reveal_strlit("visualImpairment");
            assert("otherPsychosensoryNeed"@.len() != "visualImpairment"@.len());
            reveal_strlit("auditoryImpairment");
            assert("otherPsychosensoryNeed"@.len() != "auditoryImpairment"@.len());
            reveal_strlit("cognitiveInputImpairment");
            assert("otherPsychosensoryNeed"@.len() != "cognitiveInputImpairment"@.len());
            reveal_strlit("averseToLifts");
            assert("otherPsychosensoryNeed"@.len() != "averseToLifts"@.len());
            reveal_strlit("averseToEscalators");
            assert("otherPsychosensoryNeed"@.len() != "averseToEscalators"@.len());
            reveal_strlit("averseToConfinedSpaces");
            assert("otherPsychosensoryNeed"@[0] != "averseToConfinedSpaces"@[0]);
            reveal_strlit("averseToCrowds");
            assert("otherPsychosensoryNeed"@.len() != "averseToCrowds"@.len());
        },
        PyschosensoryNeed::Unrecognised(_) => {},
    }
}

/// A token the `QualityIndex` list defines reads back as the value that writes it:
/// `from_token(v.as_str()) == v` for every value `v` other than `Unrecognised`.
pub proof fn law_quality_index_tokens_round_trip(value: QualityIndex)
    requires
        !(value is Unrecognised),
    ensures
        QualityIndex::spec_listed(value.spec_token()) == Some(value),
{
    match value {
        QualityIndex::Certain => {
            reveal_strlit("certain");
        },
        QualityIndex::VeryReliable => {
            reveal_strlit("veryReliable");
            reveal_strlit("certain");
            assert("veryReliable"@.len() != "certain"@.len());
        },
        QualityIndex::Reliable => {
            reveal_strlit("reliable");
            reveal_strlit("certain");
            assert("reliable"@.len() != "certain"@.len());
            reveal_strlit("veryReliable");
            assert("reliable"@.len() != "veryReliable"@.len());
        },
        QualityIndex::ProbablyReliable => {
            reveal_strlit("probablyReliable");
            reveal_strlit("certain");
            assert("probablyReliable"@.len() != "certain"@.len());
            reveal_strlit("veryReliable");
            assert("probablyReliable"@.len() != "veryReliable"@.len());
            reveal_strlit("reliable");
            assert("probablyReliable"@.len() != "reliable"@.len());
        },
        QualityIndex::Unconfirmed => {
            reveal_strlit("unconfirmed");
            reveal_strlit("certain");
            assert("unconfirmed"@.len() != "certain"@.len());
            reveal_strlit("veryReliable");
            assert("unconfirmed"@.len() != "veryReliable"@.len());
            reveal_strlit("reliable");
            assert("unconfirmed"@.len() != "reliable"@.len());
            reveal_strlit("probablyReliable");
            assert("unconfirmed"@.len() != "probablyReliable"@.len());
        },
        QualityIndex::Unrecognised(_) => {},
    }
}

/// A token the `RailSubmodesOfTransport` list defines reads back as the value that writes it:
/// `from_token(v.as_str()) == v` for every value `v` other than `Unrecognised`.
pub proof fn law_rail_submodes_of_transport_tokens_round_trip(value: RailSubmodesOfTransport)
    requires
        !(value is Unrecognised),
    ensures
        RailSubmodesOfTransport::spec_listed(value.spec_token()) == Some(value),
{
    match value {
        RailSubmodesOfTransport::Unknown => {
            reveal_strlit("unknown");
        },
        RailSubmodesOfTransport::Local => {
            reveal_strlit("local");
            reveal_strlit("unknown");
            assert("local"@.len() != "unknown"@.len());
        },
        RailSubmodesOfTransport::HighSpeedRail => {
            reveal_strlit("highSpeedRail");
            reveal_strlit("unknown");
            assert("highSpeedRail"@.len() != "unknown"@.len());
            reveal_strlit("local");
            assert("highSpeedRail"@.len() != "local"@.len());
        },
        RailSubmodesOfTransport::SuburbanRailway => {
            reveal_strlit("suburbanRailway");
            reveal_strlit("unknown");
            assert("suburbanRailway"@.len() != "unknown"@.len());
            reveal_strlit("local");
            assert("suburbanRailway"@.len() != "local"@.len());
            reveal_strlit("highSpeedRail");
            assert("suburbanRailway"@.len() != "highSpeedRail"@.len());
        },
        RailSubmodesOfTransport::RegionalRail => {
            reveal_strlit("regionalRail");
            reveal_strlit("unknown");
            assert("regionalRail"@.len() != "unknown"@.len());
            reveal_strlit("local");
            assert("regionalRail"@.len() != "local"@.len());
            reveal_strlit("highSpeedRail");
            assert("regionalRail"@.len() != "highSpeedRail"@.len());
            reveal_strlit("suburbanRailway");
            assert("regionalRail"@.len() != "suburbanRailway"@.len());
        },
        RailSubmodesOfTransport::InterregionalRail => {
            reveal_strlit("interregionalRail");
            reveal_strlit("unknown");
            assert("interregionalRail"@.len() != "unknown"@.len());
            reveal_strlit("local");
            assert("interregionalRail"@.len() != "local"@.len());
            reveal_strlit("highSpeedRail");
            assert("interregionalRail"@.len() != "highSpeedRail"@.len());
            reveal_strlit("suburbanRailway");
            assert("interregionalRail"@.len() != "suburbanRailway"@.len());
            reveal_strlit("regionalRail");
            assert("interregionalRail"@.len() != "regionalRail"@.len());
        },
        RailSubmodesOfTransport::LongDistance => {
            reveal_strlit("longDistance");
            reveal_strlit("unknown");
            assert("longDistance"@.len() != "unknown"@.len());
            reveal_strlit("local");
            assert("longDistance"@.len() != "local"@.len());
            reveal_strlit("highSpeedRail");
            assert("longDistance"@.len() != "highSpeedRail"@.len());
            reveal_strlit("suburbanRailway");
            assert("longDistance"@.len() != "suburbanRailway"@.len());
            reveal_strlit("regionalRail");
            assert("longDistance"@[0] != "regionalRail"@[0]);
            reveal_strlit("interregionalRail");
            assert("longDistance"@.len() != "interregionalRail"@.len());
        },
        RailSubmodesOfTransport::International => {
            reveal_strlit("international");
            reveal_strlit("unknown");
            assert("international"@.len() != "unknown"@.len());
            reveal_strlit("local");
            assert("international"@.len() != "local"@.len());
            reveal_strlit("highSpeedRail");
            assert("international"@[0] != "highSpeedRail"@[0]);
            reveal_strlit("suburbanRailway");
            assert("international"@.len() != "suburbanRailway"@.len());
            reveal_strlit("regionalRail");
            assert("international"@.len() != "regionalRail"@.len());
            reveal_strlit("interregionalRail");
            assert("international"@.len() != "interregionalRail"@.len());
            reveal_strlit("longDistance");
            assert("international"@.len() != "longDistance"@.len());
        },
        RailSubmodesOfTransport::SleeperRailService => {
            reveal_strlit("sleeperRailService");
            reveal_strlit("unknown");
            assert("sleeperRailService"@.len() != "unknown"@.len());
            reveal_strlit("local");
            assert("sleeperRailService"@.len() != "local"@.len());
            reveal_strlit("highSpeedRail");
            assert("sleeperRailService"@.len() != "highSpeedRail"@.len());
            reveal_strlit("suburbanRailway");
            assert("sleeperRailService"@.len() != "suburbanRailway"@.len());
            reveal_strlit("regionalRail");
            assert("sleeperRailService"@.len() != "regionalRail"@.len());
            reveal_strlit("interregionalRail");
            assert("sleeperRailService"@.len() != "interregionalRail"@.len());
            reveal_strlit("longDistance");
            assert("sleeperRailService"@.len() != "longDistance"@.len());
            reveal_strlit("international");
            assert("sleeperRailService"@.len() != "international"@.len());
        },
        RailSubmodesOfTransport::NightRail => {
            reveal_strlit("nightRail");
            reveal_strlit("unknown");
            assert("nightRail"@.len() != "unknown"@.len());
            reveal_strlit("local");
            assert("nightRail"@.len() != "local"@.len());
            reveal_strlit("highSpeedRail");
            assert("nightRail"@.len() != "highSpeedRail"@.len());
            reveal_strlit("suburbanRailway");
            assert("nightRail"@.len() != "suburbanRailway"@.len());
            reveal_strlit("regionalRail");
            assert("nightRail"@.len() != "regionalRail"@.len());
            reveal_strlit("interregionalRail");
            assert("nightRail"@.len() != "interregionalRail"@.len());
            reveal_strlit("longDistance");
            assert("nightRail"@.len() != "longDistance"@.len());
            reveal_strlit("international");
            assert("nightRail"@.len() != "international"@.len());
            reveal_strlit("sleeperRailService");
            assert("nightRail"@.len() != "sleeperRailService"@.len());
        },
        RailSubmodesOfTransport::CarTransportRailService => {
            reveal_strlit("carTransportRailService");
            reveal_strlit("unknown");
            assert("carTransportRailService"@.len() != "unknown"@.len());
            reveal_strlit("local");
            assert("carTransportRailService"@.len() != "local"@.len());
            reveal_strlit("highSpeedRail");
            assert("carTransportRailService"@.len() != "highSpeedRail"@.len());
            reveal_strlit("suburbanRailway");
            assert("carTransportRailService"@.len() != "suburbanRailway"@.len());
            reveal_strlit("regionalRail");
            assert("carTransportRailService"@.len() != "regionalRail"@.len());
            reveal_strlit("interregionalRail");
            assert("carTransportRailService"@.len() != "interregionalRail"@.len());
            reveal_strlit("longDistance");
            assert("carTransportRailService"@.len() != "longDistance"@.len());
            reveal_strlit("international");
            assert("carTransportRailService"@.len() != "international"@.len());
            reveal_strlit("sleeperRailService");
            assert("carTransportRailService"@.len() != "sleeperRailService"@.len());
            reveal_strlit("nightRail");
            assert("carTransportRailService"@.len() != "nightRail"@.len());
        },
        RailSubmodesOfTransport::TouristRailway => {
            reveal_strlit("touristRailway");
            reveal_strlit("unknown");
            assert("touristRailway"@.len() != "unknown"@.len());
            reveal_strlit("local");
            assert("touristRailway"@.len() != "local"@.len());
            reveal_strlit("highSpeedRail");
            assert("touristRailway"@.len() != "highSpeedRail"@.len());
            reveal_strlit("suburbanRailway");
            assert("touristRailway"@.len() != "suburbanRailway"@.len());
            reveal_strlit("regionalRail");
            assert("touristRailway"@.len() != "regionalRail"@.len());
            reveal_strlit("interregionalRail");
            assert("touristRailway"@.len() != "interregionalRail"@.len());
            reveal_strlit("longDistance");
            assert("touristRailway"@.len() != "longDistance"@.len());
            reveal_strlit("international");
            assert("touristRailway"@.len() != "international"@.len());
            reveal_strlit("sleeperRailService");
            assert("touristRailway"@.len() != "sleeperRailService"@.len());
            reveal_strlit("nightRail");
            assert("touristRailway"@.len() != "nightRail"@.len());
            reveal_strlit("carTransportRailService");
            assert("touristRailway"@.len() != "carTransportRailService"@.len());
        },
        RailSubmodesOfTransport::RailShuttle => {
            reveal_strlit("railShuttle");
            reveal_strlit("unknown");
            assert("railShuttle"@.len() != "unknown"@.len());
            reveal_strlit("local");
            assert("railShuttle"@.len() != "local"@.len());
            reveal_strlit("highSpeedRail");
            assert("railShuttle"@.len() != "highSpeedRail"@.len());
            reveal_strlit("suburbanRailway");
            assert("railShuttle"@.len() != "suburbanRailway"@.len());
            reveal_strlit("regionalRail");
            assert("railShuttle"@.len() != "regionalRail"@.len());
            reveal_strlit("interregionalRail");
            assert("railShuttle"@.len() != "interregionalRail"@.len());
            reveal_strlit("longDistance");
            assert("railShuttle"@.len() != "longDistance"@.len());
            reveal_strlit("international");
            assert("railShuttle"@.len() != "international"@.len());
            reveal_strlit("sleeperRailService");
            assert("railShuttle"@.len() != "sleeperRailService"@.len());
            reveal_strlit("nightRail");
            assert("railShuttle"@.len() != "nightRail"@.len());
            reveal_strlit("carTransportRailService");
            assert("railShuttle"@.len() != "carTransportRailService"@.len());
            reveal_strlit("touristRailway");
            assert("railShuttle"@.len() != "touristRailway"@.len());
        },
        RailSubmodesOfTransport::ReplacementRailService => {
            reveal_strlit("replacementRailService");
            reveal_strlit("unknown");
            assert("replacementRailService"@.len() != "unknown"@.len());
            reveal_strlit("local");
            assert("replacementRailService"@.len() != "local"@.len());
            reveal_strlit("highSpeedRail");
            assert("replacementRailService"@.len() != "highSpeedRail"@.len());
            reveal_strlit("suburbanRailway");
            assert("replacementRailService"@.len() != "suburbanRailway"@.len());
            reveal_strlit("regionalRail");
            assert("replacementRailService"@.len() != "regionalRail"@.len());
            reveal_strlit("interregionalRail");
            assert("replacementRailService"@.len() != "interregionalRail"@.len());
            reveal_strlit("longDistance");
            assert("replacementRailService"@.len() != "longDistance"@.len());
            reveal_strlit("international");
            assert("replacementRailService"@.len() != "international"@.len());
            reveal_strlit("sleeperRailService");
            assert("replacementRailService"@.len() != "sleeperRailService"@.len());
            reveal_strlit("nightRail");
            assert("replacementRailService"@.len() != "nightRail"@.len());
            reveal_strlit("carTransportRailService");
            assert("replacementRailService"@.len() != "carTransportRailService"@.len());
            reveal_strlit("touristRailway");
            assert("replacementRailService"@.len() != "touristRailway"@.len());
            reveal_strlit("railShuttle");
            assert("replacementRailService"@.len() != "railShuttle"@.len());
        },
        RailSubmodesOfTransport::SpecialTrain => {
            reveal_strlit("specialTrain");
            reveal_strlit("unknown");
            assert("specialTrain"@.len() != "unknown"@.len());
            reveal_strlit("local");
            assert("specialTrain"@.len() != "local"@.len());
            reveal_strlit("highSpeedRail");
            assert("specialTrain"@.len() != "highSpeedRail"@.len());
            reveal_strlit("suburbanRailway");
            assert("specialTrain"@.len() != "suburbanRailway"@.len());
            reveal_strlit("regionalRail");
            assert("specialTrain"@[0] != "regionalRail"@[0]);
            reveal_strlit("interregionalRail");
            assert("specialTrain"@.len() != "interregionalRail"@.len());
            reveal_strlit("longDistance");
            assert("specialTrain"@[0] != "longDistance"@[0]);
            reveal_strlit("international");
            assert("specialTrain"@.len() != "international"@.len());
            reveal_strlit("sleeperRailService");
            assert("specialTrain"@.len() != "sleeperRailService"@.len());
            reveal_strlit("nightRail");
            assert("specialTrain"@.len() != "nightRail"@.len());
            reveal_strlit("carTransportRailService");
            assert("specialTrain"@.len() != "carTransportRailService"@.len());
            reveal_strlit("touristRailway");
            assert("specialTrain"@.len() != "touristRailway"@.len());
            reveal_strlit("railShuttle");
            assert("specialTrain"@.len() != "railShuttle"@.len());
            reveal_strlit("replacementRailService");
            assert("specialTrain"@.len() != "replacementRailService"@.len());
        },
        RailSubmodesOfTransport::CrossCountryRail => {
            reveal_strlit("crossCountryRail");
            reveal_strlit("unknown");
            assert("crossCountryRail"@.len() != "unknown"@.len());
            reveal_strlit("local");
            assert("crossCountryRail"@.len() != "local"@.len());
            reveal_strlit("highSpeedRail");
            assert("crossCountryRail"@.len() != "highSpeedRail"@.len());
            reveal_strlit("suburbanRailway");
            assert("crossCountryRail"@.len() != "suburbanRailway"@.len());
            reveal_strlit("regionalRail");
            assert("crossCountryRail"@.len() != "regionalRail"@.len());
            reveal_strlit("interregionalRail");
            assert("crossCountryRail"@.len() != "interregionalRail"@.len());
            reveal_strlit("longDistance");
            assert("crossCountryRail"@.len() != "longDistance"@.len());
            reveal_strlit("international");
            assert("crossCountryRail"@.len() != "international"@.len());
            reveal_strlit("sleeperRailService");
            assert("crossCountryRail"@.len() != "sleeperRailService"@.len());
            reveal_strlit("nightRail");
            assert("crossCountryRail"@.len() != "nightRail"@.len());
            reveal_strlit("carTransportRailService");
            assert("crossCountryRail"@.len() != "carTransportRailService"@.len());
            reveal_strlit("touristRailway");
            assert("crossCountryRail"@.len() != "touristRailway"@.len());
            reveal_strlit("railShuttle");
            assert("crossCountryRail"@.len() != "railShuttle"@.len());
            reveal_strlit("replacementRailService");
            assert("crossCountryRail"@.len() != "replacementRailService"@.len());
            reveal_strlit("specialTrain");
            assert("crossCountryRail"@.len() != "specialTrain"@.len());
        },
        RailSubmodesOfTransport::RackAndPinionRailway => {
            reveal_strlit("rackAndPinionRailway");
            reveal_strlit("unknown");
            assert("rackAndPinionRailway"@.len() != "unknown"@.len());
            reveal_strlit("local");
            assert("rackAndPinionRailway"@.len() != "local"@.len());
            reveal_strlit("highSpeedRail");
            assert("rackAndPinionRailway"@.len() != "highSpeedRail"@.len());
            reveal_strlit("suburbanRailway");
            assert("rackAndPinionRailway"@.len() != "suburbanRailway"@.len());
            reveal_strlit("regionalRail");
            assert("rackAndPinionRailway"@.len() != "regionalRail"@.len());
            reveal_strlit("interregionalRail");
            assert("rackAndPinionRailway"@.len() != "interregionalRail"@.len());
            reveal_strlit("longDistance");
            assert("rackAndPinionRailway"@.len() != "longDistance"@.len());
            reveal_strlit("international");
            assert("rackAndPinionRailway"@.len() != "international"@.len());
            reveal_strlit("sleeperRailService");
            assert("rackAndPinionRailway"@.len() != "sleeperRailService"@.len());
            reveal_strlit("nightRail");
            assert("rackAndPinionRailway"@.len() != "nightRail"@.len());
            reveal_strlit("carTransportRailService");
            assert("rackAndPinionRailway"@.len() != "carTransportRailService"@.len());
            reveal_strlit("touristRailway");
            assert("rackAndPinionRailway"@.len() != "touristRailway"@.len());
            reveal_strlit("railShuttle");
            assert("rackAndPinionRailway"@.len() != "railShuttle"@.len());
            reveal_strlit("replacementRailService");
            assert("rackAndPinionRailway"@.len() != "replacementRailService"@.len());
            reveal_strlit("specialTrain");
            assert("rackAndPinionRailway"@.len() != "specialTrain"@.len());
            reveal_strlit("crossCountryRail");
            assert("rackAndPinionRailway"@.len() != "crossCountryRail"@.len());
        },
        RailSubmodesOfTransport::Unrecognised(_) => {},
    }
}

/// A token the `RefreshmentFacility` list defines reads back as the value that writes it:
/// `from_token(v.as_str()) == v` for every value `v` other than `Unrecognised`.
pub proof fn law_refreshment_facility_tokens_round_trip(value: RefreshmentFacility)
    requires
        !(value is Unrecognised),
    ensures
        RefreshmentFacility::spec_listed(value.spec_token()) == Some(value),
{
    match value {
        RefreshmentFacility::Unknown => {
            reveal_strlit("unknown");
        },
        RefreshmentFacility::Restaurant => {
            reveal_strlit("restaurant");
            reveal_strlit("unknown");
            assert("restaurant"@.len() != "unknown"@.len());
        },
        RefreshmentFacility::Snacks => {
            reveal_strlit("snacks");
            reveal_strlit("unknown");
            assert("snacks"@.len() != "unknown"@.len());
            reveal_strlit("restaurant");
            assert("snacks"@.len() != "restaurant"@.len());
        },
        RefreshmentFacility::Trolley => {
            reveal_strlit("trolley");
            reveal_strlit("unknown");
            assert("trolley"@[0] != "unknown"@[0]);
            reveal_strlit("restaurant");
            assert("trolley"@.len() != "restaurant"@.len());
            reveal_strlit("snacks");
            assert("trolley"@.len() != "snacks"@.len());
        },
        RefreshmentFacility::Bar => {
            reveal_strlit("bar");
            reveal_strlit("unknown");
            assert("bar"@.len() != "unknown"@.len());
            reveal_strlit("restaurant");
            assert("bar"@.len() != "restaurant"@.len());
            reveal_strlit("snacks");
            assert("bar"@.len() != "snacks"@.len());
            reveal_strlit("trolley");
            assert("bar"@.len() != "trolley"@.len());
        },
        RefreshmentFacility::FoodNotAvailable => {
            reveal_strlit("foodNotAvailable");
            reveal_strlit("unknown");
            assert("foodNotAvailable"@.len() != "unknown"@.len());
            reveal_strlit("restaurant");
            assert("foodNotAvailable"@.len() != "restaurant"@.len());
            reveal_strlit("snacks");
            assert("foodNotAvailable"@.len() != "snacks"@.len());
            reveal_strlit("trolley");
            assert("foodNotAvailable"@.len() != "trolley"@.len());
            reveal_strlit("bar");
            assert("foodNotAvailable"@.len() != "bar"@.len());
        },
        RefreshmentFacility::BeveragesNotAvailable => {
            reveal_strlit("beveragesNotAvailable");
            reveal_strlit("unknown");
            assert("beveragesNotAvailable"@.len() != "unknown"@.len());
            reveal_strlit("restaurant");
            assert("beveragesNotAvailable"@.len() != "restaurant"@.len());
            reveal_strlit("snacks");
            assert("beveragesNotAvailable"@.len() != "snacks"@.len());
            reveal_strlit("trolley");
            assert("beveragesNotAvailable"@.len() != "trolley"@.len());
            reveal_strlit("bar");
            assert("beveragesNotAvailable"@.len() != "bar"@.len());
            reveal_strlit("foodNotAvailable");
            assert("beveragesNotAvailable"@.len() != "foodNotAvailable"@.len());
        },
        RefreshmentFacility::Bistro => {
            reveal_strlit("bistro");
            reveal_strlit("unknown");
            assert("bistro"@.len() != "unknown"@.len());
            reveal_strlit("restaurant");
            assert("bistro"@.len() != "restaurant"@.len());
            reveal_strlit("snacks");
            assert("bistro"@[0] != "snacks"@[0]);
            reveal_strlit("trolley");
            assert("bistro"@.len() != "trolley"@.len());
            reveal_strlit("bar");
            assert("bistro"@.len() != "bar"@.len());
            reveal_strlit("foodNotAvailable");
            assert("bistro"@.len() != "foodNotAvailable"@.len());
            reveal_strlit("beveragesNotAvailable");
            assert("bistro"@.len() != "beveragesNotAvailable"@.len());
        },
        RefreshmentFacility::FoodVendor => {
            reveal_strlit("foodVendor");
            reveal_strlit("unknown");
            assert("foodVendor"@.len() != "unknown"@.len());
            reveal_strlit("restaurant");
            assert("foodVendor"@[0] != "restaurant"@[0]);
            reveal_strlit("snacks");
            assert("foodVendor"@.len() != "snacks"@.len());
            reveal_strlit("trolley");
            assert("foodVendor"@.len() != "trolley"@.len());
            reveal_strlit("bar");
            assert("foodVendor"@.len() != "bar"@.len());
            reveal_strlit("foodNotAvailable");
            assert("foodVendor"@.len() != "foodNotAvailable"@.len());
            reveal_strlit("beveragesNotAvailable");
            assert("foodVendor"@.len() != "beveragesNotAvailable"@.len());
            reveal_strlit("bistro");
            assert("foodVendor"@.len() != "bistro"@.len());
        },
        RefreshmentFacility::CoffeeShop => {
            reveal_strlit("coffeeShop");
            reveal_strlit("unknown");
            assert("coffeeShop"@.len() != "unknown"@.len());
            reveal_strlit("restaurant");
            assert("coffeeShop"@[0] != "restaurant"@[0]);
            reveal_strlit("snacks");
            assert("coffeeShop"@.len() != "snacks"@.len());
            reveal_strlit("trolley");
            assert("coffeeShop"@.len() != "trolley"@.len());
            reveal_strlit("bar");
            assert("coffeeShop"@.len() != "bar"@.len());
            reveal_strlit("foodNotAvailable");
            assert("coffeeShop"@.len() != "foodNotAvailable"@.len());
            reveal_strlit("beveragesNotAvailable");
            assert("coffeeShop"@.len() != "beveragesNotAvailable"@.len());
            reveal_strlit("bistro");
            assert("coffeeShop"@.len() != "bistro"@.len());
            reveal_strlit("foodVendor");
            assert("coffeeShop"@[0] != "foodVendor"@[0]);
        },
        RefreshmentFacility::Unrecognised(_) => {},
    }
}

/// A token the `RemedyType` list defines reads back as the value that writes it:
/// `from_token(v.as_str()) == v` for every value `v` other than `Unrecognised`.
pub proof fn law_remedy_type_tokens_round_trip(value: RemedyType)
    requires
        !(value is Unrecognised),
    ensures
        RemedyType::spec_listed(value.spec_token()) == Some(value),
{
    match value {
        RemedyType::Unknown => {
            reveal_strlit("unknown");
        },
        RemedyType::Replace => {
            reveal_strlit("replace");
            reveal_strlit("unknown");
            assert("replace"@[0] != "unknown"@[0]);
        },
        RemedyType::Repair => {
            reveal_strlit("repair");
            reveal_strlit("unknown");
            assert("repair"@.len() != "unknown"@.len());
            reveal_strlit("replace");
            assert("repair"@.len() != "replace"@.len());
        },
        RemedyType::Remove => {
            reveal_strlit("remove");
            reveal_strlit("unknown");
            assert("remove"@.len() != "unknown"@.len());
            reveal_strlit("replace");
            assert("remove"@.len() != "replace"@.len());
            reveal_strlit("repair");
            assert("remove"@[2] != "repair"@[2]);
        },
        RemedyType::OtherRoute => {
            reveal_strlit("otherRoute");
            reveal_strlit("unknown");
            assert("otherRoute"@.len() != "unknown"@.len());
            reveal_strlit("replace");
            assert("otherRoute"@.len() != "replace"@.len());
            reveal_strlit("repair");
            assert("otherRoute"@.len() != "repair"@.len());
            reveal_strlit("remove");
            assert("otherRoute"@.len() != "remove"@.len());
        },
        RemedyType::OtherLocation => {
            reveal_strlit("otherLocation");
            reveal_strlit("unknown");
            assert("otherLocation"@.len() != "unknown"@.len());
            reveal_strlit("replace");
            assert("otherLocation"@.len() != "replace"@.len());
            reveal_strlit("repair");
            assert("otherLocation"@.len() != "repair"@.len());
            reveal_strlit("remove");
            assert("otherLocation"@.len() != "remove"@.len());
            reveal_strlit("otherRoute");
            assert("otherLocation"@.len() != "otherRoute"@.len());
        },
        RemedyType::Unrecognised(_) => {},
    }
}

/// A token the `ReservedSpaceFacility` list defines reads back as the value that writes it:
/// `from_token(v.as_str()) == v` for every value `v` other than `Unrecognised`.
pub proof fn law_reserved_space_facility_tokens_round_trip(value: ReservedSpaceFacility)
    requires
        !(value is Unrecognised),
    ensures
        ReservedSpaceFacility::spec_listed(value.spec_token()) == Some(value),
{
    match value {
        ReservedSpaceFacility::Unknown => {
            reveal_strlit("unknown");
        },
        ReservedSpaceFacility::Lounge => {
            reveal_strlit("lounge");
            reveal_strlit("unknown");
            assert("lounge"@.len() != "unknown"@.len());
        },
        ReservedSpaceFacility::Hall => {
            reveal_strlit("hall");
            reveal_strlit("unknown");
            assert("hall"@.len() != "unknown"@.len());
            reveal_strlit("lounge");
            assert("hall"@.len() != "lounge"@.len());
        },
        ReservedSpaceFacility::MeetingPoint => {
            reveal_strlit("meetingPoint");
            reveal_strlit("unknown");
            assert("meetingPoint"@.len() != "unknown"@.len());
            reveal_strlit("lounge");
            assert("meetingPoint"@.len() != "lounge"@.len());
            reveal_strlit("hall");
            assert("meetingPoint"@.len() != "hall"@.len());
        },
        ReservedSpaceFacility::GroupPoint => {
            reveal_strlit("groupPoint");
            reveal_strlit("unknown");
            assert("groupPoint"@.len() != "unknown"@.len());
            reveal_strlit("lounge");
            assert("groupPoint"@.len() != "lounge"@.len());
            reveal_strlit("hall");
            assert("groupPoint"@.len() != "hall"@.len());
            reveal_strlit("meetingPoint");
            assert("groupPoint"@.len() != "meetingPoint"@.len());
        },
        ReservedSpaceFacility::Reception => {
            reveal_strlit("reception");
            reveal_strlit("unknown");
            assert("reception"@.len() != "unknown"@.len());
            reveal_strlit("lounge");
            assert("reception"@.len() != "lounge"@.len());
            reveal_strlit("hall");
            assert("reception"@.len() != "hall"@.len());
            reveal_strlit("meetingPoint");
            assert("reception"@.len() != "meetingPoint"@.len());
            reveal_strlit("groupPoint");
            assert("reception"@.len() != "groupPoint"@.len());
        },
        ReservedSpaceFacility::Shelter => {
            reveal_strlit("shelter");
            reveal_strlit("unknown");
            assert("shelter"@[0] != "unknown"@[0]);
            reveal_strlit("lounge");
            assert("shelter"@.len() != "lounge"@.len());
            reveal_strlit("hall");
            assert("shelter"@.len() != "hall"@.len());
            reveal_strlit("meetingPoint");
            assert("shelter"@.len() != "meetingPoint"@.len());
            reveal_strlit("groupPoint");
            assert("shelter"@.len() != "groupPoint"@.len());
            reveal_strlit("reception");
            assert("shelter"@.len() != "reception"@.len());
        },
        ReservedSpaceFacility::Seats => {
            reveal_strlit("seats");
            reveal_strlit("unknown");
            assert("seats"@.len() != "unknown"@.len());
            reveal_strlit("lounge");
            assert("seats"@.len() != "lounge"@.len());
            reveal_strlit("hall");
            assert("seats"@.len() != "hall"@.len());
            reveal_strlit("meetingPoint");
            assert("seats"@.len() != "meetingPoint"@.len());
            reveal_strlit("groupPoint");
            assert("seats"@.len() != "groupPoint"@.len());
            reveal_strlit("reception");
            assert("seats"@.len() != "reception"@.len());
            reveal_strlit("shelter");
            assert("seats"@.len() != "shelter"@.len());
        },
        ReservedSpaceFacility::Unrecognised(_) => {},
    }
}

/// A token the `RetailFacility` list defines reads back as the value that writes it:
/// `from_token(v.as_str()) == v` for every value `v` other than `Unrecognised`.
pub proof fn law_retail_facility_tokens_round_trip(value: RetailFacility)
    requires
        !(value is Unrecognised),
    ensures
        RetailFacility::spec_listed(value.spec_token()) == Some(value),
{
    match value {
        RetailFacility::Unknown => {
            reveal_strlit("unknown");
        },
        RetailFacility::Food => {
            reveal_strlit("food");
            reveal_strlit("unknown");
            assert("food"@.len() != "unknown"@.len());
        },
        RetailFacility::NewspaperTobacco => {
            reveal_strlit("newspaperTobacco");
            reveal_strlit("unknown");
            assert("newspaperTobacco"@.len() != "unknown"@.len());
            reveal_strlit("food");
            assert("newspaperTobacco"@.len() != "food"@.len());
        },
        RetailFacility::RecreationTravel => {
            reveal_strlit("recreationTravel");
            reveal_strlit("unknown");
            assert("recreationTravel"@.len() != "unknown"@.len());
            reveal_strlit("food");
            assert("recreationTravel"@.len() != "food"@.len());
            reveal_strlit("newspaperTobacco");
            assert("recreationTravel"@[0] != "newspaperTobacco"@[0]);
        },
        RetailFacility::HygieneHealthBeauty => {
            reveal_strlit("hygieneHealthBeauty");
            reveal_strlit("unknown");
            assert("hygieneHealthBeauty"@.len() != "unknown"@.len());
            reveal_strlit("food");
            assert("hygieneHealthBeauty"@.len() != "food"@.len());
            reveal_strlit("newspaperTobacco");
            assert("hygieneHealthBeauty"@.len() != "newspaperTobacco"@.len());
            reveal_strlit("recreationTravel");
            assert("hygieneHealthBeauty"@.len() != "recreationTravel"@.len());
        },
        RetailFacility::FashionAccessories => {
            reveal_strlit("fashionAccessories");
            reveal_strlit("unknown");
            assert("fashionAccessories"@.len() != "unknown"@.len());
            reveal_strlit("food");
            assert("fashionAccessories"@.len() != "food"@.len());
            reveal_strlit("newspaperTobacco");
            assert("fashionAccessories"@.len() != "newspaperTobacco"@.len());
            reveal_strlit("recreationTravel");
            assert("fashionAccessories"@.len() != "recreationTravel"@.len());
            reveal_strlit("hygieneHealthBeauty");
            assert("fashionAccessories"@.len() != "hygieneHealthBeauty"@.len());
        },
        RetailFacility::BankFinanceInsurance => {
            reveal_strlit("bankFinanceInsurance");
            reveal_strlit("unknown");
            assert("bankFinanceInsurance"@.len() != "unknown"@.len());
            reveal_strlit("food");
            assert("bankFinanceInsurance"@.len() != "food"@.len());
            reveal_strlit("newspaperTobacco");
            assert("bankFinanceInsurance"@.len() != "newspaperTobacco"@.len());
            reveal_strlit("recreationTravel");
            assert("bankFinanceInsurance"@.len() != "recreationTravel"@.len());
            reveal_strlit("hygieneHealthBeauty");
            assert("bankFinanceInsurance"@.len() != "hygieneHealthBeauty"@.len());
            reveal_strlit("fashionAccessories");
            assert("bankFinanceInsurance"@.len() != "fashionAccessories"@.len());
        },
        RetailFacility::CashMachine => {
            reveal_strlit("cashMachine");
            reveal_strlit("unknown");
            assert("cashMachine"@.len() != "unknown"@.len());
            reveal_strlit("food");
            assert("cashMachine"@.len() != "food"@.len());
            reveal_strlit("newspaperTobacco");
            assert("cashMachine"@.len() != "newspaperTobacco"@.len());
            reveal_strlit("recreationTravel");
            assert("cashMachine"@.len() != "recreationTravel"@.len());
            reveal_strlit("hygieneHealthBeauty");
            assert("cashMachine"@.len() != "hygieneHealthBeauty"@.len());
            reveal_strlit("fashionAccessories");
            assert("cashMachine"@.len() != "fashionAccessories"@.len());
            reveal_strlit("bankFinanceInsurance");
            assert("cashMachine"@.len() != "bankFinanceInsurance"@.len());
        },
        RetailFacility::CurrencyExchange => {
            reveal_strlit("currencyExchange");
            reveal_strlit("unknown");
            assert("currencyExchange"@.len() != "unknown"@.len());
            reveal_strlit("food");
            assert("currencyExchange"@.len() != "food"@.len());
            reveal_strlit("newspaperTobacco");
            assert("currencyExchange"@[0] != "newspaperTobacco"@[0]);
            reveal_strlit("recreationTravel");
            assert("currencyExchange"@[0] != "recreationTravel"@[0]);
            reveal_strlit("hygieneHealthBeauty");
            assert("currencyExchange"@.len() != "hygieneHealthBeauty"@.len());
            reveal_strlit("fashionAccessories");
            assert("currencyExchange"@.len() != "fashionAccessories"@.len());
            reveal_strlit("bankFinanceInsurance");
            assert("currencyExchange"@.len() != "bankFinanceInsurance"@.len());
            reveal_strlit("cashMachine");
            assert("currencyExchange"@.len() != "cashMachine"@.len());
        },
        RetailFacility::TourismService => {
            reveal_strlit("tourismService");
            reveal_strlit("unknown");
            assert("tourismService"@.len() != "unknown"@.len());
            reveal_strlit("food");
            assert("tourismService"@.len() != "food"@.len());
            reveal_strlit("newspaperTobacco");
            assert("tourismService"@.len() != "newspaperTobacco"@.len());
            reveal_strlit("recreationTravel");
            assert("tourismService"@.len() != "recreationTravel"@.len());
            reveal_strlit("hygieneHealthBeauty");
            assert("tourismService"@.len() != "hygieneHealthBeauty"@.len());
            reveal_strlit("fashionAccessories");
            assert("tourismService"@.len() != "fashionAccessories"@.len());
            reveal_strlit("bankFinanceInsurance");
            assert("tourismService"@.len() != "bankFinanceInsurance"@.len());
            reveal_strlit("cashMachine");
            assert("tourismService"@.len() != "cashMachine"@.len());
            reveal_strlit("currencyExchange");
            assert("tourismService"@.len() != "currencyExchange"@.len());
        },
        RetailFacility::PhotoBooth => {
            reveal_strlit("photoBooth");
            reveal_strlit("unknown");
            assert("photoBooth"@.len() != "unknown"@.len());
            reveal_strlit("food");
            assert("photoBooth"@.len() != "food"@.len());
            reveal_strlit("newspaperTobacco");
            assert("photoBooth"@.len() != "newspaperTobacco"@.len());
            reveal_strlit("recreationTravel");
            assert("photoBooth"@.len() != "recreationTravel"@.len());
            reveal_strlit("hygieneHealthBeauty");
            assert("photoBooth"@.len() != "hygieneHealthBeauty"@.len());
            reveal_strlit("fashionAccessories");
            assert("photoBooth"@.len() != "fashionAccessories"@.len());
            reveal_strlit("bankFinanceInsurance");
            assert("photoBooth"@.len() != "bankFinanceInsurance"@.len());
            reveal_strlit("cashMachine");
            assert("photoBooth"@.len() != "cashMachine"@.len());
            reveal_strlit("currencyExchange");
            assert("photoBooth"@.len() != "currencyExchange"@.len());
            reveal_strlit("tourismService");
            assert("photoBooth"@.len() != "tourismService"@.len());
        },
        RetailFacility::Unrecognised(_) => {},
    }
}

/// A token the `SanitaryFacility` list defines reads back as the value that writes it:
/// `from_token(v.as_str()) == v` for every value `v` other than `Unrecognised`.
pub proof fn law_sanitary_facility_tokens_round_trip(value: SanitaryFacility)
    requires
        !(value is Unrecognised),
    ensures
        SanitaryFacility::spec_listed(value.spec_token()) == Some(value),
{
    match value {
        SanitaryFacility::Unknown => {
            reveal_strlit("unknown");
        },
        SanitaryFacility::Toilet => {
            reveal_strlit("toilet");
            reveal_strlit("unknown");
            assert("toilet"@.len() != "unknown"@.len());
        },
        SanitaryFacility::NoToilet => {
            reveal_strlit("noToilet");
            reveal_strlit("unknown");
            assert("noToilet"@.len() != "unknown"@.len());
            reveal_strlit("toilet");
            assert("noToilet"@.len() != "toilet"@.len());
        },
        SanitaryFacility::Shower => {
            reveal_strlit("shower");
            reveal_strlit("unknown");
            assert("shower"@.len() != "unknown"@.len());
            reveal_strlit("toilet");
            assert("shower"@[0] != "toilet"@[0]);
            reveal_strlit("noToilet");
            assert("shower"@.len() != "noToilet"@.len());
        },
        SanitaryFacility::WheelchairAcccessToilet => {
            reveal_strlit("wheelchairAcccessToilet");
            reveal_strlit("unknown");
            assert("wheelchairAcccessToilet"@.len() != "unknown"@.len());
            reveal_strlit("toilet");
            assert("wheelchairAcccessToilet"@.len() != "toilet"@.len());
            reveal_strlit("noToilet");
            assert("wheelchairAcccessToilet"@.len() != "noToilet"@.len());
            reveal_strlit("shower");
            assert("wheelchairAcccessToilet"@.len() != "shower"@.len());
        },
        SanitaryFacility::BabyChange => {
            reveal_strlit("babyChange");
            reveal_strlit("unknown");
            assert("babyChange"@.len() != "unknown"@.len());
            reveal_strlit("toilet");
            assert("babyChange"@.len() != "toilet"@.len());
            reveal_strlit("noToilet");
            assert("babyChange"@.len() != "noToilet"@.len());
            reveal_strlit("shower");
            assert("babyChange"@.len() != "shower"@.len());
            reveal_strlit("wheelchairAcccessToilet");
            assert("babyChange"@.len() != "wheelchairAcccessToilet"@.len());
        },
        SanitaryFacility::Unrecognised(_) => {},
    }
}

/// A token the `StopPointsDetail` list defines reads back as the value that writes it:
/// `from_token(v.as_str()) == v` for every value `v` other than `Unrecognised`.
pub proof fn law_stop_points_detail_tokens_round_trip(value: StopPointsDetail)
    requires
        !(value is Unrecognised),
    ensures
        StopPointsDetail::spec_listed(value.spec_token()) == Some(value),
{
    match value {
        StopPointsDetail::Minimum => {
            reveal_strlit("minimum");
        },
        StopPointsDetail::Normal => {
            reveal_strlit("normal");
            reveal_strlit("minimum");
            assert("normal"@.len() != "minimum"@.len());
        },
        StopPointsDetail::Full => {
            reveal_strlit("full");
            reveal_strlit("minimum");
            assert("full"@.len() != "minimum"@.len());
            reveal_strlit("normal");
            assert("full"@.len() != "normal"@.len());
        },
        StopPointsDetail::Unrecognised(_) => {},
    }
}

/// A token the `Suitability` list defines reads back as the value that writes it:
/// `from_token(v.as_str()) == v` for every value `v` other than `Unrecognised`.
pub proof fn law_suitability_tokens_round_trip(value: Suitability)
    requires
        !(value is Unrecognised),
    ensures
        Suitability::spec_listed(value.spec_token()) == Some(value),
{
    match value {
        Suitability::Suitable => {
            reveal_strlit("suitable");
        },
        Suitability::NotSuitable => {
            reveal_strlit("notSuitable");
            reveal_strlit("suitable");
            assert("notSuitable"@.len() != "suitable"@.len());
        },
        Suitability::Unrecognised(_) => {},
    }
}

/// A token the `TelecabinSubmodesOfTransport` list defines reads back as the value that writes it:
/// `from_token(v.as_str()) == v` for every value `v` other than `Unrecognised`.
pub proof fn law_telecabin_submodes_of_transport_tokens_round_trip(value: TelecabinSubmodesOfTransport)
    requires
        !(value is Unrecognised),
    ensures
        TelecabinSubmodesOfTransport::spec_listed(value.spec_token()) == Some(value),
{
    match value {
        TelecabinSubmodesOfTransport::Unknown => {
            reveal_strlit("unknown");
        },
        TelecabinSubmodesOfTransport::Undefined => {
            reveal_strlit("undefined");
            reveal_strlit("unknown");
            assert("undefined"@.len() != "unknown"@.len());
        },
        TelecabinSubmodesOfTransport::Telecabin => {
            reveal_strlit("telecabin");
            reveal_strlit("unknown");
            assert("telecabin"@.len() != "unknown"@.len());
            reveal_strlit("undefined");
            assert("telecabin"@[0] != "undefined"@[0]);
        },
        TelecabinSubmodesOfTransport::CableCar => {
            reveal_strlit("cableCar");
            reveal_strlit("unknown");
            assert("cableCar"@.len() != "unknown"@.len());
            reveal_strlit("undefined");
            assert("cableCar"@.len() != "undefined"@.len());
            reveal_strlit("telecabin");
            assert("cableCar"@.len() != "telecabin"@.len());
        },
        TelecabinSubmodesOfTransport::Lift => {
            reveal_strlit("lift");
            reveal_strlit("unknown");
            assert("lift"@.len() != "unknown"@.len());
            reveal_strlit("undefined");
            assert("lift"@.len() != "undefined"@.len());
            reveal_strlit("telecabin");
            assert("lift"@.len() != "telecabin"@.len());
            reveal_strlit("cableCar");
            assert("lift"@.len() != "cableCar"@.len());
        },
        TelecabinSubmodesOfTransport::ChairLift => {
            reveal_strlit("chairLift");
            reveal_strlit("unknown");
            assert("chairLift"@.len() != "unknown"@.len());
            reveal_strlit("undefined");
            assert("chairLift"@[0] != "undefined"@[0]);
            reveal_strlit("telecabin");
            assert("chairLift"@[0] != "telecabin"@[0]);
            reveal_strlit("cableCar");
            assert("chairLift"@.len() != "cableCar"@.len());
            reveal_strlit("lift");
            assert("chairLift"@.len() != "lift"@.len());
        },
        TelecabinSubmodesOfTransport::DragLift => {
            reveal_strlit("dragLift");
            reveal_strlit("unknown");
            assert("dragLift"@.len() != "unknown"@.len());
            reveal_strlit("undefined");
            assert("dragLift"@.len() != "undefined"@.len());
            reveal_strlit("telecabin");
            assert("dragLift"@.len() != "telecabin"@.len());
            reveal_strlit("cableCar");
            assert("dragLift"@[0] != "cableCar"@[0]);
            reveal_strlit("lift");
            assert("dragLift"@.len() != "lift"@.len());
            reveal_strlit("chairLift");
            assert("dragLift"@.len() != "chairLift"@.len());
        },
        TelecabinSubmodesOfTransport::TelecabinLink => {
            reveal_strlit("telecabinLink");
            reveal_strlit("unknown");
            assert("telecabinLink"@.len() != "unknown"@.len());
            reveal_strlit("undefined");
            assert("telecabinLink"@.len() != "undefined"@.len());
            reveal_strlit("telecabin");
            assert("telecabinLink"@.len() != "telecabin"@.len());
            reveal_strlit("cableCar");
            assert("telecabinLink"@.len() != "cableCar"@.len());
            reveal_strlit("lift");
            assert("telecabinLink"@.len() != "lift"@.len());
            reveal_strlit("chairLift");
            assert("telecabinLink"@.len() != "chairLift"@.len());
            reveal_strlit("dragLift");
            assert("telecabinLink"@.len() != "dragLift"@.len());
        },
        TelecabinSubmodesOfTransport::Unrecognised(_) => {},
    }
}

/// A token the `TicketingFacility` list defines reads back as the value that writes it:
/// `from_token(v.as_str()) == v` for every value `v` other than `Unrecognised`.
pub proof fn law_ticketing_facility_tokens_round_trip(value: TicketingFacility)
    requires
        !(value is Unrecognised),
    ensures
        TicketingFacility::spec_listed(value.spec_token()) == Some(value),
{
    match value {
        TicketingFacility::Unknown => {
            reveal_strlit("unknown");
        },
        TicketingFacility::Purchase => {
            reveal_strlit("purchase");
            reveal_strlit("unknown");
            assert("purchase"@.len() != "unknown"@.len());
        },
        TicketingFacility::Collection => {
            reveal_strlit("collection");
            reveal_strlit("unknown");
            assert("collection"@.len() != "unknown"@.len());
            reveal_strlit("purchase");
            assert("collection"@.len() != "purchase"@.len());
        },
        TicketingFacility::CardTopUp => {
            reveal_strlit("cardTopUp");
            reveal_strlit("unknown");
            assert("cardTopUp"@.len() != "unknown"@.len());
            reveal_strlit("purchase");
            assert("cardTopUp"@.len() != "purchase"@.len());
            reveal_strlit("collection");
            assert("cardTopUp"@.len() != "collection"@.len());
        },
        TicketingFacility::Reservations => {
            reveal_strlit("reservations");
            reveal_strlit("unknown");
            assert("reservations"@.len() != "unknown"@.len());
            reveal_strlit("purchase");
            assert("reservations"@.len() != "purchase"@.len());
            reveal_strlit("collection");
            assert("reservations"@.len() != "collection"@.len());
            reveal_strlit("cardTopUp");
            assert("reservations"@.len() != "cardTopUp"@.len());
        },
        TicketingFacility::Exchange => {
            reveal_strlit("exchange");
            reveal_strlit("unknown");
            assert("exchange"@.len() != "unknown"@.len());
            reveal_strlit("purchase");
            assert("exchange"@[0] != "purchase"@[0]);
            reveal_strlit("collection");
            assert("exchange"@.len() != "collection"@.len());
            reveal_strlit("cardTopUp");
            assert("exchange"@.len() != "cardTopUp"@.len());
            reveal_strlit("reservations");
            assert("exchange"@.len() != "reservations"@.len());
        },
        TicketingFacility::Refund => {
            reveal_strlit("refund");
            reveal_strlit("unknown");
            assert("refund"@.len() != "unknown"@.len());
            reveal_strlit("purchase");
            assert("refund"@.len() != "purchase"@.len());
            reveal_strlit("collection");
            assert("refund"@.len() != "collection"@.len());
            reveal_strlit("cardTopUp");
            assert("refund"@.len() != "cardTopUp"@.len());
            reveal_strlit("reservations");
            assert("refund"@.len() != "reservations"@.len());
            reveal_strlit("exchange");
            assert("refund"@.len() != "exchange"@.len());
        },
        TicketingFacility::Renewal => {
            reveal_strlit("renewal");
            reveal_strlit("unknown");
            assert("renewal"@[0] != "unknown"@[0]);
            reveal_strlit("purchase");
            assert("renewal"@.len() != "purchase"@.len());
            reveal_strlit("collection");
            assert("renewal"@.len() != "collection"@.len());
            reveal_strlit("cardTopUp");
            assert("renewal"@.len() != "cardTopUp"@.len());
            reveal_strlit("reservations");
            assert("renewal"@.len() != "reservations"@.len());
            reveal_strlit("exchange");
            assert("renewal"@.len() != "exchange"@.len());
            reveal_strlit("refund");
            assert("renewal"@.len() != "refund"@.len());
        },
        TicketingFacility::ExcessFares => {
            reveal_strlit("excessFares");
            reveal_strlit("unknown");
            assert("excessFares"@.len() != "unknown"@.len());
            reveal_strlit("purchase");
            assert("excessFares"@.len() != "purchase"@.len());
            reveal_strlit("collection");
            assert("excessFares"@.len() != "collection"@.len());
            reveal_strlit("cardTopUp");
            assert("excessFares"@.len() != "cardTopUp"@.len());
            reveal_strlit("reservations");
            assert("excessFares"@.len() != "reservations"@.len());
            reveal_strlit("exchange");
            assert("excessFares"@.len() != "exchange"@.len());
            reveal_strlit("refund");
            assert("excessFares"@.len() != "refund"@.len());
            reveal_strlit("renewal");
            assert("excessFares"@.len() != "renewal"@.len());
        },
        TicketingFacility::Other => {
            reveal_strlit("other");
            reveal_strlit("unknown");
            assert("other"@.len() != "unknown"@.len());
            reveal_strlit("purchase");
            assert("other"@.len() != "purchase"@.len());
            reveal_strlit("collection");
            assert("other"@.len() != "collection"@.len());
            reveal_strlit("cardTopUp");
            assert("other"@.len() != "cardTopUp"@.len());
            reveal_strlit("reservations");
            assert("other"@.len() != "reservations"@.len());
            reveal_strlit("exchange");
            assert("other"@.len() != "exchange"@.len());
            reveal_strlit("refund");
            assert("other"@.len() != "refund"@.len());
            reveal_strlit("renewal");
            assert("other"@.len() != "renewal"@.len());
            reveal_strlit("excessFares");
            assert("other"@.len() != "excessFares"@.len());
        },
        TicketingFacility::Unrecognised(_) => {},
    }
}

/// A token the `TrainElementType` list defines reads back as the value that writes it:
/// `from_token(v.as_str()) == v` for every value `v` other than `Unrecognised`.
pub proof fn law_train_element_type_tokens_round_trip(value: TrainElementType)
    requires
        !(value is Unrecognised),
    ensures
        TrainElementType::spec_listed(value.spec_token()) == Some(value),
{
    match value {
        TrainElementType::Carriage => {
            reveal_strlit("carriage");
        },
        TrainElementType::Engine => {
            reveal_strlit("engine");
            reveal_strlit("carriage");
            assert("engine"@.len() != "carriage"@.len());
        },
        TrainElementType::RobotCar => {
            reveal_strlit("robotCar");
            reveal_strlit("carriage");
            assert("robotCar"@[0] != "carriage"@[0]);
            reveal_strlit("engine");
            assert("robotCar"@.len() != "engine"@.len());
        },
        TrainElementType::SelfPropelledCarriage => {
            reveal_strlit("selfPropelledCarriage");
            reveal_strlit("carriage");
            assert("selfPropelledCarriage"@.len() != "carriage"@.len());
            reveal_strlit("engine");
            assert("selfPropelledCarriage"@.len() != "engine"@.len());
            reveal_strlit("robotCar");
            assert("selfPropelledCarriage"@.len() != "robotCar"@.len());
        },
        TrainElementType::RestaurantCarriage => {
            reveal_strlit("restaurantCarriage");
            reveal_strlit("carriage");
            assert("restaurantCarriage"@.len() != "carriage"@.len());
            reveal_strlit("engine");
            assert("restaurantCarriage"@.len() != "engine"@.len());
            reveal_strlit("robotCar");
            assert("restaurantCarriage"@.len() != "robotCar"@.len());
            reveal_strlit("selfPropelledCarriage");
            assert("restaurantCarriage"@.len() != "selfPropelledCarriage"@.len());
        },
        TrainElementType::SleeperCarriage => {
            reveal_strlit("sleeperCarriage");
            reveal_strlit("carriage");
            assert("sleeperCarriage"@.len() != "carriage"@.len());
            reveal_strlit("engine");
            assert("sleeperCarriage"@.len() != "engine"@.len());
            reveal_strlit("robotCar");
            assert("sleeperCarriage"@.len() != "robotCar"@.len());
            reveal_strlit("selfPropelledCarriage");
            assert("sleeperCarriage"@.len() != "selfPropelledCarriage"@.len());
            reveal_strlit("restaurantCarriage");
            assert("sleeperCarriage"@.len() != "restaurantCarriage"@.len());
        },
        TrainElementType::CarTransporter => {
            reveal_strlit("carTransporter");
            reveal_strlit("carriage");
            assert("carTransporter"@.len() != "carriage"@.len());
            reveal_strlit("engine");
            assert("carTransporter"@.len() != "engine"@.len());
            reveal_strlit("robotCar");
            assert("carTransporter"@.len() != "robotCar"@.len());
            reveal_strlit("selfPropelledCarriage");
            assert("carTransporter"@.len() != "selfPropelledCarriage"@.len());
            reveal_strlit("restaurantCarriage");
            assert("carTransporter"@.len() != "restaurantCarriage"@.len());
            reveal_strlit("sleeperCarriage");
            assert("carTransporter"@.len() != "sleeperCarriage"@.len());
        },
        TrainElementType::Unrecognised(_) => {},
    }
}

/// A token the `TrainSize` list defines reads back as the value that writes it:
/// `from_token(v.as_str()) == v` for every value `v` other than `Unrecognised`.
pub proof fn law_train_size_tokens_round_trip(value: TrainSize)
    requires
        !(value is Unrecognised),
    ensures
        TrainSize::spec_listed(value.spec_token()) == Some(value),
{
    match value {
        TrainSize::Short => {
            reveal_strlit("short");
        },
        TrainSize::Normal => {
            reveal_strlit("normal");
            reveal_strlit("short");
            assert("normal"@.len() != "short"@.len());
        },
        TrainSize::Long => {
            reveal_strlit("long");
            reveal_strlit("short");
            assert("long"@.len() != "short"@.len());
            reveal_strlit("normal");
            assert("long"@.len() != "normal"@.len());
        },
        TrainSize::Unrecognised(_) => {},
    }
}

/// A token the `TramSubmodesOfTransport` list defines reads back as the value that writes it:
/// `from_token(v.as_str()) == v` for every value `v` other than `Unrecognised`.
pub proof fn law_tram_submodes_of_transport_tokens_round_trip(value: TramSubmodesOfTransport)
    requires
        !(value is Unrecognised),
    ensures
        TramSubmodesOfTransport::spec_listed(value.spec_token()) == Some(value),
{
    match value {
        TramSubmodesOfTransport::Unknown => {
            reveal_strlit("unknown");
        },
        TramSubmodesOfTransport::Undefined => {
            reveal_strlit("undefined");
            reveal_strlit("unknown");
            assert("undefined"@.len() != "unknown"@.len());
        },
        TramSubmodesOfTransport::CityTram => {
            reveal_strlit("cityTram");
            reveal_strlit("unknown");
            assert("cityTram"@.len() != "unknown"@.len());
            reveal_strlit("undefined");
            assert("cityTram"@.len() != "undefined"@.len());
        },
        TramSubmodesOfTransport::LocalTram => {
            reveal_strlit("localTram");
            reveal_strlit("unknown");
            assert("localTram"@.len() != "unknown"@.len());
            reveal_strlit("undefined");
            assert("localTram"@[0] != "undefined"@[0]);
            reveal_strlit("cityTram");
            assert("localTram"@.len() != "cityTram"@.len());
        },
        TramSubmodesOfTransport::RegionalTram => {
            reveal_strlit("regionalTram");
            reveal_strlit("unknown");
            assert("regionalTram"@.len() != "unknown"@.len());
            reveal_strlit("undefined");
            assert("regionalTram"@.len() != "undefined"@.len());
            reveal_strlit("cityTram");
            assert("regionalTram"@.len() != "cityTram"@.len());
            reveal_strlit("localTram");
            assert("regionalTram"@.len() != "localTram"@.len());
        },
        TramSubmodesOfTransport::SightseeingTram => {
            reveal_strlit("sightseeingTram");
            reveal_strlit("unknown");
            assert("sightseeingTram"@.len() != "unknown"@.len());
            reveal_strlit("undefined");
            assert("sightseeingTram"@.len() != "undefined"@.len());
            reveal_strlit("cityTram");
            assert("sightseeingTram"@.len() != "cityTram"@.len());
            reveal_strlit("localTram");
            assert("sightseeingTram"@.len() != "localTram"@.len());
            reveal_strlit("regionalTram");
            assert("sightseeingTram"@.len() != "regionalTram"@.len());
        },
        TramSubmodesOfTransport::ShuttleTram => {
            reveal_strlit("shuttleTram");
            reveal_strlit("unknown");
            assert("shuttleTram"@.len() != "unknown"@.len());
            reveal_strlit("undefined");
            assert("shuttleTram"@.len() != "undefined"@.len());
            reveal_strlit("cityTram");
            assert("shuttleTram"@.len() != "cityTram"@.len());
            reveal_strlit("localTram");
            assert("shuttleTram"@.len() != "localTram"@.len());
            reveal_strlit("regionalTram");
            assert("shuttleTram"@.len() != "regionalTram"@.len());
            reveal_strlit("sightseeingTram");
            assert("shuttleTram"@.len() != "sightseeingTram"@.len());
        },
        TramSubmodesOfTransport::TrainTram => {
            reveal_strlit("trainTram");
            reveal_strlit("unknown");
            assert("trainTram"@.len() != "unknown"@.len());
            reveal_strlit("undefined");
            assert("trainTram"@[0] != "undefined"@[0]);
            reveal_strlit("cityTram");
            assert("trainTram"@.len() != "cityTram"@.len());
            reveal_strlit("localTram");
            assert("trainTram"@[0] != "localTram"@[0]);
            reveal_strlit("regionalTram");
            assert("trainTram"@.len() != "regionalTram"@.len());
            reveal_strlit("sightseeingTram");
            assert("trainTram"@.len() != "sightseeingTram"@.len());
            reveal_strlit("shuttleTram");
            assert("trainTram"@.len() != "shuttleTram"@.len());
        },
        TramSubmodesOfTransport::Unrecognised(_) => {},
    }
}

/// A token the `TypeOfFuel` list defines reads back as the value that writes it:
/// `from_token(v.as_str()) == v` for every value `v` other than `Unrecognised`.
pub proof fn law_type_of_fuel_tokens_round_trip(value: TypeOfFuel)
    requires
        !(value is Unrecognised),
    ensures
        TypeOfFuel::spec_listed(value.spec_token()) == Some(value),
{
    match value {
        TypeOfFuel::Petrol => {
            reveal_strlit("petrol");
        },
        TypeOfFuel::Diesel => {
            reveal_strlit("diesel");
            reveal_strlit("petrol");
            assert("diesel"@[0] != "petrol"@[0]);
        },
        TypeOfFuel::NaturalGas => {
            reveal_strlit("naturalGas");
            reveal_strlit("petrol");
            assert("naturalGas"@.len() != "petrol"@.len());
            reveal_strlit("diesel");
            assert("naturalGas"@.len() != "diesel"@.len());
        },
        TypeOfFuel::Biodiesel => {
            reveal_strlit("biodiesel");
            reveal_strlit("petrol");
            assert("biodiesel"@.len() != "petrol"@.len());
            reveal_strlit("diesel");
            assert("biodiesel"@.len() != "diesel"@.len());
            reveal_strlit("naturalGas");
            assert("biodiesel"@.len() != "naturalGas"@.len());
        },
        TypeOfFuel::Electricity => {
            reveal_strlit("electricity");
            reveal_strlit("petrol");
            assert("electricity"@.len() != "petrol"@.len());
            reveal_strlit("diesel");
            assert("electricity"@.len() != "diesel"@.len());
            reveal_strlit("naturalGas");
            assert("electricity"@.len() != "naturalGas"@.len());
            reveal_strlit("biodiesel");
            assert("electricity"@.len() != "biodiesel"@.len());
        },
        TypeOfFuel::Other => {
            reveal_strlit("other");
            reveal_strlit("petrol");
            assert("other"@.len() != "petrol"@.len());
            reveal_strlit("diesel");
            assert("other"@.len() != "diesel"@.len());
            reveal_strlit("naturalGas");
            assert("other"@.len() != "naturalGas"@.len());
            reveal_strlit("biodiesel");
            assert("other"@.len() != "biodiesel"@.len());
            reveal_strlit("electricity");
            assert("other"@.len() != "electricity"@.len());
        },
        TypeOfFuel::Unrecognised(_) => {},
    }
}

/// A token the `TypeOfNestedQuay` list defines reads back as the value that writes it:
/// `from_token(v.as_str()) == v` for every value `v` other than `Unrecognised`.
pub proof fn law_type_of_nested_quay_tokens_round_trip(value: TypeOfNestedQuay)
    requires
        !(value is Unrecognised),
    ensures
        TypeOfNestedQuay::spec_listed(value.spec_token()) == Some(value),
{
    match value {
        TypeOfNestedQuay::Platform => {
            reveal_strlit("platform");
        },
        TypeOfNestedQuay::Bay => {
            reveal_strlit("bay");
            reveal_strlit("platform");
            assert("bay"@.len() != "platform"@.len());
        },
        TypeOfNestedQuay::Gate => {
            reveal_strlit("gate");
            reveal_strlit("platform");
            assert("gate"@.len() != "platform"@.len());
            reveal_strlit("bay");
            assert("gate"@.len() != "bay"@.len());
        },
        TypeOfNestedQuay::Berth => {
            reveal_strlit("berth");
            reveal_strlit("platform");
            assert("berth"@.len() != "platform"@.len());
            reveal_strlit("bay");
            assert("berth"@.len() != "bay"@.len());
            reveal_strlit("gate");
            assert("berth"@.len() != "gate"@.len());
        },
        TypeOfNestedQuay::Unrecognised(_) => {},
    }
}

/// A token the `VehicleInFormationStatus` list defines reads back as the value that writes it:
/// `from_token(v.as_str()) == v` for every value `v` other than `Unrecognised`.
pub proof fn law_vehicle_in_formation_status_tokens_round_trip(value: VehicleInFormationStatus)
    requires
        !(value is Unrecognised),
    ensures
        VehicleInFormationStatus::spec_listed(value.spec_token()) == Some(value),
{
    match value {
        VehicleInFormationStatus::Unknown => {
            reveal_strlit("unknown");
        },
        VehicleInFormationStatus::Normal => {
            reveal_strlit("normal");
            reveal_strlit("unknown");
            assert("normal"@.len() != "unknown"@.len());
        },
        VehicleInFormationStatus::Defective => {
            reveal_strlit("defective");
            reveal_strlit("unknown");
            assert("defective"@.len() != "unknown"@.len());
            reveal_strlit("normal");
            assert("defective"@.len() != "normal"@.len());
        },
        VehicleInFormationStatus::Locked => {
            reveal_strlit("locked");
            reveal_strlit("unknown");
            assert("locked"@.len() != "unknown"@.len());
            reveal_strlit("normal");
            assert("locked"@[0] != "normal"@[0]);
            reveal_strlit("defective");
            assert("locked"@.len() != "defective"@.len());
        },
        VehicleInFormationStatus::Closed => {
            reveal_strlit("closed");
            reveal_strlit("unknown");
            assert("closed"@.len() != "unknown"@.len());
            reveal_strlit("normal");
            assert("closed"@[0] != "normal"@[0]);
            reveal_strlit("defective");
            assert("closed"@.len() != "defective"@.len());
            reveal_strlit("locked");
            assert("closed"@[0] != "locked"@[0]);
        },
        VehicleInFormationStatus::Unrecognised(_) => {},
    }
}

/// A token the `VehicleModesOfTransport` list defines reads back as the value that writes it:
/// `from_token(v.as_str()) == v` for every value `v` other than `Unrecognised`.
pub proof fn law_vehicle_modes_of_transport_tokens_round_trip(value: VehicleModesOfTransport)
    requires
        !(value is Unrecognised),
    ensures
        VehicleModesOfTransport::spec_listed(value.spec_token()) == Some(value),
{
    match value {
        VehicleModesOfTransport::Unknown => {
            reveal_strlit("unknown");
        },
        VehicleModesOfTransport::Air => {
            reveal_strlit("air");
            reveal_strlit("unknown");
            assert("air"@.len() != "unknown"@.len());
        },
        VehicleModesOfTransport::Bus => {
            reveal_strlit("bus");
            reveal_strlit("unknown");
            assert("bus"@.len() != "unknown"@.len());
            reveal_strlit("air");
            assert("bus"@[0] != "air"@[0]);
        },
        VehicleModesOfTransport::TrolleyBus => {
            reveal_strlit("trolleyBus");
            reveal_strlit("unknown");
            assert("trolleyBus"@.len() != "unknown"@.len());
            reveal_strlit("air");
            assert("trolleyBus"@.len() != "air"@.len());
            reveal_strlit("bus");
            assert("trolleyBus"@.len() != "bus"@.len());
        },
        VehicleModesOfTransport::Tram => {
            reveal_strlit("tram");
            reveal_strlit("unknown");
            assert("tram"@.len() != "unknown"@.len());
            reveal_strlit("air");
            assert("tram"@.len() != "air"@.len());
            reveal_strlit("bus");
            assert("tram"@.len() != "bus"@.len());
            reveal_strlit("trolleyBus");
            assert("tram"@.len() != "trolleyBus"@.len());
        },
        VehicleModesOfTransport::Coach => {
            reveal_strlit("coach");
            reveal_strlit("unknown");
            assert("coach"@.len() != "unknown"@.len());
            reveal_strlit("air");
            assert("coach"@.len() != "air"@.len());
            reveal_strlit("bus");
            assert("coach"@.len() != "bus"@.len());
            reveal_strlit("trolleyBus");
            assert("coach"@.len() != "trolleyBus"@.len());
            reveal_strlit("tram");
            assert("coach"@.len() != "tram"@.len());
        },
        VehicleModesOfTransport::Rail => {
            reveal_strlit("rail");
            reveal_strlit("unknown");
            assert("rail"@.len() != "unknown"@.len());
            reveal_strlit("air");
            assert("rail"@.len() != "air"@.len());
            reveal_strlit("bus");
            assert("rail"@.len() != "bus"@.len());
            reveal_strlit("trolleyBus");
            assert("rail"@.len() != "trolleyBus"@.len());
            reveal_strlit("tram");
            assert("rail"@[0] != "tram"@[0]);
            reveal_strlit("coach");
            assert("rail"@.len() != "coach"@.len());
        },
        VehicleModesOfTransport::IntercityRail => {
            reveal_strlit("intercityRail");
            reveal_strlit("unknown");
            assert("intercityRail"@.len() != "unknown"@.len());
            reveal_strlit("air");
            assert("intercityRail"@.len() != "air"@.len());
            reveal_strlit("bus");
            assert("intercityRail"@.len() != "bus"@.len());
            reveal_strlit("trolleyBus");
            assert("intercityRail"@.len() != "trolleyBus"@.len());
            reveal_strlit("tram");
            assert("intercityRail"@.len() != "tram"@.len());
            reveal_strlit("coach");
            assert("intercityRail"@.len() != "coach"@.len());
            reveal_strlit("rail");
            assert("intercityRail"@.len() != "rail"@.len());
        },
        VehicleModesOfTransport::UrbanRail => {
            reveal_strlit("urbanRail");
            reveal_strlit("unknown");
            assert("urbanRail"@.len() != "unknown"@.len());
            reveal_strlit("air");
            assert("urbanRail"@.len() != "air"@.len());
            reveal_strlit("bus");
            assert("urbanRail"@.len() != "bus"@.len());
            reveal_strlit("trolleyBus");
            assert("urbanRail"@.len() != "trolleyBus"@.len());
            reveal_strlit("tram");
            assert("urbanRail"@.len() != "tram"@.len());
            reveal_strlit("coach");
            assert("urbanRail"@.len() != "coach"@.len());
            reveal_strlit("rail");
            assert("urbanRail"@.len() != "rail"@.len());
            reveal_strlit("intercityRail");
            assert("urbanRail"@.len() != "intercityRail"@.len());
        },
        VehicleModesOfTransport::Metro => {
            reveal_strlit("metro");
            reveal_strlit("unknown");
            assert("metro"@.len() != "unknown"@.len());
            reveal_strlit("air");
            assert("metro"@.len() != "air"@.len());
            reveal_strlit("bus");
            assert("metro"@.len() != "bus"@.len());
            reveal_strlit("trolleyBus");
            assert("metro"@.len() != "trolleyBus"@.len());
            reveal_strlit("tram");
            assert("metro"@.len() != "tram"@.len());
            reveal_strlit("coach");
            assert("metro"@[0] != "coach"@[0]);
            reveal_strlit("rail");
            assert("metro"@.len() != "rail"@.len());
            reveal_strlit("intercityRail");
            assert("metro"@.len() != "intercityRail"@.len());
            reveal_strlit("urbanRail");
            assert("metro"@.len() != "urbanRail"@.len());
        },
        VehicleModesOfTransport::Water => {
            reveal_strlit("water");
            reveal_strlit("unknown");
            assert("water"@.len() != "unknown"@.len());
            reveal_strlit("air");
            assert("water"@.len() != "air"@.len());
            reveal_strlit("bus");
            assert("water"@.len() != "bus"@.len());
            reveal_strlit("trolleyBus");
            assert("water"@.len() != "trolleyBus"@.len());
            reveal_strlit("tram");
            assert("water"@.len() != "tram"@.len());
            reveal_strlit("coach");
            assert("water"@[0] != "coach"@[0]);
            reveal_strlit("rail");
            assert("water"@.len() != "rail"@.len());
            reveal_strlit("intercityRail");
            assert("water"@.len() != "intercityRail"@.len());
            reveal_strlit("urbanRail");
            assert("water"@.len() != "urbanRail"@.len());
            reveal_strlit("metro");
            assert("water"@[0] != "metro"@[0]);
        },
        VehicleModesOfTransport::Cableway => {
            reveal_strlit("cableway");
            reveal_strlit("unknown");
            assert("cableway"@.len() != "unknown"@.len());
            reveal_strlit("air");
            assert("cableway"@.len() != "air"@.len());
            reveal_strlit("bus");
            assert("cableway"@.len() != "bus"@.len());
            reveal_strlit("trolleyBus");
            assert("cableway"@.len() != "trolleyBus"@.len());
            reveal_strlit("tram");
            assert("cableway"@.len() != "tram"@.len());
            reveal_strlit("coach");
            assert("cableway"@.len() != "coach"@.len());
            reveal_strlit("rail");
            assert("cableway"@.len() != "rail"@.len());
            reveal_strlit("intercityRail");
            assert("cableway"@.len() != "intercityRail"@.len());
            reveal_strlit("urbanRail");
            assert("cableway"@.len() != "urbanRail"@.len());
            reveal_strlit("metro");
            assert("cableway"@.len() != "metro"@.len());
            reveal_strlit("water");
            assert("cableway"@.len() != "water"@.len());
        },
        VehicleModesOfTransport::Funicular => {
            reveal_strlit("funicular");
            reveal_strlit("unknown");
            assert("funicular"@.len() != "unknown"@.len());
            reveal_strlit("air");
            assert("funicular"@.len() != "air"@.len());
            reveal_strlit("bus");
            assert("funicular"@.len() != "bus"@.len());
            reveal_strlit("trolleyBus");
            assert("funicular"@.len() != "trolleyBus"@.len());
            reveal_strlit("tram");
            assert("funicular"@.len() != "tram"@.len());
            reveal_strlit("coach");
            assert("funicular"@.len() != "coach"@.len());
            reveal_strlit("rail");
            assert("funicular"@.len() != "rail"@.len());
            reveal_strlit("intercityRail");
            assert("funicular"@.len() != "intercityRail"@.len());
            reveal_strlit("urbanRail");
            assert("funicular"@[0] != "urbanRail"@[0]);
            reveal_strlit("metro");
            assert("funicular"@.len() != "metro"@.len());
            reveal_strlit("water");
            assert("funicular"@.len() != "water"@.len());
            reveal_strlit("cableway");
            assert("funicular"@.len() != "cableway"@.len());
        },
        VehicleModesOfTransport::Taxi => {
            reveal_strlit("taxi");
            reveal_strlit("unknown");
            assert("taxi"@.len() != "unknown"@.len());
            reveal_strlit("air");
            assert("taxi"@.len() != "air"@.len());
            reveal_strlit("bus");
            assert("taxi"@.len() != "bus"@.len());
            reveal_strlit("trolleyBus");
            assert("taxi"@.len() != "trolleyBus"@.len());
            reveal_strlit("tram");
            assert("taxi"@[1] != "tram"@[1]);
            reveal_strlit("coach");
            assert("taxi"@.len() != "coach"@.len());
            reveal_strlit("rail");
            assert("taxi"@[0] != "rail"@[0]);
            reveal_strlit("intercityRail");
            assert("taxi"@.len() != "intercityRail"@.len());
            reveal_strlit("urbanRail");
            assert("taxi"@.len() != "urbanRail"@.len());
            reveal_strlit("metro");
            assert("taxi"@.len() != "metro"@.len());
            reveal_strlit("water");
            assert("taxi"@.len() != "water"@.len());
            reveal_strlit("cableway");
            assert("taxi"@.len() != "cableway"@.len());
            reveal_strlit("funicular");
            assert("taxi"@.len() != "funicular"@.len());
        },
        VehicleModesOfTransport::SelfDrive => {
            reveal_strlit("selfDrive");
            reveal_strlit("unknown");
            assert("selfDrive"@.len() != "unknown"@.len());
            reveal_strlit("air");
            assert("selfDrive"@.len() != "air"@.len());
            reveal_strlit("bus");
            assert("selfDrive"@.len() != "bus"@.len());
            reveal_strlit("trolleyBus");
            assert("selfDrive"@.len() != "trolleyBus"@.len());
            reveal_strlit("tram");
            assert("selfDrive"@.len() != "tram"@.len());
            reveal_strlit("coach");
            assert("selfDrive"@.len() != "coach"@.len());
            reveal_strlit("rail");
            assert("selfDrive"@.len() != "rail"@.len());
            reveal_strlit("intercityRail");
            assert("selfDrive"@.len() != "intercityRail"@.len());
            reveal_strlit("urbanRail");
            assert("selfDrive"@[0] != "urbanRail"@[0]);
            reveal_strlit("metro");
            assert("selfDrive"@.len() != "metro"@.len());
            reveal_strlit("water");
            assert("selfDrive"@.len() != "water"@.len());
            reveal_strlit("cableway");
            assert("selfDrive"@.len() != "cableway"@.len());
            reveal_strlit("funicular");
            assert("selfDrive"@[0] != "funicular"@[0]);
            reveal_strlit("taxi");
            assert("selfDrive"@.len() != "taxi"@.len());
        },
        VehicleModesOfTransport::All => {
            reveal_strlit("all");
            reveal_strlit("unknown");
            assert("all"@.len() != "unknown"@.len());
            reveal_strlit("air");
            assert("all"@[1] != "air"@[1]);
            reveal_strlit("bus");
            assert("all"@[0] != "bus"@[0]);
            reveal_strlit("trolleyBus");
            assert("all"@.len() != "trolleyBus"@.len());
            reveal_strlit("tram");
            assert("all"@.len() != "tram"@.len());
            reveal_strlit("coach");
            assert("all"@.len() != "coach"@.len());
            reveal_strlit("rail");
            assert("all"@.len() != "rail"@.len());
            reveal_strlit("intercityRail");
            assert("all"@.len() != "intercityRail"@.len());
            reveal_strlit("urbanRail");
            assert("all"@.len() != "urbanRail"@.len());
            reveal_strlit("metro");
            assert("all"@.len() != "metro"@.len());
            reveal_strlit("water");
            assert("all"@.len() != "water"@.len());
            reveal_strlit("cableway");
            assert("all"@.len() != "cableway"@.len());
            reveal_strlit("funicular");
            assert("all"@.len() != "funicular"@.len());
            reveal_strlit("taxi");
            assert("all"@.len() != "taxi"@.len());
            reveal_strlit("selfDrive");
            assert("all"@.len() != "selfDrive"@.len());
        },
        VehicleModesOfTransport::Other => {
            reveal_strlit("other");
            reveal_strlit("unknown");
            assert("other"@.len() != "unknown"@.len());
            reveal_strlit("air");
            assert("other"@.len() != "air"@.len());
            reveal_strlit("bus");
            assert("other"@.len() != "bus"@.len());
            reveal_strlit("trolleyBus");
            assert("other"@.len() != "trolleyBus"@.len());
            reveal_strlit("tram");
            assert("other"@.len() != "tram"@.len());
            reveal_strlit("coach");
            assert("other"@[0] != "coach"@[0]);
            reveal_strlit("rail");
            assert("other"@.len() != "rail"@.len());
            reveal_strlit("intercityRail");
            assert("other"@.len() != "intercityRail"@.len());
            reveal_strlit("urbanRail");
            assert("other"@.len() != "urbanRail"@.len());
            reveal_strlit("metro");
            assert("other"@[0] != "metro"@[0]);
            reveal_strlit("water");
            assert("other"@[0] != "water"@[0]);
            reveal_strlit("cableway");
            assert("other"@.len() != "cableway"@.len());
            reveal_strlit("funicular");
            assert("other"@.len() != "funicular"@.len());
            reveal_strlit("taxi");
            assert("other"@.len() != "taxi"@.len());
            reveal_strlit("selfDrive");
            assert("other"@.len() != "selfDrive"@.len());
            reveal_strlit("all");
            assert("other"@.len() != "all"@.len());
        },
        VehicleModesOfTransport::Unrecognised(_) => {},
    }
}

/// A token the `VehicleStatus` list defines reads back as the value that writes it:
/// `from_token(v.as_str()) == v` for every value `v` other than `Unrecognised`.
pub proof fn law_vehicle_status_tokens_round_trip(value: VehicleStatus)
    requires
        !(value is Unrecognised),
    ensures
        VehicleStatus::spec_listed(value.spec_token()) == Some(value),
{
    match value {
        VehicleStatus::Expected => {
            reveal_strlit("expected");
        },
        VehicleStatus::NotExpected => {
            reveal_strlit("notExpected");
            reveal_strlit("expected");
            assert("notExpected"@.len() != "expected"@.len());
        },
        VehicleStatus::Cancelled => {
            reveal_strlit("cancelled");
            reveal_strlit("expected");
            assert("cancelled"@.len() != "expected"@.len());
            reveal_strlit("notExpected");
            assert("cancelled"@.len() != "notExpected"@.len());
        },
        VehicleStatus::Assigned => {
            reveal_strlit("assigned");
            reveal_strlit("expected");
            assert("assigned"@[0] != "expected"@[0]);
            reveal_strlit("notExpected");
            assert("assigned"@.len() != "notExpected"@.len());
            reveal_strlit("cancelled");
            assert("assigned"@.len() != "cancelled"@.len());
        },
        VehicleStatus::SignedOn => {
            reveal_strlit("signedOn");
            reveal_strlit("expected");
            assert("signedOn"@[0] != "expected"@[0]);
            reveal_strlit("notExpected");
            assert("signedOn"@.len() != "notExpected"@.len());
            reveal_strlit("cancelled");
            assert("signedOn"@.len() != "cancelled"@.len());
            reveal_strlit("assigned");
            assert("signedOn"@[0] != "assigned"@[0]);
        },
        VehicleStatus::AtOrigin => {
            reveal_strlit("atOrigin");
            reveal_strlit("expected");
            assert("atOrigin"@[0] != "expected"@[0]);
            reveal_strlit("notExpected");
            assert("atOrigin"@.len() != "notExpected"@.len());
            reveal_strlit("cancelled");
            assert("atOrigin"@.len() != "cancelled"@.len());
            reveal_strlit("assigned");
            assert("atOrigin"@[1] != "assigned"@[1]);
            reveal_strlit("signedOn");
            assert("atOrigin"@[0] != "signedOn"@[0]);
        },
        VehicleStatus::InProgress => {
            reveal_strlit("inProgress");
            reveal_strlit("expected");
            assert("inProgress"@.len() != "expected"@.len());
            reveal_strlit("notExpected");
            assert("inProgress"@.len() != "notExpected"@.len());
            reveal_strlit("cancelled");
            assert("inProgress"@.len() != "cancelled"@.len());
            reveal_strlit("assigned");
            assert("inProgress"@.len() != "assigned"@.len());
            reveal_strlit("signedOn");
            assert("inProgress"@.len() != "signedOn"@.len());
            reveal_strlit("atOrigin");
            assert("inProgress"@.len() != "atOrigin"@.len());
        },
        VehicleStatus::Aborted => {
            reveal_strlit("aborted");
            reveal_strlit("expected");
            assert("aborted"@.len() != "expected"@.len());
            reveal_strlit("notExpected");
            assert("aborted"@.len() != "notExpected"@.len());
            reveal_strlit("cancelled");
            assert("aborted"@.len() != "cancelled"@.len());
            reveal_strlit("assigned");
            assert("aborted"@.len() != "assigned"@.len());
            reveal_strlit("signedOn");
            assert("aborted"@.len() != "signedOn"@.len());
            reveal_strlit("atOrigin");
            assert("aborted"@.len() != "atOrigin"@.len());
            reveal_strlit("inProgress");
            assert("aborted"@.len() != "inProgress"@.len());
        },
        VehicleStatus::OffRoute => {
            reveal_strlit("offRoute");
            reveal_strlit("expected");
            assert("offRoute"@[0] != "expected"@[0]);
            reveal_strlit("notExpected");
            assert("offRoute"@.len() != "notExpected"@.len());
            reveal_strlit("cancelled");
            assert("offRoute"@.len() != "cancelled"@.len());
            reveal_strlit("assigned");
            assert("offRoute"@[0] != "assigned"@[0]);
            reveal_strlit("signedOn");
            assert("offRoute"@[0] != "signedOn"@[0]);
            reveal_strlit("atOrigin");
            assert("offRoute"@[0] != "atOrigin"@[0]);
            reveal_strlit("inProgress");
            assert("offRoute"@.len() != "inProgress"@.len());
            reveal_strlit("aborted");
            assert("offRoute"@.len() != "aborted"@.len());
        },
        VehicleStatus::Completed => {
            reveal_strlit("completed");
            reveal_strlit("expected");
            assert("completed"@.len() != "expected"@.len());
            reveal_strlit("notExpected");
            assert("completed"@.len() != "notExpected"@.len());
            reveal_strlit("cancelled");
            assert("completed"@[1] != "cancelled"@[1]);
            reveal_strlit("assigned");
            assert("completed"@.len() != "assigned"@.len());
            reveal_strlit("signedOn");
            assert("completed"@.len() != "signedOn"@.len());
            reveal_strlit("atOrigin");
            assert("completed"@.len() != "atOrigin"@.len());
            reveal_strlit("inProgress");
            assert("completed"@.len() != "inProgress"@.len());
            reveal_strlit("aborted");
            assert("completed"@.len() != "aborted"@.len());
            reveal_strlit("offRoute");
            assert("completed"@.len() != "offRoute"@.len());
        },
        VehicleStatus::AssumedCompleted => {
            reveal_strlit("assumedCompleted");
            reveal_strlit("expected");
            assert("assumedCompleted"@.len() != "expected"@.len());
            reveal_strlit("notExpected");
            assert("assumedCompleted"@.len() != "notExpected"@.len());
            reveal_strlit("cancelled");
            assert("assumedCompleted"@.len() != "cancelled"@.len());
            reveal_strlit("assigned");
            assert("assumedCompleted"@.len() != "assigned"@.len());
            reveal_strlit("signedOn");
            assert("assumedCompleted"@.len() != "signedOn"@.len());
            reveal_strlit("atOrigin");
            assert("assumedCompleted"@.len() != "atOrigin"@.len());
            reveal_strlit("inProgress");
            assert("assumedCompleted"@.len() != "inProgress"@.len());
            reveal_strlit("aborted");
            assert("assumedCompleted"@.len() != "aborted"@.len());
            reveal_strlit("offRoute");
            assert("assumedCompleted"@.len() != "offRoute"@.len());
            reveal_strlit("completed");
            assert("assumedCompleted"@.len() != "completed"@.len());
        },
        VehicleStatus::NotRun => {
            reveal_strlit("notRun");
            reveal_strlit("expected");
            assert("notRun"@.len() != "expected"@.len());
            reveal_strlit("notExpected");
            assert("notRun"@.len() != "notExpected"@.len());
            reveal_strlit("cancelled");
            assert("notRun"@.len() != "cancelled"@.len());
            reveal_strlit("assigned");
            assert("notRun"@.len() != "assigned"@.len());
            reveal_strlit("signedOn");
            assert("notRun"@.len() != "signedOn"@.len());
            reveal_strlit("atOrigin");
            assert("notRun"@.len() != "atOrigin"@.len());
            reveal_strlit("inProgress");
            assert("notRun"@.len() != "inProgress"@.len());
            reveal_strlit("aborted");
            assert("notRun"@.len() != "aborted"@.len());
            reveal_strlit("offRoute");
            assert("notRun"@.len() != "offRoute"@.len());
            reveal_strlit("completed");
            assert("notRun"@.len() != "completed"@.len());
            reveal_strlit("assumedCompleted");
            assert("notRun"@.len() != "assumedCompleted"@.len());
        },
        VehicleStatus::Unrecognised(_) => {},
    }
}

/// A token the `WaterSubmodesOfTransport` list defines reads back as the value that writes it:
/// `from_token(v.as_str()) == v` for every value `v` other than `Unrecognised`.
pub proof fn law_water_submodes_of_transport_tokens_round_trip(value: WaterSubmodesOfTransport)
    requires
        !(value is Unrecognised),
    ensures
        WaterSubmodesOfTransport::spec_listed(value.spec_token()) == Some(value),
{
    match value {
        WaterSubmodesOfTransport::Unknown => {
            reveal_strlit("unknown");
        },
        WaterSubmodesOfTransport::Undefined => {
            reveal_strlit("undefined");
            reveal_strlit("unknown");
            assert("undefined"@.len() != "unknown"@.len());
        },
        WaterSubmodesOfTransport::InternationalCarFerry => {
            reveal_strlit("internationalCarFerry");
            reveal_strlit("unknown");
            assert("internationalCarFerry"@.len() != "unknown"@.len());
            reveal_strlit("undefined");
            assert("internationalCarFerry"@.len() != "undefined"@.len());
        },
        WaterSubmodesOfTransport::NationalCarFerry => {
            reveal_strlit("nationalCarFerry");
            reveal_strlit("unknown");
            assert("nationalCarFerry"@.len() != "unknown"@.len());
            reveal_strlit("undefined");
            assert("nationalCarFerry"@.len() != "undefined"@.len());
            reveal_strlit("internationalCarFerry");
            assert("nationalCarFerry"@.len() != "internationalCarFerry"@.len());
        },
        WaterSubmodesOfTransport::RegionalCarFerry => {
            reveal_strlit("regionalCarFerry");
            reveal_strlit("unknown");
            assert("regionalCarFerry"@.len() != "unknown"@.len());
            reveal_strlit("undefined");
            assert("regionalCarFerry"@.len() != "undefined"@.len());
            reveal_strlit("internationalCarFerry");
            assert("regionalCarFerry"@.len() != "internationalCarFerry"@.len());
            reveal_strlit("nationalCarFerry");
            assert("regionalCarFerry"@[0] != "nationalCarFerry"@[0]);
        },
        WaterSubmodesOfTransport::LocalCarFerry => {
            reveal_strlit("localCarFerry");
            reveal_strlit("unknown");
            assert("localCarFerry"@.len() != "unknown"@.len());
            reveal_strlit("undefined");
            assert("localCarFerry"@.len() != "undefined"@.len());
            reveal_strlit("internationalCarFerry");
            assert("localCarFerry"@.len() != "internationalCarFerry"@.len());
            reveal_strlit("nationalCarFerry");
            assert("localCarFerry"@.len() != "nationalCarFerry"@.len());
            reveal_strlit("regionalCarFerry");
            assert("localCarFerry"@.len() != "regionalCarFerry"@.len());
        },
        WaterSubmodesOfTransport::InternationalPassengerFerry => {
            reveal_strlit("internationalPassengerFerry");
            reveal_strlit("unknown");
            assert("internationalPassengerFerry"@.len() != "unknown"@.len());
            reveal_strlit("undefined");
            assert("internationalPassengerFerry"@.len() != "undefined"@.len());
            reveal_strlit("internationalCarFerry");
            assert("internationalPassengerFerry"@.len() != "internationalCarFerry"@.len());
            reveal_strlit("nationalCarFerry");
            assert("internationalPassengerFerry"@.len() != "nationalCarFerry"@.len());
            reveal_strlit("regionalCarFerry");
            assert("internationalPassengerFerry"@.len() != "regionalCarFerry"@.len());
            reveal_strlit("localCarFerry");
            assert("internationalPassengerFerry"@.len() != "localCarFerry"@.len());
        },
        WaterSubmodesOfTransport::NationalPassengerFerry => {
            reveal_strlit("nationalPassengerFerry");
            reveal_strlit("unknown");
            assert("nationalPassengerFerry"@.len() != "unknown"@.len());
            reveal_strlit("undefined");
            assert("nationalPassengerFerry"@.len() != "undefined"@.len());
            reveal_strlit("internationalCarFerry");
            assert("nationalPassengerFerry"@.len() != "internationalCarFerry"@.len());
            reveal_strlit("nationalCarFerry");
            assert("nationalPassengerFerry"@.len() != "nationalCarFerry"@.len());
            reveal_strlit("regionalCarFerry");
            assert("nationalPassengerFerry"@.len() != "regionalCarFerry"@.len());
            reveal_strlit("localCarFerry");
            assert("nationalPassengerFerry"@.len() != "localCarFerry"@.len());
            reveal_strlit("internationalPassengerFerry");
            assert("nationalPassengerFerry"@.len() != "internationalPassengerFerry"@.len());
        },
        WaterSubmodesOfTransport::RegionalPassengerFerry => {
            reveal_strlit("regionalPassengerFerry");
            reveal_strlit("unknown");
            assert("regionalPassengerFerry"@.len() != "unknown"@.len());
            reveal_strlit("undefined");
            assert("regionalPassengerFerry"@.len() != "undefined"@.len());
            reveal_strlit("internationalCarFerry");
            assert("regionalPassengerFerry"@.len() != "internationalCarFerry"@.len());
            reveal_strlit("nationalCarFerry");
            assert("regionalPassengerFerry"@.len() != "nationalCarFerry"@.len());
            reveal_strlit("regionalCarFerry");
            assert("regionalPassengerFerry"@.len() != "regionalCarFerry"@.len());
            reveal_strlit("localCarFerry");
            assert("regionalPassengerFerry"@.len() != "localCarFerry"@.len());
            reveal_strlit("internationalPassengerFerry");
            assert("regionalPassengerFerry"@.len() != "internationalPassengerFerry"@.len());
            reveal_strlit("nationalPassengerFerry");
            assert("regionalPassengerFerry"@[0] != "nationalPassengerFerry"@[0]);
        },
        WaterSubmodesOfTransport::LocalPassengerFerry => {
            reveal_strlit("localPassengerFerry");
            reveal_strlit("unknown");
            assert("localPassengerFerry"@.len() != "unknown"@.len());
            reveal_strlit("undefined");
            assert("localPassengerFerry"@.len() != "undefined"@.len());
            reveal_strlit("internationalCarFerry");
            assert("localPassengerFerry"@.len() != "internationalCarFerry"@.len());
            reveal_strlit("nationalCarFerry");
            assert("localPassengerFerry"@.len() != "nationalCarFerry"@.len());
            reveal_strlit("regionalCarFerry");
            assert("localPassengerFerry"@.len() != "regionalCarFerry"@.len());
            reveal_strlit("localCarFerry");
            assert("localPassengerFerry"@.len() != "localCarFerry"@.len());
            reveal_strlit("internationalPassengerFerry");
            assert("localPassengerFerry"@.len() != "internationalPassengerFerry"@.len());
            reveal_strlit("nationalPassengerFerry");
            assert("localPassengerFerry"@.len() != "nationalPassengerFerry"@.len());
            reveal_strlit("regionalPassengerFerry");
            assert("localPassengerFerry"@.len() != "regionalPassengerFerry"@.len());
        },
        WaterSubmodesOfTransport::PostBoat => {
            reveal_strlit("postBoat");
            reveal_strlit("unknown");
            assert("postBoat"@.len() != "unknown"@.len());
            reveal_strlit("undefined");
            assert("postBoat"@.len() != "undefined"@.len());
            reveal_strlit("internationalCarFerry");
            assert("postBoat"@.len() != "internationalCarFerry"@.len());
            reveal_strlit("nationalCarFerry");
            assert("postBoat"@.len() != "nationalCarFerry"@.len());
            reveal_strlit("regionalCarFerry");
            assert("postBoat"@.len() != "regionalCarFerry"@.len());
            reveal_strlit("localCarFerry");
            assert("postBoat"@.len() != "localCarFerry"@.len());
            reveal_strlit("internationalPassengerFerry");
            assert("postBoat"@.len() != "internationalPassengerFerry"@.len());
            reveal_strlit("nationalPassengerFerry");
            assert("postBoat"@.len() != "nationalPassengerFerry"@.len());
            reveal_strlit("regionalPassengerFerry");
            assert("postBoat"@.len() != "regionalPassengerFerry"@.len());
            reveal_strlit("localPassengerFerry");
            assert("postBoat"@.len() != "localPassengerFerry"@.len());
        },
        WaterSubmodesOfTransport::TrainFerry => {
            reveal_strlit("trainFerry");
            reveal_strlit("unknown");
            assert("trainFerry"@.len() != "unknown"@.len());
            reveal_strlit("undefined");
            assert("trainFerry"@.len() != "undefined"@.len());
            reveal_strlit("internationalCarFerry");
            assert("trainFerry"@.len() != "internationalCarFerry"@.len());
            reveal_strlit("nationalCarFerry");
            assert("trainFerry"@.len() != "nationalCarFerry"@.len());
            reveal_strlit("regionalCarFerry");
            assert("trainFerry"@.len() != "regionalCarFerry"@.len());
            reveal_strlit("localCarFerry");
            assert("trainFerry"@.len() != "localCarFerry"@.len());
            reveal_strlit("internationalPassengerFerry");
            assert("trainFerry"@.len() != "internationalPassengerFerry"@.len());
            reveal_strlit("nationalPassengerFerry");
            assert("trainFerry"@.len() != "nationalPassengerFerry"@.len());
            reveal_strlit("regionalPassengerFerry");
            assert("trainFerry"@.len() != "regionalPassengerFerry"@.len());
            reveal_strlit("localPassengerFerry");
            assert("trainFerry"@.len() != "localPassengerFerry"@.len());
            reveal_strlit("postBoat");
            assert("trainFerry"@.len() != "postBoat"@.len());
        },
        WaterSubmodesOfTransport::RoadFerryLink => {
            reveal_strlit("roadFerryLink");
            reveal_strlit("unknown");
            assert("roadFerryLink"@.len() != "unknown"@.len());
            reveal_strlit("undefined");
            assert("roadFerryLink"@.len() != "undefined"@.len());
            reveal_strlit("internationalCarFerry");
            assert("roadFerryLink"@.len() != "internationalCarFerry"@.len());
            reveal_strlit("nationalCarFerry");
            assert("roadFerryLink"@.len() != "nationalCarFerry"@.len());
            reveal_strlit("regionalCarFerry");
            assert("roadFerryLink"@.len() != "regionalCarFerry"@.len());
            reveal_strlit("localCarFerry");
            assert("roadFerryLink"@[0] != "localCarFerry"@[0]);
            reveal_strlit("internationalPassengerFerry");
            assert("roadFerryLink"@.len() != "internationalPassengerFerry"@.len());
            reveal_strlit("nationalPassengerFerry");
            assert("roadFerryLink"@.len() != "nationalPassengerFerry"@.len());
            reveal_strlit("regionalPassengerFerry");
            assert("roadFerryLink"@.len() != "regionalPassengerFerry"@.len());
            reveal_strlit("localPassengerFerry");
            assert("roadFerryLink"@.len() != "localPassengerFerry"@.len());
            reveal_strlit("postBoat");
            assert("roadFerryLink"@.len() != "postBoat"@.len());
            reveal_strlit("trainFerry");
            assert("roadFerryLink"@.len() != "trainFerry"@.len());
        },
        WaterSubmodesOfTransport::AirportBoatLink => {
            reveal_strlit("airportBoatLink");
            reveal_strlit("unknown");
            assert("airportBoatLink"@.len() != "unknown"@.len());
            reveal_strlit("undefined");
            assert("airportBoatLink"@.len() != "undefined"@.len());
            reveal_strlit("internationalCarFerry");
            assert("airportBoatLink"@.len() != "internationalCarFerry"@.len());
            reveal_strlit("nationalCarFerry");
            assert("airportBoatLink"@.len() != "nationalCarFerry"@.len());
            reveal_strlit("regionalCarFerry");
            assert("airportBoatLink"@.len() != "regionalCarFerry"@.len());
            reveal_strlit("localCarFerry");
            assert("airportBoatLink"@.len() != "localCarFerry"@.len());
            reveal_strlit("internationalPassengerFerry");
            assert("airportBoatLink"@.len() != "internationalPassengerFerry"@.len());
            reveal_strlit("nationalPassengerFerry");
            assert("airportBoatLink"@.len() != "nationalPassengerFerry"@.len());
            reveal_strlit("regionalPassengerFerry");
            assert("airportBoatLink"@.len() != "regionalPassengerFerry"@.len());
            reveal_strlit("localPassengerFerry");
            assert("airportBoatLink"@.len() != "localPassengerFerry"@.len());
            reveal_strlit("postBoat");
            assert("airportBoatLink"@.len() != "postBoat"@.len());
            reveal_strlit("trainFerry");
            assert("airportBoatLink"@.len() != "trainFerry"@.len());
            reveal_strlit("roadFerryLink");
            assert("airportBoatLink"@.len() != "roadFerryLink"@.len());
        },
        WaterSubmodesOfTransport::HighSpeedVehicleService => {
            reveal_strlit("highSpeedVehicleService");
            reveal_strlit("unknown");
            assert("highSpeedVehicleService"@.len() != "unknown"@.len());
            reveal_strlit("undefined");
            assert("highSpeedVehicleService"@.len() != "undefined"@.len());
            reveal_strlit("internationalCarFerry");
            assert("highSpeedVehicleService"@.len() != "internationalCarFerry"@.len());
            reveal_strlit("nationalCarFerry");
            assert("highSpeedVehicleService"@.len() != "nationalCarFerry"@.len());
            reveal_strlit("regionalCarFerry");
            assert("highSpeedVehicleService"@.len() != "regionalCarFerry"@.len());
            reveal_strlit("localCarFerry");
            assert("highSpeedVehicleService"@.len() != "localCarFerry"@.len());
            reveal_strlit("internationalPassengerFerry");
            assert("highSpeedVehicleService"@.len() != "internationalPassengerFerry"@.len());
            reveal_strlit("nationalPassengerFerry");
            assert("highSpeedVehicleService"@.len() != "nationalPassengerFerry"@.len());
            reveal_strlit("regionalPassengerFerry");
            assert("highSpeedVehicleService"@.len() != "regionalPassengerFerry"@.len());
            reveal_strlit("localPassengerFerry");
            assert("highSpeedVehicleService"@.len() != "localPassengerFerry"@.len());
            reveal_strlit("postBoat");
            assert("highSpeedVehicleService"@.len() != "postBoat"@.len());
            reveal_strlit("trainFerry");
            assert("highSpeedVehicleService"@.len() != "trainFerry"@.len());
            reveal_strlit("roadFerryLink");
            assert("highSpeedVehicleService"@.len() != "roadFerryLink"@.len());
            reveal_strlit("airportBoatLink");
            assert("highSpeedVehicleService"@.len() != "airportBoatLink"@.len());
        },
        WaterSubmodesOfTransport::HighSpeedPassengerService => {
            reveal_strlit("highSpeedPassengerService");
            reveal_strlit("unknown");
            assert("highSpeedPassengerService"@.len() != "unknown"@.len());
            reveal_strlit("undefined");
            assert("highSpeedPassengerService"@.len() != "undefined"@.len());
            reveal_strlit("internationalCarFerry");
            assert("highSpeedPassengerService"@.len() != "internationalCarFerry"@.len());
            reveal_strlit("nationalCarFerry");
            assert("highSpeedPassengerService"@.len() != "nationalCarFerry"@.len());
            reveal_strlit("regionalCarFerry");
            assert("highSpeedPassengerService"@.len() != "regionalCarFerry"@.len());
            reveal_strlit("localCarFerry");
            assert("highSpeedPassengerService"@.len() != "localCarFerry"@.len());
            reveal_strlit("internationalPassengerFerry");
            assert("highSpeedPassengerService"@.len() != "internationalPassengerFerry"@.len());
            reveal_strlit("nationalPassengerFerry");
            assert("highSpeedPassengerService"@.len() != "nationalPassengerFerry"@.len());
            reveal_strlit("regionalPassengerFerry");
            assert("highSpeedPassengerService"@.len() != "regionalPassengerFerry"@.len());
            reveal_strlit("localPassengerFerry");
            assert("highSpeedPassengerService"@.len() != "localPassengerFerry"@.len());
            reveal_strlit("postBoat");
            assert("highSpeedPassengerService"@.len() != "postBoat"@.len());
            reveal_strlit("trainFerry");
            assert("highSpeedPassengerService"@.len() != "trainFerry"@.len());
            reveal_strlit("roadFerryLink");
            assert("highSpeedPassengerService"@.len() != "roadFerryLink"@.len());
            reveal_strlit("airportBoatLink");
            assert("highSpeedPassengerService"@.len() != "airportBoatLink"@.len());
            reveal_strlit("highSpeedVehicleService");
            assert("highSpeedPassengerService"@.len() != "highSpeedVehicleService"@.len());
        },
        WaterSubmodesOfTransport::SightseeingService => {
            reveal_strlit("sightseeingService");
            reveal_strlit("unknown");
            assert("sightseeingService"@.len() != "unknown"@.len());
            reveal_strlit("undefined");
            assert("sightseeingService"@.len() != "undefined"@.len());
            reveal_strlit("internationalCarFerry");
            assert("sightseeingService"@.len() != "internationalCarFerry"@.len());
            reveal_strlit("nationalCarFerry");
            assert("sightseeingService"@.len() != "nationalCarFerry"@.len());
            reveal_strlit("regionalCarFerry");
            assert("sightseeingService"@.len() != "regionalCarFerry"@.len());
            reveal_strlit("localCarFerry");
            assert("sightseeingService"@.len() != "localCarFerry"@.len());
            reveal_strlit("internationalPassengerFerry");
            assert("sightseeingService"@.len() != "internationalPassengerFerry"@.len());
            reveal_strlit("nationalPassengerFerry");
            assert("sightseeingService"@.len() != "nationalPassengerFerry"@.len());
            reveal_strlit("regionalPassengerFerry");
            assert("sightseeingService"@.len() != "regionalPassengerFerry"@.len());
            reveal_strlit("localPassengerFerry");
            assert("sightseeingService"@.len() != "localPassengerFerry"@.len());
            reveal_strlit("postBoat");
            assert("sightseeingService"@.len() != "postBoat"@.len());
            reveal_strlit("trainFerry");
            assert("sightseeingService"@.len() != "trainFerry"@.len());
            reveal_strlit("roadFerryLink");
            assert("sightseeingService"@.len() != "roadFerryLink"@.len());
            reveal_strlit("airportBoatLink");
            assert("sightseeingService"@.len() != "airportBoatLink"@.len());
            reveal_strlit("highSpeedVehicleService");
            assert("sightseeingService"@.len() != "highSpeedVehicleService"@.len());
            reveal_strlit("highSpeedPassengerService");
            assert("sightseeingService"@.len() != "highSpeedPassengerService"@.len());
        },
        WaterSubmodesOfTransport::SchoolBoat => {
            reveal_strlit("schoolBoat");
            reveal_strlit("unknown");
            assert("schoolBoat"@.len() != "unknown"@.len());
            reveal_strlit("undefined");
            assert("schoolBoat"@.len() != "undefined"@.len());
            reveal_strlit("internationalCarFerry");
            assert("schoolBoat"@.len() != "internationalCarFerry"@.len());
            reveal_strlit("nationalCarFerry");
            assert("schoolBoat"@.len() != "nationalCarFerry"@.len());
            reveal_strlit("regionalCarFerry");
            assert("schoolBoat"@.len() != "regionalCarFerry"@.len());
            reveal_strlit("localCarFerry");
            assert("schoolBoat"@.len() != "localCarFerry"@.len());
            reveal_strlit("internationalPassengerFerry");
            assert("schoolBoat"@.len() != "internationalPassengerFerry"@.len());
            reveal_strlit("nationalPassengerFerry");
            assert("schoolBoat"@.len() != "nationalPassengerFerry"@.len());
            reveal_strlit("regionalPassengerFerry");
            assert("schoolBoat"@.len() != "regionalPassengerFerry"@.len());
            reveal_strlit("localPassengerFerry");
            assert("schoolBoat"@.len() != "localPassengerFerry"@.len());
            reveal_strlit("postBoat");
            assert("schoolBoat"@.len() != "postBoat"@.len());
            reveal_strlit("trainFerry");
            assert("schoolBoat"@[0] != "trainFerry"@[0]);
            reveal_strlit("roadFerryLink");
            assert("schoolBoat"@.len() != "roadFerryLink"@.len());
            reveal_strlit("airportBoatLink");
            assert("schoolBoat"@.len() != "airportBoatLink"@.len());
            reveal_strlit("highSpeedVehicleService");
            assert("schoolBoat"@.len() != "highSpeedVehicleService"@.len());
            reveal_strlit("highSpeedPassengerService");
            assert("schoolBoat"@.len() != "highSpeedPassengerService"@.len());
            reveal_strlit("sightseeingService");
            assert("schoolBoat"@.len() != "sightseeingService"@.len());
        },
        WaterSubmodesOfTransport::CableFerry => {
            reveal_strlit("cableFerry");
            reveal_strlit("unknown");
            assert("cableFerry"@.len() != "unknown"@.len());
            reveal_strlit("undefined");
            assert("cableFerry"@.len() != "undefined"@.len());
            reveal_strlit("internationalCarFerry");
            assert("cableFerry"@.len() != "internationalCarFerry"@.len());
            reveal_strlit("nationalCarFerry");
            assert("cableFerry"@.len() != "nationalCarFerry"@.len());
            reveal_strlit("regionalCarFerry");
            assert("cableFerry"@.len() != "regionalCarFerry"@.len());
            reveal_strlit("localCarFerry");
            assert("cableFerry"@.len() != "localCarFerry"@.len());
            reveal_strlit("internationalPassengerFerry");
            assert("cableFerry"@.len() != "internationalPassengerFerry"@.len());
            reveal_strlit("nationalPassengerFerry");
            assert("cableFerry"@.len() != "nationalPassengerFerry"@.len());
            reveal_strlit("regionalPassengerFerry");
            assert("cableFerry"@.len() != "regionalPassengerFerry"@.len());
            reveal_strlit("localPassengerFerry");
            assert("cableFerry"@.len() != "localPassengerFerry"@.len());
            reveal_strlit("postBoat");
            assert("cableFerry"@.len() != "postBoat"@.len());
            reveal_strlit("trainFerry");
            assert("cableFerry"@[0] != "trainFerry"@[0]);
            reveal_strlit("roadFerryLink");
            assert("cableFerry"@.len() != "roadFerryLink"@.len());
            reveal_strlit("airportBoatLink");
            assert("cableFerry"@.len() != "airportBoatLink"@.len());
            reveal_strlit("highSpeedVehicleService");
            assert("cableFerry"@.len() != "highSpeedVehicleService"@.len());
            reveal_strlit("highSpeedPassengerService");
            assert("cableFerry"@.len() != "highSpeedPassengerService"@.len());
            reveal_strlit("sightseeingService");
            assert("cableFerry"@.len() != "sightseeingService"@.len());
            reveal_strlit("schoolBoat");
            assert("cableFerry"@[0] != "schoolBoat"@[0]);
        },
        WaterSubmodesOfTransport::RiverBus => {
            reveal_strlit("riverBus");
            reveal_strlit("unknown");
            assert("riverBus"@.len() != "unknown"@.len());
            reveal_strlit("undefined");
            assert("riverBus"@.len() != "undefined"@.len());
            reveal_strlit("internationalCarFerry");
            assert("riverBus"@.len() != "internationalCarFerry"@.len());
            reveal_strlit("nationalCarFerry");
            assert("riverBus"@.len() != "nationalCarFerry"@.len());
            reveal_strlit("regionalCarFerry");
            assert("riverBus"@.len() != "regionalCarFerry"@.len());
            reveal_strlit("localCarFerry");
            assert("riverBus"@.len() != "localCarFerry"@.len());
            reveal_strlit("internationalPassengerFerry");
            assert("riverBus"@.len() != "internationalPassengerFerry"@.len());
            reveal_strlit("nationalPassengerFerry");
            assert("riverBus"@.len() != "nationalPassengerFerry"@.len());
            reveal_strlit("regionalPassengerFerry");
            assert("riverBus"@.len() != "regionalPassengerFerry"@.len());
            reveal_strlit("localPassengerFerry");
            assert("riverBus"@.len() != "localPassengerFerry"@.len());
            reveal_strlit("postBoat");
            assert("riverBus"@[0] != "postBoat"@[0]);
            reveal_strlit("trainFerry");
            assert("riverBus"@.len() != "trainFerry"@.len());
            reveal_strlit("roadFerryLink");
            assert("riverBus"@.len() != "roadFerryLink"@.len());
            reveal_strlit("airportBoatLink");
            assert("riverBus"@.len() != "airportBoatLink"@.len());
            reveal_strlit("highSpeedVehicleService");
            assert("riverBus"@.len() != "highSpeedVehicleService"@.len());
            reveal_strlit("highSpeedPassengerService");
            assert("riverBus"@.len() != "highSpeedPassengerService"@.len());
            reveal_strlit("sightseeingService");
            assert("riverBus"@.len() != "sightseeingService"@.len());
            reveal_strlit("schoolBoat");
            assert("riverBus"@.len() != "schoolBoat"@.len());
            reveal_strlit("cableFerry");
            assert("riverBus"@.len() != "cableFerry"@.len());
        },
        WaterSubmodesOfTransport::ScheduledFerry => {
            reveal_strlit("scheduledFerry");
            reveal_strlit("unknown");
            assert("scheduledFerry"@.len() != "unknown"@.len());
            reveal_strlit("undefined");
            assert("scheduledFerry"@.len() != "undefined"@.len());
            reveal_strlit("internationalCarFerry");
            assert("scheduledFerry"@.len() != "internationalCarFerry"@.len());
            reveal_strlit("nationalCarFerry");
            assert("scheduledFerry"@.len() != "nationalCarFerry"@.len());
            reveal_strlit("regionalCarFerry");
            assert("scheduledFerry"@.len() != "regionalCarFerry"@.len());
            reveal_strlit("localCarFerry");
            assert("scheduledFerry"@.len() != "localCarFerry"@.len());
            reveal_strlit("internationalPassengerFerry");
            assert("scheduledFerry"@.len() != "internationalPassengerFerry"@.len());
            reveal_strlit("nationalPassengerFerry");
            assert("scheduledFerry"@.len() != "nationalPassengerFerry"@.len());
            reveal_strlit("regionalPassengerFerry");
            assert("scheduledFerry"@.len() != "regionalPassengerFerry"@.len());
            reveal_strlit("localPassengerFerry");
            assert("scheduledFerry"@.len() != "localPassengerFerry"@.len());
            reveal_strlit("postBoat");
            assert("scheduledFerry"@.len() != "postBoat"@.len());
            reveal_strlit("trainFerry");
            assert("scheduledFerry"@.len() != "trainFerry"@.len());
            reveal_strlit("roadFerryLink");
            assert("scheduledFerry"@.len() != "roadFerryLink"@.len());
            reveal_strlit("airportBoatLink");
            assert("scheduledFerry"@.len() != "airportBoatLink"@.len());
            reveal_strlit("highSpeedVehicleService");
            assert("scheduledFerry"@.len() != "highSpeedVehicleService"@.len());
            reveal_strlit("highSpeedPassengerService");
            assert("scheduledFerry"@.len() != "highSpeedPassengerService"@.len());
            reveal_strlit("sightseeingService");
            assert("scheduledFerry"@.len() != "sightseeingService"@.len());
            reveal_strlit("schoolBoat");
            assert("scheduledFerry"@.len() != "schoolBoat"@.len());
            reveal_strlit("cableFerry");
            assert("scheduledFerry"@.len() != "cableFerry"@.len());
            reveal_strlit("riverBus");
            assert("scheduledFerry"@.len() != "riverBus"@.len());
        },
        WaterSubmodesOfTransport::ShuttleFerryService => {
            reveal_strlit("shuttleFerryService");
            reveal_strlit("unknown");
            assert("shuttleFerryService"@.len() != "unknown"@.len());
            reveal_strlit("undefined");
            assert("shuttleFerryService"@.len() != "undefined"@.len());
            reveal_strlit("internationalCarFerry");
            assert("shuttleFerryService"@.len() != "internationalCarFerry"@.len());
            reveal_strlit("nationalCarFerry");
            assert("shuttleFerryService"@.len() != "nationalCarFerry"@.len());
            reveal_strlit("regionalCarFerry");
            assert("shuttleFerryService"@.len() != "regionalCarFerry"@.len());
            reveal_strlit("localCarFerry");
            assert("shuttleFerryService"@.len() != "localCarFerry"@.len());
            reveal_strlit("internationalPassengerFerry");
            assert("shuttleFerryService"@.len() != "internationalPassengerFerry"@.len());
            reveal_strlit("nationalPassengerFerry");
            assert("shuttleFerryService"@.len() != "nationalPassengerFerry"@.len());
            reveal_strlit("regionalPassengerFerry");
            assert("shuttleFerryService"@.len() != "regionalPassengerFerry"@.len());
            reveal_strlit("localPassengerFerry");
            assert("shuttleFerryService"@[0] != "localPassengerFerry"@[0]);
            reveal_strlit("postBoat");
            assert("shuttleFerryService"@.len() != "postBoat"@.len());
            reveal_strlit("trainFerry");
            assert("shuttleFerryService"@.len() != "trainFerry"@.len());
            reveal_strlit("roadFerryLink");
            assert("shuttleFerryService"@.len() != "roadFerryLink"@.len());
            reveal_strlit("airportBoatLink");
            assert("shuttleFerryService"@.len() != "airportBoatLink"@.len());
            reveal_strlit("highSpeedVehicleService");
            assert("shuttleFerryService"@.len() != "highSpeedVehicleService"@.len());
            reveal_strlit("highSpeedPassengerService");
            assert("shuttleFerryService"@.len() != "highSpeedPassengerService"@.len());
            reveal_strlit("sightseeingService");
            assert("shuttleFerryService"@.len() != "sightseeingService"@.len());
            reveal_strlit("schoolBoat");
            assert("shuttleFerryService"@.len() != "schoolBoat"@.len());
            reveal_strlit("cableFerry");
            assert("shuttleFerryService"@.len() != "cableFerry"@.len());
            reveal_strlit("riverBus");
            assert("shuttleFerryService"@.len() != "riverBus"@.len());
            reveal_strlit("scheduledFerry");
            assert("shuttleFerryService"@.len() != "scheduledFerry"@.len());
        },
        WaterSubmodesOfTransport::Unrecognised(_) => {},
    }
}

} // verus!
