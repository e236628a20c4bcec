//! Accessibility: what a passenger needs, and whether a service provides it.
//!
//! These types come from the CEN accessibility annex that SIRI and IFOPT share. A
//! [`UserNeed`] states one requirement a passenger has; a [`Suitability`] judges a
//! service against one such need; an [`AccessibilityAssessment`] describes what a
//! place or vehicle offers.
//!
//! # Namespaces
//!
//! The annex has namespaces of its own — `acsb` for accessibility, `ifopt` for the
//! validity conditions it borrows — and SIRI reuses its *types* while naming the
//! elements itself. So an element such as `<AccessibilityAssessment>` is in the SIRI
//! namespace while everything under it is in `acsb`, and each type here names its
//! children accordingly. Every foreign element is also accepted without its prefix,
//! for documents that bind the annex namespaces as the default.

use crate::enumerations::{Accessibility, Encumbrance, MedicalNeed, Mobility, PyschosensoryNeed};
use crate::types::Extensions;
use crate::types::DateTime;
use vstd::prelude::*;

verus! {

/// The CEN accessibility namespace, `http://www.ifopt.org.uk/acsb`.
pub const ACSB_NAMESPACE: &'static str = "http://www.ifopt.org.uk/acsb";

/// The IFOPT namespace, `http://www.ifopt.org.uk/ifopt`.
pub const IFOPT_NAMESPACE: &'static str = "http://www.ifopt.org.uk/ifopt";

/// The binding of the `acsb` prefix an annex element declares.
pub(crate) fn acsb_namespace() -> (namespace: String)
    ensures
        namespace@ == ACSB_NAMESPACE@,
{
    ACSB_NAMESPACE.to_owned()
}

/// The binding of the `ifopt` prefix an annex element declares.
fn ifopt_namespace() -> (namespace: String)
    ensures
        namespace@ == IFOPT_NAMESPACE@,
{
    IFOPT_NAMESPACE.to_owned()
}

/// The needs of a passenger a producer should take into account.
#[derive(Debug, Clone, PartialEq, Eq)]
pub struct PassengerAccessibilityNeeds {
    /// Binding of the `acsb` prefix used by this element's children.
    pub acsb_namespace: String,
    /// The individual needs.
    pub user_need: Vec<UserNeed>,
    /// Whether the passenger travels with someone assisting them.
    pub accompanied_by_carer: Option<bool>,
}

impl Default for PassengerAccessibilityNeeds {
    fn default() -> (needs: Self)
        ensures
            needs.acsb_namespace@ == ACSB_NAMESPACE@,
            needs.user_need@.len() == 0,
            needs.accompanied_by_carer is None,
    {
        Self {
            acsb_namespace: acsb_namespace(),
            user_need: Vec::new(),
            accompanied_by_carer: None,
        }
    }
}

impl PassengerAccessibilityNeeds {
    /// The needs of one passenger, travelling unassisted.
    pub fn new(user_need: Vec<UserNeed>) -> (result: Self)
        ensures
            result.acsb_namespace@ == ACSB_NAMESPACE@,
            result.user_need == user_need,
            result.accompanied_by_carer is None,
    {
        Self { acsb_namespace: acsb_namespace(), user_need, accompanied_by_carer: None }
    }
}

/// A requirement a passenger has that may constrain which services they can use.
#[derive(Debug, Clone, PartialEq, Eq)]
pub struct UserNeed {
    /// Binding of the `acsb` prefix used by this element's children.
    pub acsb_namespace: String,
    /// Which kind of need this is.
    pub need: UserNeedKind,
    /// Whether the need is being excluded rather than included; absent means the
    /// need is included.
    pub excluded: Option<bool>,
    /// How important this need is relative to the passenger's other needs.
    pub need_ranking: Option<i64>,
    /// Implementation-defined content.
    pub extensions: Option<Extensions>,
}

impl UserNeed {
    /// A need with no ranking and no exclusion.
    pub fn new(need: UserNeedKind) -> (result: Self)
        ensures
            result.acsb_namespace@ == ACSB_NAMESPACE@,
            result.need == need,
            result.excluded is None,
            result.need_ranking is None,
            result.extensions is None,
    {
        Self {
            acsb_namespace: acsb_namespace(),
            need,
            excluded: None,
            need_ranking: None,
            extensions: None,
        }
    }
}

/// The four families of passenger need, of which a [`UserNeed`] names exactly one.
///
/// The variant is written as the element name, in the `acsb` namespace.
#[derive(Debug, Clone, PartialEq, Eq)]
pub enum UserNeedKind {
    /// A need arising from how the passenger moves, e.g. using a wheelchair.
    MobilityNeed(Mobility),
    /// A need arising from sight, hearing or cognition, or from an aversion to
    /// lifts, escalators, confined spaces or crowds.
    PsychosensoryNeed(PyschosensoryNeed),
    /// A medical condition that constrains the choice of service.
    MedicalNeed(MedicalNeed),
    /// Something the passenger is carrying or accompanied by, e.g. a pushchair or
    /// oversize baggage.
    EncumbranceNeed(Encumbrance),
}

/// Judgements about passenger needs, written with SIRI's own element names.
///
/// SIRI declares this wrapper itself wherever a message judges a service against
/// passenger needs, so the entries are `<Suitability>` rather than
/// `<acsb:Suitability>`; the entries themselves are annex content either way. Inside
/// an [`AccessibilityAssessment`] the wrapper belongs to the annex instead — that
/// one is [`AssessmentSuitabilities`].
#[derive(Debug, Clone, PartialEq, Eq)]
pub struct Suitabilities {
    /// The judgement about one passenger need.
    pub suitability: Vec<Suitability>,
}

impl Suitabilities {
    /// A set of judgements.
    pub fn new(suitability: Vec<Suitability>) -> (result: Self)
        ensures
            result.suitability == suitability,
    {
        Self {
            suitability,
        }
    }
}

/// The judgements an [`AccessibilityAssessment`] carries.
#[derive(Debug, Clone, PartialEq, Eq)]
pub struct AssessmentSuitabilities {
    /// The judgement about one passenger need.
    pub suitability: Vec<Suitability>,
}

impl AssessmentSuitabilities {
    /// A set of judgements.
    pub fn new(suitability: Vec<Suitability>) -> (result: Self)
        ensures
            result.suitability == suitability,
    {
        Self {
            suitability,
        }
    }
}

/// Whether something remains usable by a passenger with a given need.
///
/// A lift out of service, for example, is `notSuitable` for a wheelchair user while
/// leaving the service usable by everyone else.
#[derive(Debug, Clone, PartialEq, Eq)]
pub struct Suitability {
    /// Binding of the `acsb` prefix used by this element's children.
    pub acsb_namespace: String,
    /// Whether it suits the passenger need named below.
    pub suitable: crate::enumerations::Suitability,
    /// The passenger need this judgement is about.
    pub user_need: UserNeed,
}

impl Suitability {
    /// A judgement about one passenger need.
    pub fn new(suitable: crate::enumerations::Suitability, user_need: UserNeed) -> (result: Self)
        ensures
            result.acsb_namespace@ == ACSB_NAMESPACE@,
            result.suitable == suitable,
            result.user_need == user_need,
    {
        Self {
            acsb_namespace: acsb_namespace(),
            suitable,
            user_need,
        }
    }
}

/// What a place or vehicle offers passengers with restricted mobility.
#[derive(Debug, Clone, PartialEq, Eq)]
pub struct AccessibilityAssessment {
    /// Binding of the `acsb` prefix used by this element and everything under it.
    pub acsb_namespace: String,
    /// Binding of the `ifopt` prefix the validity conditions and extensions use.
    pub ifopt_namespace: String,
    /// Whether passengers with restricted mobility can use it at all.
    pub mobility_impaired_access: bool,
    /// The specific limitations, where they are known in detail.
    pub limitations: Option<AccessibilityLimitations>,
    /// Judgements against individual passenger needs.
    pub suitabilities: Option<AssessmentSuitabilities>,
    /// Implementation-defined content.
    pub extensions: Option<Extensions>,
}

impl AccessibilityAssessment {
    /// An assessment stating only whether the place or vehicle is usable at all.
    pub fn new(mobility_impaired_access: bool) -> (result: Self)
        ensures
            result.acsb_namespace@ == ACSB_NAMESPACE@,
            result.ifopt_namespace@ == IFOPT_NAMESPACE@,
            result.mobility_impaired_access == mobility_impaired_access,
            result.limitations is None,
            result.suitabilities is None,
            result.extensions is None,
    {
        Self {
            acsb_namespace: acsb_namespace(),
            ifopt_namespace: ifopt_namespace(),
            mobility_impaired_access,
            limitations: None,
            suitabilities: None,
            extensions: None,
        }
    }
}

/// The limitations an [`AccessibilityAssessment`] records.
#[derive(Debug, Clone, PartialEq, Eq)]
pub struct AccessibilityLimitations {
    /// One limitation, or one set of limitations valid over a given period.
    pub accessibility_limitation: Vec<AccessibilityLimitation>,
}

/// What is and is not possible for a passenger with restricted mobility.
///
/// Each value is three-valued: the producer may state that a facility is present,
/// that it is absent, or that it does not know.
#[derive(Debug, Clone, PartialEq, Eq)]
pub struct AccessibilityLimitation {
    /// Identifier of this limitation within the document.
    pub limitation_id: Option<String>,
    /// When this limitation applies, if it is not permanent.
    pub validity_condition: Option<ValidityCondition>,
    /// Whether a wheelchair user can get through.
    pub wheelchair_access: Accessibility,
    /// Whether the route avoids steps.
    pub step_free_access: Option<Accessibility>,
    /// Whether the route avoids escalators.
    pub escalator_free_access: Option<Accessibility>,
    /// Whether the route avoids lifts.
    pub lift_free_access: Option<Accessibility>,
    /// Whether announcements are made audibly.
    pub audible_signals_available: Option<Accessibility>,
    /// Whether information is shown visually.
    pub visual_signs_available: Option<Accessibility>,
    /// Implementation-defined content.
    pub extensions: Option<Extensions>,
}

impl AccessibilityLimitation {
    /// A limitation stating only whether a wheelchair user can get through.
    pub fn new(wheelchair_access: Accessibility) -> (result: Self)
        ensures
            result.limitation_id is None,
            result.validity_condition is None,
            result.wheelchair_access == wheelchair_access,
            result.step_free_access is None,
            result.escalator_free_access is None,
            result.lift_free_access is None,
            result.audible_signals_available is None,
            result.visual_signs_available is None,
            result.extensions is None,
    {
        Self {
            limitation_id: None,
            validity_condition: None,
            wheelchair_access,
            step_free_access: None,
            escalator_free_access: None,
            lift_free_access: None,
            audible_signals_available: None,
            visual_signs_available: None,
            extensions: None,
        }
    }
}

/// When a statement holds: between two instants, on certain days, at certain times.
#[derive(Debug, Clone, Default, PartialEq, Eq)]
pub struct ValidityCondition {
    /// The instant the condition starts to hold.
    pub from_date_time: Option<DateTime>,
    /// The instant the condition stops holding.
    pub to_date_time: Option<DateTime>,
    /// The kind of day the condition applies on, in the producer's own vocabulary.
    pub day_type: Option<String>,
    /// The times of day the condition applies at.
    pub timebands: Vec<Timebands>,
}

/// A group of times of day.
#[derive(Debug, Clone, PartialEq, Eq)]
pub struct Timebands {
    /// The individual bands.
    pub timeband: Timeband,
}

/// A stretch of the day, open-ended when no end time is given.
#[derive(Debug, Clone, PartialEq, Eq)]
pub struct Timeband {
    /// When the band starts, as an `xsd:time`.
    pub start_time: String,
    /// When the band ends, as an `xsd:time`.
    pub end_time: Option<String>,
}

} // verus!
