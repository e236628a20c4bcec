//! What a Production Timetable service can do, and to whom.

use crate::framework::{
    CapabilityRequestPolicy, ConnectionCapabilityAccessControl, ConnectionServicePermission,
    ErrorCondition, GeneralInteractionCapability, PermissionVersionRef, ServiceRequestError,
    TransportDescription,
};
use crate::types::{EndpointAddress, Extensions, MessageRef, ParticipantRef};
use crate::types::DateTime;
use crate::types::status_or_default;
use vstd::prelude::*;

verus! {

/// What the Production Timetable service offers, and to whom.
///
/// Appears both inside a [`CapabilitiesResponse`](crate::framework::CapabilitiesResponse)
/// and, when only this one service is of interest, as a document in its own right.
#[derive(Debug, Clone, PartialEq)]
pub struct ProductionTimetableCapabilitiesResponse {
    /// Version of SIRI-PT the response conforms to.
    pub version: Option<String>,
    /// When the response was made.
    pub response_timestamp: DateTime,
    /// The capability request this answers.
    pub request_message_ref: Option<MessageRef>,
    /// Address of the participant the answer is given on behalf of.
    pub delegator_address: Option<EndpointAddress>,
    /// Participant the answer is given on behalf of.
    pub delegator_ref: Option<ParticipantRef>,
    /// Whether the capability request was processed successfully.
    pub status: Option<bool>,
    /// Why the capability request could not be processed.
    pub error_condition: Option<ErrorCondition<ServiceRequestError>>,
    /// What the service can do.
    pub production_timetable_service_capabilities: Option<ProductionTimetableServiceCapabilities>,
    /// What participants are allowed to see.
    pub production_timetable_permissions: Option<ProductionTimetablePermissions>,
    /// Implementation-defined content.
    pub extensions: Option<Extensions>,
}

impl ProductionTimetableCapabilitiesResponse {
    /// A successful answer describing the given capabilities.
    pub fn new(
        response_timestamp: DateTime,
        capabilities: ProductionTimetableServiceCapabilities,
    ) -> (result: Self)
        ensures
            result.version is None,
            result.response_timestamp == response_timestamp,
            result.request_message_ref is None,
            result.delegator_address is None,
            result.delegator_ref is None,
            result.status == Some(true),
            result.error_condition is None,
            result.production_timetable_service_capabilities == Some(capabilities),
            result.production_timetable_permissions is None,
            result.extensions is None,
    {
        Self {
            version: None,
            response_timestamp,
            request_message_ref: None,
            delegator_address: None,
            delegator_ref: None,
            status: Some(true),
            error_condition: None,
            production_timetable_service_capabilities: Some(capabilities),
            production_timetable_permissions: None,
            extensions: None,
        }
    }

    /// Whether the producer reported the capability request as processed.
    ///
    /// `Status` is optional in the schema and defaults to true.
    pub fn is_success(&self) -> (flag: bool)
        ensures
            flag == status_or_default(self.status),
    {
        match self.status {
            Some(status) => status,
            None => true,
        }
    }
}

/// What a Production Timetable service can do.
#[derive(Debug, Clone, Default, PartialEq)]
pub struct ProductionTimetableServiceCapabilities {
    /// Interaction patterns and delivery mechanics common to all SIRI services.
    pub general_interaction: Option<GeneralInteractionCapability>,
    /// How messages are carried and whether they are compressed.
    pub transport_description: Option<TransportDescription>,
    /// Which criteria a requestor may narrow the timetable by.
    pub topic_filtering: Option<ProductionTimetableTopicFiltering>,
    /// Languages and coordinate format applied to requests.
    pub request_policy: Option<CapabilityRequestPolicy>,
    /// What may be asked for when opening a subscription.
    pub subscription_policy: Option<ProductionTimetableSubscriptionPolicy>,
    /// Whether and how requests are checked against per-participant permissions.
    pub access_control: Option<ConnectionCapabilityAccessControl>,
    /// Implementation-defined content.
    pub extensions: Option<Extensions>,
}

/// Which criteria a requestor may narrow a planned timetable by.
#[derive(Debug, Clone, PartialEq)]
pub struct ProductionTimetableTopicFiltering {
    /// Whether journeys can be narrowed to a period.
    pub filter_by_validity_period: bool,
    /// Whether journeys can be narrowed to an operator.
    pub filter_by_operator_ref: bool,
    /// Whether journeys can be narrowed to a line.
    pub filter_by_line_ref: bool,
    /// Whether journeys can be narrowed to a mode of transport.
    pub filter_by_vehicle_mode: Option<bool>,
    /// Whether journeys can be narrowed to a commercial category.
    pub filter_by_product_category_ref: Option<bool>,
    /// Whether journeys can be narrowed to a scheduled stop point.
    pub filter_by_stop_point_ref: Option<bool>,
    /// Whether journeys can be narrowed to an edition of the timetable.
    pub filter_by_version_ref: bool,
}

/// What a Production Timetable service allows a subscriber to ask for.
///
/// Unlike the other services this one offers no change sensitivity: a timetable
/// changes when it is republished, not continuously.
#[derive(Debug, Clone, Copy, PartialEq, Eq)]
pub struct ProductionTimetableSubscriptionPolicy {
    /// Whether a subscriber may ask to be sent only what changed.
    pub has_incremental_updates: bool,
}

/// What participants are allowed to see of a Production Timetable service.
#[derive(Debug, Clone, Default, PartialEq)]
pub struct ProductionTimetablePermissions {
    /// The edition of the permission set these entries belong to.
    pub permission_version_ref: Option<PermissionVersionRef>,
    /// One entry per participant, plus optionally one covering everybody else.
    pub production_timetable_permission: Vec<ConnectionServicePermission>,
}

} // verus!
