//! Asking a service what it can do, and the answer it gives.
//!
//! A consumer that has never spoken to a producer before does not know which
//! interaction patterns, filters or languages that producer supports. The
//! capabilities exchange settles that: the consumer sends one
//! [`CapabilitiesRequest`] naming the functional services it is interested in, and
//! the producer answers with a [`CapabilitiesResponse`] describing each of them,
//! optionally including the permissions granted to the asking participant.

use crate::enumerations::{CommunicationsTransportMethod, CompressionMethod};
use crate::pt::ProductionTimetableCapabilitiesResponse;
use crate::framework::error_condition::{ErrorCondition, ServiceRequestError};
use crate::model::{ConnectionLinkRef, DirectionRef, LineRef, OperatorRef};
use crate::types::{
    Duration, Empty, EndpointAddress, Extensions, MessageQualifier, MessageRef, ParticipantRef,
};
use crate::types::DateTime;
use crate::types::status_or_default;
use vstd::prelude::*;

verus! {

/// Identifies an edition of a permission set.
///
/// A producer that revises who may see what can advertise the new edition under
/// a fresh version, letting a consumer notice that its cached permissions are
/// stale without comparing them entry by entry.
#[derive(Debug, Clone, PartialEq, Eq, PartialOrd, Ord, Hash)]
pub struct PermissionVersionRef(String);

impl View for PermissionVersionRef {
    type V = Seq<char>;

    closed spec fn view(&self) -> Seq<char> {
        self.0@
    }
}

impl PermissionVersionRef {
    /// Wraps a value of this reference type.
    pub fn new(value: &str) -> (reference: Self)
        ensures
            reference@ == value@,
    {
        PermissionVersionRef(value.to_owned())
    }

    /// The underlying text.
    pub fn as_str(&self) -> (text: &str)
        ensures
            text@ == self@,
    {
        self.0.as_str()
    }

    /// Consumes the reference and returns the underlying text.
    pub fn into_inner(self) -> (text: String)
        ensures
            text@ == self@,
    {
        self.0
    }
}

impl AsRef<str> for PermissionVersionRef {
    fn as_ref(&self) -> (text: &str)
        ensures
            text@ == self@,
    {
        self.0.as_str()
    }
}

impl From<String> for PermissionVersionRef {
    fn from(value: String) -> (reference: Self)
        ensures
            reference@ == value@,
    {
        PermissionVersionRef(value)
    }
}

impl vstd::std_specs::convert::FromSpecImpl<String> for PermissionVersionRef {
    open spec fn obeys_from_spec() -> bool {
        true
    }

    closed spec fn from_spec(value: String) -> Self {
        PermissionVersionRef(value)
    }
}

/// A request for the capabilities of one or more functional services.
///
/// Which services are asked about is decided by the [`payload`](Self::payload):
/// the schema lists one capability request element per functional service, and a
/// producer answers only for those that are present.
#[derive(Debug, Clone, PartialEq)]
pub struct CapabilitiesRequest {
    /// Version of SIRI the request conforms to.
    pub version: Option<String>,
    /// When the request was made.
    pub request_timestamp: DateTime,
    /// Account the requestor authenticates as.
    pub account_id: Option<String>,
    /// Secret authenticating the account.
    pub account_key: Option<String>,
    /// Address to send the answer to.
    pub address: Option<EndpointAddress>,
    /// Who is asking.
    pub requestor_ref: ParticipantRef,
    /// Address of the participant this request is made on behalf of.
    pub delegator_address: Option<EndpointAddress>,
    /// Participant this request is made on behalf of.
    pub delegator_ref: Option<ParticipantRef>,
    /// One entry per functional service the requestor wants described.
    pub payload: Vec<CapabilitiesRequestPayload>,
}

impl CapabilitiesRequest {
    /// A capabilities request from `requestor_ref` covering the given services.
    pub fn new(
        request_timestamp: DateTime,
        requestor_ref: ParticipantRef,
        payload: Vec<CapabilitiesRequestPayload>,
    ) -> (result: Self)
        ensures
            result.version is None,
            result.request_timestamp == request_timestamp,
            result.account_id is None,
            result.account_key is None,
            result.address is None,
            result.requestor_ref == requestor_ref,
            result.delegator_address is None,
            result.delegator_ref is None,
            result.payload == payload,
    {
        Self {
            version: None,
            request_timestamp,
            account_id: None,
            account_key: None,
            address: None,
            requestor_ref,
            delegator_address: None,
            delegator_ref: None,
            payload,
        }
    }
}

/// Which functional service a capability request inside a [`CapabilitiesRequest`]
/// asks about.
///
/// Every functional service takes the same trivially shaped capability request, so
/// all variants carry a [`ServiceCapabilitiesRequest`]; only the element name — and
/// therefore the variant — says which service is meant. The enum is non-exhaustive
/// because the schema may gain further services.
#[derive(Debug, Clone, PartialEq)]
#[non_exhaustive]
pub enum CapabilitiesRequestPayload {
    /// The planned timetable service.
    ProductionTimetableCapabilitiesRequest(ServiceCapabilitiesRequest),
    /// The real-time timetable service.
    EstimatedTimetableCapabilitiesRequest(ServiceCapabilitiesRequest),
    /// The timetable-at-a-stop service.
    StopTimetableCapabilitiesRequest(ServiceCapabilitiesRequest),
    /// The departures-at-a-stop service.
    StopMonitoringCapabilitiesRequest(ServiceCapabilitiesRequest),
    /// The vehicle-tracking service.
    VehicleMonitoringCapabilitiesRequest(ServiceCapabilitiesRequest),
    /// The planned-interchange service.
    ConnectionTimetableCapabilitiesRequest(ServiceCapabilitiesRequest),
    /// The interchange-feeder-tracking service.
    ConnectionMonitoringCapabilitiesRequest(ServiceCapabilitiesRequest),
    /// The free-text message service.
    GeneralMessageCapabilitiesRequest(ServiceCapabilitiesRequest),
    /// The facility-status service.
    FacilityMonitoringCapabilitiesRequest(ServiceCapabilitiesRequest),
    /// The incident and disruption service.
    SituationExchangeCapabilitiesRequest(ServiceCapabilitiesRequest),
}

/// A capability request for a single functional service.
///
/// The service being asked about is carried by the element name rather than by any
/// field, which is why one type serves all of them.
#[derive(Debug, Clone, PartialEq)]
pub struct ServiceCapabilitiesRequest {
    /// Version of SIRI the request conforms to.
    pub version: Option<String>,
    /// When the request was made.
    pub request_timestamp: DateTime,
    /// Identifier the requestor puts on this message.
    pub message_identifier: Option<MessageQualifier>,
    /// Whether the answer should spell out what this requestor in particular is
    /// allowed to see, rather than only what the service offers in general.
    ///
    /// Only meaningful against a producer that does access control at all.
    pub participant_permissions: Option<bool>,
    /// Implementation-defined content.
    pub extensions: Option<Extensions>,
}

impl ServiceCapabilitiesRequest {
    /// A capability request bearing only the timestamp the schema requires.
    pub fn new(request_timestamp: DateTime) -> (result: Self)
        ensures
            result.version is None,
            result.request_timestamp == request_timestamp,
            result.message_identifier is None,
            result.participant_permissions is None,
            result.extensions is None,
    {
        Self {
            version: None,
            request_timestamp,
            message_identifier: None,
            participant_permissions: None,
            extensions: None,
        }
    }
}

/// The capabilities of one or more functional services.
///
/// Answers a [`CapabilitiesRequest`], with one entry per service described.
#[derive(Debug, Clone, PartialEq)]
pub struct CapabilitiesResponse {
    /// Version of SIRI the response conforms to.
    pub version: Option<String>,
    /// When the response was made.
    pub response_timestamp: DateTime,
    /// Who answered.
    pub producer_ref: Option<ParticipantRef>,
    /// Address of the producer.
    pub address: Option<EndpointAddress>,
    /// Identifier the producer puts on this message.
    pub response_message_identifier: Option<MessageQualifier>,
    /// The capabilities request this answers.
    pub request_message_ref: Option<MessageRef>,
    /// Address of the participant the answer is given on behalf of.
    pub delegator_address: Option<EndpointAddress>,
    /// Participant the answer is given on behalf of.
    pub delegator_ref: Option<ParticipantRef>,
    /// One entry per functional service described.
    pub payload: Vec<CapabilitiesResponsePayload>,
}

impl CapabilitiesResponse {
    /// A capabilities response from `producer_ref` describing the given services.
    pub fn new(
        response_timestamp: DateTime,
        producer_ref: ParticipantRef,
        payload: Vec<CapabilitiesResponsePayload>,
    ) -> (result: Self)
        ensures
            result.version is None,
            result.response_timestamp == response_timestamp,
            result.producer_ref == Some(producer_ref),
            result.address is None,
            result.response_message_identifier is None,
            result.request_message_ref is None,
            result.delegator_address is None,
            result.delegator_ref is None,
            result.payload == payload,
    {
        Self {
            version: None,
            response_timestamp,
            producer_ref: Some(producer_ref),
            address: None,
            response_message_identifier: None,
            request_message_ref: None,
            delegator_address: None,
            delegator_ref: None,
            payload,
        }
    }
}

/// The capabilities of one functional service inside a [`CapabilitiesResponse`].
///
/// Each functional service adds one variant describing its own capabilities; the
/// enum is non-exhaustive so that the services this crate does not implement yet
/// can be added without a breaking change for callers that match on it.
#[derive(Debug, Clone, PartialEq)]
#[non_exhaustive]
pub enum CapabilitiesResponsePayload {
    /// What the Production Timetable service offers.
    ProductionTimetableCapabilitiesResponse(ProductionTimetableCapabilitiesResponse),
    /// What the Situation Exchange service offers.
    SituationExchangeCapabilitiesResponse(SituationExchangeCapabilitiesResponse),
}

impl From<ProductionTimetableCapabilitiesResponse> for CapabilitiesResponsePayload {
    fn from(response: ProductionTimetableCapabilitiesResponse) -> Self {
        Self::ProductionTimetableCapabilitiesResponse(response)
    }
}

impl vstd::std_specs::convert::FromSpecImpl<ProductionTimetableCapabilitiesResponse> for CapabilitiesResponsePayload {
    open spec fn obeys_from_spec() -> bool {
        true
    }

    open spec fn from_spec(response: ProductionTimetableCapabilitiesResponse) -> Self {
        Self::ProductionTimetableCapabilitiesResponse(response)
    }
}

impl From<SituationExchangeCapabilitiesResponse> for CapabilitiesResponsePayload {
    fn from(response: SituationExchangeCapabilitiesResponse) -> Self {
        Self::SituationExchangeCapabilitiesResponse(response)
    }
}

impl vstd::std_specs::convert::FromSpecImpl<SituationExchangeCapabilitiesResponse> for CapabilitiesResponsePayload {
    open spec fn obeys_from_spec() -> bool {
        true
    }

    open spec fn from_spec(response: SituationExchangeCapabilitiesResponse) -> Self {
        Self::SituationExchangeCapabilitiesResponse(response)
    }
}

/// What the Situation Exchange service offers, and to whom.
///
/// Appears both inside a [`CapabilitiesResponse`] and, when only this one service
/// is of interest, as a document in its own right.
#[derive(Debug, Clone, PartialEq)]
pub struct SituationExchangeCapabilitiesResponse {
    /// Version of SIRI the response conforms to.
    pub version: Option<String>,
    /// When the response was made.
    pub response_timestamp: DateTime,
    /// The capability request this answers.
    pub request_message_ref: Option<MessageRef>,
    /// Address of the participant the answer is given on behalf of.
    pub delegator_address: Option<EndpointAddress>,
    /// Participant the answer is given on behalf of.
    pub delegator_ref: Option<ParticipantRef>,
    /// Whether the capability request was processed successfully.
    pub status: Option<bool>,
    /// Why the capability request could not be processed.
    pub error_condition: Option<ErrorCondition<ServiceRequestError>>,
    /// What the service can do.
    pub situation_exchange_service_capabilities: Option<SituationExchangeServiceCapabilities>,
    /// What participants are allowed to see.
    pub situation_exchange_permissions: Option<SituationExchangePermissions>,
    /// Implementation-defined content.
    pub extensions: Option<Extensions>,
}

impl SituationExchangeCapabilitiesResponse {
    /// A successful answer describing the given capabilities.
    pub fn new(
        response_timestamp: DateTime,
        capabilities: SituationExchangeServiceCapabilities,
    ) -> (result: Self)
        ensures
            result.version is None,
            result.response_timestamp == response_timestamp,
            result.request_message_ref is None,
            result.delegator_address is None,
            result.delegator_ref is None,
            result.status == Some(true),
            result.error_condition is None,
            result.situation_exchange_service_capabilities == Some(capabilities),
            result.situation_exchange_permissions is None,
            result.extensions is None,
    {
        Self {
            version: None,
            response_timestamp,
            request_message_ref: None,
            delegator_address: None,
            delegator_ref: None,
            status: Some(true),
            error_condition: None,
            situation_exchange_service_capabilities: Some(capabilities),
            situation_exchange_permissions: None,
            extensions: None,
        }
    }

    /// Whether the producer reported the capability request as processed.
    ///
    /// `Status` is optional in the schema and defaults to true.
    pub fn is_success(&self) -> (success: bool)
        ensures
            success == status_or_default(self.status),
    {
        match self.status {
            Some(status) => status,
            None => true,
        }
    }
}

/// What a Situation Exchange service can do.
///
/// Every field is optional: a producer describes only the aspects it wants to
/// commit to, and a consumer treats an absent field as "the schema default".
#[derive(Debug, Clone, Default, PartialEq)]
pub struct SituationExchangeServiceCapabilities {
    /// Interaction patterns and delivery mechanics common to all SIRI services.
    pub general_interaction: Option<GeneralInteractionCapability>,
    /// How messages are carried and whether they are compressed.
    pub transport_description: Option<TransportDescription>,
    /// Which criteria a requestor may narrow situations by.
    pub topic_filtering: Option<SituationExchangeTopicFiltering>,
    /// Languages, coordinate format and volume limits applied to requests.
    pub request_policy: Option<SituationExchangeRequestPolicy>,
    /// What may be asked for when opening a subscription.
    pub subscription_policy: Option<SubscriptionPolicyCapability>,
    /// Whether and how requests are checked against per-participant permissions.
    pub access_control: Option<SituationExchangeAccessControl>,
    /// Optional features of the response content.
    ///
    /// The schema reserves the element without giving it content yet, so its
    /// presence is all a producer can currently state.
    pub response_features: Option<Empty>,
    /// Implementation-defined content.
    pub extensions: Option<Extensions>,
}

/// Interaction patterns and delivery mechanics a service supports.
#[derive(Debug, Clone, PartialEq)]
pub struct GeneralInteractionCapability {
    /// Whether data can be pulled, pushed, or both.
    pub interaction: InteractionCapability,
    /// Whether data arrives unprompted or has to be fetched.
    pub delivery: DeliveryCapability,
    /// Whether one logical delivery may be split over several messages, chained by
    /// the `MoreData` flag.
    pub multipart_despatch: bool,
    /// Whether one subscription may carry the filters of several subscribers.
    pub multiple_subscriber_filter: bool,
    /// Whether the producer accepts acknowledgements of the deliveries it sends.
    pub has_confirm_delivery: bool,
    /// Whether the producer emits heartbeats between deliveries.
    pub has_heartbeat: bool,
    /// Whether a visit number is a strict position within the journey pattern
    /// rather than merely an arbitrary label.
    pub visit_number_is_order: Option<bool>,
}

/// Which of the two SIRI interaction patterns a service supports.
#[derive(Debug, Clone, Copy, PartialEq, Eq)]
pub struct InteractionCapability {
    /// Whether a consumer may ask for data directly and get it in the answer.
    pub request_response: bool,
    /// Whether a consumer may register a standing interest and be sent data as it
    /// changes.
    pub publish_subscribe: bool,
}

/// How a service hands subscribed data over.
#[derive(Debug, Clone, Copy, PartialEq, Eq)]
pub struct DeliveryCapability {
    /// Whether the producer pushes deliveries to the consumer as they arise.
    pub direct_delivery: bool,
    /// Whether the producer only announces that data is waiting, leaving the
    /// consumer to fetch it.
    pub fetched_delivery: bool,
}

/// How SIRI messages are carried between the two endpoints.
#[derive(Debug, Clone, PartialEq, Eq)]
pub struct TransportDescription {
    /// The protocol and encoding messages are exchanged with.
    pub communications_transport_method: CommunicationsTransportMethod,
    /// How message bodies are compressed for transmission, if at all.
    pub compression_method: CompressionMethod,
}

/// Which criteria a requestor may narrow a situation request by.
///
/// A `false` — or an absent field, which the schema gives a default for — means the
/// producer ignores that filter rather than rejecting a request that uses it.
#[derive(Debug, Clone, PartialEq)]
pub struct SituationExchangeTopicFiltering {
    /// The look-ahead window applied when a request does not name one.
    pub default_preview_interval: Duration,
    /// Whether situations can be narrowed to a particular passenger facility.
    pub filter_by_facility_ref: Option<bool>,
    /// Whether situations can be narrowed to a geographic area.
    pub filter_by_location_ref: Option<bool>,
    /// Whether situations can be narrowed to a particular vehicle.
    pub filter_by_vehicle_ref: Option<bool>,
    /// Whether situations can be narrowed to a mode of transport.
    pub filter_by_mode: Option<bool>,
    /// Whether situations can be narrowed to a network of lines.
    pub filter_by_network_ref: Option<bool>,
    /// Whether situations can be narrowed to a line.
    pub filter_by_line_ref: Option<bool>,
    /// Whether situations can be narrowed to a scheduled stop point.
    pub filter_by_stop_point_ref: Option<bool>,
    /// Whether situations can be narrowed to a stop place.
    pub filter_by_stop_place_ref: Option<bool>,
    /// Whether situations can be narrowed to a vehicle journey.
    pub filter_by_vehicle_journey_ref: Option<bool>,
    /// Whether situations can be narrowed to a connection link.
    pub filter_by_connection_link_ref: Option<bool>,
    /// Whether situations can be narrowed to a planned interchange.
    pub filter_by_interchange_ref: Option<bool>,
    /// Whether situations can be narrowed to those affecting a stated accessibility
    /// need.
    pub filter_by_specific_need: Option<bool>,
    /// Whether situations can be narrowed by producer-defined keywords.
    pub filter_by_keyword: Option<bool>,
}

/// Languages, coordinate format and volume limits a service applies to requests.
#[derive(Debug, Clone, PartialEq)]
pub struct SituationExchangeRequestPolicy {
    /// Languages the service can return texts in, most preferred first.
    pub national_language: Vec<String>,
    /// Whether one text can be returned in several languages at once, rather than
    /// only in the single language the request asked for.
    pub translations: Option<bool>,
    /// How positions are written in responses.
    pub coordinate_format: CoordinateFormat,
    /// Whether a request may cap how many situations come back.
    pub has_maximum_number_of_situations: Option<bool>,
}

/// How a service writes the positions it returns.
#[derive(Debug, Clone, PartialEq, Eq)]
pub enum CoordinateFormat {
    /// Positions come as a coordinate list in the named GML projection.
    GmlCoordinateFormat(String),
    /// Positions come as WGS 84 longitude and latitude in decimal degrees.
    WgsDecimalDegrees(Empty),
}

/// What a service allows a subscriber to ask for when opening a subscription.
#[derive(Debug, Clone, Copy, Default, PartialEq, Eq)]
pub struct SubscriptionPolicyCapability {
    /// Whether a subscriber may ask to be sent only what changed since the last
    /// delivery instead of the full current picture.
    pub has_incremental_updates: Option<bool>,
    /// Whether a subscriber may set how large a change has to be before it is worth
    /// a delivery.
    pub has_change_sensitivity: Option<bool>,
}

/// Whether and how a Situation Exchange service checks requests against the
/// permissions of the participant making them.
#[derive(Debug, Clone, Copy, PartialEq, Eq)]
pub struct SituationExchangeAccessControl {
    /// Whether requests are checked against permissions at all.
    pub request_checking: bool,
    /// Whether the operator a request names is checked against its permissions.
    pub check_operator_ref: Option<bool>,
    /// Whether the line a request names is checked against its permissions.
    pub check_line_ref: Option<bool>,
}

/// What participants are allowed to see of a Situation Exchange service.
#[derive(Debug, Clone, Default, PartialEq)]
pub struct SituationExchangePermissions {
    /// The edition of the permission set these entries belong to.
    pub permission_version_ref: Option<PermissionVersionRef>,
    /// One entry per participant, plus optionally one covering everybody else.
    pub situation_exchange_permission: Vec<SituationExchangePermission>,
}

/// What one participant — or every participant without an entry of their own — may
/// see of a Situation Exchange service.
#[derive(Debug, Clone, PartialEq)]
pub struct SituationExchangePermission {
    /// Who this entry applies to.
    pub scope: PermissionScope,
    /// Which interaction patterns the participant may use.
    pub general_capabilities: Option<GeneralPermissions>,
    /// Whose situations the participant may see.
    pub operator_permissions: OperatorPermissions,
    /// Which lines' situations the participant may see.
    pub line_permissions: LinePermissions,
    /// Implementation-defined content.
    pub extensions: Option<Extensions>,
}

impl SituationExchangePermission {
    /// A permission entry applying to every participant that has no entry of its own.
    pub fn for_all_participants(
        operator_permissions: OperatorPermissions,
        line_permissions: LinePermissions,
    ) -> (result: Self)
        ensures
            result.scope == PermissionScope::AllParticipants(Empty),
            result.general_capabilities is None,
            result.operator_permissions == operator_permissions,
            result.line_permissions == line_permissions,
            result.extensions is None,
    {
        Self {
            scope: PermissionScope::AllParticipants(Empty),
            general_capabilities: None,
            operator_permissions,
            line_permissions,
            extensions: None,
        }
    }

    /// A permission entry applying to one named participant.
    pub fn for_participant(
        participant_ref: ParticipantRef,
        operator_permissions: OperatorPermissions,
        line_permissions: LinePermissions,
    ) -> (result: Self)
        ensures
            result.scope == PermissionScope::ParticipantRef(participant_ref),
            result.general_capabilities is None,
            result.operator_permissions == operator_permissions,
            result.line_permissions == line_permissions,
            result.extensions is None,
    {
        Self {
            scope: PermissionScope::ParticipantRef(participant_ref),
            general_capabilities: None,
            operator_permissions,
            line_permissions,
            extensions: None,
        }
    }
}

/// Who a permission entry applies to.
#[derive(Debug, Clone, PartialEq, Eq)]
pub enum PermissionScope {
    /// The entry is the default, applying to any participant that has no entry
    /// naming it specifically.
    AllParticipants(Empty),
    /// The entry applies to the named participant only.
    ParticipantRef(ParticipantRef),
}

/// Which interaction patterns a participant may use.
#[derive(Debug, Clone, Copy, PartialEq, Eq)]
pub struct GeneralPermissions {
    /// Whether the participant may ask for data directly.
    pub request_response: bool,
    /// Whether the participant may open subscriptions.
    pub publish_subscribe: bool,
}

/// Whose situations a participant may see.
///
/// Either a blanket permission for every operator the service knows, or one entry
/// per operator.
#[derive(Debug, Clone, PartialEq, Eq)]
pub struct OperatorPermissions {
    /// The entries, all of the same kind.
    pub items: Vec<OperatorPermissionItem>,
}

impl OperatorPermissions {
    /// Permission covering every operator the service knows about.
    pub fn allow_all() -> (result: Self)
        ensures
            result.items@ == seq![OperatorPermissionItem::AllowAll(true)],
    {
        Self {
            items: vec![OperatorPermissionItem::AllowAll(true)],
        }
    }

    /// Permission listed operator by operator.
    pub fn per_operator(permissions: Vec<OperatorPermission>) -> (result: Self)
        ensures
            result.items@.len() == permissions@.len(),
            forall|i: int|
                0 <= i < permissions@.len() ==> #[trigger] result.items@[i]
                    == OperatorPermissionItem::OperatorPermission(permissions@[i]),
    {
        let ghost given = permissions@;
        let mut items: Vec<OperatorPermissionItem> = Vec::new();
        for permission in iter: permissions.into_iter()
            invariant
                iter.seq() == given,
                items@.len() == iter.index(),
                forall|i: int|
                    0 <= i < iter.index() ==> #[trigger] items@[i]
                        == OperatorPermissionItem::OperatorPermission(given[i]),
        {
            items.push(OperatorPermissionItem::OperatorPermission(permission));
        }
        Self { items }
    }
}

/// One entry of an [`OperatorPermissions`] list.
#[derive(Debug, Clone, PartialEq, Eq)]
pub enum OperatorPermissionItem {
    /// Whether every operator known to the service is covered.
    AllowAll(bool),
    /// A decision about one named operator.
    OperatorPermission(OperatorPermission),
}

/// Whether a participant may see one named operator's situations.
#[derive(Debug, Clone, PartialEq, Eq)]
pub struct OperatorPermission {
    /// Whether access is granted or withheld.
    pub allow: bool,
    /// The operator the decision is about.
    pub operator_ref: OperatorRef,
}

/// Which lines' situations a participant may see.
///
/// Either a blanket permission for every line the service knows, or one entry per
/// line.
#[derive(Debug, Clone, PartialEq, Eq)]
pub struct LinePermissions {
    /// The entries, all of the same kind.
    pub items: Vec<LinePermissionItem>,
}

impl LinePermissions {
    /// Permission covering every line the service knows about.
    pub fn allow_all() -> (result: Self)
        ensures
            result.items@ == seq![LinePermissionItem::AllowAll(true)],
    {
        Self {
            items: vec![LinePermissionItem::AllowAll(true)],
        }
    }

    /// Permission listed line by line.
    pub fn per_line(permissions: Vec<LinePermission>) -> (result: Self)
        ensures
            result.items@.len() == permissions@.len(),
            forall|i: int|
                0 <= i < permissions@.len() ==> #[trigger] result.items@[i]
                    == LinePermissionItem::LinePermission(permissions@[i]),
    {
        let ghost given = permissions@;
        let mut items: Vec<LinePermissionItem> = Vec::new();
        for permission in iter: permissions.into_iter()
            invariant
                iter.seq() == given,
                items@.len() == iter.index(),
                forall|i: int|
                    0 <= i < iter.index() ==> #[trigger] items@[i]
                        == LinePermissionItem::LinePermission(given[i]),
        {
            items.push(LinePermissionItem::LinePermission(permission));
        }
        Self { items }
    }
}

/// One entry of a [`LinePermissions`] list.
#[derive(Debug, Clone, PartialEq, Eq)]
pub enum LinePermissionItem {
    /// Whether every line known to the service is covered.
    AllowAll(bool),
    /// A decision about one named line.
    LinePermission(LinePermission),
}

/// Whether a participant may see one named line's situations.
#[derive(Debug, Clone, PartialEq, Eq)]
pub struct LinePermission {
    /// Whether access is granted or withheld.
    pub allow: bool,
    /// The line the decision is about.
    pub line_ref: LineRef,
    /// The directions of that line the decision is limited to; empty means both.
    pub direction_ref: Vec<DirectionRef>,
}

/// Languages and coordinate format a service applies to every request.
///
/// Each functional service states this; the services that need more than the common
/// fields add them to their own request policy.
#[derive(Debug, Clone, PartialEq)]
pub struct CapabilityRequestPolicy {
    /// Languages the service can return texts in, most preferred first.
    pub national_language: Vec<String>,
    /// Whether one text can be returned in several languages at once.
    pub translations: Option<bool>,
    /// How positions are written in responses.
    pub coordinate_format: CoordinateFormat,
}

impl CapabilityRequestPolicy {
    /// A policy offering the given language and WGS 84 decimal degrees.
    pub fn in_language(national_language: String) -> (result: Self)
        ensures
            result.national_language@ == seq![national_language],
            result.translations is None,
            result.coordinate_format == CoordinateFormat::WgsDecimalDegrees(Empty),
    {
        Self {
            national_language: vec![national_language],
            translations: None,
            coordinate_format: CoordinateFormat::WgsDecimalDegrees(Empty),
        }
    }
}

/// Whether and how a service that filters by connection link checks requests
/// against the permissions of the participant making them.
#[derive(Debug, Clone, Copy, PartialEq, Eq)]
pub struct ConnectionCapabilityAccessControl {
    /// Whether requests are checked against permissions at all.
    pub request_checking: bool,
    /// Whether the operator a request names is checked against its permissions.
    pub check_operator_ref: Option<bool>,
    /// Whether the line a request names is checked against its permissions.
    pub check_line_ref: Option<bool>,
    /// Whether the connection link a request names is checked against its permissions.
    pub check_connection_link_ref: Option<bool>,
}

/// What one participant may see of a timetable service.
///
/// Production Timetable and Estimated Timetable grant the same three permissions,
/// so the schema gives them one structure.
#[derive(Debug, Clone, PartialEq)]
pub struct ConnectionServicePermission {
    /// Who this entry applies to.
    pub scope: PermissionScope,
    /// Which interaction patterns the participant may use.
    pub general_capabilities: Option<GeneralPermissions>,
    /// Whose services the participant may see.
    pub operator_permissions: OperatorPermissions,
    /// Which lines' services the participant may see.
    pub line_permissions: LinePermissions,
    /// Which connection links' services the participant may see.
    pub connection_link_permissions: ConnectionLinkPermissions,
    /// Implementation-defined content.
    pub extensions: Option<Extensions>,
}

impl ConnectionServicePermission {
    /// A permission entry applying to every participant that has no entry of its own.
    pub fn for_all_participants() -> (result: Self)
        ensures
            result.scope == PermissionScope::AllParticipants(Empty),
            result.general_capabilities is None,
            result.operator_permissions.items@ == seq![OperatorPermissionItem::AllowAll(true)],
            result.line_permissions.items@ == seq![LinePermissionItem::AllowAll(true)],
            result.connection_link_permissions.items@ == seq![ConnectionLinkPermissionItem::AllowAll(true)],
            result.extensions is None,
    {
        Self {
            scope: PermissionScope::AllParticipants(Empty),
            general_capabilities: None,
            operator_permissions: OperatorPermissions::allow_all(),
            line_permissions: LinePermissions::allow_all(),
            connection_link_permissions: ConnectionLinkPermissions::allow_all(),
            extensions: None,
        }
    }
}

/// Which connection links' services a participant may see.
#[derive(Debug, Clone, PartialEq, Eq)]
pub struct ConnectionLinkPermissions {
    /// The entries, all of the same kind.
    pub items: Vec<ConnectionLinkPermissionItem>,
}

impl ConnectionLinkPermissions {
    /// Permission covering every connection link the service knows about.
    pub fn allow_all() -> (result: Self)
        ensures
            result.items@ == seq![ConnectionLinkPermissionItem::AllowAll(true)],
    {
        Self {
            items: vec![ConnectionLinkPermissionItem::AllowAll(true)],
        }
    }

    /// Permission listed link by link.
    pub fn per_link(permissions: Vec<ConnectionLinkPermission>) -> (result: Self)
        ensures
            result.items@.len() == permissions@.len(),
            forall|i: int|
                0 <= i < permissions@.len() ==> #[trigger] result.items@[i]
                    == ConnectionLinkPermissionItem::ConnectionLinkPermission(permissions@[i]),
    {
        let ghost given = permissions@;
        let mut items: Vec<ConnectionLinkPermissionItem> = Vec::new();
        for permission in iter: permissions.into_iter()
            invariant
                iter.seq() == given,
                items@.len() == iter.index(),
                forall|i: int|
                    0 <= i < iter.index() ==> #[trigger] items@[i]
                        == ConnectionLinkPermissionItem::ConnectionLinkPermission(given[i]),
        {
            items.push(ConnectionLinkPermissionItem::ConnectionLinkPermission(permission));
        }
        Self { items }
    }
}

/// One entry of a [`ConnectionLinkPermissions`] list.
#[derive(Debug, Clone, PartialEq, Eq)]
pub enum ConnectionLinkPermissionItem {
    /// Whether every connection link known to the service is covered.
    AllowAll(bool),
    /// A decision about one named connection link.
    ConnectionLinkPermission(ConnectionLinkPermission),
}

/// Whether a participant may see one named connection link's services.
#[derive(Debug, Clone, PartialEq, Eq)]
pub struct ConnectionLinkPermission {
    /// Whether access is granted or withheld.
    pub allow: bool,
    /// The connection link the decision is about.
    pub connection_link_ref: ConnectionLinkRef,
}

} // verus!
