//! What a General Message service can do, and to whom.

use crate::framework::{
    CapabilityRequestPolicy, ErrorCondition, GeneralInteractionCapability, GeneralPermissions,
    PermissionScope, PermissionVersionRef, ServiceRequestError, TransportDescription,
};
use crate::types::{
    DefaultedBoolean, Duration, Empty, EndpointAddress, Extensions, MessageRef, ParticipantRef,
};

use super::InfoChannelRef;
use crate::types::DateTime;
use crate::types::status_or_default;
use vstd::prelude::*;

verus! {

/// What the General Message service offers, and to whom.
///
/// Appears both inside a [`CapabilitiesResponse`](crate::framework::CapabilitiesResponse)
/// and, when only this one service is of interest, as a document in its own right.
#[derive(Debug, Clone, PartialEq)]
pub struct GeneralMessageCapabilitiesResponse {
    /// Version of SIRI-GM the response conforms to.
    pub version: Option<String>,
    /// When the response was made.
    pub response_timestamp: DateTime,
    /// The capability request this answers.
    pub request_message_ref: Option<MessageRef>,
    /// Address of the participant the answer is given on behalf of.
    pub delegator_address: Option<EndpointAddress>,
    /// Participant the answer is given on behalf of.
    pub delegator_ref: Option<ParticipantRef>,
    /// Whether the capability request was processed successfully.
    pub status: Option<bool>,
    /// Why the capability request could not be processed.
    pub error_condition: Option<ErrorCondition<ServiceRequestError>>,
    /// What the service can do.
    pub general_message_service_capabilities: Option<GeneralMessageServiceCapabilities>,
    /// What participants are allowed to see.
    pub general_message_permissions: Option<GeneralMessagePermissions>,
    /// Implementation-defined content.
    pub extensions: Option<Extensions>,
}

impl GeneralMessageCapabilitiesResponse {
    /// A successful answer describing the given capabilities.
    pub fn new(
        response_timestamp: DateTime,
        capabilities: GeneralMessageServiceCapabilities,
    ) -> (result: Self)
        ensures
            result.version is None,
            result.response_timestamp == response_timestamp,
            result.request_message_ref is None,
            result.delegator_address is None,
            result.delegator_ref is None,
            result.status == Some(true),
            result.error_condition is None,
            result.general_message_service_capabilities == Some(capabilities),
            result.general_message_permissions is None,
            result.extensions is None,
    {
        Self {
            version: None,
            response_timestamp,
            request_message_ref: None,
            delegator_address: None,
            delegator_ref: None,
            status: Some(true),
            error_condition: None,
            general_message_service_capabilities: Some(capabilities),
            general_message_permissions: None,
            extensions: None,
        }
    }

    /// Whether the producer reported the capability request as processed.
    ///
    /// `Status` is optional in the schema and defaults to true.
    pub fn is_success(&self) -> (flag: bool)
        ensures
            flag == status_or_default(self.status),
    {
        match self.status {
            Some(status) => status,
            None => true,
        }
    }
}

/// What a General Message service can do.
#[derive(Debug, Clone, Default, PartialEq)]
pub struct GeneralMessageServiceCapabilities {
    /// Interaction patterns and delivery mechanics common to all SIRI services.
    pub general_interaction: Option<GeneralInteractionCapability>,
    /// How messages are carried and whether they are compressed.
    pub transport_description: Option<TransportDescription>,
    /// Which criteria a requestor may narrow the messages by.
    pub topic_filtering: Option<GeneralMessageTopicFiltering>,
    /// Languages and coordinate format applied to requests.
    pub request_policy: Option<CapabilityRequestPolicy>,
    /// Whether and how requests are checked against per-participant permissions.
    pub access_control: Option<GeneralMessageAccessControl>,
}

/// Which criteria a requestor may narrow a producer's messages by.
#[derive(Debug, Clone, PartialEq, Eq)]
pub struct GeneralMessageTopicFiltering {
    /// The look-ahead window applied when a request does not name one.
    pub default_preview_interval: Duration,
    /// Whether messages can be narrowed to named channels.
    pub filter_by_info_channel: Option<bool>,
}

/// Whether and how a General Message service checks requests against the
/// permissions of the participant making them.
#[derive(Debug, Clone, Copy, PartialEq, Eq)]
pub struct GeneralMessageAccessControl {
    /// Whether requests are checked against permissions at all.
    pub request_checking: bool,
    /// Whether the channel a request names is checked against its permissions.
    pub check_info_channel_ref: bool,
}

/// What participants are allowed to see of a General Message service.
#[derive(Debug, Clone, Default, PartialEq)]
pub struct GeneralMessagePermissions {
    /// The edition of the permission set these entries belong to.
    pub permission_version_ref: Option<PermissionVersionRef>,
    /// One entry per participant, plus optionally one covering everybody else.
    pub general_message_permission: Vec<GeneralMessageServicePermission>,
}

/// What one participant may see of a General Message service.
#[derive(Debug, Clone, PartialEq)]
pub struct GeneralMessageServicePermission {
    /// Who this entry applies to.
    pub scope: PermissionScope,
    /// Which interaction patterns the participant may use.
    pub general_capabilities: Option<GeneralPermissions>,
    /// Which channels the participant may read.
    pub info_channel_permissions: InfoChannelPermissions,
    /// Implementation-defined content.
    pub extensions: Option<Extensions>,
}

impl GeneralMessageServicePermission {
    /// A permission entry applying to every participant that has no entry of its own.
    pub fn for_all_participants() -> (result: Self)
        ensures
            result.scope == PermissionScope::AllParticipants(Empty),
            result.general_capabilities is None,
            result.info_channel_permissions.items@ == seq![InfoChannelPermissionItem::AllowAll(true)],
            result.extensions is None,
    {
        Self {
            scope: PermissionScope::AllParticipants(Empty),
            general_capabilities: None,
            info_channel_permissions: InfoChannelPermissions::allow_all(),
            extensions: None,
        }
    }
}

/// Which channels a participant may read.
#[derive(Debug, Clone, PartialEq, Eq)]
pub struct InfoChannelPermissions {
    /// The entries, all of the same kind.
    pub items: Vec<InfoChannelPermissionItem>,
}

impl InfoChannelPermissions {
    /// Permission covering every channel the producer publishes.
    pub fn allow_all() -> (result: Self)
        ensures
            result.items@ == seq![InfoChannelPermissionItem::AllowAll(true)],
    {
        Self {
            items: vec![InfoChannelPermissionItem::AllowAll(true)],
        }
    }

    /// Permission listed channel by channel.
    pub fn per_channel(permissions: Vec<InfoChannelPermission>) -> (result: Self)
        ensures
            result.items@.len() == permissions@.len(),
            forall|i: int|
                0 <= i < permissions@.len() ==> #[trigger] result.items@[i]
                    == InfoChannelPermissionItem::InfoChannelPermission(permissions@[i]),
    {
        let ghost given = permissions@;
        let mut items: Vec<InfoChannelPermissionItem> = Vec::new();
        for permission in iter: permissions.into_iter()
            invariant
                iter.seq() == given,
                items@.len() == iter.index(),
                forall|i: int|
                    0 <= i < iter.index() ==> #[trigger] items@[i]
                        == InfoChannelPermissionItem::InfoChannelPermission(given[i]),
        {
            items.push(InfoChannelPermissionItem::InfoChannelPermission(permission));
        }
        Self { items }
    }
}

/// One entry of an [`InfoChannelPermissions`] list.
#[derive(Debug, Clone, PartialEq, Eq)]
pub enum InfoChannelPermissionItem {
    /// Whether every channel the producer publishes is covered.
    AllowAll(bool),
    /// A decision about one named channel.
    InfoChannelPermission(InfoChannelPermission),
}

/// Whether a participant may read one named channel.
#[derive(Debug, Clone, PartialEq, Eq)]
pub struct InfoChannelPermission {
    /// Whether access is granted or withheld; an empty element grants it.
    pub allow: DefaultedBoolean,
    /// The channel the decision is about.
    pub info_channel_ref: InfoChannelRef,
}

} // verus!
