//! Asking for the messages on a producer's channels.

use crate::types::{Extensions, MessageQualifier, ParticipantRef, SubscriptionQualifier};

use super::InfoChannelRef;
use crate::types::DateTime;
use vstd::prelude::*;

verus! {

/// A request for the messages a producer is publishing.
///
/// Naming no channel asks for all of them.
#[derive(Debug, Clone, PartialEq)]
pub struct GeneralMessageRequest {
    /// Version of SIRI-GM the request conforms to.
    pub version: Option<String>,
    /// When the request was made.
    pub request_timestamp: DateTime,
    /// Identifier the requestor puts on this request.
    pub message_identifier: Option<MessageQualifier>,
    /// Only these channels.
    pub info_channel_ref: Vec<InfoChannelRef>,
    /// Languages the requestor would like texts in, most preferred first.
    pub language: Vec<String>,
    /// Implementation-defined content.
    pub extensions: Option<Extensions>,
}

impl GeneralMessageRequest {
    /// A request for every channel the producer publishes.
    pub fn new(request_timestamp: DateTime) -> (result: Self)
        ensures
            result.version is None,
            result.request_timestamp == request_timestamp,
            result.message_identifier is None,
            result.info_channel_ref@.len() == 0,
            result.language@.len() == 0,
            result.extensions is None,
    {
        Self {
            version: None,
            request_timestamp,
            message_identifier: None,
            info_channel_ref: Vec::new(),
            language: Vec::new(),
            extensions: None,
        }
    }

    /// A request for the named channels only.
    pub fn on_channels(
        request_timestamp: DateTime,
        info_channel_ref: Vec<InfoChannelRef>,
    ) -> (result: Self)
        ensures
            result.version is None,
            result.request_timestamp == request_timestamp,
            result.message_identifier is None,
            result.info_channel_ref == info_channel_ref,
            result.language@.len() == 0,
            result.extensions is None,
    {
        Self {
            version: None,
            request_timestamp,
            message_identifier: None,
            info_channel_ref,
            language: Vec::new(),
            extensions: None,
        }
    }
}

/// A subscription to the messages a producer is publishing.
#[derive(Debug, Clone, PartialEq)]
pub struct GeneralMessageSubscriptionRequest {
    /// Who is subscribing, when different from the requestor of the enclosing message.
    pub subscriber_ref: Option<ParticipantRef>,
    /// The subscriber's name for this subscription, quoted in every delivery.
    pub subscription_identifier: SubscriptionQualifier,
    /// When the subscription lapses unless renewed.
    pub initial_termination_time: DateTime,
    /// Whether this replaces an existing subscription with the same identifier.
    pub subscription_renewal: Option<bool>,
    /// What to subscribe to.
    pub general_message_request: GeneralMessageRequest,
    /// Implementation-defined content.
    pub extensions: Option<Extensions>,
}

impl GeneralMessageSubscriptionRequest {
    /// A subscription running until `initial_termination_time`.
    pub fn new(
        subscription_identifier: SubscriptionQualifier,
        initial_termination_time: DateTime,
        general_message_request: GeneralMessageRequest,
    ) -> (result: Self)
        ensures
            result.subscriber_ref is None,
            result.subscription_identifier == subscription_identifier,
            result.initial_termination_time == initial_termination_time,
            result.subscription_renewal is None,
            result.general_message_request == general_message_request,
            result.extensions is None,
    {
        Self {
            subscriber_ref: None,
            subscription_identifier,
            initial_termination_time,
            subscription_renewal: None,
            general_message_request,
            extensions: None,
        }
    }
}

} // verus!
