//! Delivering free-form messages.

use crate::framework::{ErrorCondition, ServiceRequestError};
use crate::model::SituationRef;
use crate::types::{
    AnyContent, Duration, EndpointAddress, Extensions, ItemIdentifier, ItemRef, MessageRef,
    ParticipantRef, SubscriptionFilterRef, SubscriptionRef,
};

use super::{InfoChannelRef, InfoMessageRef};
use crate::types::DateTime;
use vstd::prelude::*;

verus! {

/// The messages a producer is publishing.
///
/// A delivery either answers a
/// [`GeneralMessageRequest`](crate::gm::GeneralMessageRequest) — in which case it
/// quotes the request's identifier — or satisfies a subscription, in which case it
/// quotes the subscription's.
#[derive(Debug, Clone, PartialEq)]
pub struct GeneralMessageDelivery {
    /// Version of SIRI-GM the delivery conforms to.
    pub version: Option<String>,
    /// When the delivery was made.
    pub response_timestamp: DateTime,
    /// The request this delivery answers.
    pub request_message_ref: Option<MessageRef>,
    /// Who holds the subscription this delivery satisfies.
    pub subscriber_ref: Option<ParticipantRef>,
    /// The shared filter the subscription uses.
    pub subscription_filter_ref: Option<SubscriptionFilterRef>,
    /// The subscription this delivery satisfies.
    pub subscription_ref: Option<SubscriptionRef>,
    /// Address of the participant the data is delivered on behalf of.
    pub delegator_address: Option<EndpointAddress>,
    /// Participant the data is delivered on behalf of.
    pub delegator_ref: Option<ParticipantRef>,
    /// Whether the request or subscription was processed successfully.
    pub status: Option<bool>,
    /// Why it could not be processed.
    pub error_condition: Option<ErrorCondition<ServiceRequestError>>,
    /// How long this delivery holds.
    pub valid_until: Option<DateTime>,
    /// The shortest interval at which the producer will send updates.
    pub shortest_possible_cycle: Option<Duration>,
    /// The language texts are in unless a message says otherwise.
    pub default_language: Option<String>,
    /// The messages themselves.
    pub general_message: Vec<InfoMessage>,
    /// Messages the producer is withdrawing.
    pub general_message_cancellation: Vec<InfoMessageCancellation>,
    /// Implementation-defined content.
    pub extensions: Option<Extensions>,
}

impl GeneralMessageDelivery {
    /// A delivery carrying the given messages.
    pub fn new(response_timestamp: DateTime, general_message: Vec<InfoMessage>) -> (result: Self)
        ensures
            result.version is None,
            result.response_timestamp == response_timestamp,
            result.request_message_ref is None,
            result.subscriber_ref is None,
            result.subscription_filter_ref is None,
            result.subscription_ref is None,
            result.delegator_address is None,
            result.delegator_ref is None,
            result.status is None,
            result.error_condition is None,
            result.valid_until is None,
            result.shortest_possible_cycle is None,
            result.default_language is None,
            result.general_message == general_message,
            result.general_message_cancellation@.len() == 0,
            result.extensions is None,
    {
        Self {
            version: None,
            response_timestamp,
            request_message_ref: None,
            subscriber_ref: None,
            subscription_filter_ref: None,
            subscription_ref: None,
            delegator_address: None,
            delegator_ref: None,
            status: None,
            error_condition: None,
            valid_until: None,
            shortest_possible_cycle: None,
            default_language: None,
            general_message,
            general_message_cancellation: Vec::new(),
            extensions: None,
        }
    }
}

/// One message on one channel.
///
/// The body is whatever the two ends have agreed, so it is kept as the subtree it
/// was written as; `format_ref` names the vocabulary it is written in.
#[derive(Debug, Clone, PartialEq)]
pub struct InfoMessage {
    /// Which vocabulary the content is written in.
    pub format_ref: Option<String>,
    /// When the producer last knew this to be true.
    pub recorded_at_time: DateTime,
    /// The producer's identifier for this record, so that it can be superseded.
    pub item_identifier: Option<ItemIdentifier>,
    /// The message's own identifier, which a revision or a withdrawal quotes.
    pub info_message_identifier: InfoMessageRef,
    /// Which revision of that message this is.
    pub info_message_version: Option<u64>,
    /// The channel it is published on.
    pub info_channel_ref: Option<InfoChannelRef>,
    /// How long the message may be shown.
    pub valid_until_time: Option<DateTime>,
    /// The situation the message is about.
    pub situation_ref: Option<SituationRef>,
    /// The message itself.
    pub content: AnyContent,
    /// Implementation-defined content.
    pub extensions: Option<Extensions>,
}

impl InfoMessage {
    /// A message carrying the given content.
    pub fn new(
        recorded_at_time: DateTime,
        info_message_identifier: InfoMessageRef,
        content: AnyContent,
    ) -> (result: Self)
        ensures
            result.format_ref is None,
            result.recorded_at_time == recorded_at_time,
            result.item_identifier is None,
            result.info_message_identifier == info_message_identifier,
            result.info_message_version is None,
            result.info_channel_ref is None,
            result.valid_until_time is None,
            result.situation_ref is None,
            result.content == content,
            result.extensions is None,
    {
        Self {
            format_ref: None,
            recorded_at_time,
            item_identifier: None,
            info_message_identifier,
            info_message_version: None,
            info_channel_ref: None,
            valid_until_time: None,
            situation_ref: None,
            content,
            extensions: None,
        }
    }
}

/// A message the producer is withdrawing.
#[derive(Debug, Clone, PartialEq)]
pub struct InfoMessageCancellation {
    /// When the withdrawal was decided.
    pub recorded_at_time: DateTime,
    /// The record being withdrawn.
    pub item_ref: Option<ItemRef>,
    /// The message being withdrawn.
    pub info_message_identifier: InfoMessageRef,
    /// The channel it was published on.
    pub info_channel_ref: Option<InfoChannelRef>,
    /// Implementation-defined content.
    pub extensions: Option<Extensions>,
}

impl InfoMessageCancellation {
    /// A withdrawal of the message with the given identifier.
    pub fn new(
        recorded_at_time: DateTime,
        info_message_identifier: InfoMessageRef,
    ) -> (result: Self)
        ensures
            result.recorded_at_time == recorded_at_time,
            result.item_ref is None,
            result.info_message_identifier == info_message_identifier,
            result.info_channel_ref is None,
            result.extensions is None,
    {
        Self {
            recorded_at_time,
            item_ref: None,
            info_message_identifier,
            info_channel_ref: None,
            extensions: None,
        }
    }
}

} // verus!
