//! Fetched delivery: announcing that data is ready, asking for it, acknowledging it.
//!
//! A producer that does not push deliveries sends a [`DataReadyNotification`]
//! instead; the consumer answers with a [`DataReadyAcknowledgement`] and collects
//! the data with a [`DataSupplyRequest`].

use crate::framework::error_condition::{AcknowledgementError, ErrorCondition};
use crate::types::{EndpointAddress, MessageQualifier, MessageRef, ParticipantRef};
use crate::types::DateTime;
use vstd::prelude::*;

verus! {

/// A producer telling a consumer that data is waiting to be fetched.
#[derive(Debug, Clone, PartialEq)]
pub struct DataReadyNotification {
    /// When the notification was made.
    pub request_timestamp: DateTime,
    /// Account the producer authenticates as.
    pub account_id: Option<String>,
    /// Secret authenticating the account.
    pub account_key: Option<String>,
    /// Address of the producer.
    pub address: Option<EndpointAddress>,
    /// Who has data ready.
    pub producer_ref: Option<ParticipantRef>,
    /// Identifier the producer puts on this message, quoted back in the fetch.
    pub message_identifier: Option<MessageQualifier>,
    /// Address of the participant the notification is sent on behalf of.
    pub delegator_address: Option<EndpointAddress>,
    /// Participant the notification is sent on behalf of.
    pub delegator_ref: Option<ParticipantRef>,
}

impl DataReadyNotification {
    /// A notification from `producer_ref`.
    pub fn new(request_timestamp: DateTime, producer_ref: ParticipantRef) -> (result: Self)
        ensures
            result.request_timestamp == request_timestamp,
            result.account_id is None,
            result.account_key is None,
            result.address is None,
            result.producer_ref == Some(producer_ref),
            result.message_identifier is None,
            result.delegator_address is None,
            result.delegator_ref is None,
    {
        Self {
            request_timestamp,
            account_id: None,
            account_key: None,
            address: None,
            producer_ref: Some(producer_ref),
            message_identifier: None,
            delegator_address: None,
            delegator_ref: None,
        }
    }
}

/// A consumer acknowledging a [`DataReadyNotification`].
#[derive(Debug, Clone, PartialEq)]
pub struct DataReadyAcknowledgement {
    /// When the acknowledgement was made.
    pub response_timestamp: DateTime,
    /// Who acknowledges.
    pub consumer_ref: Option<ParticipantRef>,
    /// The notification being acknowledged.
    pub request_message_ref: Option<MessageRef>,
    /// Address of the participant the acknowledgement is sent on behalf of.
    pub delegator_address: Option<EndpointAddress>,
    /// Participant the acknowledgement is sent on behalf of.
    pub delegator_ref: Option<ParticipantRef>,
    /// Whether the notification was accepted.
    pub status: Option<bool>,
    /// Why the notification was not accepted.
    pub error_condition: Option<ErrorCondition<AcknowledgementError>>,
}

impl DataReadyAcknowledgement {
    /// An acknowledgement saying the notification was accepted.
    pub fn accepted(response_timestamp: DateTime, consumer_ref: ParticipantRef) -> (result: Self)
        ensures
            result.response_timestamp == response_timestamp,
            result.consumer_ref == Some(consumer_ref),
            result.request_message_ref is None,
            result.delegator_address is None,
            result.delegator_ref is None,
            result.status == Some(true),
            result.error_condition is None,
    {
        Self {
            response_timestamp,
            consumer_ref: Some(consumer_ref),
            request_message_ref: None,
            delegator_address: None,
            delegator_ref: None,
            status: Some(true),
            error_condition: None,
        }
    }
}

/// A consumer fetching the data a producer announced.
#[derive(Debug, Clone, PartialEq)]
pub struct DataSupplyRequest {
    /// When the request was made.
    pub request_timestamp: DateTime,
    /// Account the consumer authenticates as.
    pub account_id: Option<String>,
    /// Secret authenticating the account.
    pub account_key: Option<String>,
    /// Address of the consumer.
    pub address: Option<EndpointAddress>,
    /// Who is fetching.
    pub consumer_ref: Option<ParticipantRef>,
    /// Identifier the consumer puts on this message.
    pub message_identifier: Option<MessageQualifier>,
    /// Address of the participant the fetch is made on behalf of.
    pub delegator_address: Option<EndpointAddress>,
    /// Participant the fetch is made on behalf of.
    pub delegator_ref: Option<ParticipantRef>,
    /// The notification whose data is being fetched.
    pub notification_ref: Option<MessageRef>,
    /// Whether to send everything currently held rather than only what is new.
    pub all_data: Option<bool>,
}

impl DataSupplyRequest {
    /// A fetch by `consumer_ref` of whatever the producer holds for it.
    ///
    /// A fetch that answers one particular announcement names it in
    /// `notification_ref`; one that does not leaves the element out.
    pub fn new(request_timestamp: DateTime, consumer_ref: ParticipantRef) -> (result: Self)
        ensures
            result.request_timestamp == request_timestamp,
            result.account_id is None,
            result.account_key is None,
            result.address is None,
            result.consumer_ref == Some(consumer_ref),
            result.message_identifier is None,
            result.delegator_address is None,
            result.delegator_ref is None,
            result.notification_ref is None,
            result.all_data is None,
    {
        Self {
            request_timestamp,
            account_id: None,
            account_key: None,
            address: None,
            consumer_ref: Some(consumer_ref),
            message_identifier: None,
            delegator_address: None,
            delegator_ref: None,
            notification_ref: None,
            all_data: None,
        }
    }
}

/// A consumer acknowledging a delivery.
#[derive(Debug, Clone, PartialEq)]
pub struct DataReceivedAcknowledgement {
    /// When the acknowledgement was made.
    pub response_timestamp: DateTime,
    /// Who acknowledges.
    pub consumer_ref: Option<ParticipantRef>,
    /// The delivery being acknowledged.
    pub request_message_ref: Option<MessageRef>,
    /// Address of the participant the acknowledgement is sent on behalf of.
    pub delegator_address: Option<EndpointAddress>,
    /// Participant the acknowledgement is sent on behalf of.
    pub delegator_ref: Option<ParticipantRef>,
    /// Whether the delivery was processed successfully.
    pub status: Option<bool>,
    /// Why the delivery could not be processed.
    pub error_condition: Option<ErrorCondition<AcknowledgementError>>,
}

impl DataReceivedAcknowledgement {
    /// An acknowledgement saying the delivery was processed successfully.
    pub fn accepted(response_timestamp: DateTime, consumer_ref: ParticipantRef) -> (result: Self)
        ensures
            result.response_timestamp == response_timestamp,
            result.consumer_ref == Some(consumer_ref),
            result.request_message_ref is None,
            result.delegator_address is None,
            result.delegator_ref is None,
            result.status == Some(true),
            result.error_condition is None,
    {
        Self {
            response_timestamp,
            consumer_ref: Some(consumer_ref),
            request_message_ref: None,
            delegator_address: None,
            delegator_ref: None,
            status: Some(true),
            error_condition: None,
        }
    }
}

} // verus!
