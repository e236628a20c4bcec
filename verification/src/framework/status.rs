//! Checking that a service is alive: `CheckStatus` on demand, `Heartbeat` on a timer.

use crate::framework::error_condition::{ErrorCondition, StatusError};
use crate::types::{
    Duration, EndpointAddress, Extensions, MessageQualifier, MessageRef, ParticipantRef,
};
use crate::types::DateTime;
use crate::types::status_or_default;
use vstd::prelude::*;

verus! {

/// A request for the current operational status of a service.
#[derive(Debug, Clone, PartialEq)]
pub struct CheckStatusRequest {
    /// Version of SIRI the request conforms to.
    pub version: Option<String>,
    /// When the request was made.
    pub request_timestamp: DateTime,
    /// Account the requestor authenticates as.
    pub account_id: Option<String>,
    /// Secret authenticating the account.
    pub account_key: Option<String>,
    /// Address to send the answer to.
    pub address: Option<EndpointAddress>,
    /// Who is asking.
    pub requestor_ref: ParticipantRef,
    /// Identifier the requestor puts on this message.
    pub message_identifier: Option<MessageQualifier>,
    /// Address of the participant this request is made on behalf of.
    pub delegator_address: Option<EndpointAddress>,
    /// Participant this request is made on behalf of.
    pub delegator_ref: Option<ParticipantRef>,
    /// Implementation-defined content.
    pub extensions: Option<Extensions>,
}

impl CheckStatusRequest {
    /// A status request from `requestor_ref`.
    pub fn new(request_timestamp: DateTime, requestor_ref: ParticipantRef) -> (result: Self)
        ensures
            result.version is None,
            result.request_timestamp == request_timestamp,
            result.account_id is None,
            result.account_key is None,
            result.address is None,
            result.requestor_ref == requestor_ref,
            result.message_identifier is None,
            result.delegator_address is None,
            result.delegator_ref is None,
            result.extensions is None,
    {
        Self {
            version: None,
            request_timestamp,
            account_id: None,
            account_key: None,
            address: None,
            requestor_ref,
            message_identifier: None,
            delegator_address: None,
            delegator_ref: None,
            extensions: None,
        }
    }
}

/// The current operational status of a service.
#[derive(Debug, Clone, PartialEq)]
pub struct CheckStatusResponse {
    /// When the response was made.
    pub response_timestamp: DateTime,
    /// Who answered.
    pub producer_ref: Option<ParticipantRef>,
    /// Address of the producer.
    pub address: Option<EndpointAddress>,
    /// Identifier the producer puts on this message.
    pub response_message_identifier: Option<MessageQualifier>,
    /// The status request this answers.
    pub request_message_ref: Option<MessageRef>,
    /// Address of the participant the answer is given on behalf of.
    pub delegator_address: Option<EndpointAddress>,
    /// Participant the answer is given on behalf of.
    pub delegator_ref: Option<ParticipantRef>,
    /// Whether the service is working normally.
    pub status: Option<bool>,
    /// Whether data is waiting to be fetched.
    pub data_ready: Option<bool>,
    /// What is wrong with the service.
    pub error_condition: Option<ErrorCondition<StatusError>>,
    /// How long this answer holds.
    pub valid_until: Option<DateTime>,
    /// The shortest interval at which the producer will accept requests.
    pub shortest_possible_cycle: Option<Duration>,
    /// When the producer's service last started.
    ///
    /// A restart invalidates the producer's subscriptions, so a consumer that sees
    /// this move forward re-subscribes.
    pub service_started_time: Option<DateTime>,
    /// Implementation-defined content.
    pub extensions: Option<Extensions>,
}

impl CheckStatusResponse {
    /// A response saying the service is working normally.
    pub fn healthy(
        response_timestamp: DateTime,
        producer_ref: ParticipantRef,
        service_started_time: DateTime,
    ) -> (result: Self)
        ensures
            result.response_timestamp == response_timestamp,
            result.producer_ref == Some(producer_ref),
            result.address is None,
            result.response_message_identifier is None,
            result.request_message_ref is None,
            result.delegator_address is None,
            result.delegator_ref is None,
            result.status == Some(true),
            result.data_ready is None,
            result.error_condition is None,
            result.valid_until is None,
            result.shortest_possible_cycle is None,
            result.service_started_time == Some(service_started_time),
            result.extensions is None,
    {
        Self {
            response_timestamp,
            producer_ref: Some(producer_ref),
            address: None,
            response_message_identifier: None,
            request_message_ref: None,
            delegator_address: None,
            delegator_ref: None,
            status: Some(true),
            data_ready: None,
            error_condition: None,
            valid_until: None,
            shortest_possible_cycle: None,
            service_started_time: Some(service_started_time),
            extensions: None,
        }
    }

    /// Whether the service reported itself as working.
    ///
    /// `Status` is optional in the schema and defaults to true.
    pub fn is_healthy(&self) -> (flag: bool)
        ensures
            flag == status_or_default(self.status),
    {
        match self.status {
            Some(status) => status,
            None => true,
        }
    }
}

/// A producer's unsolicited sign of life.
#[derive(Debug, Clone, PartialEq)]
pub struct HeartbeatNotification {
    /// When the heartbeat was sent.
    pub request_timestamp: DateTime,
    /// Account the producer authenticates as.
    pub account_id: Option<String>,
    /// Secret authenticating the account.
    pub account_key: Option<String>,
    /// Address of the producer.
    pub address: Option<EndpointAddress>,
    /// Who is alive.
    pub producer_ref: Option<ParticipantRef>,
    /// Identifier the producer puts on this message.
    pub message_identifier: Option<MessageQualifier>,
    /// Address of the participant the heartbeat is sent on behalf of.
    pub delegator_address: Option<EndpointAddress>,
    /// Participant the heartbeat is sent on behalf of.
    pub delegator_ref: Option<ParticipantRef>,
    /// Whether the service is working normally.
    pub status: Option<bool>,
    /// Whether data is waiting to be fetched.
    pub data_ready: Option<bool>,
    /// What is wrong with the service.
    pub error_condition: Option<ErrorCondition<StatusError>>,
    /// How long this heartbeat holds; a consumer that sees it lapse re-checks.
    pub valid_until: Option<DateTime>,
    /// The shortest interval at which the producer will accept requests.
    pub shortest_possible_cycle: Option<Duration>,
    /// When the producer's service last started.
    pub service_started_time: Option<DateTime>,
    /// Implementation-defined content.
    pub extensions: Option<Extensions>,
}

impl HeartbeatNotification {
    /// A heartbeat saying the service is working normally.
    pub fn healthy(
        request_timestamp: DateTime,
        producer_ref: ParticipantRef,
        service_started_time: DateTime,
    ) -> (result: Self)
        ensures
            result.request_timestamp == request_timestamp,
            result.account_id is None,
            result.account_key is None,
            result.address is None,
            result.producer_ref == Some(producer_ref),
            result.message_identifier is None,
            result.delegator_address is None,
            result.delegator_ref is None,
            result.status == Some(true),
            result.data_ready is None,
            result.error_condition is None,
            result.valid_until is None,
            result.shortest_possible_cycle is None,
            result.service_started_time == Some(service_started_time),
            result.extensions is None,
    {
        Self {
            request_timestamp,
            account_id: None,
            account_key: None,
            address: None,
            producer_ref: Some(producer_ref),
            message_identifier: None,
            delegator_address: None,
            delegator_ref: None,
            status: Some(true),
            data_ready: None,
            error_condition: None,
            valid_until: None,
            shortest_possible_cycle: None,
            service_started_time: Some(service_started_time),
            extensions: None,
        }
    }
}

} // verus!
