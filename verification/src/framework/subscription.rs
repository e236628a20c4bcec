//! Opening, renewing and closing subscriptions.

use crate::framework::error_condition::{
    ApplicationError, ErrorCondition, ServiceRequestError, TerminationError,
};
use crate::gm::GeneralMessageSubscriptionRequest;
use crate::pt::ProductionTimetableSubscriptionRequest;
use crate::types::{
    Duration, Empty, EndpointAddress, Extensions, MessageQualifier, MessageRef,
    NaturalLanguageString, ParticipantRef, SubscriptionFilterRef, SubscriptionQualifier,
    SubscriptionRef,
};
use crate::types::DateTime;
use crate::types::status_or_default;
use vstd::prelude::*;

verus! {

/// A request to open one or more subscriptions.
#[derive(Debug, Clone, PartialEq)]
pub struct SubscriptionRequest {
    /// When the request was made.
    pub request_timestamp: DateTime,
    /// Account the subscriber authenticates as.
    pub account_id: Option<String>,
    /// Secret authenticating the account.
    pub account_key: Option<String>,
    /// Address to send the subscription response to.
    pub address: Option<EndpointAddress>,
    /// Who is subscribing.
    pub requestor_ref: ParticipantRef,
    /// Identifier the subscriber puts on this message.
    pub message_identifier: Option<MessageQualifier>,
    /// Address of the participant this subscription is made on behalf of.
    pub delegator_address: Option<EndpointAddress>,
    /// Participant this subscription is made on behalf of.
    pub delegator_ref: Option<ParticipantRef>,
    /// Where deliveries for these subscriptions should be sent.
    pub consumer_address: Option<EndpointAddress>,
    /// Filter shared by the subscriptions in this request.
    pub subscription_filter_identifier: Option<String>,
    /// Settings that apply to every subscription in this request.
    pub subscription_context: Option<SubscriptionContext>,
    /// The subscriptions to open, all of the same functional service.
    pub subscriptions: Vec<SubscriptionRequestPayload>,
}

impl SubscriptionRequest {
    /// A subscription request from `requestor_ref` carrying the given subscriptions.
    pub fn new(
        request_timestamp: DateTime,
        requestor_ref: ParticipantRef,
        subscriptions: Vec<SubscriptionRequestPayload>,
    ) -> (result: Self)
        ensures
            result.request_timestamp == request_timestamp,
            result.account_id is None,
            result.account_key is None,
            result.address is None,
            result.requestor_ref == requestor_ref,
            result.message_identifier is None,
            result.delegator_address is None,
            result.delegator_ref is None,
            result.consumer_address is None,
            result.subscription_filter_identifier is None,
            result.subscription_context is None,
            result.subscriptions == subscriptions,
    {
        Self {
            request_timestamp,
            account_id: None,
            account_key: None,
            address: None,
            requestor_ref,
            message_identifier: None,
            delegator_address: None,
            delegator_ref: None,
            consumer_address: None,
            subscription_filter_identifier: None,
            subscription_context: None,
            subscriptions,
        }
    }
}

/// A functional service subscription inside a [`SubscriptionRequest`].
///
/// Non-exhaustive so that further services can be added without a breaking change.
#[derive(Debug, Clone, PartialEq)]
#[non_exhaustive]
pub enum SubscriptionRequestPayload {
    /// A subscription to a planned timetable.
    ProductionTimetableSubscriptionRequest(Box<ProductionTimetableSubscriptionRequest>),
    /// A subscription to free-form messages.
    GeneralMessageSubscriptionRequest(Box<GeneralMessageSubscriptionRequest>),
}

impl SubscriptionRequestPayload {
    /// The subscriber's name for the subscription, whichever service it is to.
    pub fn subscription_identifier(&self) -> (identifier: &SubscriptionQualifier)
        ensures
            match self {
                SubscriptionRequestPayload::ProductionTimetableSubscriptionRequest(request) => {
                    *identifier == request.subscription_identifier
                },
                SubscriptionRequestPayload::GeneralMessageSubscriptionRequest(request) => {
                    *identifier == request.subscription_identifier
                },
            },
    {
        match self {
            SubscriptionRequestPayload::ProductionTimetableSubscriptionRequest(request) => {
                &request.subscription_identifier
            },
            SubscriptionRequestPayload::GeneralMessageSubscriptionRequest(request) => {
                &request.subscription_identifier
            },
        }
    }
}

impl From<ProductionTimetableSubscriptionRequest> for SubscriptionRequestPayload {
    fn from(request: ProductionTimetableSubscriptionRequest) -> Self {
        Self::ProductionTimetableSubscriptionRequest(Box::new(request))
    }
}

impl vstd::std_specs::convert::FromSpecImpl<ProductionTimetableSubscriptionRequest> for SubscriptionRequestPayload {
    open spec fn obeys_from_spec() -> bool {
        true
    }

    open spec fn from_spec(request: ProductionTimetableSubscriptionRequest) -> Self {
        Self::ProductionTimetableSubscriptionRequest(Box::new(request))
    }
}

impl From<GeneralMessageSubscriptionRequest> for SubscriptionRequestPayload {
    fn from(request: GeneralMessageSubscriptionRequest) -> Self {
        Self::GeneralMessageSubscriptionRequest(Box::new(request))
    }
}

impl vstd::std_specs::convert::FromSpecImpl<GeneralMessageSubscriptionRequest> for SubscriptionRequestPayload {
    open spec fn obeys_from_spec() -> bool {
        true
    }

    open spec fn from_spec(request: GeneralMessageSubscriptionRequest) -> Self {
        Self::GeneralMessageSubscriptionRequest(Box::new(request))
    }
}

/// Settings that apply to every subscription in a request.
#[derive(Debug, Clone, Default, PartialEq)]
pub struct SubscriptionContext {
    /// How often the producer should send a heartbeat while the subscription lives.
    pub heartbeat_interval: Option<Duration>,
}

impl SubscriptionContext {
    /// A context asking for a heartbeat at the given interval.
    pub fn with_heartbeat_interval(heartbeat_interval: Duration) -> (result: Self)
        ensures
            result.heartbeat_interval == Some(heartbeat_interval),
    {
        Self {
            heartbeat_interval: Some(heartbeat_interval),
        }
    }
}

/// The outcome of a [`SubscriptionRequest`], one [`StatusResponse`] per subscription.
#[derive(Debug, Clone, PartialEq)]
pub struct SubscriptionResponse {
    /// When the response was made.
    pub response_timestamp: DateTime,
    /// Address of the responder.
    pub address: Option<EndpointAddress>,
    /// Who answered.
    pub responder_ref: Option<ParticipantRef>,
    /// The subscription request this answers.
    pub request_message_ref: Option<MessageRef>,
    /// Address of the participant the answer is given on behalf of.
    pub delegator_address: Option<EndpointAddress>,
    /// Participant the answer is given on behalf of.
    pub delegator_ref: Option<ParticipantRef>,
    /// One status per requested subscription.
    pub response_status: Vec<StatusResponse>,
    /// Where to send later subscription management requests.
    pub subscription_manager_address: Option<EndpointAddress>,
    /// When the producer's service last started.
    pub service_started_time: Option<DateTime>,
    /// Implementation-defined content.
    pub extensions: Option<Extensions>,
}

impl SubscriptionResponse {
    /// A response from `responder_ref` carrying the given per-subscription statuses.
    pub fn new(
        response_timestamp: DateTime,
        responder_ref: ParticipantRef,
        response_status: Vec<StatusResponse>,
    ) -> (result: Self)
        ensures
            result.response_timestamp == response_timestamp,
            result.address is None,
            result.responder_ref == Some(responder_ref),
            result.request_message_ref is None,
            result.delegator_address is None,
            result.delegator_ref is None,
            result.response_status == response_status,
            result.subscription_manager_address is None,
            result.service_started_time is None,
            result.extensions is None,
    {
        Self {
            response_timestamp,
            address: None,
            responder_ref: Some(responder_ref),
            request_message_ref: None,
            delegator_address: None,
            delegator_ref: None,
            response_status,
            subscription_manager_address: None,
            service_started_time: None,
            extensions: None,
        }
    }

    /// Whether every subscription in the request was accepted.
    pub fn all_accepted(&self) -> (all: bool)
        ensures
            all == forall|i: int|
                0 <= i < self.response_status@.len()
                    ==> #[trigger] status_or_default(self.response_status@[i].status),
    {
        let mut i: usize = 0;
        while i < self.response_status.len()
            invariant
                i <= self.response_status@.len(),
                forall|j: int|
                    0 <= j < i ==> #[trigger] status_or_default(self.response_status@[j].status),
            decreases self.response_status@.len() - i,
        {
            if !self.response_status[i].is_accepted() {
                return false;
            }
            i = i + 1;
        }
        true
    }
}

/// The outcome for one subscription within a [`SubscriptionResponse`].
#[derive(Debug, Clone, PartialEq)]
pub struct StatusResponse {
    /// When this status was determined.
    pub response_timestamp: DateTime,
    /// The request this status answers.
    pub request_message_ref: Option<MessageRef>,
    /// Who subscribed.
    pub subscriber_ref: Option<ParticipantRef>,
    /// The shared filter the subscription uses.
    pub subscription_filter_ref: Option<SubscriptionFilterRef>,
    /// The subscription this status is about.
    pub subscription_ref: SubscriptionRef,
    /// Whether the subscription was accepted.
    pub status: Option<bool>,
    /// Why the subscription was refused.
    pub error_condition: Option<ErrorCondition<ServiceRequestError>>,
    /// How long the producer guarantees this answer.
    pub valid_until: Option<DateTime>,
    /// The shortest interval at which the producer will send updates.
    pub shortest_possible_cycle: Option<Duration>,
}

impl StatusResponse {
    /// A status saying the subscription was accepted.
    pub fn accepted(
        response_timestamp: DateTime,
        subscription_ref: SubscriptionRef,
    ) -> (result: Self)
        ensures
            result.response_timestamp == response_timestamp,
            result.request_message_ref is None,
            result.subscriber_ref is None,
            result.subscription_filter_ref is None,
            result.subscription_ref == subscription_ref,
            result.status == Some(true),
            result.error_condition is None,
            result.valid_until is None,
            result.shortest_possible_cycle is None,
    {
        Self {
            response_timestamp,
            request_message_ref: None,
            subscriber_ref: None,
            subscription_filter_ref: None,
            subscription_ref,
            status: Some(true),
            error_condition: None,
            valid_until: None,
            shortest_possible_cycle: None,
        }
    }

    /// A status saying the subscription was refused, with the reason.
    pub fn refused(
        response_timestamp: DateTime,
        subscription_ref: SubscriptionRef,
        error_condition: ErrorCondition<ServiceRequestError>,
    ) -> (result: Self)
        ensures
            result.response_timestamp == response_timestamp,
            result.request_message_ref is None,
            result.subscriber_ref is None,
            result.subscription_filter_ref is None,
            result.subscription_ref == subscription_ref,
            result.status == Some(false),
            result.error_condition == Some(error_condition),
            result.valid_until is None,
            result.shortest_possible_cycle is None,
    {
        Self {
            response_timestamp,
            request_message_ref: None,
            subscriber_ref: None,
            subscription_filter_ref: None,
            subscription_ref,
            status: Some(false),
            error_condition: Some(error_condition),
            valid_until: None,
            shortest_possible_cycle: None,
        }
    }

    /// Whether the subscription was accepted.
    ///
    /// `Status` is optional in the schema and defaults to true, so a status
    /// without the element counts as accepted.
    pub fn is_accepted(&self) -> (accepted: bool)
        ensures
            accepted == status_or_default(self.status),
    {
        match self.status {
            Some(status) => status,
            None => true,
        }
    }
}

/// A request to close subscriptions.
#[derive(Debug, Clone, PartialEq)]
pub struct TerminateSubscriptionRequest {
    /// When the request was made.
    pub request_timestamp: DateTime,
    /// Account the requestor authenticates as.
    pub account_id: Option<String>,
    /// Secret authenticating the account.
    pub account_key: Option<String>,
    /// Address to send the response to.
    pub address: Option<EndpointAddress>,
    /// Who is asking.
    pub requestor_ref: ParticipantRef,
    /// Identifier the requestor puts on this message.
    pub message_identifier: Option<MessageQualifier>,
    /// Address of the participant this request is made on behalf of.
    pub delegator_address: Option<EndpointAddress>,
    /// Participant this request is made on behalf of.
    pub delegator_ref: Option<ParticipantRef>,
    /// Whose subscriptions to close, if not the requestor's own.
    pub subscriber_ref: Option<ParticipantRef>,
    /// Present to close every subscription the subscriber holds.
    pub all: Option<Empty>,
    /// The individual subscriptions to close.
    pub subscription_ref: Vec<SubscriptionQualifier>,
    /// Implementation-defined content.
    pub extensions: Option<Extensions>,
}

/// Which subscriptions a [`TerminateSubscriptionRequest`] closes.
#[derive(Debug, Clone, Copy, PartialEq, Eq)]
#[non_exhaustive]
pub enum TerminationScope<'a> {
    /// Every subscription the subscriber holds.
    All,
    /// The listed subscriptions.
    Subscriptions(&'a [SubscriptionQualifier]),
}

impl TerminateSubscriptionRequest {
    /// A request closing every subscription the requestor holds.
    pub fn all(request_timestamp: DateTime, requestor_ref: ParticipantRef) -> (result: Self)
        ensures
            result.request_timestamp == request_timestamp,
            result.account_id is None,
            result.account_key is None,
            result.address is None,
            result.requestor_ref == requestor_ref,
            result.message_identifier is None,
            result.delegator_address is None,
            result.delegator_ref is None,
            result.subscriber_ref is None,
            result.all == Some(Empty),
            result.subscription_ref@.len() == 0,
            result.extensions is None,
    {
        Self {
            request_timestamp,
            account_id: None,
            account_key: None,
            address: None,
            requestor_ref,
            message_identifier: None,
            delegator_address: None,
            delegator_ref: None,
            subscriber_ref: None,
            all: Some(Empty),
            subscription_ref: Vec::new(),
            extensions: None,
        }
    }

    /// A request closing the named subscriptions.
    pub fn subscriptions(
        request_timestamp: DateTime,
        requestor_ref: ParticipantRef,
        subscription_ref: Vec<SubscriptionQualifier>,
    ) -> (result: Self)
        ensures
            result.request_timestamp == request_timestamp,
            result.account_id is None,
            result.account_key is None,
            result.address is None,
            result.requestor_ref == requestor_ref,
            result.message_identifier is None,
            result.delegator_address is None,
            result.delegator_ref is None,
            result.subscriber_ref is None,
            result.all is None,
            result.subscription_ref == subscription_ref,
            result.extensions is None,
    {
        Self {
            request_timestamp,
            account_id: None,
            account_key: None,
            address: None,
            requestor_ref,
            message_identifier: None,
            delegator_address: None,
            delegator_ref: None,
            subscriber_ref: None,
            all: None,
            subscription_ref,
            extensions: None,
        }
    }

    /// Which alternative of the schema's choice this request carries, or `None`
    /// when neither is present.
    pub fn scope(&self) -> (scope: Option<TerminationScope<'_>>)
        ensures
            match scope {
                Some(TerminationScope::All) => self.all is Some,
                Some(TerminationScope::Subscriptions(named)) => {
                    &&& self.all is None
                    &&& self.subscription_ref@.len() > 0
                    &&& named@ == self.subscription_ref@
                },
                None => self.all is None && self.subscription_ref@.len() == 0,
            },
    {
        if self.all.is_some() {
            Some(TerminationScope::All)
        } else if self.subscription_ref.len() == 0 {
            None
        } else {
            Some(TerminationScope::Subscriptions(self.subscription_ref.as_slice()))
        }
    }
}

/// The outcome of a [`TerminateSubscriptionRequest`].
#[derive(Debug, Clone, PartialEq)]
pub struct TerminateSubscriptionResponse {
    /// When the response was made.
    pub response_timestamp: DateTime,
    /// Address of the responder.
    pub address: Option<EndpointAddress>,
    /// Who answered.
    pub responder_ref: Option<ParticipantRef>,
    /// The termination request this answers.
    pub request_message_ref: Option<MessageRef>,
    /// Address of the participant the answer is given on behalf of.
    pub delegator_address: Option<EndpointAddress>,
    /// Participant the answer is given on behalf of.
    pub delegator_ref: Option<ParticipantRef>,
    /// One status per subscription the request named.
    pub termination_response_status: Vec<TerminationResponseStatus>,
}

impl TerminateSubscriptionResponse {
    /// A response from `responder_ref` carrying the given per-subscription statuses.
    pub fn new(
        response_timestamp: DateTime,
        responder_ref: ParticipantRef,
        termination_response_status: Vec<TerminationResponseStatus>,
    ) -> (result: Self)
        ensures
            result.response_timestamp == response_timestamp,
            result.address is None,
            result.responder_ref == Some(responder_ref),
            result.request_message_ref is None,
            result.delegator_address is None,
            result.delegator_ref is None,
            result.termination_response_status == termination_response_status,
    {
        Self {
            response_timestamp,
            address: None,
            responder_ref: Some(responder_ref),
            request_message_ref: None,
            delegator_address: None,
            delegator_ref: None,
            termination_response_status,
        }
    }
}

/// The outcome for one subscription within a [`TerminateSubscriptionResponse`].
#[derive(Debug, Clone, PartialEq)]
pub struct TerminationResponseStatus {
    /// When this status was determined.
    pub response_timestamp: Option<DateTime>,
    /// The request this status answers.
    pub request_message_ref: Option<MessageRef>,
    /// Who held the subscription.
    pub subscriber_ref: Option<ParticipantRef>,
    /// The shared filter the subscription used.
    pub subscription_filter_ref: Option<SubscriptionFilterRef>,
    /// The subscription this status is about.
    pub subscription_ref: SubscriptionRef,
    /// Whether the subscription was closed.
    pub status: Option<bool>,
    /// Why the subscription could not be closed.
    pub error_condition: Option<ErrorCondition<TerminationError>>,
}

impl TerminationResponseStatus {
    /// A status saying the subscription was closed.
    pub fn terminated(
        response_timestamp: DateTime,
        subscription_ref: SubscriptionRef,
    ) -> (result: Self)
        ensures
            result.response_timestamp == Some(response_timestamp),
            result.request_message_ref is None,
            result.subscriber_ref is None,
            result.subscription_filter_ref is None,
            result.subscription_ref == subscription_ref,
            result.status == Some(true),
            result.error_condition is None,
    {
        Self {
            response_timestamp: Some(response_timestamp),
            request_message_ref: None,
            subscriber_ref: None,
            subscription_filter_ref: None,
            subscription_ref,
            status: Some(true),
            error_condition: None,
        }
    }

    /// A status saying the subscription could not be closed, with the reason.
    pub fn refused(
        response_timestamp: DateTime,
        subscription_ref: SubscriptionRef,
        error_condition: ErrorCondition<TerminationError>,
    ) -> (result: Self)
        ensures
            result.response_timestamp == Some(response_timestamp),
            result.request_message_ref is None,
            result.subscriber_ref is None,
            result.subscription_filter_ref is None,
            result.subscription_ref == subscription_ref,
            result.status == Some(false),
            result.error_condition == Some(error_condition),
    {
        Self {
            response_timestamp: Some(response_timestamp),
            request_message_ref: None,
            subscriber_ref: None,
            subscription_filter_ref: None,
            subscription_ref,
            status: Some(false),
            error_condition: Some(error_condition),
        }
    }
}

/// A producer telling a consumer it has ended a subscription of its own accord.
#[derive(Debug, Clone, PartialEq)]
pub struct SubscriptionTerminatedNotification {
    /// When the notification was made.
    pub response_timestamp: DateTime,
    /// Who ended the subscription.
    pub producer_ref: Option<ParticipantRef>,
    /// Address of the producer.
    pub address: Option<EndpointAddress>,
    /// Identifier the producer puts on this message.
    pub response_message_identifier: Option<MessageQualifier>,
    /// The message this notification relates to.
    pub request_message_ref: Option<MessageRef>,
    /// Address of the participant the notification is sent on behalf of.
    pub delegator_address: Option<EndpointAddress>,
    /// Participant the notification is sent on behalf of.
    pub delegator_ref: Option<ParticipantRef>,
    /// Who held the subscription.
    pub subscriber_ref: Option<ParticipantRef>,
    /// The shared filter the subscription used.
    pub subscription_filter_ref: Option<SubscriptionFilterRef>,
    /// The subscription that ended.
    pub subscription_ref: SubscriptionRef,
    /// Why the subscription ended.
    ///
    /// The element name carries a spelling mistake that has been in the published
    /// schema since SIRI 2.0 and is kept here so documents stay valid.
    pub error_condition: Option<SubscriptionTerminatedErrorCondition>,
    /// Implementation-defined content.
    pub extensions: Option<Extensions>,
}

/// Why a producer ended a subscription.
///
/// Unlike the other error conditions this one describes itself with a
/// [`NaturalLanguageString`], which is what the schema prescribes here.
#[derive(Debug, Clone, PartialEq)]
pub struct SubscriptionTerminatedErrorCondition {
    /// Which error occurred.
    pub code: ApplicationError,
    /// Free text describing the error.
    pub description: Option<NaturalLanguageString>,
}

} // verus!
