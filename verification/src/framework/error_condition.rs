//! Error conditions a SIRI responder may report.
//!
//! Every error is an element substituting for `ErrorCode`, carrying an optional
//! `number` attribute and `ErrorText`, plus whatever detail the specific error adds.
//! The schema narrows which errors may appear in which message, so this module
//! exposes one enum per message family rather than a single catch-all — a
//! `CheckStatusResponse` can only report the two errors the schema allows it to.

use crate::types::{CapabilityRef, EndpointAddress, ParticipantRef, SubscriptionQualifier};
use crate::types::DateTime;
use vstd::prelude::*;

verus! {

/// An error that carries no detail beyond a number and a text.
#[derive(Debug, Clone, Default, PartialEq)]
pub struct ErrorCodeDetail {
    /// Implementation-specific error number.
    pub number: Option<i64>,
    /// Human-readable description of what went wrong.
    pub error_text: Option<String>,
}

/// The account key presented with the request was not approved.
#[derive(Debug, Clone, Default, PartialEq)]
pub struct UnapprovedKeyAccessError {
    /// Implementation-specific error number.
    pub number: Option<i64>,
    /// Human-readable description of what went wrong.
    pub error_text: Option<String>,
    /// The key that was presented.
    pub key: Option<String>,
}

/// The referenced participant is unknown to the responder.
#[derive(Debug, Clone, Default, PartialEq)]
pub struct UnknownParticipantError {
    /// Implementation-specific error number.
    pub number: Option<i64>,
    /// Human-readable description of what went wrong.
    pub error_text: Option<String>,
    /// The participant that is not known.
    pub participant_ref: Option<ParticipantRef>,
}

/// The referenced endpoint is unknown, denied or unavailable.
#[derive(Debug, Clone, Default, PartialEq)]
pub struct EndpointError {
    /// Implementation-specific error number.
    pub number: Option<i64>,
    /// Human-readable description of what went wrong.
    pub error_text: Option<String>,
    /// The endpoint the request named.
    pub endpoint: Option<EndpointAddress>,
}

/// The service is temporarily out of operation.
#[derive(Debug, Clone, Default, PartialEq)]
pub struct ServiceNotAvailableError {
    /// Implementation-specific error number.
    pub number: Option<i64>,
    /// Human-readable description of what went wrong.
    pub error_text: Option<String>,
    /// When the service expects to be available again.
    pub expected_restart_time: Option<DateTime>,
}

/// The request used a capability the service does not offer.
#[derive(Debug, Clone, Default, PartialEq)]
pub struct CapabilityNotSupportedError {
    /// Implementation-specific error number.
    pub number: Option<i64>,
    /// Human-readable description of what went wrong.
    pub error_text: Option<String>,
    /// The capability the request relied on.
    pub capability_ref: Option<CapabilityRef>,
}

/// The request referenced identifiers the responder does not know.
#[derive(Debug, Clone, Default, PartialEq)]
pub struct InvalidDataReferencesError {
    /// Implementation-specific error number.
    pub number: Option<i64>,
    /// Human-readable description of what went wrong.
    pub error_text: Option<String>,
    /// The identifiers the responder does not recognise.
    pub invalid_ref: Vec<String>,
}

/// The responder ignored request parameters it does not support.
#[derive(Debug, Clone, Default, PartialEq)]
pub struct ParametersIgnoredError {
    /// Implementation-specific error number.
    pub number: Option<i64>,
    /// Human-readable description of what went wrong.
    pub error_text: Option<String>,
    /// The parameters that were ignored.
    pub parameter_name: Vec<String>,
}

/// The responder did not understand extension content in the request.
#[derive(Debug, Clone, Default, PartialEq)]
pub struct UnknownExtensionsError {
    /// Implementation-specific error number.
    pub number: Option<i64>,
    /// Human-readable description of what went wrong.
    pub error_text: Option<String>,
    /// The extension elements that were not understood.
    pub extension_name: Vec<String>,
}

/// The subscriber the request names has no relationship with the responder.
#[derive(Debug, Clone, Default, PartialEq)]
pub struct UnknownSubscriberError {
    /// Implementation-specific error number.
    pub number: Option<i64>,
    /// Human-readable description of what went wrong.
    pub error_text: Option<String>,
    /// The subscriber that is not known.
    pub subscriber_ref: Option<ParticipantRef>,
}

/// The subscription the request names does not exist.
#[derive(Debug, Clone, Default, PartialEq)]
pub struct UnknownSubscriptionError {
    /// Implementation-specific error number.
    pub number: Option<i64>,
    /// Human-readable description of what went wrong.
    pub error_text: Option<String>,
    /// The subscription that is not known.
    pub subscription_code: Option<SubscriptionQualifier>,
}

/// Errors reporting that a request could not be routed or authorised, or that
/// the service could not answer it. This is SIRI's widest error choice; it
/// applies to subscription responses.
#[derive(Debug, Clone, PartialEq)]
#[non_exhaustive]
pub enum ServiceRequestError {
    /// The account key presented was not approved.
    UnapprovedKeyAccessError(UnapprovedKeyAccessError),
    /// The participant named in the request is unknown.
    UnknownParticipantError(UnknownParticipantError),
    /// The endpoint named in the request is unknown.
    UnknownEndpointError(EndpointError),
    /// The endpoint refused the request.
    EndpointDeniedAccessError(EndpointError),
    /// The endpoint could not be reached.
    EndpointNotAvailableAccessError(EndpointError),
    /// The service is temporarily out of operation.
    ServiceNotAvailableError(ServiceNotAvailableError),
    /// The request used an unsupported capability.
    CapabilityNotSupportedError(CapabilityNotSupportedError),
    /// The requestor is not allowed to see the data it asked for.
    AccessNotAllowedError(ErrorCodeDetail),
    /// The request referenced unknown identifiers.
    InvalidDataReferencesError(InvalidDataReferencesError),
    /// The request asked for data outside the service's data horizon.
    BeyondDataHorizon(ErrorCodeDetail),
    /// No data matched the requested topic.
    NoInfoForTopicError(ErrorCodeDetail),
    /// Some request parameters were ignored.
    ParametersIgnoredError(ParametersIgnoredError),
    /// Extension content in the request was not understood.
    UnknownExtensionsError(UnknownExtensionsError),
    /// The requestor exceeded its allowed resource usage.
    AllowedResourceUsageExceededError(ErrorCodeDetail),
    /// An error outside the standard set.
    OtherError(ErrorCodeDetail),
}

/// Errors a producer may report when a subscription it holds ends unexpectedly.
#[derive(Debug, Clone, PartialEq)]
#[non_exhaustive]
pub enum ApplicationError {
    /// The service is temporarily out of operation.
    ServiceNotAvailableError(ServiceNotAvailableError),
    /// The subscription used an unsupported capability.
    CapabilityNotSupportedError(CapabilityNotSupportedError),
    /// The subscriber is not allowed to see the data it subscribed to.
    AccessNotAllowedError(ErrorCodeDetail),
    /// The subscription referenced unknown identifiers.
    InvalidDataReferencesError(InvalidDataReferencesError),
    /// The subscription asked for data outside the service's data horizon.
    BeyondDataHorizon(ErrorCodeDetail),
    /// No data matched the subscribed topic.
    NoInfoForTopicError(ErrorCodeDetail),
    /// Some subscription parameters were ignored.
    ParametersIgnoredError(ParametersIgnoredError),
    /// Extension content in the subscription was not understood.
    UnknownExtensionsError(UnknownExtensionsError),
    /// The subscriber exceeded its allowed resource usage.
    AllowedResourceUsageExceededError(ErrorCodeDetail),
    /// An error outside the standard set.
    OtherError(ErrorCodeDetail),
}

/// Errors a `ServiceDelivery` may report about the request that produced it.
#[derive(Debug, Clone, PartialEq)]
#[non_exhaustive]
pub enum DeliveryError {
    /// The request used an unsupported capability.
    CapabilityNotSupportedError(CapabilityNotSupportedError),
    /// An error outside the standard set.
    OtherError(ErrorCodeDetail),
}

/// Errors a `TerminateSubscriptionResponse` may report per subscription.
#[derive(Debug, Clone, PartialEq)]
#[non_exhaustive]
pub enum TerminationError {
    /// The request used an unsupported capability.
    CapabilityNotSupportedError(CapabilityNotSupportedError),
    /// The subscriber is unknown to the producer.
    UnknownSubscriberError(UnknownSubscriberError),
    /// The subscription is unknown to the producer.
    UnknownSubscriptionError(UnknownSubscriptionError),
    /// An error outside the standard set.
    OtherError(ErrorCodeDetail),
}

/// Errors a consumer may report when acknowledging a data-ready notification or
/// a delivery.
#[derive(Debug, Clone, PartialEq)]
#[non_exhaustive]
pub enum AcknowledgementError {
    /// The subscription is unknown to the consumer.
    UnknownSubscriptionError(UnknownSubscriptionError),
    /// An error outside the standard set.
    OtherError(ErrorCodeDetail),
}

/// Errors a `CheckStatusResponse` or `HeartbeatNotification` may report.
#[derive(Debug, Clone, PartialEq)]
#[non_exhaustive]
pub enum StatusError {
    /// The service is temporarily out of operation.
    ServiceNotAvailableError(ServiceNotAvailableError),
    /// An error outside the standard set.
    OtherError(ErrorCodeDetail),
}

/// An error code together with the responder's description of it.
///
/// `C` is the choice of error elements the containing message may report, e.g.
/// [`StatusError`] for a `CheckStatusResponse`.
#[derive(Debug, Clone, PartialEq)]
pub struct ErrorCondition<C> {
    /// Which error occurred.
    pub code: C,
    /// Free text describing the error.
    pub description: Option<String>,
}

impl<C> ErrorCondition<C> {
    /// An error condition without a description.
    pub fn new(code: C) -> (result: Self)
        ensures
            result.code == code,
            result.description is None,
    {
        Self {
            code,
            description: None,
        }
    }

    /// An error condition with a description.
    pub fn with_description(code: C, description: String) -> (result: Self)
        ensures
            result.code == code,
            result.description == Some(description),
    {
        Self {
            code,
            description: Some(description),
        }
    }
}

} // verus!
