//! The `<Siri>` document envelope and the two payload-carrying messages inside it.

use crate::enumerations::{DeliveryMethod, Predictors};
use crate::framework::capabilities::{CapabilitiesRequest, CapabilitiesResponse};
use crate::framework::delivery::{
    DataReadyAcknowledgement, DataReadyNotification, DataReceivedAcknowledgement, DataSupplyRequest,
};
use crate::framework::discovery::{
    LinesDelivery, LinesRequest, ProductCategoriesDelivery, ProductCategoriesRequest,
    ServiceFeaturesDelivery, ServiceFeaturesRequest, StopPointsDelivery, StopPointsRequest,
    VehicleFeaturesDelivery, VehicleFeaturesRequest,
};
use crate::framework::error_condition::{DeliveryError, ErrorCondition};
use crate::framework::status::{CheckStatusRequest, CheckStatusResponse, HeartbeatNotification};
use crate::framework::subscription::{
    SubscriptionRequest, SubscriptionResponse, SubscriptionTerminatedNotification,
    TerminateSubscriptionRequest, TerminateSubscriptionResponse,
};
use crate::gm::{GeneralMessageDelivery, GeneralMessageRequest};
use crate::pt::{ProductionTimetableDelivery, ProductionTimetableRequest};
use crate::types::{
    Duration, EndpointAddress, Empty, Extensions, MessageQualifier, MessageRef, ParticipantRef,
};
use crate::types::DateTime;
use vstd::prelude::*;

verus! {

/// The document element every SIRI exchange is wrapped in.
///
/// A SIRI document carries exactly one message; which one is the [`SiriPayload`].
#[derive(Debug, Clone, PartialEq)]
pub struct Siri {
    /// Version of SIRI the document conforms to, e.g. `2.1`.
    pub version: Option<String>,
    /// The message this document carries.
    pub payload: SiriPayload,
    /// Implementation-defined content.
    pub extensions: Option<Extensions>,
}

impl Siri {
    /// Wraps a message in a `<Siri>` envelope declaring the given SIRI version.
    pub fn new(version: String, payload: SiriPayload) -> (result: Self)
        ensures
            result.version == Some(version),
            result.payload == payload,
            result.extensions is None,
    {
        Self {
            version: Some(version),
            payload,
            extensions: None,
        }
    }
}

/// The message a [`Siri`] document carries.
///
/// The variants are the global elements the schema allows directly under
/// `<Siri>`; the variant name is the element name.
#[derive(Debug, Clone, PartialEq)]
pub enum SiriPayload {

    /// A direct request for data from one or more functional services.
    ServiceRequest(ServiceRequest),

    /// A request to open one or more subscriptions.
    SubscriptionRequest(SubscriptionRequest),

    /// A request to close subscriptions.
    TerminateSubscriptionRequest(TerminateSubscriptionRequest),

    /// A producer telling a consumer that data is waiting to be fetched.
    DataReadyNotification(DataReadyNotification),

    /// A consumer fetching the data a producer announced.
    DataSupplyRequest(DataSupplyRequest),

    /// A request for the current operational status of a service.
    CheckStatusRequest(CheckStatusRequest),

    /// A producer's unsolicited sign of life.
    HeartbeatNotification(HeartbeatNotification),

    /// A request for the capabilities of one or more functional services.
    CapabilitiesRequest(CapabilitiesRequest),

    /// A request for the stop points a producer serves.
    StopPointsRequest(StopPointsRequest),

    /// A request for the lines a producer serves.
    LinesRequest(LinesRequest),

    /// A request for the service features a producer uses.
    ServiceFeaturesRequest(ServiceFeaturesRequest),

    /// A request for the vehicle features a producer uses.
    VehicleFeaturesRequest(VehicleFeaturesRequest),

    /// A request for the product categories a producer uses.
    ProductCategoriesRequest(ProductCategoriesRequest),

    /// The outcome of a subscription request, one status per subscription.
    SubscriptionResponse(SubscriptionResponse),

    /// The outcome of a termination request, one status per subscription.
    TerminateSubscriptionResponse(TerminateSubscriptionResponse),

    /// A producer telling a consumer that it has ended a subscription.
    SubscriptionTerminatedNotification(SubscriptionTerminatedNotification),

    /// A consumer acknowledging a data-ready notification.
    DataReadyAcknowledgement(DataReadyAcknowledgement),

    /// Payload data, either answering a request or satisfying a subscription.
    ServiceDelivery(ServiceDelivery),

    /// A consumer acknowledging a delivery.
    DataReceivedAcknowledgement(DataReceivedAcknowledgement),

    /// The current operational status of a service.
    CheckStatusResponse(CheckStatusResponse),

    /// The capabilities of one or more functional services.
    CapabilitiesResponse(CapabilitiesResponse),

    /// The stop points a producer serves.
    StopPointsDelivery(StopPointsDelivery),

    /// The lines a producer serves.
    LinesDelivery(LinesDelivery),

    /// The service features a producer uses.
    ServiceFeaturesDelivery(ServiceFeaturesDelivery),

    /// The vehicle features a producer uses.
    VehicleFeaturesDelivery(VehicleFeaturesDelivery),

    /// The product categories a producer uses.
    ProductCategoriesDelivery(ProductCategoriesDelivery),
}

impl SiriPayload {
    /// The payload as a `ServiceRequest`, or `None` if it is another message.
    pub fn as_service_request(&self) -> (inner: Option<&ServiceRequest>)
        ensures
            match self {
                SiriPayload::ServiceRequest(message) => inner == Some(message),
                _ => inner is None,
            },
    {
        match self {
            SiriPayload::ServiceRequest(message) => Some(message),
            _ => None,
        }
    }

    /// The payload as a `SubscriptionRequest`, or `None` if it is another message.
    pub fn as_subscription_request(&self) -> (inner: Option<&SubscriptionRequest>)
        ensures
            match self {
                SiriPayload::SubscriptionRequest(message) => inner == Some(message),
                _ => inner is None,
            },
    {
        match self {
            SiriPayload::SubscriptionRequest(message) => Some(message),
            _ => None,
        }
    }

    /// The payload as a `TerminateSubscriptionRequest`, or `None` if it is another message.
    pub fn as_terminate_subscription_request(
        &self,
    ) -> (inner: Option<&TerminateSubscriptionRequest>)
        ensures
            match self {
                SiriPayload::TerminateSubscriptionRequest(message) => inner == Some(message),
                _ => inner is None,
            },
    {
        match self {
            SiriPayload::TerminateSubscriptionRequest(message) => Some(message),
            _ => None,
        }
    }

    /// The payload as a `DataReadyNotification`, or `None` if it is another message.
    pub fn as_data_ready_notification(&self) -> (inner: Option<&DataReadyNotification>)
        ensures
            match self {
                SiriPayload::DataReadyNotification(message) => inner == Some(message),
                _ => inner is None,
            },
    {
        match self {
            SiriPayload::DataReadyNotification(message) => Some(message),
            _ => None,
        }
    }

    /// The payload as a `DataSupplyRequest`, or `None` if it is another message.
    pub fn as_data_supply_request(&self) -> (inner: Option<&DataSupplyRequest>)
        ensures
            match self {
                SiriPayload::DataSupplyRequest(message) => inner == Some(message),
                _ => inner is None,
            },
    {
        match self {
            SiriPayload::DataSupplyRequest(message) => Some(message),
            _ => None,
        }
    }

    /// The payload as a `CheckStatusRequest`, or `None` if it is another message.
    pub fn as_check_status_request(&self) -> (inner: Option<&CheckStatusRequest>)
        ensures
            match self {
                SiriPayload::CheckStatusRequest(message) => inner == Some(message),
                _ => inner is None,
            },
    {
        match self {
            SiriPayload::CheckStatusRequest(message) => Some(message),
            _ => None,
        }
    }

    /// The payload as a `HeartbeatNotification`, or `None` if it is another message.
    pub fn as_heartbeat_notification(&self) -> (inner: Option<&HeartbeatNotification>)
        ensures
            match self {
                SiriPayload::HeartbeatNotification(message) => inner == Some(message),
                _ => inner is None,
            },
    {
        match self {
            SiriPayload::HeartbeatNotification(message) => Some(message),
            _ => None,
        }
    }

    /// The payload as a `CapabilitiesRequest`, or `None` if it is another message.
    pub fn as_capabilities_request(&self) -> (inner: Option<&CapabilitiesRequest>)
        ensures
            match self {
                SiriPayload::CapabilitiesRequest(message) => inner == Some(message),
                _ => inner is None,
            },
    {
        match self {
            SiriPayload::CapabilitiesRequest(message) => Some(message),
            _ => None,
        }
    }

    /// The payload as a `StopPointsRequest`, or `None` if it is another message.
    pub fn as_stop_points_request(&self) -> (inner: Option<&StopPointsRequest>)
        ensures
            match self {
                SiriPayload::StopPointsRequest(message) => inner == Some(message),
                _ => inner is None,
            },
    {
        match self {
            SiriPayload::StopPointsRequest(message) => Some(message),
            _ => None,
        }
    }

    /// The payload as a `LinesRequest`, or `None` if it is another message.
    pub fn as_lines_request(&self) -> (inner: Option<&LinesRequest>)
        ensures
            match self {
                SiriPayload::LinesRequest(message) => inner == Some(message),
                _ => inner is None,
            },
    {
        match self {
            SiriPayload::LinesRequest(message) => Some(message),
            _ => None,
        }
    }

    /// The payload as a `ServiceFeaturesRequest`, or `None` if it is another message.
    pub fn as_service_features_request(&self) -> (inner: Option<&ServiceFeaturesRequest>)
        ensures
            match self {
                SiriPayload::ServiceFeaturesRequest(message) => inner == Some(message),
                _ => inner is None,
            },
    {
        match self {
            SiriPayload::ServiceFeaturesRequest(message) => Some(message),
            _ => None,
        }
    }

    /// The payload as a `VehicleFeaturesRequest`, or `None` if it is another message.
    pub fn as_vehicle_features_request(&self) -> (inner: Option<&VehicleFeaturesRequest>)
        ensures
            match self {
                SiriPayload::VehicleFeaturesRequest(message) => inner == Some(message),
                _ => inner is None,
            },
    {
        match self {
            SiriPayload::VehicleFeaturesRequest(message) => Some(message),
            _ => None,
        }
    }

    /// The payload as a `ProductCategoriesRequest`, or `None` if it is another message.
    pub fn as_product_categories_request(&self) -> (inner: Option<&ProductCategoriesRequest>)
        ensures
            match self {
                SiriPayload::ProductCategoriesRequest(message) => inner == Some(message),
                _ => inner is None,
            },
    {
        match self {
            SiriPayload::ProductCategoriesRequest(message) => Some(message),
            _ => None,
        }
    }

    /// The payload as a `SubscriptionResponse`, or `None` if it is another message.
    pub fn as_subscription_response(&self) -> (inner: Option<&SubscriptionResponse>)
        ensures
            match self {
                SiriPayload::SubscriptionResponse(message) => inner == Some(message),
                _ => inner is None,
            },
    {
        match self {
            SiriPayload::SubscriptionResponse(message) => Some(message),
            _ => None,
        }
    }

    /// The payload as a `TerminateSubscriptionResponse`, or `None` if it is another message.
    pub fn as_terminate_subscription_response(
        &self,
    ) -> (inner: Option<&TerminateSubscriptionResponse>)
        ensures
            match self {
                SiriPayload::TerminateSubscriptionResponse(message) => inner == Some(message),
                _ => inner is None,
            },
    {
        match self {
            SiriPayload::TerminateSubscriptionResponse(message) => Some(message),
            _ => None,
        }
    }

    /// The payload as a `SubscriptionTerminatedNotification`, or `None` if it is another message.
    pub fn as_subscription_terminated_notification(
        &self,
    ) -> (inner: Option<&SubscriptionTerminatedNotification>)
        ensures
            match self {
                SiriPayload::SubscriptionTerminatedNotification(message) => inner == Some(message),
                _ => inner is None,
            },
    {
        match self {
            SiriPayload::SubscriptionTerminatedNotification(message) => Some(message),
            _ => None,
        }
    }

    /// The payload as a `DataReadyAcknowledgement`, or `None` if it is another message.
    pub fn as_data_ready_acknowledgement(&self) -> (inner: Option<&DataReadyAcknowledgement>)
        ensures
            match self {
                SiriPayload::DataReadyAcknowledgement(message) => inner == Some(message),
                _ => inner is None,
            },
    {
        match self {
            SiriPayload::DataReadyAcknowledgement(message) => Some(message),
            _ => None,
        }
    }

    /// The payload as a `ServiceDelivery`, or `None` if it is another message.
    pub fn as_service_delivery(&self) -> (inner: Option<&ServiceDelivery>)
        ensures
            match self {
                SiriPayload::ServiceDelivery(message) => inner == Some(message),
                _ => inner is None,
            },
    {
        match self {
            SiriPayload::ServiceDelivery(message) => Some(message),
            _ => None,
        }
    }

    /// The payload as a `DataReceivedAcknowledgement`, or `None` if it is another message.
    pub fn as_data_received_acknowledgement(&self) -> (inner: Option<&DataReceivedAcknowledgement>)
        ensures
            match self {
                SiriPayload::DataReceivedAcknowledgement(message) => inner == Some(message),
                _ => inner is None,
            },
    {
        match self {
            SiriPayload::DataReceivedAcknowledgement(message) => Some(message),
            _ => None,
        }
    }

    /// The payload as a `CheckStatusResponse`, or `None` if it is another message.
    pub fn as_check_status_response(&self) -> (inner: Option<&CheckStatusResponse>)
        ensures
            match self {
                SiriPayload::CheckStatusResponse(message) => inner == Some(message),
                _ => inner is None,
            },
    {
        match self {
            SiriPayload::CheckStatusResponse(message) => Some(message),
            _ => None,
        }
    }

    /// The payload as a `CapabilitiesResponse`, or `None` if it is another message.
    pub fn as_capabilities_response(&self) -> (inner: Option<&CapabilitiesResponse>)
        ensures
            match self {
                SiriPayload::CapabilitiesResponse(message) => inner == Some(message),
                _ => inner is None,
            },
    {
        match self {
            SiriPayload::CapabilitiesResponse(message) => Some(message),
            _ => None,
        }
    }

    /// The payload as a `StopPointsDelivery`, or `None` if it is another message.
    pub fn as_stop_points_delivery(&self) -> (inner: Option<&StopPointsDelivery>)
        ensures
            match self {
                SiriPayload::StopPointsDelivery(message) => inner == Some(message),
                _ => inner is None,
            },
    {
        match self {
            SiriPayload::StopPointsDelivery(message) => Some(message),
            _ => None,
        }
    }

    /// The payload as a `LinesDelivery`, or `None` if it is another message.
    pub fn as_lines_delivery(&self) -> (inner: Option<&LinesDelivery>)
        ensures
            match self {
                SiriPayload::LinesDelivery(message) => inner == Some(message),
                _ => inner is None,
            },
    {
        match self {
            SiriPayload::LinesDelivery(message) => Some(message),
            _ => None,
        }
    }

    /// The payload as a `ServiceFeaturesDelivery`, or `None` if it is another message.
    pub fn as_service_features_delivery(&self) -> (inner: Option<&ServiceFeaturesDelivery>)
        ensures
            match self {
                SiriPayload::ServiceFeaturesDelivery(message) => inner == Some(message),
                _ => inner is None,
            },
    {
        match self {
            SiriPayload::ServiceFeaturesDelivery(message) => Some(message),
            _ => None,
        }
    }

    /// The payload as a `VehicleFeaturesDelivery`, or `None` if it is another message.
    pub fn as_vehicle_features_delivery(&self) -> (inner: Option<&VehicleFeaturesDelivery>)
        ensures
            match self {
                SiriPayload::VehicleFeaturesDelivery(message) => inner == Some(message),
                _ => inner is None,
            },
    {
        match self {
            SiriPayload::VehicleFeaturesDelivery(message) => Some(message),
            _ => None,
        }
    }

    /// The payload as a `ProductCategoriesDelivery`, or `None` if it is another message.
    pub fn as_product_categories_delivery(&self) -> (inner: Option<&ProductCategoriesDelivery>)
        ensures
            match self {
                SiriPayload::ProductCategoriesDelivery(message) => inner == Some(message),
                _ => inner is None,
            },
    {
        match self {
            SiriPayload::ProductCategoriesDelivery(message) => Some(message),
            _ => None,
        }
    }

}

impl From<ServiceRequest> for SiriPayload {
    fn from(inner: ServiceRequest) -> Self {
        SiriPayload::ServiceRequest(inner)
    }
}

impl vstd::std_specs::convert::FromSpecImpl<ServiceRequest> for SiriPayload {
    open spec fn obeys_from_spec() -> bool {
        true
    }

    open spec fn from_spec(inner: ServiceRequest) -> Self {
        SiriPayload::ServiceRequest(inner)
    }
}

impl From<SubscriptionRequest> for SiriPayload {
    fn from(inner: SubscriptionRequest) -> Self {
        SiriPayload::SubscriptionRequest(inner)
    }
}

impl vstd::std_specs::convert::FromSpecImpl<SubscriptionRequest> for SiriPayload {
    open spec fn obeys_from_spec() -> bool {
        true
    }

    open spec fn from_spec(inner: SubscriptionRequest) -> Self {
        SiriPayload::SubscriptionRequest(inner)
    }
}

impl From<TerminateSubscriptionRequest> for SiriPayload {
    fn from(inner: TerminateSubscriptionRequest) -> Self {
        SiriPayload::TerminateSubscriptionRequest(inner)
    }
}

impl vstd::std_specs::convert::FromSpecImpl<TerminateSubscriptionRequest> for SiriPayload {
    open spec fn obeys_from_spec() -> bool {
        true
    }

    open spec fn from_spec(inner: TerminateSubscriptionRequest) -> Self {
        SiriPayload::TerminateSubscriptionRequest(inner)
    }
}

impl From<DataReadyNotification> for SiriPayload {
    fn from(inner: DataReadyNotification) -> Self {
        SiriPayload::DataReadyNotification(inner)
    }
}

impl vstd::std_specs::convert::FromSpecImpl<DataReadyNotification> for SiriPayload {
    open spec fn obeys_from_spec() -> bool {
        true
    }

    open spec fn from_spec(inner: DataReadyNotification) -> Self {
        SiriPayload::DataReadyNotification(inner)
    }
}

impl From<DataSupplyRequest> for SiriPayload {
    fn from(inner: DataSupplyRequest) -> Self {
        SiriPayload::DataSupplyRequest(inner)
    }
}

impl vstd::std_specs::convert::FromSpecImpl<DataSupplyRequest> for SiriPayload {
    open spec fn obeys_from_spec() -> bool {
        true
    }

    open spec fn from_spec(inner: DataSupplyRequest) -> Self {
        SiriPayload::DataSupplyRequest(inner)
    }
}

impl From<CheckStatusRequest> for SiriPayload {
    fn from(inner: CheckStatusRequest) -> Self {
        SiriPayload::CheckStatusRequest(inner)
    }
}

impl vstd::std_specs::convert::FromSpecImpl<CheckStatusRequest> for SiriPayload {
    open spec fn obeys_from_spec() -> bool {
        true
    }

    open spec fn from_spec(inner: CheckStatusRequest) -> Self {
        SiriPayload::CheckStatusRequest(inner)
    }
}

impl From<HeartbeatNotification> for SiriPayload {
    fn from(inner: HeartbeatNotification) -> Self {
        SiriPayload::HeartbeatNotification(inner)
    }
}

impl vstd::std_specs::convert::FromSpecImpl<HeartbeatNotification> for SiriPayload {
    open spec fn obeys_from_spec() -> bool {
        true
    }

    open spec fn from_spec(inner: HeartbeatNotification) -> Self {
        SiriPayload::HeartbeatNotification(inner)
    }
}

impl From<CapabilitiesRequest> for SiriPayload {
    fn from(inner: CapabilitiesRequest) -> Self {
        SiriPayload::CapabilitiesRequest(inner)
    }
}

impl vstd::std_specs::convert::FromSpecImpl<CapabilitiesRequest> for SiriPayload {
    open spec fn obeys_from_spec() -> bool {
        true
    }

    open spec fn from_spec(inner: CapabilitiesRequest) -> Self {
        SiriPayload::CapabilitiesRequest(inner)
    }
}

impl From<StopPointsRequest> for SiriPayload {
    fn from(inner: StopPointsRequest) -> Self {
        SiriPayload::StopPointsRequest(inner)
    }
}

impl vstd::std_specs::convert::FromSpecImpl<StopPointsRequest> for SiriPayload {
    open spec fn obeys_from_spec() -> bool {
        true
    }

    open spec fn from_spec(inner: StopPointsRequest) -> Self {
        SiriPayload::StopPointsRequest(inner)
    }
}

impl From<LinesRequest> for SiriPayload {
    fn from(inner: LinesRequest) -> Self {
        SiriPayload::LinesRequest(inner)
    }
}

impl vstd::std_specs::convert::FromSpecImpl<LinesRequest> for SiriPayload {
    open spec fn obeys_from_spec() -> bool {
        true
    }

    open spec fn from_spec(inner: LinesRequest) -> Self {
        SiriPayload::LinesRequest(inner)
    }
}

impl From<ServiceFeaturesRequest> for SiriPayload {
    fn from(inner: ServiceFeaturesRequest) -> Self {
        SiriPayload::ServiceFeaturesRequest(inner)
    }
}

impl vstd::std_specs::convert::FromSpecImpl<ServiceFeaturesRequest> for SiriPayload {
    open spec fn obeys_from_spec() -> bool {
        true
    }

    open spec fn from_spec(inner: ServiceFeaturesRequest) -> Self {
        SiriPayload::ServiceFeaturesRequest(inner)
    }
}

impl From<VehicleFeaturesRequest> for SiriPayload {
    fn from(inner: VehicleFeaturesRequest) -> Self {
        SiriPayload::VehicleFeaturesRequest(inner)
    }
}

impl vstd::std_specs::convert::FromSpecImpl<VehicleFeaturesRequest> for SiriPayload {
    open spec fn obeys_from_spec() -> bool {
        true
    }

    open spec fn from_spec(inner: VehicleFeaturesRequest) -> Self {
        SiriPayload::VehicleFeaturesRequest(inner)
    }
}

impl From<ProductCategoriesRequest> for SiriPayload {
    fn from(inner: ProductCategoriesRequest) -> Self {
        SiriPayload::ProductCategoriesRequest(inner)
    }
}

impl vstd::std_specs::convert::FromSpecImpl<ProductCategoriesRequest> for SiriPayload {
    open spec fn obeys_from_spec() -> bool {
        true
    }

    open spec fn from_spec(inner: ProductCategoriesRequest) -> Self {
        SiriPayload::ProductCategoriesRequest(inner)
    }
}

impl From<SubscriptionResponse> for SiriPayload {
    fn from(inner: SubscriptionResponse) -> Self {
        SiriPayload::SubscriptionResponse(inner)
    }
}

impl vstd::std_specs::convert::FromSpecImpl<SubscriptionResponse> for SiriPayload {
    open spec fn obeys_from_spec() -> bool {
        true
    }

    open spec fn from_spec(inner: SubscriptionResponse) -> Self {
        SiriPayload::SubscriptionResponse(inner)
    }
}

impl From<TerminateSubscriptionResponse> for SiriPayload {
    fn from(inner: TerminateSubscriptionResponse) -> Self {
        SiriPayload::TerminateSubscriptionResponse(inner)
    }
}

impl vstd::std_specs::convert::FromSpecImpl<TerminateSubscriptionResponse> for SiriPayload {
    open spec fn obeys_from_spec() -> bool {
        true
    }

    open spec fn from_spec(inner: TerminateSubscriptionResponse) -> Self {
        SiriPayload::TerminateSubscriptionResponse(inner)
    }
}

impl From<SubscriptionTerminatedNotification> for SiriPayload {
    fn from(inner: SubscriptionTerminatedNotification) -> Self {
        SiriPayload::SubscriptionTerminatedNotification(inner)
    }
}

impl vstd::std_specs::convert::FromSpecImpl<SubscriptionTerminatedNotification> for SiriPayload {
    open spec fn obeys_from_spec() -> bool {
        true
    }

    open spec fn from_spec(inner: SubscriptionTerminatedNotification) -> Self {
        SiriPayload::SubscriptionTerminatedNotification(inner)
    }
}

impl From<DataReadyAcknowledgement> for SiriPayload {
    fn from(inner: DataReadyAcknowledgement) -> Self {
        SiriPayload::DataReadyAcknowledgement(inner)
    }
}

impl vstd::std_specs::convert::FromSpecImpl<DataReadyAcknowledgement> for SiriPayload {
    open spec fn obeys_from_spec() -> bool {
        true
    }

    open spec fn from_spec(inner: DataReadyAcknowledgement) -> Self {
        SiriPayload::DataReadyAcknowledgement(inner)
    }
}

impl From<ServiceDelivery> for SiriPayload {
    fn from(inner: ServiceDelivery) -> Self {
        SiriPayload::ServiceDelivery(inner)
    }
}

impl vstd::std_specs::convert::FromSpecImpl<ServiceDelivery> for SiriPayload {
    open spec fn obeys_from_spec() -> bool {
        true
    }

    open spec fn from_spec(inner: ServiceDelivery) -> Self {
        SiriPayload::ServiceDelivery(inner)
    }
}

impl From<DataReceivedAcknowledgement> for SiriPayload {
    fn from(inner: DataReceivedAcknowledgement) -> Self {
        SiriPayload::DataReceivedAcknowledgement(inner)
    }
}

impl vstd::std_specs::convert::FromSpecImpl<DataReceivedAcknowledgement> for SiriPayload {
    open spec fn obeys_from_spec() -> bool {
        true
    }

    open spec fn from_spec(inner: DataReceivedAcknowledgement) -> Self {
        SiriPayload::DataReceivedAcknowledgement(inner)
    }
}

impl From<CheckStatusResponse> for SiriPayload {
    fn from(inner: CheckStatusResponse) -> Self {
        SiriPayload::CheckStatusResponse(inner)
    }
}

impl vstd::std_specs::convert::FromSpecImpl<CheckStatusResponse> for SiriPayload {
    open spec fn obeys_from_spec() -> bool {
        true
    }

    open spec fn from_spec(inner: CheckStatusResponse) -> Self {
        SiriPayload::CheckStatusResponse(inner)
    }
}

impl From<CapabilitiesResponse> for SiriPayload {
    fn from(inner: CapabilitiesResponse) -> Self {
        SiriPayload::CapabilitiesResponse(inner)
    }
}

impl vstd::std_specs::convert::FromSpecImpl<CapabilitiesResponse> for SiriPayload {
    open spec fn obeys_from_spec() -> bool {
        true
    }

    open spec fn from_spec(inner: CapabilitiesResponse) -> Self {
        SiriPayload::CapabilitiesResponse(inner)
    }
}

impl From<StopPointsDelivery> for SiriPayload {
    fn from(inner: StopPointsDelivery) -> Self {
        SiriPayload::StopPointsDelivery(inner)
    }
}

impl vstd::std_specs::convert::FromSpecImpl<StopPointsDelivery> for SiriPayload {
    open spec fn obeys_from_spec() -> bool {
        true
    }

    open spec fn from_spec(inner: StopPointsDelivery) -> Self {
        SiriPayload::StopPointsDelivery(inner)
    }
}

impl From<LinesDelivery> for SiriPayload {
    fn from(inner: LinesDelivery) -> Self {
        SiriPayload::LinesDelivery(inner)
    }
}

impl vstd::std_specs::convert::FromSpecImpl<LinesDelivery> for SiriPayload {
    open spec fn obeys_from_spec() -> bool {
        true
    }

    open spec fn from_spec(inner: LinesDelivery) -> Self {
        SiriPayload::LinesDelivery(inner)
    }
}

impl From<ServiceFeaturesDelivery> for SiriPayload {
    fn from(inner: ServiceFeaturesDelivery) -> Self {
        SiriPayload::ServiceFeaturesDelivery(inner)
    }
}

impl vstd::std_specs::convert::FromSpecImpl<ServiceFeaturesDelivery> for SiriPayload {
    open spec fn obeys_from_spec() -> bool {
        true
    }

    open spec fn from_spec(inner: ServiceFeaturesDelivery) -> Self {
        SiriPayload::ServiceFeaturesDelivery(inner)
    }
}

impl From<VehicleFeaturesDelivery> for SiriPayload {
    fn from(inner: VehicleFeaturesDelivery) -> Self {
        SiriPayload::VehicleFeaturesDelivery(inner)
    }
}

impl vstd::std_specs::convert::FromSpecImpl<VehicleFeaturesDelivery> for SiriPayload {
    open spec fn obeys_from_spec() -> bool {
        true
    }

    open spec fn from_spec(inner: VehicleFeaturesDelivery) -> Self {
        SiriPayload::VehicleFeaturesDelivery(inner)
    }
}

impl From<ProductCategoriesDelivery> for SiriPayload {
    fn from(inner: ProductCategoriesDelivery) -> Self {
        SiriPayload::ProductCategoriesDelivery(inner)
    }
}

impl vstd::std_specs::convert::FromSpecImpl<ProductCategoriesDelivery> for SiriPayload {
    open spec fn obeys_from_spec() -> bool {
        true
    }

    open spec fn from_spec(inner: ProductCategoriesDelivery) -> Self {
        SiriPayload::ProductCategoriesDelivery(inner)
    }
}


/// A direct request for data, answered by a [`ServiceDelivery`].
#[derive(Debug, Clone, PartialEq)]
pub struct ServiceRequest {
    /// Defaults the requestor asks the producer to apply to the whole exchange.
    pub service_request_context: Option<ServiceRequestContext>,
    /// When the request was made.
    pub request_timestamp: DateTime,
    /// Account the requestor authenticates as.
    pub account_id: Option<String>,
    /// Secret authenticating the account.
    pub account_key: Option<String>,
    /// Address to send the answer to.
    pub address: Option<EndpointAddress>,
    /// Who is asking.
    pub requestor_ref: ParticipantRef,
    /// Identifier the requestor puts on this message.
    pub message_identifier: Option<MessageQualifier>,
    /// Address of the participant this request is made on behalf of.
    pub delegator_address: Option<EndpointAddress>,
    /// Participant this request is made on behalf of.
    pub delegator_ref: Option<ParticipantRef>,
    /// The functional service requests, all of the same service.
    pub requests: Vec<ServiceRequestPayload>,
}

impl ServiceRequest {
    /// A request from `requestor_ref` carrying the given functional service requests.
    pub fn new(
        request_timestamp: DateTime,
        requestor_ref: ParticipantRef,
        requests: Vec<ServiceRequestPayload>,
    ) -> (result: Self)
        ensures
            result.service_request_context is None,
            result.request_timestamp == request_timestamp,
            result.account_id is None,
            result.account_key is None,
            result.address is None,
            result.requestor_ref == requestor_ref,
            result.message_identifier is None,
            result.delegator_address is None,
            result.delegator_ref is None,
            result.requests == requests,
    {
        Self {
            service_request_context: None,
            request_timestamp,
            account_id: None,
            account_key: None,
            address: None,
            requestor_ref,
            message_identifier: None,
            delegator_address: None,
            delegator_ref: None,
            requests,
        }
    }
}

/// A functional service request inside a [`ServiceRequest`].
///
/// The schema requires every request in one `ServiceRequest` to address the same
/// functional service. The enum is non-exhaustive so that the services this crate
/// does not implement yet can be added without a breaking change.
///
/// The requests differ widely in size — a vehicle-monitoring request is a handful
/// of fields, an estimated-timetable one several dozen — so each is boxed, keeping
/// a `Vec` of them from costing the largest variant per element.
#[derive(Debug, Clone, PartialEq)]
#[non_exhaustive]
pub enum ServiceRequestPayload {
    /// A request for a planned timetable.
    ProductionTimetableRequest(Box<ProductionTimetableRequest>),
    /// A request for free-form messages.
    GeneralMessageRequest(Box<GeneralMessageRequest>),
}

impl From<ProductionTimetableRequest> for ServiceRequestPayload {
    fn from(request: ProductionTimetableRequest) -> Self {
        Self::ProductionTimetableRequest(Box::new(request))
    }
}

impl vstd::std_specs::convert::FromSpecImpl<ProductionTimetableRequest> for ServiceRequestPayload {
    open spec fn obeys_from_spec() -> bool {
        true
    }

    open spec fn from_spec(request: ProductionTimetableRequest) -> Self {
        Self::ProductionTimetableRequest(Box::new(request))
    }
}

impl From<GeneralMessageRequest> for ServiceRequestPayload {
    fn from(request: GeneralMessageRequest) -> Self {
        Self::GeneralMessageRequest(Box::new(request))
    }
}

impl vstd::std_specs::convert::FromSpecImpl<GeneralMessageRequest> for ServiceRequestPayload {
    open spec fn obeys_from_spec() -> bool {
        true
    }

    open spec fn from_spec(request: GeneralMessageRequest) -> Self {
        Self::GeneralMessageRequest(Box::new(request))
    }
}

/// Payload data from a producer.
#[derive(Debug, Clone, PartialEq)]
pub struct ServiceDelivery {
    /// Name of the spatial reference system positions in this delivery use.
    pub srs_name: Option<String>,
    /// When the delivery was made.
    pub response_timestamp: DateTime,
    /// Who produced the data.
    pub producer_ref: Option<ParticipantRef>,
    /// Address of the producer.
    pub address: Option<EndpointAddress>,
    /// Identifier the producer puts on this message.
    pub response_message_identifier: Option<MessageQualifier>,
    /// The request this delivery answers.
    pub request_message_ref: Option<MessageRef>,
    /// Address of the participant the data is delivered on behalf of.
    pub delegator_address: Option<EndpointAddress>,
    /// Participant the data is delivered on behalf of.
    pub delegator_ref: Option<ParticipantRef>,
    /// Whether the request was processed successfully.
    pub status: Option<bool>,
    /// Why the request could not be processed.
    pub error_condition: Option<ErrorCondition<DeliveryError>>,
    /// Whether further parts of this delivery follow.
    pub more_data: Option<bool>,
    /// The functional service deliveries.
    pub deliveries: Vec<ServiceDeliveryPayload>,
}

impl ServiceDelivery {
    /// A successful delivery carrying the given functional service deliveries.
    pub fn new(
        response_timestamp: DateTime,
        producer_ref: ParticipantRef,
        deliveries: Vec<ServiceDeliveryPayload>,
    ) -> (result: Self)
        ensures
            result.srs_name is None,
            result.response_timestamp == response_timestamp,
            result.producer_ref == Some(producer_ref),
            result.address is None,
            result.response_message_identifier is None,
            result.request_message_ref is None,
            result.delegator_address is None,
            result.delegator_ref is None,
            result.status is None,
            result.error_condition is None,
            result.more_data is None,
            result.deliveries == deliveries,
    {
        Self {
            srs_name: None,
            response_timestamp,
            producer_ref: Some(producer_ref),
            address: None,
            response_message_identifier: None,
            request_message_ref: None,
            delegator_address: None,
            delegator_ref: None,
            status: None,
            error_condition: None,
            more_data: None,
            deliveries,
        }
    }
}

/// A functional service delivery inside a [`ServiceDelivery`].
///
/// Non-exhaustive, and boxed, for the same reasons as [`ServiceRequestPayload`].
#[derive(Debug, Clone, PartialEq)]
#[non_exhaustive]
pub enum ServiceDeliveryPayload {
    /// A planned timetable from the Production Timetable service.
    ProductionTimetableDelivery(Box<ProductionTimetableDelivery>),
    /// Free-form messages from the General Message service.
    GeneralMessageDelivery(Box<GeneralMessageDelivery>),
}

impl From<ProductionTimetableDelivery> for ServiceDeliveryPayload {
    fn from(delivery: ProductionTimetableDelivery) -> Self {
        Self::ProductionTimetableDelivery(Box::new(delivery))
    }
}

impl vstd::std_specs::convert::FromSpecImpl<ProductionTimetableDelivery> for ServiceDeliveryPayload {
    open spec fn obeys_from_spec() -> bool {
        true
    }

    open spec fn from_spec(delivery: ProductionTimetableDelivery) -> Self {
        Self::ProductionTimetableDelivery(Box::new(delivery))
    }
}

impl From<GeneralMessageDelivery> for ServiceDeliveryPayload {
    fn from(delivery: GeneralMessageDelivery) -> Self {
        Self::GeneralMessageDelivery(Box::new(delivery))
    }
}

impl vstd::std_specs::convert::FromSpecImpl<GeneralMessageDelivery> for ServiceDeliveryPayload {
    open spec fn obeys_from_spec() -> bool {
        true
    }

    open spec fn from_spec(delivery: GeneralMessageDelivery) -> Self {
        Self::GeneralMessageDelivery(Box::new(delivery))
    }
}

/// Defaults a requestor asks a producer to apply to a whole exchange.
#[derive(Debug, Clone, Default, PartialEq)]
pub struct ServiceRequestContext {
    /// Where to send check-status requests.
    pub check_status_address: Option<EndpointAddress>,
    /// Where to send subscription requests.
    pub subscribe_address: Option<EndpointAddress>,
    /// Where to send subscription management requests.
    pub manage_subscription_address: Option<EndpointAddress>,
    /// Where to fetch data from.
    pub get_data_address: Option<EndpointAddress>,
    /// Where the client receives status responses.
    pub status_response_address: Option<EndpointAddress>,
    /// Where the client receives subscription responses.
    pub subscriber_address: Option<EndpointAddress>,
    /// Where the client receives notifications.
    pub notify_address: Option<EndpointAddress>,
    /// Where the client receives deliveries.
    pub consumer_address: Option<EndpointAddress>,
    /// Namespaces the identifiers in this exchange are drawn from.
    pub data_name_spaces: Option<DataNameSpaces>,
    /// Languages the requestor would like texts in, most preferred first.
    pub language: Vec<String>,
    /// Requests that positions be given as WGS 84 decimal degrees.
    pub wgs_decimal_degrees: Option<Empty>,
    /// Requests that positions be given in the named GML coordinate system.
    pub gml_coordinate_format: Option<String>,
    /// Units distances should be given in.
    pub distance_units: Option<String>,
    /// Units velocities should be given in.
    pub velocity_units: Option<String>,
    /// How far into the future the requestor is interested in data.
    pub data_horizon: Option<Duration>,
    /// How long the requestor will wait for an answer.
    pub request_timeout: Option<Duration>,
    /// Whether deliveries are pushed directly or fetched after a notification.
    pub delivery_method: Option<DeliveryMethod>,
    /// Whether a delivery may be split over several messages.
    pub multipart_despatch: Option<bool>,
    /// Whether the consumer will acknowledge each delivery.
    pub confirm_delivery: Option<bool>,
    /// How many subscriptions the requestor may hold at once.
    pub maximimum_number_of_subscriptions: Option<u64>,
    /// Which sources of prediction the requestor accepts.
    pub allowed_predictors: Option<Predictors>,
    /// Name of the prediction function the requestor asks for.
    pub prediction_function: Option<String>,
}

/// Namespaces the identifiers in an exchange are drawn from.
#[derive(Debug, Clone, Default, PartialEq, Eq)]
pub struct DataNameSpaces {
    /// Namespace of stop point identifiers.
    pub stop_point_name_space: Option<String>,
    /// Namespace of line identifiers.
    pub line_name_space: Option<String>,
    /// Namespace of product category identifiers.
    pub product_category_name_space: Option<String>,
    /// Namespace of service feature identifiers.
    pub service_feature_name_space: Option<String>,
    /// Namespace of vehicle feature identifiers.
    pub vehicle_feature_name_space: Option<String>,
}

} // verus!
