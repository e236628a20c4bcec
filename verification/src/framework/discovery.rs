//! Finding out which stops, lines and code lists a producer knows about.
//!
//! Every SIRI functional service is driven by identifiers — a stop point, a line, a
//! service feature — that the consumer has to know before it can ask a useful
//! question. The discovery services publish those identifiers: five request/delivery
//! pairs, each answering "what values may I put in this field?".
//!
//! Discovery deliveries are stand-alone answers rather than payloads of a
//! `ServiceDelivery`, so each carries its own status and error condition.

use crate::enumerations::{LinesDetail, StopPointsDetail};
use crate::framework::error_condition::{ErrorCondition, ServiceRequestError};
use crate::model::{
    BoundingBox, DestinationRef, DirectionRef, JourneyPatternRef, LineDirection, LineRef, LineShape,
    LinkProjection, Location, OperatorRef, PlaceRef, ProductCategory, ServiceFeature,
    ServiceFeatureRef, StopAreaRef, StopPointRef, VehicleFeature,
};
use crate::types::{
    Duration, EndpointAddress, Extensions, MessageQualifier, NaturalLanguageString, ParticipantRef,
};
use crate::types::DateTime;
use vstd::prelude::*;

verus! {

/// A request for the stop points a producer serves.
///
/// The optional filters narrow an otherwise unbounded answer. Area, circle and
/// place are alternatives to each other — see [`StopPointsRequest::scope`] — while
/// operator and line further restrict whichever of them is used.
#[derive(Debug, Clone, PartialEq)]
pub struct StopPointsRequest {
    /// Version of SIRI the request conforms to.
    pub version: Option<String>,
    /// When the request was made.
    pub request_timestamp: DateTime,
    /// Account the requestor authenticates as.
    pub account_id: Option<String>,
    /// Secret authenticating the account.
    pub account_key: Option<String>,
    /// Address to send the answer to.
    pub address: Option<EndpointAddress>,
    /// Who is asking.
    pub requestor_ref: ParticipantRef,
    /// Identifier the requestor puts on this message.
    pub message_identifier: Option<MessageQualifier>,
    /// Rectangle the stops must lie in.
    pub bounding_box: Option<BoundingBox>,
    /// Circle the stops must lie in: the point is its centre and the point's
    /// precision its radius in metres.
    pub circle: Option<Location>,
    /// Topographic place the stops must belong to.
    pub place_ref: Option<PlaceRef>,
    /// Operator whose stops are wanted.
    pub operator_ref: Option<OperatorRef>,
    /// Line whose stops are wanted.
    pub line_ref: Option<LineRef>,
    /// Languages the requestor would like names in, most preferred first.
    pub language: Vec<String>,
    /// How much detail each stop should be described with.
    pub stop_points_detail_level: Option<StopPointsDetail>,
    /// Implementation-defined content.
    pub extensions: Option<Extensions>,
}

impl StopPointsRequest {
    /// An unfiltered request for every stop the producer serves.
    pub fn new(request_timestamp: DateTime, requestor_ref: ParticipantRef) -> (result: Self)
        ensures
            result.version is None,
            result.request_timestamp == request_timestamp,
            result.account_id is None,
            result.account_key is None,
            result.address is None,
            result.requestor_ref == requestor_ref,
            result.message_identifier is None,
            result.bounding_box is None,
            result.circle is None,
            result.place_ref is None,
            result.operator_ref is None,
            result.line_ref is None,
            result.language@.len() == 0,
            result.stop_points_detail_level is None,
            result.extensions is None,
    {
        Self {
            version: None,
            request_timestamp,
            account_id: None,
            account_key: None,
            address: None,
            requestor_ref,
            message_identifier: None,
            bounding_box: None,
            circle: None,
            place_ref: None,
            operator_ref: None,
            line_ref: None,
            language: Vec::new(),
            stop_points_detail_level: None,
            extensions: None,
        }
    }

    /// Which alternative of the schema's area choice this request uses, or `None`
    /// when it asks about every stop.
    ///
    /// A bounding box is preferred to a circle, and a circle to a place, should a
    /// value carry more than one.
    pub fn scope(&self) -> (scope: Option<StopPointsScope<'_>>)
        ensures
            match scope {
                Some(StopPointsScope::BoundingBox(area)) => self.bounding_box == Some(*area),
                Some(StopPointsScope::Circle(centre)) => {
                    &&& self.bounding_box is None
                    &&& self.circle == Some(*centre)
                },
                Some(StopPointsScope::Place(place)) => {
                    &&& self.bounding_box is None
                    &&& self.circle is None
                    &&& self.place_ref == Some(*place)
                },
                None => {
                    &&& self.bounding_box is None
                    &&& self.circle is None
                    &&& self.place_ref is None
                },
            },
    {
        if let Some(bounding_box) = &self.bounding_box {
            Some(StopPointsScope::BoundingBox(bounding_box))
        } else if let Some(circle) = &self.circle {
            Some(StopPointsScope::Circle(circle))
        } else if let Some(place_ref) = &self.place_ref {
            Some(StopPointsScope::Place(place_ref))
        } else {
            None
        }
    }
}

/// Which way a [`StopPointsRequest`] narrows the area it asks about.
#[derive(Debug, Clone, Copy, PartialEq)]
pub enum StopPointsScope<'a> {
    /// Stops inside a rectangle.
    BoundingBox(&'a BoundingBox),
    /// Stops inside a circle around a point.
    Circle(&'a Location),
    /// Stops belonging to a topographic place.
    Place(&'a PlaceRef),
}

/// The stop points a producer serves.
#[derive(Debug, Clone, PartialEq)]
pub struct StopPointsDelivery {
    /// Version of SIRI the delivery conforms to.
    pub version: Option<String>,
    /// When the delivery was made.
    pub response_timestamp: DateTime,
    /// Whether the request was processed successfully.
    pub status: Option<bool>,
    /// Why the request could not be processed.
    pub error_condition: Option<ErrorCondition<ServiceRequestError>>,
    /// End of the producer's data horizon.
    pub valid_until: Option<DateTime>,
    /// The shortest interval at which the producer will send updates.
    pub shortest_possible_cycle: Option<Duration>,
    /// The stops, described to the level of detail the request asked for.
    pub annotated_stop_point_ref: Vec<AnnotatedStopPointRef>,
    /// Implementation-defined content.
    pub extensions: Option<Extensions>,
}

impl StopPointsDelivery {
    /// A successful delivery of the given stops.
    pub fn new(
        response_timestamp: DateTime,
        annotated_stop_point_ref: Vec<AnnotatedStopPointRef>,
    ) -> (result: Self)
        ensures
            result.version is None,
            result.response_timestamp == response_timestamp,
            result.status == Some(true),
            result.error_condition is None,
            result.valid_until is None,
            result.shortest_possible_cycle is None,
            result.annotated_stop_point_ref == annotated_stop_point_ref,
            result.extensions is None,
    {
        Self {
            version: None,
            response_timestamp,
            status: Some(true),
            error_condition: None,
            valid_until: None,
            shortest_possible_cycle: None,
            annotated_stop_point_ref,
            extensions: None,
        }
    }
}

/// A request for the lines a producer serves.
///
/// Area, circle, place and line-direction are alternatives to each other — see
/// [`LinesRequest::scope`] — while operator further restricts whichever is used.
#[derive(Debug, Clone, PartialEq)]
pub struct LinesRequest {
    /// Version of SIRI the request conforms to.
    pub version: Option<String>,
    /// When the request was made.
    pub request_timestamp: DateTime,
    /// Account the requestor authenticates as.
    pub account_id: Option<String>,
    /// Secret authenticating the account.
    pub account_key: Option<String>,
    /// Address to send the answer to.
    pub address: Option<EndpointAddress>,
    /// Who is asking.
    pub requestor_ref: ParticipantRef,
    /// Identifier the requestor puts on this message.
    pub message_identifier: Option<MessageQualifier>,
    /// Rectangle the lines' stops must lie in.
    pub bounding_box: Option<BoundingBox>,
    /// Circle the lines' stops must lie in: the point is its centre and the point's
    /// precision its radius in metres.
    pub circle: Option<Location>,
    /// Topographic place the lines' stops must belong to.
    pub place_ref: Option<PlaceRef>,
    /// A single line, optionally one direction of it, to be described in detail.
    pub line_direction_ref: Option<LineDirection>,
    /// Operator whose lines are wanted.
    pub operator_ref: Option<OperatorRef>,
    /// Languages the requestor would like names in, most preferred first.
    pub language: Vec<String>,
    /// How much detail each line should be described with.
    pub lines_detail_level: Option<LinesDetail>,
    /// Implementation-defined content.
    pub extensions: Option<Extensions>,
}

impl LinesRequest {
    /// An unfiltered request for every line the producer serves.
    pub fn new(request_timestamp: DateTime, requestor_ref: ParticipantRef) -> (result: Self)
        ensures
            result.version is None,
            result.request_timestamp == request_timestamp,
            result.account_id is None,
            result.account_key is None,
            result.address is None,
            result.requestor_ref == requestor_ref,
            result.message_identifier is None,
            result.bounding_box is None,
            result.circle is None,
            result.place_ref is None,
            result.line_direction_ref is None,
            result.operator_ref is None,
            result.language@.len() == 0,
            result.lines_detail_level is None,
            result.extensions is None,
    {
        Self {
            version: None,
            request_timestamp,
            account_id: None,
            account_key: None,
            address: None,
            requestor_ref,
            message_identifier: None,
            bounding_box: None,
            circle: None,
            place_ref: None,
            line_direction_ref: None,
            operator_ref: None,
            language: Vec::new(),
            lines_detail_level: None,
            extensions: None,
        }
    }

    /// Which alternative of the schema's topic choice this request uses, or `None`
    /// when it asks about every line.
    ///
    /// The alternatives are preferred in the order bounding box, circle, place,
    /// line, should a value carry more than one.
    pub fn scope(&self) -> (scope: Option<LinesScope<'_>>)
        ensures
            match scope {
                Some(LinesScope::BoundingBox(area)) => self.bounding_box == Some(*area),
                Some(LinesScope::Circle(centre)) => {
                    &&& self.bounding_box is None
                    &&& self.circle == Some(*centre)
                },
                Some(LinesScope::Place(place)) => {
                    &&& self.bounding_box is None
                    &&& self.circle is None
                    &&& self.place_ref == Some(*place)
                },
                Some(LinesScope::LineDirection(line)) => {
                    &&& self.bounding_box is None
                    &&& self.circle is None
                    &&& self.place_ref is None
                    &&& self.line_direction_ref == Some(*line)
                },
                None => {
                    &&& self.bounding_box is None
                    &&& self.circle is None
                    &&& self.place_ref is None
                    &&& self.line_direction_ref is None
                },
            },
    {
        if let Some(bounding_box) = &self.bounding_box {
            Some(LinesScope::BoundingBox(bounding_box))
        } else if let Some(circle) = &self.circle {
            Some(LinesScope::Circle(circle))
        } else if let Some(place_ref) = &self.place_ref {
            Some(LinesScope::Place(place_ref))
        } else if let Some(line_direction) = &self.line_direction_ref {
            Some(LinesScope::LineDirection(line_direction))
        } else {
            None
        }
    }
}

/// Which way a [`LinesRequest`] narrows the lines it asks about.
#[derive(Debug, Clone, Copy, PartialEq)]
pub enum LinesScope<'a> {
    /// Lines calling at stops inside a rectangle.
    BoundingBox(&'a BoundingBox),
    /// Lines calling at stops inside a circle around a point.
    Circle(&'a Location),
    /// Lines calling at stops belonging to a topographic place.
    Place(&'a PlaceRef),
    /// One named line, optionally narrowed to one direction.
    LineDirection(&'a LineDirection),
}

/// The lines a producer serves.
#[derive(Debug, Clone, PartialEq)]
pub struct LinesDelivery {
    /// Version of SIRI the delivery conforms to.
    pub version: Option<String>,
    /// When the delivery was made.
    pub response_timestamp: DateTime,
    /// Whether the request was processed successfully.
    pub status: Option<bool>,
    /// Why the request could not be processed.
    pub error_condition: Option<ErrorCondition<ServiceRequestError>>,
    /// End of the producer's data horizon.
    pub valid_until: Option<DateTime>,
    /// The shortest interval at which the producer will send updates.
    pub shortest_possible_cycle: Option<Duration>,
    /// The lines, described to the level of detail the request asked for.
    pub annotated_line_ref: Vec<AnnotatedLineRef>,
    /// Implementation-defined content.
    pub extensions: Option<Extensions>,
}

impl LinesDelivery {
    /// A successful delivery of the given lines.
    pub fn new(
        response_timestamp: DateTime,
        annotated_line_ref: Vec<AnnotatedLineRef>,
    ) -> (result: Self)
        ensures
            result.version is None,
            result.response_timestamp == response_timestamp,
            result.status == Some(true),
            result.error_condition is None,
            result.valid_until is None,
            result.shortest_possible_cycle is None,
            result.annotated_line_ref == annotated_line_ref,
            result.extensions is None,
    {
        Self {
            version: None,
            response_timestamp,
            status: Some(true),
            error_condition: None,
            valid_until: None,
            shortest_possible_cycle: None,
            annotated_line_ref,
            extensions: None,
        }
    }
}

/// A request for the service features a producer labels its services with.
#[derive(Debug, Clone, PartialEq)]
pub struct ServiceFeaturesRequest {
    /// Version of SIRI the request conforms to.
    pub version: Option<String>,
    /// When the request was made.
    pub request_timestamp: DateTime,
    /// Account the requestor authenticates as.
    pub account_id: Option<String>,
    /// Secret authenticating the account.
    pub account_key: Option<String>,
    /// Address to send the answer to.
    pub address: Option<EndpointAddress>,
    /// Who is asking.
    pub requestor_ref: ParticipantRef,
    /// Identifier the requestor puts on this message.
    pub message_identifier: Option<MessageQualifier>,
    /// Implementation-defined content.
    pub extensions: Option<Extensions>,
}

impl ServiceFeaturesRequest {
    /// A request for the producer's whole service-feature code list.
    pub fn new(request_timestamp: DateTime, requestor_ref: ParticipantRef) -> (result: Self)
        ensures
            result.version is None,
            result.request_timestamp == request_timestamp,
            result.account_id is None,
            result.account_key is None,
            result.address is None,
            result.requestor_ref == requestor_ref,
            result.message_identifier is None,
            result.extensions is None,
    {
        Self {
            version: None,
            request_timestamp,
            account_id: None,
            account_key: None,
            address: None,
            requestor_ref,
            message_identifier: None,
            extensions: None,
        }
    }
}

/// The service features a producer labels its services with.
#[derive(Debug, Clone, PartialEq)]
pub struct ServiceFeaturesDelivery {
    /// Version of SIRI the delivery conforms to.
    pub version: Option<String>,
    /// When the delivery was made.
    pub response_timestamp: DateTime,
    /// Whether the request was processed successfully.
    pub status: Option<bool>,
    /// Why the request could not be processed.
    pub error_condition: Option<ErrorCondition<ServiceRequestError>>,
    /// End of the producer's data horizon.
    pub valid_until: Option<DateTime>,
    /// The shortest interval at which the producer will send updates.
    pub shortest_possible_cycle: Option<Duration>,
    /// The code list, one entry per feature.
    ///
    /// Unlike the other discovery deliveries this one has no `Extensions` element.
    pub service_feature: Vec<ServiceFeature>,
}

impl ServiceFeaturesDelivery {
    /// A successful delivery of the given code list.
    pub fn new(response_timestamp: DateTime, service_feature: Vec<ServiceFeature>) -> (result: Self)
        ensures
            result.version is None,
            result.response_timestamp == response_timestamp,
            result.status == Some(true),
            result.error_condition is None,
            result.valid_until is None,
            result.shortest_possible_cycle is None,
            result.service_feature == service_feature,
    {
        Self {
            version: None,
            response_timestamp,
            status: Some(true),
            error_condition: None,
            valid_until: None,
            shortest_possible_cycle: None,
            service_feature,
        }
    }
}

/// A request for the vehicle features a producer labels its vehicles with.
#[derive(Debug, Clone, PartialEq)]
pub struct VehicleFeaturesRequest {
    /// Version of SIRI the request conforms to.
    pub version: Option<String>,
    /// When the request was made.
    pub request_timestamp: DateTime,
    /// Account the requestor authenticates as.
    pub account_id: Option<String>,
    /// Secret authenticating the account.
    pub account_key: Option<String>,
    /// Address to send the answer to.
    pub address: Option<EndpointAddress>,
    /// Who is asking.
    pub requestor_ref: ParticipantRef,
    /// Identifier the requestor puts on this message.
    pub message_identifier: Option<MessageQualifier>,
    /// Languages the requestor would like names in, most preferred first.
    pub language: Vec<String>,
    /// Implementation-defined content.
    pub extensions: Option<Extensions>,
}

impl VehicleFeaturesRequest {
    /// A request for the producer's whole vehicle-feature code list.
    pub fn new(request_timestamp: DateTime, requestor_ref: ParticipantRef) -> (result: Self)
        ensures
            result.version is None,
            result.request_timestamp == request_timestamp,
            result.account_id is None,
            result.account_key is None,
            result.address is None,
            result.requestor_ref == requestor_ref,
            result.message_identifier is None,
            result.language@.len() == 0,
            result.extensions is None,
    {
        Self {
            version: None,
            request_timestamp,
            account_id: None,
            account_key: None,
            address: None,
            requestor_ref,
            message_identifier: None,
            language: Vec::new(),
            extensions: None,
        }
    }
}

/// The vehicle features a producer labels its vehicles with.
#[derive(Debug, Clone, PartialEq)]
pub struct VehicleFeaturesDelivery {
    /// Version of SIRI the delivery conforms to.
    pub version: Option<String>,
    /// When the delivery was made.
    pub response_timestamp: DateTime,
    /// Whether the request was processed successfully.
    pub status: Option<bool>,
    /// Why the request could not be processed.
    pub error_condition: Option<ErrorCondition<ServiceRequestError>>,
    /// End of the producer's data horizon.
    pub valid_until: Option<DateTime>,
    /// The shortest interval at which the producer will send updates.
    pub shortest_possible_cycle: Option<Duration>,
    /// The code list, one entry per feature.
    pub vehicle_feature: Vec<VehicleFeature>,
    /// Implementation-defined content.
    pub extensions: Option<Extensions>,
}

impl VehicleFeaturesDelivery {
    /// A successful delivery of the given code list.
    pub fn new(response_timestamp: DateTime, vehicle_feature: Vec<VehicleFeature>) -> (result: Self)
        ensures
            result.version is None,
            result.response_timestamp == response_timestamp,
            result.status == Some(true),
            result.error_condition is None,
            result.valid_until is None,
            result.shortest_possible_cycle is None,
            result.vehicle_feature == vehicle_feature,
            result.extensions is None,
    {
        Self {
            version: None,
            response_timestamp,
            status: Some(true),
            error_condition: None,
            valid_until: None,
            shortest_possible_cycle: None,
            vehicle_feature,
            extensions: None,
        }
    }
}

/// A request for the product categories a producer sorts its services into.
#[derive(Debug, Clone, PartialEq)]
pub struct ProductCategoriesRequest {
    /// Version of SIRI the request conforms to.
    pub version: Option<String>,
    /// When the request was made.
    pub request_timestamp: DateTime,
    /// Account the requestor authenticates as.
    pub account_id: Option<String>,
    /// Secret authenticating the account.
    pub account_key: Option<String>,
    /// Address to send the answer to.
    pub address: Option<EndpointAddress>,
    /// Who is asking.
    pub requestor_ref: ParticipantRef,
    /// Identifier the requestor puts on this message.
    pub message_identifier: Option<MessageQualifier>,
    /// Languages the requestor would like names in, most preferred first.
    pub language: Vec<String>,
    /// Implementation-defined content.
    pub extensions: Option<Extensions>,
}

impl ProductCategoriesRequest {
    /// A request for the producer's whole product-category code list.
    pub fn new(request_timestamp: DateTime, requestor_ref: ParticipantRef) -> (result: Self)
        ensures
            result.version is None,
            result.request_timestamp == request_timestamp,
            result.account_id is None,
            result.account_key is None,
            result.address is None,
            result.requestor_ref == requestor_ref,
            result.message_identifier is None,
            result.language@.len() == 0,
            result.extensions is None,
    {
        Self {
            version: None,
            request_timestamp,
            account_id: None,
            account_key: None,
            address: None,
            requestor_ref,
            message_identifier: None,
            language: Vec::new(),
            extensions: None,
        }
    }
}

/// The product categories a producer sorts its services into.
#[derive(Debug, Clone, PartialEq)]
pub struct ProductCategoriesDelivery {
    /// Version of SIRI the delivery conforms to.
    pub version: Option<String>,
    /// When the delivery was made.
    pub response_timestamp: DateTime,
    /// Whether the request was processed successfully.
    pub status: Option<bool>,
    /// Why the request could not be processed.
    pub error_condition: Option<ErrorCondition<ServiceRequestError>>,
    /// End of the producer's data horizon.
    pub valid_until: Option<DateTime>,
    /// The shortest interval at which the producer will send updates.
    pub shortest_possible_cycle: Option<Duration>,
    /// The code list, one entry per category.
    pub product_category: Vec<ProductCategory>,
    /// Implementation-defined content.
    pub extensions: Option<Extensions>,
}

impl ProductCategoriesDelivery {
    /// A successful delivery of the given code list.
    pub fn new(
        response_timestamp: DateTime,
        product_category: Vec<ProductCategory>,
    ) -> (result: Self)
        ensures
            result.version is None,
            result.response_timestamp == response_timestamp,
            result.status == Some(true),
            result.error_condition is None,
            result.valid_until is None,
            result.shortest_possible_cycle is None,
            result.product_category == product_category,
            result.extensions is None,
    {
        Self {
            version: None,
            response_timestamp,
            status: Some(true),
            error_condition: None,
            valid_until: None,
            shortest_possible_cycle: None,
            product_category,
            extensions: None,
        }
    }
}

/// A stop point together with as much about it as the request asked for.
///
/// Only the identifier is always present. Name and position come at the `normal`
/// level of detail, features and lines at the `full` level.
#[derive(Debug, Clone, PartialEq)]
pub struct AnnotatedStopPointRef {
    /// Identifier of the stop.
    pub stop_point_ref: StopPointRef,
    /// Whether the stop is a timing point, i.e. one whose passing times are held to
    /// and published rather than merely interpolated.
    pub timing_point: Option<bool>,
    /// Whether real-time data is available for the stop.
    pub monitored: Option<bool>,
    /// Names of the stop, one per language.
    pub stop_name: Vec<NaturalLanguageString>,
    /// The group of stops this one belongs to.
    pub stop_area_ref: Option<StopAreaRef>,
    /// Features of the stop, such as a shelter or a ticket machine.
    pub features: Option<StopPointFeatures>,
    /// Lines that call at the stop.
    pub lines: Option<StopPointLines>,
    /// Where to draw the stop on a map.
    pub location: Option<Location>,
    /// Web page about the stop.
    pub url: Option<String>,
}

impl AnnotatedStopPointRef {
    /// A stop described by identifier alone, the `minimum` level of detail.
    pub fn new(stop_point_ref: StopPointRef) -> (result: Self)
        ensures
            result.stop_point_ref == stop_point_ref,
            result.timing_point is None,
            result.monitored is None,
            result.stop_name@.len() == 0,
            result.stop_area_ref is None,
            result.features is None,
            result.lines is None,
            result.location is None,
            result.url is None,
    {
        Self {
            stop_point_ref,
            timing_point: None,
            monitored: None,
            stop_name: Vec::new(),
            stop_area_ref: None,
            features: None,
            lines: None,
            location: None,
            url: None,
        }
    }
}

/// The features of a stop, each given either in full or as a reference into the
/// producer's code list.
#[derive(Debug, Clone, PartialEq, Eq, Default)]
pub struct StopPointFeatures {
    /// The features, in the order the producer listed them.
    pub items: Vec<StopPointFeature>,
}

/// One feature of a stop.
#[derive(Debug, Clone, PartialEq, Eq)]
pub enum StopPointFeature {
    /// The feature spelled out, with its code, names and icon.
    ServiceFeature(ServiceFeature),
    /// A reference to a feature of the producer's code list.
    ServiceFeatureRef(ServiceFeatureRef),
}

/// The lines calling at a stop, each given with or without a direction.
#[derive(Debug, Clone, PartialEq, Eq, Default)]
pub struct StopPointLines {
    /// The lines, in the order the producer listed them.
    pub items: Vec<StopPointLine>,
}

/// One line calling at a stop.
#[derive(Debug, Clone, PartialEq, Eq)]
pub enum StopPointLine {
    /// The line as a whole, in both directions.
    LineRef(LineRef),
    /// One direction of the line.
    LineDirection(LineDirection),
}

/// A line together with as much about it as the request asked for.
#[derive(Debug, Clone, PartialEq)]
pub struct AnnotatedLineRef {
    /// Identifier of the line.
    pub line_ref: LineRef,
    /// Names of the line, one per language.
    pub line_name: Vec<NaturalLanguageString>,
    /// Whether real-time data is available for the line.
    pub monitored: Option<bool>,
    /// Places the line runs to, as shown to passengers.
    pub destinations: Option<Destinations>,
    /// The directions the line is operated in, with their stopping patterns.
    pub directions: Option<Directions>,
    /// Implementation-defined content.
    pub extensions: Option<Extensions>,
}

impl AnnotatedLineRef {
    /// A line described by identifier and name, the `minimum` level of detail.
    pub fn new(line_ref: LineRef, line_name: Vec<NaturalLanguageString>) -> (result: Self)
        ensures
            result.line_ref == line_ref,
            result.line_name == line_name,
            result.monitored is None,
            result.destinations is None,
            result.directions is None,
            result.extensions is None,
    {
        Self {
            line_ref,
            line_name,
            monitored: None,
            destinations: None,
            directions: None,
            extensions: None,
        }
    }
}

/// The places a line runs to.
#[derive(Debug, Clone, PartialEq, Eq)]
pub struct Destinations {
    /// The destinations, at least one.
    pub destination: Vec<AnnotatedDestination>,
}

/// A place a line runs to, as shown to passengers.
#[derive(Debug, Clone, PartialEq, Eq)]
pub struct AnnotatedDestination {
    /// Identifier of the destination.
    pub destination_ref: DestinationRef,
    /// Names of the destination place, one per language.
    pub place_name: Vec<NaturalLanguageString>,
    /// The direction of travel this destination lies in.
    pub direction_ref: Option<DirectionRef>,
}

/// The directions a line is operated in.
#[derive(Debug, Clone, PartialEq)]
pub struct Directions {
    /// The directions, at least one.
    pub direction: Vec<RouteDirection>,
}

/// One direction of travel along a line, with the patterns operated in it.
#[derive(Debug, Clone, PartialEq)]
pub struct RouteDirection {
    /// Identifier of the direction.
    pub direction_ref: DirectionRef,
    /// Names of the direction, one per language.
    pub direction_name: Vec<NaturalLanguageString>,
    /// The stopping patterns operated in this direction.
    pub journey_patterns: Option<JourneyPatterns>,
    /// Implementation-defined content.
    pub extensions: Option<Extensions>,
}

/// The stopping patterns operated in one direction of a line.
#[derive(Debug, Clone, PartialEq)]
pub struct JourneyPatterns {
    /// The patterns, at least one.
    pub journey_pattern: Vec<JourneyPattern>,
}

/// One ordered sequence of stops that journeys on a line follow.
#[derive(Debug, Clone, PartialEq, Default)]
pub struct JourneyPattern {
    /// Identifier of the pattern.
    pub journey_pattern_ref: Option<JourneyPatternRef>,
    /// Names of the pattern, one per language.
    pub name: Vec<NaturalLanguageString>,
    /// The stops, in the order they are called at.
    pub stops_in_pattern: Option<StopsInPattern>,
}

/// The stops of a journey pattern, in the order they are called at.
#[derive(Debug, Clone, PartialEq)]
pub struct StopsInPattern {
    /// The stops; the schema requires at least two, since a pattern has an origin
    /// and a destination.
    pub stop_point_in_pattern: Vec<StopPointInPattern>,
}

/// A stop as it appears within a journey pattern.
///
/// Everything an [`AnnotatedStopPointRef`] carries, plus the stop's place in the
/// sequence and the shape of the run to the next stop.
#[derive(Debug, Clone, PartialEq)]
pub struct StopPointInPattern {
    /// Identifier of the stop.
    pub stop_point_ref: StopPointRef,
    /// Whether the stop is a timing point, i.e. one whose passing times are held to
    /// and published rather than merely interpolated.
    pub timing_point: Option<bool>,
    /// Whether real-time data is available for the stop.
    pub monitored: Option<bool>,
    /// Names of the stop, one per language.
    pub stop_name: Vec<NaturalLanguageString>,
    /// The group of stops this one belongs to.
    pub stop_area_ref: Option<StopAreaRef>,
    /// Features of the stop, such as a shelter or a ticket machine.
    pub features: Option<StopPointFeatures>,
    /// Lines that call at the stop.
    pub lines: Option<StopPointLines>,
    /// Where to draw the stop on a map.
    pub location: Option<Location>,
    /// Web page about the stop.
    pub url: Option<String>,
    /// Position of the stop in the pattern, counting from one.
    pub order: u64,
    /// The path from this stop to the next one, as a list of points.
    pub onward_link_shape: Option<LineShape>,
    /// The path from this stop to the next one, projected onto a geographic
    /// information system's own geometry.
    pub link_projection_to_next_stop_point: Option<LinkProjection>,
    /// Implementation-defined content.
    pub extensions: Option<Extensions>,
}

} // verus!
