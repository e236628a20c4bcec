//! Asking for a planned timetable, once or by subscription.

use crate::enumerations::VehicleModesOfTransport;
use crate::model::{
    LineDirection, OperatorRef, ProductCategoryRef, RequestedLines, StopPointRef, VersionRef,
};
use crate::types::{
    Timestamp,
    ClosedTimestampRange, Extensions, MessageQualifier, ParticipantRef, SubscriptionQualifier,
};
use crate::types::DateTime;
use vstd::prelude::*;

verus! {

/// A request for the planned timetable a producer holds.
///
/// Every field beyond the timestamp narrows the answer; a request with no filters
/// asks for everything the producer is willing to publish. Filters of different
/// kinds are combined with "and".
#[derive(Debug, Clone, PartialEq)]
pub struct ProductionTimetableRequest {
    /// Version of SIRI-PT the request conforms to.
    pub version: Option<String>,
    /// When the request was made.
    pub request_timestamp: DateTime,
    /// Identifier the requestor puts on this request.
    pub message_identifier: Option<MessageQualifier>,
    /// Only journeys running within this period.
    pub validity_period: Option<ClosedTimestampRange>,
    /// Only journeys from this edition of the timetable.
    pub timetable_version_ref: Option<VersionRef>,
    /// Only journeys run by these operators.
    pub operator_ref: Vec<OperatorRef>,
    /// Only journeys on these lines, each optionally narrowed to one direction.
    pub lines: Option<RequestedLines>,
    /// Only journeys using these modes of transport.
    pub vehicle_mode: Vec<VehicleModesOfTransport>,
    /// Only journeys in these commercial categories.
    pub product_category_ref: Vec<ProductCategoryRef>,
    /// Only journeys calling at these stops.
    pub stop_point_ref: Vec<StopPointRef>,
    /// Languages the requestor would like texts in, most preferred first.
    pub language: Vec<String>,
    /// Whether to include every translation of a text rather than only one.
    pub include_translations: Option<bool>,
    /// Whether to include the interchanges planned around the journeys.
    pub include_interchanges: Option<bool>,
    /// Whether to include the relations to journeys joined, split or continued.
    pub include_journey_relations: Option<bool>,
    /// Whether to include how the trains are put together.
    pub include_train_formations: Option<bool>,
    /// Whether to send only what has changed since the last delivery.
    pub incremental_updates: Option<bool>,
    /// Implementation-defined content.
    pub extensions: Option<Extensions>,
}

impl ProductionTimetableRequest {
    /// An unfiltered request for everything the producer publishes.
    pub fn new(request_timestamp: DateTime) -> (result: Self)
        ensures
            result.version is None,
            result.request_timestamp == request_timestamp,
            result.message_identifier is None,
            result.validity_period is None,
            result.timetable_version_ref is None,
            result.operator_ref@.len() == 0,
            result.lines is None,
            result.vehicle_mode@.len() == 0,
            result.product_category_ref@.len() == 0,
            result.stop_point_ref@.len() == 0,
            result.language@.len() == 0,
            result.include_translations is None,
            result.include_interchanges is None,
            result.include_journey_relations is None,
            result.include_train_formations is None,
            result.incremental_updates is None,
            result.extensions is None,
    {
        Self {
            version: None,
            request_timestamp,
            message_identifier: None,
            validity_period: None,
            timetable_version_ref: None,
            operator_ref: Vec::new(),
            lines: None,
            vehicle_mode: Vec::new(),
            product_category_ref: Vec::new(),
            stop_point_ref: Vec::new(),
            language: Vec::new(),
            include_translations: None,
            include_interchanges: None,
            include_journey_relations: None,
            include_train_formations: None,
            incremental_updates: None,
            extensions: None,
        }
    }

    /// The same request, narrowed to journeys running within the given period.
    pub fn within(self, validity_period: ClosedTimestampRange) -> (result: Self)
        ensures
            result == (ProductionTimetableRequest {
                validity_period: Some(validity_period),
                ..self
            }),
    {
        let mut request = self;
        request.validity_period = Some(validity_period);
        request
    }

    /// The same request, narrowed to the given lines and directions.
    pub fn for_lines(self, line_direction: Vec<LineDirection>) -> (result: Self)
        ensures
            result == (ProductionTimetableRequest {
                lines: Some(RequestedLines { line_direction }),
                ..self
            }),
    {
        let mut request = self;
        request.lines = Some(RequestedLines { line_direction });
        request
    }
}

/// The period a timetable frame covers, in the timetable's own terms.
///
/// A timetable states its validity in the zone it runs in and may leave the offset
/// out, so both ends are kept as written.
#[derive(Debug, Clone, PartialEq, Eq, Hash)]
pub struct TimetableValidityPeriod {
    /// When the period starts.
    pub start_time: Timestamp,
    /// When it ends, if it is bounded.
    pub end_time: Option<Timestamp>,
}

/// A subscription to the planned timetable a producer holds.
#[derive(Debug, Clone, PartialEq)]
pub struct ProductionTimetableSubscriptionRequest {
    /// Who is subscribing, when different from the requestor of the enclosing message.
    pub subscriber_ref: Option<ParticipantRef>,
    /// The subscriber's name for this subscription, quoted in every delivery.
    pub subscription_identifier: SubscriptionQualifier,
    /// When the subscription lapses unless renewed.
    pub initial_termination_time: DateTime,
    /// Whether this replaces an existing subscription with the same identifier.
    pub subscription_renewal: Option<bool>,
    /// What to subscribe to.
    pub production_timetable_request: ProductionTimetableRequest,
    /// Whether to send only what has changed rather than the full set each time.
    pub incremental_updates: Option<bool>,
    /// Implementation-defined content.
    pub extensions: Option<Extensions>,
}

impl ProductionTimetableSubscriptionRequest {
    /// A subscription running until `initial_termination_time`.
    pub fn new(
        subscription_identifier: SubscriptionQualifier,
        initial_termination_time: DateTime,
        production_timetable_request: ProductionTimetableRequest,
    ) -> (result: Self)
        ensures
            result.subscriber_ref is None,
            result.subscription_identifier == subscription_identifier,
            result.initial_termination_time == initial_termination_time,
            result.subscription_renewal is None,
            result.production_timetable_request == production_timetable_request,
            result.incremental_updates is None,
            result.extensions is None,
    {
        Self {
            subscriber_ref: None,
            subscription_identifier,
            initial_termination_time,
            subscription_renewal: None,
            production_timetable_request,
            incremental_updates: None,
            extensions: None,
        }
    }
}

} // verus!
