//! Delivering a planned timetable.

use crate::enumerations::{FirstOrLastJourney, VehicleModesOfTransport};
use crate::framework::{ErrorCondition, ServiceRequestError};
use crate::model::{
    Branding, BrandingRef, DatedVehicleJourney, DirectionRef, GroupOfLinesRef, JourneyPatternRef,
    LineRef, OperatorRef, ProductCategoryRef, RemovedDatedVehicleJourney,
    RemovedServiceJourneyInterchange, RouteRef, ServiceFeatureRef, ServiceJourneyInterchange,
    VehicleFeatureRef, VersionRef,
};
use crate::pt::request::TimetableValidityPeriod;
use crate::types::{
    Duration, EndpointAddress, Extensions, MessageRef, NaturalLanguagePlaceName,
    NaturalLanguageString, ParticipantRef, SubscriptionFilterRef, SubscriptionRef,
};
use crate::types::DateTime;
use vstd::prelude::*;

verus! {

/// The planned timetable a producer is publishing.
///
/// A delivery either answers a
/// [`ProductionTimetableRequest`](crate::pt::ProductionTimetableRequest) — in which
/// case it quotes the request's identifier — or satisfies a subscription, in which
/// case it quotes the subscription's.
#[derive(Debug, Clone, PartialEq)]
pub struct ProductionTimetableDelivery {
    /// Version of SIRI-PT the delivery conforms to.
    pub version: Option<String>,
    /// When the delivery was made.
    pub response_timestamp: DateTime,
    /// The request this delivery answers.
    pub request_message_ref: Option<MessageRef>,
    /// Who holds the subscription this delivery satisfies.
    pub subscriber_ref: Option<ParticipantRef>,
    /// The shared filter the subscription uses.
    pub subscription_filter_ref: Option<SubscriptionFilterRef>,
    /// The subscription this delivery satisfies.
    pub subscription_ref: Option<SubscriptionRef>,
    /// Address of the participant the data is delivered on behalf of.
    pub delegator_address: Option<EndpointAddress>,
    /// Participant the data is delivered on behalf of.
    pub delegator_ref: Option<ParticipantRef>,
    /// Whether the request or subscription was processed successfully.
    pub status: Option<bool>,
    /// Why it could not be processed.
    pub error_condition: Option<ErrorCondition<ServiceRequestError>>,
    /// How long this delivery holds.
    pub valid_until: Option<DateTime>,
    /// The shortest interval at which the producer will send updates.
    pub shortest_possible_cycle: Option<Duration>,
    /// The language texts are in unless a journey says otherwise.
    pub default_language: Option<String>,
    /// The timetable itself, one frame per line and timetable version.
    pub dated_timetable_version_frame: Vec<DatedTimetableVersionFrame>,
    /// Implementation-defined content.
    pub extensions: Option<Extensions>,
}

impl ProductionTimetableDelivery {
    /// A delivery carrying the given timetable frames.
    pub fn new(
        response_timestamp: DateTime,
        dated_timetable_version_frame: Vec<DatedTimetableVersionFrame>,
    ) -> (result: Self)
        ensures
            result.version is None,
            result.response_timestamp == response_timestamp,
            result.request_message_ref is None,
            result.subscriber_ref is None,
            result.subscription_filter_ref is None,
            result.subscription_ref is None,
            result.delegator_address is None,
            result.delegator_ref is None,
            result.status is None,
            result.error_condition is None,
            result.valid_until is None,
            result.shortest_possible_cycle is None,
            result.default_language is None,
            result.dated_timetable_version_frame == dated_timetable_version_frame,
            result.extensions is None,
    {
        Self {
            version: None,
            response_timestamp,
            request_message_ref: None,
            subscriber_ref: None,
            subscription_filter_ref: None,
            subscription_ref: None,
            delegator_address: None,
            delegator_ref: None,
            status: None,
            error_condition: None,
            valid_until: None,
            shortest_possible_cycle: None,
            default_language: None,
            dated_timetable_version_frame,
            extensions: None,
        }
    }

    /// The planned runs this delivery carries, across all its frames, frame by
    /// frame and in the order each frame lists them.
    pub fn journeys(&self) -> (journeys: Vec<&DatedVehicleJourney>)
        ensures
            journeys@.len() == journeys_of(self.dated_timetable_version_frame@).len(),
            forall|i: int|
                0 <= i < journeys@.len() ==> *#[trigger] journeys@[i] == journeys_of(
                    self.dated_timetable_version_frame@,
                )[i],
    {
        let frames = &self.dated_timetable_version_frame;
        let mut journeys: Vec<&DatedVehicleJourney> = Vec::new();
        let mut i: usize = 0;
        while i < frames.len()
            invariant
                i <= frames@.len(),
                journeys@.len() == journeys_of(frames@.take(i as int)).len(),
                forall|k: int|
                    0 <= k < journeys@.len() ==> *#[trigger] journeys@[k] == journeys_of(
                        frames@.take(i as int),
                    )[k],
            decreases frames@.len() - i,
        {
            let frame = &frames[i];
            let ghost before = journeys_of(frames@.take(i as int));
            let mut j: usize = 0;
            while j < frame.dated_vehicle_journey.len()
                invariant
                    i < frames@.len(),
                    frame == frames@[i as int],
                    before == journeys_of(frames@.take(i as int)),
                    j <= frame.dated_vehicle_journey@.len(),
                    journeys@.len() == before.len() + j,
                    forall|k: int|
                        0 <= k < journeys@.len() ==> *#[trigger] journeys@[k] == (before
                            + frame.dated_vehicle_journey@.take(j as int))[k],
                decreases frame.dated_vehicle_journey@.len() - j,
            {
                journeys.push(&frame.dated_vehicle_journey[j]);
                j = j + 1;
            }
            proof {
                assert(frames@.take(i + 1).drop_last() =~= frames@.take(i as int));
                assert(frame.dated_vehicle_journey@.take(j as int) =~= frame.dated_vehicle_journey@);
            }
            i = i + 1;
        }
        proof {
            assert(frames@.take(frames@.len() as int) =~= frames@);
        }
        journeys
    }
}

/// Every planned run of the given frames, frame by frame and in the order each
/// frame lists them.
pub open spec fn journeys_of(frames: Seq<DatedTimetableVersionFrame>) -> Seq<DatedVehicleJourney>
    decreases frames.len(),
{
    if frames.len() == 0 {
        Seq::empty()
    } else {
        journeys_of(frames.drop_last()) + frames.last().dated_vehicle_journey@
    }
}

/// The planned runs of one line, drawn from one edition of the timetable.
///
/// What the runs have in common — line, direction, operator, product category — is
/// stated once on the frame rather than repeated on every run.
#[derive(Debug, Clone, PartialEq)]
pub struct DatedTimetableVersionFrame {
    /// When the producer last knew the frame's contents to be true.
    pub recorded_at_time: DateTime,
    /// The edition of the timetable the runs were drawn from.
    pub version_ref: Option<VersionRef>,
    /// The period the frame covers.
    pub validity_period: Option<TimetableValidityPeriod>,
    /// The shortest interval at which the producer will send updates.
    pub shortest_possible_cycle: Option<Duration>,
    /// The line the runs are on.
    pub line_ref: LineRef,
    /// The direction they run in.
    pub direction_ref: DirectionRef,
    /// The journey pattern they follow.
    pub journey_pattern_ref: Option<JourneyPatternRef>,
    /// The journey pattern's name.
    pub journey_pattern_name: Option<NaturalLanguageString>,
    /// The modes of transport they use.
    pub vehicle_mode: Vec<VehicleModesOfTransport>,
    /// The route they follow.
    pub route_ref: Option<RouteRef>,
    /// The line's name as shown to passengers, one per language.
    pub published_line_name: Vec<NaturalLanguageString>,
    /// The group of lines the line is marketed within.
    pub group_of_lines_ref: Option<GroupOfLinesRef>,
    /// The direction's name as shown to passengers, one per language.
    pub direction_name: Vec<NaturalLanguageString>,
    /// The line as another operator's network identifies it.
    pub external_line_ref: Option<LineRef>,
    /// The brand the service is presented under, stated elsewhere.
    pub branding_ref: Option<BrandingRef>,
    /// The brand the service is presented under, stated here.
    pub branding: Option<Branding>,
    /// The operator running the services.
    pub operator_ref: Option<OperatorRef>,
    /// The commercial category they belong to.
    pub product_category_ref: Option<ProductCategoryRef>,
    /// Properties of the services, e.g. that cycles may be carried.
    pub service_feature_ref: Vec<ServiceFeatureRef>,
    /// Properties of the vehicles, e.g. that they have a low floor.
    pub vehicle_feature_ref: Vec<VehicleFeatureRef>,
    /// What is shown as the origin, one per language.
    pub origin_display: Vec<NaturalLanguageString>,
    /// What is shown as the destination, one per language.
    pub destination_display: Vec<NaturalLanguageString>,
    /// Notes about the line, one per language.
    pub line_note: Vec<NaturalLanguagePlaceName>,
    /// Whether these are the first or the last runs of the day on the line.
    pub first_or_last_journey: Option<FirstOrLastJourney>,
    /// Whether the services run to a headway rather than to fixed times.
    pub headway_service: Option<bool>,
    /// Whether the runs will be tracked in real time.
    pub monitored: Option<bool>,
    /// The runs themselves.
    pub dated_vehicle_journey: Vec<DatedVehicleJourney>,
    /// Runs taken out of a timetable already published.
    pub removed_dated_vehicle_journey: Vec<RemovedDatedVehicleJourney>,
    /// The interchanges planned around the runs.
    pub service_journey_interchange: Vec<ServiceJourneyInterchange>,
    /// Interchanges taken out of a timetable already published.
    pub removed_service_journey_interchange: Vec<RemovedServiceJourneyInterchange>,
    /// Implementation-defined content.
    pub extensions: Option<Extensions>,
}

impl DatedTimetableVersionFrame {
    /// A frame of runs on one line and direction, recorded at the given instant.
    pub fn new(
        recorded_at_time: DateTime,
        line_ref: LineRef,
        direction_ref: DirectionRef,
        dated_vehicle_journey: Vec<DatedVehicleJourney>,
    ) -> (result: Self)
        ensures
            result.recorded_at_time == recorded_at_time,
            result.version_ref is None,
            result.validity_period is None,
            result.shortest_possible_cycle is None,
            result.line_ref == line_ref,
            result.direction_ref == direction_ref,
            result.journey_pattern_ref is None,
            result.journey_pattern_name is None,
            result.vehicle_mode@.len() == 0,
            result.route_ref is None,
            result.published_line_name@.len() == 0,
            result.group_of_lines_ref is None,
            result.direction_name@.len() == 0,
            result.external_line_ref is None,
            result.branding_ref is None,
            result.branding is None,
            result.operator_ref is None,
            result.product_category_ref is None,
            result.service_feature_ref@.len() == 0,
            result.vehicle_feature_ref@.len() == 0,
            result.origin_display@.len() == 0,
            result.destination_display@.len() == 0,
            result.line_note@.len() == 0,
            result.first_or_last_journey is None,
            result.headway_service is None,
            result.monitored is None,
            result.dated_vehicle_journey == dated_vehicle_journey,
            result.removed_dated_vehicle_journey@.len() == 0,
            result.service_journey_interchange@.len() == 0,
            result.removed_service_journey_interchange@.len() == 0,
            result.extensions is None,
    {
        Self {
            recorded_at_time,
            version_ref: None,
            validity_period: None,
            shortest_possible_cycle: None,
            line_ref,
            direction_ref,
            journey_pattern_ref: None,
            journey_pattern_name: None,
            vehicle_mode: Vec::new(),
            route_ref: None,
            published_line_name: Vec::new(),
            group_of_lines_ref: None,
            direction_name: Vec::new(),
            external_line_ref: None,
            branding_ref: None,
            branding: None,
            operator_ref: None,
            product_category_ref: None,
            service_feature_ref: Vec::new(),
            vehicle_feature_ref: Vec::new(),
            origin_display: Vec::new(),
            destination_display: Vec::new(),
            line_note: Vec::new(),
            first_or_last_journey: None,
            headway_service: None,
            monitored: None,
            dated_vehicle_journey,
            removed_dated_vehicle_journey: Vec::new(),
            service_journey_interchange: Vec::new(),
            removed_service_journey_interchange: Vec::new(),
            extensions: None,
        }
    }
}

} // verus!
