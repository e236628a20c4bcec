use siri_rs::gm::{
    GeneralMessageDelivery, GeneralMessageRequest, InfoChannelPermission,
    InfoChannelPermissionItem, InfoChannelPermissions, InfoChannelRef, InfoMessage,
    InfoMessageRef,
};
use siri_rs::model::{DatedCall, DatedVehicleJourney, DirectionRef, LineDirection, LineRef, StopPointRef};
use siri_rs::pt::{DatedTimetableVersionFrame, ProductionTimetableDelivery, ProductionTimetableRequest};
use siri_rs::types::{AnyContent, ClosedTimestampRange, ContentEvent, DateTime, DefaultedBoolean};

fn at(seconds: i64) -> DateTime {
    DateTime::new(seconds, 0, 3600).expect("a valid timestamp")
}

fn run(code: &str) -> DatedVehicleJourney {
    DatedVehicleJourney::new(
        code.to_owned(),
        vec![
            DatedCall::at(StopPointRef::new("de:03241:101")),
            DatedCall::at(StopPointRef::new("de:03241:102")),
        ],
    )
}

#[test]
fn a_delivery_lists_its_journeys_frame_by_frame_in_order() {
    let first = DatedTimetableVersionFrame::new(
        at(0),
        LineRef::new("10"),
        DirectionRef::new("OUT"),
        vec![run("10-0815"), run("10-0845")],
    );
    let empty = DatedTimetableVersionFrame::new(at(0), LineRef::new("11"), DirectionRef::new("OUT"), Vec::new());
    let second = DatedTimetableVersionFrame::new(
        at(0),
        LineRef::new("12"),
        DirectionRef::new("IN"),
        vec![run("12-0900")],
    );
    let delivery = ProductionTimetableDelivery::new(at(0), vec![first, empty, second]);
    let codes: Vec<&str> = delivery
        .journeys()
        .into_iter()
        .map(|journey| journey.dated_vehicle_journey_code.as_deref().unwrap())
        .collect();
    assert_eq!(codes, ["10-0815", "10-0845", "12-0900"]);
    assert_eq!(ProductionTimetableDelivery::new(at(0), Vec::new()).journeys().len(), 0);
}

#[test]
fn a_run_keeps_its_calls_in_order() {
    let journey = run("10-0815");
    let stops: Vec<&str> = journey.dated_calls().iter().map(|call| call.stop_point_ref.as_str()).collect();
    assert_eq!(stops, ["de:03241:101", "de:03241:102"]);
    assert_eq!(journey.dated_vehicle_journey_code.as_deref(), Some("10-0815"));
}

#[test]
fn narrowing_a_request_sets_only_what_it_narrows() {
    let plain = ProductionTimetableRequest::new(at(5));
    let narrowed = plain
        .clone()
        .within(ClosedTimestampRange::between(at(5), at(86_405)))
        .for_lines(vec![LineDirection::new(LineRef::new("123"))]);
    assert_eq!(narrowed.validity_period, Some(ClosedTimestampRange::between(at(5), at(86_405))));
    assert_eq!(narrowed.lines.as_ref().unwrap().line_direction[0].line_ref.as_str(), "123");
    assert_eq!(narrowed.request_timestamp, plain.request_timestamp);
    assert_eq!(narrowed.operator_ref, plain.operator_ref);
    assert_eq!(narrowed.incremental_updates, None);
}

#[test]
fn a_message_keeps_the_content_it_was_given() {
    let message = InfoMessage::new(
        at(7),
        InfoMessageRef::new("00034567"),
        AnyContent::text("Beware the Ides of March".to_owned()),
    );
    assert_eq!(
        message.content.events().clone(),
        vec![ContentEvent::Text("Beware the Ides of March".to_owned())]
    );
    let delivery = GeneralMessageDelivery::new(at(7), vec![message.clone()]);
    assert_eq!(delivery.general_message, vec![message]);
    assert!(delivery.general_message_cancellation.is_empty());
    assert_eq!(delivery.status, None);
}

#[test]
fn a_request_naming_no_channel_asks_for_every_channel() {
    let every = GeneralMessageRequest::new(at(9));
    assert!(every.info_channel_ref.is_empty());
    let some = GeneralMessageRequest::on_channels(at(9), vec![InfoChannelRef::new("WARNING")]);
    assert_eq!(some.info_channel_ref, vec![InfoChannelRef::new("WARNING")]);
    assert_eq!(some.request_timestamp, every.request_timestamp);
}

#[test]
fn channel_permissions_default_to_allowed() {
    let permissions = InfoChannelPermissions::per_channel(vec![InfoChannelPermission {
        allow: DefaultedBoolean { value: None },
        info_channel_ref: InfoChannelRef::new("WARNING"),
    }]);
    match &permissions.items[0] {
        InfoChannelPermissionItem::InfoChannelPermission(permission) => {
            assert!(permission.allow.get());
        }
        other => panic!("expected a per-channel entry, got {other:?}"),
    }
    assert!(!DefaultedBoolean { value: Some(false) }.get());
    assert_eq!(InfoChannelPermissions::allow_all().items, vec![InfoChannelPermissionItem::AllowAll(true)]);
}

#[test]
fn open_content_is_kept_only_when_its_elements_are_whole_and_shallow() {
    let start = |name: &str| ContentEvent::Start { name: name.to_owned(), attributes: Vec::new() };
    let text = |value: &str| ContentEvent::Text(value.to_owned());
    let whole = vec![start("Note"), text("mind the gap"), ContentEvent::End, text("tail")];
    let content = AnyContent::from_events(whole.clone()).expect("whole elements");
    assert_eq!(content.events(), &whole);
    assert_eq!(content.clone().into_events(), whole);
    assert!(AnyContent::from_events(Vec::new()).is_some());
    assert!(AnyContent::from_events(vec![ContentEvent::End]).is_none());
    assert!(AnyContent::from_events(vec![start("Open")]).is_none());
    assert!(AnyContent::from_events(vec![start("A"), ContentEvent::End, ContentEvent::End]).is_none());
    let mut deepest = Vec::new();
    for _ in 0..AnyContent::MAX_DEPTH {
        deepest.push(start("Level"));
    }
    for _ in 0..AnyContent::MAX_DEPTH {
        deepest.push(ContentEvent::End);
    }
    assert!(AnyContent::from_events(deepest.clone()).is_some());
    let mut too_deep = vec![start("Outer")];
    too_deep.extend(deepest);
    too_deep.push(ContentEvent::End);
    assert!(AnyContent::from_events(too_deep).is_none());
    assert!(AnyContent::default().events().is_empty());
}
