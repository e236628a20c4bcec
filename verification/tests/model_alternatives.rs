use siri_rs::enumerations::{
    FacilityStatus as FacilityStatusValue, FormationChange, JourneyRelationType,
    VehicleInFormationStatus,
};
use siri_rs::model::{
    BoardingPositionRef, BoundingBox, CallAlteration, CircularArea, DataFrameRef,
    DatedVehicleJourneyRef, DirectionRef, EstimatedCall, EstimatedVehicleJourney, Facility,
    FacilityCondition, FacilityRef, FacilityStatus, FacilitySubject, FlexibleArea, FlexibleShape,
    FormationCondition, FormationConditionStatus, FormationStatus, FramedVehicleJourneyRef,
    JourneyAlteration, JourneyIdentity, JourneyParts, JourneyRelation, JourneyRelationScope,
    LineRef, Location, PlannedStopAssignment, Position, QuayRef, RelatedCall, RelatedJourney,
    StandingPlace, StopAssignment, StopPointRef, VehicleInFormationStatusRecord,
};
use siri_rs::types::Binary64;

fn degrees(value: f64) -> Binary64 {
    Binary64::from_bits(value.to_bits())
}

fn dated() -> EstimatedVehicleJourney {
    EstimatedVehicleJourney::dated(
        LineRef::new("LZ123"),
        DirectionRef::new("INBOUND"),
        DatedVehicleJourneyRef::new("00008"),
    )
}

#[test]
fn an_assignment_reports_which_kind_of_place_it_names() {
    assert_eq!(
        StopAssignment::at_boarding_position(BoardingPositionRef::new("B7")).place(),
        Some(StandingPlace::BoardingPosition)
    );
    assert_eq!(StopAssignment::default().place(), None);
    assert_eq!(
        PlannedStopAssignment::at_quay(QuayRef::new("Q1")).place(),
        Some(StandingPlace::Quay)
    );
    assert_eq!(PlannedStopAssignment::default().place(), None);
}

#[test]
fn a_journey_reports_which_run_it_names() {
    let dated = dated();
    assert!(matches!(dated.identity(), Some(JourneyIdentity::Dated(reference))
        if reference.as_str() == "00008"));

    let mut framed = dated.clone();
    framed.dated_vehicle_journey_ref = None;
    framed.framed_vehicle_journey_ref = Some(FramedVehicleJourneyRef {
        data_frame_ref: DataFrameRef::new("2001-12-17"),
        dated_vehicle_journey_ref: DatedVehicleJourneyRef::new("00008"),
    });
    assert!(matches!(framed.identity(), Some(JourneyIdentity::Framed(_))));

    let mut unplanned = dated;
    unplanned.dated_vehicle_journey_ref = None;
    unplanned.estimated_vehicle_journey_code = Some("EXTRA-1".to_owned());
    assert!(matches!(unplanned.identity(), Some(JourneyIdentity::Code("EXTRA-1"))));
}

#[test]
fn a_journey_reports_whether_it_adds_a_run_or_takes_one_away() {
    let running = dated();
    assert_eq!(running.alteration(), None);
    assert_eq!(
        running.clone().cancelled().alteration(),
        Some(JourneyAlteration::Cancelled)
    );

    let mut extra = running;
    extra.extra_journey = Some(true);
    assert_eq!(extra.alteration(), Some(JourneyAlteration::Extra));
}

#[test]
fn a_call_reports_whether_it_is_being_added_or_skipped() {
    let call = EstimatedCall::at(StopPointRef::new("00003"));
    assert_eq!(call.alteration(), None);
    assert_eq!(
        call.clone().cancelled().alteration(),
        Some(CallAlteration::Cancelled)
    );

    let mut extra = call;
    extra.extra_call = Some(true);
    assert_eq!(extra.alteration(), Some(CallAlteration::Extra));
}

#[test]
fn a_condition_reports_whether_it_describes_its_facility_or_refers_to_one() {
    let referred = FacilityCondition::for_reference(
        FacilityRef::new("LIFT-4"),
        FacilityStatus::new(FacilityStatusValue::NotAvailable),
    );
    assert!(matches!(referred.subject(), Some(FacilitySubject::Reference(r)) if r.as_str() == "LIFT-4"));

    let described = FacilityCondition::for_facility(
        Facility::with_code("134567-L4".to_owned()),
        FacilityStatus::new(FacilityStatusValue::Available),
    );
    assert!(matches!(described.subject(), Some(FacilitySubject::Facility(_))));
    assert!(described.facility_ref.is_none());
}

#[test]
fn a_formation_condition_reports_which_alternative_it_carries() {
    let formation = FormationCondition::formation(FormationStatus::new(
        FormationChange::MissingRestaurantCoach,
    ));
    assert!(matches!(
        formation.status(),
        Some(FormationConditionStatus::Formation(status)) if status.status == FormationChange::MissingRestaurantCoach
    ));

    let vehicle = FormationCondition::vehicle(VehicleInFormationStatusRecord::new(
        VehicleInFormationStatus::Defective,
    ));
    assert!(matches!(
        vehicle.status(),
        Some(FormationConditionStatus::Vehicle(_))
    ));
    assert_eq!(vehicle.formation_status, None);
}

#[test]
fn a_journey_relation_reports_which_alternative_it_carries() {
    let mut relation = JourneyRelation::new(
        JourneyRelationType::JoiningOfJourneys,
        vec![RelatedJourney {
            line_ref: Some(LineRef::new("S1")),
            ..RelatedJourney::default()
        }],
    );
    assert_eq!(relation.scope(), None);

    relation.call_info = Some(RelatedCall::at(StopPointRef::new("HLTS001")));
    assert!(matches!(relation.scope(), Some(JourneyRelationScope::Call(call))
        if call.stop_point_ref.as_str() == "HLTS001"));

    relation.call_info = None;
    relation.journey_parts = Some(JourneyParts::default());
    assert!(matches!(relation.scope(), Some(JourneyRelationScope::Parts(_))));
}

#[test]
fn a_wgs84_location_reports_its_position() {
    let location = Location::wgs84(degrees(0.1), degrees(53.0));
    assert_eq!(
        location.position(),
        Some(Position::Wgs84 {
            longitude: degrees(0.1),
            latitude: degrees(53.0),
            altitude: None
        })
    );
}

#[test]
fn a_projected_location_reports_its_coordinate_list() {
    let location = Location::coordinates("EPSG:27700".to_owned(), "530000 180000".to_owned());
    assert_eq!(
        location.position(),
        Some(Position::Coordinates("530000 180000"))
    );
}

#[test]
fn an_empty_location_reports_no_position() {
    assert_eq!(Location::default().position(), None);
}

#[test]
fn a_flexible_area_reports_which_shape_it_was_drawn_with() {
    let circle = FlexibleArea::circular_area(CircularArea {
        radius: Some(300),
        ..CircularArea::default()
    });
    assert!(matches!(circle.shape(), Some(FlexibleShape::CircularArea(_))));

    let box_ = FlexibleArea::bounding_box(BoundingBox::new(
        Location::wgs84(degrees(0.0), degrees(53.0)),
        Location::wgs84(degrees(0.1), degrees(52.9)),
    ));
    assert!(matches!(box_.shape(), Some(FlexibleShape::BoundingBox(_))));
    assert_eq!(FlexibleArea::default().shape(), None);
}
