use siri_rs::enumerations::{
    BusSubmodesOfTransport, CompressionMethod, Occupancy, RailSubmodesOfTransport,
    WaterSubmodesOfTransport,
};
use siri_rs::model::{LineRef, Submode};
use siri_rs::types::{Binary64, DateTime, Duration, NaturalLanguagePlaceName, NaturalLanguageString, ParticipantRef};

#[test]
fn a_listed_token_reads_as_its_variant_and_writes_back_the_same() {
    assert_eq!(Occupancy::from_token("standingRoomOnly"), Occupancy::StandingRoomOnly);
    assert_eq!(Occupancy::StandingRoomOnly.as_str(), "standingRoomOnly");
    assert_eq!(CompressionMethod::from_token("none"), CompressionMethod::Uncompressed);
    assert_eq!(CompressionMethod::Uncompressed.as_str(), "none");
    assert_eq!(
        WaterSubmodesOfTransport::from_token(WaterSubmodesOfTransport::RiverBus.as_str()),
        WaterSubmodesOfTransport::RiverBus
    );
}

#[test]
fn an_unlisted_token_is_kept_as_it_was_read() {
    let read = Occupancy::from_token("sleepingRoomOnly");
    assert_eq!(read, Occupancy::Unrecognised("sleepingRoomOnly".to_owned()));
    assert_eq!(read.as_str(), "sleepingRoomOnly");
    assert_eq!(Occupancy::from_token(""), Occupancy::Unrecognised(String::new()));
}

#[test]
fn an_unrecognised_value_holding_a_listed_token_reads_back_as_the_listed_variant() {
    let written = Occupancy::Unrecognised("full".to_owned());
    assert_eq!(Occupancy::from_token(written.as_str()), Occupancy::Full);
}

#[test]
fn a_submode_is_written_as_the_token_of_its_family() {
    assert_eq!(Submode::Bus(BusSubmodesOfTransport::NightBus).as_str(), "nightBus");
    assert_eq!(Submode::Rail(RailSubmodesOfTransport::HighSpeedRail).as_str(), "highSpeedRail");
    assert_eq!(
        Submode::Rail(RailSubmodesOfTransport::Unrecognised("tramTrain".to_owned())).as_str(),
        "tramTrain"
    );
}

#[test]
fn a_timestamp_is_refused_when_its_parts_are_out_of_range() {
    assert!(DateTime::new(0, 1_999_999_999, 0).is_some());
    assert!(DateTime::new(0, 2_000_000_000, 0).is_none());
    assert!(DateTime::new(0, 0, 86_399).is_some());
    assert!(DateTime::new(0, 0, 86_400).is_none());
    assert!(DateTime::new(0, 0, -86_400).is_none());
    let stamp = DateTime::new(1_103_293_847, 5, -18_000).unwrap();
    assert_eq!(stamp.timestamp(), 1_103_293_847);
    assert_eq!(stamp.timestamp_subsec_nanos(), 5);
    assert_eq!(stamp.offset_seconds(), -18_000);
}

#[test]
fn timestamps_naming_the_same_instant_are_equal_whatever_their_offsets() {
    let new_york = DateTime::new(1_103_293_847, 0, -18_000).unwrap();
    let utc = DateTime::new(1_103_293_847, 0, 0).unwrap();
    let later = DateTime::new(1_103_293_848, 0, 0).unwrap();
    assert_eq!(new_york, utc);
    assert_ne!(utc, later);
    assert_ne!(new_york.offset_seconds(), utc.offset_seconds());
}

#[test]
fn a_double_keeps_its_exact_bits() {
    let value = Binary64::from_bits((-0.0f64).to_bits());
    assert_eq!(f64::from_bits(value.to_bits()).to_bits(), (-0.0f64).to_bits());
    assert_eq!(Binary64::from_bits(53.55f64.to_bits()).bits, 53.55f64.to_bits());
}

#[test]
fn texts_carry_their_language_when_they_state_one() {
    let plain = NaturalLanguageString::new("Express");
    assert_eq!(plain.lang, None);
    assert_eq!(plain.value, "Express");
    let english = NaturalLanguagePlaceName::with_lang("EN", "Sutton");
    assert_eq!(english.lang.as_deref(), Some("EN"));
    assert_eq!(english.value, "Sutton");
}

#[test]
fn a_reference_hands_back_the_text_it_wraps() {
    let line = LineRef::new("Line564");
    assert_eq!(line.as_str(), "Line564");
    assert_eq!(line.clone().into_inner(), "Line564");
    assert_eq!(LineRef::from("Line564".to_owned()), line);
    assert_eq!(ParticipantRef::new("NADER").as_str(), "NADER");
    let written: &str = line.as_ref();
    assert_eq!(written, "Line564");
}

#[test]
fn a_duration_is_read_in_the_lexical_form_of_xsd_duration() {
    for text in ["PT2M", "P1Y2M3DT4H5M6S", "-P1D", "PT0.5S", "P0D", "PT10H", "P1M", "PT1M"] {
        let duration = Duration::parse(text).expect("valid duration");
        assert_eq!(duration.as_str(), text);
    }
}

#[test]
fn a_text_out_of_the_lexical_form_is_not_a_duration() {
    for text in [
        "", "P", "PT", "-P", "2M", "P2", "PT2", "P1DT", "P1.5D", "PT1.S", "PT.5S", "P2M1Y",
        "PT1S2M", "P1D1D", "PT2m", "P 1D", "P1DT1H1D", "--P1D", "P-1D", "PT1H1.5M",
    ] {
        assert!(Duration::parse(text).is_none(), "{text}");
    }
}

#[test]
fn a_copied_duration_reads_the_same() {
    let duration = Duration::parse("PT45S").expect("valid duration");
    let copy = duration.clone();
    assert_eq!(copy, duration);
    assert_eq!(copy.as_str(), "PT45S");
}

#[test]
fn an_rfc3339_timestamp_keeps_its_instant_and_its_offset() {
    let timestamp = DateTime::parse_from_rfc3339("2004-12-17T09:30:47-05:00").expect("valid timestamp");
    assert_eq!(timestamp.timestamp(), 1103293847);
    assert_eq!(timestamp.timestamp_subsec_nanos(), 0);
    assert_eq!(timestamp.offset_seconds(), -5 * 3600);
    let fraction = DateTime::parse_from_rfc3339("2001-12-17T14:30:47.25Z").expect("valid timestamp");
    assert_eq!(fraction.timestamp(), 1008599447);
    assert_eq!(fraction.timestamp_subsec_nanos(), 250_000_000);
    assert_eq!(fraction.offset_seconds(), 0);
}

#[test]
fn a_text_that_is_no_rfc3339_timestamp_is_refused() {
    assert!(DateTime::parse_from_rfc3339("2004-12-17").is_none());
    assert!(DateTime::parse_from_rfc3339("yesterday").is_none());
}

#[test]
fn every_value_of_a_list_reads_back_from_its_token() {
    assert_eq!(CompressionMethod::all(), vec![CompressionMethod::Uncompressed, CompressionMethod::Gzip]);
    assert_eq!(CompressionMethod::XSD_TYPE, "CompressionMethodEnumeration");
    for value in Occupancy::all() {
        assert!(!matches!(value, Occupancy::Unrecognised(_)));
        assert_eq!(Occupancy::from_token(value.as_str()), value);
    }
    for value in WaterSubmodesOfTransport::all() {
        assert_eq!(WaterSubmodesOfTransport::from_token(value.as_str()), value);
    }
}

#[test]
fn parsing_a_token_never_fails() {
    let listed: CompressionMethod = "gzip".parse().unwrap();
    assert_eq!(listed, CompressionMethod::Gzip);
    let unlisted: CompressionMethod = "brotli".parse().unwrap();
    assert_eq!(unlisted, CompressionMethod::Unrecognised("brotli".to_owned()));
}
