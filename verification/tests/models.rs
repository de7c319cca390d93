//! Tests of the wire-code decode tables and the time-of-day parser.

use my_bus_tracker::models::{
    Direction, DisruptionLevel, DisruptionType, NaiveTimeExt, Operator, Reliability, StopType,
};
use my_bus_tracker::MyBusTrackerError;

#[test]
fn operator_codes_decode() {
    assert_eq!(Operator::from_code("LB"), Some(Operator::LothianBuses));
    assert_eq!(Operator::from_code("0"), Some(Operator::AllOperators));
    assert_eq!(Operator::from_code("ALL"), Some(Operator::AllOperators));
    assert_eq!(Operator::from_code("XX"), None);
    assert_eq!(Operator::from_code(""), None);
}

#[test]
fn operator_codes_encode() {
    assert_eq!(Operator::LothianBuses.code(), "LB");
    assert_eq!(Operator::AllOperators.code(), "0");
}

#[test]
fn reliability_codes_decode() {
    assert_eq!(Reliability::from_code("B"), Some(Reliability::Delayed));
    assert_eq!(Reliability::from_code("D"), Some(Reliability::Delocated));
    assert_eq!(Reliability::from_code("F"), Some(Reliability::RealTimeNotLowFloorEquipped));
    assert_eq!(Reliability::from_code("H"), Some(Reliability::RealTimeLowFloorEquipped));
    assert_eq!(Reliability::from_code("I"), Some(Reliability::Immobilized));
    assert_eq!(Reliability::from_code("N"), Some(Reliability::Neutralized));
    assert_eq!(Reliability::from_code("R"), Some(Reliability::RadioFault));
    assert_eq!(Reliability::from_code("T"), Some(Reliability::Estimated));
    assert_eq!(Reliability::from_code("V"), Some(Reliability::Diverted));
    assert_eq!(Reliability::from_code("Z"), None);
    assert_eq!(Reliability::from_code("BB"), None);
}

#[test]
fn reliability_codes_round_trip() {
    let all = [
        Reliability::Delayed,
        Reliability::Delocated,
        Reliability::RealTimeNotLowFloorEquipped,
        Reliability::RealTimeLowFloorEquipped,
        Reliability::Immobilized,
        Reliability::Neutralized,
        Reliability::RadioFault,
        Reliability::Estimated,
        Reliability::Diverted,
    ];
    for r in all {
        assert_eq!(Reliability::from_code(r.code()), Some(r));
    }
}

#[test]
fn stop_type_codes_decode() {
    assert_eq!(StopType::from_code("D"), Some(StopType::Terminus));
    assert_eq!(StopType::from_code("N"), Some(StopType::Normal));
    assert_eq!(StopType::from_code("P"), Some(StopType::PartRoute));
    assert_eq!(StopType::from_code("R"), Some(StopType::Reference));
    assert_eq!(StopType::from_code("X"), None);
}

#[test]
fn direction_codes_decode() {
    assert_eq!(Direction::from_code("A"), Some(Direction::Inbound));
    assert_eq!(Direction::from_code("R"), Some(Direction::Outbound));
    assert_eq!(Direction::from_code("B"), None);
}

#[test]
fn disruption_type_wire_values_decode() {
    assert_eq!(DisruptionType::from_wire(0), Some(DisruptionType::All));
    assert_eq!(DisruptionType::from_wire(1), Some(DisruptionType::Network));
    assert_eq!(DisruptionType::from_wire(2), Some(DisruptionType::Service));
    assert_eq!(DisruptionType::from_wire(3), Some(DisruptionType::BusStop));
    assert_eq!(DisruptionType::from_wire(4), None);
}

#[test]
fn disruption_type_codes_encode() {
    assert_eq!(DisruptionType::All.code(), "0");
    assert_eq!(DisruptionType::Network.code(), "1");
    assert_eq!(DisruptionType::Service.code(), "2");
    assert_eq!(DisruptionType::BusStop.code(), "3");
    assert_eq!(DisruptionType::BusStop.wire(), 3);
}

#[test]
fn disruption_level_wire_values_decode() {
    assert_eq!(DisruptionLevel::from_wire(1), Some(DisruptionLevel::Informative));
    assert_eq!(DisruptionLevel::from_wire(2), Some(DisruptionLevel::Minor));
    assert_eq!(DisruptionLevel::from_wire(3), Some(DisruptionLevel::Major));
    assert_eq!(DisruptionLevel::from_wire(0), None);
    assert_eq!(DisruptionLevel::from_wire(4), None);
    assert_eq!(DisruptionLevel::Major.wire(), 3);
}

#[test]
fn time_of_day_parses_well_formed_strings() {
    assert_eq!(NaiveTimeExt::parse("07:05"), Some(NaiveTimeExt { hour: 7, minute: 5 }));
    assert_eq!(NaiveTimeExt::parse("00:00"), Some(NaiveTimeExt { hour: 0, minute: 0 }));
    assert_eq!(NaiveTimeExt::parse("23:59"), Some(NaiveTimeExt { hour: 23, minute: 59 }));
}

#[test]
fn time_of_day_rejects_malformed_strings() {
    assert_eq!(NaiveTimeExt::parse("24:00"), None);
    assert_eq!(NaiveTimeExt::parse("12:60"), None);
    assert_eq!(NaiveTimeExt::parse("7:05"), None);
    assert_eq!(NaiveTimeExt::parse("0705"), None);
    assert_eq!(NaiveTimeExt::parse("07:05 "), None);
    assert_eq!(NaiveTimeExt::parse("ab:cd"), None);
    assert_eq!(NaiveTimeExt::parse(""), None);
}

#[test]
fn time_of_day_renders_zero_padded() {
    assert_eq!(NaiveTimeExt { hour: 7, minute: 5 }.hhmm(), "07:05");
    assert_eq!(NaiveTimeExt { hour: 23, minute: 59 }.hhmm(), "23:59");
}

#[test]
fn time_of_day_round_trips() {
    let t = NaiveTimeExt { hour: 16, minute: 40 };
    assert_eq!(NaiveTimeExt::parse(&t.hhmm()), Some(t));
}

#[test]
fn error_messages_match_their_kinds() {
    assert_eq!(
        MyBusTrackerError::InternalError { cause: "x".to_string() }.message(),
        "Internal error"
    );
    assert_eq!(
        MyBusTrackerError::CommunicationError { cause: "x".to_string() }.message(),
        "Error communicating with MyBusTracker"
    );
    assert_eq!(MyBusTrackerError::DateOutOfBounds.message(), "Date out of bounds");
    assert_eq!(MyBusTrackerError::TooManyTimetables.message(), "Too many timetables requested");
    assert_eq!(MyBusTrackerError::TooManyDepartures.message(), "Too many departures requested");
}
