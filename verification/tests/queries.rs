//! Tests of the query-parameter assembly and the full request URLs.

use my_bus_tracker::bustimes::{bus_times_params, journey_times_params};
use my_bus_tracker::disruptions::{
    diversion_points_params, diversions_params, disruptions_params,
};
use my_bus_tracker::models::{
    DisruptionType, JourneyIdentifier, JourneyTimeMode, NaiveTimeExt, Operator, Timetable,
};
use my_bus_tracker::time::{HourStamp, UtcDate, UtcInstant};
use my_bus_tracker::topological::{operator_params, service_points_params};
use my_bus_tracker::{MyBusTracker, MyBusTrackerError};

const TODAY: i64 = 739901;

fn now() -> UtcInstant {
    UtcInstant { stamp: HourStamp { year: 2026, month: 10, day: 11, hour: 14 }, day_number: TODAY }
}

fn timetable(stop: &str, service: &str, dest: &str) -> Timetable {
    Timetable {
        stop_id: stop.to_string(),
        service_reference: service.to_string(),
        destination_reference: dest.to_string(),
        operator_id: Operator::LothianBuses,
    }
}

#[test]
fn bus_times_query_renders_each_timetable() {
    let tts = vec![timetable("36232980", "7", "36237983"), timetable("36232981", "14", "36237984")];
    let time = NaiveTimeExt { hour: 7, minute: 5 };
    let r = bus_times_params(&tts, 4, &None, &Some(time), TODAY).unwrap();
    assert_eq!(
        r,
        "stopId1=36232980&refService1=7&refDest1=36237983\
         &stopId2=36232981&refService2=14&refDest2=36237984&nb=4&day=0&time=07:05"
    );
}

#[test]
fn bus_times_query_renders_day_offset() {
    let tts = vec![timetable("1", "2", "3")];
    let r = bus_times_params(&tts, 2, &Some(UtcDate { day_number: TODAY + 3 }), &None, TODAY)
        .unwrap();
    assert_eq!(r, "stopId1=1&refService1=2&refDest1=3&nb=2&day=3");
}

#[test]
fn journey_times_query_matches_documented_example() {
    let r = journey_times_params(
        &None,
        &JourneyIdentifier::JourneyId("12345".to_string()),
        &Operator::AllOperators,
        &UtcDate { day_number: TODAY },
        &JourneyTimeMode::All,
        TODAY,
    )
    .unwrap();
    assert_eq!(r, "journeyId=12345&operator=0&day=0&mode=0");
    assert!(!r.contains("stopId="));
}

#[test]
fn journey_times_query_with_stop_and_bus_id() {
    let r = journey_times_params(
        &Some("36232980"),
        &JourneyIdentifier::BusId("777".to_string()),
        &Operator::LothianBuses,
        &UtcDate { day_number: TODAY + 1 },
        &JourneyTimeMode::NextReference,
        TODAY,
    )
    .unwrap();
    assert_eq!(r, "stopId=36232980&busId=777&operator=LB&day=1&mode=1");
}

#[test]
fn journey_times_rejects_out_of_window_date() {
    let r = journey_times_params(
        &None,
        &JourneyIdentifier::JourneyId("12345".to_string()),
        &Operator::AllOperators,
        &UtcDate { day_number: TODAY + 4 },
        &JourneyTimeMode::All,
        TODAY,
    );
    assert!(matches!(r, Err(MyBusTrackerError::DateOutOfBounds)));
}

#[test]
fn disruptions_query_defaults_to_all_types() {
    let r = disruptions_params(&None, &Operator::AllOperators);
    assert_eq!(r, "operatorId=0&type=0");
}

#[test]
fn disruptions_query_with_explicit_type() {
    let r = disruptions_params(&Some(&DisruptionType::Service), &Operator::LothianBuses);
    assert_eq!(r, "operatorId=LB&type=2");
}

#[test]
fn diversions_query_defaults_to_wildcard_service_and_today() {
    let r = diversions_params(&None, &None, &Operator::LothianBuses, TODAY).unwrap();
    assert_eq!(r, "operatorId=LB&refService=0&day=0");
}

#[test]
fn diversions_query_with_service_and_date() {
    let r = diversions_params(
        &Some("7"),
        &Some(UtcDate { day_number: TODAY + 2 }),
        &Operator::AllOperators,
        TODAY,
    )
    .unwrap();
    assert_eq!(r, "operatorId=0&refService=7&day=2");
}

#[test]
fn diversions_query_rejects_out_of_window_date() {
    let r = diversions_params(
        &None,
        &Some(UtcDate { day_number: TODAY - 1 }),
        &Operator::AllOperators,
        TODAY,
    );
    assert!(matches!(r, Err(MyBusTrackerError::DateOutOfBounds)));
}

#[test]
fn diversion_points_query_names_the_diversion() {
    let r = diversion_points_params("4321", &Operator::AllOperators);
    assert_eq!(r, "operatorId=0&diversionId=4321");
}

#[test]
fn topological_queries_name_the_operator() {
    assert_eq!(operator_params(&Operator::AllOperators), "operatorId=0");
    assert_eq!(operator_params(&Operator::LothianBuses), "operatorId=LB");
    assert_eq!(service_points_params("22", &Operator::LothianBuses), "operatorId=LB&ref=22");
}

#[test]
fn request_url_merges_token_function_and_params() {
    let now = now();
    let mut tracker = MyBusTracker::new_at("mysecret", &now).unwrap();
    let url = tracker.get_uri_at(&now, "getTopoId", Some("operatorId=0")).unwrap();
    let token = format!("{:x}", md5::compute("mysecret2026101114"));
    assert_eq!(
        url,
        format!(
            "http://ws.mybustracker.co.uk/?module=json&key={}&function=getTopoId&operatorId=0",
            token
        )
    );
}

#[test]
fn request_url_without_params_has_no_trailing_ampersand() {
    let now = now();
    let mut tracker = MyBusTracker::new_at("mysecret", &now).unwrap();
    let url = tracker.get_uri_at(&now, "getServices", None).unwrap();
    let token = format!("{:x}", md5::compute("mysecret2026101114"));
    assert_eq!(
        url,
        format!("http://ws.mybustracker.co.uk/?module=json&key={}&function=getServices", token)
    );
}

#[test]
fn bus_times_with_six_timetables_fails_before_any_url_is_built() {
    let now = now();
    let mut tracker = MyBusTracker::new_at("mysecret", &now).unwrap();
    let tts: Vec<Timetable> = (0..6).map(|i| timetable(&format!("s{}", i), "7", "d")).collect();
    let r = tracker.get_bus_times_at(&now, &tts, 2, &None, &None);
    assert!(matches!(r, Err(MyBusTrackerError::TooManyTimetables)));
}

#[test]
fn journey_times_url_contains_documented_fragment() {
    let now = now();
    let mut tracker = MyBusTracker::new_at("mysecret", &now).unwrap();
    let url = tracker
        .get_journey_times_at(
            &now,
            &None,
            &JourneyIdentifier::JourneyId("12345".to_string()),
            &Operator::AllOperators,
            &UtcDate { day_number: TODAY },
            &JourneyTimeMode::All,
        )
        .unwrap();
    assert!(url.contains("&function=getJourneyTimes&journeyId=12345&operator=0&day=0&mode=0"));
    assert!(!url.contains("stopId="));
}

#[test]
fn disruptions_url_uses_defaults() {
    let now = now();
    let mut tracker = MyBusTracker::new_at("mysecret", &now).unwrap();
    let url = tracker.get_disruptions_at(&now, &None, &Operator::AllOperators).unwrap();
    assert!(url.ends_with("&function=getDisruptions&operatorId=0&type=0"));
}

#[test]
fn tracker_construction_always_succeeds() {
    assert!(MyBusTracker::new("mysecret").is_ok());
    assert!(MyBusTracker::new("").is_ok());
    assert!(MyBusTracker::new_at("mysecret", &now()).is_ok());
}
