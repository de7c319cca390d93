//! Tests of the client-side validation rules: the batch-size limit, the
//! departure-count limit, and the forward date window.

use my_bus_tracker::bustimes::bus_times_params;
use my_bus_tracker::models::{Operator, Timetable};
use my_bus_tracker::time::{date_from_ymd, day_offset, UtcDate};
use my_bus_tracker::MyBusTrackerError;

const TODAY: i64 = 739901;

fn timetables(n: usize) -> Vec<Timetable> {
    let mut v = Vec::new();
    for i in 0..n {
        v.push(Timetable {
            stop_id: format!("stop{}", i),
            service_reference: format!("svc{}", i),
            destination_reference: format!("dest{}", i),
            operator_id: Operator::LothianBuses,
        });
    }
    v
}

fn date(day_number: i64) -> UtcDate {
    UtcDate { day_number }
}

#[test]
fn date_window_accepts_today_through_three_days_ahead() {
    for ahead in 0..4 {
        let r = day_offset(&Some(date(TODAY + ahead)), TODAY);
        assert_eq!(r.unwrap(), ahead as u8);
    }
}

#[test]
fn date_window_rejects_yesterday_and_four_days_ahead() {
    assert!(matches!(
        day_offset(&Some(date(TODAY - 1)), TODAY),
        Err(MyBusTrackerError::DateOutOfBounds)
    ));
    assert!(matches!(
        day_offset(&Some(date(TODAY + 4)), TODAY),
        Err(MyBusTrackerError::DateOutOfBounds)
    ));
}

#[test]
fn absent_date_means_today() {
    assert_eq!(day_offset(&None, TODAY).unwrap(), 0);
}

#[test]
fn five_timetables_are_accepted() {
    let r = bus_times_params(&timetables(5), 2, &None, &None, TODAY);
    assert!(r.is_ok());
}

#[test]
fn empty_timetable_batch_is_accepted() {
    let r = bus_times_params(&timetables(0), 2, &None, &None, TODAY);
    assert_eq!(r.unwrap(), "&nb=2&day=0");
}

#[test]
fn six_timetables_are_rejected() {
    let r = bus_times_params(&timetables(6), 2, &None, &None, TODAY);
    assert!(matches!(r, Err(MyBusTrackerError::TooManyTimetables)));
}

#[test]
fn ten_departures_are_accepted() {
    let r = bus_times_params(&timetables(1), 10, &None, &None, TODAY);
    assert!(r.is_ok());
}

#[test]
fn eleven_departures_are_rejected() {
    let r = bus_times_params(&timetables(1), 11, &None, &None, TODAY);
    assert!(matches!(r, Err(MyBusTrackerError::TooManyDepartures)));
}

#[test]
fn timetable_limit_is_checked_before_departure_limit() {
    let r = bus_times_params(&timetables(6), 11, &None, &None, TODAY);
    assert!(matches!(r, Err(MyBusTrackerError::TooManyTimetables)));
}

#[test]
fn bus_times_date_out_of_window_is_rejected() {
    let r = bus_times_params(&timetables(1), 2, &Some(date(TODAY + 4)), &None, TODAY);
    assert!(matches!(r, Err(MyBusTrackerError::DateOutOfBounds)));
    let r = bus_times_params(&timetables(1), 2, &Some(date(TODAY - 1)), &None, TODAY);
    assert!(matches!(r, Err(MyBusTrackerError::DateOutOfBounds)));
}

#[test]
fn calendar_dates_convert_to_chrono_day_numbers() {
    let epoch = date_from_ymd(1970, 1, 1).unwrap();
    assert_eq!(epoch.day_number, 719_163);
    let first = date_from_ymd(1, 1, 1).unwrap();
    assert_eq!(first.day_number, 1);
}

#[test]
fn invalid_calendar_dates_are_rejected() {
    assert!(date_from_ymd(2026, 2, 30).is_none());
    assert!(date_from_ymd(2026, 13, 1).is_none());
    assert!(date_from_ymd(2026, 0, 10).is_none());
}

#[test]
fn leap_day_is_a_valid_date() {
    let a = date_from_ymd(2024, 2, 29).unwrap();
    let b = date_from_ymd(2024, 3, 1).unwrap();
    assert_eq!(b.day_number - a.day_number, 1);
    assert!(date_from_ymd(2023, 2, 29).is_none());
}
