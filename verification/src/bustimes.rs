//! Bus Times web service: bus times for a batch of timetables, and the
//! stop-by-stop times of a single journey.
//!
//! Each request is validated client-side before any URL is assembled: at
//! most five timetables per batch, at most ten departures, and a requested
//! date no earlier than today (UTC) and at most three days ahead.  The
//! query string carried on the wire is pinned down character by character.

use vstd::prelude::*;
use vstd::string::*;

use crate::models::{
    hhmm_chars, journey_time_mode_code, operator_code, JourneyIdentifier, JourneyTimeMode,
    NaiveTimeExt, Operator, Timetable,
};
use crate::strutil::{append_dec, dec_of};
use crate::time::{date_in_window, day_offset, offset_of, UtcDate, UtcInstant, MAX_DAY_NUMBER};
use crate::{is_valid_url, merged_url_chars, token_of, utc_now, MyBusTracker, MyBusTrackerError};

verus! {

/// The most timetables one bus-times request may carry.
pub const MAX_TIMETABLES: usize = 5;

/// The largest departure count one bus-times request may ask for.
pub const MAX_DEPARTURES: u8 = 10;

/// The query fragment requesting the `i`-th timetable (`i` counts from 1).
pub open spec fn timetable_chunk(i: nat, t: Timetable) -> Seq<char> {
    "stopId"@ + dec_of(i) + "="@ + t.stop_id@ + "&refService"@ + dec_of(i) + "="@
        + t.service_reference@ + "&refDest"@ + dec_of(i) + "="@ + t.destination_reference@
}

/// The first `k` timetable fragments, joined with `&`.
pub open spec fn timetable_chunks(tts: Seq<Timetable>, k: int) -> Seq<char>
    decreases k,
{
    if k <= 0 {
        Seq::<char>::empty()
    } else if k == 1 {
        timetable_chunk(1, tts[0])
    } else {
        timetable_chunks(tts, k - 1) + "&"@ + timetable_chunk(k as nat, tts[k - 1])
    }
}

/// The optional explicit departure time fragment.
pub open spec fn time_param(time: Option<NaiveTimeExt>) -> Seq<char> {
    match time {
        Some(t) => "&time="@ + hhmm_chars(t),
        None => Seq::<char>::empty(),
    }
}

/// The full query-parameter string of a bus-times request.
pub open spec fn bus_times_params_of(
    tts: Seq<Timetable>,
    count: nat,
    offset: nat,
    time: Option<NaiveTimeExt>,
) -> Seq<char> {
    timetable_chunks(tts, tts.len() as int) + "&nb="@ + dec_of(count) + "&day="@ + dec_of(offset)
        + time_param(time)
}

/// Build and validate the query parameters of a bus-times request.
///
/// The request is rejected, in this order, when more than five timetables
/// are supplied, when more than ten departures are asked for, and when the
/// requested date lies outside the forward window of `today` to three days
/// ahead; an absent date means `today`.
pub fn bus_times_params(
    timetables: &Vec<Timetable>,
    departure_count: u8,
    departure_day: &Option<UtcDate>,
    departure_time: &Option<NaiveTimeExt>,
    today: i64,
) -> (r: Result<String, MyBusTrackerError>)
    requires
        -MAX_DAY_NUMBER <= today <= MAX_DAY_NUMBER,
        departure_time matches Some(t) ==> t.wf(),
    ensures
        r is Ok <==> timetables@.len() <= MAX_TIMETABLES && departure_count <= MAX_DEPARTURES
            && date_in_window(*departure_day, today as int),
        r matches Ok(s) ==> s@ == bus_times_params_of(
            timetables@,
            departure_count as nat,
            offset_of(*departure_day, today as int) as nat,
            *departure_time,
        ),
        timetables@.len() > MAX_TIMETABLES ==> (r matches Err(e) && e is TooManyTimetables),
        timetables@.len() <= MAX_TIMETABLES && departure_count > MAX_DEPARTURES ==> (r matches Err(
            e,
        ) && e is TooManyDepartures),
        timetables@.len() <= MAX_TIMETABLES && departure_count <= MAX_DEPARTURES
            && !date_in_window(*departure_day, today as int) ==> (r matches Err(e)
            && e is DateOutOfBounds),
{
    if timetables.len() > MAX_TIMETABLES {
        return Err(MyBusTrackerError::TooManyTimetables);
    }
    if departure_count > MAX_DEPARTURES {
        return Err(MyBusTrackerError::TooManyDepartures);
    }
    let offset = match day_offset(departure_day, today) {
        Ok(o) => o,
        Err(e) => { return Err(e) },
    };
    let mut out = String::new();
    let mut i: usize = 0;
    while i < timetables.len()
        invariant
            i <= timetables@.len() <= MAX_TIMETABLES,
            out@ == timetable_chunks(timetables@, i as int),
        decreases timetables@.len() - i,
    {
        if i > 0 {
            out.append("&");
        }
        let t = &timetables[i];
        out.append("stopId");
        append_dec(&mut out, (i + 1) as u64);
        out.append("=");
        out.append(t.stop_id.as_str());
        out.append("&refService");
        append_dec(&mut out, (i + 1) as u64);
        out.append("=");
        out.append(t.service_reference.as_str());
        out.append("&refDest");
        append_dec(&mut out, (i + 1) as u64);
        out.append("=");
        out.append(t.destination_reference.as_str());
        proof {
            assert(out@ =~= timetable_chunks(timetables@, i as int + 1));
        }
        i = i + 1;
    }
    out.append("&nb=");
    append_dec(&mut out, departure_count as u64);
    out.append("&day=");
    append_dec(&mut out, offset as u64);
    match departure_time {
        Some(t) => {
            out.append("&time=");
            let rendered = t.hhmm();
            out.append(rendered.as_str());
        },
        None => {},
    }
    proof {
        assert(out@ =~= bus_times_params_of(
            timetables@,
            departure_count as nat,
            offset_of(*departure_day, today as int) as nat,
            *departure_time,
        ));
    }
    Ok(out)
}

/// The optional leading stop fragment of a journey-times request.
pub open spec fn stop_id_param(stop_id: Option<Seq<char>>) -> Seq<char> {
    match stop_id {
        Some(s) => "stopId="@ + s + "&"@,
        None => Seq::<char>::empty(),
    }
}

/// The identifier fragment of a journey-times request: a journey id or a
/// bus fleet number, never both.
pub open spec fn journey_ref_param(j: JourneyIdentifier) -> Seq<char> {
    match j {
        JourneyIdentifier::JourneyId(id) => "journeyId="@ + id@ + "&"@,
        JourneyIdentifier::BusId(id) => "busId="@ + id@ + "&"@,
    }
}

/// The full query-parameter string of a journey-times request.
pub open spec fn journey_times_params_of(
    stop_id: Option<Seq<char>>,
    j: JourneyIdentifier,
    op: Operator,
    offset: nat,
    mode: JourneyTimeMode,
) -> Seq<char> {
    stop_id_param(stop_id) + journey_ref_param(j) + "operator="@ + operator_code(op) + "&day="@
        + dec_of(offset) + "&mode="@ + journey_time_mode_code(mode)
}

/// Build and validate the query parameters of a journey-times request.
///
/// The request is rejected when the requested date lies outside the forward
/// window of `today` to three days ahead.
pub fn journey_times_params(
    stop_id: &Option<&str>,
    journey_id: &JourneyIdentifier,
    operator: &Operator,
    day: &UtcDate,
    mode: &JourneyTimeMode,
    today: i64,
) -> (r: Result<String, MyBusTrackerError>)
    requires
        -MAX_DAY_NUMBER <= today <= MAX_DAY_NUMBER,
    ensures
        r is Ok <==> date_in_window(Some(*day), today as int),
        r matches Ok(s) ==> s@ == journey_times_params_of(
            match *stop_id {
                Some(sid) => Some(sid@),
                None => None,
            },
            *journey_id,
            *operator,
            offset_of(Some(*day), today as int) as nat,
            *mode,
        ),
        r matches Err(e) ==> e is DateOutOfBounds,
{
    let offset = match day_offset(&Some(*day), today) {
        Ok(o) => o,
        Err(e) => { return Err(e) },
    };
    let mut out = String::new();
    match stop_id {
        Some(sid) => {
            out.append("stopId=");
            out.append(sid);
            out.append("&");
        },
        None => {},
    }
    match journey_id {
        JourneyIdentifier::JourneyId(id) => {
            out.append("journeyId=");
            out.append(id.as_str());
            out.append("&");
        },
        JourneyIdentifier::BusId(id) => {
            out.append("busId=");
            out.append(id.as_str());
            out.append("&");
        },
    }
    out.append("operator=");
    out.append(operator.code());
    out.append("&day=");
    append_dec(&mut out, offset as u64);
    out.append("&mode=");
    out.append(mode.code());
    proof {
        assert(out@ =~= journey_times_params_of(
            match *stop_id {
                Some(sid) => Some(sid@),
                None => None::<Seq<char>>,
            },
            *journey_id,
            *operator,
            offset_of(Some(*day), today as int) as nat,
            *mode,
        ));
    }
    Ok(out)
}

impl MyBusTracker {
    /// Request bus times for up to five timetables, with the token valid
    /// for the hour of `now` and dates validated against its date.
    pub fn get_bus_times_at(
        &mut self,
        now: &UtcInstant,
        timetables: &Vec<Timetable>,
        departure_count: u8,
        departure_day: &Option<UtcDate>,
        departure_time: &Option<NaiveTimeExt>,
    ) -> (r: Result<String, MyBusTrackerError>)
        requires
            old(self).wf(),
            now.wf(),
            departure_time matches Some(t) ==> t.wf(),
        ensures
            final(self).wf(),
            final(self).secret() == old(self).secret(),
            (r is Ok || (r matches Err(e) && e is InternalError)) <==> timetables@.len()
                <= MAX_TIMETABLES && departure_count <= MAX_DEPARTURES && date_in_window(
                *departure_day,
                now.day_number as int,
            ),
            r is Ok <==> timetables@.len() <= MAX_TIMETABLES && departure_count <= MAX_DEPARTURES
                && date_in_window(*departure_day, now.day_number as int) && is_valid_url(
                merged_url_chars(
                    token_of(old(self).secret(), now.stamp),
                    "getBusTimes"@,
                    Some(
                        bus_times_params_of(
                            timetables@,
                            departure_count as nat,
                            offset_of(*departure_day, now.day_number as int) as nat,
                            *departure_time,
                        ),
                    ),
                ),
            ),
            timetables@.len() > MAX_TIMETABLES ==> (r matches Err(e) && e is TooManyTimetables),
            timetables@.len() <= MAX_TIMETABLES && departure_count > MAX_DEPARTURES ==> (
            r matches Err(e) && e is TooManyDepartures),
            timetables@.len() <= MAX_TIMETABLES && departure_count <= MAX_DEPARTURES
                && !date_in_window(*departure_day, now.day_number as int) ==> (r matches Err(e)
                && e is DateOutOfBounds),
            r matches Ok(u) ==> u@ == merged_url_chars(
                token_of(old(self).secret(), now.stamp),
                "getBusTimes"@,
                Some(
                    bus_times_params_of(
                        timetables@,
                        departure_count as nat,
                        offset_of(*departure_day, now.day_number as int) as nat,
                        *departure_time,
                    ),
                ),
            ),
            r matches Err(e) && !(e is InternalError) ==> *final(self) == *old(self),
    {
        let params = match bus_times_params(
            timetables,
            departure_count,
            departure_day,
            departure_time,
            now.day_number,
        ) {
            Ok(p) => p,
            Err(e) => { return Err(e) },
        };
        self.get_uri_at(now, "getBusTimes", Some(params.as_str()))
    }

    /// Request bus times for up to five timetables.
    ///
    /// You may request up to 5 timetables, up to 10 departures each
    /// (the provider's default is 2), optionally a date up to three days in
    /// the future (the default is today), and optionally a time (the
    /// default is now).  Validation failures are reported without any
    /// request URL being built.
    pub fn get_bus_times(
        &mut self,
        timetables: &Vec<Timetable>,
        departure_count: u8,
        departure_day: &Option<UtcDate>,
        departure_time: &Option<NaiveTimeExt>,
    ) -> (r: Result<String, MyBusTrackerError>)
        requires
            old(self).wf(),
            departure_time matches Some(t) ==> t.wf(),
        ensures
            final(self).wf(),
            final(self).secret() == old(self).secret(),
            timetables@.len() > MAX_TIMETABLES ==> (r matches Err(e) && e is TooManyTimetables),
            timetables@.len() <= MAX_TIMETABLES && departure_count > MAX_DEPARTURES ==> (
            r matches Err(e) && e is TooManyDepartures),
            departure_day is None && timetables@.len() <= MAX_TIMETABLES && departure_count
                <= MAX_DEPARTURES ==> (r is Ok || (r matches Err(e) && e is InternalError)),
            r matches Err(e) && !(e is InternalError) ==> *final(self) == *old(self),
    {
        let now = utc_now();
        self.get_bus_times_at(&now, timetables, departure_count, departure_day, departure_time)
    }

    /// Request the stop-by-stop times of one journey, with the token valid
    /// for the hour of `now` and the date validated against its date.
    pub fn get_journey_times_at(
        &mut self,
        now: &UtcInstant,
        stop_id: &Option<&str>,
        journey_id: &JourneyIdentifier,
        operator: &Operator,
        day: &UtcDate,
        mode: &JourneyTimeMode,
    ) -> (r: Result<String, MyBusTrackerError>)
        requires
            old(self).wf(),
            now.wf(),
        ensures
            final(self).wf(),
            final(self).secret() == old(self).secret(),
            (r is Ok || (r matches Err(e) && e is InternalError)) <==> date_in_window(
                Some(*day),
                now.day_number as int,
            ),
            r is Ok <==> date_in_window(Some(*day), now.day_number as int) && is_valid_url(
                merged_url_chars(
                    token_of(old(self).secret(), now.stamp),
                    "getJourneyTimes"@,
                    Some(
                        journey_times_params_of(
                            match *stop_id {
                                Some(sid) => Some(sid@),
                                None => None,
                            },
                            *journey_id,
                            *operator,
                            offset_of(Some(*day), now.day_number as int) as nat,
                            *mode,
                        ),
                    ),
                ),
            ),
            !date_in_window(Some(*day), now.day_number as int) ==> (r matches Err(e)
                && e is DateOutOfBounds),
            r matches Ok(u) ==> u@ == merged_url_chars(
                token_of(old(self).secret(), now.stamp),
                "getJourneyTimes"@,
                Some(
                    journey_times_params_of(
                        match *stop_id {
                            Some(sid) => Some(sid@),
                            None => None,
                        },
                        *journey_id,
                        *operator,
                        offset_of(Some(*day), now.day_number as int) as nat,
                        *mode,
                    ),
                ),
            ),
            r matches Err(e) && !(e is InternalError) ==> *final(self) == *old(self),
    {
        let params = match journey_times_params(
            stop_id,
            journey_id,
            operator,
            day,
            mode,
            now.day_number,
        ) {
            Ok(p) => p,
            Err(e) => { return Err(e) },
        };
        self.get_uri_at(now, "getJourneyTimes", Some(params.as_str()))
    }

    /// Request the stop-by-stop times of one journey, identified by either
    /// a journey id or a bus fleet number, optionally restricted to one
    /// stop.
    pub fn get_journey_times(
        &mut self,
        stop_id: &Option<&str>,
        journey_id: &JourneyIdentifier,
        operator: &Operator,
        day: &UtcDate,
        mode: &JourneyTimeMode,
    ) -> (r: Result<String, MyBusTrackerError>)
        requires
            old(self).wf(),
        ensures
            final(self).wf(),
            final(self).secret() == old(self).secret(),
            r matches Err(e) ==> e is DateOutOfBounds || e is InternalError,
            r matches Err(e) && !(e is InternalError) ==> *final(self) == *old(self),
    {
        let now = utc_now();
        self.get_journey_times_at(&now, stop_id, journey_id, operator, day, mode)
    }
}

} // verus!
