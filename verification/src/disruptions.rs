//! Disruptions web service: ongoing disruptions, ongoing diversions, and
//! the plotted points of one diversion.
//!
//! An unspecified disruption type defaults to all disruptions, an
//! unspecified service reference for diversions defaults to the wildcard
//! sentinel `0`, and a requested diversion date is validated against the
//! same forward window as every other date-bounded query.

use vstd::prelude::*;
use vstd::string::*;

use crate::models::{disruption_type_wire, operator_code, DisruptionType, Operator};
use crate::strutil::{append_dec, dec_of, digit_char};
use crate::time::{date_in_window, day_offset, offset_of, UtcDate, UtcInstant, MAX_DAY_NUMBER};
use crate::{is_valid_url, merged_url_chars, token_of, utc_now, MyBusTracker, MyBusTrackerError};

verus! {

/// The full query-parameter string of a disruptions request; an absent
/// type means all disruptions.
pub open spec fn disruptions_params_of(dt: Option<DisruptionType>, op: Operator) -> Seq<char> {
    "operatorId="@ + operator_code(op) + "&type="@ + seq![
        digit_char(
            disruption_type_wire(
                match dt {
                    Some(d) => d,
                    None => DisruptionType::All,
                },
            ),
        ),
    ]
}

/// Build the query parameters of a disruptions request.
pub fn disruptions_params(disruption_type: &Option<&DisruptionType>, operator: &Operator) -> (r:
    String)
    ensures
        r@ == disruptions_params_of(
            match *disruption_type {
                Some(d) => Some(*d),
                None => None,
            },
            *operator,
        ),
{
    let dt: &DisruptionType = match disruption_type {
        Some(d) => *d,
        None => &DisruptionType::All,
    };
    let mut out = String::new();
    out.append("operatorId=");
    out.append(operator.code());
    out.append("&type=");
    out.append(dt.code());
    proof {
        assert(out@ =~= disruptions_params_of(
            match *disruption_type {
                Some(d) => Some(*d),
                None => None::<DisruptionType>,
            },
            *operator,
        ));
    }
    out
}

/// The full query-parameter string of a diversions request; an absent
/// service reference means the wildcard sentinel `0`.
pub open spec fn diversions_params_of(
    sref: Option<Seq<char>>,
    op: Operator,
    offset: nat,
) -> Seq<char> {
    "operatorId="@ + operator_code(op) + "&refService="@ + (match sref {
        Some(s) => s,
        None => "0"@,
    }) + "&day="@ + dec_of(offset)
}

/// Build and validate the query parameters of a diversions request.
///
/// The request is rejected when the requested date lies outside the
/// forward window of `today` to three days ahead; an absent date means
/// `today`.
pub fn diversions_params(
    service_reference: &Option<&str>,
    day: &Option<UtcDate>,
    operator: &Operator,
    today: i64,
) -> (r: Result<String, MyBusTrackerError>)
    requires
        -MAX_DAY_NUMBER <= today <= MAX_DAY_NUMBER,
    ensures
        r is Ok <==> date_in_window(*day, today as int),
        r matches Ok(s) ==> s@ == diversions_params_of(
            match *service_reference {
                Some(sr) => Some(sr@),
                None => None,
            },
            *operator,
            offset_of(*day, today as int) as nat,
        ),
        r matches Err(e) ==> e is DateOutOfBounds,
{
    let offset = match day_offset(day, today) {
        Ok(o) => o,
        Err(e) => { return Err(e) },
    };
    let mut out = String::new();
    out.append("operatorId=");
    out.append(operator.code());
    out.append("&refService=");
    match service_reference {
        Some(sr) => out.append(sr),
        None => out.append("0"),
    }
    out.append("&day=");
    append_dec(&mut out, offset as u64);
    proof {
        assert(out@ =~= diversions_params_of(
            match *service_reference {
                Some(sr) => Some(sr@),
                None => None::<Seq<char>>,
            },
            *operator,
            offset_of(*day, today as int) as nat,
        ));
    }
    Ok(out)
}

/// The full query-parameter string of a diversion-points request.
pub open spec fn diversion_points_params_of(diversion: Seq<char>, op: Operator) -> Seq<char> {
    "operatorId="@ + operator_code(op) + "&diversionId="@ + diversion
}

/// Build the query parameters of a diversion-points request.
pub fn diversion_points_params(diversion: &str, operator: &Operator) -> (r: String)
    ensures
        r@ == diversion_points_params_of(diversion@, *operator),
{
    let mut out = String::new();
    out.append("operatorId=");
    out.append(operator.code());
    out.append("&diversionId=");
    out.append(diversion);
    proof {
        assert(out@ =~= diversion_points_params_of(diversion@, *operator));
    }
    out
}

impl MyBusTracker {
    /// Request the ongoing disruptions, with the token valid for the hour
    /// of `now`.
    pub fn get_disruptions_at(
        &mut self,
        now: &UtcInstant,
        disruption_type: &Option<&DisruptionType>,
        operator: &Operator,
    ) -> (r: Result<String, MyBusTrackerError>)
        requires
            old(self).wf(),
            now.wf(),
        ensures
            final(self).wf(),
            final(self).secret() == old(self).secret(),
            final(self).stamp() == now.stamp,
            final(self).current() == token_of(old(self).secret(), now.stamp),
            r is Ok <==> is_valid_url(
                merged_url_chars(
                    token_of(old(self).secret(), now.stamp),
                    "getDisruptions"@,
                    Some(
                        disruptions_params_of(
                            match *disruption_type {
                                Some(d) => Some(*d),
                                None => None,
                            },
                            *operator,
                        ),
                    ),
                ),
            ),
            r matches Ok(u) ==> u@ == merged_url_chars(
                token_of(old(self).secret(), now.stamp),
                "getDisruptions"@,
                Some(
                    disruptions_params_of(
                        match *disruption_type {
                            Some(d) => Some(*d),
                            None => None,
                        },
                        *operator,
                    ),
                ),
            ),
            r matches Err(e) ==> e is InternalError,
    {
        let params = disruptions_params(disruption_type, operator);
        self.get_uri_at(now, "getDisruptions", Some(params.as_str()))
    }

    /// Request the ongoing disruptions.
    ///
    /// You may request disruptions of a specific type; if you do not
    /// specify one, all disruptions are returned.
    pub fn get_disruptions(
        &mut self,
        disruption_type: &Option<&DisruptionType>,
        operator: &Operator,
    ) -> (r: Result<String, MyBusTrackerError>)
        requires
            old(self).wf(),
        ensures
            final(self).wf(),
            final(self).secret() == old(self).secret(),
            r is Ok <==> is_valid_url(
                merged_url_chars(
                    final(self).current(),
                    "getDisruptions"@,
                    Some(
                        disruptions_params_of(
                            match *disruption_type {
                                Some(d) => Some(*d),
                                None => None,
                            },
                            *operator,
                        ),
                    ),
                ),
            ),
            r matches Ok(u) ==> u@ == merged_url_chars(
                final(self).current(),
                "getDisruptions"@,
                Some(
                    disruptions_params_of(
                        match *disruption_type {
                            Some(d) => Some(*d),
                            None => None,
                        },
                        *operator,
                    ),
                ),
            ),
            r matches Err(e) ==> e is InternalError,
    {
        let now = utc_now();
        self.get_disruptions_at(&now, disruption_type, operator)
    }

    /// Request the ongoing diversions, with the token valid for the hour
    /// of `now` and the date validated against its date.
    pub fn get_diversions_at(
        &mut self,
        now: &UtcInstant,
        service_reference: &Option<&str>,
        day: &Option<UtcDate>,
        operator: &Operator,
    ) -> (r: Result<String, MyBusTrackerError>)
        requires
            old(self).wf(),
            now.wf(),
        ensures
            final(self).wf(),
            final(self).secret() == old(self).secret(),
            (r is Ok || (r matches Err(e) && e is InternalError)) <==> date_in_window(
                *day,
                now.day_number as int,
            ),
            r is Ok <==> date_in_window(*day, now.day_number as int) && is_valid_url(
                merged_url_chars(
                    token_of(old(self).secret(), now.stamp),
                    "getDiversions"@,
                    Some(
                        diversions_params_of(
                            match *service_reference {
                                Some(sr) => Some(sr@),
                                None => None,
                            },
                            *operator,
                            offset_of(*day, now.day_number as int) as nat,
                        ),
                    ),
                ),
            ),
            !date_in_window(*day, now.day_number as int) ==> (r matches Err(e)
                && e is DateOutOfBounds),
            r matches Ok(u) ==> u@ == merged_url_chars(
                token_of(old(self).secret(), now.stamp),
                "getDiversions"@,
                Some(
                    diversions_params_of(
                        match *service_reference {
                            Some(sr) => Some(sr@),
                            None => None,
                        },
                        *operator,
                        offset_of(*day, now.day_number as int) as nat,
                    ),
                ),
            ),
            r matches Err(e) && !(e is InternalError) ==> *final(self) == *old(self),
    {
        let params = match diversions_params(service_reference, day, operator, now.day_number) {
            Ok(p) => p,
            Err(e) => { return Err(e) },
        };
        self.get_uri_at(now, "getDiversions", Some(params.as_str()))
    }

    /// Request the ongoing diversions.
    ///
    /// You may request diversions on a specific service (the default is
    /// all services) and for a specific date up to three days in the
    /// future (the default is today).
    pub fn get_diversions(
        &mut self,
        service_reference: &Option<&str>,
        day: &Option<UtcDate>,
        operator: &Operator,
    ) -> (r: Result<String, MyBusTrackerError>)
        requires
            old(self).wf(),
        ensures
            final(self).wf(),
            final(self).secret() == old(self).secret(),
            day is None ==> (r is Ok || (r matches Err(e) && e is InternalError)),
            r matches Err(e) ==> e is DateOutOfBounds || e is InternalError,
            r matches Err(e) && !(e is InternalError) ==> *final(self) == *old(self),
    {
        let now = utc_now();
        self.get_diversions_at(&now, service_reference, day, operator)
    }

    /// Request the plotted points of one diversion, with the token valid
    /// for the hour of `now`.
    pub fn get_diversion_points_at(
        &mut self,
        now: &UtcInstant,
        diversion: &str,
        operator: &Operator,
    ) -> (r: Result<String, MyBusTrackerError>)
        requires
            old(self).wf(),
            now.wf(),
        ensures
            final(self).wf(),
            final(self).secret() == old(self).secret(),
            final(self).stamp() == now.stamp,
            final(self).current() == token_of(old(self).secret(), now.stamp),
            r is Ok <==> is_valid_url(
                merged_url_chars(
                    token_of(old(self).secret(), now.stamp),
                    "getDiversionPoints"@,
                    Some(diversion_points_params_of(diversion@, *operator)),
                ),
            ),
            r matches Ok(u) ==> u@ == merged_url_chars(
                token_of(old(self).secret(), now.stamp),
                "getDiversionPoints"@,
                Some(diversion_points_params_of(diversion@, *operator)),
            ),
            r matches Err(e) ==> e is InternalError,
    {
        let params = diversion_points_params(diversion, operator);
        self.get_uri_at(now, "getDiversionPoints", Some(params.as_str()))
    }

    /// Request the description of a diversion for plotting on a map.
    pub fn get_diversion_points(&mut self, diversion: &str, operator: &Operator) -> (r: Result<
        String,
        MyBusTrackerError,
    >)
        requires
            old(self).wf(),
        ensures
            final(self).wf(),
            final(self).secret() == old(self).secret(),
            r is Ok <==> is_valid_url(
                merged_url_chars(
                    final(self).current(),
                    "getDiversionPoints"@,
                    Some(diversion_points_params_of(diversion@, *operator)),
                ),
            ),
            r matches Ok(u) ==> u@ == merged_url_chars(
                final(self).current(),
                "getDiversionPoints"@,
                Some(diversion_points_params_of(diversion@, *operator)),
            ),
            r matches Err(e) ==> e is InternalError,
    {
        let now = utc_now();
        self.get_diversion_points_at(&now, diversion, operator)
    }
}

} // verus!
