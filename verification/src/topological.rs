//! Topological web service: the topology version in use, the services in
//! operation, the plotted points of a service route, the destinations
//! served, and the bus stops.
//!
//! Every request in this group carries the operator alone, except the
//! service-route lookup, which also names the service.

use vstd::prelude::*;
use vstd::string::*;

use crate::models::{operator_code, Operator};
use crate::time::UtcInstant;
use crate::{is_valid_url, merged_url_chars, token_of, utc_now, MyBusTracker, MyBusTrackerError};

verus! {

/// The query-parameter string naming the operator alone.
pub open spec fn operator_params_of(op: Operator) -> Seq<char> {
    "operatorId="@ + operator_code(op)
}

/// Build the query parameters of a request that names the operator alone.
pub fn operator_params(operator: &Operator) -> (r: String)
    ensures
        r@ == operator_params_of(*operator),
{
    let mut out = String::new();
    out.append("operatorId=");
    out.append(operator.code());
    proof {
        assert(out@ =~= operator_params_of(*operator));
    }
    out
}

/// The full query-parameter string of a service-points request.
pub open spec fn service_points_params_of(sref: Seq<char>, op: Operator) -> Seq<char> {
    "operatorId="@ + operator_code(op) + "&ref="@ + sref
}

/// Build the query parameters of a service-points request.
pub fn service_points_params(service_reference: &str, operator: &Operator) -> (r: String)
    ensures
        r@ == service_points_params_of(service_reference@, *operator),
{
    let mut out = String::new();
    out.append("operatorId=");
    out.append(operator.code());
    out.append("&ref=");
    out.append(service_reference);
    proof {
        assert(out@ =~= service_points_params_of(service_reference@, *operator));
    }
    out
}

impl MyBusTracker {
    /// Request the id of the topology version in use, with the token valid
    /// for the hour of `now`.
    pub fn get_topo_id_at(&mut self, now: &UtcInstant, operator: &Operator) -> (r: Result<
        String,
        MyBusTrackerError,
    >)
        requires
            old(self).wf(),
            now.wf(),
        ensures
            final(self).wf(),
            final(self).secret() == old(self).secret(),
            final(self).stamp() == now.stamp,
            final(self).current() == token_of(old(self).secret(), now.stamp),
            r is Ok <==> is_valid_url(
                merged_url_chars(
                    token_of(old(self).secret(), now.stamp),
                    "getTopoId"@,
                    Some(operator_params_of(*operator)),
                ),
            ),
            r matches Ok(u) ==> u@ == merged_url_chars(
                token_of(old(self).secret(), now.stamp),
                "getTopoId"@,
                Some(operator_params_of(*operator)),
            ),
            r matches Err(e) ==> e is InternalError,
    {
        let params = operator_params(operator);
        self.get_uri_at(now, "getTopoId", Some(params.as_str()))
    }

    /// Request the id of the topology version in use.
    ///
    /// This id is generated only once per day server-side.  It is not
    /// cached, so subsequent calls result in repeated API requests; the
    /// value only changes when the topology has changed.
    pub fn get_topo_id(&mut self, operator: &Operator) -> (r: Result<String, MyBusTrackerError>)
        requires
            old(self).wf(),
        ensures
            final(self).wf(),
            final(self).secret() == old(self).secret(),
            r is Ok <==> is_valid_url(
                merged_url_chars(
                    final(self).current(),
                    "getTopoId"@,
                    Some(operator_params_of(*operator)),
                ),
            ),
            r matches Ok(u) ==> u@ == merged_url_chars(
                final(self).current(),
                "getTopoId"@,
                Some(operator_params_of(*operator)),
            ),
            r matches Err(e) ==> e is InternalError,
    {
        let now = utc_now();
        self.get_topo_id_at(&now, operator)
    }

    /// Request the services in operation, with the token valid for the
    /// hour of `now`.
    pub fn get_services_at(&mut self, now: &UtcInstant, operator: &Operator) -> (r: Result<
        String,
        MyBusTrackerError,
    >)
        requires
            old(self).wf(),
            now.wf(),
        ensures
            final(self).wf(),
            final(self).secret() == old(self).secret(),
            final(self).stamp() == now.stamp,
            final(self).current() == token_of(old(self).secret(), now.stamp),
            r is Ok <==> is_valid_url(
                merged_url_chars(
                    token_of(old(self).secret(), now.stamp),
                    "getServices"@,
                    Some(operator_params_of(*operator)),
                ),
            ),
            r matches Ok(u) ==> u@ == merged_url_chars(
                token_of(old(self).secret(), now.stamp),
                "getServices"@,
                Some(operator_params_of(*operator)),
            ),
            r matches Err(e) ==> e is InternalError,
    {
        let params = operator_params(operator);
        self.get_uri_at(now, "getServices", Some(params.as_str()))
    }

    /// Request a list of the services in operation.
    pub fn get_services(&mut self, operator: &Operator) -> (r: Result<String, MyBusTrackerError>)
        requires
            old(self).wf(),
        ensures
            final(self).wf(),
            final(self).secret() == old(self).secret(),
            r is Ok <==> is_valid_url(
                merged_url_chars(
                    final(self).current(),
                    "getServices"@,
                    Some(operator_params_of(*operator)),
                ),
            ),
            r matches Ok(u) ==> u@ == merged_url_chars(
                final(self).current(),
                "getServices"@,
                Some(operator_params_of(*operator)),
            ),
            r matches Err(e) ==> e is InternalError,
    {
        let now = utc_now();
        self.get_services_at(&now, operator)
    }

    /// Request the plotted points of a service route, with the token valid
    /// for the hour of `now`.
    pub fn get_service_points_at(
        &mut self,
        now: &UtcInstant,
        service_reference: &str,
        operator: &Operator,
    ) -> (r: Result<String, MyBusTrackerError>)
        requires
            old(self).wf(),
            now.wf(),
        ensures
            final(self).wf(),
            final(self).secret() == old(self).secret(),
            final(self).stamp() == now.stamp,
            final(self).current() == token_of(old(self).secret(), now.stamp),
            r is Ok <==> is_valid_url(
                merged_url_chars(
                    token_of(old(self).secret(), now.stamp),
                    "getServicePoints"@,
                    Some(service_points_params_of(service_reference@, *operator)),
                ),
            ),
            r matches Ok(u) ==> u@ == merged_url_chars(
                token_of(old(self).secret(), now.stamp),
                "getServicePoints"@,
                Some(service_points_params_of(service_reference@, *operator)),
            ),
            r matches Err(e) ==> e is InternalError,
    {
        let params = service_points_params(service_reference, operator);
        self.get_uri_at(now, "getServicePoints", Some(params.as_str()))
    }

    /// Request a description of a service route for plotting on a map.
    pub fn get_service_points(&mut self, service_reference: &str, operator: &Operator) -> (r:
        Result<String, MyBusTrackerError>)
        requires
            old(self).wf(),
        ensures
            final(self).wf(),
            final(self).secret() == old(self).secret(),
            r is Ok <==> is_valid_url(
                merged_url_chars(
                    final(self).current(),
                    "getServicePoints"@,
                    Some(service_points_params_of(service_reference@, *operator)),
                ),
            ),
            r matches Ok(u) ==> u@ == merged_url_chars(
                final(self).current(),
                "getServicePoints"@,
                Some(service_points_params_of(service_reference@, *operator)),
            ),
            r matches Err(e) ==> e is InternalError,
    {
        let now = utc_now();
        self.get_service_points_at(&now, service_reference, operator)
    }

    /// Request the destinations served, with the token valid for the hour
    /// of `now`.
    pub fn get_destinations_at(&mut self, now: &UtcInstant, operator: &Operator) -> (r: Result<
        String,
        MyBusTrackerError,
    >)
        requires
            old(self).wf(),
            now.wf(),
        ensures
            final(self).wf(),
            final(self).secret() == old(self).secret(),
            final(self).stamp() == now.stamp,
            final(self).current() == token_of(old(self).secret(), now.stamp),
            r is Ok <==> is_valid_url(
                merged_url_chars(
                    token_of(old(self).secret(), now.stamp),
                    "getDests"@,
                    Some(operator_params_of(*operator)),
                ),
            ),
            r matches Ok(u) ==> u@ == merged_url_chars(
                token_of(old(self).secret(), now.stamp),
                "getDests"@,
                Some(operator_params_of(*operator)),
            ),
            r matches Err(e) ==> e is InternalError,
    {
        let params = operator_params(operator);
        self.get_uri_at(now, "getDests", Some(params.as_str()))
    }

    /// Request a list of service destinations.
    pub fn get_destinations(&mut self, operator: &Operator) -> (r: Result<
        String,
        MyBusTrackerError,
    >)
        requires
            old(self).wf(),
        ensures
            final(self).wf(),
            final(self).secret() == old(self).secret(),
            r is Ok <==> is_valid_url(
                merged_url_chars(
                    final(self).current(),
                    "getDests"@,
                    Some(operator_params_of(*operator)),
                ),
            ),
            r matches Ok(u) ==> u@ == merged_url_chars(
                final(self).current(),
                "getDests"@,
                Some(operator_params_of(*operator)),
            ),
            r matches Err(e) ==> e is InternalError,
    {
        let now = utc_now();
        self.get_destinations_at(&now, operator)
    }

    /// Request the bus stops, with the token valid for the hour of `now`.
    pub fn get_bus_stops_at(&mut self, now: &UtcInstant, operator: &Operator) -> (r: Result<
        String,
        MyBusTrackerError,
    >)
        requires
            old(self).wf(),
            now.wf(),
        ensures
            final(self).wf(),
            final(self).secret() == old(self).secret(),
            final(self).stamp() == now.stamp,
            final(self).current() == token_of(old(self).secret(), now.stamp),
            r is Ok <==> is_valid_url(
                merged_url_chars(
                    token_of(old(self).secret(), now.stamp),
                    "getBusStops"@,
                    Some(operator_params_of(*operator)),
                ),
            ),
            r matches Ok(u) ==> u@ == merged_url_chars(
                token_of(old(self).secret(), now.stamp),
                "getBusStops"@,
                Some(operator_params_of(*operator)),
            ),
            r matches Err(e) ==> e is InternalError,
    {
        let params = operator_params(operator);
        self.get_uri_at(now, "getBusStops", Some(params.as_str()))
    }

    /// Request a list of bus stops.
    pub fn get_bus_stops(&mut self, operator: &Operator) -> (r: Result<String, MyBusTrackerError>)
        requires
            old(self).wf(),
        ensures
            final(self).wf(),
            final(self).secret() == old(self).secret(),
            r is Ok <==> is_valid_url(
                merged_url_chars(
                    final(self).current(),
                    "getBusStops"@,
                    Some(operator_params_of(*operator)),
                ),
            ),
            r matches Ok(u) ==> u@ == merged_url_chars(
                final(self).current(),
                "getBusStops"@,
                Some(operator_params_of(*operator)),
            ),
            r matches Err(e) ==> e is InternalError,
    {
        let now = utc_now();
        self.get_bus_stops_at(&now, operator)
    }
}

} // verus!
