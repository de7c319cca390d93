//! Client library for the My Bus Tracker realtime transit information
//! service.
//!
//! The library derives the hourly access token, validates endpoint
//! parameters, and assembles the request URL for each remote function.
//! Issuing the HTTP GET and decoding the JSON body are left to the caller;
//! the typed response models and the decode tables for their wire codes are
//! provided here.

use vstd::prelude::*;
use vstd::string::*;

pub mod bustimes;
pub mod disruptions;
pub mod models;
pub mod strutil;
pub mod time;
pub mod topological;

use crate::time::{append_stamp, stamp_chars, utc_now, HourStamp, UtcInstant};

verus! {

/// Errors raised by the library.
#[derive(Debug, Clone)]
pub enum MyBusTrackerError {
    /// URI construction, body read, or JSON decode failure: a contract or
    /// environment defect, with a human-readable cause.
    InternalError { cause: String },
    /// Network or transport failure reaching the provider.
    CommunicationError { cause: String },
    /// A requested date lies outside the accepted forward window.
    DateOutOfBounds,
    /// More timetable entries were supplied than a request may carry.
    TooManyTimetables,
    /// A larger departure count was requested than a request may carry.
    TooManyDepartures,
}

/// The short description of an error.
pub open spec fn error_message_chars(e: MyBusTrackerError) -> Seq<char> {
    match e {
        MyBusTrackerError::InternalError { cause: _ } => "Internal error"@,
        MyBusTrackerError::CommunicationError { cause: _ } => "Error communicating with MyBusTracker"@,
        MyBusTrackerError::DateOutOfBounds => "Date out of bounds"@,
        MyBusTrackerError::TooManyTimetables => "Too many timetables requested"@,
        MyBusTrackerError::TooManyDepartures => "Too many departures requested"@,
    }
}

impl MyBusTrackerError {
    /// A short description of the error.
    pub fn message(&self) -> (r: String)
        ensures
            r@ == error_message_chars(*self),
    {
        match self {
            MyBusTrackerError::InternalError { cause: _ } => String::from_str("Internal error"),
            MyBusTrackerError::CommunicationError { cause: _ } => String::from_str(
                "Error communicating with MyBusTracker",
            ),
            MyBusTrackerError::DateOutOfBounds => String::from_str("Date out of bounds"),
            MyBusTrackerError::TooManyTimetables => String::from_str(
                "Too many timetables requested",
            ),
            MyBusTrackerError::TooManyDepartures => String::from_str(
                "Too many departures requested",
            ),
        }
    }
}

/// The lowercase hexadecimal MD5 digest of the characters of a string: a
/// pure function of its argument.
pub uninterp spec fn md5_hex_of(s: Seq<char>) -> Seq<char>;

/// Whether `c` is a lowercase hexadecimal digit.
pub open spec fn is_lower_hex_digit(c: char) -> bool {
    ('0' <= c <= '9') || ('a' <= c <= 'f')
}

/// The shape of a derived token: exactly 32 lowercase hexadecimal digits.
pub open spec fn is_hex_token(s: Seq<char>) -> bool {
    &&& s.len() == 32
    &&& forall|i: int| 0 <= i < s.len() ==> is_lower_hex_digit(#[trigger] s[i])
}

/// Relies on `md5::compute` and the `LowerHex` rendering of its digest:
/// two lowercase hexadecimal digits for each of the sixteen digest bytes, a
/// pure function of the input bytes.
#[verifier::external_body]
fn md5_hex(s: &str) -> (r: String)
    ensures
        r@ == md5_hex_of(s@),
        is_hex_token(r@),
{
    let digest = md5::compute(s);
    format!("{:x}", digest)
}

/// Whether a string parses as a URL: the verdict of `url::Url::parse`, a
/// pure function of the text.
pub uninterp spec fn is_valid_url(s: Seq<char>) -> bool;

/// Relies on `url::Url::parse`: `Err` exactly when the text is not a valid
/// URL, with the parse error rendered through its `Display` form.  The
/// fixed service endpoint is a constant that parses.
#[verifier::external_body]
fn check_url(s: &str) -> (r: Result<(), String>)
    ensures
        r is Ok <==> is_valid_url(s@),
        s@ == root_url_chars() ==> r is Ok,
{
    match url::Url::parse(s) {
        Ok(_) => Ok(()),
        Err(e) => Err(e.to_string()),
    }
}

/// The access token derived from a developer secret for a clock hour: the
/// MD5 digest, in hex, of the secret followed by the `YYYYMMDDHH` stamp.
pub open spec fn token_of(secret: Seq<char>, st: HourStamp) -> Seq<char> {
    md5_hex_of(secret + stamp_chars(st))
}

/// Take a base API key and turn it into a My Bus Tracker API key, valid for
/// the clock hour of `now`.
pub fn generate_api_key(base_key: &str, now: &UtcInstant) -> (key: String)
    requires
        now.wf(),
    ensures
        key@ == token_of(base_key@, now.stamp),
        is_hex_token(key@),
{
    let mut raw = String::from_str(base_key);
    append_stamp(&mut raw, &now.stamp);
    md5_hex(raw.as_str())
}

/// Holds an API key for accessing the My Bus Tracker web service.
///
/// The raw API key, as owned by the developer, is _not_ the key used to
/// access the API: a time-limited form derived from it is, and that is what
/// the `get_key` method returns.
pub struct ApiKey {
    raw_api_key: String,
    key: String,
    generated: HourStamp,
}

impl ApiKey {
    /// The developer secret this key was built from.
    pub closed spec fn secret(self) -> Seq<char> {
        self.raw_api_key@
    }

    /// The derived token currently stored.
    pub closed spec fn current(self) -> Seq<char> {
        self.key@
    }

    /// The clock hour the stored token was generated at.
    pub closed spec fn stamp(self) -> HourStamp {
        self.generated
    }

    /// The stored token is the one derived for the stored clock hour, and
    /// keeps the shape of a derived token.
    pub open spec fn wf(self) -> bool {
        &&& self.current() == token_of(self.secret(), self.stamp())
        &&& is_hex_token(self.current())
    }

    /// Create a new API key representation, with its token derived for the
    /// clock hour of `now`.
    pub fn new_at(api_key: &str, now: &UtcInstant) -> (k: Self)
        requires
            now.wf(),
        ensures
            k.wf(),
            k.secret() == api_key@,
            k.stamp() == now.stamp,
    {
        let key = generate_api_key(api_key, now);
        Self { raw_api_key: String::from_str(api_key), key, generated: now.stamp }
    }

    /// Create a new API key representation from the current clock hour.
    pub fn new(api_key: &str) -> (k: Self)
        ensures
            k.wf(),
            k.secret() == api_key@,
    {
        let now = utc_now();
        Self::new_at(api_key, &now)
    }

    /// Retrieve the key valid for the clock hour of `now`, regenerating the
    /// stored token only when the hour has changed since it was generated.
    pub fn get_key_at(&mut self, now: &UtcInstant) -> (key: String)
        requires
            old(self).wf(),
            now.wf(),
        ensures
            final(self).wf(),
            final(self).secret() == old(self).secret(),
            final(self).stamp() == now.stamp,
            old(self).stamp() == now.stamp ==> *final(self) == *old(self),
            key@ == token_of(old(self).secret(), now.stamp),
            key@ == final(self).current(),
            is_hex_token(key@),
    {
        if !(self.generated == now.stamp) {
            self.key = generate_api_key(self.raw_api_key.as_str(), now);
            self.generated = now.stamp;
        }
        self.key.clone()
    }

    /// Retrieve a key valid for the current clock hour.
    ///
    /// A key should be retrieved through this method prior to each API
    /// request, as generated keys are only valid for the clock hour they
    /// were generated in.  The system time must be correct for this method
    /// to return valid keys.
    pub fn get_key(&mut self) -> (key: String)
        requires
            old(self).wf(),
        ensures
            final(self).wf(),
            final(self).secret() == old(self).secret(),
            key@ == token_of(old(self).secret(), final(self).stamp()),
            key@ == final(self).current(),
            is_hex_token(key@),
    {
        let now = utc_now();
        self.get_key_at(&now)
    }
}

/// Token derivation is deterministic: two key managers holding the same
/// developer secret and the same generation hour hold the same token.
pub proof fn lemma_token_determinism(k1: ApiKey, k2: ApiKey)
    requires
        k1.wf(),
        k2.wf(),
        k1.secret() == k2.secret(),
        k1.stamp() == k2.stamp(),
    ensures
        k1.current() == k2.current(),
{
}

/// The fixed service endpoint, with its static base query.
pub open spec fn root_url_chars() -> Seq<char> {
    "http://ws.mybustracker.co.uk/?module=json"@
}

/// The fixed service endpoint as a string slice.
pub fn root_url() -> (s: &'static str)
    ensures
        s@ == root_url_chars(),
{
    "http://ws.mybustracker.co.uk/?module=json"
}

/// The complete request URL for a remote function: the fixed endpoint and
/// base query, the access token, the function name, and any extra
/// parameters, merged with `&`.
pub open spec fn merged_url_chars(key: Seq<char>, function: Seq<char>, params: Option<Seq<char>>) -> Seq<char> {
    root_url_chars() + "&key="@ + key + "&function="@ + function + (match params {
        Some(p) => "&"@ + p,
        None => Seq::<char>::empty(),
    })
}

/// Instance of the My Bus Tracker API.
///
/// Typically, one instance of this struct will be instantiated for your
/// entire application.
pub struct MyBusTracker {
    api_key: ApiKey,
    root_url: String,
}

impl MyBusTracker {
    /// The developer secret the tracker was created with.
    pub closed spec fn secret(self) -> Seq<char> {
        self.api_key.secret()
    }

    /// The derived token currently stored.
    pub closed spec fn current(self) -> Seq<char> {
        self.api_key.current()
    }

    /// The clock hour the stored token was generated at.
    pub closed spec fn stamp(self) -> HourStamp {
        self.api_key.stamp()
    }

    /// The endpoint URL the tracker was created with.
    pub closed spec fn root(self) -> Seq<char> {
        self.root_url@
    }

    /// The stored token matches its hour and keeps its shape, and the
    /// endpoint is the fixed one.
    pub open spec fn wf(self) -> bool {
        &&& self.current() == token_of(self.secret(), self.stamp())
        &&& is_hex_token(self.current())
        &&& self.root() == root_url_chars()
    }

    /// Create a new tracker whose token is derived for the hour of `now`.
    ///
    /// Construction always succeeds: the fixed endpoint is a constant that
    /// parses as a URL.
    pub fn new_at(api_key: &str, now: &UtcInstant) -> (r: Result<Self, MyBusTrackerError>)
        requires
            now.wf(),
        ensures
            r is Ok,
            r matches Ok(t) ==> t.wf() && t.secret() == api_key@ && t.stamp() == now.stamp,
    {
        let root = String::from_str(root_url());
        match check_url(root.as_str()) {
            Ok(_) => Ok(Self { api_key: ApiKey::new_at(api_key, now), root_url: root }),
            Err(cause) => Err(MyBusTrackerError::InternalError { cause }),
        }
    }

    /// Create a new tracker instance from your developer API key.
    ///
    /// Construction always succeeds: the fixed endpoint is a constant that
    /// parses as a URL.
    pub fn new(api_key: &str) -> (r: Result<Self, MyBusTrackerError>)
        ensures
            r is Ok,
            r matches Ok(t) ==> t.wf() && t.secret() == api_key@,
    {
        let now = utc_now();
        Self::new_at(api_key, &now)
    }

    /// Return the URL to hit for the given API function with the given URL
    /// parameters, using the token valid for the hour of `now`.
    ///
    /// If URL parameters are given, they must already be encoded as URI
    /// parameters (URL encoded `key=value` format, separated by ampersands).
    pub fn get_uri_at(&mut self, now: &UtcInstant, function: &str, uri_params: Option<&str>) -> (r:
        Result<String, MyBusTrackerError>)
        requires
            old(self).wf(),
            now.wf(),
        ensures
            final(self).wf(),
            final(self).secret() == old(self).secret(),
            final(self).stamp() == now.stamp,
            final(self).current() == token_of(old(self).secret(), now.stamp),
            old(self).stamp() == now.stamp ==> *final(self) == *old(self),
            r is Ok <==> is_valid_url(
                merged_url_chars(
                    token_of(old(self).secret(), now.stamp),
                    function@,
                    match uri_params {
                        Some(p) => Some(p@),
                        None => None,
                    },
                ),
            ),
            r matches Ok(u) ==> u@ == merged_url_chars(
                token_of(old(self).secret(), now.stamp),
                function@,
                match uri_params {
                    Some(p) => Some(p@),
                    None => None,
                },
            ),
            r matches Err(e) ==> e is InternalError,
    {
        let api_key = self.api_key.get_key_at(now);
        let mut url = self.root_url.clone();
        proof {
            reveal_strlit("&key=");
            reveal_strlit("&function=");
            reveal_strlit("&");
        }
        url.append("&key=");
        url.append(api_key.as_str());
        url.append("&function=");
        url.append(function);
        match uri_params {
            Some(params) => {
                url.append("&");
                url.append(params);
            },
            None => {},
        }
        proof {
            assert(url@ =~= merged_url_chars(
                token_of(old(self).secret(), now.stamp),
                function@,
                match uri_params {
                    Some(p) => Some(p@),
                    None => None::<Seq<char>>,
                },
            ));
        }
        match check_url(url.as_str()) {
            Ok(_) => Ok(url),
            Err(cause) => Err(MyBusTrackerError::InternalError { cause }),
        }
    }

    /// Return the URL to hit for the given API function with the given URL
    /// parameters, using a token valid for the current clock hour.
    pub fn get_uri(&mut self, function: &str, uri_params: Option<&str>) -> (r: Result<
        String,
        MyBusTrackerError,
    >)
        requires
            old(self).wf(),
        ensures
            final(self).wf(),
            final(self).secret() == old(self).secret(),
            r is Ok <==> is_valid_url(
                merged_url_chars(
                    final(self).current(),
                    function@,
                    match uri_params {
                        Some(p) => Some(p@),
                        None => None,
                    },
                ),
            ),
            r matches Ok(u) ==> u@ == merged_url_chars(
                final(self).current(),
                function@,
                match uri_params {
                    Some(p) => Some(p@),
                    None => None,
                },
            ),
            r matches Err(e) ==> e is InternalError,
    {
        let now = utc_now();
        self.get_uri_at(&now, function, uri_params)
    }
}

} // verus!
