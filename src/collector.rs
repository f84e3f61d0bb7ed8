//! Request addresses, the checks on an HTTP answer, and the errors of a run.
use vstd::prelude::*;
use vstd::string::StringExecFns;
use crate::json::Json;
use crate::prices::{price_response_of, window_of, SmardApiResponse};
use crate::weather::{one_call_of, OpenWeatherOneCallResponse};

verus! {

/// Why a collection run failed.
#[derive(Debug)]
pub enum CollectorError {
    /// The weather service's key is missing or empty.
    Configuration { message: String },
    /// A service answered with a status outside 200..=299.
    UpstreamHttp { status: u16, body: String },
    /// A service's answer is not JSON of the expected shape.
    UpstreamParse { body: String, cause: String },
    /// A file could not be written.
    Io { message: String },
}

/// The length of the trailing price window: 48 hours in milliseconds.
pub const PRICE_WINDOW_MS: i64 = 48 * 60 * 60 * 1000;

/// Whether an HTTP status counts as success.
pub open spec fn success_status(status: u16) -> bool {
    200 <= status <= 299
}

/// Whether an HTTP status counts as success: 200 to 299.
pub fn is_success(status: u16) -> (r: bool)
    ensures
        r == success_status(status),
{
    200 <= status && status <= 299
}

/// The status stage of an answer: a successful status hands the body on,
/// any other gives an `UpstreamHttp` error with the status and the body.
pub fn check_status(status: u16, body: String) -> (r: Result<String, CollectorError>)
    ensures
        success_status(status) ==> r == Ok::<String, CollectorError>(body),
        !success_status(status) ==> r == Err::<String, CollectorError>(
            CollectorError::UpstreamHttp { status, body },
        ),
{
    if is_success(status) {
        Ok(body)
    } else {
        Err(CollectorError::UpstreamHttp { status, body })
    }
}

/// The weather service's answer, checked in two stages. `parsed` is the
/// outcome of reading `body` as JSON (the parser's message on failure). A
/// status outside 200..=299 gives `UpstreamHttp`; then a parse failure or a
/// document of the wrong shape gives `UpstreamParse` holding the raw body and
/// the message that names the member at fault.
pub fn openweather_from_response(status: u16, body: String, parsed: Result<Json, String>) -> (r:
    Result<OpenWeatherOneCallResponse, CollectorError>)
    ensures
        !success_status(status) ==> r == Err::<OpenWeatherOneCallResponse, CollectorError>(
            CollectorError::UpstreamHttp { status, body },
        ),
        success_status(status) ==> match parsed {
            Err(cause) => r == Err::<OpenWeatherOneCallResponse, CollectorError>(
                CollectorError::UpstreamParse { body, cause },
            ),
            Ok(j) => match one_call_of(j) {
                Ok(v) => r matches Ok(w) && w@ == v,
                Err(cause) => r matches Err(CollectorError::UpstreamParse { body: b, cause: c })
                    && b == body && c@ == cause,
            },
        },
{
    let body = match check_status(status, body) {
        Ok(b) => b,
        Err(e) => return Err(e),
    };
    match parsed {
        Err(cause) => Err(CollectorError::UpstreamParse { body, cause }),
        Ok(j) => match OpenWeatherOneCallResponse::from_json(&j) {
            Ok(w) => Ok(w),
            Err(cause) => Err(CollectorError::UpstreamParse { body, cause }),
        },
    }
}

/// The grid-data service's answer, checked as for the weather service, then
/// cut to the prices stamped from `start_ms` to `end_ms`, both included, in
/// the order the service gave them.
pub fn smard_from_response(
    status: u16,
    body: String,
    parsed: Result<Json, String>,
    start_ms: i64,
    end_ms: i64,
) -> (r: Result<SmardApiResponse, CollectorError>)
    ensures
        !success_status(status) ==> r == Err::<SmardApiResponse, CollectorError>(
            CollectorError::UpstreamHttp { status, body },
        ),
        success_status(status) ==> match parsed {
            Err(cause) => r == Err::<SmardApiResponse, CollectorError>(
                CollectorError::UpstreamParse { body, cause },
            ),
            Ok(j) => match price_response_of(j) {
                Ok(points) => r matches Ok(p) && p@ == window_of(points, start_ms, end_ms),
                Err(cause) => r matches Err(CollectorError::UpstreamParse { body: b, cause: c })
                    && b == body && c@ == cause,
            },
        },
{
    let body = match check_status(status, body) {
        Ok(b) => b,
        Err(e) => return Err(e),
    };
    match parsed {
        Err(cause) => Err(CollectorError::UpstreamParse { body, cause }),
        Ok(j) => match SmardApiResponse::from_json(&j) {
            Ok(all) => Ok(all.within(start_ms, end_ms)),
            Err(cause) => Err(CollectorError::UpstreamParse { body, cause }),
        },
    }
}

/// The message of a missing or empty weather service key.
pub open spec fn missing_key_message() -> Seq<char> {
    "OPENWEATHER_API_KEY not set"@
}

/// Takes the weather service's key as found in the environment: an absent
/// or empty key gives a `Configuration` error.
pub fn resolve_api_key(value: Option<String>) -> (r: Result<String, CollectorError>)
    ensures
        match value {
            Some(k) if k@.len() > 0 => r == Ok::<String, CollectorError>(k),
            _ => r matches Err(CollectorError::Configuration { message: m }) && m@
                == missing_key_message(),
        },
{
    match value {
        Some(k) => if !k.as_str().is_empty() {
            return Ok(k);
        },
        None => {},
    }
    Err(CollectorError::Configuration { message: "OPENWEATHER_API_KEY not set".to_owned() })
}

/// The trailing price window that ends at `now_ms`: from 48 hours before it
/// to it, both in milliseconds since the Unix epoch.
pub fn price_window(now_ms: i64) -> (r: (i64, i64))
    requires
        now_ms >= i64::MIN + PRICE_WINDOW_MS,
    ensures
        r.0 == now_ms - PRICE_WINDOW_MS,
        r.1 == now_ms,
{
    (now_ms - PRICE_WINDOW_MS, now_ms)
}

/// The weather service's address for current conditions and hourly forecast
/// at `lat`, `lon` (decimal text), in metric units.
pub open spec fn openweather_url_of(lat: Seq<char>, lon: Seq<char>, api_key: Seq<char>) -> Seq<
    char,
> {
    "https://api.openweathermap.org/data/3.0/onecall?lat="@ + lat + "&lon="@ + lon
        + "&exclude=minutely,daily,alerts&appid="@ + api_key + "&units=metric"@
}

/// Builds the weather service's address; see `openweather_url_of`.
pub fn openweather_url(lat: &str, lon: &str, api_key: &str) -> (r: String)
    ensures
        r@ == openweather_url_of(lat@, lon@, api_key@),
{
    let mut url = String::from_str("https://api.openweathermap.org/data/3.0/onecall?lat=");
    url.append(lat);
    url.append("&lon=");
    url.append(lon);
    url.append("&exclude=minutely,daily,alerts&appid=");
    url.append(api_key);
    url.append("&units=metric");
    url
}

/// Where the grid-data service publishes a price series.
#[derive(Debug)]
pub struct PriceSource {
    pub base_url: String,
    pub filter: String,
    pub region: String,
    pub resolution: String,
}

impl PriceSource {
    /// The address of the series' current index.
    pub open spec fn url_of(&self) -> Seq<char> {
        self.base_url@ + "/"@ + self.filter@ + "/"@ + self.region@ + "/index_"@
            + self.resolution@ + ".json"@
    }

    /// Germany's hourly day-ahead auction prices.
    pub fn day_ahead_germany() -> (r: PriceSource)
        ensures
            r.base_url@ == "https://www.smard.de/app/chart_data"@,
            r.filter@ == "1001"@,
            r.region@ == "DE"@,
            r.resolution@ == "hour"@,
    {
        PriceSource {
            base_url: "https://www.smard.de/app/chart_data".to_owned(),
            filter: "1001".to_owned(),
            region: "DE".to_owned(),
            resolution: "hour".to_owned(),
        }
    }

    /// Builds `{base_url}/{filter}/{region}/index_{resolution}.json`.
    pub fn url(&self) -> (r: String)
        ensures
            r@ == self.url_of(),
    {
        let mut url = self.base_url.clone();
        url.append("/");
        url.append(self.filter.as_str());
        url.append("/");
        url.append(self.region.as_str());
        url.append("/index_");
        url.append(self.resolution.as_str());
        url.append(".json");
        url
    }
}

} // verus!
