//! One collection run as a sequence of decisions. The caller performs each
//! action (an HTTP GET, a file write) and hands back what happened; the run
//! fetches the weather, saves it, fetches the prices, saves them, and stops
//! at the first failure.
use vstd::prelude::*;
use crate::collector::{
    missing_key_message, openweather_from_response, openweather_url, openweather_url_of,
    price_window, resolve_api_key, smard_from_response, success_status,
    CollectorError, PriceSource, PRICE_WINDOW_MS,
};
use crate::json::Json;
use crate::prices::{price_doc, price_response_of, window_of, SmardDataPoint};
use crate::weather::{one_call_doc, one_call_of, OneCallView};

verus! {

/// The file the weather is saved to.
pub open spec fn weather_file() -> Seq<char> {
    "weather_data.json"@
}

/// The file the prices are saved to.
pub open spec fn prices_file() -> Seq<char> {
    "smard_prices.json"@
}

/// What a finished run reports.
pub open spec fn completion_message() -> Seq<char> {
    "Data fetching complete."@
}

/// The address of Germany's hourly day-ahead prices.
pub open spec fn day_ahead_germany_url() -> Seq<char> {
    "https://www.smard.de/app/chart_data"@ + "/"@ + "1001"@ + "/"@ + "DE"@ + "/index_"@ + "hour"@
        + ".json"@
}

/// Whether `api_key` holds a non-empty key.
pub open spec fn has_key(api_key: Option<String>) -> bool {
    match api_key {
        Some(k) => k@.len() > 0,
        None => false,
    }
}

/// What the caller is to do next.
#[derive(Debug)]
pub enum Action {
    /// Send an HTTP GET to `url` and hand back the answer as
    /// `Event::Response`.
    Fetch { url: String },
    /// Write `document` as pretty-printed JSON to `file_name` in the output
    /// directory, replacing what is there, and hand back `Event::Saved`.
    Save { file_name: String, document: Json },
    /// The run is over.
    Finish { outcome: Result<String, CollectorError> },
}

/// What happened when the caller performed an action.
#[derive(Debug)]
pub enum Event {
    /// An HTTP answer: its status, its body, and the outcome of reading the
    /// body as JSON (the parser's message on failure).
    Response { status: u16, body: String, parsed: Result<Json, String> },
    /// The outcome of a file write (the system's message on failure).
    Saved { result: Result<(), String> },
}

/// Where a run stands.
#[derive(Clone, Copy, Debug, PartialEq, Eq, Structural)]
pub enum Stage {
    AwaitingWeather,
    SavingWeather,
    AwaitingPrices,
    SavingPrices,
    Finished,
}

/// A collection run.
#[derive(Debug)]
pub struct Collection {
    pub stage: Stage,
    /// The start of the price window, in milliseconds since the Unix epoch.
    pub start_ms: i64,
    /// The end of the price window, in milliseconds since the Unix epoch.
    pub end_ms: i64,
    /// Where the prices are fetched from.
    pub price_url: String,
}

/// The run stops with the error `e`.
pub open spec fn fails_with(r: (Collection, Action), e: CollectorError) -> bool {
    &&& r.0.stage == Stage::Finished
    &&& r.1 == Action::Finish { outcome: Err(e) }
}

/// The run stops with an `UpstreamParse` error for a document of the wrong
/// shape, holding `body` and the message `cause`.
pub open spec fn fails_on_shape(r: (Collection, Action), body: String, cause: Seq<char>) -> bool {
    &&& r.0.stage == Stage::Finished
    &&& r.1 matches Action::Finish {
        outcome: Err(CollectorError::UpstreamParse { body: b, cause: c }),
    }
    &&& b == body && c@ == cause
}

impl Collection {
    /// The window and the price address carry over from `self` to `next`.
    pub open spec fn keeps_window(self, next: Collection) -> bool {
        &&& next.start_ms == self.start_ms
        &&& next.end_ms == self.end_ms
        &&& next.price_url == self.price_url
    }

    /// Whether the run waits for `e`: an answer while it fetches, the
    /// outcome of a write while it saves.
    pub open spec fn expects(self, e: Event) -> bool {
        match self.stage {
            Stage::AwaitingWeather | Stage::AwaitingPrices => e is Response,
            Stage::SavingWeather | Stage::SavingPrices => e is Saved,
            Stage::Finished => false,
        }
    }

    /// Starts a run at the time `now_ms` (milliseconds since the Unix epoch)
    /// for the place at `lat`, `lon` (decimal text). Without a non-empty key
    /// the run stops at once with a `Configuration` error, before any
    /// request, whatever the clock says; with one, it first fetches the
    /// weather, and the price window is the 48 hours that end at `now_ms`.
    pub fn start(api_key: Option<String>, lat: &str, lon: &str, now_ms: i64) -> (r: (
        Collection,
        Action,
    ))
        requires
            has_key(api_key) ==> now_ms >= i64::MIN + PRICE_WINDOW_MS,
        ensures
            r.0.price_url@ == day_ahead_germany_url(),
            match api_key {
                Some(k) if k@.len() > 0 => {
                    &&& r.0.start_ms == now_ms - PRICE_WINDOW_MS
                    &&& r.0.end_ms == now_ms
                    &&& r.0.stage == Stage::AwaitingWeather
                    &&& r.1 matches Action::Fetch { url } && url@ == openweather_url_of(
                        lat@,
                        lon@,
                        k@,
                    )
                },
                _ => {
                    &&& r.0.stage == Stage::Finished
                    &&& r.1 matches Action::Finish {
                        outcome: Err(CollectorError::Configuration { message: m }),
                    }
                    &&& m@ == missing_key_message()
                },
            },
    {
        let price_url = PriceSource::day_ahead_germany().url();
        match resolve_api_key(api_key) {
            Ok(k) => {
                let (start_ms, end_ms) = price_window(now_ms);
                let url = openweather_url(lat, lon, k.as_str());
                (
                    Collection { stage: Stage::AwaitingWeather, start_ms, end_ms, price_url },
                    Action::Fetch { url },
                )
            },
            Err(e) => (
                Collection { stage: Stage::Finished, start_ms: now_ms, end_ms: now_ms, price_url },
                Action::Finish { outcome: Err(e) },
            ),
        }
    }

    /// Takes the outcome of the last action and decides the next one.
    pub fn step(self, event: Event) -> (r: (Collection, Action))
        requires
            self.expects(event),
        ensures
            self.keeps_window(r.0),
            match (self.stage, event) {
                (Stage::AwaitingWeather, Event::Response { status, body, parsed }) => {
                    &&& !success_status(status) ==> fails_with(
                        r,
                        CollectorError::UpstreamHttp { status, body },
                    )
                    &&& success_status(status) ==> match parsed {
                        Err(cause) => fails_with(r, CollectorError::UpstreamParse { body, cause }),
                        Ok(j) => match one_call_of(j) {
                            Ok(v) => {
                                &&& r.0.stage == Stage::SavingWeather
                                &&& r.1 matches Action::Save { file_name, document }
                                    && file_name@ == weather_file() && one_call_doc(document, v)
                                    && one_call_of(document) == Ok::<OneCallView, Seq<char>>(v)
                            },
                            Err(cause) => fails_on_shape(r, body, cause),
                        },
                    }
                },
                (Stage::AwaitingPrices, Event::Response { status, body, parsed }) => {
                    &&& !success_status(status) ==> fails_with(
                        r,
                        CollectorError::UpstreamHttp { status, body },
                    )
                    &&& success_status(status) ==> match parsed {
                        Err(cause) => fails_with(r, CollectorError::UpstreamParse { body, cause }),
                        Ok(j) => match price_response_of(j) {
                            Ok(points) => {
                                &&& r.0.stage == Stage::SavingPrices
                                &&& r.1 matches Action::Save { file_name, document }
                                    && file_name@ == prices_file() && price_doc(
                                        document,
                                        window_of(points, self.start_ms, self.end_ms),
                                    ) && price_response_of(document) == Ok::<
                                        Seq<SmardDataPoint>,
                                        Seq<char>,
                                    >(window_of(points, self.start_ms, self.end_ms))
                            },
                            Err(cause) => fails_on_shape(r, body, cause),
                        },
                    }
                },
                (Stage::SavingWeather, Event::Saved { result }) => match result {
                    Ok(_) => {
                        &&& r.0.stage == Stage::AwaitingPrices
                        &&& r.1 matches Action::Fetch { url } && url == self.price_url
                    },
                    Err(message) => fails_with(r, CollectorError::Io { message }),
                },
                (Stage::SavingPrices, Event::Saved { result }) => match result {
                    Ok(_) => {
                        &&& r.0.stage == Stage::Finished
                        &&& r.1 matches Action::Finish { outcome: Ok(m) } && m@
                            == completion_message()
                    },
                    Err(message) => fails_with(r, CollectorError::Io { message }),
                },
                _ => false,
            },
    {
        let Collection { stage, start_ms, end_ms, price_url } = self;
        let finish = Stage::Finished;
        match (stage, event) {
            (Stage::AwaitingWeather, Event::Response { status, body, parsed }) => {
                match openweather_from_response(status, body, parsed) {
                    Ok(w) => (
                        Collection { stage: Stage::SavingWeather, start_ms, end_ms, price_url },
                        Action::Save {
                            file_name: "weather_data.json".to_owned(),
                            document: w.to_json(),
                        },
                    ),
                    Err(e) => (
                        Collection { stage: finish, start_ms, end_ms, price_url },
                        Action::Finish { outcome: Err(e) },
                    ),
                }
            },
            (Stage::AwaitingPrices, Event::Response { status, body, parsed }) => {
                match smard_from_response(status, body, parsed, start_ms, end_ms) {
                    Ok(p) => (
                        Collection { stage: Stage::SavingPrices, start_ms, end_ms, price_url },
                        Action::Save {
                            file_name: "smard_prices.json".to_owned(),
                            document: p.to_json(),
                        },
                    ),
                    Err(e) => (
                        Collection { stage: finish, start_ms, end_ms, price_url },
                        Action::Finish { outcome: Err(e) },
                    ),
                }
            },
            (Stage::SavingWeather, Event::Saved { result: Ok(_) }) => {
                let url = price_url.clone();
                (
                    Collection { stage: Stage::AwaitingPrices, start_ms, end_ms, price_url },
                    Action::Fetch { url },
                )
            },
            (Stage::SavingPrices, Event::Saved { result: Ok(_) }) => (
                Collection { stage: finish, start_ms, end_ms, price_url },
                Action::Finish { outcome: Ok("Data fetching complete.".to_owned()) },
            ),
            (_, Event::Saved { result: Err(message) }) => (
                Collection { stage: finish, start_ms, end_ms, price_url },
                Action::Finish { outcome: Err(CollectorError::Io { message }) },
            ),
            (_, _) => {
                // `expects` leaves no other pairing of stage and event.
                proof {
                    assert(false);
                }
                (
                    Collection { stage: finish, start_ms, end_ms, price_url },
                    Action::Finish { outcome: Ok(String::new()) },
                )
            },
        }
    }
}

} // verus!
