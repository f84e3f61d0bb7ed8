//! The weather service's answer: current conditions and an hourly forecast.
use vstd::prelude::*;
use crate::json::{
    is_integer, is_text, names, array_field, find, i32_field, i64_field, int_json, lemma_member_at, lookup, number_field,
    read_array_field, read_i32_field, read_i64_field, read_number_field, read_text_field,
    text_field, Json, JsonNumber,
};

verus! {

/// One weather condition, as a description and an icon code.
#[derive(Debug)]
pub struct OpenWeatherWeather {
    pub description: String,
    pub icon: String,
}

/// A weather condition as plain values.
pub struct WeatherCondition {
    pub description: Seq<char>,
    pub icon: Seq<char>,
}

impl View for OpenWeatherWeather {
    type V = WeatherCondition;

    open spec fn view(&self) -> WeatherCondition {
        WeatherCondition { description: self.description@, icon: self.icon@ }
    }
}

/// The main readings of the current conditions: temperature and felt
/// temperature in degrees Celsius, and relative humidity in percent.
#[derive(Clone, Copy, Debug, PartialEq, Eq, Structural)]
pub struct OpenWeatherMain {
    pub temp: JsonNumber,
    pub feels_like: JsonNumber,
    pub humidity: i32,
}

/// Cloud cover in percent.
#[derive(Clone, Copy, Debug, PartialEq, Eq, Structural)]
pub struct OpenWeatherClouds {
    pub all: i32,
}

/// The current conditions, observed at the Unix time `dt`.
#[derive(Debug)]
pub struct OpenWeatherCurrent {
    pub main: OpenWeatherMain,
    pub weather: Vec<OpenWeatherWeather>,
    pub dt: i64,
}

/// The current conditions as plain values.
pub struct CurrentView {
    pub main: OpenWeatherMain,
    pub weather: Seq<WeatherCondition>,
    pub dt: i64,
}

/// The views of a list of conditions.
pub open spec fn conditions_view(v: Seq<OpenWeatherWeather>) -> Seq<WeatherCondition> {
    v.map_values(|w: OpenWeatherWeather| w@)
}

impl View for OpenWeatherCurrent {
    type V = CurrentView;

    open spec fn view(&self) -> CurrentView {
        CurrentView { main: self.main, weather: conditions_view(self.weather@), dt: self.dt }
    }
}

/// One hour of the forecast: Unix time, temperature in degrees Celsius,
/// conditions, probability of precipitation and cloud cover.
#[derive(Debug)]
pub struct OpenWeatherHourlyForecast {
    pub dt: i64,
    pub temp: JsonNumber,
    pub weather: Vec<OpenWeatherWeather>,
    pub pop: JsonNumber,
    pub clouds: OpenWeatherClouds,
}

/// One hour of the forecast as plain values.
pub struct HourView {
    pub dt: i64,
    pub temp: JsonNumber,
    pub weather: Seq<WeatherCondition>,
    pub pop: JsonNumber,
    pub clouds: OpenWeatherClouds,
}

impl View for OpenWeatherHourlyForecast {
    type V = HourView;

    open spec fn view(&self) -> HourView {
        HourView {
            dt: self.dt,
            temp: self.temp,
            weather: conditions_view(self.weather@),
            pop: self.pop,
            clouds: self.clouds,
        }
    }
}

/// The whole answer: current conditions and the hours of the forecast in
/// the order the service gave them.
#[derive(Debug)]
pub struct OpenWeatherOneCallResponse {
    pub current: OpenWeatherCurrent,
    pub hourly: Vec<OpenWeatherHourlyForecast>,
}

/// The whole answer as plain values.
pub struct OneCallView {
    pub current: CurrentView,
    pub hourly: Seq<HourView>,
}

impl View for OpenWeatherOneCallResponse {
    type V = OneCallView;

    open spec fn view(&self) -> OneCallView {
        OneCallView {
            current: self.current@,
            hourly: self.hourly@.map_values(|h: OpenWeatherHourlyForecast| h@),
        }
    }
}

/// `j` read as a weather condition, or why not.
pub open spec fn condition_of(j: Json) -> Result<WeatherCondition, Seq<char>> {
    match text_field(j, "description"@) {
        Err(e) => Err(e),
        Ok(description) => match text_field(j, "icon"@) {
            Err(e) => Err(e),
            Ok(icon) => Ok(WeatherCondition { description, icon }),
        },
    }
}

/// Whether `i` is the first item of `items` that is not a weather condition.
pub open spec fn first_bad_condition(items: Seq<Json>, i: int) -> bool {
    &&& 0 <= i < items.len()
    &&& condition_of(items[i]) is Err
    &&& forall|k: int| 0 <= k < i ==> (#[trigger] condition_of(items[k])) is Ok
}

/// `items` read as weather conditions, or why the first that is not one
/// fails.
pub open spec fn conditions_in(items: Seq<Json>) -> Result<Seq<WeatherCondition>, Seq<char>> {
    if exists|i: int| first_bad_condition(items, i) {
        let i = choose|i: int| first_bad_condition(items, i);
        Err(condition_of(items[i])->Err_0)
    } else {
        Ok(Seq::new(items.len(), |i: int| condition_of(items[i])->Ok_0))
    }
}

/// The member `key` of `j` read as a list of weather conditions, or why not.
pub open spec fn conditions_field(j: Json, key: Seq<char>) -> Result<
    Seq<WeatherCondition>,
    Seq<char>,
> {
    match array_field(j, key) {
        Err(e) => Err(e),
        Ok(items) => conditions_in(items),
    }
}

/// `j` read as the main readings, or why not.
pub open spec fn main_of(j: Json) -> Result<OpenWeatherMain, Seq<char>> {
    match number_field(j, "temp"@) {
        Err(e) => Err(e),
        Ok(temp) => match number_field(j, "feels_like"@) {
            Err(e) => Err(e),
            Ok(feels_like) => match i32_field(j, "humidity"@) {
                Err(e) => Err(e),
                Ok(humidity) => Ok(OpenWeatherMain { temp, feels_like, humidity }),
            },
        },
    }
}

/// `j` read as the current conditions, or why not.
pub open spec fn current_of(j: Json) -> Result<CurrentView, Seq<char>> {
    match lookup(j, "main"@) {
        Err(e) => Err(e),
        Ok(m) => match main_of(m) {
            Err(e) => Err(e),
            Ok(main) => match conditions_field(j, "weather"@) {
                Err(e) => Err(e),
                Ok(weather) => match i64_field(j, "dt"@) {
                    Err(e) => Err(e),
                    Ok(dt) => Ok(CurrentView { main, weather, dt }),
                },
            },
        },
    }
}

/// `j` read as cloud cover, or why not.
pub open spec fn clouds_of(j: Json) -> Result<OpenWeatherClouds, Seq<char>> {
    match i32_field(j, "all"@) {
        Err(e) => Err(e),
        Ok(all) => Ok(OpenWeatherClouds { all }),
    }
}

/// `j` read as one hour of the forecast, or why not.
pub open spec fn hour_of(j: Json) -> Result<HourView, Seq<char>> {
    match i64_field(j, "dt"@) {
        Err(e) => Err(e),
        Ok(dt) => match number_field(j, "temp"@) {
            Err(e) => Err(e),
            Ok(temp) => match conditions_field(j, "weather"@) {
                Err(e) => Err(e),
                Ok(weather) => match number_field(j, "pop"@) {
                    Err(e) => Err(e),
                    Ok(pop) => match lookup(j, "clouds"@) {
                        Err(e) => Err(e),
                        Ok(c) => match clouds_of(c) {
                            Err(e) => Err(e),
                            Ok(clouds) => Ok(HourView { dt, temp, weather, pop, clouds }),
                        },
                    },
                },
            },
        },
    }
}

/// Whether `i` is the first item of `items` that is not a forecast hour.
pub open spec fn first_bad_hour(items: Seq<Json>, i: int) -> bool {
    &&& 0 <= i < items.len()
    &&& hour_of(items[i]) is Err
    &&& forall|k: int| 0 <= k < i ==> (#[trigger] hour_of(items[k])) is Ok
}

/// `items` read as hours of the forecast, or why the first that is not one
/// fails.
pub open spec fn hours_in(items: Seq<Json>) -> Result<Seq<HourView>, Seq<char>> {
    if exists|i: int| first_bad_hour(items, i) {
        let i = choose|i: int| first_bad_hour(items, i);
        Err(hour_of(items[i])->Err_0)
    } else {
        Ok(Seq::new(items.len(), |i: int| hour_of(items[i])->Ok_0))
    }
}

/// `j` read as the whole answer of the weather service, or the message of
/// the first member, in the order of the answer's fields, that is missing
/// or of the wrong kind. Members that are not named here are ignored.
pub open spec fn one_call_of(j: Json) -> Result<OneCallView, Seq<char>> {
    match lookup(j, "current"@) {
        Err(e) => Err(e),
        Ok(c) => match current_of(c) {
            Err(e) => Err(e),
            Ok(current) => match array_field(j, "hourly"@) {
                Err(e) => Err(e),
                Ok(items) => match hours_in(items) {
                    Err(e) => Err(e),
                    Ok(hourly) => Ok(OneCallView { current, hourly }),
                },
            },
        },
    }
}

/// Whether `j` is exactly the JSON object written for the condition `c`:
/// `description` and `icon`, in that order.
pub open spec fn condition_doc(j: Json, c: WeatherCondition) -> bool {
    match j {
        Json::Object(m) => {
            &&& m@.len() == 2
            &&& names(m@, 0, "description"@) && is_text(m@[0].1, c.description)
            &&& names(m@, 1, "icon"@) && is_text(m@[1].1, c.icon)
        },
        _ => false,
    }
}

/// Whether `j` is exactly the JSON array written for the conditions `cs`.
pub open spec fn conditions_doc(j: Json, cs: Seq<WeatherCondition>) -> bool {
    match j {
        Json::Array(items) => {
            &&& items@.len() == cs.len()
            &&& forall|i: int| 0 <= i < cs.len() ==> condition_doc(#[trigger] items@[i], cs[i])
        },
        _ => false,
    }
}

/// Whether `j` is exactly the JSON object written for the readings `r`:
/// `temp`, `feels_like` and `humidity`, in that order.
pub open spec fn main_doc(j: Json, r: OpenWeatherMain) -> bool {
    match j {
        Json::Object(m) => {
            &&& m@.len() == 3
            &&& names(m@, 0, "temp"@) && m@[0].1 == Json::Number(r.temp)
            &&& names(m@, 1, "feels_like"@) && m@[1].1 == Json::Number(r.feels_like)
            &&& names(m@, 2, "humidity"@) && is_integer(m@[2].1, r.humidity as int)
        },
        _ => false,
    }
}

/// Whether `j` is exactly the JSON object written for the current conditions
/// `c`: `main`, `weather` and `dt`, in that order.
pub open spec fn current_doc(j: Json, c: CurrentView) -> bool {
    match j {
        Json::Object(m) => {
            &&& m@.len() == 3
            &&& names(m@, 0, "main"@) && main_doc(m@[0].1, c.main)
            &&& names(m@, 1, "weather"@) && conditions_doc(m@[1].1, c.weather)
            &&& names(m@, 2, "dt"@) && is_integer(m@[2].1, c.dt as int)
        },
        _ => false,
    }
}

/// Whether `j` is exactly the JSON object written for the hour `h`: `dt`,
/// `temp`, `weather`, `pop` and `clouds` (an object with the one member
/// `all`), in that order.
pub open spec fn hour_doc(j: Json, h: HourView) -> bool {
    match j {
        Json::Object(m) => {
            &&& m@.len() == 5
            &&& names(m@, 0, "dt"@) && is_integer(m@[0].1, h.dt as int)
            &&& names(m@, 1, "temp"@) && m@[1].1 == Json::Number(h.temp)
            &&& names(m@, 2, "weather"@) && conditions_doc(m@[2].1, h.weather)
            &&& names(m@, 3, "pop"@) && m@[3].1 == Json::Number(h.pop)
            &&& names(m@, 4, "clouds"@) && match m@[4].1 {
                Json::Object(c) => {
                    &&& c@.len() == 1
                    &&& names(c@, 0, "all"@) && is_integer(c@[0].1, h.clouds.all as int)
                },
                _ => false,
            }
        },
        _ => false,
    }
}

/// Whether `j` is exactly the JSON document written for the answer `v`:
/// `current` and `hourly`, in that order, the hours in their order.
pub open spec fn one_call_doc(j: Json, v: OneCallView) -> bool {
    match j {
        Json::Object(m) => {
            &&& m@.len() == 2
            &&& names(m@, 0, "current"@) && current_doc(m@[0].1, v.current)
            &&& names(m@, 1, "hourly"@) && match m@[1].1 {
                Json::Array(items) => {
                    &&& items@.len() == v.hourly.len()
                    &&& forall|i: int|
                        0 <= i < v.hourly.len() ==> hour_doc(#[trigger] items@[i], v.hourly[i])
                },
                _ => false,
            }
        },
        _ => false,
    }
}

/// Reads `j` as a weather condition.
fn decode_condition(j: &Json) -> (r: Result<OpenWeatherWeather, String>)
    ensures
        r matches Ok(w) ==> condition_of(*j) == Ok::<WeatherCondition, Seq<char>>(w@),
        r matches Err(e) ==> condition_of(*j) == Err::<WeatherCondition, Seq<char>>(e@),
{
    let description = match read_text_field(j, "description") {
        Ok(d) => d,
        Err(e) => return Err(e),
    };
    let icon = match read_text_field(j, "icon") {
        Ok(i) => i,
        Err(e) => return Err(e),
    };
    Ok(OpenWeatherWeather { description, icon })
}

/// Reads the member `key` of `j` as a list of weather conditions.
fn decode_conditions_field(j: &Json, key: &str) -> (r: Result<Vec<OpenWeatherWeather>, String>)
    ensures
        r matches Ok(v) ==> conditions_field(*j, key@) == Ok::<
            Seq<WeatherCondition>,
            Seq<char>,
        >(conditions_view(v@)),
        r matches Err(e) ==> conditions_field(*j, key@) == Err::<
            Seq<WeatherCondition>,
            Seq<char>,
        >(e@),
{
    let items = match read_array_field(j, key) {
        Ok(items) => items,
        Err(e) => return Err(e),
    };
    let mut out: Vec<OpenWeatherWeather> = Vec::new();
    let mut i: usize = 0;
    while i < items.len()
        invariant
            i <= items@.len(),
            out@.len() == i,
            conditions_field(*j, key@) == conditions_in(items@),
            forall|k: int|
                0 <= k < i ==> condition_of(items@[k]) == Ok::<WeatherCondition, Seq<char>>(
                    out@[k]@,
                ),
        decreases items@.len() - i,
    {
        match decode_condition(&items[i]) {
            Ok(w) => out.push(w),
            Err(e) => {
                proof {
                    assert(first_bad_condition(items@, i as int));
                    let w = choose|w: int| first_bad_condition(items@, w);
                    assert(w == i as int);
                }
                return Err(e);
            },
        }
        i = i + 1;
    }
    proof {
        assert forall|w: int| !first_bad_condition(items@, w) by {
            if 0 <= w < items@.len() {
                assert(condition_of(items@[w]) is Ok);
            }
        }
    }
    assert(conditions_view(out@) =~= Seq::new(
        items@.len(),
        |k: int| condition_of(items@[k])->Ok_0,
    ));
    Ok(out)
}

/// Reads `j` as the main readings.
fn decode_main(j: &Json) -> (r: Result<OpenWeatherMain, String>)
    ensures
        r matches Ok(m) ==> main_of(*j) == Ok::<OpenWeatherMain, Seq<char>>(m),
        r matches Err(e) ==> main_of(*j) == Err::<OpenWeatherMain, Seq<char>>(e@),
{
    let temp = match read_number_field(j, "temp") {
        Ok(n) => n,
        Err(e) => return Err(e),
    };
    let feels_like = match read_number_field(j, "feels_like") {
        Ok(n) => n,
        Err(e) => return Err(e),
    };
    let humidity = match read_i32_field(j, "humidity") {
        Ok(h) => h,
        Err(e) => return Err(e),
    };
    Ok(OpenWeatherMain { temp, feels_like, humidity })
}

/// Reads `j` as the current conditions.
fn decode_current(j: &Json) -> (r: Result<OpenWeatherCurrent, String>)
    ensures
        r matches Ok(c) ==> current_of(*j) == Ok::<CurrentView, Seq<char>>(c@),
        r matches Err(e) ==> current_of(*j) == Err::<CurrentView, Seq<char>>(e@),
{
    let m = match find(j, "main") {
        Ok(m) => m,
        Err(e) => return Err(e),
    };
    let main = match decode_main(m) {
        Ok(main) => main,
        Err(e) => return Err(e),
    };
    let weather = match decode_conditions_field(j, "weather") {
        Ok(w) => w,
        Err(e) => return Err(e),
    };
    let dt = match read_i64_field(j, "dt") {
        Ok(dt) => dt,
        Err(e) => return Err(e),
    };
    Ok(OpenWeatherCurrent { main, weather, dt })
}

/// Reads `j` as cloud cover.
fn decode_clouds(j: &Json) -> (r: Result<OpenWeatherClouds, String>)
    ensures
        r matches Ok(c) ==> clouds_of(*j) == Ok::<OpenWeatherClouds, Seq<char>>(c),
        r matches Err(e) ==> clouds_of(*j) == Err::<OpenWeatherClouds, Seq<char>>(e@),
{
    match read_i32_field(j, "all") {
        Ok(all) => Ok(OpenWeatherClouds { all }),
        Err(e) => Err(e),
    }
}

/// Reads `j` as one hour of the forecast.
fn decode_hour(j: &Json) -> (r: Result<OpenWeatherHourlyForecast, String>)
    ensures
        r matches Ok(h) ==> hour_of(*j) == Ok::<HourView, Seq<char>>(h@),
        r matches Err(e) ==> hour_of(*j) == Err::<HourView, Seq<char>>(e@),
{
    let dt = match read_i64_field(j, "dt") {
        Ok(dt) => dt,
        Err(e) => return Err(e),
    };
    let temp = match read_number_field(j, "temp") {
        Ok(n) => n,
        Err(e) => return Err(e),
    };
    let weather = match decode_conditions_field(j, "weather") {
        Ok(w) => w,
        Err(e) => return Err(e),
    };
    let pop = match read_number_field(j, "pop") {
        Ok(n) => n,
        Err(e) => return Err(e),
    };
    let c = match find(j, "clouds") {
        Ok(c) => c,
        Err(e) => return Err(e),
    };
    let clouds = match decode_clouds(c) {
        Ok(c) => c,
        Err(e) => return Err(e),
    };
    Ok(OpenWeatherHourlyForecast { dt, temp, weather, pop, clouds })
}

/// Reads `items` as hours of the forecast.
fn decode_hours(items: &Vec<Json>) -> (r: Result<Vec<OpenWeatherHourlyForecast>, String>)
    ensures
        r matches Ok(v) ==> hours_in(items@) == Ok::<Seq<HourView>, Seq<char>>(
            v@.map_values(|h: OpenWeatherHourlyForecast| h@),
        ),
        r matches Err(e) ==> hours_in(items@) == Err::<Seq<HourView>, Seq<char>>(e@),
{
    let mut out: Vec<OpenWeatherHourlyForecast> = Vec::new();
    let mut i: usize = 0;
    while i < items.len()
        invariant
            i <= items@.len(),
            out@.len() == i,
            forall|k: int|
                0 <= k < i ==> hour_of(items@[k]) == Ok::<HourView, Seq<char>>(out@[k]@),
        decreases items@.len() - i,
    {
        match decode_hour(&items[i]) {
            Ok(h) => out.push(h),
            Err(e) => {
                proof {
                    assert(first_bad_hour(items@, i as int));
                    let w = choose|w: int| first_bad_hour(items@, w);
                    assert(w == i as int);
                }
                return Err(e);
            },
        }
        i = i + 1;
    }
    proof {
        assert forall|w: int| !first_bad_hour(items@, w) by {
            if 0 <= w < items@.len() {
                assert(hour_of(items@[w]) is Ok);
            }
        }
    }
    assert(out@.map_values(|h: OpenWeatherHourlyForecast| h@) =~= Seq::new(
        items@.len(),
        |k: int| hour_of(items@[k])->Ok_0,
    ));
    Ok(out)
}

impl OpenWeatherOneCallResponse {
    /// Reads a decoded JSON document as the weather service's answer. On
    /// failure the message names the first member, in the order of the
    /// answer's fields, that is missing or of the wrong kind.
    pub fn from_json(j: &Json) -> (r: Result<OpenWeatherOneCallResponse, String>)
        ensures
            r matches Ok(w) ==> one_call_of(*j) == Ok::<OneCallView, Seq<char>>(w@),
            r matches Err(e) ==> one_call_of(*j) == Err::<OneCallView, Seq<char>>(e@),
    {
        let c = match find(j, "current") {
            Ok(c) => c,
            Err(e) => return Err(e),
        };
        let current = match decode_current(c) {
            Ok(current) => current,
            Err(e) => return Err(e),
        };
        let items = match read_array_field(j, "hourly") {
            Ok(items) => items,
            Err(e) => return Err(e),
        };
        let hourly = match decode_hours(items) {
            Ok(hourly) => hourly,
            Err(e) => return Err(e),
        };
        Ok(OpenWeatherOneCallResponse { current, hourly })
    }
}

impl OpenWeatherWeather {
    /// The JSON object of this condition; reading it back gives the condition.
    pub fn to_json(&self) -> (r: Json)
        ensures
            condition_doc(r, self@),
            condition_of(r) == Ok::<WeatherCondition, Seq<char>>(self@),
    {
        let members = vec![
            ("description".to_owned(), Json::Str(self.description.clone())),
            ("icon".to_owned(), Json::Str(self.icon.clone())),
        ];
        proof {
            reveal_strlit("description");
            reveal_strlit("icon");
            lemma_member_at(members@, "description"@, 0);
            assert(members@[0].0@.len() != "icon"@.len());
            lemma_member_at(members@, "icon"@, 1);
        }
        Json::Object(members)
    }
}

/// The JSON array of a list of conditions.
fn conditions_json(v: &Vec<OpenWeatherWeather>) -> (r: Vec<Json>)
    ensures
        r@.len() == v@.len(),
        forall|k: int| 0 <= k < v@.len() ==> condition_doc(#[trigger] r@[k], v@[k]@),
        conditions_in(r@) == Ok::<Seq<WeatherCondition>, Seq<char>>(conditions_view(v@)),
{
    let mut out: Vec<Json> = Vec::new();
    let mut i: usize = 0;
    while i < v.len()
        invariant
            i <= v@.len(),
            out@.len() == i,
            forall|k: int| 0 <= k < i ==> condition_of(out@[k]) == Ok::<WeatherCondition, Seq<char>>(v@[k]@),
            forall|k: int| 0 <= k < i ==> condition_doc(#[trigger] out@[k], v@[k]@),
        decreases v@.len() - i,
    {
        out.push(v[i].to_json());
        i = i + 1;
    }
    assert(conditions_view(v@) =~= Seq::new(
        out@.len(),
        |k: int| condition_of(out@[k])->Ok_0,
    ));
    out
}

impl OpenWeatherMain {
    /// The JSON object of these readings; reading it back gives them.
    pub fn to_json(&self) -> (r: Json)
        ensures
            main_doc(r, *self),
            main_of(r) == Ok::<OpenWeatherMain, Seq<char>>(*self),
    {
        let members = vec![
            ("temp".to_owned(), Json::Number(self.temp)),
            ("feels_like".to_owned(), Json::Number(self.feels_like)),
            ("humidity".to_owned(), int_json(self.humidity as i64)),
        ];
        proof {
            reveal_strlit("temp");
            reveal_strlit("feels_like");
            reveal_strlit("humidity");
            lemma_member_at(members@, "temp"@, 0);
            assert(members@[0].0@.len() != "feels_like"@.len());
            lemma_member_at(members@, "feels_like"@, 1);
            assert(members@[0].0@.len() != "humidity"@.len());
            assert(members@[1].0@.len() != "humidity"@.len());
            lemma_member_at(members@, "humidity"@, 2);
        }
        Json::Object(members)
    }
}

impl OpenWeatherCurrent {
    /// The JSON object of the current conditions; reading it back gives them.
    pub fn to_json(&self) -> (r: Json)
        ensures
            current_doc(r, self@),
            current_of(r) == Ok::<CurrentView, Seq<char>>(self@),
    {
        let members = vec![
            ("main".to_owned(), self.main.to_json()),
            ("weather".to_owned(), Json::Array(conditions_json(&self.weather))),
            ("dt".to_owned(), int_json(self.dt)),
        ];
        proof {
            reveal_strlit("main");
            reveal_strlit("weather");
            reveal_strlit("dt");
            lemma_member_at(members@, "main"@, 0);
            assert(members@[0].0@.len() != "weather"@.len());
            lemma_member_at(members@, "weather"@, 1);
            assert(members@[0].0@.len() != "dt"@.len());
            assert(members@[1].0@.len() != "dt"@.len());
            lemma_member_at(members@, "dt"@, 2);
        }
        Json::Object(members)
    }
}

impl OpenWeatherHourlyForecast {
    /// The JSON object of this hour; reading it back gives the hour.
    pub fn to_json(&self) -> (r: Json)
        ensures
            hour_doc(r, self@),
            hour_of(r) == Ok::<HourView, Seq<char>>(self@),
    {
        let clouds = vec![("all".to_owned(), int_json(self.clouds.all as i64))];
        proof {
            reveal_strlit("all");
            lemma_member_at(clouds@, "all"@, 0);
        }
        let members = vec![
            ("dt".to_owned(), int_json(self.dt)),
            ("temp".to_owned(), Json::Number(self.temp)),
            ("weather".to_owned(), Json::Array(conditions_json(&self.weather))),
            ("pop".to_owned(), Json::Number(self.pop)),
            ("clouds".to_owned(), Json::Object(clouds)),
        ];
        proof {
            reveal_strlit("dt");
            reveal_strlit("temp");
            reveal_strlit("weather");
            reveal_strlit("pop");
            reveal_strlit("clouds");
            lemma_member_at(members@, "dt"@, 0);
            assert(members@[0].0@.len() != "temp"@.len());
            lemma_member_at(members@, "temp"@, 1);
            assert(members@[0].0@.len() != "weather"@.len());
            assert(members@[1].0@.len() != "weather"@.len());
            lemma_member_at(members@, "weather"@, 2);
            assert(members@[0].0@.len() != "pop"@.len());
            assert(members@[1].0@.len() != "pop"@.len());
            assert(members@[2].0@.len() != "pop"@.len());
            lemma_member_at(members@, "pop"@, 3);
            assert(members@[0].0@.len() != "clouds"@.len());
            assert(members@[1].0@.len() != "clouds"@.len());
            assert(members@[2].0@.len() != "clouds"@.len());
            assert(members@[3].0@.len() != "clouds"@.len());
            lemma_member_at(members@, "clouds"@, 4);
        }
        Json::Object(members)
    }
}

impl OpenWeatherOneCallResponse {
    /// The JSON document of the whole answer. Reading it back with
    /// `from_json` gives every field back unchanged, the hours in their order.
    pub fn to_json(&self) -> (r: Json)
        ensures
            one_call_doc(r, self@),
            one_call_of(r) == Ok::<OneCallView, Seq<char>>(self@),
    {
        let mut hours: Vec<Json> = Vec::new();
        let mut i: usize = 0;
        while i < self.hourly.len()
            invariant
                i <= self.hourly@.len(),
                hours@.len() == i,
                forall|k: int| 0 <= k < i ==> hour_of(hours@[k]) == Ok::<HourView, Seq<char>>(self.hourly@[k]@),
                forall|k: int| 0 <= k < i ==> hour_doc(#[trigger] hours@[k], self.hourly@[k]@),
            decreases self.hourly@.len() - i,
        {
            hours.push(self.hourly[i].to_json());
            i = i + 1;
        }
        assert(self.hourly@.map_values(|h: OpenWeatherHourlyForecast| h@) =~= Seq::new(
            hours@.len(),
            |k: int| hour_of(hours@[k])->Ok_0,
        ));
        let members = vec![
            ("current".to_owned(), self.current.to_json()),
            ("hourly".to_owned(), Json::Array(hours)),
        ];
        proof {
            reveal_strlit("current");
            reveal_strlit("hourly");
            lemma_member_at(members@, "current"@, 0);
            assert(members@[0].0@.len() != "hourly"@.len());
            lemma_member_at(members@, "hourly"@, 1);
        }
        Json::Object(members)
    }
}

/// Reading a document of the expected shape keeps its fields exactly: the
/// current temperature and humidity are the document's numbers, and there is
/// one forecast hour per item of `hourly`, in the same order, each with the
/// item's time, temperature and precipitation probability.
pub proof fn lemma_one_call_fields(j: Json)
    requires
        one_call_of(j) is Ok,
    ensures
        ({
            let v = one_call_of(j)->Ok_0;
            let c = lookup(j, "current"@)->Ok_0;
            let m = lookup(c, "main"@)->Ok_0;
            let items = array_field(j, "hourly"@)->Ok_0;
            &&& number_field(m, "temp"@) == Ok::<JsonNumber, Seq<char>>(v.current.main.temp)
            &&& i32_field(m, "humidity"@) == Ok::<i32, Seq<char>>(v.current.main.humidity)
            &&& i64_field(c, "dt"@) == Ok::<i64, Seq<char>>(v.current.dt)
            &&& v.hourly.len() == items.len()
            &&& forall|i: int|
                0 <= i < items.len() ==> {
                    &&& i64_field(items[i], "dt"@) == Ok::<i64, Seq<char>>(
                        #[trigger] v.hourly[i].dt,
                    )
                    &&& number_field(items[i], "temp"@) == Ok::<JsonNumber, Seq<char>>(
                        v.hourly[i].temp,
                    )
                    &&& number_field(items[i], "pop"@) == Ok::<JsonNumber, Seq<char>>(
                        v.hourly[i].pop,
                    )
                }
        }),
{
    let items = array_field(j, "hourly"@)->Ok_0;
    assert(!exists|i: int| first_bad_hour(items, i));
    assert forall|i: int| 0 <= i < items.len() implies hour_of(items[i]) is Ok by {
        if hour_of(items[i]) is Err {
            assert(exists|w: int| #![auto] 0 <= w <= i && hour_of(items[w]) is Err);
            lemma_first_bad_hour(items, i);
        }
    }
}

/// Where some item is not a forecast hour, there is a first such item.
proof fn lemma_first_bad_hour(items: Seq<Json>, i: int)
    requires
        0 <= i < items.len(),
        hour_of(items[i]) is Err,
    ensures
        exists|w: int| first_bad_hour(items, w),
    decreases i,
{
    if forall|k: int| 0 <= k < i ==> (#[trigger] hour_of(items[k])) is Ok {
        assert(first_bad_hour(items, i));
    } else {
        let k = choose|k: int| 0 <= k < i && (#[trigger] hour_of(items[k])) is Err;
        lemma_first_bad_hour(items, k);
    }
}

} // verus!
