use rust_data_collector::collector::{openweather_from_response, CollectorError};
use rust_data_collector::json::{get_field, int_json, read_i32, read_i64, Json, JsonNumber};
use rust_data_collector::weather::{
    OpenWeatherClouds, OpenWeatherCurrent, OpenWeatherHourlyForecast, OpenWeatherMain,
    OpenWeatherOneCallResponse, OpenWeatherWeather,
};

fn text(s: &str) -> Json {
    Json::Str(s.to_string())
}

fn float(x: f64) -> Json {
    Json::Number(JsonNumber::Float(x.to_bits()))
}

fn integer(i: i64) -> Json {
    int_json(i)
}

fn obj(members: Vec<(&str, Json)>) -> Json {
    Json::Object(members.into_iter().map(|(k, v)| (k.to_string(), v)).collect())
}

fn condition(description: &str, icon: &str) -> Json {
    obj(vec![("description", text(description)), ("icon", text(icon))])
}

fn hour(dt: i64, temp: f64, pop: f64, clouds: i64) -> Json {
    obj(vec![
        ("dt", integer(dt)),
        ("temp", float(temp)),
        ("feels_like", float(temp - 1.0)),
        ("weather", Json::Array(vec![condition("few clouds", "02d")])),
        ("pop", float(pop)),
        ("clouds", obj(vec![("all", integer(clouds))])),
        ("wind_speed", float(3.5)),
    ])
}

fn current(with_main: bool) -> Json {
    let mut members = vec![
        ("dt", integer(1_700_000_000)),
        ("weather", Json::Array(vec![condition("clear sky", "01d"), condition("mist", "50d")])),
        ("visibility", integer(10_000)),
    ];
    if with_main {
        members.push((
            "main",
            obj(vec![("temp", float(21.5)), ("feels_like", float(20.25)), ("humidity", integer(63))]),
        ));
    }
    obj(members)
}

fn document(with_main: bool) -> Json {
    obj(vec![
        ("lat", float(52.52)),
        ("current", current(with_main)),
        (
            "hourly",
            Json::Array(vec![
                hour(1_700_000_000, 21.0, 0.0, 10),
                hour(1_700_003_600, 19.5, 0.35, 75),
                hour(1_700_007_200, 18.0, 1.0, 100),
            ]),
        ),
    ])
}

fn bits(x: f64) -> JsonNumber {
    JsonNumber::Float(x.to_bits())
}

fn check_document(w: &OpenWeatherOneCallResponse) {
    assert_eq!(w.current.dt, 1_700_000_000);
    assert_eq!(w.current.main.temp, bits(21.5));
    assert_eq!(w.current.main.feels_like, bits(20.25));
    assert_eq!(w.current.main.humidity, 63);
    assert_eq!(w.current.weather.len(), 2);
    assert_eq!(w.current.weather[0].description, "clear sky");
    assert_eq!(w.current.weather[0].icon, "01d");
    assert_eq!(w.current.weather[1].description, "mist");
    assert_eq!(w.current.weather[1].icon, "50d");
    assert_eq!(w.hourly.len(), 3);
    let dts: Vec<i64> = w.hourly.iter().map(|h| h.dt).collect();
    assert_eq!(dts, vec![1_700_000_000, 1_700_003_600, 1_700_007_200]);
    assert_eq!(w.hourly[1].temp, bits(19.5));
    assert_eq!(w.hourly[1].pop, bits(0.35));
    assert_eq!(w.hourly[1].clouds, OpenWeatherClouds { all: 75 });
    assert_eq!(w.hourly[2].weather[0].description, "few clouds");
}

#[test]
fn weather_document_is_read_field_by_field() {
    let w = OpenWeatherOneCallResponse::from_json(&document(true)).expect("well-formed");
    check_document(&w);
}

#[test]
fn weather_document_round_trips() {
    let w = OpenWeatherOneCallResponse::from_json(&document(true)).expect("well-formed");
    let again = OpenWeatherOneCallResponse::from_json(&w.to_json()).expect("own output");
    check_document(&again);
}

#[test]
fn weather_built_by_hand_round_trips() {
    let w = OpenWeatherOneCallResponse {
        current: OpenWeatherCurrent {
            main: OpenWeatherMain {
                temp: JsonNumber::NegInt(-3),
                feels_like: bits(-7.5),
                humidity: 91,
            },
            weather: vec![],
            dt: -5,
        },
        hourly: vec![OpenWeatherHourlyForecast {
            dt: 0,
            temp: JsonNumber::PosInt(4),
            weather: vec![OpenWeatherWeather {
                description: "snow".to_string(),
                icon: "13n".to_string(),
            }],
            pop: JsonNumber::PosInt(1),
            clouds: OpenWeatherClouds { all: 100 },
        }],
    };
    let back = OpenWeatherOneCallResponse::from_json(&w.to_json()).expect("own output");
    assert_eq!(back.current.main, w.current.main);
    assert_eq!(back.current.dt, -5);
    assert!(back.current.weather.is_empty());
    assert_eq!(back.hourly.len(), 1);
    assert_eq!(back.hourly[0].temp, JsonNumber::PosInt(4));
    assert_eq!(back.hourly[0].weather[0].icon, "13n");
}

#[test]
fn weather_without_main_is_a_parse_error_with_the_body() {
    assert_eq!(
        OpenWeatherOneCallResponse::from_json(&document(false)).unwrap_err(),
        "missing field `main`"
    );
    let body = "{\"current\":{\"weather\":[],\"dt\":1},\"hourly\":[]}".to_string();
    let parsed = obj(vec![
        ("current", obj(vec![("weather", Json::Array(vec![])), ("dt", integer(1))])),
        ("hourly", Json::Array(vec![])),
    ]);
    match openweather_from_response(200, body.clone(), Ok(parsed)) {
        Err(CollectorError::UpstreamParse { body: b, cause }) => {
            assert_eq!(b, body);
            assert_eq!(cause, "missing field `main`");
        },
        other => panic!("unexpected {:?}", other),
    }
}

#[test]
fn weather_error_status_carries_status_and_body() {
    match openweather_from_response(401, "invalid key".to_string(), Ok(document(true))) {
        Err(CollectorError::UpstreamHttp { status, body }) => {
            assert_eq!(status, 401);
            assert_eq!(body, "invalid key");
        },
        other => panic!("unexpected {:?}", other),
    }
}

#[test]
fn weather_unparsable_body_keeps_the_cause() {
    match openweather_from_response(200, "<html>".to_string(), Err("expected value".to_string())) {
        Err(CollectorError::UpstreamParse { body, cause }) => {
            assert_eq!(body, "<html>");
            assert_eq!(cause, "expected value");
        },
        other => panic!("unexpected {:?}", other),
    }
}

#[test]
fn weather_success_status_gives_the_answer() {
    let w = openweather_from_response(200, "{}".to_string(), Ok(document(true))).expect("ok");
    check_document(&w);
}

#[test]
fn mistyped_fields_are_rejected() {
    let mut bad_humidity = document(true);
    if let Json::Object(members) = &mut bad_humidity {
        members[1].1 = obj(vec![
            ("dt", integer(1)),
            ("weather", Json::Array(vec![])),
            ("main", obj(vec![("temp", float(1.0)), ("feels_like", float(1.0)), ("humidity", float(50.0))])),
        ]);
    }
    assert!(OpenWeatherOneCallResponse::from_json(&bad_humidity).is_err());
    let too_large = obj(vec![("current", current(true)), ("hourly", Json::Array(vec![hour(1, 1.0, 0.0, 3_000_000_000)]))]);
    assert!(OpenWeatherOneCallResponse::from_json(&too_large).is_err());
    let not_a_list = obj(vec![("current", current(true)), ("hourly", text("none"))]);
    assert!(OpenWeatherOneCallResponse::from_json(&not_a_list).is_err());
}

#[test]
fn integers_are_read_within_their_range() {
    assert_eq!(read_i64(&Json::Number(JsonNumber::PosInt(u64::MAX))), None);
    assert_eq!(read_i64(&Json::Number(JsonNumber::PosInt(7))), Some(7));
    assert_eq!(read_i64(&Json::Number(JsonNumber::NegInt(-7))), Some(-7));
    assert_eq!(read_i64(&float(7.0)), None);
    assert_eq!(read_i32(&integer(i32::MAX as i64 + 1)), None);
    assert_eq!(read_i32(&integer(i32::MIN as i64)), Some(i32::MIN));
}

#[test]
fn first_member_of_a_name_is_found() {
    let j = obj(vec![("a", integer(1)), ("b", integer(2)), ("a", integer(3))]);
    assert_eq!(read_i64(get_field(&j, "a").unwrap()), Some(1));
    assert_eq!(read_i64(get_field(&j, "b").unwrap()), Some(2));
    assert!(get_field(&j, "c").is_none());
    assert!(get_field(&integer(1), "a").is_none());
}

#[test]
fn decode_errors_name_the_member_at_fault() {
    let err = |j: Json| OpenWeatherOneCallResponse::from_json(&j).unwrap_err();
    assert_eq!(err(obj(vec![])), "missing field `current`");
    assert_eq!(err(Json::Array(vec![])), "invalid type: expected a JSON object");
    assert_eq!(err(obj(vec![("current", current(true))])), "missing field `hourly`");
    assert_eq!(
        err(obj(vec![("current", current(true)), ("hourly", text("x"))])),
        "invalid type for field `hourly`"
    );
    let mut second_hour_bad = hour(2, 1.0, 0.0, 5);
    if let Json::Object(members) = &mut second_hour_bad {
        members.retain(|(k, _)| k != "clouds");
    }
    let mut third_hour_bad = hour(3, 1.0, 0.0, 5);
    if let Json::Object(members) = &mut third_hour_bad {
        members.retain(|(k, _)| k != "pop");
    }
    assert_eq!(
        err(obj(vec![
            ("current", current(true)),
            ("hourly", Json::Array(vec![hour(1, 1.0, 0.0, 5), second_hour_bad, third_hour_bad])),
        ])),
        "missing field `clouds`"
    );
    let bad_icon = obj(vec![("description", text("d")), ("icon", integer(1))]);
    assert_eq!(
        err(obj(vec![
            ("current", obj(vec![
                ("main", obj(vec![("temp", float(1.0)), ("feels_like", float(1.0)), ("humidity", integer(1))])),
                ("weather", Json::Array(vec![bad_icon])),
                ("dt", integer(1)),
            ])),
            ("hourly", Json::Array(vec![])),
        ])),
        "invalid type for field `icon`"
    );
}
