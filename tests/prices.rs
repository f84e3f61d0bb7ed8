use rust_data_collector::collector::{
    check_status, is_success, openweather_url, price_window, resolve_api_key, smard_from_response,
    CollectorError, PriceSource, PRICE_WINDOW_MS,
};
use rust_data_collector::json::{int_json, Json, JsonNumber};
use rust_data_collector::prices::{SmardApiResponse, SmardDataPoint};

fn point(timestamp: i64, price: f64) -> SmardDataPoint {
    SmardDataPoint { timestamp, value: JsonNumber::Float(price.to_bits()) }
}

fn price_document(points: &[(i64, f64)]) -> Json {
    let items = points
        .iter()
        .map(|(t, v)| {
            Json::Object(vec![
                ("timestamp".to_string(), int_json(*t)),
                ("value".to_string(), Json::Number(JsonNumber::Float(v.to_bits()))),
            ])
        })
        .collect();
    Json::Object(vec![("data".to_string(), Json::Array(items))])
}

fn stamps(r: &SmardApiResponse) -> Vec<i64> {
    r.data.iter().map(|p| p.timestamp).collect()
}

#[test]
fn window_keeps_in_range_points_in_order() {
    let all = SmardApiResponse {
        data: vec![
            point(500, 1.0),
            point(1000, 2.0),
            point(1500, 3.0),
            point(900, 4.0),
            point(2000, 5.0),
            point(2001, 6.0),
            point(1200, 7.0),
        ],
    };
    let kept = all.within(1000, 2000);
    assert_eq!(stamps(&kept), vec![1000, 1500, 2000, 1200]);
    assert_eq!(kept.data[3], point(1200, 7.0));
}

#[test]
fn window_of_one_instant() {
    let t = 1_700_000_000_000;
    let all = SmardApiResponse { data: vec![point(t - 1, 1.0), point(t, 2.0), point(t + 1, 3.0)] };
    let kept = all.within(t, t);
    assert_eq!(kept.data, vec![point(t, 2.0)]);
}

#[test]
fn window_of_empty_list_is_empty() {
    let all = SmardApiResponse { data: vec![] };
    assert!(all.within(i64::MIN, i64::MAX).data.is_empty());
}

#[test]
fn price_document_is_read_and_cut_to_the_window() {
    let doc = price_document(&[(100, -0.01), (200, 55.5), (300, 60.0)]);
    let r = smard_from_response(200, "{}".to_string(), Ok(doc), 150, 300).expect("ok");
    assert_eq!(r.data, vec![point(200, 55.5), point(300, 60.0)]);
}

#[test]
fn price_document_round_trips() {
    let all = SmardApiResponse { data: vec![point(1, 1.5), point(-2, 0.0)] };
    let back = SmardApiResponse::from_json(&all.to_json()).expect("own output");
    assert_eq!(back.data, all.data);
}

#[test]
fn price_null_value_is_a_parse_error() {
    let doc = Json::Object(vec![(
        "data".to_string(),
        Json::Array(vec![Json::Object(vec![
            ("timestamp".to_string(), int_json(1)),
            ("value".to_string(), Json::Null),
        ])]),
    )]);
    assert_eq!(SmardApiResponse::from_json(&doc).unwrap_err(), "invalid type for field `value`");
    match smard_from_response(200, "body".to_string(), Ok(doc), 0, 10) {
        Err(CollectorError::UpstreamParse { body, cause }) => {
            assert_eq!(body, "body");
            assert_eq!(cause, "invalid type for field `value`");
        },
        other => panic!("unexpected {:?}", other),
    }
}

#[test]
fn price_error_status_carries_status_and_body() {
    let doc = price_document(&[(1, 1.0)]);
    match smard_from_response(503, "busy".to_string(), Ok(doc), 0, 10) {
        Err(CollectorError::UpstreamHttp { status, body }) => {
            assert_eq!(status, 503);
            assert_eq!(body, "busy");
        },
        other => panic!("unexpected {:?}", other),
    }
}

#[test]
fn success_statuses() {
    assert!(!is_success(199));
    assert!(is_success(200));
    assert!(is_success(299));
    assert!(!is_success(300));
    assert!(!is_success(404));
    assert_eq!(check_status(204, "x".to_string()).unwrap(), "x");
    assert!(matches!(
        check_status(500, "x".to_string()),
        Err(CollectorError::UpstreamHttp { status: 500, .. })
    ));
}

#[test]
fn api_key_must_be_present_and_non_empty() {
    assert_eq!(resolve_api_key(Some("k3y".to_string())).unwrap(), "k3y");
    for missing in [None, Some(String::new())] {
        match resolve_api_key(missing) {
            Err(CollectorError::Configuration { message }) => {
                assert_eq!(message, "OPENWEATHER_API_KEY not set")
            },
            other => panic!("unexpected {:?}", other),
        }
    }
}

#[test]
fn price_window_is_the_last_48_hours() {
    assert_eq!(PRICE_WINDOW_MS, 172_800_000);
    assert_eq!(price_window(1_700_000_000_000), (1_699_827_200_000, 1_700_000_000_000));
}

#[test]
fn request_addresses() {
    assert_eq!(
        openweather_url("52.52", "13.405", "abc"),
        "https://api.openweathermap.org/data/3.0/onecall?lat=52.52&lon=13.405&exclude=minutely,daily,alerts&appid=abc&units=metric"
    );
    assert_eq!(
        PriceSource::day_ahead_germany().url(),
        "https://www.smard.de/app/chart_data/1001/DE/index_hour.json"
    );
    let other = PriceSource {
        base_url: "http://x".to_string(),
        filter: "4169".to_string(),
        region: "AT".to_string(),
        resolution: "quarterhour".to_string(),
    };
    assert_eq!(other.url(), "http://x/4169/AT/index_quarterhour.json");
}

#[test]
fn price_document_has_exactly_the_written_members() {
    let doc = SmardApiResponse { data: vec![point(-5, 2.5)] }.to_json();
    let Json::Object(top) = doc else { panic!("not an object") };
    assert_eq!(top.len(), 1);
    assert_eq!(top[0].0, "data");
    let Json::Array(items) = &top[0].1 else { panic!("not an array") };
    assert_eq!(items.len(), 1);
    let Json::Object(members) = &items[0] else { panic!("not an object") };
    let keys: Vec<&str> = members.iter().map(|(k, _)| k.as_str()).collect();
    assert_eq!(keys, vec!["timestamp", "value"]);
    assert!(matches!(members[0].1, Json::Number(JsonNumber::NegInt(-5))));
    assert!(matches!(members[1].1, Json::Number(JsonNumber::Float(b)) if b == 2.5f64.to_bits()));
}
