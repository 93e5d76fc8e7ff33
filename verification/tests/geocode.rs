use qr_generator::geocode::coordinate;
use qr_generator::geocode::extract_coordinates;
use qr_generator::geocode::geocode_url;
use qr_generator::geocode::get_coordinates;
use qr_generator::geocode::MyError;
use qr_generator::geocode::LATITUDE_MISSING;
use qr_generator::geocode::LONGITUDE_MISSING;
use qr_generator::json::Json;
use serde_json::Value;

fn from_value(value: &Value) -> Json {
    match value {
        Value::Null => Json::Null,
        Value::Bool(b) => Json::Bool(*b),
        Value::Number(n) => match n.as_f64() {
            Some(x) => Json::Number(format!("{}", x)),
            None => Json::Null,
        },
        Value::String(s) => Json::Text(s.clone()),
        Value::Array(items) => Json::Array(items.iter().map(from_value).collect()),
        Value::Object(members) => {
            Json::Object(members.iter().map(|(k, v)| (k.clone(), from_value(v))).collect())
        }
    }
}

fn parse(body: &str) -> Json {
    from_value(&serde_json::from_str::<Value>(body).unwrap())
}

fn object(members: Vec<(&str, Json)>) -> Json {
    Json::Object(members.into_iter().map(|(k, v)| (k.to_string(), v)).collect())
}

fn number(text: &str) -> Json {
    Json::Number(text.to_string())
}

fn reply(location: Json) -> Json {
    object(vec![(
        "results",
        Json::Array(vec![object(vec![("geometry", object(vec![("location", location)]))])]),
    )])
}

fn missing_field(r: Result<qr_generator::geocode::Coordinates, MyError>) -> String {
    match r {
        Err(MyError::MissingField(text)) => text,
        other => panic!("expected a missing field, got {:?}", other),
    }
}

#[test]
fn test_get_coordinates() {
    let api_key = "SECRET";
    assert_eq!(
        geocode_url("test", api_key),
        format!("https://maps.googleapis.com/maps/api/geocode/json?address=test&key={}", api_key)
    );

    let body = r#"{
        "results": [
            {
                "geometry": {
                    "location": {
                        "lat": 40.0,
                        "lng": -100.0
                    }
                }
            }
        ]
    }"#;

    let result = get_coordinates(Ok(parse(body)));

    match result {
        Ok(found) => {
            assert_eq!(found.lat.parse::<f64>().unwrap(), 40.0);
            assert_eq!(found.lng.parse::<f64>().unwrap(), -100.0);
        }
        Err(e) => {
            println!("Debug: Error returned: {:?}", e);
            panic!("get_coordinates returned an error");
        }
    }
}

#[test]
fn coordinates_are_the_numbers_text() {
    let found = get_coordinates(Ok(reply(object(vec![
        ("lat", number("40.7142484")),
        ("lng", number("-73.9614103")),
    ]))))
    .unwrap();
    assert_eq!(found.lat, "40.7142484");
    assert_eq!(found.lng, "-73.9614103");
}

#[test]
fn failed_request_keeps_its_text() {
    match get_coordinates(Err("error sending request".to_string())) {
        Err(MyError::ReqwestError(text)) => assert_eq!(text, "error sending request"),
        other => panic!("expected a request failure, got {:?}", other),
    }
}

#[test]
fn missing_latitude_is_reported_first() {
    assert_eq!(LATITUDE_MISSING, "Latitude is missing or not a float");
    assert_eq!(LONGITUDE_MISSING, "Longitude is missing or not a float");
    assert_eq!(missing_field(get_coordinates(Ok(reply(object(vec![]))))), LATITUDE_MISSING);
    assert_eq!(
        missing_field(get_coordinates(Ok(reply(object(vec![("lng", number("1"))]))))),
        LATITUDE_MISSING
    );
    assert_eq!(
        missing_field(get_coordinates(Ok(reply(object(vec![("lat", number("1"))]))))),
        LONGITUDE_MISSING
    );
}

#[test]
fn coordinate_that_is_no_number_is_missing() {
    let text = reply(object(vec![("lat", Json::Text("40".to_string())), ("lng", number("1"))]));
    assert_eq!(missing_field(extract_coordinates(&text)), LATITUDE_MISSING);
    let null = reply(object(vec![("lat", number("40")), ("lng", Json::Null)]));
    assert_eq!(missing_field(extract_coordinates(&null)), LONGITUDE_MISSING);
    let flag = reply(object(vec![("lat", Json::Bool(true)), ("lng", number("1"))]));
    assert_eq!(missing_field(extract_coordinates(&flag)), LATITUDE_MISSING);
    let list = reply(object(vec![("lat", number("1")), ("lng", Json::Array(vec![number("2")]))]));
    assert_eq!(missing_field(extract_coordinates(&list)), LONGITUDE_MISSING);
}

#[test]
fn reply_without_results_has_no_coordinates() {
    for body in [
        r#"{}"#,
        r#"null"#,
        r#"[]"#,
        r#""text""#,
        r#"{"results": []}"#,
        r#"{"results": null}"#,
        r#"{"results": [], "status": "ZERO_RESULTS"}"#,
        r#"{"results": [{}]}"#,
        r#"{"results": [{"geometry": {}}]}"#,
        r#"{"results": [{"geometry": {"location": []}}]}"#,
        r#"{"results": {"0": {"geometry": {"location": {"lat": 1, "lng": 2}}}}}"#,
        r#"{"results": [[{"geometry": {"location": {"lat": 1, "lng": 2}}}]]}"#,
        r#"{"error_message": "The provided API key is invalid.", "results": [], "status": "REQUEST_DENIED"}"#,
    ] {
        assert_eq!(missing_field(get_coordinates(Ok(parse(body)))), LATITUDE_MISSING, "{}", body);
    }
}

#[test]
fn only_the_first_result_is_read() {
    let body = r#"{"results": [
        {"geometry": {"location": {"lat": 1.5, "lng": 2.5}}},
        {"geometry": {"location": {"lat": 3.5, "lng": 4.5}}}
    ]}"#;
    let found = get_coordinates(Ok(parse(body))).unwrap();
    assert_eq!(found.lat, "1.5");
    assert_eq!(found.lng, "2.5");
    let second_only = r#"{"results": [
        {"geometry": {"location": {}}},
        {"geometry": {"location": {"lat": 3.5, "lng": 4.5}}}
    ]}"#;
    assert_eq!(missing_field(get_coordinates(Ok(parse(second_only)))), LATITUDE_MISSING);
}

#[test]
fn coordinate_follows_the_path() {
    let document = reply(object(vec![("lat", number("12")), ("lng", number("-7.25"))]));
    assert_eq!(coordinate(&document, "lat"), Some(&"12".to_string()));
    assert_eq!(coordinate(&document, "lng"), Some(&"-7.25".to_string()));
    assert_eq!(coordinate(&document, "alt"), None);
    assert_eq!(coordinate(&document, ""), None);
    assert_eq!(coordinate(&Json::Null, "lat"), None);
}

#[test]
fn member_takes_the_first_entry_of_a_name() {
    let twice = object(vec![("a", number("1")), ("b", number("2")), ("a", number("3"))]);
    assert_eq!(twice.member("a").and_then(|v| v.number()), Some(&"1".to_string()));
    assert_eq!(twice.member("b").and_then(|v| v.number()), Some(&"2".to_string()));
    assert!(twice.member("c").is_none());
    assert!(twice.member("").is_none());
    assert!(object(vec![]).member("a").is_none());
    assert!(Json::Array(vec![number("1")]).member("0").is_none());
    assert!(Json::Text("a".to_string()).member("a").is_none());
    assert!(Json::Null.member("a").is_none());
}

#[test]
fn element_is_taken_by_position() {
    let list = Json::Array(vec![number("10"), number("20")]);
    assert_eq!(list.element(0).and_then(|v| v.number()), Some(&"10".to_string()));
    assert_eq!(list.element(1).and_then(|v| v.number()), Some(&"20".to_string()));
    assert!(list.element(2).is_none());
    assert!(list.element(usize::MAX).is_none());
    assert!(Json::Array(vec![]).element(0).is_none());
    assert!(object(vec![("0", number("1"))]).element(0).is_none());
    assert!(Json::Null.element(0).is_none());
}

#[test]
fn number_is_the_text_of_a_number_only() {
    assert_eq!(number("1.25").number(), Some(&"1.25".to_string()));
    assert!(Json::Text("1.25".to_string()).number().is_none());
    assert!(Json::Bool(false).number().is_none());
    assert!(Json::Null.number().is_none());
    assert!(Json::Array(vec![]).number().is_none());
    assert!(object(vec![]).number().is_none());
}

#[test]
fn geocode_url_names_address_and_key() {
    assert_eq!(
        geocode_url("test", "SECRET"),
        "https://maps.googleapis.com/maps/api/geocode/json?address=test&key=SECRET"
    );
    assert_eq!(
        geocode_url("277 Bedford Avenue, Brooklyn", "k"),
        "https://maps.googleapis.com/maps/api/geocode/json?address=277 Bedford Avenue, Brooklyn&key=k"
    );
    assert_eq!(
        geocode_url("", ""),
        "https://maps.googleapis.com/maps/api/geocode/json?address=&key="
    );
}
