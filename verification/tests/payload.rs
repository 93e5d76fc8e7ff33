use qr_generator::geocode::Coordinates;
use qr_generator::geocode::MyError;
use qr_generator::models::Info;
use qr_generator::payload::address_to_geocode;
use qr_generator::payload::geo_payload;
use qr_generator::payload::get_code_data;

fn position(lat: &str, lng: &str) -> Coordinates {
    Coordinates { lat: lat.to_string(), lng: lng.to_string() }
}

#[test]
fn test_get_code_data() {
    let mut info = Info::default();

    info.url = Some("https://example.com".to_string());
    let result = get_code_data(&info, None);
    assert_eq!(result, Some("https://example.com".as_bytes().to_vec()));

    info.url = None;
    info.phone = Some("1234567890".to_string());
    let result = get_code_data(&info, None);
    assert_eq!(result, Some("tel:1234567890".as_bytes().to_vec()));

    info.phone = None;
    info.email = Some("test@example.com".to_string());
    let result = get_code_data(&info, None);
    assert_eq!(result, Some("mailto:test@example.com".as_bytes().to_vec()));

    info.email = None;
    info.address = Some("277 Bedford Avenue, Brooklyn, NY 11211, USA".to_string());

    info.address = None;
    let result = get_code_data(&info, None);
    assert_eq!(result, None);
}

#[test]
fn default_request_supplies_nothing() {
    let info = Info::default();
    assert!(info.url.is_none());
    assert!(info.phone.is_none());
    assert!(info.email.is_none());
    assert!(info.address.is_none());
    assert!(info.foreground.is_none());
    assert!(info.background.is_none());
    assert!(info.dimension.is_none());
    assert_eq!(get_code_data(&info, None), None);
    assert_eq!(address_to_geocode(&info), None);
}

#[test]
fn url_payload_is_the_url_verbatim() {
    let mut info = Info::default();
    info.url = Some("https://example.com".to_string());
    assert_eq!(get_code_data(&info, None), Some(b"https://example.com".to_vec()));
    info.url = Some("no scheme, spaces & ünïcödé 數據".to_string());
    assert_eq!(
        get_code_data(&info, None),
        Some("no scheme, spaces & ünïcödé 數據".as_bytes().to_vec())
    );
}

#[test]
fn earlier_field_wins_over_later_ones() {
    let mut info = Info::default();
    info.address = Some("1 Main Street".to_string());
    info.email = Some("test@example.com".to_string());
    assert_eq!(get_code_data(&info, None), Some(b"mailto:test@example.com".to_vec()));
    assert_eq!(
        get_code_data(&info, Some(Ok(position("1", "2")))),
        Some(b"mailto:test@example.com".to_vec())
    );
    info.phone = Some("1234567890".to_string());
    assert_eq!(get_code_data(&info, None), Some(b"tel:1234567890".to_vec()));
    info.url = Some("https://example.com".to_string());
    assert_eq!(get_code_data(&info, None), Some(b"https://example.com".to_vec()));
    assert_eq!(address_to_geocode(&info), None);
}

#[test]
fn empty_field_counts_as_absent() {
    let mut info = Info::default();
    info.url = Some(String::new());
    info.phone = Some(String::new());
    info.email = Some(String::new());
    info.address = Some(String::new());
    assert_eq!(get_code_data(&info, None), None);
    assert_eq!(get_code_data(&info, Some(Ok(position("1", "2")))), None);
    assert_eq!(address_to_geocode(&info), None);

    info.email = Some("a@b.c".to_string());
    assert_eq!(get_code_data(&info, None), Some(b"mailto:a@b.c".to_vec()));
    info.phone = Some("5".to_string());
    assert_eq!(get_code_data(&info, None), Some(b"tel:5".to_vec()));
}

#[test]
fn address_payload_is_the_resolved_position() {
    let mut info = Info::default();
    info.address = Some("277 Bedford Avenue, Brooklyn, NY 11211, USA".to_string());
    assert_eq!(
        address_to_geocode(&info),
        Some("277 Bedford Avenue, Brooklyn, NY 11211, USA")
    );
    assert_eq!(
        get_code_data(&info, Some(Ok(position("40.7142484", "-73.9614103")))),
        Some(b"geo:40.7142484,-73.9614103".to_vec())
    );
    assert_eq!(
        get_code_data(&info, Some(Ok(position("40", "-100")))),
        Some(b"geo:40,-100".to_vec())
    );
}

#[test]
fn failed_resolution_yields_no_payload() {
    let mut info = Info::default();
    info.address = Some("nowhere".to_string());
    assert_eq!(get_code_data(&info, None), None);
    assert_eq!(
        get_code_data(&info, Some(Err(MyError::MissingField("Latitude is missing or not a float".to_string())))),
        None
    );
    assert_eq!(
        get_code_data(&info, Some(Err(MyError::ReqwestError("connection refused".to_string())))),
        None
    );
}

#[test]
fn address_is_resolved_only_when_nothing_else_is_supplied() {
    let mut info = Info::default();
    info.address = Some("1 Main Street".to_string());
    assert_eq!(address_to_geocode(&info), Some("1 Main Street"));
    info.email = Some(String::new());
    assert_eq!(address_to_geocode(&info), Some("1 Main Street"));
    info.email = Some("a@b.c".to_string());
    assert_eq!(address_to_geocode(&info), None);
    info.email = None;
    info.phone = Some("1".to_string());
    assert_eq!(address_to_geocode(&info), None);
    info.phone = None;
    info.url = Some("u".to_string());
    assert_eq!(address_to_geocode(&info), None);
}

#[test]
fn geo_payload_joins_latitude_and_longitude() {
    assert_eq!(geo_payload(&position("40", "-100")), b"geo:40,-100".to_vec());
    assert_eq!(geo_payload(&position("0.5", "1e21")), b"geo:0.5,1e21".to_vec());
    assert_eq!(geo_payload(&position("", "")), b"geo:,".to_vec());
}
