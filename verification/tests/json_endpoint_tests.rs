use ip_api_api::common::{ApiResponse, EndpointError, HttpMethod};
use ip_api_api::json::Json;
use ip_api_api::json_value::JsonNumber;
use ip_api_api::lang::Lang;
use ip_api_api::response::{parse_response_bytes, JsonResponseBodyJson};

fn response(body: &str) -> ApiResponse {
    ApiResponse {
        headers: Vec::new(),
        body: body.as_bytes().to_vec(),
    }
}

#[test]
fn json_test_render_request() {
    let json = Json::new("24.48.0.1", None);
    let req = json.render_request().unwrap();
    assert_eq!(req.url, "http://ip-api.com/json/24.48.0.1");

    let json = Json::new("24.48.0.1", Some("foo".into()));
    let req = json.render_request().unwrap();
    assert_eq!(req.url, "https://pro.ip-api.com/json/24.48.0.1?key=foo");

    let json = json.fields("status,message,country,query");
    let req = json.render_request().unwrap();
    assert_eq!(
        req.url,
        "https://pro.ip-api.com/json/24.48.0.1?key=foo&fields=status%2Cmessage%2Ccountry%2Cquery"
    );

    let json = json.lang(Lang::EN);
    let req = json.render_request().unwrap();
    assert_eq!(
        req.url,
        "https://pro.ip-api.com/json/24.48.0.1?key=foo&fields=status%2Cmessage%2Ccountry%2Cquery&lang=en"
    );
}

#[test]
fn json_render_request_shape() {
    let req = Json::new("24.48.0.1", None).render_request().unwrap();
    assert_eq!(req.method, HttpMethod::Get);
    assert!(req.body.is_empty());
    assert_eq!(req.headers.len(), 1);
    assert_eq!(req.headers[0].0, "accept");
    assert_eq!(req.headers[0].1, "application/json");
}

#[test]
fn render_request_normalizes_the_url() {
    let req = Json::new("caf\u{e9}.example", None).render_request().unwrap();
    assert_eq!(req.url, "http://ip-api.com/json/caf%C3%A9.example");
}

#[test]
fn json_test_de_response_body_json() {
    match parse_response_bytes(
        &br#"{"status":"success","country":"Canada","countryCode":"CA","region":"QC","regionName":"Quebec","city":"Montreal","zip":"H1K","lat":45.6085,"lon":-73.5493,"timezone":"America/Toronto","isp":"Le Groupe Videotron Ltee","org":"Videotron Ltee","as":"AS5769 Videotron Telecom Ltee","query":"24.48.0.1"}"#.to_vec(),
    ) {
        Some(JsonResponseBodyJson::Success(ok_json)) => {
            assert_eq!(ok_json.query, "24.48.0.1");
            assert_eq!(ok_json.continent_code, "");
            assert_eq!(ok_json.country_code, "CA");
        }
        ret => panic!("{:?}", ret),
    }

    match parse_response_bytes(
        &br#"{"status":"success","continent":"North America","continentCode":"NA","country":"Canada","countryCode":"CA","countryCode3":"CAN","region":"QC","regionName":"Quebec","city":"Montreal","district":"","zip":"H1K","lat":45.6085,"lon":-73.5493,"timezone":"America/Toronto","offset":-14400,"currency":"CAD","callingCode":"1","isp":"Le Groupe Videotron Ltee","org":"Videotron Ltee","as":"AS5769 Videotron Telecom Ltee","asname":"VIDEOTRON","reverse":"modemcable001.0-48-24.mc.videotron.ca","mobile":false,"proxy":false,"hosting":false,"query":"24.48.0.1"}"#.to_vec(),
    ) {
        Some(JsonResponseBodyJson::Success(ok_json)) => {
            assert_eq!(ok_json.query, "24.48.0.1");
            assert_eq!(ok_json.continent_code, "NA");
            assert_eq!(ok_json.country_code, "CA");
        }
        ret => panic!("{:?}", ret),
    }

    match parse_response_bytes(
        &r#"{"status":"success","continent":"北美洲","continentCode":"NA","country":"加拿大","countryCode":"CA","region":"QC","regionName":"魁北克","city":"蒙特娄尔","zip":"H1K","lat":45.6085,"lon":-73.5493,"timezone":"America/Toronto","query":"24.48.0.1"}"#.as_bytes().to_vec(),
    ) {
        Some(JsonResponseBodyJson::Success(ok_json)) => {
            assert_eq!(ok_json.query, "24.48.0.1");
            assert_eq!(ok_json.continent_code, "NA");
            assert_eq!(ok_json.country_code, "CA");
        }
        ret => panic!("{:?}", ret),
    }

    match parse_response_bytes(&br#"{"status":"fail","message":"reserved range"}"#.to_vec()) {
        Some(JsonResponseBodyJson::Fail(err_json)) => {
            assert_eq!(err_json.query, "");
        }
        ret => panic!("{:?}", ret),
    }

    match parse_response_bytes(
        &br#"{"status":"fail","message":"invalid query","query":"24"}"#.to_vec(),
    ) {
        Some(JsonResponseBodyJson::Fail(err_json)) => {
            assert_eq!(err_json.query, "24");
        }
        ret => panic!("{:?}", ret),
    }

    match parse_response_bytes(
        &br#"{"message":"SSL unavailable for this endpoint, order a key at https://members.ip-api.com/"}"#.to_vec(),
    ) {
        Some(JsonResponseBodyJson::Fail(err_json)) => {
            assert_eq!(err_json.query, "");
        }
        ret => panic!("{:?}", ret),
    }
}

#[test]
fn discriminator_rejects_unrecognized_status() {
    assert!(parse_response_bytes(&br#"{"status":"ok","message":"x"}"#.to_vec()).is_none());
    assert!(parse_response_bytes(&br#"{"status":7}"#.to_vec()).is_none());
}

#[test]
fn discriminator_defaults_without_status_or_message() {
    match parse_response_bytes(&b"{}".to_vec()) {
        Some(JsonResponseBodyJson::Success(ok_json)) => {
            assert_eq!(ok_json.query, "");
            assert_eq!(ok_json.continent, "");
            assert_eq!(ok_json.timezone, "");
            assert_eq!(ok_json.current_time, "");
            assert_eq!(ok_json.offset, 0);
            assert!(matches!(ok_json.lat, JsonNumber::Int(0)));
            assert!(matches!(ok_json.lon, JsonNumber::Int(0)));
            assert!(!ok_json.mobile);
            assert!(!ok_json.proxy);
            assert!(!ok_json.hosting);
        }
        ret => panic!("{:?}", ret),
    }
}

#[test]
fn json_parse_response_rejects_bad_bodies() {
    let json = Json::new("24.48.0.1", None);
    let err = json.parse_response(response("not json")).unwrap_err();
    assert!(matches!(err, EndpointError::DeResponseBodyJsonFailed(_)));

    let json = Json::new("24.48.0.1", None);
    let err = json.parse_response(response("[1,2]")).unwrap_err();
    assert!(matches!(err, EndpointError::DeResponseBodyJsonFailed(_)));

    let json = Json::new("24.48.0.1", None);
    let err = json
        .parse_response(response(r#"{"status":"partial","query":"24.48.0.1"}"#))
        .unwrap_err();
    assert!(matches!(err, EndpointError::DeResponseBodyJsonFailed(_)));
}

#[test]
fn parse_response_rejects_wrongly_typed_members() {
    assert!(parse_response_bytes(&br#"{"country":7}"#.to_vec()).is_none());
    assert!(parse_response_bytes(&br#"{"mobile":"yes"}"#.to_vec()).is_none());
    assert!(parse_response_bytes(&br#"{"offset":1.5}"#.to_vec()).is_none());
    assert!(parse_response_bytes(&br#"{"message":7}"#.to_vec()).is_none());
    assert!(parse_response_bytes(&br#"{"status":"fail"}"#.to_vec()).is_none());
}

#[test]
fn number_members_are_carried_through() {
    match parse_response_bytes(&br#"{"lat":45.6085,"lon":-73,"offset":-14400}"#.to_vec()) {
        Some(JsonResponseBodyJson::Success(ok_json)) => {
            match &ok_json.lat {
                JsonNumber::Dec(s) => assert_eq!(s, "45.6085"),
                other => panic!("{:?}", other),
            }
            assert!(matches!(ok_json.lon, JsonNumber::Int(-73)));
            assert_eq!(ok_json.offset, -14400);
        }
        ret => panic!("{:?}", ret),
    }
}
