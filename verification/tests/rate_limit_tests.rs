use ip_api_api::common::ApiResponse;
use ip_api_api::json::Json;
use ip_api_api::rate_limit::{parse_usize, rate_limit_from_headers};

fn headers(pairs: &[(&str, &str)]) -> Vec<(String, String)> {
    pairs
        .iter()
        .map(|(k, v)| (k.to_string(), v.to_string()))
        .collect()
}

#[test]
fn rate_limit_reads_both_headers() {
    let hs = headers(&[("X-Rl", "42"), ("X-Ttl", "3600")]);
    let rl = rate_limit_from_headers(&hs);
    assert_eq!(rl.remaining, Some(42));
    assert_eq!(rl.seconds_until_reset, Some(3600));
}

#[test]
fn rate_limit_header_names_are_case_insensitive() {
    let hs = headers(&[("x-rl", "7"), ("X-TTL", "60")]);
    let rl = rate_limit_from_headers(&hs);
    assert_eq!(rl.remaining, Some(7));
    assert_eq!(rl.seconds_until_reset, Some(60));
}

#[test]
fn rate_limit_fields_are_independently_absent() {
    let rl = rate_limit_from_headers(&headers(&[]));
    assert_eq!(rl.remaining, None);
    assert_eq!(rl.seconds_until_reset, None);

    let rl = rate_limit_from_headers(&headers(&[("X-Rl", "9")]));
    assert_eq!(rl.remaining, Some(9));
    assert_eq!(rl.seconds_until_reset, None);

    let rl = rate_limit_from_headers(&headers(&[("X-Rl", "soon"), ("X-Ttl", "45")]));
    assert_eq!(rl.remaining, None);
    assert_eq!(rl.seconds_until_reset, Some(45));
}

#[test]
fn rate_limit_is_not_produced_with_a_key() {
    let response = ApiResponse {
        headers: headers(&[("X-Rl", "42"), ("X-Ttl", "3600")]),
        body: b"{}".to_vec(),
    };
    let json = Json::new("24.48.0.1", Some("foo".into()));
    let (_, rate_limit) = json.parse_response(response).unwrap();
    assert!(rate_limit.is_none());
}

#[test]
fn rate_limit_is_produced_without_a_key() {
    let response = ApiResponse {
        headers: headers(&[("X-Rl", "42"), ("X-Ttl", "3600")]),
        body: b"{}".to_vec(),
    };
    let json = Json::new("24.48.0.1", None);
    let (_, rate_limit) = json.parse_response(response).unwrap();
    let rl = rate_limit.unwrap();
    assert_eq!(rl.remaining, Some(42));
    assert_eq!(rl.seconds_until_reset, Some(3600));
}

#[test]
fn parse_usize_matches_integer_syntax() {
    assert_eq!(parse_usize("0"), Some(0));
    assert_eq!(parse_usize("42"), Some(42));
    assert_eq!(parse_usize("+42"), Some(42));
    assert_eq!(parse_usize("007"), Some(7));
    assert_eq!(parse_usize(""), None);
    assert_eq!(parse_usize("+"), None);
    assert_eq!(parse_usize("-1"), None);
    assert_eq!(parse_usize("4 2"), None);
    assert_eq!(parse_usize("42x"), None);
    assert_eq!(parse_usize("99999999999999999999999999"), None);
}
