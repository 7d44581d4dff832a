use ip_api_api::batch::{Batch, BatchQuery, BatchResponseBodyJson};
use ip_api_api::common::{ApiResponse, EndpointError, HttpMethod};
use ip_api_api::lang::Lang;
use ip_api_api::response::JsonResponseBodyJson;

fn response(body: &str) -> ApiResponse {
    ApiResponse {
        headers: Vec::new(),
        body: body.as_bytes().to_vec(),
    }
}

fn parse_batch(body: &str) -> Result<BatchResponseBodyJson, EndpointError> {
    let batch = Batch::new(Vec::new(), None);
    batch.parse_response(response(body)).map(|(json, _)| json)
}

#[test]
fn batch_test_render_request() {
    let batch = Batch::new(vec![BatchQuery::new("24.48.0.1")], None);
    let req = batch.render_request().unwrap();
    assert_eq!(req.url, "http://ip-api.com/batch");
    assert_eq!(req.body, br#"["24.48.0.1"]"#.to_vec());

    let batch = Batch::new(
        vec![
            BatchQuery::new("24.48.0.1"),
            BatchQuery::new("8.8.8.8")
                .fields("country,query")
                .lang(Lang::EN),
        ],
        Some("foo".into()),
    );
    let req = batch.render_request().unwrap();
    assert_eq!(req.url, "https://pro.ip-api.com/batch?key=foo");
    assert_eq!(
        req.body,
        br#"["24.48.0.1",{"query":"8.8.8.8","fields":"country,query","lang":"en"}]"#.to_vec()
    );

    let batch = batch.fields("status,message,country,query");
    let req = batch.render_request().unwrap();
    assert_eq!(
        req.url,
        "https://pro.ip-api.com/batch?key=foo&fields=status%2Cmessage%2Ccountry%2Cquery"
    );

    let batch = batch.lang(Lang::EN);
    let req = batch.render_request().unwrap();
    assert_eq!(
        req.url,
        "https://pro.ip-api.com/batch?key=foo&fields=status%2Cmessage%2Ccountry%2Cquery&lang=en"
    );
}

#[test]
fn batch_render_request_shape() {
    let req = Batch::new(vec![BatchQuery::new("24.48.0.1")], None)
        .render_request()
        .unwrap();
    assert_eq!(req.method, HttpMethod::Post);
    assert_eq!(req.headers.len(), 2);
    assert_eq!(req.headers[0].0, "content-type");
    assert_eq!(req.headers[0].1, "application/json");
    assert_eq!(req.headers[1].0, "accept");
    assert_eq!(req.headers[1].1, "application/json");
}

#[test]
fn subject_with_one_override_renders_that_override_only() {
    let batch = Batch::new(vec![BatchQuery::new("1.1.1.1").lang(Lang::DE)], None);
    let req = batch.render_request().unwrap();
    assert_eq!(req.body, br#"[{"query":"1.1.1.1","lang":"de"}]"#.to_vec());

    let batch = Batch::new(vec![BatchQuery::new("1.1.1.1").fields("country")], None);
    let req = batch.render_request().unwrap();
    assert_eq!(req.body, br#"[{"query":"1.1.1.1","fields":"country"}]"#.to_vec());
}

#[test]
fn subjects_are_escaped_as_json_strings() {
    let batch = Batch::new(vec![BatchQuery::new("a\"b\\c")], None);
    let req = batch.render_request().unwrap();
    assert_eq!(req.body, br#"["a\"b\\c"]"#.to_vec());
}

#[test]
fn control_characters_are_escaped_in_subjects() {
    let batch = Batch::new(vec![BatchQuery::new("a\tb\u{1}c")], None);
    let req = batch.render_request().unwrap();
    assert_eq!(req.body, br#"["a\tb\u0001c"]"#.to_vec());
}

#[test]
fn query_parameters_are_form_urlencoded() {
    let batch = Batch::new(vec![BatchQuery::new("1.1.1.1")], None).fields("a b,caf\u{e9}");
    let req = batch.render_request().unwrap();
    assert_eq!(req.url, "http://ip-api.com/batch?fields=a+b%2Ccaf%C3%A9");
}

#[test]
fn empty_batch_renders_an_empty_array() {
    let batch = Batch::new(Vec::new(), None);
    let req = batch.render_request().unwrap();
    assert_eq!(req.body, b"[]".to_vec());
}

#[test]
fn batch_test_de_response_body_json() {
    match parse_batch(
        r#"[{"status":"success","country":"United States","countryCode":"US","query":"208.80.152.201"},{"status":"success","country":"United States","countryCode":"US","query":"8.8.8.8"},{"status":"success","country":"Canada","countryCode":"CA","query":"24.48.0.1"}]"#,
    ) {
        Ok(json) => {
            assert_eq!(json.0.len(), 3);
            match &json.0[0] {
                JsonResponseBodyJson::Success(ok_json) => {
                    assert_eq!(ok_json.query, "208.80.152.201")
                }
                x => panic!("{:?}", x),
            }
            match &json.0[1] {
                JsonResponseBodyJson::Success(ok_json) => {
                    assert_eq!(ok_json.query, "8.8.8.8")
                }
                x => panic!("{:?}", x),
            }
            match &json.0[2] {
                JsonResponseBodyJson::Success(ok_json) => {
                    assert_eq!(ok_json.query, "24.48.0.1")
                }
                x => panic!("{:?}", x),
            }
        }
        ret => panic!("{:?}", ret),
    }

    match parse_batch(
        r#"[{"status":"success","country":"United States","countryCode":"US","query":"208.80.152.201"},{"message":"invalid query","query":"2"}]"#,
    ) {
        Ok(json) => {
            assert_eq!(json.0.len(), 2);
            match &json.0[0] {
                JsonResponseBodyJson::Success(ok_json) => {
                    assert_eq!(ok_json.query, "208.80.152.201")
                }
                x => panic!("{:?}", x),
            }
            match &json.0[1] {
                JsonResponseBodyJson::Fail(err_json) => {
                    assert_eq!(err_json.query, "2")
                }
                x => panic!("{:?}", x),
            }
        }
        ret => panic!("{:?}", ret),
    }
}

#[test]
fn batch_parse_response_rejects_bad_bodies() {
    let err = parse_batch("not json").unwrap_err();
    assert!(matches!(err, EndpointError::DeResponseBodyJsonFailed(_)));

    let err = parse_batch(r#"{"status":"success"}"#).unwrap_err();
    assert!(matches!(err, EndpointError::DeResponseBodyJsonFailed(_)));

    let err = parse_batch(r#"[1]"#).unwrap_err();
    assert!(matches!(err, EndpointError::DeResponseBodyJsonFailed(_)));

    let err = parse_batch(r#"[{"status":"nope"}]"#).unwrap_err();
    assert!(matches!(err, EndpointError::DeResponseBodyJsonFailed(_)));
}
