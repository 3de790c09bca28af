use onesignal_rest::endpoint::{
    auth_header_value, CreateNotification, EndpointError, EndpointRet, URL,
};
use onesignal_rest::json::{to_json_bytes, JsonValue};
use onesignal_rest::language::Language;
use onesignal_rest::request::{CreateNotificationRequestBodyJson, LocalizedContents};

fn sample_contents() -> LocalizedContents {
    let mut contents = LocalizedContents::new();
    contents.insert(Language::En, "English Message".to_string());
    contents
}

fn sample_request() -> CreateNotificationRequestBodyJson {
    CreateNotificationRequestBodyJson::new("XYZAPP".to_string(), sample_contents())
}

fn body_string(req: &CreateNotificationRequestBodyJson) -> String {
    String::from_utf8(to_json_bytes(&req.to_document())).unwrap()
}

#[test]
fn auth_header_is_verbatim() {
    assert_eq!(auth_header_value("XYZ"), "Basic XYZ");
}

#[test]
fn render_request_shape() {
    let endpoint = CreateNotification::new(sample_request(), "XYZ".to_string());
    let rendered = endpoint.render_request().unwrap();
    assert_eq!(rendered.method, "POST");
    assert_eq!(rendered.url, URL);
    assert_eq!(
        rendered.headers,
        vec![
            ("user-agent".to_string(), "onesignal-rest".to_string()),
            ("accept".to_string(), "application/json".to_string()),
            ("content-type".to_string(), "application/json".to_string()),
            ("authorization".to_string(), "Basic XYZ".to_string()),
        ]
    );
    assert_eq!(
        String::from_utf8(rendered.body).unwrap(),
        r#"{"app_id":"XYZAPP","contents":{"en":"English Message"}}"#
    );
}

#[test]
fn unset_fields_are_omitted() {
    let body = body_string(&sample_request());
    assert!(!body.contains("include_player_ids"));
    assert!(!body.contains("include_external_user_ids"));
    assert!(!body.contains("include_email_tokens"));
    assert!(!body.contains("include_phone_numbers"));
    assert!(!body.contains("data"));
    assert!(body.contains("app_id"));
    assert!(body.contains("contents"));
}

#[test]
fn one_set_field_is_the_only_optional_key() {
    let mut req = sample_request();
    req.include_player_ids = Some(vec!["player-1".to_string()]);
    let body = body_string(&req);
    assert!(body.contains(r#""include_player_ids":["player-1"]"#));
    assert!(!body.contains("include_external_user_ids"));
    assert!(!body.contains("include_email_tokens"));
    assert!(!body.contains("include_phone_numbers"));
    assert!(!body.contains("data"));
}

#[test]
fn data_payload_serialized() {
    let mut req = sample_request();
    req.data = Some(vec![
        ("abc".to_string(), JsonValue::Int(123)),
        ("foo".to_string(), JsonValue::Str("bar".to_string())),
        ("event_performed".to_string(), JsonValue::Bool(true)),
    ]);
    let body = body_string(&req);
    assert!(body.contains(r#""abc":123"#));
    assert!(body.contains(r#""foo":"bar""#));
    assert!(body.contains(r#""event_performed":true"#));
}

#[test]
fn contents_insert_replaces_same_locale() {
    let mut contents = LocalizedContents::new();
    contents.insert(Language::En, "first".to_string());
    contents.insert(Language::Other("vi".to_string()), "xin chao".to_string());
    contents.insert(Language::En, "second".to_string());
    let req = CreateNotificationRequestBodyJson::new("app".to_string(), contents);
    let body = body_string(&req);
    assert!(body.contains(r#""contents":{"en":"second","vi":"xin chao"}"#));
    assert!(!body.contains("first"));
}

#[test]
fn success_response_parsed() {
    let endpoint = CreateNotification::new(sample_request(), "XYZ".to_string());
    let body = br#"{"id":"b98881cc-1e94-4366-bbd9-db8f3429292b","recipients":5}"#.to_vec();
    match endpoint.parse_response(200, body) {
        Ok(EndpointRet::Success(ok_json)) => {
            assert_eq!(ok_json.id, "b98881cc-1e94-4366-bbd9-db8f3429292b");
            assert_eq!(ok_json.recipients, 5);
            assert!(ok_json.errors.is_none());
        }
        other => panic!("success outcome expected, got {:?}", other),
    }
}

#[test]
fn malformed_success_body_is_an_error() {
    let endpoint = CreateNotification::new(sample_request(), "XYZ".to_string());
    let outcome = endpoint.parse_response(200, b"oops".to_vec());
    assert_eq!(
        outcome.unwrap_err(),
        EndpointError::DeResponseBodyOkJsonFailed
    );
}

#[test]
fn non_success_with_structured_errors() {
    let endpoint = CreateNotification::new(sample_request(), "XYZ".to_string());
    let body = br#"{"errors":["App id not found"]}"#.to_vec();
    match endpoint.parse_response(400, body) {
        Ok(EndpointRet::Other(status, Ok(err_json))) => {
            assert_eq!(status, 400);
            assert_eq!(err_json.errors, vec!["App id not found".to_string()]);
        }
        other => panic!("structured non-success outcome expected, got {:?}", other),
    }
}

#[test]
fn non_success_with_unparseable_body_keeps_raw_bytes() {
    let endpoint = CreateNotification::new(sample_request(), "XYZ".to_string());
    let body = b"<html>Bad Gateway</html>".to_vec();
    match endpoint.parse_response(502, body) {
        Ok(EndpointRet::Other(status, Err(raw))) => {
            assert_eq!(status, 502);
            assert_eq!(raw, b"<html>Bad Gateway</html>".to_vec());
        }
        other => panic!("raw non-success outcome expected, got {:?}", other),
    }
}

#[test]
fn non_success_with_json_of_other_shape_keeps_raw_bytes() {
    let endpoint = CreateNotification::new(sample_request(), "XYZ".to_string());
    let body = br#"{"message":"rate limited"}"#.to_vec();
    match endpoint.parse_response(429, body) {
        Ok(EndpointRet::Other(status, Err(raw))) => {
            assert_eq!(status, 429);
            assert_eq!(raw, br#"{"message":"rate limited"}"#.to_vec());
        }
        other => panic!("raw non-success outcome expected, got {:?}", other),
    }
}
