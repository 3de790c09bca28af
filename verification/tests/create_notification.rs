use onesignal_rest::json::{parse_json_bytes, JsonValue};
use onesignal_rest::response::{response_ok_of_json, CreateNotificationResponseBodyOkJson};

fn parse_ok_body(body: &[u8]) -> Option<CreateNotificationResponseBodyOkJson> {
    response_ok_of_json(parse_json_bytes(body)?)
}

#[test]
fn test_de_response_body_ok_json() {
    //
    let body = br#"{"id":"b98881cc-1e94-4366-bbd9-db8f3429292b","recipients":5}"#;
    match parse_ok_body(body) {
        Some(ok_json) => {
            assert_eq!(ok_json.id, "b98881cc-1e94-4366-bbd9-db8f3429292b".to_string());
            assert!(ok_json.errors.is_none());
        }
        None => panic!("success body expected"),
    }

    //
    let body = br#"{"id":"e0f4a60a-5d7d-4230-a2c5-cf4a8d2f5e5e","recipients":0,"errors":{"invalid_external_user_ids":["786956e8-1b65-4d4a-9edd-f116bc2b3a36"]}}"#;
    match parse_ok_body(body) {
        Some(ok_json) => {
            assert!(ok_json.errors.as_ref().unwrap().is_invalid_external_user_ids());
        }
        None => panic!("success body expected"),
    }

    //
    let body = br#"{"id":"0e5b4a4d-9e72-4c35-9cb8-b1e94e34b5d0","recipients":0,"errors":{"invalid_player_ids":["b186912c-cf25-4688-8218-06cb13e09a4f"]}}"#;
    match parse_ok_body(body) {
        Some(ok_json) => {
            assert!(ok_json.errors.as_ref().unwrap().is_invalid_player_ids());
            assert_eq!(
                ok_json.errors.unwrap().get("invalid_player_ids").unwrap(),
                &JsonValue::Arr(vec![JsonValue::Str(
                    "b186912c-cf25-4688-8218-06cb13e09a4f".to_string()
                )])
            )
        }
        None => panic!("success body expected"),
    }

    //
    let body = br#"{"id":"77c9e9b5-4c55-4b4c-9c48-55bd2f04e841","recipients":0,"errors":{"invalid_phone_numbers":["+15555555555"]}}"#;
    match parse_ok_body(body) {
        Some(ok_json) => {
            assert!(ok_json.errors.as_ref().unwrap().is_invalid_phone_numbers());
        }
        None => panic!("success body expected"),
    }

    //
    let body = br#"{"id":"","recipients":0,"errors":["All included players are not subscribed"]}"#;
    match parse_ok_body(body) {
        Some(ok_json) => {
            assert!(ok_json.errors.is_some());
        }
        None => panic!("success body expected"),
    }
}

#[test]
fn only_matching_predicate_true() {
    let body = br#"{"id":"x","recipients":0,"errors":{"invalid_external_user_ids":["a"]}}"#;
    let ok_json = parse_ok_body(body).unwrap();
    let errors = ok_json.errors.unwrap();
    assert!(errors.is_invalid_external_user_ids());
    assert!(!errors.is_invalid_player_ids());
    assert!(!errors.is_invalid_phone_numbers());
}

#[test]
fn errors_value_not_an_object() {
    let body = br#"{"id":"x","recipients":1,"errors":["free-form"]}"#;
    let ok_json = parse_ok_body(body).unwrap();
    let errors = ok_json.errors.unwrap();
    assert!(!errors.is_invalid_player_ids());
    assert!(!errors.is_invalid_external_user_ids());
    assert!(!errors.is_invalid_phone_numbers());
    assert!(errors.get("invalid_player_ids").is_none());
}

#[test]
fn errors_null_reads_as_absent() {
    let body = br#"{"id":"x","recipients":1,"errors":null}"#;
    let ok_json = parse_ok_body(body).unwrap();
    assert!(ok_json.errors.is_none());
}

#[test]
fn success_body_shape_rejected() {
    // id must be a string, recipients a non-negative count.
    assert!(parse_ok_body(br#"{"id":7,"recipients":5}"#).is_none());
    assert!(parse_ok_body(br#"{"id":"x"}"#).is_none());
    assert!(parse_ok_body(br#"{"recipients":5}"#).is_none());
    assert!(parse_ok_body(br#"{"id":"x","recipients":-1}"#).is_none());
    assert!(parse_ok_body(br#"{"id":"x","recipients":"5"}"#).is_none());
    assert!(parse_ok_body(br#"[1]"#).is_none());
    assert!(parse_ok_body(b"not json at all").is_none());
}
