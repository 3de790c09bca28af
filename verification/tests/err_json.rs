use onesignal_rest::err_json::err_json_of_json;
use onesignal_rest::json::parse_json_bytes;

#[test]
fn test_de() {
    //
    let body = br#"{"errors":["App id not found"]}"#;
    let parsed = parse_json_bytes(body).unwrap();
    match err_json_of_json(&parsed) {
        Some(err_json) => {
            println!("{:?}", err_json);
        }
        None => panic!("structured error body expected"),
    }

    //
    let body = br#"{"errors":["Notification contents must not be empty"]}"#;
    let parsed = parse_json_bytes(body).unwrap();
    match err_json_of_json(&parsed) {
        Some(err_json) => {
            println!("{:?}", err_json);
        }
        None => panic!("structured error body expected"),
    }
}

#[test]
fn err_body_strings_kept() {
    let body = br#"{"errors":["App id not found","second"]}"#;
    let parsed = parse_json_bytes(body).unwrap();
    let err_json = err_json_of_json(&parsed).unwrap();
    assert_eq!(
        err_json.errors,
        vec!["App id not found".to_string(), "second".to_string()]
    );
}

#[test]
fn err_body_shape_rejected() {
    // The member must be an array of strings on an object.
    let body = br#"{"errors":"App id not found"}"#;
    let parsed = parse_json_bytes(body).unwrap();
    assert!(err_json_of_json(&parsed).is_none());

    let body = br#"{"errors":[1,2]}"#;
    let parsed = parse_json_bytes(body).unwrap();
    assert!(err_json_of_json(&parsed).is_none());

    let body = br#"["App id not found"]"#;
    let parsed = parse_json_bytes(body).unwrap();
    assert!(err_json_of_json(&parsed).is_none());
}
