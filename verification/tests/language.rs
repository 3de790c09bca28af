use onesignal_rest::json::{to_json_bytes, JsonValue};
use onesignal_rest::language::Language;

fn wrap_language(lang: &Language) -> String {
    let doc = JsonValue::Obj(vec![(
        "language".to_string(),
        JsonValue::Str(lang.to_wire()),
    )]);
    String::from_utf8(to_json_bytes(&doc)).unwrap()
}

#[test]
fn test_ser() {
    assert_eq!(wrap_language(&Language::En), r#"{"language":"en"}"#);
    assert_eq!(wrap_language(&Language::ZhHans), r#"{"language":"zh-Hans"}"#);
    assert_eq!(
        wrap_language(&Language::Other("vi".into())),
        r#"{"language":"vi"}"#
    );
}

#[test]
fn round_trip_unknown_locale() {
    let lang = Language::from_wire("vi");
    assert_eq!(lang.to_wire(), "vi");
    let lang = Language::from_wire("pt-BR");
    assert_eq!(lang.to_wire(), "pt-BR");
    let lang = Language::from_wire("");
    assert_eq!(lang.to_wire(), "");
}

#[test]
fn equality_follows_wire_strings() {
    assert_eq!(Language::from_wire("vi"), Language::Other("vi".into()));
    assert_eq!(Language::from_wire("en"), Language::En);
    assert!(Language::from_wire("vi") != Language::Other("nl".into()));
    assert!(Language::from_wire("vi") != Language::En);
}

#[test]
fn known_locales_canonical() {
    assert_eq!(Language::from_wire("en").to_wire(), "en");
    assert!(matches!(Language::from_wire("en"), Language::En));
    assert_eq!(Language::from_wire("zh-Hans").to_wire(), "zh-Hans");
    assert!(matches!(Language::from_wire("zh-Hans"), Language::ZhHans));
}
