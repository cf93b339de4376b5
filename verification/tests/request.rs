use horatio_client::{endpoint, request, NewPing, Request};

#[test]
fn endpoint_appends_the_ping_segment() {
    assert_eq!(endpoint("https://horatio.example"), "https://horatio.example/ping");
    assert_eq!(endpoint("http://localhost:8080/api"), "http://localhost:8080/api/ping");
}

#[test]
fn endpoint_keeps_a_trailing_slash() {
    assert_eq!(endpoint("https://horatio.example/"), "https://horatio.example//ping");
}

#[test]
fn endpoint_of_an_empty_base_is_the_bare_path() {
    assert_eq!(endpoint(""), "/ping");
}

#[test]
fn endpoint_does_not_judge_the_base() {
    assert_eq!(endpoint("not a url"), "not a url/ping");
    assert_eq!(endpoint("h\u{f6}ratio"), "h\u{f6}ratio/ping");
}

#[test]
fn new_ping_carries_the_device_and_the_fixed_category() {
    let id = String::from("device-123");
    let ping = NewPing::for_device(&id);
    assert_eq!(ping, NewPing { id: String::from("device-123"), type_: String::from("resin") });
}

#[test]
fn new_ping_takes_any_identifier() {
    let empty = NewPing::for_device(&String::new());
    assert_eq!(empty.id, "");
    assert_eq!(empty.type_, "resin");
    let odd = NewPing::for_device(&String::from("a \"b\"\n"));
    assert_eq!(odd.id, "a \"b\"\n");
    assert_eq!(odd.type_, "resin");
}

#[test]
fn body_is_the_object_with_id_and_type() {
    let ping = NewPing::for_device(&String::from("device-123"));
    assert_eq!(ping.to_json(), "{\"id\":\"device-123\",\"type\":\"resin\"}");
}

#[test]
fn body_names_the_category_field_type() {
    let ping = NewPing { id: String::from("d"), type_: String::from("other") };
    let body = ping.to_json();
    assert_eq!(body, "{\"id\":\"d\",\"type\":\"other\"}");
    assert!(!body.contains("type_"));
    assert!(!body.contains("kind"));
}

#[test]
fn body_escapes_what_json_cannot_hold_bare() {
    let ping = NewPing { id: String::from("a\"b\\c\nd\te\u{1}f"), type_: String::from("\r\u{8}\u{c}") };
    assert_eq!(
        ping.to_json(),
        "{\"id\":\"a\\\"b\\\\c\\nd\\te\\u0001f\",\"type\":\"\\r\\b\\f\"}"
    );
}

#[test]
fn body_leaves_other_characters_as_they_are() {
    let ping = NewPing { id: String::from("d\u{e9}vice/\u{1f600}\u{7f}"), type_: String::from("resin") };
    assert_eq!(ping.to_json(), "{\"id\":\"d\u{e9}vice/\u{1f600}\u{7f}\",\"type\":\"resin\"}");
}

#[test]
fn body_of_an_empty_identifier() {
    let ping = NewPing::for_device(&String::new());
    assert_eq!(ping.to_json(), "{\"id\":\"\",\"type\":\"resin\"}");
}

#[test]
fn body_is_what_serde_json_writes_for_the_same_object() {
    for id in ["device-123", "", "a\"b\\c\nd", "d\u{e9}vice \u{1f600}", "\u{0}\u{1f}"] {
        let mut object = serde_json::Map::new();
        object.insert(String::from("id"), serde_json::Value::String(String::from(id)));
        object.insert(String::from("type"), serde_json::Value::String(String::from("resin")));
        let expected = serde_json::to_string(&serde_json::Value::Object(object)).unwrap();
        assert_eq!(NewPing::for_device(&String::from(id)).to_json(), expected);
    }
}

#[test]
fn body_reads_back_to_the_fields_it_was_written_from() {
    for id in ["device-123", "", "a\"b\\c\nd\te", "d\u{e9}vice \u{1f600}", "{\"id\":1}"] {
        let body = NewPing::for_device(&String::from(id)).to_json();
        let value: serde_json::Value = serde_json::from_str(&body).unwrap();
        let object = value.as_object().unwrap();
        assert_eq!(object.len(), 2);
        assert_eq!(object.get("id").and_then(|v| v.as_str()), Some(id));
        assert_eq!(object.get("type").and_then(|v| v.as_str()), Some("resin"));
    }
}

#[test]
fn request_for_a_device() {
    let req = request("https://horatio.example", &String::from("device-123"));
    assert_eq!(
        req,
        Request {
            url: String::from("https://horatio.example/ping"),
            body: String::from("{\"id\":\"device-123\",\"type\":\"resin\"}"),
        }
    );
}

#[test]
fn request_is_the_same_for_the_same_arguments() {
    let id = String::from("device-123");
    let first = request("https://horatio.example", &id);
    let second = request("https://horatio.example", &id);
    assert_eq!(first, second);
    let other = request("https://horatio.example", &String::from("device-124"));
    assert_ne!(first, other);
    assert_eq!(first.url, other.url);
}
