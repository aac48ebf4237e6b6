use klog::util::{format_record, get_pretty_json, get_rnd_color, maybe_parse_json};
use serde_json::Value;

fn object(members: &[(&str, Value)]) -> Value {
    let mut map = serde_json::Map::new();
    for (key, value) in members {
        map.insert(key.to_string(), value.clone());
    }
    Value::Object(map)
}

fn text(s: &str) -> Value {
    Value::String(s.to_string())
}

#[test]
fn test_randomness() {
    let color1 = get_rnd_color();
    let color2 = get_rnd_color();
    assert!(color1.r != color2.r || color1.g != color2.g || color1.b != color2.b);
}

#[test]
fn test_maybe_parse_json_valid() {
    let line = r#"{"msg":"hello","ts":"2025-07-28T12:34:56Z"}"#;
    let result = maybe_parse_json(line);
    assert!(result.is_some());
    let json = result.unwrap();
    assert_eq!(json["msg"], "hello");
    assert_eq!(json["ts"], "2025-07-28T12:34:56Z");
}

#[test]
fn test_maybe_parse_json_invalid() {
    let line = "this is not json";
    let result = maybe_parse_json(line);
    assert!(result.is_none());
}

#[test]
fn test_get_pretty_json_standard_fields() {
    let value = object(&[
        ("timestamp", text("2025-07-28T12:00:00Z")),
        ("message", text("Started up")),
        ("level", text("info")),
    ]);
    let result = get_pretty_json(value);
    assert_eq!(result, "[info] 2025-07-28T12:00:00Z: Started up");
}

#[test]
fn test_get_pretty_json_alt_fields() {
    let value = object(&[
        ("ts", text("2025-07-28T12:01:00Z")),
        ("msg", text("Service healthy")),
        ("lvl", text("debug")),
    ]);
    let result = get_pretty_json(value);
    assert_eq!(result, "[debug] 2025-07-28T12:01:00Z: Service healthy");
}

#[test]
fn test_get_pretty_json_log_field() {
    let value = object(&[
        ("log", text("Request received")),
        ("time", text("2025-07-28T12:02:00Z")),
    ]);
    let result = get_pretty_json(value);
    assert_eq!(result, "[INFO] 2025-07-28T12:02:00Z: Request received");
}

#[test]
fn test_get_pretty_json_missing_all_fields() {
    let value = object(&[("foo", text("bar"))]);
    let result = get_pretty_json(value);
    assert_eq!(result, "[INFO] no-ts: no-msg");
}

#[test]
fn test_get_pretty_json_quoted_values_are_cleaned() {
    let value = object(&[
        ("ts", text("2025-07-28T12:03:00Z")),
        ("msg", text("Extra quotes")),
        ("level", text("warn")),
    ]);
    let result = get_pretty_json(value);
    assert_eq!(result, "[warn] 2025-07-28T12:03:00Z: Extra quotes");
}

#[test]
fn test_get_pretty_json_valid() {
    let value = object(&[
        ("msg", text("system online")),
        ("ts", text("2025-07-28T14:00:00Z")),
    ]);
    let output = get_pretty_json(value);
    assert_eq!(output, "[INFO] 2025-07-28T14:00:00Z: system online");
}

#[test]
fn the_first_key_that_holds_a_string_wins() {
    let value = object(&[
        ("time", text("third")),
        ("timestamp", text("second")),
        ("ts", text("first")),
        ("log", text("log text")),
        ("message", text("message text")),
        ("severity", text("fatal")),
        ("lvl", text("low")),
    ]);
    assert_eq!(get_pretty_json(value), "[low] first: message text");
}

#[test]
fn a_member_that_is_no_string_is_passed_over() {
    let value = object(&[
        ("ts", Value::Bool(true)),
        ("timestamp", Value::Null),
        ("time", text("noon")),
        ("msg", Value::Array(vec![text("x")])),
        ("message", object(&[("msg", text("inner"))])),
        ("level", Value::Number(3.into())),
    ]);
    assert_eq!(get_pretty_json(value), "[INFO] noon: no-msg");
}

#[test]
fn a_value_that_is_no_object_has_no_members() {
    assert_eq!(get_pretty_json(Value::Null), "[INFO] no-ts: no-msg");
    assert_eq!(get_pretty_json(text("msg")), "[INFO] no-ts: no-msg");
    assert_eq!(get_pretty_json(Value::Array(vec![text("msg")])), "[INFO] no-ts: no-msg");
}

#[test]
fn a_parsed_line_is_rendered() {
    let line = r#"{"severity":"WARN","time":"12:00","log":"disk at 91%","pid":7}"#;
    let value = maybe_parse_json(line).unwrap();
    assert_eq!(get_pretty_json(value), "[WARN] 12:00: disk at 91%");
}

#[test]
fn json_scalars_and_broken_documents() {
    assert_eq!(maybe_parse_json("42"), Some(Value::Number(42.into())));
    assert_eq!(maybe_parse_json(" \"a\" "), Some(text("a")));
    assert_eq!(maybe_parse_json("null"), Some(Value::Null));
    assert_eq!(maybe_parse_json(""), None);
    assert_eq!(maybe_parse_json("{\"a\":1"), None);
    assert_eq!(maybe_parse_json("{} {}"), None);
}

#[test]
fn a_record_is_written_with_its_defaults() {
    assert_eq!(format_record(None, None, None), "[INFO] no-ts: no-msg");
    assert_eq!(
        format_record(Some("E".to_string()), Some("t".to_string()), Some("m".to_string())),
        "[E] t: m"
    );
    assert_eq!(format_record(Some("".to_string()), None, Some("".to_string())), "[] no-ts: ");
}

#[test]
fn every_channel_of_a_random_colour_is_below_255() {
    for _ in 0..2000 {
        let color = get_rnd_color();
        assert!(color.r < 255 && color.g < 255 && color.b < 255);
    }
}

#[test]
fn random_colours_vary() {
    let first = get_rnd_color();
    let varied = (0..200).any(|_| {
        let next = get_rnd_color();
        next.r != first.r || next.g != first.g || next.b != first.b
    });
    assert!(varied);
}
