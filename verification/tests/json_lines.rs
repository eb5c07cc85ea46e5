use zonelog::EventRecord;
use zonelog::json::format_line;

fn record(fields: &[(&str, &str)]) -> EventRecord {
    let mut ev = EventRecord::new();
    for (k, v) in fields {
        ev.push_field(k.to_string(), v.to_string());
    }
    ev
}

#[test]
fn exact_line_for_simple_event() {
    let ev = record(&[("type", "block"), ("proto", "tcp")]);
    let line = format_line(&ev, "vm-1", "web");
    assert_eq!(
        line,
        "{\"type\":\"block\",\"proto\":\"tcp\",\"vm\":\"vm-1\",\"alias\":\"web\"}\n".as_bytes().to_vec()
    );
}

#[test]
fn line_is_valid_json_with_all_fields() {
    let ev = record(&[("type", "block"), ("proto", "udp"), ("port", "53")]);
    let line = format_line(&ev, "i-77", "dns");
    assert_eq!(*line.last().unwrap(), b'\n');
    let v: serde_json::Value = serde_json::from_slice(&line).unwrap();
    let obj = v.as_object().unwrap();
    assert_eq!(obj.len(), 5);
    assert_eq!(obj["type"], "block");
    assert_eq!(obj["proto"], "udp");
    assert_eq!(obj["port"], "53");
    assert_eq!(obj["vm"], "i-77");
    assert_eq!(obj["alias"], "dns");
}

#[test]
fn empty_alias_is_present_not_missing() {
    let ev = record(&[("type", "allow")]);
    let line = format_line(&ev, "vm-9", "");
    let text = String::from_utf8(line.clone()).unwrap();
    assert!(text.contains("\"alias\":\"\""));
    let v: serde_json::Value = serde_json::from_slice(&line).unwrap();
    assert!(v.as_object().unwrap().contains_key("alias"));
    assert_eq!(v["alias"], "");
}

#[test]
fn event_with_no_fields_still_carries_identity() {
    let ev = record(&[]);
    let line = format_line(&ev, "vm-0", "");
    assert_eq!(line, "{\"vm\":\"vm-0\",\"alias\":\"\"}\n".as_bytes().to_vec());
}

#[test]
fn quotes_and_backslashes_are_escaped() {
    let ev = record(&[("msg", "say \"hi\" to c:\\temp")]);
    let line = format_line(&ev, "vm-1", "web");
    let v: serde_json::Value = serde_json::from_slice(&line).unwrap();
    assert_eq!(v["msg"], "say \"hi\" to c:\\temp");
}

#[test]
fn control_bytes_are_escaped() {
    let ev = record(&[("msg", "a\nb\tc")]);
    let line = format_line(&ev, "vm-1", "");
    // the only raw newline is the line terminator
    assert_eq!(line.iter().filter(|b| **b == b'\n').count(), 1);
    let text = String::from_utf8(line.clone()).unwrap();
    assert!(text.contains("\\u000a"));
    assert!(text.contains("\\u0009"));
    let v: serde_json::Value = serde_json::from_slice(&line).unwrap();
    assert_eq!(v["msg"], "a\nb\tc");
}

#[test]
fn multibyte_values_survive_framing() {
    let ev = record(&[("who", "zoné-β")]);
    let line = format_line(&ev, "vm-1", "ユーザ");
    let v: serde_json::Value = serde_json::from_slice(&line).unwrap();
    assert_eq!(v["who"], "zoné-β");
    assert_eq!(v["alias"], "ユーザ");
}
