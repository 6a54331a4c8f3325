use paperboy::event::{Level, Record};
use paperboy::clock::TimeParts;
use paperboy::json::JsonDrain;

fn record(level: Level, message: &str, tag: &str, line: u32) -> Record {
    Record {
        level,
        message: message.to_string(),
        tag: tag.to_string(),
        module: "paperboy::logger::json".to_string(),
        file: "src/logger/json.rs".to_string(),
        line,
    }
}

fn now() -> TimeParts {
    TimeParts { year: 2024, month: 1, day: 2, hour: 15, minute: 4, second: 5, nanosecond: 123_000_000 }
}

fn pairs(p: &[(&str, &str)]) -> Vec<(String, String)> {
    p.iter().map(|(k, v)| (k.to_string(), v.to_string())).collect()
}

fn parse(line: &str) -> serde_json::Value {
    assert!(line.ends_with('\n'));
    assert_eq!(line.matches('\n').count(), 1);
    serde_json::from_str(line.trim_end()).unwrap()
}

#[test]
fn json_logger_test_without_metadata() {
    let drain = JsonDrain::new("json_logger_test_without_metadata", Vec::<u8>::new());
    let line = drain
        .log(&now(), &record(Level::Info, "Logger Test", "", 7), &vec![], &vec![])
        .unwrap();
    let message = parse(&line);
    assert_eq!("json_logger_test_without_metadata", message["type"]);
    assert_eq!("Logger Test", message["message"]);
    assert_eq!(None, message.get("build"));
}

#[test]
fn json_logger_test_with_metadata() {
    let drain = JsonDrain::new("json_logger_test_with_metadata", Vec::<u8>::new());
    let line = drain
        .log(
            &now(),
            &record(Level::Info, "Logger Test", "", 7),
            &vec![],
            &pairs(&[("build_id", "unknown")]),
        )
        .unwrap();
    let message = parse(&line);
    assert_eq!("json_logger_test_with_metadata", message["type"]);
    assert_eq!("Logger Test", message["message"]);
    assert_eq!(Some("unknown"), message.get("build_id").and_then(|v| v.as_str()));
}

#[test]
fn json_line_exact_text() {
    let drain = JsonDrain::new("svc", ());
    let line = drain
        .encode(
            "2024-01-02T15:04:05.123Z".to_string(),
            &record(Level::Warning, "disk \"full\"", "", 42),
            &pairs(&[("a", "1")]),
            &pairs(&[("b", "2")]),
        )
        .unwrap();
    assert_eq!(
        line,
        "{\"timestamp\":\"2024-01-02T15:04:05.123Z\",\"type\":\"svc\",\
         \"message\":\"disk \\\"full\\\"\",\"level\":\"warn\",\
         \"target\":\"paperboy::logger::json\",\"file\":\"src/logger/json.rs\",\
         \"line\":42,\"a\":\"1\",\"b\":\"2\"}\n"
    );
}

#[test]
fn json_round_trip_keeps_app_message_and_fields() {
    let drain = JsonDrain::new("app \"x\"\n", ());
    let line = drain
        .log(
            &now(),
            &record(Level::Debug, "tab\there, quote \" and é", "", 1),
            &pairs(&[("ctx", "c\\v"), ("shared", "from context")]),
            &pairs(&[("shared", "from call site"), ("k", "")]),
        )
        .unwrap();
    let v = parse(&line);
    assert_eq!("app \"x\"\n", v["type"]);
    assert_eq!("tab\there, quote \" and é", v["message"]);
    assert_eq!("c\\v", v["ctx"]);
    assert_eq!("from call site", v["shared"]);
    assert_eq!("", v["k"]);
    assert_eq!("debug", v["level"]);
    assert_eq!(1, v["line"]);
    assert_eq!("2024-01-02T15:04:05.123Z", v["timestamp"]);
}

#[test]
fn json_target_prefers_tag() {
    let drain = JsonDrain::new("svc", ());
    let tagged = parse(&drain.log(&now(), &record(Level::Error, "m", "db", 3), &vec![], &vec![]).unwrap());
    assert_eq!("db", tagged["target"]);
    assert_eq!("error", tagged["level"]);
    let untagged = parse(&drain.log(&now(), &record(Level::Error, "m", "", 3), &vec![], &vec![]).unwrap());
    assert_eq!("paperboy::logger::json", untagged["target"]);
}

#[test]
fn json_scenario_svc_with_build_id() {
    let drain = JsonDrain::new("svc", Vec::<u8>::new());
    let line = drain
        .log(
            &now(),
            &record(Level::Info, "Logger Test", "", 10),
            &vec![],
            &pairs(&[("build_id", "unknown")]),
        )
        .unwrap();
    let v = parse(&line);
    assert_eq!("svc", v["type"]);
    assert_eq!("Logger Test", v["message"]);
    assert_eq!("unknown", v["build_id"]);
    assert_eq!("info", v["level"]);
}

#[test]
fn json_line_number_extremes() {
    let drain = JsonDrain::new("svc", ());
    let ts = "t".to_string();
    let zero = drain.encode(ts.clone(), &record(Level::Trace, "", "", 0), &vec![], &vec![]).unwrap();
    assert!(zero.ends_with(",\"line\":0}\n"));
    assert!(zero.contains("\"level\":\"trace\""));
    let max = drain.encode(ts, &record(Level::Critical, "", "", u32::MAX), &vec![], &vec![]).unwrap();
    assert!(max.ends_with(",\"line\":4294967295}\n"));
    assert!(max.contains("\"level\":\"critical\""));
}

#[test]
fn json_drain_keeps_app_and_writer() {
    let drain = JsonDrain::new("svc", vec![1u8, 2]);
    assert_eq!("svc", drain.app_name());
    assert_eq!(&vec![1u8, 2], drain.writer());
}

#[test]
fn layout_places_literals_verbatim() {
    let line = paperboy::json::layout_json_line(
        "\"t\"",
        "\"svc\"",
        "\"m\"",
        "\"info\"",
        "\"x\"",
        "\"f\"",
        305,
        &pairs(&[("\"k\"", "\"v\""), ("\"k2\"", "\"v2\"")]),
    );
    assert_eq!(
        line,
        "{\"timestamp\":\"t\",\"type\":\"svc\",\"message\":\"m\",\"level\":\"info\",\
         \"target\":\"x\",\"file\":\"f\",\"line\":305,\"k\":\"v\",\"k2\":\"v2\"}\n"
    );
}

#[test]
fn message_to_json_line_quotes_every_part() {
    let m = paperboy::message::Message::new(
        "a\\b",
        "ts".to_string(),
        &record(Level::Info, "line1\nline2", "", 2),
        &pairs(&[("q\"", "\u{1}")]),
        &vec![],
    );
    let line = m.to_json_line().unwrap();
    assert!(line.contains("\"type\":\"a\\\\b\""));
    assert!(line.contains("\"message\":\"line1\\nline2\""));
    assert!(line.contains(",\"q\\\"\":\"\\u0001\"}"));
}

#[test]
fn json_escapes_match_serde_json() {
    let drain = JsonDrain::new("svc", ());
    let msg = "q\" b\\ \u{8}\u{c}\n\r\t \u{1f} é/";
    let line = drain.encode("t".to_string(), &record(Level::Info, msg, "", 1), &vec![], &vec![]).unwrap();
    let expected = format!(",\"message\":{},", serde_json::to_string(msg).unwrap());
    assert!(line.contains(&expected));
    assert!(line.contains("\"message\":\"q\\\" b\\\\ \\b\\f\\n\\r\\t \\u001f é/\""));
}
