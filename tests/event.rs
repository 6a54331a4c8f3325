use paperboy::event::{AdditionalFields, Level, Record};
use paperboy::message::Message;

fn record(message: &str, tag: &str, module: &str) -> Record {
    Record {
        level: Level::Info,
        message: message.to_string(),
        tag: tag.to_string(),
        module: module.to_string(),
        file: "f.rs".to_string(),
        line: 9,
    }
}

fn pairs(p: &[(&str, &str)]) -> Vec<(String, String)> {
    p.iter().map(|(k, v)| (k.to_string(), v.to_string())).collect()
}

#[test]
fn target_is_module_when_tag_empty() {
    assert_eq!("app::db", record("m", "", "app::db").target());
}

#[test]
fn target_is_tag_when_present() {
    assert_eq!("svc", record("m", "svc", "app::db").target());
}

#[test]
fn call_site_value_wins_over_context() {
    let f = AdditionalFields::merged(
        &pairs(&[("k", "context"), ("only_ctx", "c")]),
        &pairs(&[("k", "call"), ("k", "call again")]),
    );
    assert_eq!(
        f.0,
        pairs(&[("k", "call again"), ("only_ctx", "c")])
    );
}

#[test]
fn insert_replaces_in_place() {
    let mut f = AdditionalFields::new();
    f.insert("a".to_string(), "1".to_string());
    f.insert("b".to_string(), "2".to_string());
    f.insert("a".to_string(), "3".to_string());
    assert_eq!(f.0, pairs(&[("a", "3"), ("b", "2")]));
}

#[test]
fn message_fields_from_record() {
    let m = Message::new(
        "svc",
        "ts".to_string(),
        &record("hello", "", "app::db"),
        &pairs(&[("x", "1")]),
        &vec![],
    );
    assert_eq!("svc", m.app);
    assert_eq!("ts", m.timestamp);
    assert_eq!("hello", m.message);
    assert_eq!("info", m.level);
    assert_eq!("app::db", m.metadata.target);
    assert_eq!("f.rs", m.metadata.file);
    assert_eq!(9, m.metadata.line);
    assert_eq!(m.metadata.additional.0, pairs(&[("x", "1")]));
}

#[test]
fn level_names() {
    assert_eq!("CRITICAL", Level::Critical.as_str());
    assert_eq!("ERROR", Level::Error.as_str());
    assert_eq!("WARN", Level::Warning.as_str());
    assert_eq!("INFO", Level::Info.as_str());
    assert_eq!("DEBUG", Level::Debug.as_str());
    assert_eq!("TRACE", Level::Trace.as_str());
}

#[test]
fn decimal_text() {
    let mut s = "n=".to_string();
    paperboy::text::push_decimal(&mut s, 1207);
    assert_eq!("n=1207", s);
    let mut z = String::new();
    paperboy::text::push_decimal(&mut z, 0);
    assert_eq!("0", z);
}

#[test]
fn json_level_names() {
    assert_eq!("critical", Level::Critical.json_name());
    assert_eq!("error", Level::Error.json_name());
    assert_eq!("warn", Level::Warning.json_name());
    assert_eq!("info", Level::Info.json_name());
    assert_eq!("debug", Level::Debug.json_name());
    assert_eq!("trace", Level::Trace.json_name());
}
