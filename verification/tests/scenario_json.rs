//! End-to-end scenarios against a JSON file: seed, rewrite, refresh.

use conf_watcher::{
    AutoUpdated, ChangeEvent, FileFormat, IoError, ParseError, Reloadable, WatchedFile, Watcher,
};
use std::sync::{Arc, Mutex};

#[derive(Debug, PartialEq, Clone)]
pub struct Config {
    pub strng: String,
}

impl Reloadable for Config {
    fn parse_text(format: FileFormat, text: &str) -> Result<Config, ParseError> {
        let field: Option<String> = match format {
            FileFormat::Json => serde_json::from_str::<serde_json::Value>(text)
                .ok()
                .and_then(|v| v.get("strng").and_then(|s| s.as_str()).map(|s| s.to_string())),
            FileFormat::Yaml => serde_yaml::from_str::<serde_yaml::Value>(text)
                .ok()
                .and_then(|v| v.get("strng").and_then(|s| s.as_str()).map(|s| s.to_string())),
            FileFormat::Toml => toml::from_str::<toml::Table>(text)
                .ok()
                .and_then(|v| v.get("strng").and_then(|s| s.as_str()).map(|s| s.to_string())),
        };
        match field {
            Some(strng) => Ok(Config { strng }),
            None => Err(ParseError { message: format!("no strng field in the document") }),
        }
    }
}

fn shared_content(initial: &str) -> (Arc<Mutex<String>>, impl Fn(&str) -> Result<String, IoError>)
{
    let content = Arc::new(Mutex::new(String::from(initial)));
    let held = Arc::clone(&content);
    let reader = move |_p: &str| -> Result<String, IoError> { Ok(held.lock().unwrap().clone()) };
    (content, reader)
}

#[test]
fn seeds_from_the_current_file_content() {
    let (_content, reader) = shared_content("{\"strng\":\"a\"}");
    let wf: WatchedFile<fn(), _> = Watcher::new().watch(String::from("file.json"), reader);
    let cell: AutoUpdated<Config> = wf.auto_updated().unwrap();
    let guard = cell.get();
    assert_eq!(guard.borrow().strng, "a");
    guard.release_read();
}

#[test]
fn modify_event_refreshes_to_new_value() {
    let (content, reader) = shared_content("{\"strng\":\"a\"}");
    let wf: WatchedFile<fn(), _> = Watcher::new().watch(String::from("file.json"), reader);
    let cell: AutoUpdated<Config> = wf.auto_updated().unwrap();
    *content.lock().unwrap() = String::from("{\"strng\":\"b\"}");
    let report = wf.handle_event(&ChangeEvent::Modified, &cell);
    assert!(report.refresh.is_some());
    let guard = cell.get();
    assert_eq!(guard.borrow().strng, "b");
    guard.release_read();
}

#[test]
fn malformed_rewrite_keeps_the_last_good_value() {
    let (content, reader) = shared_content("{\"strng\":\"a\"}");
    let wf: WatchedFile<fn(), _> = Watcher::new().watch(String::from("file.json"), reader);
    let cell: AutoUpdated<Config> = wf.auto_updated().unwrap();
    *content.lock().unwrap() = String::from("{\"strng\":\"b\"}");
    wf.handle_event(&ChangeEvent::Modified, &cell);
    *content.lock().unwrap() = String::from("{\"strng\":");
    let report = wf.handle_event(&ChangeEvent::Modified, &cell);
    assert!(matches!(
        report.refresh,
        Some(conf_watcher::RefreshOutcome::KeptAfterParseError)
    ));
    let guard = cell.get();
    assert_eq!(guard.borrow().strng, "b");
    guard.release_read();
}

#[test]
fn seeding_fails_on_malformed_initial_content() {
    let (_content, reader) = shared_content("{\"strng\":");
    let wf: WatchedFile<fn(), _> = Watcher::new().watch(String::from("file.json"), reader);
    let r: Result<AutoUpdated<Config>, _> = wf.auto_updated();
    let e = match r {
        Ok(_) => panic!("seeding should have failed"),
        Err(e) => e,
    };
    assert!(e.is_parse());
}

fn failing_reader(_p: &str) -> Result<String, IoError> {
    Err(IoError { message: String::from("no such file") })
}

#[test]
fn seeding_fails_on_unreadable_file() {
    let reader = failing_reader as fn(&str) -> Result<String, IoError>;
    let wf: WatchedFile<fn(), _> = Watcher::new().watch(String::from("gone.json"), reader);
    let r: Result<AutoUpdated<Config>, _> = wf.auto_updated();
    let e = match r {
        Ok(_) => panic!("seeding should have failed"),
        Err(e) => e,
    };
    assert!(e.is_io());
}

#[test]
fn encoded_config_round_trips_through_the_json_decoder() {
    let before = Config { strng: String::from("hello world") };
    let mut doc = serde_json::Map::new();
    doc.insert(String::from("strng"), serde_json::Value::String(before.strng.clone()));
    let text = serde_json::Value::Object(doc).to_string();
    let after = Config::parse_text(FileFormat::Json, &text).unwrap();
    assert_eq!(after, before);
}

#[test]
fn awkward_characters_round_trip_too() {
    let before = Config { strng: String::from("a \"quoted\" value with \\ and \u{e9}") };
    let mut doc = serde_json::Map::new();
    doc.insert(String::from("strng"), serde_json::Value::String(before.strng.clone()));
    let text = serde_json::Value::Object(doc).to_string();
    let after = Config::parse_text(FileFormat::Json, &text).unwrap();
    assert_eq!(after, before);
}

#[test]
fn shared_handles_see_the_same_refresh() {
    let (content, reader) = shared_content("{\"strng\":\"a\"}");
    let wf: WatchedFile<fn(), _> = Watcher::new().watch(String::from("file.json"), reader);
    let cell: AutoUpdated<Config> = wf.auto_updated().unwrap();
    let second = AutoUpdated::wrap(cell.shared());
    *content.lock().unwrap() = String::from("{\"strng\":\"b\"}");
    wf.handle_event(&ChangeEvent::Modified, &cell);
    let guard = second.get();
    assert_eq!(guard.borrow().strng, "b");
    guard.release_read();
}

#[test]
fn with_reads_under_the_lock() {
    let (_content, reader) = shared_content("{\"strng\":\"a\"}");
    let wf: WatchedFile<fn(), _> = Watcher::new().watch(String::from("file.json"), reader);
    let cell: AutoUpdated<Config> = wf.auto_updated().unwrap();
    let len: usize = cell.with(|c: &Config| c.strng.len());
    assert_eq!(len, 1);
}

#[test]
fn try_get_returns_a_view() {
    let (_content, reader) = shared_content("{\"strng\":\"a\"}");
    let wf: WatchedFile<fn(), _> = Watcher::new().watch(String::from("file.json"), reader);
    let cell: AutoUpdated<Config> = wf.auto_updated().unwrap();
    let guard = cell.try_get().unwrap();
    assert_eq!(guard.borrow().strng, "a");
    guard.release_read();
}

#[test]
fn reload_from_str_mirrors_the_json_decode() {
    let mut c = Config { strng: String::from("a") };
    assert!(c.reload_from_str("{\"strng\":\"z\"}").is_ok());
    assert_eq!(c.strng, "z");
    assert!(c.reload_from_str("{\"strng\":").is_err());
    assert_eq!(c.strng, "z");
}

#[test]
fn a_raw_text_file_reloads_as_its_content() {
    let (content, reader) = shared_content("first line");
    let wf: WatchedFile<fn(), _> = Watcher::new().watch(String::from("notes.txt"), reader);
    let cell: AutoUpdated<String> = wf.auto_updated().unwrap();
    *content.lock().unwrap() = String::from("second line");
    wf.handle_event(&ChangeEvent::Modified, &cell);
    let guard = cell.get();
    assert_eq!(*guard.borrow(), "second line");
    guard.release_read();
}

