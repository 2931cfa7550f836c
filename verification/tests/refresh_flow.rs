//! The refresh policy over whole histories of rewrites, and manual mode.

use conf_watcher::{
    AutoUpdated, ChangeEvent, FileFormat, IoError, RefreshOutcome, WatchedFile, Watcher,
};
use std::sync::{Arc, Mutex};

fn shared_content(initial: &str) -> (Arc<Mutex<String>>, impl Fn(&str) -> Result<String, IoError>)
{
    let content = Arc::new(Mutex::new(String::from(initial)));
    let held = Arc::clone(&content);
    let reader = move |_p: &str| -> Result<String, IoError> { Ok(held.lock().unwrap().clone()) };
    (content, reader)
}

#[test]
fn a_run_of_good_rewrites_ends_on_the_last_one() {
    let (content, reader) = shared_content("100");
    let wf: WatchedFile<fn(), _> = Watcher::new().watch(String::from("n.json"), reader);
    let cell: AutoUpdated<u64> = wf.auto_updated().unwrap();
    for n in 101u64..109u64 {
        *content.lock().unwrap() = format!("{}", n);
        let report = wf.handle_event(&ChangeEvent::Modified, &cell);
        assert!(matches!(report.refresh, Some(RefreshOutcome::Updated)));
    }
    let guard = cell.get();
    assert_eq!(*guard.borrow(), 108);
    guard.release_read();
}

#[test]
fn failures_in_the_middle_of_a_history_are_invisible() {
    let (content, reader) = shared_content("1");
    let wf: WatchedFile<fn(), _> = Watcher::new().watch(String::from("n.json"), reader);
    let cell: AutoUpdated<u64> = wf.auto_updated().unwrap();
    let history: Vec<&str> = vec!["2", "broken", "3", "also broken", ""];
    for text in history {
        *content.lock().unwrap() = String::from(text);
        wf.handle_event(&ChangeEvent::Modified, &cell);
    }
    let guard = cell.get();
    assert_eq!(*guard.borrow(), 3);
    guard.release_read();
}

#[test]
fn unreadable_file_keeps_the_value_and_reports_io() {
    let (content, reader) = shared_content("1");
    let io_down = Arc::new(Mutex::new(false));
    let down = Arc::clone(&io_down);
    let flaky = move |p: &str| -> Result<String, IoError> {
        if *down.lock().unwrap() {
            Err(IoError { message: String::from("unreadable") })
        } else {
            reader(p)
        }
    };
    let wf: WatchedFile<fn(), _> = Watcher::new().watch(String::from("n.json"), flaky);
    let cell: AutoUpdated<u64> = wf.auto_updated().unwrap();
    *content.lock().unwrap() = String::from("2");
    *io_down.lock().unwrap() = true;
    let report = wf.handle_event(&ChangeEvent::Modified, &cell);
    assert!(matches!(report.refresh, Some(RefreshOutcome::KeptAfterIoError)));
    let guard = cell.get();
    assert_eq!(*guard.borrow(), 1);
    guard.release_read();
}

#[test]
fn manual_mode_never_refreshes_on_events() {
    let (content, reader) = shared_content("1");
    let wf: WatchedFile<fn(), _> = Watcher::new().manual().watch(String::from("n.json"), reader);
    let cell: AutoUpdated<u64> = wf.auto_updated().unwrap();
    for text in ["2", "3", "4"] {
        *content.lock().unwrap() = String::from(text);
        let report = wf.handle_event(&ChangeEvent::Modified, &cell);
        assert!(report.refresh.is_none());
    }
    let guard = cell.get();
    assert_eq!(*guard.borrow(), 1);
    guard.release_read();
}

#[test]
fn manual_mode_refreshes_on_explicit_update() {
    let (content, reader) = shared_content("1");
    let wf: WatchedFile<fn(), _> = Watcher::new().manual().watch(String::from("n.json"), reader);
    let cell: AutoUpdated<u64> = wf.auto_updated().unwrap();
    *content.lock().unwrap() = String::from("2");
    let outcome = wf.update(&cell);
    assert!(matches!(outcome, RefreshOutcome::Updated));
    let guard = cell.get();
    assert_eq!(*guard.borrow(), 2);
    guard.release_read();
}

#[test]
fn update_keeps_value_on_malformed_content() {
    let (content, reader) = shared_content("1");
    let wf: WatchedFile<fn(), _> = Watcher::new().manual().watch(String::from("n.json"), reader);
    let cell: AutoUpdated<u64> = wf.auto_updated().unwrap();
    *content.lock().unwrap() = String::from("not a number");
    let outcome = wf.update(&cell);
    assert!(matches!(outcome, RefreshOutcome::KeptAfterParseError));
    let guard = cell.get();
    assert_eq!(*guard.borrow(), 1);
    guard.release_read();
}

#[test]
fn non_modify_events_never_refresh() {
    let (content, reader) = shared_content("1");
    let wf: WatchedFile<fn(), _> = Watcher::new().watch(String::from("n.json"), reader);
    let cell: AutoUpdated<u64> = wf.auto_updated().unwrap();
    *content.lock().unwrap() = String::from("2");
    let accessed = wf.handle_event(&ChangeEvent::Accessed, &cell);
    assert!(accessed.refresh.is_none());
    let removed = wf.handle_event(&ChangeEvent::Removed, &cell);
    assert!(removed.refresh.is_none());
    let errored = wf.handle_event(&ChangeEvent::Error(String::from("tick failed")), &cell);
    assert!(errored.refresh.is_none());
    let guard = cell.get();
    assert_eq!(*guard.borrow(), 1);
    guard.release_read();
}

#[test]
fn auto_update_wraps_a_caller_value_without_reading() {
    let reader = fail as fn(&str) -> Result<String, IoError>;
    let wf: WatchedFile<fn(), _> = Watcher::new().watch(String::from("n.json"), reader);
    let cell: AutoUpdated<u64> = wf.auto_update(77);
    let guard = cell.get();
    assert_eq!(*guard.borrow(), 77);
    guard.release_read();
}

fn fail(_p: &str) -> Result<String, IoError> {
    Err(IoError { message: String::from("never readable") })
}
