use dirwatch::controller::{FileWatcher, WatchAction, WatchInput};
use dirwatch::classify::{RawEvent, RawPath};
use dirwatch::error::WatcherInitError;
use dirwatch::notifier::{perform, FollowUp, WatchDirectoryNotifier};
use std::cell::RefCell;

struct Recorder {
    keep: bool,
    batches: RefCell<Vec<Vec<String>>>,
    errors: RefCell<Vec<i32>>,
}

impl Recorder {
    fn new(keep: bool) -> Recorder {
        Recorder { keep, batches: RefCell::new(Vec::new()), errors: RefCell::new(Vec::new()) }
    }
}

impl WatchDirectoryNotifier for Recorder {
    fn should_keep_looping(&self) -> bool {
        self.keep
    }

    fn detected_change(&self, paths: Vec<String>) {
        self.batches.borrow_mut().push(paths);
    }

    fn on_error(&self, code: i32) {
        self.errors.borrow_mut().push(code);
    }
}

fn timeout(now: u128) -> WatchInput {
    WatchInput::Timeout { now, lone_path_is_dir: false }
}

fn strings(items: &[&str]) -> Vec<String> {
    items.iter().map(|s| s.to_string()).collect()
}

#[test]
fn nothing_calls_nobody() {
    let recorder = Recorder::new(true);
    assert_eq!(perform(WatchAction::Nothing, &recorder), FollowUp::Continue);
    assert!(recorder.batches.borrow().is_empty());
    assert!(recorder.errors.borrow().is_empty());
}

#[test]
fn receive_is_left_to_the_driver() {
    let recorder = Recorder::new(true);
    assert_eq!(
        perform(WatchAction::Receive { timeout_ms: 250 }, &recorder),
        FollowUp::Receive { timeout_ms: 250 }
    );
    assert!(recorder.batches.borrow().is_empty());
}

#[test]
fn delivery_hands_the_batch_over() {
    let recorder = Recorder::new(true);
    assert_eq!(
        perform(WatchAction::Deliver { paths: strings(&["a", "b"]) }, &recorder),
        FollowUp::Continue
    );
    assert_eq!(*recorder.batches.borrow(), vec![strings(&["a", "b"])]);
}

#[test]
fn empty_batch_is_not_handed_over() {
    let recorder = Recorder::new(true);
    assert_eq!(perform(WatchAction::Deliver { paths: Vec::new() }, &recorder), FollowUp::Continue);
    assert_eq!(
        perform(WatchAction::Stop { final_batch: Some(Vec::new()) }, &recorder),
        FollowUp::Unwatch
    );
    assert!(recorder.batches.borrow().is_empty());
}

#[test]
fn stop_hands_the_final_batch_over_before_the_watch_goes() {
    let recorder = Recorder::new(true);
    assert_eq!(
        perform(WatchAction::Stop { final_batch: Some(strings(&["z"])) }, &recorder),
        FollowUp::Unwatch
    );
    assert_eq!(*recorder.batches.borrow(), vec![strings(&["z"])]);
    assert_eq!(perform(WatchAction::Stop { final_batch: None }, &recorder), FollowUp::Unwatch);
    assert_eq!(recorder.batches.borrow().len(), 1);
}

#[test]
fn error_is_reported_by_its_code() {
    let recorder = Recorder::new(true);
    assert_eq!(
        perform(WatchAction::ReportError { error: WatcherInitError::MaxFilesWatch }, &recorder),
        FollowUp::Finished
    );
    assert_eq!(*recorder.errors.borrow(), vec![6]);
    assert!(recorder.batches.borrow().is_empty());
}

#[test]
fn nonexistent_root_gives_one_error_and_no_change() {
    let recorder = Recorder::new(true);
    let mut watcher = FileWatcher::new();
    let first = watcher.step(WatchInput::start_failed(notify::ErrorKind::PathNotFound));
    assert_eq!(perform(first, &recorder), FollowUp::Finished);
    for _ in 0..3 {
        let poll = watcher.step(WatchInput::Poll { keep_looping: recorder.should_keep_looping() });
        assert_eq!(perform(poll, &recorder), FollowUp::Continue);
        let tick = watcher.step(timeout(10_000));
        assert_eq!(perform(tick, &recorder), FollowUp::Continue);
    }
    assert_eq!(*recorder.errors.borrow(), vec![3]);
    assert!(recorder.batches.borrow().is_empty());
}

#[test]
fn driven_session_delivers_then_stops() {
    let recorder = Recorder::new(true);
    let stopper = Recorder::new(false);
    let mut watcher = FileWatcher::new();
    let started = watcher.step(WatchInput::Started {
        root_path: "/repo".to_string(),
        exclusion_root: "/repo/.git/".to_string(),
    });
    assert_eq!(perform(started, &recorder), FollowUp::Continue);
    let mut unwatched = 0;
    let arrivals: Vec<(Option<&str>, u128)> = vec![
        (Some("/repo/a.txt"), 1_000),
        (Some("/repo/b.txt"), 1_100),
        (None, 1_601),
        (Some("/repo/c.txt"), 2_000),
    ];
    for (path, now) in arrivals {
        let poll = watcher.step(WatchInput::Poll { keep_looping: recorder.should_keep_looping() });
        assert_eq!(perform(poll, &recorder), FollowUp::Receive { timeout_ms: 500 });
        let input = match path {
            Some(text) => WatchInput::Change {
                event: RawEvent {
                    affected_paths: vec![RawPath { text: Some(text.to_string()), is_dir: false }],
                },
                now,
            },
            None => timeout(now),
        };
        assert_eq!(perform(watcher.step(input), &recorder), FollowUp::Continue);
    }
    let poll = watcher.step(WatchInput::Poll { keep_looping: stopper.should_keep_looping() });
    if perform(poll, &recorder) == FollowUp::Unwatch {
        unwatched += 1;
        assert_eq!(perform(watcher.step(WatchInput::Unwatched), &recorder), FollowUp::Continue);
    }
    let again = watcher.step(WatchInput::Poll { keep_looping: false });
    assert_eq!(perform(again, &recorder), FollowUp::Continue);
    assert_eq!(unwatched, 1);
    assert_eq!(
        *recorder.batches.borrow(),
        vec![strings(&["/repo/a.txt", "/repo/b.txt"]), strings(&["/repo/c.txt"])]
    );
    assert!(recorder.errors.borrow().is_empty());
}
