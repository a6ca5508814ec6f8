use dirwatch::batch::PendingBatch;
use dirwatch::clock::current_time_as_millis;

fn paths(items: &[&str]) -> Vec<String> {
    items.iter().map(|s| s.to_string()).collect()
}

#[test]
fn new_batch_is_empty_and_never_due() {
    let batch = PendingBatch::new();
    assert!(batch.is_empty());
    assert_eq!(batch.len(), 0);
    assert_eq!(batch.last_update_ms(), None);
    assert!(!batch.should_flush(0, 500));
    assert!(!batch.should_flush(u128::MAX, 500));
}

#[test]
fn record_at_appends_and_notes_the_time() {
    let mut batch = PendingBatch::new();
    batch.record_at(paths(&["a.txt"]), 1_000);
    assert_eq!(batch.len(), 1);
    assert_eq!(batch.last_update_ms(), Some(1_000));
    batch.record_at(paths(&["b.txt", "a.txt"]), 1_200);
    assert_eq!(batch.len(), 3);
    assert_eq!(batch.last_update_ms(), Some(1_200));
    assert_eq!(batch.flush(), paths(&["a.txt", "b.txt", "a.txt"]));
}

#[test]
fn batch_is_due_only_after_more_than_the_interval() {
    let mut batch = PendingBatch::new();
    batch.record_at(paths(&["a.txt"]), 1_000);
    assert!(!batch.should_flush(1_000, 500));
    assert!(!batch.should_flush(1_499, 500));
    assert!(!batch.should_flush(1_500, 500));
    assert!(batch.should_flush(1_501, 500));
    assert!(batch.should_flush(9_000, 500));
}

#[test]
fn batch_is_not_due_when_the_clock_went_backward() {
    let mut batch = PendingBatch::new();
    batch.record_at(paths(&["a.txt"]), 1_000);
    assert!(!batch.should_flush(999, 500));
    assert!(!batch.should_flush(0, 0));
}

#[test]
fn interval_of_zero_is_due_one_millisecond_later() {
    let mut batch = PendingBatch::new();
    batch.record_at(paths(&["a.txt"]), 1_000);
    assert!(!batch.should_flush(1_000, 0));
    assert!(batch.should_flush(1_001, 0));
}

#[test]
fn recording_nothing_is_never_due_though_it_notes_the_time() {
    let mut batch = PendingBatch::new();
    batch.record_at(Vec::new(), 1_000);
    assert_eq!(batch.last_update_ms(), Some(1_000));
    assert!(batch.is_empty());
    assert!(!batch.should_flush(5_000, 500));
}

#[test]
fn later_recording_defers_the_flush() {
    let mut batch = PendingBatch::new();
    batch.record_at(paths(&["a.txt"]), 1_000);
    batch.record_at(paths(&["a.txt"]), 1_400);
    assert!(!batch.should_flush(1_501, 500));
    assert!(!batch.should_flush(1_900, 500));
    assert!(batch.should_flush(1_901, 500));
}

#[test]
fn flush_hands_over_everything_and_clears() {
    let mut batch = PendingBatch::new();
    batch.record_at(paths(&["x", "y"]), 10);
    assert_eq!(batch.flush(), paths(&["x", "y"]));
    assert!(batch.is_empty());
    assert_eq!(batch.last_update_ms(), None);
    assert!(!batch.should_flush(10_000, 500));
    assert_eq!(batch.flush(), Vec::<String>::new());
}

#[test]
fn large_times_do_not_wrap() {
    let mut batch = PendingBatch::new();
    batch.record_at(paths(&["a"]), u128::MAX - 10);
    assert!(!batch.should_flush(u128::MAX, 10));
    assert!(batch.should_flush(u128::MAX, 9));
    assert!(!batch.should_flush(5, u128::MAX));
}

#[test]
fn record_notes_the_current_time() {
    let before = current_time_as_millis().expect("the clock stands after the epoch");
    let mut batch = PendingBatch::new();
    assert!(batch.record(paths(&["a.txt", "b.txt"])));
    let after = current_time_as_millis().expect("the clock stands after the epoch");
    let noted = batch.last_update_ms().expect("a time was noted");
    assert!(before <= noted && noted <= after);
    assert_eq!(batch.flush(), paths(&["a.txt", "b.txt"]));
}

#[test]
fn clock_reads_a_time_after_the_year_2020() {
    let now = current_time_as_millis().expect("the clock stands after the epoch");
    assert!(now > 1_577_836_800_000);
    assert!(current_time_as_millis() >= Some(now));
}

#[test]
fn lone_path_is_the_path_of_a_batch_of_one() {
    let mut batch = PendingBatch::new();
    assert_eq!(batch.lone_path(), None);
    batch.record_at(paths(&["a.txt"]), 10);
    assert_eq!(batch.lone_path(), Some(&"a.txt".to_string()));
    batch.record_at(paths(&["b.txt"]), 20);
    assert_eq!(batch.lone_path(), None);
    batch.flush();
    assert_eq!(batch.lone_path(), None);
}
