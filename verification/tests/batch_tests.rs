use image_optimizer::backup::BackupInfo;
use image_optimizer::batch::{BatchDriver, FileStatus};

fn paths(names: &[&str]) -> Vec<String> {
    names.iter().map(|s| s.to_string()).collect()
}

#[test]
fn batch_accounting_totals() {
    let mut d = BatchDriver::new(paths(&["a.png", "b.png", "c.png"]));
    d.record_success(String::from("out/a_optimized.png"), 100, 8, 8, None);
    d.record_failure(String::from("Failed to open image: bad"));
    d.record_success(String::from("out/c_optimized.png"), 50, 4, 4, None);
    assert!(d.is_done());
    let r = d.finish();
    assert_eq!(r.total, 3);
    assert_eq!(r.results.len(), 3);
    assert_eq!(r.success_count, 2);
    assert_eq!(r.failed_count, 1);
    assert_eq!(r.success_count + r.failed_count, r.total);
    assert!(r.backups.is_empty());
}

#[test]
fn success_record_carries_backup_info() {
    let mut d = BatchDriver::new(paths(&["a.png"]));
    let info = BackupInfo {
        original_path: String::from("a.png"),
        backup_path: String::from(".image_optimizer_backups/1_a.png"),
    };
    d.record_success(String::from("out/a.png"), 5, 1, 1, Some(info.clone()));
    let r = d.finish();
    assert_eq!(r.results[0].backup, Some(info));
    assert!(r.backups.is_empty());
}

#[test]
fn batch_results_follow_path_order() {
    let mut d = BatchDriver::new(paths(&["x.png", "y.png"]));
    assert_eq!(d.next_path().as_deref(), Some("x.png"));
    d.record_failure(String::from("nope"));
    assert_eq!(d.next_path().as_deref(), Some("y.png"));
    d.record_success(String::from("out/y_optimized.png"), 10, 2, 2, None);
    assert_eq!(d.next_path(), None);
    let r = d.finish();
    assert_eq!(r.results[0].path, "x.png");
    assert_eq!(r.results[1].path, "y.png");
    assert!(matches!(r.results[0].status, FileStatus::Failed));
    assert!(matches!(r.results[1].status, FileStatus::Success));
    assert_eq!(r.results[1].output_path.as_deref(), Some("out/y_optimized.png"));
    assert_eq!(r.results[1].output_size, Some(10));
    assert_eq!(r.results[1].output_width, Some(2));
    assert_eq!(r.results[1].output_height, Some(2));
    assert_eq!(r.results[1].error, None);
}

#[test]
fn cancellation_fails_unprocessed_tail() {
    let mut d = BatchDriver::new(paths(&["a.png", "b.png", "c.png", "d.png"]));
    d.record_success(String::from("out/a_optimized.png"), 9, 1, 1, None);
    d.record_failure(String::from("broken"));
    d.cancel_remaining();
    assert!(d.is_done());
    let r = d.finish();
    assert_eq!(r.total, 4);
    assert_eq!(r.success_count, 1);
    assert_eq!(r.failed_count, 3);
    assert!(matches!(r.results[0].status, FileStatus::Success));
    assert_eq!(r.results[1].error.as_deref(), Some("broken"));
    for i in 2..4 {
        assert!(matches!(r.results[i].status, FileStatus::Failed));
        assert_eq!(r.results[i].error.as_deref(), Some("Cancelled"));
        assert_eq!(r.results[i].output_path, None);
        assert_eq!(r.results[i].path, ["a.png", "b.png", "c.png", "d.png"][i]);
    }
}

#[test]
fn cancellation_of_whole_batch() {
    let mut d = BatchDriver::new(paths(&["a.png", "b.png"]));
    d.cancel_remaining();
    let r = d.finish();
    assert_eq!(r.total, 2);
    assert_eq!(r.success_count, 0);
    assert_eq!(r.failed_count, 2);
    assert_eq!(r.results[0].error.as_deref(), Some("Cancelled"));
}

#[test]
fn empty_batch_finishes_immediately() {
    let d = BatchDriver::new(Vec::new());
    assert!(d.is_done());
    let r = d.finish();
    assert_eq!(r.total, 0);
    assert_eq!(r.success_count + r.failed_count, 0);
}

#[test]
fn progress_reflects_driver_state() {
    let mut d = BatchDriver::new(paths(&["a.png", "b.png"]));
    let p0 = d.progress(Some(String::from("a.png")));
    assert_eq!(p0.current_index, 0);
    assert_eq!(p0.total, 2);
    assert_eq!(p0.success_count, 0);
    assert_eq!(p0.failed_count, 0);
    assert_eq!(p0.current_file.as_deref(), Some("a.png"));
    d.record_success(String::from("out/a_optimized.png"), 1, 1, 1, None);
    let p1 = d.progress(None);
    assert_eq!(p1.current_index, 1);
    assert_eq!(p1.success_count, 1);
    assert_eq!(p1.current_file, None);
}
