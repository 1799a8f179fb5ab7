use fv::fs::async_job::checkpoint::{
    for_each_until_cancelled, notify_scan_progress, process_items, CollectStatus, SCAN_NOTIFY_BATCH,
};
use fv::state::Phase;
use fv::fs::async_job::plan::{entry_step, EntryStep};
use std::sync::atomic::{AtomicBool, Ordering};

#[test]
fn for_each_until_cancelled_runs_op_for_every_item_and_returns_completed() {
    let items = [1, 2, 3];
    let cancel = AtomicBool::new(false);
    let mut seen = Vec::new();

    let outcome = for_each_until_cancelled(&items, &|| cancel.load(Ordering::Relaxed), |&n| -> Result<(), String> {
        seen.push(n);
        Ok(())
    })
    .expect("no error");

    assert_eq!(outcome, CollectStatus::Completed, "all items processed");
    assert_eq!(seen, vec![1, 2, 3]);
}

#[test]
fn for_each_until_cancelled_stops_before_op_when_cancel_is_preset() {
    let items = [1, 2, 3];
    let cancel = AtomicBool::new(true);
    let mut called = false;

    let outcome = for_each_until_cancelled(&items, &|| cancel.load(Ordering::Relaxed), |_| -> Result<(), String> {
        called = true;
        Ok(())
    })
    .expect("preset cancel is not an error");

    assert_eq!(outcome, CollectStatus::Cancelled, "preset cancel → Cancelled");
    assert!(!called, "op must not run when cancel is preset");
}

#[test]
fn for_each_until_cancelled_propagates_op_error_when_not_cancelled() {
    let items = [1, 2, 3];
    let cancel = AtomicBool::new(false);

    let result = for_each_until_cancelled(&items, &|| cancel.load(Ordering::Relaxed), |&n| {
        if n == 2 {
            return Err(format!("boom at {n}"));
        }
        Ok(())
    });

    let err = result.expect_err("op error propagates when not cancelled");
    assert!(err.contains("boom at 2"));
}

#[test]
fn for_each_until_cancelled_folds_op_error_into_cancel_when_cancel_is_set() {
    let items = [1, 2, 3];
    let cancel = AtomicBool::new(false);

    let outcome = for_each_until_cancelled(&items, &|| cancel.load(Ordering::Relaxed), |&n| {
        if n == 2 {
            cancel.store(true, Ordering::Relaxed);
            return Err("error coincides with cancel".to_string());
        }
        Ok(())
    })
    .expect("error coinciding with cancel is folded into cancel, not surfaced");

    assert_eq!(outcome, CollectStatus::Cancelled, "folded cancel → Cancelled");
}

#[test]
fn process_items_emits_progress_per_success_with_len_as_total() {
    let items = ["a", "b", "c"];
    let cancel = AtomicBool::new(false);
    let mut events = Vec::new();

    let outcome = process_items(
        &items,
        Phase::Copying,
        &|| cancel.load(Ordering::Relaxed),
        &mut |phase, done, total| events.push((phase, done, total)),
        |_| -> Result<(), String> { Ok(()) },
    )
    .expect("no error");

    assert_eq!(outcome, CollectStatus::Completed, "all items processed");
    assert_eq!(
        events,
        vec![
            (Phase::Copying, 1, Some(3)),
            (Phase::Copying, 2, Some(3)),
            (Phase::Copying, 3, Some(3)),
        ]
    );
}

#[test]
fn process_items_stops_at_the_first_error_without_reporting_it() {
    let items = [1, 2, 3];
    let cancel = AtomicBool::new(false);
    let mut events = Vec::new();

    let result = process_items(
        &items,
        Phase::Deleting,
        &|| cancel.load(Ordering::Relaxed),
        &mut |phase, done, total| events.push((phase, done, total)),
        |&n| if n == 2 { Err("denied".to_string()) } else { Ok(()) },
    );

    assert_eq!(result, Err("denied".to_string()));
    assert_eq!(events, vec![(Phase::Deleting, 1, Some(3))]);
}

#[test]
fn notify_scan_progress_fires_only_on_positive_batch_multiples() {
    let mut events = Vec::new();
    for count in [0, 1, SCAN_NOTIFY_BATCH - 1, SCAN_NOTIFY_BATCH, SCAN_NOTIFY_BATCH + 1, 2 * SCAN_NOTIFY_BATCH] {
        notify_scan_progress(count, &mut |phase, k, total| events.push((phase, k, total)));
    }
    assert_eq!(
        events,
        vec![(Phase::Scanning, SCAN_NOTIFY_BATCH, None), (Phase::Scanning, 2 * SCAN_NOTIFY_BATCH, None)]
    );
}

#[test]
fn for_each_until_cancelled_completes_on_no_items_whatever_the_token() {
    let items: [u8; 0] = [];
    let cancel = AtomicBool::new(true);
    let outcome = for_each_until_cancelled(&items, &|| cancel.load(Ordering::Relaxed), |_| -> Result<(), String> { Ok(()) }).expect("no error");
    assert_eq!(outcome, CollectStatus::Completed);
}

#[test]
fn a_walk_recurses_into_directories_and_keeps_links_as_links() {
    assert_eq!(entry_step(true, false), EntryStep::Recurse);
    assert_eq!(entry_step(true, true), EntryStep::CopyLink);
    assert_eq!(entry_step(false, true), EntryStep::CopyLink);
    assert_eq!(entry_step(false, false), EntryStep::CopyFile);
}

#[test]
fn process_items_reports_each_success_before_a_cancel() {
    let items = ["a", "b", "c"];
    let cancel = AtomicBool::new(false);
    let mut events = Vec::new();
    let outcome = process_items(
        &items,
        Phase::Copying,
        &|| cancel.load(Ordering::Relaxed),
        &mut |phase, done, total| events.push((phase, done, total)),
        |item: &&str| -> Result<(), String> {
            if *item == "b" {
                cancel.store(true, Ordering::Relaxed);
            }
            Ok(())
        },
    )
    .expect("no error");
    assert_eq!(outcome, CollectStatus::Cancelled);
    assert_eq!(events, vec![(Phase::Copying, 1, Some(3)), (Phase::Copying, 2, Some(3))]);
}
