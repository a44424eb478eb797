use hfmirror::error::MirrorError;
use hfmirror::orchestrator::collect_outcomes;
use hfmirror::task::{
    task_start, task_step, TaskEvent, TaskOutcome, TaskPhase, DEFAULT_SIZE_ESTIMATE,
};

#[test]
fn bad_status_skips_but_keeps_file() {
    let s0 = task_start();
    let s1 = task_step(&s0, &TaskEvent::FileCreated);
    assert!(s1.file_created);
    assert_eq!(s1.phase, TaskPhase::AwaitingResponse);
    let s2 = task_step(
        &s1,
        &TaskEvent::ResponseReceived { status: 404, content_length: Some(42) },
    );
    assert_eq!(s2.phase, TaskPhase::Done(TaskOutcome::Skipped));
    assert!(s2.file_created);
    assert_eq!(s2.bytes_written, 0);
    assert!(!s2.display_registered);
    // A skipped asset is a success for the whole run.
    assert!(collect_outcomes(&vec![TaskOutcome::Skipped]).is_ok());
}

#[test]
fn stream_error_keeps_bytes_written_so_far() {
    let s0 = task_start();
    let s1 = task_step(&s0, &TaskEvent::FileCreated);
    let s2 = task_step(
        &s1,
        &TaskEvent::ResponseReceived { status: 200, content_length: Some(1000) },
    );
    assert_eq!(s2.phase, TaskPhase::Streaming);
    assert!(s2.display_registered);
    assert_eq!(s2.expected_total, 1000);
    let s3 = task_step(&s2, &TaskEvent::ChunkWritten { len: 300 });
    let s4 = task_step(&s3, &TaskEvent::ChunkWritten { len: 200 });
    assert_eq!(s4.bytes_written, 500);
    let s5 = task_step(&s4, &TaskEvent::StreamFailed);
    assert_eq!(s5.phase, TaskPhase::Done(TaskOutcome::Failed));
    assert_eq!(s5.bytes_written, 500);
    assert!(s5.file_created);
}

#[test]
fn clean_stream_completes_with_exact_bytes() {
    let s0 = task_start();
    let s1 = task_step(&s0, &TaskEvent::FileCreated);
    let s2 = task_step(
        &s1,
        &TaskEvent::ResponseReceived { status: 200, content_length: Some(600) },
    );
    let s3 = task_step(&s2, &TaskEvent::ChunkWritten { len: 256 });
    let s4 = task_step(&s3, &TaskEvent::ChunkWritten { len: 344 });
    let s5 = task_step(&s4, &TaskEvent::StreamEnded);
    assert_eq!(s5.phase, TaskPhase::Done(TaskOutcome::Completed));
    assert_eq!(s5.bytes_written, 600);
}

#[test]
fn missing_content_length_falls_back_to_estimate() {
    let s0 = task_start();
    let s1 = task_step(&s0, &TaskEvent::FileCreated);
    let s2 = task_step(
        &s1,
        &TaskEvent::ResponseReceived { status: 200, content_length: None },
    );
    assert_eq!(s2.expected_total, DEFAULT_SIZE_ESTIMATE);
    assert_eq!(s2.expected_total, 10485760);
}

#[test]
fn request_failure_fails_the_task() {
    let s0 = task_start();
    let s1 = task_step(&s0, &TaskEvent::FileCreated);
    let s2 = task_step(&s1, &TaskEvent::RequestFailed);
    assert_eq!(s2.phase, TaskPhase::Done(TaskOutcome::Failed));
}

#[test]
fn file_create_failure_fails_the_task() {
    let s0 = task_start();
    let s1 = task_step(&s0, &TaskEvent::FileCreateFailed);
    assert_eq!(s1.phase, TaskPhase::Done(TaskOutcome::Failed));
    assert!(!s1.file_created);
}

#[test]
fn finished_task_ignores_late_events() {
    let s0 = task_start();
    let s1 = task_step(&s0, &TaskEvent::FileCreated);
    let s2 = task_step(&s1, &TaskEvent::RequestFailed);
    let s3 = task_step(&s2, &TaskEvent::ChunkWritten { len: 10 });
    assert_eq!(s3, s2);
}

#[test]
fn one_failed_task_fails_the_run_after_all_finish() {
    let outcomes = vec![
        TaskOutcome::Completed,
        TaskOutcome::Failed,
        TaskOutcome::Skipped,
    ];
    assert_eq!(collect_outcomes(&outcomes).unwrap_err(), MirrorError::TransferError);
}

#[test]
fn run_without_failures_is_ok() {
    let outcomes = vec![
        TaskOutcome::Completed,
        TaskOutcome::Skipped,
        TaskOutcome::Completed,
    ];
    assert!(collect_outcomes(&outcomes).is_ok());
    assert!(collect_outcomes(&vec![]).is_ok());
}
