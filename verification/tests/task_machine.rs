//! The task lifecycle wrapper: construction, submission, polling with
//! throttling, waiting, committing and log retrieval.
use qarnot::compute::ComputeError;
use qarnot::compute::constant::Constants;
use qarnot::compute::models::Id;
use qarnot::compute::task::{InstancesOrRange, LogSource, ProfileOrPool, State, Task};
use qarnot::compute::task_io::TaskOutput;

fn fresh_task() -> Task {
    Task::new(
        "my blend",
        ProfileOrPool::profile("blender"),
        None,
        InstancesOrRange::count(4),
        1_000,
    )
}

fn submitted_task() -> Task {
    let mut task = fresh_task();
    task.apply_submission(Id {
        uuid: Some("52c10b2d-0687-41e1-985e-7279f6dd543a".to_string()),
    });
    task
}

#[test]
fn a_fresh_wrapper_is_unsubmitted() {
    let task = fresh_task();
    assert_eq!(task.name, "my blend");
    assert_eq!(task.profile.as_deref(), Some("blender"));
    assert!(task.pool_uuid.is_none());
    assert_eq!(task.instance_count, Some(4));
    assert!(task.advanced_range.is_none());
    assert!(task.uuid.is_none());
    assert!(task.state.is_none());
    assert!(task.shortname.is_none());
    assert_eq!(task.update_cache_time_ms, 5_000);
    assert_eq!(task.last_cache_ms, 1_000);
}

#[test]
fn pool_and_range_choices_fill_the_other_fields() {
    let task = Task::new(
        "pooled",
        ProfileOrPool::pool("11111111-2222-3333-4444-555555555555"),
        Some("short".to_string()),
        InstancesOrRange::range("0-3,7"),
        0,
    );
    assert!(task.profile.is_none());
    assert_eq!(
        task.pool_uuid.as_deref(),
        Some("11111111-2222-3333-4444-555555555555")
    );
    assert!(task.instance_count.is_none());
    assert_eq!(task.advanced_range.as_deref(), Some("0-3,7"));
    assert_eq!(task.shortname.as_deref(), Some("short"));
}

#[test]
fn submission_sets_the_id_and_defaults_the_shortname() {
    let task = submitted_task();
    assert_eq!(
        task.uuid.as_deref(),
        Some("52c10b2d-0687-41e1-985e-7279f6dd543a")
    );
    assert_eq!(
        task.shortname.as_deref(),
        Some("52c10b2d-0687-41e1-985e-7279f6dd543a")
    );
}

#[test]
fn submission_keeps_an_explicit_shortname() {
    let mut task = Task::new(
        "named",
        ProfileOrPool::profile("docker-batch"),
        Some("kept".to_string()),
        InstancesOrRange::count(1),
        0,
    );
    task.apply_submission(Id {
        uuid: Some("aaaaaaaa-bbbb-cccc-dddd-eeeeeeeeeeee".to_string()),
    });
    assert_eq!(task.shortname.as_deref(), Some("kept"));
}

#[test]
fn submission_without_an_id_leaves_the_wrapper_unsubmitted() {
    let mut task = fresh_task();
    task.apply_submission(Id { uuid: None });
    assert!(task.uuid.is_none());
    assert!(matches!(task.wait_status(), Err(ComputeError::Generic)));
}

#[test]
fn wait_on_an_unsubmitted_wrapper_fails_immediately() {
    let task = fresh_task();
    assert!(matches!(task.wait_status(), Err(ComputeError::Generic)));
}

#[test]
fn logs_of_an_unsubmitted_wrapper_are_empty_without_any_fetch() {
    let task = fresh_task();
    match task.log_source() {
        LogSource::Ready(text) => assert_eq!(text, ""),
        LogSource::Remote(id) => panic!("unsubmitted task asked for a fetch of {}", id),
    }
}

#[test]
fn logs_of_a_submitted_wrapper_are_fetched_for_its_id() {
    let task = submitted_task();
    match task.log_source() {
        LogSource::Remote(id) => assert_eq!(id, "52c10b2d-0687-41e1-985e-7279f6dd543a"),
        LogSource::Ready(_) => panic!("submitted task skipped the fetch"),
    }
}

#[test]
fn polls_within_the_throttle_window_fetch_once() {
    let mut task = submitted_task();
    // First unforced poll: the wrapper was created at 1000 and the window
    // is 5000 wide, so 6000 is due.
    assert!(task.should_fetch(false, 6_000));
    let mut update = TaskOutput::default();
    update.uuid = Some("52c10b2d-0687-41e1-985e-7279f6dd543a".to_string());
    update.state = Some("FullyExecuting".to_string());
    task.apply_update(update, 6_000);
    // A second unforced poll within the window is skipped...
    assert!(!task.should_fetch(false, 6_001));
    assert!(!task.should_fetch(false, 10_999));
    // ...and one past the window fetches again.
    assert!(task.should_fetch(false, 11_000));
    // Forcing bypasses the throttle.
    assert!(task.should_fetch(true, 6_001));
}

#[test]
fn an_unsubmitted_wrapper_never_fetches() {
    let task = fresh_task();
    assert!(!task.should_fetch(false, 1_000_000));
    assert!(!task.should_fetch(true, 1_000_000));
}

#[test]
fn update_overlays_observed_fields() {
    let mut task = submitted_task();
    let mut update = TaskOutput::default();
    update.uuid = Some("52c10b2d-0687-41e1-985e-7279f6dd543a".to_string());
    update.name = Some("renamed".to_string());
    update.state = Some("FullyExecuting".to_string());
    update.previous_state = Some("Submitted".to_string());
    update.last_modified = Some("1970-01-01T00:00:10Z".to_string());
    update.end_date = Some("not a timestamp".to_string());
    update.execution_time = Some("010203".to_string());
    update.wall_time = Some("999999".to_string());
    update.progress_milli = Some(50_000);
    task.apply_update(update, 7_000);

    assert_eq!(task.name, "renamed");
    assert_eq!(task.state, Some(State::FullyExecuting));
    assert_eq!(task.previous_state.as_deref(), Some("Submitted"));
    // A parsed timestamp lands as epoch milliseconds...
    assert_eq!(task.last_modified_ms, Some(10_000));
    // ...and an unparseable one degrades to the epoch instead of failing.
    assert_eq!(task.end_date_ms, Some(0));
    // 01:02:03 is 3723 seconds into the day; an impossible time of day
    // degrades to midnight.
    assert_eq!(task.execution_time_sec, Some(3_723));
    assert_eq!(task.wall_time_sec, Some(0));
    assert_eq!(task.progress_milli, Some(50_000));
    assert_eq!(task.last_cache_ms, 7_000);
}

#[test]
fn update_without_a_name_keeps_the_local_name() {
    let mut task = submitted_task();
    let mut update = TaskOutput::default();
    update.uuid = Some("52c10b2d-0687-41e1-985e-7279f6dd543a".to_string());
    task.apply_update(update, 6_000);
    assert_eq!(task.name, "my blend");
}

#[test]
fn wait_finishes_only_on_a_terminal_state() {
    let mut task = submitted_task();
    assert_eq!(task.wait_status().unwrap(), false);
    for (wire, done) in [
        ("Submitted", false),
        ("FullyDispatched", false),
        ("FullyExecuting", false),
        ("UploadingResults", false),
        ("Success", true),
    ] {
        let mut update = TaskOutput::default();
        update.uuid = task.uuid.clone();
        update.state = Some(wire.to_string());
        task.apply_update(update, 6_000);
        assert_eq!(task.wait_status().unwrap(), done, "state {}", wire);
    }
}

#[test]
fn commit_of_an_unsubmitted_wrapper_produces_nothing() {
    let task = fresh_task();
    assert!(task.commit_input().is_none());
}

#[test]
fn commit_pushes_the_mutable_trio() {
    let mut task = submitted_task();
    let mut constants = Constants::new();
    constants.insert("DOCKER_CMD", "echo hi");
    task.constants = Some(constants);
    task.tags = Some(vec!["nightly".to_string()]);
    let update = task.commit_input().expect("a submitted task commits");
    let constants = update.constants.expect("constants travel");
    assert!(constants.get("DOCKER_CMD") == Some("echo hi".to_string()));
    assert!(update.constraints.is_none());
    assert_eq!(update.tags, Some(vec!["nightly".to_string()]));
}

#[test]
fn creation_input_carries_the_wrapper_fields() {
    let mut task = fresh_task();
    let mut constants = Constants::new();
    constants.insert("DOCKER_CMD", "echo hi");
    task.constants = Some(constants);
    task.tags = Some(vec!["a".to_string(), "b".to_string()]);
    task.result_bucket = Some("out".to_string());
    task.auto_delete = true;

    let input = task.creation_input();
    assert_eq!(input.name, "my blend");
    assert_eq!(input.profile.as_deref(), Some("blender"));
    assert_eq!(input.instance_count, Some(4));
    assert!(input.advanced_ranges.is_none());
    assert_eq!(input.result_bucket.as_deref(), Some("out"));
    assert_eq!(input.auto_delete_on_completion, Some(true));
    assert_eq!(input.upload_results_on_cancellation, Some(false));
    assert_eq!(input.tags, Some(vec!["a".to_string(), "b".to_string()]));
    let constants = input.constants.expect("constants travel");
    assert!(constants.get("DOCKER_CMD") == Some("echo hi".to_string()));
    assert!(input.forced_constants.is_none());
    assert!(input.priority.is_none());
    assert!(input.scheduling_type.is_none());
}

/// The full lifecycle against a simulated service: submit, poll to a
/// terminal state, read stdout.
#[test]
fn lifecycle_runs_to_success_and_reads_stdout() {
    let mut task = Task::new(
        "hello",
        ProfileOrPool::profile("docker-batch"),
        None,
        InstancesOrRange::count(1),
        0,
    );
    let mut constants = Constants::new();
    constants.insert("DOCKER_CMD", "echo hi");
    task.constants = Some(constants);

    // Run: the submission payload reflects the wrapper, the returned id
    // makes the task observable.
    let input = task.creation_input();
    assert_eq!(input.profile.as_deref(), Some("docker-batch"));
    assert_eq!(input.instance_count, Some(1));
    task.apply_submission(Id {
        uuid: Some("0000aaaa-1111-2222-3333-444455556666".to_string()),
    });
    assert!(task.uuid.is_some());

    // Wait: poll, applying the states the service reports, until terminal.
    let mut now_ms: i64 = 0;
    let mut reported = vec!["Success", "FullyExecuting", "Submitted"];
    loop {
        match task.wait_status() {
            Err(e) => panic!("wait failed: {:?}", e),
            Ok(true) => break,
            Ok(false) => {
                now_ms += 6_000;
                if task.should_fetch(false, now_ms) {
                    let mut update = TaskOutput::default();
                    update.uuid = task.uuid.clone();
                    update.state = Some(reported.pop().expect("terminal before exhaustion").to_string());
                    task.apply_update(update, now_ms);
                }
            }
        }
    }
    assert_eq!(task.state, Some(State::Success));

    // Stdout: the wrapper asks for a fetch of its id; the fetched text is
    // the job's output.
    match task.log_source() {
        LogSource::Remote(id) => {
            assert_eq!(id, "0000aaaa-1111-2222-3333-444455556666");
            let fetched = "hi\n".to_string();
            assert!(fetched.contains("hi"));
        }
        LogSource::Ready(_) => panic!("submitted task skipped the fetch"),
    }
}
