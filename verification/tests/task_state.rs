//! The execution-state mapping and its terminal/non-terminal split.
use qarnot::compute::task::State;

#[test]
fn every_known_wire_state_maps_to_its_member() {
    assert_eq!(State::from("Submitted"), State::Submitted);
    assert_eq!(State::from("PartiallyDispatched"), State::PartiallyDispatched);
    assert_eq!(State::from("FullyDispatched"), State::FullyDispatched);
    assert_eq!(State::from("PartiallyExecuting"), State::PartiallyExecuting);
    assert_eq!(State::from("FullyExecuting"), State::FullyExecuting);
    assert_eq!(State::from("DownloadingResults"), State::DownloadingResults);
    assert_eq!(State::from("UploadingResults"), State::UploadingResults);
    assert_eq!(State::from("Cancelled"), State::Cancelled);
    assert_eq!(State::from("Success"), State::Success);
    assert_eq!(State::from("Failure"), State::Failure);
    assert_eq!(State::from("PendingDelete"), State::PendingDelete);
    assert_eq!(State::from("PendingCancel"), State::PendingCancel);
}

#[test]
fn unrecognized_wire_state_maps_to_failure() {
    assert_eq!(State::from("Bogus"), State::Failure);
    assert_eq!(State::from(""), State::Failure);
    assert_eq!(State::from("submitted"), State::Failure);
}

#[test]
fn non_terminal_states_keep_polling() {
    assert!(State::Submitted.is_running_or_downloading());
    assert!(State::PartiallyDispatched.is_running_or_downloading());
    assert!(State::FullyDispatched.is_running_or_downloading());
    assert!(State::PartiallyExecuting.is_running_or_downloading());
    assert!(State::FullyExecuting.is_running_or_downloading());
    assert!(State::DownloadingResults.is_running_or_downloading());
    assert!(State::UploadingResults.is_running_or_downloading());
}

#[test]
fn terminal_states_stop_polling() {
    assert!(!State::Cancelled.is_running_or_downloading());
    assert!(!State::Success.is_running_or_downloading());
    assert!(!State::Failure.is_running_or_downloading());
    assert!(!State::PendingDelete.is_running_or_downloading());
    assert!(!State::PendingCancel.is_running_or_downloading());
}
