use kobo::error::ProtocolError;
use kobo::task::TaskError;
use kobo::task_codec::{decode_task_error, encode_task_error};

const EVERY: &[TaskError] = &[
    TaskError::Denied,
    TaskError::NoCredential,
    TaskError::Offline,
    TaskError::Unreachable,
    TaskError::TooLarge,
    TaskError::TimedOut,
    TaskError::NotFound,
    TaskError::Unauthorized,
    TaskError::LocalStorage,
    TaskError::RevocationUnconfirmed,
];

#[test]
fn every_task_error_survives_the_wire() {
    for error in EVERY {
        assert_eq!(decode_task_error(encode_task_error(*error)), Ok(*error));
    }
}

#[test]
fn no_two_task_errors_share_a_tag() {
    let mut tags: Vec<u8> = EVERY
        .iter()
        .map(|error| encode_task_error(*error))
        .collect();
    tags.sort_unstable();
    let count = tags.len();
    tags.dedup();
    assert_eq!(tags.len(), count, "two errors encode to the same tag");
}

#[test]
fn the_tags_that_were_already_on_the_wire_did_not_move() {
    assert_eq!(encode_task_error(TaskError::Denied), 0);
    assert_eq!(encode_task_error(TaskError::Unreachable), 1);
    assert_eq!(encode_task_error(TaskError::TooLarge), 2);
    assert_eq!(encode_task_error(TaskError::TimedOut), 3);
    assert_eq!(encode_task_error(TaskError::NotFound), 4);
    assert_eq!(encode_task_error(TaskError::Offline), 5);
    assert_eq!(encode_task_error(TaskError::NoCredential), 6);
    assert_eq!(encode_task_error(TaskError::Unauthorized), 7);
}

#[test]
fn logout_errors_keep_append_only_wire_tags() {
    assert_eq!(encode_task_error(TaskError::LocalStorage), 8);
    assert_eq!(encode_task_error(TaskError::RevocationUnconfirmed), 9);
    assert_eq!(decode_task_error(8), Ok(TaskError::LocalStorage));
    assert_eq!(decode_task_error(9), Ok(TaskError::RevocationUnconfirmed));
}

#[test]
fn a_missing_key_and_a_refused_permission_do_not_share_a_sentence() {
    let denied = TaskError::Denied.to_string();
    let absent = TaskError::NoCredential.to_string();
    assert_ne!(denied, absent);
    assert!(absent.contains("key"), "{absent}");
    assert!(!TaskError::NoCredential.worth_retrying());
}

#[test]
fn a_tag_from_the_future_is_refused_rather_than_guessed() {
    assert_eq!(
        decode_task_error(10),
        Err(ProtocolError::InvalidValue("task error"))
    );
    assert_eq!(
        decode_task_error(255),
        Err(ProtocolError::InvalidValue("task error"))
    );
}

#[test]
fn only_the_failures_that_could_pass_next_time_are_worth_retrying() {
    assert!(TaskError::Offline.worth_retrying());
    assert!(TaskError::Unreachable.worth_retrying());
    assert!(TaskError::TimedOut.worth_retrying());
    assert!(!TaskError::Denied.worth_retrying());
    assert!(!TaskError::TooLarge.worth_retrying());
    assert!(!TaskError::NotFound.worth_retrying());
}

#[test]
fn the_two_network_failures_do_not_read_the_same() {
    let offline = TaskError::Offline.to_string();
    let unreachable = TaskError::Unreachable.to_string();
    assert_ne!(offline, unreachable);
    assert!(offline.contains("not on a network"), "{offline}");
    assert!(unreachable.contains("host"), "{unreachable}");
}
