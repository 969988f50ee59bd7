use kobo::command::Command;
use kobo::context::Context;
use kobo::heartbeat::{Heartbeat, DEFAULT_HEARTBEAT_SECONDS};
use kobo::limits::MAX_SHELF_CHUNK;
use kobo::shelf::{ShelfDownload, ShelfProgress, ShelfUpload, MAX_SHELF_DOWNLOAD};
use kobo::span::Span;
use kobo::store::{StoreError, StoreRequest, StoreResult};
use kobo::task::{Task, TaskId, TaskOutcome};
use std::cell::RefCell;
use std::collections::BTreeMap;

#[derive(Default)]
struct Shelf {
    partial: RefCell<BTreeMap<String, Vec<u8>>>,
    finished: RefCell<BTreeMap<String, Vec<u8>>>,
}

impl Shelf {
    fn handle(&self, request: &StoreRequest) -> StoreResult {
        match request {
            StoreRequest::ShelfWrite {
                name,
                offset,
                bytes,
                last,
            } => {
                let mut partial = self.partial.borrow_mut();
                let so_far = partial.entry(name.clone()).or_default();
                if *offset == 0 {
                    so_far.clear();
                }
                if *offset as usize != so_far.len() {
                    return StoreResult::Denied(StoreError::Missing);
                }
                so_far.extend_from_slice(bytes);
                let size = so_far.len() as u32;
                if *last {
                    let whole = partial.remove(name).expect("just written");
                    self.finished.borrow_mut().insert(name.clone(), whole);
                }
                StoreResult::ShelfWritten {
                    name: name.clone(),
                    size,
                }
            }
            StoreRequest::ShelfRead {
                name,
                offset,
                length,
            } => match self.finished.borrow().get(name) {
                None => StoreResult::Denied(StoreError::Missing),
                Some(whole) => {
                    let from = (*offset as usize).min(whole.len());
                    let to = (from + *length as usize).min(whole.len());
                    StoreResult::ShelfRead {
                        name: name.clone(),
                        offset: *offset,
                        bytes: whole[from..to].to_vec(),
                        size: whole.len() as u32,
                    }
                }
            },
            other => panic!("not a shelf request: {other:?}"),
        }
    }
}

fn drive(
    shelf: &Shelf,
    mut step: impl FnMut(&mut Context, Option<&StoreResult>) -> ShelfProgress,
) -> (ShelfProgress, usize) {
    let mut context = Context::default();
    let mut progress = step(&mut context, None);
    let mut trips = 0;
    while matches!(progress, ShelfProgress::Moving { .. }) || trips == 0 {
        let Some(Command::Store(request)) = context.take_commands().pop() else {
            break;
        };
        trips += 1;
        assert!(trips < 10_000, "a transfer did not terminate");
        let result = shelf.handle(&request);
        progress = step(&mut context, Some(&result));
        if !matches!(progress, ShelfProgress::Moving { .. }) {
            break;
        }
    }
    (progress, trips)
}

#[test]
fn a_blob_larger_than_a_frame_survives_the_whole_round_trip() {
    let shelf = Shelf::default();
    let book: Vec<u8> = (0..600_000u32).map(|index| (index % 251) as u8).collect();

    let mut upload = ShelfUpload::new("book.txt", book.clone());
    let (progress, trips) = drive(&shelf, |context, result| match result {
        None => {
            upload.start(context);
            ShelfProgress::Moving { done: 0, total: 0 }
        }
        Some(result) => upload.advance(context, result),
    });
    assert_eq!(progress, ShelfProgress::Done);
    assert_eq!(trips, 3, "600 kB took an unexpected number of round trips");

    let mut download = ShelfDownload::new("book.txt");
    let (progress, _) = drive(&shelf, |context, result| match result {
        None => {
            download.start(context);
            ShelfProgress::Moving { done: 0, total: 0 }
        }
        Some(result) => download.advance(context, result),
    });
    assert_eq!(progress, ShelfProgress::Done);
    assert_eq!(download.take(), book, "the book came back different");
}

#[test]
fn an_empty_blob_still_finishes() {
    let shelf = Shelf::default();
    let mut upload = ShelfUpload::new("empty.txt", Vec::new());
    let (progress, trips) = drive(&shelf, |context, result| match result {
        None => {
            upload.start(context);
            ShelfProgress::Moving { done: 0, total: 0 }
        }
        Some(result) => upload.advance(context, result),
    });
    assert_eq!(progress, ShelfProgress::Done);
    assert_eq!(trips, 1);

    let mut download = ShelfDownload::new("empty.txt");
    let (progress, _) = drive(&shelf, |context, result| match result {
        None => {
            download.start(context);
            ShelfProgress::Moving { done: 0, total: 0 }
        }
        Some(result) => download.advance(context, result),
    });
    assert_eq!(progress, ShelfProgress::Done);
    assert!(download.take().is_empty());
}

#[test]
fn a_restarted_upload_replaces_what_the_first_attempt_left() {
    let shelf = Shelf::default();
    let mut abandoned = ShelfUpload::new("book.txt", vec![b'x'; 300_000]);
    let mut context = Context::default();
    abandoned.start(&mut context);
    if let Some(Command::Store(request)) = context.take_commands().pop() {
        let _ignored = shelf.handle(&request);
    }

    let mut upload = ShelfUpload::new("book.txt", b"the real one".to_vec());
    let (progress, _) = drive(&shelf, |context, result| match result {
        None => {
            upload.start(context);
            ShelfProgress::Moving { done: 0, total: 0 }
        }
        Some(result) => upload.advance(context, result),
    });
    assert_eq!(progress, ShelfProgress::Done);

    let mut download = ShelfDownload::new("book.txt");
    let (progress, _) = drive(&shelf, |context, result| match result {
        None => {
            download.start(context);
            ShelfProgress::Moving { done: 0, total: 0 }
        }
        Some(result) => download.advance(context, result),
    });
    assert_eq!(progress, ShelfProgress::Done);
    assert_eq!(download.take(), b"the real one");
}

#[test]
fn a_download_of_something_that_is_not_there_fails_rather_than_returning_nothing() {
    let shelf = Shelf::default();
    let mut download = ShelfDownload::new("absent.txt");
    let (progress, _) = drive(&shelf, |context, result| match result {
        None => {
            download.start(context);
            ShelfProgress::Moving { done: 0, total: 0 }
        }
        Some(result) => download.advance(context, result),
    });
    assert_eq!(progress, ShelfProgress::Failed(StoreError::Missing));
}

#[test]
fn a_transfer_ignores_an_answer_that_is_not_its_own() {
    let mut context = Context::default();
    let mut upload = ShelfUpload::new("mine.txt", b"x".to_vec());
    assert_eq!(
        upload.advance(
            &mut context,
            &StoreResult::ShelfWritten {
                name: "theirs.txt".into(),
                size: 1,
            }
        ),
        ShelfProgress::Elsewhere
    );
    assert_eq!(
        upload.advance(&mut context, &StoreResult::Keys(Vec::new())),
        ShelfProgress::Elsewhere
    );
    assert!(
        context.take_commands().is_empty(),
        "a transfer acted on somebody else's answer"
    );
}

#[test]
fn a_download_refuses_a_piece_that_does_not_join_on() {
    let mut context = Context::default();
    let mut download = ShelfDownload::new("book.txt");
    assert_eq!(
        download.advance(
            &mut context,
            &StoreResult::ShelfRead {
                name: "book.txt".into(),
                offset: 4096,
                bytes: b"middle".to_vec(),
                size: 9000,
            }
        ),
        ShelfProgress::Failed(StoreError::Missing)
    );
}

#[test]
fn a_download_stops_at_its_ceiling_instead_of_filling_memory() {
    let mut context = Context::default();
    let mut download = ShelfDownload::new("huge.txt").at_most(1024);
    assert_eq!(
        download.advance(
            &mut context,
            &StoreResult::ShelfRead {
                name: "huge.txt".into(),
                offset: 0,
                bytes: vec![0; 16],
                size: 40_000_000,
            }
        ),
        ShelfProgress::Failed(StoreError::TooFull)
    );
    assert!(context.take_commands().is_empty());
}

#[test]
fn an_empty_piece_before_the_end_is_not_asked_for_again() {
    let mut context = Context::default();
    let mut download = ShelfDownload::new("book.txt");
    assert_eq!(
        download.advance(
            &mut context,
            &StoreResult::ShelfRead {
                name: "book.txt".into(),
                offset: 0,
                bytes: Vec::new(),
                size: 9,
            }
        ),
        ShelfProgress::Failed(StoreError::Missing)
    );
    assert!(context.commands().is_empty());
    assert!(download.bytes().is_empty());
    assert_eq!(download.name(), "book.txt");
}

#[test]
fn pieces_are_cut_where_the_shelf_says_the_last_one_ended() {
    let mut context = Context::default();
    let mut upload = ShelfUpload::new("book.txt", vec![7; MAX_SHELF_CHUNK + 10]);
    upload.start(&mut context);
    assert_eq!(
        upload.advance(
            &mut context,
            &StoreResult::ShelfWritten {
                name: "book.txt".into(),
                size: MAX_SHELF_CHUNK as u32,
            }
        ),
        ShelfProgress::Moving {
            done: MAX_SHELF_CHUNK as u32,
            total: MAX_SHELF_CHUNK as u32 + 10,
        }
    );
    assert_eq!(
        context.take_commands(),
        vec![
            Command::Store(StoreRequest::ShelfWrite {
                name: "book.txt".into(),
                offset: 0,
                bytes: vec![7; MAX_SHELF_CHUNK],
                last: false,
            }),
            Command::Store(StoreRequest::ShelfWrite {
                name: "book.txt".into(),
                offset: MAX_SHELF_CHUNK as u32,
                bytes: vec![7; 10],
                last: true,
            }),
        ]
    );
    assert_eq!(
        upload.advance(&mut context, &StoreResult::Denied(StoreError::NoRoom)),
        ShelfProgress::Failed(StoreError::NoRoom)
    );
    assert_eq!(upload.name(), "book.txt");
}

#[test]
fn a_ceiling_can_be_lowered_and_not_raised() {
    let mut context = Context::default();
    let mut download = ShelfDownload::new("huge.txt").at_most(usize::MAX);
    assert_eq!(
        download.advance(
            &mut context,
            &StoreResult::ShelfRead {
                name: "huge.txt".into(),
                offset: 0,
                bytes: vec![0; 16],
                size: MAX_SHELF_DOWNLOAD as u32 + 1,
            }
        ),
        ShelfProgress::Failed(StoreError::TooFull)
    );
}

#[test]
fn a_heartbeat_re_arms_itself_until_it_is_stopped() {
    let mut context = Context::default();
    let mut clock = Heartbeat::every(5);
    assert!(!clock.is_running());
    clock.start(&mut context);
    let first = clock.task.expect("the clock armed a nap");
    assert!(clock.waited_words().is_empty(), "nothing has been waited");

    assert!(!clock.on_task(
        &mut context,
        TaskId(first.0 + 99),
        &TaskOutcome::Cancelled
    ));

    assert!(clock.on_task(&mut context, first, &TaskOutcome::Completed(Vec::new())));
    assert_eq!(clock.waited(), Span::from_secs(5));
    let second = clock.task.expect("the clock re-armed");
    assert_ne!(second, first);
    assert!(clock.on_task(&mut context, second, &TaskOutcome::Completed(Vec::new())));
    assert_eq!(clock.waited_words(), "10 seconds so far");

    clock.stop(&mut context);
    assert!(!clock.is_running());
    assert_eq!(clock.waited(), Span::from_secs(0));
    assert!(context
        .commands()
        .iter()
        .any(|command| matches!(command, Command::Cancel(_))));
}

#[test]
fn a_cancelled_nap_does_not_re_arm_the_clock() {
    let mut context = Context::default();
    let mut clock = Heartbeat::every(5);
    clock.start(&mut context);
    let task = clock.task.expect("the clock armed a nap");
    assert!(clock.on_task(&mut context, task, &TaskOutcome::Cancelled));
    assert!(!clock.is_running());
}

#[test]
fn a_default_heartbeat_naps_for_a_sensible_time() {
    let mut context = Context::default();
    let mut clock = Heartbeat::default();
    clock.start(&mut context);
    let napped = context
        .commands()
        .iter()
        .filter_map(|command| match command {
            Command::Spawn {
                work: Task::Sleep { seconds },
                ..
            } => Some(*seconds),
            _ => None,
        })
        .collect::<Vec<_>>();
    assert_eq!(napped, vec![DEFAULT_HEARTBEAT_SECONDS]);
    assert!(DEFAULT_HEARTBEAT_SECONDS > 0);
}

#[test]
fn a_long_wait_is_spelled_in_minutes() {
    let mut clock = Heartbeat::every(5);
    clock.waited = 60;
    assert_eq!(clock.waited_words(), "1 min so far");
    clock.waited = 135;
    assert_eq!(clock.waited_words(), "2 min 15 s so far");
}

#[test]
fn a_clock_never_ticks_every_zero_seconds() {
    let mut context = Context::default();
    let mut clock = Heartbeat::every(0);
    clock.start(&mut context);
    clock.start(&mut context);
    assert_eq!(
        context.take_commands(),
        vec![Command::Spawn {
            task: TaskId(1),
            work: Task::Sleep { seconds: 1 },
        }]
    );
    clock.waited = 59;
    assert_eq!(clock.waited_words(), "59 seconds so far");
    clock.waited = u32::MAX;
    assert_eq!(clock.waited_words(), "71582788 min 15 s so far");
}
