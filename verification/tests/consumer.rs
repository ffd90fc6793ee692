use kommemeorate::consumer::consume;
use kommemeorate::consumer::delete_meme;
use kommemeorate::consumer::file_name;
use kommemeorate::consumer::handle_event;
use kommemeorate::consumer::process;
use kommemeorate::consumer::save_meme;
use kommemeorate::consumer::update_meme;
use kommemeorate::consumer::Consumer;
use kommemeorate::consumer::Job;
use kommemeorate::consumer::Settings;
use kommemeorate::consumer::Step;
use kommemeorate::consumer::CONTROL_CAPACITY;
use kommemeorate::consumer::EVENT_CAPACITY;
use kommemeorate::config::DatabaseConfiguration;
use kommemeorate::config::StorageConfiguration;
use kommemeorate::event::Command;
use kommemeorate::event::MemeEvent;
use kommemeorate::event::MemeImage;
use kommemeorate::event::Source;
use kommemeorate::event::Timestamp;
use kommemeorate::memory::MemoryStore;
use kommemeorate::storage::Action;
use kommemeorate::storage::Meme;
use kommemeorate::storage::NewMeme;
use kommemeorate::storage::Reply;
use kommemeorate::storage::Row;
use kommemeorate::storage::StorageError;
use kommemeorate::worker::Exit;
use kommemeorate::worker::Launch;
use kommemeorate::worker::Task;
use kommemeorate::worker::WorkerError;

fn instant(seconds: i64) -> Timestamp {
    Timestamp { seconds, nanoseconds: 0 }
}

fn picture(bytes: &[u8], text: &str, seconds: i64) -> MemeImage {
    MemeImage::new(bytes.to_vec(), false, text.to_string(), instant(seconds))
}

fn post(id: i32) -> Source {
    Source::Telegram { account: Some("alice".to_string()), channel: Some("memes".to_string()), id }
}

fn name_of(id: i32) -> String {
    format!("telegram-memes-alice-{}.jpg", id)
}

fn record(text: &str, seconds: i64, id: i32) -> NewMeme {
    NewMeme {
        spoiler: false,
        text: text.to_string(),
        timestamp: instant(seconds),
        account: "alice".to_string(),
        channel: "memes".to_string(),
        telegram_id: Some(id),
        filename: name_of(id),
    }
}

fn stored(record_id: i32, text: &str, seconds: i64, id: i32) -> Meme {
    Meme {
        id: record_id,
        spoiler: false,
        text: text.to_string(),
        timestamp: instant(seconds),
        account: "alice".to_string(),
        channel: "memes".to_string(),
        telegram_id: Some(id),
        filename: name_of(id),
    }
}

#[test]
fn file_name_of_a_telegram_post() {
    assert_eq!(file_name(&post(42)), "telegram-memes-alice-42.jpg");
}

#[test]
fn file_name_without_account_and_channel() {
    assert_eq!(file_name(&Source::telegram(None, None, 42)), "telegram---42.jpg");
    assert_eq!(file_name(&Source::telegram(None, None, -7)), "telegram----7.jpg");
    assert_eq!(file_name(&Source::telegram(None, Some("memes"), 0)), "telegram-memes--0.jpg");
}

#[test]
fn file_name_of_a_matrix_post() {
    let source = Source::Matrix { account: "@bot:example".to_string(), channel: "!room:example".to_string() };
    assert_eq!(file_name(&source), "matrix-!room:example-@bot:example");
}

#[test]
fn file_name_depends_on_the_source_alone() {
    assert_eq!(file_name(&post(42)), file_name(&post(42).clone()));
    assert_ne!(file_name(&post(42)), file_name(&post(43)));
}

#[test]
fn a_new_post_is_written_then_inserted() {
    let (job, step) = save_meme(picture(&[1, 2, 3], "first", 10), post(42));
    assert!(step == Step::Perform(Action::WriteBlob { filename: name_of(42), data: vec![1, 2, 3] }));
    assert_eq!(job, Job::Writing { telegram_id: 42, meme: record("first", 10, 42), edit: false });

    let (job, step) = job.advance(Reply::Done);
    assert!(step == Step::Perform(Action::InsertMeme { meme: record("first", 10, 42) }));
    assert_eq!(job, Job::Inserting { telegram_id: 42, meme: record("first", 10, 42), second: false });

    let (job, step) = job.advance(Reply::Done);
    assert!(step == Step::Finished);
    assert_eq!(job, Job::Finished);
}

#[test]
fn a_new_post_that_is_recorded_already_is_updated() {
    let (job, _) = save_meme(picture(&[1], "again", 11), post(42));
    let (job, _) = job.advance(Reply::Done);
    let (job, step) = job.advance(Reply::Conflict);
    assert!(step == Step::Perform(Action::UpdateMemes { telegram_id: 42, meme: record("again", 11, 42) }));
    assert_eq!(job, Job::Updating { telegram_id: 42, meme: record("again", 11, 42), second: true });

    let (job, step) = job.advance(Reply::Updated(1));
    assert!(step == Step::Finished);
    assert_eq!(job, Job::Finished);
}

#[test]
fn an_edited_post_is_written_then_updated() {
    let (job, step) = update_meme(picture(&[4, 5], "edited", 20), post(42));
    assert!(step == Step::Perform(Action::WriteBlob { filename: name_of(42), data: vec![4, 5] }));
    assert_eq!(job, Job::Writing { telegram_id: 42, meme: record("edited", 20, 42), edit: true });

    let (job, step) = job.advance(Reply::Done);
    assert!(step == Step::Perform(Action::UpdateMemes { telegram_id: 42, meme: record("edited", 20, 42) }));

    let (job, step) = job.advance(Reply::Updated(1));
    assert!(step == Step::Finished);
    assert_eq!(job, Job::Finished);
}

#[test]
fn an_edited_post_without_a_record_is_inserted() {
    let (job, _) = update_meme(picture(&[4, 5], "edited", 20), post(42));
    let (job, _) = job.advance(Reply::Done);
    let (job, step) = job.advance(Reply::Updated(0));
    assert!(step == Step::Perform(Action::InsertMeme { meme: record("edited", 20, 42) }));
    assert_eq!(job, Job::Inserting { telegram_id: 42, meme: record("edited", 20, 42), second: true });

    let (job, step) = job.advance(Reply::Done);
    assert!(step == Step::Finished);
    assert_eq!(job, Job::Finished);
}

#[test]
fn a_deleted_post_loses_blob_then_record_of_each_row() {
    let (job, step) = delete_meme(Source::telegram(None, None, 42));
    assert!(step == Step::Perform(Action::FindMemes { telegram_id: 42 }));
    assert_eq!(job, Job::Finding { telegram_id: 42 });

    let rows = vec![
        Row { id: 3, filename: "one.jpg".to_string() },
        Row { id: 8, filename: "two.jpg".to_string() },
    ];
    let (job, step) = job.advance(Reply::Found(rows.clone()));
    assert!(step == Step::Perform(Action::RemoveBlob { filename: "one.jpg".to_string() }));
    assert_eq!(job, Job::Removing { rows: rows.clone(), next: 0 });

    let (job, step) = job.advance(Reply::Done);
    assert!(step == Step::Perform(Action::DeleteMeme { id: 3 }));
    assert_eq!(job, Job::Deleting { rows: rows.clone(), next: 0 });

    let (job, step) = job.advance(Reply::Done);
    assert!(step == Step::Perform(Action::RemoveBlob { filename: "two.jpg".to_string() }));
    assert_eq!(job, Job::Removing { rows: rows.clone(), next: 1 });

    let (job, step) = job.advance(Reply::Done);
    assert!(step == Step::Perform(Action::DeleteMeme { id: 8 }));

    let (job, step) = job.advance(Reply::Done);
    assert!(step == Step::Finished);
    assert_eq!(job, Job::Finished);
}

#[test]
fn a_deleted_post_without_a_record_needs_nothing() {
    let (job, _) = delete_meme(Source::telegram(None, None, 42));
    let (job, step) = job.advance(Reply::Found(vec![]));
    assert!(step == Step::Finished);
    assert_eq!(job, Job::Finished);
}

#[test]
fn handle_event_begins_the_job_of_the_event() {
    let image = picture(&[1], "t", 1);
    assert!(handle_event(MemeEvent::new(image.clone(), post(1))) == save_meme(image.clone(), post(1)));
    assert!(handle_event(MemeEvent::edit(image.clone(), post(1))) == update_meme(image.clone(), post(1)));
    assert!(handle_event(MemeEvent::delete(post(1))) == delete_meme(post(1)));
}

#[test]
fn a_storage_failure_ends_the_job() {
    let (job, _) = save_meme(picture(&[1], "t", 1), post(1));
    let (job, step) = job.advance(Reply::Failed(StorageError::Backend));
    assert!(step == Step::Aborted(StorageError::Backend));
    assert_eq!(job, Job::Aborted { error: StorageError::Backend });

    let (job, step) = job.advance(Reply::Done);
    assert!(step == Step::Aborted(StorageError::Backend));
    assert_eq!(job, Job::Aborted { error: StorageError::Backend });
}

#[test]
fn a_failure_while_deleting_ends_the_job() {
    let (job, _) = delete_meme(post(1));
    let (job, _) = job.advance(Reply::Found(vec![Row { id: 1, filename: "f".to_string() }]));
    let (job, step) = job.advance(Reply::Failed(StorageError::BlobMissing));
    assert!(step == Step::Aborted(StorageError::BlobMissing));
    assert_eq!(job, Job::Aborted { error: StorageError::BlobMissing });
}

#[test]
fn an_answer_that_does_not_fit_ends_the_job() {
    let (job, _) = save_meme(picture(&[1], "t", 1), post(1));
    let (_, step) = job.advance(Reply::Updated(1));
    assert!(step == Step::Aborted(StorageError::UnexpectedReply));

    let (job, _) = delete_meme(post(1));
    let (_, step) = job.advance(Reply::Done);
    assert!(step == Step::Aborted(StorageError::UnexpectedReply));

    let (job, _) = update_meme(picture(&[1], "t", 1), post(1));
    let (job, _) = job.advance(Reply::Done);
    let (job, _) = job.advance(Reply::Updated(0));
    let (_, step) = job.advance(Reply::Conflict);
    assert!(step == Step::Aborted(StorageError::UnexpectedReply));

    let (job, _) = save_meme(picture(&[1], "t", 1), post(1));
    let (job, _) = job.advance(Reply::Done);
    let (job, _) = job.advance(Reply::Conflict);
    let (_, step) = job.advance(Reply::Updated(0));
    assert!(step == Step::Aborted(StorageError::UnexpectedReply));
}

#[test]
fn a_row_beyond_the_found_ones_ends_the_job() {
    let job = Job::Removing { rows: vec![], next: 0 };
    let (_, step) = job.advance(Reply::Done);
    assert!(step == Step::Aborted(StorageError::UnexpectedReply));

    let job = Job::Deleting { rows: vec![], next: usize::MAX };
    let (job, step) = job.advance(Reply::Done);
    assert!(step == Step::Finished);
    assert_eq!(job, Job::Finished);
}

#[test]
fn a_finished_job_stays_finished() {
    let (job, step) = Job::Finished.advance(Reply::Failed(StorageError::Backend));
    assert!(step == Step::Finished);
    assert_eq!(job, Job::Finished);
}

#[test]
fn a_matrix_post_cannot_be_stored() {
    let source = Source::Matrix { account: "a".to_string(), channel: "c".to_string() };
    let (job, step) = save_meme(picture(&[1], "t", 1), source.clone());
    assert!(step == Step::Aborted(StorageError::Unsupported));
    assert_eq!(job, Job::Aborted { error: StorageError::Unsupported });
    let (_, step) = update_meme(picture(&[1], "t", 1), source.clone());
    assert!(step == Step::Aborted(StorageError::Unsupported));
    let (_, step) = delete_meme(source.clone());
    assert!(step == Step::Aborted(StorageError::Unsupported));

    let mut store = MemoryStore::new();
    assert_eq!(consume(&mut store, MemeEvent::new(picture(&[1], "t", 1), source)), Err(StorageError::Unsupported));
    assert_eq!(store.blob_count(), 0);
    assert_eq!(store.records().len(), 0);
}

#[test]
fn created_then_deleted_leaves_nothing() {
    let mut store = MemoryStore::new();
    let created = MemeEvent::new(picture(&[1, 2, 3], "first", 10), post(42));
    assert_eq!(consume(&mut store, created), Ok(()));
    assert_eq!(store.records(), &vec![stored(1, "first", 10, 42)]);
    assert_eq!(store.blob(&name_of(42)), Some(&vec![1, 2, 3]));

    let deleted = MemeEvent::delete(Source::telegram(None, None, 42));
    assert_eq!(consume(&mut store, deleted), Ok(()));
    assert_eq!(store.records().len(), 0);
    assert_eq!(store.blob_count(), 0);
    assert_eq!(store.blob(&name_of(42)), None);
}

#[test]
fn the_last_event_decides_what_is_stored() {
    let mut store = MemoryStore::new();
    let events = vec![
        MemeEvent::new(picture(&[1], "one", 1), post(42)),
        MemeEvent::edit(picture(&[2, 2], "two", 2), post(42)),
        MemeEvent::delete(Source::telegram(None, None, 42)),
        MemeEvent::edit(picture(&[3, 3, 3], "three", 3), post(42)),
        MemeEvent::new(picture(&[4], "four", 4), post(42)),
        MemeEvent::edit(picture(&[5], "five", 5), post(42)),
    ];
    for event in events {
        assert_eq!(consume(&mut store, event), Ok(()));
    }
    assert_eq!(store.records(), &vec![stored(2, "five", 5, 42)]);
    assert_eq!(store.blob_count(), 1);
    assert_eq!(store.blob(&name_of(42)), Some(&vec![5]));

    assert_eq!(consume(&mut store, MemeEvent::delete(post(42))), Ok(()));
    assert_eq!(store.records().len(), 0);
    assert_eq!(store.blob_count(), 0);
}

#[test]
fn a_replayed_post_is_not_recorded_twice() {
    let mut store = MemoryStore::new();
    let created = MemeEvent::new(picture(&[1, 2, 3], "first", 10), post(42));
    assert_eq!(consume(&mut store, created.clone()), Ok(()));
    let records = store.records().clone();
    assert_eq!(consume(&mut store, created), Ok(()));
    assert_eq!(store.records(), &records);
    assert_eq!(store.records().len(), 1);
    assert_eq!(store.blob_count(), 1);
    assert_eq!(store.blob(&name_of(42)), Some(&vec![1, 2, 3]));
}

#[test]
fn an_edit_of_an_unknown_post_is_an_insert() {
    let mut store = MemoryStore::new();
    assert_eq!(consume(&mut store, MemeEvent::edit(picture(&[7], "late", 3), post(5))), Ok(()));
    assert_eq!(store.records(), &vec![stored(1, "late", 3, 5)]);
    assert_eq!(store.blob(&name_of(5)), Some(&vec![7]));
}

#[test]
fn an_edit_keeps_the_record_and_replaces_the_rest() {
    let mut store = MemoryStore::new();
    assert_eq!(consume(&mut store, MemeEvent::new(picture(&[1], "a", 1), post(1))), Ok(()));
    assert_eq!(consume(&mut store, MemeEvent::new(picture(&[2], "b", 2), post(2))), Ok(()));
    let edited = MemeImage::new(vec![9, 9], true, "a!".to_string(), instant(3));
    assert_eq!(consume(&mut store, MemeEvent::edit(edited, post(1))), Ok(()));
    let mut first = stored(1, "a!", 3, 1);
    first.spoiler = true;
    assert_eq!(store.records(), &vec![first, stored(2, "b", 2, 2)]);
    assert_eq!(store.blob(&name_of(1)), Some(&vec![9, 9]));
    assert_eq!(store.blob(&name_of(2)), Some(&vec![2]));
}

#[test]
fn a_deletion_touches_no_other_post() {
    let mut store = MemoryStore::new();
    for id in [1, 2, 3] {
        assert_eq!(consume(&mut store, MemeEvent::new(picture(&[id as u8], "p", id as i64), post(id))), Ok(()));
    }
    assert_eq!(consume(&mut store, MemeEvent::delete(Source::telegram(None, None, 2))), Ok(()));
    assert_eq!(store.records(), &vec![stored(1, "p", 1, 1), stored(3, "p", 3, 3)]);
    assert_eq!(store.blob_count(), 2);
    assert_eq!(store.blob(&name_of(2)), None);
    assert_eq!(store.blob(&name_of(3)), Some(&vec![3]));
}

#[test]
fn a_deletion_of_an_unknown_post_changes_nothing() {
    let mut store = MemoryStore::new();
    assert_eq!(consume(&mut store, MemeEvent::new(picture(&[1], "p", 1), post(1))), Ok(()));
    assert_eq!(consume(&mut store, MemeEvent::delete(post(99))), Ok(()));
    assert_eq!(store.records(), &vec![stored(1, "p", 1, 1)]);
    assert_eq!(store.blob_count(), 1);
}

#[test]
fn a_record_without_its_blob_cannot_be_deleted() {
    let mut store = MemoryStore::new();
    assert!(store.perform(Action::InsertMeme { meme: record("lost", 1, 42) }) == Reply::Done);
    assert_eq!(consume(&mut store, MemeEvent::delete(post(42))), Err(StorageError::BlobMissing));
    assert_eq!(store.records(), &vec![stored(1, "lost", 1, 42)]);
}

#[test]
fn a_store_without_identifiers_left_takes_no_new_post() {
    let mut store = MemoryStore::starting_at(i32::MAX);
    let created = MemeEvent::new(picture(&[1], "p", 1), post(1));
    assert_eq!(consume(&mut store, created), Err(StorageError::IdsExhausted));
    assert_eq!(store.records().len(), 0);
    assert_eq!(store.blob(&name_of(1)), Some(&vec![1]));

    let mut store = MemoryStore::starting_at(i32::MAX - 1);
    assert_eq!(consume(&mut store, MemeEvent::new(picture(&[1], "p", 1), post(1))), Ok(()));
    assert_eq!(store.records(), &vec![stored(i32::MAX - 1, "p", 1, 1)]);
    assert_eq!(consume(&mut store, MemeEvent::edit(picture(&[2], "q", 2), post(1))), Ok(()));
    assert_eq!(consume(&mut store, MemeEvent::edit(picture(&[2], "q", 2), post(2))), Err(StorageError::IdsExhausted));
}

#[test]
fn posts_that_differ_in_the_sender_leave_a_blob_behind() {
    let mut store = MemoryStore::new();
    let bob = Source::Telegram { account: Some("bob".to_string()), channel: Some("memes".to_string()), id: 42 };
    assert_eq!(consume(&mut store, MemeEvent::new(picture(&[1], "a", 1), post(42))), Ok(()));
    assert_eq!(consume(&mut store, MemeEvent::edit(picture(&[2], "b", 2), bob)), Ok(()));
    assert_eq!(consume(&mut store, MemeEvent::delete(Source::telegram(None, None, 42))), Ok(()));
    assert_eq!(store.records().len(), 0);
    assert_eq!(store.blob(&"telegram-memes-bob-42.jpg".to_string()), None);
    assert_eq!(store.blob(&name_of(42)), Some(&vec![1]));
}

#[test]
fn channel_capacities() {
    assert_eq!(EVENT_CAPACITY, 32);
    assert_eq!(CONTROL_CAPACITY, 8);
}

fn settings(path: &str) -> (StorageConfiguration, DatabaseConfiguration) {
    (StorageConfiguration::new(path.to_string()), DatabaseConfiguration::new("postgres://db".to_string()))
}

#[test]
fn consumer_reload_hands_the_endpoints_over() {
    let (storage, database) = settings("/old");
    let (mut consumer, launch) = Consumer::new(storage.clone(), database.clone(), vec![1, 2, 3]);
    assert_eq!(launch, Launch { config: Settings { storage, database }, resources: vec![1, 2, 3] });

    assert_eq!(consumer.stop(false), Some(Command::Shutdown));
    assert_eq!(consumer.stop(false), None);
    let (storage, database) = settings("/new");
    let next = consumer.reload(Exit::Returned(vec![2, 3]), storage.clone(), database.clone());
    let (mut consumer, launch) = match next {
        Ok(started) => started,
        Err(error) => panic!("no reload: {:?}", error),
    };
    assert_eq!(launch, Launch { config: Settings { storage, database }, resources: vec![2, 3] });
    assert_eq!(consumer.stop(true), None);
    assert_eq!(consumer.shutdown(Exit::Returned(vec![3])), Ok(()));
}

#[test]
fn consumer_reload_fails_with_its_task() {
    let (storage, database) = settings("/old");
    let (consumer, _) = Consumer::new(storage.clone(), database.clone(), 0_u8);
    assert!(consumer.reload(Exit::<u8>::Failed, storage.clone(), database.clone()) == Err(WorkerError::TaskFailed));
    let (consumer, _) = Consumer::new(storage.clone(), database.clone(), 0_u8);
    assert!(consumer.reload(Exit::<u8>::Panicked, storage.clone(), database.clone()) == Err(WorkerError::TaskPanicked));
    let (consumer, _) = Consumer::new(storage.clone(), database.clone(), 0_u8);
    assert_eq!(consumer.shutdown(Exit::<u8>::Failed), Err(WorkerError::TaskFailed));
    let (consumer, _) = Consumer::new(storage, database, 0_u8);
    assert_eq!(consumer.shutdown(Exit::<u8>::Panicked), Err(WorkerError::TaskPanicked));
}

#[test]
fn the_loop_applies_the_events_in_the_order_received() {
    let mut store = MemoryStore::new();
    let mut inbox = vec![
        MemeEvent::new(picture(&[1], "one", 1), post(1)),
        MemeEvent::new(picture(&[2], "two", 2), post(2)),
        MemeEvent::edit(picture(&[3], "one!", 3), post(1)),
        MemeEvent::delete(Source::telegram(None, None, 2)),
    ];
    assert_eq!(process(&mut store, &Task::new(), &mut inbox), Ok(()));
    assert_eq!(inbox.len(), 0);
    assert_eq!(store.records(), &vec![stored(1, "one!", 3, 1)]);
    assert_eq!(store.blob_count(), 1);
    assert_eq!(store.blob(&name_of(1)), Some(&vec![3]));
}

#[test]
fn the_loop_ends_at_the_first_event_that_fails() {
    let mut store = MemoryStore::starting_at(i32::MAX - 1);
    let mut inbox = vec![
        MemeEvent::new(picture(&[1], "one", 1), post(1)),
        MemeEvent::new(picture(&[2], "two", 2), post(2)),
        MemeEvent::new(picture(&[3], "three", 3), post(3)),
    ];
    assert_eq!(process(&mut store, &Task::new(), &mut inbox), Err(StorageError::IdsExhausted));
    assert!(inbox == vec![MemeEvent::new(picture(&[3], "three", 3), post(3))]);
    assert_eq!(store.records(), &vec![stored(i32::MAX - 1, "one", 1, 1)]);
    assert_eq!(store.blob(&name_of(2)), Some(&vec![2]));
    assert_eq!(store.blob(&name_of(3)), None);
}

#[test]
fn a_stopped_task_processes_no_event() {
    let mut store = MemoryStore::new();
    let mut task = Task::new();
    let mut inbox = vec![MemeEvent::new(picture(&[1], "one", 1), post(1))];
    assert!(task.on_command(Command::Shutdown));
    assert_eq!(process(&mut store, &task, &mut inbox), Ok(()));
    assert_eq!(inbox.len(), 1);
    assert_eq!(store.records().len(), 0);
    assert_eq!(store.blob_count(), 0);
}

#[test]
fn events_sent_before_a_reload_reach_the_old_or_the_new_generation() {
    let mut store = MemoryStore::new();
    let sent: Vec<MemeEvent> =
        (1..=6).map(|id| MemeEvent::new(picture(&[id as u8], "p", id as i64), post(id))).collect();
    let (storage, database) = settings("/old");

    let (mut consumer, launch) = Consumer::new(storage.clone(), database.clone(), sent.clone());
    let mut channel = launch.resources;
    let mut task = Task::new();
    let mut early: Vec<MemeEvent> = channel.drain(..2).collect();
    assert_eq!(process(&mut store, &task, &mut early), Ok(()));
    assert_eq!(store.records().len(), 2);

    assert_eq!(consumer.stop(false), Some(Command::Shutdown));
    assert!(task.on_command(Command::Shutdown));
    assert_eq!(process(&mut store, &task, &mut channel), Ok(()));
    assert_eq!(store.records().len(), 2);
    let exit = task.finish(channel);

    let (_, launch) = match consumer.reload(exit, storage, database) {
        Ok(started) => started,
        Err(error) => panic!("no reload: {:?}", error),
    };
    let mut channel = launch.resources;
    assert_eq!(channel.len(), 4);
    assert_eq!(process(&mut store, &Task::new(), &mut channel), Ok(()));
    assert_eq!(channel.len(), 0);
    let expected: Vec<Meme> = (1..=6).map(|id| stored(id, "p", id as i64, id)).collect();
    assert_eq!(store.records(), &expected);
    assert_eq!(store.blob_count(), 6);
}
