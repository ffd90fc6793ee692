//! The persistence consumer: it takes one event at a time and brings durable
//! storage up to it, the blob first and the record after.
//!
//! Storage is someone else's work, so an event becomes a [`Job`]: a state
//! machine that names the next [`Action`] and decides on each [`Reply`] what
//! follows.

use crate::config::DatabaseConfiguration;
use crate::config::StorageConfiguration;
use crate::event::Command;
use crate::event::MemeEvent;
use crate::event::MemeEventView;
use crate::event::MemeImage;
use crate::event::MemeImageView;
use crate::event::Source;
use crate::event::SourceView;
use crate::event::event_views;
use crate::event::text_or_empty;
use crate::memory::MemoryStore;
use crate::storage::Action;
use crate::storage::ActionView;
use crate::storage::NewMeme;
use crate::storage::NewMemeView;
use crate::storage::Reply;
use crate::storage::ReplyView;
use crate::storage::Row;
use crate::storage::RowView;
use crate::storage::StorageError;
use crate::storage::StoreView;
use crate::storage::lemma_without_present;
use crate::storage::revise;
use crate::storage::row_views;
use crate::text::decimal;
use crate::text::push_decimal;
use crate::worker::Exit;
use crate::worker::Launch;
use crate::worker::Supervisor;
use crate::worker::Task;
use crate::worker::WorkerError;
use crate::worker::concluded;
use crate::worker::launched;
use crate::worker::relaunched;
use crate::worker::stop_signal;
use vstd::prelude::*;
use vstd::string::*;

verus! {

/// The name of the blob that holds the picture from `source`. It depends on
/// the source alone, so that the same post always lands in the same blob.
pub open spec fn file_name_of(source: SourceView) -> Seq<char> {
    match source {
        SourceView::Telegram { account, channel, id } => "telegram-"@ + text_or_empty(channel)
            + "-"@ + text_or_empty(account) + "-"@ + decimal(id as int) + ".jpg"@,
        SourceView::Matrix { account, channel } => "matrix-"@ + channel + "-"@ + account,
    }
}

/// The name of the blob that holds the picture from `source`.
pub fn file_name(source: &Source) -> (name: String)
    ensures
        name@ == file_name_of(source@),
{
    let mut name = String::new();
    match source {
        Source::Telegram { account, channel, id } => {
            name.append("telegram-");
            match channel {
                Some(channel) => name.append(channel.as_str()),
                None => {},
            }
            name.append("-");
            match account {
                Some(account) => name.append(account.as_str()),
                None => {},
            }
            name.append("-");
            push_decimal(&mut name, *id as i64);
            name.append(".jpg");
        },
        Source::Matrix { account, channel } => {
            name.append("matrix-");
            name.append(channel.as_str());
            name.append("-");
            name.append(account.as_str());
        },
    }
    assert(name@ =~= file_name_of(source@));
    name
}

/// The record that stands for `image` from `source`.
pub open spec fn record_of(image: MemeImageView, source: SourceView) -> NewMemeView {
    NewMemeView {
        spoiler: image.spoiler,
        text: image.text,
        timestamp: image.timestamp,
        account: match source {
            SourceView::Telegram { account, .. } => text_or_empty(account),
            SourceView::Matrix { account, .. } => account,
        },
        channel: match source {
            SourceView::Telegram { channel, .. } => text_or_empty(channel),
            SourceView::Matrix { channel, .. } => channel,
        },
        telegram_id: source.message_id(),
        filename: file_name_of(source),
    }
}

/// What is left to do for one event. Each state but the last two waits for
/// the answer to the operation it names.
#[derive(Debug, PartialEq, Eq)]
pub enum Job {
    /// The blob is being written. `edit` says that the record is to be
    /// updated first and inserted only where there is none; without it the
    /// record is inserted first and updated only where there is one.
    Writing { telegram_id: i32, meme: NewMeme, edit: bool },
    /// The record is being inserted; `second` says that an update came
    /// before and reached nothing.
    Inserting { telegram_id: i32, meme: NewMeme, second: bool },
    /// The record is being updated; `second` says that an insert came
    /// before and met a conflict.
    Updating { telegram_id: i32, meme: NewMeme, second: bool },
    /// The records of the deleted message are being looked up.
    Finding { telegram_id: i32 },
    /// The blob of the record `rows[next]` is being removed.
    Removing { rows: Vec<Row>, next: usize },
    /// The record `rows[next]` is being deleted.
    Deleting { rows: Vec<Row>, next: usize },
    /// Storage is up to the event.
    Finished,
    /// The event was given up.
    Aborted { error: StorageError },
}

/// The mathematical view of a [`Job`].
pub enum JobView {
    Writing { telegram_id: i32, meme: NewMemeView, edit: bool },
    Inserting { telegram_id: i32, meme: NewMemeView, second: bool },
    Updating { telegram_id: i32, meme: NewMemeView, second: bool },
    Finding { telegram_id: i32 },
    Removing { rows: Seq<RowView>, next: nat },
    Deleting { rows: Seq<RowView>, next: nat },
    Finished,
    Aborted { error: StorageError },
}

impl View for Job {
    type V = JobView;

    open spec fn view(&self) -> JobView {
        match *self {
            Job::Writing { telegram_id, meme, edit } => JobView::Writing {
                telegram_id,
                meme: meme@,
                edit,
            },
            Job::Inserting { telegram_id, meme, second } => JobView::Inserting {
                telegram_id,
                meme: meme@,
                second,
            },
            Job::Updating { telegram_id, meme, second } => JobView::Updating {
                telegram_id,
                meme: meme@,
                second,
            },
            Job::Finding { telegram_id } => JobView::Finding { telegram_id },
            Job::Removing { rows, next } => JobView::Removing {
                rows: row_views(rows@),
                next: next as nat,
            },
            Job::Deleting { rows, next } => JobView::Deleting {
                rows: row_views(rows@),
                next: next as nat,
            },
            Job::Finished => JobView::Finished,
            Job::Aborted { error } => JobView::Aborted { error },
        }
    }
}

/// What the consumer does next for the event in work.
#[derive(PartialEq, Eq)]
pub enum Step {
    /// Carry out the operation and come back with the answer.
    Perform(Action),
    /// Nothing: storage is up to the event.
    Finished,
    /// Nothing: the event was given up, and the worker ends with it.
    Aborted(StorageError),
}

/// The mathematical view of a [`Step`].
pub enum StepView {
    Perform(ActionView),
    Finished,
    Aborted(StorageError),
}

impl View for Step {
    type V = StepView;

    open spec fn view(&self) -> StepView {
        match *self {
            Step::Perform(action) => StepView::Perform(action@),
            Step::Finished => StepView::Finished,
            Step::Aborted(error) => StepView::Aborted(error),
        }
    }
}

/// The end of a job in failure.
pub open spec fn aborted(error: StorageError) -> (JobView, StepView) {
    (JobView::Aborted { error }, StepView::Aborted(error))
}

/// The end of a job in success.
pub open spec fn finished() -> (JobView, StepView) {
    (JobView::Finished, StepView::Finished)
}

/// What an answer that is no success means for the job: a failure is passed
/// on, any other answer does not fit.
pub open spec fn refusal(reply: ReplyView) -> StorageError {
    match reply {
        ReplyView::Failed(error) => error,
        _ => StorageError::UnexpectedReply,
    }
}

/// The removal of the blob of `rows[next]`, or the end where no row is left.
pub open spec fn removal(rows: Seq<RowView>, next: nat) -> (JobView, StepView) {
    if next < rows.len() {
        (
            JobView::Removing { rows, next },
            StepView::Perform(ActionView::RemoveBlob { filename: rows[next as int].filename }),
        )
    } else {
        finished()
    }
}

/// The job after `reply`, with the step that follows.
pub open spec fn advanced(job: JobView, reply: ReplyView) -> (JobView, StepView) {
    match job {
        JobView::Writing { telegram_id, meme, edit } => match reply {
            ReplyView::Done => if edit {
                (
                    JobView::Updating { telegram_id, meme, second: false },
                    StepView::Perform(ActionView::UpdateMemes { telegram_id, meme }),
                )
            } else {
                (
                    JobView::Inserting { telegram_id, meme, second: false },
                    StepView::Perform(ActionView::InsertMeme { meme }),
                )
            },
            _ => aborted(refusal(reply)),
        },
        JobView::Inserting { telegram_id, meme, second } => match reply {
            ReplyView::Done => finished(),
            ReplyView::Conflict => if second {
                aborted(StorageError::UnexpectedReply)
            } else {
                (
                    JobView::Updating { telegram_id, meme, second: true },
                    StepView::Perform(ActionView::UpdateMemes { telegram_id, meme }),
                )
            },
            _ => aborted(refusal(reply)),
        },
        JobView::Updating { telegram_id, meme, second } => match reply {
            ReplyView::Updated(count) => if count > 0 {
                finished()
            } else if second {
                aborted(StorageError::UnexpectedReply)
            } else {
                (
                    JobView::Inserting { telegram_id, meme, second: true },
                    StepView::Perform(ActionView::InsertMeme { meme }),
                )
            },
            _ => aborted(refusal(reply)),
        },
        JobView::Finding { telegram_id } => match reply {
            ReplyView::Found(rows) => removal(rows, 0),
            _ => aborted(refusal(reply)),
        },
        JobView::Removing { rows, next } => match reply {
            ReplyView::Done => if next < rows.len() {
                (
                    JobView::Deleting { rows, next },
                    StepView::Perform(ActionView::DeleteMeme { id: rows[next as int].id }),
                )
            } else {
                aborted(StorageError::UnexpectedReply)
            },
            _ => aborted(refusal(reply)),
        },
        JobView::Deleting { rows, next } => match reply {
            ReplyView::Done => removal(rows, next + 1),
            _ => aborted(refusal(reply)),
        },
        JobView::Finished => finished(),
        JobView::Aborted { error } => aborted(error),
    }
}

/// The job that stores a new or an edited post, with its first step.
pub open spec fn storing(image: MemeImageView, source: SourceView, edit: bool) -> (
    JobView,
    StepView,
) {
    match source.message_id() {
        Some(telegram_id) => (
            JobView::Writing { telegram_id, meme: record_of(image, source), edit },
            StepView::Perform(
                ActionView::WriteBlob { filename: file_name_of(source), data: image.data },
            ),
        ),
        None => aborted(StorageError::Unsupported),
    }
}

/// The job that removes a deleted post, with its first step.
pub open spec fn removing(source: SourceView) -> (JobView, StepView) {
    match source.message_id() {
        Some(telegram_id) => (
            JobView::Finding { telegram_id },
            StepView::Perform(ActionView::FindMemes { telegram_id }),
        ),
        None => aborted(StorageError::Unsupported),
    }
}

/// The job for `event`, with its first step.
pub open spec fn started(event: MemeEventView) -> (JobView, StepView) {
    match event {
        MemeEventView::New { image, source } => storing(image, source, false),
        MemeEventView::Updated { image, source } => storing(image, source, true),
        MemeEventView::Deleted { source } => removing(source),
    }
}

fn store(image: MemeImage, source: Source, edit: bool) -> (start: (Job, Step))
    ensures
        (start.0@, start.1@) == storing(image@, source@, edit),
{
    let filename = file_name(&source);
    match source {
        Source::Telegram { account, channel, id } => {
            let meme = NewMeme {
                spoiler: image.spoiler,
                text: image.text,
                timestamp: image.timestamp,
                account: match account {
                    Some(account) => account,
                    None => String::new(),
                },
                channel: match channel {
                    Some(channel) => channel,
                    None => String::new(),
                },
                telegram_id: Some(id),
                filename: filename.clone(),
            };
            (
                Job::Writing { telegram_id: id, meme, edit },
                Step::Perform(Action::WriteBlob { filename, data: image.data }),
            )
        },
        Source::Matrix { .. } => (
            Job::Aborted { error: StorageError::Unsupported },
            Step::Aborted(StorageError::Unsupported),
        ),
    }
}

/// Begins to store a new post: the blob is written, then the record is
/// inserted, or updated where the message has one already.
pub fn save_meme(image: MemeImage, source: Source) -> (start: (Job, Step))
    ensures
        (start.0@, start.1@) == storing(image@, source@, false),
{
    store(image, source, false)
}

/// Begins to store an edited post: the blob is written over, then the
/// record of the message is updated, or inserted where it has none.
pub fn update_meme(image: MemeImage, source: Source) -> (start: (Job, Step))
    ensures
        (start.0@, start.1@) == storing(image@, source@, true),
{
    store(image, source, true)
}

/// Begins to remove a deleted post: the records of the message are looked
/// up, then of each the blob is removed and the record deleted.
pub fn delete_meme(source: Source) -> (start: (Job, Step))
    ensures
        (start.0@, start.1@) == removing(source@),
{
    match source {
        Source::Telegram { id, .. } => (
            Job::Finding { telegram_id: id },
            Step::Perform(Action::FindMemes { telegram_id: id }),
        ),
        Source::Matrix { .. } => (
            Job::Aborted { error: StorageError::Unsupported },
            Step::Aborted(StorageError::Unsupported),
        ),
    }
}

/// Begins the work on `event`.
pub fn handle_event(event: MemeEvent) -> (start: (Job, Step))
    ensures
        (start.0@, start.1@) == started(event@),
{
    match event {
        MemeEvent::New { image, source } => save_meme(image, source),
        MemeEvent::Updated { image, source } => update_meme(image, source),
        MemeEvent::Deleted { source } => delete_meme(source),
    }
}

fn abort(error: StorageError) -> (end: (Job, Step))
    ensures
        (end.0@, end.1@) == aborted(error),
{
    (Job::Aborted { error }, Step::Aborted(error))
}

fn refuse(reply: Reply) -> (end: (Job, Step))
    ensures
        (end.0@, end.1@) == aborted(refusal(reply@)),
{
    match reply {
        Reply::Failed(error) => abort(error),
        _ => abort(StorageError::UnexpectedReply),
    }
}

fn remove(rows: Vec<Row>, next: usize) -> (step: (Job, Step))
    ensures
        (step.0@, step.1@) == removal(row_views(rows@), next as nat),
{
    if next < rows.len() {
        let filename = rows[next].filename.clone();
        (Job::Removing { rows, next }, Step::Perform(Action::RemoveBlob { filename }))
    } else {
        (Job::Finished, Step::Finished)
    }
}

impl Job {
    /// Takes the answer to the operation that was asked for and says what
    /// follows.
    pub fn advance(self, reply: Reply) -> (next: (Job, Step))
        ensures
            (next.0@, next.1@) == advanced(self@, reply@),
    {
        match self {
            Job::Writing { telegram_id, meme, edit } => match reply {
                Reply::Done => {
                    let copy = meme.clone();
                    if edit {
                        (
                            Job::Updating { telegram_id, meme, second: false },
                            Step::Perform(Action::UpdateMemes { telegram_id, meme: copy }),
                        )
                    } else {
                        (
                            Job::Inserting { telegram_id, meme, second: false },
                            Step::Perform(Action::InsertMeme { meme: copy }),
                        )
                    }
                },
                _ => refuse(reply),
            },
            Job::Inserting { telegram_id, meme, second } => match reply {
                Reply::Done => (Job::Finished, Step::Finished),
                Reply::Conflict => {
                    if second {
                        abort(StorageError::UnexpectedReply)
                    } else {
                        let copy = meme.clone();
                        (
                            Job::Updating { telegram_id, meme, second: true },
                            Step::Perform(Action::UpdateMemes { telegram_id, meme: copy }),
                        )
                    }
                },
                _ => refuse(reply),
            },
            Job::Updating { telegram_id, meme, second } => match reply {
                Reply::Updated(count) => {
                    if count > 0 {
                        (Job::Finished, Step::Finished)
                    } else if second {
                        abort(StorageError::UnexpectedReply)
                    } else {
                        let copy = meme.clone();
                        (
                            Job::Inserting { telegram_id, meme, second: true },
                            Step::Perform(Action::InsertMeme { meme: copy }),
                        )
                    }
                },
                _ => refuse(reply),
            },
            Job::Finding { telegram_id } => match reply {
                Reply::Found(rows) => remove(rows, 0),
                _ => refuse(reply),
            },
            Job::Removing { rows, next } => match reply {
                Reply::Done => {
                    if next < rows.len() {
                        let id = rows[next].id;
                        (Job::Deleting { rows, next }, Step::Perform(Action::DeleteMeme { id }))
                    } else {
                        abort(StorageError::UnexpectedReply)
                    }
                },
                _ => refuse(reply),
            },
            Job::Deleting { rows, next } => match reply {
                Reply::Done => {
                    if next < rows.len() {
                        remove(rows, next + 1)
                    } else {
                        (Job::Finished, Step::Finished)
                    }
                },
                _ => refuse(reply),
            },
            Job::Finished => (Job::Finished, Step::Finished),
            Job::Aborted { error } => abort(error),
        }
    }
}

/// The blob comes before the record. A post with a picture begins with the
/// writing of its blob, and its record is touched only once the blob is
/// written; a failure to write ends the job before any record operation.
/// Of a deleted post each record is deleted only once its blob is removed;
/// a failure to remove ends the job with the record still there.
pub proof fn lemma_blob_before_record(
    image: MemeImageView,
    source: SourceView,
    edit: bool,
    rows: Seq<RowView>,
    next: nat,
    error: StorageError,
)
    ensures
        source.message_id() is Some ==> storing(image, source, edit).1 == StepView::Perform(
            ActionView::WriteBlob { filename: file_name_of(source), data: image.data },
        ),
        advanced(storing(image, source, edit).0, ReplyView::Failed(error)).1 is Aborted,
        next < rows.len() ==> {
            &&& removal(rows, next).1 == StepView::Perform(
                ActionView::RemoveBlob { filename: rows[next as int].filename },
            )
            &&& advanced(removal(rows, next).0, ReplyView::Done).1 == StepView::Perform(
                ActionView::DeleteMeme { id: rows[next as int].id },
            )
            &&& advanced(removal(rows, next).0, ReplyView::Failed(error)) == aborted(error)
        },
{
}

/// Storage after a new or an edited post was stored, with the failure if
/// there was one: the blob holds the picture, and the message has its one
/// record, brought up to the post or inserted for it.
pub open spec fn stored(store: StoreView, image: MemeImageView, source: SourceView) -> (
    StoreView,
    Option<StorageError>,
) {
    match source.message_id() {
        None => (store, Some(StorageError::Unsupported)),
        Some(telegram_id) => {
            let meme = record_of(image, source);
            let blobs = store.blobs.insert(meme.filename, image.data);
            if store.has(telegram_id) {
                (
                    StoreView {
                        blobs,
                        memes: revise(store.memes, telegram_id, meme),
                        next_id: store.next_id,
                    },
                    None,
                )
            } else if store.next_id == i32::MAX {
                (
                    StoreView { blobs, memes: store.memes, next_id: store.next_id },
                    Some(StorageError::IdsExhausted),
                )
            } else {
                (
                    StoreView {
                        blobs,
                        memes: store.memes.push(meme.stored(store.next_id)),
                        next_id: (store.next_id + 1) as i32,
                    },
                    None,
                )
            }
        },
    }
}

/// Storage after a deleted post was removed, with the failure if there was
/// one: the record of the message is gone, and the blob it named with it.
pub open spec fn removed(store: StoreView, source: SourceView) -> (
    StoreView,
    Option<StorageError>,
) {
    match source.message_id() {
        None => (store, Some(StorageError::Unsupported)),
        Some(telegram_id) => if store.has(telegram_id) {
            let k = store.index_of(telegram_id);
            let filename = store.memes[k].filename;
            if store.blobs.contains_key(filename) {
                (
                    StoreView {
                        blobs: store.blobs.remove(filename),
                        memes: store.memes.remove(k),
                        next_id: store.next_id,
                    },
                    None,
                )
            } else {
                (store, Some(StorageError::BlobMissing))
            }
        } else {
            (store, None)
        },
    }
}

/// Storage after `event`, with the failure if there was one.
pub open spec fn effect(store: StoreView, event: MemeEventView) -> (
    StoreView,
    Option<StorageError>,
) {
    match event {
        MemeEventView::New { image, source } => stored(store, image, source),
        MemeEventView::Updated { image, source } => stored(store, image, source),
        MemeEventView::Deleted { source } => removed(store, source),
    }
}

/// Storage and step after at most `fuel` operations of `job` were carried
/// out on `store`, each answered as [`StoreView::perform`] says.
pub open spec fn run(store: StoreView, job: JobView, step: StepView, fuel: nat) -> (
    StoreView,
    StepView,
)
    decreases fuel,
{
    match step {
        StepView::Perform(action) => if fuel == 0 {
            (store, step)
        } else {
            let (after, reply) = store.perform(action);
            let (job, step) = advanced(job, reply);
            run(after, job, step, (fuel - 1) as nat)
        },
        _ => (store, step),
    }
}

/// The step that ends a job whose event failed with `failure`, or did not.
pub open spec fn ending(failure: Option<StorageError>) -> StepView {
    match failure {
        None => StepView::Finished,
        Some(error) => StepView::Aborted(error),
    }
}

/// The job of an event, carried out on storage that keeps its rules, ends
/// within three operations, and leaves storage as [`effect`] says.
pub proof fn lemma_job_effect(store: StoreView, event: MemeEventView)
    requires
        store.wf(),
    ensures
        run(store, started(event).0, started(event).1, 3) == (
            effect(store, event).0,
            ending(effect(store, event).1),
        ),
{
    reveal_with_fuel(run, 4);
    match event {
        MemeEventView::New { image, source } => {
            lemma_store_effect(store, image, source, false);
        },
        MemeEventView::Updated { image, source } => {
            lemma_store_effect(store, image, source, true);
        },
        MemeEventView::Deleted { source } => {
            match source.message_id() {
                None => {},
                Some(telegram_id) => {
                    store.lemma_record_of(telegram_id);
                    if store.has(telegram_id) {
                        let k = store.index_of(telegram_id);
                        let row = store.memes[k];
                        if store.blobs.contains_key(row.filename) {
                            let less = store.perform(
                                ActionView::RemoveBlob { filename: row.filename },
                            ).0;
                            assert(less.memes == store.memes);
                            assert forall|i: int| 0 <= i < store.memes.len() && i != k implies (
                            #[trigger] store.memes[i]).id != row.id by {
                                if i < k {
                                    assert(store.memes[i].id != store.memes[k].id);
                                } else {
                                    assert(store.memes[k].id != store.memes[i].id);
                                }
                            }
                            lemma_without_present(store.memes, row.id, k);
                        }
                    }
                },
            }
        },
    }
}

proof fn lemma_store_effect(store: StoreView, image: MemeImageView, source: SourceView, edit: bool)
    requires
        store.wf(),
    ensures
        run(store, storing(image, source, edit).0, storing(image, source, edit).1, 3) == (
            stored(store, image, source).0,
            ending(stored(store, image, source).1),
        ),
{
    reveal_with_fuel(run, 4);
    match source.message_id() {
        None => {},
        Some(telegram_id) => {
            let meme = record_of(image, source);
            let write = ActionView::WriteBlob { filename: file_name_of(source), data: image.data };
            let insert = ActionView::InsertMeme { meme };
            let update = ActionView::UpdateMemes { telegram_id, meme };
            let written = store.perform(write).0;
            store.lemma_perform_wf(write);
            assert(written.memes == store.memes);
            assert(written.has(telegram_id) == store.has(telegram_id)) by {
                if store.has(telegram_id) {
                    assert(written.memes[store.index_of(telegram_id)].belongs_to(telegram_id));
                }
                if written.has(telegram_id) {
                    assert(store.memes[written.index_of(telegram_id)].belongs_to(telegram_id));
                }
            }
            assert(written.conflicts(meme) == store.has(telegram_id));
            written.lemma_record_of(telegram_id);
            let updated = written.perform(update).0;
            if !store.has(telegram_id) {
                assert(updated.memes =~= written.memes);
                assert(updated == written);
            }
            if edit {
                assert(advanced(storing(image, source, edit).0, ReplyView::Done) == (
                    JobView::Updating { telegram_id, meme, second: false },
                    StepView::Perform(update),
                ));
            } else {
                assert(advanced(storing(image, source, edit).0, ReplyView::Done) == (
                    JobView::Inserting { telegram_id, meme, second: false },
                    StepView::Perform(insert),
                ));
            }
        },
    }
}

/// Brings `store` up to `event`, one operation after the other, as the
/// event's job asks for them.
pub fn consume(store: &mut MemoryStore, event: MemeEvent) -> (result: Result<(), StorageError>)
    ensures
        final(store)@ == effect(old(store)@, event@).0,
        result == match effect(old(store)@, event@).1 {
            None => Ok::<(), StorageError>(()),
            Some(error) => Err(error),
        },
{
    let ghost goal = effect(store@, event@);
    store.attest();
    proof {
        lemma_job_effect(store@, event@);
    }
    let start = handle_event(event);
    let mut job = start.0;
    let mut step = start.1;
    let ghost mut fuel: nat = 3;
    loop
        invariant
            goal == effect(old(store)@, event@),
            run(store@, job@, step@, fuel) == (goal.0, ending(goal.1)),
        decreases fuel,
    {
        match step {
            Step::Perform(action) => {
                assert(fuel > 0);
                let reply = store.perform(action);
                let next = job.advance(reply);
                job = next.0;
                step = next.1;
                proof {
                    fuel = (fuel - 1) as nat;
                }
            },
            Step::Finished => {
                return Ok(());
            },
            Step::Aborted(error) => {
                return Err(error);
            },
        }
    }
}

/// Storage after the events that wait in a channel were taken one by one,
/// oldest first, and storage was brought up to each, until one failed or
/// none was left; with the events that still wait, and the failure if
/// there was one.
pub open spec fn drained(store: StoreView, events: Seq<MemeEventView>) -> (
    StoreView,
    Seq<MemeEventView>,
    Option<StorageError>,
)
    decreases events.len(),
{
    if events.len() == 0 {
        (store, events, None)
    } else {
        let (after, failure) = effect(store, events[0]);
        if failure is Some {
            (after, events.skip(1), failure)
        } else {
            drained(after, events.skip(1))
        }
    }
}

/// The loop of the consumer on storage in memory: unless the task has left
/// its loop, it takes the events that wait in `inbox` one by one, oldest
/// first, and brings `store` up to each. The first event that fails ends
/// the loop with its failure; the events behind it wait on.
pub fn process(store: &mut MemoryStore, task: &Task, inbox: &mut Vec<MemeEvent>) -> (result: Result<
    (),
    StorageError,
>)
    ensures
        task.stopped() ==> final(store)@ == old(store)@ && final(inbox)@ == old(inbox)@ && result
            is Ok,
        !task.stopped() ==> {
            let end = drained(old(store)@, event_views(old(inbox)@));
            &&& final(store)@ == end.0
            &&& event_views(final(inbox)@) == end.1
            &&& result == match end.2 {
                None => Ok::<(), StorageError>(()),
                Some(error) => Err(error),
            }
        },
{
    if task.is_stopped() {
        return Ok(());
    }
    let ghost end = drained(store@, event_views(inbox@));
    while inbox.len() > 0
        invariant
            !task.stopped(),
            end == drained(old(store)@, event_views(old(inbox)@)),
            drained(store@, event_views(inbox@)) == end,
        decreases inbox@.len(),
    {
        let ghost waiting = event_views(inbox@);
        let event = inbox.remove(0);
        assert(event@ == waiting[0]);
        assert(event_views(inbox@) =~= waiting.skip(1));
        match consume(store, event) {
            Ok(_) => {},
            Err(error) => {
                return Err(error);
            },
        }
    }
    assert(event_views(inbox@).len() == 0);
    Ok(())
}

/// How many events the channel to the consumer holds before a connector
/// that sends has to wait. No event is ever dropped for want of room.
pub const EVENT_CAPACITY: usize = 32;

/// How many signals a control channel holds.
pub const CONTROL_CAPACITY: usize = 8;

/// What the consumer is configured with: where the blobs go and where the
/// records go.
#[derive(Debug, PartialEq, Eq)]
pub struct Settings {
    pub storage: StorageConfiguration,
    pub database: DatabaseConfiguration,
}

/// The handle of the persistence consumer worker.
#[derive(Debug, PartialEq, Eq)]
pub struct Consumer {
    supervisor: Supervisor,
}

impl Consumer {
    /// Whether the worker was told to stop.
    pub closed spec fn stopping(&self) -> bool {
        self.supervisor.stopping()
    }

    /// The handle of a consumer that is to be spawned with `storage` and
    /// `database`, holding the receiving ends `endpoints` of its control
    /// channel and of the event channel.
    pub fn new<R>(
        storage: StorageConfiguration,
        database: DatabaseConfiguration,
        endpoints: R,
    ) -> (started: (Self, Launch<Settings, R>))
        ensures
            !started.0.stopping(),
            started.1 == (Launch { config: Settings { storage, database }, resources: endpoints }),
    {
        let started = Supervisor::spawn(Settings { storage, database }, endpoints);
        (Consumer { supervisor: started.0 }, started.1)
    }

    /// Tells the worker to stop. The signal is to be sent only where the
    /// control channel is still open, and only once.
    pub fn stop(&mut self, closed: bool) -> (signal: Option<Command>)
        ensures
            final(self).stopping(),
            signal == if old(self).stopping() {
                None
            } else {
                stop_signal(!closed)
            },
    {
        self.supervisor.stop(!closed)
    }

    /// Ends the worker with its joined task and begins it anew with
    /// `storage` and `database` and the channel endpoints that the task
    /// handed back.
    pub fn reload<R>(
        self,
        exit: Exit<R>,
        storage: StorageConfiguration,
        database: DatabaseConfiguration,
    ) -> (next: Result<(Self, Launch<Settings, R>), WorkerError>)
        ensures
            launched(next) == relaunched(exit, Settings { storage, database }),
            next matches Ok(started) ==> !started.0.stopping(),
    {
        match self.supervisor.reload(exit, Settings { storage, database }) {
            Ok(started) => Ok((Consumer { supervisor: started.0 }, started.1)),
            Err(error) => Err(error),
        }
    }

    /// Ends the worker with its joined task.
    pub fn shutdown<R>(self, exit: Exit<R>) -> (end: Result<(), WorkerError>)
        ensures
            end == concluded(exit),
    {
        self.supervisor.shutdown(exit)
    }
}

} // verus!
