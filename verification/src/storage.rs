//! Durable storage as the persistence consumer sees it: blobs under a root
//! directory, one record per captured post, and the operations on both.
//!
//! [`StoreView`] says what each operation does. [`MemoryStore`] is a store
//! held in memory that does exactly that.

use crate::event::Timestamp;
use vstd::prelude::*;

verus! {

/// A record that is about to be inserted.
#[derive(Debug, PartialEq, Eq)]
pub struct NewMeme {
    pub spoiler: bool,
    pub text: String,
    pub timestamp: Timestamp,
    pub account: String,
    pub channel: String,
    pub telegram_id: Option<i32>,
    pub filename: String,
}

/// The mathematical view of a [`NewMeme`].
pub struct NewMemeView {
    pub spoiler: bool,
    pub text: Seq<char>,
    pub timestamp: Timestamp,
    pub account: Seq<char>,
    pub channel: Seq<char>,
    pub telegram_id: Option<i32>,
    pub filename: Seq<char>,
}

impl NewMemeView {
    /// The stored record that an insert under `id` makes of this one.
    pub open spec fn stored(self, id: i32) -> MemeView {
        MemeView {
            id,
            spoiler: self.spoiler,
            text: self.text,
            timestamp: self.timestamp,
            account: self.account,
            channel: self.channel,
            telegram_id: self.telegram_id,
            filename: self.filename,
        }
    }
}

impl View for NewMeme {
    type V = NewMemeView;

    open spec fn view(&self) -> NewMemeView {
        NewMemeView {
            spoiler: self.spoiler,
            text: self.text@,
            timestamp: self.timestamp,
            account: self.account@,
            channel: self.channel@,
            telegram_id: self.telegram_id,
            filename: self.filename@,
        }
    }
}

impl Clone for NewMeme {
    fn clone(&self) -> (copy: Self)
        ensures
            copy == *self,
    {
        NewMeme {
            spoiler: self.spoiler,
            text: self.text.clone(),
            timestamp: self.timestamp,
            account: self.account.clone(),
            channel: self.channel.clone(),
            telegram_id: self.telegram_id,
            filename: self.filename.clone(),
        }
    }
}

/// A stored record.
#[derive(Debug, PartialEq, Eq)]
pub struct Meme {
    pub id: i32,
    pub spoiler: bool,
    pub text: String,
    pub timestamp: Timestamp,
    pub account: String,
    pub channel: String,
    pub telegram_id: Option<i32>,
    pub filename: String,
}

/// The mathematical view of a [`Meme`].
pub struct MemeView {
    pub id: i32,
    pub spoiler: bool,
    pub text: Seq<char>,
    pub timestamp: Timestamp,
    pub account: Seq<char>,
    pub channel: Seq<char>,
    pub telegram_id: Option<i32>,
    pub filename: Seq<char>,
}

impl MemeView {
    /// This record after an update to `meme`: the record keeps its own
    /// identifier and its message identifier and takes the rest.
    pub open spec fn revised(self, meme: NewMemeView) -> MemeView {
        MemeView {
            id: self.id,
            spoiler: meme.spoiler,
            text: meme.text,
            timestamp: meme.timestamp,
            account: meme.account,
            channel: meme.channel,
            telegram_id: self.telegram_id,
            filename: meme.filename,
        }
    }

    /// Whether the record belongs to the message `telegram_id`.
    pub open spec fn belongs_to(self, telegram_id: i32) -> bool {
        self.telegram_id == Some(telegram_id)
    }

    /// The record's identifier with the name of its blob.
    pub open spec fn row(self) -> RowView {
        RowView { id: self.id, filename: self.filename }
    }
}

impl View for Meme {
    type V = MemeView;

    open spec fn view(&self) -> MemeView {
        MemeView {
            id: self.id,
            spoiler: self.spoiler,
            text: self.text@,
            timestamp: self.timestamp,
            account: self.account@,
            channel: self.channel@,
            telegram_id: self.telegram_id,
            filename: self.filename@,
        }
    }
}

impl Clone for Meme {
    fn clone(&self) -> (copy: Self)
        ensures
            copy == *self,
    {
        Meme {
            id: self.id,
            spoiler: self.spoiler,
            text: self.text.clone(),
            timestamp: self.timestamp,
            account: self.account.clone(),
            channel: self.channel.clone(),
            telegram_id: self.telegram_id,
            filename: self.filename.clone(),
        }
    }
}

/// What a lookup returns of a record: its identifier and the name of its blob.
#[derive(Debug, PartialEq, Eq)]
pub struct Row {
    pub id: i32,
    pub filename: String,
}

/// The mathematical view of a [`Row`].
pub struct RowView {
    pub id: i32,
    pub filename: Seq<char>,
}

impl View for Row {
    type V = RowView;

    open spec fn view(&self) -> RowView {
        RowView { id: self.id, filename: self.filename@ }
    }
}

impl Clone for Row {
    fn clone(&self) -> (copy: Self)
        ensures
            copy == *self,
    {
        Row { id: self.id, filename: self.filename.clone() }
    }
}

/// The views of a sequence of rows.
pub open spec fn row_views(rows: Seq<Row>) -> Seq<RowView> {
    Seq::new(rows.len(), |i: int| rows[i]@)
}

/// The views of a sequence of records.
pub open spec fn meme_views(memes: Seq<Meme>) -> Seq<MemeView> {
    Seq::new(memes.len(), |i: int| memes[i]@)
}

/// Why a storage operation did not succeed.
#[derive(Clone, Copy, Debug, PartialEq, Eq, Structural)]
pub enum StorageError {
    /// The blob that was to be removed does not exist.
    BlobMissing,
    /// The record store has no identifier left to give.
    IdsExhausted,
    /// The file system or the record store reported a fault.
    Backend,
    /// The answer does not fit the operation that was asked for.
    UnexpectedReply,
    /// The post comes from a platform whose posts cannot be stored.
    Unsupported,
}

/// One operation on durable storage.
#[derive(PartialEq, Eq)]
pub enum Action {
    /// Write `data` to the blob `filename`, replacing what it held.
    WriteBlob { filename: String, data: Vec<u8> },
    /// Insert `meme` as a new record.
    InsertMeme { meme: NewMeme },
    /// Bring every record of message `telegram_id` up to `meme`.
    UpdateMemes { telegram_id: i32, meme: NewMeme },
    /// Look up the records of message `telegram_id`.
    FindMemes { telegram_id: i32 },
    /// Remove the blob `filename`.
    RemoveBlob { filename: String },
    /// Delete the record `id`.
    DeleteMeme { id: i32 },
}

/// The mathematical view of an [`Action`].
pub enum ActionView {
    WriteBlob { filename: Seq<char>, data: Seq<u8> },
    InsertMeme { meme: NewMemeView },
    UpdateMemes { telegram_id: i32, meme: NewMemeView },
    FindMemes { telegram_id: i32 },
    RemoveBlob { filename: Seq<char> },
    DeleteMeme { id: i32 },
}

impl View for Action {
    type V = ActionView;

    open spec fn view(&self) -> ActionView {
        match *self {
            Action::WriteBlob { filename, data } => ActionView::WriteBlob {
                filename: filename@,
                data: data@,
            },
            Action::InsertMeme { meme } => ActionView::InsertMeme { meme: meme@ },
            Action::UpdateMemes { telegram_id, meme } => ActionView::UpdateMemes {
                telegram_id,
                meme: meme@,
            },
            Action::FindMemes { telegram_id } => ActionView::FindMemes { telegram_id },
            Action::RemoveBlob { filename } => ActionView::RemoveBlob { filename: filename@ },
            Action::DeleteMeme { id } => ActionView::DeleteMeme { id },
        }
    }
}

/// What storage answers to an [`Action`].
#[derive(Debug, PartialEq, Eq)]
pub enum Reply {
    /// The operation was carried out.
    Done,
    /// The record was not inserted: its message already has one.
    Conflict,
    /// The update reached this many records.
    Updated(usize),
    /// The lookup found these records.
    Found(Vec<Row>),
    /// The operation failed.
    Failed(StorageError),
}

/// The mathematical view of a [`Reply`].
pub enum ReplyView {
    Done,
    Conflict,
    Updated(nat),
    Found(Seq<RowView>),
    Failed(StorageError),
}

impl View for Reply {
    type V = ReplyView;

    open spec fn view(&self) -> ReplyView {
        match *self {
            Reply::Done => ReplyView::Done,
            Reply::Conflict => ReplyView::Conflict,
            Reply::Updated(count) => ReplyView::Updated(count as nat),
            Reply::Found(rows) => ReplyView::Found(row_views(rows@)),
            Reply::Failed(error) => ReplyView::Failed(error),
        }
    }
}

/// How many of `memes` belong to message `telegram_id`.
pub open spec fn count_of(memes: Seq<MemeView>, telegram_id: i32) -> nat
    decreases memes.len(),
{
    if memes.len() == 0 {
        0
    } else if memes.last().belongs_to(telegram_id) {
        count_of(memes.drop_last(), telegram_id) + 1
    } else {
        count_of(memes.drop_last(), telegram_id)
    }
}

/// The rows of those of `memes` that belong to message `telegram_id`, in
/// the order of the records.
pub open spec fn rows_of(memes: Seq<MemeView>, telegram_id: i32) -> Seq<RowView>
    decreases memes.len(),
{
    if memes.len() == 0 {
        Seq::empty()
    } else if memes.last().belongs_to(telegram_id) {
        rows_of(memes.drop_last(), telegram_id).push(memes.last().row())
    } else {
        rows_of(memes.drop_last(), telegram_id)
    }
}

/// `memes` with every record of message `telegram_id` brought up to `meme`.
pub open spec fn revise(memes: Seq<MemeView>, telegram_id: i32, meme: NewMemeView) -> Seq<
    MemeView,
> {
    Seq::new(
        memes.len(),
        |i: int|
            if memes[i].belongs_to(telegram_id) {
                memes[i].revised(meme)
            } else {
                memes[i]
            },
    )
}

/// `memes` without the records whose identifier is `id`.
pub open spec fn without(memes: Seq<MemeView>, id: i32) -> Seq<MemeView>
    decreases memes.len(),
{
    if memes.len() == 0 {
        Seq::empty()
    } else if memes.last().id == id {
        without(memes.drop_last(), id)
    } else {
        without(memes.drop_last(), id).push(memes.last())
    }
}

/// The state of durable storage: the blobs by name, the records in the
/// order of their insertion, and the identifier that the next insert gives.
pub struct StoreView {
    pub blobs: Map<Seq<char>, Seq<u8>>,
    pub memes: Seq<MemeView>,
    pub next_id: i32,
}

impl StoreView {
    /// Storage that holds nothing.
    pub open spec fn empty() -> StoreView {
        StoreView { blobs: Map::empty(), memes: Seq::empty(), next_id: 1 }
    }

    /// Whether a record of message `telegram_id` is stored.
    pub open spec fn has(self, telegram_id: i32) -> bool {
        exists|i: int|
            0 <= i < self.memes.len() && (#[trigger] self.memes[i]).belongs_to(telegram_id)
    }

    /// The record store's own rules: identifiers are below the next one to
    /// be given, no two records share an identifier, and no two records
    /// belong to the same message.
    pub open spec fn wf(self) -> bool {
        &&& 1 <= self.next_id
        &&& forall|i: int| 0 <= i < self.memes.len() ==> (#[trigger] self.memes[i]).id < self.next_id
        &&& forall|i: int, j: int|
            0 <= i < j < self.memes.len() ==> (#[trigger] self.memes[i]).id != (
            #[trigger] self.memes[j]).id
        &&& forall|i: int, j: int|
            0 <= i < j < self.memes.len() && (#[trigger] self.memes[i]).telegram_id is Some ==> (
            #[trigger] self.memes[j]).telegram_id != self.memes[i].telegram_id
    }

    /// Whether an insert of `meme` is turned away because the message
    /// already has a record.
    pub open spec fn conflicts(self, meme: NewMemeView) -> bool {
        meme.telegram_id matches Some(telegram_id) && self.has(telegram_id)
    }

    /// Storage after `action`, with the answer to it.
    pub open spec fn perform(self, action: ActionView) -> (StoreView, ReplyView) {
        match action {
            ActionView::WriteBlob { filename, data } => (
                StoreView {
                    blobs: self.blobs.insert(filename, data),
                    memes: self.memes,
                    next_id: self.next_id,
                },
                ReplyView::Done,
            ),
            ActionView::InsertMeme { meme } => if self.conflicts(meme) {
                (self, ReplyView::Conflict)
            } else if self.next_id == i32::MAX {
                (self, ReplyView::Failed(StorageError::IdsExhausted))
            } else {
                (
                    StoreView {
                        blobs: self.blobs,
                        memes: self.memes.push(meme.stored(self.next_id)),
                        next_id: (self.next_id + 1) as i32,
                    },
                    ReplyView::Done,
                )
            },
            ActionView::UpdateMemes { telegram_id, meme } => (
                StoreView {
                    blobs: self.blobs,
                    memes: revise(self.memes, telegram_id, meme),
                    next_id: self.next_id,
                },
                ReplyView::Updated(count_of(self.memes, telegram_id)),
            ),
            ActionView::FindMemes { telegram_id } => (
                self,
                ReplyView::Found(rows_of(self.memes, telegram_id)),
            ),
            ActionView::RemoveBlob { filename } => if self.blobs.contains_key(filename) {
                (
                    StoreView {
                        blobs: self.blobs.remove(filename),
                        memes: self.memes,
                        next_id: self.next_id,
                    },
                    ReplyView::Done,
                )
            } else {
                (self, ReplyView::Failed(StorageError::BlobMissing))
            },
            ActionView::DeleteMeme { id } => (
                StoreView {
                    blobs: self.blobs,
                    memes: without(self.memes, id),
                    next_id: self.next_id,
                },
                ReplyView::Done,
            ),
        }
    }
}

/// Where no record belongs to a message, a lookup finds nothing and an
/// update reaches nothing.
pub proof fn lemma_no_record(memes: Seq<MemeView>, telegram_id: i32)
    requires
        forall|i: int| 0 <= i < memes.len() ==> !(#[trigger] memes[i]).belongs_to(telegram_id),
    ensures
        count_of(memes, telegram_id) == 0,
        rows_of(memes, telegram_id) == Seq::<RowView>::empty(),
    decreases memes.len(),
{
    if memes.len() > 0 {
        assert(!memes[memes.len() - 1].belongs_to(telegram_id));
        lemma_no_record(memes.drop_last(), telegram_id);
    }
}

/// Where exactly the record at `k` belongs to a message, a lookup finds
/// that record and an update reaches one record.
pub proof fn lemma_one_record(memes: Seq<MemeView>, telegram_id: i32, k: int)
    requires
        0 <= k < memes.len(),
        memes[k].belongs_to(telegram_id),
        forall|i: int|
            0 <= i < memes.len() && i != k ==> !(#[trigger] memes[i]).belongs_to(telegram_id),
    ensures
        count_of(memes, telegram_id) == 1,
        rows_of(memes, telegram_id) == seq![memes[k].row()],
    decreases memes.len(),
{
    let rest = memes.drop_last();
    if k == memes.len() - 1 {
        lemma_no_record(rest, telegram_id);
        assert(rows_of(memes, telegram_id) =~= seq![memes[k].row()]);
    } else {
        assert(!memes[memes.len() - 1].belongs_to(telegram_id));
        lemma_one_record(rest, telegram_id, k);
    }
}

/// Where no record has the identifier, deleting it leaves the records as
/// they are.
pub proof fn lemma_without_absent(memes: Seq<MemeView>, id: i32)
    requires
        forall|i: int| 0 <= i < memes.len() ==> (#[trigger] memes[i]).id != id,
    ensures
        without(memes, id) == memes,
    decreases memes.len(),
{
    if memes.len() > 0 {
        assert(memes[memes.len() - 1].id != id);
        lemma_without_absent(memes.drop_last(), id);
        assert(memes.drop_last().push(memes.last()) =~= memes);
    } else {
        assert(without(memes, id) =~= memes);
    }
}

/// Where exactly the record at `k` has the identifier, deleting it removes
/// that record and keeps the others in their order.
pub proof fn lemma_without_present(memes: Seq<MemeView>, id: i32, k: int)
    requires
        0 <= k < memes.len(),
        memes[k].id == id,
        forall|i: int| 0 <= i < memes.len() && i != k ==> (#[trigger] memes[i]).id != id,
    ensures
        without(memes, id) == memes.remove(k),
    decreases memes.len(),
{
    let rest = memes.drop_last();
    if k == memes.len() - 1 {
        lemma_without_absent(rest, id);
        assert(memes.remove(k) =~= rest);
    } else {
        assert(memes[memes.len() - 1].id != id);
        lemma_without_present(rest, id, k);
        assert(rest.remove(k).push(memes.last()) =~= memes.remove(k));
    }
}

impl StoreView {
    /// The place of the record of message `telegram_id`, where there is one.
    pub open spec fn index_of(self, telegram_id: i32) -> int {
        choose|i: int|
            0 <= i < self.memes.len() && (#[trigger] self.memes[i]).belongs_to(telegram_id)
    }

    /// A message has at most one record: a lookup finds it alone, an update
    /// reaches it alone.
    pub proof fn lemma_record_of(self, telegram_id: i32)
        requires
            self.wf(),
        ensures
            !self.has(telegram_id) ==> {
                &&& count_of(self.memes, telegram_id) == 0
                &&& rows_of(self.memes, telegram_id) == Seq::<RowView>::empty()
            },
            self.has(telegram_id) ==> {
                let k = self.index_of(telegram_id);
                &&& 0 <= k < self.memes.len()
                &&& self.memes[k].belongs_to(telegram_id)
                &&& forall|i: int|
                    0 <= i < self.memes.len() && i != k ==> !(#[trigger] self.memes[i]).belongs_to(
                        telegram_id,
                    )
                &&& count_of(self.memes, telegram_id) == 1
                &&& rows_of(self.memes, telegram_id) == seq![self.memes[k].row()]
            },
    {
        if self.has(telegram_id) {
            let k = self.index_of(telegram_id);
            assert forall|i: int| 0 <= i < self.memes.len() && i != k implies !(
            #[trigger] self.memes[i]).belongs_to(telegram_id) by {
                if i < k {
                    assert(self.memes[k].telegram_id != self.memes[i].telegram_id
                        || self.memes[i].telegram_id is None);
                } else {
                    assert(self.memes[i].telegram_id != self.memes[k].telegram_id);
                }
            }
            lemma_one_record(self.memes, telegram_id, k);
        } else {
            lemma_no_record(self.memes, telegram_id);
        }
    }

    /// Every operation keeps the record store's rules.
    pub proof fn lemma_perform_wf(self, action: ActionView)
        requires
            self.wf(),
        ensures
            self.perform(action).0.wf(),
    {
        let after = self.perform(action).0;
        match action {
            ActionView::InsertMeme { meme } => {
                if !self.conflicts(meme) && self.next_id != i32::MAX {
                    let n = self.memes.len() as int;
                    assert forall|i: int, j: int|
                        0 <= i < j < after.memes.len() && (
                        #[trigger] after.memes[i]).telegram_id is Some implies (
                    #[trigger] after.memes[j]).telegram_id != after.memes[i].telegram_id by {
                        if j == n {
                            assert(after.memes[i] == self.memes[i]);
                            if meme.telegram_id is Some {
                                assert(!self.memes[i].belongs_to(meme.telegram_id->0));
                            }
                        } else {
                            assert(after.memes[i] == self.memes[i]);
                            assert(after.memes[j] == self.memes[j]);
                        }
                    }
                    assert forall|i: int, j: int| 0 <= i < j < after.memes.len() implies (
                    #[trigger] after.memes[i]).id != (#[trigger] after.memes[j]).id by {
                        assert(after.memes[i] == self.memes[i]);
                        if j < n {
                            assert(after.memes[j] == self.memes[j]);
                        }
                    }
                    assert forall|i: int| 0 <= i < after.memes.len() implies (
                    #[trigger] after.memes[i]).id < after.next_id by {
                        if i < n {
                            assert(after.memes[i] == self.memes[i]);
                        }
                    }
                }
            },
            ActionView::UpdateMemes { telegram_id, meme } => {
                assert forall|i: int| 0 <= i < after.memes.len() implies (
                #[trigger] after.memes[i]).id == self.memes[i].id && after.memes[i].telegram_id
                    == self.memes[i].telegram_id by {}
                assert forall|i: int, j: int| 0 <= i < j < after.memes.len() implies (
                #[trigger] after.memes[i]).id != (#[trigger] after.memes[j]).id by {
                    assert(self.memes[i].id != self.memes[j].id);
                }
                assert forall|i: int, j: int|
                    0 <= i < j < after.memes.len() && (
                    #[trigger] after.memes[i]).telegram_id is Some implies (
                #[trigger] after.memes[j]).telegram_id != after.memes[i].telegram_id by {
                    assert(self.memes[j].telegram_id != self.memes[i].telegram_id);
                }
                assert forall|i: int| 0 <= i < after.memes.len() implies (
                #[trigger] after.memes[i]).id < after.next_id by {
                    assert(self.memes[i].id < self.next_id);
                }
            },
            ActionView::DeleteMeme { id } => {
                if exists|k: int| 0 <= k < self.memes.len() && (#[trigger] self.memes[k]).id == id {
                    let k = choose|k: int|
                        0 <= k < self.memes.len() && (#[trigger] self.memes[k]).id == id;
                    assert forall|i: int| 0 <= i < self.memes.len() && i != k implies (
                    #[trigger] self.memes[i]).id != id by {
                        if i < k {
                            assert(self.memes[i].id != self.memes[k].id);
                        } else {
                            assert(self.memes[k].id != self.memes[i].id);
                        }
                    }
                    lemma_without_present(self.memes, id, k);
                    lemma_remove_wf(self, k);
                } else {
                    lemma_without_absent(self.memes, id);
                }
            },
            _ => {},
        }
    }
}

/// Taking one record out keeps the record store's rules.
pub proof fn lemma_remove_wf(store: StoreView, k: int)
    requires
        store.wf(),
        0 <= k < store.memes.len(),
    ensures
        (StoreView { blobs: store.blobs, memes: store.memes.remove(k), next_id: store.next_id }).wf(),
{
    let rest = store.memes.remove(k);
    assert forall|i: int| 0 <= i < rest.len() implies #[trigger] rest[i] == store.memes[if i < k {
        i
    } else {
        i + 1
    }] by {}
    assert forall|i: int| 0 <= i < rest.len() implies (#[trigger] rest[i]).id < store.next_id by {
        let at = if i < k {
            i
        } else {
            i + 1
        };
        assert(store.memes[at].id < store.next_id);
    }
    assert forall|i: int, j: int| 0 <= i < j < rest.len() implies (#[trigger] rest[i]).id != (
    #[trigger] rest[j]).id by {
        let a = if i < k {
            i
        } else {
            i + 1
        };
        let b = if j < k {
            j
        } else {
            j + 1
        };
        assert(store.memes[a].id != store.memes[b].id);
    }
    assert forall|i: int, j: int|
        0 <= i < j < rest.len() && (#[trigger] rest[i]).telegram_id is Some implies (
    #[trigger] rest[j]).telegram_id != rest[i].telegram_id by {
        let a = if i < k {
            i
        } else {
            i + 1
        };
        let b = if j < k {
            j
        } else {
            j + 1
        };
        assert(store.memes[b].telegram_id != store.memes[a].telegram_id);
    }
}

} // verus!
