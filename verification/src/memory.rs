//! Durable storage held in memory: it does to its blobs and records exactly
//! what [`StoreView::perform`] says.

use crate::storage::Action;
use crate::storage::Meme;
use crate::storage::NewMeme;
use crate::storage::Reply;
use crate::storage::ReplyView;
use crate::storage::Row;
use crate::storage::StorageError;
use crate::storage::StoreView;
use crate::storage::lemma_without_absent;
use crate::storage::lemma_without_present;
use crate::storage::meme_views;
use crate::storage::row_views;
use vstd::prelude::*;

verus! {

struct Blob {
    name: String,
    data: Vec<u8>,
}

spec fn named(blobs: Seq<Blob>, name: Seq<char>) -> bool {
    exists|i: int| 0 <= i < blobs.len() && (#[trigger] blobs[i]).name@ == name
}

spec fn place_of(blobs: Seq<Blob>, name: Seq<char>) -> int {
    choose|i: int| 0 <= i < blobs.len() && (#[trigger] blobs[i]).name@ == name
}

spec fn blob_map(blobs: Seq<Blob>) -> Map<Seq<char>, Seq<u8>> {
    Map::new(
        |name: Seq<char>| named(blobs, name),
        |name: Seq<char>| blobs[place_of(blobs, name)].data@,
    )
}

spec fn distinct(blobs: Seq<Blob>) -> bool {
    forall|i: int, j: int|
        0 <= i < j < blobs.len() ==> (#[trigger] blobs[i]).name@ != (#[trigger] blobs[j]).name@
}

proof fn lemma_blob_at(blobs: Seq<Blob>, i: int)
    requires
        distinct(blobs),
        0 <= i < blobs.len(),
    ensures
        named(blobs, blobs[i].name@),
        place_of(blobs, blobs[i].name@) == i,
        blob_map(blobs).contains_key(blobs[i].name@),
        blob_map(blobs)[blobs[i].name@] == blobs[i].data@,
{
    let name = blobs[i].name@;
    let at = place_of(blobs, name);
    if at < i {
        assert(blobs[at].name@ != blobs[i].name@);
    } else if i < at {
        assert(blobs[i].name@ != blobs[at].name@);
    }
}

/// The blobs and the records as they lie in memory.
struct Shelves {
    blobs: Vec<Blob>,
    memes: Vec<Meme>,
    next_id: i32,
}

impl View for Shelves {
    type V = StoreView;

    closed spec fn view(&self) -> StoreView {
        StoreView {
            blobs: blob_map(self.blobs@),
            memes: meme_views(self.memes@),
            next_id: self.next_id,
        }
    }
}

impl Shelves {
    spec fn wf(&self) -> bool {
        &&& distinct(self.blobs@)
        &&& self@.wf()
    }

    fn starting_at(first: i32) -> (shelves: Self)
        ensures
            shelves.wf(),
            shelves@ == (StoreView {
                blobs: Map::empty(),
                memes: Seq::empty(),
                next_id: if first < 1 {
                    1
                } else {
                    first
                },
            }),
    {
        let next_id = if first < 1 {
            1
        } else {
            first
        };
        let shelves = Shelves { blobs: Vec::new(), memes: Vec::new(), next_id };
        assert(shelves@.blobs =~= Map::empty());
        assert(shelves@.memes =~= Seq::empty());
        shelves
    }

    fn blob(&self, name: &String) -> (data: Option<&Vec<u8>>)
        requires
            self.wf(),
        ensures
            match data {
                Some(data) => self@.blobs.contains_key(name@) && self@.blobs[name@] == data@,
                None => !self@.blobs.contains_key(name@),
            },
    {
        match self.place(name) {
            Some(at) => {
                proof {
                    lemma_blob_at(self.blobs@, at as int);
                }
                Some(&self.blobs[at].data)
            },
            None => None,
        }
    }

    fn blob_count(&self) -> (count: usize)
        requires
            self.wf(),
        ensures
            count == self@.blobs.len(),
    {
        proof {
            lemma_blob_count(self.blobs@);
        }
        self.blobs.len()
    }

    fn place(&self, name: &String) -> (at: Option<usize>)
        ensures
            match at {
                Some(i) => i < self.blobs@.len() && self.blobs@[i as int].name@ == name@,
                None => !named(self.blobs@, name@),
            },
    {
        let mut i: usize = 0;
        while i < self.blobs.len()
            invariant
                i <= self.blobs@.len(),
                forall|k: int| 0 <= k < i ==> (#[trigger] self.blobs@[k]).name@ != name@,
            decreases self.blobs@.len() - i,
        {
            if self.blobs[i].name == *name {
                return Some(i);
            }
            i += 1;
        }
        None
    }

    fn locate(&self, telegram_id: i32) -> (at: Option<usize>)
        ensures
            match at {
                Some(k) => k < self.memes@.len() && self@.memes[k as int].belongs_to(telegram_id),
                None => !self@.has(telegram_id),
            },
    {
        let mut i: usize = 0;
        while i < self.memes.len()
            invariant
                i <= self.memes@.len(),
                forall|k: int| 0 <= k < i ==> !(#[trigger] self@.memes[k]).belongs_to(telegram_id),
            decreases self.memes@.len() - i,
        {
            match self.memes[i].telegram_id {
                Some(id) => {
                    if id == telegram_id {
                        return Some(i);
                    }
                },
                None => {},
            }
            i += 1;
        }
        None
    }

    fn locate_id(&self, id: i32) -> (at: Option<usize>)
        ensures
            match at {
                Some(k) => k < self.memes@.len() && self@.memes[k as int].id == id,
                None => forall|k: int| 0 <= k < self@.memes.len() ==> (#[trigger] self@.memes[k]).id != id,
            },
    {
        let mut i: usize = 0;
        while i < self.memes.len()
            invariant
                i <= self.memes@.len(),
                forall|k: int| 0 <= k < i ==> (#[trigger] self@.memes[k]).id != id,
            decreases self.memes@.len() - i,
        {
            if self.memes[i].id == id {
                return Some(i);
            }
            i += 1;
        }
        None
    }

    fn perform(&mut self, action: Action) -> (reply: Reply)
        requires
            old(self).wf(),
        ensures
            final(self).wf(),
            (final(self)@, reply@) == old(self)@.perform(action@),
    {
        proof {
            self@.lemma_perform_wf(action@);
        }
        match action {
            Action::WriteBlob { filename, data } => {
                self.write_blob(filename, data);
                Reply::Done
            },
            Action::InsertMeme { meme } => self.insert(meme),
            Action::UpdateMemes { telegram_id, meme } => {
                let count = self.update(telegram_id, meme);
                Reply::Updated(count)
            },
            Action::FindMemes { telegram_id } => {
                let rows = self.find(telegram_id);
                Reply::Found(rows)
            },
            Action::RemoveBlob { filename } => {
                if self.remove_blob(&filename) {
                    Reply::Done
                } else {
                    Reply::Failed(StorageError::BlobMissing)
                }
            },
            Action::DeleteMeme { id } => {
                self.delete(id);
                Reply::Done
            },
        }
    }

    fn write_blob(&mut self, filename: String, data: Vec<u8>)
        requires
            distinct(old(self).blobs@),
        ensures
            distinct(final(self).blobs@),
            final(self)@ == (StoreView {
                blobs: old(self)@.blobs.insert(filename@, data@),
                memes: old(self)@.memes,
                next_id: old(self)@.next_id,
            }),
    {
        let ghost before = self.blobs@;
        let ghost name = filename@;
        let ghost bytes = data@;
        match self.place(&filename) {
            Some(at) => {
                self.blobs.set(at, Blob { name: filename, data });
                let ghost after = self.blobs@;
                assert(distinct(after)) by {
                    assert forall|i: int, j: int| 0 <= i < j < after.len() implies (
                    #[trigger] after[i]).name@ != (#[trigger] after[j]).name@ by {
                        assert(before[i].name@ != before[j].name@);
                    }
                }
                assert(blob_map(after) =~= blob_map(before).insert(name, bytes)) by {
                    assert forall|key: Seq<char>| named(after, key) <==> named(before, key) by {
                        if named(after, key) {
                            let i = place_of(after, key);
                            assert(before[i].name@ == key);
                        }
                        if named(before, key) {
                            let i = place_of(before, key);
                            assert(after[i].name@ == key);
                        }
                    }
                    assert forall|key: Seq<char>| named(after, key) implies blob_map(after)[key]
                        == blob_map(before).insert(name, bytes)[key] by {
                        let i = place_of(after, key);
                        lemma_blob_at(after, i);
                        if key != name {
                            assert(before[i].name@ == key);
                            lemma_blob_at(before, i);
                        } else {
                            lemma_blob_at(after, at as int);
                        }
                    }
                }
            },
            None => {
                self.blobs.push(Blob { name: filename, data });
                let ghost after = self.blobs@;
                let ghost n = before.len() as int;
                assert(distinct(after)) by {
                    assert forall|i: int, j: int| 0 <= i < j < after.len() implies (
                    #[trigger] after[i]).name@ != (#[trigger] after[j]).name@ by {
                        assert(after[i] == before[i]);
                        if j < n {
                            assert(after[j] == before[j]);
                        }
                    }
                }
                assert(blob_map(after) =~= blob_map(before).insert(name, bytes)) by {
                    assert(after[n].name@ == name);
                    assert forall|key: Seq<char>| named(after, key) <==> (named(before, key) || key
                        == name) by {
                        if named(after, key) {
                            let i = place_of(after, key);
                            if i < n {
                                assert(before[i].name@ == key);
                            }
                        }
                        if named(before, key) {
                            let i = place_of(before, key);
                            assert(after[i].name@ == key);
                        }
                    }
                    assert forall|key: Seq<char>| named(after, key) implies blob_map(after)[key]
                        == blob_map(before).insert(name, bytes)[key] by {
                        let i = place_of(after, key);
                        lemma_blob_at(after, i);
                        if i < n {
                            assert(after[i] == before[i]);
                            lemma_blob_at(before, i);
                        }
                    }
                }
            },
        }
    }

    fn remove_blob(&mut self, filename: &String) -> (removed: bool)
        requires
            distinct(old(self).blobs@),
        ensures
            distinct(final(self).blobs@),
            removed == old(self)@.blobs.contains_key(filename@),
            final(self)@ == (StoreView {
                blobs: if removed {
                    old(self)@.blobs.remove(filename@)
                } else {
                    old(self)@.blobs
                },
                memes: old(self)@.memes,
                next_id: old(self)@.next_id,
            }),
    {
        let ghost before = self.blobs@;
        let ghost name = filename@;
        match self.place(filename) {
            Some(at) => {
                proof {
                    lemma_blob_at(before, at as int);
                }
                self.blobs.remove(at);
                let ghost after = self.blobs@;
                assert forall|i: int| 0 <= i < after.len() implies #[trigger] after[i]
                    == before[if i < at {
                    i
                } else {
                    i + 1
                }] by {}
                assert(distinct(after)) by {
                    assert forall|i: int, j: int| 0 <= i < j < after.len() implies (
                    #[trigger] after[i]).name@ != (#[trigger] after[j]).name@ by {
                        let a = if i < at {
                            i
                        } else {
                            i + 1
                        };
                        let b = if j < at {
                            j
                        } else {
                            j + 1
                        };
                        assert(before[a].name@ != before[b].name@);
                    }
                }
                assert(blob_map(after) =~= blob_map(before).remove(name)) by {
                    assert forall|key: Seq<char>| named(after, key) <==> (named(before, key) && key
                        != name) by {
                        if named(after, key) {
                            let i = place_of(after, key);
                            let a = if i < at {
                                i
                            } else {
                                i + 1
                            };
                            assert(before[a].name@ == key);
                            if a < at {
                                assert(before[a].name@ != before[at as int].name@);
                            } else {
                                assert(before[at as int].name@ != before[a].name@);
                            }
                        }
                        if named(before, key) && key != name {
                            let i = place_of(before, key);
                            let a = if i < at {
                                i
                            } else {
                                i - 1
                            };
                            assert(after[a].name@ == key);
                        }
                    }
                    assert forall|key: Seq<char>| named(after, key) implies blob_map(after)[key]
                        == blob_map(before)[key] by {
                        let i = place_of(after, key);
                        lemma_blob_at(after, i);
                        let a = if i < at {
                            i
                        } else {
                            i + 1
                        };
                        lemma_blob_at(before, a);
                    }
                }
                true
            },
            None => false,
        }
    }

    fn insert(&mut self, meme: NewMeme) -> (reply: Reply)
        requires
            old(self).wf(),
        ensures
            distinct(final(self).blobs@),
            (final(self)@, reply@) == old(self)@.perform(
                crate::storage::ActionView::InsertMeme { meme: meme@ },
            ),
    {
        let taken = match meme.telegram_id {
            Some(telegram_id) => self.locate(telegram_id).is_some(),
            None => false,
        };
        if taken {
            return Reply::Conflict;
        }
        if self.next_id == i32::MAX {
            return Reply::Failed(StorageError::IdsExhausted);
        }
        let ghost before = self.memes@;
        let ghost added = meme@.stored(self.next_id);
        self.memes.push(
            Meme {
                id: self.next_id,
                spoiler: meme.spoiler,
                text: meme.text,
                timestamp: meme.timestamp,
                account: meme.account,
                channel: meme.channel,
                telegram_id: meme.telegram_id,
                filename: meme.filename,
            },
        );
        self.next_id = self.next_id + 1;
        assert(meme_views(self.memes@) =~= meme_views(before).push(added));
        Reply::Done
    }

    fn update(&mut self, telegram_id: i32, meme: NewMeme) -> (count: usize)
        requires
            old(self).wf(),
        ensures
            distinct(final(self).blobs@),
            (final(self)@, ReplyView::Updated(count as nat)) == old(self)@.perform(
                crate::storage::ActionView::UpdateMemes { telegram_id, meme: meme@ },
            ),
    {
        proof {
            self@.lemma_record_of(telegram_id);
        }
        let ghost before = self@;
        match self.locate(telegram_id) {
            Some(at) => {
                let id = self.memes[at].id;
                let own = self.memes[at].telegram_id;
                self.memes.set(
                    at,
                    Meme {
                        id,
                        spoiler: meme.spoiler,
                        text: meme.text,
                        timestamp: meme.timestamp,
                        account: meme.account,
                        channel: meme.channel,
                        telegram_id: own,
                        filename: meme.filename,
                    },
                );
                proof {
                    let k = before.index_of(telegram_id);
                    assert(k == at);
                    assert(meme_views(self.memes@) =~= crate::storage::revise(
                        before.memes,
                        telegram_id,
                        meme@,
                    ));
                }
                1
            },
            None => {
                assert(meme_views(self.memes@) =~= crate::storage::revise(
                    before.memes,
                    telegram_id,
                    meme@,
                ));
                0
            },
        }
    }

    fn find(&self, telegram_id: i32) -> (rows: Vec<Row>)
        requires
            self.wf(),
        ensures
            row_views(rows@) == crate::storage::rows_of(self@.memes, telegram_id),
    {
        proof {
            self@.lemma_record_of(telegram_id);
        }
        let mut rows: Vec<Row> = Vec::new();
        match self.locate(telegram_id) {
            Some(at) => {
                rows.push(Row { id: self.memes[at].id, filename: self.memes[at].filename.clone() });
                assert(row_views(rows@) =~= seq![self@.memes[at as int].row()]);
            },
            None => {
                assert(row_views(rows@) =~= Seq::empty());
            },
        }
        rows
    }

    fn delete(&mut self, id: i32)
        requires
            old(self).wf(),
        ensures
            distinct(final(self).blobs@),
            final(self)@ == (StoreView {
                blobs: old(self)@.blobs,
                memes: crate::storage::without(old(self)@.memes, id),
                next_id: old(self)@.next_id,
            }),
    {
        let ghost before = self@;
        match self.locate_id(id) {
            Some(at) => {
                proof {
                    assert forall|i: int| 0 <= i < before.memes.len() && i != at implies (
                    #[trigger] before.memes[i]).id != id by {
                        if i < at {
                            assert(before.memes[i].id != before.memes[at as int].id);
                        } else {
                            assert(before.memes[at as int].id != before.memes[i].id);
                        }
                    }
                    lemma_without_present(before.memes, id, at as int);
                }
                self.memes.remove(at);
                assert(meme_views(self.memes@) =~= before.memes.remove(at as int));
            },
            None => {
                proof {
                    lemma_without_absent(before.memes, id);
                }
            },
        }
    }
}

/// Durable storage held in memory. It is always in order: no two blobs
/// share a name, and the records keep the record store's rules.
pub struct MemoryStore {
    shelves: Shelves,
}

impl View for MemoryStore {
    type V = StoreView;

    closed spec fn view(&self) -> StoreView {
        self.shelves@
    }
}

impl MemoryStore {
    #[verifier::type_invariant]
    spec fn in_order(self) -> bool {
        self.shelves.wf()
    }

    /// A store that holds nothing.
    pub fn new() -> (store: Self)
        ensures
            store@ == StoreView::empty(),
    {
        MemoryStore { shelves: Shelves::starting_at(1) }
    }

    /// A store that holds nothing and gives `first` as its first
    /// identifier, or 1 where `first` is less.
    pub fn starting_at(first: i32) -> (store: Self)
        ensures
            store@ == (StoreView {
                blobs: Map::empty(),
                memes: Seq::empty(),
                next_id: if first < 1 {
                    1
                } else {
                    first
                },
            }),
    {
        MemoryStore { shelves: Shelves::starting_at(first) }
    }

    /// Attests that the records keep the record store's rules.
    pub fn attest(&self)
        ensures
            self@.wf(),
    {
        proof {
            use_type_invariant(self);
        }
    }

    /// The records, in the order of their insertion.
    pub fn records(&self) -> (memes: &Vec<Meme>)
        ensures
            meme_views(memes@) == self@.memes,
    {
        &self.shelves.memes
    }

    /// The content of the blob `name`, if there is such a blob.
    pub fn blob(&self, name: &String) -> (data: Option<&Vec<u8>>)
        ensures
            match data {
                Some(data) => self@.blobs.contains_key(name@) && self@.blobs[name@] == data@,
                None => !self@.blobs.contains_key(name@),
            },
    {
        proof {
            use_type_invariant(self);
        }
        self.shelves.blob(name)
    }

    /// How many blobs the store holds.
    pub fn blob_count(&self) -> (count: usize)
        ensures
            count == self@.blobs.len(),
    {
        proof {
            use_type_invariant(self);
        }
        self.shelves.blob_count()
    }

    /// Carries out `action` and answers it.
    pub fn perform(&mut self, action: Action) -> (reply: Reply)
        ensures
            (final(self)@, reply@) == old(self)@.perform(action@),
            old(self)@.wf(),
            final(self)@.wf(),
    {
        proof {
            use_type_invariant(&*self);
        }
        let mut shelves = Shelves::starting_at(1);
        core::mem::swap(&mut shelves, &mut self.shelves);
        let reply = shelves.perform(action);
        self.shelves = shelves;
        reply
    }
}

proof fn lemma_blob_count(blobs: Seq<Blob>)
    requires
        distinct(blobs),
    ensures
        blob_map(blobs).dom().finite(),
        blob_map(blobs).len() == blobs.len(),
    decreases blobs.len(),
{
    if blobs.len() == 0 {
        assert(blob_map(blobs) =~= Map::empty());
    } else {
        let rest = blobs.drop_last();
        let last = blobs.last();
        lemma_blob_count(rest);
        lemma_blob_at(blobs, blobs.len() - 1);
        assert(!named(rest, last.name@)) by {
            if named(rest, last.name@) {
                let i = place_of(rest, last.name@);
                assert(blobs[i].name@ != blobs[blobs.len() - 1].name@);
            }
        }
        assert(blob_map(blobs) =~= blob_map(rest).insert(last.name@, last.data@)) by {
            assert forall|key: Seq<char>| named(blobs, key) <==> (named(rest, key) || key
                == last.name@) by {
                if named(blobs, key) {
                    let i = place_of(blobs, key);
                    if i < rest.len() {
                        assert(rest[i].name@ == key);
                    }
                }
                if named(rest, key) {
                    let i = place_of(rest, key);
                    assert(blobs[i].name@ == key);
                }
            }
            assert forall|key: Seq<char>| named(blobs, key) implies blob_map(blobs)[key]
                == blob_map(rest).insert(last.name@, last.data@)[key] by {
                let i = place_of(blobs, key);
                lemma_blob_at(blobs, i);
                if i < rest.len() {
                    assert(rest[i] == blobs[i]);
                    lemma_blob_at(rest, i);
                }
            }
        }
    }
}

} // verus!
