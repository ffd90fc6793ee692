//! What holds of storage whatever the events are: the last event about a
//! message decides what is stored of it, and an event that comes twice
//! changes nothing the second time.

use crate::consumer::drained;
use crate::consumer::effect;
use crate::consumer::file_name_of;
use crate::consumer::record_of;
use crate::consumer::stored;
use crate::event::MemeEventView;
use crate::event::MemeImageView;
use crate::event::SourceView;
use crate::storage::ActionView;
use crate::storage::MemeView;
use crate::storage::NewMemeView;
use crate::storage::StorageError;
use crate::storage::StoreView;
use crate::storage::count_of;
use crate::storage::lemma_remove_wf;
use crate::storage::revise;
use vstd::prelude::*;

verus! {

/// Storage after `events`, applied in order up to the first that fails,
/// with that failure if there was one.
pub open spec fn effects(store: StoreView, events: Seq<MemeEventView>) -> (
    StoreView,
    Option<StorageError>,
)
    decreases events.len(),
{
    if events.len() == 0 {
        (store, None)
    } else {
        let (before, failure) = effects(store, events.drop_last());
        if failure is Some {
            (before, failure)
        } else {
            effect(before, events.last())
        }
    }
}

/// Whether record and blob of a message stand together in `store`: the
/// blob `filename` exists exactly if the message has a record, and that
/// record names it.
pub open spec fn settled(store: StoreView, telegram_id: i32, filename: Seq<char>) -> bool {
    &&& store.has(telegram_id) <==> store.blobs.contains_key(filename)
    &&& store.has(telegram_id) ==> store.memes[store.index_of(telegram_id)].filename == filename
}

/// Whether `event` speaks of message `telegram_id` and, where it carries a
/// picture, puts it into the blob `filename`.
pub open spec fn concerns(event: MemeEventView, telegram_id: i32, filename: Seq<char>) -> bool {
    &&& event.source().message_id() == Some(telegram_id)
    &&& !(event is Deleted) ==> file_name_of(event.source()) == filename
}

/// What `event` alone asks of storage: after a deletion neither record nor
/// blob, after a new or edited post the one record that stands for it and
/// the blob with its picture.
pub open spec fn reflects(
    store: StoreView,
    event: MemeEventView,
    telegram_id: i32,
    filename: Seq<char>,
) -> bool {
    match event {
        MemeEventView::Deleted { .. } => {
            &&& !store.has(telegram_id)
            &&& !store.blobs.contains_key(filename)
        },
        MemeEventView::New { image, source } => holds(store, image, source, telegram_id, filename),
        MemeEventView::Updated { image, source } => holds(
            store,
            image,
            source,
            telegram_id,
            filename,
        ),
    }
}

/// Whether `store` holds the post `image` from `source` as the one record
/// of message `telegram_id`, with its picture in the blob `filename`.
pub open spec fn holds(
    store: StoreView,
    image: MemeImageView,
    source: SourceView,
    telegram_id: i32,
    filename: Seq<char>,
) -> bool {
    let record = store.memes[store.index_of(telegram_id)];
    &&& store.has(telegram_id)
    &&& count_of(store.memes, telegram_id) == 1
    &&& record == record_of(image, source).stored(record.id)
    &&& store.blobs.contains_key(filename)
    &&& store.blobs[filename] == image.data
}

/// The records of all other messages than `telegram_id`, in their order.
pub open spec fn others(memes: Seq<MemeView>, telegram_id: i32) -> Seq<MemeView>
    decreases memes.len(),
{
    if memes.len() == 0 {
        Seq::empty()
    } else if memes.last().belongs_to(telegram_id) {
        others(memes.drop_last(), telegram_id)
    } else {
        others(memes.drop_last(), telegram_id).push(memes.last())
    }
}

/// Whether `after` differs from `before` in nothing but the records of
/// message `telegram_id` and the blob `filename`.
pub open spec fn apart_from(
    after: StoreView,
    before: StoreView,
    telegram_id: i32,
    filename: Seq<char>,
) -> bool {
    &&& others(after.memes, telegram_id) == others(before.memes, telegram_id)
    &&& forall|name: Seq<char>|
        name != filename ==> (after.blobs.contains_key(name) <==> before.blobs.contains_key(name))
    &&& forall|name: Seq<char>|
        name != filename && before.blobs.contains_key(name) ==> after.blobs[name]
            == before.blobs[name]
}

proof fn lemma_others_revised(memes: Seq<MemeView>, telegram_id: i32, meme: NewMemeView)
    ensures
        others(revise(memes, telegram_id, meme), telegram_id) == others(memes, telegram_id),
    decreases memes.len(),
{
    let revised = revise(memes, telegram_id, meme);
    if memes.len() > 0 {
        lemma_others_revised(memes.drop_last(), telegram_id, meme);
        assert(revised.drop_last() =~= revise(memes.drop_last(), telegram_id, meme));
    }
}

proof fn lemma_others_removed(memes: Seq<MemeView>, telegram_id: i32, k: int)
    requires
        0 <= k < memes.len(),
        memes[k].belongs_to(telegram_id),
    ensures
        others(memes.remove(k), telegram_id) == others(memes, telegram_id),
    decreases memes.len(),
{
    if k == memes.len() - 1 {
        assert(memes.remove(k) =~= memes.drop_last());
    } else {
        lemma_others_removed(memes.drop_last(), telegram_id, k);
        assert(memes.remove(k).drop_last() =~= memes.drop_last().remove(k));
        assert(memes.remove(k).last() == memes.last());
    }
}

proof fn lemma_wf_of_records(store: StoreView, other: StoreView)
    requires
        store.wf(),
        other.memes == store.memes,
        other.next_id == store.next_id,
    ensures
        other.wf(),
{
}

/// One event about a message whose record and blob stand together: it does
/// not fail while an identifier is left, it keeps them together, and storage
/// then shows what the event asks.
pub proof fn lemma_event_decides(
    store: StoreView,
    event: MemeEventView,
    telegram_id: i32,
    filename: Seq<char>,
)
    requires
        store.wf(),
        settled(store, telegram_id, filename),
        concerns(event, telegram_id, filename),
        store.next_id < i32::MAX,
    ensures
        effect(store, event).1 is None,
        effect(store, event).0.wf(),
        settled(effect(store, event).0, telegram_id, filename),
        reflects(effect(store, event).0, event, telegram_id, filename),
        apart_from(effect(store, event).0, store, telegram_id, filename),
        effect(store, event).0.next_id <= store.next_id + 1,
{
    let end = effect(store, event).0;
    store.lemma_record_of(telegram_id);
    match event {
        MemeEventView::Deleted { source } => {
            if store.has(telegram_id) {
                let k = store.index_of(telegram_id);
                lemma_remove_wf(store, k);
                lemma_others_removed(store.memes, telegram_id, k);
                lemma_wf_of_records(
                    StoreView {
                        blobs: store.blobs,
                        memes: store.memes.remove(k),
                        next_id: store.next_id,
                    },
                    end,
                );
                assert(!end.has(telegram_id)) by {
                    if end.has(telegram_id) {
                        let i = end.index_of(telegram_id);
                        let at = if i < k {
                            i
                        } else {
                            i + 1
                        };
                        assert(end.memes[i] == store.memes[at]);
                        assert(!store.memes[at].belongs_to(telegram_id));
                    }
                }
            }
        },
        MemeEventView::New { image, source } => {
            lemma_stored_holds(store, image, source, telegram_id, filename);
        },
        MemeEventView::Updated { image, source } => {
            lemma_stored_holds(store, image, source, telegram_id, filename);
        },
    }
}

proof fn lemma_stored_holds(
    store: StoreView,
    image: MemeImageView,
    source: SourceView,
    telegram_id: i32,
    filename: Seq<char>,
)
    requires
        store.wf(),
        source.message_id() == Some(telegram_id),
        file_name_of(source) == filename,
        store.next_id < i32::MAX,
    ensures
        stored(store, image, source).1 is None,
        stored(store, image, source).0.wf(),
        settled(stored(store, image, source).0, telegram_id, filename),
        holds(stored(store, image, source).0, image, source, telegram_id, filename),
        apart_from(stored(store, image, source).0, store, telegram_id, filename),
        stored(store, image, source).0.next_id <= store.next_id + 1,
{
    let end = stored(store, image, source).0;
    let meme = record_of(image, source);
    store.lemma_record_of(telegram_id);
    if store.has(telegram_id) {
        lemma_others_revised(store.memes, telegram_id, meme);
        let k = store.index_of(telegram_id);
        let update = ActionView::UpdateMemes { telegram_id, meme };
        store.lemma_perform_wf(update);
        lemma_wf_of_records(store.perform(update).0, end);
        assert(end.memes[k] == store.memes[k].revised(meme));
        assert(end.memes[k].belongs_to(telegram_id));
        end.lemma_record_of(telegram_id);
        assert(end.index_of(telegram_id) == k);
    } else {
        let insert = ActionView::InsertMeme { meme };
        store.lemma_perform_wf(insert);
        lemma_wf_of_records(store.perform(insert).0, end);
        let k = store.memes.len() as int;
        assert(end.memes[k] == meme.stored(store.next_id));
        assert(end.memes[k].belongs_to(telegram_id));
        end.lemma_record_of(telegram_id);
        assert(end.index_of(telegram_id) == k);
        assert(end.memes.drop_last() =~= store.memes);
    }
}

proof fn lemma_events_settle(
    store: StoreView,
    events: Seq<MemeEventView>,
    telegram_id: i32,
    filename: Seq<char>,
)
    requires
        store.wf(),
        settled(store, telegram_id, filename),
        forall|i: int|
            0 <= i < events.len() ==> concerns(#[trigger] events[i], telegram_id, filename),
        store.next_id + events.len() <= i32::MAX,
    ensures
        effects(store, events).1 is None,
        effects(store, events).0.wf(),
        settled(effects(store, events).0, telegram_id, filename),
        apart_from(effects(store, events).0, store, telegram_id, filename),
        effects(store, events).0.next_id <= store.next_id + events.len(),
        events.len() > 0 ==> reflects(
            effects(store, events).0,
            events.last(),
            telegram_id,
            filename,
        ),
    decreases events.len(),
{
    if events.len() > 0 {
        let earlier = events.drop_last();
        assert forall|i: int| 0 <= i < earlier.len() implies concerns(
            #[trigger] earlier[i],
            telegram_id,
            filename,
        ) by {
            assert(earlier[i] == events[i]);
        }
        lemma_events_settle(store, earlier, telegram_id, filename);
        assert(concerns(events[events.len() - 1], telegram_id, filename));
        lemma_event_decides(effects(store, earlier).0, events.last(), telegram_id, filename);
    }
}

/// The last event decides. Take events that all speak of one message and
/// put their pictures into one blob, and storage in which record and blob
/// of that message stand together, with an identifier left for each event.
/// Applied in order, none of them fails, and storage then shows what the
/// last event alone asks: after a deletion neither record nor blob, after a
/// new or edited post exactly its record and its picture. The records of
/// other messages and the other blobs are as they were.
pub proof fn lemma_last_event_decides(
    store: StoreView,
    events: Seq<MemeEventView>,
    telegram_id: i32,
    filename: Seq<char>,
)
    requires
        store.wf(),
        settled(store, telegram_id, filename),
        events.len() > 0,
        forall|i: int|
            0 <= i < events.len() ==> concerns(#[trigger] events[i], telegram_id, filename),
        store.next_id + events.len() <= i32::MAX,
    ensures
        effects(store, events).1 is None,
        effects(store, events).0.wf(),
        reflects(effects(store, events).0, events.last(), telegram_id, filename),
        apart_from(effects(store, events).0, store, telegram_id, filename),
{
    lemma_events_settle(store, events, telegram_id, filename);
}

/// Taking events one by one from the front comes to the same as applying
/// them in order: the same storage, the same failure.
pub proof fn lemma_drained_effects(store: StoreView, events: Seq<MemeEventView>)
    ensures
        drained(store, events).0 == effects(store, events).0,
        drained(store, events).2 == effects(store, events).1,
        effects(store, events).1 is None ==> drained(store, events).1.len() == 0,
    decreases events.len(),
{
    if events.len() > 0 {
        let first = effect(store, events[0]);
        lemma_effects_from_front(store, events);
        if first.1 is None {
            lemma_drained_effects(first.0, events.skip(1));
        }
    }
}

proof fn lemma_effects_from_front(store: StoreView, events: Seq<MemeEventView>)
    requires
        events.len() > 0,
    ensures
        effects(store, events) == if effect(store, events[0]).1 is Some {
            effect(store, events[0])
        } else {
            effects(effect(store, events[0]).0, events.skip(1))
        },
    decreases events.len(),
{
    let first = effect(store, events[0]);
    let earlier = events.drop_last();
    let later = events.skip(1);
    if events.len() == 1 {
        assert(effects(store, earlier) == (store, None::<StorageError>));
        assert(events.last() == events[0]);
        assert(effects(first.0, later) == (first.0, None::<StorageError>));
    } else {
        lemma_effects_from_front(store, earlier);
        assert(earlier[0] == events[0]);
        assert(earlier.skip(1) =~= later.drop_last());
        assert(later.last() == events.last());
        if first.1 is None {
            assert(effects(store, earlier) == effects(first.0, later.drop_last()));
        }
    }
}

/// The last event decides, of the consumer's loop: under the conditions of
/// [`lemma_last_event_decides`] the loop takes every event, none fails, and
/// storage then shows what the last event alone asks.
pub proof fn lemma_loop_follows_last_event(
    store: StoreView,
    events: Seq<MemeEventView>,
    telegram_id: i32,
    filename: Seq<char>,
)
    requires
        store.wf(),
        settled(store, telegram_id, filename),
        events.len() > 0,
        forall|i: int|
            0 <= i < events.len() ==> concerns(#[trigger] events[i], telegram_id, filename),
        store.next_id + events.len() <= i32::MAX,
    ensures
        drained(store, events).2 is None,
        drained(store, events).1.len() == 0,
        reflects(drained(store, events).0, events.last(), telegram_id, filename),
{
    lemma_last_event_decides(store, events, telegram_id, filename);
    lemma_drained_effects(store, events);
}

/// An event that comes twice changes nothing the second time: where a new
/// or edited post was stored without failure, storing it again leaves
/// storage as it is, and the message still has one record.
pub proof fn lemma_replay_is_idle(store: StoreView, image: MemeImageView, source: SourceView)
    requires
        store.wf(),
        stored(store, image, source).1 is None,
    ensures
        stored(stored(store, image, source).0, image, source) == (
            stored(store, image, source).0,
            None::<StorageError>,
        ),
        source.message_id() matches Some(telegram_id) && count_of(
            stored(store, image, source).0.memes,
            telegram_id,
        ) == 1,
{
    let once = stored(store, image, source).0;
    let twice = stored(once, image, source).0;
    let telegram_id = source.message_id()->0;
    let meme = record_of(image, source);
    store.lemma_record_of(telegram_id);
    if store.has(telegram_id) {
        let k = store.index_of(telegram_id);
        assert(once.memes[k].belongs_to(telegram_id));
        let update = ActionView::UpdateMemes { telegram_id, meme };
        store.lemma_perform_wf(update);
        lemma_wf_of_records(store.perform(update).0, once);
    } else {
        let k = store.memes.len() as int;
        assert(once.memes[k].belongs_to(telegram_id));
        let insert = ActionView::InsertMeme { meme };
        store.lemma_perform_wf(insert);
        lemma_wf_of_records(store.perform(insert).0, once);
    }
    once.lemma_record_of(telegram_id);
    assert(twice.blobs =~= once.blobs);
    assert(twice.memes =~= once.memes) by {
        assert forall|i: int| 0 <= i < once.memes.len() implies twice.memes[i]
            == once.memes[i] by {
            if once.memes[i].belongs_to(telegram_id) {
                if store.has(telegram_id) {
                    assert(store.memes[i].belongs_to(telegram_id));
                } else if i < store.memes.len() {
                    assert(once.memes[i] == store.memes[i]);
                }
            }
        }
    }
}

/// The same of events: a new post that was stored without failure and
/// comes again leaves storage as it is.
pub proof fn lemma_replayed_event_is_idle(store: StoreView, event: MemeEventView)
    requires
        store.wf(),
        !(event is Deleted),
        effect(store, event).1 is None,
    ensures
        effect(effect(store, event).0, event) == (effect(store, event).0, None::<StorageError>),
{
    match event {
        MemeEventView::New { image, source } => lemma_replay_is_idle(store, image, source),
        MemeEventView::Updated { image, source } => lemma_replay_is_idle(store, image, source),
        MemeEventView::Deleted { .. } => {},
    }
}

} // verus!
