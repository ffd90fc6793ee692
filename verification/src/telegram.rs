//! The Telegram connector: which updates of the upstream source become
//! events, and what they say.
//!
//! An update is handled in two parts, because the picture has to be fetched
//! in between: first the decision ([`handle_update`]), then, with the bytes
//! in hand, the event ([`Capture::complete`]).

use crate::config;
use crate::event::Chat;
use crate::event::ChatView;
use crate::event::Command;
use crate::event::MemeEvent;
use crate::event::MemeEventView;
use crate::event::MemeImage;
use crate::event::MemeImageView;
use crate::event::Source;
use crate::event::SourceView;
use crate::event::Timestamp;
use crate::event::event_views;
use crate::event::optional_chat;
use crate::event::telegram_source;
use crate::worker::Exit;
use crate::worker::Launch;
use crate::worker::Supervisor;
use crate::worker::WorkerError;
use crate::worker::concluded;
use crate::worker::launched;
use crate::worker::relaunched;
use crate::worker::stop_signal;
use std::collections::HashMap;
use vstd::prelude::*;

verus! {

/// A watched chat: the name its posts are filed under, and the chat itself
/// once a message from it was seen.
#[derive(Debug, PartialEq, Eq)]
pub struct Group {
    pub name: String,
    pub chat: Option<Chat>,
}

/// The mathematical view of a [`Group`].
pub struct GroupView {
    pub name: Seq<char>,
    pub chat: Option<ChatView>,
}

impl View for Group {
    type V = GroupView;

    open spec fn view(&self) -> GroupView {
        GroupView { name: self.name@, chat: optional_chat(self.chat) }
    }
}

impl Group {
    /// The watched chat that the configuration names, not yet seen.
    pub fn from(value: config::Group) -> (group: Self)
        ensures
            group@ == (GroupView { name: value@.name, chat: None }),
    {
        Self { name: value.name, chat: None }
    }
}

/// The watched chats by their identifiers.
pub type GroupMap = HashMap<i64, Group>;

/// The watched chats by their identifiers, each by its view.
pub open spec fn watched(groups: Map<i64, Group>) -> Map<i64, GroupView> {
    Map::new(|id: i64| groups.contains_key(id), |id: i64| groups[id]@)
}

/// The watched chats that the configuration `groups` makes: each under its
/// identifier, not yet seen; where two share an identifier, the later one
/// stands.
pub open spec fn allow_list(groups: Seq<config::GroupView>) -> Map<i64, GroupView>
    decreases groups.len(),
{
    if groups.len() == 0 {
        Map::empty()
    } else {
        allow_list(groups.drop_last()).insert(
            groups.last().id,
            GroupView { name: groups.last().name, chat: None },
        )
    }
}

/// The watched chats that the configuration `groups` makes.
pub fn group_map(groups: &Vec<config::Group>) -> (map: GroupMap)
    ensures
        watched(map@) == allow_list(config::group_views(groups@)),
{
    let mut map: GroupMap = HashMap::new();
    let mut i: usize = 0;
    assert(watched(map@) =~= allow_list(config::group_views(groups@).take(0)));
    while i < groups.len()
        invariant
            i <= groups@.len(),
            watched(map@) == allow_list(config::group_views(groups@).take(i as int)),
        decreases groups@.len() - i,
    {
        let ghost before = map@;
        let group = groups[i].clone();
        let id = group.id;
        map.insert(id, Group::from(group));
        proof {
            let all = config::group_views(groups@);
            assert(all.take(i + 1).drop_last() =~= all.take(i as int));
            assert(all.take(i + 1).last() == groups@[i as int]@);
            assert(watched(map@) =~= watched(before).insert(
                id,
                GroupView { name: groups@[i as int]@.name, chat: None },
            ));
        }
        i += 1;
    }
    assert(config::group_views(groups@).take(groups@.len() as int) =~= config::group_views(
        groups@,
    ));
    map
}

/// The watched chats after a message from `chat` was seen: a watched chat
/// remembers it, an unknown one changes nothing.
pub open spec fn noticed(groups: Map<i64, GroupView>, chat: ChatView) -> Map<i64, GroupView> {
    if groups.contains_key(chat.id()) {
        groups.insert(chat.id(), GroupView { name: groups[chat.id()].name, chat: Some(chat) })
    } else {
        groups
    }
}

/// Whether `chat` is watched. A watched chat remembers `chat`.
pub fn is_relevant(groups: &mut GroupMap, chat: Chat) -> (relevant: bool)
    ensures
        relevant == watched(old(groups)@).contains_key(chat@.id()),
        watched(final(groups)@) == noticed(watched(old(groups)@), chat@),
{
    let id = chat.id();
    match groups.remove(&id) {
        Some(group) => {
            groups.insert(id, Group { name: group.name, chat: Some(chat) });
            assert(watched(groups@) =~= noticed(watched(old(groups)@), chat@));
            true
        },
        None => {
            assert(watched(groups@) =~= noticed(watched(old(groups)@), chat@));
            false
        },
    }
}

/// A picture attached to a message.
#[derive(Clone, Copy, Debug, PartialEq, Eq, Structural)]
pub struct Photo {
    /// Whether the picture is hidden until the reader asks for it.
    pub spoiler: bool,
    /// After how many seconds the picture disappears, if it does.
    pub ttl_seconds: Option<i32>,
}

/// What is attached to a message.
#[derive(Clone, Copy, Debug, PartialEq, Eq, Structural)]
pub enum Media {
    Photo(Photo),
    Other,
}

/// A message as the upstream source delivers it.
#[derive(Debug, PartialEq, Eq)]
pub struct Message {
    pub id: i32,
    pub chat: Chat,
    pub sender: Option<Chat>,
    pub text: String,
    pub date: Timestamp,
    pub edit_date: Option<Timestamp>,
    pub media: Option<Media>,
}

/// The mathematical view of a [`Message`].
pub struct MessageView {
    pub id: i32,
    pub chat: ChatView,
    pub sender: Option<ChatView>,
    pub text: Seq<char>,
    pub date: Timestamp,
    pub edit_date: Option<Timestamp>,
    pub media: Option<Media>,
}

impl View for Message {
    type V = MessageView;

    open spec fn view(&self) -> MessageView {
        MessageView {
            id: self.id,
            chat: self.chat@,
            sender: optional_chat(self.sender),
            text: self.text@,
            date: self.date,
            edit_date: self.edit_date,
            media: self.media,
        }
    }
}

/// The news that messages were deleted.
#[derive(Debug, PartialEq, Eq)]
pub struct MessageDeletion {
    /// The channel the messages were deleted from, where it was a channel.
    pub channel_id: Option<i64>,
    /// The identifiers of the deleted messages.
    pub messages: Vec<i32>,
}

/// The mathematical view of a [`MessageDeletion`].
pub struct MessageDeletionView {
    pub channel_id: Option<i64>,
    pub messages: Seq<i32>,
}

impl View for MessageDeletion {
    type V = MessageDeletionView;

    open spec fn view(&self) -> MessageDeletionView {
        MessageDeletionView { channel_id: self.channel_id, messages: self.messages@ }
    }
}

/// One update from the upstream source.
#[derive(Debug, PartialEq, Eq)]
pub enum Update {
    NewMessage(Message),
    MessageEdited(Message),
    MessageDeleted(MessageDeletion),
    /// Any other update.
    Other,
}

/// The mathematical view of an [`Update`].
pub enum UpdateView {
    NewMessage(MessageView),
    MessageEdited(MessageView),
    MessageDeleted(MessageDeletionView),
    Other,
}

impl View for Update {
    type V = UpdateView;

    open spec fn view(&self) -> UpdateView {
        match *self {
            Update::NewMessage(message) => UpdateView::NewMessage(message@),
            Update::MessageEdited(message) => UpdateView::MessageEdited(message@),
            Update::MessageDeleted(deletion) => UpdateView::MessageDeleted(deletion@),
            Update::Other => UpdateView::Other,
        }
    }
}

/// Why an update becomes no event.
#[derive(Clone, Copy, Debug, PartialEq, Eq, Structural)]
pub enum Skip {
    /// The message is from a chat that is not watched.
    Irrelevant,
    /// The message carries no picture.
    NoPhoto,
    /// The picture disappears after a while: such pictures are never kept.
    Ephemeral,
    /// The messages were deleted from a channel, so that their identifiers
    /// do not say which posts are meant.
    ChannelDeletion,
    /// The update is of a kind that says nothing about posts.
    Unhandled,
}

/// A post that is to be captured: all of the event but the picture itself,
/// which has yet to be fetched.
#[derive(Debug, PartialEq, Eq)]
pub struct Capture {
    pub spoiler: bool,
    pub text: String,
    pub timestamp: Timestamp,
    pub source: Source,
    /// Whether the post was edited, not new.
    pub edit: bool,
}

/// The mathematical view of a [`Capture`].
pub struct CaptureView {
    pub spoiler: bool,
    pub text: Seq<char>,
    pub timestamp: Timestamp,
    pub source: SourceView,
    pub edit: bool,
}

impl View for Capture {
    type V = CaptureView;

    open spec fn view(&self) -> CaptureView {
        CaptureView {
            spoiler: self.spoiler,
            text: self.text@,
            timestamp: self.timestamp,
            source: self.source@,
            edit: self.edit,
        }
    }
}

impl CaptureView {
    /// The event that the capture makes with the picture `data`.
    pub open spec fn complete(self, data: Seq<u8>) -> MemeEventView {
        let image = MemeImageView {
            data,
            spoiler: self.spoiler,
            text: self.text,
            timestamp: self.timestamp,
        };
        if self.edit {
            MemeEventView::Updated { image, source: self.source }
        } else {
            MemeEventView::New { image, source: self.source }
        }
    }
}

impl Capture {
    /// The event that the capture makes with the picture `data`.
    pub fn complete(self, data: Vec<u8>) -> (event: MemeEvent)
        ensures
            event@ == self@.complete(data@),
    {
        let image = MemeImage::new(data, self.spoiler, self.text, self.timestamp);
        if self.edit {
            MemeEvent::edit(image, self.source)
        } else {
            MemeEvent::new(image, self.source)
        }
    }
}

/// What the connector does about an update.
#[derive(PartialEq, Eq)]
pub enum Reaction {
    /// Nothing.
    Skip(Skip),
    /// Fetch the picture of the message, then send the completed event.
    Download(Capture),
    /// Send these events, in this order.
    Emit(Vec<MemeEvent>),
}

/// The mathematical view of a [`Reaction`].
pub enum ReactionView {
    Skip(Skip),
    Download(CaptureView),
    Emit(Seq<MemeEventView>),
}

impl View for Reaction {
    type V = ReactionView;

    open spec fn view(&self) -> ReactionView {
        match *self {
            Reaction::Skip(skip) => ReactionView::Skip(skip),
            Reaction::Download(capture) => ReactionView::Download(capture@),
            Reaction::Emit(events) => ReactionView::Emit(event_views(events@)),
        }
    }
}

/// Whether `message` is captured: it is from a watched chat and carries a
/// picture that does not disappear.
pub open spec fn eligible(groups: Map<i64, GroupView>, message: MessageView) -> bool {
    &&& groups.contains_key(message.chat.id())
    &&& message.media matches Some(Media::Photo(photo))
    &&& photo.ttl_seconds is None
}

/// Whether `message` is captured.
pub fn is_eligible(groups: &GroupMap, message: &Message) -> (captured: bool)
    ensures
        captured == eligible(watched(groups@), message@),
{
    let id = message.chat.id();
    if !groups.contains_key(&id) {
        return false;
    }
    match message.media {
        Some(Media::Photo(photo)) => photo.ttl_seconds.is_none(),
        _ => false,
    }
}

/// What the connector does about `message`, new or edited.
pub open spec fn message_reaction(
    groups: Map<i64, GroupView>,
    message: MessageView,
    is_edit: bool,
) -> ReactionView {
    if !groups.contains_key(message.chat.id()) {
        ReactionView::Skip(Skip::Irrelevant)
    } else {
        match message.media {
            Some(Media::Photo(photo)) => if photo.ttl_seconds is Some {
                ReactionView::Skip(Skip::Ephemeral)
            } else {
                ReactionView::Download(
                    CaptureView {
                        spoiler: photo.spoiler,
                        text: message.text,
                        timestamp: if is_edit {
                            message.edit_date->0
                        } else {
                            message.date
                        },
                        source: telegram_source(
                            message.sender,
                            Some(groups[message.chat.id()].name),
                            message.id,
                        ),
                        edit: is_edit,
                    },
                )
            },
            _ => ReactionView::Skip(Skip::NoPhoto),
        }
    }
}

/// Decides what to do about `message`. The chat it is from remembers the
/// message's chat if it is watched, whatever the message carries. An edited
/// message that is captured must say when it was edited.
pub fn handle_message(groups: &mut GroupMap, message: Message, is_edit: bool) -> (reaction:
    Reaction)
    requires
        is_edit && eligible(watched(old(groups)@), message@) ==> message@.edit_date is Some,
    ensures
        reaction@ == message_reaction(watched(old(groups)@), message@, is_edit),
        watched(final(groups)@) == noticed(watched(old(groups)@), message@.chat),
{
    let Message { id, chat, sender, text, date, edit_date, media } = message;
    let chat_id = chat.id();
    if !is_relevant(groups, chat) {
        return Reaction::Skip(Skip::Irrelevant);
    }
    match media {
        Some(Media::Photo(photo)) => {
            if photo.ttl_seconds.is_some() {
                return Reaction::Skip(Skip::Ephemeral);
            }
            let timestamp = if is_edit {
                edit_date.unwrap()
            } else {
                date
            };
            assert(watched(groups@).contains_key(chat_id));
            assert(watched(groups@)[chat_id].name == watched(old(groups)@)[chat_id].name);
            let source = match groups.get(&chat_id) {
                Some(group) => {
                    assert(group@ == watched(groups@)[chat_id]);
                    Source::telegram(sender, Some(group.name.as_str()), id)
                },
                None => Source::telegram(sender, None, id),
            };
            Reaction::Download(
                Capture { spoiler: photo.spoiler, text, timestamp, source, edit: is_edit },
            )
        },
        _ => Reaction::Skip(Skip::NoPhoto),
    }
}

/// The events that say that `messages` were deleted: one for each, in
/// order, with nothing known of the message but its identifier.
pub open spec fn deletions(messages: Seq<i32>) -> Seq<MemeEventView> {
    Seq::new(
        messages.len(),
        |i: int| MemeEventView::Deleted { source: telegram_source(None, None, messages[i]) },
    )
}

/// What the connector does about a deletion.
pub open spec fn deletion_reaction(deletion: MessageDeletionView) -> ReactionView {
    if deletion.channel_id is Some {
        ReactionView::Skip(Skip::ChannelDeletion)
    } else {
        ReactionView::Emit(deletions(deletion.messages))
    }
}

/// Decides what to do about a deletion: one event for each deleted message,
/// unless the messages were deleted from a channel.
pub fn handle_delete(message: MessageDeletion) -> (reaction: Reaction)
    ensures
        reaction@ == deletion_reaction(message@),
{
    if message.channel_id.is_some() {
        return Reaction::Skip(Skip::ChannelDeletion);
    }
    let mut events: Vec<MemeEvent> = Vec::new();
    let mut i: usize = 0;
    while i < message.messages.len()
        invariant
            i <= message.messages@.len(),
            events@.len() == i,
            event_views(events@) == deletions(message.messages@.take(i as int)),
        decreases message.messages@.len() - i,
    {
        let ghost before = events@;
        events.push(MemeEvent::delete(Source::telegram(None, None, message.messages[i])));
        proof {
            let sooner = deletions(message.messages@.take(i as int));
            let later = deletions(message.messages@.take(i + 1));
            assert forall|j: int| 0 <= j < later.len() implies event_views(events@)[j]
                == later[j] by {
                if j < i {
                    assert(events@[j] == before[j]);
                    assert(event_views(before)[j] == sooner[j]);
                }
            }
            assert(event_views(events@) =~= later);
        }
        i += 1;
    }
    assert(message.messages@.take(message.messages@.len() as int) =~= message.messages@);
    Reaction::Emit(events)
}

/// What the connector does about `update`.
pub open spec fn update_reaction(groups: Map<i64, GroupView>, update: UpdateView) -> ReactionView {
    match update {
        UpdateView::NewMessage(message) => message_reaction(groups, message, false),
        UpdateView::MessageEdited(message) => message_reaction(groups, message, true),
        UpdateView::MessageDeleted(deletion) => deletion_reaction(deletion),
        UpdateView::Other => ReactionView::Skip(Skip::Unhandled),
    }
}

/// The watched chats after `update`.
pub open spec fn update_noticed(groups: Map<i64, GroupView>, update: UpdateView) -> Map<
    i64,
    GroupView,
> {
    match update {
        UpdateView::NewMessage(message) => noticed(groups, message.chat),
        UpdateView::MessageEdited(message) => noticed(groups, message.chat),
        _ => groups,
    }
}

/// Whether `update` can be handled: an edited message that is captured
/// says when it was edited.
pub open spec fn well_dated(groups: Map<i64, GroupView>, update: UpdateView) -> bool {
    update matches UpdateView::MessageEdited(message) ==> (eligible(groups, message)
        ==> message.edit_date is Some)
}

/// Whether `update` can be handled.
pub fn is_well_dated(groups: &GroupMap, update: &Update) -> (dated: bool)
    ensures
        dated == well_dated(watched(groups@), update@),
{
    match update {
        Update::MessageEdited(message) => message.edit_date.is_some() || !is_eligible(
            groups,
            message,
        ),
        _ => true,
    }
}

/// Decides what to do about `update`.
pub fn handle_update(groups: &mut GroupMap, update: Update) -> (reaction: Reaction)
    requires
        well_dated(watched(old(groups)@), update@),
    ensures
        reaction@ == update_reaction(watched(old(groups)@), update@),
        watched(final(groups)@) == update_noticed(watched(old(groups)@), update@),
{
    match update {
        Update::NewMessage(message) => handle_message(groups, message, false),
        Update::MessageEdited(message) => handle_message(groups, message, true),
        Update::MessageDeleted(message) => handle_delete(message),
        Update::Other => Reaction::Skip(Skip::Unhandled),
    }
}

/// A message becomes an event exactly if it is captured: a message from a
/// chat that is not watched, a message without a picture and a picture that
/// disappears are passed over, whatever else they hold; and no update
/// changes which chats are watched or what they are called.
pub proof fn lemma_only_eligible_is_captured(
    groups: Map<i64, GroupView>,
    message: MessageView,
    is_edit: bool,
)
    ensures
        message_reaction(groups, message, is_edit) is Download <==> eligible(groups, message),
        !eligible(groups, message) ==> message_reaction(groups, message, is_edit) is Skip,
        !groups.contains_key(message.chat.id()) ==> message_reaction(groups, message, is_edit)
            == ReactionView::Skip(Skip::Irrelevant) && noticed(groups, message.chat) == groups,
        noticed(groups, message.chat).dom() == groups.dom(),
        forall|id: i64|
            groups.contains_key(id) ==> (#[trigger] noticed(groups, message.chat)[id]).name
                == groups[id].name,
{
    assert(noticed(groups, message.chat).dom() =~= groups.dom());
}

/// The handle of the Telegram connector worker.
#[derive(Debug, PartialEq, Eq)]
pub struct Telegram {
    supervisor: Supervisor,
}

impl Telegram {
    /// Whether the worker was told to stop.
    pub closed spec fn stopping(&self) -> bool {
        self.supervisor.stopping()
    }

    /// The handle of a connector that is to be spawned with `config`, to
    /// send its events through `consumer`.
    pub fn new<O>(config: config::Telegram, consumer: O) -> (started: (
        Self,
        Launch<config::Telegram, O>,
    ))
        ensures
            !started.0.stopping(),
            started.1 == (Launch { config, resources: consumer }),
    {
        let started = Supervisor::spawn(config, consumer);
        (Telegram { supervisor: started.0 }, started.1)
    }

    /// Tells the worker to stop. The signal is to be sent only where the
    /// control channel has a receiver, and only once.
    pub fn stop(&mut self, receiver_count: usize) -> (signal: Option<Command>)
        ensures
            final(self).stopping(),
            signal == if old(self).stopping() {
                None
            } else {
                stop_signal(receiver_count > 0)
            },
    {
        self.supervisor.stop(receiver_count > 0)
    }

    /// Ends the worker with its joined task and begins it anew with
    /// `config` and the output handle that the task handed back.
    pub fn reload<O>(self, exit: Exit<O>, config: config::Telegram) -> (next: Result<
        (Self, Launch<config::Telegram, O>),
        WorkerError,
    >)
        ensures
            launched(next) == relaunched(exit, config),
            next matches Ok(started) ==> !started.0.stopping(),
    {
        match self.supervisor.reload(exit, config) {
            Ok(started) => Ok((Telegram { supervisor: started.0 }, started.1)),
            Err(error) => Err(error),
        }
    }

    /// Ends the worker with its joined task.
    pub fn shutdown<O>(self, exit: Exit<O>) -> (end: Result<(), WorkerError>)
        ensures
            end == concluded(exit),
    {
        self.supervisor.shutdown(exit)
    }
}

} // verus!
