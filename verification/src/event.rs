//! The values that flow from the source connectors to the persistence
//! consumer: where a post came from, what it holds, and what happened to it.

use crate::text::boolean;
use crate::text::decimal;
use crate::text::push_boolean;
use crate::text::push_decimal;
use crate::text::push_quoted;
use crate::text::push_quoted_option;
use crate::text::quoted;
use crate::text::quoted_option;
use vstd::prelude::*;
use vstd::string::*;

verus! {

/// The view of an optional string.
pub open spec fn optional_text(text: Option<String>) -> Option<Seq<char>> {
    match text {
        Some(text) => Some(text@),
        None => None,
    }
}

/// The text of an optional string, empty where there is none.
pub open spec fn text_or_empty(text: Option<Seq<char>>) -> Seq<char> {
    match text {
        Some(text) => text,
        None => Seq::empty(),
    }
}

/// An instant, as seconds since the Unix epoch (UTC) and nanoseconds into
/// that second.
#[derive(Clone, Copy, Debug, PartialEq, Eq, Structural)]
pub struct Timestamp {
    pub seconds: i64,
    pub nanoseconds: u32,
}

/// A chat as the upstream source describes it: a user, a small group or a
/// channel, each with its identifier and the label it goes by.
#[derive(Debug, PartialEq, Eq)]
#[allow(inconsistent_fields)]
pub enum Chat {
    User { id: i64, username: Option<String> },
    Group { id: i64, title: Option<String> },
    Channel { id: i64, title: String },
}

/// The mathematical view of a [`Chat`].
#[allow(inconsistent_fields)]
pub enum ChatView {
    User { id: i64, username: Option<Seq<char>> },
    Group { id: i64, title: Option<Seq<char>> },
    Channel { id: i64, title: Seq<char> },
}

impl ChatView {
    /// The identifier of the chat.
    pub open spec fn id(self) -> i64 {
        match self {
            ChatView::User { id, .. } => id,
            ChatView::Group { id, .. } => id,
            ChatView::Channel { id, .. } => id,
        }
    }

    /// The label the chat goes by: a user's name, a group's or channel's title.
    pub open spec fn label(self) -> Option<Seq<char>> {
        match self {
            ChatView::User { username, .. } => username,
            ChatView::Group { title, .. } => title,
            ChatView::Channel { title, .. } => Some(title),
        }
    }
}

impl View for Chat {
    type V = ChatView;

    open spec fn view(&self) -> ChatView {
        match *self {
            Chat::User { id, username } => ChatView::User { id, username: optional_text(username) },
            Chat::Group { id, title } => ChatView::Group { id, title: optional_text(title) },
            Chat::Channel { id, title } => ChatView::Channel { id, title: title@ },
        }
    }
}

/// The view of an optional chat.
pub open spec fn optional_chat(chat: Option<Chat>) -> Option<ChatView> {
    match chat {
        Some(chat) => Some(chat@),
        None => None,
    }
}

impl Clone for Chat {
    fn clone(&self) -> (copy: Self)
        ensures
            copy == *self,
    {
        match self {
            Chat::User { id, username } => Chat::User { id: *id, username: username.clone() },
            Chat::Group { id, title } => Chat::Group { id: *id, title: title.clone() },
            Chat::Channel { id, title } => Chat::Channel { id: *id, title: title.clone() },
        }
    }
}

impl Chat {
    /// The identifier of the chat.
    pub fn id(&self) -> (id: i64)
        ensures
            id == self@.id(),
    {
        match self {
            Chat::User { id, .. } => *id,
            Chat::Group { id, .. } => *id,
            Chat::Channel { id, .. } => *id,
        }
    }

    /// The label the chat goes by, if it has one.
    pub fn label(&self) -> (label: Option<String>)
        ensures
            optional_text(label) == self@.label(),
    {
        match self {
            Chat::User { username, .. } => username.clone(),
            Chat::Group { title, .. } => title.clone(),
            Chat::Channel { title, .. } => Some(title.clone()),
        }
    }
}

/// Where a piece of media came from.
#[derive(Debug, PartialEq, Eq)]
#[allow(inconsistent_fields)]
pub enum Source {
    Telegram { account: Option<String>, channel: Option<String>, id: i32 },
    Matrix { account: String, channel: String },
}

/// The mathematical view of a [`Source`].
#[allow(inconsistent_fields)]
pub enum SourceView {
    Telegram { account: Option<Seq<char>>, channel: Option<Seq<char>>, id: i32 },
    Matrix { account: Seq<char>, channel: Seq<char> },
}

impl SourceView {
    /// The identifier of the message at its source, where the platform
    /// numbers its messages.
    pub open spec fn message_id(self) -> Option<i32> {
        match self {
            SourceView::Telegram { id, .. } => Some(id),
            SourceView::Matrix { .. } => None,
        }
    }
}

impl View for Source {
    type V = SourceView;

    open spec fn view(&self) -> SourceView {
        match *self {
            Source::Telegram { account, channel, id } => SourceView::Telegram {
                account: optional_text(account),
                channel: optional_text(channel),
                id,
            },
            Source::Matrix { account, channel } => SourceView::Matrix {
                account: account@,
                channel: channel@,
            },
        }
    }
}

/// The source of message `id`, posted by `chat` in the channel labelled
/// `channel`.
pub open spec fn telegram_source(
    chat: Option<ChatView>,
    channel: Option<Seq<char>>,
    id: i32,
) -> SourceView {
    SourceView::Telegram {
        account: match chat {
            Some(chat) => chat.label(),
            None => None,
        },
        channel,
        id,
    }
}

impl Clone for Source {
    fn clone(&self) -> (copy: Self)
        ensures
            copy == *self,
    {
        match self {
            Source::Telegram { account, channel, id } => Source::Telegram {
                account: account.clone(),
                channel: channel.clone(),
                id: *id,
            },
            Source::Matrix { account, channel } => Source::Matrix {
                account: account.clone(),
                channel: channel.clone(),
            },
        }
    }
}

impl Source {
    /// The source of the Telegram message `id`: the account is the label of
    /// the chat that sent it, the channel the configured name of the group
    /// it was posted in.
    pub fn telegram(chat: Option<Chat>, channel: Option<&str>, id: i32) -> (source: Source)
        ensures
            source@ == telegram_source(
                optional_chat(chat),
                match channel {
                    Some(name) => Some(name@),
                    None => None,
                },
                id,
            ),
    {
        let account = match chat {
            Some(chat) => chat.label(),
            None => None,
        };
        let channel = match channel {
            Some(name) => Some(name.to_owned()),
            None => None,
        };
        Source::Telegram { account, channel, id }
    }

    /// The identifier of the message at its source, where the platform
    /// numbers its messages.
    pub fn message_id(&self) -> (id: Option<i32>)
        ensures
            id == self@.message_id(),
    {
        match self {
            Source::Telegram { id, .. } => Some(*id),
            Source::Matrix { .. } => None,
        }
    }
}

/// A captured picture with what was said about it.
#[derive(PartialEq, Eq)]
pub struct MemeImage {
    pub data: Vec<u8>,
    pub spoiler: bool,
    pub text: String,
    pub timestamp: Timestamp,
}

/// The mathematical view of a [`MemeImage`].
pub struct MemeImageView {
    pub data: Seq<u8>,
    pub spoiler: bool,
    pub text: Seq<char>,
    pub timestamp: Timestamp,
}

impl View for MemeImage {
    type V = MemeImageView;

    open spec fn view(&self) -> MemeImageView {
        MemeImageView {
            data: self.data@,
            spoiler: self.spoiler,
            text: self.text@,
            timestamp: self.timestamp,
        }
    }
}

impl Clone for MemeImage {
    fn clone(&self) -> (copy: Self)
        ensures
            copy@ == self@,
    {
        MemeImage {
            data: self.data.clone(),
            spoiler: self.spoiler,
            text: self.text.clone(),
            timestamp: self.timestamp,
        }
    }
}

impl MemeImage {
    /// A picture of `data`, posted with `text` at `timestamp`.
    pub fn new(data: Vec<u8>, spoiler: bool, text: String, timestamp: Timestamp) -> (image: Self)
        ensures
            image@ == (MemeImageView { data: data@, spoiler, text: text@, timestamp }),
    {
        Self { data, spoiler, text, timestamp }
    }
}

/// What happened to a post at its source.
#[derive(PartialEq, Eq)]
pub enum MemeEvent {
    New { image: MemeImage, source: Source },
    Updated { image: MemeImage, source: Source },
    Deleted { source: Source },
}

/// The mathematical view of a [`MemeEvent`].
pub enum MemeEventView {
    New { image: MemeImageView, source: SourceView },
    Updated { image: MemeImageView, source: SourceView },
    Deleted { source: SourceView },
}

impl MemeEventView {
    /// The source the event speaks of.
    pub open spec fn source(self) -> SourceView {
        match self {
            MemeEventView::New { source, .. } => source,
            MemeEventView::Updated { source, .. } => source,
            MemeEventView::Deleted { source } => source,
        }
    }
}

impl View for MemeEvent {
    type V = MemeEventView;

    open spec fn view(&self) -> MemeEventView {
        match *self {
            MemeEvent::New { image, source } => MemeEventView::New {
                image: image@,
                source: source@,
            },
            MemeEvent::Updated { image, source } => MemeEventView::Updated {
                image: image@,
                source: source@,
            },
            MemeEvent::Deleted { source } => MemeEventView::Deleted { source: source@ },
        }
    }
}

impl Clone for MemeEvent {
    fn clone(&self) -> (copy: Self)
        ensures
            copy@ == self@,
    {
        match self {
            MemeEvent::New { image, source } => MemeEvent::New {
                image: image.clone(),
                source: source.clone(),
            },
            MemeEvent::Updated { image, source } => MemeEvent::Updated {
                image: image.clone(),
                source: source.clone(),
            },
            MemeEvent::Deleted { source } => MemeEvent::Deleted { source: source.clone() },
        }
    }
}

impl MemeEvent {
    /// A new post.
    pub fn new(image: MemeImage, source: Source) -> (event: Self)
        ensures
            event@ == (MemeEventView::New { image: image@, source: source@ }),
    {
        Self::New { image, source }
    }

    /// An edited post.
    pub fn edit(image: MemeImage, source: Source) -> (event: Self)
        ensures
            event@ == (MemeEventView::Updated { image: image@, source: source@ }),
    {
        Self::Updated { image, source }
    }

    /// A deleted post.
    pub fn delete(source: Source) -> (event: Self)
        ensures
            event@ == (MemeEventView::Deleted { source: source@ }),
    {
        Self::Deleted { source }
    }

    /// The source the event speaks of.
    pub fn source(&self) -> (source: &Source)
        ensures
            source@ == self@.source(),
    {
        match self {
            MemeEvent::New { source, .. } => source,
            MemeEvent::Updated { source, .. } => source,
            MemeEvent::Deleted { source } => source,
        }
    }
}

/// The views of a sequence of events.
pub open spec fn event_views(events: Seq<MemeEvent>) -> Seq<MemeEventView> {
    Seq::new(events.len(), |i: int| events[i]@)
}

/// A control signal sent to a running worker.
#[derive(Clone, Copy, Debug, PartialEq, Eq, Structural)]
pub enum Command {
    /// Leave the loop and hand the retained channel endpoints back.
    Shutdown,
}

/// The text that writes an instant.
pub open spec fn timestamp_text(timestamp: Timestamp) -> Seq<char> {
    "Timestamp { seconds: "@ + decimal(timestamp.seconds as int) + ", nanoseconds: "@ + decimal(
        timestamp.nanoseconds as int,
    ) + " }"@
}

/// The text that writes a source.
pub open spec fn source_text(source: SourceView) -> Seq<char> {
    match source {
        SourceView::Telegram { account, channel, id } => "Telegram { account: "@ + quoted_option(
            account,
        ) + ", channel: "@ + quoted_option(channel) + ", id: "@ + decimal(id as int) + " }"@,
        SourceView::Matrix { account, channel } => "Matrix { account: "@ + quoted(account)
            + ", channel: "@ + quoted(channel) + " }"@,
    }
}

/// The text that writes a picture posted with `text` at `timestamp`. It
/// says nothing of the picture's bytes.
pub open spec fn image_text(spoiler: bool, text: Seq<char>, timestamp: Timestamp) -> Seq<char> {
    "MemeImage { data: "@ + quoted("[elided]"@) + ", spoiler: "@ + boolean(spoiler) + ", text: "@
        + quoted(text) + ", timestamp: "@ + timestamp_text(timestamp) + " }"@
}

/// The text that writes an event. It says nothing of the picture's bytes.
pub open spec fn event_text(event: MemeEventView) -> Seq<char> {
    match event {
        MemeEventView::New { image, source } => "New { image: "@ + image_text(
            image.spoiler,
            image.text,
            image.timestamp,
        ) + ", source: "@ + source_text(source) + " }"@,
        MemeEventView::Updated { image, source } => "Updated { image: "@ + image_text(
            image.spoiler,
            image.text,
            image.timestamp,
        ) + ", source: "@ + source_text(source) + " }"@,
        MemeEventView::Deleted { source } => "Deleted { source: "@ + source_text(source) + " }"@,
    }
}

fn push_timestamp(out: &mut String, timestamp: Timestamp)
    ensures
        final(out)@ == old(out)@ + timestamp_text(timestamp),
{
    out.append("Timestamp { seconds: ");
    push_decimal(out, timestamp.seconds);
    out.append(", nanoseconds: ");
    push_decimal(out, timestamp.nanoseconds as i64);
    out.append(" }");
    assert(out@ =~= old(out)@ + timestamp_text(timestamp));
}

fn push_source(out: &mut String, source: &Source)
    ensures
        final(out)@ == old(out)@ + source_text(source@),
{
    match source {
        Source::Telegram { account, channel, id } => {
            out.append("Telegram { account: ");
            push_quoted_option(out, account);
            out.append(", channel: ");
            push_quoted_option(out, channel);
            out.append(", id: ");
            push_decimal(out, *id as i64);
            out.append(" }");
        },
        Source::Matrix { account, channel } => {
            out.append("Matrix { account: ");
            push_quoted(out, account.as_str());
            out.append(", channel: ");
            push_quoted(out, channel.as_str());
            out.append(" }");
        },
    }
    assert(out@ =~= old(out)@ + source_text(source@));
}

fn push_image(out: &mut String, image: &MemeImage)
    ensures
        final(out)@ == old(out)@ + image_text(image@.spoiler, image@.text, image@.timestamp),
{
    out.append("MemeImage { data: ");
    push_quoted(out, "[elided]");
    out.append(", spoiler: ");
    push_boolean(out, image.spoiler);
    out.append(", text: ");
    push_quoted(out, image.text.as_str());
    out.append(", timestamp: ");
    push_timestamp(out, image.timestamp);
    out.append(" }");
    assert(out@ =~= old(out)@ + image_text(image@.spoiler, image@.text, image@.timestamp));
}

impl Source {
    /// Writes the source out for a log.
    pub fn fmt(&self) -> (text: String)
        ensures
            text@ == source_text(self@),
    {
        let mut text = String::new();
        push_source(&mut text, self);
        assert(text@ =~= source_text(self@));
        text
    }
}

impl MemeImage {
    /// Writes the picture out for a log: what was said about it, and in
    /// place of its bytes a mark that they were left out.
    pub fn fmt(&self) -> (text: String)
        ensures
            text@ == image_text(self@.spoiler, self@.text, self@.timestamp),
    {
        let mut text = String::new();
        push_image(&mut text, self);
        assert(text@ =~= image_text(self@.spoiler, self@.text, self@.timestamp));
        text
    }
}

impl MemeEvent {
    /// Writes the event out for a log, the picture without its bytes.
    pub fn fmt(&self) -> (text: String)
        ensures
            text@ == event_text(self@),
    {
        let mut text = String::new();
        match self {
            MemeEvent::New { image, source } => {
                text.append("New { image: ");
                push_image(&mut text, image);
                text.append(", source: ");
                push_source(&mut text, source);
                text.append(" }");
            },
            MemeEvent::Updated { image, source } => {
                text.append("Updated { image: ");
                push_image(&mut text, image);
                text.append(", source: ");
                push_source(&mut text, source);
                text.append(" }");
            },
            MemeEvent::Deleted { source } => {
                text.append("Deleted { source: ");
                push_source(&mut text, source);
                text.append(" }");
            },
        }
        assert(text@ =~= event_text(self@));
        text
    }
}

} // verus!
