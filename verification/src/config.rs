//! What the configuration hands to the workers once the secrets are read:
//! credentials, the chats to watch, and where to store.

use crate::text::decimal;
use crate::text::parse_i32;
use crate::text::parsed_i32;
use crate::text::push_decimal;
use crate::text::push_quoted;
use crate::text::quoted;
use vstd::prelude::*;
use vstd::string::*;

verus! {

/// A chat to watch: the identifier the platform gives it, and the name its
/// posts are filed under.
#[derive(Debug, PartialEq, Eq)]
pub struct Group {
    pub id: i64,
    pub name: String,
}

/// The mathematical view of a [`Group`].
pub struct GroupView {
    pub id: i64,
    pub name: Seq<char>,
}

impl View for Group {
    type V = GroupView;

    open spec fn view(&self) -> GroupView {
        GroupView { id: self.id, name: self.name@ }
    }
}

impl Clone for Group {
    fn clone(&self) -> (copy: Self)
        ensures
            copy == *self,
    {
        Group { id: self.id, name: self.name.clone() }
    }
}

/// The views of a sequence of groups.
pub open spec fn group_views(groups: Seq<Group>) -> Seq<GroupView> {
    Seq::new(groups.len(), |i: int| groups[i]@)
}

/// A room to watch: the name its posts are filed under, and its address.
#[derive(Debug, PartialEq, Eq)]
pub struct Room {
    pub name: String,
    pub address: String,
}

/// The mathematical view of a [`Room`].
pub struct RoomView {
    pub name: Seq<char>,
    pub address: Seq<char>,
}

impl View for Room {
    type V = RoomView;

    open spec fn view(&self) -> RoomView {
        RoomView { name: self.name@, address: self.address@ }
    }
}

impl Clone for Room {
    fn clone(&self) -> (copy: Self)
        ensures
            copy == *self,
    {
        Room { name: self.name.clone(), address: self.address.clone() }
    }
}

/// The views of a sequence of rooms.
pub open spec fn room_views(rooms: Seq<Room>) -> Seq<RoomView> {
    Seq::new(rooms.len(), |i: int| rooms[i]@)
}

/// Where the blobs are stored.
#[derive(Debug, PartialEq, Eq)]
pub struct StorageConfiguration {
    path: String,
}

impl View for StorageConfiguration {
    type V = Seq<char>;

    closed spec fn view(&self) -> Seq<char> {
        self.path@
    }
}

impl Clone for StorageConfiguration {
    fn clone(&self) -> (copy: Self)
        ensures
            copy@ == self@,
    {
        StorageConfiguration { path: self.path.clone() }
    }
}

impl StorageConfiguration {
    /// Storage under the directory `path`.
    pub fn new(path: String) -> (storage: Self)
        ensures
            storage@ == path@,
    {
        StorageConfiguration { path }
    }

    /// The directory under which the blobs are stored.
    pub fn path(&self) -> (path: &str)
        ensures
            path@ == self@,
    {
        self.path.as_str()
    }
}

/// Where the records are stored.
#[derive(Debug, PartialEq, Eq)]
pub struct DatabaseConfiguration {
    url: String,
}

impl View for DatabaseConfiguration {
    type V = Seq<char>;

    closed spec fn view(&self) -> Seq<char> {
        self.url@
    }
}

impl Clone for DatabaseConfiguration {
    fn clone(&self) -> (copy: Self)
        ensures
            copy@ == self@,
    {
        DatabaseConfiguration { url: self.url.clone() }
    }
}

impl DatabaseConfiguration {
    /// The record store reached at `url`.
    pub fn new(url: String) -> (database: Self)
        ensures
            database@ == url@,
    {
        DatabaseConfiguration { url }
    }

    /// The connection string of the record store.
    pub fn url(&self) -> (url: &str)
        ensures
            url@ == self@,
    {
        self.url.as_str()
    }
}

/// What the Telegram connector signs in with, and the chats it watches.
#[derive(PartialEq, Eq)]
pub struct Telegram {
    api_id: i32,
    api_hash: String,
    bot_password: String,
    groups: Vec<Group>,
}

/// The mathematical view of a [`Telegram`].
pub struct TelegramView {
    pub api_id: i32,
    pub api_hash: Seq<char>,
    pub bot_password: Seq<char>,
    pub groups: Seq<GroupView>,
}

impl View for Telegram {
    type V = TelegramView;

    closed spec fn view(&self) -> TelegramView {
        TelegramView {
            api_id: self.api_id,
            api_hash: self.api_hash@,
            bot_password: self.bot_password@,
            groups: group_views(self.groups@),
        }
    }
}

impl Clone for Telegram {
    fn clone(&self) -> (copy: Self)
        ensures
            copy@ == self@,
    {
        let copy = Telegram {
            api_id: self.api_id,
            api_hash: self.api_hash.clone(),
            bot_password: self.bot_password.clone(),
            groups: copy_groups(&self.groups),
        };
        copy
    }
}

fn copy_groups(groups: &Vec<Group>) -> (copy: Vec<Group>)
    ensures
        copy@ == groups@,
{
    let mut copy: Vec<Group> = Vec::new();
    let mut i: usize = 0;
    while i < groups.len()
        invariant
            i <= groups@.len(),
            copy@ == groups@.take(i as int),
        decreases groups@.len() - i,
    {
        copy.push(groups[i].clone());
        assert(copy@ =~= groups@.take(i + 1));
        i += 1;
    }
    assert(groups@.take(groups@.len() as int) =~= groups@);
    copy
}

fn copy_rooms(rooms: &Vec<Room>) -> (copy: Vec<Room>)
    ensures
        copy@ == rooms@,
{
    let mut copy: Vec<Room> = Vec::new();
    let mut i: usize = 0;
    while i < rooms.len()
        invariant
            i <= rooms@.len(),
            copy@ == rooms@.take(i as int),
        decreases rooms@.len() - i,
    {
        copy.push(rooms[i].clone());
        assert(copy@ =~= rooms@.take(i + 1));
        i += 1;
    }
    assert(rooms@.take(rooms@.len() as int) =~= rooms@);
    copy
}

impl Telegram {
    /// The credentials as given, with the chats to watch.
    pub fn new(api_id: i32, api_hash: String, bot_password: String, groups: Vec<Group>) -> (telegram:
        Self)
        ensures
            telegram@ == (TelegramView {
                api_id,
                api_hash: api_hash@,
                bot_password: bot_password@,
                groups: group_views(groups@),
            }),
    {
        Telegram { api_id, api_hash, bot_password, groups }
    }

    /// The identifier and the hash that the application signs in with.
    pub fn api_credentials(&self) -> (credentials: (i32, &str))
        ensures
            credentials.0 == self@.api_id,
            credentials.1@ == self@.api_hash,
    {
        (self.api_id, self.api_hash.as_str())
    }

    /// The token that the bot signs in with.
    pub fn bot_token(&self) -> (token: &str)
        ensures
            token@ == self@.bot_password,
    {
        self.bot_password.as_str()
    }

    /// The chats to watch.
    pub fn groups(&self) -> (groups: &Vec<Group>)
        ensures
            group_views(groups@) == self@.groups,
    {
        &self.groups
    }
}

/// What the Matrix connector signs in with, and the rooms it watches.
#[derive(PartialEq, Eq)]
pub struct Matrix {
    homeserver: String,
    username: String,
    password: String,
    rooms: Vec<Room>,
}

/// The mathematical view of a [`Matrix`].
pub struct MatrixView {
    pub homeserver: Seq<char>,
    pub username: Seq<char>,
    pub password: Seq<char>,
    pub rooms: Seq<RoomView>,
}

impl View for Matrix {
    type V = MatrixView;

    closed spec fn view(&self) -> MatrixView {
        MatrixView {
            homeserver: self.homeserver@,
            username: self.username@,
            password: self.password@,
            rooms: room_views(self.rooms@),
        }
    }
}

impl Clone for Matrix {
    fn clone(&self) -> (copy: Self)
        ensures
            copy@ == self@,
    {
        Matrix {
            homeserver: self.homeserver.clone(),
            username: self.username.clone(),
            password: self.password.clone(),
            rooms: copy_rooms(&self.rooms),
        }
    }
}

impl Matrix {
    /// The credentials as given, with the rooms to watch.
    pub fn new(homeserver: String, username: String, password: String, rooms: Vec<Room>) -> (matrix:
        Self)
        ensures
            matrix@ == (MatrixView {
                homeserver: homeserver@,
                username: username@,
                password: password@,
                rooms: room_views(rooms@),
            }),
    {
        Matrix { homeserver, username, password, rooms }
    }

    /// The address of the home server.
    pub fn homeserver(&self) -> (homeserver: &str)
        ensures
            homeserver@ == self@.homeserver,
    {
        self.homeserver.as_str()
    }

    /// The name the connector signs in under.
    pub fn username(&self) -> (username: &str)
        ensures
            username@ == self@.username,
    {
        self.username.as_str()
    }

    /// The password the connector signs in with.
    pub fn password(&self) -> (password: &str)
        ensures
            password@ == self@.password,
    {
        self.password.as_str()
    }

    /// The rooms to watch.
    pub fn rooms(&self) -> (rooms: &Vec<Room>)
        ensures
            room_views(rooms@) == self@.rooms,
    {
        &self.rooms
    }
}

/// Why the secrets make no credentials.
#[derive(Clone, Copy, Debug, PartialEq, Eq, Structural)]
pub enum ConfigError {
    /// The application identifier is no 32-bit integer.
    InvalidApiId,
}

impl Telegram {
    /// The credentials that the secrets make: `api_id` is read as a
    /// 32-bit integer, the others are taken as they are.
    pub fn from_secrets(
        api_id: &str,
        api_hash: String,
        bot_password: String,
        groups: Vec<Group>,
    ) -> (telegram: Result<Self, ConfigError>)
        ensures
            match parsed_i32(api_id@) {
                Some(id) => telegram matches Ok(telegram) && telegram@ == (TelegramView {
                    api_id: id,
                    api_hash: api_hash@,
                    bot_password: bot_password@,
                    groups: group_views(groups@),
                }),
                None => telegram == Err::<Self, ConfigError>(ConfigError::InvalidApiId),
            },
    {
        match parse_i32(api_id) {
            Some(id) => Ok(Telegram::new(id, api_hash, bot_password, groups)),
            None => Err(ConfigError::InvalidApiId),
        }
    }
}

impl Matrix {
    /// The credentials that the secret makes with what the configuration
    /// says in the open.
    pub fn from_secrets(homeserver: &str, username: &str, password: String, rooms: &Vec<Room>) -> (matrix:
        Self)
        ensures
            matrix@ == (MatrixView {
                homeserver: homeserver@,
                username: username@,
                password: password@,
                rooms: room_views(rooms@),
            }),
    {
        Matrix::new(homeserver.to_owned(), username.to_owned(), password, copy_rooms(rooms))
    }
}

/// What stands in place of a secret wherever credentials are written out.
pub open spec fn redacted() -> Seq<char> {
    quoted("[REDACTED]"@)
}

/// The text that writes a group.
pub open spec fn group_text(group: GroupView) -> Seq<char> {
    "Group { id: "@ + decimal(group.id as int) + ", name: "@ + quoted(group.name) + " }"@
}

/// The text that writes a room.
pub open spec fn room_text(room: RoomView) -> Seq<char> {
    "Room { name: "@ + quoted(room.name) + ", address: "@ + quoted(room.address) + " }"@
}

/// The texts `items`, each but the first after a comma and a blank.
pub open spec fn listed(items: Seq<Seq<char>>) -> Seq<char>
    decreases items.len(),
{
    if items.len() == 0 {
        Seq::empty()
    } else if items.len() == 1 {
        items[0]
    } else {
        listed(items.drop_last()) + ", "@ + items.last()
    }
}

/// The text that writes the groups, in square brackets.
pub open spec fn groups_text(groups: Seq<GroupView>) -> Seq<char> {
    "["@ + listed(Seq::new(groups.len(), |i: int| group_text(groups[i]))) + "]"@
}

/// The text that writes the rooms, in square brackets.
pub open spec fn rooms_text(rooms: Seq<RoomView>) -> Seq<char> {
    "["@ + listed(Seq::new(rooms.len(), |i: int| room_text(rooms[i]))) + "]"@
}

/// The text that writes Telegram credentials with these groups. It says
/// nothing of the secrets.
pub open spec fn telegram_text(groups: Seq<GroupView>) -> Seq<char> {
    "Telegram { api_id: "@ + redacted() + ", api_hash: "@ + redacted() + ", bot_password: "@
        + redacted() + ", groups: "@ + groups_text(groups) + " }"@
}

/// The text that writes Matrix credentials for this server, this user and
/// these rooms. It says nothing of the password.
pub open spec fn matrix_text(
    homeserver: Seq<char>,
    username: Seq<char>,
    rooms: Seq<RoomView>,
) -> Seq<char> {
    "Matrix { homeserver: "@ + quoted(homeserver) + ", username: "@ + quoted(username)
        + ", password: "@ + redacted() + ", rooms: "@ + rooms_text(rooms) + " }"@
}

fn push_group(out: &mut String, group: &Group)
    ensures
        final(out)@ == old(out)@ + group_text(group@),
{
    out.append("Group { id: ");
    push_decimal(out, group.id);
    out.append(", name: ");
    push_quoted(out, group.name.as_str());
    out.append(" }");
    assert(out@ =~= old(out)@ + group_text(group@));
}

fn push_room(out: &mut String, room: &Room)
    ensures
        final(out)@ == old(out)@ + room_text(room@),
{
    out.append("Room { name: ");
    push_quoted(out, room.name.as_str());
    out.append(", address: ");
    push_quoted(out, room.address.as_str());
    out.append(" }");
    assert(out@ =~= old(out)@ + room_text(room@));
}

fn push_groups(out: &mut String, groups: &Vec<Group>)
    ensures
        final(out)@ == old(out)@ + groups_text(group_views(groups@)),
{
    let ghost texts = Seq::new(groups@.len(), |i: int| group_text(group_views(groups@)[i]));
    out.append("[");
    let ghost opened = out@;
    let mut i: usize = 0;
    assert(texts.take(0) =~= Seq::<Seq<char>>::empty());
    assert(out@ =~= opened + listed(texts.take(0)));
    while i < groups.len()
        invariant
            i <= groups@.len(),
            texts == Seq::new(groups@.len(), |i: int| group_text(group_views(groups@)[i])),
            out@ == opened + listed(texts.take(i as int)),
        decreases groups@.len() - i,
    {
        let ghost before = out@;
        if i > 0 {
            out.append(", ");
        }
        push_group(out, &groups[i]);
        proof {
            let sooner = texts.take(i as int);
            let later = texts.take(i + 1);
            assert(later.drop_last() =~= sooner);
            assert(later.last() == group_text(groups@[i as int]@));
            if i == 0 {
                assert(listed(later) == later[0]);
                assert(listed(sooner) =~= Seq::<char>::empty());
                assert(out@ =~= opened + listed(later));
            } else {
                assert(out@ =~= opened + listed(later));
            }
        }
        i += 1;
    }
    assert(texts.take(groups@.len() as int) =~= texts);
    out.append("]");
    assert(out@ =~= old(out)@ + groups_text(group_views(groups@)));
}

fn push_rooms(out: &mut String, rooms: &Vec<Room>)
    ensures
        final(out)@ == old(out)@ + rooms_text(room_views(rooms@)),
{
    let ghost texts = Seq::new(rooms@.len(), |i: int| room_text(room_views(rooms@)[i]));
    out.append("[");
    let ghost opened = out@;
    let mut i: usize = 0;
    assert(texts.take(0) =~= Seq::<Seq<char>>::empty());
    assert(out@ =~= opened + listed(texts.take(0)));
    while i < rooms.len()
        invariant
            i <= rooms@.len(),
            texts == Seq::new(rooms@.len(), |i: int| room_text(room_views(rooms@)[i])),
            out@ == opened + listed(texts.take(i as int)),
        decreases rooms@.len() - i,
    {
        let ghost before = out@;
        if i > 0 {
            out.append(", ");
        }
        push_room(out, &rooms[i]);
        proof {
            let sooner = texts.take(i as int);
            let later = texts.take(i + 1);
            assert(later.drop_last() =~= sooner);
            assert(later.last() == room_text(rooms@[i as int]@));
            if i == 0 {
                assert(listed(later) == later[0]);
                assert(listed(sooner) =~= Seq::<char>::empty());
                assert(out@ =~= opened + listed(later));
            } else {
                assert(out@ =~= opened + listed(later));
            }
        }
        i += 1;
    }
    assert(texts.take(rooms@.len() as int) =~= texts);
    out.append("]");
    assert(out@ =~= old(out)@ + rooms_text(room_views(rooms@)));
}

impl Telegram {
    /// Writes the credentials out for a log: the groups as they are, and in
    /// place of each secret a mark that one was left out.
    pub fn fmt(&self) -> (text: String)
        ensures
            text@ == telegram_text(self@.groups),
    {
        let mut text = String::new();
        text.append("Telegram { api_id: ");
        push_quoted(&mut text, "[REDACTED]");
        text.append(", api_hash: ");
        push_quoted(&mut text, "[REDACTED]");
        text.append(", bot_password: ");
        push_quoted(&mut text, "[REDACTED]");
        text.append(", groups: ");
        push_groups(&mut text, &self.groups);
        text.append(" }");
        assert(text@ =~= telegram_text(self@.groups));
        text
    }
}

impl Matrix {
    /// Writes the credentials out for a log: all as it is but the password,
    /// in whose place stands a mark that it was left out.
    pub fn fmt(&self) -> (text: String)
        ensures
            text@ == matrix_text(self@.homeserver, self@.username, self@.rooms),
    {
        let mut text = String::new();
        text.append("Matrix { homeserver: ");
        push_quoted(&mut text, self.homeserver.as_str());
        text.append(", username: ");
        push_quoted(&mut text, self.username.as_str());
        text.append(", password: ");
        push_quoted(&mut text, "[REDACTED]");
        text.append(", rooms: ");
        push_rooms(&mut text, &self.rooms);
        text.append(" }");
        assert(text@ =~= matrix_text(self@.homeserver, self@.username, self@.rooms));
        text
    }
}

} // verus!
