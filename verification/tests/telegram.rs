use kommemeorate::config;
use kommemeorate::event::Chat;
use kommemeorate::event::Command;
use kommemeorate::event::MemeEvent;
use kommemeorate::event::MemeImage;
use kommemeorate::event::Source;
use kommemeorate::event::Timestamp;
use kommemeorate::telegram::group_map;
use kommemeorate::telegram::handle_delete;
use kommemeorate::telegram::handle_message;
use kommemeorate::telegram::handle_update;
use kommemeorate::telegram::is_eligible;
use kommemeorate::telegram::is_relevant;
use kommemeorate::telegram::is_well_dated;
use kommemeorate::telegram::Capture;
use kommemeorate::telegram::Group;
use kommemeorate::telegram::GroupMap;
use kommemeorate::telegram::Media;
use kommemeorate::telegram::Message;
use kommemeorate::telegram::MessageDeletion;
use kommemeorate::telegram::Photo;
use kommemeorate::telegram::Reaction;
use kommemeorate::telegram::Skip;
use kommemeorate::telegram::Telegram;
use kommemeorate::telegram::Update;
use kommemeorate::worker::Exit;
use kommemeorate::worker::Launch;
use kommemeorate::worker::WorkerError;

const WATCHED: i64 = -1001;

fn groups() -> GroupMap {
    group_map(&vec![
        config::Group { id: WATCHED, name: "memes".to_string() },
        config::Group { id: 5, name: "more".to_string() },
    ])
}

fn room(id: i64) -> Chat {
    Chat::Group { id, title: Some("a room".to_string()) }
}

fn alice() -> Chat {
    Chat::User { id: 9, username: Some("alice".to_string()) }
}

fn photo(ttl_seconds: Option<i32>) -> Option<Media> {
    Some(Media::Photo(Photo { spoiler: true, ttl_seconds }))
}

fn message(chat: i64, media: Option<Media>) -> Message {
    Message {
        id: 42,
        chat: room(chat),
        sender: Some(alice()),
        text: "look at this".to_string(),
        date: Timestamp { seconds: 100, nanoseconds: 1 },
        edit_date: None,
        media,
    }
}

fn captured(edit: bool, seconds: i64) -> Capture {
    Capture {
        spoiler: true,
        text: "look at this".to_string(),
        timestamp: Timestamp { seconds, nanoseconds: 1 },
        source: Source::Telegram { account: Some("alice".to_string()), channel: Some("memes".to_string()), id: 42 },
        edit,
    }
}

#[test]
fn an_update_for_an_unknown_chat_becomes_no_event() {
    let mut groups = groups();
    let before = groups.clone_entries();
    let reaction = handle_update(&mut groups, Update::NewMessage(message(777, photo(None))));
    assert!(reaction == Reaction::Skip(Skip::Irrelevant));
    assert_eq!(groups.clone_entries(), before);

    let mut edited = message(777, photo(None));
    edited.edit_date = Some(Timestamp { seconds: 200, nanoseconds: 1 });
    let reaction = handle_update(&mut groups, Update::MessageEdited(edited));
    assert!(reaction == Reaction::Skip(Skip::Irrelevant));
}

trait Entries {
    fn clone_entries(&self) -> Vec<(i64, String, Option<Chat>)>;
}

impl Entries for GroupMap {
    fn clone_entries(&self) -> Vec<(i64, String, Option<Chat>)> {
        let mut entries: Vec<(i64, String, Option<Chat>)> =
            self.iter().map(|(id, group)| (*id, group.name.clone(), group.chat.clone())).collect();
        entries.sort_by_key(|entry| entry.0);
        entries
    }
}

#[test]
fn a_photo_that_disappears_becomes_no_event() {
    let mut groups = groups();
    let reaction = handle_update(&mut groups, Update::NewMessage(message(WATCHED, photo(Some(30)))));
    assert!(reaction == Reaction::Skip(Skip::Ephemeral));
    let reaction = handle_message(&mut groups, message(WATCHED, photo(Some(0))), false);
    assert!(reaction == Reaction::Skip(Skip::Ephemeral));
}

#[test]
fn a_message_without_a_photo_becomes_no_event() {
    let mut groups = groups();
    let reaction = handle_update(&mut groups, Update::NewMessage(message(WATCHED, None)));
    assert!(reaction == Reaction::Skip(Skip::NoPhoto));
    let reaction = handle_update(&mut groups, Update::NewMessage(message(WATCHED, Some(Media::Other))));
    assert!(reaction == Reaction::Skip(Skip::NoPhoto));
}

#[test]
fn a_new_photo_in_a_watched_chat_is_captured() {
    let mut groups = groups();
    let reaction = handle_update(&mut groups, Update::NewMessage(message(WATCHED, photo(None))));
    assert!(reaction == Reaction::Download(captured(false, 100)));
}

#[test]
fn an_edited_photo_is_captured_with_the_time_of_the_edit() {
    let mut groups = groups();
    let mut edited = message(WATCHED, photo(None));
    edited.edit_date = Some(Timestamp { seconds: 200, nanoseconds: 1 });
    let reaction = handle_update(&mut groups, Update::MessageEdited(edited));
    assert!(reaction == Reaction::Download(captured(true, 200)));
}

#[test]
fn an_edited_message_that_is_not_captured_needs_no_time_of_the_edit() {
    let mut groups = groups();
    let reaction = handle_update(&mut groups, Update::MessageEdited(message(WATCHED, None)));
    assert!(reaction == Reaction::Skip(Skip::NoPhoto));
    let reaction = handle_update(&mut groups, Update::MessageEdited(message(777, photo(None))));
    assert!(reaction == Reaction::Skip(Skip::Irrelevant));
}

#[test]
fn a_capture_without_a_sender_has_no_account() {
    let mut groups = groups();
    let mut anonymous = message(5, photo(None));
    anonymous.sender = None;
    let reaction = handle_message(&mut groups, anonymous, false);
    let mut expected = captured(false, 100);
    expected.source = Source::Telegram { account: None, channel: Some("more".to_string()), id: 42 };
    assert!(reaction == Reaction::Download(expected));
}

#[test]
fn a_capture_with_its_picture_is_an_event() {
    let image = MemeImage::new(vec![1, 2, 3], true, "look at this".to_string(), Timestamp { seconds: 100, nanoseconds: 1 });
    let source = Source::Telegram { account: Some("alice".to_string()), channel: Some("memes".to_string()), id: 42 };
    assert!(captured(false, 100).complete(vec![1, 2, 3]) == MemeEvent::new(image.clone(), source.clone()));
    assert!(captured(true, 100).complete(vec![1, 2, 3]) == MemeEvent::edit(image, source));
}

#[test]
fn a_watched_chat_remembers_the_chat_it_saw() {
    let mut groups = groups();
    assert!(is_relevant(&mut groups, room(WATCHED)));
    assert_eq!(groups.get(&WATCHED), Some(&Group { name: "memes".to_string(), chat: Some(room(WATCHED)) }));
    assert_eq!(groups.get(&5), Some(&Group { name: "more".to_string(), chat: None }));
    assert_eq!(groups.len(), 2);

    assert!(!is_relevant(&mut groups, room(777)));
    assert_eq!(groups.len(), 2);
    assert_eq!(groups.get(&777), None);
}

#[test]
fn a_message_without_a_photo_is_remembered_all_the_same() {
    let mut groups = groups();
    let reaction = handle_message(&mut groups, message(WATCHED, None), false);
    assert!(reaction == Reaction::Skip(Skip::NoPhoto));
    assert_eq!(groups.get(&WATCHED), Some(&Group { name: "memes".to_string(), chat: Some(room(WATCHED)) }));
}

#[test]
fn the_later_of_two_groups_with_one_identifier_stands() {
    let groups = group_map(&vec![
        config::Group { id: 1, name: "first".to_string() },
        config::Group { id: 2, name: "other".to_string() },
        config::Group { id: 1, name: "second".to_string() },
    ]);
    assert_eq!(groups.len(), 2);
    assert_eq!(groups.get(&1), Some(&Group { name: "second".to_string(), chat: None }));
    assert_eq!(groups.get(&2), Some(&Group { name: "other".to_string(), chat: None }));
    assert_eq!(group_map(&vec![]).len(), 0);
}

#[test]
fn a_group_of_the_configuration_is_not_yet_seen() {
    let group = Group::from(config::Group { id: 1, name: "first".to_string() });
    assert_eq!(group, Group { name: "first".to_string(), chat: None });
}

#[test]
fn deleted_messages_become_one_event_each() {
    let deletion = MessageDeletion { channel_id: None, messages: vec![3, 1, 2] };
    let reaction = handle_delete(deletion);
    assert!(
        reaction
            == Reaction::Emit(vec![
                MemeEvent::delete(Source::telegram(None, None, 3)),
                MemeEvent::delete(Source::telegram(None, None, 1)),
                MemeEvent::delete(Source::telegram(None, None, 2)),
            ])
    );
    let mut groups = groups();
    let deletion = MessageDeletion { channel_id: None, messages: vec![] };
    assert!(handle_update(&mut groups, Update::MessageDeleted(deletion)) == Reaction::Emit(vec![]));
}

#[test]
fn messages_deleted_from_a_channel_become_no_event() {
    let mut groups = groups();
    let deletion = MessageDeletion { channel_id: Some(WATCHED), messages: vec![3, 1, 2] };
    assert!(handle_update(&mut groups, Update::MessageDeleted(deletion)) == Reaction::Skip(Skip::ChannelDeletion));
}

#[test]
fn any_other_update_becomes_no_event() {
    let mut groups = groups();
    assert!(handle_update(&mut groups, Update::Other) == Reaction::Skip(Skip::Unhandled));
    assert_eq!(groups.len(), 2);
}

fn credentials(token: &str) -> config::Telegram {
    config::Telegram::new(1, "hash".to_string(), token.to_string(), vec![])
}

#[test]
fn telegram_reload_hands_the_output_over() {
    let (mut telegram, launch) = Telegram::new(credentials("old"), "sender");
    assert!(launch == Launch { config: credentials("old"), resources: "sender" });
    assert_eq!(telegram.stop(2), Some(Command::Shutdown));
    assert_eq!(telegram.stop(2), None);
    let next = telegram.reload(Exit::Returned("sender"), credentials("new"));
    let (telegram, launch) = match next {
        Ok(started) => started,
        Err(error) => panic!("no reload: {:?}", error),
    };
    assert!(launch == Launch { config: credentials("new"), resources: "sender" });
    assert_eq!(telegram.shutdown(Exit::Returned("sender")), Ok(()));
}

#[test]
fn telegram_sends_no_signal_where_nobody_listens() {
    let (mut telegram, _) = Telegram::new(credentials("old"), 0_u8);
    assert_eq!(telegram.stop(0), None);
    assert_eq!(telegram.stop(1), None);
    assert_eq!(telegram.shutdown(Exit::Returned(0_u8)), Ok(()));
}

#[test]
fn telegram_reload_fails_with_its_task() {
    let (telegram, _) = Telegram::new(credentials("old"), 0_u8);
    assert!(telegram.reload(Exit::<u8>::Failed, credentials("new")) == Err(WorkerError::TaskFailed));
    let (telegram, _) = Telegram::new(credentials("old"), 0_u8);
    assert!(telegram.reload(Exit::<u8>::Panicked, credentials("new")) == Err(WorkerError::TaskPanicked));
    let (telegram, _) = Telegram::new(credentials("old"), 0_u8);
    assert_eq!(telegram.shutdown(Exit::<u8>::Failed), Err(WorkerError::TaskFailed));
    let (telegram, _) = Telegram::new(credentials("old"), 0_u8);
    assert_eq!(telegram.shutdown(Exit::<u8>::Panicked), Err(WorkerError::TaskPanicked));
}

#[test]
fn which_messages_are_captured() {
    let groups = groups();
    assert!(is_eligible(&groups, &message(WATCHED, photo(None))));
    assert!(!is_eligible(&groups, &message(WATCHED, photo(Some(5)))));
    assert!(!is_eligible(&groups, &message(WATCHED, None)));
    assert!(!is_eligible(&groups, &message(WATCHED, Some(Media::Other))));
    assert!(!is_eligible(&groups, &message(777, photo(None))));
}

#[test]
fn which_updates_can_be_handled() {
    let groups = groups();
    let mut dated = message(WATCHED, photo(None));
    dated.edit_date = Some(Timestamp { seconds: 200, nanoseconds: 0 });
    assert!(is_well_dated(&groups, &Update::MessageEdited(dated)));
    assert!(!is_well_dated(&groups, &Update::MessageEdited(message(WATCHED, photo(None)))));
    assert!(is_well_dated(&groups, &Update::MessageEdited(message(WATCHED, None))));
    assert!(is_well_dated(&groups, &Update::MessageEdited(message(777, photo(None)))));
    assert!(is_well_dated(&groups, &Update::NewMessage(message(WATCHED, photo(None)))));
    assert!(is_well_dated(&groups, &Update::Other));
}
