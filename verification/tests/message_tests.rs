use chat_service::db::DbError;
use chat_service::message::{channel_room, channel_step, stream_step, ChannelAction, ChannelEvent, Message, MessageForm, MessageRecord};
use chat_service::room::{Room, RoomRecord};
use chat_service::time::Timestamp;
use chat_service::user::{User, UserRecord};

fn rec(id: i32, user_id: i32, room_id: i32) -> MessageRecord {
    MessageRecord { id, content: format!("m{}", id), user_id, room_id, created_at: Timestamp { secs: id as i64, nanos: 0 } }
}

fn user(id: i32) -> UserRecord {
    UserRecord { id, username: format!("u{}", id), password: "h".into() }
}

fn msg(id: i32, room_id: i32) -> Message {
    Message::from_data(rec(id, 1, room_id), User { id: 1, username: "a".into() })
}

#[test]
fn room_messages_skip_missing_authors() {
    let out = Message::fetch_from_room_id(
        Ok(vec![rec(1, 10, 3), rec(2, 11, 3), rec(3, 12, 3)]),
        Ok(vec![Some(user(10)), None, Some(user(12))]),
    );
    let ids: Vec<i32> = out.iter().map(|m| m.id).collect();
    assert_eq!(ids, vec![1, 3]);
    assert_eq!(out[1].user.username, "u12");
    assert_eq!(out[1].content, "m3");
    assert_eq!(out[0].created_at.secs, 1);
}

#[test]
fn room_messages_stop_at_shorter_list() {
    let out = Message::fetch_from_room_id(Ok(vec![rec(1, 10, 3), rec(2, 11, 3)]), Ok(vec![Some(user(10))]));
    assert_eq!(out.len(), 1);
    let out = Message::fetch_from_room_id(Ok(vec![rec(1, 10, 3)]), Ok(vec![Some(user(10)), Some(user(11))]));
    assert_eq!(out.len(), 1);
}

#[test]
fn room_messages_after_failed_reads() {
    assert!(Message::fetch_from_room_id(Err(DbError { message: "x".into() }), Ok(vec![])).is_empty());
    assert!(Message::fetch_from_room_id(Ok(vec![rec(1, 10, 3)]), Err(DbError { message: "x".into() })).is_empty());
}

#[test]
fn posting_a_message() {
    let form = MessageForm { content: "hi".into(), room_id: 2 };
    let author = User { id: 5, username: "p".into() };
    let row = form.new_record(&author);
    assert_eq!((row.content.as_str(), row.user_id, row.room_id), ("hi", 5, 2));
    let m = form.insert(Ok(rec(9, 5, 2)), &author).ok().unwrap();
    assert_eq!((m.id, m.room_id, m.user.id), (9, 2, 5));
    let e = form.insert(Err(DbError { message: "x".into() }), &author).err().unwrap();
    assert_eq!((e.status(), e.message()), (500, "Something went wrong!!!"));
}

#[test]
fn room_stream_filters_by_room() {
    assert!(matches!(channel_step(2, ChannelEvent::Received(msg(1, 2))), ChannelAction::Yield(m) if m.id == 1));
    assert!(matches!(channel_step(2, ChannelEvent::Received(msg(1, 3))), ChannelAction::Skip));
    assert!(matches!(channel_step(2, ChannelEvent::Lagged(4)), ChannelAction::Skip));
    assert!(matches!(channel_step(2, ChannelEvent::Closed), ChannelAction::Stop));
    assert!(matches!(channel_step(2, ChannelEvent::Shutdown), ChannelAction::Stop));
    assert_eq!(channel_room(7), 7);
}

#[test]
fn broadcast_stream() {
    assert!(matches!(stream_step(ChannelEvent::Received(3u8)), ChannelAction::Yield(3)));
    assert!(matches!(stream_step::<u8>(ChannelEvent::Lagged(1)), ChannelAction::Skip));
    assert!(matches!(stream_step::<u8>(ChannelEvent::Closed), ChannelAction::Stop));
}

#[test]
fn rooms() {
    let all = Room::all(Ok(vec![RoomRecord { id: 1, name: "a".into() }])).ok().unwrap();
    assert_eq!(all.len(), 1);
    let e = Room::all(Err(DbError { message: "x".into() })).err().unwrap();
    assert_eq!((e.status(), e.message()), (500, "Something went wrong!!!"));
    let room = Room { name: "general" };
    assert_eq!(room.new_record().name, "general");
    let stored = room.insert(Ok(RoomRecord { id: 3, name: "general".into() })).ok().unwrap();
    assert_eq!(stored.id, 3);
    assert_eq!(room.insert(Err(DbError { message: "x".into() })).err().unwrap().status(), 500);
}
