//! Messages: how they are stored, read back for a room, and streamed to listeners.
use vstd::prelude::*;

use crate::db::DbError;
use crate::errors::ErrorResponder;
use crate::room::is_went_wrong;
use crate::time::Timestamp;
use crate::user::{User, UserRecord};

verus! {

/// A row of the `message` table.
pub struct MessageRecord {
    pub id: i32,
    pub content: String,
    pub user_id: i32,
    pub room_id: i32,
    pub created_at: Timestamp,
}

/// A row to add to the `message` table (id and time are given by the database).
pub struct NewMessage {
    pub content: String,
    pub user_id: i32,
    pub room_id: i32,
}

/// A message as it is sent to clients: with its author.
pub struct Message {
    pub id: i32,
    pub content: String,
    pub user: User,
    pub room_id: i32,
    pub created_at: Timestamp,
}

/// The form that posts a message.
pub struct MessageForm {
    pub content: String,
    pub room_id: i32,
}

/// Whether `m` is the message stored as `rec` and written by `user`.
pub open spec fn message_of(m: Message, rec: MessageRecord, user: User) -> bool {
    &&& m.id == rec.id
    &&& m.content == rec.content
    &&& m.user == user
    &&& m.room_id == rec.room_id
    &&& m.created_at == rec.created_at
}

/// The messages listed for a room: the stored messages paired in order with their loaded
/// authors (up to the shorter of the two lists), leaving out those whose author was not found.
pub open spec fn listed(msgs: Seq<MessageRecord>, users: Seq<Option<UserRecord>>) -> Seq<(MessageRecord, UserRecord)>
    decreases msgs.len(),
{
    if msgs.len() == 0 || users.len() == 0 {
        seq![]
    } else {
        let n = if msgs.len() < users.len() { msgs.len() } else { users.len() };
        let prev = listed(msgs.take(n - 1), users.take(n - 1));
        match users[n - 1] {
            Some(u) => prev.push((msgs[n - 1], u)),
            None => prev,
        }
    }
}

/// Whether `out` holds, in order, one message for each pair of `pairs`.
pub open spec fn messages_of(out: Seq<Message>, pairs: Seq<(MessageRecord, UserRecord)>) -> bool {
    &&& out.len() == pairs.len()
    &&& forall|i: int|
        0 <= i < out.len() ==> message_of(
            #[trigger] out[i],
            pairs[i].0,
            User { id: pairs[i].1.id, username: pairs[i].1.username },
        )
}

impl Message {
    /// The message stored as `msg`, by `user`.
    pub fn from_data(msg: MessageRecord, user: User) -> (m: Self)
        ensures
            message_of(m, msg, user),
    {
        Message {
            id: msg.id,
            content: msg.content,
            user,
            room_id: msg.room_id,
            created_at: msg.created_at,
        }
    }

    /// The messages of a room, from the read of its messages (ordered by creation time)
    /// and the read of their authors; when either read failed, no messages.
    pub fn fetch_from_room_id(
        messages: Result<Vec<MessageRecord>, DbError>,
        users: Result<Vec<Option<UserRecord>>, DbError>,
    ) -> (out: Vec<Self>)
        ensures
            match (messages, users) {
                (Ok(ms), Ok(us)) => messages_of(out@, listed(ms@, us@)),
                _ => out@.len() == 0,
            },
    {
        let mut results: Vec<Self> = Vec::new();
        if let Ok(messages) = messages {
            if let Ok(users) = users {
                let n = if messages.len() < users.len() { messages.len() } else { users.len() };
                let ghost ms = messages@;
                let ghost us = users@;
                let mut messages = messages;
                let mut users = users;
                let mut i: usize = 0;
                while i < n
                    invariant
                        n <= ms.len(),
                        n <= us.len(),
                        n == ms.len() || n == us.len(),
                        i <= n,
                        messages@ == ms,
                        users@ == us,
                        messages_of(results@, listed(ms.take(i as int), us.take(i as int))),
                    decreases n - i,
                {
                    proof {
                        let a = ms.take(i + 1);
                        let b = us.take(i + 1);
                        assert(a.take(i as int) =~= ms.take(i as int));
                        assert(b.take(i as int) =~= us.take(i as int));
                    }
                    let msg_record = messages[i].clone_record();
                    match &users[i] {
                        Some(u) => {
                            let user = User { id: u.id, username: u.username.clone() };
                            results.push(Self::from_data(msg_record, user));
                        },
                        None => {},
                    }
                    i = i + 1;
                }
                proof {
                    assert(listed(ms, us) == listed(ms.take(n as int), us.take(n as int))) by {
                        lemma_listed_prefix(ms, us, n as int);
                    }
                }
            }
        }
        results
    }
}

/// Every message whose author was found is listed, and nothing else, in stored order: the
/// listed pairs are the pairs `(msgs[i], author)` for the positions `i` below both lengths
/// where `users[i]` is `Some(author)`, in increasing `i`. The positions are returned.
pub proof fn lemma_listed_positions(msgs: Seq<MessageRecord>, users: Seq<Option<UserRecord>>) -> (idx: Seq<int>)
    ensures
        idx.len() == listed(msgs, users).len(),
        forall|k: int|
            0 <= k < idx.len() ==> {
                &&& 0 <= #[trigger] idx[k] < msgs.len()
                &&& idx[k] < users.len()
                &&& listed(msgs, users)[k].0 == msgs[idx[k]]
                &&& users[idx[k]] == Some(listed(msgs, users)[k].1)
            },
        forall|k: int, l: int| 0 <= k < l < idx.len() ==> idx[k] < idx[l],
        forall|i: int|
            0 <= i < msgs.len() && i < users.len() && (#[trigger] users[i]) is Some ==> exists|
                k: int,
            | 0 <= k < idx.len() && idx[k] == i,
    decreases msgs.len(),
{
    if msgs.len() == 0 || users.len() == 0 {
        Seq::<int>::empty()
    } else {
        let n = if msgs.len() < users.len() { msgs.len() } else { users.len() };
        let ms = msgs.take(n - 1);
        let us = users.take(n - 1);
        let prev = lemma_listed_positions(ms, us);
        let out = listed(msgs, users);
        assert(forall|i: int| 0 <= i < n - 1 ==> ms[i] == msgs[i] && us[i] == users[i]);
        match users[n - 1] {
            Some(u) => {
                let idx = prev.push(n - 1);
                assert(out == listed(ms, us).push((msgs[n - 1], u)));
                assert forall|i: int|
                    0 <= i < msgs.len() && i < users.len() && (#[trigger] users[i]) is Some implies exists|
                        k: int,
                    | 0 <= k < idx.len() && idx[k] == i by {
                    if i == n - 1 {
                        assert(idx[idx.len() - 1] == i);
                    } else {
                        assert(us[i] is Some);
                        let k = choose|k: int| 0 <= k < prev.len() && prev[k] == i;
                        assert(idx[k] == i);
                    }
                }
                assert forall|k: int| 0 <= k < idx.len() implies {
                    &&& 0 <= #[trigger] idx[k] < msgs.len()
                    &&& idx[k] < users.len()
                    &&& out[k].0 == msgs[idx[k]]
                    &&& users[idx[k]] == Some(out[k].1)
                } by {
                    if k < prev.len() {
                        assert(idx[k] == prev[k]);
                        assert(out[k] == listed(ms, us)[k]);
                    }
                }
                idx
            },
            None => {
                assert(out == listed(ms, us));
                assert forall|i: int|
                    0 <= i < msgs.len() && i < users.len() && (#[trigger] users[i]) is Some implies exists|
                        k: int,
                    | 0 <= k < prev.len() && prev[k] == i by {
                    assert(i != n - 1);
                    assert(us[i] is Some);
                }
                prev
            },
        }
    }
}

/// Reading a room lists every message whose author was found, with that author, in stored
/// order, and nothing else: the result's messages are those of the positions `i` (below
/// both lengths) where `users[i]` is `Some`, one each, in increasing `i`.
pub proof fn lemma_room_lists_every_authored_message(
    msgs: Seq<MessageRecord>,
    users: Seq<Option<UserRecord>>,
    out: Seq<Message>,
)
    requires
        messages_of(out, listed(msgs, users)),
    ensures
        exists|idx: Seq<int>|
            {
                &&& idx.len() == out.len()
                &&& forall|k: int, l: int| 0 <= k < l < idx.len() ==> idx[k] < idx[l]
                &&& forall|k: int|
                    0 <= k < idx.len() ==> {
                        &&& 0 <= #[trigger] idx[k] < msgs.len()
                        &&& idx[k] < users.len()
                        &&& users[idx[k]] is Some
                        &&& message_of(
                            out[k],
                            msgs[idx[k]],
                            User { id: users[idx[k]]->0.id, username: users[idx[k]]->0.username },
                        )
                    }
                &&& forall|i: int|
                    0 <= i < msgs.len() && i < users.len() && (#[trigger] users[i]) is Some
                        ==> exists|k: int| 0 <= k < idx.len() && idx[k] == i
            },
{
    let idx = lemma_listed_positions(msgs, users);
    let pairs = listed(msgs, users);
    assert forall|k: int| 0 <= k < idx.len() implies {
        &&& 0 <= #[trigger] idx[k] < msgs.len()
        &&& idx[k] < users.len()
        &&& users[idx[k]] is Some
        &&& message_of(
            out[k],
            msgs[idx[k]],
            User { id: users[idx[k]]->0.id, username: users[idx[k]]->0.username },
        )
    } by {
        assert(message_of(out[k], pairs[k].0, User { id: pairs[k].1.id, username: pairs[k].1.username }));
    }
}

/// Listing the messages only looks at the first `min(len)` of each list.
proof fn lemma_listed_prefix(ms: Seq<MessageRecord>, us: Seq<Option<UserRecord>>, n: int)
    requires
        n <= ms.len(),
        n <= us.len(),
        n == ms.len() || n == us.len(),
    ensures
        listed(ms, us) == listed(ms.take(n), us.take(n)),
{
    if n > 0 {
        let a = ms.take(n);
        let b = us.take(n);
        assert(a.take(n - 1) =~= ms.take(n - 1));
        assert(b.take(n - 1) =~= us.take(n - 1));
    } else {
        assert(ms.len() == 0 || us.len() == 0);
    }
}

impl MessageRecord {
    /// A copy of this record.
    fn clone_record(&self) -> (r: Self)
        ensures
            r == *self,
    {
        MessageRecord {
            id: self.id,
            content: self.content.clone(),
            user_id: self.user_id,
            room_id: self.room_id,
            created_at: Timestamp { secs: self.created_at.secs, nanos: self.created_at.nanos },
        }
    }
}

impl MessageForm {
    /// The row that stores this message, posted by `user`.
    pub fn new_record(&self, user: &User) -> (n: NewMessage)
        ensures
            n.content == self.content,
            n.user_id == user.id,
            n.room_id == self.room_id,
    {
        NewMessage { content: self.content.clone(), user_id: user.id, room_id: self.room_id }
    }

    /// The answer once the row was inserted: the stored message by `user`, or a 500 response.
    pub fn insert(&self, inserted: Result<MessageRecord, DbError>, user: &User) -> (r: Result<Message, ErrorResponder>)
        ensures
            match inserted {
                Ok(rc) => r matches Ok(m) && message_of(m, rc, *user),
                Err(_) => r matches Err(e) && is_went_wrong(e),
            },
    {
        match inserted {
            Ok(rc) => {
                let author = User { id: user.id, username: user.username.clone() };
                Ok(Message::from_data(rc, author))
            },
            Err(_) => Err(ErrorResponder::internal_error("Something went wrong!!!")),
        }
    }
}

/// What a listener's stream receives from the message queue.
pub enum ChannelEvent<T> {
    /// A message was broadcast.
    Received(T),
    /// The queue was closed.
    Closed,
    /// The listener fell behind and missed this many messages.
    Lagged(u64),
    /// The server is shutting down.
    Shutdown,
}

/// What the stream does next.
pub enum ChannelAction<T> {
    /// Sends the message as a server-sent event.
    Yield(T),
    /// Waits for the next event.
    Skip,
    /// Ends the stream.
    Stop,
}

/// The step of a stream of every broadcast message: send each message, skip over a lag,
/// stop when the queue closes or the server shuts down.
pub fn stream_step<T>(event: ChannelEvent<T>) -> (a: ChannelAction<T>)
    ensures
        match event {
            ChannelEvent::Received(m) => a == ChannelAction::Yield(m),
            ChannelEvent::Lagged(_) => a is Skip,
            _ => a is Stop,
        },
{
    match event {
        ChannelEvent::Received(m) => ChannelAction::Yield(m),
        ChannelEvent::Closed => ChannelAction::Stop,
        ChannelEvent::Lagged(_) => ChannelAction::Skip,
        ChannelEvent::Shutdown => ChannelAction::Stop,
    }
}

/// The room a `/chat/channel/<room_id>` stream listens to: the path's number as an `i32`.
pub fn channel_room(room_id: usize) -> (r: i32)
    ensures
        r == room_id as i32,
{
    room_id as i32
}

/// The step of a room's stream: like `stream_step`, but a message of another room is skipped.
pub fn channel_step(room_id: i32, event: ChannelEvent<Message>) -> (a: ChannelAction<Message>)
    ensures
        match event {
            ChannelEvent::Received(m) => if m.room_id == room_id {
                a == ChannelAction::Yield(m)
            } else {
                a is Skip
            },
            ChannelEvent::Lagged(_) => a is Skip,
            _ => a is Stop,
        },
{
    match event {
        ChannelEvent::Received(msg) => {
            if msg.room_id == room_id {
                ChannelAction::Yield(msg)
            } else {
                ChannelAction::Skip
            }
        },
        ChannelEvent::Closed => ChannelAction::Stop,
        ChannelEvent::Lagged(_) => ChannelAction::Skip,
        ChannelEvent::Shutdown => ChannelAction::Stop,
    }
}

} // verus!
