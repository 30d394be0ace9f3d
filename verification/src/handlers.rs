//! The seven operations on the tables held in memory: each runs its one
//! statement and answers with an envelope.

use vstd::prelude::*;
use crate::binding::{
    add_user_command, create_room_command, delete_user_command, enter_room_command,
    message_get_query, message_send_command, search_user_query,
};
use crate::envelope::{Envelope, SqlResult};
use crate::records::User;
use crate::requests::{EnterRoom, Message, Search};
use crate::response::{
    add_user_response, create_room_response, delete_user_response, enter_room_response,
    message_get_response, message_send_response, search_user_response,
};
use crate::statement::CommandView;
use crate::store::Database;
use crate::texts::{
    MESSAGES_READ, MESSAGE_SENT, NO_USER_TO_DELETE, ROOM_CREATED, ROOM_ENTERED, ROOM_NOT_CREATED,
    USER_ADDED, USER_DELETED, USER_FOUND, USER_NOT_FOUND,
};

verus! {

/// Registers a user. An id that is taken leaves the tables as they were and
/// is answered with an empty text and `false`.
pub fn add_user(db: &mut Database, user: User) -> (res: SqlResult<bool>)
    requires
        old(db).wf(),
    ensures
        final(db).wf(),
        final(db)@ == old(db)@.after(CommandView::InsertUser { row: user@ }),
        final(db)@.rooms == old(db)@.rooms,
        old(db)@.has_user(user.id) ==> final(db)@ == old(db)@ && res@ == (Envelope {
            message: Seq::<char>::empty(),
            data: Some(false),
        }),
        !old(db)@.has_user(user.id) ==> final(db)@.users == old(db)@.users.push(user@) && res@ == (
        Envelope { message: USER_ADDED@, data: Some(true) }),
{
    let result = db.execute(add_user_command(user));
    add_user_response(result)
}

/// Finds the users with an id. Where there is none, the answer says so and
/// carries an empty list.
pub fn search_user(db: &Database, search: Search) -> (res: SqlResult<Vec<User>>)
    ensures
        res@ == (if db@.users_with_id(search.id).len() > 0 {
            Envelope { message: USER_FOUND@, data: Some(db@.users_with_id(search.id)) }
        } else {
            Envelope { message: USER_NOT_FOUND@, data: Some(Seq::empty()) }
        }),
{
    let rows = db.fetch_users(&search_user_query(&search));
    search_user_response(Ok(rows))
}

/// Deletes the users that carry the id, the name and the password of the
/// request, all three at once, and reports how many there were.
pub fn delete_user(db: &mut Database, user: User) -> (res: SqlResult<u64>)
    requires
        old(db).wf(),
    ensures
        final(db).wf(),
        final(db)@ == old(db)@.after(
            CommandView::DeleteUser { id: user.id, name: user.name@, password: user.password@ },
        ),
        final(db)@.rooms == old(db)@.rooms,
        final(db)@.users == old(db)@.users_without_credentials(
            user.id,
            user.name@,
            user.password@,
        ),
        res@.data matches Some(count) && count == old(db)@.users_with_credentials(
            user.id,
            user.name@,
            user.password@,
        ).len() && res@.message == if count > 0 {
            USER_DELETED@
        } else {
            NO_USER_TO_DELETE@
        },
{
    proof {
        db@.lemma_credentials_select_at_most_one(user.id, user.name@, user.password@);
    }
    let result = db.execute(delete_user_command(user));
    delete_user_response(result)
}

/// Creates a room from the name and the password of the request. The room's
/// id is the next in the table's own count, whatever ids the request names.
pub fn create_room(db: &mut Database, room: EnterRoom) -> (res: SqlResult<bool>)
    requires
        old(db).wf(),
    ensures
        final(db).wf(),
        final(db)@ == old(db)@.after(
            CommandView::InsertRoom { name: room.room_name@, password: room.password@ },
        ),
        final(db)@.users == old(db)@.users,
        old(db)@.rooms.len() < i32::MAX ==> final(db)@.rooms == old(db)@.rooms.push(
            old(db)@.fresh_room(room.room_name@, room.password@),
        ) && res@ == (Envelope { message: ROOM_CREATED@, data: Some(true) }),
        old(db)@.rooms.len() >= i32::MAX ==> final(db)@ == old(db)@ && res@ == (Envelope {
            message: ROOM_NOT_CREATED@,
            data: Some(false),
        }),
{
    let result = db.execute(create_room_command(room));
    create_room_response(result)
}

/// Lets a user enter the room that carries the id, the name and the
/// password of the request. Where no room does, nothing changes; the answer
/// is the same in both cases.
pub fn enter_room(db: &mut Database, room: EnterRoom) -> (res: SqlResult<bool>)
    requires
        old(db).wf(),
    ensures
        final(db).wf(),
        final(db)@ == old(db)@.after(
            CommandView::EnterRoom {
                user_id: room.user_id,
                room_id: room.room_id,
                name: room.room_name@,
                password: room.password@,
            },
        ),
        res@ == (Envelope { message: ROOM_ENTERED@, data: Some(true) }),
{
    let result = db.execute(enter_room_command(room));
    enter_room_response(result)
}

/// Reads the messages of a room. The room must be there and must have
/// received a message before.
pub fn message_get(db: &Database, room_id: i32) -> (res: SqlResult<Vec<String>>)
    requires
        db.wf(),
        db@.lookup_messages(room_id) is Found,
    ensures
        res@ == (Envelope {
            message: MESSAGES_READ@,
            data: Some(db@.lookup_messages(room_id)->Found_0),
        }),
{
    let lookup = db.fetch_messages(&message_get_query(room_id));
    message_get_response(Ok(lookup))
}

/// Appends a text to the room with the id of the request, without asking
/// for a credential. Where no room has the id, nothing changes; the answer
/// is the same in both cases.
pub fn message_send(db: &mut Database, message: Message) -> (res: SqlResult<bool>)
    requires
        old(db).wf(),
    ensures
        final(db).wf(),
        final(db)@ == old(db)@.after(
            CommandView::AppendMessage { text: message.text@, room_id: message.room_id },
        ),
        res@ == (Envelope { message: MESSAGE_SENT@, data: Some(true) }),
{
    let result = db.execute(message_send_command(message));
    message_send_response(result)
}

} // verus!
