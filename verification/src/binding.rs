//! From a decoded request to the one statement that serves it.

use vstd::prelude::*;
use crate::records::User;
use crate::requests::{EnterRoom, Message, Search};
use crate::statement::{Command, CommandView, MessageQuery, UserQuery};

verus! {

/// Registering inserts the user as given, under the id that came with it.
pub fn add_user_command(user: User) -> (command: Command)
    ensures
        command@ == (CommandView::InsertUser { row: user@ }),
{
    Command::InsertUser { id: user.id, name: user.name, password: user.password }
}

/// A search asks by the id alone.
pub fn search_user_query(search: &Search) -> (query: UserQuery)
    ensures
        query.id == search.id,
{
    UserQuery { id: search.id }
}

/// Deleting asks for all three credentials at once.
pub fn delete_user_command(user: User) -> (command: Command)
    ensures
        command@ == (CommandView::DeleteUser {
            id: user.id,
            name: user.name@,
            password: user.password@,
        }),
{
    Command::DeleteUser { id: user.id, name: user.name, password: user.password }
}

/// Creating a room stores its name and password. The room id and the user id
/// of the request play no part.
pub fn create_room_command(room: EnterRoom) -> (command: Command)
    ensures
        command@ == (CommandView::InsertRoom { name: room.room_name@, password: room.password@ }),
{
    Command::InsertRoom { name: room.room_name, password: room.password }
}

/// Entering appends the user to the room that carries the id, the name and
/// the password of the request.
pub fn enter_room_command(room: EnterRoom) -> (command: Command)
    ensures
        command@ == (CommandView::EnterRoom {
            user_id: room.user_id,
            room_id: room.room_id,
            name: room.room_name@,
            password: room.password@,
        }),
{
    Command::EnterRoom {
        user_id: room.user_id,
        room_id: room.room_id,
        name: room.room_name,
        password: room.password,
    }
}

/// Reading messages asks by the room's id.
pub fn message_get_query(room_id: i32) -> (query: MessageQuery)
    ensures
        query.room_id == room_id,
{
    MessageQuery { room_id }
}

/// Sending appends the text to the room with the id. No credential is asked
/// for.
pub fn message_send_command(message: Message) -> (command: Command)
    ensures
        command@ == (CommandView::AppendMessage { text: message.text@, room_id: message.room_id }),
{
    Command::AppendMessage { text: message.text, room_id: message.room_id }
}

} // verus!
