//! What holds of the operations taken together, stated over the tables and
//! the envelopes.

use vstd::prelude::*;
use crate::envelope::Envelope;
use crate::outcome::{LookupView, StatementError};
use crate::records::{RoomRow, UserRow};
use crate::response::{
    add_user_envelope, create_room_envelope, delete_user_envelope, enter_room_envelope,
    message_send_envelope, search_user_envelope,
};
use crate::statement::CommandView;
use crate::tables::Tables;
use crate::texts::{
    MESSAGE_SENT, NO_USER_TO_DELETE, ROOM_CREATED, ROOM_ENTERED, USER_ADDED, USER_FOUND,
};

verus! {

/// `shorter` is how `longer` began.
pub open spec fn is_prefix<A>(shorter: Seq<A>, longer: Seq<A>) -> bool {
    shorter.len() <= longer.len() && longer.take(shorter.len() as int) == shorter
}

/// A room kept its identity and lost neither a user nor a message.
pub open spec fn room_grew(before: RoomRow, after: RoomRow) -> bool {
    &&& after.id == before.id
    &&& after.name == before.name
    &&& after.password == before.password
    &&& is_prefix(before.user_list, after.user_list)
    &&& before.message matches Some(sent) ==> after.message matches Some(kept) && is_prefix(
        sent,
        kept,
    )
}

/// A user registered under an id that was free is found by that id, alone
/// and as registered.
pub proof fn lemma_added_user_is_found(tables: Tables, user: UserRow)
    requires
        tables.wf(),
        !tables.has_user(user.id),
    ensures
        add_user_envelope(tables.answer(CommandView::InsertUser { row: user })) == (Envelope {
            message: USER_ADDED@,
            data: Some(true),
        }),
        tables.after(CommandView::InsertUser { row: user }).users_with_id(user.id) == seq![user],
        search_user_envelope(
            Ok(tables.after(CommandView::InsertUser { row: user }).users_with_id(user.id)),
        ) == (Envelope { message: USER_FOUND@, data: Some(seq![user]) }),
{
    let after = tables.after(CommandView::InsertUser { row: user });
    tables.lemma_after_wf(CommandView::InsertUser { row: user });
    let k = tables.users.len() as int;
    assert(after.users[k] == user);
    after.lemma_user_by_id(k);
}

/// A deletion removes the users that carry all three credentials and keeps
/// every other user.
pub proof fn lemma_delete_needs_all_credentials(
    tables: Tables,
    id: u64,
    name: Seq<char>,
    password: Seq<char>,
)
    requires
        tables.wf(),
    ensures
        forall|row: UserRow|
            tables.after(CommandView::DeleteUser { id, name, password }).users.contains(row) <==> (
            tables.users.contains(row) && !row.has_credentials(id, name, password)),
        tables.after(CommandView::DeleteUser { id, name, password }).rooms == tables.rooms,
{
    let pred = |row: UserRow| !row.has_credentials(id, name, password);
    let kept = tables.users.filter(pred);
    assert forall|row: UserRow| kept.contains(row) <==> (tables.users.contains(row)
        && !row.has_credentials(id, name, password)) by {
        if kept.contains(row) {
            tables.users.lemma_filter_contains_rev(pred, row);
            let i = choose|i: int| 0 <= i < kept.len() && kept[i] == row;
            tables.users.lemma_filter_pred(pred, i);
        }
        if tables.users.contains(row) && pred(row) {
            let i = choose|i: int| 0 <= i < tables.users.len() && tables.users[i] == row;
            tables.users.lemma_filter_contains(pred, i);
        }
    }
}

/// A deletion with credentials that no user carries in full (a right id
/// with a wrong name or a wrong password, say) removes nothing and reports
/// 0.
pub proof fn lemma_delete_with_wrong_credentials(
    tables: Tables,
    id: u64,
    name: Seq<char>,
    password: Seq<char>,
)
    requires
        tables.wf(),
        forall|i: int|
            0 <= i < tables.users.len() ==> !(#[trigger] tables.users[i]).has_credentials(
                id,
                name,
                password,
            ),
    ensures
        tables.after(CommandView::DeleteUser { id, name, password }) == tables,
        delete_user_envelope(tables.answer(CommandView::DeleteUser { id, name, password })) == (
        Envelope { message: NO_USER_TO_DELETE@, data: Some(0u64) }),
{
    tables.lemma_credentials_select_none(id, name, password);
}

/// A new room gets the next id in the table's own count, which no field of
/// a request enters, and starts with no user and no message list. Every room
/// that was there stays as it was.
pub proof fn lemma_created_room(tables: Tables, name: Seq<char>, password: Seq<char>)
    requires
        tables.wf(),
        tables.rooms.len() < i32::MAX,
    ensures
        create_room_envelope(tables.answer(CommandView::InsertRoom { name, password })) == (
        Envelope { message: ROOM_CREATED@, data: Some(true) }),
        tables.after(CommandView::InsertRoom { name, password }).users == tables.users,
        tables.after(CommandView::InsertRoom { name, password }).rooms == tables.rooms.push(
            RoomRow {
                id: (tables.rooms.len() + 1) as i32,
                name,
                password,
                message: None,
                user_list: Seq::empty(),
            },
        ),
        tables.after(CommandView::InsertRoom { name, password }).lookup_messages(
            (tables.rooms.len() + 1) as i32,
        ) == LookupView::Unset,
{
    let command = CommandView::InsertRoom { name, password };
    tables.lemma_after_wf(command);
    tables.after(command).lemma_room_by_id((tables.rooms.len() + 1) as i32);
}

/// Entering appends the user to each room that carries all three
/// credentials and leaves every other room as it was. The answer is the
/// same whether or not a room matched.
pub proof fn lemma_enter_room_needs_all_credentials(
    tables: Tables,
    user_id: u64,
    room_id: i32,
    name: Seq<char>,
    password: Seq<char>,
)
    requires
        tables.wf(),
    ensures
        tables.after(CommandView::EnterRoom { user_id, room_id, name, password }).users
            == tables.users,
        tables.after(CommandView::EnterRoom { user_id, room_id, name, password }).rooms.len()
            == tables.rooms.len(),
        forall|i: int|
            0 <= i < tables.rooms.len() ==> (#[trigger] tables.after(
                CommandView::EnterRoom { user_id, room_id, name, password },
            ).rooms[i]) == if tables.rooms[i].has_credentials(room_id, name, password) {
                tables.rooms[i].with_user(user_id)
            } else {
                tables.rooms[i]
            },
        enter_room_envelope(
            tables.answer(CommandView::EnterRoom { user_id, room_id, name, password }),
        ) == (Envelope { message: ROOM_ENTERED@, data: Some(true) }),
{
}

/// Entering with credentials that no room carries in full (a right id with
/// a wrong password, say) changes nothing, and is still answered as done.
pub proof fn lemma_enter_room_with_wrong_credentials(
    tables: Tables,
    user_id: u64,
    room_id: i32,
    name: Seq<char>,
    password: Seq<char>,
)
    requires
        tables.wf(),
        forall|i: int|
            0 <= i < tables.rooms.len() ==> !(#[trigger] tables.rooms[i]).has_credentials(
                room_id,
                name,
                password,
            ),
    ensures
        tables.after(CommandView::EnterRoom { user_id, room_id, name, password }) == tables,
        enter_room_envelope(
            tables.answer(CommandView::EnterRoom { user_id, room_id, name, password }),
        ) == (Envelope { message: ROOM_ENTERED@, data: Some(true) }),
{
    let after = tables.after(CommandView::EnterRoom { user_id, room_id, name, password });
    assert(after.rooms =~= tables.rooms);
}

/// A message for a room that exists is appended whatever the room's name
/// and password are: the id alone decides. Afterwards the room's messages
/// are those it had, followed by the new one.
pub proof fn lemma_message_send_by_id_alone(tables: Tables, text: Seq<char>, room_id: i32)
    requires
        tables.wf(),
        1 <= room_id <= tables.rooms.len(),
    ensures
        tables.answer(CommandView::AppendMessage { text, room_id }) == Ok::<u64, StatementError>(1),
        message_send_envelope(tables.answer(CommandView::AppendMessage { text, room_id })) == (
        Envelope { message: MESSAGE_SENT@, data: Some(true) }),
        tables.after(CommandView::AppendMessage { text, room_id }).rooms == tables.rooms.update(
            room_id - 1,
            tables.rooms[room_id - 1].with_message(text),
        ),
        tables.after(CommandView::AppendMessage { text, room_id }).lookup_messages(room_id)
            == LookupView::Found(
            match tables.rooms[room_id - 1].message {
                Some(sent) => sent.push(text),
                None => seq![text],
            },
        ),
{
    let command = CommandView::AppendMessage { text, room_id };
    tables.lemma_room_by_id(room_id);
    tables.lemma_append_message(text, room_id);
    tables.lemma_after_wf(command);
    tables.after(command).lemma_room_by_id(room_id);
}

/// No statement removes a room, a user from a room or a message from a
/// room: each room keeps what it had and may have gained at its end.
pub proof fn lemma_rooms_only_grow(tables: Tables, command: CommandView)
    requires
        tables.wf(),
    ensures
        tables.rooms.len() <= tables.after(command).rooms.len(),
        forall|i: int|
            0 <= i < tables.rooms.len() ==> room_grew(
                tables.rooms[i],
                #[trigger] tables.after(command).rooms[i],
            ),
{
    let after = tables.after(command);
    assert forall|i: int| 0 <= i < tables.rooms.len() implies room_grew(
        tables.rooms[i],
        #[trigger] after.rooms[i],
    ) by {
        let before = tables.rooms[i];
        let now = after.rooms[i];
        assert(now.user_list.take(before.user_list.len() as int) =~= before.user_list);
        if before.message is Some {
            let sent = before.message->Some_0;
            assert(now.message is Some);
            assert(now.message->Some_0.take(sent.len() as int) =~= sent);
        }
    }
}

} // verus!
