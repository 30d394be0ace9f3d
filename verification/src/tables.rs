//! The two tables as plain sequences of rows, and what each statement makes
//! of them.

use vstd::prelude::*;
use crate::outcome::{LookupView, StatementError};
use crate::records::{RoomRow, UserRow};
use crate::seq_facts::{lemma_filter_all, lemma_filter_all_but, lemma_filter_none, lemma_filter_only};
use crate::statement::CommandView;

verus! {

/// The stored rows, each table in the order in which its rows were inserted.
pub struct Tables {
    pub users: Seq<UserRow>,
    pub rooms: Seq<RoomRow>,
}

impl Tables {
    /// No user and no room.
    pub open spec fn empty() -> Tables {
        Tables { users: Seq::empty(), rooms: Seq::empty() }
    }

    /// An id names at most one user, and the rooms carry the ids 1, 2, 3, ...
    /// in the order of their creation.
    pub open spec fn wf(self) -> bool {
        &&& forall|i: int, j: int|
            #![trigger self.users[i], self.users[j]]
            0 <= i < j < self.users.len() ==> self.users[i].id != self.users[j].id
        &&& self.rooms.len() <= i32::MAX
        &&& forall|i: int| 0 <= i < self.rooms.len() ==> (#[trigger] self.rooms[i]).id == i + 1
    }

    /// Some user has the id.
    pub open spec fn has_user(self, id: u64) -> bool {
        exists|i: int| 0 <= i < self.users.len() && (#[trigger] self.users[i]).id == id
    }

    /// The users with the id.
    pub open spec fn users_with_id(self, id: u64) -> Seq<UserRow> {
        self.users.filter(|row: UserRow| row.id == id)
    }

    /// The users that carry all three credentials.
    pub open spec fn users_with_credentials(
        self,
        id: u64,
        name: Seq<char>,
        password: Seq<char>,
    ) -> Seq<UserRow> {
        self.users.filter(|row: UserRow| row.has_credentials(id, name, password))
    }

    /// The users that differ in at least one of the three credentials.
    pub open spec fn users_without_credentials(
        self,
        id: u64,
        name: Seq<char>,
        password: Seq<char>,
    ) -> Seq<UserRow> {
        self.users.filter(|row: UserRow| !row.has_credentials(id, name, password))
    }

    /// The rooms with the id.
    pub open spec fn rooms_with_id(self, room_id: i32) -> Seq<RoomRow> {
        self.rooms.filter(|row: RoomRow| row.id == room_id)
    }

    /// The rooms that carry all three credentials.
    pub open spec fn rooms_with_credentials(
        self,
        room_id: i32,
        name: Seq<char>,
        password: Seq<char>,
    ) -> Seq<RoomRow> {
        self.rooms.filter(|row: RoomRow| row.has_credentials(room_id, name, password))
    }

    /// The room that the next creation adds.
    pub open spec fn fresh_room(self, name: Seq<char>, password: Seq<char>) -> RoomRow {
        RoomRow {
            id: (self.rooms.len() + 1) as i32,
            name,
            password,
            message: None,
            user_list: Seq::empty(),
        }
    }

    /// What reading the messages of the room with the id gives: the first
    /// matching row decides.
    pub open spec fn lookup_messages(self, room_id: i32) -> LookupView {
        let rows = self.rooms_with_id(room_id);
        if rows.len() == 0 {
            LookupView::NoRoom
        } else {
            match rows[0].message {
                Some(texts) => LookupView::Found(texts),
                None => LookupView::Unset,
            }
        }
    }

    /// The tables after a statement ran. A statement that fails leaves them
    /// as they were.
    pub open spec fn after(self, command: CommandView) -> Tables {
        match command {
            CommandView::InsertUser { row } => if self.has_user(row.id) {
                self
            } else {
                Tables { users: self.users.push(row), ..self }
            },
            CommandView::DeleteUser { id, name, password } => Tables {
                users: self.users_without_credentials(id, name, password),
                ..self
            },
            CommandView::InsertRoom { name, password } => if self.rooms.len() < i32::MAX {
                Tables { rooms: self.rooms.push(self.fresh_room(name, password)), ..self }
            } else {
                self
            },
            CommandView::EnterRoom { user_id, room_id, name, password } => Tables {
                rooms: self.rooms.map_values(
                    |row: RoomRow|
                        if row.has_credentials(room_id, name, password) {
                            row.with_user(user_id)
                        } else {
                            row
                        },
                ),
                ..self
            },
            CommandView::AppendMessage { text, room_id } => Tables {
                rooms: self.rooms.map_values(
                    |row: RoomRow|
                        if row.id == room_id {
                            row.with_message(text)
                        } else {
                            row
                        },
                ),
                ..self
            },
        }
    }

    /// What a statement reports: the number of rows it inserted, deleted or
    /// updated, or why it failed.
    pub open spec fn answer(self, command: CommandView) -> Result<u64, StatementError> {
        match command {
            CommandView::InsertUser { row } => if self.has_user(row.id) {
                Err(StatementError::DuplicateKey)
            } else {
                Ok(1)
            },
            CommandView::DeleteUser { id, name, password } => Ok(
                self.users_with_credentials(id, name, password).len() as u64,
            ),
            CommandView::InsertRoom { name, password } => if self.rooms.len() < i32::MAX {
                Ok(1)
            } else {
                Err(StatementError::OutOfIds)
            },
            CommandView::EnterRoom { user_id, room_id, name, password } => Ok(
                self.rooms_with_credentials(room_id, name, password).len() as u64,
            ),
            CommandView::AppendMessage { text, room_id } => Ok(
                self.rooms_with_id(room_id).len() as u64,
            ),
        }
    }
}

impl Tables {
    /// The position of the room with the id, where there is one.
    pub open spec fn room_position(self, room_id: i32) -> Option<int> {
        if 1 <= room_id <= self.rooms.len() {
            Some(room_id - 1)
        } else {
            None
        }
    }

    /// An id finds the one user that has it.
    pub proof fn lemma_user_by_id(self, k: int)
        requires
            self.wf(),
            0 <= k < self.users.len(),
        ensures
            self.users_with_id(self.users[k].id) == seq![self.users[k]],
    {
        let id = self.users[k].id;
        lemma_filter_only(self.users, |row: UserRow| row.id == id, k);
    }

    /// An id that no user has finds nothing.
    pub proof fn lemma_no_user_by_id(self, id: u64)
        requires
            !self.has_user(id),
        ensures
            self.users_with_id(id) == Seq::<UserRow>::empty(),
    {
        lemma_filter_none(self.users, |row: UserRow| row.id == id);
    }

    /// Credentials that the user at `k` carries select that user alone.
    pub proof fn lemma_credentials_select(
        self,
        k: int,
        id: u64,
        name: Seq<char>,
        password: Seq<char>,
    )
        requires
            self.wf(),
            0 <= k < self.users.len(),
            self.users[k].has_credentials(id, name, password),
        ensures
            self.users_with_credentials(id, name, password) == seq![self.users[k]],
            self.users_without_credentials(id, name, password) == self.users.remove(k),
    {
        lemma_filter_only(self.users, |row: UserRow| row.has_credentials(id, name, password), k);
        lemma_filter_all_but(
            self.users,
            |row: UserRow| !row.has_credentials(id, name, password),
            k,
        );
    }

    /// Credentials that no user carries select nobody.
    pub proof fn lemma_credentials_select_none(self, id: u64, name: Seq<char>, password: Seq<char>)
        requires
            forall|i: int|
                0 <= i < self.users.len() ==> !(#[trigger] self.users[i]).has_credentials(
                    id,
                    name,
                    password,
                ),
        ensures
            self.users_with_credentials(id, name, password) == Seq::<UserRow>::empty(),
            self.users_without_credentials(id, name, password) == self.users,
    {
        lemma_filter_none(self.users, |row: UserRow| row.has_credentials(id, name, password));
        lemma_filter_all(self.users, |row: UserRow| !row.has_credentials(id, name, password));
    }

    /// Given credentials select one user or none.
    pub proof fn lemma_credentials_select_at_most_one(
        self,
        id: u64,
        name: Seq<char>,
        password: Seq<char>,
    )
        requires
            self.wf(),
        ensures
            self.users_with_credentials(id, name, password).len() <= 1,
            self.users_with_credentials(id, name, password).len()
                + self.users_without_credentials(id, name, password).len() == self.users.len(),
    {
        if exists|k: int|
            0 <= k < self.users.len() && (#[trigger] self.users[k]).has_credentials(
                id,
                name,
                password,
            ) {
            let k = choose|k: int|
                0 <= k < self.users.len() && (#[trigger] self.users[k]).has_credentials(
                    id,
                    name,
                    password,
                );
            self.lemma_credentials_select(k, id, name, password);
        } else {
            self.lemma_credentials_select_none(id, name, password);
        }
    }

    /// A room's id gives its position: the rooms with an id are the one at
    /// that position, or none.
    pub proof fn lemma_room_by_id(self, room_id: i32)
        requires
            self.wf(),
        ensures
            self.rooms_with_id(room_id) == match self.room_position(room_id) {
                Some(k) => seq![self.rooms[k]],
                None => Seq::<RoomRow>::empty(),
            },
    {
        let pred = |row: RoomRow| row.id == room_id;
        match self.room_position(room_id) {
            Some(k) => {
                lemma_filter_only(self.rooms, pred, k);
            },
            None => {
                lemma_filter_none(self.rooms, pred);
            },
        }
    }

    /// The rooms with given credentials are the one at the id's position, if
    /// its name and password agree, or none.
    pub proof fn lemma_room_by_credentials(
        self,
        room_id: i32,
        name: Seq<char>,
        password: Seq<char>,
    )
        requires
            self.wf(),
        ensures
            self.rooms_with_credentials(room_id, name, password) == match self.room_position(
                room_id,
            ) {
                Some(k) => if self.rooms[k].has_credentials(room_id, name, password) {
                    seq![self.rooms[k]]
                } else {
                    Seq::<RoomRow>::empty()
                },
                None => Seq::<RoomRow>::empty(),
            },
    {
        let pred = |row: RoomRow| row.has_credentials(room_id, name, password);
        match self.room_position(room_id) {
            Some(k) => {
                if self.rooms[k].has_credentials(room_id, name, password) {
                    lemma_filter_only(self.rooms, pred, k);
                } else {
                    lemma_filter_none(self.rooms, pred);
                }
            },
            None => {
                lemma_filter_none(self.rooms, pred);
            },
        }
    }

    /// Entering changes the room at the id's position, if its name and
    /// password agree, and no other.
    pub proof fn lemma_enter_room(
        self,
        user_id: u64,
        room_id: i32,
        name: Seq<char>,
        password: Seq<char>,
    )
        requires
            self.wf(),
        ensures
            self.after(CommandView::EnterRoom { user_id, room_id, name, password }).users
                == self.users,
            self.after(CommandView::EnterRoom { user_id, room_id, name, password }).rooms
                == match self.room_position(room_id) {
                Some(k) => if self.rooms[k].has_credentials(room_id, name, password) {
                    self.rooms.update(k, self.rooms[k].with_user(user_id))
                } else {
                    self.rooms
                },
                None => self.rooms,
            },
    {
        let changed = self.after(CommandView::EnterRoom { user_id, room_id, name, password }).rooms;
        match self.room_position(room_id) {
            Some(k) => {
                if self.rooms[k].has_credentials(room_id, name, password) {
                    assert(changed =~= self.rooms.update(k, self.rooms[k].with_user(user_id)));
                } else {
                    assert(changed =~= self.rooms);
                }
            },
            None => {
                assert(changed =~= self.rooms);
            },
        }
    }

    /// A message changes the room at the id's position and no other.
    pub proof fn lemma_append_message(self, text: Seq<char>, room_id: i32)
        requires
            self.wf(),
        ensures
            self.after(CommandView::AppendMessage { text, room_id }).users == self.users,
            self.after(CommandView::AppendMessage { text, room_id }).rooms
                == match self.room_position(room_id) {
                Some(k) => self.rooms.update(k, self.rooms[k].with_message(text)),
                None => self.rooms,
            },
    {
        let changed = self.after(CommandView::AppendMessage { text, room_id }).rooms;
        match self.room_position(room_id) {
            Some(k) => {
                assert(changed =~= self.rooms.update(k, self.rooms[k].with_message(text)));
            },
            None => {
                assert(changed =~= self.rooms);
            },
        }
    }

    /// No statement breaks the tables' invariant.
    pub proof fn lemma_after_wf(self, command: CommandView)
        requires
            self.wf(),
        ensures
            self.after(command).wf(),
    {
        match command {
            CommandView::InsertUser { row } => {},
            CommandView::DeleteUser { id, name, password } => {
                if exists|k: int|
                    0 <= k < self.users.len() && (#[trigger] self.users[k]).has_credentials(
                        id,
                        name,
                        password,
                    ) {
                    let k = choose|k: int|
                        0 <= k < self.users.len() && (#[trigger] self.users[k]).has_credentials(
                            id,
                            name,
                            password,
                        );
                    self.lemma_credentials_select(k, id, name, password);
                } else {
                    self.lemma_credentials_select_none(id, name, password);
                }
            },
            CommandView::InsertRoom { name, password } => {},
            CommandView::EnterRoom { user_id, room_id, name, password } => {
                self.lemma_enter_room(user_id, room_id, name, password);
            },
            CommandView::AppendMessage { text, room_id } => {
                self.lemma_append_message(text, room_id);
            },
        }
    }
}


} // verus!
