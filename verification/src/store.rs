//! The tables held in memory.

use vstd::prelude::*;
use crate::outcome::{MessageLookup, StatementError};
use crate::records::{copy_texts, ChatRoom, User, UserRow};
use crate::seq_facts::{lemma_filter_none, lemma_filter_push};
use crate::statement::{Command, CommandView, MessageQuery, UserQuery};
use crate::tables::Tables;

verus! {

/// The user table and the room table, each in the order of insertion.
pub struct Database {
    users: Vec<User>,
    rooms: Vec<ChatRoom>,
}

impl View for Database {
    type V = Tables;

    closed spec fn view(&self) -> Tables {
        Tables { users: self.users.deep_view(), rooms: self.rooms.deep_view() }
    }
}

impl Database {
    /// The tables keep their invariant.
    pub open spec fn wf(&self) -> bool {
        self@.wf()
    }

    /// Two empty tables.
    pub fn new() -> (db: Database)
        ensures
            db.wf(),
            db@ == Tables::empty(),
    {
        let db = Database { users: Vec::new(), rooms: Vec::new() };
        assert(db@.users =~= Seq::empty());
        assert(db@.rooms =~= Seq::empty());
        db
    }

    /// The position of the user with the id.
    fn find_user(&self, id: u64) -> (found: Option<usize>)
        ensures
            match found {
                Some(k) => k < self@.users.len() && self@.users[k as int].id == id,
                None => !self@.has_user(id),
            },
    {
        let mut i: usize = 0;
        while i < self.users.len()
            invariant
                i <= self.users.len(),
                forall|j: int| 0 <= j < i ==> self.users[j].id != id,
            decreases self.users.len() - i,
        {
            if self.users[i].id == id {
                return Some(i);
            }
            i += 1;
        }
        None
    }

    /// Runs a query for users: every user with the id, in table order.
    pub fn fetch_users(&self, query: &UserQuery) -> (rows: Vec<User>)
        ensures
            rows.deep_view() == self@.users_with_id(query.id),
    {
        let id = query.id;
        let ghost all = self.users.deep_view();
        let ghost pred = |row: UserRow| row.id == id;
        let mut rows: Vec<User> = Vec::new();
        let mut i: usize = 0;
        proof {
            assert(all.take(0) =~= Seq::empty());
            lemma_filter_none(all.take(0), pred);
            assert(rows.deep_view() =~= Seq::empty());
        }
        while i < self.users.len()
            invariant
                i <= self.users.len(),
                all == self.users.deep_view(),
                pred == |row: UserRow| row.id == id,
                rows.deep_view() == all.take(i as int).filter(pred),
            decreases self.users.len() - i,
        {
            let ghost before = rows.deep_view();
            proof {
                lemma_filter_push(all.take(i as int), all[i as int], pred);
                assert(all.take(i as int).push(all[i as int]) =~= all.take(i + 1));
            }
            if self.users[i].id == id {
                rows.push(self.users[i].clone());
                assert(rows.deep_view() =~= before.push(all[i as int]));
            }
            i += 1;
        }
        assert(all.take(i as int) =~= all);
        rows
    }

    /// Runs a query for messages: those of the room with the id.
    pub fn fetch_messages(&self, query: &MessageQuery) -> (lookup: MessageLookup)
        requires
            self.wf(),
        ensures
            lookup@ == self@.lookup_messages(query.room_id),
    {
        let room_id = query.room_id;
        proof {
            self@.lemma_room_by_id(room_id);
        }
        if 1 <= room_id && room_id as usize <= self.rooms.len() {
            let room = &self.rooms[(room_id - 1) as usize];
            match &room.message {
                Some(texts) => MessageLookup::Found(copy_texts(texts)),
                None => MessageLookup::Unset,
            }
        } else {
            MessageLookup::NoRoom
        }
    }

    /// Runs a changing statement. The tables change as `Tables::after`
    /// says, and the answer is the one that `Tables::answer` gives.
    pub fn execute(&mut self, command: Command) -> (res: Result<u64, StatementError>)
        requires
            old(self).wf(),
        ensures
            final(self).wf(),
            final(self)@ == old(self)@.after(command@),
            res == old(self)@.answer(command@),
    {
        proof {
            self@.lemma_after_wf(command@);
        }
        match command {
            Command::InsertUser { id, name, password } => self.insert_user(id, name, password),
            Command::DeleteUser { id, name, password } => self.delete_user(id, name, password),
            Command::InsertRoom { name, password } => self.insert_room(name, password),
            Command::EnterRoom { user_id, room_id, name, password } => self.enter_room(
                user_id,
                room_id,
                name,
                password,
            ),
            Command::AppendMessage { text, room_id } => self.append_message(text, room_id),
        }
    }

    fn insert_user(&mut self, id: u64, name: String, password: String) -> (res: Result<
        u64,
        StatementError,
    >)
        ensures
            final(self)@ == old(self)@.after(
                CommandView::InsertUser { row: UserRow { id, name: name@, password: password@ } },
            ),
            res == old(self)@.answer(
                CommandView::InsertUser { row: UserRow { id, name: name@, password: password@ } },
            ),
    {
        match self.find_user(id) {
            Some(_) => Err(StatementError::DuplicateKey),
            None => {
                let ghost row = UserRow { id, name: name@, password: password@ };
                self.users.push(User { id, name, password });
                assert(self@.users =~= old(self)@.users.push(row));
                assert(self@.rooms =~= old(self)@.rooms);
                Ok(1)
            },
        }
    }

    fn delete_user(&mut self, id: u64, name: String, password: String) -> (res: Result<
        u64,
        StatementError,
    >)
        requires
            old(self).wf(),
        ensures
            final(self)@ == old(self)@.after(
                CommandView::DeleteUser { id, name: name@, password: password@ },
            ),
            res == old(self)@.answer(
                CommandView::DeleteUser { id, name: name@, password: password@ },
            ),
    {
        match self.find_user(id) {
            Some(k) => {
                if self.users[k].has_credentials(id, &name, &password) {
                    proof {
                        self@.lemma_credentials_select(k as int, id, name@, password@);
                    }
                    self.users.remove(k);
                    assert(self@.users =~= old(self)@.users.remove(k as int));
                    assert(self@.rooms =~= old(self)@.rooms);
                    Ok(1)
                } else {
                    proof {
                        self@.lemma_credentials_select_none(id, name@, password@);
                    }
                    Ok(0)
                }
            },
            None => {
                proof {
                    self@.lemma_credentials_select_none(id, name@, password@);
                }
                Ok(0)
            },
        }
    }

    fn insert_room(&mut self, name: String, password: String) -> (res: Result<u64, StatementError>)
        requires
            old(self).wf(),
        ensures
            final(self)@ == old(self)@.after(
                CommandView::InsertRoom { name: name@, password: password@ },
            ),
            res == old(self)@.answer(CommandView::InsertRoom { name: name@, password: password@ }),
    {
        if self.rooms.len() < 0x7fff_ffff {
            let id: i32 = (self.rooms.len() + 1) as i32;
            let ghost row = self@.fresh_room(name@, password@);
            let room = ChatRoom { id, name, password, message: None, user_list: Vec::new() };
            assert(room@ =~= row);
            self.rooms.push(room);
            assert(self@.rooms =~= old(self)@.rooms.push(row));
            assert(self@.users =~= old(self)@.users);
            Ok(1)
        } else {
            Err(StatementError::OutOfIds)
        }
    }

    fn enter_room(&mut self, user_id: u64, room_id: i32, name: String, password: String) -> (res:
        Result<u64, StatementError>)
        requires
            old(self).wf(),
        ensures
            final(self)@ == old(self)@.after(
                CommandView::EnterRoom { user_id, room_id, name: name@, password: password@ },
            ),
            res == old(self)@.answer(
                CommandView::EnterRoom { user_id, room_id, name: name@, password: password@ },
            ),
    {
        proof {
            self@.lemma_room_by_credentials(room_id, name@, password@);
            self@.lemma_enter_room(user_id, room_id, name@, password@);
        }
        if 1 <= room_id && room_id as usize <= self.rooms.len() {
            let k: usize = (room_id - 1) as usize;
            if self.rooms[k].has_credentials(room_id, &name, &password) {
                let ghost row = self@.rooms[k as int];
                self.rooms[k].user_list.push(user_id);
                assert(self.rooms[k as int]@ =~= row.with_user(user_id));
                assert(self@.rooms =~= old(self)@.rooms.update(k as int, row.with_user(user_id)));
                assert(self@.users =~= old(self)@.users);
                return Ok(1);
            }
        }
        Ok(0)
    }

    fn append_message(&mut self, text: String, room_id: i32) -> (res: Result<u64, StatementError>)
        requires
            old(self).wf(),
        ensures
            final(self)@ == old(self)@.after(CommandView::AppendMessage { text: text@, room_id }),
            res == old(self)@.answer(CommandView::AppendMessage { text: text@, room_id }),
    {
        proof {
            self@.lemma_room_by_id(room_id);
            self@.lemma_append_message(text@, room_id);
        }
        if 1 <= room_id && room_id as usize <= self.rooms.len() {
            let k: usize = (room_id - 1) as usize;
            let ghost row = self@.rooms[k as int];
            let ghost sent = text@;
            match &mut self.rooms[k].message {
                Some(texts) => {
                    let ghost before = texts.deep_view();
                    texts.push(text);
                    assert(texts.deep_view() =~= before.push(sent));
                },
                None => {
                    let mut texts: Vec<String> = Vec::new();
                    texts.push(text);
                    assert(texts.deep_view() =~= seq![sent]);
                    self.rooms[k].message = Some(texts);
                },
            }
            assert(self.rooms[k as int]@ =~= row.with_message(sent));
            assert(self@.rooms =~= old(self)@.rooms.update(k as int, row.with_message(sent)));
            assert(self@.users =~= old(self)@.users);
            Ok(1)
        } else {
            Ok(0)
        }
    }

    /// A copy of the room with the id, if there is one.
    pub fn room(&self, room_id: i32) -> (found: Option<ChatRoom>)
        requires
            self.wf(),
        ensures
            found.deep_view() == match self@.room_position(room_id) {
                Some(k) => Some(self@.rooms[k]),
                None => None,
            },
    {
        if 1 <= room_id && room_id as usize <= self.rooms.len() {
            Some(self.rooms[(room_id - 1) as usize].clone())
        } else {
            None
        }
    }

    /// A copy of the user with the id, if there is one.
    pub fn user(&self, id: u64) -> (found: Option<User>)
        requires
            self.wf(),
        ensures
            match found {
                Some(user) => self@.users_with_id(id) == seq![user@],
                None => self@.users_with_id(id) == Seq::<UserRow>::empty(),
            },
    {
        match self.find_user(id) {
            Some(k) => {
                proof {
                    self@.lemma_user_by_id(k as int);
                }
                Some(self.users[k].clone())
            },
            None => {
                proof {
                    self@.lemma_no_user_by_id(id);
                }
                None
            },
        }
    }

    /// The number of users.
    pub fn user_count(&self) -> (n: usize)
        ensures
            n == self@.users.len(),
    {
        self.users.len()
    }

    /// The number of rooms.
    pub fn room_count(&self) -> (n: usize)
        ensures
            n == self@.rooms.len(),
    {
        self.rooms.len()
    }
}

} // verus!
