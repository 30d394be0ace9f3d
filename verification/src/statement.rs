//! The statements that the operations issue: their text and the values bound
//! to their placeholders.

use vstd::prelude::*;
use crate::records::UserRow;

verus! {

/// Registers a user under the id that the client chose.
pub const INSERT_USER: &'static str =
    "INSERT INTO users ( id, name, password ) VALUES ( $1, $2, $3 );";

/// Reads every user with one id.
pub const SELECT_USER: &'static str = "SELECT id, name, password FROM users WHERE id = $1;";

/// Deletes the users that carry all three credentials.
pub const DELETE_USER: &'static str =
    "DELETE FROM users WHERE id = $1 AND name = $2 AND password = $3;";

/// Creates a room; the storage assigns its id.
pub const INSERT_ROOM: &'static str = "INSERT INTO chat_room ( name, password ) VALUES ( $1, $2 );";

/// Appends a user to the rooms that carry all three credentials.
pub const ENTER_ROOM: &'static str =
    "UPDATE chat_room SET user_list = array_append(user_list, $1) WHERE id = $2 AND name = $3 AND password = $4;";

/// Reads the messages of the room with one id.
pub const SELECT_MESSAGES: &'static str = "SELECT message FROM chat_room WHERE id = $1";

/// Appends a text to the room with one id.
pub const APPEND_MESSAGE: &'static str =
    "UPDATE chat_room SET message = array_append(message, $1) WHERE id = $2;";

/// A value bound to a placeholder.
#[derive(Debug, PartialEq, Eq)]
pub enum Param {
    /// A user id.
    Id(u64),
    /// A room id.
    Int(i32),
    /// A name, a password or a message.
    Text(String),
}

/// What a bound value holds.
pub enum ParamView {
    Id(u64),
    Int(i32),
    Text(Seq<char>),
}

impl View for Param {
    type V = ParamView;

    open spec fn view(&self) -> ParamView {
        match self {
            Param::Id(id) => ParamView::Id(*id),
            Param::Int(id) => ParamView::Int(*id),
            Param::Text(text) => ParamView::Text(text@),
        }
    }
}

impl DeepView for Param {
    type V = ParamView;

    open spec fn deep_view(&self) -> ParamView {
        self@
    }
}

/// A statement that changes a table.
#[derive(Debug, PartialEq, Eq)]
pub enum Command {
    InsertUser { id: u64, name: String, password: String },
    DeleteUser { id: u64, name: String, password: String },
    InsertRoom { name: String, password: String },
    EnterRoom { user_id: u64, room_id: i32, name: String, password: String },
    AppendMessage { text: String, room_id: i32 },
}

/// What a changing statement holds.
pub enum CommandView {
    InsertUser { row: UserRow },
    DeleteUser { id: u64, name: Seq<char>, password: Seq<char> },
    InsertRoom { name: Seq<char>, password: Seq<char> },
    EnterRoom { user_id: u64, room_id: i32, name: Seq<char>, password: Seq<char> },
    AppendMessage { text: Seq<char>, room_id: i32 },
}

impl View for Command {
    type V = CommandView;

    open spec fn view(&self) -> CommandView {
        match self {
            Command::InsertUser { id, name, password } => CommandView::InsertUser {
                row: UserRow { id: *id, name: name@, password: password@ },
            },
            Command::DeleteUser { id, name, password } => CommandView::DeleteUser {
                id: *id,
                name: name@,
                password: password@,
            },
            Command::InsertRoom { name, password } => CommandView::InsertRoom {
                name: name@,
                password: password@,
            },
            Command::EnterRoom { user_id, room_id, name, password } => CommandView::EnterRoom {
                user_id: *user_id,
                room_id: *room_id,
                name: name@,
                password: password@,
            },
            Command::AppendMessage { text, room_id } => CommandView::AppendMessage {
                text: text@,
                room_id: *room_id,
            },
        }
    }
}

impl CommandView {
    /// The statement's text.
    pub open spec fn sql(self) -> Seq<char> {
        match self {
            CommandView::InsertUser { .. } => INSERT_USER@,
            CommandView::DeleteUser { .. } => DELETE_USER@,
            CommandView::InsertRoom { .. } => INSERT_ROOM@,
            CommandView::EnterRoom { .. } => ENTER_ROOM@,
            CommandView::AppendMessage { .. } => APPEND_MESSAGE@,
        }
    }

    /// The values bound to the placeholders, the first placeholder first.
    pub open spec fn params(self) -> Seq<ParamView> {
        match self {
            CommandView::InsertUser { row } => seq![
                ParamView::Id(row.id),
                ParamView::Text(row.name),
                ParamView::Text(row.password),
            ],
            CommandView::DeleteUser { id, name, password } => seq![
                ParamView::Id(id),
                ParamView::Text(name),
                ParamView::Text(password),
            ],
            CommandView::InsertRoom { name, password } => seq![
                ParamView::Text(name),
                ParamView::Text(password),
            ],
            CommandView::EnterRoom { user_id, room_id, name, password } => seq![
                ParamView::Id(user_id),
                ParamView::Int(room_id),
                ParamView::Text(name),
                ParamView::Text(password),
            ],
            CommandView::AppendMessage { text, room_id } => seq![
                ParamView::Text(text),
                ParamView::Int(room_id),
            ],
        }
    }
}

impl Command {
    /// The statement's text.
    pub fn sql(&self) -> (text: &'static str)
        ensures
            text@ == self@.sql(),
    {
        match self {
            Command::InsertUser { .. } => INSERT_USER,
            Command::DeleteUser { .. } => DELETE_USER,
            Command::InsertRoom { .. } => INSERT_ROOM,
            Command::EnterRoom { .. } => ENTER_ROOM,
            Command::AppendMessage { .. } => APPEND_MESSAGE,
        }
    }

    /// The values to bind, the first placeholder first.
    pub fn params(&self) -> (bound: Vec<Param>)
        ensures
            bound.deep_view() == self@.params(),
    {
        let mut bound: Vec<Param> = Vec::new();
        match self {
            Command::InsertUser { id, name, password } => {
                bound.push(Param::Id(*id));
                bound.push(Param::Text(name.clone()));
                bound.push(Param::Text(password.clone()));
            },
            Command::DeleteUser { id, name, password } => {
                bound.push(Param::Id(*id));
                bound.push(Param::Text(name.clone()));
                bound.push(Param::Text(password.clone()));
            },
            Command::InsertRoom { name, password } => {
                bound.push(Param::Text(name.clone()));
                bound.push(Param::Text(password.clone()));
            },
            Command::EnterRoom { user_id, room_id, name, password } => {
                bound.push(Param::Id(*user_id));
                bound.push(Param::Int(*room_id));
                bound.push(Param::Text(name.clone()));
                bound.push(Param::Text(password.clone()));
            },
            Command::AppendMessage { text, room_id } => {
                bound.push(Param::Text(text.clone()));
                bound.push(Param::Int(*room_id));
            },
        }
        assert(bound.deep_view() =~= self@.params());
        bound
    }
}

/// Asks for every user with one id.
#[derive(Debug, PartialEq, Eq)]
pub struct UserQuery {
    pub id: u64,
}

impl UserQuery {
    /// The statement's text.
    pub fn sql(&self) -> (text: &'static str)
        ensures
            text@ == SELECT_USER@,
    {
        SELECT_USER
    }

    /// The one value to bind: the id.
    pub fn params(&self) -> (bound: Vec<Param>)
        ensures
            bound.deep_view() == seq![ParamView::Id(self.id)],
    {
        let mut bound: Vec<Param> = Vec::new();
        bound.push(Param::Id(self.id));
        assert(bound.deep_view() =~= seq![ParamView::Id(self.id)]);
        bound
    }
}

/// Asks for the messages of the room with one id.
#[derive(Debug, PartialEq, Eq)]
pub struct MessageQuery {
    pub room_id: i32,
}

impl MessageQuery {
    /// The statement's text.
    pub fn sql(&self) -> (text: &'static str)
        ensures
            text@ == SELECT_MESSAGES@,
    {
        SELECT_MESSAGES
    }

    /// The one value to bind: the room's id.
    pub fn params(&self) -> (bound: Vec<Param>)
        ensures
            bound.deep_view() == seq![ParamView::Int(self.room_id)],
    {
        let mut bound: Vec<Param> = Vec::new();
        bound.push(Param::Int(self.room_id));
        assert(bound.deep_view() =~= seq![ParamView::Int(self.room_id)]);
        bound
    }
}

} // verus!
