//! The rows of the two tables, and what each row stands for in contracts.

use vstd::prelude::*;

verus! {

/// What a row of the user table holds.
pub struct UserRow {
    pub id: u64,
    pub name: Seq<char>,
    pub password: Seq<char>,
}

/// What a row of the room table holds. `message` is unset until the first
/// message arrives.
pub struct RoomRow {
    pub id: i32,
    pub name: Seq<char>,
    pub password: Seq<char>,
    pub message: Option<Seq<Seq<char>>>,
    pub user_list: Seq<u64>,
}

/// A registered user. The password is kept and compared as it was given.
#[derive(Debug, PartialEq, Eq)]
pub struct User {
    pub id: u64,
    pub name: String,
    pub password: String,
}

/// A chat room with the messages sent to it and the users who entered it.
#[derive(Debug, PartialEq, Eq)]
pub struct ChatRoom {
    pub id: i32,
    pub name: String,
    pub password: String,
    pub message: Option<Vec<String>>,
    pub user_list: Vec<u64>,
}

impl View for User {
    type V = UserRow;

    open spec fn view(&self) -> UserRow {
        UserRow { id: self.id, name: self.name@, password: self.password@ }
    }
}

impl DeepView for User {
    type V = UserRow;

    open spec fn deep_view(&self) -> UserRow {
        self@
    }
}

impl View for ChatRoom {
    type V = RoomRow;

    open spec fn view(&self) -> RoomRow {
        RoomRow {
            id: self.id,
            name: self.name@,
            password: self.password@,
            message: self.message.deep_view(),
            user_list: self.user_list@,
        }
    }
}

impl DeepView for ChatRoom {
    type V = RoomRow;

    open spec fn deep_view(&self) -> RoomRow {
        self@
    }
}

impl UserRow {
    /// The row carries exactly these credentials.
    pub open spec fn has_credentials(self, id: u64, name: Seq<char>, password: Seq<char>) -> bool {
        self.id == id && self.name == name && self.password == password
    }
}

impl RoomRow {
    /// The room carries exactly these credentials.
    pub open spec fn has_credentials(self, id: i32, name: Seq<char>, password: Seq<char>) -> bool {
        self.id == id && self.name == name && self.password == password
    }

    /// The room after one more user entered it.
    pub open spec fn with_user(self, user_id: u64) -> RoomRow {
        RoomRow { user_list: self.user_list.push(user_id), ..self }
    }

    /// The room after one more message. An unset message list counts as
    /// empty.
    pub open spec fn with_message(self, text: Seq<char>) -> RoomRow {
        RoomRow {
            message: Some(
                match self.message {
                    Some(sent) => sent.push(text),
                    None => seq![text],
                },
            ),
            ..self
        }
    }
}

/// Copies a list of texts, one by one.
pub fn copy_texts(texts: &Vec<String>) -> (copy: Vec<String>)
    ensures
        copy.deep_view() == texts.deep_view(),
{
    let mut copy: Vec<String> = Vec::new();
    let mut i: usize = 0;
    while i < texts.len()
        invariant
            i <= texts.len(),
            copy.len() == i,
            forall|k: int| 0 <= k < i ==> copy[k]@ == texts[k]@,
        decreases texts.len() - i,
    {
        copy.push(texts[i].clone());
        i += 1;
    }
    assert(copy.deep_view() =~= texts.deep_view());
    copy
}

impl Clone for User {
    fn clone(&self) -> (copy: Self)
        ensures
            copy@ == self@,
    {
        User { id: self.id, name: self.name.clone(), password: self.password.clone() }
    }
}

impl Clone for ChatRoom {
    fn clone(&self) -> (copy: Self)
        ensures
            copy@ == self@,
    {
        let message = match &self.message {
            Some(texts) => Some(copy_texts(texts)),
            None => None,
        };
        let user_list = self.user_list.clone();
        assert(user_list@ =~= self.user_list@);
        ChatRoom {
            id: self.id,
            name: self.name.clone(),
            password: self.password.clone(),
            message,
            user_list,
        }
    }
}

impl User {
    /// Tells whether the user carries exactly these credentials.
    pub fn has_credentials(&self, id: u64, name: &String, password: &String) -> (res: bool)
        ensures
            res == self@.has_credentials(id, name@, password@),
    {
        self.id == id && self.name == *name && self.password == *password
    }
}

impl ChatRoom {
    /// Tells whether the room carries exactly these credentials.
    pub fn has_credentials(&self, id: i32, name: &String, password: &String) -> (res: bool)
        ensures
            res == self@.has_credentials(id, name@, password@),
    {
        self.id == id && self.name == *name && self.password == *password
    }
}

} // verus!
