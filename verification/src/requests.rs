//! The decoded bodies of the requests.

use vstd::prelude::*;

verus! {

/// Asks for the users with one id. `name` is accepted and plays no part.
#[derive(Debug, PartialEq, Eq)]
pub struct Search {
    pub id: u64,
    pub name: String,
}

/// Names a room by its credentials, and a user. Creating a room reads the
/// name and the password only; entering one reads all four fields.
#[derive(Debug, PartialEq, Eq)]
pub struct EnterRoom {
    pub room_id: i32,
    pub room_name: String,
    pub password: String,
    pub user_id: u64,
}

/// A text for a room.
#[derive(Debug, PartialEq, Eq)]
pub struct Message {
    pub text: String,
    pub room_id: i32,
}

} // verus!
