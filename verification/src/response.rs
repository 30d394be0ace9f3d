//! From what the storage handed back to the envelope that the caller gets.
//!
//! Why a statement failed never reaches the caller: every failure of one
//! operation gives the same envelope.

use vstd::prelude::*;
use vstd::pervasive::unreached;
use crate::envelope::{Envelope, SqlResult};
use crate::outcome::{LookupView, MessageLookup, StatementError};
use crate::records::{User, UserRow};
use crate::texts::{
    MESSAGES_READ, MESSAGE_SENT, NO_USER_TO_DELETE, ROOM_CREATED, ROOM_ENTERED, ROOM_NOT_CREATED,
    ROOM_NOT_ENTERED, USER_ADDED, USER_DELETED, USER_FOUND, USER_NOT_FOUND,
};

verus! {

/// Registering succeeded where at least one row was inserted. Every other
/// outcome gives an empty text and `false`.
pub open spec fn add_user_envelope(result: Result<u64, StatementError>) -> Envelope<bool> {
    match result {
        Ok(rows) if rows >= 1 => Envelope { message: USER_ADDED@, data: Some(true) },
        _ => Envelope { message: Seq::empty(), data: Some(false) },
    }
}

/// A search that found rows hands them out. One that found none and one
/// that failed both give the same text and an empty list.
pub open spec fn search_user_envelope(result: Result<Seq<UserRow>, StatementError>) -> Envelope<
    Seq<UserRow>,
> {
    match result {
        Ok(rows) if rows.len() > 0 => Envelope { message: USER_FOUND@, data: Some(rows) },
        _ => Envelope { message: USER_NOT_FOUND@, data: Some(Seq::empty()) },
    }
}

/// A deletion that removed rows reports how many. One that removed none and
/// one that failed both report 0.
pub open spec fn delete_user_envelope(result: Result<u64, StatementError>) -> Envelope<u64> {
    match result {
        Ok(rows) if rows > 0 => Envelope { message: USER_DELETED@, data: Some(rows) },
        _ => Envelope { message: NO_USER_TO_DELETE@, data: Some(0) },
    }
}

/// A room was created where the statement ran.
pub open spec fn create_room_envelope(result: Result<u64, StatementError>) -> Envelope<bool> {
    match result {
        Ok(_) => Envelope { message: ROOM_CREATED@, data: Some(true) },
        Err(_) => Envelope { message: ROOM_NOT_CREATED@, data: Some(false) },
    }
}

/// Entering is reported as done wherever the statement ran, whether or not
/// it matched a room. A failed statement gives no payload.
pub open spec fn enter_room_envelope(result: Result<u64, StatementError>) -> Envelope<bool> {
    match result {
        Ok(_) => Envelope { message: ROOM_ENTERED@, data: Some(true) },
        Err(_) => Envelope { message: ROOM_NOT_ENTERED@, data: None },
    }
}

/// A read that found a message list hands it out. A failed read carries the
/// same text and no payload.
pub open spec fn message_get_envelope(result: Result<LookupView, StatementError>) -> Envelope<
    Seq<Seq<char>>,
>
    recommends
        result matches Ok(lookup) ==> lookup is Found,
{
    match result {
        Ok(LookupView::Found(texts)) => Envelope { message: MESSAGES_READ@, data: Some(texts) },
        _ => Envelope { message: MESSAGES_READ@, data: None },
    }
}

/// Sending is reported as done wherever the statement ran, whether or not
/// it matched a room. A failed send carries the same text and no payload.
pub open spec fn message_send_envelope(result: Result<u64, StatementError>) -> Envelope<bool> {
    match result {
        Ok(_) => Envelope { message: MESSAGE_SENT@, data: Some(true) },
        Err(_) => Envelope { message: MESSAGE_SENT@, data: None },
    }
}

/// What the rows of a search stand for.
pub open spec fn rows_view(result: Result<Vec<User>, StatementError>) -> Result<
    Seq<UserRow>,
    StatementError,
> {
    match result {
        Ok(rows) => Ok(rows.deep_view()),
        Err(e) => Err(e),
    }
}

/// What a read of messages stands for.
pub open spec fn lookup_view(result: Result<MessageLookup, StatementError>) -> Result<
    LookupView,
    StatementError,
> {
    match result {
        Ok(lookup) => Ok(lookup@),
        Err(e) => Err(e),
    }
}

/// The envelope for a registration.
pub fn add_user_response(result: Result<u64, StatementError>) -> (res: SqlResult<bool>)
    ensures
        res@ == add_user_envelope(result),
{
    match result {
        Ok(rows) if rows >= 1 => SqlResult::new(USER_ADDED, Some(true)),
        _ => SqlResult { message: String::new(), data: Some(false) },
    }
}

/// The envelope for a search.
pub fn search_user_response(result: Result<Vec<User>, StatementError>) -> (res: SqlResult<
    Vec<User>,
>)
    ensures
        res@ == search_user_envelope(rows_view(result)),
{
    match result {
        Ok(rows) if rows.len() > 0 => SqlResult::new(USER_FOUND, Some(rows)),
        _ => {
            let none: Vec<User> = Vec::new();
            assert(none.deep_view() =~= Seq::empty());
            SqlResult::new(USER_NOT_FOUND, Some(none))
        },
    }
}

/// The envelope for a deletion.
pub fn delete_user_response(result: Result<u64, StatementError>) -> (res: SqlResult<u64>)
    ensures
        res@ == delete_user_envelope(result),
{
    match result {
        Ok(rows) if rows > 0 => SqlResult::new(USER_DELETED, Some(rows)),
        _ => SqlResult::new(NO_USER_TO_DELETE, Some(0)),
    }
}

/// The envelope for the creation of a room.
pub fn create_room_response(result: Result<u64, StatementError>) -> (res: SqlResult<bool>)
    ensures
        res@ == create_room_envelope(result),
{
    match result {
        Ok(_) => SqlResult::new(ROOM_CREATED, Some(true)),
        Err(_) => SqlResult::new(ROOM_NOT_CREATED, Some(false)),
    }
}

/// The envelope for entering a room.
pub fn enter_room_response(result: Result<u64, StatementError>) -> (res: SqlResult<bool>)
    ensures
        res@ == enter_room_envelope(result),
{
    match result {
        Ok(_) => SqlResult::new(ROOM_ENTERED, Some(true)),
        Err(_) => SqlResult::new(ROOM_NOT_ENTERED, None),
    }
}

/// The envelope for a read of messages. A room that is missing, or whose
/// message list was never set, is a broken invariant of the caller, not an
/// outcome to report: such a read must not be handed in.
pub fn message_get_response(result: Result<MessageLookup, StatementError>) -> (res: SqlResult<
    Vec<String>,
>)
    requires
        result matches Ok(lookup) ==> lookup@ is Found,
    ensures
        res@ == message_get_envelope(lookup_view(result)),
{
    match result {
        Ok(MessageLookup::Found(texts)) => SqlResult::new(MESSAGES_READ, Some(texts)),
        Ok(_) => unreached(),
        Err(_) => SqlResult::new(MESSAGES_READ, None),
    }
}

/// The envelope for a sent message.
pub fn message_send_response(result: Result<u64, StatementError>) -> (res: SqlResult<bool>)
    ensures
        res@ == message_send_envelope(result),
{
    match result {
        Ok(_) => SqlResult::new(MESSAGE_SENT, Some(true)),
        Err(_) => SqlResult::new(MESSAGE_SENT, None),
    }
}

} // verus!
