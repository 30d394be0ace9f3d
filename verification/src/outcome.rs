//! What the storage hands back after a statement.

use vstd::prelude::*;

verus! {

/// Why a statement did not run to its end.
#[derive(Debug, Clone, Copy, PartialEq, Eq, Structural)]
pub enum StatementError {
    /// A row with the same key is already there.
    DuplicateKey,
    /// The storage has no id left to assign.
    OutOfIds,
    /// The storage reported anything else.
    Backend,
}

/// What reading a room's messages gave.
#[derive(Debug, PartialEq, Eq)]
pub enum MessageLookup {
    /// The room's messages, the oldest first.
    Found(Vec<String>),
    /// The room is there and no message list was ever set for it.
    Unset,
    /// No room has the id.
    NoRoom,
}

/// What a lookup holds.
pub enum LookupView {
    Found(Seq<Seq<char>>),
    Unset,
    NoRoom,
}

impl View for MessageLookup {
    type V = LookupView;

    open spec fn view(&self) -> LookupView {
        match self {
            MessageLookup::Found(texts) => LookupView::Found(texts.deep_view()),
            MessageLookup::Unset => LookupView::Unset,
            MessageLookup::NoRoom => LookupView::NoRoom,
        }
    }
}

impl MessageLookup {
    /// Tells whether the lookup gave a message list.
    pub fn is_found(&self) -> (res: bool)
        ensures
            res == (self@ is Found),
    {
        match self {
            MessageLookup::Found(_) => true,
            _ => false,
        }
    }
}

} // verus!
