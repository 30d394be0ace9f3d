//! The envelope that every operation answers with.

use vstd::prelude::*;

verus! {

/// What an envelope says: the outcome text and the payload, if there is one.
pub struct Envelope<V> {
    pub message: Seq<char>,
    pub data: Option<V>,
}

/// The answer to one request: a readable outcome and an optional payload.
/// Success and failure share this one shape.
#[derive(Debug, PartialEq, Eq)]
pub struct SqlResult<T> {
    pub message: String,
    pub data: Option<T>,
}

impl<T: DeepView> View for SqlResult<T> {
    type V = Envelope<T::V>;

    open spec fn view(&self) -> Envelope<T::V> {
        Envelope { message: self.message@, data: self.data.deep_view() }
    }
}

impl<T: DeepView> DeepView for SqlResult<T> {
    type V = Envelope<T::V>;

    open spec fn deep_view(&self) -> Envelope<T::V> {
        self@
    }
}

impl<T: DeepView> SqlResult<T> {
    /// An envelope with the given text and payload.
    pub fn new(message: &str, data: Option<T>) -> (res: Self)
        ensures
            res@ == (Envelope { message: message@, data: data.deep_view() }),
            res.data == data,
    {
        SqlResult { message: message.to_owned(), data }
    }
}

} // verus!
