//! The uniform error value of the library: one human-readable message.

use vstd::prelude::*;

verus! {

/// A failure reported by a render call: a descriptive message. Callers
/// distinguish failure causes only by the message text.
#[derive(Debug)]
pub struct GenericError {
    message: String,
}

impl View for GenericError {
    type V = Seq<char>;

    closed spec fn view(&self) -> Seq<char> {
        self.message@
    }
}

impl GenericError {
    /// Builds an error carrying exactly the given message.
    pub fn new(msg: &str) -> (r: GenericError)
        ensures
            r@ == msg@,
    {
        GenericError { message: msg.to_owned() }
    }

    /// The message this error carries.
    pub fn message(&self) -> (r: &str)
        ensures
            r@ == self@,
    {
        self.message.as_str()
    }
}

} // verus!
