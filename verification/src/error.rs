use vstd::prelude::*;

verus! {

/// The single error kind of this crate: a human-readable message.
///
/// Every failing conversion or operator returns one of these; nothing in
/// the crate panics on untrusted input.
#[derive(Debug)]
pub struct Error {
    pub message: String,
}

impl Clone for Error {
    /// A copy carries the same message.
    fn clone(&self) -> (r: Error)
        ensures
            r.message@ == self.message@,
    {
        Error { message: self.message.clone() }
    }
}

impl Error {
    pub fn new(message: String) -> (r: Error)
        ensures
            r.message@ == message@,
    {
        Error { message }
    }

    /// The message text, for callers that only report.
    pub fn message(&self) -> (r: &str)
        ensures
            r@ == self.message@,
    {
        self.message.as_str()
    }
}

} // verus!
