//! The error that every operation of the bridge reports.

use vstd::prelude::*;

verus! {

/// A failure described by its message.
#[derive(Debug)]
pub struct StringErr(pub String);

impl Clone for StringErr {
    /// An error with the same message.
    fn clone(&self) -> (e: StringErr)
        ensures
            e@ == self@,
    {
        StringErr(self.0.clone())
    }
}

impl View for StringErr {
    type V = Seq<char>;

    /// The message, as a sequence of characters.
    open spec fn view(&self) -> Seq<char> {
        self.0@
    }
}

impl StringErr {
    /// An error that carries `message`.
    pub fn new(message: &str) -> (e: StringErr)
        ensures
            e@ == message@,
    {
        StringErr(message.to_owned())
    }

    /// The message of this error.
    pub fn message(&self) -> (m: &str)
        ensures
            m@ == self@,
    {
        self.0.as_str()
    }
}

/// The message for a handle that names no live instance.
pub open spec fn invalid_handle() -> Seq<char> {
    "invalid instance handle"@
}

/// A result by the views of what it holds.
pub open spec fn result_view<T: View, E: View>(r: Result<T, E>) -> Result<T::V, E::V> {
    match r {
        Ok(value) => Ok(value@),
        Err(error) => Err(error@),
    }
}

} // verus!
