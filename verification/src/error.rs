//! The error that the runtime reports.
use vstd::prelude::*;

verus! {

/// An error raised by the runtime, with its message.
#[derive(Clone, Debug, PartialEq, Eq)]
pub struct Exception {
    pub what: String,
}

impl Exception {
    /// The error with the given message.
    pub fn new(what: &str) -> (e: Exception)
        ensures
            e.what@ == what@,
    {
        Exception { what: what.to_owned() }
    }

    /// The message.
    pub fn what(&self) -> (r: &str)
        ensures
            r@ == self.what@,
    {
        self.what.as_str()
    }
}

/// The result of an operation of the runtime.
pub type Result<T> = core::result::Result<T, Exception>;

} // verus!
