//! Errors of the library.

use vstd::prelude::*;

verus! {

/// Text that could not be decoded into a record.
#[derive(Debug, Clone, Copy, PartialEq, Eq, Structural)]
pub struct DeserializeError;

impl DeserializeError {
    /// The message that describes the error.
    pub fn message(&self) -> (r: String)
        ensures
            r@ == "Unable to deserialize."@,
    {
        "Unable to deserialize.".to_owned()
    }
}

} // verus!
