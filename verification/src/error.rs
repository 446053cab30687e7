//! Why a foreign name may be refused.

use vstd::prelude::*;

verus! {

/// The one way in which a well-formed foreign byte string can fail to be a
/// name.
#[derive(Clone, Copy, Debug, PartialEq, Eq, Structural)]
pub enum BoundaryError {
    /// The bytes before the terminator are not UTF-8.
    InvalidEncoding,
}

impl BoundaryError {
    /// The words with which a caller reports this error before giving up.
    pub fn message(&self) -> (msg: &'static str)
        ensures
            msg@ == "invalid UTF-8 data"@,
    {
        match self {
            BoundaryError::InvalidEncoding => "invalid UTF-8 data",
        }
    }
}

} // verus!
