//! The error taxonomy of the client: every failure a public function can
//! return is one of these variants, each carrying a human-readable message.

use vstd::prelude::*;

verus! {

/// A failure of the client, with a diagnostic message.
#[derive(Debug)]
pub enum MyError {
    /// A command-line argument was unusable.
    ArgumentError(String),
    /// No usable credential, or the request did not fall under the namespace.
    CredentialsError(String),
    /// The transfer itself failed (non-success HTTP status).
    TransferError(String),
    /// The discovery step failed (bad URL, bad headers, director refusal).
    PelicanError(String),
    /// Anything else.
    GenericError(String),
}

impl MyError {
    /// The diagnostic message carried by the error.
    pub fn message(&self) -> (r: &String)
        ensures
            r@ == self.spec_message(),
    {
        match self {
            MyError::ArgumentError(m) => m,
            MyError::CredentialsError(m) => m,
            MyError::TransferError(m) => m,
            MyError::PelicanError(m) => m,
            MyError::GenericError(m) => m,
        }
    }

    /// The message, seen abstractly.
    pub open spec fn spec_message(self) -> Seq<char> {
        match self {
            MyError::ArgumentError(m) => m@,
            MyError::CredentialsError(m) => m@,
            MyError::TransferError(m) => m@,
            MyError::PelicanError(m) => m@,
            MyError::GenericError(m) => m@,
        }
    }
}

} // verus!
