//! Error values surfaced by the library: decryption failures and failures of
//! a retention-cleanup run.

use vstd::prelude::*;

verus! {

/// A failure to decrypt a ciphertext, carrying a human-readable cause.
#[derive(Debug)]
pub struct DecryptError {
    pub details: String,
}

impl DecryptError {
    /// The human-readable cause of the failure.
    pub fn message(&self) -> (r: &String)
        ensures
            r@ == self.details@,
    {
        &self.details
    }
}

/// A failure of one retention-cleanup run, carrying a human-readable cause
/// and, where applicable, the offending path.
#[derive(Debug)]
pub struct RemoveFilesError {
    pub details: String,
}

impl RemoveFilesError {
    /// The human-readable cause of the failure.
    pub fn message(&self) -> (r: &String)
        ensures
            r@ == self.details@,
    {
        &self.details
    }
}

} // verus!
