use vstd::prelude::*;

verus! {

/// `uuid::Error`, the error of parsing a textual UUID.
#[verifier::external_type_specification]
#[verifier::external_body]
pub struct ExUuidError(uuid::Error);

/// The errors that the mint's routes answer with.
pub enum MintError {
    /// No keyset with the given id belongs to this mint.
    KeysetNotFound(String),
    /// An amount could not be read from a request; the text says why.
    InvalidAmount(String),
    /// A quote id is not a UUID.
    InvalidUuid(uuid::Error),
}

} // verus!
