//! Contracts for items of `std` and of other crates that the library relies
//! on and that Verus does not verify. Nothing in this file is proved: each
//! contract restates what the item's documentation or source says.

use vstd::prelude::*;

verus! {

/// Equality of string slices, as `str`'s `==` decides it: two slices are
/// equal exactly when they hold the same characters in the same order.
#[verifier::external_body]
pub(crate) fn str_eq(a: &str, b: &str) -> (same: bool)
    ensures
        same == (a@ == b@),
{
    a == b
}

/// `serde_value::Value`, a structured value of any shape. The library only
/// carries such values; it never looks inside one.
#[verifier::external_type_specification]
#[verifier::external_body]
pub struct ExValue(serde_value::Value);

/// `std::io::Error`, the error type of std's I/O interfaces.
#[verifier::external_type_specification]
#[verifier::external_body]
pub struct ExIoError(std::io::Error);

/// The I/O error of kind `InvalidData` whose payload is the given text.
pub uninterp spec fn invalid_data_error(text: Seq<char>) -> std::io::Error;

/// `std::io::Error::new` with the kind `std::io::ErrorKind::InvalidData`:
/// the error that comes back is determined by the text, which it carries as
/// its payload.
#[verifier::external_body]
pub(crate) fn new_invalid_data(text: String) -> (error: std::io::Error)
    ensures
        error == invalid_data_error(text@),
{
    std::io::Error::new(std::io::ErrorKind::InvalidData, text)
}

} // verus!
