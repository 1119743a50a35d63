//! Structured error taxonomy.
//!
//! An [`ErrorKind`] names a category of failure: a name, a message
//! identifier, a numeric code and a description. Any type that implements
//! [`AsError`] binds to one kind and adds a message, a classification string
//! and optional details; every such value converts into the one canonical
//! [`Error`], which renders as `[message_id] class (code) - message`.

pub mod decimal;
pub mod error;
pub mod foreign;
pub mod kind;

pub use error::AsError;
pub use error::Error;
pub use error::ErrorView;
pub use kind::ErrorKind;
pub use kind::KindView;

use vstd::prelude::*;

verus! {

/// The result of an operation that fails with an [`Error`].
pub type Result<T> = std::result::Result<T, Error>;

} // verus!
