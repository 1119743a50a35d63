//! Error kinds: the statically defined categories that errors belong to.

use vstd::prelude::*;
use vstd::std_specs::cmp::PartialEqSpec;
use crate::foreign::str_eq;

verus! {

/// A category of error: `ErrorKind(name, message_id, code, description)`.
///
/// Kinds are meant to be defined once, as constants, and never changed.
#[derive(Debug)]
pub struct ErrorKind(
    /// The identifier of the kind, such as `"NotFound"`.
    pub &'static str,
    /// A stable identifier for message catalogues and log correlation.
    pub &'static str,
    /// The numeric code, by convention close to an HTTP status.
    pub u16,
    /// The default human-readable text.
    pub &'static str,
);

/// The mathematical content of an [`ErrorKind`].
pub struct KindView {
    pub name: Seq<char>,
    pub message_id: Seq<char>,
    pub code: u16,
    pub description: Seq<char>,
}

impl View for ErrorKind {
    type V = KindView;

    open spec fn view(&self) -> KindView {
        KindView {
            name: self.0@,
            message_id: self.1@,
            code: self.2,
            description: self.3@,
        }
    }
}

/// The first code that counts as a server-side failure.
pub const SERVER_CODE_START: u16 = 500;

/// The provenance that a code stands for: `"Client"` below
/// [`SERVER_CODE_START`], `"Server"` from there on.
pub open spec fn side_of(code: u16) -> Seq<char> {
    if code < SERVER_CODE_START {
        "Client"@
    } else {
        "Server"@
    }
}

impl ErrorKind {
    /// The name of the kind.
    pub fn name(&self) -> (name: &'static str)
        ensures
            name@ == self@.name,
    {
        self.0
    }

    /// The message identifier of the kind.
    pub fn message_id(&self) -> (id: &'static str)
        ensures
            id@ == self@.message_id,
    {
        self.1
    }

    /// The numeric code of the kind.
    pub fn code(&self) -> (code: u16)
        ensures
            code == self@.code,
    {
        self.2
    }

    /// The description of the kind.
    pub fn description(&self) -> (text: &'static str)
        ensures
            text@ == self@.description,
    {
        self.3
    }

    /// Whether the failure is attributed to the client or to the server:
    /// `"Client"` for codes 0 to 499, `"Server"` for 500 and above.
    pub fn side(&self) -> (side: &'static str)
        ensures
            side@ == side_of(self@.code),
    {
        if self.2 < SERVER_CODE_START {
            "Client"
        } else {
            "Server"
        }
    }
}

impl Clone for ErrorKind {
    fn clone(&self) -> (copy: Self)
        ensures
            copy == *self,
    {
        ErrorKind(self.0, self.1, self.2, self.3)
    }
}

impl PartialEq for ErrorKind {
    fn eq(&self, other: &Self) -> (same: bool) {
        str_eq(self.0, other.0)
            && str_eq(self.1, other.1)
            && self.2 == other.2
            && str_eq(self.3, other.3)
    }
}

impl vstd::std_specs::cmp::PartialEqSpecImpl for ErrorKind {
    open spec fn obeys_eq_spec() -> bool {
        true
    }

    open spec fn eq_spec(&self, other: &Self) -> bool {
        self@ == other@
    }
}

/// Every code has exactly one side: it is `"Client"` exactly for the codes
/// 0 to 499 and `"Server"` exactly for the codes from 500 on.
pub proof fn side_partitions_codes(code: u16)
    ensures
        side_of(code) == "Client"@ <==> code <= 499,
        side_of(code) == "Server"@ <==> code >= 500,
        "Client"@ != "Server"@,
{
    reveal_strlit("Client");
    reveal_strlit("Server");
    assert("Client"@[0] != "Server"@[0]);
}

/// Equality of kinds is structural: two kinds compare equal exactly when
/// their names, message identifiers, codes and descriptions all agree.
pub proof fn kind_equality_is_fieldwise(a: ErrorKind, b: ErrorKind)
    ensures
        a.eq_spec(&b) <==> (a.0@ == b.0@ && a.1@ == b.1@ && a.2 == b.2 && a.3@ == b.3@),
        a.eq_spec(&a),
{
}

} // verus!
