//! The closed error taxonomy of the service: each failure kind carries a
//! fixed user-facing message, used verbatim as the body of failure replies.

use vstd::prelude::*;

verus! {

/// One failure kind of the service. The set is closed: every failure reply
/// carries the message of exactly one of these kinds.
#[derive(Debug, Clone, Copy, PartialEq, Eq, Structural)]
pub enum Woo2Err {
    ErrorInvalidSession,
    ErrorUserNotFound,
    ErrorNoVehiclesFound,
    ErrorDbAddValue,
    ErrorDbFetch,
}

impl Woo2Err {
    /// The fixed message of this kind, as a sequence of characters.
    pub open spec fn message(self) -> Seq<char> {
        match self {
            Woo2Err::ErrorInvalidSession => "Session is invalid."@,
            Woo2Err::ErrorUserNotFound => "User not found."@,
            Woo2Err::ErrorNoVehiclesFound => "No vehicles found for user."@,
            Woo2Err::ErrorDbAddValue => "Error registering value."@,
            Woo2Err::ErrorDbFetch => "Error fetching database value."@,
        }
    }

    /// The fixed message of this kind.
    pub fn as_str(&self) -> (r: &'static str)
        ensures
            r@ == self.message(),
    {
        match self {
            Woo2Err::ErrorInvalidSession => "Session is invalid.",
            Woo2Err::ErrorUserNotFound => "User not found.",
            Woo2Err::ErrorNoVehiclesFound => "No vehicles found for user.",
            Woo2Err::ErrorDbAddValue => "Error registering value.",
            Woo2Err::ErrorDbFetch => "Error fetching database value.",
        }
    }
}

} // verus!
