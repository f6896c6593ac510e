//! The ways a query can fail.

use vstd::prelude::*;

verus! {

/// Why a query gave no data.
#[derive(Debug)]
pub enum GGError {
    /// The HTTP exchange did not complete (DNS, connection, TLS, timeout).
    /// The caller may retry at its discretion.
    Transport(String),
    /// The response came with a non-success status, or its body matched
    /// neither the data shape nor the error shape.
    Decode(String),
    /// The server answered with an error document; its message, verbatim.
    Remote(String),
    /// A top-level field that the caller asked for was absent from the data.
    MissingField(String),
}

/// What an error holds, as a mathematical value.
pub enum ErrorValue {
    Transport(Seq<char>),
    Decode(Seq<char>),
    Remote(Seq<char>),
    MissingField(Seq<char>),
}

impl View for GGError {
    type V = ErrorValue;

    open spec fn view(&self) -> ErrorValue {
        match self {
            GGError::Transport(m) => ErrorValue::Transport(m@),
            GGError::Decode(m) => ErrorValue::Decode(m@),
            GGError::Remote(m) => ErrorValue::Remote(m@),
            GGError::MissingField(m) => ErrorValue::MissingField(m@),
        }
    }
}

impl GGError {
    /// The message or field name that the error carries.
    pub fn message(&self) -> (r: String)
        ensures
            r@ == match self {
                GGError::Transport(m) => m@,
                GGError::Decode(m) => m@,
                GGError::Remote(m) => m@,
                GGError::MissingField(m) => m@,
            },
    {
        match self {
            GGError::Transport(m) => m.clone(),
            GGError::Decode(m) => m.clone(),
            GGError::Remote(m) => m.clone(),
            GGError::MissingField(m) => m.clone(),
        }
    }
}

impl PartialEq for GGError {
    /// Compares the kind and the carried text together.
    fn eq(&self, other: &GGError) -> (r: bool)
        ensures
            r == (self@ == other@),
    {
        match (self, other) {
            (GGError::Transport(a), GGError::Transport(b)) => a.eq(b),
            (GGError::Decode(a), GGError::Decode(b)) => a.eq(b),
            (GGError::Remote(a), GGError::Remote(b)) => a.eq(b),
            (GGError::MissingField(a), GGError::MissingField(b)) => a.eq(b),
            _ => false,
        }
    }
}

impl vstd::std_specs::cmp::PartialEqSpecImpl for GGError {
    open spec fn obeys_eq_spec() -> bool {
        true
    }

    open spec fn eq_spec(&self, other: &GGError) -> bool {
        self@ == other@
    }
}

} // verus!
