//! The polymorphic identifier and the response envelope.

use vstd::prelude::*;

use crate::error::GGError;
use crate::field::id_or_zero;
use crate::structs::phase_group::GGPhaseGroup;
use crate::structs::query::GGData;
use crate::structs::tournament::GGTournament;
use crate::text::{parse_i64, parse_i64_spec};

verus! {

/// Equivalent for start.gg ID.
///
/// On the wire an ID is either a JSON integer or a JSON string, with no tag
/// telling the two apart; it is usually an integer. Which variant is held is
/// decided by what was received, and the two are never normalised into each
/// other: the integer `123` and the text `"123"` are different identifiers.
#[derive(Debug)]
pub enum GGID {
    Int(i64),
    String(String),
}

/// What an identifier holds, as a mathematical value.
pub enum IdValue {
    Int(i64),
    Text(Seq<char>),
}

impl View for GGID {
    type V = IdValue;

    open spec fn view(&self) -> IdValue {
        match self {
            GGID::Int(n) => IdValue::Int(*n),
            GGID::String(s) => IdValue::Text(s@),
        }
    }
}

/// The identifier that free text denotes: the integer variant where the text
/// reads as an `i64`, the text itself otherwise.
pub open spec fn id_from_text(s: Seq<char>) -> IdValue {
    match parse_i64_spec(s) {
        Some(n) => IdValue::Int(n),
        None => IdValue::Text(s),
    }
}

impl GGID {
    /// Builds an identifier from free text: the integer variant where the
    /// text parses as an `i64`, else the string variant holding the text.
    pub fn parse(s: &str) -> (r: GGID)
        ensures
            r@ == id_from_text(s@),
    {
        match parse_i64(s) {
            Some(n) => GGID::Int(n),
            None => GGID::String(s.to_string()),
        }
    }
}

impl Clone for GGID {
    fn clone(&self) -> (r: GGID)
        ensures
            r == *self,
    {
        match self {
            GGID::Int(n) => GGID::Int(*n),
            GGID::String(s) => GGID::String(s.clone()),
        }
    }
}

impl PartialEq for GGID {
    /// Compares variant and value together.
    fn eq(&self, other: &GGID) -> (r: bool)
        ensures
            r == (self@ == other@),
    {
        match self {
            GGID::Int(a) => match other {
                GGID::Int(b) => *a == *b,
                GGID::String(_) => false,
            },
            GGID::String(a) => match other {
                GGID::Int(_) => false,
                GGID::String(b) => a.eq(b),
            },
        }
    }
}

impl vstd::std_specs::cmp::PartialEqSpecImpl for GGID {
    open spec fn obeys_eq_spec() -> bool {
        true
    }

    open spec fn eq_spec(&self, other: &GGID) -> bool {
        self@ == other@
    }
}

impl Eq for GGID {

}

impl std::str::FromStr for GGID {
    type Err = ();

    /// Never fails: the integer variant where the text parses as an `i64`,
    /// else the string variant holding the text verbatim.
    fn from_str(s: &str) -> (r: Result<GGID, ()>)
        ensures
            r is Ok && r->Ok_0@ == id_from_text(s@),
    {
        Ok(GGID::parse(s))
    }
}

/// An identifier that arrived as the integer `n` is handed out by the record's
/// accessor as the integer `n`.
pub proof fn lemma_int_id_read_back(t: GGTournament, n: i64)
    requires
        t.id == Some(GGID::Int(n)),
    ensures
        id_or_zero(t.id) == IdValue::Int(n),
{
}

/// An identifier that arrived as the text `s` is handed out by the record's
/// accessor as the text `s`, never as an integer, whatever the text holds.
pub proof fn lemma_text_id_read_back(g: GGPhaseGroup, s: String)
    requires
        g.id == Some(GGID::String(s)),
    ensures
        id_or_zero(g.id) == IdValue::Text(s@),
        !(id_or_zero(g.id) is Int),
{
}

/// The outcome of one query, as decoded from the data of its response.
///
/// The body is first read as the data shape; where it does not match that
/// shape, it is read as a bare error message.
#[derive(Debug)]
pub enum GGResponse {
    Data(GGData),
    Error(String),
}

impl GGResponse {
    /// Returns the data, or a remote error carrying the server's message.
    pub fn into_data(self) -> (r: Result<GGData, GGError>)
        ensures
            r == match self {
                GGResponse::Data(d) => Ok::<GGData, GGError>(d),
                GGResponse::Error(m) => Err::<GGData, GGError>(GGError::Remote(m)),
            },
    {
        match self {
            GGResponse::Data(d) => Ok(d),
            GGResponse::Error(m) => Err(GGError::Remote(m)),
        }
    }
}

impl GGData {
    /// Returns the tournament, or a missing-field error where the response
    /// holds none; unlike the accessor `tournament`, which returns a blank
    /// tournament in that case.
    pub fn require_tournament(&self) -> (r: Result<GGTournament, GGError>)
        ensures
            match self.tournament {
                Some(t) => r is Ok && t.same(&r->Ok_0),
                None => r is Err && r->Err_0 is MissingField
                    && r->Err_0->MissingField_0@ == "tournament"@,
            },
    {
        match &self.tournament {
            Some(t) => Ok(t.copy()),
            None => Err(GGError::MissingField("tournament".to_string())),
        }
    }
}

} // verus!
