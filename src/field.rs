//! Reading an optional field with a zero value in its place when it is unset.
//!
//! Every accessor of the schema types goes through one of these, so that the
//! zero value of each kind of field is chosen in one place.

use vstd::prelude::*;

use crate::enums::{GGID, IdValue};

verus! {

/// The text of an optional field, empty where it is unset.
pub open spec fn text_or_empty(f: Option<String>) -> Seq<char> {
    match f {
        Some(s) => s@,
        None => Seq::empty(),
    }
}

/// The integer of an optional field, zero where it is unset.
pub open spec fn int_or_zero(f: Option<i64>) -> i64 {
    match f {
        Some(n) => n,
        None => 0,
    }
}

/// The flag of an optional field, `false` where it is unset.
pub open spec fn flag_or_false(f: Option<bool>) -> bool {
    match f {
        Some(b) => b,
        None => false,
    }
}

/// The identifier of an optional field, the integer zero where it is unset.
pub open spec fn id_or_zero(f: Option<GGID>) -> IdValue {
    match f {
        Some(i) => i@,
        None => IdValue::Int(0),
    }
}

/// The integers of an optional list field, empty where it is unset.
pub open spec fn ints_or_empty(f: Option<Vec<i64>>) -> Seq<i64> {
    match f {
        Some(v) => v@,
        None => Seq::empty(),
    }
}

/// The text of an optional field, empty where it is unset.
pub fn text_field(f: &Option<String>) -> (r: String)
    ensures
        r@ == text_or_empty(*f),
{
    match f {
        Some(s) => s.clone(),
        None => String::new(),
    }
}

/// The integer of an optional field, zero where it is unset.
pub fn int_field(f: Option<i64>) -> (r: i64)
    ensures
        r == int_or_zero(f),
{
    match f {
        Some(n) => n,
        None => 0,
    }
}

/// The flag of an optional field, `false` where it is unset.
pub fn flag_field(f: Option<bool>) -> (r: bool)
    ensures
        r == flag_or_false(f),
{
    match f {
        Some(b) => b,
        None => false,
    }
}

/// The identifier of an optional field, the integer zero where it is unset.
pub fn id_field(f: &Option<GGID>) -> (r: GGID)
    ensures
        r@ == id_or_zero(*f),
{
    match f {
        Some(i) => i.clone(),
        None => GGID::Int(0),
    }
}

/// The integers of an optional list field, empty where it is unset.
pub fn int_list_field(f: &Option<Vec<i64>>) -> (r: Vec<i64>)
    ensures
        r@ == ints_or_empty(*f),
{
    let mut r: Vec<i64> = Vec::new();
    match f {
        Some(v) => {
            let mut i: usize = 0;
            while i < v.len()
                invariant
                    i <= v@.len(),
                    r@ == v@.subrange(0, i as int),
                decreases v@.len() - i,
            {
                r.push(v[i]);
                i = i + 1;
            }
            assert(r@ =~= v@);
        },
        None => {},
    }
    r
}

} // verus!
