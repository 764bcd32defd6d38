//! This module defines raw types that correspond 1:1 to the C types used in
//! [arcdps](https://www.deltaconnected.com/arcdps/evtc/README.txt).
//!
//! It is not advised to use those types and functions, as dealing with all the
//! low-level details can be quite tedious. Instead, use the higher-level
//! functions whenever possible.
mod types;

pub use self::types::{
    first_nul, name_prefix, Agent, CbtActivation, CbtBuffRemove, CbtCustomSkill, CbtEvent,
    CbtResult, CbtStateChange, Language, Skill, IFF,
};

pub mod parser;

pub use self::parser::{parse_file, parse_zip, Evtc, ParseError, ParseErrorKind, ParseResult};

use vstd::prelude::*;

verus! {

/// Return the bytes up to (not including) the first nul byte.
///
/// This is different to reading a nul-terminated string that must end exactly at the end of the
/// slice, in that it stops at the first nul byte instead of raising an error.
///
/// If the slice contains no nul byte, this function returns `None`.
pub fn cstr_up_to_nul(bytes: &[u8]) -> (r: Option<&[u8]>)
    ensures
        r is Some <==> exists|i: int| 0 <= i < bytes@.len() && bytes@[i] == 0,
        r matches Some(s) ==> s@ == bytes@.take(first_nul(bytes@)),
        r matches Some(s) ==> s@ == name_prefix(bytes@),
{
    let mut i: usize = 0;
    while i < bytes.len()
        invariant
            i <= bytes@.len(),
            forall|j: int| 0 <= j < i ==> bytes@[j] != 0,
        decreases bytes@.len() - i,
    {
        if bytes[i] == 0 {
            proof {
                lemma_first_nul_is(bytes@, i as int);
            }
            return Some(vstd::slice::slice_subrange(bytes, 0, i));
        }
        i = i + 1;
    }
    None
}

/// The first nul byte is the one that no other nul byte precedes.
pub proof fn lemma_first_nul_is(b: Seq<u8>, i: int)
    requires
        0 <= i < b.len(),
        b[i] == 0,
        forall|j: int| 0 <= j < i ==> b[j] != 0,
    ensures
        first_nul(b) == i,
        name_prefix(b) == b.take(i),
{
    let f = first_nul(b);
    assert(0 <= i < b.len() && b[i] == 0 && forall|j: int| 0 <= j < i ==> b[j] != 0);
    assert(0 <= f < b.len() && b[f] == 0 && forall|j: int| 0 <= j < f ==> b[j] != 0);
    if f < i {
        assert(b[f] != 0);
    }
    if f > i {
        assert(b[i] != 0);
    }
}

} // verus!
