//! Nul-terminated wide strings, built through the `widestring` crate.
use vstd::prelude::*;
use widestring::error::ContainsNul;
use widestring::U16CString;

use crate::wide::utf16;

verus! {

#[verifier::external_type_specification]
#[verifier::external_body]
#[verifier::reject_recursive_types(C)]
pub struct ExContainsNul<C>(ContainsNul<C>);

/// Whether `units` can become a nul-terminated wide string: it holds no nul,
/// except possibly as its very last unit, which then serves as the terminator.
pub open spec fn is_c_units(units: Seq<u16>) -> bool {
    forall|i: int| 0 <= i < units.len() - 1 ==> #[trigger] units[i] != 0
}

/// The text of the nul-terminated wide string made from `units`: the units
/// without a trailing terminator.
pub open spec fn c_content(units: Seq<u16>) -> Seq<u16> {
    if units.len() > 0 && units.last() == 0 {
        units.drop_last()
    } else {
        units
    }
}

/// The text of a nul-terminated wide string holds no nul.
pub proof fn lemma_c_content_nul_free(units: Seq<u16>)
    requires
        is_c_units(units),
    ensures
        !c_content(units).contains(0),
{
    if c_content(units).contains(0) {
        let k = choose|k: int| 0 <= k < c_content(units).len() && c_content(units)[k] == 0;
        assert(units[k] == 0);
    }
}

/// Calls `widestring::U16CString::from_vec` and takes the string's units back with
/// `into_vec`. `from_vec` looks for the first nul: none, or one in the last
/// place, gives a string; any other gives `ContainsNul`. `into_vec` gives the
/// string's units without the terminator. The error's contents are not stated.
#[verifier::external_body]
pub(crate) fn c_units_from_vec(units: Vec<u16>) -> (r: Result<Vec<u16>, ContainsNul<u16>>)
    ensures
        r is Ok <==> is_c_units(units@),
        r matches Ok(text) ==> text@ == c_content(units@),
{
    match U16CString::from_vec(units) {
        Ok(s) => Ok(s.into_vec()),
        Err(e) => Err(e),
    }
}

/// Calls `widestring::U16CString::from_str` and takes the string's units back with
/// `into_vec`. `from_str` encodes `s` as UTF-16 and hands the units to
/// `from_vec`, with the outcome stated for `c_units_from_vec`. The error's
/// contents are not stated.
#[verifier::external_body]
pub(crate) fn c_units_from_str(s: &str) -> (r: Result<Vec<u16>, ContainsNul<u16>>)
    ensures
        r is Ok <==> is_c_units(utf16(s@)),
        r matches Ok(text) ==> text@ == c_content(utf16(s@)),
{
    match U16CString::from_str(s) {
        Ok(w) => Ok(w.into_vec()),
        Err(e) => Err(e),
    }
}

} // verus!
