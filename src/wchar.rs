//! Wide-character inputs: spans of a [`WideStr`], counted in code units.
use vstd::prelude::*;

use widestring::{WideChar, WideStr};

use crate::approx::{RegApproxMatch, RegaMatch};
use crate::exec::{all_fit, is_absent, match_slices, slice_for, span, RegMatch};

verus! {

#[verifier::external_type_specification]
#[verifier::external_body]
pub struct ExWideStr(WideStr);

/// The code units that a wide string holds.
pub uninterp spec fn wide_units(s: &WideStr) -> Seq<WideChar>;

/// Relies on `WideStr::as_slice`: it returns the string's code units.
#[verifier::external_body]
fn wide_as_slice<'a>(s: &'a WideStr) -> (r: &'a [WideChar])
    ensures
        r@ == wide_units(s),
{
    s.as_slice()
}

/// Relies on `WideStr::from_slice`: the string it returns holds exactly the given
/// code units.
#[verifier::external_body]
fn wide_from_slice<'a>(units: &'a [WideChar]) -> (r: &'a WideStr)
    ensures
        wide_units(r) == units@,
{
    WideStr::from_slice(units)
}

/// Matches of a wide input: one entry per slot, `None` for a slot without match.
pub type RegMatchWideStr<'a> = Vec<Option<&'a WideStr>>;

/// An approximate match over a wide string.
pub type RegApproxMatchWideStr<'a> = RegApproxMatch<&'a WideStr, &'a WideStr>;

/// `out` is what slot `m` denotes in the code units `units`: nothing for a slot
/// without match, else the wide string of the slot's span.
pub open spec fn wide_for(out: Option<&WideStr>, units: Seq<WideChar>, m: RegMatch) -> bool {
    match out {
        None => is_absent(m),
        Some(w) => !is_absent(m) && wide_units(w) == span(units, m),
    }
}

/// The wide string that each slot denotes in `string`, in slot order: `None` for
/// a slot with a negative offset, else the code units `[rm_so, rm_eo)`.
pub fn match_wide<'a>(string: &'a WideStr, slots: &[RegMatch]) -> (r: RegMatchWideStr<'a>)
    requires
        all_fit(slots@, wide_units(string).len() as int),
    ensures
        r@.len() == slots@.len(),
        forall|i: int|
            0 <= i < slots@.len() ==> wide_for(#[trigger] r@[i], wide_units(string), slots@[i]),
{
    let units = wide_as_slice(string);
    let spans = match_slices(units, slots);
    let mut r: RegMatchWideStr<'a> = Vec::with_capacity(spans.len());
    let mut i: usize = 0;
    while i < spans.len()
        invariant
            i <= spans@.len(),
            spans@.len() == slots@.len(),
            units@ == wide_units(string),
            r@.len() == i,
            forall|j: int| 0 <= j < slots@.len() ==> slice_for(#[trigger] spans@[j], units@, slots@[j]),
            forall|j: int| 0 <= j < i ==> wide_for(#[trigger] r@[j], wide_units(string), slots@[j]),
        decreases spans@.len() - i,
    {
        assert(slice_for(spans@[i as int], units@, slots@[i as int]));
        let entry = match spans[i] {
            None => None,
            Some(s) => Some(wide_from_slice(s)),
        };
        assert(wide_for(entry, wide_units(string), slots@[i as int]));
        r.push(entry);
        i = i + 1;
    }
    r
}

/// The result of an approximate match over `string`, from the slots and the
/// statistics that the engine filled: each entry is the wide string of its slot's
/// span, or `None`.
pub fn approx_match_wide<'a>(string: &'a WideStr, slots: &[RegMatch], amatch: RegaMatch) -> (r:
    RegApproxMatchWideStr<'a>)
    requires
        all_fit(slots@, wide_units(string).len() as int),
    ensures
        r.orig_data() == string,
        r.matches().len() == slots@.len(),
        forall|i: int|
            0 <= i < slots@.len() ==> wide_for(
                #[trigger] r.matches()[i],
                wide_units(string),
                slots@[i],
            ),
        r.regamatch() == amatch,
{
    RegApproxMatch::new(string, match_wide(string, slots), amatch)
}

/// The number of code units in `string`, the bound that slots of a match over it
/// must fit.
pub fn wide_len(string: &WideStr) -> (r: usize)
    ensures
        r == wide_units(string).len(),
{
    wide_as_slice(string).len()
}

} // verus!
