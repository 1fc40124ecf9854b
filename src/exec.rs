//! Submatch slots and the spans they denote.
//!
//! The engine fills a buffer of slots, one per requested submatch: slot 0 is the
//! whole match and slot `i` the `i`-th capture group. A slot with a negative
//! offset has no match; any other slot denotes the half-open span
//! `[rm_so, rm_eo)` of the input, in the input's own units.
use vstd::prelude::*;
use vstd::string::*;
use vstd::utf8::*;

use crate::err::{BindingErrorCode, ErrorKind, RegexError, Result};
use crate::text::{join, str_from_utf8};

verus! {

/// One submatch slot, as the engine fills it.
#[derive(Debug, Clone, Copy, PartialEq, Eq, Hash, Structural)]
pub struct RegMatch {
    /// Start offset, negative if the slot has no match.
    pub rm_so: i32,
    /// End offset, negative if the slot has no match.
    pub rm_eo: i32,
}

/// Matches of a byte input: one entry per slot, `None` for a slot without match.
pub type RegMatchBytes<'a> = Vec<Option<&'a [u8]>>;

/// Matches of a text input: one entry per slot, `None` for a slot without match,
/// and an error for a span that is not valid UTF-8 on its own.
pub type RegMatchStr<'a> = Vec<Option<Result<&'a str>>>;

/// The slot has no match.
pub open spec fn is_absent(m: RegMatch) -> bool {
    m.rm_so < 0 || m.rm_eo < 0
}

/// The slot has no match, or its span lies in an input of `len` units.
pub open spec fn fits(m: RegMatch, len: int) -> bool {
    is_absent(m) || (m.rm_so <= m.rm_eo && m.rm_eo <= len)
}

/// Every slot fits an input of `len` units.
pub open spec fn all_fit(slots: Seq<RegMatch>, len: int) -> bool {
    forall|i: int| 0 <= i < slots.len() ==> fits(#[trigger] slots[i], len)
}

/// The units of `data` that slot `m` covers.
pub open spec fn span<T>(data: Seq<T>, m: RegMatch) -> Seq<T> {
    data.subrange(m.rm_so as int, m.rm_eo as int)
}

/// `out` is what slot `m` denotes in `data`: nothing for a slot without match,
/// else the slot's span.
pub open spec fn slice_for<T>(out: Option<&[T]>, data: Seq<T>, m: RegMatch) -> bool {
    match out {
        None => is_absent(m),
        Some(s) => !is_absent(m) && s@ == span(data, m),
    }
}

/// `out` is the text form of a span `bytes`, or of no span: the text itself when
/// the bytes are valid UTF-8, an encoding error when they are not.
pub open spec fn text_for(out: Option<Result<&str>>, bytes: Option<Seq<u8>>) -> bool {
    match (out, bytes) {
        (None, None) => true,
        (Some(Ok(s)), Some(b)) => valid_utf8(b) && s.spec_bytes() == b,
        (Some(Err(e)), Some(b)) => !valid_utf8(b) && e.kind == ErrorKind::Binding(
            BindingErrorCode::ENCODING,
        ),
        _ => false,
    }
}

/// The bytes of an optional byte span.
pub open spec fn bytes_of(out: Option<&[u8]>) -> Option<Seq<u8>> {
    match out {
        None => None,
        Some(b) => Some(b@),
    }
}

/// A zeroed buffer of `nmatches` slots for the engine to fill.
pub fn new_slots(nmatches: usize) -> (r: Vec<RegMatch>)
    ensures
        r@.len() == nmatches,
        forall|i: int| 0 <= i < nmatches ==> #[trigger] r@[i] == (RegMatch { rm_so: 0, rm_eo: 0 }),
{
    let mut r: Vec<RegMatch> = Vec::with_capacity(nmatches);
    let mut i: usize = 0;
    while i < nmatches
        invariant
            i <= nmatches,
            r@.len() == i,
            forall|j: int| 0 <= j < i ==> #[trigger] r@[j] == (RegMatch { rm_so: 0, rm_eo: 0 }),
        decreases nmatches - i,
    {
        r.push(RegMatch { rm_so: 0, rm_eo: 0 });
        i = i + 1;
    }
    r
}

/// Whether every slot fits an input of `len` units, as the engine promises of
/// the slots it fills; spans are taken only of slots that do.
pub fn slots_fit(slots: &[RegMatch], len: usize) -> (r: bool)
    ensures
        r == all_fit(slots@, len as int),
{
    let mut i: usize = 0;
    while i < slots.len()
        invariant
            i <= slots@.len(),
            forall|j: int| 0 <= j < i ==> fits(#[trigger] slots@[j], len as int),
        decreases slots@.len() - i,
    {
        let m = slots[i];
        if m.rm_so >= 0 && m.rm_eo >= 0 && (m.rm_so > m.rm_eo || m.rm_eo as usize > len) {
            assert(!fits(slots@[i as int], len as int));
            return false;
        }
        i = i + 1;
    }
    true
}

/// The span of `data` that each slot denotes, in slot order: `None` for a slot
/// with a negative offset, else the slice `[rm_so, rm_eo)` of `data`. Each entry
/// depends on its own slot only.
pub fn match_slices<'a, T>(data: &'a [T], slots: &[RegMatch]) -> (r: Vec<Option<&'a [T]>>)
    requires
        all_fit(slots@, data@.len() as int),
    ensures
        r@.len() == slots@.len(),
        forall|i: int| 0 <= i < slots@.len() ==> slice_for(#[trigger] r@[i], data@, slots@[i]),
{
    let mut r: Vec<Option<&'a [T]>> = Vec::with_capacity(slots.len());
    let mut i: usize = 0;
    while i < slots.len()
        invariant
            i <= slots@.len(),
            r@.len() == i,
            all_fit(slots@, data@.len() as int),
            forall|j: int| 0 <= j < i ==> slice_for(#[trigger] r@[j], data@, slots@[j]),
        decreases slots@.len() - i,
    {
        let m = slots[i];
        assert(fits(slots@[i as int], data@.len() as int));
        if m.rm_so < 0 || m.rm_eo < 0 {
            r.push(None);
        } else {
            let s = &data[m.rm_so as usize..m.rm_eo as usize];
            r.push(Some(s));
        }
        i = i + 1;
    }
    r
}

/// The text form of byte spans, slot by slot: `None` stays `None`; a span that is
/// valid UTF-8 becomes that text; any other span becomes an encoding error for
/// that slot alone, whatever its siblings hold.
pub fn spans_to_str<'a>(spans: &Vec<Option<&'a [u8]>>) -> (r: RegMatchStr<'a>)
    ensures
        r@.len() == spans@.len(),
        forall|i: int| 0 <= i < spans@.len() ==> text_for(#[trigger] r@[i], bytes_of(spans@[i])),
{
    let mut r: RegMatchStr<'a> = Vec::with_capacity(spans.len());
    let mut i: usize = 0;
    while i < spans.len()
        invariant
            i <= spans@.len(),
            r@.len() == i,
            forall|j: int| 0 <= j < i ==> text_for(#[trigger] r@[j], bytes_of(spans@[j])),
        decreases spans@.len() - i,
    {
        match spans[i] {
            None => r.push(None),
            Some(b) => match str_from_utf8(b) {
                Ok(s) => r.push(Some(Ok(s))),
                Err(detail) => {
                    let message = join("UTF-8 encoding error: ", detail.as_str());
                    let e = RegexError::new(
                        ErrorKind::Binding(BindingErrorCode::ENCODING),
                        message.as_str(),
                    );
                    r.push(Some(Err(e)));
                },
            },
        }
        i = i + 1;
    }
    r
}

/// The text that each slot denotes in `string`, in slot order: `None` for a slot
/// without match, the span's text when the span is valid UTF-8, and an encoding
/// error for that slot when the span splits a character. Offsets count bytes.
pub fn match_strs<'a>(string: &'a str, slots: &[RegMatch]) -> (r: RegMatchStr<'a>)
    requires
        all_fit(slots@, string.spec_bytes().len() as int),
    ensures
        r@.len() == slots@.len(),
        forall|i: int|
            0 <= i < slots@.len() ==> text_for(
                #[trigger] r@[i],
                if is_absent(slots@[i]) {
                    None
                } else {
                    Some(span(string.spec_bytes(), slots@[i]))
                },
            ),
{
    let data = string.as_bytes();
    let spans = match_slices(data, slots);
    let r = spans_to_str(&spans);
    assert forall|i: int| 0 <= i < slots@.len() implies text_for(
        #[trigger] r@[i],
        if is_absent(slots@[i]) {
            None
        } else {
            Some(span(string.spec_bytes(), slots@[i]))
        },
    ) by {
        assert(slice_for(spans@[i], data@, slots@[i]));
        assert(text_for(r@[i], bytes_of(spans@[i])));
    }
    r
}

/// What the entries of a byte result hold: per slot, the bytes of its span or
/// nothing.
pub open spec fn span_views<T>(r: Seq<Option<&[T]>>) -> Seq<Option<Seq<T>>> {
    r.map_values(|e: Option<&[T]>| match e {
        None => None,
        Some(s) => Some(s@),
    })
}

/// The spans that a match yields are fixed by the engine's slots and the input:
/// two results that each meet the contract of [`match_slices`] for the same
/// input and slots hold the same spans.
pub proof fn lemma_spans_determined<T>(
    data: Seq<T>,
    slots: Seq<RegMatch>,
    r1: Seq<Option<&[T]>>,
    r2: Seq<Option<&[T]>>,
)
    requires
        r1.len() == slots.len(),
        r2.len() == slots.len(),
        forall|i: int| 0 <= i < slots.len() ==> slice_for(#[trigger] r1[i], data, slots[i]),
        forall|i: int| 0 <= i < slots.len() ==> slice_for(#[trigger] r2[i], data, slots[i]),
    ensures
        span_views(r1) == span_views(r2),
{
    assert forall|i: int| 0 <= i < slots.len() implies #[trigger] span_views(r1)[i] == span_views(
        r2,
    )[i] by {
        assert(slice_for(r1[i], data, slots[i]));
        assert(slice_for(r2[i], data, slots[i]));
    }
    assert(span_views(r1) =~= span_views(r2));
}

/// The text result of a match is the text form of the byte result of the same
/// slots over the string's bytes, slot by slot: a slot has a text entry exactly
/// when it has a byte entry; the text holds exactly that entry's bytes when they
/// are valid UTF-8, and the slot's entry is an encoding error when they are not.
pub proof fn lemma_text_agrees_with_bytes(
    string: &str,
    slots: Seq<RegMatch>,
    bytes: Seq<Option<&[u8]>>,
    texts: Seq<Option<Result<&str>>>,
)
    requires
        bytes.len() == slots.len(),
        texts.len() == slots.len(),
        forall|i: int|
            0 <= i < slots.len() ==> slice_for(#[trigger] bytes[i], string.spec_bytes(), slots[i]),
        forall|i: int|
            0 <= i < slots.len() ==> text_for(
                #[trigger] texts[i],
                if is_absent(slots[i]) {
                    None
                } else {
                    Some(span(string.spec_bytes(), slots[i]))
                },
            ),
    ensures
        forall|i: int| 0 <= i < slots.len() ==> text_for(#[trigger] texts[i], bytes_of(bytes[i])),
{
    assert forall|i: int| 0 <= i < slots.len() implies text_for(
        #[trigger] texts[i],
        bytes_of(bytes[i]),
    ) by {
        assert(slice_for(bytes[i], string.spec_bytes(), slots[i]));
    }
}

} // verus!
