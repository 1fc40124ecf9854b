//! Approximate matching: its parameters, its cost statistics and its results.
use vstd::prelude::*;
use vstd::string::*;

use crate::err::Result;
use crate::exec::{all_fit, is_absent, match_slices, slice_for, span, spans_to_str, text_for, RegMatch};

verus! {

/// The engine's approximate-matching parameters.
#[derive(Debug, Clone, Copy, PartialEq, Eq, Hash, Structural)]
pub struct RegaParams {
    /// Cost of an inserted character.
    pub cost_ins: i32,
    /// Cost of a deleted character.
    pub cost_del: i32,
    /// Cost of a substituted character.
    pub cost_subst: i32,
    /// Largest total cost allowed.
    pub max_cost: i32,
    /// Largest number of insertions allowed.
    pub max_ins: i32,
    /// Largest number of deletions allowed.
    pub max_del: i32,
    /// Largest number of substitutions allowed.
    pub max_subst: i32,
    /// Largest number of errors of any kind allowed.
    pub max_err: i32,
}

/// The parameters with every field zero, the engine structure's default.
pub open spec fn zero_params() -> RegaParams {
    RegaParams {
        cost_ins: 0,
        cost_del: 0,
        cost_subst: 0,
        max_cost: 0,
        max_ins: 0,
        max_del: 0,
        max_subst: 0,
        max_err: 0,
    }
}

/// Parameters for approximate matching, built by value: each setter returns a
/// new value and leaves the one it was called on as it was.
#[derive(Debug, Clone, Copy)]
pub struct RegApproxParams(RegaParams);

impl View for RegApproxParams {
    type V = RegaParams;

    closed spec fn view(&self) -> RegaParams {
        self.0
    }
}

impl RegApproxParams {
    /// Parameters with every field zero.
    pub fn new() -> (r: Self)
        ensures
            r@ == zero_params(),
    {
        RegApproxParams(
            RegaParams {
                cost_ins: 0,
                cost_del: 0,
                cost_subst: 0,
                max_cost: 0,
                max_ins: 0,
                max_del: 0,
                max_subst: 0,
                max_err: 0,
            },
        )
    }

    /// A copy with `cost_ins` set.
    pub fn cost_ins(&self, cost_ins: i32) -> (r: Self)
        ensures
            r@ == (RegaParams { cost_ins, ..self@ }),
    {
        let mut copy = *self;
        copy.0.cost_ins = cost_ins;
        copy
    }

    /// A copy with `cost_del` set.
    pub fn cost_del(&self, cost_del: i32) -> (r: Self)
        ensures
            r@ == (RegaParams { cost_del, ..self@ }),
    {
        let mut copy = *self;
        copy.0.cost_del = cost_del;
        copy
    }

    /// A copy with `cost_subst` set.
    pub fn cost_subst(&self, cost_subst: i32) -> (r: Self)
        ensures
            r@ == (RegaParams { cost_subst, ..self@ }),
    {
        let mut copy = *self;
        copy.0.cost_subst = cost_subst;
        copy
    }

    /// A copy with `max_cost` set.
    pub fn max_cost(&self, max_cost: i32) -> (r: Self)
        ensures
            r@ == (RegaParams { max_cost, ..self@ }),
    {
        let mut copy = *self;
        copy.0.max_cost = max_cost;
        copy
    }

    /// A copy with `max_ins` set.
    pub fn max_ins(&self, max_ins: i32) -> (r: Self)
        ensures
            r@ == (RegaParams { max_ins, ..self@ }),
    {
        let mut copy = *self;
        copy.0.max_ins = max_ins;
        copy
    }

    /// A copy with `max_del` set.
    pub fn max_del(&self, max_del: i32) -> (r: Self)
        ensures
            r@ == (RegaParams { max_del, ..self@ }),
    {
        let mut copy = *self;
        copy.0.max_del = max_del;
        copy
    }

    /// A copy with `max_subst` set.
    pub fn max_subst(&self, max_subst: i32) -> (r: Self)
        ensures
            r@ == (RegaParams { max_subst, ..self@ }),
    {
        let mut copy = *self;
        copy.0.max_subst = max_subst;
        copy
    }

    /// A copy with `max_err` set.
    pub fn max_err(&self, max_err: i32) -> (r: Self)
        ensures
            r@ == (RegaParams { max_err, ..self@ }),
    {
        let mut copy = *self;
        copy.0.max_err = max_err;
        copy
    }

    /// The parameters.
    pub fn get(&self) -> (r: &RegaParams)
        ensures
            *r == self@,
    {
        &self.0
    }

    /// Mutable access to the parameters.
    pub fn get_mut(&mut self) -> (r: &mut RegaParams)
        ensures
            *r == old(self)@,
            final(self)@ == *final(r),
    {
        &mut self.0
    }
}

impl Default for RegApproxParams {
    fn default() -> (r: Self)
        ensures
            r@ == zero_params(),
    {
        Self::new()
    }
}

/// The cost statistics of an approximate match, as the engine reports them.
#[derive(Debug, Clone, Copy, PartialEq, Eq, Hash, Structural)]
pub struct RegaMatch {
    /// Total cost of the match.
    pub cost: i32,
    /// Number of insertions.
    pub num_ins: i32,
    /// Number of deletions.
    pub num_del: i32,
    /// Number of substitutions.
    pub num_subst: i32,
}

/// The result of an approximate match: the input it was run on, one entry per
/// slot, and the match's cost statistics.
#[derive(Debug, Clone)]
pub struct RegApproxMatch<Data, Res> {
    data: Data,
    matches: Vec<Option<Res>>,
    amatch: RegaMatch,
}

/// An approximate match over bytes.
pub type RegApproxMatchBytes<'a> = RegApproxMatch<&'a [u8], &'a [u8]>;

/// An approximate match over text; a span that is not valid UTF-8 is an error
/// of its own slot.
pub type RegApproxMatchStr<'a> = RegApproxMatch<&'a str, Result<&'a str>>;

impl<Data, Res> RegApproxMatch<Data, Res> {
    /// The input the match was run on.
    pub closed spec fn orig_data(&self) -> Data {
        self.data
    }

    /// The entries, one per slot.
    pub closed spec fn matches(&self) -> Seq<Option<Res>> {
        self.matches@
    }

    /// The cost statistics.
    pub closed spec fn regamatch(&self) -> RegaMatch {
        self.amatch
    }

    /// A result of the given parts.
    pub fn new(data: Data, matches: Vec<Option<Res>>, amatch: RegaMatch) -> (r: Self)
        ensures
            r.orig_data() == data,
            r.matches() == matches@,
            r.regamatch() == amatch,
    {
        RegApproxMatch { data, matches, amatch }
    }

    /// Total cost of the match.
    pub fn cost(&self) -> (r: i32)
        ensures
            r == self.regamatch().cost,
    {
        self.amatch.cost
    }

    /// Number of insertions in the match.
    pub fn num_ins(&self) -> (r: i32)
        ensures
            r == self.regamatch().num_ins,
    {
        self.amatch.num_ins
    }

    /// Number of deletions in the match.
    pub fn num_del(&self) -> (r: i32)
        ensures
            r == self.regamatch().num_del,
    {
        self.amatch.num_del
    }

    /// Number of substitutions in the match.
    pub fn num_subst(&self) -> (r: i32)
        ensures
            r == self.regamatch().num_subst,
    {
        self.amatch.num_subst
    }

    /// The input the match was run on.
    pub fn get_orig_data(&self) -> (r: &Data)
        ensures
            *r == self.orig_data(),
    {
        &self.data
    }

    /// The entries, one per slot.
    pub fn get_matches(&self) -> (r: &Vec<Option<Res>>)
        ensures
            r@ == self.matches(),
    {
        &self.matches
    }

    /// The cost statistics.
    pub fn get_regamatch(&self) -> (r: &RegaMatch)
        ensures
            *r == self.regamatch(),
    {
        &self.amatch
    }
}

/// The result of an approximate match over `data`, from the slots and the
/// statistics that the engine filled: each entry is the span of `data` that its
/// slot denotes, or `None`.
pub fn approx_match_bytes<'a>(data: &'a [u8], slots: &[RegMatch], amatch: RegaMatch) -> (r:
    RegApproxMatchBytes<'a>)
    requires
        all_fit(slots@, data@.len() as int),
    ensures
        r.orig_data() == data,
        r.matches().len() == slots@.len(),
        forall|i: int|
            0 <= i < slots@.len() ==> slice_for(#[trigger] r.matches()[i], data@, slots@[i]),
        r.regamatch() == amatch,
{
    RegApproxMatch::new(data, match_slices(data, slots), amatch)
}

/// The result of an approximate match over `string`, from the slots and the
/// statistics that the engine filled: each entry is the text of its slot's span,
/// `None`, or an encoding error for that slot alone.
pub fn approx_match_str<'a>(string: &'a str, slots: &[RegMatch], amatch: RegaMatch) -> (r:
    RegApproxMatchStr<'a>)
    requires
        all_fit(slots@, string.spec_bytes().len() as int),
    ensures
        r.orig_data() == string,
        r.matches().len() == slots@.len(),
        forall|i: int|
            0 <= i < slots@.len() ==> text_for(
                #[trigger] r.matches()[i],
                if is_absent(slots@[i]) {
                    None
                } else {
                    Some(span(string.spec_bytes(), slots@[i]))
                },
            ),
        r.regamatch() == amatch,
{
    let data = string.as_bytes();
    let spans = match_slices(data, slots);
    let texts = spans_to_str(&spans);
    let r = RegApproxMatch::new(string, texts, amatch);
    assert forall|i: int| 0 <= i < slots@.len() implies text_for(
        #[trigger] r.matches()[i],
        if is_absent(slots@[i]) {
            None
        } else {
            Some(span(string.spec_bytes(), slots@[i]))
        },
    ) by {
        assert(slice_for(spans@[i], data@, slots@[i]));
        assert(texts@[i] == r.matches()[i]);
    }
    r
}

} // verus!
