//! Compile-time and execution-time flag sets.
//!
//! Each set is a value wrapping a bitmask. Adding and removing flags builds a new
//! value; the mask is handed to the matching engine without interpretation.
use vstd::prelude::*;

verus! {

/// The integer type of a flag mask, as the matching engine takes it.
pub type RegFlags = i32;

/// Flags for compiling a pattern.
#[derive(Debug, Clone, Copy, PartialEq, Eq, PartialOrd, Ord, Hash, Structural)]
pub struct RegcompFlags(RegFlags);

impl View for RegcompFlags {
    type V = RegFlags;

    closed spec fn view(&self) -> RegFlags {
        self.0
    }
}

impl RegcompFlags {
    /// POSIX basic syntax (the absence of `EXTENDED`).
    pub const BASIC: RegFlags = 0;

    /// POSIX extended syntax.
    pub const EXTENDED: RegFlags = 1;

    /// Ignore case.
    pub const ICASE: RegFlags = Self::EXTENDED << 1;

    /// `.` and bracket expressions do not match a newline; `^` and `$` match at line breaks.
    pub const NEWLINE: RegFlags = Self::ICASE << 1;

    /// Report only success or failure, no submatches.
    pub const NOSUB: RegFlags = Self::NEWLINE << 1;

    /// The whole pattern is a literal string.
    pub const LITERAL: RegFlags = Self::NOSUB << 1;

    /// Concatenation is right associative.
    pub const RIGHT_ASSOC: RegFlags = Self::LITERAL << 1;

    /// Repetition operators are non-greedy by default.
    pub const UNGREEDY: RegFlags = Self::RIGHT_ASSOC << 1;

    /// Treat the pattern and the input as bytes, not multibyte characters.
    pub const USEBYTES: RegFlags = Self::UNGREEDY << 1;

    /// The empty flag set.
    pub fn new() -> (r: Self)
        ensures
            r@ == 0,
    {
        RegcompFlags(0)
    }

    /// A copy of this set with the bits of `flag` set.
    pub fn add(&self, flag: RegFlags) -> (r: Self)
        ensures
            r@ == self@ | flag,
    {
        RegcompFlags(self.0 | flag)
    }

    /// A copy of this set with the bits of `flag` cleared.
    pub fn remove(&self, flag: RegFlags) -> (r: Self)
        ensures
            r@ == self@ & !flag,
    {
        RegcompFlags(self.0 & !flag)
    }

    /// The mask.
    pub fn get(&self) -> (r: RegFlags)
        ensures
            r == self@,
    {
        self.0
    }
}

impl Default for RegcompFlags {
    fn default() -> (r: Self)
        ensures
            r@ == 0,
    {
        Self::new()
    }
}

/// Flags for executing a compiled pattern.
#[derive(Debug, Clone, Copy, PartialEq, Eq, PartialOrd, Ord, Hash, Structural)]
pub struct RegexecFlags(RegFlags);

impl View for RegexecFlags {
    type V = RegFlags;

    closed spec fn view(&self) -> RegFlags {
        self.0
    }
}

impl RegexecFlags {
    /// No flag.
    pub const NONE: RegFlags = 0;

    /// The start of the input is not the beginning of a line.
    pub const NOTBOL: RegFlags = 1;

    /// The end of the input is not the end of a line.
    pub const NOTEOL: RegFlags = Self::NOTBOL << 1;

    /// Use the approximate matcher.
    pub const APPROX_MATCHER: RegFlags = Self::NOTEOL << 1;

    /// Use the backtracking matcher.
    pub const BACKTRACKING_MATCHER: RegFlags = Self::APPROX_MATCHER << 1;

    /// The empty flag set.
    pub fn new() -> (r: Self)
        ensures
            r@ == 0,
    {
        RegexecFlags(0)
    }

    /// A copy of this set with the bits of `flag` set.
    pub fn add(&self, flag: RegFlags) -> (r: Self)
        ensures
            r@ == self@ | flag,
    {
        RegexecFlags(self.0 | flag)
    }

    /// A copy of this set with the bits of `flag` cleared.
    pub fn remove(&self, flag: RegFlags) -> (r: Self)
        ensures
            r@ == self@ & !flag,
    {
        RegexecFlags(self.0 & !flag)
    }

    /// The mask.
    pub fn get(&self) -> (r: RegFlags)
        ensures
            r == self@,
    {
        self.0
    }
}

impl Default for RegexecFlags {
    fn default() -> (r: Self)
        ensures
            r@ == 0,
    {
        Self::new()
    }
}

/// Adding flags does not depend on the order: adding `a` then `b` to a mask gives
/// the mask that adding `b` then `a` gives.
pub proof fn lemma_add_order_independent(mask: RegFlags, a: RegFlags, b: RegFlags)
    ensures
        (mask | a) | b == (mask | b) | a,
{
    assert((mask | a) | b == (mask | b) | a) by (bit_vector);
}

/// Adding a flag that is already present leaves the mask as it was.
pub proof fn lemma_add_idempotent(mask: RegFlags, a: RegFlags)
    ensures
        (mask | a) | a == mask | a,
{
    assert((mask | a) | a == mask | a) by (bit_vector);
}

/// Removing a flag that was just added leaves the mask it started from without that
/// flag's bits: in particular a mask that lacked them comes back unchanged.
pub proof fn lemma_remove_undoes_add(mask: RegFlags, a: RegFlags)
    ensures
        (mask | a) & !a == mask & !a,
        mask & a == 0 ==> (mask | a) & !a == mask,
{
    assert((mask | a) & !a == mask & !a) by (bit_vector);
    assert(mask & a == 0 ==> (mask | a) & !a == mask) by (bit_vector);
}

} // verus!
