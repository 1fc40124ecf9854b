//! The handle that owns a compiled pattern.
//!
//! A handle is Live, owning exactly one resource that the engine's compiler
//! produced, or Vacant, owning nothing. Every native operation reaches the
//! resource through [`Regex::compiled`], which refuses a vacant handle. Freeing
//! goes through [`Regex::release`], which hands the resource out once and leaves
//! the handle vacant, so no resource is freed twice.
use vstd::prelude::*;

use crate::err::{RegexError, Result};

verus! {

/// A handle on a compiled pattern of type `R`.
#[derive(Debug)]
pub struct Regex<R>(Option<R>);

impl<R> View for Regex<R> {
    type V = Option<R>;

    closed spec fn view(&self) -> Option<R> {
        self.0
    }
}

impl<R> Regex<R> {
    /// The handle owns no resource.
    pub open spec fn is_vacant(&self) -> bool {
        self@ is None
    }

    /// Releasing `before` leaves `after` and hands out `out`: the resource that
    /// `before` owned, if any, while `after` owns nothing.
    pub open spec fn releases(before: Self, after: Self, out: Option<R>) -> bool {
        &&& out == before@
        &&& after.is_vacant()
    }

    /// What [`Regex::compiled`] returns on `h`: the owned resource, or the
    /// vacant-handle error when there is none.
    pub open spec fn compiled_outcome(h: Self, outcome: Result<&R>) -> bool {
        match h@ {
            None => outcome matches Err(e) && e.is_vacant_handle(),
            Some(x) => outcome matches Ok(y) && *y == x,
        }
    }

    /// A live handle on `regex`.
    ///
    /// `regex` must have been produced by the engine's compiler, or released from
    /// another handle, and be owned by nothing else: whoever destroys the handle
    /// frees what it releases.
    pub fn new_from(regex: R) -> (r: Self)
        ensures
            r@ == Some(regex),
    {
        Regex(Some(regex))
    }

    /// Takes the resource out of the handle, which is vacant afterwards. The
    /// caller becomes responsible for freeing what is returned.
    pub fn release(&mut self) -> (r: Option<R>)
        ensures
            Self::releases(*old(self), *final(self), r),
    {
        self.0.take()
    }

    /// The resource, if the handle owns one.
    pub fn get(&self) -> (r: &Option<R>)
        ensures
            *r == self@,
    {
        &self.0
    }

    /// Mutable access to the resource slot.
    pub fn get_mut(&mut self) -> (r: &mut Option<R>)
        ensures
            *r == old(self)@,
            final(self)@ == *final(r),
    {
        &mut self.0
    }

    /// The resource that a native operation on this handle works on; for a vacant
    /// handle, the vacant-handle error, before anything reaches the engine.
    pub fn compiled(&self) -> (r: Result<&R>)
        ensures
            Self::compiled_outcome(*self, r),
    {
        match &self.0 {
            Some(x) => Ok(x),
            None => Err(RegexError::vacant()),
        }
    }
}

/// Once a handle's resource is released, every operation on the handle is refused
/// with the vacant-handle error: the handle hands no resource to the engine.
pub proof fn lemma_released_handle_refuses<R>(
    h: Regex<R>,
    after: Regex<R>,
    out: Option<R>,
    outcome: Result<&R>,
)
    requires
        Regex::releases(h, after, out),
        Regex::compiled_outcome(after, outcome),
    ensures
        outcome matches Err(e) && e.is_vacant_handle(),
{
}

/// A resource is handed out for freeing at most once: releasing a handle yields
/// what it owned, and releasing it again yields nothing. Destroying a handle frees
/// what a release yields, so a handle released before its destruction frees
/// nothing then, and a live handle destroyed once frees its resource once.
pub proof fn lemma_release_at_most_once<R>(
    h: Regex<R>,
    first_after: Regex<R>,
    first: Option<R>,
    second_after: Regex<R>,
    second: Option<R>,
)
    requires
        Regex::releases(h, first_after, first),
        Regex::releases(first_after, second_after, second),
    ensures
        first == h@,
        second is None,
        second_after.is_vacant(),
{
}

} // verus!
