//! One-shot cell that moves the sampler's handle from boot code into the
//! sampling interrupt, and the interrupt's own hold on it afterwards.
use vstd::prelude::*;

verus! {

/// Cell contents and the result of a claim on a cell holding `c`.
pub open spec fn spec_claim<T>(c: Option<T>) -> (Option<T>, Option<T>) {
    (None, c)
}

/// A slot filled once at boot and emptied by its first claim.
pub struct HandoffCell<T> {
    slot: Option<T>,
}

impl<T> View for HandoffCell<T> {
    type V = Option<T>;

    closed spec fn view(&self) -> Option<T> {
        self.slot
    }
}

impl<T> HandoffCell<T> {
    /// A cell staged with `handle`.
    pub fn new(handle: T) -> (r: HandoffCell<T>)
        ensures
            r@ == Some(handle),
    {
        HandoffCell { slot: Some(handle) }
    }

    /// Moves the handle out, leaving the cell empty for good.
    pub fn claim(&mut self) -> (r: Option<T>)
        ensures
            (final(self)@, r) == spec_claim(old(self)@),
    {
        self.slot.take()
    }

    /// Whether the handle is still waiting to be claimed.
    pub fn is_staged(&self) -> (r: bool)
        ensures
            r == self@ is Some,
    {
        self.slot.is_some()
    }
}

/// One claim only: the first claim on a cell returns what was staged, and
/// any claim after it returns nothing.
pub proof fn lemma_claim_once<T>(c: Option<T>)
    ensures
        spec_claim(c).1 == c,
        spec_claim(spec_claim(c).0).1 is None,
        spec_claim(spec_claim(c).0).0 is None,
{
}

/// Makes sure the sampler holds its handle: one it already holds is kept
/// and the cell is not touched; otherwise the handle is claimed from the
/// cell. Returns whether the sampler holds a handle afterwards.
pub fn ensure_held<T>(held: &mut Option<T>, cell: &mut HandoffCell<T>) -> (r: bool)
    ensures
        old(held).is_some() ==> *final(held) == *old(held) && final(cell)@ == old(cell)@,
        old(held).is_none() ==> (final(cell)@, *final(held)) == spec_claim(old(cell)@),
        r == final(held).is_some(),
{
    if held.is_some() {
        true
    } else {
        let h = cell.claim();
        let got = h.is_some();
        *held = h;
        got
    }
}

} // verus!
