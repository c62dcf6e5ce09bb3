//! Segment selectors.

use vstd::prelude::*;

verus! {

/// A 16-bit segment selector. Its bits (table index, table indicator,
/// requested privilege level) are laid out by the architecture; they are
/// carried here untouched.
#[derive(Clone, Copy, Debug, PartialEq, Eq, Structural)]
pub struct SegmentSelector {
    bits: u16,
}

impl View for SegmentSelector {
    type V = u16;

    closed spec fn view(&self) -> u16 {
        self.bits
    }
}

impl SegmentSelector {
    /// The selector with exactly these bits.
    pub fn from_raw(bits: u16) -> (selector: SegmentSelector)
        ensures
            selector@ == bits,
    {
        SegmentSelector { bits }
    }

    /// The bits of the selector.
    pub fn bits(&self) -> (bits: u16)
        ensures
            bits == self@,
    {
        self.bits
    }
}

} // verus!
