//! Heights of the remote chain: a revision number (incremented on chain
//! restarts) and a height within that revision, ordered lexicographically.
use vstd::prelude::*;

verus! {

/// A block height of the remote chain.
///
/// A valid height has `revision_height > 0`; heights are compared first by
/// `revision_number`, then by `revision_height`.
#[derive(Clone, Copy, Debug, PartialEq, Eq, Structural)]
pub struct Height {
    pub revision_number: u64,
    pub revision_height: u64,
}

impl Height {
    /// A height is well formed when its in-revision height is positive.
    pub open spec fn valid(self) -> bool {
        self.revision_height > 0
    }

    /// Strict lexicographic order on heights.
    pub open spec fn lt_spec(self, other: Height) -> bool {
        self.revision_number < other.revision_number
            || (self.revision_number == other.revision_number
                && self.revision_height < other.revision_height)
    }

    /// Non-strict lexicographic order on heights.
    pub open spec fn le_spec(self, other: Height) -> bool {
        self.lt_spec(other) || self == other
    }

    /// Builds a height; a zero in-revision height is rejected as malformed.
    pub fn new(revision_number: u64, revision_height: u64) -> (r: Option<Height>)
        ensures
            revision_height > 0 ==> r == Some(Height { revision_number, revision_height }),
            revision_height == 0 ==> r is None,
    {
        if revision_height == 0 {
            None
        } else {
            Some(Height { revision_number, revision_height })
        }
    }

    /// Decides the strict order `self < other`.
    pub fn lt(&self, other: &Height) -> (r: bool)
        ensures
            r == self.lt_spec(*other),
    {
        self.revision_number < other.revision_number
            || (self.revision_number == other.revision_number
                && self.revision_height < other.revision_height)
    }

    /// Decides the non-strict order `self <= other`.
    pub fn le(&self, other: &Height) -> (r: bool)
        ensures
            r == self.le_spec(*other),
    {
        self.lt(other)
            || (self.revision_number == other.revision_number
                && self.revision_height == other.revision_height)
    }

    /// The smaller of two heights in the lexicographic order.
    pub fn min_of(&self, other: &Height) -> (r: Height)
        ensures
            r == (if self.lt_spec(*other) { *self } else { *other }),
    {
        if self.lt(other) {
            *self
        } else {
            *other
        }
    }
}

/// The lexicographic order on heights is total: two heights are either
/// ordered one way, the other way, or equal.
pub proof fn lemma_height_order_total(a: Height, b: Height)
    ensures
        a.lt_spec(b) || b.lt_spec(a) || a == b,
        !(a.lt_spec(b) && b.lt_spec(a)),
{
}

/// The lexicographic order on heights is transitive.
pub proof fn lemma_height_order_transitive(a: Height, b: Height, c: Height)
    requires
        a.lt_spec(b),
        b.lt_spec(c),
    ensures
        a.lt_spec(c),
{
}

} // verus!
