//! The target range: the residues for which values are computed.
//!
//! Residues outside the range get no value, yet all residues of the
//! structure stay visible to the kernel as neighbours.

use vstd::prelude::*;

verus! {

/// One end of a range of residue indices.
#[derive(Clone, Copy, Debug, PartialEq, Eq, Structural)]
pub enum RangeLimit {
    /// No limit on this side.
    Unbounded,
    /// Up to and with this index.
    Included(usize),
    /// Up to and without this index.
    Excluded(usize),
}

/// A range of residue indices, given by its two ends.
#[derive(Clone, Copy, Debug, PartialEq, Eq, Structural)]
pub struct TargetRange {
    pub start: RangeLimit,
    pub end: RangeLimit,
}

impl TargetRange {
    /// The range without limits.
    pub open spec fn all_spec() -> TargetRange {
        TargetRange { start: RangeLimit::Unbounded, end: RangeLimit::Unbounded }
    }

    /// The half-open range from `start` up to, not with, `end`.
    pub open spec fn new_spec(start: usize, end: usize) -> TargetRange {
        TargetRange { start: RangeLimit::Included(start), end: RangeLimit::Excluded(end) }
    }

    /// The first index of the range.
    pub open spec fn first(self) -> int {
        match self.start {
            RangeLimit::Unbounded => 0,
            RangeLimit::Included(index) => index as int,
            RangeLimit::Excluded(index) => index + 1,
        }
    }

    /// The index after the last of the range, among `residue_count`
    /// residues.
    pub open spec fn past(self, residue_count: int) -> int {
        match self.end {
            RangeLimit::Unbounded => residue_count,
            RangeLimit::Included(index) => index + 1,
            RangeLimit::Excluded(index) => index as int,
        }
    }

    /// Whether the range lies within `residue_count` residues.
    pub open spec fn within(self, residue_count: int) -> bool {
        self.first() <= self.past(residue_count) <= residue_count
    }

    /// The number of residues in the range.
    pub open spec fn count(self, residue_count: int) -> int {
        self.past(residue_count) - self.first()
    }

    /// The range without limits: every residue is a target.
    #[verifier::when_used_as_spec(all_spec)]
    pub fn all() -> (range: TargetRange)
        ensures
            range == TargetRange::all_spec(),
    {
        TargetRange { start: RangeLimit::Unbounded, end: RangeLimit::Unbounded }
    }

    /// The half-open range from `start` up to, not with, `end`.
    #[verifier::when_used_as_spec(new_spec)]
    pub fn new(start: usize, end: usize) -> (range: TargetRange)
        ensures
            range == TargetRange::new_spec(start, end),
    {
        TargetRange { start: RangeLimit::Included(start), end: RangeLimit::Excluded(end) }
    }

    /// The first index and the index after the last, among `residue_count`
    /// residues; `None` where the range does not lie within them.
    pub fn resolve(&self, residue_count: usize) -> (ends: Option<(usize, usize)>)
        ensures
            ends is Some <==> self.within(residue_count as int),
            ends matches Some((first, past)) ==> first == self.first() && past == self.past(
                residue_count as int,
            ),
    {
        let first: usize = match self.start {
            RangeLimit::Unbounded => 0,
            RangeLimit::Included(index) => index,
            RangeLimit::Excluded(index) => {
                if index >= residue_count {
                    return None;
                }
                index + 1
            },
        };
        let past: usize = match self.end {
            RangeLimit::Unbounded => residue_count,
            RangeLimit::Included(index) => {
                if index >= residue_count {
                    return None;
                }
                index + 1
            },
            RangeLimit::Excluded(index) => index,
        };
        if first <= past && past <= residue_count {
            Some((first, past))
        } else {
            None
        }
    }
}

} // verus!
