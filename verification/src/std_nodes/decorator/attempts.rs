//! The attempt counter of the decorators that run their child again and
//! again.
use vstd::prelude::*;

verus! {

/// The limit is reached: there is one, and as many runs have been counted.
pub open spec fn limit_reached(limit: Option<u32>, made: nat) -> bool {
    match limit {
        Some(l) => made >= l,
        None => false,
    }
}

/// The count after one more completed run. Without a limit there is nothing
/// to count towards, and a count that has reached its limit stays there.
pub open spec fn counted(limit: Option<u32>, made: nat) -> nat {
    match limit {
        Some(l) => if made < l {
            made + 1
        } else {
            made
        },
        None => made,
    }
}

/// The count after `runs` more completed runs in a row.
pub open spec fn counted_times(limit: Option<u32>, made: nat, runs: nat) -> nat
    decreases runs,
{
    if runs == 0 {
        made
    } else {
        counted(limit, counted_times(limit, made, (runs - 1) as nat))
    }
}

/// The completed runs of a child, counted against an optional limit.
pub struct Attempts {
    /// Optional number of runs after which the decorator gives up.
    limit: Option<u32>,
    /// Number of times the child has run to completion.
    made: u32,
}

impl Attempts {
    /// The limit, if there is one.
    pub closed spec fn limit(&self) -> Option<u32> {
        self.limit
    }

    /// The number of completed runs counted so far.
    pub closed spec fn made(&self) -> nat {
        self.made as nat
    }

    /// The limit is reached.
    pub open spec fn exhausted(&self) -> bool {
        limit_reached(self.limit(), self.made())
    }

    /// A counter without a limit.
    pub fn unlimited() -> (a: Attempts)
        ensures
            a.limit() == None::<u32>,
            a.made() == 0,
    {
        Attempts { limit: None, made: 0 }
    }

    /// A counter with the given limit.
    pub fn limited(limit: u32) -> (a: Attempts)
        ensures
            a.limit() == Some(limit),
            a.made() == 0,
    {
        Attempts { limit: Some(limit), made: 0 }
    }

    /// Returns `true` if the limit is reached.
    pub fn is_exhausted(&self) -> (b: bool)
        ensures
            b == self.exhausted(),
    {
        match self.limit {
            Some(limit) => self.made >= limit,
            None => false,
        }
    }

    /// Counts one more completed run. A counter that has reached its limit
    /// stays there.
    pub fn count(&mut self)
        ensures
            final(self).limit() == old(self).limit(),
            final(self).made() == counted(old(self).limit(), old(self).made()),
    {
        match self.limit {
            Some(limit) => {
                if self.made < limit {
                    self.made += 1;
                }
            },
            None => {},
        }
    }

    /// Forgets the runs counted so far.
    pub fn clear(&mut self)
        ensures
            final(self).limit() == old(self).limit(),
            final(self).made() == 0,
    {
        self.made = 0;
    }
}

/// Every completed run counts until the limit is reached, and the limit is
/// reached with the run that makes the count equal to it, not before.
pub proof fn lemma_limit_reached_exactly(limit: u32, made: nat, runs: nat)
    requires
        made + runs <= limit,
    ensures
        counted_times(Some(limit), made, runs) == made + runs,
        limit_reached(Some(limit), counted_times(Some(limit), made, runs)) == (made + runs
            == limit),
    decreases runs,
{
    if runs > 0 {
        lemma_limit_reached_exactly(limit, made, (runs - 1) as nat);
    }
}

/// Without a limit no number of runs is one too many.
pub proof fn lemma_no_limit_never_reached(made: nat, runs: nat)
    ensures
        !limit_reached(None, counted_times(None, made, runs)),
{
}

} // verus!
