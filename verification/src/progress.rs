//! Progress accounting for one unpacking run: a count of processed entries
//! against an estimated total, reported as an integer percentage.

use vstd::prelude::*;

verus! {

/// The total used when no reliable entry-count estimate is available; it
/// only keeps the percentage computation well-defined.
pub const FALLBACK_TOTAL: usize = 100;

/// The percentage of `done` out of `total`, capped at 100.
pub open spec fn percent_spec(done: int, total: int) -> int
    recommends
        1 <= total,
{
    if done * 100 / total > 100 {
        100
    } else {
        done * 100 / total
    }
}

/// `min(100, done * 100 / total)`, in integer arithmetic.
pub fn percent(done: usize, total: usize) -> (r: u8)
    requires
        1 <= total,
    ensures
        r == percent_spec(done as int, total as int),
        r <= 100,
{
    let p: u128 = (done as u128) * 100 / (total as u128);
    if p > 100 {
        100
    } else {
        p as u8
    }
}

/// With a fixed total of at least 1, the percentage never exceeds 100 and
/// is non-decreasing in the number of entries processed.
pub proof fn lemma_percent_monotone(d1: int, d2: int, total: int)
    requires
        0 <= d1 <= d2,
        1 <= total,
    ensures
        0 <= percent_spec(d1, total) <= percent_spec(d2, total),
        percent_spec(d2, total) <= 100,
{
    vstd::arithmetic::div_mod::lemma_div_pos_is_pos(d1 * 100, total);
    vstd::arithmetic::div_mod::lemma_div_is_ordered(d1 * 100, d2 * 100, total);
}

/// The progress of one run: entries processed so far against an estimated
/// total of at least 1.
pub struct Progress {
    pub done: usize,
    pub total: usize,
}

impl Progress {
    /// The estimated total is always at least 1.
    pub open spec fn wf(self) -> bool {
        1 <= self.total
    }

    /// The percentage this progress state reports.
    pub open spec fn spec_percent(self) -> int {
        percent_spec(self.done as int, self.total as int)
    }

    /// A fresh progress state: nothing processed, and the total taken from
    /// the estimate when it is usable, from `FALLBACK_TOTAL` otherwise.
    pub fn new(estimated_total: Option<usize>) -> (r: Progress)
        ensures
            r.wf(),
            r.done == 0,
            r.total == match estimated_total {
                Some(t) => if t >= 1 { t } else { FALLBACK_TOTAL as usize },
                None => FALLBACK_TOTAL as usize,
            },
    {
        let total = match estimated_total {
            Some(t) => if t >= 1 { t } else { FALLBACK_TOTAL },
            None => FALLBACK_TOTAL,
        };
        Progress { done: 0, total }
    }

    /// Record one extracted entry.  The reported percentage never drops.
    pub fn record_entry(&mut self)
        requires
            old(self).wf(),
            old(self).done < usize::MAX,
        ensures
            final(self).wf(),
            final(self).done == old(self).done + 1,
            final(self).total == old(self).total,
            old(self).spec_percent() <= final(self).spec_percent() <= 100,
    {
        proof {
            lemma_percent_monotone(
                self.done as int,
                self.done + 1 as int,
                self.total as int,
            );
        }
        self.done = self.done + 1;
    }

    /// The current percentage, between 0 and 100.
    pub fn current_percent(&self) -> (r: u8)
        requires
            self.wf(),
        ensures
            r == self.spec_percent(),
            r <= 100,
    {
        percent(self.done, self.total)
    }
}

} // verus!
