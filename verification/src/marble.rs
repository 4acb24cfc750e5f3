//! A marble's position on the board: its current local track index and the
//! index it held before its last committed move.

use vstd::prelude::*;
use crate::board::BASE_INDEX;

verus! {

/// One marble. `index` is its current local track index (`BASE_INDEX` until
/// it enters play); `prev_index` is the index before its most recent
/// committed move, used for power-bar distance accrual.
#[derive(Debug, PartialEq, Eq, Structural, Clone, Copy)]
pub struct Marble {
    pub index: usize,
    pub prev_index: usize,
}

/// A marble's indices always stay on the board or at the base sentinel.
pub open spec fn marble_wf(m: Marble) -> bool {
    m.index <= BASE_INDEX && m.prev_index <= BASE_INDEX
}

impl Marble {
    /// A fresh marble, still in its base.
    pub fn new() -> (m: Marble)
        ensures
            m.index == BASE_INDEX,
            m.prev_index == BASE_INDEX,
            marble_wf(m),
    {
        Marble { index: BASE_INDEX, prev_index: BASE_INDEX }
    }

    /// Commits a move: remembers the current index as `prev_index` and takes
    /// the new one.
    pub fn update_index(&mut self, new_index: usize)
        ensures
            final(self).index == new_index,
            final(self).prev_index == old(self).index,
    {
        self.prev_index = self.index;
        self.index = new_index;
    }
}

} // verus!
