//! The cursor over the branch list.

use vstd::prelude::*;
use crate::keys::Action;

verus! {

/// A cursor over the rows `0..=max` of a list.
#[derive(Debug, Clone, Copy, PartialEq, Eq, Structural)]
pub struct Selection {
    /// The highlighted row.
    pub index: usize,
    /// The last row the cursor may reach.
    pub max: usize,
}

impl Selection {
    /// The cursor lies within its list.
    pub open spec fn wf(self) -> bool {
        self.index <= self.max
    }

    /// The cursor one row higher, or unmoved on the first row.
    pub open spec fn up(self) -> Selection {
        if self.index > 0 {
            Selection { index: (self.index - 1) as usize, max: self.max }
        } else {
            self
        }
    }

    /// The cursor one row lower, or unmoved on the last row.
    pub open spec fn down(self) -> Selection {
        if self.index < self.max {
            Selection { index: (self.index + 1) as usize, max: self.max }
        } else {
            self
        }
    }

    /// The cursor after `action`: the two moves move it, and nothing else
    /// does.
    pub open spec fn after(self, action: Action) -> Selection {
        match action {
            Action::MoveUp => self.up(),
            Action::MoveDown => self.down(),
            _ => self,
        }
    }

    /// The cursor after each of `actions` in turn.
    pub open spec fn after_all(self, actions: Seq<Action>) -> Selection
        decreases actions.len(),
    {
        if actions.len() == 0 {
            self
        } else {
            self.after_all(actions.drop_last()).after(actions.last())
        }
    }

    /// A cursor on the first of `max + 1` rows.
    pub fn new(max: usize) -> (s: Selection)
        ensures
            s.index == 0,
            s.max == max,
            s.wf(),
    {
        Selection { index: 0, max }
    }

    /// Moves one row up; stays on the first row.
    pub fn move_up(&mut self)
        ensures
            *final(self) == old(self).up(),
            old(self).wf() ==> final(self).wf(),
    {
        if self.index > 0 {
            self.index -= 1;
        }
    }

    /// Moves one row down; stays on the last row.
    pub fn move_down(&mut self)
        ensures
            *final(self) == old(self).down(),
            old(self).wf() ==> final(self).wf(),
    {
        if self.index < self.max {
            self.index += 1;
        }
    }
}

/// However the cursor is moved, it stays within its list: after every one
/// of `actions` it lies on a row from the first to the last, and the last
/// row is the one it started with.
pub proof fn lemma_moves_stay_in_bounds(start: Selection, actions: Seq<Action>)
    requires
        start.wf(),
    ensures
        forall|n: int|
            0 <= n <= actions.len() ==> {
                let at = #[trigger] start.after_all(actions.take(n));
                0 <= at.index <= at.max && at.max == start.max
            },
{
    assert forall|n: int| 0 <= n <= actions.len() implies {
        let at = #[trigger] start.after_all(actions.take(n));
        0 <= at.index <= at.max && at.max == start.max
    } by {
        lemma_after_all_in_bounds(start, actions.take(n));
    }
}

/// Moving the cursor by `actions` leaves it within its list.
proof fn lemma_after_all_in_bounds(start: Selection, actions: Seq<Action>)
    requires
        start.wf(),
    ensures
        start.after_all(actions).wf(),
        start.after_all(actions).max == start.max,
    decreases actions.len(),
{
    if actions.len() > 0 {
        lemma_after_all_in_bounds(start, actions.drop_last());
    }
}

} // verus!
