//! The player's stunt combo: jumps chain into a combo, a crash breaks it.
use vstd::prelude::*;

verus! {

/// The player's running stunt combo.
#[derive(Debug, Clone, Copy, PartialEq, Eq, Structural)]
pub struct StuntCombo {
    /// Stunts chained in the current combo.
    pub count: u32,
    /// Longest combo of the race.
    pub best: u32,
    /// The player was drifting on the previous step.
    pub drifting: bool,
}

/// Alert shown when a crash ends the player's stunts.
#[derive(Debug, Clone, Copy, PartialEq, Eq, Structural)]
pub enum ComboBreak {
    /// A combo of two stunts or more was lost.
    ComboBroken,
    /// A drift under way was lost.
    DriftVoided,
}

impl StuntCombo {
    /// The longest combo is never shorter than the current one.
    pub open spec fn wf(&self) -> bool {
        self.count <= self.best
    }

    /// A fresh combo at the start of a race.
    pub fn new() -> (r: StuntCombo)
        ensures
            r.wf(),
            r == (StuntCombo { count: 0, best: 0, drifting: false }),
    {
        StuntCombo { count: 0, best: 0, drifting: false }
    }

    /// A scored jump extends the combo (and the longest combo with it);
    /// returns whether the combo counter is shown (two stunts or more).
    pub fn land_jump(&mut self) -> (shown: bool)
        requires
            old(self).wf(),
            old(self).count < u32::MAX,
        ensures
            final(self).wf(),
            final(self).count == old(self).count + 1,
            final(self).best == (if old(self).best >= old(self).count + 1 {
                old(self).best as int
            } else {
                old(self).count + 1
            }),
            final(self).drifting == old(self).drifting,
            shown == (final(self).count >= 2),
    {
        self.count = self.count + 1;
        if self.best < self.count {
            self.best = self.count;
        }
        self.count >= 2
    }

    /// A crash of the player: a combo or a drift under way is lost; the
    /// alert names a broken combo of two or more, else a voided drift, and
    /// a single stunt is lost without an alert.
    pub fn crash(&mut self) -> (alert: Option<ComboBreak>)
        requires
            old(self).wf(),
        ensures
            final(self).wf(),
            final(self).best == old(self).best,
            (old(self).count > 0 || old(self).drifting) ==> final(self).count == 0 && !final(self).drifting,
            !(old(self).count > 0 || old(self).drifting) ==> *final(self) == *old(self),
            alert == (if old(self).count >= 2 {
                Some(ComboBreak::ComboBroken)
            } else if old(self).drifting {
                Some(ComboBreak::DriftVoided)
            } else {
                None
            }),
    {
        if self.count > 0 || self.drifting {
            let alert = if self.count >= 2 {
                Some(ComboBreak::ComboBroken)
            } else if self.drifting {
                Some(ComboBreak::DriftVoided)
            } else {
                None
            };
            self.count = 0;
            self.drifting = false;
            alert
        } else {
            None
        }
    }
}

} // verus!
