use vstd::prelude::*;

verus! {

/// What the terminal's mode must do after a guard was taken or released.
#[derive(Clone, Copy, Debug, PartialEq, Eq, Structural)]
pub enum ModeChange {
    /// Put the terminal into raw mode.
    EnterRaw,
    /// Restore the mode the terminal had before.
    Restore,
    /// Leave it as it is.
    Keep,
}

/// The process-wide count of raw-mode guards: the terminal is put into raw
/// mode by the first guard and restored by the release of the last, so
/// guards may nest and be released in any order.
pub struct RawModeCount {
    holders: usize,
}

impl View for RawModeCount {
    type V = nat;

    closed spec fn view(&self) -> nat {
        self.holders as nat
    }
}

impl RawModeCount {
    /// No guard is held.
    pub fn new() -> (r: Self)
        ensures
            r@ == 0,
    {
        RawModeCount { holders: 0 }
    }

    /// The number of guards held.
    pub fn holders(&self) -> (r: usize)
        ensures
            r == self@,
    {
        self.holders
    }

    /// Takes a guard; the first one puts the terminal into raw mode.
    pub fn acquire(&mut self) -> (r: ModeChange)
        requires
            old(self)@ < usize::MAX,
        ensures
            final(self)@ == old(self)@ + 1,
            r == (if old(self)@ == 0 {
                ModeChange::EnterRaw
            } else {
                ModeChange::Keep
            }),
    {
        self.holders = self.holders + 1;
        if self.holders == 1 {
            ModeChange::EnterRaw
        } else {
            ModeChange::Keep
        }
    }

    /// Releases a guard; the release of the last one restores the terminal.
    /// Releasing where none is held changes nothing.
    pub fn release(&mut self) -> (r: ModeChange)
        ensures
            final(self)@ == (if old(self)@ == 0 {
                0
            } else {
                (old(self)@ - 1) as nat
            }),
            r == (if old(self)@ == 1 {
                ModeChange::Restore
            } else {
                ModeChange::Keep
            }),
    {
        if self.holders == 0 {
            return ModeChange::Keep;
        }
        self.holders = self.holders - 1;
        if self.holders == 0 {
            ModeChange::Restore
        } else {
            ModeChange::Keep
        }
    }
}

} // verus!
