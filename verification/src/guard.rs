//! The flag that admits one session at a time.

use vstd::prelude::*;

verus! {

/// The exclusivity flag: set while a session is live.
///
/// Both operations take the guard by exclusive reference, so each is one
/// indivisible step for everyone who shares the guard.
#[derive(Debug)]
pub struct ExclusiveSessionGuard {
    held: bool,
}

impl View for ExclusiveSessionGuard {
    type V = bool;

    closed spec fn view(&self) -> bool {
        self.held
    }
}

impl ExclusiveSessionGuard {
    /// A guard that nobody holds.
    pub fn new() -> (guard: Self)
        ensures
            !guard@,
    {
        ExclusiveSessionGuard { held: false }
    }

    /// Whether the guard is held.
    pub fn is_held(&self) -> (held: bool)
        ensures
            held == self@,
    {
        self.held
    }

    /// Tests and sets the flag. The caller has won, and holds the guard, if
    /// and only if nobody held it; a loser is told at once and has changed
    /// nothing.
    pub fn acquire(&mut self) -> (won: bool)
        ensures
            won == !old(self)@,
            final(self)@,
    {
        let won = !self.held;
        self.held = true;
        won
    }

    /// Clears the flag, whoever held it.
    pub fn release(&mut self)
        ensures
            !final(self)@,
    {
        self.held = false;
    }
}

} // verus!
