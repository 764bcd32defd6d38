use vstd::prelude::*;

use crate::analyzers::helpers::{players_exit_after_boss, players_exit_after_boss_spec};
use crate::analyzers::{outcome_of, Analyzer, Outcome};
use crate::{rewarded, Log};

verus! {

/// Analyzer for the second fight of Wing 3, the Twisted Castle.
///
/// The fight has no challenge mote; it succeeded where the log was rewarded.
#[derive(Debug, Clone, Copy)]
pub struct TwistedCastle<'log> {
    log: &'log Log,
}

impl<'log> TwistedCastle<'log> {
    /// Create a new [`TwistedCastle`] analyzer for the given log.
    ///
    /// **Do not** use this method unless you know what you are doing. Instead, rely on
    /// [`Log::analyzer`]!
    pub fn new(log: &'log Log) -> (r: Self)
        ensures
            r.spec_log() == *log,
    {
        TwistedCastle { log }
    }
}

impl<'log> Analyzer for TwistedCastle<'log> {
    closed spec fn spec_log(&self) -> Log {
        *self.log
    }

    open spec fn spec_is_cm(&self) -> bool {
        false
    }

    open spec fn spec_outcome(&self) -> Option<Outcome> {
        outcome_of(rewarded(&self.spec_log()))
    }

    fn log(&self) -> (r: &Log) {
        self.log
    }

    fn is_cm(&self) -> (r: bool) {
        false
    }

    fn outcome(&self) -> (r: Option<Outcome>) {
        Outcome::from_bool(self.log.was_rewarded())
    }
}

/// Analyzer for the final fight of Wing 3, Xera.
///
/// The fight succeeded where the log was rewarded, or else where the players exit combat after
/// the boss.
#[derive(Debug, Clone, Copy)]
pub struct Xera<'log> {
    log: &'log Log,
}

impl<'log> Xera<'log> {
    /// Create a new [`Xera`] analyzer for the given log.
    ///
    /// **Do not** use this method unless you know what you are doing. Instead, rely on
    /// [`Log::analyzer`]!
    pub fn new(log: &'log Log) -> (r: Self)
        ensures
            r.spec_log() == *log,
    {
        Xera { log }
    }
}

impl<'log> Analyzer for Xera<'log> {
    closed spec fn spec_log(&self) -> Log {
        *self.log
    }

    open spec fn spec_is_cm(&self) -> bool {
        false
    }

    open spec fn spec_outcome(&self) -> Option<Outcome> {
        if rewarded(&self.spec_log()) {
            Some(Outcome::Success)
        } else {
            outcome_of(players_exit_after_boss_spec(&self.spec_log()))
        }
    }

    fn log(&self) -> (r: &Log) {
        self.log
    }

    fn is_cm(&self) -> (r: bool) {
        false
    }

    fn outcome(&self) -> (r: Option<Outcome>) {
        if self.log.was_rewarded() {
            return Some(Outcome::Success);
        }
        Outcome::from_bool(players_exit_after_boss(self.log))
    }
}


/// A TwistedCastle analysis always has an outcome: it succeeded exactly where the players were rewarded, and it failed otherwise.
pub proof fn lemma_twisted_castle_outcome(a: TwistedCastle)
    ensures
        a.spec_outcome() is Some,
        a.spec_outcome() == Some(Outcome::Success) <==> (rewarded(&a.spec_log())),
        a.spec_outcome() == Some(Outcome::Failure) <==> !(rewarded(&a.spec_log())),
{
}


/// A Xera analysis always has an outcome: it succeeded exactly where the players were rewarded or left combat only after Xera, and it failed otherwise.
pub proof fn lemma_xera_outcome(a: Xera)
    ensures
        a.spec_outcome() is Some,
        a.spec_outcome() == Some(Outcome::Success) <==> (rewarded(&a.spec_log()) || players_exit_after_boss_spec(&a.spec_log())),
        a.spec_outcome() == Some(Outcome::Failure) <==> !(rewarded(&a.spec_log()) || players_exit_after_boss_spec(&a.spec_log())),
{
}

} // verus!
