//! Boss fight analyzers for Wing 7 (The Key of Ahdashim).
use vstd::prelude::*;

use crate::analyzers::helpers::{boss_died, boss_health, boss_is_dead, health_at_least};
use crate::analyzers::{outcome_of, Analyzer, Outcome};
use crate::{rewarded, Log};

verus! {

/// The health from which on Cardinal Adina is in challenge mote.
pub const ADINA_CM_HEALTH: u64 = 24_800_000;

/// Analyzer for the first fight of Wing 7, Cardinal Adina.
///
/// The CM is detected by the boss's health, which is higher in the challenge mote. The fight
/// succeeded where the log was rewarded, or else where a boss died.
#[derive(Debug, Clone, Copy)]
pub struct CardinalAdina<'log> {
    log: &'log Log,
}

impl<'log> CardinalAdina<'log> {
    /// Create a new [`CardinalAdina`] analyzer for the given log.
    ///
    /// **Do not** use this method unless you know what you are doing. Instead, rely on
    /// [`Log::analyzer`]!
    pub fn new(log: &'log Log) -> (r: Self)
        ensures
            r.spec_log() == *log,
    {
        CardinalAdina { log }
    }
}

impl<'log> Analyzer for CardinalAdina<'log> {
    closed spec fn spec_log(&self) -> Log {
        *self.log
    }

    open spec fn spec_is_cm(&self) -> bool {
        health_at_least(&self.spec_log(), ADINA_CM_HEALTH)
    }

    open spec fn spec_outcome(&self) -> Option<Outcome> {
        if rewarded(&self.spec_log()) {
            Some(Outcome::Success)
        } else {
            outcome_of(boss_died(&self.spec_log()))
        }
    }

    fn log(&self) -> (r: &Log) {
        self.log
    }

    fn is_cm(&self) -> (r: bool) {
        match boss_health(self.log) {
            Some(h) => h >= ADINA_CM_HEALTH,
            None => false,
        }
    }

    fn outcome(&self) -> (r: Option<Outcome>) {
        if self.log.was_rewarded() {
            return Some(Outcome::Success);
        }
        Outcome::from_bool(boss_is_dead(self.log))
    }
}

/// The health from which on Cardinal Sabir is in challenge mote.
pub const SABIR_CM_HEALTH: u64 = 32_400_000;

/// Analyzer for the second fight of Wing 7, Cardinal Sabir.
///
/// The CM is detected by the boss's health, which is higher in the challenge mote. The fight
/// succeeded where the log was rewarded, or else where a boss died.
#[derive(Debug, Clone, Copy)]
pub struct CardinalSabir<'log> {
    log: &'log Log,
}

impl<'log> CardinalSabir<'log> {
    /// Create a new [`CardinalSabir`] analyzer for the given log.
    ///
    /// **Do not** use this method unless you know what you are doing. Instead, rely on
    /// [`Log::analyzer`]!
    pub fn new(log: &'log Log) -> (r: Self)
        ensures
            r.spec_log() == *log,
    {
        CardinalSabir { log }
    }
}

impl<'log> Analyzer for CardinalSabir<'log> {
    closed spec fn spec_log(&self) -> Log {
        *self.log
    }

    open spec fn spec_is_cm(&self) -> bool {
        health_at_least(&self.spec_log(), SABIR_CM_HEALTH)
    }

    open spec fn spec_outcome(&self) -> Option<Outcome> {
        if rewarded(&self.spec_log()) {
            Some(Outcome::Success)
        } else {
            outcome_of(boss_died(&self.spec_log()))
        }
    }

    fn log(&self) -> (r: &Log) {
        self.log
    }

    fn is_cm(&self) -> (r: bool) {
        match boss_health(self.log) {
            Some(h) => h >= SABIR_CM_HEALTH,
            None => false,
        }
    }

    fn outcome(&self) -> (r: Option<Outcome>) {
        if self.log.was_rewarded() {
            return Some(Outcome::Success);
        }
        Outcome::from_bool(boss_is_dead(self.log))
    }
}

/// The health from which on Qadim the Peerless is in challenge mote.
pub const QADIMP_CM_HEALTH: u64 = 51_000_000;

/// Analyzer for the final fight of Wing 7, Qadim the Peerless.
///
/// The CM is detected by the boss's health, which is higher in the challenge mote. The fight
/// succeeded where the log was rewarded, or else where a boss died.
#[derive(Debug, Clone, Copy)]
pub struct QadimThePeerless<'log> {
    log: &'log Log,
}

impl<'log> QadimThePeerless<'log> {
    /// Create a new [`QadimThePeerless`] analyzer for the given log.
    ///
    /// **Do not** use this method unless you know what you are doing. Instead, rely on
    /// [`Log::analyzer`]!
    pub fn new(log: &'log Log) -> (r: Self)
        ensures
            r.spec_log() == *log,
    {
        QadimThePeerless { log }
    }
}

impl<'log> Analyzer for QadimThePeerless<'log> {
    closed spec fn spec_log(&self) -> Log {
        *self.log
    }

    open spec fn spec_is_cm(&self) -> bool {
        health_at_least(&self.spec_log(), QADIMP_CM_HEALTH)
    }

    open spec fn spec_outcome(&self) -> Option<Outcome> {
        if rewarded(&self.spec_log()) {
            Some(Outcome::Success)
        } else {
            outcome_of(boss_died(&self.spec_log()))
        }
    }

    fn log(&self) -> (r: &Log) {
        self.log
    }

    fn is_cm(&self) -> (r: bool) {
        match boss_health(self.log) {
            Some(h) => h >= QADIMP_CM_HEALTH,
            None => false,
        }
    }

    fn outcome(&self) -> (r: Option<Outcome>) {
        if self.log.was_rewarded() {
            return Some(Outcome::Success);
        }
        Outcome::from_bool(boss_is_dead(self.log))
    }
}


/// A CardinalAdina analysis always has an outcome: it succeeded exactly where the players were rewarded or a boss died, and it failed otherwise.
pub proof fn lemma_cardinal_adina_outcome(a: CardinalAdina)
    ensures
        a.spec_outcome() is Some,
        a.spec_outcome() == Some(Outcome::Success) <==> (rewarded(&a.spec_log()) || boss_died(&a.spec_log())),
        a.spec_outcome() == Some(Outcome::Failure) <==> !(rewarded(&a.spec_log()) || boss_died(&a.spec_log())),
{
}


/// A CardinalSabir analysis always has an outcome: it succeeded exactly where the players were rewarded or a boss died, and it failed otherwise.
pub proof fn lemma_cardinal_sabir_outcome(a: CardinalSabir)
    ensures
        a.spec_outcome() is Some,
        a.spec_outcome() == Some(Outcome::Success) <==> (rewarded(&a.spec_log()) || boss_died(&a.spec_log())),
        a.spec_outcome() == Some(Outcome::Failure) <==> !(rewarded(&a.spec_log()) || boss_died(&a.spec_log())),
{
}


/// A QadimThePeerless analysis always has an outcome: it succeeded exactly where the players were rewarded or a boss died, and it failed otherwise.
pub proof fn lemma_qadim_the_peerless_outcome(a: QadimThePeerless)
    ensures
        a.spec_outcome() is Some,
        a.spec_outcome() == Some(Outcome::Success) <==> (rewarded(&a.spec_log()) || boss_died(&a.spec_log())),
        a.spec_outcome() == Some(Outcome::Failure) <==> !(rewarded(&a.spec_log()) || boss_died(&a.spec_log())),
{
}

} // verus!
