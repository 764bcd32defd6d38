//! Analyzers for raid logs.
//!
//! Most of the fights can use the [`GenericRaid`][GenericRaid] analyzer. The exception to this are
//! fights which have a Challenge Mote (Wing 4, Wing 5, Wing 6, Wing 7), and fights which need to
//! use a different method to determine their outcome (Xera, Deimos, Soulless Horror, Conjured
//! Amalgamate, Qadim).
use vstd::prelude::*;

use crate::analyzers::helpers::{boss_died, boss_is_dead};
use crate::analyzers::{outcome_of, Analyzer, Outcome};
use crate::Log;

mod w3;
pub use w3::{TwistedCastle, Xera};

mod w4;
pub use w4::{Cairn, Deimos, MursaatOverseer, Samarog, CAIRN_CM_BUFF, DEIMOS_CM_HEALTH, MO_CM_HEALTH, SAMAROG_CM_HEALTH};


mod w5;
pub use w5::{
    Dhuum, RiverOfSouls, SoullessHorror, DESMINA_BUFF_ID, DESMINA_DEATH_BUFF, DESMINA_MS_THRESHOLD,
    DHUUM_CM_HEALTH, RIVER_TRASH_IDS,
};


mod w6;
pub use w6::{
    ConjuredAmalgamate, LargosTwins, Qadim, CA_CM_BUFF, LARGOS_CM_HEALTH, QADIM_CM_HEALTH, ZOMMOROS_ID,
};


mod w7;
pub use w7::{
    CardinalAdina, CardinalSabir, QadimThePeerless, ADINA_CM_HEALTH, QADIMP_CM_HEALTH, SABIR_CM_HEALTH,
};


verus! {

/// A generic raid analyzer that works for bosses without special interactions.
///
/// This analyzer always returns `false` for the Challenge Mote calculation.
///
/// The outcome of the fight is determined by whether the boss agent has a death event - which
/// works for a lot of fights, but not all of them.
#[derive(Debug, Clone, Copy)]
pub struct GenericRaid<'log> {
    log: &'log Log,
}

impl<'log> GenericRaid<'log> {
    /// Create a new [`GenericRaid`] analyzer for the given log.
    ///
    /// **Do not** use this method unless you know what you are doing. Instead, rely on
    /// [`Log::analyzer`]!
    pub fn new(log: &'log Log) -> (r: Self)
        ensures
            r.spec_log() == *log,
    {
        GenericRaid { log }
    }
}

impl<'log> Analyzer for GenericRaid<'log> {
    closed spec fn spec_log(&self) -> Log {
        *self.log
    }

    open spec fn spec_is_cm(&self) -> bool {
        false
    }

    open spec fn spec_outcome(&self) -> Option<Outcome> {
        outcome_of(boss_died(&self.spec_log()))
    }

    fn log(&self) -> (r: &Log) {
        self.log
    }

    fn is_cm(&self) -> (r: bool) {
        false
    }

    fn outcome(&self) -> (r: Option<Outcome>) {
        Outcome::from_bool(boss_is_dead(self.log))
    }
}


/// A GenericRaid analysis always has an outcome: it succeeded exactly where a boss died, and it failed otherwise.
pub proof fn lemma_generic_raid_outcome(a: GenericRaid)
    ensures
        a.spec_outcome() is Some,
        a.spec_outcome() == Some(Outcome::Success) <==> (boss_died(&a.spec_log())),
        a.spec_outcome() == Some(Outcome::Failure) <==> !(boss_died(&a.spec_log())),
{
}

} // verus!
