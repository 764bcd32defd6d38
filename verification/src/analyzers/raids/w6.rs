//! Boss fight analyzers for Wing 6 (Mythwright Gambit).
use vstd::prelude::*;

use crate::analyzers::helpers::{
    boss_health, buff_present, has_buff, health_at_least, players_exit_after_boss,
    players_exit_after_boss_spec,
};
use crate::analyzers::{outcome_of, Analyzer, Outcome};
use crate::{find_by_addr, is_character_with_id, Boss, EventKind, EventView, Log};

verus! {

/// The buff that shows Conjured Amalgamate's challenge mote.
pub const CA_CM_BUFF: u32 = 53_075;
/// The character id of Zommoros, who spawns when Conjured Amalgamate is defeated.
pub const ZOMMOROS_ID: u16 = 21_118;

/// The event spawns Zommoros.
pub open spec fn is_zommoros_spawn(log: &Log, event: EventView) -> bool {
    event.kind matches EventKind::Spawn { agent_addr } && (find_by_addr(
        log.spec_agents(),
        agent_addr,
    ) matches Some(a) && is_character_with_id(a@, ZOMMOROS_ID))
}

/// Analyzer for the first fight of Wing 6, Conjured Amalgamate.
///
/// The CM is detected by the presence of its buff. The fight succeeded where Zommoros spawned.
#[derive(Debug, Clone, Copy)]
pub struct ConjuredAmalgamate<'log> {
    log: &'log Log,
}

impl<'log> ConjuredAmalgamate<'log> {
    /// Create a new [`ConjuredAmalgamate`] analyzer for the given log.
    ///
    /// **Do not** use this method unless you know what you are doing. Instead, rely on
    /// [`Log::analyzer`]!
    pub fn new(log: &'log Log) -> (r: Self)
        ensures
            r.spec_log() == *log,
    {
        ConjuredAmalgamate { log }
    }
}

impl<'log> Analyzer for ConjuredAmalgamate<'log> {
    closed spec fn spec_log(&self) -> Log {
        *self.log
    }

    open spec fn spec_is_cm(&self) -> bool {
        has_buff(&self.spec_log(), CA_CM_BUFF)
    }

    open spec fn spec_outcome(&self) -> Option<Outcome> {
        outcome_of(
            exists|i: int|
                0 <= i < self.spec_log().spec_events().len() && is_zommoros_spawn(
                    &self.spec_log(),
                    #[trigger] self.spec_log().spec_events()[i]@,
                ),
        )
    }

    fn log(&self) -> (r: &Log) {
        self.log
    }

    fn is_cm(&self) -> (r: bool) {
        buff_present(self.log, CA_CM_BUFF)
    }

    fn outcome(&self) -> (r: Option<Outcome>) {
        let events = self.log.events();
        let mut i: usize = 0;
        while i < events.len()
            invariant
                i <= events@.len(),
                events@ == self.log.spec_events(),
                forall|j: int| 0 <= j < i ==> !is_zommoros_spawn(self.log, #[trigger] events@[j]@),
            decreases events@.len() - i,
        {
            if let EventKind::Spawn { agent_addr } = *events[i].kind() {
                if let Some(agent) = self.log.agent_by_addr(agent_addr) {
                    if let Some(c) = agent.as_character() {
                        if c.id() == ZOMMOROS_ID {
                            assert(is_zommoros_spawn(self.log, events@[i as int]@));
                            assert(is_zommoros_spawn(
                                &self.spec_log(),
                                self.spec_log().spec_events()[i as int]@,
                            ));
                            return Some(Outcome::Success);
                        }
                    }
                }
            }
            i += 1;
        }
        Some(Outcome::Failure)
    }
}

/// The health from which on the Largos Twins are in challenge mote.
pub const LARGOS_CM_HEALTH: u64 = 19_200_000;

/// The event is the death of a character with the given id.
pub open spec fn is_death_of(log: &Log, event: EventView, id: u16) -> bool {
    event.kind matches EventKind::ChangeDead { agent_addr } && (find_by_addr(
        log.spec_agents(),
        agent_addr,
    ) matches Some(a) && is_character_with_id(a@, id))
}

/// A character with the given id died.
pub open spec fn died(log: &Log, id: u16) -> bool {
    exists|i: int|
        0 <= i < log.spec_events().len() && is_death_of(log, #[trigger] log.spec_events()[i]@, id)
}

/// Analyzer for the second fight of Wing 6, the Largos Twins.
///
/// The CM is detected by the boss's health, which is higher in the challenge mote. The fight
/// succeeded where both Nikare and Kenut died.
#[derive(Debug, Clone, Copy)]
pub struct LargosTwins<'log> {
    log: &'log Log,
}

impl<'log> LargosTwins<'log> {
    /// Create a new [`LargosTwins`] analyzer for the given log.
    ///
    /// **Do not** use this method unless you know what you are doing. Instead, rely on
    /// [`Log::analyzer`]!
    pub fn new(log: &'log Log) -> (r: Self)
        ensures
            r.spec_log() == *log,
    {
        LargosTwins { log }
    }
}

impl<'log> Analyzer for LargosTwins<'log> {
    closed spec fn spec_log(&self) -> Log {
        *self.log
    }

    open spec fn spec_is_cm(&self) -> bool {
        health_at_least(&self.spec_log(), LARGOS_CM_HEALTH)
    }

    open spec fn spec_outcome(&self) -> Option<Outcome> {
        outcome_of(
            died(&self.spec_log(), Boss::Kenut.code()) && died(
                &self.spec_log(),
                Boss::Nikare.code(),
            ),
        )
    }

    fn log(&self) -> (r: &Log) {
        self.log
    }

    fn is_cm(&self) -> (r: bool) {
        match boss_health(self.log) {
            Some(h) => h >= LARGOS_CM_HEALTH,
            None => false,
        }
    }

    fn outcome(&self) -> (r: Option<Outcome>) {
        let nikare_id = Boss::Nikare.id();
        let kenut_id = Boss::Kenut.id();
        let mut nikare_dead = false;
        let mut kenut_dead = false;
        let events = self.log.events();
        let mut i: usize = 0;
        while i < events.len()
            invariant
                i <= events@.len(),
                events@ == self.log.spec_events(),
                nikare_id == Boss::Nikare.code(),
                kenut_id == Boss::Kenut.code(),
                nikare_dead <==> exists|j: int|
                    0 <= j < i && is_death_of(self.log, #[trigger] events@[j]@, nikare_id),
                kenut_dead <==> exists|j: int|
                    0 <= j < i && is_death_of(self.log, #[trigger] events@[j]@, kenut_id),
            decreases events@.len() - i,
        {
            if let EventKind::ChangeDead { agent_addr } = *events[i].kind() {
                if let Some(agent) = self.log.agent_by_addr(agent_addr) {
                    if let Some(c) = agent.as_character() {
                        let id = c.id();
                        if id == nikare_id {
                            assert(is_death_of(self.log, events@[i as int]@, nikare_id));
                            nikare_dead = true;
                        } else if id == kenut_id {
                            assert(is_death_of(self.log, events@[i as int]@, kenut_id));
                            kenut_dead = true;
                        }
                    }
                }
            }
            i += 1;
        }
        Outcome::from_bool(kenut_dead && nikare_dead)
    }
}

/// The health from which on Qadim is in challenge mote.
pub const QADIM_CM_HEALTH: u64 = 21_100_000;

/// Analyzer for the final fight of Wing 6, Qadim.
///
/// The CM is detected by the boss's health, which is higher in the challenge mote. The fight
/// succeeded where the players exit combat after the boss.
#[derive(Debug, Clone, Copy)]
pub struct Qadim<'log> {
    log: &'log Log,
}

impl<'log> Qadim<'log> {
    /// Create a new [`Qadim`] analyzer for the given log.
    ///
    /// **Do not** use this method unless you know what you are doing. Instead, rely on
    /// [`Log::analyzer`]!
    pub fn new(log: &'log Log) -> (r: Self)
        ensures
            r.spec_log() == *log,
    {
        Qadim { log }
    }
}

impl<'log> Analyzer for Qadim<'log> {
    closed spec fn spec_log(&self) -> Log {
        *self.log
    }

    open spec fn spec_is_cm(&self) -> bool {
        health_at_least(&self.spec_log(), QADIM_CM_HEALTH)
    }

    open spec fn spec_outcome(&self) -> Option<Outcome> {
        outcome_of(players_exit_after_boss_spec(&self.spec_log()))
    }

    fn log(&self) -> (r: &Log) {
        self.log
    }

    fn is_cm(&self) -> (r: bool) {
        match boss_health(self.log) {
            Some(h) => h >= QADIM_CM_HEALTH,
            None => false,
        }
    }

    fn outcome(&self) -> (r: Option<Outcome>) {
        Outcome::from_bool(players_exit_after_boss(self.log))
    }
}


/// A LargosTwins analysis always has an outcome: it succeeded exactly where both Kenut and Nikare died, and it failed otherwise.
pub proof fn lemma_largos_twins_outcome(a: LargosTwins)
    ensures
        a.spec_outcome() is Some,
        a.spec_outcome() == Some(Outcome::Success) <==> (died(&a.spec_log(), Boss::Kenut.code()) && died(&a.spec_log(), Boss::Nikare.code())),
        a.spec_outcome() == Some(Outcome::Failure) <==> !(died(&a.spec_log(), Boss::Kenut.code()) && died(&a.spec_log(), Boss::Nikare.code())),
{
}


/// A Qadim analysis always has an outcome: it succeeded exactly where the players left combat only after Qadim, and it failed otherwise.
pub proof fn lemma_qadim_outcome(a: Qadim)
    ensures
        a.spec_outcome() is Some,
        a.spec_outcome() == Some(Outcome::Success) <==> (players_exit_after_boss_spec(&a.spec_log())),
        a.spec_outcome() == Some(Outcome::Failure) <==> !(players_exit_after_boss_spec(&a.spec_log())),
{
}

} // verus!
