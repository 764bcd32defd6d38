//! Boss fight analyzers for Wing 5 (Hall of Chains).
use vstd::prelude::*;

use crate::analyzers::helpers::{
    boss_died, boss_health, boss_is_dead, character_views, find_character, first_with_ids,
    health_at_least, time_between_buffs, time_between_buffs_spec,
};
use crate::analyzers::{outcome_of, Analyzer, Outcome};
use crate::processing::{agent_views, event_views, lemma_event_views_step};
use crate::{
    find_by_addr, is_boss_addr, is_character_with_id, rewarded, AgentKind, AgentView, Encounter,
    EventKind, EventView, Log,
};

verus! {

/// The buff whose applications show Desmina's fear cycle.
pub const DESMINA_BUFF_ID: u32 = 47414;
/// The time between fear applications up to which Soulless Horror is in challenge mote.
pub const DESMINA_MS_THRESHOLD: u64 = 11_000;
/// The buff that Soulless Horror gets when she is defeated.
pub const DESMINA_DEATH_BUFF: u32 = 895;

/// The event applies the death buff to a boss agent of the log.
pub open spec fn is_desmina_death(log: &Log, event: EventView) -> bool {
    event.kind matches EventKind::BuffApplication { buff_id, destination_agent_addr, .. }
        && is_boss_addr(log, destination_agent_addr) && buff_id == DESMINA_DEATH_BUFF
}

/// Analyzer for the first fight of Wing 5, Soulless Horror (Desmina).
///
/// The CM is detected by the time between fear applications, which is shorter in the challenge
/// mote. The fight succeeded where the log was rewarded, or else where a boss agent got the death
/// buff.
#[derive(Debug, Clone, Copy)]
pub struct SoullessHorror<'log> {
    log: &'log Log,
}

impl<'log> SoullessHorror<'log> {
    /// Create a new [`SoullessHorror`] analyzer for the given log.
    ///
    /// **Do not** use this method unless you know what you are doing. Instead, rely on
    /// [`Log::analyzer`]!
    pub fn new(log: &'log Log) -> (r: Self)
        ensures
            r.spec_log() == *log,
    {
        SoullessHorror { log }
    }
}

impl<'log> Analyzer for SoullessHorror<'log> {
    closed spec fn spec_log(&self) -> Log {
        *self.log
    }

    open spec fn spec_is_cm(&self) -> bool {
        let tbb = time_between_buffs_spec(&self.spec_log(), DESMINA_BUFF_ID);
        tbb > 0 && tbb <= DESMINA_MS_THRESHOLD
    }

    open spec fn spec_outcome(&self) -> Option<Outcome> {
        if rewarded(&self.spec_log()) {
            Some(Outcome::Success)
        } else {
            outcome_of(
                exists|i: int|
                    0 <= i < self.spec_log().spec_events().len() && is_desmina_death(
                        &self.spec_log(),
                        #[trigger] self.spec_log().spec_events()[i]@,
                    ),
            )
        }
    }

    fn log(&self) -> (r: &Log) {
        self.log
    }

    fn is_cm(&self) -> (r: bool) {
        let tbb = time_between_buffs(self.log, DESMINA_BUFF_ID);
        tbb > 0 && tbb <= DESMINA_MS_THRESHOLD
    }

    fn outcome(&self) -> (r: Option<Outcome>) {
        if self.log.was_rewarded() {
            return Some(Outcome::Success);
        }
        let events = self.log.events();
        let mut i: usize = 0;
        while i < events.len()
            invariant
                i <= events@.len(),
                events@ == self.log.spec_events(),
                forall|j: int| 0 <= j < i ==> !is_desmina_death(self.log, #[trigger] events@[j]@),
            decreases events@.len() - i,
        {
            if let EventKind::BuffApplication { buff_id, destination_agent_addr, .. } = *events[i].kind() {
                if self.log.is_boss(destination_agent_addr) && buff_id == DESMINA_DEATH_BUFF {
                    assert(is_desmina_death(self.log, events@[i as int]@));
                    return Outcome::from_bool(true);
                }
            }
            i += 1;
        }
        Outcome::from_bool(false)
    }
}

/// The character ids of the trash mobs in the River of Souls.
pub const RIVER_TRASH_IDS: [u16; 6] = [0x4d97, 0x4bc7, 0x4d75, 0x4c05, 0x4bc8, 0x4cec];

/// The agent is a character with one of the ids of the River of Souls trash mobs.
pub open spec fn is_river_trash(agent: AgentView) -> bool {
    agent.kind matches AgentKind::Character(c) && (c.spec_id() == 0x4d97u16 || c.spec_id()
        == 0x4bc7u16 || c.spec_id() == 0x4d75u16 || c.spec_id() == 0x4c05u16 || c.spec_id()
        == 0x4bc8u16 || c.spec_id() == 0x4cecu16)
}

/// The latest last aware time of a trash mob among the agents, leaving out those that were never
/// seen (`u64::MAX`); 0 if there is none.
pub open spec fn latest_trash_aware(agents: Seq<AgentView>) -> u64
    decreases agents.len(),
{
    if agents.len() == 0 {
        0
    } else {
        let rest = latest_trash_aware(agents.drop_last());
        let a = agents.last();
        if is_river_trash(a) && a.last_aware != u64::MAX && a.last_aware > rest {
            a.last_aware
        } else {
            rest
        }
    }
}

/// The event is the despawn or the death of a player agent.
pub open spec fn is_player_loss(log: &Log, event: EventView) -> bool {
    match event.kind {
        EventKind::Despawn { agent_addr } => find_by_addr(log.spec_agents(), agent_addr) matches Some(
            a,
        ) && a@.kind is Player,
        EventKind::ChangeDead { agent_addr } => find_by_addr(log.spec_agents(), agent_addr) matches Some(
            a,
        ) && a@.kind is Player,
        _ => false,
    }
}

/// The number of events that are the despawn or the death of a player agent.
pub open spec fn player_losses(log: &Log, events: Seq<EventView>) -> nat
    decreases events.len(),
{
    if events.len() == 0 {
        0
    } else if is_player_loss(log, events.last()) {
        player_losses(log, events.drop_last()) + 1
    } else {
        player_losses(log, events.drop_last())
    }
}

/// There are fewer player deaths and despawns than players.
pub open spec fn some_player_alive_spec(log: &Log) -> bool {
    player_losses(log, event_views(log.spec_events())) < agent_views(log.spec_agents()).filter(
        |a: AgentView| a.kind is Player,
    ).len()
}

/// The outcome of the River of Souls: none where Desmina cannot be found; failed where she never
/// exits combat; else succeeded where trash was seen, Desmina did not despawn, she was seen at
/// least half a second after the last trash mob and some player is still alive.
pub open spec fn river_outcome(log: &Log) -> Option<Outcome> {
    let events = log.spec_events();
    match first_with_ids(character_views(log), 0x4D74, 0x4D74) {
        None => None,
        Some(desmina) => if !(exists|i: int|
            0 <= i < events.len() && #[trigger] events[i]@.kind == (EventKind::ExitCombat {
                agent_addr: desmina.addr,
            })) {
            Some(Outcome::Failure)
        } else {
            let trash_aware = latest_trash_aware(character_views(log));
            let despawned = exists|i: int|
                0 <= i < events.len() && #[trigger] events[i]@.kind == (EventKind::Despawn {
                    agent_addr: desmina.addr,
                });
            outcome_of(
                trash_aware != 0 && !despawned && trash_aware + 500 <= desmina.last_aware
                    && some_player_alive_spec(log),
            )
        },
    }
}

/// Analyzer for the River of Souls.
///
/// The event has no challenge mote.
#[derive(Debug, Clone, Copy)]
pub struct RiverOfSouls<'log> {
    log: &'log Log,
}

impl<'log> RiverOfSouls<'log> {
    /// Create a new [`RiverOfSouls`] analyzer for the given log.
    ///
    /// **Do not** use this method unless you know what you are doing. Instead, rely on
    /// [`Log::analyzer`]!
    pub fn new(log: &'log Log) -> (r: Self)
        ensures
            r.spec_log() == *log,
    {
        RiverOfSouls { log }
    }
}

impl<'log> Analyzer for RiverOfSouls<'log> {
    closed spec fn spec_log(&self) -> Log {
        *self.log
    }

    open spec fn spec_is_cm(&self) -> bool {
        false
    }

    open spec fn spec_outcome(&self) -> Option<Outcome> {
        if rewarded(&self.spec_log()) {
            Some(Outcome::Success)
        } else {
            river_outcome(&self.spec_log())
        }
    }

    fn log(&self) -> (r: &Log) {
        self.log
    }

    fn is_cm(&self) -> (r: bool) {
        false
    }

    fn outcome(&self) -> (r: Option<Outcome>) {
        if self.log.was_rewarded() {
            return Some(Outcome::Success);
        }
        // First, let's get the Desmina NPC
        let desmina_id = Encounter::RiverOfSouls.id();
        let desmina = find_character(self.log, desmina_id, desmina_id)?;
        let desmina_addr = desmina.addr();
        // We need to see when our friendly Desmina exited combat, because if she didn't, the event
        // failed.
        let events = self.log.events();
        let mut exited = false;
        let mut despawned = false;
        let mut i: usize = 0;
        while i < events.len()
            invariant
                i <= events@.len(),
                events@ == self.log.spec_events(),
                exited <==> exists|j: int|
                    0 <= j < i && #[trigger] events@[j]@.kind == (EventKind::ExitCombat {
                        agent_addr: desmina_addr,
                    }),
                despawned <==> exists|j: int|
                    0 <= j < i && #[trigger] events@[j]@.kind == (EventKind::Despawn {
                        agent_addr: desmina_addr,
                    }),
            decreases events@.len() - i,
        {
            match *events[i].kind() {
                EventKind::ExitCombat { agent_addr } => {
                    if agent_addr == desmina_addr {
                        exited = true;
                    }
                },
                EventKind::Despawn { agent_addr } => {
                    if agent_addr == desmina_addr {
                        despawned = true;
                    }
                },
                _ => {},
            }
            i += 1;
        }
        if !exited {
            return Some(Outcome::Failure);
        }
        let characters = self.log.characters();
        let ghost views = agent_views(characters@);
        let mut trash_aware: u64 = 0;
        let mut k: usize = 0;
        while k < characters.len()
            invariant
                k <= characters@.len(),
                views == agent_views(characters@),
                views == character_views(self.log),
                trash_aware == latest_trash_aware(views.take(k as int)),
            decreases characters@.len() - k,
        {
            assert(views.take(k + 1).drop_last() == views.take(k as int));
            assert(views.take(k + 1).last() == characters@[k as int]@);
            let id = characters[k].id();
            let last_aware = characters[k].last_aware();
            if (id == 0x4d97 || id == 0x4bc7 || id == 0x4d75 || id == 0x4c05 || id == 0x4bc8 || id
                == 0x4cec) && last_aware != u64::MAX && last_aware > trash_aware {
                trash_aware = last_aware;
            }
            k += 1;
        }
        assert(views.take(k as int) == views);
        let desmina_last_aware = desmina.last_aware();
        // Add some leeway and see if we saw Desmina after all the trash was gone
        Outcome::from_bool(
            trash_aware != 0 && !despawned && desmina_last_aware >= trash_aware
                && desmina_last_aware - trash_aware >= 500 && some_player_alive(self.log),
        )
    }
}

/// Checks whether there were fewer player deaths and despawns than players.
fn some_player_alive(log: &Log) -> (r: bool)
    ensures
        r == some_player_alive_spec(log),
{
    let events = log.events();
    let ghost views = event_views(log.spec_events());
    let mut deaths_and_dcs: usize = 0;
    let mut i: usize = 0;
    while i < events.len()
        invariant
            i <= events@.len(),
            events@ == log.spec_events(),
            views == event_views(log.spec_events()),
            deaths_and_dcs == player_losses(log, views.take(i as int)),
            deaths_and_dcs <= i,
        decreases events@.len() - i,
    {
        proof {
            lemma_event_views_step(events@, i as int);
        }
        let addr = match *events[i].kind() {
            EventKind::Despawn { agent_addr } => Some(agent_addr),
            EventKind::ChangeDead { agent_addr } => Some(agent_addr),
            _ => None,
        };
        if let Some(addr) = addr {
            let is_player = match log.agent_by_addr(addr) {
                Some(a) => a.kind().is_player(),
                None => false,
            };
            if is_player {
                deaths_and_dcs += 1;
            }
        }
        i += 1;
    }
    proof {
        assert(views.take(i as int) == views);
    }
    deaths_and_dcs < log.players().len()
}

/// The health from which on Dhuum is in challenge mote.
pub const DHUUM_CM_HEALTH: u64 = 40_000_000;

/// Analyzer for the final fight of Wing 5, Dhuum.
///
/// The CM is detected by the boss's health, which is higher in the challenge mote. The fight
/// succeeded where the log was rewarded, or else where a boss died.
#[derive(Debug, Clone, Copy)]
pub struct Dhuum<'log> {
    log: &'log Log,
}

impl<'log> Dhuum<'log> {
    /// Create a new [`Dhuum`] analyzer for the given log.
    ///
    /// **Do not** use this method unless you know what you are doing. Instead, rely on
    /// [`Log::analyzer`]!
    pub fn new(log: &'log Log) -> (r: Self)
        ensures
            r.spec_log() == *log,
    {
        Dhuum { log }
    }
}

impl<'log> Analyzer for Dhuum<'log> {
    closed spec fn spec_log(&self) -> Log {
        *self.log
    }

    open spec fn spec_is_cm(&self) -> bool {
        health_at_least(&self.spec_log(), DHUUM_CM_HEALTH)
    }

    open spec fn spec_outcome(&self) -> Option<Outcome> {
        if rewarded(&self.spec_log()) {
            Some(Outcome::Success)
        } else {
            outcome_of(boss_died(&self.spec_log()))
        }
    }

    fn log(&self) -> (r: &Log) {
        self.log
    }

    fn is_cm(&self) -> (r: bool) {
        match boss_health(self.log) {
            Some(h) => h >= DHUUM_CM_HEALTH,
            None => false,
        }
    }

    fn outcome(&self) -> (r: Option<Outcome>) {
        if self.log.was_rewarded() {
            return Some(Outcome::Success);
        }
        Outcome::from_bool(boss_is_dead(self.log))
    }
}


/// A Dhuum analysis always has an outcome: it succeeded exactly where the players were rewarded or a boss died, and it failed otherwise.
pub proof fn lemma_dhuum_outcome(a: Dhuum)
    ensures
        a.spec_outcome() is Some,
        a.spec_outcome() == Some(Outcome::Success) <==> (rewarded(&a.spec_log()) || boss_died(&a.spec_log())),
        a.spec_outcome() == Some(Outcome::Failure) <==> !(rewarded(&a.spec_log()) || boss_died(&a.spec_log())),
{
}


/// A SoullessHorror fight in which the players were rewarded succeeded.
pub proof fn lemma_soulless_horror_rewarded(a: SoullessHorror)
    ensures
        rewarded(&a.spec_log()) ==> a.spec_outcome() == Some(Outcome::Success),
{
}


/// A RiverOfSouls fight in which the players were rewarded succeeded.
pub proof fn lemma_river_of_souls_rewarded(a: RiverOfSouls)
    ensures
        rewarded(&a.spec_log()) ==> a.spec_outcome() == Some(Outcome::Success),
{
}

} // verus!
