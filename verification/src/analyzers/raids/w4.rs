//! Boss fight analyzers for Wing 4 (Bastion of the Penitent).
use vstd::prelude::*;

use crate::analyzers::helpers::{
    boss_died, boss_health, boss_is_dead, buff_present, has_buff, health_at_least,
};
use crate::analyzers::{outcome_of, Analyzer, Outcome};
use crate::processing::{event_views, lemma_event_views_step};
use crate::text::str_eq;
use crate::{find_by_addr, AgentKind, EventKind, EventView, Log};

verus! {

/// The buff that shows the countdown of Cairn's challenge mote.
pub const CAIRN_CM_BUFF: u32 = 38_098;

/// Analyzer for the first fight of Wing 4, Cairn.
///
/// The CM is detected by the presence of the buff representing the countdown before which you have
/// to use your special action skill.
#[derive(Debug, Clone, Copy)]
pub struct Cairn<'log> {
    log: &'log Log,
}

impl<'log> Cairn<'log> {
    /// Create a new [`Cairn`] analyzer for the given log.
    ///
    /// **Do not** use this method unless you know what you are doing. Instead, rely on
    /// [`Log::analyzer`]!
    pub fn new(log: &'log Log) -> (r: Self)
        ensures
            r.spec_log() == *log,
    {
        Cairn { log }
    }
}

impl<'log> Analyzer for Cairn<'log> {
    closed spec fn spec_log(&self) -> Log {
        *self.log
    }

    open spec fn spec_is_cm(&self) -> bool {
        has_buff(&self.spec_log(), CAIRN_CM_BUFF)
    }

    open spec fn spec_outcome(&self) -> Option<Outcome> {
        outcome_of(boss_died(&self.spec_log()))
    }

    fn log(&self) -> (r: &Log) {
        self.log
    }

    fn is_cm(&self) -> (r: bool) {
        buff_present(self.log, CAIRN_CM_BUFF)
    }

    fn outcome(&self) -> (r: Option<Outcome>) {
        Outcome::from_bool(boss_is_dead(self.log))
    }
}

/// The health from which on Mursaat Overseer is in challenge mote.
pub const MO_CM_HEALTH: u64 = 30_000_000;

/// Analyzer for the second fight of Wing 4, Mursaat Overseer.
///
/// The CM is detected by the boss's health, which is higher in the challenge mote.
#[derive(Debug, Clone, Copy)]
pub struct MursaatOverseer<'log> {
    log: &'log Log,
}

impl<'log> MursaatOverseer<'log> {
    /// Create a new [`MursaatOverseer`] analyzer for the given log.
    ///
    /// **Do not** use this method unless you know what you are doing. Instead, rely on
    /// [`Log::analyzer`]!
    pub fn new(log: &'log Log) -> (r: Self)
        ensures
            r.spec_log() == *log,
    {
        MursaatOverseer { log }
    }
}

impl<'log> Analyzer for MursaatOverseer<'log> {
    closed spec fn spec_log(&self) -> Log {
        *self.log
    }

    open spec fn spec_is_cm(&self) -> bool {
        health_at_least(&self.spec_log(), MO_CM_HEALTH)
    }

    open spec fn spec_outcome(&self) -> Option<Outcome> {
        outcome_of(boss_died(&self.spec_log()))
    }

    fn log(&self) -> (r: &Log) {
        self.log
    }

    fn is_cm(&self) -> (r: bool) {
        match boss_health(self.log) {
            Some(h) => h >= MO_CM_HEALTH,
            None => false,
        }
    }

    fn outcome(&self) -> (r: Option<Outcome>) {
        Outcome::from_bool(boss_is_dead(self.log))
    }
}

/// The health from which on Samarog is in challenge mote.
pub const SAMAROG_CM_HEALTH: u64 = 40_000_000;

/// Analyzer for the third fight of Wing 4, Samarog.
///
/// The CM is detected by the boss's health, which is higher in the challenge mote.
#[derive(Debug, Clone, Copy)]
pub struct Samarog<'log> {
    log: &'log Log,
}

impl<'log> Samarog<'log> {
    /// Create a new [`Samarog`] analyzer for the given log.
    ///
    /// **Do not** use this method unless you know what you are doing. Instead, rely on
    /// [`Log::analyzer`]!
    pub fn new(log: &'log Log) -> (r: Self)
        ensures
            r.spec_log() == *log,
    {
        Samarog { log }
    }
}

impl<'log> Analyzer for Samarog<'log> {
    closed spec fn spec_log(&self) -> Log {
        *self.log
    }

    open spec fn spec_is_cm(&self) -> bool {
        health_at_least(&self.spec_log(), SAMAROG_CM_HEALTH)
    }

    open spec fn spec_outcome(&self) -> Option<Outcome> {
        outcome_of(boss_died(&self.spec_log()))
    }

    fn log(&self) -> (r: &Log) {
        self.log
    }

    fn is_cm(&self) -> (r: bool) {
        match boss_health(self.log) {
            Some(h) => h >= SAMAROG_CM_HEALTH,
            None => false,
        }
    }

    fn outcome(&self) -> (r: Option<Outcome>) {
        Outcome::from_bool(boss_is_dead(self.log))
    }
}

/// The health from which on Deimos is in challenge mote.
pub const DEIMOS_CM_HEALTH: u64 = 42_000_000;

/// The time of the last event that makes an agent targetable, or 0 if there is none.
pub open spec fn last_targetable_time(events: Seq<EventView>) -> u64
    decreases events.len(),
{
    if events.len() == 0 {
        0
    } else if events.last().kind matches EventKind::Targetable { targetable, .. } && targetable {
        events.last().time
    } else {
        last_targetable_time(events.drop_last())
    }
}

/// The event is an attack target whose parent is the gadget named "Deimos".
pub open spec fn is_deimos_attack_target(log: &Log, event: EventView) -> bool {
    event.kind matches EventKind::AttackTarget { parent_agent_addr, .. } && (find_by_addr(
        log.spec_agents(),
        parent_agent_addr,
    ) matches Some(parent) && parent@.kind matches AgentKind::Gadget(g) && g.spec_name()
        == "Deimos"@)
}

/// The attack target of the last of the events that is Deimos's attack target, or 0.
pub open spec fn deimos_attack_target(log: &Log, events: Seq<EventView>) -> u64
    decreases events.len(),
{
    if events.len() == 0 {
        0
    } else if is_deimos_attack_target(log, events.last()) {
        match events.last().kind {
            EventKind::AttackTarget { agent_addr, .. } => agent_addr,
            _ => 0,
        }
    } else {
        deimos_attack_target(log, events.drop_last())
    }
}

/// The latest combat exit time of a player and the latest time at which the attack target becomes
/// untargetable, after one more event.
pub open spec fn deimos_exit_step(log: &Log, at_address: u64, exits: (u64, u64), event: EventView) -> (
    u64,
    u64,
) {
    match event.kind {
        EventKind::ExitCombat { agent_addr } => if (find_by_addr(log.spec_agents(), agent_addr) matches Some(
            a,
        ) && a@.kind is Player) && event.time >= exits.0 {
            (event.time, exits.1)
        } else {
            exits
        },
        EventKind::Targetable { agent_addr, targetable } => if agent_addr == at_address
            && !targetable && event.time >= exits.1 {
            (exits.0, event.time)
        } else {
            exits
        },
        _ => exits,
    }
}

/// The latest exit times over the events (0 where there is none).
pub open spec fn deimos_exits(log: &Log, at_address: u64, events: Seq<EventView>) -> (u64, u64)
    decreases events.len(),
{
    if events.len() == 0 {
        (0, 0)
    } else {
        deimos_exit_step(log, at_address, deimos_exits(log, at_address, events.drop_last()), events.last())
    }
}

/// The outcome of a Deimos fight: failed where Deimos never reached the 10% split or his attack
/// target cannot be found, else succeeded where the players exit combat more than a second after
/// the attack target became untargetable.
pub open spec fn deimos_outcome(log: &Log) -> Option<Outcome> {
    let events = event_views(log.spec_events());
    let at_address = deimos_attack_target(log, events);
    if last_targetable_time(events) == 0 || at_address == 0 {
        Some(Outcome::Failure)
    } else {
        let exits = deimos_exits(log, at_address, events);
        outcome_of(exits.0 > exits.1 + 1000)
    }
}

/// Analyzer for the fourth fight of Wing 4, Deimos.
///
/// The CM is detected by the boss's health, which is higher in the challenge mote.
#[derive(Debug, Clone, Copy)]
pub struct Deimos<'log> {
    log: &'log Log,
}

impl<'log> Deimos<'log> {
    /// Create a new [`Deimos`] analyzer for the given log.
    ///
    /// **Do not** use this method unless you know what you are doing. Instead, rely on
    /// [`Log::analyzer`]!
    pub fn new(log: &'log Log) -> (r: Self)
        ensures
            r.spec_log() == *log,
    {
        Deimos { log }
    }
}

impl<'log> Analyzer for Deimos<'log> {
    closed spec fn spec_log(&self) -> Log {
        *self.log
    }

    open spec fn spec_is_cm(&self) -> bool {
        health_at_least(&self.spec_log(), DEIMOS_CM_HEALTH)
    }

    open spec fn spec_outcome(&self) -> Option<Outcome> {
        deimos_outcome(&self.spec_log())
    }

    fn log(&self) -> (r: &Log) {
        self.log
    }

    fn is_cm(&self) -> (r: bool) {
        match boss_health(self.log) {
            Some(h) => h >= DEIMOS_CM_HEALTH,
            None => false,
        }
    }

    fn outcome(&self) -> (r: Option<Outcome>) {
        // The idea for Deimos is that we first need to figure out when the 10% split happens (if
        // it even happens), then we can find the time when 10%-Deimos becomes untargetable and
        // then we can compare this time to the player exit time.
        let split_time = deimos_10_time(self.log);
        // We never got to 10%, so this is a fail.
        if split_time == 0 {
            return Some(Outcome::Failure);
        }
        let at_address = deimos_at_address(self.log);
        if at_address == 0 {
            return Some(Outcome::Failure);
        }
        let events = self.log.events();
        let ghost views = event_views(self.log.spec_events());
        let mut player_exit: u64 = 0;
        let mut at_exit: u64 = 0;
        let mut i: usize = 0;
        while i < events.len()
            invariant
                i <= events@.len(),
                events@ == self.log.spec_events(),
                views == event_views(self.log.spec_events()),
                (player_exit, at_exit) == deimos_exits(self.log, at_address, views.take(i as int)),
            decreases events@.len() - i,
        {
            proof {
                lemma_event_views_step(events@, i as int);
            }
            let event = &events[i];
            match *event.kind() {
                EventKind::ExitCombat { agent_addr } => {
                    let is_player = match self.log.agent_by_addr(agent_addr) {
                        Some(a) => a.kind().is_player(),
                        None => false,
                    };
                    if is_player && event.time() >= player_exit {
                        player_exit = event.time();
                    }
                },
                EventKind::Targetable { agent_addr, targetable } => {
                    if agent_addr == at_address && !targetable && event.time() >= at_exit {
                        at_exit = event.time();
                    }
                },
                _ => {},
            }
            i += 1;
        }
        proof {
            assert(views.take(i as int) == views);
        }
        // Safety margin
        Outcome::from_bool(player_exit > at_exit && player_exit - at_exit > 1000)
    }
}

/// Extracts the timestamp when Deimos's 10% phase started: that of the last event that makes an
/// agent targetable, or 0 if there is none.
fn deimos_10_time(log: &Log) -> (r: u64)
    ensures
        r == last_targetable_time(event_views(log.spec_events())),
{
    let events = log.events();
    let ghost views = event_views(log.spec_events());
    let mut first_aware: u64 = 0;
    let mut i: usize = 0;
    while i < events.len()
        invariant
            i <= events@.len(),
            events@ == log.spec_events(),
            views == event_views(log.spec_events()),
            first_aware == last_targetable_time(views.take(i as int)),
        decreases events@.len() - i,
    {
        proof {
            lemma_event_views_step(events@, i as int);
        }
        if let EventKind::Targetable { targetable, .. } = *events[i].kind() {
            if targetable {
                first_aware = events[i].time();
            }
        }
        i += 1;
    }
    proof {
        assert(views.take(i as int) == views);
    }
    first_aware
}

/// Returns the attack target address for the 10% Deimos phase: that of the last attack target
/// whose parent is the gadget named "Deimos".
///
/// Returns 0 when the right attack target is not found.
fn deimos_at_address(log: &Log) -> (r: u64)
    ensures
        r == deimos_attack_target(log, event_views(log.spec_events())),
{
    let events = log.events();
    let ghost views = event_views(log.spec_events());
    let mut i: usize = events.len();
    assert(views.take(i as int) == views);
    while i > 0
        invariant
            i <= events@.len(),
            events@ == log.spec_events(),
            views == event_views(log.spec_events()),
            deimos_attack_target(log, views) == deimos_attack_target(log, views.take(i as int)),
        decreases i,
    {
        proof {
            lemma_event_views_step(events@, i - 1);
        }
        if let EventKind::AttackTarget { agent_addr, parent_agent_addr, .. } = *events[i - 1].kind() {
            if let Some(parent) = log.agent_by_addr(parent_agent_addr) {
                if let Some(gadget) = parent.as_gadget() {
                    proof {
                        reveal_strlit("Deimos");
                    }
                    if str_eq(gadget.name(), "Deimos") {
                        return agent_addr;
                    }
                }
            }
        }
        i -= 1;
    }
    proof {
        assert(views.take(0) =~= Seq::<EventView>::empty());
    }
    0
}


/// A Cairn analysis always has an outcome: it succeeded exactly where a boss died, and it failed otherwise.
pub proof fn lemma_cairn_outcome(a: Cairn)
    ensures
        a.spec_outcome() is Some,
        a.spec_outcome() == Some(Outcome::Success) <==> (boss_died(&a.spec_log())),
        a.spec_outcome() == Some(Outcome::Failure) <==> !(boss_died(&a.spec_log())),
{
}


/// A MursaatOverseer analysis always has an outcome: it succeeded exactly where a boss died, and it failed otherwise.
pub proof fn lemma_mursaat_overseer_outcome(a: MursaatOverseer)
    ensures
        a.spec_outcome() is Some,
        a.spec_outcome() == Some(Outcome::Success) <==> (boss_died(&a.spec_log())),
        a.spec_outcome() == Some(Outcome::Failure) <==> !(boss_died(&a.spec_log())),
{
}


/// A Samarog analysis always has an outcome: it succeeded exactly where a boss died, and it failed otherwise.
pub proof fn lemma_samarog_outcome(a: Samarog)
    ensures
        a.spec_outcome() is Some,
        a.spec_outcome() == Some(Outcome::Success) <==> (boss_died(&a.spec_log())),
        a.spec_outcome() == Some(Outcome::Failure) <==> !(boss_died(&a.spec_log())),
{
}

} // verus!
