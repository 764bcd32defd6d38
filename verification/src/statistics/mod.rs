//! This module aids in the creation of actual boss statistics: the damage that every agent dealt,
//! per target and in total, and when it entered and left combat.
//!
//! The submodules hold the building blocks for finer statistics: boon queues, damage and mechanic
//! logs and the trackers that gather them.
use vstd::prelude::*;

use std::collections::HashMap;

use crate::processing::{event_views, lemma_event_views_step};
use crate::{find_by_addr, is_character_with_id, EventKind, EventView, Log};

pub mod boon;
pub mod damage;
pub mod gamedata;
pub mod math;
pub mod mechanics;
pub mod trackers;

verus! {

/// An error that calculating the statistics can give: there is none, so no value of it exists.
pub type StatError = std::convert::Infallible;

/// The result of calculating statistics.
pub type StatResult<T> = Result<T, StatError>;

/// Damage statistics for a given target.
#[derive(Debug, Clone, Copy, PartialEq, Eq, Structural)]
pub struct DamageStats {
    /// The total damage of the player, including all minions/pets/...
    pub total_damage: u64,
    /// The condition damage that the player dealt.
    pub condition_damage: u64,
    /// The power damage that the player dealt.
    pub power_damage: u64,
    /// The damage that was done by minions/pets/...
    pub add_damage: u64,
}

impl Default for DamageStats {
    fn default() -> (r: Self)
        ensures
            r == no_damage(),
    {
        DamageStats { total_damage: 0, condition_damage: 0, power_damage: 0, add_damage: 0 }
    }
}

/// A struct describing the agent statistics.
#[derive(Debug, Clone)]
pub struct AgentStats {
    /// Damage done per target during the fight.
    ///
    /// Maps from target address to the damage done to this target.
    pub per_target_damage: HashMap<u64, DamageStats>,
    /// Total damage dealt during the fight.
    pub total_damage: DamageStats,
    /// Damage directed to the boss.
    pub boss_damage: DamageStats,
    /// Time when the agent has entered combat (millseconds since log start).
    pub enter_combat: u64,
    /// Time when the agent has left combat (millseconds since log start).
    pub exit_combat: u64,
}

impl Default for AgentStats {
    fn default() -> (r: Self)
        ensures
            r.per_target_damage@ == Map::<u64, DamageStats>::empty(),
            r.total_damage == no_damage(),
            r.boss_damage == no_damage(),
            r.enter_combat == 0,
            r.exit_combat == 0,
    {
        broadcast use vstd::std_specs::hash::group_hash_axioms;

        AgentStats {
            per_target_damage: HashMap::new(),
            total_damage: DamageStats::default(),
            boss_damage: DamageStats::default(),
            enter_combat: 0,
            exit_combat: 0,
        }
    }
}

impl AgentStats {
    /// Returns the combat time of this agent in milliseconds.
    pub fn combat_time(&self) -> (r: u64)
        requires
            self.exit_combat >= self.enter_combat,
        ensures
            r == self.exit_combat - self.enter_combat,
    {
        self.exit_combat - self.enter_combat
    }
}

/// A struct containing the calculated statistics for the log.
#[derive(Debug, Clone)]
pub struct Statistics {
    /// A map mapping agent addresses to their stats.
    pub agent_stats: HashMap<u64, AgentStats>,
}

/// The address of the master of the agent with the given address (see [`Log::master_agent`]), if
/// it has one.
pub open spec fn master_addr(log: &Log, addr: u64) -> Option<u64> {
    match find_by_addr(log.spec_agents(), addr) {
        Some(a) => match a@.master_agent {
            Some(m) => match find_by_addr(log.spec_agents(), m) {
                Some(master) => Some(master@.addr),
                None => None,
            },
            None => None,
        },
        None => None,
    }
}

/// The source, target and amount of a damage event, and whether it was a condition.
pub open spec fn damage_of(event: EventView) -> Option<(u64, u64, u64, bool)> {
    match event.kind {
        EventKind::Physical { source_agent_addr, destination_agent_addr, damage, .. } => Some(
            (source_agent_addr, destination_agent_addr, damage as u64, false),
        ),
        EventKind::ConditionTick { source_agent_addr, destination_agent_addr, damage, .. } => Some(
            (source_agent_addr, destination_agent_addr, damage as u64, true),
        ),
        _ => None,
    }
}

/// What the event adds to the damage of the agent against the target (or against every target,
/// where `target` is `None`): total, condition, power and minion damage. Damage counts for its
/// source, and for the source's master as minion damage.
pub open spec fn damage_add(log: &Log, event: EventView, agent: u64, target: Option<u64>) -> (
    int,
    int,
    int,
    int,
) {
    match damage_of(event) {
        Some((source, dest, amount, condition)) => if target matches Some(t) && t != dest {
            (0, 0, 0, 0)
        } else {
            let own: int = if source == agent {
                amount as int
            } else {
                0
            };
            let minion: int = if master_addr(log, source) == Some(agent) {
                amount as int
            } else {
                0
            };
            (
                own + minion,
                if condition {
                    own
                } else {
                    0
                },
                if condition {
                    0
                } else {
                    own
                },
                minion,
            )
        },
        None => (0, 0, 0, 0),
    }
}

/// The damage of the agent against the target (or against every target) over the events.
pub open spec fn damage_sum(
    log: &Log,
    events: Seq<EventView>,
    agent: u64,
    target: Option<u64>,
) -> (int, int, int, int)
    decreases events.len(),
{
    if events.len() == 0 {
        (0, 0, 0, 0)
    } else {
        let s = damage_sum(log, events.drop_last(), agent, target);
        let a = damage_add(log, events.last(), agent, target);
        (s.0 + a.0, s.1 + a.1, s.2 + a.2, s.3 + a.3)
    }
}

/// The damage statistics hold the sums.
pub open spec fn stats_hold(stats: DamageStats, sums: (int, int, int, int)) -> bool {
    &&& stats.total_damage == sums.0
    &&& stats.condition_damage == sums.1
    &&& stats.power_damage == sums.2
    &&& stats.add_damage == sums.3
}

/// The sums fit into damage statistics.
pub open spec fn sums_fit(sums: (int, int, int, int)) -> bool {
    &&& sums.0 <= u64::MAX
    &&& sums.1 <= u64::MAX
    &&& sums.2 <= u64::MAX
    &&& sums.3 <= u64::MAX
}

/// The event makes the agent deal damage to the target, itself or through a minion.
pub open spec fn hits(log: &Log, event: EventView, agent: u64, target: u64) -> bool {
    damage_of(event) matches Some((source, dest, _, _)) && dest == target && (source == agent
        || master_addr(log, source) == Some(agent))
}

/// The event concerns the agent: it deals damage, itself or through a minion, or it enters or
/// leaves combat.
pub open spec fn touches(log: &Log, event: EventView, agent: u64) -> bool {
    ||| damage_of(event) matches Some((source, _, _, _)) && (source == agent || master_addr(
        log,
        source,
    ) == Some(agent))
    ||| event.kind == (EventKind::ExitCombat { agent_addr: agent })
    ||| event.kind matches EventKind::EnterCombat { agent_addr, .. } && agent_addr == agent
}

/// The time of the last log start event, or 0.
pub open spec fn log_start_time(events: Seq<EventView>) -> u64
    decreases events.len(),
{
    if events.len() == 0 {
        0
    } else if events.last().kind is LogStart {
        events.last().time
    } else {
        log_start_time(events.drop_last())
    }
}

/// When the agent last entered combat, since the log start before it; 0 if it never did.
pub open spec fn enter_time(events: Seq<EventView>, agent: u64) -> int
    decreases events.len(),
{
    if events.len() == 0 {
        0
    } else if events.last().kind matches EventKind::EnterCombat { agent_addr, .. } && agent_addr
        == agent {
        events.last().time - log_start_time(events.drop_last())
    } else {
        enter_time(events.drop_last(), agent)
    }
}

/// When the agent last left combat, since the log start before it; 0 if it never did.
pub open spec fn exit_time(events: Seq<EventView>, agent: u64) -> int
    decreases events.len(),
{
    if events.len() == 0 {
        0
    } else if events.last().kind == (EventKind::ExitCombat { agent_addr: agent }) {
        events.last().time - log_start_time(events.drop_last())
    } else {
        exit_time(events.drop_last(), agent)
    }
}

/// The address of the boss agent (see [`Log::boss`]): the first character whose id is the
/// encounter id.
pub open spec fn boss_addr(log: &Log) -> u64 {
    let i = choose|i: int|
        0 <= i < log.spec_agents().len() && is_character_with_id(
            log.spec_agents()[i]@,
            log.spec_encounter_id(),
        ) && forall|j: int|
            0 <= j < i ==> !is_character_with_id(
                #[trigger] log.spec_agents()[j]@,
                log.spec_encounter_id(),
            );
    log.spec_agents()[i]@.addr
}

/// The statistics can be calculated: the log has a boss agent, combat is entered and left no
/// earlier than the log start before it, and no damage sum overflows.
pub open spec fn calculable(log: &Log) -> bool {
    let events = event_views(log.spec_events());
    &&& exists|i: int|
        0 <= i < log.spec_agents().len() && is_character_with_id(
            #[trigger] log.spec_agents()[i]@,
            log.spec_encounter_id(),
        )
    &&& forall|i: int|
        0 <= i < events.len() && (events[i].kind is EnterCombat || events[i].kind is ExitCombat)
            ==> #[trigger] events[i].time >= log_start_time(events.take(i))
    &&& forall|agent: u64, target: Option<u64>| #[trigger]
        sums_fit(damage_sum(log, events, agent, target))
}

/// The statistics of one agent are those that the events give: its damage per target, in total
/// and against the boss, and its last combat entry and exit times.
pub open spec fn stats_match(log: &Log, events: Seq<EventView>, st: AgentStatsView, agent: u64) -> bool {
    &&& forall|target: u64|
        #[trigger] st.per_target_damage.contains_key(target) <==> exists|i: int|
            0 <= i < events.len() && hits(log, #[trigger] events[i], agent, target)
    &&& forall|target: u64| #[trigger]
        st.per_target_damage.contains_key(target) ==> stats_hold(
            st.per_target_damage[target],
            damage_sum(log, events, agent, Some(target)),
        )
    &&& stats_hold(st.total_damage, damage_sum(log, events, agent, None))
    &&& stats_hold(st.boss_damage, damage_sum(log, events, agent, Some(boss_addr(log))))
    &&& st.enter_combat == enter_time(events, agent)
    &&& st.exit_combat == exit_time(events, agent)
}

/// The map holds an entry for the agent exactly when the events concern it, and that entry holds
/// what the events give.
pub open spec fn agent_stats_of(
    log: &Log,
    events: Seq<EventView>,
    stats: Map<u64, AgentStats>,
    agent: u64,
) -> bool {
    &&& stats.contains_key(agent) <==> exists|i: int|
        0 <= i < events.len() && touches(log, #[trigger] events[i], agent)
    &&& stats.contains_key(agent) ==> stats_match(log, events, stats[agent]@, agent)
}

/// The statistics are those that the events give, for every agent.
pub open spec fn statistics_of(log: &Log, events: Seq<EventView>, stats: Map<u64, AgentStats>) -> bool {
    forall|agent: u64| #[trigger] agent_stats_of(log, events, stats, agent)
}

/// Calculate the statistics for the given log.
pub fn calculate(log: &Log) -> (r: StatResult<Statistics>)
    requires
        calculable(log),
    ensures
        r matches Ok(s) && statistics_of(log, event_views(log.spec_events()), s.agent_stats@),
{
    broadcast use vstd::std_specs::hash::group_hash_axioms;

    let boss = log.boss().addr();
    proof {
        lemma_boss_addr(log, boss);
    }
    let events = log.events();
    let ghost views = event_views(log.spec_events());
    let mut agent_stats: HashMap<u64, AgentStats> = HashMap::new();
    let mut log_start: u64 = 0;
    let mut i: usize = 0;
    proof {
        assert forall|b: u64| #[trigger] agent_stats_of(log, views.take(0), agent_stats@, b) by {}
    }
    while i < events.len()
        invariant
            i <= events@.len(),
            events@ == log.spec_events(),
            views == event_views(log.spec_events()),
            boss == boss_addr(log),
            calculable(log),
            log_start == log_start_time(views.take(i as int)),
            statistics_of(log, views.take(i as int), agent_stats@),
        decreases events@.len() - i,
    {
        proof {
            lemma_event_views_step(events@, i as int);
        }
        let ghost before = views.take(i as int);
        let ghost e = views[i as int];
        let ghost old_map = agent_stats@;
        proof {
            assert(views.take(i + 1) == before.push(e));
        }
        let event = &events[i];
        let time = event.time();
        match *event.kind() {
            EventKind::LogStart { .. } => {
                log_start = time;
                proof {
                    assert forall|b: u64| #[trigger]
                        agent_stats_of(log, before.push(e), agent_stats@, b) by {
                        assert(agent_stats_of(log, before, old_map, b));
                        lemma_untouched(log, before, e, old_map, agent_stats@, b);
                    }
                }
            },
            EventKind::EnterCombat { agent_addr, .. } => {
                proof {
                    assert(time >= log_start_time(before));
                }
                let mut stats = take_stats(&mut agent_stats, agent_addr);
                stats.enter_combat = time - log_start;
                agent_stats.insert(agent_addr, stats);
                proof {
                    assert forall|b: u64| #[trigger]
                        agent_stats_of(log, before.push(e), agent_stats@, b) by {
                        assert(agent_stats_of(log, before, old_map, b));
                        if b == agent_addr {
                            lemma_combat_step(log, before, e, old_map, agent_stats@, b);
                        } else {
                            lemma_untouched(log, before, e, old_map, agent_stats@, b);
                        }
                    }
                }
            },
            EventKind::ExitCombat { agent_addr } => {
                proof {
                    assert(time >= log_start_time(before));
                }
                let mut stats = take_stats(&mut agent_stats, agent_addr);
                stats.exit_combat = time - log_start;
                agent_stats.insert(agent_addr, stats);
                proof {
                    assert forall|b: u64| #[trigger]
                        agent_stats_of(log, before.push(e), agent_stats@, b) by {
                        assert(agent_stats_of(log, before, old_map, b));
                        if b == agent_addr {
                            lemma_combat_step(log, before, e, old_map, agent_stats@, b);
                        } else {
                            lemma_untouched(log, before, e, old_map, agent_stats@, b);
                        }
                    }
                }
            },
            EventKind::Physical { source_agent_addr, destination_agent_addr, damage, .. } => {
                feed_damage(
                    &mut agent_stats,
                    log,
                    boss,
                    Ghost(views),
                    i,
                    source_agent_addr,
                    destination_agent_addr,
                    damage as u64,
                    false,
                );
            },
            EventKind::ConditionTick { source_agent_addr, destination_agent_addr, damage, .. } => {
                feed_damage(
                    &mut agent_stats,
                    log,
                    boss,
                    Ghost(views),
                    i,
                    source_agent_addr,
                    destination_agent_addr,
                    damage as u64,
                    true,
                );
            },
            _ => {
                proof {
                    assert forall|b: u64| #[trigger]
                        agent_stats_of(log, before.push(e), agent_stats@, b) by {
                        assert(agent_stats_of(log, before, old_map, b));
                        lemma_untouched(log, before, e, old_map, agent_stats@, b);
                    }
                }
            },
        }
        i += 1;
    }
    proof {
        assert(views.take(i as int) == views);
    }
    Ok(Statistics { agent_stats })
}

/// The boss agent's address is the one that [`boss_addr`] names.
proof fn lemma_boss_addr(log: &Log, addr: u64)
    requires
        exists|i: int|
            0 <= i < log.spec_agents().len() && log.spec_agents()[i]@.addr == addr
                && is_character_with_id(log.spec_agents()[i]@, log.spec_encounter_id())
                && forall|j: int|
                0 <= j < i ==> !is_character_with_id(
                    #[trigger] log.spec_agents()[j]@,
                    log.spec_encounter_id(),
                ),
    ensures
        boss_addr(log) == addr,
{
    let agents = log.spec_agents();
    let id = log.spec_encounter_id();
    let i = choose|i: int|
        0 <= i < agents.len() && agents[i]@.addr == addr && is_character_with_id(agents[i]@, id)
            && forall|j: int| 0 <= j < i ==> !is_character_with_id(#[trigger] agents[j]@, id);
    let k = choose|k: int|
        0 <= k < agents.len() && is_character_with_id(agents[k]@, id) && forall|j: int|
            0 <= j < k ==> !is_character_with_id(#[trigger] agents[j]@, id);
    assert(is_character_with_id(agents[i]@, id));
    if k < i {
        assert(!is_character_with_id(agents[k]@, id));
    }
    if i < k {
        assert(!is_character_with_id(agents[i]@, id));
    }
}

/// Takes the statistics of the agent out of the map: a default entry if it has none.
fn take_stats(map: &mut HashMap<u64, AgentStats>, agent: u64) -> (r: AgentStats)
    ensures
        final(map)@ == old(map)@.remove(agent),
        r@ == stats_or_default(old(map)@, agent),
{
    broadcast use vstd::std_specs::hash::group_hash_axioms;

    match map.remove(&agent) {
        Some(stats) => stats,
        None => AgentStats::default(),
    }
}

/// The integers of an addition.
pub open spec fn widen(add: (u64, u64, u64, u64)) -> (int, int, int, int) {
    (add.0 as int, add.1 as int, add.2 as int, add.3 as int)
}

/// The statistics with the addition.
pub open spec fn plus(stats: DamageStats, add: (int, int, int, int)) -> DamageStats {
    DamageStats {
        total_damage: (stats.total_damage + add.0) as u64,
        condition_damage: (stats.condition_damage + add.1) as u64,
        power_damage: (stats.power_damage + add.2) as u64,
        add_damage: (stats.add_damage + add.3) as u64,
    }
}

/// The addition does not overflow.
pub open spec fn fits(stats: DamageStats, add: (int, int, int, int)) -> bool {
    &&& stats.total_damage + add.0 <= u64::MAX
    &&& stats.condition_damage + add.1 <= u64::MAX
    &&& stats.power_damage + add.2 <= u64::MAX
    &&& stats.add_damage + add.3 <= u64::MAX
}

/// Adds total, condition, power and minion damage to the statistics.
fn add_to(stats: &mut DamageStats, add: (u64, u64, u64, u64))
    requires
        fits(*old(stats), widen(add)),
    ensures
        *final(stats) == plus(*old(stats), widen(add)),
{
    stats.total_damage += add.0;
    stats.condition_damage += add.1;
    stats.power_damage += add.2;
    stats.add_damage += add.3;
}

/// The statistics of an agent, with the map of damage per target as a mathematical map.
pub struct AgentStatsView {
    /// See [`AgentStats::per_target_damage`].
    pub per_target_damage: Map<u64, DamageStats>,
    /// See [`AgentStats::total_damage`].
    pub total_damage: DamageStats,
    /// See [`AgentStats::boss_damage`].
    pub boss_damage: DamageStats,
    /// See [`AgentStats::enter_combat`].
    pub enter_combat: u64,
    /// See [`AgentStats::exit_combat`].
    pub exit_combat: u64,
}

impl View for AgentStats {
    type V = AgentStatsView;

    open spec fn view(&self) -> AgentStatsView {
        AgentStatsView {
            per_target_damage: self.per_target_damage@,
            total_damage: self.total_damage,
            boss_damage: self.boss_damage,
            enter_combat: self.enter_combat,
            exit_combat: self.exit_combat,
        }
    }
}

/// No damage.
pub open spec fn no_damage() -> DamageStats {
    DamageStats { total_damage: 0, condition_damage: 0, power_damage: 0, add_damage: 0 }
}

/// Empty statistics.
pub open spec fn empty_stats() -> AgentStatsView {
    AgentStatsView {
        per_target_damage: Map::empty(),
        total_damage: no_damage(),
        boss_damage: no_damage(),
        enter_combat: 0,
        exit_combat: 0,
    }
}

/// The statistics of the agent in the map, or empty ones.
pub open spec fn stats_or_default(map: Map<u64, AgentStats>, agent: u64) -> AgentStatsView {
    if map.contains_key(agent) {
        map[agent]@
    } else {
        empty_stats()
    }
}

/// The damage against the target in the statistics, or none.
pub open spec fn target_or_default(per_target: Map<u64, DamageStats>, target: u64) -> DamageStats {
    if per_target.contains_key(target) {
        per_target[target]
    } else {
        no_damage()
    }
}

/// The statistics after adding damage against the target: against the target, in total, and
/// against the boss where the target is the boss.
pub open spec fn applied(o: AgentStatsView, target: u64, boss: u64, add: (int, int, int, int)) -> AgentStatsView {
    AgentStatsView {
        per_target_damage: o.per_target_damage.insert(
            target,
            plus(target_or_default(o.per_target_damage, target), add),
        ),
        total_damage: plus(o.total_damage, add),
        boss_damage: if target == boss {
            plus(o.boss_damage, add)
        } else {
            o.boss_damage
        },
        enter_combat: o.enter_combat,
        exit_combat: o.exit_combat,
    }
}

/// Adds damage of the agent against the target to the statistics: against the target, in total,
/// and against the boss where the target is the boss.
fn add_damage(
    map: &mut HashMap<u64, AgentStats>,
    agent: u64,
    target: u64,
    boss: u64,
    add: (u64, u64, u64, u64),
)
    requires
        ({
            let o = stats_or_default(old(map)@, agent);
            &&& fits(target_or_default(o.per_target_damage, target), widen(add))
            &&& fits(o.total_damage, widen(add))
            &&& target == boss ==> fits(o.boss_damage, widen(add))
        }),
    ensures
        final(map)@.dom() == old(map)@.dom().insert(agent),
        forall|a: u64| a != agent && old(map)@.contains_key(a) ==> #[trigger] final(map)@[a] == old(map)@[a],
        final(map)@[agent]@ == applied(stats_or_default(old(map)@, agent), target, boss, widen(add)),
{
    broadcast use vstd::std_specs::hash::group_hash_axioms;

    let mut stats = take_stats(map, agent);
    let mut per_target = match stats.per_target_damage.remove(&target) {
        Some(d) => d,
        None => DamageStats::default(),
    };
    add_to(&mut per_target, add);
    stats.per_target_damage.insert(target, per_target);
    add_to(&mut stats.total_damage, add);
    if target == boss {
        add_to(&mut stats.boss_damage, add);
    }
    map.insert(agent, stats);
    proof {
        assert(final(map)@.dom() =~= old(map)@.dom().insert(agent));
        assert(final(map)@[agent]@.per_target_damage =~= applied(
            stats_or_default(old(map)@, agent),
            target,
            boss,
            widen(add),
        ).per_target_damage);
    }
}

/// Componentwise sum.
pub open spec fn add4(a: (int, int, int, int), b: (int, int, int, int)) -> (int, int, int, int) {
    (a.0 + b.0, a.1 + b.1, a.2 + b.2, a.3 + b.3)
}

/// Componentwise at most.
pub open spec fn le4(a: (int, int, int, int), b: (int, int, int, int)) -> bool {
    a.0 <= b.0 && a.1 <= b.1 && a.2 <= b.2 && a.3 <= b.3
}

/// Componentwise not negative.
pub open spec fn nonneg4(a: (int, int, int, int)) -> bool {
    0 <= a.0 && 0 <= a.1 && 0 <= a.2 && 0 <= a.3
}

proof fn lemma_push(log: &Log, before: Seq<EventView>, e: EventView, agent: u64, target: Option<u64>)
    ensures
        damage_sum(log, before.push(e), agent, target) == add4(
            damage_sum(log, before, agent, target),
            damage_add(log, e, agent, target),
        ),
        log_start_time(before.push(e)) == if e.kind is LogStart {
            e.time
        } else {
            log_start_time(before)
        },
        enter_time(before.push(e), agent) == if e.kind matches EventKind::EnterCombat {
            agent_addr,
            ..
        } && agent_addr == agent {
            e.time - log_start_time(before)
        } else {
            enter_time(before, agent)
        },
        exit_time(before.push(e), agent) == if e.kind == (EventKind::ExitCombat {
            agent_addr: agent,
        }) {
            e.time - log_start_time(before)
        } else {
            exit_time(before, agent)
        },
{
    assert(before.push(e).drop_last() == before);
}

proof fn lemma_add_nonneg(log: &Log, e: EventView, agent: u64, target: Option<u64>)
    ensures
        nonneg4(damage_add(log, e, agent, target)),
{
}

proof fn lemma_sum_mono(log: &Log, events: Seq<EventView>, k: int, agent: u64, target: Option<u64>)
    requires
        0 <= k <= events.len(),
    ensures
        le4(damage_sum(log, events.take(k), agent, target), damage_sum(log, events, agent, target)),
        nonneg4(damage_sum(log, events.take(k), agent, target)),
    decreases events.len(),
{
    if k < events.len() {
        assert(events.drop_last().take(k) == events.take(k));
        lemma_sum_mono(log, events.drop_last(), k, agent, target);
        lemma_add_nonneg(log, events.last(), agent, target);
    } else {
        assert(events.take(k) == events);
        lemma_sum_nonneg(log, events, agent, target);
    }
}

proof fn lemma_sum_nonneg(log: &Log, events: Seq<EventView>, agent: u64, target: Option<u64>)
    ensures
        nonneg4(damage_sum(log, events, agent, target)),
    decreases events.len(),
{
    if events.len() > 0 {
        lemma_sum_nonneg(log, events.drop_last(), agent, target);
        lemma_add_nonneg(log, events.last(), agent, target);
    }
}

proof fn lemma_sum_zero(log: &Log, events: Seq<EventView>, agent: u64, target: Option<u64>)
    requires
        forall|j: int|
            0 <= j < events.len() ==> damage_add(log, #[trigger] events[j], agent, target) == (
            0int,
            0int,
            0int,
            0int,
        ),
    ensures
        damage_sum(log, events, agent, target) == (0int, 0int, 0int, 0int),
    decreases events.len(),
{
    if events.len() > 0 {
        let rest = events.drop_last();
        assert forall|j: int| 0 <= j < rest.len() implies damage_add(log, #[trigger] rest[j], agent, target)
            == (0int, 0int, 0int, 0int) by {
            assert(rest[j] == events[j]);
        }
        lemma_sum_zero(log, rest, agent, target);
        assert(events.last() == events[events.len() - 1]);
    }
}

proof fn lemma_times_zero(events: Seq<EventView>, agent: u64)
    requires
        forall|j: int| 0 <= j < events.len() ==> !touches_combat(#[trigger] events[j], agent),
    ensures
        enter_time(events, agent) == 0,
        exit_time(events, agent) == 0,
    decreases events.len(),
{
    if events.len() > 0 {
        let rest = events.drop_last();
        assert forall|j: int| 0 <= j < rest.len() implies !touches_combat(#[trigger] rest[j], agent) by {
            assert(rest[j] == events[j]);
        }
        lemma_times_zero(rest, agent);
        assert(events.last() == events[events.len() - 1]);
    }
}

/// The event enters or leaves combat for the agent.
pub open spec fn touches_combat(event: EventView, agent: u64) -> bool {
    ||| event.kind == (EventKind::ExitCombat { agent_addr: agent })
    ||| event.kind matches EventKind::EnterCombat { agent_addr, .. } && agent_addr == agent
}

/// An event that does not concern the agent adds nothing to its damage.
proof fn lemma_untouched_add(log: &Log, e: EventView, agent: u64)
    requires
        !touches(log, e, agent),
    ensures
        forall|t: Option<u64>| #[trigger] damage_add(log, e, agent, t) == (0int, 0int, 0int, 0int),
        forall|t: u64| !#[trigger] hits(log, e, agent, t),
        !touches_combat(e, agent),
{
}

/// Empty statistics are those of an agent that no event concerns.
proof fn lemma_empty_match(log: &Log, events: Seq<EventView>, agent: u64)
    requires
        forall|j: int| 0 <= j < events.len() ==> !touches(log, #[trigger] events[j], agent),
    ensures
        stats_match(log, events, empty_stats(), agent),
{
    assert forall|j: int| 0 <= j < events.len() implies !touches_combat(#[trigger] events[j], agent) by {
        lemma_untouched_add(log, events[j], agent);
    }
    lemma_times_zero(events, agent);
    assert forall|t: Option<u64>| #[trigger] damage_sum(log, events, agent, t) == (0int, 0int, 0int, 0int) by {
        assert forall|j: int| 0 <= j < events.len() implies damage_add(log, #[trigger] events[j], agent, t)
            == (0int, 0int, 0int, 0int) by {
            lemma_untouched_add(log, events[j], agent);
        }
        lemma_sum_zero(log, events, agent, t);
    }
    assert(damage_sum(log, events, agent, None) == (0int, 0int, 0int, 0int));
    assert(damage_sum(log, events, agent, Some(boss_addr(log))) == (0int, 0int, 0int, 0int));
    assert forall|t: u64|
        #[trigger] empty_stats().per_target_damage.contains_key(t) <==> exists|i: int|
            0 <= i < events.len() && hits(log, #[trigger] events[i], agent, t) by {
        if exists|i: int| 0 <= i < events.len() && hits(log, #[trigger] events[i], agent, t) {
            let i = choose|i: int| 0 <= i < events.len() && hits(log, #[trigger] events[i], agent, t);
            lemma_untouched_add(log, events[i], agent);
            assert(!touches(log, events[i], agent));
        }
    }
}

/// The statistics that the map holds for the agent, or empty ones, are those that the events give,
/// and so is the damage against each target, or none.
proof fn lemma_stats_before(log: &Log, events: Seq<EventView>, map: Map<u64, AgentStats>, agent: u64)
    requires
        agent_stats_of(log, events, map, agent),
    ensures
        stats_match(log, events, stats_or_default(map, agent), agent),
        forall|t: u64| #[trigger] stats_hold(
            target_or_default(stats_or_default(map, agent).per_target_damage, t),
            damage_sum(log, events, agent, Some(t)),
        ),
{
    if !map.contains_key(agent) {
        lemma_empty_match(log, events, agent);
    }
    let o = stats_or_default(map, agent);
    assert forall|t: u64| #[trigger] stats_hold(
        target_or_default(o.per_target_damage, t),
        damage_sum(log, events, agent, Some(t)),
    ) by {
        if !o.per_target_damage.contains_key(t) {
            assert forall|j: int| 0 <= j < events.len() implies damage_add(log, #[trigger] events[j], agent, Some(t))
                == (0int, 0int, 0int, 0int) by {
                if damage_add(log, events[j], agent, Some(t)) != (0int, 0int, 0int, 0int) {
                    assert(hits(log, events[j], agent, t));
                }
            }
            lemma_sum_zero(log, events, agent, Some(t));
        }
    }
}

/// An event that does not concern the agent leaves what the events give for it as it was.
proof fn lemma_untouched(
    log: &Log,
    before: Seq<EventView>,
    e: EventView,
    old_map: Map<u64, AgentStats>,
    new_map: Map<u64, AgentStats>,
    agent: u64,
)
    requires
        agent_stats_of(log, before, old_map, agent),
        !touches(log, e, agent),
        new_map.contains_key(agent) == old_map.contains_key(agent),
        old_map.contains_key(agent) ==> new_map[agent] == old_map[agent],
    ensures
        agent_stats_of(log, before.push(e), new_map, agent),
{
    let after = before.push(e);
    lemma_untouched_add(log, e, agent);
    lemma_push(log, before, e, agent, None);
    lemma_push(log, before, e, agent, Some(boss_addr(log)));
    assert forall|t: u64| #[trigger] damage_sum(log, after, agent, Some(t)) == damage_sum(
        log,
        before,
        agent,
        Some(t),
    ) by {
        lemma_push(log, before, e, agent, Some(t));
    }
    assert((exists|i: int| 0 <= i < after.len() && touches(log, #[trigger] after[i], agent)) <==> (
    exists|i: int| 0 <= i < before.len() && touches(log, #[trigger] before[i], agent))) by {
        if exists|i: int| 0 <= i < after.len() && touches(log, #[trigger] after[i], agent) {
            let i = choose|i: int| 0 <= i < after.len() && touches(log, #[trigger] after[i], agent);
            assert(i < before.len());
            assert(after[i] == before[i]);
        }
        if exists|i: int| 0 <= i < before.len() && touches(log, #[trigger] before[i], agent) {
            let i = choose|i: int| 0 <= i < before.len() && touches(log, #[trigger] before[i], agent);
            assert(after[i] == before[i]);
        }
    }
    if new_map.contains_key(agent) {
        let st = new_map[agent]@;
        assert forall|t: u64|
            #[trigger] st.per_target_damage.contains_key(t) <==> exists|i: int|
                0 <= i < after.len() && hits(log, #[trigger] after[i], agent, t) by {
            if exists|i: int| 0 <= i < after.len() && hits(log, #[trigger] after[i], agent, t) {
                let i = choose|i: int| 0 <= i < after.len() && hits(log, #[trigger] after[i], agent, t);
                assert(i < before.len());
                assert(after[i] == before[i]);
            }
            if exists|i: int| 0 <= i < before.len() && hits(log, #[trigger] before[i], agent, t) {
                let i = choose|i: int| 0 <= i < before.len() && hits(log, #[trigger] before[i], agent, t);
                assert(after[i] == before[i]);
            }
        }
    }
}

/// An event that makes the agent enter or leave combat sets the time in its statistics.
proof fn lemma_combat_step(
    log: &Log,
    before: Seq<EventView>,
    e: EventView,
    old_map: Map<u64, AgentStats>,
    new_map: Map<u64, AgentStats>,
    agent: u64,
)
    requires
        agent_stats_of(log, before, old_map, agent),
        touches_combat(e, agent),
        e.time >= log_start_time(before),
        new_map.contains_key(agent),
        ({
            let o = stats_or_default(old_map, agent);
            let n = new_map[agent]@;
            &&& n.per_target_damage == o.per_target_damage
            &&& n.total_damage == o.total_damage
            &&& n.boss_damage == o.boss_damage
            &&& e.kind is EnterCombat ==> n.enter_combat == e.time - log_start_time(before)
                && n.exit_combat == o.exit_combat
            &&& e.kind is ExitCombat ==> n.exit_combat == e.time - log_start_time(before)
                && n.enter_combat == o.enter_combat
        }),
    ensures
        agent_stats_of(log, before.push(e), new_map, agent),
{
    let after = before.push(e);
    lemma_stats_before(log, before, old_map, agent);
    lemma_push(log, before, e, agent, None);
    lemma_push(log, before, e, agent, Some(boss_addr(log)));
    assert forall|t: u64| #[trigger] damage_sum(log, after, agent, Some(t)) == damage_sum(
        log,
        before,
        agent,
        Some(t),
    ) by {
        lemma_push(log, before, e, agent, Some(t));
    }
    assert(touches(log, after[before.len() as int], agent));
    let st = new_map[agent]@;
    assert forall|t: u64|
        #[trigger] st.per_target_damage.contains_key(t) <==> exists|i: int|
            0 <= i < after.len() && hits(log, #[trigger] after[i], agent, t) by {
        if exists|i: int| 0 <= i < after.len() && hits(log, #[trigger] after[i], agent, t) {
            let i = choose|i: int| 0 <= i < after.len() && hits(log, #[trigger] after[i], agent, t);
            assert(i < before.len());
            assert(after[i] == before[i]);
        }
        if exists|i: int| 0 <= i < before.len() && hits(log, #[trigger] before[i], agent, t) {
            let i = choose|i: int| 0 <= i < before.len() && hits(log, #[trigger] before[i], agent, t);
            assert(after[i] == before[i]);
        }
    }
}

/// A damage event that concerns the agent adds what it gives to the agent's statistics.
proof fn lemma_damage_step(
    log: &Log,
    before: Seq<EventView>,
    e: EventView,
    old_map: Map<u64, AgentStats>,
    new_map: Map<u64, AgentStats>,
    agent: u64,
    dest: u64,
    boss: u64,
)
    requires
        agent_stats_of(log, before, old_map, agent),
        boss == boss_addr(log),
        damage_of(e) matches Some((_, d, _, _)) && d == dest,
        touches(log, e, agent),
        sums_fit(damage_sum(log, before.push(e), agent, None)),
        new_map.contains_key(agent),
        new_map[agent]@ == applied(
            stats_or_default(old_map, agent),
            dest,
            boss,
            damage_add(log, e, agent, Some(dest)),
        ),
    ensures
        agent_stats_of(log, before.push(e), new_map, agent),
{
    let after = before.push(e);
    let o = stats_or_default(old_map, agent);
    let add = damage_add(log, e, agent, Some(dest));
    lemma_stats_before(log, before, old_map, agent);
    lemma_push(log, before, e, agent, None);
    lemma_push(log, before, e, agent, Some(boss));
    lemma_push(log, before, e, agent, Some(dest));
    lemma_add_nonneg(log, e, agent, Some(dest));
    lemma_sum_nonneg(log, before, agent, None);
    lemma_sum_nonneg(log, before, agent, Some(dest));
    lemma_sum_nonneg(log, before, agent, Some(boss));
    assert(damage_add(log, e, agent, None) == add);
    // The sums against single targets are at most the sum in total, which fits.
    lemma_target_le_total(log, after, agent, dest);
    lemma_target_le_total(log, after, agent, boss);
    assert(touches(log, after[before.len() as int], agent));
    let st = new_map[agent]@;
    assert(hits(log, e, agent, dest));
    assert forall|t: u64|
        #[trigger] st.per_target_damage.contains_key(t) <==> exists|i: int|
            0 <= i < after.len() && hits(log, #[trigger] after[i], agent, t) by {
        if t == dest {
            assert(hits(log, after[before.len() as int], agent, t));
        } else {
            if exists|i: int| 0 <= i < after.len() && hits(log, #[trigger] after[i], agent, t) {
                let i = choose|i: int| 0 <= i < after.len() && hits(log, #[trigger] after[i], agent, t);
                assert(i < before.len());
                assert(after[i] == before[i]);
            }
            if exists|i: int| 0 <= i < before.len() && hits(log, #[trigger] before[i], agent, t) {
                let i = choose|i: int| 0 <= i < before.len() && hits(log, #[trigger] before[i], agent, t);
                assert(after[i] == before[i]);
            }
        }
    }
    assert forall|t: u64| #[trigger]
        st.per_target_damage.contains_key(t) implies stats_hold(
            st.per_target_damage[t],
            damage_sum(log, after, agent, Some(t)),
        ) by {
        lemma_push(log, before, e, agent, Some(t));
        lemma_target_le_total(log, after, agent, t);
        if t == dest {
            assert(stats_hold(
                target_or_default(o.per_target_damage, t),
                damage_sum(log, before, agent, Some(t)),
            ));
        }
    }
}

/// The damage of an agent against one target is at most its damage in total, in each of the
/// four sums (total, condition, power and minion damage): what [`calculate`] gives for a target is
/// at most what it gives in total.
pub proof fn lemma_target_le_total(log: &Log, events: Seq<EventView>, agent: u64, target: u64)
    ensures
        le4(damage_sum(log, events, agent, Some(target)), damage_sum(log, events, agent, None)),
    decreases events.len(),
{
    if events.len() > 0 {
        lemma_target_le_total(log, events.drop_last(), agent, target);
        lemma_add_nonneg(log, events.last(), agent, Some(target));
    }
}

/// Feeds the damage of one event into the statistics: it counts for the source, and for the
/// source's master as minion damage.
fn feed_damage(
    map: &mut HashMap<u64, AgentStats>,
    log: &Log,
    boss: u64,
    Ghost(events): Ghost<Seq<EventView>>,
    i: usize,
    source: u64,
    dest: u64,
    amount: u64,
    condition: bool,
)
    requires
        0 <= i < events.len(),
        calculable(log),
        events == event_views(log.spec_events()),
        boss == boss_addr(log),
        damage_of(events[i as int]) == Some((source, dest, amount, condition)),
        statistics_of(log, events.take(i as int), old(map)@),
    ensures
        statistics_of(log, events.take(i + 1), final(map)@),
{
    broadcast use vstd::std_specs::hash::group_hash_axioms;

    let ghost before = events.take(i as int);
    let ghost e = events[i as int];
    proof {
        assert(events.take(i + 1) == before.push(e));
    }
    let master = match log.master_agent(source) {
        Some(m) => Some(m.addr()),
        None => None,
    };
    assert(master == master_addr(log, source));
    let own_condition: u64 = if condition {
        amount
    } else {
        0
    };
    let own_power: u64 = if condition {
        0
    } else {
        amount
    };
    proof {
        lemma_fit_step(log, events, i as int, source, dest, boss);
        assert(agent_stats_of(log, before, old(map)@, source));
        lemma_fits_add(log, before, e, old(map)@, source, dest, boss);
    }
    if master == Some(source) {
        add_damage(map, source, dest, boss, (amount + amount, own_condition, own_power, amount));
    } else {
        add_damage(map, source, dest, boss, (amount, own_condition, own_power, 0));
    }
    let ghost middle = map@;
    match master {
        Some(m) => {
            if m != source {
                proof {
                    lemma_fit_step(log, events, i as int, m, dest, boss);
                    assert(agent_stats_of(log, before, old(map)@, m));
                    lemma_fits_add(log, before, e, old(map)@, m, dest, boss);
                    assert(stats_or_default(middle, m) == stats_or_default(old(map)@, m));
                }
                add_damage(map, m, dest, boss, (amount, 0, 0, amount));
            }
        },
        None => {},
    }
    proof {
        assert forall|b: u64| #[trigger] agent_stats_of(log, before.push(e), final(map)@, b) by {
            assert(agent_stats_of(log, before, old(map)@, b));
            if b == source {
                lemma_fit_step(log, events, i as int, b, dest, boss);
                lemma_damage_step(log, before, e, old(map)@, final(map)@, b, dest, boss);
            } else if master == Some(b) {
                lemma_fit_step(log, events, i as int, b, dest, boss);
                assert(stats_or_default(middle, b) == stats_or_default(old(map)@, b));
                lemma_damage_step(log, before, e, old(map)@, final(map)@, b, dest, boss);
            } else {
                lemma_untouched(log, before, e, old(map)@, final(map)@, b);
            }
        }
    }
}

/// What a damage event adds to the agent's statistics fits into them.
proof fn lemma_fits_add(
    log: &Log,
    before: Seq<EventView>,
    e: EventView,
    map: Map<u64, AgentStats>,
    agent: u64,
    dest: u64,
    boss: u64,
)
    requires
        agent_stats_of(log, before, map, agent),
        boss == boss_addr(log),
        damage_of(e) matches Some((_, d, _, _)) && d == dest,
        sums_fit(damage_sum(log, before.push(e), agent, None)),
        sums_fit(damage_sum(log, before.push(e), agent, Some(dest))),
        sums_fit(damage_sum(log, before.push(e), agent, Some(boss))),
    ensures
        ({
            let o = stats_or_default(map, agent);
            let add = damage_add(log, e, agent, Some(dest));
            &&& fits(target_or_default(o.per_target_damage, dest), add)
            &&& fits(o.total_damage, add)
            &&& dest == boss ==> fits(o.boss_damage, add)
        }),
{
    lemma_stats_before(log, before, map, agent);
    lemma_push(log, before, e, agent, None);
    lemma_push(log, before, e, agent, Some(dest));
    lemma_push(log, before, e, agent, Some(boss));
    assert(damage_add(log, e, agent, None) == damage_add(log, e, agent, Some(dest)));
    let o = stats_or_default(map, agent);
    assert(stats_hold(
        target_or_default(o.per_target_damage, dest),
        damage_sum(log, before, agent, Some(dest)),
    ));
}

/// What the event adds to the agent's damage fits, on top of what came before.
proof fn lemma_fit_step(log: &Log, events: Seq<EventView>, i: int, agent: u64, dest: u64, boss: u64)
    requires
        0 <= i < events.len(),
        calculable(log),
        events == event_views(log.spec_events()),
    ensures
        sums_fit(damage_sum(log, events.take(i + 1), agent, None)),
        sums_fit(damage_sum(log, events.take(i + 1), agent, Some(dest))),
        sums_fit(damage_sum(log, events.take(i + 1), agent, Some(boss))),
{
    lemma_sum_mono(log, events, i + 1, agent, None);
    lemma_sum_mono(log, events, i + 1, agent, Some(dest));
    lemma_sum_mono(log, events, i + 1, agent, Some(boss));
    assert(sums_fit(damage_sum(log, events, agent, None)));
    assert(sums_fit(damage_sum(log, events, agent, Some(dest))));
    assert(sums_fit(damage_sum(log, events, agent, Some(boss))));
}

} // verus!
