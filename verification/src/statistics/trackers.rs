//! Trackers: they are fed the events of a log, one after the other, and give a statistic at the
//! end.
//!
//! Each tracker gathers one kind of statistic, such as the damage log or the combat times of the
//! agents. Feed it every event of the log in order with [`Tracker::feed`], then take the statistic
//! with [`Tracker::finalize`].
use vstd::prelude::*;

use super::damage::{DamageLog, DamageType};
use super::gamedata::{Mechanic, Trigger};
use super::math::count_at_or_before;
use super::mechanics::{Counter, MechanicLog};
use crate::raw::CbtResult;
use std::convert::Infallible;
use crate::{find_by_addr, Event, EventKind, EventView, Log};

verus! {

broadcast use vstd::std_specs::hash::group_hash_axioms;

/// A tracker: it is fed the events of a log, one after the other, and gives a statistic at the
/// end.
pub trait Tracker: Sized {
    /// The statistic that the tracker gives.
    type Stat;

    /// The error that feeding the tracker can give.
    type Error;

    /// Feed a single event into this tracker.
    fn feed(&mut self, event: &Event) -> Result<(), Self::Error>;

    /// Finalize this tracker and get the statistics out.
    fn finalize(self) -> Result<Self::Stat, Self::Error>;
}

/// The address of the master of the agent with the given address (see [`Log::master_agent`]),
/// or the address itself where it has none.
pub open spec fn master_or_self(log: &Log, addr: u64) -> u64 {
    match find_by_addr(log.spec_agents(), addr) {
        Some(a) => match a@.master_agent {
            Some(m) => match find_by_addr(log.spec_agents(), m) {
                Some(master) => master@.addr,
                None => addr,
            },
            None => addr,
        },
        None => addr,
    }
}

/// The damage entry that an event makes: time, source (its master, if it has one), target, type,
/// skill and amount.
pub open spec fn damage_entry(log: &Log, event: EventView) -> Option<
    (u64, u64, u64, DamageType, u32, u64),
> {
    match event.kind {
        EventKind::Physical { source_agent_addr, destination_agent_addr, damage, skill_id, .. } => Some(
            (
                event.time,
                master_or_self(log, source_agent_addr),
                destination_agent_addr,
                DamageType::Physical,
                skill_id,
                damage as u64,
            ),
        ),
        EventKind::ConditionTick {
            source_agent_addr,
            destination_agent_addr,
            damage,
            condition_id,
        } => Some(
            (
                event.time,
                master_or_self(log, source_agent_addr),
                destination_agent_addr,
                DamageType::Condition,
                condition_id,
                damage as u64,
            ),
        ),
        _ => None,
    }
}

/// A tracker that tracks the total damage done by each agent.
///
/// Damage of an agent that has a master is counted for the master.
pub struct DamageTracker<'l> {
    log: &'l Log,
    damage_log: DamageLog,
}

impl<'l> DamageTracker<'l> {
    /// The log whose events the tracker is fed.
    pub closed spec fn spec_log(&self) -> Log {
        *self.log
    }

    /// The damage logged so far.
    pub closed spec fn spec_damage_log(&self) -> DamageLog {
        self.damage_log
    }

    /// Create a new damage tracker for the given log.
    pub fn new(log: &'l Log) -> (r: DamageTracker<'l>)
        ensures
            r.spec_log() == *log,
            r.spec_damage_log().spec_inner().wf(),
            r.spec_damage_log().spec_inner().points().len() == 0,
    {
        DamageTracker { log, damage_log: DamageLog::new() }
    }

    /// The address of the agent's master, or the agent's own where it has none.
    fn source_of(&self, addr: u64) -> (r: u64)
        ensures
            r == master_or_self(&self.spec_log(), addr),
    {
        match self.log.master_agent(addr) {
            Some(master) => master.addr(),
            None => addr,
        }
    }
}

impl<'l> Tracker for DamageTracker<'l> {
    type Stat = DamageLog;

    type Error = Infallible;

    /// Feed a single event: a physical hit or a condition tick is logged.
    fn feed(&mut self, event: &Event) -> (r: Result<(), Infallible>)
        ensures
            r is Ok,
            final(self).spec_log() == old(self).spec_log(),
            final(self).spec_damage_log().spec_inner().wf(),
            match damage_entry(&old(self).spec_log(), event@) {
                None => final(self).spec_damage_log() == old(self).spec_damage_log(),
                Some((time, source, target, kind, skill, value)) => {
                    let old_log = old(self).spec_damage_log().spec_inner();
                    let new_log = final(self).spec_damage_log().spec_inner();
                    let p = count_at_or_before(old_log.points(), time as int);
                    &&& new_log.points() == old_log.points().insert(p, time)
                    &&& new_log.tags() == old_log.tags().insert(
                        p,
                        super::damage::Meta { source, target, kind, skill },
                    )
                    &&& new_log.increments() == old_log.increments().insert(
                        p,
                        super::damage::Damage(value),
                    )
                },
            },
    {
        match *event.kind() {
            EventKind::Physical {
                source_agent_addr,
                destination_agent_addr,
                damage,
                skill_id,
                ..
            } => {
                let source = self.source_of(source_agent_addr);
                self.damage_log.log(
                    event.time(),
                    source,
                    destination_agent_addr,
                    DamageType::Physical,
                    skill_id,
                    damage as u64,
                );
            },
            EventKind::ConditionTick {
                source_agent_addr,
                destination_agent_addr,
                damage,
                condition_id,
            } => {
                let source = self.source_of(source_agent_addr);
                self.damage_log.log(
                    event.time(),
                    source,
                    destination_agent_addr,
                    DamageType::Condition,
                    condition_id,
                    damage as u64,
                );
            },
            _ => {},
        }
        proof {
            use_type_invariant(&self.damage_log);
        }
        Ok(())
    }

    fn finalize(self) -> (r: Result<DamageLog, Infallible>)
        ensures
            r == Ok::<DamageLog, Infallible>(self.spec_damage_log()),
    {
        Ok(self.damage_log)
    }
}

/// A tracker that tracks the time of the (last) log start event.
#[derive(Debug, Clone)]
pub struct LogStartTracker {
    event_time: u64,
}

impl LogStartTracker {
    /// The time of the last log start event so far, 0 if there was none.
    pub closed spec fn spec_event_time(&self) -> u64 {
        self.event_time
    }

    /// Create a new log start tracker.
    pub fn new() -> (r: LogStartTracker)
        ensures
            r.spec_event_time() == 0,
    {
        LogStartTracker { event_time: 0 }
    }
}

impl Default for LogStartTracker {
    fn default() -> (r: Self)
        ensures
            r.spec_event_time() == 0,
    {
        LogStartTracker::new()
    }
}

impl Tracker for LogStartTracker {
    type Stat = u64;

    type Error = Infallible;

    fn feed(&mut self, event: &Event) -> (r: Result<(), Infallible>)
        ensures
            r is Ok,
            final(self).spec_event_time() == if event@.kind is LogStart {
                event@.time
            } else {
                old(self).spec_event_time()
            },
    {
        if let EventKind::LogStart { .. } = event.kind() {
            self.event_time = event.time();
        }
        Ok(())
    }

    fn finalize(self) -> (r: Result<u64, Infallible>)
        ensures
            r == Ok::<u64, Infallible>(self.spec_event_time()),
    {
        Ok(self.event_time)
    }
}

/// A tracker that tracks the combat entry and exit times for each agent.
#[derive(Debug, Clone)]
pub struct CombatTimeTracker {
    times: std::collections::HashMap<u64, (u64, u64)>,
}

impl CombatTimeTracker {
    /// The last combat entry and exit time so far, by agent address (0 where there was none).
    pub closed spec fn spec_times(&self) -> Map<u64, (u64, u64)> {
        self.times@
    }

    /// Create a new combat time tracker.
    pub fn new() -> (r: CombatTimeTracker)
        ensures
            r.spec_times() == Map::<u64, (u64, u64)>::empty(),
    {
        CombatTimeTracker { times: std::collections::HashMap::new() }
    }
}

impl Default for CombatTimeTracker {
    fn default() -> (r: Self)
        ensures
            r.spec_times() == Map::<u64, (u64, u64)>::empty(),
    {
        CombatTimeTracker::new()
    }
}

/// The combat times that an agent has in the map, `(0, 0)` where it has none.
pub open spec fn times_of(times: Map<u64, (u64, u64)>, addr: u64) -> (u64, u64) {
    if times.contains_key(addr) {
        times[addr]
    } else {
        (0, 0)
    }
}

impl Tracker for CombatTimeTracker {
    // Maps from agent addr to (entry time, exit time)
    type Stat = std::collections::HashMap<u64, (u64, u64)>;

    type Error = Infallible;

    fn feed(&mut self, event: &Event) -> (r: Result<(), Infallible>)
        ensures
            r is Ok,
            final(self).spec_times() == match event@.kind {
                EventKind::EnterCombat { agent_addr, .. } => old(self).spec_times().insert(
                    agent_addr,
                    (event@.time, times_of(old(self).spec_times(), agent_addr).1),
                ),
                EventKind::ExitCombat { agent_addr } => old(self).spec_times().insert(
                    agent_addr,
                    (times_of(old(self).spec_times(), agent_addr).0, event@.time),
                ),
                _ => old(self).spec_times(),
            },
    {
        match *event.kind() {
            EventKind::EnterCombat { agent_addr, .. } => {
                let current = match self.times.get(&agent_addr) {
                    Some(t) => *t,
                    None => (0, 0),
                };
                self.times.insert(agent_addr, (event.time(), current.1));
            },
            EventKind::ExitCombat { agent_addr } => {
                let current = match self.times.get(&agent_addr) {
                    Some(t) => *t,
                    None => (0, 0),
                };
                self.times.insert(agent_addr, (current.0, event.time()));
            },
            _ => {},
        }
        Ok(())
    }

    fn finalize(self) -> (r: Result<std::collections::HashMap<u64, (u64, u64)>, Infallible>)
        ensures
            r matches Ok(times) && times@ == self.spec_times(),
    {
        Ok(self.times)
    }
}

/// The mechanic is triggered by the event: a physical hit of one of its skills on a player, by a
/// boss, that was neither evaded nor blocked.
pub open spec fn triggers(boss_addresses: Seq<u64>, event: EventView, mechanic: Mechanic) -> bool {
    &&& event.kind matches EventKind::Physical { source_agent_addr, skill_id, result, .. }
    &&& mechanic.1 matches Trigger::SkillOnPlayer(trigger_id)
    &&& skill_id == trigger_id
    &&& boss_addresses.contains(source_agent_addr)
    &&& result != CbtResult::Evade
    &&& result != CbtResult::Block
}

/// The occurrences that the event makes: one for each of the mechanics that it triggers, in order,
/// each with the hit agent.
pub open spec fn occurrences(
    boss_addresses: Seq<u64>,
    event: EventView,
    mechanics: Seq<&'static Mechanic>,
) -> Seq<(&'static Mechanic, u64)>
    decreases mechanics.len(),
{
    if mechanics.len() == 0 {
        Seq::empty()
    } else {
        let rest = occurrences(boss_addresses, event, mechanics.drop_last());
        if triggers(boss_addresses, event, *mechanics.last()) {
            match event.kind {
                EventKind::Physical { destination_agent_addr, .. } => rest.push(
                    (mechanics.last(), destination_agent_addr),
                ),
                _ => rest,
            }
        } else {
            rest
        }
    }
}

/// A tracker that tracks boss mechanics for each player.
pub struct MechanicTracker {
    log: MechanicLog,
    available_mechanics: Vec<&'static Mechanic>,
    boss_addresses: Vec<u64>,
}

impl MechanicTracker {
    /// The occurrences of mechanics so far.
    pub closed spec fn spec_log(&self) -> MechanicLog {
        self.log
    }

    /// The mechanics that the tracker looks for.
    pub closed spec fn spec_mechanics(&self) -> Seq<&'static Mechanic> {
        self.available_mechanics@
    }

    /// The addresses of the boss agents.
    pub closed spec fn spec_boss_addresses(&self) -> Seq<u64> {
        self.boss_addresses@
    }

    /// Create a new mechanic tracker that watches over the given mechanics.
    pub fn new(boss_addresses: Vec<u64>, mechanics: Vec<&'static Mechanic>) -> (r: MechanicTracker)
        ensures
            r.spec_log().spec_inner().wf(),
            r.spec_log().spec_inner().points().len() == 0,
            r.spec_mechanics() == mechanics@,
            r.spec_boss_addresses() == boss_addresses@,
    {
        MechanicTracker {
            log: MechanicLog::new(),
            available_mechanics: mechanics,
            boss_addresses,
        }
    }

    /// Checks whether the address is that of a boss agent.
    fn is_boss(&self, addr: u64) -> (r: bool)
        ensures
            r == self.spec_boss_addresses().contains(addr),
    {
        let mut i: usize = 0;
        while i < self.boss_addresses.len()
            invariant
                i <= self.boss_addresses@.len(),
                forall|k: int| 0 <= k < i ==> self.boss_addresses@[k] != addr,
            decreases self.boss_addresses@.len() - i,
        {
            if self.boss_addresses[i] == addr {
                assert(self.boss_addresses@[i as int] == addr);
                return true;
            }
            i += 1;
        }
        false
    }

}

impl Tracker for MechanicTracker {
    type Stat = MechanicLog;

    type Error = Infallible;

    /// Feed a single event: each mechanic that it triggers is logged as an occurrence at the
    /// event's time, in the order of the mechanics, after the occurrences logged so far at that
    /// time.
    fn feed(&mut self, event: &Event) -> (r: Result<(), Infallible>)
        ensures
            r is Ok,
            final(self).spec_mechanics() == old(self).spec_mechanics(),
            final(self).spec_boss_addresses() == old(self).spec_boss_addresses(),
            final(self).spec_log().spec_inner().wf(),
            ({
                let old_log = old(self).spec_log().spec_inner();
                let new_log = final(self).spec_log().spec_inner();
                let p = count_at_or_before(old_log.points(), event@.time as int);
                let occ = occurrences(
                    old(self).spec_boss_addresses(),
                    event@,
                    old(self).spec_mechanics(),
                );
                &&& new_log.points() == old_log.points().take(p) + Seq::new(
                    occ.len(),
                    |i: int| event@.time,
                ) + old_log.points().skip(p)
                &&& new_log.tags() == old_log.tags().take(p) + occ + old_log.tags().skip(p)
                &&& new_log.increments() == old_log.increments().take(p) + Seq::new(
                    occ.len(),
                    |i: int| Counter(1),
                ) + old_log.increments().skip(p)
            }),
    {
        proof {
            use_type_invariant(&self.log);
        }
        let ghost old_log = self.log.spec_inner();
        let ghost p = count_at_or_before(old_log.points(), event@.time as int);
        let ghost bosses = self.boss_addresses@;
        let ghost mechanics = self.available_mechanics@;
        proof {
            lemma_count_at_or_before_bounds(old_log.points(), event@.time as int);
        }
        let mut i: usize = 0;
        while i < self.available_mechanics.len()
            invariant
                i <= mechanics.len(),
                mechanics == self.available_mechanics@,
                bosses == self.boss_addresses@,
                self.log.spec_inner().wf(),
                old_log.wf(),
                0 <= p <= old_log.points().len(),
                p == count_at_or_before(old_log.points(), event@.time as int),
                ({
                    let occ = occurrences(bosses, event@, mechanics.take(i as int));
                    let new_log = self.log.spec_inner();
                    &&& new_log.points() == old_log.points().take(p) + Seq::new(
                        occ.len(),
                        |k: int| event@.time,
                    ) + old_log.points().skip(p)
                    &&& new_log.tags() == old_log.tags().take(p) + occ + old_log.tags().skip(p)
                    &&& new_log.increments() == old_log.increments().take(p) + Seq::new(
                        occ.len(),
                        |k: int| Counter(1),
                    ) + old_log.increments().skip(p)
                }),
            decreases mechanics.len() - i,
        {
            let mechanic = self.available_mechanics[i];
            let ghost before = self.log.spec_inner();
            let ghost occ = occurrences(bosses, event@, mechanics.take(i as int));
            proof {
                assert(mechanics.take(i + 1).drop_last() == mechanics.take(i as int));
                assert(mechanics.take(i + 1).last() == mechanic);
            }
            if let EventKind::Physical {
                source_agent_addr,
                destination_agent_addr,
                skill_id,
                result,
                ..
            } = *event.kind() {
                if let Trigger::SkillOnPlayer(trigger_id) = mechanic.1 {
                    if skill_id == trigger_id && self.is_boss(source_agent_addr) && result
                        != CbtResult::Evade && result != CbtResult::Block {
                        proof {
                            lemma_insert_after_run(old_log, p, occ.len() as int, event@.time);
                        }
                        self.log.increase(event.time(), mechanic, destination_agent_addr);
                        proof {
                            let next = occurrences(bosses, event@, mechanics.take(i + 1));
                            assert(next == occ.push((mechanic, destination_agent_addr)));
                            let new_log = self.log.spec_inner();
                            assert(new_log.points() =~= old_log.points().take(p) + Seq::new(
                                next.len(),
                                |k: int| event@.time,
                            ) + old_log.points().skip(p));
                            assert(new_log.tags() =~= old_log.tags().take(p) + next
                                + old_log.tags().skip(p));
                            assert(new_log.increments() =~= old_log.increments().take(p)
                                + Seq::new(next.len(), |k: int| Counter(1))
                                + old_log.increments().skip(p));
                        }
                    }
                }
            }
            i += 1;
        }
        assert(mechanics.take(i as int) == mechanics);
        Ok(())
    }

    fn finalize(self) -> (r: Result<MechanicLog, Infallible>)
        ensures
            r == Ok::<MechanicLog, Infallible>(self.spec_log()),
    {
        Ok(self.log)
    }
}

proof fn lemma_count_at_or_before_bounds(points: Seq<u64>, rank: int)
    ensures
        0 <= count_at_or_before(points, rank) <= points.len(),
    decreases points.len(),
{
    if points.len() > 0 {
        lemma_count_at_or_before_bounds(points.drop_last(), rank);
    }
}

/// After a run of `n` occurrences at time `t`, inserted at the position `p` where the old points
/// end that are not later than `t`, the next insertion at `t` goes right after the run.
proof fn lemma_insert_after_run(
    old_log: super::math::RecordFunc<u64, (&'static Mechanic, u64), Counter>,
    p: int,
    n: int,
    t: u64,
)
    requires
        old_log.wf(),
        0 <= p <= old_log.points().len(),
        n >= 0,
        p == count_at_or_before(old_log.points(), t as int),
    ensures
        count_at_or_before(
            old_log.points().take(p) + Seq::new(n as nat, |k: int| t) + old_log.points().skip(p),
            t as int,
        ) == p + n,
{
    let pts = old_log.points();
    let s = pts.take(p) + Seq::new(n as nat, |k: int| t) + pts.skip(p);
    lemma_count_at_or_before_facts(pts, t as int);
    assert forall|j: int| p + n <= j < s.len() implies s[j] > t by {
        assert(s[j] == pts[j - n]);
    }
    if p + n > 0 {
        if n > 0 {
            assert(s[p + n - 1] == t);
        } else {
            assert(s[p - 1] == pts[p - 1]);
        }
    }
    lemma_count_at_or_before_at(s, t as int, p + n);
}

proof fn lemma_count_at_or_before_facts(points: Seq<u64>, rank: int)
    ensures
        forall|j: int|
            count_at_or_before(points, rank) <= j < points.len() ==> points[j] > rank,
        count_at_or_before(points, rank) > 0 ==> points[count_at_or_before(points, rank) - 1]
            <= rank,
        0 <= count_at_or_before(points, rank) <= points.len(),
    decreases points.len(),
{
    if points.len() > 0 && points.last() > rank {
        let rest = points.drop_last();
        lemma_count_at_or_before_facts(rest, rank);
        assert forall|j: int|
            count_at_or_before(points, rank) <= j < points.len() implies points[j] > rank by {
            if j < rest.len() {
                assert(points[j] == rest[j]);
            }
        }
        if count_at_or_before(points, rank) > 0 {
            assert(points[count_at_or_before(points, rank) - 1] == rest[count_at_or_before(
                points,
                rank,
            ) - 1]);
        }
    }
}

proof fn lemma_count_at_or_before_at(points: Seq<u64>, rank: int, p: int)
    requires
        0 <= p <= points.len(),
        p == 0 || points[p - 1] <= rank,
        forall|j: int| p <= j < points.len() ==> points[j] > rank,
    ensures
        count_at_or_before(points, rank) == p,
    decreases points.len(),
{
    if points.len() > p {
        let rest = points.drop_last();
        if p > 0 {
            assert(rest[p - 1] == points[p - 1]);
        }
        assert forall|j: int| p <= j < rest.len() implies rest[j] > rank by {
            assert(rest[j] == points[j]);
        }
        lemma_count_at_or_before_at(rest, rank, p);
    }
}

} // verus!
