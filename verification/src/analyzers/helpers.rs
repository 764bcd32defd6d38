//! This module contains helper methods that are used in different analyzers.
use vstd::prelude::*;

use crate::processing::{agent_views, event_views, lemma_event_views_step};
use crate::{
    find_by_addr, is_boss_addr, is_character_with_id, Agent, AgentKind, AgentView, Character,
    EventKind, EventView, Log,
};

verus! {

/// The highest maximum health that the events give a boss agent of the log, if they give one any.
pub open spec fn max_boss_health(log: &Log, events: Seq<EventView>) -> Option<u64>
    decreases events.len(),
{
    if events.len() == 0 {
        None
    } else {
        let health = max_boss_health(log, events.drop_last());
        match events.last().kind {
            EventKind::MaxHealthUpdate { agent_addr, max_health } => if is_boss_addr(
                log,
                agent_addr,
            ) {
                match health {
                    Some(h) => Some(
                        if h >= max_health {
                            h
                        } else {
                            max_health
                        },
                    ),
                    None => Some(max_health),
                }
            } else {
                health
            },
            _ => health,
        }
    }
}

/// Returns the maximum health of the boss agent.
///
/// If the health cannot be determined, this function returns `None`.
///
/// The boss agent is determined by using [`Log::is_boss`][Log::is_boss].
pub fn boss_health(log: &Log) -> (r: Option<u64>)
    ensures
        r == max_boss_health(log, event_views(log.spec_events())),
{
    let events = log.events();
    let ghost views = event_views(log.spec_events());
    let mut health: Option<u64> = None;
    let mut i: usize = 0;
    while i < events.len()
        invariant
            i <= events@.len(),
            events@ == log.spec_events(),
            views == event_views(log.spec_events()),
            health == max_boss_health(log, views.take(i as int)),
        decreases events@.len() - i,
    {
        proof {
            lemma_event_views_step(events@, i as int);
        }
        if let EventKind::MaxHealthUpdate { agent_addr, max_health } = *events[i].kind() {
            if log.is_boss(agent_addr) {
                health =
                match health {
                    Some(h) => Some(
                        if h >= max_health {
                            h
                        } else {
                            max_health
                        },
                    ),
                    None => Some(max_health),
                };
            }
        }
        i += 1;
    }
    proof {
        assert(views.take(i as int) == views);
    }
    health
}

/// The event is the death of a boss agent of the log.
pub open spec fn is_boss_death(log: &Log, event: EventView) -> bool {
    event.kind matches EventKind::ChangeDead { agent_addr } && is_boss_addr(log, agent_addr)
}

/// Whether a boss agent of the log died.
pub open spec fn boss_died(log: &Log) -> bool {
    exists|i: int|
        0 <= i < log.spec_events().len() && is_boss_death(log, #[trigger] log.spec_events()[i]@)
}

/// Checks if any of the boss NPCs have died.
///
/// Death is determined by checking for the [`EventKind::ChangeDead`][EventKind::ChangeDead] event,
/// and whether a NPC is a boss is determined by the [`Log::is_boss`][Log::is_boss] method.
pub fn boss_is_dead(log: &Log) -> (r: bool)
    ensures
        r == boss_died(log),
{
    let events = log.events();
    let mut i: usize = 0;
    while i < events.len()
        invariant
            i <= events@.len(),
            events@ == log.spec_events(),
            forall|j: int| 0 <= j < i ==> !is_boss_death(log, #[trigger] events@[j]@),
        decreases events@.len() - i,
    {
        if let EventKind::ChangeDead { agent_addr } = *events[i].kind() {
            if log.is_boss(agent_addr) {
                assert(is_boss_death(log, events@[i as int]@));
                return true;
            }
        }
        i += 1;
    }
    false
}

/// The latest combat exit times of a player and of a boss character, after one more event.
pub open spec fn exit_step(log: &Log, exits: (u64, u64), event: EventView) -> (u64, u64) {
    match event.kind {
        EventKind::ExitCombat { agent_addr } => match find_by_addr(log.spec_agents(), agent_addr) {
            Some(a) => if (a@.kind is Player) && event.time >= exits.0 {
                (event.time, exits.1)
            } else if (a@.kind is Character) && event.time >= exits.1 && is_boss_addr(
                log,
                agent_addr,
            ) {
                (exits.0, event.time)
            } else {
                exits
            },
            None => exits,
        },
        _ => exits,
    }
}

/// The latest combat exit times of a player and of a boss character over the events (0 where
/// there is none).
pub open spec fn exit_times(log: &Log, events: Seq<EventView>) -> (u64, u64)
    decreases events.len(),
{
    if events.len() == 0 {
        (0, 0)
    } else {
        exit_step(log, exit_times(log, events.drop_last()), events.last())
    }
}

/// Whether the players exit combat more than a second after a boss does.
pub open spec fn players_exit_after_boss_spec(log: &Log) -> bool {
    let exits = exit_times(log, event_views(log.spec_events()));
    exits.1 != 0 && exits.0 > exits.1 + 1000
}

/// Checks whether the players exit combat after the boss.
///
/// This is useful to determine the success state of some fights.
pub fn players_exit_after_boss(log: &Log) -> (r: bool)
    ensures
        r == players_exit_after_boss_spec(log),
{
    let events = log.events();
    let ghost views = event_views(log.spec_events());
    let mut player_exit: u64 = 0;
    let mut boss_exit: u64 = 0;
    let mut i: usize = 0;
    while i < events.len()
        invariant
            i <= events@.len(),
            events@ == log.spec_events(),
            views == event_views(log.spec_events()),
            (player_exit, boss_exit) == exit_times(log, views.take(i as int)),
        decreases events@.len() - i,
    {
        proof {
            lemma_event_views_step(events@, i as int);
        }
        let event = &events[i];
        if let EventKind::ExitCombat { agent_addr } = *event.kind() {
            if let Some(agent) = log.agent_by_addr(agent_addr) {
                match agent.kind() {
                    AgentKind::Player(_) => {
                        if event.time() >= player_exit {
                            player_exit = event.time();
                        }
                    },
                    AgentKind::Character(_) => {
                        if event.time() >= boss_exit && log.is_boss(agent_addr) {
                            boss_exit = event.time();
                        }
                    },
                    _ => {},
                }
            }
        }
        i += 1;
    }
    proof {
        assert(views.take(i as int) == views);
    }
    // Safety margin
    boss_exit != 0 && player_exit > boss_exit && player_exit - boss_exit > 1000
}

/// The event applies the buff.
pub open spec fn applies_buff(event: EventView, wanted_buff_id: u32) -> bool {
    event.kind matches EventKind::BuffApplication { buff_id, .. } && buff_id == wanted_buff_id
}

/// Whether the log has an application of the buff.
pub open spec fn has_buff(log: &Log, wanted_buff_id: u32) -> bool {
    exists|i: int|
        0 <= i < log.spec_events().len() && applies_buff(
            #[trigger] log.spec_events()[i]@,
            wanted_buff_id,
        )
}

/// Checks if the given buff is present in the log.
pub fn buff_present(log: &Log, wanted_buff_id: u32) -> (r: bool)
    ensures
        r == has_buff(log, wanted_buff_id),
{
    let events = log.events();
    let mut i: usize = 0;
    while i < events.len()
        invariant
            i <= events@.len(),
            events@ == log.spec_events(),
            forall|j: int| 0 <= j < i ==> !applies_buff(#[trigger] events@[j]@, wanted_buff_id),
        decreases events@.len() - i,
    {
        if let EventKind::BuffApplication { buff_id, .. } = *events[i].kind() {
            if buff_id == wanted_buff_id {
                assert(applies_buff(events@[i as int]@, wanted_buff_id));
                return true;
            }
        }
        i += 1;
    }
    false
}

/// The time of the event if it applies the buff to the destination.
pub open spec fn buff_application_time(event: EventView, buff: u32, dest: u64) -> Option<u64> {
    match event.kind {
        EventKind::BuffApplication { destination_agent_addr, buff_id, .. } => if buff_id == buff
            && destination_agent_addr == dest {
            Some(event.time)
        } else {
            None
        },
        _ => None,
    }
}

/// The times at which the events apply the buff to the destination, in order.
pub open spec fn buff_times(events: Seq<EventView>, buff: u32, dest: u64) -> Seq<u64> {
    events.filter_map(|e: EventView| buff_application_time(e, buff, dest))
}

/// The destinations that the events apply the buff to, in the order of their first application.
pub open spec fn buff_destinations(events: Seq<EventView>, buff: u32) -> Seq<u64>
    decreases events.len(),
{
    if events.len() == 0 {
        Seq::empty()
    } else {
        let dests = buff_destinations(events.drop_last(), buff);
        match events.last().kind {
            EventKind::BuffApplication { destination_agent_addr, buff_id, .. } => if buff_id
                == buff && !dests.contains(destination_agent_addr) {
                dests.push(destination_agent_addr)
            } else {
                dests
            },
            _ => dests,
        }
    }
}

/// Of the destinations, the one with the most applications of the buff; of several, the last.
pub open spec fn busiest_destination(events: Seq<EventView>, buff: u32, dests: Seq<u64>) -> Option<
    u64,
>
    decreases dests.len(),
{
    if dests.len() == 0 {
        None
    } else {
        match busiest_destination(events, buff, dests.drop_last()) {
            Some(b) => if buff_times(events, buff, dests.last()).len() >= buff_times(
                events,
                buff,
                b,
            ).len() {
                Some(dests.last())
            } else {
                Some(b)
            },
            None => Some(dests.last()),
        }
    }
}

/// The smallest gap between consecutive times that is longer than 50 milliseconds, if any.
pub open spec fn min_long_gap(times: Seq<u64>) -> Option<int>
    decreases times.len(),
{
    if times.len() < 2 {
        None
    } else {
        let rest = min_long_gap(times.drop_last());
        let gap = times.last() - times[times.len() - 2];
        if gap > 50 {
            match rest {
                Some(m) => Some(
                    if m <= gap {
                        m
                    } else {
                        gap
                    },
                ),
                None => Some(gap),
            }
        } else {
            rest
        }
    }
}

/// The minimum time between applications of the buff to the agent that gets it most often,
/// ignoring gaps of 50 milliseconds or less; 0 where there is no such gap.
pub open spec fn time_between_buffs_spec(log: &Log, wanted_buff_id: u32) -> int {
    let events = event_views(log.spec_events());
    match busiest_destination(
        events,
        wanted_buff_id,
        buff_destinations(events, wanted_buff_id),
    ) {
        Some(d) => match min_long_gap(buff_times(events, wanted_buff_id, d)) {
            Some(g) => g,
            None => 0,
        },
        None => 0,
    }
}

proof fn lemma_buff_times_step(events: Seq<EventView>, buff: u32, dest: u64)
    requires
        events.len() > 0,
    ensures
        buff_times(events, buff, dest) == match buff_application_time(events.last(), buff, dest) {
            Some(t) => buff_times(events.drop_last(), buff, dest).push(t),
            None => buff_times(events.drop_last(), buff, dest),
        },
{
    reveal_with_fuel(Seq::filter_map, 1);
    assert(seq![events.last().time] == Seq::<u64>::empty().push(events.last().time));
}

proof fn lemma_buff_times_dest(events: Seq<EventView>, buff: u32, dest: u64)
    requires
        buff_times(events, buff, dest).len() > 0,
    ensures
        buff_destinations(events, buff).contains(dest),
    decreases events.len(),
{
    lemma_buff_times_step(events, buff, dest);
    if buff_times(events.drop_last(), buff, dest).len() > 0 {
        lemma_buff_times_dest(events.drop_last(), buff, dest);
        let dests = buff_destinations(events.drop_last(), buff);
        let k = choose|k: int| 0 <= k < dests.len() && dests[k] == dest;
        assert(buff_destinations(events, buff)[k] == dest);
    } else {
        let dests = buff_destinations(events.drop_last(), buff);
        if dests.contains(dest) {
            let k = choose|k: int| 0 <= k < dests.len() && dests[k] == dest;
            assert(buff_destinations(events, buff)[k] == dest);
        } else {
            assert(buff_destinations(events, buff) == dests.push(dest));
            assert(buff_destinations(events, buff)[dests.len() as int] == dest);
        }
    }
}

/// Returns the (minimum) time between applications of the given buff in milliseconds.
///
/// The times are those of the agent that gets the buff most often (of several, the last one to
/// get it for the first time); gaps of 50 milliseconds or less are ignored as duplicated buff
/// application events.
pub fn time_between_buffs(log: &Log, wanted_buff_id: u32) -> (r: u64)
    ensures
        r == time_between_buffs_spec(log, wanted_buff_id),
{
    let events = log.events();
    let ghost views = event_views(log.spec_events());
    // The destinations in order of their first application, and the times for each.
    let mut keys: Vec<u64> = Vec::new();
    let mut time_lists: Vec<Vec<u64>> = Vec::new();
    let mut i: usize = 0;
    while i < events.len()
        invariant
            i <= events@.len(),
            events@ == log.spec_events(),
            views == event_views(log.spec_events()),
            keys@ == buff_destinations(views.take(i as int), wanted_buff_id),
            keys@.no_duplicates(),
            time_lists@.len() == keys@.len(),
            forall|k: int|
                0 <= k < keys@.len() ==> (#[trigger] time_lists@[k])@ == buff_times(
                    views.take(i as int),
                    wanted_buff_id,
                    keys@[k],
                ),
        decreases events@.len() - i,
    {
        proof {
            lemma_event_views_step(events@, i as int);
            let prefix = views.take(i + 1);
            assert forall|d: u64| true implies #[trigger] buff_times(prefix, wanted_buff_id, d)
                == match buff_application_time(prefix.last(), wanted_buff_id, d) {
                Some(t) => buff_times(prefix.drop_last(), wanted_buff_id, d).push(t),
                None => buff_times(prefix.drop_last(), wanted_buff_id, d),
            } by {
                lemma_buff_times_step(prefix, wanted_buff_id, d);
            }
        }
        let event = &events[i];
        if let EventKind::BuffApplication { destination_agent_addr, buff_id, .. } = *event.kind() {
            if buff_id == wanted_buff_id {
                let mut j: usize = 0;
                while j < keys.len() && keys[j] != destination_agent_addr
                    invariant
                        j <= keys@.len(),
                        forall|m: int| 0 <= m < j ==> keys@[m] != destination_agent_addr,
                    decreases keys@.len() - j,
                {
                    j += 1;
                }
                if j < keys.len() {
                    let ghost before = time_lists@;
                    time_lists[j].push(event.time());
                    proof {
                        assert(keys@.contains(destination_agent_addr));
                        assert forall|k: int| 0 <= k < keys@.len() implies (
                        #[trigger] time_lists@[k])@ == buff_times(
                            views.take(i + 1),
                            wanted_buff_id,
                            keys@[k],
                        ) by {
                            if k != j {
                                assert(time_lists@[k] == before[k]);
                            }
                        }
                    }
                } else {
                    proof {
                        assert(!keys@.contains(destination_agent_addr));
                        if buff_times(views.take(i as int), wanted_buff_id, destination_agent_addr).len()
                            > 0 {
                            lemma_buff_times_dest(
                                views.take(i as int),
                                wanted_buff_id,
                                destination_agent_addr,
                            );
                        }
                    }
                    let mut list: Vec<u64> = Vec::new();
                    list.push(event.time());
                    keys.push(destination_agent_addr);
                    time_lists.push(list);
                    proof {
                        assert forall|k: int| 0 <= k < keys@.len() implies (
                        #[trigger] time_lists@[k])@ == buff_times(
                            views.take(i + 1),
                            wanted_buff_id,
                            keys@[k],
                        ) by {
                            if k == keys@.len() - 1 {
                                assert(buff_times(
                                    views.take(i as int),
                                    wanted_buff_id,
                                    destination_agent_addr,
                                ) == Seq::<u64>::empty());
                            }
                        }
                    }
                }
            }
        }
        i += 1;
    }
    proof {
        assert(views.take(i as int) == views);
    }
    // The busiest destination, the last of several.
    if keys.len() == 0 {
        return 0;
    }
    let mut best: usize = 0;
    let mut k: usize = 1;
    assert(keys@.take(1).drop_last() == keys@.take(0));
    assert(keys@.take(1).last() == keys@[0]);
    assert(busiest_destination(views, wanted_buff_id, keys@.take(0)) is None);
    while k < keys.len()
        invariant
            1 <= k <= keys@.len(),
            best < k,
            time_lists@.len() == keys@.len(),
            forall|m: int|
                0 <= m < keys@.len() ==> (#[trigger] time_lists@[m])@ == buff_times(
                    views,
                    wanted_buff_id,
                    keys@[m],
                ),
            busiest_destination(views, wanted_buff_id, keys@.take(k as int)) == Some(
                keys@[best as int],
            ),
        decreases keys@.len() - k,
    {
        assert(keys@.take(k + 1).drop_last() == keys@.take(k as int));
        if time_lists[k].len() >= time_lists[best].len() {
            best = k;
        }
        k += 1;
    }
    assert(keys@.take(k as int) == keys@);
    // The smallest gap longer than 50 milliseconds.
    let times = &time_lists[best];
    if times.len() < 2 {
        return 0;
    }
    let mut min_gap: Option<u64> = None;
    let mut t: usize = 1;
    while t < times.len()
        invariant
            1 <= t <= times@.len(),
            min_gap matches Some(g) ==> min_long_gap(times@.take(t as int)) == Some(g as int),
            min_gap is None ==> min_long_gap(times@.take(t as int)) is None,
        decreases times@.len() - t,
    {
        assert(times@.take(t + 1).drop_last() == times@.take(t as int));
        let a = times[t - 1];
        let b = times[t];
        if b > a && b - a > 50 {
            let gap = b - a;
            min_gap =
            match min_gap {
                Some(m) => Some(
                    if m <= gap {
                        m
                    } else {
                        gap
                    },
                ),
                None => Some(gap),
            };
        }
        t += 1;
    }
    assert(times@.take(t as int) == times@);
    match min_gap {
        Some(g) => g,
        None => 0,
    }
}

/// The maximum health of a boss agent is known and at least the threshold.
pub open spec fn health_at_least(log: &Log, threshold: u64) -> bool {
    match max_boss_health(log, event_views(log.spec_events())) {
        Some(h) => h >= threshold,
        None => false,
    }
}

/// The characters of the log, in order.
pub open spec fn character_views(log: &Log) -> Seq<AgentView> {
    agent_views(log.spec_agents()).filter(|a: AgentView| a.kind is Character)
}

/// The first of the agents that is a character with one of the two ids.
pub open spec fn first_with_ids(agents: Seq<AgentView>, id1: u16, id2: u16) -> Option<AgentView>
    decreases agents.len(),
{
    if agents.len() == 0 {
        None
    } else {
        match first_with_ids(agents.drop_last(), id1, id2) {
            Some(a) => Some(a),
            None => if is_character_with_id(agents.last(), id1) || is_character_with_id(
                agents.last(),
                id2,
            ) {
                Some(agents.last())
            } else {
                None
            },
        }
    }
}

proof fn lemma_first_with_ids_prefix(agents: Seq<AgentView>, id1: u16, id2: u16, k: int)
    requires
        0 <= k <= agents.len(),
        first_with_ids(agents.take(k), id1, id2) is Some,
    ensures
        first_with_ids(agents, id1, id2) == first_with_ids(agents.take(k), id1, id2),
    decreases agents.len(),
{
    if k < agents.len() {
        assert(agents.drop_last().take(k) == agents.take(k));
        lemma_first_with_ids_prefix(agents.drop_last(), id1, id2, k);
    } else {
        assert(agents.take(k) == agents);
    }
}

/// Finds the first character of the log whose id is one of the two.
pub(crate) fn find_character(log: &Log, id1: u16, id2: u16) -> (r: Option<Agent<Character>>)
    ensures
        match r {
            Some(c) => first_with_ids(character_views(log), id1, id2) == Some(c@),
            None => first_with_ids(character_views(log), id1, id2) is None,
        },
{
    let characters = log.characters();
    let ghost views = agent_views(characters@);
    let mut i: usize = 0;
    while i < characters.len()
        invariant
            i <= characters@.len(),
            views == agent_views(characters@),
            views == character_views(log),
            first_with_ids(views.take(i as int), id1, id2) is None,
        decreases characters@.len() - i,
    {
        assert(views.take(i + 1).drop_last() == views.take(i as int));
        assert(views.take(i + 1).last() == characters@[i as int]@);
        let id = characters[i].id();
        if id == id1 || id == id2 {
            proof {
                lemma_first_with_ids_prefix(views, id1, id2, i + 1);
            }
            return Some(characters[i].clone());
        }
        i += 1;
    }
    assert(views.take(i as int) == views);
    None
}

} // verus!
