//! Turning a low-level [`Evtc`][raw::Evtc] into a high-level [`Log`][Log].
use vstd::prelude::*;

use crate::agent::{agent_view_of, kind_error, kind_of, Agent, AgentView, KindTag};
use crate::raw::parser::{evtc_of, file_error, zip_first_entry};
use crate::event::{event_error, event_kind_of, event_view_of, Event, EventView};
use crate::raw;
use crate::raw::{CbtEvent, CbtStateChange};
use crate::{EvtcError, EvtcErrorKind, Log};

verus! {

/// The views of a sequence of agents.
pub open spec fn agent_views<K: KindTag>(agents: Seq<Agent<K>>) -> Seq<AgentView> {
    agents.map_values(|a: Agent<K>| a@)
}

/// The views of a sequence of events.
pub open spec fn event_views(events: Seq<Event>) -> Seq<EventView> {
    events.map_values(|e: Event| e@)
}

/// One step of a loop over events: the views of a prefix extended by the next event.
pub proof fn lemma_event_views_step(events: Seq<Event>, i: int)
    requires
        0 <= i < events.len(),
    ensures
        event_views(events).len() == events.len(),
        event_views(events).take(i + 1).drop_last() == event_views(events).take(i),
        event_views(events).take(i + 1).last() == events[i]@,
        event_views(events)[i] == events[i]@,
{
    assert(event_views(events).take(i + 1).drop_last() == event_views(events).take(i));
}

/// The error of the first raw agent that does not convert, if any.
pub open spec fn agents_error(raw_agents: Seq<raw::Agent>) -> Option<EvtcErrorKind>
    decreases raw_agents.len(),
{
    if raw_agents.len() == 0 {
        None
    } else {
        match agents_error(raw_agents.drop_last()) {
            Some(e) => Some(e),
            None => kind_error(raw_agents.last()),
        }
    }
}

/// `views` are the agents that `raw_agents` convert to, one for one.
pub open spec fn converts_to(raw_agents: Seq<raw::Agent>, views: Seq<AgentView>) -> bool {
    &&& views.len() == raw_agents.len()
    &&& forall|i: int|
        0 <= i < raw_agents.len() ==> kind_of(raw_agents[i], #[trigger] views[i].kind) && views[i]
            == agent_view_of(raw_agents[i], views[i].kind)
}

/// The agents are in ascending order of their addresses.
pub open spec fn sorted_by_addr(agents: Seq<AgentView>) -> bool {
    forall|i: int, j: int| 0 <= i <= j < agents.len() ==> agents[i].addr <= agents[j].addr
}

/// Where a stable insertion puts an agent with address `addr`: right after the last agent whose
/// address is not greater.
pub open spec fn insertion_point(agents: Seq<AgentView>, addr: u64) -> int
    decreases agents.len(),
{
    if agents.len() == 0 {
        0
    } else if agents.last().addr <= addr {
        agents.len() as int
    } else {
        insertion_point(agents.drop_last(), addr)
    }
}

/// The agents sorted by address, stably: agents with equal addresses keep their order.
pub open spec fn sort_by_addr(agents: Seq<AgentView>) -> Seq<AgentView>
    decreases agents.len(),
{
    if agents.len() == 0 {
        agents
    } else {
        let sorted = sort_by_addr(agents.drop_last());
        sorted.insert(insertion_point(sorted, agents.last().addr), agents.last())
    }
}

/// The index of the first agent with the given address.
pub open spec fn first_with_addr(agents: Seq<AgentView>, addr: u64) -> Option<int>
    decreases agents.len(),
{
    if agents.len() == 0 {
        None
    } else {
        match first_with_addr(agents.drop_last(), addr) {
            Some(i) => Some(i),
            None => if agents.last().addr == addr {
                Some(agents.len() - 1)
            } else {
                None
            },
        }
    }
}

/// What one event does to the instance ids and aware times of the agents: a non-statechange
/// event gives the first agent with its source address the event's instance id, sets its first
/// aware time if that is still 0, and sets its last aware time.
pub open spec fn aware_step(agents: Seq<AgentView>, event: CbtEvent) -> Seq<AgentView> {
    if event.is_statechange == CbtStateChange::Unset {
        match first_with_addr(agents, event.src_agent) {
            Some(i) => agents.update(
                i,
                AgentView {
                    instance_id: event.src_instid,
                    first_aware: if agents[i].first_aware == 0 {
                        event.time
                    } else {
                        agents[i].first_aware
                    },
                    last_aware: event.time,
                    ..agents[i]
                },
            ),
            None => agents,
        }
    } else {
        agents
    }
}

/// The agents after the aware steps of all the events, in order.
pub open spec fn with_awares(agents: Seq<AgentView>, events: Seq<CbtEvent>) -> Seq<AgentView>
    decreases events.len(),
{
    if events.len() == 0 {
        agents
    } else {
        aware_step(with_awares(agents, events.drop_last()), events.last())
    }
}

/// The agent can be the master of the event's source: it has the event's master instance id and
/// the event lies strictly between its first and last aware times.
pub open spec fn is_master_at(agent: AgentView, event: CbtEvent) -> bool {
    &&& agent.instance_id == event.src_master_instid
    &&& agent.first_aware < event.time
    &&& event.time < agent.last_aware
}

/// The index of the first agent that can be the master of the event's source.
pub open spec fn first_master(agents: Seq<AgentView>, event: CbtEvent) -> Option<int>
    decreases agents.len(),
{
    if agents.len() == 0 {
        None
    } else {
        match first_master(agents.drop_last(), event) {
            Some(i) => Some(i),
            None => if is_master_at(agents.last(), event) {
                Some(agents.len() - 1)
            } else {
                None
            },
        }
    }
}

/// What one event does to the master agents: an event with a master instance id gives the first
/// agent with its source address the address of the first agent that can be its master, if
/// both exist.
pub open spec fn master_step(agents: Seq<AgentView>, event: CbtEvent) -> Seq<AgentView> {
    if event.src_master_instid != 0 {
        match first_master(agents, event) {
            Some(m) => match first_with_addr(agents, event.src_agent) {
                Some(i) => agents.update(
                    i,
                    AgentView { master_agent: Some(agents[m].addr), ..agents[i] },
                ),
                None => agents,
            },
            None => agents,
        }
    } else {
        agents
    }
}

/// The agents after the master steps of all the events, in order.
pub open spec fn with_masters(agents: Seq<AgentView>, events: Seq<CbtEvent>) -> Seq<AgentView>
    decreases events.len(),
{
    if events.len() == 0 {
        agents
    } else {
        master_step(with_masters(agents, events.drop_last()), events.last())
    }
}

/// The raw events that convert to high-level events, in order.
pub open spec fn ok_events(raw_events: Seq<CbtEvent>) -> Seq<CbtEvent>
    decreases raw_events.len(),
{
    if raw_events.len() == 0 {
        raw_events
    } else if event_error(raw_events.last()) is None {
        ok_events(raw_events.drop_last()).push(raw_events.last())
    } else {
        ok_events(raw_events.drop_last())
    }
}

/// `views` are the events that `raw_events` convert to, one for one.
pub open spec fn events_convert(raw_events: Seq<CbtEvent>, views: Seq<EventView>) -> bool {
    &&& views.len() == raw_events.len()
    &&& forall|i: int|
        0 <= i < raw_events.len() ==> event_kind_of(raw_events[i], #[trigger] views[i].kind)
            && views[i] == event_view_of(raw_events[i], views[i].kind)
}

/// `agents` are what processing makes of the raw agents and events: the converted agents, sorted
/// by address, after the aware steps and then the master steps of all events.
pub open spec fn agents_processed(
    raw_agents: Seq<raw::Agent>,
    raw_events: Seq<CbtEvent>,
    agents: Seq<AgentView>,
) -> bool {
    exists|converted: Seq<AgentView>|
        converts_to(raw_agents, converted) && agents == with_masters(
            with_awares(sort_by_addr(converted), raw_events),
            raw_events,
        )
}


/// `r` is what processing the raw data gives: the error of the first agent that does not
/// convert, or else a log whose agents are [processed](agents_processed) (and so sorted by address,
/// one for each raw agent), whose events are the raw events that convert, converted, and whose
/// encounter id is that of the header.
pub open spec fn process_result(data: raw::Evtc, r: Result<Log, EvtcError>) -> bool {
    &&& r is Ok <==> agents_error(data.agents@) is None
    &&& r matches Err(e) ==> agents_error(data.agents@) == Some(e.kind())
    &&& r matches Ok(log) ==> {
        &&& agents_processed(data.agents@, data.events@, agent_views(log.spec_agents()))
        &&& sorted_by_addr(agent_views(log.spec_agents()))
        &&& log.spec_agents().len() == data.agents@.len()
        &&& events_convert(ok_events(data.events@), event_views(log.spec_events()))
        &&& log.spec_encounter_id() == data.header.combat_id
    }
}

proof fn lemma_agents_error_prefix(raw_agents: Seq<raw::Agent>, k: int)
    requires
        0 <= k <= raw_agents.len(),
        agents_error(raw_agents.take(k)) is Some,
    ensures
        agents_error(raw_agents) == agents_error(raw_agents.take(k)),
    decreases raw_agents.len(),
{
    if k < raw_agents.len() {
        assert(raw_agents.drop_last().take(k) == raw_agents.take(k));
        lemma_agents_error_prefix(raw_agents.drop_last(), k);
    } else {
        assert(raw_agents.take(k) == raw_agents);
    }
}

proof fn lemma_insertion_point(agents: Seq<AgentView>, addr: u64)
    ensures
        0 <= insertion_point(agents, addr) <= agents.len(),
        forall|j: int|
            insertion_point(agents, addr) <= j < agents.len() ==> agents[j].addr > addr,
        insertion_point(agents, addr) > 0 ==> agents[insertion_point(agents, addr) - 1].addr
            <= addr,
    decreases agents.len(),
{
    if agents.len() > 0 && agents.last().addr > addr {
        let rest = agents.drop_last();
        lemma_insertion_point(rest, addr);
        let p = insertion_point(agents, addr);
        assert forall|j: int| p <= j < agents.len() implies agents[j].addr > addr by {
            if j < rest.len() {
                assert(agents[j] == rest[j]);
            }
        }
        if p > 0 {
            assert(agents[p - 1] == rest[p - 1]);
        }
    }
}

proof fn lemma_insertion_point_at(agents: Seq<AgentView>, addr: u64, p: int)
    requires
        0 <= p <= agents.len(),
        p == 0 || agents[p - 1].addr <= addr,
        forall|j: int| p <= j < agents.len() ==> agents[j].addr > addr,
    ensures
        insertion_point(agents, addr) == p,
    decreases agents.len(),
{
    if agents.len() > p {
        let rest = agents.drop_last();
        if p > 0 {
            assert(rest[p - 1] == agents[p - 1]);
        }
        assert forall|j: int| p <= j < rest.len() implies rest[j].addr > addr by {
            assert(rest[j] == agents[j]);
        }
        lemma_insertion_point_at(rest, addr, p);
    }
}

/// Sorting by address gives agents in ascending order of their addresses, and the same agents as
/// before, each as often.
pub proof fn lemma_sort_by_addr(agents: Seq<AgentView>)
    ensures
        sorted_by_addr(sort_by_addr(agents)),
        sort_by_addr(agents).len() == agents.len(),
        sort_by_addr(agents).to_multiset() == agents.to_multiset(),
    decreases agents.len(),
{
    if agents.len() > 0 {
        let rest = agents.drop_last();
        let x = agents.last();
        lemma_sort_by_addr(rest);
        let sorted = sort_by_addr(rest);
        let p = insertion_point(sorted, x.addr);
        lemma_insertion_point(sorted, x.addr);
        sorted.insert_ensures(p, x);
        let r = sorted.insert(p, x);
        assert forall|i: int, j: int| 0 <= i <= j < r.len() implies r[i].addr <= r[j].addr by {
            if i < p && j < p {
            } else if i < p && j == p {
                assert(sorted[i].addr <= sorted[p - 1].addr);
            } else if i < p {
                assert(sorted[i].addr <= sorted[j - 1].addr);
            } else if i == p && j > p {
                assert(sorted[j - 1].addr > x.addr);
            } else if i > p {
                assert(sorted[i - 1].addr <= sorted[j - 1].addr);
            }
        }
        vstd::seq_lib::to_multiset_insert(sorted, p, x);
        assert(agents == rest.push(x));
        rest.to_multiset_ensures();
    }
}

pub(crate) proof fn lemma_first_with_addr(agents: Seq<AgentView>, addr: u64)
    ensures
        match first_with_addr(agents, addr) {
            Some(i) => 0 <= i < agents.len() && agents[i].addr == addr && forall|j: int|
                0 <= j < i ==> agents[j].addr != addr,
            None => forall|j: int| 0 <= j < agents.len() ==> agents[j].addr != addr,
        },
    decreases agents.len(),
{
    if agents.len() > 0 {
        let rest = agents.drop_last();
        lemma_first_with_addr(rest, addr);
        assert forall|j: int| 0 <= j < rest.len() implies agents[j] == rest[j] by {}
    }
}

proof fn lemma_first_master(agents: Seq<AgentView>, event: CbtEvent)
    ensures
        match first_master(agents, event) {
            Some(i) => 0 <= i < agents.len() && is_master_at(agents[i], event) && forall|j: int|
                0 <= j < i ==> !is_master_at(agents[j], event),
            None => forall|j: int| 0 <= j < agents.len() ==> !is_master_at(agents[j], event),
        },
    decreases agents.len(),
{
    if agents.len() > 0 {
        let rest = agents.drop_last();
        lemma_first_master(rest, event);
        assert forall|j: int| 0 <= j < rest.len() implies agents[j] == rest[j] by {}
    }
}

/// Converts all raw agents, stopping at the first that does not convert.
#[verifier::spinoff_prover]
#[verifier::rlimit(40)]
fn setup_agents(data: &raw::Evtc) -> (r: Result<Vec<Agent>, EvtcError>)
    ensures
        r is Ok <==> agents_error(data.agents@) is None,
        r matches Err(e) ==> agents_error(data.agents@) == Some(e.kind()),
        r matches Ok(agents) ==> converts_to(data.agents@, agent_views(agents@)),
{
    let mut agents: Vec<Agent> = Vec::new();
    let mut i: usize = 0;
    while i < data.agents.len()
        invariant
            i <= data.agents@.len(),
            agents_error(data.agents@.take(i as int)) is None,
            converts_to(data.agents@.take(i as int), agent_views(agents@)),
        decreases data.agents@.len() - i,
    {
        assert(data.agents@.take(i + 1).drop_last() == data.agents@.take(i as int));
        match Agent::try_from(&data.agents[i]) {
            Ok(a) => {
                assert(agent_views(agents@.push(a)) == agent_views(agents@).push(a@));
                agents.push(a);
            },
            Err(e) => {
                proof {
                    lemma_agents_error_prefix(data.agents@, i + 1);
                }
                return Err(e);
            },
        }
        i += 1;
    }
    assert(data.agents@.take(i as int) == data.agents@);
    Ok(agents)
}

/// The agents sorted by address, stably.
fn sort_agents_by_addr(agents: Vec<Agent>) -> (r: Vec<Agent>)
    ensures
        agent_views(r@) == sort_by_addr(agent_views(agents@)),
{
    let ghost views = agent_views(agents@);
    let mut sorted: Vec<Agent> = Vec::new();
    let mut i: usize = 0;
    while i < agents.len()
        invariant
            i <= agents@.len(),
            views == agent_views(agents@),
            agent_views(sorted@) == sort_by_addr(views.take(i as int)),
        decreases agents@.len() - i,
    {
        let agent = agents[i].clone();
        let key = agent.addr();
        let ghost before = agent_views(sorted@);
        let mut p: usize = sorted.len();
        while p > 0 && sorted[p - 1].addr() > key
            invariant
                p <= sorted@.len(),
                before == agent_views(sorted@),
                forall|j: int| p <= j < before.len() ==> before[j].addr > key,
            decreases p,
        {
            p -= 1;
        }
        proof {
            lemma_insertion_point_at(before, key, p as int);
            assert(views.take(i + 1).drop_last() == views.take(i as int));
            before.insert_ensures(p as int, agent@);
        }
        sorted.insert(p, agent);
        assert(agent_views(sorted@) == before.insert(p as int, agent@));
        i += 1;
    }
    assert(views.take(i as int) == views);
    sorted
}

/// The index of the first agent with the given address, found by binary search in agents sorted
/// by address.
fn get_agent_by_addr(agents: &[Agent], addr: u64) -> (r: Option<usize>)
    requires
        sorted_by_addr(agent_views(agents@)),
    ensures
        match r {
            Some(i) => first_with_addr(agent_views(agents@), addr) == Some(i as int),
            None => first_with_addr(agent_views(agents@), addr) is None,
        },
{
    let ghost views = agent_views(agents@);
    let mut lo: usize = 0;
    let mut hi: usize = agents.len();
    while lo < hi
        invariant
            lo <= hi <= agents@.len(),
            views == agent_views(agents@),
            sorted_by_addr(views),
            forall|j: int| 0 <= j < lo ==> views[j].addr < addr,
            forall|j: int| hi <= j < views.len() ==> views[j].addr >= addr,
        decreases hi - lo,
    {
        let mid = lo + (hi - lo) / 2;
        assert(views[mid as int] == agents@[mid as int]@);
        if agents[mid].addr() < addr {
            assert forall|j: int| 0 <= j <= mid implies views[j].addr < addr by {
                assert(views[j].addr <= views[mid as int].addr);
            }
            lo = mid + 1;
        } else {
            assert forall|j: int| mid <= j < views.len() implies views[j].addr >= addr by {
                assert(views[mid as int].addr <= views[j].addr);
            }
            hi = mid;
        }
    }
    proof {
        lemma_first_with_addr(views, addr);
        if lo < views.len() {
            assert(views[lo as int] == agents@[lo as int]@);
        }
    }
    if lo < agents.len() && agents[lo].addr() == addr {
        Some(lo)
    } else {
        None
    }
}

proof fn lemma_aware_step_keeps_addrs(agents: Seq<AgentView>, event: CbtEvent)
    ensures
        aware_step(agents, event).len() == agents.len(),
        forall|i: int|
            0 <= i < agents.len() ==> #[trigger] aware_step(agents, event)[i].addr
                == agents[i].addr,
{
    lemma_first_with_addr(agents, event.src_agent);
}

proof fn lemma_master_step_keeps_addrs(agents: Seq<AgentView>, event: CbtEvent)
    ensures
        master_step(agents, event).len() == agents.len(),
        forall|i: int|
            0 <= i < agents.len() ==> #[trigger] master_step(agents, event)[i].addr
                == agents[i].addr,
{
    lemma_first_with_addr(agents, event.src_agent);
}

/// Sets the instance ids and aware times of the agents from the events.
fn set_agent_awares(data: &raw::Evtc, agents: &mut Vec<Agent>) -> (r: Result<(), EvtcError>)
    requires
        sorted_by_addr(agent_views(old(agents)@)),
    ensures
        r is Ok,
        agent_views(final(agents)@) == with_awares(agent_views(old(agents)@), data.events@),
        sorted_by_addr(agent_views(final(agents)@)),
{
    let ghost start = agent_views(agents@);
    let mut k: usize = 0;
    while k < data.events.len()
        invariant
            k <= data.events@.len(),
            agent_views(agents@) == with_awares(start, data.events@.take(k as int)),
            sorted_by_addr(agent_views(agents@)),
        decreases data.events@.len() - k,
    {
        let event = &data.events[k];
        let ghost before = agent_views(agents@);
        proof {
            assert(data.events@.take(k + 1).drop_last() == data.events@.take(k as int));
            lemma_first_with_addr(before, event.src_agent);
            lemma_aware_step_keeps_addrs(before, *event);
        }
        if event.is_statechange == CbtStateChange::Unset {
            match get_agent_by_addr(agents.as_slice(), event.src_agent) {
                Some(idx) => {
                    agents[idx].set_instance_id(event.src_instid);
                    if agents[idx].first_aware() == 0 {
                        agents[idx].set_first_aware(event.time);
                    }
                    agents[idx].set_last_aware(event.time);
                },
                None => {},
            }
        }
        assert(agent_views(agents@) == aware_step(before, *event));
        k += 1;
    }
    assert(data.events@.take(k as int) == data.events@);
    Ok(())
}

/// The address of the first agent that can be the master of the event's source, if any.
fn find_master(agents: &Vec<Agent>, event: &CbtEvent) -> (r: Option<u64>)
    ensures
        match first_master(agent_views(agents@), *event) {
            Some(m) => r == Some(agent_views(agents@)[m].addr),
            None => r is None,
        },
{
    let ghost views = agent_views(agents@);
    proof {
        lemma_first_master(views, *event);
    }
    let mut j: usize = 0;
    while j < agents.len()
        invariant
            j <= agents@.len(),
            views == agent_views(agents@),
            forall|m: int| 0 <= m < j ==> !is_master_at(views[m], *event),
            match first_master(views, *event) {
                Some(i) => 0 <= i < views.len() && is_master_at(views[i], *event) && forall|m: int|
                    0 <= m < i ==> !is_master_at(views[m], *event),
                None => forall|m: int| 0 <= m < views.len() ==> !is_master_at(views[m], *event),
            },
        decreases agents@.len() - j,
    {
        assert(views[j as int] == agents@[j as int]@);
        if agents[j].instance_id() == event.src_master_instid && agents[j].first_aware()
            < event.time && event.time < agents[j].last_aware() {
            return Some(agents[j].addr());
        }
        j += 1;
    }
    None
}

/// Sets the master agents from the events.
fn set_agent_masters(data: &raw::Evtc, agents: &mut Vec<Agent>) -> (r: Result<(), EvtcError>)
    requires
        sorted_by_addr(agent_views(old(agents)@)),
    ensures
        r is Ok,
        agent_views(final(agents)@) == with_masters(agent_views(old(agents)@), data.events@),
        sorted_by_addr(agent_views(final(agents)@)),
{
    let ghost start = agent_views(agents@);
    let mut k: usize = 0;
    while k < data.events.len()
        invariant
            k <= data.events@.len(),
            agent_views(agents@) == with_masters(start, data.events@.take(k as int)),
            sorted_by_addr(agent_views(agents@)),
        decreases data.events@.len() - k,
    {
        let event = &data.events[k];
        let ghost before = agent_views(agents@);
        proof {
            assert(data.events@.take(k + 1).drop_last() == data.events@.take(k as int));
            lemma_first_with_addr(before, event.src_agent);
            lemma_master_step_keeps_addrs(before, *event);
        }
        if event.src_master_instid != 0 {
            let master_addr = find_master(agents, event);
            if let Some(master_addr) = master_addr {
                if let Some(idx) = get_agent_by_addr(agents.as_slice(), event.src_agent) {
                    agents[idx].set_master_agent(Some(master_addr));
                }
            }
        }
        assert(agent_views(agents@) == master_step(before, *event));
        k += 1;
    }
    assert(data.events@.take(k as int) == data.events@);
    Ok(())
}

/// Converts the raw events, leaving out those that do not convert.
fn convert_events(raw_events: &Vec<CbtEvent>) -> (r: Vec<Event>)
    ensures
        events_convert(ok_events(raw_events@), event_views(r@)),
{
    let mut events: Vec<Event> = Vec::new();
    let mut k: usize = 0;
    while k < raw_events.len()
        invariant
            k <= raw_events@.len(),
            events_convert(ok_events(raw_events@.take(k as int)), event_views(events@)),
        decreases raw_events@.len() - k,
    {
        assert(raw_events@.take(k + 1).drop_last() == raw_events@.take(k as int));
        match Event::try_from(&raw_events[k]) {
            Ok(event) => {
                assert(event_views(events@.push(event)) == event_views(events@).push(event@));
                events.push(event);
            },
            Err(_) => {},
        }
        k += 1;
    }
    assert(raw_events@.take(k as int) == raw_events@);
    events
}

/// Main function to turn a low-level [`Evtc`][raw::Evtc] to a high-level [`Log`][Log].
///
/// This function takes an [`Evtc`][raw::Evtc] and does the required type conversions and
/// pre-processing to get a high-level [`Log`][Log]. This pre-processing includes
///
/// * Setting the correct aware times for the agents
/// * Setting the master agents for each agent
/// * Converting all events
///
/// The agents of the log are sorted by their address. Events that cannot be converted are left
/// out. Note that the structures are quite different, so this function does not consume the given
/// [`Evtc`][raw::Evtc].
pub fn process(data: &raw::Evtc) -> (r: Result<Log, EvtcError>)
    ensures
        process_result(*data, r),
{
    // Prepare "augmented" agents
    let agents = setup_agents(data)?;
    let ghost converted = agent_views(agents@);
    // We sort the agents so we can do a binary search later in get_agent_by_addr.
    let mut agents = sort_agents_by_addr(agents);
    proof {
        lemma_sort_by_addr(converted);
    }
    // Do the first aware/last aware field
    set_agent_awares(data, &mut agents)?;
    // Set the master addr field
    set_agent_masters(data, &mut agents)?;
    let events = convert_events(&data.events);
    let log = Log { agents, events, boss_id: data.header.combat_id };
    proof {
        assert(converts_to(data.agents@, converted));
        lemma_with_awares_len(sort_by_addr(converted), data.events@);
        lemma_with_masters_len(
            with_awares(sort_by_addr(converted), data.events@),
            data.events@,
        );
    }
    Ok(log)
}

proof fn lemma_with_awares_len(agents: Seq<AgentView>, events: Seq<CbtEvent>)
    ensures
        with_awares(agents, events).len() == agents.len(),
    decreases events.len(),
{
    if events.len() > 0 {
        lemma_with_awares_len(agents, events.drop_last());
        lemma_aware_step_keeps_addrs(with_awares(agents, events.drop_last()), events.last());
    }
}

proof fn lemma_with_masters_len(agents: Seq<AgentView>, events: Seq<CbtEvent>)
    ensures
        with_masters(agents, events).len() == agents.len(),
    decreases events.len(),
{
    if events.len() > 0 {
        lemma_with_masters_len(agents, events.drop_last());
        lemma_master_step_keeps_addrs(with_masters(agents, events.drop_last()), events.last());
    }
}

/// Indicates the given compression method for the file.
#[derive(Debug, Copy, Clone, PartialEq, Eq, Hash, Structural)]
pub enum Compression {
    /// No compression was used.
    Uncompressed,
    /// The file is wrapped in a zip archive.
    Zip,
}

/// The bytes of the evtc file that the input holds under the compression: the input itself, or
/// the first entry of the zip archive (none where the archive cannot be read).
pub open spec fn stream_content(input: Seq<u8>, compression: Compression) -> Option<Seq<u8>> {
    match compression {
        Compression::Uncompressed => Some(input),
        Compression::Zip => zip_first_entry(input),
    }
}

/// `r` is what parsing and processing the input gives: the parse error, or else what
/// [`process`] gives for the parsed file.
pub open spec fn stream_result(
    input: Seq<u8>,
    compression: Compression,
    r: Result<Log, EvtcError>,
) -> bool {
    match stream_content(input, compression) {
        None => r matches Err(e) && e.kind() == EvtcErrorKind::ParseError(
            raw::ParseErrorKind::InvalidZip,
        ),
        Some(b) => match file_error(b) {
            Some(pe) => r matches Err(e) && e.kind() == EvtcErrorKind::ParseError(pe),
            None => exists|e: raw::Evtc| #[trigger] evtc_of(b, e) && process_result(e, r),
        },
    }
}

/// Parses an evtc file from its bytes, unzipping them first if the compression says so.
fn parse_stream(input: &[u8], compression: Compression) -> (r: Result<raw::Evtc, EvtcError>)
    ensures
        match stream_content(input@, compression) {
            None => r matches Err(e) && e.kind() == EvtcErrorKind::ParseError(
                raw::ParseErrorKind::InvalidZip,
            ),
            Some(b) => {
                &&& r is Ok <==> file_error(b) is None
                &&& r matches Ok(e) ==> evtc_of(b, e)
                &&& r matches Err(e) ==> file_error(b) matches Some(pe) && e.kind()
                    == EvtcErrorKind::ParseError(pe)
            },
        },
{
    let parsed = match compression {
        Compression::Uncompressed => raw::parse_file(input),
        Compression::Zip => raw::parse_zip(input),
    };
    match parsed {
        Ok(evtc) => Ok(evtc),
        Err(e) => Err(EvtcError::ParseError(e)),
    }
}

/// Convenience function to process the bytes of a file directly.
///
/// This is a shorthand for using [`raw::parse_file`][raw::parse_file] (or
/// [`raw::parse_zip`][raw::parse_zip] for zip compressed files) followed by [`process`][process].
/// Parse errors are returned as [`EvtcError::ParseError`].
pub fn process_stream(input: &[u8], compression: Compression) -> (r: Result<Log, EvtcError>)
    ensures
        stream_result(input@, compression, r),
{
    let evtc = parse_stream(input, compression)?;
    let r = process(&evtc);
    r
}

} // verus!
