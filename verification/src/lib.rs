//! `evtclib` is a crate aiming to provide utility functions to parse and work
//! with `.evtc` reports generated by arcdps.
//!
//! # About evtc Files
//!
//! evtc files are files generated by the (inofficial) arcdps addon to Guild Wars 2. They contain
//! metadata about a fight in the game, such as the boss's name (if it was a raid or fractal boss),
//! the participants, and a stripped-down log of the complete fight.
//!
//! A common way to store and distribute evtc files is to zip them to either a `.evtc.zip` (old
//! way) or a `.zevtc` (new way). evtclib uses [`zip`](https://crates.io/crates/zip) to read them,
//! providing the [`raw::parse_zip`][raw::parse_zip] convenience function.
//!
//! # Crate Structure
//!
//! The crate consists of two main parts: The [`raw`][raw] parser, which is used to read structured
//! data from the bytes of a file, and the higher-level abstrations provided in the root and
//! [`event`][event] submodules.
//!
//! Additionally, there are some defintions (such as IDs for various game items) in the
//! [`gamedata`][gamedata] module.
//!
//! The main structs that you should be dealing with are the [`Log`][Log] and its components, such
//! as [`Event`][Event] and [`Agent`][Agent].
//!
//! # Workflow
//!
//! Read the bytes of the file, obtain the low-level [`Evtc`][raw::Evtc] structure with
//! [`raw::parse_file`][raw::parse_file] (or [`raw::parse_zip`][raw::parse_zip] for zipped
//! files), and turn it into a [`Log`][Log] by using [`process`][process].
use vstd::prelude::*;

pub mod bytes;
pub mod raw;
pub mod text;

mod agent;
pub use agent::{Agent, AgentKind, AgentView, Character, Gadget, KindTag, Player};

pub mod event;
pub use event::{Event, EventKind, EventView};

pub mod gamedata;
pub use gamedata::{Boss, EliteSpec, Encounter, GameMode, Profession};

pub mod analyzers;
pub use analyzers::{Analyzer, Outcome};

pub mod statistics;

mod processing;
pub use processing::{process, process_stream, Compression};
use processing::{agent_views, event_views, first_with_addr};

verus! {

/// Any error that can occur during the processing of evtc files.
#[derive(Debug)]
pub enum EvtcError {
    /// Error for underlying parser errors.
    ///
    /// This is never returned from [`process`][process], only from the functions that parse and
    /// process in one go.
    ParseError(raw::ParseError),
    /// Generic error for invalid data in the evtc file.
    InvalidData,
    /// The profession id is not known.
    ///
    /// The field contains the unknown profession id.
    InvalidProfession(u32),
    /// The elite specialization id is not known.
    ///
    /// The field contains the unknown elite specialization id.
    InvalidEliteSpec(u32),
    /// The file contains invalid utf-8.
    Utf8Error(std::str::Utf8Error),
}

/// The kind of an [`EvtcError`], without the payload of the underlying library errors.
#[derive(Clone, Copy, Debug, PartialEq, Eq, Structural)]
pub enum EvtcErrorKind {
    /// See [`EvtcError::ParseError`].
    ParseError(raw::ParseErrorKind),
    /// See [`EvtcError::InvalidData`].
    InvalidData,
    /// See [`EvtcError::InvalidProfession`].
    InvalidProfession(u32),
    /// See [`EvtcError::InvalidEliteSpec`].
    InvalidEliteSpec(u32),
    /// See [`EvtcError::Utf8Error`].
    Utf8Error,
}

impl EvtcError {
    /// The kind of this error.
    pub open spec fn spec_kind(&self) -> EvtcErrorKind {
        match self {
            EvtcError::ParseError(e) => EvtcErrorKind::ParseError(e.spec_kind()),
            EvtcError::InvalidData => EvtcErrorKind::InvalidData,
            EvtcError::InvalidProfession(p) => EvtcErrorKind::InvalidProfession(*p),
            EvtcError::InvalidEliteSpec(e) => EvtcErrorKind::InvalidEliteSpec(*e),
            EvtcError::Utf8Error(_) => EvtcErrorKind::Utf8Error,
        }
    }

    /// The kind of this error.
    #[verifier::when_used_as_spec(spec_kind)]
    pub fn kind(&self) -> (r: EvtcErrorKind)
        ensures
            r == self.spec_kind(),
    {
        match self {
            EvtcError::ParseError(e) => EvtcErrorKind::ParseError(e.kind()),
            EvtcError::InvalidData => EvtcErrorKind::InvalidData,
            EvtcError::InvalidProfession(p) => EvtcErrorKind::InvalidProfession(*p),
            EvtcError::InvalidEliteSpec(e) => EvtcErrorKind::InvalidEliteSpec(*e),
            EvtcError::Utf8Error(_) => EvtcErrorKind::Utf8Error,
        }
    }
}

/// A fully processed log file.
#[derive(Debug, Clone)]
pub struct Log {
    agents: Vec<Agent>,
    events: Vec<Event>,
    boss_id: u16,
}

/// The first agent with the given address, if any.
pub open spec fn find_by_addr(agents: Seq<Agent>, addr: u64) -> Option<Agent> {
    match first_with_addr(agent_views(agents), addr) {
        Some(i) => Some(agents[i]),
        None => None,
    }
}

/// The agent is a character with the given id.
pub open spec fn is_character_with_id(agent: AgentView, id: u16) -> bool {
    agent.kind matches AgentKind::Character(c) && c.spec_id() == id
}

/// The ids of the bosses of the encounter that a header id stands for; none if it stands for no
/// encounter.
pub open spec fn boss_ids(encounter_id: u16) -> Seq<u16> {
    match Encounter::from_header_id_spec(encounter_id) {
        Some(e) => e.boss_list().map_values(|b: Boss| b.code()),
        None => Seq::empty(),
    }
}

/// The agent is a character whose id is one of the boss ids of the encounter.
pub open spec fn is_boss_agent(agent: AgentView, encounter_id: u16) -> bool {
    agent.kind matches AgentKind::Character(c) && boss_ids(encounter_id).contains(c.spec_id())
}

/// The boss agents of a log: all characters whose id is one of the encounter's boss ids, in
/// order.
pub open spec fn boss_agents_of(log: &Log) -> Seq<Agent> {
    log.spec_agents().filter(|a: Agent| is_boss_agent(a@, log.spec_encounter_id()))
}

/// The address is that of a boss agent of the log.
pub open spec fn is_boss_addr(log: &Log, addr: u64) -> bool {
    exists|k: int|
        0 <= k < boss_agents_of(log).len() && #[trigger] boss_agents_of(log)[k]@.addr == addr
}

/// The log has a reward event.
pub open spec fn rewarded(log: &Log) -> bool {
    exists|i: int| 0 <= i < log.spec_events().len() && #[trigger] log.spec_events()[i]@.kind is Reward
}

/// The local timestamp of a log start event.
pub open spec fn log_start_timestamp(event: EventView) -> Option<u32> {
    match event.kind {
        EventKind::LogStart { local_timestamp, .. } => Some(local_timestamp),
        _ => None,
    }
}

/// The local timestamp of a log end event.
pub open spec fn log_end_timestamp(event: EventView) -> Option<u32> {
    match event.kind {
        EventKind::LogEnd { local_timestamp, .. } => Some(local_timestamp),
        _ => None,
    }
}

/// The text of an error event.
pub open spec fn error_text(event: EventView) -> Option<Seq<char>> {
    match event.kind {
        EventKind::Error { text } => Some(text@),
        _ => None,
    }
}

/// The build of a build event.
pub open spec fn build_of(event: EventView) -> Option<u64> {
    match event.kind {
        EventKind::Build { build } => Some(build),
        _ => None,
    }
}

/// The first value that `f` gives for the elements of `s`, if any.
pub open spec fn first_some<A, B>(s: Seq<A>, f: spec_fn(A) -> Option<B>) -> Option<B> {
    let found = s.filter_map(f);
    if found.len() > 0 {
        Some(found[0])
    } else {
        None
    }
}

/// What `f` gives for a prefix of a sequence is a prefix of what it gives for the sequence.
pub proof fn lemma_filter_map_prefix<A, B>(s: Seq<A>, f: spec_fn(A) -> Option<B>, k: int)
    requires
        0 <= k <= s.len(),
    ensures
        s.take(k).filter_map(f).len() <= s.filter_map(f).len(),
        forall|i: int|
            0 <= i < s.take(k).filter_map(f).len() ==> #[trigger] s.take(k).filter_map(f)[i]
                == s.filter_map(f)[i],
    decreases s.len(),
{
    if k < s.len() {
        assert(s.drop_last().take(k) == s.take(k));
        lemma_filter_map_prefix(s.drop_last(), f, k);
    } else {
        assert(s.take(k) == s);
    }
}

/// Finding the first value of `f` at position `i`, after none before it.
proof fn lemma_first_some_at<A, B>(s: Seq<A>, f: spec_fn(A) -> Option<B>, i: int)
    requires
        0 <= i < s.len(),
        s.take(i).filter_map(f).len() == 0,
        f(s[i]) is Some,
    ensures
        first_some(s, f) == f(s[i]),
{
    assert(s.take(i + 1).drop_last() == s.take(i));
    lemma_filter_map_prefix(s, f, i + 1);
    assert(s.take(i + 1).filter_map(f)[0] == f(s[i])->0);
}

/// Extending a prefix in which `f` finds nothing by an element where it finds nothing.
proof fn lemma_first_some_step<A, B>(s: Seq<A>, f: spec_fn(A) -> Option<B>, i: int)
    requires
        0 <= i < s.len(),
        s.take(i).filter_map(f).len() == 0,
        f(s[i]) is None,
    ensures
        s.take(i + 1).filter_map(f).len() == 0,
{
    assert(s.take(i + 1).drop_last() == s.take(i));
}

impl Log {
    /// The agents of this log.
    pub closed spec fn spec_agents(&self) -> Seq<Agent> {
        self.agents@
    }

    /// The events of this log.
    pub closed spec fn spec_events(&self) -> Seq<Event> {
        self.events@
    }

    /// The encounter id of this log.
    pub closed spec fn spec_encounter_id(&self) -> u16 {
        self.boss_id
    }

    /// Return all agents present in this log.
    pub fn agents(&self) -> (r: &[Agent])
        ensures
            r@ == self.spec_agents(),
    {
        self.agents.as_slice()
    }

    /// Return an agent based on its address: the first with that address.
    pub fn agent_by_addr(&self, addr: u64) -> (r: Option<&Agent>)
        ensures
            match r {
                Some(a) => find_by_addr(self.spec_agents(), addr) == Some(*a),
                None => find_by_addr(self.spec_agents(), addr) is None,
            },
    {
        let ghost views = agent_views(self.agents@);
        proof {
            processing::lemma_first_with_addr(views, addr);
        }
        let mut i: usize = 0;
        while i < self.agents.len()
            invariant
                i <= self.agents@.len(),
                views == agent_views(self.agents@),
                forall|j: int| 0 <= j < i ==> views[j].addr != addr,
                match first_with_addr(views, addr) {
                    Some(k) => 0 <= k < views.len() && views[k].addr == addr && forall|j: int|
                        0 <= j < k ==> views[j].addr != addr,
                    None => forall|j: int| 0 <= j < views.len() ==> views[j].addr != addr,
                },
            decreases self.agents@.len() - i,
        {
            assert(views[i as int] == self.agents@[i as int]@);
            if self.agents[i].addr() == addr {
                return Some(&self.agents[i]);
            }
            i += 1;
        }
        None
    }

    /// Return an agent based on the instance ID: the first with that instance ID.
    pub fn agent_by_instance_id(&self, instance_id: u16) -> (r: Option<&Agent>)
        ensures
            r is None <==> forall|i: int|
                0 <= i < self.spec_agents().len() ==> self.spec_agents()[i]@.instance_id
                    != instance_id,
            r matches Some(a) ==> exists|i: int|
                0 <= i < self.spec_agents().len() && self.spec_agents()[i] == *a
                    && a@.instance_id == instance_id && forall|j: int|
                    0 <= j < i ==> self.spec_agents()[j]@.instance_id != instance_id,
    {
        let mut i: usize = 0;
        while i < self.agents.len()
            invariant
                i <= self.agents@.len(),
                forall|j: int| 0 <= j < i ==> self.agents@[j]@.instance_id != instance_id,
            decreases self.agents@.len() - i,
        {
            if self.agents[i].instance_id() == instance_id {
                return Some(&self.agents[i]);
            }
            i += 1;
        }
        None
    }

    /// Return the master agent of the given agent.
    ///
    /// * `addr` - The address of the agent which to get the master for.
    ///
    /// This is the first agent with the address of the master of the first agent with `addr`.
    pub fn master_agent(&self, addr: u64) -> (r: Option<&Agent>)
        ensures
            match find_by_addr(self.spec_agents(), addr) {
                Some(a) => match a@.master_agent {
                    Some(m) => match r {
                        Some(x) => find_by_addr(self.spec_agents(), m) == Some(*x),
                        None => find_by_addr(self.spec_agents(), m) is None,
                    },
                    None => r is None,
                },
                None => r is None,
            },
    {
        match self.agent_by_addr(addr) {
            Some(a) => match a.master_agent() {
                Some(m) => self.agent_by_addr(m),
                None => None,
            },
            None => None,
        }
    }

    /// Return all agents that represent player characters, in order.
    pub fn players(&self) -> (r: Vec<Agent<Player>>)
        ensures
            agent_views(r@) == agent_views(self.spec_agents()).filter(
                |a: AgentView| a.kind is Player,
            ),
    {
        let ghost views = agent_views(self.agents@);
        let mut result: Vec<Agent<Player>> = Vec::new();
        let mut i: usize = 0;
        while i < self.agents.len()
            invariant
                i <= self.agents@.len(),
                views == agent_views(self.agents@),
                agent_views(result@) == views.take(i as int).filter(
                    |a: AgentView| a.kind is Player,
                ),
            decreases self.agents@.len() - i,
        {
            assert(views.take(i + 1).drop_last() == views.take(i as int));
            assert(views.take(i + 1).last() == self.agents@[i as int]@);
            proof {
                let t = views.take(i + 1);
                reveal_with_fuel(Seq::filter, 1);
                assert(t.filter(|a: AgentView| a.kind is Player) == if t.last().kind is Player {
                    t.drop_last().filter(|a: AgentView| a.kind is Player).push(t.last())
                } else {
                    t.drop_last().filter(|a: AgentView| a.kind is Player)
                });
            }
            match self.agents[i].as_player() {
                Some(p) => {
                    assert(agent_views(result@.push(p)) == agent_views(result@).push(p@));
                    result.push(p);
                },
                None => {},
            }
            i += 1;
        }
        assert(views.take(i as int) == views);
        result
    }

    /// Return all agents that are characters, in order.
    pub fn characters(&self) -> (r: Vec<Agent<Character>>)
        ensures
            agent_views(r@) == agent_views(self.spec_agents()).filter(
                |a: AgentView| a.kind is Character,
            ),
    {
        let ghost views = agent_views(self.agents@);
        let mut result: Vec<Agent<Character>> = Vec::new();
        let mut i: usize = 0;
        while i < self.agents.len()
            invariant
                i <= self.agents@.len(),
                views == agent_views(self.agents@),
                agent_views(result@) == views.take(i as int).filter(
                    |a: AgentView| a.kind is Character,
                ),
            decreases self.agents@.len() - i,
        {
            assert(views.take(i + 1).drop_last() == views.take(i as int));
            assert(views.take(i + 1).last() == self.agents@[i as int]@);
            proof {
                let t = views.take(i + 1);
                reveal_with_fuel(Seq::filter, 1);
                assert(t.filter(|a: AgentView| a.kind is Character) == if t.last().kind is Character {
                    t.drop_last().filter(|a: AgentView| a.kind is Character).push(t.last())
                } else {
                    t.drop_last().filter(|a: AgentView| a.kind is Character)
                });
            }
            match self.agents[i].as_character() {
                Some(c) => {
                    assert(agent_views(result@.push(c)) == agent_views(result@).push(c@));
                    result.push(c);
                },
                None => {},
            }
            i += 1;
        }
        assert(views.take(i as int) == views);
        result
    }

    /// Return all agents that are gadgets, in order.
    pub fn gadgets(&self) -> (r: Vec<Agent<Gadget>>)
        ensures
            agent_views(r@) == agent_views(self.spec_agents()).filter(
                |a: AgentView| a.kind is Gadget,
            ),
    {
        let ghost views = agent_views(self.agents@);
        let mut result: Vec<Agent<Gadget>> = Vec::new();
        let mut i: usize = 0;
        while i < self.agents.len()
            invariant
                i <= self.agents@.len(),
                views == agent_views(self.agents@),
                agent_views(result@) == views.take(i as int).filter(
                    |a: AgentView| a.kind is Gadget,
                ),
            decreases self.agents@.len() - i,
        {
            assert(views.take(i + 1).drop_last() == views.take(i as int));
            assert(views.take(i + 1).last() == self.agents@[i as int]@);
            proof {
                let t = views.take(i + 1);
                reveal_with_fuel(Seq::filter, 1);
                assert(t.filter(|a: AgentView| a.kind is Gadget) == if t.last().kind is Gadget {
                    t.drop_last().filter(|a: AgentView| a.kind is Gadget).push(t.last())
                } else {
                    t.drop_last().filter(|a: AgentView| a.kind is Gadget)
                });
            }
            match self.agents[i].as_gadget() {
                Some(g) => {
                    assert(agent_views(result@.push(g)) == agent_views(result@).push(g@));
                    result.push(g);
                },
                None => {},
            }
            i += 1;
        }
        assert(views.take(i as int) == views);
        result
    }

    /// Return the boss agent: the first character whose id is the encounter id.
    ///
    /// Be careful with encounters that have multiple boss agents, such as Trio
    /// and Xera. A log that has no such character has no boss agent to give.
    pub fn boss(&self) -> (r: &Agent)
        requires
            exists|i: int|
                0 <= i < self.spec_agents().len() && is_character_with_id(
                    #[trigger] self.spec_agents()[i]@,
                    self.spec_encounter_id(),
                ),
        ensures
            exists|i: int|
                0 <= i < self.spec_agents().len() && self.spec_agents()[i] == *r
                    && is_character_with_id(r@, self.spec_encounter_id()) && forall|j: int|
                    0 <= j < i ==> !is_character_with_id(
                        #[trigger] self.spec_agents()[j]@,
                        self.spec_encounter_id(),
                    ),
    {
        let mut i: usize = 0;
        while i < self.agents.len()
            invariant
                i <= self.agents@.len(),
                forall|j: int|
                    0 <= j < i ==> !is_character_with_id(
                        #[trigger] self.agents@[j]@,
                        self.boss_id,
                    ),
                exists|k: int|
                    0 <= k < self.agents@.len() && is_character_with_id(
                        #[trigger] self.agents@[k]@,
                        self.boss_id,
                    ),
            decreases self.agents@.len() - i,
        {
            if let AgentKind::Character(c) = self.agents[i].kind() {
                if c.id() == self.boss_id {
                    let r = &self.agents[i];
                    assert(is_character_with_id(r@, self.boss_id));
                    assert(0 <= i < self.spec_agents().len() && self.spec_agents()[i as int] == *r
                        && is_character_with_id(r@, self.spec_encounter_id()) && forall|j: int|
                        0 <= j < i ==> !is_character_with_id(
                            #[trigger] self.spec_agents()[j]@,
                            self.spec_encounter_id(),
                        ));
                    return r;
                }
            }
            i += 1;
        }
        &self.agents[0]
    }

    /// Return all boss agents, in order.
    ///
    /// This correctly returns multiple agents on encounters where multiple
    /// agents are needed: all characters whose id is one of the encounter's boss ids.
    pub fn boss_agents(&self) -> (r: Vec<&Agent>)
        ensures
            r@.map_values(|a: &Agent| *a) == boss_agents_of(self),
    {
        let bosses: &[Boss] = match self.encounter() {
            Some(e) => e.bosses(),
            None => &[],
        };
        let ghost ids = boss_ids(self.boss_id);
        assert(bosses@.map_values(|b: Boss| b.code()) == ids);
        let mut result: Vec<&Agent> = Vec::new();
        let mut i: usize = 0;
        while i < self.agents.len()
            invariant
                i <= self.agents@.len(),
                bosses@.map_values(|b: Boss| b.code()) == ids,
                ids == boss_ids(self.boss_id),
                result@.map_values(|a: &Agent| *a) == self.agents@.take(i as int).filter(
                    |a: Agent| is_boss_agent(a@, self.boss_id),
                ),
            decreases self.agents@.len() - i,
        {
            assert(self.agents@.take(i + 1).drop_last() == self.agents@.take(i as int));
            assert(self.agents@.take(i + 1).last() == self.agents@[i as int]);
            proof {
                let t = self.agents@.take(i + 1);
                reveal_with_fuel(Seq::filter, 1);
                assert(t.filter(|a: Agent| is_boss_agent(a@, self.boss_id)) == if is_boss_agent(
                    t.last()@,
                    self.boss_id,
                ) {
                    t.drop_last().filter(|a: Agent| is_boss_agent(a@, self.boss_id)).push(t.last())
                } else {
                    t.drop_last().filter(|a: Agent| is_boss_agent(a@, self.boss_id))
                });
            }
            if let AgentKind::Character(c) = self.agents[i].kind() {
                let id = c.id();
                let mut k: usize = 0;
                let mut found = false;
                while k < bosses.len()
                    invariant
                        k <= bosses@.len(),
                        bosses@.map_values(|b: Boss| b.code()) == ids,
                        found <==> exists|m: int| 0 <= m < k && ids[m] == id,
                    decreases bosses@.len() - k,
                {
                    assert(ids[k as int] == bosses@[k as int].code());
                    if bosses[k].id() == id {
                        found = true;
                    }
                    k += 1;
                }
                assert(found <==> ids.contains(id));
                if found {
                    let a = &self.agents[i];
                    assert(result@.push(a).map_values(|a: &Agent| *a) == result@.map_values(
                        |a: &Agent| *a,
                    ).push(*a));
                    result.push(a);
                }
            }
            i += 1;
        }
        assert(self.agents@.take(i as int) == self.agents@);
        result
    }

    /// Check whether the given address is that of a boss agent.
    pub fn is_boss(&self, addr: u64) -> (r: bool)
        ensures
            r == is_boss_addr(self, addr),
    {
        let bosses = self.boss_agents();
        let mut k: usize = 0;
        while k < bosses.len()
            invariant
                k <= bosses@.len(),
                bosses@.map_values(|a: &Agent| *a) == boss_agents_of(self),
                forall|m: int| 0 <= m < k ==> boss_agents_of(self)[m]@.addr != addr,
            decreases bosses@.len() - k,
        {
            if bosses[k].addr() == addr {
                assert(boss_agents_of(self)[k as int]@.addr == addr);
                return true;
            }
            k += 1;
        }
        false
    }

    /// Returns the encounter id.
    pub fn encounter_id(&self) -> (r: u16)
        ensures
            r == self.spec_encounter_id(),
    {
        self.boss_id
    }

    /// Returns the encounter, if present.
    ///
    /// Some logs don't have an encounter set or have an ID that is unknown to us (for example, if
    /// people set up arcdps with custom IDs). Therefore, this method can only return the encounter
    /// if we know about it in [`Encounter`].
    pub fn encounter(&self) -> (r: Option<Encounter>)
        ensures
            r == Encounter::from_header_id_spec(self.spec_encounter_id()),
    {
        Encounter::from_header_id(self.boss_id)
    }

    /// Checks whether this log is a generic log, such as a WvW log: arcdps gives those the
    /// encounter id 1 instead of a boss id.
    pub fn is_generic(&self) -> (r: bool)
        ensures
            r == (self.spec_encounter_id() == 1),
    {
        self.boss_id == 1
    }

    /// Returns the game mode of the log: WvW for a generic log, else the game mode of its
    /// encounter, if the encounter is known.
    pub fn game_mode(&self) -> (r: Option<GameMode>)
        ensures
            r == if self.spec_encounter_id() == 1 {
                Some(GameMode::WvW)
            } else {
                match Encounter::from_header_id_spec(self.spec_encounter_id()) {
                    Some(e) => Some(e.game_mode_spec()),
                    None => None,
                }
            },
    {
        if self.is_generic() {
            return Some(GameMode::WvW);
        }
        match self.encounter() {
            Some(e) => Some(e.game_mode()),
            None => None,
        }
    }

    /// Return an analyzer suitable to analyze the given log: none where its encounter is not known.
    pub fn analyzer<'s>(&'s self) -> (r: Option<analyzers::EncounterAnalyzer<'s>>)
        ensures
            r is Some <==> Encounter::from_header_id_spec(self.spec_encounter_id()) is Some,
            r matches Some(a) ==> a.spec_log() == *self && analyzers::analyzer_for(
                a,
                Encounter::from_header_id_spec(self.spec_encounter_id())->0,
            ),
    {
        analyzers::for_log(self)
    }

    /// Return all events present in this log.
    pub fn events(&self) -> (r: &[Event])
        ensures
            r@ == self.spec_events(),
    {
        self.events.as_slice()
    }

    /// Returns the timespan of the log in milliseconds.
    ///
    /// The timespan is the time between the first registered event and the last registered event,
    /// measured in milliseconds.
    ///
    /// Note that this does not necessarily equate to the fight/encounter duration, as arcdps
    /// starts logging as soon as you enter combat, but some bosses are still invulnerable (e.g.
    /// Ensolyss). It does however give a good idea and is cheap to compute.
    ///
    /// In the rare occassions that a log does not have any events, this function will return 0.
    /// The last event must not be earlier than the first.
    pub fn span(&self) -> (r: u64)
        requires
            self.spec_events().len() > 0 ==> self.spec_events().first()@.time
                <= self.spec_events().last()@.time,
        ensures
            self.spec_events().len() == 0 ==> r == 0,
            self.spec_events().len() > 0 ==> r == self.spec_events().last()@.time
                - self.spec_events().first()@.time,
    {
        if self.events.len() == 0 {
            return 0;
        }
        let first = self.events[0].time();
        let last = self.events[self.events.len() - 1].time();
        last - first
    }
}

/// Convenience data accessing funtions for [`Log`][Log]s.
///
/// The information that is gathered by those functions is "expensive" to compute, as we have to
/// loop through every event. They are not saved in the header, and instead are implemented using
/// special [`EventKind`][EventKind]s. This is not a limitation of `evtclib`, but rather a result
/// of how arcdps stores the data.
///
/// This also means that those functions are fallible because we cannot guarantee that the special
/// events that we're looking for is actually present in every log file.
impl Log {
    /// Check whether the fight was done with challenge mote activated.
    ///
    /// This function always returns `false` if
    /// * The fight was done without CM
    /// * The fight does not have a CM
    /// * We cannot determine whether the CM was active
    /// * The boss is not known
    pub fn is_cm(&self) -> (r: bool)
        ensures
            r == match Encounter::from_header_id_spec(self.spec_encounter_id()) {
                Some(e) => analyzers::cm_for(self, e),
                None => false,
            },
    {
        match self.analyzer() {
            Some(a) => a.is_cm(),
            None => false,
        }
    }

    /// Get the timestamp of when the log was started: that of the first
    /// [`LogStart`][EventKind::LogStart] event.
    ///
    /// The returned value is a unix timestamp in the local time zone.
    ///
    /// If the [`LogStart`][EventKind::LogStart] event cannot be found, this function returns
    /// `None`.
    pub fn local_start_timestamp(&self) -> (r: Option<u32>)
        ensures
            r == first_some(event_views(self.spec_events()), |e: EventView| log_start_timestamp(e)),
    {
        let ghost views = event_views(self.events@);
        let ghost f = |e: EventView| log_start_timestamp(e);
        let mut i: usize = 0;
        while i < self.events.len()
            invariant
                i <= self.events@.len(),
                views == event_views(self.events@),
                f == (|e: EventView| log_start_timestamp(e)),
                views.take(i as int).filter_map(f).len() == 0,
            decreases self.events@.len() - i,
        {
            if let EventKind::LogStart { local_timestamp, .. } = self.events[i].kind() {
                proof {
                    lemma_first_some_at(views, f, i as int);
                }
                return Some(*local_timestamp);
            }
            proof {
                lemma_first_some_step(views, f, i as int);
            }
            i += 1;
        }
        assert(views.take(i as int) == views);
        None
    }

    /// Get the timestamp of when the log was ended: that of the first
    /// [`LogEnd`][EventKind::LogEnd] event.
    ///
    /// The returned value is a unix timestamp in the local time zone.
    ///
    /// If the [`LogEnd`][EventKind::LogEnd] event cannot be found, this function returns `None`.
    pub fn local_end_timestamp(&self) -> (r: Option<u32>)
        ensures
            r == first_some(event_views(self.spec_events()), |e: EventView| log_end_timestamp(e)),
    {
        let ghost views = event_views(self.events@);
        let ghost f = |e: EventView| log_end_timestamp(e);
        let mut i: usize = 0;
        while i < self.events.len()
            invariant
                i <= self.events@.len(),
                views == event_views(self.events@),
                f == (|e: EventView| log_end_timestamp(e)),
                views.take(i as int).filter_map(f).len() == 0,
            decreases self.events@.len() - i,
        {
            if let EventKind::LogEnd { local_timestamp, .. } = self.events[i].kind() {
                proof {
                    lemma_first_some_at(views, f, i as int);
                }
                return Some(*local_timestamp);
            }
            proof {
                lemma_first_some_step(views, f, i as int);
            }
            i += 1;
        }
        assert(views.take(i as int) == views);
        None
    }

    /// Check if rewards for this fight have been given out: whether the log has a
    /// [`Reward`][EventKind::Reward] event.
    ///
    /// This can be used as an indication whether the fight was successful (`true`) or not
    /// (`false`).
    ///
    /// If you want to properly determine whether a fight was successful, check the
    /// [`Analyzer::outcome`][crate::analyzers::Analyzer::outcome] method, which does more
    /// sophisticated checks (dependent on the boss).
    pub fn was_rewarded(&self) -> (r: bool)
        ensures
            r == rewarded(self),
    {
        let mut i: usize = 0;
        while i < self.events.len()
            invariant
                i <= self.events@.len(),
                forall|j: int| 0 <= j < i ==> !(self.events@[j]@.kind is Reward),
            decreases self.events@.len() - i,
        {
            if let EventKind::Reward { .. } = self.events[i].kind() {
                return true;
            }
            i += 1;
        }
        false
    }

    /// Returns all error strings that were captured, in order.
    ///
    /// If no errors were encountered, an empty vec is returned.
    ///
    /// Note that those are errors reported verbatim by arcdps, nothing that evtclib
    /// produces/interprets.
    pub fn errors(&self) -> (r: Vec<&str>)
        ensures
            r@.map_values(|s: &str| s@) == event_views(self.spec_events()).filter_map(
                |e: EventView| error_text(e),
            ),
    {
        let ghost views = event_views(self.events@);
        let ghost f = |e: EventView| error_text(e);
        let mut result: Vec<&str> = Vec::new();
        let mut i: usize = 0;
        while i < self.events.len()
            invariant
                i <= self.events@.len(),
                views == event_views(self.events@),
                f == (|e: EventView| error_text(e)),
                result@.map_values(|s: &str| s@) == views.take(i as int).filter_map(f),
            decreases self.events@.len() - i,
        {
            assert(views.take(i + 1).drop_last() == views.take(i as int));
            if let EventKind::Error { text } = self.events[i].kind() {
                let s = text.as_str();
                assert(result@.push(s).map_values(|s: &str| s@) == result@.map_values(
                    |s: &str| s@,
                ) + seq![s@]);
                result.push(s);
            }
            i += 1;
        }
        assert(views.take(i as int) == views);
        result
    }

    /// Returns the game's build id: that of the first [`Build`][EventKind::Build] event.
    ///
    /// If no build id was found, `None` is returned.
    pub fn build_id(&self) -> (r: Option<u64>)
        ensures
            r == first_some(event_views(self.spec_events()), |e: EventView| build_of(e)),
    {
        let ghost views = event_views(self.events@);
        let ghost f = |e: EventView| build_of(e);
        let mut i: usize = 0;
        while i < self.events.len()
            invariant
                i <= self.events@.len(),
                views == event_views(self.events@),
                f == (|e: EventView| build_of(e)),
                views.take(i as int).filter_map(f).len() == 0,
            decreases self.events@.len() - i,
        {
            if let EventKind::Build { build } = self.events[i].kind() {
                proof {
                    lemma_first_some_at(views, f, i as int);
                }
                return Some(*build);
            }
            proof {
                lemma_first_some_step(views, f, i as int);
            }
            i += 1;
        }
        assert(views.take(i as int) == views);
        None
    }
}

} // verus!
