//! Analyzers for strike mission logs.
use vstd::prelude::*;

use crate::analyzers::helpers::{
    boss_died, boss_health, boss_is_dead, character_views, find_character, first_with_ids,
    max_boss_health,
};
use crate::analyzers::{outcome_of, Analyzer, Outcome};
use crate::processing::{event_views, lemma_event_views_step};
use crate::{rewarded, Boss, EventKind, EventView, Log};

verus! {

/// Analyzer for strikes.
///
/// Since there are currently no strikes requiring special logic, this analyzer is used for all
/// strike missions. The fight succeeded where a boss died.
#[derive(Debug, Clone, Copy)]
pub struct GenericStrike<'log> {
    log: &'log Log,
}

impl<'log> GenericStrike<'log> {
    /// Create a new [`GenericStrike`] analyzer for the given log.
    ///
    /// **Do not** use this method unless you know what you are doing. Instead, rely on
    /// [`Log::analyzer`]!
    pub fn new(log: &'log Log) -> (r: Self)
        ensures
            r.spec_log() == *log,
    {
        GenericStrike { log }
    }
}

impl<'log> Analyzer for GenericStrike<'log> {
    closed spec fn spec_log(&self) -> Log {
        *self.log
    }

    open spec fn spec_is_cm(&self) -> bool {
        false
    }

    open spec fn spec_outcome(&self) -> Option<Outcome> {
        outcome_of(boss_died(&self.spec_log()))
    }

    fn log(&self) -> (r: &Log) {
        self.log
    }

    fn is_cm(&self) -> (r: bool) {
        false
    }

    fn outcome(&self) -> (r: Option<Outcome>) {
        Outcome::from_bool(boss_is_dead(self.log))
    }
}

/// A generic strike always has an outcome: it succeeded exactly where a boss died, and failed
/// otherwise, a wipe included.
pub proof fn lemma_generic_strike_outcome(a: GenericStrike)
    ensures
        a.spec_outcome() is Some,
        a.spec_outcome() == Some(Outcome::Success) <==> boss_died(&a.spec_log()),
        a.spec_outcome() == Some(Outcome::Failure) <==> !boss_died(&a.spec_log()),
{
}

/// The event applies the buff to the destination.
pub open spec fn buff_to(event: EventView, buff: u32, dest: u64) -> bool {
    event.kind matches EventKind::BuffApplication { destination_agent_addr, buff_id, .. }
        && buff_id == buff && destination_agent_addr == dest
}

/// The number of events that apply the buff to the destination, with the given duration if one
/// is given.
pub open spec fn buff_count(
    events: Seq<EventView>,
    buff: u32,
    dest: u64,
    duration: Option<i32>,
) -> nat
    decreases events.len(),
{
    if events.len() == 0 {
        0
    } else {
        let rest = buff_count(events.drop_last(), buff, dest, duration);
        let e = events.last();
        if buff_to(e, buff, dest) && match duration {
            Some(d) => e.kind matches EventKind::BuffApplication { duration, .. } && duration
                == d,
            None => true,
        } {
            rest + 1
        } else {
            rest
        }
    }
}

/// Counts the events that apply the buff to the destination, with the given duration if one is
/// given.
fn count_buff_applications(log: &Log, buff: u32, dest: u64, duration: Option<i32>) -> (r: usize)
    ensures
        r == buff_count(event_views(log.spec_events()), buff, dest, duration),
{
    let events = log.events();
    let ghost views = event_views(log.spec_events());
    let mut count: usize = 0;
    let mut i: usize = 0;
    while i < events.len()
        invariant
            i <= events@.len(),
            events@ == log.spec_events(),
            views == event_views(log.spec_events()),
            count == buff_count(views.take(i as int), buff, dest, duration),
            count <= i,
        decreases events@.len() - i,
    {
        proof {
            lemma_event_views_step(events@, i as int);
        }
        if let EventKind::BuffApplication {
            destination_agent_addr,
            buff_id,
            duration: event_duration,
            ..
        } = *events[i].kind() {
            let duration_matches = match duration {
                Some(d) => event_duration == d,
                None => true,
            };
            if buff_id == buff && destination_agent_addr == dest && duration_matches {
                count += 1;
            }
        }
        i += 1;
    }
    proof {
        assert(views.take(i as int) == views);
    }
    count
}

/// The character id of the Echo of Scarlet Briar.
pub const ECHO_OF_SCARLET_BRIAR: u16 = 24_768;
/// The character id of the Echo of Scarlet Briar in the challenge mote.
pub const ECHO_OF_SCARLET_BRIAR_CM: u16 = 25_247;
/// The buff that Captain Mai Trin gets when she has been defeated.
pub const MAI_DETERMINED_ID: u32 = 895;
/// The health above which Captain Mai Trin is in challenge mote.
pub const MAI_CM_HEALTH: u64 = 8_000_000;

/// The outcome of a Captain Mai Trin fight without reward: failed where Scarlet never spawned;
/// none where Mai Trin cannot be found; else succeeded where Mai Trin got her determined buff after
/// Scarlet was first seen.
pub open spec fn mai_outcome(log: &Log) -> Option<Outcome> {
    let events = log.spec_events();
    match first_with_ids(character_views(log), ECHO_OF_SCARLET_BRIAR, ECHO_OF_SCARLET_BRIAR_CM) {
        None => Some(Outcome::Failure),
        Some(scarlet) => match first_with_ids(
            character_views(log),
            Boss::CaptainMaiTrin.code(),
            Boss::CaptainMaiTrin.code(),
        ) {
            None => None,
            Some(mai) => outcome_of(
                exists|i: int|
                    0 <= i < events.len() && buff_to(#[trigger] events[i]@, MAI_DETERMINED_ID, mai.addr)
                        && events[i]@.time > scarlet.first_aware,
            ),
        },
    }
}

/// Analyzer for the first strike of End of Dragons, Captain Mai Trin.
///
/// The CM is detected by the boss's health, which is higher in the challenge mote.
#[derive(Debug, Clone, Copy)]
pub struct CaptainMaiTrin<'log> {
    log: &'log Log,
}

impl<'log> CaptainMaiTrin<'log> {
    /// Create a new [`CaptainMaiTrin`] analyzer for the given log.
    ///
    /// **Do not** use this method unless you know what you are doing. Instead, rely on
    /// [`Log::analyzer`]!
    pub fn new(log: &'log Log) -> (r: Self)
        ensures
            r.spec_log() == *log,
    {
        CaptainMaiTrin { log }
    }
}

impl<'log> Analyzer for CaptainMaiTrin<'log> {
    closed spec fn spec_log(&self) -> Log {
        *self.log
    }

    open spec fn spec_is_cm(&self) -> bool {
        match max_boss_health(&self.spec_log(), event_views(self.spec_log().spec_events())) {
            Some(h) => h > MAI_CM_HEALTH,
            None => false,
        }
    }

    open spec fn spec_outcome(&self) -> Option<Outcome> {
        if rewarded(&self.spec_log()) {
            Some(Outcome::Success)
        } else {
            mai_outcome(&self.spec_log())
        }
    }

    fn log(&self) -> (r: &Log) {
        self.log
    }

    fn is_cm(&self) -> (r: bool) {
        let health = match boss_health(self.log) {
            Some(h) => h,
            None => 0,
        };
        health > MAI_CM_HEALTH
    }

    fn outcome(&self) -> (r: Option<Outcome>) {
        if self.log.was_rewarded() {
            return Some(Outcome::Success);
        }
        // If the log ends before Scarlet even spawns, then it for sure is a failure.
        let scarlet = match find_character(self.log, ECHO_OF_SCARLET_BRIAR, ECHO_OF_SCARLET_BRIAR_CM) {
            Some(s) => s,
            None => return Some(Outcome::Failure),
        };
        let mai_id = Boss::CaptainMaiTrin.id();
        let mai = find_character(self.log, mai_id, mai_id)?;
        let mai_addr = mai.addr();
        let scarlet_first_aware = scarlet.first_aware();
        let events = self.log.events();
        let mut i: usize = 0;
        while i < events.len()
            invariant
                i <= events@.len(),
                events@ == self.log.spec_events(),
                !rewarded(self.log),
                first_with_ids(character_views(self.log), ECHO_OF_SCARLET_BRIAR, ECHO_OF_SCARLET_BRIAR_CM)
                    == Some(scarlet@),
                first_with_ids(
                    character_views(self.log),
                    Boss::CaptainMaiTrin.code(),
                    Boss::CaptainMaiTrin.code(),
                ) == Some(mai@),
                mai_addr == mai@.addr,
                scarlet_first_aware == scarlet@.first_aware,
                forall|j: int|
                    0 <= j < i ==> !(buff_to(#[trigger] events@[j]@, MAI_DETERMINED_ID, mai_addr)
                        && events@[j]@.time > scarlet_first_aware),
            decreases events@.len() - i,
        {
            if let EventKind::BuffApplication { destination_agent_addr, buff_id, .. } = *events[i].kind() {
                if buff_id == MAI_DETERMINED_ID && destination_agent_addr == mai_addr
                    && events[i].time() > scarlet_first_aware {
                    assert(buff_to(events@[i as int]@, MAI_DETERMINED_ID, mai_addr));
                    assert(buff_to(self.spec_log().spec_events()[i as int]@, MAI_DETERMINED_ID, mai_addr));
                    return Some(Outcome::Success);
                }
            }
            i += 1;
        }
        Some(Outcome::Failure)
    }
}

/// The buff that Ankka gets at a phase change.
pub const ANKKA_DETERMINED_ID: u32 = MAI_DETERMINED_ID;
/// The duration of the buff at a phase change.
pub const ANKKA_DURATION_CUTOFF: i32 = i32::MAX;
/// The number of phase changes of a successful Ankka fight.
pub const ANKKA_EXPECTED_PHASE_COUNT: usize = 3;

/// The outcome of an Ankka fight without reward: none where Ankka cannot be found; else succeeded
/// where she had exactly the expected number of phase changes.
pub open spec fn ankka_outcome(log: &Log) -> Option<Outcome> {
    match first_with_ids(character_views(log), Boss::Ankka.code(), Boss::Ankka.code()) {
        None => None,
        Some(ankka) => outcome_of(
            buff_count(
                event_views(log.spec_events()),
                ANKKA_DETERMINED_ID,
                ankka.addr,
                Some(ANKKA_DURATION_CUTOFF),
            ) == ANKKA_EXPECTED_PHASE_COUNT,
        ),
    }
}

/// Analyzer for the second strike of End of Dragons, Ankka.
///
/// The challenge mote of this strike is not detected.
#[derive(Debug, Clone, Copy)]
pub struct Ankka<'log> {
    log: &'log Log,
}

impl<'log> Ankka<'log> {
    /// Create a new [`Ankka`] analyzer for the given log.
    ///
    /// **Do not** use this method unless you know what you are doing. Instead, rely on
    /// [`Log::analyzer`]!
    pub fn new(log: &'log Log) -> (r: Self)
        ensures
            r.spec_log() == *log,
    {
        Ankka { log }
    }
}

impl<'log> Analyzer for Ankka<'log> {
    closed spec fn spec_log(&self) -> Log {
        *self.log
    }

    open spec fn spec_is_cm(&self) -> bool {
        false
    }

    open spec fn spec_outcome(&self) -> Option<Outcome> {
        if rewarded(&self.spec_log()) {
            Some(Outcome::Success)
        } else {
            ankka_outcome(&self.spec_log())
        }
    }

    fn log(&self) -> (r: &Log) {
        self.log
    }

    fn is_cm(&self) -> (r: bool) {
        // EoD strike CMs are not implemented yet as of 2022-03-31
        false
    }

    fn outcome(&self) -> (r: Option<Outcome>) {
        if self.log.was_rewarded() {
            return Some(Outcome::Success);
        }
        let ankka_id = Boss::Ankka.id();
        let ankka = find_character(self.log, ankka_id, ankka_id)?;
        let phase_change_count = count_buff_applications(
            self.log,
            ANKKA_DETERMINED_ID,
            ankka.addr(),
            Some(ANKKA_DURATION_CUTOFF),
        );
        Outcome::from_bool(phase_change_count == ANKKA_EXPECTED_PHASE_COUNT)
    }
}

/// The buff that Minister Li gets at a phase change.
pub const LI_DETERMINED_ID: u32 = 762;
/// The smallest number of phase changes of a successful Minister Li fight.
pub const LI_MINIMUM_PHASE_COUNT: usize = 3;

/// The outcome of a Minister Li fight without reward: none where Li cannot be found; else
/// succeeded where he had at least the minimum number of phase changes.
pub open spec fn li_outcome(log: &Log) -> Option<Outcome> {
    match first_with_ids(character_views(log), Boss::MinisterLi.code(), Boss::MinisterLi.code()) {
        None => None,
        Some(li) => outcome_of(
            buff_count(event_views(log.spec_events()), LI_DETERMINED_ID, li.addr, None)
                >= LI_MINIMUM_PHASE_COUNT,
        ),
    }
}

/// Analyzer for the third strike of End of Dragons, Minister Li.
///
/// The challenge mote of this strike is not detected.
#[derive(Debug, Clone, Copy)]
pub struct MinisterLi<'log> {
    log: &'log Log,
}

impl<'log> MinisterLi<'log> {
    /// Create a new [`MinisterLi`] analyzer for the given log.
    ///
    /// **Do not** use this method unless you know what you are doing. Instead, rely on
    /// [`Log::analyzer`]!
    pub fn new(log: &'log Log) -> (r: Self)
        ensures
            r.spec_log() == *log,
    {
        MinisterLi { log }
    }
}

impl<'log> Analyzer for MinisterLi<'log> {
    closed spec fn spec_log(&self) -> Log {
        *self.log
    }

    open spec fn spec_is_cm(&self) -> bool {
        false
    }

    open spec fn spec_outcome(&self) -> Option<Outcome> {
        if rewarded(&self.spec_log()) {
            Some(Outcome::Success)
        } else {
            li_outcome(&self.spec_log())
        }
    }

    fn log(&self) -> (r: &Log) {
        self.log
    }

    fn is_cm(&self) -> (r: bool) {
        // EoD strike CMs are not implemented yet as of 2022-03-31
        false
    }

    fn outcome(&self) -> (r: Option<Outcome>) {
        if self.log.was_rewarded() {
            return Some(Outcome::Success);
        }
        let li_id = Boss::MinisterLi.id();
        let li = find_character(self.log, li_id, li_id)?;
        let phase_change_count = count_buff_applications(self.log, LI_DETERMINED_ID, li.addr(), None);
        Outcome::from_bool(phase_change_count >= LI_MINIMUM_PHASE_COUNT)
    }
}

/// The number of target changes to off of a successful Dragonvoid fight.
pub const DRAGONVOID_EXPECTED_TARGET_OFF_COUNT: usize = 2;

/// Whether the agent is targetable and how often it changed from targetable to untargetable,
/// over the events.
pub open spec fn target_switches(events: Seq<EventView>, addr: u64) -> (bool, nat)
    decreases events.len(),
{
    if events.len() == 0 {
        (false, 0)
    } else {
        let (is_on, count) = target_switches(events.drop_last(), addr);
        match events.last().kind {
            EventKind::Targetable { agent_addr, targetable } => if agent_addr != addr {
                (is_on, count)
            } else if targetable {
                (true, count)
            } else if is_on {
                (is_on, count + 1)
            } else {
                (is_on, count)
            },
            _ => (is_on, count),
        }
    }
}

/// The parent of the first attack target among the events, if any.
pub open spec fn first_attack_parent(events: Seq<EventView>) -> Option<u64>
    decreases events.len(),
{
    if events.len() == 0 {
        None
    } else {
        match first_attack_parent(events.drop_last()) {
            Some(p) => Some(p),
            None => match events.last().kind {
                EventKind::AttackTarget { parent_agent_addr, .. } => Some(parent_agent_addr),
                _ => None,
            },
        }
    }
}

/// The event at the index is an attack target with another parent than the first attack target,
/// and its agent changed the expected number of times to untargetable.
pub open spec fn is_dragonvoid_success(events: Seq<EventView>, i: int) -> bool {
    &&& events[i].kind matches EventKind::AttackTarget { agent_addr, parent_agent_addr, .. }
    &&& first_attack_parent(events.take(i)) matches Some(p)
    &&& p != parent_agent_addr
    &&& target_switches(events, agent_addr).1 == DRAGONVOID_EXPECTED_TARGET_OFF_COUNT
}

/// Counts how often the agent changed from targetable to untargetable.
fn count_target_offs(log: &Log, addr: u64) -> (r: usize)
    ensures
        r == target_switches(event_views(log.spec_events()), addr).1,
{
    let events = log.events();
    let ghost views = event_views(log.spec_events());
    let mut is_on = false;
    let mut target_off_count: usize = 0;
    let mut i: usize = 0;
    while i < events.len()
        invariant
            i <= events@.len(),
            events@ == log.spec_events(),
            views == event_views(log.spec_events()),
            (is_on, target_off_count as nat) == target_switches(views.take(i as int), addr),
            target_off_count <= i,
        decreases events@.len() - i,
    {
        proof {
            lemma_event_views_step(events@, i as int);
        }
        if let EventKind::Targetable { agent_addr, targetable } = *events[i].kind() {
            if agent_addr == addr {
                if targetable {
                    is_on = true;
                } else if is_on {
                    target_off_count += 1;
                }
            }
        }
        i += 1;
    }
    proof {
        assert(views.take(i as int) == views);
    }
    target_off_count
}

/// Analyzer for the final strike of End of Dragons, the Dragonvoid.
///
/// The challenge mote of this strike is not detected. The fight succeeded where an attack target
/// of a later void than the first changed twice to untargetable.
#[derive(Debug, Clone, Copy)]
pub struct Dragonvoid<'log> {
    log: &'log Log,
}

impl<'log> Dragonvoid<'log> {
    /// Create a new [`Dragonvoid`] analyzer for the given log.
    ///
    /// **Do not** use this method unless you know what you are doing. Instead, rely on
    /// [`Log::analyzer`]!
    pub fn new(log: &'log Log) -> (r: Self)
        ensures
            r.spec_log() == *log,
    {
        Dragonvoid { log }
    }
}

impl<'log> Analyzer for Dragonvoid<'log> {
    closed spec fn spec_log(&self) -> Log {
        *self.log
    }

    open spec fn spec_is_cm(&self) -> bool {
        false
    }

    open spec fn spec_outcome(&self) -> Option<Outcome> {
        let events = event_views(self.spec_log().spec_events());
        outcome_of(exists|i: int| 0 <= i < events.len() && #[trigger] is_dragonvoid_success(events, i))
    }

    fn log(&self) -> (r: &Log) {
        self.log
    }

    fn is_cm(&self) -> (r: bool) {
        // EoD strike CMs are not implemented yet as of 2022-03-31
        false
    }

    fn outcome(&self) -> (r: Option<Outcome>) {
        // check_reward is pointless because the reward is delayed.
        let events = self.log.events();
        let ghost views = event_views(self.log.spec_events());
        // First, we find the right agent_addr
        let mut first_voids: Option<u64> = None;
        let mut i: usize = 0;
        while i < events.len()
            invariant
                i <= events@.len(),
                events@ == self.log.spec_events(),
                views == event_views(self.log.spec_events()),
                views == event_views(self.spec_log().spec_events()),
                views.len() == events@.len(),
                first_voids == first_attack_parent(views.take(i as int)),
                forall|j: int| 0 <= j < i ==> !#[trigger] is_dragonvoid_success(views, j),
            decreases events@.len() - i,
        {
            proof {
                lemma_event_views_step(events@, i as int);
            }
            if let EventKind::AttackTarget { agent_addr, parent_agent_addr, .. } = *events[i].kind() {
                match first_voids {
                    None => {
                        first_voids = Some(parent_agent_addr);
                    },
                    Some(p) => {
                        if p != parent_agent_addr {
                            // We find the amount of target off switches that occurred after a
                            // target on switch.
                            let target_off_count = count_target_offs(self.log, agent_addr);
                            if target_off_count == DRAGONVOID_EXPECTED_TARGET_OFF_COUNT {
                                assert(is_dragonvoid_success(views, i as int));
                                return Some(Outcome::Success);
                            }
                        }
                    },
                }
            }
            i += 1;
        }
        Some(Outcome::Failure)
    }
}


/// A CaptainMaiTrin fight in which the players were rewarded succeeded.
pub proof fn lemma_captain_mai_trin_rewarded(a: CaptainMaiTrin)
    ensures
        rewarded(&a.spec_log()) ==> a.spec_outcome() == Some(Outcome::Success),
{
}


/// A Ankka fight in which the players were rewarded succeeded.
pub proof fn lemma_ankka_rewarded(a: Ankka)
    ensures
        rewarded(&a.spec_log()) ==> a.spec_outcome() == Some(Outcome::Success),
{
}


/// A MinisterLi fight in which the players were rewarded succeeded.
pub proof fn lemma_minister_li_rewarded(a: MinisterLi)
    ensures
        rewarded(&a.spec_log()) ==> a.spec_outcome() == Some(Outcome::Success),
{
}

} // verus!
