//! Analyzers for (challenge mote) fractal encounters.
use vstd::prelude::*;

use crate::analyzers::helpers::{
    boss_died, boss_health, boss_is_dead, character_views, health_at_least,
};
use crate::analyzers::{outcome_of, Analyzer, Outcome};
use crate::processing::{agent_views, event_views, lemma_event_views_step};
use crate::{find_by_addr, is_character_with_id, rewarded, AgentView, Boss, EventKind, EventView, Log};

verus! {

/// The ID of the invulnerability buff that Ai gets when she has been defeated.
pub const AI_INVULNERABILITY_ID: u32 = 895;
/// The ID of the skill with which we determine when Ai has phased.
pub const AI_PHASE_SKILL: u32 = 53_569;
/// The ID of the skill with which we determine Ai has the dark phase fight.
pub const AI_HAS_DARK_MODE_SKILL: u32 = 61_356;

/// The event is a use of the skill.
pub open spec fn uses_skill(event: EventView, id: u32) -> bool {
    event.kind matches EventKind::SkillUse { skill_id, .. } && skill_id == id
}

/// The time of the last use of the skill, if any.
pub open spec fn last_skill_use(events: Seq<EventView>, id: u32) -> Option<u64>
    decreases events.len(),
{
    if events.len() == 0 {
        None
    } else if uses_skill(events.last(), id) {
        Some(events.last().time)
    } else {
        last_skill_use(events.drop_last(), id)
    }
}

/// When the dark phase of Ai starts: none if the log has no dark phase; else the time of the last
/// phase change, or 0 if the whole log is in dark phase.
pub open spec fn dark_phase_start(log: &Log) -> Option<u64> {
    let events = event_views(log.spec_events());
    if !(exists|i: int| 0 <= i < events.len() && uses_skill(#[trigger] events[i], AI_HAS_DARK_MODE_SKILL)) {
        None
    } else {
        match last_skill_use(events, AI_PHASE_SKILL) {
            Some(t) => Some(t),
            None => Some(0),
        }
    }
}

/// Gets the timestamp when the second phase of Ai starts.
///
/// If the log is missing dark phase, `None` is returned.
///
/// If the whole log is in dark phase, `Some(0)` is returned.
fn get_dark_phase_start(log: &Log) -> (r: Option<u64>)
    ensures
        r == dark_phase_start(log),
{
    let events = log.events();
    let ghost views = event_views(log.spec_events());
    // Determine if we even have a dark phase.
    let mut has_dark_mode = false;
    let mut i: usize = 0;
    while i < events.len()
        invariant
            i <= events@.len(),
            events@ == log.spec_events(),
            views == event_views(log.spec_events()),
            views.len() == events@.len(),
            has_dark_mode <==> exists|j: int|
                0 <= j < i && uses_skill(#[trigger] views[j], AI_HAS_DARK_MODE_SKILL),
        decreases events@.len() - i,
    {
        proof {
            lemma_event_views_step(events@, i as int);
        }
        if let EventKind::SkillUse { skill_id, .. } = *events[i].kind() {
            if skill_id == AI_HAS_DARK_MODE_SKILL {
                has_dark_mode = true;
            }
        }
        i += 1;
    }
    if !has_dark_mode {
        return None;
    }
    // If we are here, either the whole log is in dark mode, or we phased.
    let mut dark_phase_start: Option<u64> = None;
    let mut i: usize = 0;
    while i < events.len()
        invariant
            i <= events@.len(),
            events@ == log.spec_events(),
            views == event_views(log.spec_events()),
            dark_phase_start == last_skill_use(views.take(i as int), AI_PHASE_SKILL),
        decreases events@.len() - i,
    {
        proof {
            lemma_event_views_step(events@, i as int);
        }
        if let EventKind::SkillUse { skill_id, .. } = *events[i].kind() {
            if skill_id == AI_PHASE_SKILL {
                dark_phase_start = Some(events[i].time());
            }
        }
        i += 1;
    }
    proof {
        assert(views.take(i as int) == views);
    }
    match dark_phase_start {
        Some(t) => Some(t),
        None => Some(0),
    }
}

/// The event, at or after the start of the dark phase, gives Ai her invulnerability.
pub open spec fn is_ai_defeat(log: &Log, event: EventView, start: u64) -> bool {
    &&& event.time >= start
    &&& event.kind matches EventKind::BuffApplication { buff_id, destination_agent_addr, .. }
    &&& find_by_addr(log.spec_agents(), destination_agent_addr) matches Some(a)
    &&& is_character_with_id(a@, Boss::Ai.code())
    &&& buff_id == AI_INVULNERABILITY_ID
}

/// Analyzer for the fight of 100 CM, Ai, Keeper of the Peak.
///
/// This fight is special in that it consists of two phases, and the bosses each count as "success"
/// when they reach 1% health, i.e. they don't die.
#[derive(Debug, Clone, Copy)]
pub struct Ai<'log> {
    log: &'log Log,
}

impl<'log> Ai<'log> {
    /// Create a new [`Ai`] analyzer for the given log.
    ///
    /// **Do not** use this method unless you know what you are doing. Instead, rely on
    /// [`Log::analyzer`]!
    pub fn new(log: &'log Log) -> (r: Self)
        ensures
            r.spec_log() == *log,
    {
        Ai { log }
    }
}

impl<'log> Analyzer for Ai<'log> {
    closed spec fn spec_log(&self) -> Log {
        *self.log
    }

    open spec fn spec_is_cm(&self) -> bool {
        true
    }

    open spec fn spec_outcome(&self) -> Option<Outcome> {
        match dark_phase_start(&self.spec_log()) {
            None => Some(Outcome::Failure),
            Some(start) => outcome_of(
                exists|i: int|
                    0 <= i < self.spec_log().spec_events().len() && is_ai_defeat(
                        &self.spec_log(),
                        #[trigger] self.spec_log().spec_events()[i]@,
                        start,
                    ),
            ),
        }
    }

    fn log(&self) -> (r: &Log) {
        self.log
    }

    fn is_cm(&self) -> (r: bool) {
        // We assume that every Ai log is from CM, like the other fractal logs.
        true
    }

    fn outcome(&self) -> (r: Option<Outcome>) {
        let start = match get_dark_phase_start(self.log) {
            Some(t) => t,
            None => return Some(Outcome::Failure),
        };
        assert(dark_phase_start(&self.spec_log()) == Some(start));
        let ai_id = Boss::Ai.id();
        let events = self.log.events();
        let mut i: usize = 0;
        while i < events.len()
            invariant
                i <= events@.len(),
                events@ == self.log.spec_events(),
                ai_id == Boss::Ai.code(),
                dark_phase_start(&self.spec_log()) == Some(start),
                forall|j: int|
                    0 <= j < i ==> !is_ai_defeat(self.log, #[trigger] events@[j]@, start),
            decreases events@.len() - i,
        {
            let event = &events[i];
            // Make sure we only count the invulnerability in dark phase
            if event.time() >= start {
                if let EventKind::BuffApplication { buff_id, destination_agent_addr, .. } = *event.kind() {
                    if let Some(agent) = self.log.agent_by_addr(destination_agent_addr) {
                        if let Some(c) = agent.as_character() {
                            if c.id() == ai_id && buff_id == AI_INVULNERABILITY_ID {
                                assert(is_ai_defeat(self.log, events@[i as int]@, start));
                                assert(is_ai_defeat(
                                    &self.spec_log(),
                                    self.spec_log().spec_events()[i as int]@,
                                    start,
                                ));
                                return Some(Outcome::Success);
                            }
                        }
                    }
                }
            }
            i += 1;
        }
        Some(Outcome::Failure)
    }
}

/// Health threshold for Skorvald to be detected as Challenge Mote.
pub const SKORVALD_CM_HEALTH: u64 = 5_551_340;

/// Character IDs for the anomalies in Skorvald's Challenge Mote.
pub const SKORVALD_CM_ANOMALY_IDS: [u16; 4] = [17_599, 17_673, 17_770, 17_851];

/// The agent is one of the anomalies of Skorvald's Challenge Mote.
pub open spec fn is_cm_anomaly(agent: AgentView) -> bool {
    is_character_with_id(agent, 17_599) || is_character_with_id(agent, 17_673)
        || is_character_with_id(agent, 17_770) || is_character_with_id(agent, 17_851)
}

/// Analyzer for the first boss of 99 CM, Skorvald.
///
/// The CM was detected by the boss's health, which was higher in the challenge mote.
///
/// The 2020-09-15 update which introduced a new fractal and shifted Shattered Observator CM to 99
/// which changed the bosses' maximal health, so this method no longer works. Instead, we rely on
/// the split phase to differentiate the "normal mode" flux anomalies from the "challenge mode"
/// flux anomalies, with the downside that the CM detection is only working if players make it to
/// the split phase.
#[derive(Debug, Clone, Copy)]
pub struct Skorvald<'log> {
    log: &'log Log,
}

impl<'log> Skorvald<'log> {
    /// Create a new [`Skorvald`] analyzer for the given log.
    ///
    /// **Do not** use this method unless you know what you are doing. Instead, rely on
    /// [`Log::analyzer`]!
    pub fn new(log: &'log Log) -> (r: Self)
        ensures
            r.spec_log() == *log,
    {
        Skorvald { log }
    }
}

impl<'log> Analyzer for Skorvald<'log> {
    closed spec fn spec_log(&self) -> Log {
        *self.log
    }

    open spec fn spec_is_cm(&self) -> bool {
        health_at_least(&self.spec_log(), SKORVALD_CM_HEALTH) || exists|k: int|
            0 <= k < character_views(&self.spec_log()).len() && is_cm_anomaly(
                #[trigger] character_views(&self.spec_log())[k],
            )
    }

    open spec fn spec_outcome(&self) -> Option<Outcome> {
        outcome_of(rewarded(&self.spec_log()) || boss_died(&self.spec_log()))
    }

    fn log(&self) -> (r: &Log) {
        self.log
    }

    fn is_cm(&self) -> (r: bool) {
        // Shortcut for old logs for which this method still works.
        if let Some(h) = boss_health(self.log) {
            if h >= SKORVALD_CM_HEALTH {
                return true;
            }
        }
        let characters = self.log.characters();
        let ghost views = agent_views(characters@);
        let mut k: usize = 0;
        while k < characters.len()
            invariant
                k <= characters@.len(),
                views == agent_views(characters@),
                views == character_views(self.log),
                forall|m: int| 0 <= m < k ==> !is_cm_anomaly(#[trigger] views[m]),
            decreases characters@.len() - k,
        {
            let id = characters[k].id();
            assert(views[k as int] == characters@[k as int]@);
            if id == SKORVALD_CM_ANOMALY_IDS[0] || id == SKORVALD_CM_ANOMALY_IDS[1] || id
                == SKORVALD_CM_ANOMALY_IDS[2] || id == SKORVALD_CM_ANOMALY_IDS[3] {
                assert(is_cm_anomaly(views[k as int]));
                return true;
            }
            k += 1;
        }
        false
    }

    fn outcome(&self) -> (r: Option<Outcome>) {
        Outcome::from_bool(self.log.was_rewarded() || boss_is_dead(self.log))
    }
}

/// Analyzer for fractals that don't require special logic.
///
/// This is used for Artsariiv, Arkk, MAMA, Siax and Ensolyss.
#[derive(Debug, Clone, Copy)]
pub struct GenericFractal<'log> {
    log: &'log Log,
}

impl<'log> GenericFractal<'log> {
    /// Create a new [`GenericFractal`] analyzer for the given log.
    ///
    /// **Do not** use this method unless you know what you are doing. Instead, rely on
    /// [`Log::analyzer`]!
    pub fn new(log: &'log Log) -> (r: Self)
        ensures
            r.spec_log() == *log,
    {
        GenericFractal { log }
    }
}

impl<'log> Analyzer for GenericFractal<'log> {
    closed spec fn spec_log(&self) -> Log {
        *self.log
    }

    open spec fn spec_is_cm(&self) -> bool {
        true
    }

    open spec fn spec_outcome(&self) -> Option<Outcome> {
        outcome_of(rewarded(&self.spec_log()) || boss_died(&self.spec_log()))
    }

    fn log(&self) -> (r: &Log) {
        self.log
    }

    fn is_cm(&self) -> (r: bool) {
        // Besides Skorvald normal mode, we only get logs for the challenge mote encounters (at
        // least, only for those we'll use this analyzer). So we can safely return true here in any
        // case.
        true
    }

    fn outcome(&self) -> (r: Option<Outcome>) {
        Outcome::from_bool(self.log.was_rewarded() || boss_is_dead(self.log))
    }
}


/// A Skorvald analysis always has an outcome: it succeeded exactly where the players were rewarded or a boss died, and it failed otherwise.
pub proof fn lemma_skorvald_outcome(a: Skorvald)
    ensures
        a.spec_outcome() is Some,
        a.spec_outcome() == Some(Outcome::Success) <==> (rewarded(&a.spec_log()) || boss_died(&a.spec_log())),
        a.spec_outcome() == Some(Outcome::Failure) <==> !(rewarded(&a.spec_log()) || boss_died(&a.spec_log())),
{
}


/// A GenericFractal analysis always has an outcome: it succeeded exactly where the players were rewarded or a boss died, and it failed otherwise.
pub proof fn lemma_generic_fractal_outcome(a: GenericFractal)
    ensures
        a.spec_outcome() is Some,
        a.spec_outcome() == Some(Outcome::Success) <==> (rewarded(&a.spec_log()) || boss_died(&a.spec_log())),
        a.spec_outcome() == Some(Outcome::Failure) <==> !(rewarded(&a.spec_log()) || boss_died(&a.spec_log())),
{
}

} // verus!
