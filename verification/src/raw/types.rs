//! Raw evtc structs.
//!
//! This module contains the definitions of arcdps's C structs. The numeric value that arcdps
//! writes for each enum variant is given by the variant's `code` (for the combat enums this is
//! the variant's position in the C enum).
use vstd::prelude::*;

verus! {

/// The "friend or foe" enum.
#[derive(Copy, Clone, Debug, PartialEq, Eq, Hash, Structural)]
pub enum IFF {
    /// Green vs green, red vs red.
    Friend,
    /// Green vs red.
    Foe,
    /// Something very wrong happened.
    Unknown,
    /// Field is not used in this kind of event.
    Unset,
}

impl IFF {
    /// The byte that arcdps uses for this value.
    pub open spec fn code(self) -> u8 {
        match self {
            IFF::Friend => 0,
            IFF::Foe => 1,
            IFF::Unknown => 2,
            IFF::Unset => 3,
        }
    }

    /// The value that arcdps encodes as `v`, if there is one.
    pub fn from_u8(v: u8) -> (r: Option<IFF>)
        ensures
            r is Some <==> v < 4,
            r matches Some(x) ==> x.code() == v,
    {
        match v {
            0 => Some(IFF::Friend),
            1 => Some(IFF::Foe),
            2 => Some(IFF::Unknown),
            3 => Some(IFF::Unset),
            _ => None,
        }
    }
}

impl Default for IFF {
    fn default() -> (r: Self)
        ensures
            r == IFF::Unset,
    {
        IFF::Unset
    }
}

/// Combat result (physical)
#[derive(Copy, Clone, Debug, PartialEq, Eq, Hash, Structural)]
pub enum CbtResult {
    /// Good physical hit
    Normal,
    /// Physical hit was a critical hit
    Crit,
    /// Physical hit was a glance
    Glance,
    /// Physical hit was blocked (e.g. Shelter)
    Block,
    /// Physical hit was evaded (e.g. dodge)
    Evade,
    /// Physical hit interrupted something
    Interrupt,
    /// Physical hit was absorbed (e.g. invulnerability)
    Absorb,
    /// Physical hit missed
    Blind,
    /// Physical hit was the killing blow
    KillingBlow,
    /// Hit was downing hit.
    Downed,
    /// Field is not used in this kind of event.
    Unset,
}

impl CbtResult {
    /// The byte that arcdps uses for this value.
    pub open spec fn code(self) -> u8 {
        match self {
            CbtResult::Normal => 0,
            CbtResult::Crit => 1,
            CbtResult::Glance => 2,
            CbtResult::Block => 3,
            CbtResult::Evade => 4,
            CbtResult::Interrupt => 5,
            CbtResult::Absorb => 6,
            CbtResult::Blind => 7,
            CbtResult::KillingBlow => 8,
            CbtResult::Downed => 9,
            CbtResult::Unset => 10,
        }
    }

    /// The value that arcdps encodes as `v`, if there is one.
    pub fn from_u8(v: u8) -> (r: Option<CbtResult>)
        ensures
            r is Some <==> v < 11,
            r matches Some(x) ==> x.code() == v,
    {
        match v {
            0 => Some(CbtResult::Normal),
            1 => Some(CbtResult::Crit),
            2 => Some(CbtResult::Glance),
            3 => Some(CbtResult::Block),
            4 => Some(CbtResult::Evade),
            5 => Some(CbtResult::Interrupt),
            6 => Some(CbtResult::Absorb),
            7 => Some(CbtResult::Blind),
            8 => Some(CbtResult::KillingBlow),
            9 => Some(CbtResult::Downed),
            10 => Some(CbtResult::Unset),
            _ => None,
        }
    }
}

impl Default for CbtResult {
    fn default() -> (r: Self)
        ensures
            r == CbtResult::Unset,
    {
        CbtResult::Unset
    }
}

/// Combat activation
#[derive(Copy, Clone, Debug, PartialEq, Eq, Hash, Structural)]
pub enum CbtActivation {
    /// Field is not used in this kind of event.
    Unset,
    /// Activation without quickness
    Normal,
    /// Activation with quickness
    Quickness,
    /// Cancel with reaching channel time
    CancelFire,
    /// Cancel without reaching channel time
    CancelCancel,
    /// Animation completed fully
    Reset,
}

impl CbtActivation {
    /// The byte that arcdps uses for this value.
    pub open spec fn code(self) -> u8 {
        match self {
            CbtActivation::Unset => 0,
            CbtActivation::Normal => 1,
            CbtActivation::Quickness => 2,
            CbtActivation::CancelFire => 3,
            CbtActivation::CancelCancel => 4,
            CbtActivation::Reset => 5,
        }
    }

    /// The value that arcdps encodes as `v`, if there is one.
    pub fn from_u8(v: u8) -> (r: Option<CbtActivation>)
        ensures
            r is Some <==> v < 6,
            r matches Some(x) ==> x.code() == v,
    {
        match v {
            0 => Some(CbtActivation::Unset),
            1 => Some(CbtActivation::Normal),
            2 => Some(CbtActivation::Quickness),
            3 => Some(CbtActivation::CancelFire),
            4 => Some(CbtActivation::CancelCancel),
            5 => Some(CbtActivation::Reset),
            _ => None,
        }
    }
}

impl Default for CbtActivation {
    fn default() -> (r: Self)
        ensures
            r == CbtActivation::Unset,
    {
        CbtActivation::Unset
    }
}

/// Combat state change
///
/// The referenced fields are of the [`CbtEvent`](struct.CbtEvent.html)
/// struct.
#[derive(Copy, Clone, Debug, PartialEq, Eq, Hash, Structural)]
pub enum CbtStateChange {
    /// Field is not used in this kind of event.
    Unset,
    /// `src_agent` entered combat.
    ///
    /// * `dst_agent` specifies the agent's subgroup.
    EnterCombat,
    /// `src_agent` left combat.
    ExitCombat,
    /// `src_agent` is now alive.
    ChangeUp,
    /// `src_agent` is now dead.
    ChangeDead,
    /// `src_agent` is now downed.
    ChangeDown,
    /// `src_agent` is now in game tracking range.
    Spawn,
    /// `src_agent` is no longer being tracked.
    Despawn,
    /// `src_agent` has reached a health marker.
    ///
    /// * `dst_agent` will be set to the new health percentage, multiplied by
    ///   10000.
    HealthUpdate,
    /// Log start.
    ///
    /// * `value` is the server unix timestamp.
    /// * `buff_dmg` is the local unix timestamp.
    /// * `src_agent` is set to `0x637261` (arcdps id)
    LogStart,
    /// Log end.
    ///
    /// * `value` is the server unix timestamp.
    /// * `buff_dmg` is the local unix timestamp.
    /// * `src_agent` is set to `0x637261` (arcdps id)
    LogEnd,
    /// `src_agent` swapped the weapon set.
    ///
    /// * `dst_agent` is the current set id (0/1 for water sets, 4/5 for land
    ///   sets)
    WeapSwap,
    /// `src_agent` has had it's maximum health changed.
    ///
    /// * `dst_agent` is the new maximum health.
    MaxHealthUpdate,
    /// `src_agent` is the agent of the recording player.
    PointOfView,
    /// `src_agent` is the text language.
    Language,
    /// `src_agent` is the game build.
    GwBuild,
    /// `src_agent` is the server shard id.
    ShardId,
    /// Represents the reward (wiggly box)
    ///
    /// * `src_agent` is self
    /// * `dst_agent` is reward id.
    /// * `value` is reward type.
    Reward,
    /// Combat event that will appear once per buff per agent on logging start (zero duration,
    /// buff==18)
    BuffInitial,
    /// `src_agent` changed position.
    ///
    /// * `dst_agent` is a 2-element float array (x, y).
    /// * `value` is a single float (z).
    Position,
    /// `src_agent` changed velocity.
    ///
    /// * `dst_agent` is a 2-element float array (x, y).
    /// * `value` is a single float (z).
    Velocity,
    /// `src_agent` changed the direction that they're facing.
    ///
    /// * `dst_agent` is a 2-element float array (x, y).
    Facing,
    /// `src_agent` changed team.
    ///
    /// * `dst_agent` is the new team id
    TeamChange,
    /// `src_agent` is an attacktarget, `dst_agent` is the parent agent (gadget type), `value` is the current targetable state
    AttackTarget,
    /// `dst_agent` is the new target-able state (0 = no, 1 = yes. default yes)
    Targetable,
    /// Information about the map that the log was done on.
    ///
    /// * `src_agent` is map id
    MapId,
    /// internal use by arcDPS, won't see anywhere
    ReplInfo,
    /// `src_agent` is agent with buff, `dst_agent` is the stackid marked active
    StackActive,
    /// `src_agent` is agent with buff, `value` is the duration to reset to (also marks inactive),
    /// `pad61-` is the stackid
    StackReset,
    /// Information about the guild.
    ///
    /// * `src_agent` is the agent
    /// * `dst_agent` through `buff_dmg` is 16 byte guild id (client form, needs minor rearrange
    ///   for api form)
    Guild,
    /// `is_flanking` = probably invuln, `is_shields` = probably invert, `is_offcycle` = category, `pad61` = stacking type, `src_master_instid` = max stacks (not in realtime)
    BuffInfo,
    /// `(float*)&time [9]`: type attr1 attr2 param1 param2 param3 trait_src trait_self, `is_flanking` = !npc, `is_shields` = !player, `is_offcycle` = break (not in realtime, one per formula)
    BuffFormula,
    /// `(float*)&time [9]`: recharge range0 range1 tooltiptime (not in realtime)
    SkillInfo,
    /// `src_agent` = action, `dst_agent` = at millisecond (not in realtime, one per timing)
    SkillTiming,
    /// `src_agent` is agent, `value` is the breakbar state.
    BreakbarState,
    /// `src_agent` is agent, `value` is the breakbar percentage (as float).
    BreakbarPercent,
    /// `(char*)&time [32]`: error string.
    Error,
    /// `src_agent` is the agent, `value` is the id of the tag.
    Tag,
}

impl CbtStateChange {
    /// The byte that arcdps uses for this value.
    pub open spec fn code(self) -> u8 {
        match self {
            CbtStateChange::Unset => 0,
            CbtStateChange::EnterCombat => 1,
            CbtStateChange::ExitCombat => 2,
            CbtStateChange::ChangeUp => 3,
            CbtStateChange::ChangeDead => 4,
            CbtStateChange::ChangeDown => 5,
            CbtStateChange::Spawn => 6,
            CbtStateChange::Despawn => 7,
            CbtStateChange::HealthUpdate => 8,
            CbtStateChange::LogStart => 9,
            CbtStateChange::LogEnd => 10,
            CbtStateChange::WeapSwap => 11,
            CbtStateChange::MaxHealthUpdate => 12,
            CbtStateChange::PointOfView => 13,
            CbtStateChange::Language => 14,
            CbtStateChange::GwBuild => 15,
            CbtStateChange::ShardId => 16,
            CbtStateChange::Reward => 17,
            CbtStateChange::BuffInitial => 18,
            CbtStateChange::Position => 19,
            CbtStateChange::Velocity => 20,
            CbtStateChange::Facing => 21,
            CbtStateChange::TeamChange => 22,
            CbtStateChange::AttackTarget => 23,
            CbtStateChange::Targetable => 24,
            CbtStateChange::MapId => 25,
            CbtStateChange::ReplInfo => 26,
            CbtStateChange::StackActive => 27,
            CbtStateChange::StackReset => 28,
            CbtStateChange::Guild => 29,
            CbtStateChange::BuffInfo => 30,
            CbtStateChange::BuffFormula => 31,
            CbtStateChange::SkillInfo => 32,
            CbtStateChange::SkillTiming => 33,
            CbtStateChange::BreakbarState => 34,
            CbtStateChange::BreakbarPercent => 35,
            CbtStateChange::Error => 36,
            CbtStateChange::Tag => 37,
        }
    }

    /// The value that arcdps encodes as `v`, if there is one.
    pub fn from_u8(v: u8) -> (r: Option<CbtStateChange>)
        ensures
            r is Some <==> v < 38,
            r matches Some(x) ==> x.code() == v,
    {
        match v {
            0 => Some(CbtStateChange::Unset),
            1 => Some(CbtStateChange::EnterCombat),
            2 => Some(CbtStateChange::ExitCombat),
            3 => Some(CbtStateChange::ChangeUp),
            4 => Some(CbtStateChange::ChangeDead),
            5 => Some(CbtStateChange::ChangeDown),
            6 => Some(CbtStateChange::Spawn),
            7 => Some(CbtStateChange::Despawn),
            8 => Some(CbtStateChange::HealthUpdate),
            9 => Some(CbtStateChange::LogStart),
            10 => Some(CbtStateChange::LogEnd),
            11 => Some(CbtStateChange::WeapSwap),
            12 => Some(CbtStateChange::MaxHealthUpdate),
            13 => Some(CbtStateChange::PointOfView),
            14 => Some(CbtStateChange::Language),
            15 => Some(CbtStateChange::GwBuild),
            16 => Some(CbtStateChange::ShardId),
            17 => Some(CbtStateChange::Reward),
            18 => Some(CbtStateChange::BuffInitial),
            19 => Some(CbtStateChange::Position),
            20 => Some(CbtStateChange::Velocity),
            21 => Some(CbtStateChange::Facing),
            22 => Some(CbtStateChange::TeamChange),
            23 => Some(CbtStateChange::AttackTarget),
            24 => Some(CbtStateChange::Targetable),
            25 => Some(CbtStateChange::MapId),
            26 => Some(CbtStateChange::ReplInfo),
            27 => Some(CbtStateChange::StackActive),
            28 => Some(CbtStateChange::StackReset),
            29 => Some(CbtStateChange::Guild),
            30 => Some(CbtStateChange::BuffInfo),
            31 => Some(CbtStateChange::BuffFormula),
            32 => Some(CbtStateChange::SkillInfo),
            33 => Some(CbtStateChange::SkillTiming),
            34 => Some(CbtStateChange::BreakbarState),
            35 => Some(CbtStateChange::BreakbarPercent),
            36 => Some(CbtStateChange::Error),
            37 => Some(CbtStateChange::Tag),
            _ => None,
        }
    }
}

impl Default for CbtStateChange {
    fn default() -> (r: Self)
        ensures
            r == CbtStateChange::Unset,
    {
        CbtStateChange::Unset
    }
}

/// Combat buff remove type
#[derive(Copy, Clone, Debug, PartialEq, Eq, Hash, Structural)]
pub enum CbtBuffRemove {
    /// Field is not used in this kind of event.
    Unset,
    /// All stacks removed.
    All,
    /// Single stack removed.
    ///
    /// Disabled on server trigger, will happen for each stack on cleanse.
    Single,
    /// Autoremoved by OOC or allstack.
    ///
    /// (Ignore for strip/cleanse calc, use for in/out volume)-
    Manual,
}

impl CbtBuffRemove {
    /// The byte that arcdps uses for this value.
    pub open spec fn code(self) -> u8 {
        match self {
            CbtBuffRemove::Unset => 0,
            CbtBuffRemove::All => 1,
            CbtBuffRemove::Single => 2,
            CbtBuffRemove::Manual => 3,
        }
    }

    /// The value that arcdps encodes as `v`, if there is one.
    pub fn from_u8(v: u8) -> (r: Option<CbtBuffRemove>)
        ensures
            r is Some <==> v < 4,
            r matches Some(x) ==> x.code() == v,
    {
        match v {
            0 => Some(CbtBuffRemove::Unset),
            1 => Some(CbtBuffRemove::All),
            2 => Some(CbtBuffRemove::Single),
            3 => Some(CbtBuffRemove::Manual),
            _ => None,
        }
    }
}

impl Default for CbtBuffRemove {
    fn default() -> (r: Self)
        ensures
            r == CbtBuffRemove::Unset,
    {
        CbtBuffRemove::Unset
    }
}

/// Custom skill ids
#[derive(Copy, Clone, Debug, PartialEq, Eq, Hash, Structural)]
pub enum CbtCustomSkill {
    /// Not custom but important and unnamed.
    Resurrect,
    /// Personal healing only.
    Bandage,
    /// Will occur in is_activation==normal event.
    Dodge,
}

impl CbtCustomSkill {
    /// The skill id of this custom skill.
    pub open spec fn code(self) -> u32 {
        match self {
            CbtCustomSkill::Resurrect => 1066,
            CbtCustomSkill::Bandage => 1175,
            CbtCustomSkill::Dodge => 65001,
        }
    }

    /// The skill id of this custom skill.
    pub fn id(self) -> (r: u32)
        ensures
            r == self.code(),
    {
        match self {
            CbtCustomSkill::Resurrect => 1066,
            CbtCustomSkill::Bandage => 1175,
            CbtCustomSkill::Dodge => 65001,
        }
    }

    /// The custom skill with the skill id `v`, if there is one.
    pub fn from_u32(v: u32) -> (r: Option<CbtCustomSkill>)
        ensures
            r is Some <==> (v == 1066 || v == 1175 || v == 65001),
            r matches Some(x) ==> x.code() == v,
    {
        match v {
            1066 => Some(CbtCustomSkill::Resurrect),
            1175 => Some(CbtCustomSkill::Bandage),
            65001 => Some(CbtCustomSkill::Dodge),
            _ => None,
        }
    }
}

/// Language
#[derive(Copy, Clone, Debug, PartialEq, Eq, Hash, Structural)]
pub enum Language {
    /// English.
    Eng,
    /// French.
    Fre,
    /// German.
    Gem,
    /// Spanish.
    Spa,
}

impl Language {
    /// The number that arcdps uses for this language.
    pub open spec fn code(self) -> u64 {
        match self {
            Language::Eng => 0,
            Language::Fre => 2,
            Language::Gem => 3,
            Language::Spa => 4,
        }
    }

    /// The language that arcdps encodes as `v`, if there is one.
    pub fn from_u64(v: u64) -> (r: Option<Language>)
        ensures
            r is Some <==> (v == 0 || v == 2 || v == 3 || v == 4),
            r matches Some(x) ==> x.code() == v,
    {
        match v {
            0 => Some(Language::Eng),
            2 => Some(Language::Fre),
            3 => Some(Language::Gem),
            4 => Some(Language::Spa),
            _ => None,
        }
    }
}

impl Default for Language {
    fn default() -> (r: Self)
        ensures
            r == Language::Eng,
    {
        Language::Eng
    }
}

/// A combat event.
///
/// This event combines both the old structure and the new structure. Fields not
/// present in the source are zeroed. When dealing with events, always make sure
/// to check the header.revision tag.
///
/// For conflicting data types, the bigger one is chosen (e.g. u32 over u16).
#[derive(Clone, Copy, Debug, PartialEq, Eq, Hash, Structural)]
pub struct CbtEvent {
    /// System time since Windows was started, in milliseconds.
    pub time: u64,
    /// Unique identifier of the source agent.
    pub src_agent: u64,
    /// Unique identifier of the destination agent.
    pub dst_agent: u64,
    /// Event-specific value.
    pub value: i32,
    /// Estimated buff damage. Zero on application event.
    pub buff_dmg: i32,
    /// Estimated overwritten stack duration for buff application.
    pub overstack_value: u32,
    /// Skill id.
    pub skillid: u32,
    /// Agent map instance id.
    pub src_instid: u16,
    /// Agent map instance id.
    pub dst_instid: u16,
    /// Master source agent map instance id if source is a minion/pet.
    pub src_master_instid: u16,
    /// Master destination agent map instance id if destination is a minion/pet.
    pub dst_master_instid: u16,
    /// Friend or foe.
    pub iff: IFF,
    /// Buff application, removal or damage event.
    pub buff: u8,
    /// Combat result.
    pub result: CbtResult,
    /// Skill activation.
    pub is_activation: CbtActivation,
    /// Buff removal.
    pub is_buffremove: CbtBuffRemove,
    /// Source agent health was over 90%.
    pub is_ninety: bool,
    /// Target agent health was under 90%.
    pub is_fifty: bool,
    /// Source agent was moving.
    pub is_moving: bool,
    /// State change.
    pub is_statechange: CbtStateChange,
    /// Target agent was not facing source.
    pub is_flanking: bool,
    /// All or part damage was vs. barrier/shield.
    pub is_shields: bool,
    /// False if buff dmg happened during tick, true otherwise.
    pub is_offcycle: bool,
}

impl Default for CbtEvent {
    fn default() -> (r: Self)
        ensures
            r == (CbtEvent {
                time: 0,
                src_agent: 0,
                dst_agent: 0,
                value: 0,
                buff_dmg: 0,
                overstack_value: 0,
                skillid: 0,
                src_instid: 0,
                dst_instid: 0,
                src_master_instid: 0,
                dst_master_instid: 0,
                iff: IFF::Unset,
                buff: 0,
                result: CbtResult::Unset,
                is_activation: CbtActivation::Unset,
                is_buffremove: CbtBuffRemove::Unset,
                is_ninety: false,
                is_fifty: false,
                is_moving: false,
                is_statechange: CbtStateChange::Unset,
                is_flanking: false,
                is_shields: false,
                is_offcycle: false,
            }),
    {
        CbtEvent {
            time: 0,
            src_agent: 0,
            dst_agent: 0,
            value: 0,
            buff_dmg: 0,
            overstack_value: 0,
            skillid: 0,
            src_instid: 0,
            dst_instid: 0,
            src_master_instid: 0,
            dst_master_instid: 0,
            iff: IFF::Unset,
            buff: 0,
            result: CbtResult::Unset,
            is_activation: CbtActivation::Unset,
            is_buffremove: CbtBuffRemove::Unset,
            is_ninety: false,
            is_fifty: false,
            is_moving: false,
            is_statechange: CbtStateChange::Unset,
            is_flanking: false,
            is_shields: false,
            is_offcycle: false,
        }
    }
}

/// An agent.
#[derive(Clone, Copy, Debug, PartialEq, Eq, Hash)]
pub struct Agent {
    /// Agent id.
    pub addr: u64,
    /// Agent profession id.
    pub prof: u32,
    /// Agent elite specialisation.
    pub is_elite: u32,
    /// Toughnes.
    pub toughness: i16,
    /// Concentration.
    pub concentration: i16,
    /// Healing.
    pub healing: i16,
    /// Condition
    pub condition: i16,
    /// Name/Account combo field.
    pub name: [u8; 64],
}

impl Agent {
    /// Gadgets are marked by an elite field of `u32::MAX` and a profession whose upper half is
    /// all ones.
    pub open spec fn spec_is_gadget(&self) -> bool {
        self.is_elite == u32::MAX && (self.prof & 0xffff_0000) == 0xffff_0000
    }

    /// Characters are marked by an elite field of `u32::MAX` and a profession whose upper half is
    /// not all ones.
    pub open spec fn spec_is_character(&self) -> bool {
        self.is_elite == u32::MAX && (self.prof & 0xffff_0000) != 0xffff_0000
    }

    /// Players are all agents whose elite field is not `u32::MAX`.
    pub open spec fn spec_is_player(&self) -> bool {
        self.is_elite != u32::MAX
    }

    /// Checks whether this agent is a gadget.
    ///
    /// Gadgets are entities spawned by some skills, like the "Binding Roots"
    /// spawned by Entangle.
    #[verifier::when_used_as_spec(spec_is_gadget)]
    pub fn is_gadget(&self) -> (r: bool)
        ensures
            r == self.spec_is_gadget(),
    {
        self.is_elite == u32::MAX && (self.prof & 0xffff_0000) == 0xffff_0000
    }

    /// Checks whether this agent is a character.
    ///
    /// Characters are entities like clones, pets, minions, spirits, but also
    /// minis.
    #[verifier::when_used_as_spec(spec_is_character)]
    pub fn is_character(&self) -> (r: bool)
        ensures
            r == self.spec_is_character(),
    {
        self.is_elite == u32::MAX && (self.prof & 0xffff_0000) != 0xffff_0000
    }

    /// Checks whether this agent is a player.
    #[verifier::when_used_as_spec(spec_is_player)]
    pub fn is_player(&self) -> (r: bool)
        ensures
            r == self.spec_is_player(),
    {
        self.is_elite != u32::MAX
    }
}

impl Default for Agent {
    fn default() -> (r: Self)
        ensures
            r.addr == 0 && r.prof == 0 && r.is_elite == 0,
            r.toughness == 0 && r.concentration == 0 && r.healing == 0 && r.condition == 0,
            r.name@ == Seq::new(64, |i: int| 0u8),
    {
        let r = Agent {
            addr: 0,
            prof: 0,
            is_elite: 0,
            toughness: 0,
            concentration: 0,
            healing: 0,
            condition: 0,
            name: [0u8;64],
        };
        assert(r.name@ =~= Seq::new(64, |i: int| 0u8));
        r
    }
}

/// The bytes of a fixed-size name field before its first nul byte (all of them if there is
/// none).
pub open spec fn name_prefix(name: Seq<u8>) -> Seq<u8> {
    if exists|i: int| 0 <= i < name.len() && name[i] == 0 {
        name.take(first_nul(name))
    } else {
        name
    }
}

/// The index of the first nul byte of `b` (meaningful when there is one).
pub open spec fn first_nul(b: Seq<u8>) -> int {
    choose|i: int| 0 <= i < b.len() && b[i] == 0 && forall|j: int| 0 <= j < i ==> b[j] != 0
}

/// A skill.
#[derive(Clone, Copy, Debug, PartialEq, Eq, Hash)]
pub struct Skill {
    /// Skill id.
    pub id: i32,
    /// Skill name.
    pub name: [u8; 64],
}

impl Skill {
    /// Return the name of the skill as a `String`.
    ///
    /// The name is made of the bytes before the first nul byte. Returns `None` if they are not
    /// valid UTF-8.
    pub fn name_string(&self) -> (r: Option<String>)
        ensures
            r is Some <==> vstd::utf8::valid_utf8(name_prefix(self.name@)),
            r matches Some(s) ==> s@ == vstd::utf8::decode_utf8(name_prefix(self.name@)),
    {
        let mut bytes: Vec<u8> = Vec::new();
        let mut i: usize = 0;
        while i < 64 && self.name[i] != 0
            invariant
                i <= 64,
                self.name@.len() == 64,
                bytes@ == self.name@.take(i as int),
                forall|j: int| 0 <= j < i ==> self.name@[j] != 0,
            decreases 64 - i,
        {
            bytes.push(self.name[i]);
            i = i + 1;
        }
        proof {
            if i < 64 {
                assert(self.name@[i as int] == 0);
                let f = first_nul(self.name@);
                assert(exists|k: int| 0 <= k < self.name@.len() && self.name@[k] == 0);
                assert(0 <= i < self.name@.len() && self.name@[i as int] == 0
                    && forall|j: int| 0 <= j < i ==> self.name@[j] != 0);
                assert(f == i);
            } else {
                assert(bytes@ =~= self.name@);
            }
        }
        match crate::text::string_from_utf8(bytes) {
            Ok(s) => Some(s),
            Err(_) => None,
        }
    }
}

impl Default for Skill {
    fn default() -> (r: Self)
        ensures
            r.id == 0,
            r.name@ == Seq::new(64, |i: int| 0u8),
    {
        let r = Skill { id: 0, name: [0u8;64] };
        assert(r.name@ =~= Seq::new(64, |i: int| 0u8));
        r
    }
}

} // verus!
