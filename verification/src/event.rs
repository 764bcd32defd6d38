//! Event definitions.
//!
//! This module contains the different types of events in their high-level form.
use vstd::prelude::*;

use super::raw;
use super::raw::{name_prefix, CbtActivation, CbtBuffRemove, CbtEvent, CbtResult, CbtStateChange};
use crate::bytes::{be_bytes, i32_be_bytes, i32_le_bytes, le_bytes, u64_be_bytes, u64_le_bytes};
use crate::text::{string_from_chars, string_from_utf8_lossy, utf8_lossy};

verus! {

/// Any error that can occur when trying to convert a raw [`CbtEvent`][raw::CbtEvent] to a
/// [`Event`][Event].
#[derive(Clone, Copy, Debug, PartialEq, Eq, Structural)]
pub enum FromRawEventError {
    /// The event contains a state change that has no high-level form.
    UnknownStateChange(raw::CbtStateChange),
    /// The event contains an unknown damage event.
    UnknownDamageEvent,
    /// The event contains invalid text.
    InvalidText,
    /// The event names a language that is not known.
    UnknownLanguage,
}

/// A rusty enum for all possible combat events.
///
/// This makes dealing with [`CbtEvent`][raw::CbtEvent] a bit saner (and safer).
///
/// Coordinates are given as the bit patterns of the `f32` values that arcdps stores
/// (`f32::from_bits` turns them into numbers).
#[derive(Clone, Debug, PartialEq)]
#[non_exhaustive]
pub enum EventKind {
    // State change events
    /// The agent has entered combat.
    EnterCombat { agent_addr: u64, subgroup: u64 },
    /// The agent has left combat.
    ExitCombat { agent_addr: u64 },
    /// The agent is now alive.
    ChangeUp { agent_addr: u64 },
    /// The agent is now downed.
    ChangeDown { agent_addr: u64 },
    /// The agent is now dead.
    ChangeDead { agent_addr: u64 },
    /// The agent is now in tracking range.
    Spawn { agent_addr: u64 },
    /// The agent has left the tracking range.
    Despawn { agent_addr: u64 },
    /// The agent has reached a health treshold.
    HealthUpdate {
        agent_addr: u64,
        /// The new health, as percentage multiplied by 10000.
        health: u16,
    },
    /// The logging has started.
    LogStart { server_timestamp: u32, local_timestamp: u32 },
    /// The logging has finished.
    LogEnd { server_timestamp: u32, local_timestamp: u32 },
    /// The agent has swapped the weapon set.
    WeaponSwap { agent_addr: u64, set: WeaponSet },
    /// The given agent has its max health changed.
    MaxHealthUpdate { agent_addr: u64, max_health: u64 },
    /// The given agent is the point-of-view.
    PointOfView { agent_addr: u64 },
    /// The given language is the text language.
    Language { language: raw::Language },
    /// The log was made with the given game build.
    Build { build: u64 },
    /// The shard id of the server.
    ShardId { shard_id: u64 },
    /// A reward has been awarded.
    Reward { reward_id: u64, reward_type: i32 },
    /// A skill has been used.
    SkillUse { source_agent_addr: u64, skill_id: u32, activation: Activation },
    /// Condition damage tick.
    ConditionTick {
        source_agent_addr: u64,
        destination_agent_addr: u64,
        condition_id: u32,
        damage: i32,
    },
    /// Condition damage tick that was negated by invulnerability.
    InvulnTick { source_agent_addr: u64, destination_agent_addr: u64, condition_id: u32 },
    /// Physical damage.
    Physical {
        source_agent_addr: u64,
        destination_agent_addr: u64,
        skill_id: u32,
        damage: i32,
        result: raw::CbtResult,
    },
    /// Buff applied.
    BuffApplication {
        source_agent_addr: u64,
        destination_agent_addr: u64,
        buff_id: u32,
        duration: i32,
        overstack: u32,
    },
    /// Buff removed.
    BuffRemove {
        source_agent_addr: u64,
        destination_agent_addr: u64,
        buff_id: u32,
        total_duration: i32,
        longest_stack: i32,
        removal: raw::CbtBuffRemove,
    },
    /// Position of the agent has changed (bit patterns of `f32` coordinates).
    Position { agent_addr: u64, x: u32, y: u32, z: u32 },
    /// Velocity of the agent has changed (bit patterns of `f32` components).
    Velocity { agent_addr: u64, x: u32, y: u32, z: u32 },
    /// The agent is facing in the given direction (bit patterns of `f32` components).
    Facing { agent_addr: u64, x: u32, y: u32 },
    /// The given agent changed their team.
    TeamChange { agent_addr: u64, team_id: u64 },
    /// Establishes an "attack target" relationship between two agents.
    ///
    /// Attack targets are somewhat not really documented, but the gist seems to be that some
    /// agents act as an "attack target" for other agents. This is mainly for the purpose of some
    /// status update events, such as [`Targetable`][EventKind::Targetable] or
    /// [`MaxHealthUpdate`][EventKind::MaxHealthUpdate].
    ///
    /// Damage events seem to not have attack targets as their target, so if your only goal is to
    /// calculate the damage dealt, you should be fine ignoring attack targets.
    AttackTarget { agent_addr: u64, parent_agent_addr: u64, targetable: bool },
    /// Updates the targetable state for the given agent.
    Targetable { agent_addr: u64, targetable: bool },
    /// Information about the map id.
    MapId { map_id: u64 },
    /// Guild identification
    Guild { source_agent_addr: u64, raw_bytes: [u8; 16], api_guild_id: Option<String> },
    /// An error was reported by arcdps.
    Error { text: String },
    /// The given agent has the tag.
    ///
    /// Note that the tag id is volatile and depends on the game build. Do not rely on the actual
    /// value of this!
    Tag { agent_addr: u64, tag_id: i32 },
    /// A buff that the agent already had when the log started: it appears once per buff and
    /// agent, with the fields of a buff application.
    BuffInitial {
        source_agent_addr: u64,
        destination_agent_addr: u64,
        buff_id: u32,
        duration: i32,
        overstack: u32,
    },
    /// The stack with the given id of a buff on the agent has become the active one.
    StackActive { agent_addr: u64, stack_id: u64 },
    /// A stack of a buff on the agent has been reset to the given duration (and marked
    /// inactive). The id of the stack lies in padding bytes that the raw event does not keep.
    StackReset { agent_addr: u64, duration: i32 },
}

/// The different weapon-sets in game.
#[derive(Clone, Copy, Debug, PartialEq, Eq, Hash, Structural)]
pub enum WeaponSet {
    /// First water weapon set.
    Water0,
    /// Second water weapon set.
    Water1,
    /// First land set.
    Land0,
    /// Second land set.
    Land1,
    /// An unknown weapon set.
    ///
    /// This can be caused bundles or anything else that uses the "weapon swap"
    /// event but is not a normal weapon set.
    Unknown(u8),
}

impl WeaponSet {
    /// The weapon set that arcdps encodes as `value`: 0/1 are the water sets, 4/5 the land sets,
    /// anything else is unknown (keeping its lowest byte).
    pub open spec fn of(value: u64) -> WeaponSet {
        if value == 0 {
            WeaponSet::Water0
        } else if value == 1 {
            WeaponSet::Water1
        } else if value == 4 {
            WeaponSet::Land0
        } else if value == 5 {
            WeaponSet::Land1
        } else {
            WeaponSet::Unknown(value as u8)
        }
    }

    /// Parse a given integer into the correct enum value.
    pub fn from_u64(value: u64) -> (r: WeaponSet)
        ensures
            r == WeaponSet::of(value),
    {
        match value {
            0 => WeaponSet::Water0,
            1 => WeaponSet::Water1,
            4 => WeaponSet::Land0,
            5 => WeaponSet::Land1,
            _ => WeaponSet::Unknown(value as u8),
        }
    }
}

/// The different types to activate a skill.
///
/// The parameter is the animation time in milliseconds.
#[derive(Clone, Copy, Debug, PartialEq, Eq, Hash, Structural)]
pub enum Activation {
    /// The skill was activated with quickness.
    Quickness(i32),
    /// The skill was activated normally.
    Normal(i32),
    /// The skill was cancelled with reaching the channel time.
    CancelFire(i32),
    /// The skill was cancelled without reaching the channel time.
    CancelCancel(i32),
    /// The channel was completed successfully.
    Reset,
}

/// The data that an [`Event`] holds.
#[derive(Clone, Debug, PartialEq)]
pub struct EventView {
    /// See [`Event::time`].
    pub time: u64,
    /// See [`Event::kind`].
    pub kind: EventKind,
    /// See [`Event::is_ninety`].
    pub is_ninety: bool,
    /// See [`Event::is_fifty`].
    pub is_fifty: bool,
    /// See [`Event::is_moving`].
    pub is_moving: bool,
    /// See [`Event::is_flanking`].
    pub is_flanking: bool,
    /// See [`Event::is_shields`].
    pub is_shields: bool,
}

/// A higher-level representation of a combat event.
///
/// Events can be many things, from damage events to general status messages (e.g. there's
/// [`EventKind::MapId`][EventKind::MapId] to give information about the current map). The main way
/// to use events is to match on the [`EventKind`][EventKind] stored in [`.kind`][Event::kind] and
/// then decide how to proceed. Note that all [`Event`][Event]s have certain fields that are always
/// present, but they might not always be useful or contain sensible information. This is just an
/// artifact of how arcdps saves the events.
///
/// The main way to deal with events is to iterate/use the [`.events()`][super::Log::events]
/// provided by a parsed [`Log`][super::Log]. However, if you end up working with raw events
/// ([`CbtEvent`][raw::CbtEvent]), then you can convert them to a "high-level" event using
/// [`Event::try_from`].
#[derive(Clone, Debug, PartialEq)]
pub struct Event {
    time: u64,
    kind: EventKind,
    is_ninety: bool,
    is_fifty: bool,
    is_moving: bool,
    is_flanking: bool,
    is_shields: bool,
}

impl View for Event {
    type V = EventView;

    closed spec fn view(&self) -> EventView {
        EventView {
            time: self.time,
            kind: self.kind,
            is_ninety: self.is_ninety,
            is_fifty: self.is_fifty,
            is_moving: self.is_moving,
            is_flanking: self.is_flanking,
            is_shields: self.is_shields,
        }
    }
}

/// The 16 bytes of a guild id: `dst_agent`, `value` and `buff_dmg`, each most significant byte
/// first.
pub open spec fn guild_bytes(raw_event: CbtEvent) -> Seq<u8> {
    be_bytes(raw_event.dst_agent as nat, 8) + be_bytes((raw_event.value as u32) as nat, 4)
        + be_bytes((raw_event.buff_dmg as u32) as nat, 4)
}

/// The 32 bytes that hold an error text: `time`, `src_agent`, `dst_agent`, `value` and
/// `buff_dmg`, each least significant byte first.
pub open spec fn error_bytes(raw_event: CbtEvent) -> Seq<u8> {
    le_bytes(raw_event.time as nat, 8) + le_bytes(raw_event.src_agent as nat, 8) + le_bytes(
        raw_event.dst_agent as nat,
        8,
    ) + le_bytes((raw_event.value as u32) as nat, 4) + le_bytes(
        (raw_event.buff_dmg as u32) as nat,
        4,
    )
}

/// The uppercase hexadecimal digit for `n < 16`.
pub open spec fn hex_digit(n: u8) -> char {
    seq!['0', '1', '2', '3', '4', '5', '6', '7', '8', '9', 'A', 'B', 'C', 'D', 'E', 'F'][n as int]
}

/// A byte as two uppercase hexadecimal digits.
pub open spec fn hex2(b: u8) -> Seq<char> {
    seq![hex_digit(b / 16), hex_digit(b % 16)]
}

/// The guild id in the form that the game's API uses: five dash-separated groups of bytes in
/// hexadecimal, taking the client's bytes in the order 4 5 6 7, 2 3, 0 1, 11 10, 9 8 15 14 13 12.
pub open spec fn api_guild_chars(b: Seq<u8>) -> Seq<char> {
    hex2(b[4]) + hex2(b[5]) + hex2(b[6]) + hex2(b[7]) + seq!['-'] + hex2(b[2]) + hex2(b[3])
        + seq!['-'] + hex2(b[0]) + hex2(b[1]) + seq!['-'] + hex2(b[11]) + hex2(b[10]) + seq!['-']
        + hex2(b[9]) + hex2(b[8]) + hex2(b[15]) + hex2(b[14]) + hex2(b[13]) + hex2(b[12])
}

/// The guild id given by 16 client bytes is absent when all of them are zero.
pub open spec fn all_zero(b: Seq<u8>) -> bool {
    forall|i: int| 0 <= i < b.len() ==> b[i] == 0
}

/// The kind of a damage, buff or skill event (one without a state change), or the error that
/// it gives.
pub open spec fn combat_kind(raw_event: CbtEvent) -> Result<EventKind, FromRawEventError> {
    let e = raw_event;
    if e.is_activation != CbtActivation::Unset {
        Ok(
            EventKind::SkillUse {
                source_agent_addr: e.src_agent,
                skill_id: e.skillid,
                activation: match e.is_activation {
                    CbtActivation::Quickness => Activation::Quickness(e.value),
                    CbtActivation::Normal => Activation::Normal(e.value),
                    CbtActivation::CancelFire => Activation::CancelFire(e.value),
                    CbtActivation::CancelCancel => Activation::CancelCancel(e.value),
                    _ => Activation::Reset,
                },
            },
        )
    } else if e.is_buffremove != CbtBuffRemove::Unset {
        Ok(
            EventKind::BuffRemove {
                source_agent_addr: e.src_agent,
                destination_agent_addr: e.dst_agent,
                buff_id: e.skillid,
                total_duration: e.value,
                longest_stack: e.buff_dmg,
                removal: e.is_buffremove,
            },
        )
    } else if e.buff == 0 && e.iff == raw::IFF::Foe && e.dst_agent != 0 {
        Ok(
            EventKind::Physical {
                source_agent_addr: e.src_agent,
                destination_agent_addr: e.dst_agent,
                skill_id: e.skillid,
                damage: e.value,
                result: e.result,
            },
        )
    } else if e.buff == 1 && e.buff_dmg != 0 && e.dst_agent != 0 && e.value == 0 {
        Ok(
            EventKind::ConditionTick {
                source_agent_addr: e.src_agent,
                destination_agent_addr: e.dst_agent,
                condition_id: e.skillid,
                damage: e.buff_dmg,
            },
        )
    } else if e.buff == 1 && e.buff_dmg == 0 && e.value != 0 {
        Ok(
            EventKind::BuffApplication {
                source_agent_addr: e.src_agent,
                destination_agent_addr: e.dst_agent,
                buff_id: e.skillid,
                duration: e.value,
                overstack: e.overstack_value,
            },
        )
    } else if e.buff == 1 && e.buff_dmg == 0 && e.value == 0 {
        Ok(
            EventKind::InvulnTick {
                source_agent_addr: e.src_agent,
                destination_agent_addr: e.dst_agent,
                condition_id: e.skillid,
            },
        )
    } else {
        Err(FromRawEventError::UnknownDamageEvent)
    }
}

/// The state changes that have no high-level form.
pub open spec fn unhandled_statechange(s: CbtStateChange) -> bool {
    s == CbtStateChange::ReplInfo || s == CbtStateChange::BuffInfo || s == CbtStateChange::BuffFormula || s
        == CbtStateChange::SkillInfo || s == CbtStateChange::SkillTiming || s
        == CbtStateChange::BreakbarState || s == CbtStateChange::BreakbarPercent
}

/// The error that converting a raw event gives, if any.
pub open spec fn event_error(raw_event: CbtEvent) -> Option<FromRawEventError> {
    let s = raw_event.is_statechange;
    if unhandled_statechange(s) {
        Some(FromRawEventError::UnknownStateChange(s))
    } else if s == CbtStateChange::Language && !(raw_event.src_agent == 0 || raw_event.src_agent
        == 2 || raw_event.src_agent == 3 || raw_event.src_agent == 4) {
        Some(FromRawEventError::UnknownLanguage)
    } else if s == CbtStateChange::Error && !crate::agent::has_nul(error_bytes(raw_event)) {
        Some(FromRawEventError::InvalidText)
    } else if s == CbtStateChange::Unset {
        match combat_kind(raw_event) {
            Ok(_) => None,
            Err(e) => Some(e),
        }
    } else {
        None
    }
}

/// `k` is the kind of the raw event (which converts without an error).
pub open spec fn event_kind_of(raw_event: CbtEvent, k: EventKind) -> bool {
    let e = raw_event;
    match e.is_statechange {
        CbtStateChange::EnterCombat => k == EventKind::EnterCombat {
            agent_addr: e.src_agent,
            subgroup: e.dst_agent,
        },
        CbtStateChange::ExitCombat => k == EventKind::ExitCombat { agent_addr: e.src_agent },
        CbtStateChange::ChangeUp => k == EventKind::ChangeUp { agent_addr: e.src_agent },
        CbtStateChange::ChangeDead => k == EventKind::ChangeDead { agent_addr: e.src_agent },
        CbtStateChange::ChangeDown => k == EventKind::ChangeDown { agent_addr: e.src_agent },
        CbtStateChange::Spawn => k == EventKind::Spawn { agent_addr: e.src_agent },
        CbtStateChange::Despawn => k == EventKind::Despawn { agent_addr: e.src_agent },
        CbtStateChange::HealthUpdate => k == EventKind::HealthUpdate {
            agent_addr: e.src_agent,
            health: e.dst_agent as u16,
        },
        CbtStateChange::LogStart => k == EventKind::LogStart {
            server_timestamp: e.value as u32,
            local_timestamp: e.buff_dmg as u32,
        },
        CbtStateChange::LogEnd => k == EventKind::LogEnd {
            server_timestamp: e.value as u32,
            local_timestamp: e.buff_dmg as u32,
        },
        CbtStateChange::WeapSwap => k == EventKind::WeaponSwap {
            agent_addr: e.src_agent,
            set: WeaponSet::of(e.dst_agent),
        },
        CbtStateChange::MaxHealthUpdate => k == EventKind::MaxHealthUpdate {
            agent_addr: e.src_agent,
            max_health: e.dst_agent,
        },
        CbtStateChange::PointOfView => k == EventKind::PointOfView { agent_addr: e.src_agent },
        CbtStateChange::Language => k matches EventKind::Language { language } && language.code()
            == e.src_agent,
        CbtStateChange::GwBuild => k == EventKind::Build { build: e.src_agent },
        CbtStateChange::ShardId => k == EventKind::ShardId { shard_id: e.src_agent },
        CbtStateChange::Reward => k == EventKind::Reward {
            reward_id: e.dst_agent,
            reward_type: e.value,
        },
        CbtStateChange::Guild => k matches EventKind::Guild {
            source_agent_addr,
            raw_bytes,
            api_guild_id,
        } && source_agent_addr == e.src_agent && raw_bytes@ == guild_bytes(e) && (
        api_guild_id is None <==> all_zero(guild_bytes(e))) && (api_guild_id matches Some(s)
            ==> s@ == api_guild_chars(guild_bytes(e))),
        CbtStateChange::Position => k == EventKind::Position {
            agent_addr: e.src_agent,
            x: (e.dst_agent / 0x1_0000_0000) as u32,
            y: (e.dst_agent % 0x1_0000_0000) as u32,
            z: e.value as u32,
        },
        CbtStateChange::Velocity => k == EventKind::Velocity {
            agent_addr: e.src_agent,
            x: (e.dst_agent / 0x1_0000_0000) as u32,
            y: (e.dst_agent % 0x1_0000_0000) as u32,
            z: e.value as u32,
        },
        CbtStateChange::Facing => k == EventKind::Facing {
            agent_addr: e.src_agent,
            x: (e.dst_agent / 0x1_0000_0000) as u32,
            y: (e.dst_agent % 0x1_0000_0000) as u32,
        },
        CbtStateChange::MapId => k == EventKind::MapId { map_id: e.src_agent },
        CbtStateChange::TeamChange => k == EventKind::TeamChange {
            agent_addr: e.src_agent,
            team_id: e.dst_agent,
        },
        CbtStateChange::AttackTarget => k == EventKind::AttackTarget {
            agent_addr: e.src_agent,
            parent_agent_addr: e.dst_agent,
            targetable: e.value != 0,
        },
        CbtStateChange::Targetable => k == EventKind::Targetable {
            agent_addr: e.src_agent,
            targetable: e.dst_agent != 0,
        },
        CbtStateChange::Error => k matches EventKind::Error { text } && text@ == utf8_lossy(
            name_prefix(error_bytes(e)),
        ),
        CbtStateChange::Tag => k == EventKind::Tag { agent_addr: e.src_agent, tag_id: e.value },
        CbtStateChange::BuffInitial => k == EventKind::BuffInitial {
            source_agent_addr: e.src_agent,
            destination_agent_addr: e.dst_agent,
            buff_id: e.skillid,
            duration: e.value,
            overstack: e.overstack_value,
        },
        CbtStateChange::StackActive => k == EventKind::StackActive {
            agent_addr: e.src_agent,
            stack_id: e.dst_agent,
        },
        CbtStateChange::StackReset => k == EventKind::StackReset {
            agent_addr: e.src_agent,
            duration: e.value,
        },
        CbtStateChange::Unset => combat_kind(e) == Ok::<EventKind, FromRawEventError>(k),
        _ => false,
    }
}

/// The event that a raw event converts to, given its converted kind.
pub open spec fn event_view_of(raw_event: CbtEvent, kind: EventKind) -> EventView {
    EventView {
        time: raw_event.time,
        kind,
        is_ninety: raw_event.is_ninety,
        is_fifty: raw_event.is_fifty,
        is_moving: raw_event.is_moving,
        is_flanking: raw_event.is_flanking,
        is_shields: raw_event.is_shields,
    }
}

fn hex_digit_exec(n: u8) -> (r: char)
    requires
        n < 16,
    ensures
        r == hex_digit(n),
{
    match n {
        0 => '0',
        1 => '1',
        2 => '2',
        3 => '3',
        4 => '4',
        5 => '5',
        6 => '6',
        7 => '7',
        8 => '8',
        9 => '9',
        10 => 'A',
        11 => 'B',
        12 => 'C',
        13 => 'D',
        14 => 'E',
        _ => 'F',
    }
}

fn push_hex2(v: &mut Vec<char>, b: u8)
    ensures
        final(v)@ == old(v)@ + hex2(b),
{
    let hi = hex_digit_exec(b / 16);
    let lo = hex_digit_exec(b % 16);
    v.push(hi);
    v.push(lo);
    assert(final(v)@ =~= old(v)@ + hex2(b));
}

/// The 16 guild id bytes of a guild event.
fn get_guild_id_bytes(raw_event: &CbtEvent) -> (r: [u8; 16])
    ensures
        r@ == guild_bytes(*raw_event),
{
    let a = u64_be_bytes(raw_event.dst_agent);
    let b = i32_be_bytes(raw_event.value);
    let c = i32_be_bytes(raw_event.buff_dmg);
    let mut result = [0u8;16];
    let mut i: usize = 0;
    while i < 8
        invariant
            i <= 8,
            a@.len() == 8,
            result@.len() == 16,
            forall|j: int| 0 <= j < i ==> result@[j] == a@[j],
        decreases 8 - i,
    {
        result[i] = a[i];
        i = i + 1;
    }
    while i < 12
        invariant
            8 <= i <= 12,
            a@.len() == 8,
            b@.len() == 4,
            result@.len() == 16,
            forall|j: int| 0 <= j < 8 ==> result@[j] == a@[j],
            forall|j: int| 8 <= j < i ==> result@[j] == b@[j - 8],
        decreases 12 - i,
    {
        result[i] = b[i - 8];
        i = i + 1;
    }
    while i < 16
        invariant
            12 <= i <= 16,
            a@.len() == 8,
            b@.len() == 4,
            c@.len() == 4,
            result@.len() == 16,
            forall|j: int| 0 <= j < 8 ==> result@[j] == a@[j],
            forall|j: int| 8 <= j < 12 ==> result@[j] == b@[j - 8],
            forall|j: int| 12 <= j < i ==> result@[j] == c@[j - 12],
        decreases 16 - i,
    {
        result[i] = c[i - 12];
        i = i + 1;
    }
    assert(result@ =~= a@ + b@ + c@);
    result
}

/// The guild id in the form that the game's API uses, or `None` when the id is all zeros.
pub fn get_api_guild_string(bytes: &[u8; 16]) -> (r: Option<String>)
    ensures
        r is None <==> all_zero(bytes@),
        r matches Some(s) ==> s@ == api_guild_chars(bytes@),
{
    let mut i: usize = 0;
    let mut zero = true;
    while i < 16
        invariant
            i <= 16,
            bytes@.len() == 16,
            zero <==> forall|j: int| 0 <= j < i ==> bytes@[j] == 0,
        decreases 16 - i,
    {
        if bytes[i] != 0 {
            zero = false;
        }
        i = i + 1;
    }
    if zero {
        return None;
    }
    let mut v: Vec<char> = Vec::new();
    push_hex2(&mut v, bytes[4]);
    push_hex2(&mut v, bytes[5]);
    push_hex2(&mut v, bytes[6]);
    push_hex2(&mut v, bytes[7]);
    v.push('-');
    push_hex2(&mut v, bytes[2]);
    push_hex2(&mut v, bytes[3]);
    v.push('-');
    push_hex2(&mut v, bytes[0]);
    push_hex2(&mut v, bytes[1]);
    v.push('-');
    push_hex2(&mut v, bytes[11]);
    push_hex2(&mut v, bytes[10]);
    v.push('-');
    push_hex2(&mut v, bytes[9]);
    push_hex2(&mut v, bytes[8]);
    push_hex2(&mut v, bytes[15]);
    push_hex2(&mut v, bytes[14]);
    push_hex2(&mut v, bytes[13]);
    push_hex2(&mut v, bytes[12]);
    assert(v@ =~= api_guild_chars(bytes@));
    Some(string_from_chars(v))
}

/// The 32 bytes that hold the text of an error event.
fn get_error_bytes(raw_event: &CbtEvent) -> (r: [u8; 32])
    ensures
        r@ == error_bytes(*raw_event),
{
    let parts: [[u8; 8]; 3] = [
        u64_le_bytes(raw_event.time),
        u64_le_bytes(raw_event.src_agent),
        u64_le_bytes(raw_event.dst_agent),
    ];
    let d = i32_le_bytes(raw_event.value);
    let e = i32_le_bytes(raw_event.buff_dmg);
    let mut result = [0u8;32];
    let mut i: usize = 0;
    while i < 24
        invariant
            i <= 24,
            result@.len() == 32,
            parts@.len() == 3,
            forall|k: int| 0 <= k < 3 ==> (#[trigger] parts@[k])@.len() == 8,
            forall|j: int| 0 <= j < i ==> result@[j] == parts@[j / 8]@[j % 8],
        decreases 24 - i,
    {
        result[i] = parts[i / 8][i % 8];
        i = i + 1;
    }
    while i < 32
        invariant
            24 <= i <= 32,
            result@.len() == 32,
            parts@.len() == 3,
            d@.len() == 4,
            e@.len() == 4,
            forall|k: int| 0 <= k < 3 ==> (#[trigger] parts@[k])@.len() == 8,
            forall|j: int| 0 <= j < 24 ==> result@[j] == parts@[j / 8]@[j % 8],
            forall|j: int| 24 <= j < 28 && j < i ==> result@[j] == d@[j - 24],
            forall|j: int| 28 <= j < i ==> result@[j] == e@[j - 28],
        decreases 32 - i,
    {
        if i < 28 {
            result[i] = d[i - 24];
        } else {
            result[i] = e[i - 28];
        }
        i = i + 1;
    }
    let ghost expected = error_bytes(*raw_event);
    assert forall|j: int| 0 <= j < 32 implies result@[j] == expected[j] by {
        if j < 8 {
        } else if j < 16 {
        } else if j < 24 {
        } else if j < 28 {
        } else {
        }
    }
    assert(result@ =~= expected);
    result
}

/// The kind of an event without state change.
fn check_activation(raw_event: &CbtEvent) -> (r: Result<EventKind, FromRawEventError>)
    ensures
        r == combat_kind(*raw_event),
{
    match raw_event.is_activation {
        CbtActivation::Unset => check_buffremove(raw_event),
        activation => Ok(
            EventKind::SkillUse {
                source_agent_addr: raw_event.src_agent,
                skill_id: raw_event.skillid,
                activation: match activation {
                    CbtActivation::Quickness => Activation::Quickness(raw_event.value),
                    CbtActivation::Normal => Activation::Normal(raw_event.value),
                    CbtActivation::CancelFire => Activation::CancelFire(raw_event.value),
                    CbtActivation::CancelCancel => Activation::CancelCancel(raw_event.value),
                    _ => Activation::Reset,
                },
            },
        ),
    }
}

/// The kind of an event without state change or activation.
fn check_buffremove(raw_event: &CbtEvent) -> (r: Result<EventKind, FromRawEventError>)
    requires
        raw_event.is_activation == CbtActivation::Unset,
    ensures
        r == combat_kind(*raw_event),
{
    match raw_event.is_buffremove {
        CbtBuffRemove::Unset => check_damage(raw_event),
        removal => Ok(
            EventKind::BuffRemove {
                source_agent_addr: raw_event.src_agent,
                destination_agent_addr: raw_event.dst_agent,
                buff_id: raw_event.skillid,
                total_duration: raw_event.value,
                longest_stack: raw_event.buff_dmg,
                removal,
            },
        ),
    }
}

/// The kind of a damage or buff event.
fn check_damage(raw_event: &CbtEvent) -> (r: Result<EventKind, FromRawEventError>)
    requires
        raw_event.is_activation == CbtActivation::Unset,
        raw_event.is_buffremove == CbtBuffRemove::Unset,
    ensures
        r == combat_kind(*raw_event),
{
    if raw_event.buff == 0 && raw_event.iff == raw::IFF::Foe && raw_event.dst_agent != 0 {
        Ok(
            EventKind::Physical {
                source_agent_addr: raw_event.src_agent,
                destination_agent_addr: raw_event.dst_agent,
                skill_id: raw_event.skillid,
                damage: raw_event.value,
                result: raw_event.result,
            },
        )
    } else if raw_event.buff == 1 && raw_event.buff_dmg != 0 && raw_event.dst_agent != 0
        && raw_event.value == 0 {
        Ok(
            EventKind::ConditionTick {
                source_agent_addr: raw_event.src_agent,
                destination_agent_addr: raw_event.dst_agent,
                condition_id: raw_event.skillid,
                damage: raw_event.buff_dmg,
            },
        )
    } else if raw_event.buff == 1 && raw_event.buff_dmg == 0 && raw_event.value != 0 {
        Ok(
            EventKind::BuffApplication {
                source_agent_addr: raw_event.src_agent,
                destination_agent_addr: raw_event.dst_agent,
                buff_id: raw_event.skillid,
                duration: raw_event.value,
                overstack: raw_event.overstack_value,
            },
        )
    } else if raw_event.buff == 1 && raw_event.buff_dmg == 0 && raw_event.value == 0 {
        Ok(
            EventKind::InvulnTick {
                source_agent_addr: raw_event.src_agent,
                destination_agent_addr: raw_event.dst_agent,
                condition_id: raw_event.skillid,
            },
        )
    } else {
        Err(FromRawEventError::UnknownDamageEvent)
    }
}

/// The kind of a raw event.
#[verifier::rlimit(100)]
fn convert_kind(raw_event: &CbtEvent) -> (r: Result<EventKind, FromRawEventError>)
    ensures
        r is Ok <==> event_error(*raw_event) is None,
        r matches Err(e) ==> event_error(*raw_event) == Some(e),
        r matches Ok(k) ==> event_kind_of(*raw_event, k),
{
    let e = raw_event;
    let kind = match e.is_statechange {
        CbtStateChange::EnterCombat => EventKind::EnterCombat {
            agent_addr: e.src_agent,
            subgroup: e.dst_agent,
        },
        CbtStateChange::ExitCombat => EventKind::ExitCombat { agent_addr: e.src_agent },
        CbtStateChange::ChangeUp => EventKind::ChangeUp { agent_addr: e.src_agent },
        CbtStateChange::ChangeDead => EventKind::ChangeDead { agent_addr: e.src_agent },
        CbtStateChange::ChangeDown => EventKind::ChangeDown { agent_addr: e.src_agent },
        CbtStateChange::Spawn => EventKind::Spawn { agent_addr: e.src_agent },
        CbtStateChange::Despawn => EventKind::Despawn { agent_addr: e.src_agent },
        CbtStateChange::HealthUpdate => EventKind::HealthUpdate {
            agent_addr: e.src_agent,
            health: e.dst_agent as u16,
        },
        CbtStateChange::LogStart => EventKind::LogStart {
            server_timestamp: e.value as u32,
            local_timestamp: e.buff_dmg as u32,
        },
        CbtStateChange::LogEnd => EventKind::LogEnd {
            server_timestamp: e.value as u32,
            local_timestamp: e.buff_dmg as u32,
        },
        CbtStateChange::WeapSwap => EventKind::WeaponSwap {
            agent_addr: e.src_agent,
            set: WeaponSet::from_u64(e.dst_agent),
        },
        CbtStateChange::MaxHealthUpdate => EventKind::MaxHealthUpdate {
            agent_addr: e.src_agent,
            max_health: e.dst_agent,
        },
        CbtStateChange::PointOfView => EventKind::PointOfView { agent_addr: e.src_agent },
        CbtStateChange::Language => match raw::Language::from_u64(e.src_agent) {
            Some(language) => EventKind::Language { language },
            None => return Err(FromRawEventError::UnknownLanguage),
        },
        CbtStateChange::GwBuild => EventKind::Build { build: e.src_agent },
        CbtStateChange::ShardId => EventKind::ShardId { shard_id: e.src_agent },
        CbtStateChange::Reward => EventKind::Reward {
            reward_id: e.dst_agent,
            reward_type: e.value,
        },
        CbtStateChange::Guild => {
            let raw_bytes = get_guild_id_bytes(e);
            let api_guild_id = get_api_guild_string(&raw_bytes);
            EventKind::Guild { source_agent_addr: e.src_agent, raw_bytes, api_guild_id }
        },
        CbtStateChange::Position => EventKind::Position {
            agent_addr: e.src_agent,
            x: (e.dst_agent / 0x1_0000_0000) as u32,
            y: (e.dst_agent % 0x1_0000_0000) as u32,
            z: e.value as u32,
        },
        CbtStateChange::Velocity => EventKind::Velocity {
            agent_addr: e.src_agent,
            x: (e.dst_agent / 0x1_0000_0000) as u32,
            y: (e.dst_agent % 0x1_0000_0000) as u32,
            z: e.value as u32,
        },
        CbtStateChange::Facing => EventKind::Facing {
            agent_addr: e.src_agent,
            x: (e.dst_agent / 0x1_0000_0000) as u32,
            y: (e.dst_agent % 0x1_0000_0000) as u32,
        },
        CbtStateChange::MapId => EventKind::MapId { map_id: e.src_agent },
        CbtStateChange::TeamChange => EventKind::TeamChange {
            agent_addr: e.src_agent,
            team_id: e.dst_agent,
        },
        CbtStateChange::AttackTarget => EventKind::AttackTarget {
            agent_addr: e.src_agent,
            parent_agent_addr: e.dst_agent,
            targetable: e.value != 0,
        },
        CbtStateChange::Targetable => EventKind::Targetable {
            agent_addr: e.src_agent,
            targetable: e.dst_agent != 0,
        },
        CbtStateChange::Error => {
            let data = get_error_bytes(e);
            let text = match raw::cstr_up_to_nul(&data) {
                Some(t) => string_from_utf8_lossy(t),
                None => return Err(FromRawEventError::InvalidText),
            };
            EventKind::Error { text }
        },
        CbtStateChange::Tag => EventKind::Tag { agent_addr: e.src_agent, tag_id: e.value },
        CbtStateChange::BuffInitial => EventKind::BuffInitial {
            source_agent_addr: e.src_agent,
            destination_agent_addr: e.dst_agent,
            buff_id: e.skillid,
            duration: e.value,
            overstack: e.overstack_value,
        },
        CbtStateChange::StackActive => EventKind::StackActive {
            agent_addr: e.src_agent,
            stack_id: e.dst_agent,
        },
        CbtStateChange::StackReset => EventKind::StackReset {
            agent_addr: e.src_agent,
            duration: e.value,
        },
        CbtStateChange::ReplInfo | CbtStateChange::BuffInfo | CbtStateChange::BuffFormula
        | CbtStateChange::SkillInfo | CbtStateChange::SkillTiming
        | CbtStateChange::BreakbarState | CbtStateChange::BreakbarPercent => {
            return Err(FromRawEventError::UnknownStateChange(e.is_statechange));
        },
        CbtStateChange::Unset => return check_activation(e),
    };
    Ok(kind)
}

impl Event {
    /// Transform a raw event to a "high-level" event.
    ///
    /// If the event is not known, or some other error occured, an error is returned.
    ///
    /// * `raw_event` - the raw event to transform.
    pub fn try_from(raw_event: &CbtEvent) -> (r: Result<Event, FromRawEventError>)
        ensures
            r is Ok <==> event_error(*raw_event) is None,
            r matches Err(e) ==> event_error(*raw_event) == Some(e),
            r matches Ok(ev) ==> event_kind_of(*raw_event, ev@.kind) && ev@ == event_view_of(
                *raw_event,
                ev@.kind,
            ),
    {
        let kind = convert_kind(raw_event)?;
        Ok(
            Event {
                time: raw_event.time,
                kind,
                is_ninety: raw_event.is_ninety,
                is_fifty: raw_event.is_fifty,
                is_moving: raw_event.is_moving,
                is_flanking: raw_event.is_flanking,
                is_shields: raw_event.is_shields,
            },
        )
    }

    /// The time when the event happened.
    ///
    /// This are the milliseconds since Windows has been started (`timeGetTime()`).
    pub fn time(&self) -> (r: u64)
        ensures
            r == self@.time,
    {
        self.time
    }

    /// The kind of the event.
    pub fn kind(&self) -> (r: &EventKind)
        ensures
            *r == self@.kind,
    {
        &self.kind
    }

    /// Whether the agent had more than 90% of its health.
    ///
    /// This is the scholar threshold.
    pub fn is_ninety(&self) -> (r: bool)
        ensures
            r == self@.is_ninety,
    {
        self.is_ninety
    }

    /// Whether the target health was below 50%.
    ///
    /// This is the threshold for many runes and trait damage modifiers (e.g.
    /// *Bolt to the Heart*).
    pub fn is_fifty(&self) -> (r: bool)
        ensures
            r == self@.is_fifty,
    {
        self.is_fifty
    }

    /// Whether the source agent was moving.
    pub fn is_moving(&self) -> (r: bool)
        ensures
            r == self@.is_moving,
    {
        self.is_moving
    }

    /// Whether the source agent was flanking the target.
    pub fn is_flanking(&self) -> (r: bool)
        ensures
            r == self@.is_flanking,
    {
        self.is_flanking
    }

    /// Whether some (or all) damage was mitigated by shields.
    pub fn is_shields(&self) -> (r: bool)
        ensures
            r == self@.is_shields,
    {
        self.is_shields
    }
}

/// The coordinates of a position, velocity or facing event are packed into the raw event's
/// `dst_agent`: `x` in its high 32 bits and `y` in its low 32 bits, so that `dst_agent` is
/// `x * 2^32 + y`; `z` holds the bits of `value`. The agent is `src_agent`.
pub proof fn lemma_coordinates_of(raw_event: CbtEvent, k: EventKind)
    requires
        event_kind_of(raw_event, k),
    ensures
        raw_event.is_statechange == CbtStateChange::Position ==> (k matches EventKind::Position {
            agent_addr,
            x,
            y,
            z,
        } && agent_addr == raw_event.src_agent && x * 0x1_0000_0000 + y == raw_event.dst_agent
            && z as i32 == raw_event.value),
        raw_event.is_statechange == CbtStateChange::Velocity ==> (k matches EventKind::Velocity {
            agent_addr,
            x,
            y,
            z,
        } && agent_addr == raw_event.src_agent && x * 0x1_0000_0000 + y == raw_event.dst_agent
            && z as i32 == raw_event.value),
        raw_event.is_statechange == CbtStateChange::Facing ==> (k matches EventKind::Facing {
            agent_addr,
            x,
            y,
        } && agent_addr == raw_event.src_agent && x * 0x1_0000_0000 + y == raw_event.dst_agent),
{
    let d = raw_event.dst_agent;
    let v = raw_event.value;
    assert((d / 0x1_0000_0000) as u32 * 0x1_0000_0000 + (d % 0x1_0000_0000) as u32 == d) by (bit_vector);
    assert((v as u32) as i32 == v) by (bit_vector);
}

} // verus!
