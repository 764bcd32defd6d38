//! This module contains some game data that is necessary to correctly calculate
//! some statistics.
use vstd::prelude::*;

use super::boon::{BoonQueue, BoonType};

verus! {

/// Enum containing all bosses with their IDs.
#[derive(Debug, Clone, Copy, PartialEq, Eq, Hash, Structural)]
pub enum Boss {
    /// The boss with the id `0x3C4E`.
    ValeGuardian,
    /// The boss with the id `0x3C45`.
    Gorseval,
    /// The boss with the id `0x3C0F`.
    Sabetha,
    /// The boss with the id `0x3EFB`.
    Slothasor,
    /// The boss with the id `0x3EF3`.
    Matthias,
    /// The boss with the id `0x3F6B`.
    KeepConstruct,
    /// Xera ID for phase 1.
    ///
    /// This is only half of Xera's ID, as there will be a second agent for the
    /// second phase. This agent will have another ID, see
    /// [`XERA_PHASE2_ID`](constant.XERA_PHASE2_ID.html).
    Xera,
    /// The boss with the id `0x432A`.
    Cairn,
    /// The boss with the id `0x4314`.
    MursaatOverseer,
    /// The boss with the id `0x4324`.
    Samarog,
    /// The boss with the id `0x3202`.
    Deimos,
    /// The boss with the id `0x4D37`.
    SoullessHorror,
    /// The boss with the id `0x4BFA`.
    Dhuum,
    /// The boss with the id `0xABC6`.
    ConjuredAmalgamate,
    /// The boss with the id `0x5271`.
    LargosTwins,
    /// The boss with the id `0x51C6`.
    Qadim,
}

impl Boss {
    /// The id of the boss.
    pub open spec fn code(self) -> u16 {
        match self {
            Boss::ValeGuardian => 0x3C4E,
            Boss::Gorseval => 0x3C45,
            Boss::Sabetha => 0x3C0F,
            Boss::Slothasor => 0x3EFB,
            Boss::Matthias => 0x3EF3,
            Boss::KeepConstruct => 0x3F6B,
            Boss::Xera => 0x3F76,
            Boss::Cairn => 0x432A,
            Boss::MursaatOverseer => 0x4314,
            Boss::Samarog => 0x4324,
            Boss::Deimos => 0x3202,
            Boss::SoullessHorror => 0x4D37,
            Boss::Dhuum => 0x4BFA,
            Boss::ConjuredAmalgamate => 0xABC6,
            Boss::LargosTwins => 0x5271,
            Boss::Qadim => 0x51C6,
        }
    }

    /// The id of the boss.
    pub fn id(self) -> (r: u16)
        ensures
            r == self.code(),
    {
        match self {
            Boss::ValeGuardian => 0x3C4E,
            Boss::Gorseval => 0x3C45,
            Boss::Sabetha => 0x3C0F,
            Boss::Slothasor => 0x3EFB,
            Boss::Matthias => 0x3EF3,
            Boss::KeepConstruct => 0x3F6B,
            Boss::Xera => 0x3F76,
            Boss::Cairn => 0x432A,
            Boss::MursaatOverseer => 0x4314,
            Boss::Samarog => 0x4324,
            Boss::Deimos => 0x3202,
            Boss::SoullessHorror => 0x4D37,
            Boss::Dhuum => 0x4BFA,
            Boss::ConjuredAmalgamate => 0xABC6,
            Boss::LargosTwins => 0x5271,
            Boss::Qadim => 0x51C6,
        }
    }
}

/// ID for Xera in the second phase.
///
/// The original Xera will despawn, and after the tower phase, a separate spawn
/// will take over. This new Xera will have this ID. Care needs to be taken when
/// calculating boss damage on this encounter, as both Xeras have to be taken
/// into account.
pub const XERA_PHASE2_ID: u16 = 0x3F9E;

/// Contains a boon.
///
/// Fields:
/// * boon id
/// * name (english) (just for easier debugging)
/// * maximum number of stacks
/// * boon type (intensity or duration)
#[derive(Debug, Clone, PartialEq, Eq)]
pub struct Boon(pub u32, pub &'static str, pub u32, pub BoonType);

impl Boon {
    /// A new, empty queue for this boon: of its capacity and type.
    pub fn create_queue(&self) -> (r: BoonQueue)
        ensures
            r.spec_capacity() == self.2,
            r.spec_boon_type() == self.3,
            r.spec_queue() == Seq::<u64>::empty(),
    {
        BoonQueue::new(self.2, self.3)
    }
}

/// The ids, names, queue capacities and types of all boons (and conditions) that we know about.
pub open spec fn boon_table() -> Seq<(u32, Seq<char>, u32, BoonType)> {
    seq![
        (743, "Aegis"@, 5, BoonType::Duration),
        (30328, "Alacrity"@, 9, BoonType::Duration),
        (725, "Fury"@, 9, BoonType::Duration),
        (717, "Protection"@, 5, BoonType::Duration),
        (718, "Regeneration"@, 5, BoonType::Duration),
        (26980, "Resistance"@, 5, BoonType::Duration),
        (873, "Retaliation"@, 5, BoonType::Duration),
        (719, "Swiftness"@, 9, BoonType::Duration),
        (1187, "Quickness"@, 5, BoonType::Duration),
        (726, "Vigor"@, 5, BoonType::Duration),
        (740, "Might"@, 25, BoonType::Intensity),
        (1122, "Stability"@, 25, BoonType::Intensity),
        (720, "Blinded"@, 5, BoonType::Duration),
        (722, "Chilled"@, 5, BoonType::Duration),
        (721, "Crippled"@, 5, BoonType::Duration),
        (791, "Fear"@, 5, BoonType::Duration),
        (727, "Immobile"@, 3, BoonType::Duration),
        (26766, "Slow"@, 3, BoonType::Duration),
        (742, "Weakness"@, 3, BoonType::Duration),
        (736, "Bleeding"@, 1500, BoonType::Intensity),
        (737, "Burning"@, 1500, BoonType::Intensity),
        (861, "Confusion"@, 1500, BoonType::Intensity),
        (723, "Poison"@, 1500, BoonType::Intensity),
        (19426, "Torment"@, 1500, BoonType::Intensity),
        (738, "Vulnerability"@, 25, BoonType::Intensity),
    ]
}

/// A list of all boons (and conditions).
///
/// Boon queue sizes taken from the wiki: https://wiki.guildwars2.com/wiki/Effect_stacking
///
/// IDs from wiki and skilldef.log: https://www.deltaconnected.com/arcdps/evtc/
pub fn boons() -> (r: &'static [Boon])
    ensures
        r@.len() == boon_table().len(),
        forall|i: int|
            0 <= i < r@.len() ==> (#[trigger] r@[i].0, r@[i].1@, r@[i].2, r@[i].3) == boon_table()[i],
{
    &[
        Boon(743, "Aegis", 5, BoonType::Duration),
        Boon(30328, "Alacrity", 9, BoonType::Duration),
        Boon(725, "Fury", 9, BoonType::Duration),
        Boon(717, "Protection", 5, BoonType::Duration),
        Boon(718, "Regeneration", 5, BoonType::Duration),
        Boon(26980, "Resistance", 5, BoonType::Duration),
        Boon(873, "Retaliation", 5, BoonType::Duration),
        Boon(719, "Swiftness", 9, BoonType::Duration),
        Boon(1187, "Quickness", 5, BoonType::Duration),
        Boon(726, "Vigor", 5, BoonType::Duration),
        Boon(740, "Might", 25, BoonType::Intensity),
        Boon(1122, "Stability", 25, BoonType::Intensity),
        Boon(720, "Blinded", 5, BoonType::Duration),
        Boon(722, "Chilled", 5, BoonType::Duration),
        Boon(721, "Crippled", 5, BoonType::Duration),
        Boon(791, "Fear", 5, BoonType::Duration),
        Boon(727, "Immobile", 3, BoonType::Duration),
        Boon(26766, "Slow", 3, BoonType::Duration),
        Boon(742, "Weakness", 3, BoonType::Duration),
        Boon(736, "Bleeding", 1500, BoonType::Intensity),
        Boon(737, "Burning", 1500, BoonType::Intensity),
        Boon(861, "Confusion", 1500, BoonType::Intensity),
        Boon(723, "Poison", 1500, BoonType::Intensity),
        Boon(19426, "Torment", 1500, BoonType::Intensity),
        Boon(738, "Vulnerability", 25, BoonType::Intensity),
    ]
}

/// The boon with the given id, if we know about it.
pub fn get_boon(boon_id: u32) -> (r: Option<&'static Boon>)
    ensures
        r is Some <==> exists|i: int| 0 <= i < boon_table().len() && #[trigger] boon_table()[i].0 == boon_id,
        r matches Some(b) ==> b.0 == boon_id && exists|i: int|
            0 <= i < boon_table().len() && #[trigger] boon_table()[i] == (b.0, b.1@, b.2, b.3),
{
    let all = boons();
    let mut i: usize = 0;
    while i < all.len()
        invariant
            i <= all@.len(),
            all@.len() == boon_table().len(),
            forall|k: int|
                0 <= k < all@.len() ==> (#[trigger] all@[k].0, all@[k].1@, all@[k].2, all@[k].3)
                    == boon_table()[k],
            forall|k: int| 0 <= k < i ==> boon_table()[k].0 != boon_id,
        decreases all@.len() - i,
    {
        assert((all@[i as int].0, all@[i as int].1@, all@[i as int].2, all@[i as int].3)
            == boon_table()[i as int]);
        if all[i].0 == boon_id {
            assert(boon_table()[i as int].0 == boon_id);
            return Some(&all[i]);
        }
        i += 1;
    }
    None
}

/// Contains pre-defined triggers for boss mechanics.
#[derive(Debug, Clone, Copy, PartialEq, Eq, Hash, Structural)]
pub enum Trigger {
    /// Triggers when the given boon is applied to the player.
    BoonPlayer(u32),
    /// Triggers when the given boon is applied to the boss.
    BoonBoss(u32),
    /// Triggers when the given skill is used by a player.
    SkillByPlayer(u32),
    /// Triggers when the given skill is used on a player.
    SkillOnPlayer(u32),
    /// Triggers when the given boon is stripped from an enemy.
    BoonStripped(u32),
    /// Triggers when the given entity spawned.
    Spawn(u16),
    /// Triggers when the boss finishes channeling the given skill.
    ChannelComplete(u32),
}

/// Struct describing a boss mechanic.
///
/// Fields:
/// * Boss id that this mechanic belongs to.
/// * How the mechanic is triggered.
/// * Technical term for the mechanic (for debugging purposes).
#[derive(Debug, Clone, PartialEq, Eq, Hash)]
pub struct Mechanic(pub u16, pub Trigger, pub &'static str);

impl Mechanic {
    /// The id of the boss that this mechanic belongs to.
    pub fn boss_id(&self) -> (r: u16)
        ensures
            r == self.0,
    {
        self.0
    }

    /// How the mechanic is triggered.
    pub fn trigger(&self) -> (r: &Trigger)
        ensures
            *r == self.1,
    {
        &self.1
    }

    /// The technical term for the mechanic.
    pub fn name(&self) -> (r: &'static str)
        ensures
            r == self.2,
    {
        self.2
    }
}

/// The boss ids, triggers and names of all mechanics that we know about.
pub open spec fn mechanic_table() -> Seq<(u16, Trigger, Seq<char>)> {
    seq![
        (Boss::ValeGuardian.code(), Trigger::SkillOnPlayer(31392), "Unstable Magic Spike"@),
        (Boss::Gorseval.code(), Trigger::SkillOnPlayer(31875), "Spectral Impact"@),
        (Boss::Gorseval.code(), Trigger::BoonPlayer(31623), "Ghastly Prison"@),
        (Boss::Sabetha.code(), Trigger::BoonPlayer(34108), "Shell-Shocked"@),
        (Boss::Samarog.code(), Trigger::SkillOnPlayer(38168), "Prisoner Sweep"@),
        (Boss::Samarog.code(), Trigger::SkillOnPlayer(37996), "Shockwave"@),
    ]
}

/// A slice of all mechanics that we know about.
pub fn mechanics() -> (r: &'static [Mechanic])
    ensures
        r@.len() == mechanic_table().len(),
        forall|i: int| 0 <= i < r@.len() ==> (#[trigger] r@[i].0, r@[i].1, r@[i].2@) == mechanic_table()[i],
{
    &[
        Mechanic(0x3C4E, Trigger::SkillOnPlayer(31392), "Unstable Magic Spike"),
        Mechanic(0x3C45, Trigger::SkillOnPlayer(31875), "Spectral Impact"),
        Mechanic(0x3C45, Trigger::BoonPlayer(31623), "Ghastly Prison"),
        Mechanic(0x3C0F, Trigger::BoonPlayer(34108), "Shell-Shocked"),
        Mechanic(0x4324, Trigger::SkillOnPlayer(38168), "Prisoner Sweep"),
        Mechanic(0x4324, Trigger::SkillOnPlayer(37996), "Shockwave"),
    ]
}

/// Get all mechanics that belong to the given boss, in order.
pub fn get_mechanics(boss_id: u16) -> (r: Vec<&'static Mechanic>)
    ensures
        r@.map_values(|m: &'static Mechanic| (m.0, m.1, m.2@)) == mechanic_table().filter(
            |m: (u16, Trigger, Seq<char>)| m.0 == boss_id,
        ),
{
    let all = mechanics();
    let ghost table = mechanic_table();
    let mut result: Vec<&'static Mechanic> = Vec::new();
    let mut i: usize = 0;
    while i < all.len()
        invariant
            i <= all@.len(),
            table == mechanic_table(),
            all@.len() == table.len(),
            forall|k: int| 0 <= k < all@.len() ==> (#[trigger] all@[k].0, all@[k].1, all@[k].2@) == table[k],
            result@.map_values(|m: &'static Mechanic| (m.0, m.1, m.2@)) == table.take(i as int).filter(
                |m: (u16, Trigger, Seq<char>)| m.0 == boss_id,
            ),
        decreases all@.len() - i,
    {
        proof {
            let t = table.take(i + 1);
            reveal_with_fuel(Seq::filter, 1);
            assert(t.drop_last() == table.take(i as int));
            assert(t.last() == (all@[i as int].0, all@[i as int].1, all@[i as int].2@));
            assert(t.filter(|m: (u16, Trigger, Seq<char>)| m.0 == boss_id) == if t.last().0 == boss_id {
                t.drop_last().filter(|m: (u16, Trigger, Seq<char>)| m.0 == boss_id).push(t.last())
            } else {
                t.drop_last().filter(|m: (u16, Trigger, Seq<char>)| m.0 == boss_id)
            });
        }
        if all[i].0 == boss_id {
            let m = &all[i];
            assert(result@.push(m).map_values(|m: &'static Mechanic| (m.0, m.1, m.2@)) == result@.map_values(
                |m: &'static Mechanic| (m.0, m.1, m.2@),
            ).push((m.0, m.1, m.2@)));
            result.push(m);
        }
        i += 1;
    }
    assert(table.take(i as int) == table);
    result
}

} // verus!
