//! This module contains some low-level game data, such as different boss IDs.
//!
//! The numeric id of each encounter, boss, profession and elite specialization is given by its
//! `id()` method (and `code()` in specifications); the conversions from numbers go through
//! `from_u16`/`from_u32` and [`Encounter::from_header_id`].
use vstd::prelude::*;

use crate::text::{
    ascii_lower, ascii_upper, is_ascii_text, lemma_lower_of_upper, lowercase, str_eq, to_lowercase,
};
use vstd::string::StringExecFns;

verus! {

broadcast use vstd::string::group_string_axioms;

/// The game mode in which a log was produced.
///
/// Note that the distinction made here is relatively arbitrary, but hopefully still useful. In
/// Guild Wars 2 terms, there is no clear definition of what a "game mode" is.
#[derive(Copy, Clone, Debug, PartialEq, Eq, Hash, Structural)]
pub enum GameMode {
    /// The log is from a raid encounter.
    Raid,
    /// The log is from a fractal fight.
    Fractal,
    /// The log is from a strike mission.
    Strike,
    /// The log is from a training golem.
    Golem,
    /// The log is from a world-versus-world fight.
    WvW,
}

/// Error for when converting a string to a game mode fails.
#[derive(Debug, Clone, Hash, PartialEq, Eq)]
pub struct ParseGameModeError(pub String);

impl ParseGameModeError {
    /// The message of the error: it names the text that could not be parsed.
    pub open spec fn message(&self) -> Seq<char> {
        "Invalid encounter identifier: "@ + self.0@
    }

    /// The message of the error: it names the text that could not be parsed.
    pub fn to_string(&self) -> (r: String)
        ensures
            r@ == self.message(),
    {
        let mut message = "Invalid encounter identifier: ".to_owned();
        message.append(self.0.as_str());
        message
    }
}

impl GameMode {
    /// The game mode that a lowercase name stands for, if any.
    pub open spec fn from_name_spec(name: Seq<char>) -> Option<GameMode> {
        if name == "raid"@ {
            Some(GameMode::Raid)
        } else if name == "fractal"@ {
            Some(GameMode::Fractal)
        } else if name == "strike"@ {
            Some(GameMode::Strike)
        } else if name == "golem"@ {
            Some(GameMode::Golem)
        } else if name == "wvw"@ {
            Some(GameMode::WvW)
        } else {
            None
        }
    }

    /// Parse a game mode from its name, ignoring case.
    pub fn from_name(s: &str) -> (r: Result<GameMode, ParseGameModeError>)
        ensures
            r is Ok <==> GameMode::from_name_spec(lowercase(s@)) is Some,
            r matches Ok(m) ==> GameMode::from_name_spec(lowercase(s@)) == Some(m),
            r matches Err(e) ==> e.0@ == s@,
            is_ascii_text(s@) ==> (r is Ok <==> GameMode::from_name_spec(ascii_lower(s@)) is Some),
            is_ascii_text(s@) ==> (r matches Ok(m) ==> GameMode::from_name_spec(ascii_lower(s@)) == Some(m)),
            r matches Err(e) ==> e.message() == "Invalid encounter identifier: "@ + s@,
    {
        let lower = to_lowercase(s);
        let name = lower.as_str();
        let found = if str_eq(name, "raid") {
            Some(GameMode::Raid)
        } else if str_eq(name, "fractal") {
            Some(GameMode::Fractal)
        } else if str_eq(name, "strike") {
            Some(GameMode::Strike)
        } else if str_eq(name, "golem") {
            Some(GameMode::Golem)
        } else if str_eq(name, "wvw") {
            Some(GameMode::WvW)
        } else {
            None
        };
        match found {
            Some(m) => Ok(m),
            None => Err(ParseGameModeError(s.to_string())),
        }
    }
}

impl std::str::FromStr for GameMode {
    type Err = ParseGameModeError;

    fn from_str(s: &str) -> (r: Result<Self, Self::Err>)
        ensures
            r is Ok <==> GameMode::from_name_spec(lowercase(s@)) is Some,
            r matches Ok(x) ==> GameMode::from_name_spec(lowercase(s@)) == Some(x),
            r matches Err(e) ==> e.0@ == s@,
            is_ascii_text(s@) ==> (r is Ok <==> GameMode::from_name_spec(ascii_lower(s@)) is Some),
            is_ascii_text(s@) ==> (r matches Ok(x) ==> GameMode::from_name_spec(ascii_lower(s@)) == Some(x)),
            r matches Err(e) ==> e.message() == "Invalid encounter identifier: "@ + s@,
    {
        GameMode::from_name(s)
    }
}

/// Enum containing all encounters with their IDs.
///
/// An encounter is a fight or event for which a log can exist. An encounter consists of no, one or
/// multiple bosses. Most encounters map 1:1 to a boss (like Vale Guardian), however there are some
/// encounters with multiple bosses (like Twin Largos), and even encounters without bosses (like
/// the River of Souls).
///
/// Note that the meaning of "encounter" in the Guild Wars 2 Wiki is not the same as what
/// [`Encounter`] represents. In many cases, they match, however there are some encounters which
/// have no associated [`Encounter`] (like Spirit Run or Escort) and some cases where multiple
/// [`Encounter`]s exist for a single encounter (like the Statues of Grenth encounter in the Hall
/// of Chains).
///
/// The id of an encounter is the id of its first boss, where it has one.
///
/// This enum is non-exhaustive to ensure that future encounters can be added without
/// inducing a breaking change.
#[derive(Debug, Copy, Clone, PartialEq, Eq, Hash, Structural)]
#[non_exhaustive]
pub enum Encounter {
    // Wing 1
    ValeGuardian,
    Gorseval,
    Sabetha,
    // Wing 2
    Slothasor,
    /// The "Protect the caged prisoners" event in Salvation Pass.
    ///
    /// Consists of [`Boss::Berg`], [`Boss::Zane`] and [`Boss::Narella`]; its id is the one of Berg, the
    /// first of them.
    ///
    /// [Guild Wars 2 Wiki](https://wiki.guildwars2.com/wiki/Protect_the_caged_prisoners)
    BanditTrio,
    Matthias,
    // Wing 3
    KeepConstruct,
    /// The "Traverse the Twisted Castle" encounter, between Keep Construct and Xera.
    ///
    /// [Guild Wars 2 Wiki](https://wiki.guildwars2.com/wiki/Traverse_the_Twisted_Castle)
    TwistedCastle,
    Xera,
    // Wing 4
    Cairn,
    MursaatOverseer,
    Samarog,
    Deimos,
    // Wing 5
    SoullessHorror,
    /// The River of Souls is the Desmina escort event and an encounter that does not have a boss.
    ///
    /// [Guild Wars 2 Wiki](https://wiki.guildwars2.com/wiki/Traverse_the_River_of_Souls)
    RiverOfSouls,
    BrokenKing,
    EaterOfSouls,
    /// The Statue of Darkness consists of killing the Eye of Judgment and the Eye of Fate.
    ///
    /// Colloquially known as just "eyes".
    ///
    /// [Guild Wars 2 Wiki](https://wiki.guildwars2.com/wiki/Statue_of_Darkness)
    StatueOfDarkness,
    VoiceInTheVoid,
    // Wing 6
    ConjuredAmalgamate,
    TwinLargos,
    Qadim,
    // Wing 7
    CardinalAdina,
    CardinalSabir,
    QadimThePeerless,
    // Training area
    StandardKittyGolem,
    MediumKittyGolem,
    LargeKittyGolem,
    // 100 CM (Sunqua Peak)
    Ai,
    // 99 CM (Shattered Observatory)
    Skorvald,
    Artsariiv,
    Arkk,
    // 98 CM (Nightmare)
    MAMA,
    Siax,
    Ensolyss,
    // Strike missions
    IcebroodConstruct,
    /// Internal name for the "Voice of the Fallen and Claw of the Fallen" strike mission.
    SuperKodanBrothers,
    FraenirOfJormag,
    Boneskinner,
    WhisperOfJormag,
    CaptainMaiTrin,
    Ankka,
    MinisterLi,
    /// The Harvest Temple strike mission. Besides its own id, logs of it can carry the ids `0xA9E0` and
    /// `0x5F37`.
    Dragonvoid,
}

impl Encounter {
    /// The header id of this encounter.
    pub open spec fn code(self) -> u16 {
        match self {
            Encounter::ValeGuardian => 0x3C4E,
            Encounter::Gorseval => 0x3C45,
            Encounter::Sabetha => 0x3C0F,
            Encounter::Slothasor => 0x3EFB,
            Encounter::BanditTrio => 0x3ED8,
            Encounter::Matthias => 0x3EF3,
            Encounter::KeepConstruct => 0x3F6B,
            Encounter::TwistedCastle => 0x3F77,
            Encounter::Xera => 0x3F76,
            Encounter::Cairn => 0x432A,
            Encounter::MursaatOverseer => 0x4314,
            Encounter::Samarog => 0x4324,
            Encounter::Deimos => 0x4302,
            Encounter::SoullessHorror => 0x4D37,
            Encounter::RiverOfSouls => 0x4D74,
            Encounter::BrokenKing => 0x4CEB,
            Encounter::EaterOfSouls => 0x4C50,
            Encounter::StatueOfDarkness => 0x4CC3,
            Encounter::VoiceInTheVoid => 0x4BFA,
            Encounter::ConjuredAmalgamate => 0xABC6,
            Encounter::TwinLargos => 0x5271,
            Encounter::Qadim => 0x51C6,
            Encounter::CardinalAdina => 0x55F6,
            Encounter::CardinalSabir => 0x55CC,
            Encounter::QadimThePeerless => 0x55F0,
            Encounter::StandardKittyGolem => 0x3F47,
            Encounter::MediumKittyGolem => 0x4CBD,
            Encounter::LargeKittyGolem => 0x4CDC,
            Encounter::Ai => 0x5AD6,
            Encounter::Skorvald => 0x44E0,
            Encounter::Artsariiv => 0x461D,
            Encounter::Arkk => 0x455F,
            Encounter::MAMA => 0x427D,
            Encounter::Siax => 0x4284,
            Encounter::Ensolyss => 0x4234,
            Encounter::IcebroodConstruct => 0x568A,
            Encounter::SuperKodanBrothers => 0x5747,
            Encounter::FraenirOfJormag => 0x57DC,
            Encounter::Boneskinner => 0x57F9,
            Encounter::WhisperOfJormag => 0x58B7,
            Encounter::CaptainMaiTrin => 0x5DE1,
            Encounter::Ankka => 0x5D95,
            Encounter::MinisterLi => 0x5FA5,
            Encounter::Dragonvoid => 0x0562,
        }
    }

    /// The header id of this encounter.
    pub fn id(self) -> (r: u16)
        ensures
            r == self.code(),
    {
        match self {
            Encounter::ValeGuardian => 0x3C4E,
            Encounter::Gorseval => 0x3C45,
            Encounter::Sabetha => 0x3C0F,
            Encounter::Slothasor => 0x3EFB,
            Encounter::BanditTrio => 0x3ED8,
            Encounter::Matthias => 0x3EF3,
            Encounter::KeepConstruct => 0x3F6B,
            Encounter::TwistedCastle => 0x3F77,
            Encounter::Xera => 0x3F76,
            Encounter::Cairn => 0x432A,
            Encounter::MursaatOverseer => 0x4314,
            Encounter::Samarog => 0x4324,
            Encounter::Deimos => 0x4302,
            Encounter::SoullessHorror => 0x4D37,
            Encounter::RiverOfSouls => 0x4D74,
            Encounter::BrokenKing => 0x4CEB,
            Encounter::EaterOfSouls => 0x4C50,
            Encounter::StatueOfDarkness => 0x4CC3,
            Encounter::VoiceInTheVoid => 0x4BFA,
            Encounter::ConjuredAmalgamate => 0xABC6,
            Encounter::TwinLargos => 0x5271,
            Encounter::Qadim => 0x51C6,
            Encounter::CardinalAdina => 0x55F6,
            Encounter::CardinalSabir => 0x55CC,
            Encounter::QadimThePeerless => 0x55F0,
            Encounter::StandardKittyGolem => 0x3F47,
            Encounter::MediumKittyGolem => 0x4CBD,
            Encounter::LargeKittyGolem => 0x4CDC,
            Encounter::Ai => 0x5AD6,
            Encounter::Skorvald => 0x44E0,
            Encounter::Artsariiv => 0x461D,
            Encounter::Arkk => 0x455F,
            Encounter::MAMA => 0x427D,
            Encounter::Siax => 0x4284,
            Encounter::Ensolyss => 0x4234,
            Encounter::IcebroodConstruct => 0x568A,
            Encounter::SuperKodanBrothers => 0x5747,
            Encounter::FraenirOfJormag => 0x57DC,
            Encounter::Boneskinner => 0x57F9,
            Encounter::WhisperOfJormag => 0x58B7,
            Encounter::CaptainMaiTrin => 0x5DE1,
            Encounter::Ankka => 0x5D95,
            Encounter::MinisterLi => 0x5FA5,
            Encounter::Dragonvoid => 0x0562,
        }
    }

    /// The bosses that can appear in this encounter.
    pub open spec fn boss_list(self) -> Seq<Boss> {
        match self {
            Encounter::ValeGuardian => seq![Boss::ValeGuardian],
            Encounter::Gorseval => seq![Boss::Gorseval],
            Encounter::Sabetha => seq![Boss::Sabetha],
            Encounter::Slothasor => seq![Boss::Slothasor],
            Encounter::BanditTrio => seq![Boss::Berg, Boss::Zane, Boss::Narella],
            Encounter::Matthias => seq![Boss::Matthias],
            Encounter::KeepConstruct => seq![Boss::KeepConstruct],
            Encounter::TwistedCastle => seq![],
            Encounter::Xera => seq![Boss::Xera, Boss::Xera2],
            Encounter::Cairn => seq![Boss::Cairn],
            Encounter::MursaatOverseer => seq![Boss::MursaatOverseer],
            Encounter::Samarog => seq![Boss::Samarog],
            Encounter::Deimos => seq![Boss::Deimos],
            Encounter::SoullessHorror => seq![Boss::SoullessHorror],
            Encounter::RiverOfSouls => seq![],
            Encounter::BrokenKing => seq![Boss::BrokenKing],
            Encounter::EaterOfSouls => seq![Boss::EaterOfSouls],
            Encounter::StatueOfDarkness => seq![Boss::EyeOfJudgment, Boss::EyeOfFate],
            Encounter::VoiceInTheVoid => seq![Boss::Dhuum],
            Encounter::ConjuredAmalgamate => seq![Boss::ConjuredAmalgamate],
            Encounter::TwinLargos => seq![Boss::Nikare, Boss::Kenut],
            Encounter::Qadim => seq![Boss::Qadim],
            Encounter::CardinalAdina => seq![Boss::CardinalAdina],
            Encounter::CardinalSabir => seq![Boss::CardinalSabir],
            Encounter::QadimThePeerless => seq![Boss::QadimThePeerless],
            Encounter::StandardKittyGolem => seq![Boss::StandardKittyGolem],
            Encounter::MediumKittyGolem => seq![Boss::MediumKittyGolem],
            Encounter::LargeKittyGolem => seq![Boss::LargeKittyGolem],
            Encounter::Ai => seq![Boss::Ai],
            Encounter::Skorvald => seq![Boss::Skorvald],
            Encounter::Artsariiv => seq![Boss::Artsariiv],
            Encounter::Arkk => seq![Boss::Arkk],
            Encounter::MAMA => seq![Boss::MAMA],
            Encounter::Siax => seq![Boss::Siax],
            Encounter::Ensolyss => seq![Boss::Ensolyss],
            Encounter::IcebroodConstruct => seq![Boss::IcebroodConstruct],
            Encounter::SuperKodanBrothers => seq![Boss::VoiceOfTheFallen, Boss::ClawOfTheFallen],
            Encounter::FraenirOfJormag => seq![Boss::FraenirOfJormag],
            Encounter::Boneskinner => seq![Boss::Boneskinner],
            Encounter::WhisperOfJormag => seq![Boss::WhisperOfJormag],
            Encounter::CaptainMaiTrin => seq![Boss::CaptainMaiTrin],
            Encounter::Ankka => seq![Boss::Ankka],
            Encounter::MinisterLi => seq![Boss::MinisterLi],
            Encounter::Dragonvoid => seq![],
        }
    }

    /// Return all possible bosses that can appear in this encounter.
    ///
    /// This returns the possible boss IDs, not actual agents. For a similar function check
    /// [`Log::boss_agents`][crate::Log::boss_agents].
    ///
    /// Note that not all of them have to be present in a log, for example if the encounter stopped
    /// before all of them spawned.
    pub fn bosses(self) -> (r: &'static [Boss])
        ensures
            r@ == self.boss_list(),
    {
        match self {
            Encounter::ValeGuardian => &[Boss::ValeGuardian],
            Encounter::Gorseval => &[Boss::Gorseval],
            Encounter::Sabetha => &[Boss::Sabetha],
            Encounter::Slothasor => &[Boss::Slothasor],
            Encounter::BanditTrio => &[Boss::Berg, Boss::Zane, Boss::Narella],
            Encounter::Matthias => &[Boss::Matthias],
            Encounter::KeepConstruct => &[Boss::KeepConstruct],
            Encounter::TwistedCastle => &[],
            Encounter::Xera => &[Boss::Xera, Boss::Xera2],
            Encounter::Cairn => &[Boss::Cairn],
            Encounter::MursaatOverseer => &[Boss::MursaatOverseer],
            Encounter::Samarog => &[Boss::Samarog],
            Encounter::Deimos => &[Boss::Deimos],
            Encounter::SoullessHorror => &[Boss::SoullessHorror],
            Encounter::RiverOfSouls => &[],
            Encounter::BrokenKing => &[Boss::BrokenKing],
            Encounter::EaterOfSouls => &[Boss::EaterOfSouls],
            Encounter::StatueOfDarkness => &[Boss::EyeOfJudgment, Boss::EyeOfFate],
            Encounter::VoiceInTheVoid => &[Boss::Dhuum],
            Encounter::ConjuredAmalgamate => &[Boss::ConjuredAmalgamate],
            Encounter::TwinLargos => &[Boss::Nikare, Boss::Kenut],
            Encounter::Qadim => &[Boss::Qadim],
            Encounter::CardinalAdina => &[Boss::CardinalAdina],
            Encounter::CardinalSabir => &[Boss::CardinalSabir],
            Encounter::QadimThePeerless => &[Boss::QadimThePeerless],
            Encounter::StandardKittyGolem => &[Boss::StandardKittyGolem],
            Encounter::MediumKittyGolem => &[Boss::MediumKittyGolem],
            Encounter::LargeKittyGolem => &[Boss::LargeKittyGolem],
            Encounter::Ai => &[Boss::Ai],
            Encounter::Skorvald => &[Boss::Skorvald],
            Encounter::Artsariiv => &[Boss::Artsariiv],
            Encounter::Arkk => &[Boss::Arkk],
            Encounter::MAMA => &[Boss::MAMA],
            Encounter::Siax => &[Boss::Siax],
            Encounter::Ensolyss => &[Boss::Ensolyss],
            Encounter::IcebroodConstruct => &[Boss::IcebroodConstruct],
            Encounter::SuperKodanBrothers => &[Boss::VoiceOfTheFallen, Boss::ClawOfTheFallen],
            Encounter::FraenirOfJormag => &[Boss::FraenirOfJormag],
            Encounter::Boneskinner => &[Boss::Boneskinner],
            Encounter::WhisperOfJormag => &[Boss::WhisperOfJormag],
            Encounter::CaptainMaiTrin => &[Boss::CaptainMaiTrin],
            Encounter::Ankka => &[Boss::Ankka],
            Encounter::MinisterLi => &[Boss::MinisterLi],
            Encounter::Dragonvoid => &[],
        }
    }

    /// The encounter that a header id stands for, if any.
    ///
    /// Twisted Castle and River of Souls have ids of their own, Dragonvoid has three; every other
    /// id stands for the encounter of the boss that has it.
    pub open spec fn from_header_id_spec(id: u16) -> Option<Encounter> {
        if id == 0x3F77 {
            Some(Encounter::TwistedCastle)
        } else if id == 0x4D74 {
            Some(Encounter::RiverOfSouls)
        } else if id == 0x0562 || id == 0xA9E0 || id == 0x5F37 {
            Some(Encounter::Dragonvoid)
        } else if exists|b: Boss| b.code() == id {
            Some((choose|b: Boss| b.code() == id).encounter())
        } else {
            None
        }
    }

    /// Converts a combat ID as given in the arcdps header into the correct encounter.
    ///
    /// This properly takes care of encounters with multiple bosses or which could be saved as
    /// multiple bosses.
    ///
    /// ```
    /// # use evtclib::gamedata::Encounter;
    /// assert_eq!(Encounter::from_header_id(0x3C4E), Some(Encounter::ValeGuardian));
    /// assert_eq!(Encounter::from_header_id(0x5261), Some(Encounter::TwinLargos));
    /// ```
    pub fn from_header_id(id: u16) -> (r: Option<Encounter>)
        ensures
            r == Encounter::from_header_id_spec(id),
    {
        if id == 0x3F77 {
            Some(Encounter::TwistedCastle)
        } else if id == 0x4D74 {
            Some(Encounter::RiverOfSouls)
        } else if id == 0x0562 || id == 0xA9E0 || id == 0x5F37 {
            Some(Encounter::Dragonvoid)
        } else {
            match Boss::from_u16(id) {
                Some(b) => {
                    proof {
                        Boss::lemma_code_determines(b, choose|c: Boss| c.code() == id);
                    }
                    Some(b.encounter())
                },
                None => None,
            }
        }
    }

    /// The game mode of this encounter.
    pub open spec fn game_mode_spec(self) -> GameMode {
        match self {
            Encounter::ValeGuardian => GameMode::Raid,
            Encounter::Gorseval => GameMode::Raid,
            Encounter::Sabetha => GameMode::Raid,
            Encounter::Slothasor => GameMode::Raid,
            Encounter::BanditTrio => GameMode::Raid,
            Encounter::Matthias => GameMode::Raid,
            Encounter::KeepConstruct => GameMode::Raid,
            Encounter::TwistedCastle => GameMode::Raid,
            Encounter::Xera => GameMode::Raid,
            Encounter::Cairn => GameMode::Raid,
            Encounter::MursaatOverseer => GameMode::Raid,
            Encounter::Samarog => GameMode::Raid,
            Encounter::Deimos => GameMode::Raid,
            Encounter::SoullessHorror => GameMode::Raid,
            Encounter::RiverOfSouls => GameMode::Raid,
            Encounter::BrokenKing => GameMode::Raid,
            Encounter::EaterOfSouls => GameMode::Raid,
            Encounter::StatueOfDarkness => GameMode::Raid,
            Encounter::VoiceInTheVoid => GameMode::Raid,
            Encounter::ConjuredAmalgamate => GameMode::Raid,
            Encounter::TwinLargos => GameMode::Raid,
            Encounter::Qadim => GameMode::Raid,
            Encounter::CardinalAdina => GameMode::Raid,
            Encounter::CardinalSabir => GameMode::Raid,
            Encounter::QadimThePeerless => GameMode::Raid,
            Encounter::StandardKittyGolem => GameMode::Golem,
            Encounter::MediumKittyGolem => GameMode::Golem,
            Encounter::LargeKittyGolem => GameMode::Golem,
            Encounter::Ai => GameMode::Fractal,
            Encounter::Skorvald => GameMode::Fractal,
            Encounter::Artsariiv => GameMode::Fractal,
            Encounter::Arkk => GameMode::Fractal,
            Encounter::MAMA => GameMode::Fractal,
            Encounter::Siax => GameMode::Fractal,
            Encounter::Ensolyss => GameMode::Fractal,
            Encounter::IcebroodConstruct => GameMode::Strike,
            Encounter::SuperKodanBrothers => GameMode::Strike,
            Encounter::FraenirOfJormag => GameMode::Strike,
            Encounter::Boneskinner => GameMode::Strike,
            Encounter::WhisperOfJormag => GameMode::Strike,
            Encounter::CaptainMaiTrin => GameMode::Strike,
            Encounter::Ankka => GameMode::Strike,
            Encounter::MinisterLi => GameMode::Strike,
            Encounter::Dragonvoid => GameMode::Strike,
        }
    }

    /// Returns the game mode of the encounter.
    ///
    /// This is one of [`GameMode::Raid`], [`GameMode::Fractal`], [`GameMode::Golem`] or
    /// [`GameMode::Strike`].
    pub fn game_mode(self) -> (r: GameMode)
        ensures
            r == self.game_mode_spec(),
    {
        match self {
            Encounter::ValeGuardian => GameMode::Raid,
            Encounter::Gorseval => GameMode::Raid,
            Encounter::Sabetha => GameMode::Raid,
            Encounter::Slothasor => GameMode::Raid,
            Encounter::BanditTrio => GameMode::Raid,
            Encounter::Matthias => GameMode::Raid,
            Encounter::KeepConstruct => GameMode::Raid,
            Encounter::TwistedCastle => GameMode::Raid,
            Encounter::Xera => GameMode::Raid,
            Encounter::Cairn => GameMode::Raid,
            Encounter::MursaatOverseer => GameMode::Raid,
            Encounter::Samarog => GameMode::Raid,
            Encounter::Deimos => GameMode::Raid,
            Encounter::SoullessHorror => GameMode::Raid,
            Encounter::RiverOfSouls => GameMode::Raid,
            Encounter::BrokenKing => GameMode::Raid,
            Encounter::EaterOfSouls => GameMode::Raid,
            Encounter::StatueOfDarkness => GameMode::Raid,
            Encounter::VoiceInTheVoid => GameMode::Raid,
            Encounter::ConjuredAmalgamate => GameMode::Raid,
            Encounter::TwinLargos => GameMode::Raid,
            Encounter::Qadim => GameMode::Raid,
            Encounter::CardinalAdina => GameMode::Raid,
            Encounter::CardinalSabir => GameMode::Raid,
            Encounter::QadimThePeerless => GameMode::Raid,
            Encounter::StandardKittyGolem => GameMode::Golem,
            Encounter::MediumKittyGolem => GameMode::Golem,
            Encounter::LargeKittyGolem => GameMode::Golem,
            Encounter::Ai => GameMode::Fractal,
            Encounter::Skorvald => GameMode::Fractal,
            Encounter::Artsariiv => GameMode::Fractal,
            Encounter::Arkk => GameMode::Fractal,
            Encounter::MAMA => GameMode::Fractal,
            Encounter::Siax => GameMode::Fractal,
            Encounter::Ensolyss => GameMode::Fractal,
            Encounter::IcebroodConstruct => GameMode::Strike,
            Encounter::SuperKodanBrothers => GameMode::Strike,
            Encounter::FraenirOfJormag => GameMode::Strike,
            Encounter::Boneskinner => GameMode::Strike,
            Encounter::WhisperOfJormag => GameMode::Strike,
            Encounter::CaptainMaiTrin => GameMode::Strike,
            Encounter::Ankka => GameMode::Strike,
            Encounter::MinisterLi => GameMode::Strike,
            Encounter::Dragonvoid => GameMode::Strike,
        }
    }

    /// The encounter that a lowercase name stands for by itself (not as the name of a boss).
    pub open spec fn from_own_name_spec(name: Seq<char>) -> Option<Encounter> {
        if name == "trio"@ || name == "bandit trio"@ {
            Some(Encounter::BanditTrio)
        } else if name == "tc"@ || name == "twisted castle"@ {
            Some(Encounter::TwistedCastle)
        } else if name == "river"@ || name == "river of souls"@ {
            Some(Encounter::RiverOfSouls)
        } else if name == "eyes"@ || name == "statue of darkness"@ {
            Some(Encounter::StatueOfDarkness)
        } else if name == "largos"@ || name == "twins"@ || name == "largos twins"@ || name == "twin largos"@ {
            Some(Encounter::TwinLargos)
        } else if name == "kodans"@ || name == "super kodan brothers"@ {
            Some(Encounter::SuperKodanBrothers)
        } else if name == "dragonvoid"@ || name == "the dragonvoid"@ {
            Some(Encounter::Dragonvoid)
        } else {
            None
        }
    }

    /// The encounter that a name stands for, ignoring case: the encounter of the boss that it
    /// names, else the encounter that it names by itself.
    pub open spec fn from_name_spec(s: Seq<char>) -> Option<Encounter> {
        match Boss::from_name_spec(lowercase(s)) {
            Some(b) => Some(b.encounter()),
            None => Encounter::from_own_name_spec(lowercase(s)),
        }
    }

    /// Parse an encounter from its name, ignoring case.
    ///
    /// Parsing an encounter is in most cases the same as parsing a boss, as the encounters map
    /// 1:1 to a boss. For the special cases where the encounter as such has a specific name
    /// (such as Twin Largos), this parses strictly more bosses (so "Kenut" would be parsed as
    /// Encounter::TwinLargos, which is fine). The special cases are then added later (so that
    /// "Twin Largos" also is parsed as Encounter::TwinLargos).
    pub fn from_name(s: &str) -> (r: Result<Encounter, ParseEncounterError>)
        ensures
            r is Ok <==> Encounter::from_name_spec(s@) is Some,
            r matches Ok(e) ==> Encounter::from_name_spec(s@) == Some(e),
            r matches Err(e) ==> e.0@ == s@,
            r matches Err(e) ==> e.message() == "Invalid encounter identifier: "@ + s@,
    {
        if let Ok(boss) = Boss::from_name(s) {
            return Ok(boss.encounter());
        }
        let lower = to_lowercase(s);
        let name = lower.as_str();
        let found = if str_eq(name, "trio") || str_eq(name, "bandit trio") {
            Some(Encounter::BanditTrio)
        } else if str_eq(name, "tc") || str_eq(name, "twisted castle") {
            Some(Encounter::TwistedCastle)
        } else if str_eq(name, "river") || str_eq(name, "river of souls") {
            Some(Encounter::RiverOfSouls)
        } else if str_eq(name, "eyes") || str_eq(name, "statue of darkness") {
            Some(Encounter::StatueOfDarkness)
        } else if str_eq(name, "largos") || str_eq(name, "twins") || str_eq(name, "largos twins") || str_eq(name, "twin largos") {
            Some(Encounter::TwinLargos)
        } else if str_eq(name, "kodans") || str_eq(name, "super kodan brothers") {
            Some(Encounter::SuperKodanBrothers)
        } else if str_eq(name, "dragonvoid") || str_eq(name, "the dragonvoid") {
            Some(Encounter::Dragonvoid)
        } else {
            None
        };
        match found {
            Some(e) => Ok(e),
            None => Err(ParseEncounterError(s.to_string())),
        }
    }

    /// The display name of this encounter.
    pub open spec fn name_spec(self) -> Seq<char> {
        match self {
            Encounter::ValeGuardian => "Vale Guardian"@,
            Encounter::Gorseval => "Gorseval"@,
            Encounter::Sabetha => "Sabetha"@,
            Encounter::Slothasor => "Slothasor"@,
            Encounter::BanditTrio => "Bandit Trio"@,
            Encounter::Matthias => "Matthias Gabrel"@,
            Encounter::KeepConstruct => "Keep Construct"@,
            Encounter::TwistedCastle => "Twisted Castle"@,
            Encounter::Xera => "Xera"@,
            Encounter::Cairn => "Cairn the Indomitable"@,
            Encounter::MursaatOverseer => "Mursaat Overseer"@,
            Encounter::Samarog => "Samarog"@,
            Encounter::Deimos => "Deimos"@,
            Encounter::SoullessHorror => "Soulless Horror"@,
            Encounter::RiverOfSouls => "River of Souls"@,
            Encounter::BrokenKing => "Broken King"@,
            Encounter::EaterOfSouls => "Eater of Souls"@,
            Encounter::StatueOfDarkness => "Statue of Darkness"@,
            Encounter::VoiceInTheVoid => "Voice in the Void"@,
            Encounter::ConjuredAmalgamate => "Conjured Amalgamate"@,
            Encounter::TwinLargos => "Twin Largos"@,
            Encounter::Qadim => "Qadim"@,
            Encounter::CardinalAdina => "Cardinal Adina"@,
            Encounter::CardinalSabir => "Cardinal Sabir"@,
            Encounter::QadimThePeerless => "Qadim the Peerless"@,
            Encounter::StandardKittyGolem => "Standard Kitty Golem"@,
            Encounter::MediumKittyGolem => "Medium Kitty Golem"@,
            Encounter::LargeKittyGolem => "Large Kitty Golem"@,
            Encounter::Ai => "Ai Keeper of the Peak"@,
            Encounter::Skorvald => "Skorvald the Shattered"@,
            Encounter::Artsariiv => "Artsariiv"@,
            Encounter::Arkk => "Arkk"@,
            Encounter::MAMA => "MAMA"@,
            Encounter::Siax => "Siax the Corrupted"@,
            Encounter::Ensolyss => "Ensolyss of the Endless Torment"@,
            Encounter::IcebroodConstruct => "Icebrood Construct"@,
            Encounter::SuperKodanBrothers => "Super Kodan Brothers"@,
            Encounter::FraenirOfJormag => "Fraenir of Jormag"@,
            Encounter::Boneskinner => "Boneskinner"@,
            Encounter::WhisperOfJormag => "Whisper of Jormag"@,
            Encounter::CaptainMaiTrin => "Captain Mai Trin"@,
            Encounter::Ankka => "Ankka"@,
            Encounter::MinisterLi => "Minister Li"@,
            Encounter::Dragonvoid => "The Dragonvoid"@,
        }
    }

    /// The display name of this encounter.
    pub fn to_string(&self) -> (r: String)
        ensures
            r@ == self.name_spec(),
    {
        match *self {
            Encounter::ValeGuardian => "Vale Guardian".to_string(),
            Encounter::Gorseval => "Gorseval".to_string(),
            Encounter::Sabetha => "Sabetha".to_string(),
            Encounter::Slothasor => "Slothasor".to_string(),
            Encounter::BanditTrio => "Bandit Trio".to_string(),
            Encounter::Matthias => "Matthias Gabrel".to_string(),
            Encounter::KeepConstruct => "Keep Construct".to_string(),
            Encounter::TwistedCastle => "Twisted Castle".to_string(),
            Encounter::Xera => "Xera".to_string(),
            Encounter::Cairn => "Cairn the Indomitable".to_string(),
            Encounter::MursaatOverseer => "Mursaat Overseer".to_string(),
            Encounter::Samarog => "Samarog".to_string(),
            Encounter::Deimos => "Deimos".to_string(),
            Encounter::SoullessHorror => "Soulless Horror".to_string(),
            Encounter::RiverOfSouls => "River of Souls".to_string(),
            Encounter::BrokenKing => "Broken King".to_string(),
            Encounter::EaterOfSouls => "Eater of Souls".to_string(),
            Encounter::StatueOfDarkness => "Statue of Darkness".to_string(),
            Encounter::VoiceInTheVoid => "Voice in the Void".to_string(),
            Encounter::ConjuredAmalgamate => "Conjured Amalgamate".to_string(),
            Encounter::TwinLargos => "Twin Largos".to_string(),
            Encounter::Qadim => "Qadim".to_string(),
            Encounter::CardinalAdina => "Cardinal Adina".to_string(),
            Encounter::CardinalSabir => "Cardinal Sabir".to_string(),
            Encounter::QadimThePeerless => "Qadim the Peerless".to_string(),
            Encounter::StandardKittyGolem => "Standard Kitty Golem".to_string(),
            Encounter::MediumKittyGolem => "Medium Kitty Golem".to_string(),
            Encounter::LargeKittyGolem => "Large Kitty Golem".to_string(),
            Encounter::Ai => "Ai Keeper of the Peak".to_string(),
            Encounter::Skorvald => "Skorvald the Shattered".to_string(),
            Encounter::Artsariiv => "Artsariiv".to_string(),
            Encounter::Arkk => "Arkk".to_string(),
            Encounter::MAMA => "MAMA".to_string(),
            Encounter::Siax => "Siax the Corrupted".to_string(),
            Encounter::Ensolyss => "Ensolyss of the Endless Torment".to_string(),
            Encounter::IcebroodConstruct => "Icebrood Construct".to_string(),
            Encounter::SuperKodanBrothers => "Super Kodan Brothers".to_string(),
            Encounter::FraenirOfJormag => "Fraenir of Jormag".to_string(),
            Encounter::Boneskinner => "Boneskinner".to_string(),
            Encounter::WhisperOfJormag => "Whisper of Jormag".to_string(),
            Encounter::CaptainMaiTrin => "Captain Mai Trin".to_string(),
            Encounter::Ankka => "Ankka".to_string(),
            Encounter::MinisterLi => "Minister Li".to_string(),
            Encounter::Dragonvoid => "The Dragonvoid".to_string(),
        }
    }
}

/// Error for when converting a string to an encounter fails.
#[derive(Debug, Clone, Hash, PartialEq, Eq)]
pub struct ParseEncounterError(pub String);

impl ParseEncounterError {
    /// The message of the error: it names the text that could not be parsed.
    pub open spec fn message(&self) -> Seq<char> {
        "Invalid encounter identifier: "@ + self.0@
    }

    /// The message of the error: it names the text that could not be parsed.
    pub fn to_string(&self) -> (r: String)
        ensures
            r@ == self.message(),
    {
        let mut message = "Invalid encounter identifier: ".to_owned();
        message.append(self.0.as_str());
        message
    }
}

impl std::str::FromStr for Encounter {
    type Err = ParseEncounterError;

    fn from_str(s: &str) -> (r: Result<Self, Self::Err>)
        ensures
            r is Ok <==> Encounter::from_name_spec(s@) is Some,
            r matches Ok(x) ==> Encounter::from_name_spec(s@) == Some(x),
            r matches Err(e) ==> e.0@ == s@,
            r matches Err(e) ==> e.message() == "Invalid encounter identifier: "@ + s@,
    {
        Encounter::from_name(s)
    }
}

/// Enum containing all boss IDs.
///
/// For a high-level event categorization, take a look at the [`Encounter`] enum. The IDs listed
/// here are for a more fine-grained control, e.g. if you specifically need to differentiate
/// between Nikare and Kenut in the Twin Largos encounter.
///
/// This enum is non-exhaustive to ensure that future bosses can be added without
/// inducing a breaking change.
#[derive(Debug, Copy, Clone, PartialEq, Eq, Hash, Structural)]
#[non_exhaustive]
pub enum Boss {
    // Wing 1
    /// Vale Guardian, first boss of Spirit Vale.
    ///
    /// [Guild Wars 2 Wiki](https://wiki.guildwars2.com/wiki/Vale_Guardian)
    ValeGuardian,
    /// Gorseval, second boss of Spirit Vale.
    ///
    /// [Guild Wars 2 Wiki](https://wiki.guildwars2.com/wiki/Gorseval_the_Multifarious)
    Gorseval,
    /// Sabetha, third boss of Spirit Vale.
    ///
    /// [Guild Wars 2 Wiki](https://wiki.guildwars2.com/wiki/Sabetha_the_Saboteur)
    Sabetha,
    // Wing 2
    /// Slothasor, first boss of Salvation Pass.
    ///
    /// [Guild Wars 2 Wiki](https://wiki.guildwars2.com/wiki/Slothasor)
    Slothasor,
    /// Berg, part of the "Bandit Trio" encounter.
    ///
    /// [Guild Wars 2 Wiki](https://wiki.guildwars2.com/wiki/Berg)
    Berg,
    /// Zane, part of the "Bandit Trio" encounter.
    ///
    /// [Guild Wars 2 Wiki](https://wiki.guildwars2.com/wiki/Zane)
    Zane,
    /// Narella, part of the "Bandit Trio" encounter.
    ///
    /// [Guild Wars 2 Wiki](https://wiki.guildwars2.com/wiki/Narella)
    Narella,
    /// Matthias, third boss of Salvation Pass.
    ///
    /// [Guild Wars 2 Wiki](https://wiki.guildwars2.com/wiki/Matthias_Gabrel)
    Matthias,
    // Wing 3
    /// Keep Construct, second boss of the Stronghold of the Faithful.
    ///
    /// [Guild Wars 2 Wiki](https://wiki.guildwars2.com/wiki/Keep_Construct)
    KeepConstruct,
    /// Xera, third boss of the Stronghold of the Faithful.
    ///
    /// [Guild Wars 2 Wiki](https://wiki.guildwars2.com/wiki/Xera)
    Xera,
    /// ID for Xera in the second phase.
    ///
    /// The original Xera will despawn, and after the tower phase, a separate spawn will take over.
    /// This new Xera will have [`Boss::Xera2`] as ID. Care needs to be taken when calculating boss
    /// damage on this encounter, as both Xeras have to be taken into account.
    Xera2,
    // Wing 4
    /// Cairn, first boss of the Bastion of the Penitent.
    ///
    /// [Guild Wars 2 Wiki](https://wiki.guildwars2.com/wiki/Cairn_the_Indomitable)
    Cairn,
    /// Mursaat Overseer, second boss of the Bastion of the Penitent.
    ///
    /// [Guild Wars 2 Wiki](https://wiki.guildwars2.com/wiki/Mursaat_Overseer)
    MursaatOverseer,
    /// Samarog, third boss of the Bastion of the Penitent.
    ///
    /// [Guild Wars 2 Wiki](https://wiki.guildwars2.com/wiki/Samarog)
    Samarog,
    /// Deimos, fourth boss of the Bastion of the Penitent.
    ///
    /// [Guild Wars 2 Wiki](https://wiki.guildwars2.com/wiki/Deimos)
    Deimos,
    // Wing 5
    /// Soulless Horror, first boss of the Hall of Chains.
    ///
    /// [Guild Wars 2 Wiki](https://wiki.guildwars2.com/wiki/Soulless_Horror)
    SoullessHorror,
    /// Broken King, part of the Statues of Grenth event in the Hall of Chains.
    ///
    /// [Guild Wars 2 Wiki](https://wiki.guildwars2.com/wiki/Broken_King)
    BrokenKing,
    /// Eater of Souls, part of the Statues of Grenth event in the Hall of Chains.
    ///
    /// [Guild Wars 2 Wiki](https://wiki.guildwars2.com/wiki/Eater_of_Souls_(Hall_of_Chains))
    EaterOfSouls,
    /// The Eye of Judgment, part of the Statue of Darkness event in the Hall of Chains.
    ///
    /// [Guild Wars 2 Wiki](https://wiki.guildwars2.com/wiki/Eye_of_Judgment)
    EyeOfJudgment,
    /// The Eye of Fate, part of the Statue of Darkness event in the Hall of Chains.
    ///
    /// [Guild Wars 2 Wiki](https://wiki.guildwars2.com/wiki/Eye_of_Fate)
    EyeOfFate,
    /// Dhuum, second boss of the Hall of Chains.
    ///
    /// The encounter to this boss is called [Voice in the Void][Encounter::VoiceInTheVoid].
    ///
    /// [Guild Wars 2 Wiki](https://wiki.guildwars2.com/wiki/Dhuum)
    Dhuum,
    // Wing 6
    /// Conjured Amalgamate, first boss of Mythwright Gambit.
    ///
    /// [Guild Wars 2 Wiki](https://wiki.guildwars2.com/wiki/Conjured_Amalgamate)
    ConjuredAmalgamate,
    /// Nikare, part of the [Twin Largos][Encounter::TwinLargos] encounter in Mythwright Gamit.
    ///
    /// [Guild Wars 2 Wiki](https://wiki.guildwars2.com/wiki/Nikare)
    Nikare,
    /// Kenut, part of the [Twin Largos][Encounter::TwinLargos] encounter in Mythwright Gamit.
    ///
    /// [Guild Wars 2 Wiki](https://wiki.guildwars2.com/wiki/Nikare)
    Kenut,
    /// Qadim, third boss in Mythwright Gambit.
    ///
    /// [Guild Wars 2 Wiki](https://wiki.guildwars2.com/wiki/Qadim)
    Qadim,
    // Wing 7
    /// Cardinal Adina, one of the first two bosses in the Key of Ahdashim.
    ///
    /// [Guild Wars 2 Wiki](https://wiki.guildwars2.com/wiki/Cardinal_Adina)
    CardinalAdina,
    /// Cardinal Sabir, one of the first two bosses in the Key of Ahdashim.
    ///
    /// [Guild Wars 2 Wiki](https://wiki.guildwars2.com/wiki/Cardinal_Sabir)
    CardinalSabir,
    /// Qadim the Peerless, third boss in the Key of Ahdashim.
    ///
    /// [Guild Wars 2 Wiki](https://wiki.guildwars2.com/wiki/Qadim_the_Peerless)
    QadimThePeerless,
    // The training area
    /// The standard training golem, available in the Special Forces Training Area.
    ///
    /// [Guild Wars 2 Wiki](https://wiki.guildwars2.com/wiki/Standard_Kitty_Golem)
    StandardKittyGolem,
    /// The medium training golem, available in the Special Forces Training Area.
    ///
    /// [Guild Wars 2 Wiki](https://wiki.guildwars2.com/wiki/Medium_Kitty_Golem)
    MediumKittyGolem,
    /// The large kitty golem available in the Special Forces Training Area.
    ///
    /// [Guild Wars 2 Wiki](https://wiki.guildwars2.com/wiki/Large_Kitty_Golem)
    LargeKittyGolem,
    // 100 CM (Sunqua Peak)
    /// Ai, Keeper of the Peak, boss of the Sunqua Peak CM fractal.
    ///
    /// [Guild Wars 2 Wiki](https://wiki.guildwars2.com/wiki/Ai,_Keeper_of_the_Peak)
    Ai,
    // 99 CM (Shattered Observatory)
    /// Skorvald the Shattered, first boss in the Shattered Observatory.
    ///
    /// [Guild Wars 2 Wiki](https://wiki.guildwars2.com/wiki/Skorvald_the_Shattered)
    Skorvald,
    /// Artsariiv, second boss in the Shattered Observatory CM.
    ///
    /// [Guild Wars 2 Wiki](https://wiki.guildwars2.com/wiki/Artsariiv)
    Artsariiv,
    /// Arkk, third boss in the Shattered Observatory.
    ///
    /// [Guild Wars 2 Wiki](https://wiki.guildwars2.com/wiki/Arkk)
    Arkk,
    // 98 CM (Nightmare)
    /// MAMA, first boss in the Nightmare CM fractal.
    ///
    /// [Guild Wars 2 Wiki](https://wiki.guildwars2.com/wiki/MAMA)
    MAMA,
    /// Siax the Corrupted, second boss in the Nightmare CM fractal.
    ///
    /// [Guild Wars 2 Wiki](https://wiki.guildwars2.com/wiki/Siax_the_Corrupted)
    Siax,
    /// Ensolyss of the Endless Torment, third boss in the Nightmare CM fractal.
    ///
    /// [Guild Wars 2 Wiki](https://wiki.guildwars2.com/wiki/Ensolyss_of_the_Endless_Torment)
    Ensolyss,
    // Strike missions
    /// Legendary Icebrood Construct, boss of the Shiverpeaks Pass strike mission.
    ///
    /// [Guild Wars 2 Wiki](https://wiki.guildwars2.com/wiki/Legendary_Icebrood_Construct)
    IcebroodConstruct,
    /// The Voice of the Fallen, part of the Voice of the Fallen and Claw of the Fallen strike
    /// mission.
    ///
    /// [Guild Wars 2 Wiki](https://wiki.guildwars2.com/wiki/Voice_of_the_Fallen)
    VoiceOfTheFallen,
    /// The Claw of the Fallen, part of the Voice of the Fallen and Claw of the Fallen strike
    /// mission.
    ///
    /// [Guild Wars 2 Wiki](https://wiki.guildwars2.com/wiki/Claw_of_the_Fallen)
    ClawOfTheFallen,
    /// The Fraenir of Jormag, boss of the Fraenir of Jormag strike mission.
    ///
    /// [Guild Wars 2 Wiki](https://wiki.guildwars2.com/wiki/Fraenir_of_Jormag)
    FraenirOfJormag,
    /// The Boneskinner, boss of the Boneskinner strike mission.
    ///
    /// [Guild Wars 2 Wiki](https://wiki.guildwars2.com/wiki/Boneskinner)
    Boneskinner,
    /// The Whisper of Jormag, boss of the Whisper of Jormag strike mission.
    ///
    /// [Guild Wars 2 Wiki](https://wiki.guildwars2.com/wiki/Whisper_of_Jormag)
    WhisperOfJormag,
    /// Captain Mai Trin, boss of the Aetherblade Hideout strike mission.
    ///
    /// [Guild Wars 2 Wiki](https://wiki.guildwars2.com/wiki/Strike_Mission:_Aetherblade_Hideout)
    CaptainMaiTrin,
    /// Ankka, boss in the Xunlai Jade Junkyard.
    ///
    /// [Guild Wars 2 Wiki](https://wiki.guildwars2.com/wiki/Strike_Mission:_Xunlai_Jade_Junkyard)
    Ankka,
    /// Minister Li, boss in the Kaineng Overlook.
    ///
    /// [Guild Wars 2 Wiki](https://wiki.guildwars2.com/wiki/Strike_Mission:_Kaineng_Overlook)
    MinisterLi,
}

impl Boss {
    /// The id of this boss.
    pub open spec fn code(self) -> u16 {
        match self {
            Boss::ValeGuardian => 0x3C4E,
            Boss::Gorseval => 0x3C45,
            Boss::Sabetha => 0x3C0F,
            Boss::Slothasor => 0x3EFB,
            Boss::Berg => 0x3ED8,
            Boss::Zane => 0x3F09,
            Boss::Narella => 0x3EFD,
            Boss::Matthias => 0x3EF3,
            Boss::KeepConstruct => 0x3F6B,
            Boss::Xera => 0x3F76,
            Boss::Xera2 => 0x3F9E,
            Boss::Cairn => 0x432A,
            Boss::MursaatOverseer => 0x4314,
            Boss::Samarog => 0x4324,
            Boss::Deimos => 0x4302,
            Boss::SoullessHorror => 0x4D37,
            Boss::BrokenKing => 0x4CEB,
            Boss::EaterOfSouls => 0x4C50,
            Boss::EyeOfJudgment => 0x4CC3,
            Boss::EyeOfFate => 0x4D84,
            Boss::Dhuum => 0x4BFA,
            Boss::ConjuredAmalgamate => 0xABC6,
            Boss::Nikare => 0x5271,
            Boss::Kenut => 0x5261,
            Boss::Qadim => 0x51C6,
            Boss::CardinalAdina => 0x55F6,
            Boss::CardinalSabir => 0x55CC,
            Boss::QadimThePeerless => 0x55F0,
            Boss::StandardKittyGolem => 0x3F47,
            Boss::MediumKittyGolem => 0x4CBD,
            Boss::LargeKittyGolem => 0x4CDC,
            Boss::Ai => 0x5AD6,
            Boss::Skorvald => 0x44E0,
            Boss::Artsariiv => 0x461D,
            Boss::Arkk => 0x455F,
            Boss::MAMA => 0x427D,
            Boss::Siax => 0x4284,
            Boss::Ensolyss => 0x4234,
            Boss::IcebroodConstruct => 0x568A,
            Boss::VoiceOfTheFallen => 0x5747,
            Boss::ClawOfTheFallen => 0x57D1,
            Boss::FraenirOfJormag => 0x57DC,
            Boss::Boneskinner => 0x57F9,
            Boss::WhisperOfJormag => 0x58B7,
            Boss::CaptainMaiTrin => 0x5DE1,
            Boss::Ankka => 0x5D95,
            Boss::MinisterLi => 0x5FA5,
        }
    }

    /// The id of this boss.
    pub fn id(self) -> (r: u16)
        ensures
            r == self.code(),
    {
        match self {
            Boss::ValeGuardian => 0x3C4E,
            Boss::Gorseval => 0x3C45,
            Boss::Sabetha => 0x3C0F,
            Boss::Slothasor => 0x3EFB,
            Boss::Berg => 0x3ED8,
            Boss::Zane => 0x3F09,
            Boss::Narella => 0x3EFD,
            Boss::Matthias => 0x3EF3,
            Boss::KeepConstruct => 0x3F6B,
            Boss::Xera => 0x3F76,
            Boss::Xera2 => 0x3F9E,
            Boss::Cairn => 0x432A,
            Boss::MursaatOverseer => 0x4314,
            Boss::Samarog => 0x4324,
            Boss::Deimos => 0x4302,
            Boss::SoullessHorror => 0x4D37,
            Boss::BrokenKing => 0x4CEB,
            Boss::EaterOfSouls => 0x4C50,
            Boss::EyeOfJudgment => 0x4CC3,
            Boss::EyeOfFate => 0x4D84,
            Boss::Dhuum => 0x4BFA,
            Boss::ConjuredAmalgamate => 0xABC6,
            Boss::Nikare => 0x5271,
            Boss::Kenut => 0x5261,
            Boss::Qadim => 0x51C6,
            Boss::CardinalAdina => 0x55F6,
            Boss::CardinalSabir => 0x55CC,
            Boss::QadimThePeerless => 0x55F0,
            Boss::StandardKittyGolem => 0x3F47,
            Boss::MediumKittyGolem => 0x4CBD,
            Boss::LargeKittyGolem => 0x4CDC,
            Boss::Ai => 0x5AD6,
            Boss::Skorvald => 0x44E0,
            Boss::Artsariiv => 0x461D,
            Boss::Arkk => 0x455F,
            Boss::MAMA => 0x427D,
            Boss::Siax => 0x4284,
            Boss::Ensolyss => 0x4234,
            Boss::IcebroodConstruct => 0x568A,
            Boss::VoiceOfTheFallen => 0x5747,
            Boss::ClawOfTheFallen => 0x57D1,
            Boss::FraenirOfJormag => 0x57DC,
            Boss::Boneskinner => 0x57F9,
            Boss::WhisperOfJormag => 0x58B7,
            Boss::CaptainMaiTrin => 0x5DE1,
            Boss::Ankka => 0x5D95,
            Boss::MinisterLi => 0x5FA5,
        }
    }

    /// Distinct bosses have distinct ids.
    pub proof fn lemma_code_determines(a: Boss, b: Boss)
        requires
            a.code() == b.code(),
        ensures
            a == b,
    {
    }

    /// The boss with the given id, if there is one.
    pub fn from_u16(id: u16) -> (r: Option<Boss>)
        ensures
            r is None ==> forall|b: Boss| b.code() != id,
            r matches Some(b) ==> b.code() == id,
    {
        match id {
            0x3C4E => Some(Boss::ValeGuardian),
            0x3C45 => Some(Boss::Gorseval),
            0x3C0F => Some(Boss::Sabetha),
            0x3EFB => Some(Boss::Slothasor),
            0x3ED8 => Some(Boss::Berg),
            0x3F09 => Some(Boss::Zane),
            0x3EFD => Some(Boss::Narella),
            0x3EF3 => Some(Boss::Matthias),
            0x3F6B => Some(Boss::KeepConstruct),
            0x3F76 => Some(Boss::Xera),
            0x3F9E => Some(Boss::Xera2),
            0x432A => Some(Boss::Cairn),
            0x4314 => Some(Boss::MursaatOverseer),
            0x4324 => Some(Boss::Samarog),
            0x4302 => Some(Boss::Deimos),
            0x4D37 => Some(Boss::SoullessHorror),
            0x4CEB => Some(Boss::BrokenKing),
            0x4C50 => Some(Boss::EaterOfSouls),
            0x4CC3 => Some(Boss::EyeOfJudgment),
            0x4D84 => Some(Boss::EyeOfFate),
            0x4BFA => Some(Boss::Dhuum),
            0xABC6 => Some(Boss::ConjuredAmalgamate),
            0x5271 => Some(Boss::Nikare),
            0x5261 => Some(Boss::Kenut),
            0x51C6 => Some(Boss::Qadim),
            0x55F6 => Some(Boss::CardinalAdina),
            0x55CC => Some(Boss::CardinalSabir),
            0x55F0 => Some(Boss::QadimThePeerless),
            0x3F47 => Some(Boss::StandardKittyGolem),
            0x4CBD => Some(Boss::MediumKittyGolem),
            0x4CDC => Some(Boss::LargeKittyGolem),
            0x5AD6 => Some(Boss::Ai),
            0x44E0 => Some(Boss::Skorvald),
            0x461D => Some(Boss::Artsariiv),
            0x455F => Some(Boss::Arkk),
            0x427D => Some(Boss::MAMA),
            0x4284 => Some(Boss::Siax),
            0x4234 => Some(Boss::Ensolyss),
            0x568A => Some(Boss::IcebroodConstruct),
            0x5747 => Some(Boss::VoiceOfTheFallen),
            0x57D1 => Some(Boss::ClawOfTheFallen),
            0x57DC => Some(Boss::FraenirOfJormag),
            0x57F9 => Some(Boss::Boneskinner),
            0x58B7 => Some(Boss::WhisperOfJormag),
            0x5DE1 => Some(Boss::CaptainMaiTrin),
            0x5D95 => Some(Boss::Ankka),
            0x5FA5 => Some(Boss::MinisterLi),
            _ => None,
        }
    }

    /// The encounter in which this boss appears.
    pub open spec fn encounter_spec(self) -> Encounter {
        match self {
            Boss::ValeGuardian => Encounter::ValeGuardian,
            Boss::Gorseval => Encounter::Gorseval,
            Boss::Sabetha => Encounter::Sabetha,
            Boss::Slothasor => Encounter::Slothasor,
            Boss::Berg => Encounter::BanditTrio,
            Boss::Zane => Encounter::BanditTrio,
            Boss::Narella => Encounter::BanditTrio,
            Boss::Matthias => Encounter::Matthias,
            Boss::KeepConstruct => Encounter::KeepConstruct,
            Boss::Xera => Encounter::Xera,
            Boss::Xera2 => Encounter::Xera,
            Boss::Cairn => Encounter::Cairn,
            Boss::MursaatOverseer => Encounter::MursaatOverseer,
            Boss::Samarog => Encounter::Samarog,
            Boss::Deimos => Encounter::Deimos,
            Boss::SoullessHorror => Encounter::SoullessHorror,
            Boss::BrokenKing => Encounter::BrokenKing,
            Boss::EaterOfSouls => Encounter::EaterOfSouls,
            Boss::EyeOfJudgment => Encounter::StatueOfDarkness,
            Boss::EyeOfFate => Encounter::StatueOfDarkness,
            Boss::Dhuum => Encounter::VoiceInTheVoid,
            Boss::ConjuredAmalgamate => Encounter::ConjuredAmalgamate,
            Boss::Nikare => Encounter::TwinLargos,
            Boss::Kenut => Encounter::TwinLargos,
            Boss::Qadim => Encounter::Qadim,
            Boss::CardinalAdina => Encounter::CardinalAdina,
            Boss::CardinalSabir => Encounter::CardinalSabir,
            Boss::QadimThePeerless => Encounter::QadimThePeerless,
            Boss::StandardKittyGolem => Encounter::StandardKittyGolem,
            Boss::MediumKittyGolem => Encounter::MediumKittyGolem,
            Boss::LargeKittyGolem => Encounter::LargeKittyGolem,
            Boss::Ai => Encounter::Ai,
            Boss::Skorvald => Encounter::Skorvald,
            Boss::Artsariiv => Encounter::Artsariiv,
            Boss::Arkk => Encounter::Arkk,
            Boss::MAMA => Encounter::MAMA,
            Boss::Siax => Encounter::Siax,
            Boss::Ensolyss => Encounter::Ensolyss,
            Boss::IcebroodConstruct => Encounter::IcebroodConstruct,
            Boss::VoiceOfTheFallen => Encounter::SuperKodanBrothers,
            Boss::ClawOfTheFallen => Encounter::SuperKodanBrothers,
            Boss::FraenirOfJormag => Encounter::FraenirOfJormag,
            Boss::Boneskinner => Encounter::Boneskinner,
            Boss::WhisperOfJormag => Encounter::WhisperOfJormag,
            Boss::CaptainMaiTrin => Encounter::CaptainMaiTrin,
            Boss::Ankka => Encounter::Ankka,
            Boss::MinisterLi => Encounter::MinisterLi,
        }
    }

    /// Get the encounter ID in which this boss can appear.
    ///
    /// This is the counterpart to [`Encounter::bosses`].
    #[verifier::when_used_as_spec(encounter_spec)]
    pub fn encounter(self) -> (r: Encounter)
        ensures
            r == self.encounter_spec(),
    {
        match self {
            Boss::ValeGuardian => Encounter::ValeGuardian,
            Boss::Gorseval => Encounter::Gorseval,
            Boss::Sabetha => Encounter::Sabetha,
            Boss::Slothasor => Encounter::Slothasor,
            Boss::Berg => Encounter::BanditTrio,
            Boss::Zane => Encounter::BanditTrio,
            Boss::Narella => Encounter::BanditTrio,
            Boss::Matthias => Encounter::Matthias,
            Boss::KeepConstruct => Encounter::KeepConstruct,
            Boss::Xera => Encounter::Xera,
            Boss::Xera2 => Encounter::Xera,
            Boss::Cairn => Encounter::Cairn,
            Boss::MursaatOverseer => Encounter::MursaatOverseer,
            Boss::Samarog => Encounter::Samarog,
            Boss::Deimos => Encounter::Deimos,
            Boss::SoullessHorror => Encounter::SoullessHorror,
            Boss::BrokenKing => Encounter::BrokenKing,
            Boss::EaterOfSouls => Encounter::EaterOfSouls,
            Boss::EyeOfJudgment => Encounter::StatueOfDarkness,
            Boss::EyeOfFate => Encounter::StatueOfDarkness,
            Boss::Dhuum => Encounter::VoiceInTheVoid,
            Boss::ConjuredAmalgamate => Encounter::ConjuredAmalgamate,
            Boss::Nikare => Encounter::TwinLargos,
            Boss::Kenut => Encounter::TwinLargos,
            Boss::Qadim => Encounter::Qadim,
            Boss::CardinalAdina => Encounter::CardinalAdina,
            Boss::CardinalSabir => Encounter::CardinalSabir,
            Boss::QadimThePeerless => Encounter::QadimThePeerless,
            Boss::StandardKittyGolem => Encounter::StandardKittyGolem,
            Boss::MediumKittyGolem => Encounter::MediumKittyGolem,
            Boss::LargeKittyGolem => Encounter::LargeKittyGolem,
            Boss::Ai => Encounter::Ai,
            Boss::Skorvald => Encounter::Skorvald,
            Boss::Artsariiv => Encounter::Artsariiv,
            Boss::Arkk => Encounter::Arkk,
            Boss::MAMA => Encounter::MAMA,
            Boss::Siax => Encounter::Siax,
            Boss::Ensolyss => Encounter::Ensolyss,
            Boss::IcebroodConstruct => Encounter::IcebroodConstruct,
            Boss::VoiceOfTheFallen => Encounter::SuperKodanBrothers,
            Boss::ClawOfTheFallen => Encounter::SuperKodanBrothers,
            Boss::FraenirOfJormag => Encounter::FraenirOfJormag,
            Boss::Boneskinner => Encounter::Boneskinner,
            Boss::WhisperOfJormag => Encounter::WhisperOfJormag,
            Boss::CaptainMaiTrin => Encounter::CaptainMaiTrin,
            Boss::Ankka => Encounter::Ankka,
            Boss::MinisterLi => Encounter::MinisterLi,
        }
    }

    /// The boss that a lowercase name stands for, if any.
    pub open spec fn from_name_spec(name: Seq<char>) -> Option<Boss> {
        if name == "vg"@ || name == "vale guardian"@ {
            Some(Boss::ValeGuardian)
        } else if name == "gorse"@ || name == "gorseval"@ {
            Some(Boss::Gorseval)
        } else if name == "sab"@ || name == "sabetha"@ {
            Some(Boss::Sabetha)
        } else if name == "sloth"@ || name == "slothasor"@ {
            Some(Boss::Slothasor)
        } else if name == "berg"@ {
            Some(Boss::Berg)
        } else if name == "zane"@ {
            Some(Boss::Zane)
        } else if name == "narella"@ {
            Some(Boss::Narella)
        } else if name == "matthias"@ {
            Some(Boss::Matthias)
        } else if name == "kc"@ || name == "keep construct"@ {
            Some(Boss::KeepConstruct)
        } else if name == "xera"@ {
            Some(Boss::Xera)
        } else if name == "cairn"@ {
            Some(Boss::Cairn)
        } else if name == "mo"@ || name == "mursaat overseer"@ {
            Some(Boss::MursaatOverseer)
        } else if name == "sam"@ || name == "sama"@ || name == "samarog"@ {
            Some(Boss::Samarog)
        } else if name == "deimos"@ {
            Some(Boss::Deimos)
        } else if name == "desmina"@ || name == "sh"@ || name == "soulless horror"@ {
            Some(Boss::SoullessHorror)
        } else if name == "broken king"@ {
            Some(Boss::BrokenKing)
        } else if name == "eater"@ || name == "eater of souls"@ {
            Some(Boss::EaterOfSouls)
        } else if name == "eye of judgment"@ {
            Some(Boss::EyeOfJudgment)
        } else if name == "eye of fate"@ {
            Some(Boss::EyeOfFate)
        } else if name == "dhuum"@ || name == "voice in the void"@ {
            Some(Boss::Dhuum)
        } else if name == "ca"@ || name == "conjured amalgamate"@ {
            Some(Boss::ConjuredAmalgamate)
        } else if name == "nikare"@ {
            Some(Boss::Nikare)
        } else if name == "kenut"@ {
            Some(Boss::Kenut)
        } else if name == "qadim"@ {
            Some(Boss::Qadim)
        } else if name == "adina"@ || name == "cardinal adina"@ {
            Some(Boss::CardinalAdina)
        } else if name == "sabir"@ || name == "cardinal sabir"@ {
            Some(Boss::CardinalSabir)
        } else if name == "qadimp"@ || name == "peerless qadim"@ || name == "qadim the peerless"@ {
            Some(Boss::QadimThePeerless)
        } else if name == "standard golem"@ || name == "standard kitty golem"@ {
            Some(Boss::StandardKittyGolem)
        } else if name == "medium golem"@ || name == "medium kitty golem"@ {
            Some(Boss::MediumKittyGolem)
        } else if name == "large golem"@ || name == "large kitty golem"@ {
            Some(Boss::LargeKittyGolem)
        } else if name == "ai"@ || name == "ai keeper of the peak"@ {
            Some(Boss::Ai)
        } else if name == "skorvald"@ {
            Some(Boss::Skorvald)
        } else if name == "artsariiv"@ {
            Some(Boss::Artsariiv)
        } else if name == "arkk"@ {
            Some(Boss::Arkk)
        } else if name == "mama"@ {
            Some(Boss::MAMA)
        } else if name == "siax"@ {
            Some(Boss::Siax)
        } else if name == "ensolyss"@ || name == "ensolyss of the endless torment"@ {
            Some(Boss::Ensolyss)
        } else if name == "icebrood"@ || name == "icebrood construct"@ {
            Some(Boss::IcebroodConstruct)
        } else if name == "voice"@ || name == "voice of the fallen"@ {
            Some(Boss::VoiceOfTheFallen)
        } else if name == "claw"@ || name == "claw of the fallen"@ {
            Some(Boss::ClawOfTheFallen)
        } else if name == "fraenir"@ || name == "fraenir of jormag"@ {
            Some(Boss::FraenirOfJormag)
        } else if name == "boneskinner"@ {
            Some(Boss::Boneskinner)
        } else if name == "whisper"@ || name == "whisper of jormag"@ {
            Some(Boss::WhisperOfJormag)
        } else if name == "captain mai trin"@ || name == "mai trin"@ || name == "mai"@ {
            Some(Boss::CaptainMaiTrin)
        } else if name == "ankka"@ {
            Some(Boss::Ankka)
        } else if name == "minister li"@ || name == "li"@ {
            Some(Boss::MinisterLi)
        } else {
            None
        }
    }

    /// Parse a boss from its name, ignoring case.
    pub fn from_name(s: &str) -> (r: Result<Boss, ParseBossError>)
        ensures
            r is Ok <==> Boss::from_name_spec(lowercase(s@)) is Some,
            r matches Ok(b) ==> Boss::from_name_spec(lowercase(s@)) == Some(b),
            r matches Err(e) ==> e.0@ == s@,
            is_ascii_text(s@) ==> (r is Ok <==> Boss::from_name_spec(ascii_lower(s@)) is Some),
            is_ascii_text(s@) ==> (r matches Ok(b) ==> Boss::from_name_spec(ascii_lower(s@)) == Some(b)),
            r matches Err(e) ==> e.message() == "Invalid boss identifier: "@ + s@,
    {
        let lower = to_lowercase(s);
        let name = lower.as_str();
        let found = if str_eq(name, "vg") || str_eq(name, "vale guardian") {
            Some(Boss::ValeGuardian)
        } else if str_eq(name, "gorse") || str_eq(name, "gorseval") {
            Some(Boss::Gorseval)
        } else if str_eq(name, "sab") || str_eq(name, "sabetha") {
            Some(Boss::Sabetha)
        } else if str_eq(name, "sloth") || str_eq(name, "slothasor") {
            Some(Boss::Slothasor)
        } else if str_eq(name, "berg") {
            Some(Boss::Berg)
        } else if str_eq(name, "zane") {
            Some(Boss::Zane)
        } else if str_eq(name, "narella") {
            Some(Boss::Narella)
        } else if str_eq(name, "matthias") {
            Some(Boss::Matthias)
        } else if str_eq(name, "kc") || str_eq(name, "keep construct") {
            Some(Boss::KeepConstruct)
        } else if str_eq(name, "xera") {
            Some(Boss::Xera)
        } else if str_eq(name, "cairn") {
            Some(Boss::Cairn)
        } else if str_eq(name, "mo") || str_eq(name, "mursaat overseer") {
            Some(Boss::MursaatOverseer)
        } else if str_eq(name, "sam") || str_eq(name, "sama") || str_eq(name, "samarog") {
            Some(Boss::Samarog)
        } else if str_eq(name, "deimos") {
            Some(Boss::Deimos)
        } else if str_eq(name, "desmina") || str_eq(name, "sh") || str_eq(name, "soulless horror") {
            Some(Boss::SoullessHorror)
        } else if str_eq(name, "broken king") {
            Some(Boss::BrokenKing)
        } else if str_eq(name, "eater") || str_eq(name, "eater of souls") {
            Some(Boss::EaterOfSouls)
        } else if str_eq(name, "eye of judgment") {
            Some(Boss::EyeOfJudgment)
        } else if str_eq(name, "eye of fate") {
            Some(Boss::EyeOfFate)
        } else if str_eq(name, "dhuum") || str_eq(name, "voice in the void") {
            Some(Boss::Dhuum)
        } else if str_eq(name, "ca") || str_eq(name, "conjured amalgamate") {
            Some(Boss::ConjuredAmalgamate)
        } else if str_eq(name, "nikare") {
            Some(Boss::Nikare)
        } else if str_eq(name, "kenut") {
            Some(Boss::Kenut)
        } else if str_eq(name, "qadim") {
            Some(Boss::Qadim)
        } else if str_eq(name, "adina") || str_eq(name, "cardinal adina") {
            Some(Boss::CardinalAdina)
        } else if str_eq(name, "sabir") || str_eq(name, "cardinal sabir") {
            Some(Boss::CardinalSabir)
        } else if str_eq(name, "qadimp") || str_eq(name, "peerless qadim") || str_eq(name, "qadim the peerless") {
            Some(Boss::QadimThePeerless)
        } else if str_eq(name, "standard golem") || str_eq(name, "standard kitty golem") {
            Some(Boss::StandardKittyGolem)
        } else if str_eq(name, "medium golem") || str_eq(name, "medium kitty golem") {
            Some(Boss::MediumKittyGolem)
        } else if str_eq(name, "large golem") || str_eq(name, "large kitty golem") {
            Some(Boss::LargeKittyGolem)
        } else if str_eq(name, "ai") || str_eq(name, "ai keeper of the peak") {
            Some(Boss::Ai)
        } else if str_eq(name, "skorvald") {
            Some(Boss::Skorvald)
        } else if str_eq(name, "artsariiv") {
            Some(Boss::Artsariiv)
        } else if str_eq(name, "arkk") {
            Some(Boss::Arkk)
        } else if str_eq(name, "mama") {
            Some(Boss::MAMA)
        } else if str_eq(name, "siax") {
            Some(Boss::Siax)
        } else if str_eq(name, "ensolyss") || str_eq(name, "ensolyss of the endless torment") {
            Some(Boss::Ensolyss)
        } else if str_eq(name, "icebrood") || str_eq(name, "icebrood construct") {
            Some(Boss::IcebroodConstruct)
        } else if str_eq(name, "voice") || str_eq(name, "voice of the fallen") {
            Some(Boss::VoiceOfTheFallen)
        } else if str_eq(name, "claw") || str_eq(name, "claw of the fallen") {
            Some(Boss::ClawOfTheFallen)
        } else if str_eq(name, "fraenir") || str_eq(name, "fraenir of jormag") {
            Some(Boss::FraenirOfJormag)
        } else if str_eq(name, "boneskinner") {
            Some(Boss::Boneskinner)
        } else if str_eq(name, "whisper") || str_eq(name, "whisper of jormag") {
            Some(Boss::WhisperOfJormag)
        } else if str_eq(name, "captain mai trin") || str_eq(name, "mai trin") || str_eq(name, "mai") {
            Some(Boss::CaptainMaiTrin)
        } else if str_eq(name, "ankka") {
            Some(Boss::Ankka)
        } else if str_eq(name, "minister li") || str_eq(name, "li") {
            Some(Boss::MinisterLi)
        } else {
            None
        };
        match found {
            Some(b) => Ok(b),
            None => Err(ParseBossError(s.to_string())),
        }
    }

    /// The display name of this boss.
    pub open spec fn name_spec(self) -> Seq<char> {
        match self {
            Boss::ValeGuardian => "Vale Guardian"@,
            Boss::Gorseval => "Gorseval"@,
            Boss::Sabetha => "Sabetha"@,
            Boss::Slothasor => "Slothasor"@,
            Boss::Berg => "Berg"@,
            Boss::Zane => "Zane"@,
            Boss::Narella => "Narella"@,
            Boss::Matthias => "Matthias Gabrel"@,
            Boss::KeepConstruct => "Keep Construct"@,
            Boss::Xera => "Xera"@,
            Boss::Xera2 => "Xera"@,
            Boss::Cairn => "Cairn the Indomitable"@,
            Boss::MursaatOverseer => "Mursaat Overseer"@,
            Boss::Samarog => "Samarog"@,
            Boss::Deimos => "Deimos"@,
            Boss::SoullessHorror => "Soulless Horror"@,
            Boss::BrokenKing => "Broken King"@,
            Boss::EaterOfSouls => "Eater of Souls"@,
            Boss::EyeOfJudgment => "Eye of Judgment"@,
            Boss::EyeOfFate => "Eye of Fate"@,
            Boss::Dhuum => "Dhuum"@,
            Boss::ConjuredAmalgamate => "Conjured Amalgamate"@,
            Boss::Nikare => "Nikare"@,
            Boss::Kenut => "Kenut"@,
            Boss::Qadim => "Qadim"@,
            Boss::CardinalAdina => "Cardinal Adina"@,
            Boss::CardinalSabir => "Cardinal Sabir"@,
            Boss::QadimThePeerless => "Qadim the Peerless"@,
            Boss::StandardKittyGolem => "Standard Kitty Golem"@,
            Boss::MediumKittyGolem => "Medium Kitty Golem"@,
            Boss::LargeKittyGolem => "Large Kitty Golem"@,
            Boss::Ai => "Ai Keeper of the Peak"@,
            Boss::Skorvald => "Skorvald the Shattered"@,
            Boss::Artsariiv => "Artsariiv"@,
            Boss::Arkk => "Arkk"@,
            Boss::MAMA => "MAMA"@,
            Boss::Siax => "Siax the Corrupted"@,
            Boss::Ensolyss => "Ensolyss of the Endless Torment"@,
            Boss::IcebroodConstruct => "Icebrood Construct"@,
            Boss::VoiceOfTheFallen => "Voice of the Fallen"@,
            Boss::ClawOfTheFallen => "Claw of the Fallen"@,
            Boss::FraenirOfJormag => "Fraenir of Jormag"@,
            Boss::Boneskinner => "Boneskinner"@,
            Boss::WhisperOfJormag => "Whisper of Jormag"@,
            Boss::CaptainMaiTrin => "Captain Mai Trin"@,
            Boss::Ankka => "Ankka"@,
            Boss::MinisterLi => "Minister Li"@,
        }
    }

    /// The display name of this boss.
    pub fn to_string(&self) -> (r: String)
        ensures
            r@ == self.name_spec(),
    {
        match *self {
            Boss::ValeGuardian => "Vale Guardian".to_string(),
            Boss::Gorseval => "Gorseval".to_string(),
            Boss::Sabetha => "Sabetha".to_string(),
            Boss::Slothasor => "Slothasor".to_string(),
            Boss::Berg => "Berg".to_string(),
            Boss::Zane => "Zane".to_string(),
            Boss::Narella => "Narella".to_string(),
            Boss::Matthias => "Matthias Gabrel".to_string(),
            Boss::KeepConstruct => "Keep Construct".to_string(),
            Boss::Xera => "Xera".to_string(),
            Boss::Xera2 => "Xera".to_string(),
            Boss::Cairn => "Cairn the Indomitable".to_string(),
            Boss::MursaatOverseer => "Mursaat Overseer".to_string(),
            Boss::Samarog => "Samarog".to_string(),
            Boss::Deimos => "Deimos".to_string(),
            Boss::SoullessHorror => "Soulless Horror".to_string(),
            Boss::BrokenKing => "Broken King".to_string(),
            Boss::EaterOfSouls => "Eater of Souls".to_string(),
            Boss::EyeOfJudgment => "Eye of Judgment".to_string(),
            Boss::EyeOfFate => "Eye of Fate".to_string(),
            Boss::Dhuum => "Dhuum".to_string(),
            Boss::ConjuredAmalgamate => "Conjured Amalgamate".to_string(),
            Boss::Nikare => "Nikare".to_string(),
            Boss::Kenut => "Kenut".to_string(),
            Boss::Qadim => "Qadim".to_string(),
            Boss::CardinalAdina => "Cardinal Adina".to_string(),
            Boss::CardinalSabir => "Cardinal Sabir".to_string(),
            Boss::QadimThePeerless => "Qadim the Peerless".to_string(),
            Boss::StandardKittyGolem => "Standard Kitty Golem".to_string(),
            Boss::MediumKittyGolem => "Medium Kitty Golem".to_string(),
            Boss::LargeKittyGolem => "Large Kitty Golem".to_string(),
            Boss::Ai => "Ai Keeper of the Peak".to_string(),
            Boss::Skorvald => "Skorvald the Shattered".to_string(),
            Boss::Artsariiv => "Artsariiv".to_string(),
            Boss::Arkk => "Arkk".to_string(),
            Boss::MAMA => "MAMA".to_string(),
            Boss::Siax => "Siax the Corrupted".to_string(),
            Boss::Ensolyss => "Ensolyss of the Endless Torment".to_string(),
            Boss::IcebroodConstruct => "Icebrood Construct".to_string(),
            Boss::VoiceOfTheFallen => "Voice of the Fallen".to_string(),
            Boss::ClawOfTheFallen => "Claw of the Fallen".to_string(),
            Boss::FraenirOfJormag => "Fraenir of Jormag".to_string(),
            Boss::Boneskinner => "Boneskinner".to_string(),
            Boss::WhisperOfJormag => "Whisper of Jormag".to_string(),
            Boss::CaptainMaiTrin => "Captain Mai Trin".to_string(),
            Boss::Ankka => "Ankka".to_string(),
            Boss::MinisterLi => "Minister Li".to_string(),
        }
    }
}

/// Error for when converting a string to an encounter fails.
#[derive(Debug, Clone, Hash, PartialEq, Eq)]
pub struct ParseBossError(pub String);

impl ParseBossError {
    /// The message of the error: it names the text that could not be parsed.
    pub open spec fn message(&self) -> Seq<char> {
        "Invalid boss identifier: "@ + self.0@
    }

    /// The message of the error: it names the text that could not be parsed.
    pub fn to_string(&self) -> (r: String)
        ensures
            r@ == self.message(),
    {
        let mut message = "Invalid boss identifier: ".to_owned();
        message.append(self.0.as_str());
        message
    }
}

impl std::str::FromStr for Boss {
    type Err = ParseBossError;

    fn from_str(s: &str) -> (r: Result<Self, Self::Err>)
        ensures
            r is Ok <==> Boss::from_name_spec(lowercase(s@)) is Some,
            r matches Ok(x) ==> Boss::from_name_spec(lowercase(s@)) == Some(x),
            r matches Err(e) ==> e.0@ == s@,
            is_ascii_text(s@) ==> (r is Ok <==> Boss::from_name_spec(ascii_lower(s@)) is Some),
            is_ascii_text(s@) ==> (r matches Ok(x) ==> Boss::from_name_spec(ascii_lower(s@)) == Some(x)),
            r matches Err(e) ==> e.message() == "Invalid boss identifier: "@ + s@,
    {
        Boss::from_name(s)
    }
}

/// Error for when converting a string to a profession fails.
#[derive(Debug, Clone, PartialEq, Eq, Hash)]
pub struct ParseProfessionError(pub String);

impl ParseProfessionError {
    /// The message of the error: it names the text that could not be parsed.
    pub open spec fn message(&self) -> Seq<char> {
        "Invalid profession identifier: "@ + self.0@
    }

    /// The message of the error: it names the text that could not be parsed.
    pub fn to_string(&self) -> (r: String)
        ensures
            r@ == self.message(),
    {
        let mut message = "Invalid profession identifier: ".to_owned();
        message.append(self.0.as_str());
        message
    }
}

/// An in-game profession.
///
/// This only contains the 9 base professions. For elite specializations, see
/// [`EliteSpec`][EliteSpec].
#[derive(Debug, Copy, Clone, Hash, PartialEq, Eq, Structural)]
pub enum Profession {
    /// The Guardian profession.
    Guardian,
    /// The Warrior profession.
    Warrior,
    /// The Engineer profession.
    Engineer,
    /// The Ranger profession.
    Ranger,
    /// The Thief profession.
    Thief,
    /// The Elementalist profession.
    Elementalist,
    /// The Mesmer profession.
    Mesmer,
    /// The Necromancer profession.
    Necromancer,
    /// The Revenant profession.
    Revenant,
}

impl Profession {
    /// The id of this profession.
    pub open spec fn code(self) -> u32 {
        match self {
            Profession::Guardian => 1,
            Profession::Warrior => 2,
            Profession::Engineer => 3,
            Profession::Ranger => 4,
            Profession::Thief => 5,
            Profession::Elementalist => 6,
            Profession::Mesmer => 7,
            Profession::Necromancer => 8,
            Profession::Revenant => 9,
        }
    }

    /// The id of this profession.
    pub fn id(self) -> (r: u32)
        ensures
            r == self.code(),
    {
        match self {
            Profession::Guardian => 1,
            Profession::Warrior => 2,
            Profession::Engineer => 3,
            Profession::Ranger => 4,
            Profession::Thief => 5,
            Profession::Elementalist => 6,
            Profession::Mesmer => 7,
            Profession::Necromancer => 8,
            Profession::Revenant => 9,
        }
    }

    /// The profession with the given id, if there is one.
    pub fn from_u32(id: u32) -> (r: Option<Profession>)
        ensures
            r is Some <==> 1 <= id <= 9,
            r matches Some(p) ==> p.code() == id,
    {
        match id {
            1 => Some(Profession::Guardian),
            2 => Some(Profession::Warrior),
            3 => Some(Profession::Engineer),
            4 => Some(Profession::Ranger),
            5 => Some(Profession::Thief),
            6 => Some(Profession::Elementalist),
            7 => Some(Profession::Mesmer),
            8 => Some(Profession::Necromancer),
            9 => Some(Profession::Revenant),
            _ => None,
        }
    }

    /// The profession that a lowercase name stands for, if any.
    pub open spec fn from_name_spec(name: Seq<char>) -> Option<Profession> {
        if name == "guardian"@ {
            Some(Profession::Guardian)
        } else if name == "warrior"@ {
            Some(Profession::Warrior)
        } else if name == "engineer"@ {
            Some(Profession::Engineer)
        } else if name == "ranger"@ {
            Some(Profession::Ranger)
        } else if name == "thief"@ {
            Some(Profession::Thief)
        } else if name == "elementalist"@ {
            Some(Profession::Elementalist)
        } else if name == "mesmer"@ {
            Some(Profession::Mesmer)
        } else if name == "necromancer"@ {
            Some(Profession::Necromancer)
        } else if name == "revenant"@ {
            Some(Profession::Revenant)
        } else {
            None
        }
    }

    /// Parse a profession from its name, ignoring case.
    pub fn from_name(s: &str) -> (r: Result<Profession, ParseProfessionError>)
        ensures
            r is Ok <==> Profession::from_name_spec(lowercase(s@)) is Some,
            r matches Ok(p) ==> Profession::from_name_spec(lowercase(s@)) == Some(p),
            r matches Err(e) ==> e.0@ == s@,
            is_ascii_text(s@) ==> (r is Ok <==> Profession::from_name_spec(ascii_lower(s@)) is Some),
            is_ascii_text(s@) ==> (r matches Ok(p) ==> Profession::from_name_spec(ascii_lower(s@)) == Some(p)),
            r matches Err(e) ==> e.message() == "Invalid profession identifier: "@ + s@,
    {
        let lower = to_lowercase(s);
        let name = lower.as_str();
        let found = if str_eq(name, "guardian") {
            Some(Profession::Guardian)
        } else if str_eq(name, "warrior") {
            Some(Profession::Warrior)
        } else if str_eq(name, "engineer") {
            Some(Profession::Engineer)
        } else if str_eq(name, "ranger") {
            Some(Profession::Ranger)
        } else if str_eq(name, "thief") {
            Some(Profession::Thief)
        } else if str_eq(name, "elementalist") {
            Some(Profession::Elementalist)
        } else if str_eq(name, "mesmer") {
            Some(Profession::Mesmer)
        } else if str_eq(name, "necromancer") {
            Some(Profession::Necromancer)
        } else if str_eq(name, "revenant") {
            Some(Profession::Revenant)
        } else {
            None
        };
        match found {
            Some(p) => Ok(p),
            None => Err(ParseProfessionError(s.to_string())),
        }
    }

    /// The display name of this profession.
    pub open spec fn name_spec(self) -> Seq<char> {
        match self {
            Profession::Guardian => "Guardian"@,
            Profession::Warrior => "Warrior"@,
            Profession::Engineer => "Engineer"@,
            Profession::Ranger => "Ranger"@,
            Profession::Thief => "Thief"@,
            Profession::Elementalist => "Elementalist"@,
            Profession::Mesmer => "Mesmer"@,
            Profession::Necromancer => "Necromancer"@,
            Profession::Revenant => "Revenant"@,
        }
    }

    /// The display name of this profession.
    pub fn to_string(&self) -> (r: String)
        ensures
            r@ == self.name_spec(),
    {
        match *self {
            Profession::Guardian => "Guardian".to_string(),
            Profession::Warrior => "Warrior".to_string(),
            Profession::Engineer => "Engineer".to_string(),
            Profession::Ranger => "Ranger".to_string(),
            Profession::Thief => "Thief".to_string(),
            Profession::Elementalist => "Elementalist".to_string(),
            Profession::Mesmer => "Mesmer".to_string(),
            Profession::Necromancer => "Necromancer".to_string(),
            Profession::Revenant => "Revenant".to_string(),
        }
    }
}

impl std::str::FromStr for Profession {
    type Err = ParseProfessionError;

    fn from_str(s: &str) -> (r: Result<Self, Self::Err>)
        ensures
            r is Ok <==> Profession::from_name_spec(lowercase(s@)) is Some,
            r matches Ok(x) ==> Profession::from_name_spec(lowercase(s@)) == Some(x),
            r matches Err(e) ==> e.0@ == s@,
            is_ascii_text(s@) ==> (r is Ok <==> Profession::from_name_spec(ascii_lower(s@)) is Some),
            is_ascii_text(s@) ==> (r matches Ok(x) ==> Profession::from_name_spec(ascii_lower(s@)) == Some(x)),
            r matches Err(e) ==> e.message() == "Invalid profession identifier: "@ + s@,
    {
        Profession::from_name(s)
    }
}

/// Error for when converting a string to an elite specialization fails.
#[derive(Debug, Clone, PartialEq, Eq, Hash)]
pub struct ParseEliteSpecError(pub String);

impl ParseEliteSpecError {
    /// The message of the error: it names the text that could not be parsed.
    pub open spec fn message(&self) -> Seq<char> {
        "Invalid elite specialization identifier: "@ + self.0@
    }

    /// The message of the error: it names the text that could not be parsed.
    pub fn to_string(&self) -> (r: String)
        ensures
            r@ == self.message(),
    {
        let mut message = "Invalid elite specialization identifier: ".to_owned();
        message.append(self.0.as_str());
        message
    }
}

/// All possible elite specializations.
///
/// Note that the id of each variant (see `id()`) is the specialization ID in the API as well.
/// See [the official wiki](https://wiki.guildwars2.com/wiki/API:2/specializations) for more
/// information regarding the API usage.
#[derive(Debug, Copy, Clone, Hash, PartialEq, Eq, Structural)]
pub enum EliteSpec {
    // Heart of Thorns elites:
    /// The Dragonhunter elite specialization.
    Dragonhunter,
    /// The Berserker elite specialization.
    Berserker,
    /// The Scrapper elite specialization.
    Scrapper,
    /// The Druid elite specialization.
    Druid,
    /// The Daredevil elite specialization.
    Daredevil,
    /// The Tempest elite specialization.
    Tempest,
    /// The Chronomancer elite specialization.
    Chronomancer,
    /// The Reaper elite specialization.
    Reaper,
    /// The Herald elite specialization.
    Herald,

    // Path of Fire elites:
    /// The Firebrand elite specialization.
    Firebrand,
    /// The Spellbreaker elite specialization.
    Spellbreaker,
    /// The Holosmith elite specialization.
    Holosmith,
    /// The Soulbeast elite specialization.
    Soulbeast,
    /// The Deadeye elite specialization.
    Deadeye,
    /// The Weaver elite specialization.
    Weaver,
    /// The Mirage elite specialization.
    Mirage,
    /// The Scourge elite specialization.
    Scourge,
    /// The Renegade elite specialization.
    Renegade,

    // End of Dragons elites:
    /// The Willbender elite specialization.
    Willbender,
    /// The Bladesworn elite specialization.
    Bladesworn,
    /// The Mechanist elite specialization.
    Mechanist,
    /// The Untamed elite specialization.
    Untamed,
    /// The Specter elite specialization.
    Specter,
    /// The Catalyst elite specialization.
    Catalyst,
    /// The Virtuoso elite specialization.
    Virtuoso,
    /// The Harbinger elite specialization.
    Harbinger,
    /// The Vindicator elite specialization.
    Vindicator,
}

impl EliteSpec {
    /// The id of this elite specialization.
    pub open spec fn code(self) -> u32 {
        match self {
            EliteSpec::Dragonhunter => 27,
            EliteSpec::Berserker => 18,
            EliteSpec::Scrapper => 43,
            EliteSpec::Druid => 5,
            EliteSpec::Daredevil => 7,
            EliteSpec::Tempest => 48,
            EliteSpec::Chronomancer => 40,
            EliteSpec::Reaper => 34,
            EliteSpec::Herald => 52,
            EliteSpec::Firebrand => 62,
            EliteSpec::Spellbreaker => 61,
            EliteSpec::Holosmith => 57,
            EliteSpec::Soulbeast => 55,
            EliteSpec::Deadeye => 58,
            EliteSpec::Weaver => 56,
            EliteSpec::Mirage => 59,
            EliteSpec::Scourge => 60,
            EliteSpec::Renegade => 63,
            EliteSpec::Willbender => 65,
            EliteSpec::Bladesworn => 68,
            EliteSpec::Mechanist => 70,
            EliteSpec::Untamed => 72,
            EliteSpec::Specter => 71,
            EliteSpec::Catalyst => 67,
            EliteSpec::Virtuoso => 66,
            EliteSpec::Harbinger => 64,
            EliteSpec::Vindicator => 69,
        }
    }

    /// The id of this elite specialization.
    pub fn id(self) -> (r: u32)
        ensures
            r == self.code(),
    {
        match self {
            EliteSpec::Dragonhunter => 27,
            EliteSpec::Berserker => 18,
            EliteSpec::Scrapper => 43,
            EliteSpec::Druid => 5,
            EliteSpec::Daredevil => 7,
            EliteSpec::Tempest => 48,
            EliteSpec::Chronomancer => 40,
            EliteSpec::Reaper => 34,
            EliteSpec::Herald => 52,
            EliteSpec::Firebrand => 62,
            EliteSpec::Spellbreaker => 61,
            EliteSpec::Holosmith => 57,
            EliteSpec::Soulbeast => 55,
            EliteSpec::Deadeye => 58,
            EliteSpec::Weaver => 56,
            EliteSpec::Mirage => 59,
            EliteSpec::Scourge => 60,
            EliteSpec::Renegade => 63,
            EliteSpec::Willbender => 65,
            EliteSpec::Bladesworn => 68,
            EliteSpec::Mechanist => 70,
            EliteSpec::Untamed => 72,
            EliteSpec::Specter => 71,
            EliteSpec::Catalyst => 67,
            EliteSpec::Virtuoso => 66,
            EliteSpec::Harbinger => 64,
            EliteSpec::Vindicator => 69,
        }
    }

    /// The elite specialization with the given id, if there is one.
    pub fn from_u32(id: u32) -> (r: Option<EliteSpec>)
        ensures
            r is None ==> forall|e: EliteSpec| e.code() != id,
            r matches Some(e) ==> e.code() == id,
    {
        match id {
            27 => Some(EliteSpec::Dragonhunter),
            18 => Some(EliteSpec::Berserker),
            43 => Some(EliteSpec::Scrapper),
            5 => Some(EliteSpec::Druid),
            7 => Some(EliteSpec::Daredevil),
            48 => Some(EliteSpec::Tempest),
            40 => Some(EliteSpec::Chronomancer),
            34 => Some(EliteSpec::Reaper),
            52 => Some(EliteSpec::Herald),
            62 => Some(EliteSpec::Firebrand),
            61 => Some(EliteSpec::Spellbreaker),
            57 => Some(EliteSpec::Holosmith),
            55 => Some(EliteSpec::Soulbeast),
            58 => Some(EliteSpec::Deadeye),
            56 => Some(EliteSpec::Weaver),
            59 => Some(EliteSpec::Mirage),
            60 => Some(EliteSpec::Scourge),
            63 => Some(EliteSpec::Renegade),
            65 => Some(EliteSpec::Willbender),
            68 => Some(EliteSpec::Bladesworn),
            70 => Some(EliteSpec::Mechanist),
            72 => Some(EliteSpec::Untamed),
            71 => Some(EliteSpec::Specter),
            67 => Some(EliteSpec::Catalyst),
            66 => Some(EliteSpec::Virtuoso),
            64 => Some(EliteSpec::Harbinger),
            69 => Some(EliteSpec::Vindicator),
            _ => None,
        }
    }

    /// The elite specialization that a lowercase name stands for, if any.
    pub open spec fn from_name_spec(name: Seq<char>) -> Option<EliteSpec> {
        if name == "dragonhunter"@ {
            Some(EliteSpec::Dragonhunter)
        } else if name == "berserker"@ {
            Some(EliteSpec::Berserker)
        } else if name == "scrapper"@ {
            Some(EliteSpec::Scrapper)
        } else if name == "druid"@ {
            Some(EliteSpec::Druid)
        } else if name == "daredevil"@ {
            Some(EliteSpec::Daredevil)
        } else if name == "tempest"@ {
            Some(EliteSpec::Tempest)
        } else if name == "chronomancer"@ {
            Some(EliteSpec::Chronomancer)
        } else if name == "reaper"@ {
            Some(EliteSpec::Reaper)
        } else if name == "herald"@ {
            Some(EliteSpec::Herald)
        } else if name == "firebrand"@ {
            Some(EliteSpec::Firebrand)
        } else if name == "spellbreaker"@ {
            Some(EliteSpec::Spellbreaker)
        } else if name == "holosmith"@ {
            Some(EliteSpec::Holosmith)
        } else if name == "soulbeast"@ {
            Some(EliteSpec::Soulbeast)
        } else if name == "deadeye"@ {
            Some(EliteSpec::Deadeye)
        } else if name == "weaver"@ {
            Some(EliteSpec::Weaver)
        } else if name == "mirage"@ {
            Some(EliteSpec::Mirage)
        } else if name == "scourge"@ {
            Some(EliteSpec::Scourge)
        } else if name == "renegade"@ {
            Some(EliteSpec::Renegade)
        } else if name == "willbender"@ {
            Some(EliteSpec::Willbender)
        } else if name == "bladesworn"@ {
            Some(EliteSpec::Bladesworn)
        } else if name == "mechanist"@ {
            Some(EliteSpec::Mechanist)
        } else if name == "untamed"@ {
            Some(EliteSpec::Untamed)
        } else if name == "specter"@ {
            Some(EliteSpec::Specter)
        } else if name == "catalyst"@ {
            Some(EliteSpec::Catalyst)
        } else if name == "virtuoso"@ {
            Some(EliteSpec::Virtuoso)
        } else if name == "harbinger"@ {
            Some(EliteSpec::Harbinger)
        } else if name == "vindicator"@ {
            Some(EliteSpec::Vindicator)
        } else {
            None
        }
    }

    /// Parse an elite specialization from its name, ignoring case.
    pub fn from_name(s: &str) -> (r: Result<EliteSpec, ParseEliteSpecError>)
        ensures
            r is Ok <==> EliteSpec::from_name_spec(lowercase(s@)) is Some,
            r matches Ok(e) ==> EliteSpec::from_name_spec(lowercase(s@)) == Some(e),
            r matches Err(e) ==> e.0@ == s@,
            is_ascii_text(s@) ==> (r is Ok <==> EliteSpec::from_name_spec(ascii_lower(s@)) is Some),
            is_ascii_text(s@) ==> (r matches Ok(e) ==> EliteSpec::from_name_spec(ascii_lower(s@)) == Some(e)),
            r matches Err(e) ==> e.message() == "Invalid elite specialization identifier: "@ + s@,
    {
        let lower = to_lowercase(s);
        let name = lower.as_str();
        let found = if str_eq(name, "dragonhunter") {
            Some(EliteSpec::Dragonhunter)
        } else if str_eq(name, "berserker") {
            Some(EliteSpec::Berserker)
        } else if str_eq(name, "scrapper") {
            Some(EliteSpec::Scrapper)
        } else if str_eq(name, "druid") {
            Some(EliteSpec::Druid)
        } else if str_eq(name, "daredevil") {
            Some(EliteSpec::Daredevil)
        } else if str_eq(name, "tempest") {
            Some(EliteSpec::Tempest)
        } else if str_eq(name, "chronomancer") {
            Some(EliteSpec::Chronomancer)
        } else if str_eq(name, "reaper") {
            Some(EliteSpec::Reaper)
        } else if str_eq(name, "herald") {
            Some(EliteSpec::Herald)
        } else if str_eq(name, "firebrand") {
            Some(EliteSpec::Firebrand)
        } else if str_eq(name, "spellbreaker") {
            Some(EliteSpec::Spellbreaker)
        } else if str_eq(name, "holosmith") {
            Some(EliteSpec::Holosmith)
        } else if str_eq(name, "soulbeast") {
            Some(EliteSpec::Soulbeast)
        } else if str_eq(name, "deadeye") {
            Some(EliteSpec::Deadeye)
        } else if str_eq(name, "weaver") {
            Some(EliteSpec::Weaver)
        } else if str_eq(name, "mirage") {
            Some(EliteSpec::Mirage)
        } else if str_eq(name, "scourge") {
            Some(EliteSpec::Scourge)
        } else if str_eq(name, "renegade") {
            Some(EliteSpec::Renegade)
        } else if str_eq(name, "willbender") {
            Some(EliteSpec::Willbender)
        } else if str_eq(name, "bladesworn") {
            Some(EliteSpec::Bladesworn)
        } else if str_eq(name, "mechanist") {
            Some(EliteSpec::Mechanist)
        } else if str_eq(name, "untamed") {
            Some(EliteSpec::Untamed)
        } else if str_eq(name, "specter") {
            Some(EliteSpec::Specter)
        } else if str_eq(name, "catalyst") {
            Some(EliteSpec::Catalyst)
        } else if str_eq(name, "virtuoso") {
            Some(EliteSpec::Virtuoso)
        } else if str_eq(name, "harbinger") {
            Some(EliteSpec::Harbinger)
        } else if str_eq(name, "vindicator") {
            Some(EliteSpec::Vindicator)
        } else {
            None
        };
        match found {
            Some(e) => Ok(e),
            None => Err(ParseEliteSpecError(s.to_string())),
        }
    }

    /// The display name of this elite specialization.
    pub open spec fn name_spec(self) -> Seq<char> {
        match self {
            EliteSpec::Dragonhunter => "Dragonhunter"@,
            EliteSpec::Berserker => "Berserker"@,
            EliteSpec::Scrapper => "Scrapper"@,
            EliteSpec::Druid => "Druid"@,
            EliteSpec::Daredevil => "Daredevil"@,
            EliteSpec::Tempest => "Tempest"@,
            EliteSpec::Chronomancer => "Chronomancer"@,
            EliteSpec::Reaper => "Reaper"@,
            EliteSpec::Herald => "Herald"@,
            EliteSpec::Firebrand => "Firebrand"@,
            EliteSpec::Spellbreaker => "Spellbreaker"@,
            EliteSpec::Holosmith => "Holosmith"@,
            EliteSpec::Soulbeast => "Soulbeast"@,
            EliteSpec::Deadeye => "Deadeye"@,
            EliteSpec::Weaver => "Weaver"@,
            EliteSpec::Mirage => "Mirage"@,
            EliteSpec::Scourge => "Scourge"@,
            EliteSpec::Renegade => "Renegade"@,
            EliteSpec::Willbender => "Willbender"@,
            EliteSpec::Bladesworn => "Bladesworn"@,
            EliteSpec::Mechanist => "Mechanist"@,
            EliteSpec::Untamed => "Untamed"@,
            EliteSpec::Specter => "Specter"@,
            EliteSpec::Catalyst => "Catalyst"@,
            EliteSpec::Virtuoso => "Virtuoso"@,
            EliteSpec::Harbinger => "Harbinger"@,
            EliteSpec::Vindicator => "Vindicator"@,
        }
    }

    /// The display name of this elite specialization.
    pub fn to_string(&self) -> (r: String)
        ensures
            r@ == self.name_spec(),
    {
        match *self {
            EliteSpec::Dragonhunter => "Dragonhunter".to_string(),
            EliteSpec::Berserker => "Berserker".to_string(),
            EliteSpec::Scrapper => "Scrapper".to_string(),
            EliteSpec::Druid => "Druid".to_string(),
            EliteSpec::Daredevil => "Daredevil".to_string(),
            EliteSpec::Tempest => "Tempest".to_string(),
            EliteSpec::Chronomancer => "Chronomancer".to_string(),
            EliteSpec::Reaper => "Reaper".to_string(),
            EliteSpec::Herald => "Herald".to_string(),
            EliteSpec::Firebrand => "Firebrand".to_string(),
            EliteSpec::Spellbreaker => "Spellbreaker".to_string(),
            EliteSpec::Holosmith => "Holosmith".to_string(),
            EliteSpec::Soulbeast => "Soulbeast".to_string(),
            EliteSpec::Deadeye => "Deadeye".to_string(),
            EliteSpec::Weaver => "Weaver".to_string(),
            EliteSpec::Mirage => "Mirage".to_string(),
            EliteSpec::Scourge => "Scourge".to_string(),
            EliteSpec::Renegade => "Renegade".to_string(),
            EliteSpec::Willbender => "Willbender".to_string(),
            EliteSpec::Bladesworn => "Bladesworn".to_string(),
            EliteSpec::Mechanist => "Mechanist".to_string(),
            EliteSpec::Untamed => "Untamed".to_string(),
            EliteSpec::Specter => "Specter".to_string(),
            EliteSpec::Catalyst => "Catalyst".to_string(),
            EliteSpec::Virtuoso => "Virtuoso".to_string(),
            EliteSpec::Harbinger => "Harbinger".to_string(),
            EliteSpec::Vindicator => "Vindicator".to_string(),
        }
    }

    /// The profession that this elite specialization belongs to.
    pub open spec fn profession_spec(self) -> Profession {
        match self {
            EliteSpec::Dragonhunter => Profession::Guardian,
            EliteSpec::Berserker => Profession::Warrior,
            EliteSpec::Scrapper => Profession::Engineer,
            EliteSpec::Druid => Profession::Ranger,
            EliteSpec::Daredevil => Profession::Thief,
            EliteSpec::Tempest => Profession::Elementalist,
            EliteSpec::Chronomancer => Profession::Mesmer,
            EliteSpec::Reaper => Profession::Necromancer,
            EliteSpec::Herald => Profession::Revenant,
            EliteSpec::Firebrand => Profession::Guardian,
            EliteSpec::Spellbreaker => Profession::Warrior,
            EliteSpec::Holosmith => Profession::Engineer,
            EliteSpec::Soulbeast => Profession::Ranger,
            EliteSpec::Deadeye => Profession::Thief,
            EliteSpec::Weaver => Profession::Elementalist,
            EliteSpec::Mirage => Profession::Mesmer,
            EliteSpec::Scourge => Profession::Necromancer,
            EliteSpec::Renegade => Profession::Revenant,
            EliteSpec::Willbender => Profession::Guardian,
            EliteSpec::Bladesworn => Profession::Warrior,
            EliteSpec::Mechanist => Profession::Engineer,
            EliteSpec::Untamed => Profession::Ranger,
            EliteSpec::Specter => Profession::Thief,
            EliteSpec::Catalyst => Profession::Elementalist,
            EliteSpec::Virtuoso => Profession::Mesmer,
            EliteSpec::Harbinger => Profession::Necromancer,
            EliteSpec::Vindicator => Profession::Revenant,
        }
    }

    /// Return the profession that this elite specialization belongs to.
    ///
    /// This value is hardcoded (and not expected to change), and does not require a network
    /// connection or API access.
    pub fn profession(self) -> (r: Profession)
        ensures
            r == self.profession_spec(),
    {
        match self {
            EliteSpec::Dragonhunter => Profession::Guardian,
            EliteSpec::Berserker => Profession::Warrior,
            EliteSpec::Scrapper => Profession::Engineer,
            EliteSpec::Druid => Profession::Ranger,
            EliteSpec::Daredevil => Profession::Thief,
            EliteSpec::Tempest => Profession::Elementalist,
            EliteSpec::Chronomancer => Profession::Mesmer,
            EliteSpec::Reaper => Profession::Necromancer,
            EliteSpec::Herald => Profession::Revenant,
            EliteSpec::Firebrand => Profession::Guardian,
            EliteSpec::Spellbreaker => Profession::Warrior,
            EliteSpec::Holosmith => Profession::Engineer,
            EliteSpec::Soulbeast => Profession::Ranger,
            EliteSpec::Deadeye => Profession::Thief,
            EliteSpec::Weaver => Profession::Elementalist,
            EliteSpec::Mirage => Profession::Mesmer,
            EliteSpec::Scourge => Profession::Necromancer,
            EliteSpec::Renegade => Profession::Revenant,
            EliteSpec::Willbender => Profession::Guardian,
            EliteSpec::Bladesworn => Profession::Warrior,
            EliteSpec::Mechanist => Profession::Engineer,
            EliteSpec::Untamed => Profession::Ranger,
            EliteSpec::Specter => Profession::Thief,
            EliteSpec::Catalyst => Profession::Elementalist,
            EliteSpec::Virtuoso => Profession::Mesmer,
            EliteSpec::Harbinger => Profession::Necromancer,
            EliteSpec::Vindicator => Profession::Revenant,
        }
    }
}

impl std::str::FromStr for EliteSpec {
    type Err = ParseEliteSpecError;

    fn from_str(s: &str) -> (r: Result<Self, Self::Err>)
        ensures
            r is Ok <==> EliteSpec::from_name_spec(lowercase(s@)) is Some,
            r matches Ok(x) ==> EliteSpec::from_name_spec(lowercase(s@)) == Some(x),
            r matches Err(e) ==> e.0@ == s@,
            is_ascii_text(s@) ==> (r is Ok <==> EliteSpec::from_name_spec(ascii_lower(s@)) is Some),
            is_ascii_text(s@) ==> (r matches Ok(x) ==> EliteSpec::from_name_spec(ascii_lower(s@)) == Some(x)),
            r matches Err(e) ==> e.message() == "Invalid elite specialization identifier: "@ + s@,
    {
        EliteSpec::from_name(s)
    }
}

/// Every boss is one of the bosses of its encounter.
pub proof fn lemma_boss_in_own_encounter(boss: Boss)
    ensures
        boss.encounter_spec().boss_list().contains(boss),
{
    match boss {
        Boss::ValeGuardian => assert(boss.encounter_spec().boss_list()[0] == boss),
        Boss::Gorseval => assert(boss.encounter_spec().boss_list()[0] == boss),
        Boss::Sabetha => assert(boss.encounter_spec().boss_list()[0] == boss),
        Boss::Slothasor => assert(boss.encounter_spec().boss_list()[0] == boss),
        Boss::Berg => assert(boss.encounter_spec().boss_list()[0] == boss),
        Boss::Zane => assert(boss.encounter_spec().boss_list()[1] == boss),
        Boss::Narella => assert(boss.encounter_spec().boss_list()[2] == boss),
        Boss::Matthias => assert(boss.encounter_spec().boss_list()[0] == boss),
        Boss::KeepConstruct => assert(boss.encounter_spec().boss_list()[0] == boss),
        Boss::Xera => assert(boss.encounter_spec().boss_list()[0] == boss),
        Boss::Xera2 => assert(boss.encounter_spec().boss_list()[1] == boss),
        Boss::Cairn => assert(boss.encounter_spec().boss_list()[0] == boss),
        Boss::MursaatOverseer => assert(boss.encounter_spec().boss_list()[0] == boss),
        Boss::Samarog => assert(boss.encounter_spec().boss_list()[0] == boss),
        Boss::Deimos => assert(boss.encounter_spec().boss_list()[0] == boss),
        Boss::SoullessHorror => assert(boss.encounter_spec().boss_list()[0] == boss),
        Boss::BrokenKing => assert(boss.encounter_spec().boss_list()[0] == boss),
        Boss::EaterOfSouls => assert(boss.encounter_spec().boss_list()[0] == boss),
        Boss::EyeOfJudgment => assert(boss.encounter_spec().boss_list()[0] == boss),
        Boss::EyeOfFate => assert(boss.encounter_spec().boss_list()[1] == boss),
        Boss::Dhuum => assert(boss.encounter_spec().boss_list()[0] == boss),
        Boss::ConjuredAmalgamate => assert(boss.encounter_spec().boss_list()[0] == boss),
        Boss::Nikare => assert(boss.encounter_spec().boss_list()[0] == boss),
        Boss::Kenut => assert(boss.encounter_spec().boss_list()[1] == boss),
        Boss::Qadim => assert(boss.encounter_spec().boss_list()[0] == boss),
        Boss::CardinalAdina => assert(boss.encounter_spec().boss_list()[0] == boss),
        Boss::CardinalSabir => assert(boss.encounter_spec().boss_list()[0] == boss),
        Boss::QadimThePeerless => assert(boss.encounter_spec().boss_list()[0] == boss),
        Boss::StandardKittyGolem => assert(boss.encounter_spec().boss_list()[0] == boss),
        Boss::MediumKittyGolem => assert(boss.encounter_spec().boss_list()[0] == boss),
        Boss::LargeKittyGolem => assert(boss.encounter_spec().boss_list()[0] == boss),
        Boss::Ai => assert(boss.encounter_spec().boss_list()[0] == boss),
        Boss::Skorvald => assert(boss.encounter_spec().boss_list()[0] == boss),
        Boss::Artsariiv => assert(boss.encounter_spec().boss_list()[0] == boss),
        Boss::Arkk => assert(boss.encounter_spec().boss_list()[0] == boss),
        Boss::MAMA => assert(boss.encounter_spec().boss_list()[0] == boss),
        Boss::Siax => assert(boss.encounter_spec().boss_list()[0] == boss),
        Boss::Ensolyss => assert(boss.encounter_spec().boss_list()[0] == boss),
        Boss::IcebroodConstruct => assert(boss.encounter_spec().boss_list()[0] == boss),
        Boss::VoiceOfTheFallen => assert(boss.encounter_spec().boss_list()[0] == boss),
        Boss::ClawOfTheFallen => assert(boss.encounter_spec().boss_list()[1] == boss),
        Boss::FraenirOfJormag => assert(boss.encounter_spec().boss_list()[0] == boss),
        Boss::Boneskinner => assert(boss.encounter_spec().boss_list()[0] == boss),
        Boss::WhisperOfJormag => assert(boss.encounter_spec().boss_list()[0] == boss),
        Boss::CaptainMaiTrin => assert(boss.encounter_spec().boss_list()[0] == boss),
        Boss::Ankka => assert(boss.encounter_spec().boss_list()[0] == boss),
        Boss::MinisterLi => assert(boss.encounter_spec().boss_list()[0] == boss),
    }
}

/// Every boss of an encounter belongs to that encounter.
pub proof fn lemma_encounter_bosses_belong(encounter: Encounter, i: int)
    requires
        0 <= i < encounter.boss_list().len(),
    ensures
        encounter.boss_list()[i].encounter_spec() == encounter,
{
}

/// The header id of a boss stands for the boss's encounter.
pub proof fn lemma_header_id_of_boss(boss: Boss)
    ensures
        Encounter::from_header_id_spec(boss.code()) == Some(boss.encounter_spec()),
{
    Boss::lemma_code_determines(boss, choose|b: Boss| b.code() == boss.code());
}

/// The id of an encounter stands for that encounter.
pub proof fn lemma_header_id_of_encounter(encounter: Encounter)
    ensures
        Encounter::from_header_id_spec(encounter.code()) == Some(encounter),
{
    match encounter {
        Encounter::ValeGuardian => lemma_header_id_of_boss(Boss::ValeGuardian),
        Encounter::Gorseval => lemma_header_id_of_boss(Boss::Gorseval),
        Encounter::Sabetha => lemma_header_id_of_boss(Boss::Sabetha),
        Encounter::Slothasor => lemma_header_id_of_boss(Boss::Slothasor),
        Encounter::BanditTrio => lemma_header_id_of_boss(Boss::Berg),
        Encounter::Matthias => lemma_header_id_of_boss(Boss::Matthias),
        Encounter::KeepConstruct => lemma_header_id_of_boss(Boss::KeepConstruct),
        Encounter::TwistedCastle => {},
        Encounter::Xera => lemma_header_id_of_boss(Boss::Xera),
        Encounter::Cairn => lemma_header_id_of_boss(Boss::Cairn),
        Encounter::MursaatOverseer => lemma_header_id_of_boss(Boss::MursaatOverseer),
        Encounter::Samarog => lemma_header_id_of_boss(Boss::Samarog),
        Encounter::Deimos => lemma_header_id_of_boss(Boss::Deimos),
        Encounter::SoullessHorror => lemma_header_id_of_boss(Boss::SoullessHorror),
        Encounter::RiverOfSouls => {},
        Encounter::BrokenKing => lemma_header_id_of_boss(Boss::BrokenKing),
        Encounter::EaterOfSouls => lemma_header_id_of_boss(Boss::EaterOfSouls),
        Encounter::StatueOfDarkness => lemma_header_id_of_boss(Boss::EyeOfJudgment),
        Encounter::VoiceInTheVoid => lemma_header_id_of_boss(Boss::Dhuum),
        Encounter::ConjuredAmalgamate => lemma_header_id_of_boss(Boss::ConjuredAmalgamate),
        Encounter::TwinLargos => lemma_header_id_of_boss(Boss::Nikare),
        Encounter::Qadim => lemma_header_id_of_boss(Boss::Qadim),
        Encounter::CardinalAdina => lemma_header_id_of_boss(Boss::CardinalAdina),
        Encounter::CardinalSabir => lemma_header_id_of_boss(Boss::CardinalSabir),
        Encounter::QadimThePeerless => lemma_header_id_of_boss(Boss::QadimThePeerless),
        Encounter::StandardKittyGolem => lemma_header_id_of_boss(Boss::StandardKittyGolem),
        Encounter::MediumKittyGolem => lemma_header_id_of_boss(Boss::MediumKittyGolem),
        Encounter::LargeKittyGolem => lemma_header_id_of_boss(Boss::LargeKittyGolem),
        Encounter::Ai => lemma_header_id_of_boss(Boss::Ai),
        Encounter::Skorvald => lemma_header_id_of_boss(Boss::Skorvald),
        Encounter::Artsariiv => lemma_header_id_of_boss(Boss::Artsariiv),
        Encounter::Arkk => lemma_header_id_of_boss(Boss::Arkk),
        Encounter::MAMA => lemma_header_id_of_boss(Boss::MAMA),
        Encounter::Siax => lemma_header_id_of_boss(Boss::Siax),
        Encounter::Ensolyss => lemma_header_id_of_boss(Boss::Ensolyss),
        Encounter::IcebroodConstruct => lemma_header_id_of_boss(Boss::IcebroodConstruct),
        Encounter::SuperKodanBrothers => lemma_header_id_of_boss(Boss::VoiceOfTheFallen),
        Encounter::FraenirOfJormag => lemma_header_id_of_boss(Boss::FraenirOfJormag),
        Encounter::Boneskinner => lemma_header_id_of_boss(Boss::Boneskinner),
        Encounter::WhisperOfJormag => lemma_header_id_of_boss(Boss::WhisperOfJormag),
        Encounter::CaptainMaiTrin => lemma_header_id_of_boss(Boss::CaptainMaiTrin),
        Encounter::Ankka => lemma_header_id_of_boss(Boss::Ankka),
        Encounter::MinisterLi => lemma_header_id_of_boss(Boss::MinisterLi),
        Encounter::Dragonvoid => {},
    }
}

/// An encounter is a raid, fractal, strike mission or training golem fight, never a
/// world-versus-world fight.
pub proof fn lemma_game_mode_not_wvw(encounter: Encounter)
    ensures
        encounter.game_mode_spec() != GameMode::WvW,
{
}

/// The display name of every profession parses back to it, and so does that name in capitals:
/// both are ASCII text, and lowercased letter by letter (which is what `to_lowercase` does to
/// ASCII text) they are the name that [`Profession::from_name`] looks for.
pub proof fn lemma_profession_names_round_trip(x: Profession)
    ensures
        Profession::from_name_spec(ascii_lower(x.name_spec())) == Some(x),
        Profession::from_name_spec(ascii_lower(ascii_upper(x.name_spec()))) == Some(x),
        is_ascii_text(x.name_spec()),
        is_ascii_text(ascii_upper(x.name_spec())),
{
    lemma_lower_of_upper(x.name_spec());
    match x {
        Profession::Guardian => {
            reveal_strlit("Guardian");
            reveal_strlit("guardian");
            assert(ascii_lower("Guardian"@) =~= "guardian"@);
        },
        Profession::Warrior => {
            reveal_strlit("Warrior");
            reveal_strlit("warrior");
            assert(ascii_lower("Warrior"@) =~= "warrior"@);
            reveal_strlit("guardian");
        },
        Profession::Engineer => {
            reveal_strlit("Engineer");
            reveal_strlit("engineer");
            assert(ascii_lower("Engineer"@) =~= "engineer"@);
            reveal_strlit("guardian");
            assert("engineer"@[0] != "guardian"@[0]);
            reveal_strlit("warrior");
        },
        Profession::Ranger => {
            reveal_strlit("Ranger");
            reveal_strlit("ranger");
            assert(ascii_lower("Ranger"@) =~= "ranger"@);
            reveal_strlit("guardian");
            reveal_strlit("warrior");
            reveal_strlit("engineer");
        },
        Profession::Thief => {
            reveal_strlit("Thief");
            reveal_strlit("thief");
            assert(ascii_lower("Thief"@) =~= "thief"@);
            reveal_strlit("guardian");
            reveal_strlit("warrior");
            reveal_strlit("engineer");
            reveal_strlit("ranger");
        },
        Profession::Elementalist => {
            reveal_strlit("Elementalist");
            reveal_strlit("elementalist");
            assert(ascii_lower("Elementalist"@) =~= "elementalist"@);
            reveal_strlit("guardian");
            reveal_strlit("warrior");
            reveal_strlit("engineer");
            reveal_strlit("ranger");
            reveal_strlit("thief");
        },
        Profession::Mesmer => {
            reveal_strlit("Mesmer");
            reveal_strlit("mesmer");
            assert(ascii_lower("Mesmer"@) =~= "mesmer"@);
            reveal_strlit("guardian");
            reveal_strlit("warrior");
            reveal_strlit("engineer");
            reveal_strlit("ranger");
            assert("mesmer"@[0] != "ranger"@[0]);
            reveal_strlit("thief");
            reveal_strlit("elementalist");
        },
        Profession::Necromancer => {
            reveal_strlit("Necromancer");
            reveal_strlit("necromancer");
            assert(ascii_lower("Necromancer"@) =~= "necromancer"@);
            reveal_strlit("guardian");
            reveal_strlit("warrior");
            reveal_strlit("engineer");
            reveal_strlit("ranger");
            reveal_strlit("thief");
            reveal_strlit("elementalist");
            reveal_strlit("mesmer");
        },
        Profession::Revenant => {
            reveal_strlit("Revenant");
            reveal_strlit("revenant");
            assert(ascii_lower("Revenant"@) =~= "revenant"@);
            reveal_strlit("guardian");
            assert("revenant"@[0] != "guardian"@[0]);
            reveal_strlit("warrior");
            reveal_strlit("engineer");
            assert("revenant"@[0] != "engineer"@[0]);
            reveal_strlit("ranger");
            reveal_strlit("thief");
            reveal_strlit("elementalist");
            reveal_strlit("mesmer");
            reveal_strlit("necromancer");
        },
    }
}

/// The display name of every elite specialization parses back to it, and so does that name in capitals:
/// both are ASCII text, and lowercased letter by letter (which is what `to_lowercase` does to
/// ASCII text) they are the name that [`EliteSpec::from_name`] looks for.
pub proof fn lemma_elite_specialization_names_round_trip(x: EliteSpec)
    ensures
        EliteSpec::from_name_spec(ascii_lower(x.name_spec())) == Some(x),
        EliteSpec::from_name_spec(ascii_lower(ascii_upper(x.name_spec()))) == Some(x),
        is_ascii_text(x.name_spec()),
        is_ascii_text(ascii_upper(x.name_spec())),
{
    lemma_lower_of_upper(x.name_spec());
    match x {
        EliteSpec::Dragonhunter => {
            reveal_strlit("Dragonhunter");
            reveal_strlit("dragonhunter");
            assert(ascii_lower("Dragonhunter"@) =~= "dragonhunter"@);
        },
        EliteSpec::Berserker => {
            reveal_strlit("Berserker");
            reveal_strlit("berserker");
            assert(ascii_lower("Berserker"@) =~= "berserker"@);
            reveal_strlit("dragonhunter");
        },
        EliteSpec::Scrapper => {
            reveal_strlit("Scrapper");
            reveal_strlit("scrapper");
            assert(ascii_lower("Scrapper"@) =~= "scrapper"@);
            reveal_strlit("dragonhunter");
            reveal_strlit("berserker");
        },
        EliteSpec::Druid => {
            reveal_strlit("Druid");
            reveal_strlit("druid");
            assert(ascii_lower("Druid"@) =~= "druid"@);
            reveal_strlit("dragonhunter");
            reveal_strlit("berserker");
            reveal_strlit("scrapper");
        },
        EliteSpec::Daredevil => {
            reveal_strlit("Daredevil");
            reveal_strlit("daredevil");
            assert(ascii_lower("Daredevil"@) =~= "daredevil"@);
            reveal_strlit("dragonhunter");
            reveal_strlit("berserker");
            assert("daredevil"@[0] != "berserker"@[0]);
            reveal_strlit("scrapper");
            reveal_strlit("druid");
        },
        EliteSpec::Tempest => {
            reveal_strlit("Tempest");
            reveal_strlit("tempest");
            assert(ascii_lower("Tempest"@) =~= "tempest"@);
            reveal_strlit("dragonhunter");
            reveal_strlit("berserker");
            reveal_strlit("scrapper");
            reveal_strlit("druid");
            reveal_strlit("daredevil");
        },
        EliteSpec::Chronomancer => {
            reveal_strlit("Chronomancer");
            reveal_strlit("chronomancer");
            assert(ascii_lower("Chronomancer"@) =~= "chronomancer"@);
            reveal_strlit("dragonhunter");
            assert("chronomancer"@[0] != "dragonhunter"@[0]);
            reveal_strlit("berserker");
            reveal_strlit("scrapper");
            reveal_strlit("druid");
            reveal_strlit("daredevil");
            reveal_strlit("tempest");
        },
        EliteSpec::Reaper => {
            reveal_strlit("Reaper");
            reveal_strlit("reaper");
            assert(ascii_lower("Reaper"@) =~= "reaper"@);
            reveal_strlit("dragonhunter");
            reveal_strlit("berserker");
            reveal_strlit("scrapper");
            reveal_strlit("druid");
            reveal_strlit("daredevil");
            reveal_strlit("tempest");
            reveal_strlit("chronomancer");
        },
        EliteSpec::Herald => {
            reveal_strlit("Herald");
            reveal_strlit("herald");
            assert(ascii_lower("Herald"@) =~= "herald"@);
            reveal_strlit("dragonhunter");
            reveal_strlit("berserker");
            reveal_strlit("scrapper");
            reveal_strlit("druid");
            reveal_strlit("daredevil");
            reveal_strlit("tempest");
            reveal_strlit("chronomancer");
            reveal_strlit("reaper");
            assert("herald"@[0] != "reaper"@[0]);
        },
        EliteSpec::Firebrand => {
            reveal_strlit("Firebrand");
            reveal_strlit("firebrand");
            assert(ascii_lower("Firebrand"@) =~= "firebrand"@);
            reveal_strlit("dragonhunter");
            reveal_strlit("berserker");
            assert("firebrand"@[0] != "berserker"@[0]);
            reveal_strlit("scrapper");
            reveal_strlit("druid");
            reveal_strlit("daredevil");
            assert("firebrand"@[0] != "daredevil"@[0]);
            reveal_strlit("tempest");
            reveal_strlit("chronomancer");
            reveal_strlit("reaper");
            reveal_strlit("herald");
        },
        EliteSpec::Spellbreaker => {
            reveal_strlit("Spellbreaker");
            reveal_strlit("spellbreaker");
            assert(ascii_lower("Spellbreaker"@) =~= "spellbreaker"@);
            reveal_strlit("dragonhunter");
            assert("spellbreaker"@[0] != "dragonhunter"@[0]);
            reveal_strlit("berserker");
            reveal_strlit("scrapper");
            reveal_strlit("druid");
            reveal_strlit("daredevil");
            reveal_strlit("tempest");
            reveal_strlit("chronomancer");
            assert("spellbreaker"@[0] != "chronomancer"@[0]);
            reveal_strlit("reaper");
            reveal_strlit("herald");
            reveal_strlit("firebrand");
        },
        EliteSpec::Holosmith => {
            reveal_strlit("Holosmith");
            reveal_strlit("holosmith");
            assert(ascii_lower("Holosmith"@) =~= "holosmith"@);
            reveal_strlit("dragonhunter");
            reveal_strlit("berserker");
            assert("holosmith"@[0] != "berserker"@[0]);
            reveal_strlit("scrapper");
            reveal_strlit("druid");
            reveal_strlit("daredevil");
            assert("holosmith"@[0] != "daredevil"@[0]);
            reveal_strlit("tempest");
            reveal_strlit("chronomancer");
            reveal_strlit("reaper");
            reveal_strlit("herald");
            reveal_strlit("firebrand");
            assert("holosmith"@[0] != "firebrand"@[0]);
            reveal_strlit("spellbreaker");
        },
        EliteSpec::Soulbeast => {
            reveal_strlit("Soulbeast");
            reveal_strlit("soulbeast");
            assert(ascii_lower("Soulbeast"@) =~= "soulbeast"@);
            reveal_strlit("dragonhunter");
            reveal_strlit("berserker");
            assert("soulbeast"@[0] != "berserker"@[0]);
            reveal_strlit("scrapper");
            reveal_strlit("druid");
            reveal_strlit("daredevil");
            assert("soulbeast"@[0] != "daredevil"@[0]);
            reveal_strlit("tempest");
            reveal_strlit("chronomancer");
            reveal_strlit("reaper");
            reveal_strlit("herald");
            reveal_strlit("firebrand");
            assert("soulbeast"@[0] != "firebrand"@[0]);
            reveal_strlit("spellbreaker");
            reveal_strlit("holosmith");
            assert("soulbeast"@[0] != "holosmith"@[0]);
        },
        EliteSpec::Deadeye => {
            reveal_strlit("Deadeye");
            reveal_strlit("deadeye");
            assert(ascii_lower("Deadeye"@) =~= "deadeye"@);
            reveal_strlit("dragonhunter");
            reveal_strlit("berserker");
            reveal_strlit("scrapper");
            reveal_strlit("druid");
            reveal_strlit("daredevil");
            reveal_strlit("tempest");
            assert("deadeye"@[0] != "tempest"@[0]);
            reveal_strlit("chronomancer");
            reveal_strlit("reaper");
            reveal_strlit("herald");
            reveal_strlit("firebrand");
            reveal_strlit("spellbreaker");
            reveal_strlit("holosmith");
            reveal_strlit("soulbeast");
        },
        EliteSpec::Weaver => {
            reveal_strlit("Weaver");
            reveal_strlit("weaver");
            assert(ascii_lower("Weaver"@) =~= "weaver"@);
            reveal_strlit("dragonhunter");
            reveal_strlit("berserker");
            reveal_strlit("scrapper");
            reveal_strlit("druid");
            reveal_strlit("daredevil");
            reveal_strlit("tempest");
            reveal_strlit("chronomancer");
            reveal_strlit("reaper");
            assert("weaver"@[0] != "reaper"@[0]);
            reveal_strlit("herald");
            assert("weaver"@[0] != "herald"@[0]);
            reveal_strlit("firebrand");
            reveal_strlit("spellbreaker");
            reveal_strlit("holosmith");
            reveal_strlit("soulbeast");
            reveal_strlit("deadeye");
        },
        EliteSpec::Mirage => {
            reveal_strlit("Mirage");
            reveal_strlit("mirage");
            assert(ascii_lower("Mirage"@) =~= "mirage"@);
            reveal_strlit("dragonhunter");
            reveal_strlit("berserker");
            reveal_strlit("scrapper");
            reveal_strlit("druid");
            reveal_strlit("daredevil");
            reveal_strlit("tempest");
            reveal_strlit("chronomancer");
            reveal_strlit("reaper");
            assert("mirage"@[0] != "reaper"@[0]);
            reveal_strlit("herald");
            assert("mirage"@[0] != "herald"@[0]);
            reveal_strlit("firebrand");
            reveal_strlit("spellbreaker");
            reveal_strlit("holosmith");
            reveal_strlit("soulbeast");
            reveal_strlit("deadeye");
            reveal_strlit("weaver");
            assert("mirage"@[0] != "weaver"@[0]);
        },
        EliteSpec::Scourge => {
            reveal_strlit("Scourge");
            reveal_strlit("scourge");
            assert(ascii_lower("Scourge"@) =~= "scourge"@);
            reveal_strlit("dragonhunter");
            reveal_strlit("berserker");
            reveal_strlit("scrapper");
            reveal_strlit("druid");
            reveal_strlit("daredevil");
            reveal_strlit("tempest");
            assert("scourge"@[0] != "tempest"@[0]);
            reveal_strlit("chronomancer");
            reveal_strlit("reaper");
            reveal_strlit("herald");
            reveal_strlit("firebrand");
            reveal_strlit("spellbreaker");
            reveal_strlit("holosmith");
            reveal_strlit("soulbeast");
            reveal_strlit("deadeye");
            assert("scourge"@[0] != "deadeye"@[0]);
            reveal_strlit("weaver");
            reveal_strlit("mirage");
        },
        EliteSpec::Renegade => {
            reveal_strlit("Renegade");
            reveal_strlit("renegade");
            assert(ascii_lower("Renegade"@) =~= "renegade"@);
            reveal_strlit("dragonhunter");
            reveal_strlit("berserker");
            reveal_strlit("scrapper");
            assert("renegade"@[0] != "scrapper"@[0]);
            reveal_strlit("druid");
            reveal_strlit("daredevil");
            reveal_strlit("tempest");
            reveal_strlit("chronomancer");
            reveal_strlit("reaper");
            reveal_strlit("herald");
            reveal_strlit("firebrand");
            reveal_strlit("spellbreaker");
            reveal_strlit("holosmith");
            reveal_strlit("soulbeast");
            reveal_strlit("deadeye");
            reveal_strlit("weaver");
            reveal_strlit("mirage");
            reveal_strlit("scourge");
        },
        EliteSpec::Willbender => {
            reveal_strlit("Willbender");
            reveal_strlit("willbender");
            assert(ascii_lower("Willbender"@) =~= "willbender"@);
            reveal_strlit("dragonhunter");
            reveal_strlit("berserker");
            reveal_strlit("scrapper");
            reveal_strlit("druid");
            reveal_strlit("daredevil");
            reveal_strlit("tempest");
            reveal_strlit("chronomancer");
            reveal_strlit("reaper");
            reveal_strlit("herald");
            reveal_strlit("firebrand");
            reveal_strlit("spellbreaker");
            reveal_strlit("holosmith");
            reveal_strlit("soulbeast");
            reveal_strlit("deadeye");
            reveal_strlit("weaver");
            reveal_strlit("mirage");
            reveal_strlit("scourge");
            reveal_strlit("renegade");
        },
        EliteSpec::Bladesworn => {
            reveal_strlit("Bladesworn");
            reveal_strlit("bladesworn");
            assert(ascii_lower("Bladesworn"@) =~= "bladesworn"@);
            reveal_strlit("dragonhunter");
            reveal_strlit("berserker");
            reveal_strlit("scrapper");
            reveal_strlit("druid");
            reveal_strlit("daredevil");
            reveal_strlit("tempest");
            reveal_strlit("chronomancer");
            reveal_strlit("reaper");
            reveal_strlit("herald");
            reveal_strlit("firebrand");
            reveal_strlit("spellbreaker");
            reveal_strlit("holosmith");
            reveal_strlit("soulbeast");
            reveal_strlit("deadeye");
            reveal_strlit("weaver");
            reveal_strlit("mirage");
            reveal_strlit("scourge");
            reveal_strlit("renegade");
            reveal_strlit("willbender");
            assert("bladesworn"@[0] != "willbender"@[0]);
        },
        EliteSpec::Mechanist => {
            reveal_strlit("Mechanist");
            reveal_strlit("mechanist");
            assert(ascii_lower("Mechanist"@) =~= "mechanist"@);
            reveal_strlit("dragonhunter");
            reveal_strlit("berserker");
            assert("mechanist"@[0] != "berserker"@[0]);
            reveal_strlit("scrapper");
            reveal_strlit("druid");
            reveal_strlit("daredevil");
            assert("mechanist"@[0] != "daredevil"@[0]);
            reveal_strlit("tempest");
            reveal_strlit("chronomancer");
            reveal_strlit("reaper");
            reveal_strlit("herald");
            reveal_strlit("firebrand");
            assert("mechanist"@[0] != "firebrand"@[0]);
            reveal_strlit("spellbreaker");
            reveal_strlit("holosmith");
            assert("mechanist"@[0] != "holosmith"@[0]);
            reveal_strlit("soulbeast");
            assert("mechanist"@[0] != "soulbeast"@[0]);
            reveal_strlit("deadeye");
            reveal_strlit("weaver");
            reveal_strlit("mirage");
            reveal_strlit("scourge");
            reveal_strlit("renegade");
            reveal_strlit("willbender");
            reveal_strlit("bladesworn");
        },
        EliteSpec::Untamed => {
            reveal_strlit("Untamed");
            reveal_strlit("untamed");
            assert(ascii_lower("Untamed"@) =~= "untamed"@);
            reveal_strlit("dragonhunter");
            reveal_strlit("berserker");
            reveal_strlit("scrapper");
            reveal_strlit("druid");
            reveal_strlit("daredevil");
            reveal_strlit("tempest");
            assert("untamed"@[0] != "tempest"@[0]);
            reveal_strlit("chronomancer");
            reveal_strlit("reaper");
            reveal_strlit("herald");
            reveal_strlit("firebrand");
            reveal_strlit("spellbreaker");
            reveal_strlit("holosmith");
            reveal_strlit("soulbeast");
            reveal_strlit("deadeye");
            assert("untamed"@[0] != "deadeye"@[0]);
            reveal_strlit("weaver");
            reveal_strlit("mirage");
            reveal_strlit("scourge");
            assert("untamed"@[0] != "scourge"@[0]);
            reveal_strlit("renegade");
            reveal_strlit("willbender");
            reveal_strlit("bladesworn");
            reveal_strlit("mechanist");
        },
        EliteSpec::Specter => {
            reveal_strlit("Specter");
            reveal_strlit("specter");
            assert(ascii_lower("Specter"@) =~= "specter"@);
            reveal_strlit("dragonhunter");
            reveal_strlit("berserker");
            reveal_strlit("scrapper");
            reveal_strlit("druid");
            reveal_strlit("daredevil");
            reveal_strlit("tempest");
            assert("specter"@[0] != "tempest"@[0]);
            reveal_strlit("chronomancer");
            reveal_strlit("reaper");
            reveal_strlit("herald");
            reveal_strlit("firebrand");
            reveal_strlit("spellbreaker");
            reveal_strlit("holosmith");
            reveal_strlit("soulbeast");
            reveal_strlit("deadeye");
            assert("specter"@[0] != "deadeye"@[0]);
            reveal_strlit("weaver");
            reveal_strlit("mirage");
            reveal_strlit("scourge");
            assert("specter"@[1] != "scourge"@[1]);
            reveal_strlit("renegade");
            reveal_strlit("willbender");
            reveal_strlit("bladesworn");
            reveal_strlit("mechanist");
            reveal_strlit("untamed");
            assert("specter"@[0] != "untamed"@[0]);
        },
        EliteSpec::Catalyst => {
            reveal_strlit("Catalyst");
            reveal_strlit("catalyst");
            assert(ascii_lower("Catalyst"@) =~= "catalyst"@);
            reveal_strlit("dragonhunter");
            reveal_strlit("berserker");
            reveal_strlit("scrapper");
            assert("catalyst"@[0] != "scrapper"@[0]);
            reveal_strlit("druid");
            reveal_strlit("daredevil");
            reveal_strlit("tempest");
            reveal_strlit("chronomancer");
            reveal_strlit("reaper");
            reveal_strlit("herald");
            reveal_strlit("firebrand");
            reveal_strlit("spellbreaker");
            reveal_strlit("holosmith");
            reveal_strlit("soulbeast");
            reveal_strlit("deadeye");
            reveal_strlit("weaver");
            reveal_strlit("mirage");
            reveal_strlit("scourge");
            reveal_strlit("renegade");
            assert("catalyst"@[0] != "renegade"@[0]);
            reveal_strlit("willbender");
            reveal_strlit("bladesworn");
            reveal_strlit("mechanist");
            reveal_strlit("untamed");
            reveal_strlit("specter");
        },
        EliteSpec::Virtuoso => {
            reveal_strlit("Virtuoso");
            reveal_strlit("virtuoso");
            assert(ascii_lower("Virtuoso"@) =~= "virtuoso"@);
            reveal_strlit("dragonhunter");
            reveal_strlit("berserker");
            reveal_strlit("scrapper");
            assert("virtuoso"@[0] != "scrapper"@[0]);
            reveal_strlit("druid");
            reveal_strlit("daredevil");
            reveal_strlit("tempest");
            reveal_strlit("chronomancer");
            reveal_strlit("reaper");
            reveal_strlit("herald");
            reveal_strlit("firebrand");
            reveal_strlit("spellbreaker");
            reveal_strlit("holosmith");
            reveal_strlit("soulbeast");
            reveal_strlit("deadeye");
            reveal_strlit("weaver");
            reveal_strlit("mirage");
            reveal_strlit("scourge");
            reveal_strlit("renegade");
            assert("virtuoso"@[0] != "renegade"@[0]);
            reveal_strlit("willbender");
            reveal_strlit("bladesworn");
            reveal_strlit("mechanist");
            reveal_strlit("untamed");
            reveal_strlit("specter");
            reveal_strlit("catalyst");
            assert("virtuoso"@[0] != "catalyst"@[0]);
        },
        EliteSpec::Harbinger => {
            reveal_strlit("Harbinger");
            reveal_strlit("harbinger");
            assert(ascii_lower("Harbinger"@) =~= "harbinger"@);
            reveal_strlit("dragonhunter");
            reveal_strlit("berserker");
            assert("harbinger"@[0] != "berserker"@[0]);
            reveal_strlit("scrapper");
            reveal_strlit("druid");
            reveal_strlit("daredevil");
            assert("harbinger"@[0] != "daredevil"@[0]);
            reveal_strlit("tempest");
            reveal_strlit("chronomancer");
            reveal_strlit("reaper");
            reveal_strlit("herald");
            reveal_strlit("firebrand");
            assert("harbinger"@[0] != "firebrand"@[0]);
            reveal_strlit("spellbreaker");
            reveal_strlit("holosmith");
            assert("harbinger"@[1] != "holosmith"@[1]);
            reveal_strlit("soulbeast");
            assert("harbinger"@[0] != "soulbeast"@[0]);
            reveal_strlit("deadeye");
            reveal_strlit("weaver");
            reveal_strlit("mirage");
            reveal_strlit("scourge");
            reveal_strlit("renegade");
            reveal_strlit("willbender");
            reveal_strlit("bladesworn");
            reveal_strlit("mechanist");
            assert("harbinger"@[0] != "mechanist"@[0]);
            reveal_strlit("untamed");
            reveal_strlit("specter");
            reveal_strlit("catalyst");
            reveal_strlit("virtuoso");
        },
        EliteSpec::Vindicator => {
            reveal_strlit("Vindicator");
            reveal_strlit("vindicator");
            assert(ascii_lower("Vindicator"@) =~= "vindicator"@);
            reveal_strlit("dragonhunter");
            reveal_strlit("berserker");
            reveal_strlit("scrapper");
            reveal_strlit("druid");
            reveal_strlit("daredevil");
            reveal_strlit("tempest");
            reveal_strlit("chronomancer");
            reveal_strlit("reaper");
            reveal_strlit("herald");
            reveal_strlit("firebrand");
            reveal_strlit("spellbreaker");
            reveal_strlit("holosmith");
            reveal_strlit("soulbeast");
            reveal_strlit("deadeye");
            reveal_strlit("weaver");
            reveal_strlit("mirage");
            reveal_strlit("scourge");
            reveal_strlit("renegade");
            reveal_strlit("willbender");
            assert("vindicator"@[0] != "willbender"@[0]);
            reveal_strlit("bladesworn");
            assert("vindicator"@[0] != "bladesworn"@[0]);
            reveal_strlit("mechanist");
            reveal_strlit("untamed");
            reveal_strlit("specter");
            reveal_strlit("catalyst");
            reveal_strlit("virtuoso");
            reveal_strlit("harbinger");
        },
    }
}

/// The id of every profession is the fixed id that arcdps gives it.
pub proof fn lemma_profession_ids()
    ensures
        Profession::Guardian.code() == 1,
        Profession::Warrior.code() == 2,
        Profession::Engineer.code() == 3,
        Profession::Ranger.code() == 4,
        Profession::Thief.code() == 5,
        Profession::Elementalist.code() == 6,
        Profession::Mesmer.code() == 7,
        Profession::Necromancer.code() == 8,
        Profession::Revenant.code() == 9,
{
}

/// The id of every elite specialization is its specialization id in the game's API.
pub proof fn lemma_elite_spec_ids()
    ensures
        EliteSpec::Dragonhunter.code() == 27,
        EliteSpec::Berserker.code() == 18,
        EliteSpec::Scrapper.code() == 43,
        EliteSpec::Druid.code() == 5,
        EliteSpec::Daredevil.code() == 7,
        EliteSpec::Tempest.code() == 48,
        EliteSpec::Chronomancer.code() == 40,
        EliteSpec::Reaper.code() == 34,
        EliteSpec::Herald.code() == 52,
        EliteSpec::Firebrand.code() == 62,
        EliteSpec::Spellbreaker.code() == 61,
        EliteSpec::Holosmith.code() == 57,
        EliteSpec::Soulbeast.code() == 55,
        EliteSpec::Deadeye.code() == 58,
        EliteSpec::Weaver.code() == 56,
        EliteSpec::Mirage.code() == 59,
        EliteSpec::Scourge.code() == 60,
        EliteSpec::Renegade.code() == 63,
        EliteSpec::Willbender.code() == 65,
        EliteSpec::Bladesworn.code() == 68,
        EliteSpec::Mechanist.code() == 70,
        EliteSpec::Untamed.code() == 72,
        EliteSpec::Specter.code() == 71,
        EliteSpec::Catalyst.code() == 67,
        EliteSpec::Virtuoso.code() == 66,
        EliteSpec::Harbinger.code() == 64,
        EliteSpec::Vindicator.code() == 69,
{
}

/// The id of every boss is the species id of the boss in the game.
pub proof fn lemma_boss_ids()
    ensures
        Boss::ValeGuardian.code() == 0x3C4E,
        Boss::Gorseval.code() == 0x3C45,
        Boss::Sabetha.code() == 0x3C0F,
        Boss::Slothasor.code() == 0x3EFB,
        Boss::Berg.code() == 0x3ED8,
        Boss::Zane.code() == 0x3F09,
        Boss::Narella.code() == 0x3EFD,
        Boss::Matthias.code() == 0x3EF3,
        Boss::KeepConstruct.code() == 0x3F6B,
        Boss::Xera.code() == 0x3F76,
        Boss::Xera2.code() == 0x3F9E,
        Boss::Cairn.code() == 0x432A,
        Boss::MursaatOverseer.code() == 0x4314,
        Boss::Samarog.code() == 0x4324,
        Boss::Deimos.code() == 0x4302,
        Boss::SoullessHorror.code() == 0x4D37,
        Boss::BrokenKing.code() == 0x4CEB,
        Boss::EaterOfSouls.code() == 0x4C50,
        Boss::EyeOfJudgment.code() == 0x4CC3,
        Boss::EyeOfFate.code() == 0x4D84,
        Boss::Dhuum.code() == 0x4BFA,
        Boss::ConjuredAmalgamate.code() == 0xABC6,
        Boss::Nikare.code() == 0x5271,
        Boss::Kenut.code() == 0x5261,
        Boss::Qadim.code() == 0x51C6,
        Boss::CardinalAdina.code() == 0x55F6,
        Boss::CardinalSabir.code() == 0x55CC,
        Boss::QadimThePeerless.code() == 0x55F0,
        Boss::StandardKittyGolem.code() == 0x3F47,
        Boss::MediumKittyGolem.code() == 0x4CBD,
        Boss::LargeKittyGolem.code() == 0x4CDC,
        Boss::Ai.code() == 0x5AD6,
        Boss::Skorvald.code() == 0x44E0,
        Boss::Artsariiv.code() == 0x461D,
        Boss::Arkk.code() == 0x455F,
        Boss::MAMA.code() == 0x427D,
        Boss::Siax.code() == 0x4284,
        Boss::Ensolyss.code() == 0x4234,
        Boss::IcebroodConstruct.code() == 0x568A,
        Boss::VoiceOfTheFallen.code() == 0x5747,
        Boss::ClawOfTheFallen.code() == 0x57D1,
        Boss::FraenirOfJormag.code() == 0x57DC,
        Boss::Boneskinner.code() == 0x57F9,
        Boss::WhisperOfJormag.code() == 0x58B7,
        Boss::CaptainMaiTrin.code() == 0x5DE1,
        Boss::Ankka.code() == 0x5D95,
        Boss::MinisterLi.code() == 0x5FA5,
{
}

/// The header id of every encounter: the species id of the boss that starts it, or the id of its
/// own trigger (Twisted Castle, River of Souls, Dragonvoid).
pub proof fn lemma_encounter_ids()
    ensures
        Encounter::ValeGuardian.code() == 0x3C4E,
        Encounter::Gorseval.code() == 0x3C45,
        Encounter::Sabetha.code() == 0x3C0F,
        Encounter::Slothasor.code() == 0x3EFB,
        Encounter::BanditTrio.code() == 0x3ED8,
        Encounter::Matthias.code() == 0x3EF3,
        Encounter::KeepConstruct.code() == 0x3F6B,
        Encounter::TwistedCastle.code() == 0x3F77,
        Encounter::Xera.code() == 0x3F76,
        Encounter::Cairn.code() == 0x432A,
        Encounter::MursaatOverseer.code() == 0x4314,
        Encounter::Samarog.code() == 0x4324,
        Encounter::Deimos.code() == 0x4302,
        Encounter::SoullessHorror.code() == 0x4D37,
        Encounter::RiverOfSouls.code() == 0x4D74,
        Encounter::BrokenKing.code() == 0x4CEB,
        Encounter::EaterOfSouls.code() == 0x4C50,
        Encounter::StatueOfDarkness.code() == 0x4CC3,
        Encounter::VoiceInTheVoid.code() == 0x4BFA,
        Encounter::ConjuredAmalgamate.code() == 0xABC6,
        Encounter::TwinLargos.code() == 0x5271,
        Encounter::Qadim.code() == 0x51C6,
        Encounter::CardinalAdina.code() == 0x55F6,
        Encounter::CardinalSabir.code() == 0x55CC,
        Encounter::QadimThePeerless.code() == 0x55F0,
        Encounter::StandardKittyGolem.code() == 0x3F47,
        Encounter::MediumKittyGolem.code() == 0x4CBD,
        Encounter::LargeKittyGolem.code() == 0x4CDC,
        Encounter::Ai.code() == 0x5AD6,
        Encounter::Skorvald.code() == 0x44E0,
        Encounter::Artsariiv.code() == 0x461D,
        Encounter::Arkk.code() == 0x455F,
        Encounter::MAMA.code() == 0x427D,
        Encounter::Siax.code() == 0x4284,
        Encounter::Ensolyss.code() == 0x4234,
        Encounter::IcebroodConstruct.code() == 0x568A,
        Encounter::SuperKodanBrothers.code() == 0x5747,
        Encounter::FraenirOfJormag.code() == 0x57DC,
        Encounter::Boneskinner.code() == 0x57F9,
        Encounter::WhisperOfJormag.code() == 0x58B7,
        Encounter::CaptainMaiTrin.code() == 0x5DE1,
        Encounter::Ankka.code() == 0x5D95,
        Encounter::MinisterLi.code() == 0x5FA5,
        Encounter::Dragonvoid.code() == 0x0562,
{
}

/// The encounter of every boss: the fight that the boss is part of.
pub proof fn lemma_boss_encounters()
    ensures
        Boss::ValeGuardian.encounter_spec() == Encounter::ValeGuardian,
        Boss::Gorseval.encounter_spec() == Encounter::Gorseval,
        Boss::Sabetha.encounter_spec() == Encounter::Sabetha,
        Boss::Slothasor.encounter_spec() == Encounter::Slothasor,
        Boss::Berg.encounter_spec() == Encounter::BanditTrio,
        Boss::Zane.encounter_spec() == Encounter::BanditTrio,
        Boss::Narella.encounter_spec() == Encounter::BanditTrio,
        Boss::Matthias.encounter_spec() == Encounter::Matthias,
        Boss::KeepConstruct.encounter_spec() == Encounter::KeepConstruct,
        Boss::Xera.encounter_spec() == Encounter::Xera,
        Boss::Xera2.encounter_spec() == Encounter::Xera,
        Boss::Cairn.encounter_spec() == Encounter::Cairn,
        Boss::MursaatOverseer.encounter_spec() == Encounter::MursaatOverseer,
        Boss::Samarog.encounter_spec() == Encounter::Samarog,
        Boss::Deimos.encounter_spec() == Encounter::Deimos,
        Boss::SoullessHorror.encounter_spec() == Encounter::SoullessHorror,
        Boss::BrokenKing.encounter_spec() == Encounter::BrokenKing,
        Boss::EaterOfSouls.encounter_spec() == Encounter::EaterOfSouls,
        Boss::EyeOfJudgment.encounter_spec() == Encounter::StatueOfDarkness,
        Boss::EyeOfFate.encounter_spec() == Encounter::StatueOfDarkness,
        Boss::Dhuum.encounter_spec() == Encounter::VoiceInTheVoid,
        Boss::ConjuredAmalgamate.encounter_spec() == Encounter::ConjuredAmalgamate,
        Boss::Nikare.encounter_spec() == Encounter::TwinLargos,
        Boss::Kenut.encounter_spec() == Encounter::TwinLargos,
        Boss::Qadim.encounter_spec() == Encounter::Qadim,
        Boss::CardinalAdina.encounter_spec() == Encounter::CardinalAdina,
        Boss::CardinalSabir.encounter_spec() == Encounter::CardinalSabir,
        Boss::QadimThePeerless.encounter_spec() == Encounter::QadimThePeerless,
        Boss::StandardKittyGolem.encounter_spec() == Encounter::StandardKittyGolem,
        Boss::MediumKittyGolem.encounter_spec() == Encounter::MediumKittyGolem,
        Boss::LargeKittyGolem.encounter_spec() == Encounter::LargeKittyGolem,
        Boss::Ai.encounter_spec() == Encounter::Ai,
        Boss::Skorvald.encounter_spec() == Encounter::Skorvald,
        Boss::Artsariiv.encounter_spec() == Encounter::Artsariiv,
        Boss::Arkk.encounter_spec() == Encounter::Arkk,
        Boss::MAMA.encounter_spec() == Encounter::MAMA,
        Boss::Siax.encounter_spec() == Encounter::Siax,
        Boss::Ensolyss.encounter_spec() == Encounter::Ensolyss,
        Boss::IcebroodConstruct.encounter_spec() == Encounter::IcebroodConstruct,
        Boss::VoiceOfTheFallen.encounter_spec() == Encounter::SuperKodanBrothers,
        Boss::ClawOfTheFallen.encounter_spec() == Encounter::SuperKodanBrothers,
        Boss::FraenirOfJormag.encounter_spec() == Encounter::FraenirOfJormag,
        Boss::Boneskinner.encounter_spec() == Encounter::Boneskinner,
        Boss::WhisperOfJormag.encounter_spec() == Encounter::WhisperOfJormag,
        Boss::CaptainMaiTrin.encounter_spec() == Encounter::CaptainMaiTrin,
        Boss::Ankka.encounter_spec() == Encounter::Ankka,
        Boss::MinisterLi.encounter_spec() == Encounter::MinisterLi,
{
}

/// The game mode of every encounter by its group: the fractal challenge motes, the raid wings, the
/// strike missions and the training golems.
pub proof fn lemma_encounter_game_modes(e: Encounter)
    ensures
        e.game_mode_spec() == GameMode::Fractal <==> {
            ||| e == Encounter::MAMA
            ||| e == Encounter::Siax
            ||| e == Encounter::Ensolyss
            ||| e == Encounter::Skorvald
            ||| e == Encounter::Artsariiv
            ||| e == Encounter::Arkk
            ||| e == Encounter::Ai
        },
        e.game_mode_spec() == GameMode::Raid <==> {
            ||| e == Encounter::ValeGuardian
            ||| e == Encounter::Gorseval
            ||| e == Encounter::Sabetha
            ||| e == Encounter::Slothasor
            ||| e == Encounter::BanditTrio
            ||| e == Encounter::Matthias
            ||| e == Encounter::KeepConstruct
            ||| e == Encounter::TwistedCastle
            ||| e == Encounter::Xera
            ||| e == Encounter::Cairn
            ||| e == Encounter::MursaatOverseer
            ||| e == Encounter::Samarog
            ||| e == Encounter::Deimos
            ||| e == Encounter::SoullessHorror
            ||| e == Encounter::RiverOfSouls
            ||| e == Encounter::BrokenKing
            ||| e == Encounter::EaterOfSouls
            ||| e == Encounter::StatueOfDarkness
            ||| e == Encounter::VoiceInTheVoid
            ||| e == Encounter::ConjuredAmalgamate
            ||| e == Encounter::TwinLargos
            ||| e == Encounter::Qadim
            ||| e == Encounter::CardinalAdina
            ||| e == Encounter::CardinalSabir
            ||| e == Encounter::QadimThePeerless
        },
        e.game_mode_spec() == GameMode::Strike <==> {
            ||| e == Encounter::IcebroodConstruct
            ||| e == Encounter::Boneskinner
            ||| e == Encounter::SuperKodanBrothers
            ||| e == Encounter::FraenirOfJormag
            ||| e == Encounter::WhisperOfJormag
            ||| e == Encounter::CaptainMaiTrin
            ||| e == Encounter::Ankka
            ||| e == Encounter::MinisterLi
            ||| e == Encounter::Dragonvoid
        },
        e.game_mode_spec() == GameMode::Golem <==> {
            ||| e == Encounter::StandardKittyGolem
            ||| e == Encounter::MediumKittyGolem
            ||| e == Encounter::LargeKittyGolem
        },
{
}

/// The profession of every elite specialization: the profession that can take it.
pub proof fn lemma_elite_spec_professions()
    ensures
        EliteSpec::Dragonhunter.profession_spec() == Profession::Guardian,
        EliteSpec::Firebrand.profession_spec() == Profession::Guardian,
        EliteSpec::Willbender.profession_spec() == Profession::Guardian,
        EliteSpec::Berserker.profession_spec() == Profession::Warrior,
        EliteSpec::Spellbreaker.profession_spec() == Profession::Warrior,
        EliteSpec::Bladesworn.profession_spec() == Profession::Warrior,
        EliteSpec::Scrapper.profession_spec() == Profession::Engineer,
        EliteSpec::Holosmith.profession_spec() == Profession::Engineer,
        EliteSpec::Mechanist.profession_spec() == Profession::Engineer,
        EliteSpec::Druid.profession_spec() == Profession::Ranger,
        EliteSpec::Soulbeast.profession_spec() == Profession::Ranger,
        EliteSpec::Untamed.profession_spec() == Profession::Ranger,
        EliteSpec::Daredevil.profession_spec() == Profession::Thief,
        EliteSpec::Deadeye.profession_spec() == Profession::Thief,
        EliteSpec::Specter.profession_spec() == Profession::Thief,
        EliteSpec::Tempest.profession_spec() == Profession::Elementalist,
        EliteSpec::Weaver.profession_spec() == Profession::Elementalist,
        EliteSpec::Catalyst.profession_spec() == Profession::Elementalist,
        EliteSpec::Chronomancer.profession_spec() == Profession::Mesmer,
        EliteSpec::Mirage.profession_spec() == Profession::Mesmer,
        EliteSpec::Virtuoso.profession_spec() == Profession::Mesmer,
        EliteSpec::Reaper.profession_spec() == Profession::Necromancer,
        EliteSpec::Scourge.profession_spec() == Profession::Necromancer,
        EliteSpec::Harbinger.profession_spec() == Profession::Necromancer,
        EliteSpec::Herald.profession_spec() == Profession::Revenant,
        EliteSpec::Renegade.profession_spec() == Profession::Revenant,
        EliteSpec::Vindicator.profession_spec() == Profession::Revenant,
{
}

} // verus!
