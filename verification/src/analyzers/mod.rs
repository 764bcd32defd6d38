//! Traits and structures to analyze fights.
//!
//! Fights need different logic in order to determine specific data, for example each fight has a
//! different way to determine whether or not the Challenge Mote was activated, whether or not the
//! fight was successful, ...
//!
//! This module aims to unify that logic by providing the [`Analyzer`][Analyzer] trait, which
//! provides a unified interface to query this information. You can use
//! [`Log::analyzer`][crate::Log::analyzer] or [`for_log`][for_log] to obtain an analyzer fitting
//! for the encounter that is represented by the log.
//!
//! The analyzer of a log is an [`EncounterAnalyzer`], which holds the concrete analyzer for the
//! encounter and implements [`Analyzer`] by handing each call to it. Also keep in mind that an
//! analyzer keeps a reference to the log that it is analyzing, which can be accessed through
//! [`Analyzer::log`][Analyzer::log].
//!
//! The implementation of the different analyzers is split off in different submodules:
//! * [`raids`][raids] for the raid-related encounters.
//! * [`fractals`][fractals] for the fractal-specific encounters.
//! * [`strikes`][strikes] for the strike-mission specific encounters.
//!
//! Note that you should not create concrete analyzers on your own, as the behaviour is not
//! specified when you use a wrong analyzer for the given log. Rely only on
//! [`Log::analyzer`][crate::Log::analyzer] (or [`for_log`][for_log]) and the methods defined in
//! [`Analyzer`][Analyzer].
use vstd::prelude::*;

use crate::{Encounter, Log};

use fractals::{Ai, GenericFractal, Skorvald};
use raids::{
    Cairn, CardinalAdina, CardinalSabir, ConjuredAmalgamate, Deimos, Dhuum, GenericRaid, LargosTwins,
    MursaatOverseer, Qadim, QadimThePeerless, RiverOfSouls, Samarog, SoullessHorror, TwistedCastle,
    Xera,
};
use strikes::{Ankka, CaptainMaiTrin, Dragonvoid, GenericStrike, MinisterLi};

pub mod fractals;
pub mod helpers;
pub mod raids;
pub mod strikes;

verus! {

/// The outcome of a fight.
#[derive(Debug, Copy, Clone, PartialEq, Eq, Hash, Structural)]
pub enum Outcome {
    /// The fight succeeded.
    Success,
    /// The fight failed, i.e. the group wiped.
    Failure,
}

/// The outcome that a boolean stands for: `true` for success, `false` for failure.
pub open spec fn outcome_of(b: bool) -> Option<Outcome> {
    if b {
        Some(Outcome::Success)
    } else {
        Some(Outcome::Failure)
    }
}

impl Outcome {
    /// A function that turns a boolean into an [`Outcome`][Outcome].
    ///
    /// This is a convenience function that can help implementing
    /// [`Analyzer::outcome`][Analyzer::outcome], which is also why this function returns an Option
    /// instead of the outcome directly.
    ///
    /// This turns `true` into [`Outcome::Success`][Outcome::Success] and `false` into
    /// [`Outcome::Failure`][Outcome::Failure].
    pub fn from_bool(b: bool) -> (r: Option<Outcome>)
        ensures
            r == outcome_of(b),
    {
        if b {
            Some(Outcome::Success)
        } else {
            Some(Outcome::Failure)
        }
    }
}

/// An [`Analyzer`][Analyzer] is something that implements fight-dependent analyzing of the log.
///
/// For more information and explanations, see the [module level documentation][self].
pub trait Analyzer {
    /// The log being analyzed.
    spec fn spec_log(&self) -> Log;

    /// Whether the fight was done with the challenge mote activated.
    spec fn spec_is_cm(&self) -> bool;

    /// The outcome of the fight.
    spec fn spec_outcome(&self) -> Option<Outcome>;

    /// Returns a reference to the log being analyzed.
    fn log(&self) -> (r: &Log)
        ensures
            *r == self.spec_log(),
    ;

    /// Checks whether the fight was done with the challenge mote activated.
    fn is_cm(&self) -> (r: bool)
        ensures
            r == self.spec_is_cm(),
    ;

    /// Returns the outcome of the fight.
    ///
    /// Note that not all logs need to have an outcome, e.g. WvW or Golem logs may return `None`
    /// here.
    fn outcome(&self) -> (r: Option<Outcome>)
        ensures
            r == self.spec_outcome(),
    ;
}

/// The analyzer of a log: the concrete analyzer for its encounter.
#[derive(Debug, Clone, Copy)]
pub enum EncounterAnalyzer<'log> {
    /// See [`raids::GenericRaid`].
    GenericRaid(GenericRaid<'log>),
    /// See [`raids::TwistedCastle`].
    TwistedCastle(TwistedCastle<'log>),
    /// See [`raids::Xera`].
    Xera(Xera<'log>),
    /// See [`raids::Cairn`].
    Cairn(Cairn<'log>),
    /// See [`raids::MursaatOverseer`].
    MursaatOverseer(MursaatOverseer<'log>),
    /// See [`raids::Samarog`].
    Samarog(Samarog<'log>),
    /// See [`raids::Deimos`].
    Deimos(Deimos<'log>),
    /// See [`raids::SoullessHorror`].
    SoullessHorror(SoullessHorror<'log>),
    /// See [`raids::RiverOfSouls`].
    RiverOfSouls(RiverOfSouls<'log>),
    /// See [`raids::Dhuum`].
    Dhuum(Dhuum<'log>),
    /// See [`raids::ConjuredAmalgamate`].
    ConjuredAmalgamate(ConjuredAmalgamate<'log>),
    /// See [`raids::LargosTwins`].
    LargosTwins(LargosTwins<'log>),
    /// See [`raids::Qadim`].
    Qadim(Qadim<'log>),
    /// See [`raids::CardinalAdina`].
    CardinalAdina(CardinalAdina<'log>),
    /// See [`raids::CardinalSabir`].
    CardinalSabir(CardinalSabir<'log>),
    /// See [`raids::QadimThePeerless`].
    QadimThePeerless(QadimThePeerless<'log>),
    /// See [`fractals::Ai`].
    Ai(Ai<'log>),
    /// See [`fractals::Skorvald`].
    Skorvald(Skorvald<'log>),
    /// See [`fractals::GenericFractal`].
    GenericFractal(GenericFractal<'log>),
    /// See [`strikes::GenericStrike`].
    GenericStrike(GenericStrike<'log>),
    /// See [`strikes::CaptainMaiTrin`].
    CaptainMaiTrin(CaptainMaiTrin<'log>),
    /// See [`strikes::Ankka`].
    Ankka(Ankka<'log>),
    /// See [`strikes::MinisterLi`].
    MinisterLi(MinisterLi<'log>),
    /// See [`strikes::Dragonvoid`].
    Dragonvoid(Dragonvoid<'log>),
}

impl<'log> Analyzer for EncounterAnalyzer<'log> {
    open spec fn spec_log(&self) -> Log {
        match self {
            EncounterAnalyzer::GenericRaid(a) => a.spec_log(),
            EncounterAnalyzer::TwistedCastle(a) => a.spec_log(),
            EncounterAnalyzer::Xera(a) => a.spec_log(),
            EncounterAnalyzer::Cairn(a) => a.spec_log(),
            EncounterAnalyzer::MursaatOverseer(a) => a.spec_log(),
            EncounterAnalyzer::Samarog(a) => a.spec_log(),
            EncounterAnalyzer::Deimos(a) => a.spec_log(),
            EncounterAnalyzer::SoullessHorror(a) => a.spec_log(),
            EncounterAnalyzer::RiverOfSouls(a) => a.spec_log(),
            EncounterAnalyzer::Dhuum(a) => a.spec_log(),
            EncounterAnalyzer::ConjuredAmalgamate(a) => a.spec_log(),
            EncounterAnalyzer::LargosTwins(a) => a.spec_log(),
            EncounterAnalyzer::Qadim(a) => a.spec_log(),
            EncounterAnalyzer::CardinalAdina(a) => a.spec_log(),
            EncounterAnalyzer::CardinalSabir(a) => a.spec_log(),
            EncounterAnalyzer::QadimThePeerless(a) => a.spec_log(),
            EncounterAnalyzer::Ai(a) => a.spec_log(),
            EncounterAnalyzer::Skorvald(a) => a.spec_log(),
            EncounterAnalyzer::GenericFractal(a) => a.spec_log(),
            EncounterAnalyzer::GenericStrike(a) => a.spec_log(),
            EncounterAnalyzer::CaptainMaiTrin(a) => a.spec_log(),
            EncounterAnalyzer::Ankka(a) => a.spec_log(),
            EncounterAnalyzer::MinisterLi(a) => a.spec_log(),
            EncounterAnalyzer::Dragonvoid(a) => a.spec_log(),
        }
    }

    open spec fn spec_is_cm(&self) -> bool {
        match self {
            EncounterAnalyzer::GenericRaid(a) => a.spec_is_cm(),
            EncounterAnalyzer::TwistedCastle(a) => a.spec_is_cm(),
            EncounterAnalyzer::Xera(a) => a.spec_is_cm(),
            EncounterAnalyzer::Cairn(a) => a.spec_is_cm(),
            EncounterAnalyzer::MursaatOverseer(a) => a.spec_is_cm(),
            EncounterAnalyzer::Samarog(a) => a.spec_is_cm(),
            EncounterAnalyzer::Deimos(a) => a.spec_is_cm(),
            EncounterAnalyzer::SoullessHorror(a) => a.spec_is_cm(),
            EncounterAnalyzer::RiverOfSouls(a) => a.spec_is_cm(),
            EncounterAnalyzer::Dhuum(a) => a.spec_is_cm(),
            EncounterAnalyzer::ConjuredAmalgamate(a) => a.spec_is_cm(),
            EncounterAnalyzer::LargosTwins(a) => a.spec_is_cm(),
            EncounterAnalyzer::Qadim(a) => a.spec_is_cm(),
            EncounterAnalyzer::CardinalAdina(a) => a.spec_is_cm(),
            EncounterAnalyzer::CardinalSabir(a) => a.spec_is_cm(),
            EncounterAnalyzer::QadimThePeerless(a) => a.spec_is_cm(),
            EncounterAnalyzer::Ai(a) => a.spec_is_cm(),
            EncounterAnalyzer::Skorvald(a) => a.spec_is_cm(),
            EncounterAnalyzer::GenericFractal(a) => a.spec_is_cm(),
            EncounterAnalyzer::GenericStrike(a) => a.spec_is_cm(),
            EncounterAnalyzer::CaptainMaiTrin(a) => a.spec_is_cm(),
            EncounterAnalyzer::Ankka(a) => a.spec_is_cm(),
            EncounterAnalyzer::MinisterLi(a) => a.spec_is_cm(),
            EncounterAnalyzer::Dragonvoid(a) => a.spec_is_cm(),
        }
    }

    open spec fn spec_outcome(&self) -> Option<Outcome> {
        match self {
            EncounterAnalyzer::GenericRaid(a) => a.spec_outcome(),
            EncounterAnalyzer::TwistedCastle(a) => a.spec_outcome(),
            EncounterAnalyzer::Xera(a) => a.spec_outcome(),
            EncounterAnalyzer::Cairn(a) => a.spec_outcome(),
            EncounterAnalyzer::MursaatOverseer(a) => a.spec_outcome(),
            EncounterAnalyzer::Samarog(a) => a.spec_outcome(),
            EncounterAnalyzer::Deimos(a) => a.spec_outcome(),
            EncounterAnalyzer::SoullessHorror(a) => a.spec_outcome(),
            EncounterAnalyzer::RiverOfSouls(a) => a.spec_outcome(),
            EncounterAnalyzer::Dhuum(a) => a.spec_outcome(),
            EncounterAnalyzer::ConjuredAmalgamate(a) => a.spec_outcome(),
            EncounterAnalyzer::LargosTwins(a) => a.spec_outcome(),
            EncounterAnalyzer::Qadim(a) => a.spec_outcome(),
            EncounterAnalyzer::CardinalAdina(a) => a.spec_outcome(),
            EncounterAnalyzer::CardinalSabir(a) => a.spec_outcome(),
            EncounterAnalyzer::QadimThePeerless(a) => a.spec_outcome(),
            EncounterAnalyzer::Ai(a) => a.spec_outcome(),
            EncounterAnalyzer::Skorvald(a) => a.spec_outcome(),
            EncounterAnalyzer::GenericFractal(a) => a.spec_outcome(),
            EncounterAnalyzer::GenericStrike(a) => a.spec_outcome(),
            EncounterAnalyzer::CaptainMaiTrin(a) => a.spec_outcome(),
            EncounterAnalyzer::Ankka(a) => a.spec_outcome(),
            EncounterAnalyzer::MinisterLi(a) => a.spec_outcome(),
            EncounterAnalyzer::Dragonvoid(a) => a.spec_outcome(),
        }
    }

    fn log(&self) -> (r: &Log) {
        match self {
            EncounterAnalyzer::GenericRaid(a) => a.log(),
            EncounterAnalyzer::TwistedCastle(a) => a.log(),
            EncounterAnalyzer::Xera(a) => a.log(),
            EncounterAnalyzer::Cairn(a) => a.log(),
            EncounterAnalyzer::MursaatOverseer(a) => a.log(),
            EncounterAnalyzer::Samarog(a) => a.log(),
            EncounterAnalyzer::Deimos(a) => a.log(),
            EncounterAnalyzer::SoullessHorror(a) => a.log(),
            EncounterAnalyzer::RiverOfSouls(a) => a.log(),
            EncounterAnalyzer::Dhuum(a) => a.log(),
            EncounterAnalyzer::ConjuredAmalgamate(a) => a.log(),
            EncounterAnalyzer::LargosTwins(a) => a.log(),
            EncounterAnalyzer::Qadim(a) => a.log(),
            EncounterAnalyzer::CardinalAdina(a) => a.log(),
            EncounterAnalyzer::CardinalSabir(a) => a.log(),
            EncounterAnalyzer::QadimThePeerless(a) => a.log(),
            EncounterAnalyzer::Ai(a) => a.log(),
            EncounterAnalyzer::Skorvald(a) => a.log(),
            EncounterAnalyzer::GenericFractal(a) => a.log(),
            EncounterAnalyzer::GenericStrike(a) => a.log(),
            EncounterAnalyzer::CaptainMaiTrin(a) => a.log(),
            EncounterAnalyzer::Ankka(a) => a.log(),
            EncounterAnalyzer::MinisterLi(a) => a.log(),
            EncounterAnalyzer::Dragonvoid(a) => a.log(),
        }
    }

    fn is_cm(&self) -> (r: bool) {
        match self {
            EncounterAnalyzer::GenericRaid(a) => a.is_cm(),
            EncounterAnalyzer::TwistedCastle(a) => a.is_cm(),
            EncounterAnalyzer::Xera(a) => a.is_cm(),
            EncounterAnalyzer::Cairn(a) => a.is_cm(),
            EncounterAnalyzer::MursaatOverseer(a) => a.is_cm(),
            EncounterAnalyzer::Samarog(a) => a.is_cm(),
            EncounterAnalyzer::Deimos(a) => a.is_cm(),
            EncounterAnalyzer::SoullessHorror(a) => a.is_cm(),
            EncounterAnalyzer::RiverOfSouls(a) => a.is_cm(),
            EncounterAnalyzer::Dhuum(a) => a.is_cm(),
            EncounterAnalyzer::ConjuredAmalgamate(a) => a.is_cm(),
            EncounterAnalyzer::LargosTwins(a) => a.is_cm(),
            EncounterAnalyzer::Qadim(a) => a.is_cm(),
            EncounterAnalyzer::CardinalAdina(a) => a.is_cm(),
            EncounterAnalyzer::CardinalSabir(a) => a.is_cm(),
            EncounterAnalyzer::QadimThePeerless(a) => a.is_cm(),
            EncounterAnalyzer::Ai(a) => a.is_cm(),
            EncounterAnalyzer::Skorvald(a) => a.is_cm(),
            EncounterAnalyzer::GenericFractal(a) => a.is_cm(),
            EncounterAnalyzer::GenericStrike(a) => a.is_cm(),
            EncounterAnalyzer::CaptainMaiTrin(a) => a.is_cm(),
            EncounterAnalyzer::Ankka(a) => a.is_cm(),
            EncounterAnalyzer::MinisterLi(a) => a.is_cm(),
            EncounterAnalyzer::Dragonvoid(a) => a.is_cm(),
        }
    }

    fn outcome(&self) -> (r: Option<Outcome>) {
        match self {
            EncounterAnalyzer::GenericRaid(a) => a.outcome(),
            EncounterAnalyzer::TwistedCastle(a) => a.outcome(),
            EncounterAnalyzer::Xera(a) => a.outcome(),
            EncounterAnalyzer::Cairn(a) => a.outcome(),
            EncounterAnalyzer::MursaatOverseer(a) => a.outcome(),
            EncounterAnalyzer::Samarog(a) => a.outcome(),
            EncounterAnalyzer::Deimos(a) => a.outcome(),
            EncounterAnalyzer::SoullessHorror(a) => a.outcome(),
            EncounterAnalyzer::RiverOfSouls(a) => a.outcome(),
            EncounterAnalyzer::Dhuum(a) => a.outcome(),
            EncounterAnalyzer::ConjuredAmalgamate(a) => a.outcome(),
            EncounterAnalyzer::LargosTwins(a) => a.outcome(),
            EncounterAnalyzer::Qadim(a) => a.outcome(),
            EncounterAnalyzer::CardinalAdina(a) => a.outcome(),
            EncounterAnalyzer::CardinalSabir(a) => a.outcome(),
            EncounterAnalyzer::QadimThePeerless(a) => a.outcome(),
            EncounterAnalyzer::Ai(a) => a.outcome(),
            EncounterAnalyzer::Skorvald(a) => a.outcome(),
            EncounterAnalyzer::GenericFractal(a) => a.outcome(),
            EncounterAnalyzer::GenericStrike(a) => a.outcome(),
            EncounterAnalyzer::CaptainMaiTrin(a) => a.outcome(),
            EncounterAnalyzer::Ankka(a) => a.outcome(),
            EncounterAnalyzer::MinisterLi(a) => a.outcome(),
            EncounterAnalyzer::Dragonvoid(a) => a.outcome(),
        }
    }
}

/// The analyzer is the one for the encounter.
pub open spec fn analyzer_for(analyzer: EncounterAnalyzer, encounter: Encounter) -> bool {
    match encounter {
        Encounter::ValeGuardian | Encounter::Gorseval | Encounter::Sabetha | Encounter::Slothasor | Encounter::BanditTrio | Encounter::Matthias | Encounter::KeepConstruct | Encounter::BrokenKing | Encounter::EaterOfSouls | Encounter::StatueOfDarkness | Encounter::StandardKittyGolem | Encounter::MediumKittyGolem | Encounter::LargeKittyGolem => analyzer is GenericRaid,
        Encounter::TwistedCastle => analyzer is TwistedCastle,
        Encounter::Xera => analyzer is Xera,
        Encounter::Cairn => analyzer is Cairn,
        Encounter::MursaatOverseer => analyzer is MursaatOverseer,
        Encounter::Samarog => analyzer is Samarog,
        Encounter::Deimos => analyzer is Deimos,
        Encounter::SoullessHorror => analyzer is SoullessHorror,
        Encounter::RiverOfSouls => analyzer is RiverOfSouls,
        Encounter::VoiceInTheVoid => analyzer is Dhuum,
        Encounter::ConjuredAmalgamate => analyzer is ConjuredAmalgamate,
        Encounter::TwinLargos => analyzer is LargosTwins,
        Encounter::Qadim => analyzer is Qadim,
        Encounter::CardinalAdina => analyzer is CardinalAdina,
        Encounter::CardinalSabir => analyzer is CardinalSabir,
        Encounter::QadimThePeerless => analyzer is QadimThePeerless,
        Encounter::Ai => analyzer is Ai,
        Encounter::Skorvald => analyzer is Skorvald,
        Encounter::Artsariiv | Encounter::Arkk | Encounter::MAMA | Encounter::Siax | Encounter::Ensolyss => analyzer is GenericFractal,
        Encounter::IcebroodConstruct | Encounter::SuperKodanBrothers | Encounter::FraenirOfJormag | Encounter::Boneskinner | Encounter::WhisperOfJormag => analyzer is GenericStrike,
        Encounter::Dragonvoid => analyzer is Dragonvoid,
        Encounter::CaptainMaiTrin => analyzer is CaptainMaiTrin,
        Encounter::Ankka => analyzer is Ankka,
        Encounter::MinisterLi => analyzer is MinisterLi,
    }
}

/// Returns the correct [`Analyzer`][Analyzer] for the given log file: none where the log's
/// encounter is not known.
///
/// See also [`Log::analyzer`][crate::Log::analyzer].
pub fn for_log<'l>(log: &'l Log) -> (r: Option<EncounterAnalyzer<'l>>)
    ensures
        r is Some <==> Encounter::from_header_id_spec(log.spec_encounter_id()) is Some,
        r matches Some(a) ==> a.spec_log() == *log && analyzer_for(
            a,
            Encounter::from_header_id_spec(log.spec_encounter_id())->0,
        ),
{
    let boss = match log.encounter() {
        Some(b) => b,
        None => return None,
    };
    match boss {
        Encounter::ValeGuardian | Encounter::Gorseval | Encounter::Sabetha | Encounter::Slothasor | Encounter::BanditTrio | Encounter::Matthias | Encounter::KeepConstruct | Encounter::BrokenKing | Encounter::EaterOfSouls | Encounter::StatueOfDarkness | Encounter::StandardKittyGolem | Encounter::MediumKittyGolem | Encounter::LargeKittyGolem => Some(EncounterAnalyzer::GenericRaid(GenericRaid::new(log))),
        Encounter::TwistedCastle => Some(EncounterAnalyzer::TwistedCastle(TwistedCastle::new(log))),
        Encounter::Xera => Some(EncounterAnalyzer::Xera(Xera::new(log))),
        Encounter::Cairn => Some(EncounterAnalyzer::Cairn(Cairn::new(log))),
        Encounter::MursaatOverseer => Some(EncounterAnalyzer::MursaatOverseer(MursaatOverseer::new(log))),
        Encounter::Samarog => Some(EncounterAnalyzer::Samarog(Samarog::new(log))),
        Encounter::Deimos => Some(EncounterAnalyzer::Deimos(Deimos::new(log))),
        Encounter::SoullessHorror => Some(EncounterAnalyzer::SoullessHorror(SoullessHorror::new(log))),
        Encounter::RiverOfSouls => Some(EncounterAnalyzer::RiverOfSouls(RiverOfSouls::new(log))),
        Encounter::VoiceInTheVoid => Some(EncounterAnalyzer::Dhuum(Dhuum::new(log))),
        Encounter::ConjuredAmalgamate => Some(EncounterAnalyzer::ConjuredAmalgamate(ConjuredAmalgamate::new(log))),
        Encounter::TwinLargos => Some(EncounterAnalyzer::LargosTwins(LargosTwins::new(log))),
        Encounter::Qadim => Some(EncounterAnalyzer::Qadim(Qadim::new(log))),
        Encounter::CardinalAdina => Some(EncounterAnalyzer::CardinalAdina(CardinalAdina::new(log))),
        Encounter::CardinalSabir => Some(EncounterAnalyzer::CardinalSabir(CardinalSabir::new(log))),
        Encounter::QadimThePeerless => Some(EncounterAnalyzer::QadimThePeerless(QadimThePeerless::new(log))),
        Encounter::Ai => Some(EncounterAnalyzer::Ai(Ai::new(log))),
        Encounter::Skorvald => Some(EncounterAnalyzer::Skorvald(Skorvald::new(log))),
        Encounter::Artsariiv | Encounter::Arkk | Encounter::MAMA | Encounter::Siax | Encounter::Ensolyss => Some(EncounterAnalyzer::GenericFractal(GenericFractal::new(log))),
        Encounter::IcebroodConstruct | Encounter::SuperKodanBrothers | Encounter::FraenirOfJormag | Encounter::Boneskinner | Encounter::WhisperOfJormag => Some(EncounterAnalyzer::GenericStrike(GenericStrike::new(log))),
        Encounter::Dragonvoid => Some(EncounterAnalyzer::Dragonvoid(Dragonvoid::new(log))),
        Encounter::CaptainMaiTrin => Some(EncounterAnalyzer::CaptainMaiTrin(CaptainMaiTrin::new(log))),
        Encounter::Ankka => Some(EncounterAnalyzer::Ankka(Ankka::new(log))),
        Encounter::MinisterLi => Some(EncounterAnalyzer::MinisterLi(MinisterLi::new(log))),
    }
}

/// Whether the fight of the log, an encounter of the given kind, was done with the challenge mote
/// activated, as its analyzer decides.
pub open spec fn cm_for(log: &Log, encounter: Encounter) -> bool {
    match encounter {
        Encounter::Cairn => helpers::has_buff(log, raids::CAIRN_CM_BUFF),
        Encounter::MursaatOverseer => helpers::health_at_least(log, raids::MO_CM_HEALTH),
        Encounter::Samarog => helpers::health_at_least(log, raids::SAMAROG_CM_HEALTH),
        Encounter::Deimos => helpers::health_at_least(log, raids::DEIMOS_CM_HEALTH),
        Encounter::SoullessHorror => {
            let tbb = helpers::time_between_buffs_spec(log, raids::DESMINA_BUFF_ID);
            tbb > 0 && tbb <= raids::DESMINA_MS_THRESHOLD
        },
        Encounter::VoiceInTheVoid => helpers::health_at_least(log, raids::DHUUM_CM_HEALTH),
        Encounter::ConjuredAmalgamate => helpers::has_buff(log, raids::CA_CM_BUFF),
        Encounter::TwinLargos => helpers::health_at_least(log, raids::LARGOS_CM_HEALTH),
        Encounter::Qadim => helpers::health_at_least(log, raids::QADIM_CM_HEALTH),
        Encounter::CardinalAdina => helpers::health_at_least(log, raids::ADINA_CM_HEALTH),
        Encounter::CardinalSabir => helpers::health_at_least(log, raids::SABIR_CM_HEALTH),
        Encounter::QadimThePeerless => helpers::health_at_least(log, raids::QADIMP_CM_HEALTH),
        Encounter::Ai | Encounter::Artsariiv | Encounter::Arkk | Encounter::MAMA | Encounter::Siax
        | Encounter::Ensolyss => true,
        Encounter::Skorvald => helpers::health_at_least(log, fractals::SKORVALD_CM_HEALTH)
            || exists|k: int|
            0 <= k < helpers::character_views(log).len() && fractals::is_cm_anomaly(
                #[trigger] helpers::character_views(log)[k],
            ),
        Encounter::CaptainMaiTrin => match helpers::max_boss_health(
            log,
            crate::processing::event_views(log.spec_events()),
        ) {
            Some(h) => h > strikes::MAI_CM_HEALTH,
            None => false,
        },
        _ => false,
    }
}

} // verus!
