use evtclib::gamedata::{Boss, EliteSpec, Encounter, GameMode, Profession};

#[test]
fn test_gamemode_parsing_ok() {
    let tests: &[(&'static str, GameMode)] = &[
        ("raid", GameMode::Raid),
        ("Raid", GameMode::Raid),
        ("fractal", GameMode::Fractal),
        ("Fractal", GameMode::Fractal),
        ("strike", GameMode::Strike),
        ("Strike", GameMode::Strike),
        ("golem", GameMode::Golem),
        ("Golem", GameMode::Golem),
        ("wvw", GameMode::WvW),
        ("WvW", GameMode::WvW),
    ];

    for (input, expected) in tests {
        assert_eq!(
            input.parse(),
            Ok(*expected),
            "parsing input {:?} failed",
            input
        );
    }
}

#[test]
fn test_encounter_parsing_ok() {
    let tests: &[(&'static str, Encounter)] = &[
        ("vg", Encounter::ValeGuardian),
        ("VG", Encounter::ValeGuardian),
        ("vale guardian", Encounter::ValeGuardian),
        ("Vale Guardian", Encounter::ValeGuardian),
        ("gorse", Encounter::Gorseval),
        ("Gorse", Encounter::Gorseval),
        ("gorseval", Encounter::Gorseval),
        ("Gorseval", Encounter::Gorseval),
        ("sab", Encounter::Sabetha),
        ("sabetha", Encounter::Sabetha),
        ("Sabetha", Encounter::Sabetha),
        ("sloth", Encounter::Slothasor),
        ("slothasor", Encounter::Slothasor),
        ("Slothasor", Encounter::Slothasor),
        ("trio", Encounter::BanditTrio),
        ("bandit trio", Encounter::BanditTrio),
        ("Trio", Encounter::BanditTrio),
        ("berg", Encounter::BanditTrio),
        ("zane", Encounter::BanditTrio),
        ("narella", Encounter::BanditTrio),
        ("matthias", Encounter::Matthias),
        ("Matthias", Encounter::Matthias),
        ("kc", Encounter::KeepConstruct),
        ("KC", Encounter::KeepConstruct),
        ("keep construct", Encounter::KeepConstruct),
        ("Keep Construct", Encounter::KeepConstruct),
        ("tc", Encounter::TwistedCastle),
        ("TC", Encounter::TwistedCastle),
        ("twisted castle", Encounter::TwistedCastle),
        ("Twisted Castle", Encounter::TwistedCastle),
        ("xera", Encounter::Xera),
        ("Xera", Encounter::Xera),
        ("cairn", Encounter::Cairn),
        ("Cairn", Encounter::Cairn),
        ("mo", Encounter::MursaatOverseer),
        ("MO", Encounter::MursaatOverseer),
        ("mursaat overseer", Encounter::MursaatOverseer),
        ("Mursaat Overseer", Encounter::MursaatOverseer),
        ("samarog", Encounter::Samarog),
        ("Samarog", Encounter::Samarog),
        ("deimos", Encounter::Deimos),
        ("Deimos", Encounter::Deimos),
        ("sh", Encounter::SoullessHorror),
        ("soulless horror", Encounter::SoullessHorror),
        ("desmina", Encounter::SoullessHorror),
        ("Desmina", Encounter::SoullessHorror),
        ("river", Encounter::RiverOfSouls),
        ("River", Encounter::RiverOfSouls),
        ("river of souls", Encounter::RiverOfSouls),
        ("broken king", Encounter::BrokenKing),
        ("Broken King", Encounter::BrokenKing),
        ("eater", Encounter::EaterOfSouls),
        ("eater of souls", Encounter::EaterOfSouls),
        ("Eater of Souls", Encounter::EaterOfSouls),
        ("eyes", Encounter::StatueOfDarkness),
        ("statue of darkness", Encounter::StatueOfDarkness),
        ("Statue of Darkness", Encounter::StatueOfDarkness),
        ("dhuum", Encounter::VoiceInTheVoid),
        ("Dhuum", Encounter::VoiceInTheVoid),
        ("ca", Encounter::ConjuredAmalgamate),
        ("conjured amalgamate", Encounter::ConjuredAmalgamate),
        ("Conjured Amalgamate", Encounter::ConjuredAmalgamate),
        ("largos", Encounter::TwinLargos),
        ("twins", Encounter::TwinLargos),
        ("largos twins", Encounter::TwinLargos),
        ("qadim", Encounter::Qadim),
        ("Qadim", Encounter::Qadim),
        ("adina", Encounter::CardinalAdina),
        ("cardinal adina", Encounter::CardinalAdina),
        ("Cardinal Adina", Encounter::CardinalAdina),
        ("sabir", Encounter::CardinalSabir),
        ("cardinal sabir", Encounter::CardinalSabir),
        ("Cardinal Sabir", Encounter::CardinalSabir),
        ("qadimp", Encounter::QadimThePeerless),
        ("qadim the peerless", Encounter::QadimThePeerless),
        ("Qadim The Peerless", Encounter::QadimThePeerless),
        ("Ai", Encounter::Ai),
        ("ai", Encounter::Ai),
        ("skorvald", Encounter::Skorvald),
        ("Skorvald", Encounter::Skorvald),
        ("artsariiv", Encounter::Artsariiv),
        ("Artsariiv", Encounter::Artsariiv),
        ("arkk", Encounter::Arkk),
        ("Arkk", Encounter::Arkk),
        ("mama", Encounter::MAMA),
        ("MAMA", Encounter::MAMA),
        ("siax", Encounter::Siax),
        ("SIAX", Encounter::Siax),
        ("ensolyss", Encounter::Ensolyss),
        ("Ensolyss", Encounter::Ensolyss),
        ("Ensolyss of the Endless Torment", Encounter::Ensolyss),
        ("icebrood", Encounter::IcebroodConstruct),
        ("Icebrood Construct", Encounter::IcebroodConstruct),
        ("fraenir", Encounter::FraenirOfJormag),
        ("Fraenir of Jormag", Encounter::FraenirOfJormag),
        ("boneskinner", Encounter::Boneskinner),
        ("kodans", Encounter::SuperKodanBrothers),
        ("whisper", Encounter::WhisperOfJormag),
        ("Whisper of Jormag", Encounter::WhisperOfJormag),
        ("captain mai trin", Encounter::CaptainMaiTrin),
        ("Captain Mai Trin", Encounter::CaptainMaiTrin),
        ("mai trin", Encounter::CaptainMaiTrin),
        ("Mai Trin", Encounter::CaptainMaiTrin),
        ("ankka", Encounter::Ankka),
        ("Ankka", Encounter::Ankka),
        ("minister li", Encounter::MinisterLi),
        ("Minister Li", Encounter::MinisterLi),
        ("li", Encounter::MinisterLi),
        ("Li", Encounter::MinisterLi),
        ("dragonvoid", Encounter::Dragonvoid),
        ("Dragonvoid", Encounter::Dragonvoid),
        ("the dragonvoid", Encounter::Dragonvoid),
        ("The Dragonvoid", Encounter::Dragonvoid),
    ];

    for (input, expected) in tests {
        assert_eq!(
            input.parse(),
            Ok(*expected),
            "parsing input {:?} failed",
            input
        );
    }
}

#[test]
fn test_encounter_parsing_err() {
    let tests = &[
        "",
        "vga",
        "VGA",
        "foovg",
        "valeguardian",
        "ValeGuardian",
        "slotha",
        "slot",
        "slothasora",
        "cardinal",
    ];
    for test in tests {
        assert!(test.parse::<Encounter>().is_err());
    }
}

#[test]
fn test_boss_parsing_ok() {
    let tests: &[(&'static str, Boss)] = &[
        ("vg", Boss::ValeGuardian),
        ("VG", Boss::ValeGuardian),
        ("vale guardian", Boss::ValeGuardian),
        ("Vale Guardian", Boss::ValeGuardian),
        ("gorse", Boss::Gorseval),
        ("Gorse", Boss::Gorseval),
        ("gorseval", Boss::Gorseval),
        ("Gorseval", Boss::Gorseval),
        ("sab", Boss::Sabetha),
        ("sabetha", Boss::Sabetha),
        ("Sabetha", Boss::Sabetha),
        ("sloth", Boss::Slothasor),
        ("slothasor", Boss::Slothasor),
        ("Slothasor", Boss::Slothasor),
        ("berg", Boss::Berg),
        ("Berg", Boss::Berg),
        ("zane", Boss::Zane),
        ("Zane", Boss::Zane),
        ("narella", Boss::Narella),
        ("Narella", Boss::Narella),
        ("matthias", Boss::Matthias),
        ("Matthias", Boss::Matthias),
        ("kc", Boss::KeepConstruct),
        ("KC", Boss::KeepConstruct),
        ("keep construct", Boss::KeepConstruct),
        ("Keep Construct", Boss::KeepConstruct),
        ("xera", Boss::Xera),
        ("Xera", Boss::Xera),
        ("cairn", Boss::Cairn),
        ("Cairn", Boss::Cairn),
        ("mo", Boss::MursaatOverseer),
        ("MO", Boss::MursaatOverseer),
        ("mursaat overseer", Boss::MursaatOverseer),
        ("Mursaat Overseer", Boss::MursaatOverseer),
        ("samarog", Boss::Samarog),
        ("Samarog", Boss::Samarog),
        ("deimos", Boss::Deimos),
        ("Deimos", Boss::Deimos),
        ("sh", Boss::SoullessHorror),
        ("soulless horror", Boss::SoullessHorror),
        ("desmina", Boss::SoullessHorror),
        ("Desmina", Boss::SoullessHorror),
        ("broken king", Boss::BrokenKing),
        ("Broken King", Boss::BrokenKing),
        ("eater", Boss::EaterOfSouls),
        ("eater of souls", Boss::EaterOfSouls),
        ("Eater of Souls", Boss::EaterOfSouls),
        ("eye of judgment", Boss::EyeOfJudgment),
        ("Eye of Judgment", Boss::EyeOfJudgment),
        ("eye of fate", Boss::EyeOfFate),
        ("Eye of Fate", Boss::EyeOfFate),
        ("dhuum", Boss::Dhuum),
        ("Dhuum", Boss::Dhuum),
        ("ca", Boss::ConjuredAmalgamate),
        ("conjured amalgamate", Boss::ConjuredAmalgamate),
        ("Conjured Amalgamate", Boss::ConjuredAmalgamate),
        ("kenut", Boss::Kenut),
        ("Kenut", Boss::Kenut),
        ("nikare", Boss::Nikare),
        ("Nikare", Boss::Nikare),
        ("qadim", Boss::Qadim),
        ("Qadim", Boss::Qadim),
        ("adina", Boss::CardinalAdina),
        ("cardinal adina", Boss::CardinalAdina),
        ("Cardinal Adina", Boss::CardinalAdina),
        ("sabir", Boss::CardinalSabir),
        ("cardinal sabir", Boss::CardinalSabir),
        ("Cardinal Sabir", Boss::CardinalSabir),
        ("qadimp", Boss::QadimThePeerless),
        ("qadim the peerless", Boss::QadimThePeerless),
        ("Qadim The Peerless", Boss::QadimThePeerless),
        ("Ai", Boss::Ai),
        ("ai", Boss::Ai),
        ("skorvald", Boss::Skorvald),
        ("Skorvald", Boss::Skorvald),
        ("artsariiv", Boss::Artsariiv),
        ("Artsariiv", Boss::Artsariiv),
        ("arkk", Boss::Arkk),
        ("Arkk", Boss::Arkk),
        ("mama", Boss::MAMA),
        ("MAMA", Boss::MAMA),
        ("siax", Boss::Siax),
        ("SIAX", Boss::Siax),
        ("ensolyss", Boss::Ensolyss),
        ("Ensolyss", Boss::Ensolyss),
        ("Ensolyss of the Endless Torment", Boss::Ensolyss),
        ("icebrood", Boss::IcebroodConstruct),
        ("Icebrood Construct", Boss::IcebroodConstruct),
        ("fraenir", Boss::FraenirOfJormag),
        ("Fraenir of Jormag", Boss::FraenirOfJormag),
        ("boneskinner", Boss::Boneskinner),
        ("claw", Boss::ClawOfTheFallen),
        ("Claw", Boss::ClawOfTheFallen),
        ("Claw of the Fallen", Boss::ClawOfTheFallen),
        ("voice", Boss::VoiceOfTheFallen),
        ("Voice", Boss::VoiceOfTheFallen),
        ("Voice of the Fallen", Boss::VoiceOfTheFallen),
        ("whisper", Boss::WhisperOfJormag),
        ("Whisper of Jormag", Boss::WhisperOfJormag),
        ("captain mai trin", Boss::CaptainMaiTrin),
        ("Captain Mai Trin", Boss::CaptainMaiTrin),
        ("mai trin", Boss::CaptainMaiTrin),
        ("Mai Trin", Boss::CaptainMaiTrin),
        ("ankka", Boss::Ankka),
        ("Ankka", Boss::Ankka),
        ("minister li", Boss::MinisterLi),
        ("Minister Li", Boss::MinisterLi),
        ("li", Boss::MinisterLi),
        ("Li", Boss::MinisterLi),
    ];

    for (input, expected) in tests {
        assert_eq!(
            input.parse(),
            Ok(*expected),
            "parsing input {:?} failed",
            input
        );
    }
}

#[test]
fn test_boss_parsing_err() {
    let tests = &[
        "",
        "vga",
        "VGA",
        "foovg",
        "valeguardian",
        "ValeGuardian",
        "slotha",
        "slot",
        "slothasora",
        "cardinal",
        // The following are encounters, make sure we don't parse them as bosses.
        "twins",
        "kodans",
        "twin largos",
    ];
    for test in tests {
        assert!(test.parse::<Boss>().is_err());
    }
}

#[test]
fn test_profession_parsing_ok() {
    let tests: &[(&'static str, Profession)] = &[
        ("guardian", Profession::Guardian),
        ("Guardian", Profession::Guardian),
        ("warrior", Profession::Warrior),
        ("Warrior", Profession::Warrior),
        ("revenant", Profession::Revenant),
        ("Revenant", Profession::Revenant),
        ("thief", Profession::Thief),
        ("Thief", Profession::Thief),
        ("engineer", Profession::Engineer),
        ("Engineer", Profession::Engineer),
        ("ranger", Profession::Ranger),
        ("Ranger", Profession::Ranger),
        ("mesmer", Profession::Mesmer),
        ("Mesmer", Profession::Mesmer),
        ("elementalist", Profession::Elementalist),
        ("Elementalist", Profession::Elementalist),
        ("necromancer", Profession::Necromancer),
        ("Necromancer", Profession::Necromancer),
    ];

    for (input, expected) in tests {
        assert_eq!(
            input.parse(),
            Ok(*expected),
            "parsing input {:?} failed",
            input
        );
    }
}

#[test]
fn test_profession_parsing_err() {
    let tests = &["", "guardiann", "gu", "thiefthief"];
    for test in tests {
        assert!(test.parse::<Profession>().is_err());
    }
}

#[test]
fn test_elite_spec_parsing_ok() {
    let tests: &[(&'static str, EliteSpec)] = &[
        ("dragonhunter", EliteSpec::Dragonhunter),
        ("Dragonhunter", EliteSpec::Dragonhunter),
        ("firebrand", EliteSpec::Firebrand),
        ("Firebrand", EliteSpec::Firebrand),
        ("willbender", EliteSpec::Willbender),
        ("Willbender", EliteSpec::Willbender),
        ("berserker", EliteSpec::Berserker),
        ("Berserker", EliteSpec::Berserker),
        ("spellbreaker", EliteSpec::Spellbreaker),
        ("Spellbreaker", EliteSpec::Spellbreaker),
        ("bladesworn", EliteSpec::Bladesworn),
        ("Bladesworn", EliteSpec::Bladesworn),
        ("herald", EliteSpec::Herald),
        ("Herald", EliteSpec::Herald),
        ("renegade", EliteSpec::Renegade),
        ("Renegade", EliteSpec::Renegade),
        ("vindicator", EliteSpec::Vindicator),
        ("Vindicator", EliteSpec::Vindicator),
        ("daredevil", EliteSpec::Daredevil),
        ("Daredevil", EliteSpec::Daredevil),
        ("deadeye", EliteSpec::Deadeye),
        ("Deadeye", EliteSpec::Deadeye),
        ("specter", EliteSpec::Specter),
        ("Specter", EliteSpec::Specter),
        ("scrapper", EliteSpec::Scrapper),
        ("Scrapper", EliteSpec::Scrapper),
        ("holosmith", EliteSpec::Holosmith),
        ("Holosmith", EliteSpec::Holosmith),
        ("mechanist", EliteSpec::Mechanist),
        ("Mechanist", EliteSpec::Mechanist),
        ("druid", EliteSpec::Druid),
        ("Druid", EliteSpec::Druid),
        ("soulbeast", EliteSpec::Soulbeast),
        ("Soulbeast", EliteSpec::Soulbeast),
        ("untamed", EliteSpec::Untamed),
        ("Untamed", EliteSpec::Untamed),
        ("tempest", EliteSpec::Tempest),
        ("Tempest", EliteSpec::Tempest),
        ("weaver", EliteSpec::Weaver),
        ("Weaver", EliteSpec::Weaver),
        ("catalyst", EliteSpec::Catalyst),
        ("Catalyst", EliteSpec::Catalyst),
        ("chronomancer", EliteSpec::Chronomancer),
        ("Chronomancer", EliteSpec::Chronomancer),
        ("mirage", EliteSpec::Mirage),
        ("Mirage", EliteSpec::Mirage),
        ("virtuoso", EliteSpec::Virtuoso),
        ("Virtuoso", EliteSpec::Virtuoso),
        ("reaper", EliteSpec::Reaper),
        ("Reaper", EliteSpec::Reaper),
        ("scourge", EliteSpec::Scourge),
        ("Scourge", EliteSpec::Scourge),
        ("harbinger", EliteSpec::Harbinger),
        ("Harbinger", EliteSpec::Harbinger),
    ];

    for (input, expected) in tests {
        assert_eq!(
            input.parse(),
            Ok(*expected),
            "parsing input {:?} failed",
            input
        );
    }
}

#[test]
fn test_elite_spec_parsing_err() {
    let tests = &[
        "",
        "dragonhunterr",
        "dragonhunt",
        "berserkerberserker",
        "berserk",
    ];
    for test in tests {
        assert!(test.parse::<EliteSpec>().is_err());
    }
}

#[test]
fn bosses_and_encounters_agree() {
    let bosses = [
        Boss::ValeGuardian,
        Boss::Zane,
        Boss::Xera2,
        Boss::EyeOfFate,
        Boss::Kenut,
        Boss::ClawOfTheFallen,
        Boss::MinisterLi,
        Boss::Skorvald,
    ];
    for boss in bosses {
        let encounter = boss.encounter();
        assert!(encounter.bosses().contains(&boss));
        assert_eq!(Encounter::from_header_id(boss.id()), Some(encounter));
    }
    let encounters = [
        Encounter::BanditTrio,
        Encounter::TwinLargos,
        Encounter::RiverOfSouls,
        Encounter::SuperKodanBrothers,
        Encounter::Ai,
        Encounter::LargeKittyGolem,
    ];
    for encounter in encounters {
        for boss in encounter.bosses() {
            assert_eq!(boss.encounter(), encounter);
        }
        assert_eq!(Encounter::from_header_id(encounter.id()), Some(encounter));
        assert_ne!(encounter.game_mode(), GameMode::WvW);
    }
    assert_eq!(Encounter::from_header_id(Boss::Kenut.id()), Some(Encounter::TwinLargos));
    assert!(Encounter::RiverOfSouls.bosses().is_empty());
    assert_eq!(Encounter::Ai.game_mode(), GameMode::Fractal);
    assert_eq!(Encounter::Dragonvoid.game_mode(), GameMode::Strike);
}

#[test]
fn parse_errors_name_the_input() {
    assert_eq!(
        "VGA".parse::<Boss>().unwrap_err().to_string(),
        "Invalid boss identifier: VGA"
    );
    assert_eq!(
        "foovg".parse::<Encounter>().unwrap_err().to_string(),
        "Invalid encounter identifier: foovg"
    );
    assert_eq!(
        "pvp".parse::<GameMode>().unwrap_err().to_string(),
        "Invalid encounter identifier: pvp"
    );
    assert_eq!(
        "gu".parse::<Profession>().unwrap_err().to_string(),
        "Invalid profession identifier: gu"
    );
    assert_eq!(
        "berserk".parse::<EliteSpec>().unwrap_err().to_string(),
        "Invalid elite specialization identifier: berserk"
    );
}

#[test]
fn display_names_parse_back() {
    for p in [Profession::Guardian, Profession::Necromancer, Profession::Revenant] {
        assert_eq!(p.to_string().parse::<Profession>(), Ok(p));
        assert_eq!(p.to_string().to_uppercase().parse::<Profession>(), Ok(p));
    }
    for e in [EliteSpec::Dragonhunter, EliteSpec::Chronomancer, EliteSpec::Vindicator] {
        assert_eq!(e.to_string().parse::<EliteSpec>(), Ok(e));
    }
}
