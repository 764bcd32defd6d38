use std::io::Write;

use evtclib::analyzers::helpers::{
    boss_health, boss_is_dead, buff_present, players_exit_after_boss, time_between_buffs,
};
use evtclib::analyzers::{for_log, Analyzer, Outcome};
use evtclib::gamedata::{EliteSpec, Encounter, Profession};
use evtclib::raw::parser::Header;
use evtclib::raw::{Agent as RawAgent, CbtEvent, CbtStateChange, Evtc, IFF};
use evtclib::statistics::gamedata::get_mechanics;
use evtclib::statistics::trackers::{
    CombatTimeTracker, DamageTracker, LogStartTracker, MechanicTracker, Tracker,
};
use evtclib::{
    process, process_stream, AgentKind, Compression, EventKind, EvtcErrorKind,
    Log,
};

fn name(parts: &[&[u8]]) -> [u8; 64] {
    let mut out = [0u8; 64];
    let mut pos = 0;
    for part in parts {
        out[pos..pos + part.len()].copy_from_slice(part);
        pos += part.len() + 1;
    }
    out
}

fn player(addr: u64, prof: u32, elite: u32, character: &[u8], account: &[u8], group: u8) -> RawAgent {
    RawAgent {
        addr,
        prof,
        is_elite: elite,
        toughness: 1,
        concentration: 2,
        healing: 3,
        condition: 4,
        name: name(&[character, account, &[group]]),
    }
}

fn character(addr: u64, id: u16, character: &[u8]) -> RawAgent {
    RawAgent {
        addr,
        prof: id as u32,
        is_elite: u32::MAX,
        toughness: 0,
        concentration: 0,
        healing: 0,
        condition: 0,
        name: name(&[character]),
    }
}

fn gadget(addr: u64, id: u16, gadget: &[u8]) -> RawAgent {
    RawAgent {
        addr,
        prof: 0xffff_0000 | id as u32,
        is_elite: u32::MAX,
        toughness: 0,
        concentration: 0,
        healing: 0,
        condition: 0,
        name: name(&[gadget]),
    }
}

fn state(time: u64, change: CbtStateChange, src_agent: u64, dst_agent: u64, value: i32, buff_dmg: i32) -> CbtEvent {
    CbtEvent {
        time,
        src_agent,
        dst_agent,
        value,
        buff_dmg,
        is_statechange: change,
        ..CbtEvent::default()
    }
}

fn hit(time: u64, src_agent: u64, src_instid: u16, dst_agent: u64, damage: i32) -> CbtEvent {
    CbtEvent {
        time,
        src_agent,
        src_instid,
        dst_agent,
        value: damage,
        iff: IFF::Foe,
        skillid: 11,
        ..CbtEvent::default()
    }
}

fn buff(time: u64, src_agent: u64, dst_agent: u64, buff_id: u32, duration: i32) -> CbtEvent {
    CbtEvent {
        time,
        src_agent,
        dst_agent,
        value: duration,
        buff: 1,
        skillid: buff_id,
        ..CbtEvent::default()
    }
}

fn evtc(combat_id: u16, agents: Vec<RawAgent>, events: Vec<CbtEvent>) -> Evtc {
    Evtc {
        header: Header {
            arcdps_build: "20220101".to_string(),
            combat_id,
            agent_count: agents.len() as u32,
            revision: 1,
        },
        skill_count: 0,
        agents,
        skills: Vec::new(),
        events,
    }
}

const VG: u16 = 0x3C4E;

fn vale_guardian() -> Evtc {
    let agents = vec![
        player(100, 1, 27, b"Alice", b"alice.1234", b'3'),
        player(50, 2, 0, b"Bob", b"bob.5678", b'1'),
        character(300, VG, b"Vale Guardian"),
        gadget(400, 17, b"Deimos"),
        character(200, 1234, b"Pet"),
    ];
    let mut pet_buff = buff(1020, 200, 300, 740, 3000);
    pet_buff.src_instid = 9;
    pet_buff.src_master_instid = 7;
    let friendly = CbtEvent {
        time: 2050,
        src_agent: 100,
        src_instid: 7,
        iff: IFF::Friend,
        ..CbtEvent::default()
    };
    let events = vec![
        state(1000, CbtStateChange::LogStart, 0, 0, 5, 1_600_000_000),
        hit(1010, 100, 7, 300, 500),
        pet_buff,
        state(1030, CbtStateChange::MaxHealthUpdate, 300, 22_021_440, 0, 0),
        state(1040, CbtStateChange::ChangeDead, 300, 0, 0, 0),
        state(1050, CbtStateChange::Reward, 0, 55, 2, 0),
        state(1060, CbtStateChange::GwBuild, 130_000, 0, 0, 0),
        hit(2000, 100, 7, 300, 700),
        friendly,
        state(2100, CbtStateChange::LogEnd, 0, 0, 6, 1_600_000_100),
    ];
    evtc(VG, agents, events)
}

fn vale_guardian_log() -> Log {
    process(&vale_guardian()).unwrap()
}

#[test]
fn process_sorts_agents_by_address() {
    let log = vale_guardian_log();
    let addrs: Vec<u64> = log.agents().iter().map(|a| a.addr()).collect();
    assert_eq!(addrs, vec![50, 100, 200, 300, 400]);
}

#[test]
fn process_sets_aware_times_and_instance_ids() {
    let log = vale_guardian_log();
    let alice = log.agent_by_addr(100).unwrap();
    assert_eq!(alice.instance_id(), 7);
    assert_eq!(alice.first_aware(), 1010);
    assert_eq!(alice.last_aware(), 2050);
    let bob = log.agent_by_addr(50).unwrap();
    assert_eq!(bob.instance_id(), 0);
    assert_eq!(bob.first_aware(), 0);
    assert_eq!(bob.last_aware(), u64::MAX);
    let pet = log.agent_by_addr(200).unwrap();
    assert_eq!(pet.instance_id(), 9);
    assert_eq!((pet.first_aware(), pet.last_aware()), (1020, 1020));
}

#[test]
fn process_sets_master_agents() {
    let log = vale_guardian_log();
    assert_eq!(log.agent_by_addr(200).unwrap().master_agent(), Some(100));
    assert_eq!(log.master_agent(200).unwrap().addr(), 100);
    assert!(log.master_agent(100).is_none());
    assert!(log.master_agent(999).is_none());
}

#[test]
fn process_drops_events_that_do_not_convert() {
    let log = vale_guardian_log();
    assert_eq!(log.events().len(), 9);
    assert!(matches!(log.events()[1].kind(), EventKind::Physical { damage: 500, .. }));
    assert!(matches!(
        log.events()[2].kind(),
        EventKind::BuffApplication { buff_id: 740, duration: 3000, .. }
    ));
}

#[test]
fn process_reports_bad_agents() {
    let bad_profession = evtc(VG, vec![player(1, 99, 0, b"X", b"x.1", b'1')], vec![]);
    assert_eq!(
        process(&bad_profession).unwrap_err().kind(),
        EvtcErrorKind::InvalidProfession(99)
    );
    let bad_elite = evtc(VG, vec![player(1, 1, 3, b"X", b"x.1", b'1')], vec![]);
    assert_eq!(process(&bad_elite).unwrap_err().kind(), EvtcErrorKind::InvalidEliteSpec(3));
    let mut unterminated = character(1, 5, b"X");
    unterminated.name = [b'a'; 64];
    let no_nul = evtc(VG, vec![unterminated], vec![]);
    assert_eq!(process(&no_nul).unwrap_err().kind(), EvtcErrorKind::InvalidData);
}

#[test]
fn agent_kinds_and_player_data() {
    let log = vale_guardian_log();
    let players = log.players();
    assert_eq!(players.len(), 2);
    assert_eq!(players[0].character_name(), "Bob");
    assert_eq!(players[0].account_name(), "bob.5678");
    assert_eq!(players[0].subgroup(), 1);
    assert_eq!(players[0].profession(), Profession::Warrior);
    assert_eq!(players[0].elite(), None);
    assert_eq!(players[1].profession(), Profession::Guardian);
    assert_eq!(players[1].elite(), Some(EliteSpec::Dragonhunter));
    assert_eq!(players[1].subgroup(), 3);
    assert_eq!(players[1].toughness(), 1);
    assert_eq!(players[1].condition(), 4);
    let characters = log.characters();
    assert_eq!(characters.len(), 2);
    assert_eq!(characters[0].name(), "Pet");
    assert_eq!(characters[1].id(), VG);
    let gadgets = log.gadgets();
    assert_eq!(gadgets.len(), 1);
    assert_eq!(gadgets[0].name(), "Deimos");
    assert_eq!(gadgets[0].id(), 17);
    assert!(log.agent_by_addr(400).unwrap().kind().is_gadget());
    assert!(matches!(log.agent_by_addr(100).unwrap().kind(), AgentKind::Player(_)));
    assert_eq!(log.agent_by_instance_id(9).unwrap().addr(), 200);
    assert!(log.agent_by_instance_id(12).is_none());
}

#[test]
fn boss_and_encounter() {
    let log = vale_guardian_log();
    assert_eq!(log.boss().addr(), 300);
    let bosses = log.boss_agents();
    assert_eq!(bosses.len(), 1);
    assert_eq!(bosses[0].addr(), 300);
    assert!(log.is_boss(300));
    assert!(!log.is_boss(100));
    assert_eq!(log.encounter_id(), VG);
    assert_eq!(log.encounter(), Some(Encounter::ValeGuardian));
}

#[test]
fn event_derived_data() {
    let log = vale_guardian_log();
    assert_eq!(log.span(), 1100);
    assert_eq!(log.local_start_timestamp(), Some(1_600_000_000));
    assert_eq!(log.local_end_timestamp(), Some(1_600_000_100));
    assert!(log.was_rewarded());
    assert_eq!(log.build_id(), Some(130_000));
    assert!(log.errors().is_empty());
}

#[test]
fn empty_log_data() {
    let log = process(&evtc(0x1234, vec![], vec![])).unwrap();
    assert_eq!(log.span(), 0);
    assert_eq!(log.local_start_timestamp(), None);
    assert_eq!(log.build_id(), None);
    assert!(!log.was_rewarded());
    assert!(log.encounter().is_none());
    assert!(log.analyzer().is_none());
    assert!(!log.is_cm());
    assert!(log.boss_agents().is_empty());
}

#[test]
fn generic_raid_analyzer() {
    let log = vale_guardian_log();
    let analyzer = log.analyzer().unwrap();
    assert!(!analyzer.is_cm());
    assert_eq!(analyzer.outcome(), Some(Outcome::Success));
    assert_eq!(analyzer.log().encounter_id(), VG);
    assert!(!log.is_cm());
}

#[test]
fn analyzer_helpers() {
    let log = vale_guardian_log();
    assert_eq!(boss_health(&log), Some(22_021_440));
    assert!(boss_is_dead(&log));
    assert!(buff_present(&log, 740));
    assert!(!buff_present(&log, 741));
    assert!(!players_exit_after_boss(&log));
    assert_eq!(Outcome::from_bool(true), Some(Outcome::Success));
    assert_eq!(Outcome::from_bool(false), Some(Outcome::Failure));
}

fn boss_log(boss_id: u16, mut events: Vec<CbtEvent>) -> Log {
    let agents = vec![
        player(100, 1, 0, b"Alice", b"alice.1234", b'1'),
        character(300, boss_id, b"Boss"),
    ];
    let mut all = vec![hit(10, 100, 7, 300, 1)];
    all.append(&mut events);
    process(&evtc(boss_id, agents, all)).unwrap()
}

#[test]
fn health_based_challenge_motes() {
    let mo = boss_log(0x4314, vec![state(20, CbtStateChange::MaxHealthUpdate, 300, 30_000_000, 0, 0)]);
    assert!(mo.is_cm());
    let mo_normal = boss_log(0x4314, vec![state(20, CbtStateChange::MaxHealthUpdate, 300, 29_999_999, 0, 0)]);
    assert!(!mo_normal.is_cm());
    let mai = boss_log(0x5DE1, vec![state(20, CbtStateChange::MaxHealthUpdate, 300, 8_000_001, 0, 0)]);
    assert!(mai.is_cm());
}

#[test]
fn buff_based_challenge_mote() {
    let cairn = boss_log(0x432A, vec![buff(20, 300, 100, 38_098, 1000)]);
    assert!(cairn.is_cm());
    assert!(!boss_log(0x432A, vec![]).is_cm());
}

#[test]
fn soulless_horror_fear_timing() {
    let fears = vec![
        buff(1000, 300, 100, 47414, 1000),
        buff(1030, 300, 100, 47414, 1000),
        buff(12000, 300, 100, 47414, 1000),
        buff(23000, 300, 100, 47414, 1000),
    ];
    let log = boss_log(0x4D37, fears);
    assert_eq!(time_between_buffs(&log, 47414), 10_970);
    assert!(log.is_cm());
    let slow = boss_log(
        0x4D37,
        vec![buff(1000, 300, 100, 47414, 1000), buff(13000, 300, 100, 47414, 1000)],
    );
    assert_eq!(time_between_buffs(&slow, 47414), 12_000);
    assert!(!slow.is_cm());
    assert_eq!(time_between_buffs(&slow, 1), 0);
}

#[test]
fn xera_outcome_by_exit_times() {
    let exits = vec![
        state(500, CbtStateChange::ExitCombat, 300, 0, 0, 0),
        state(1600, CbtStateChange::ExitCombat, 100, 0, 0, 0),
    ];
    let log = boss_log(0x3F76, exits);
    assert!(players_exit_after_boss(&log));
    assert_eq!(for_log(&log).unwrap().outcome(), Some(Outcome::Success));
    let close = boss_log(
        0x3F76,
        vec![
            state(500, CbtStateChange::ExitCombat, 300, 0, 0, 0),
            state(1400, CbtStateChange::ExitCombat, 100, 0, 0, 0),
        ],
    );
    assert_eq!(for_log(&close).unwrap().outcome(), Some(Outcome::Failure));
}

#[test]
fn fractal_analyzers_are_challenge_motes() {
    let ensolyss = boss_log(0x4234, vec![]);
    let analyzer = ensolyss.analyzer().unwrap();
    assert!(analyzer.is_cm());
    assert_eq!(analyzer.outcome(), Some(Outcome::Failure));
    let dead = boss_log(0x4234, vec![state(20, CbtStateChange::ChangeDead, 300, 0, 0, 0)]);
    assert_eq!(dead.analyzer().unwrap().outcome(), Some(Outcome::Success));
}

fn write_u16(out: &mut Vec<u8>, v: u16) {
    out.extend_from_slice(&v.to_le_bytes());
}

fn write_u32(out: &mut Vec<u8>, v: u32) {
    out.extend_from_slice(&v.to_le_bytes());
}

fn write_u64(out: &mut Vec<u8>, v: u64) {
    out.extend_from_slice(&v.to_le_bytes());
}

fn file_bytes(data: &Evtc) -> Vec<u8> {
    let mut out = b"EVTC20220101".to_vec();
    out.push(1);
    write_u16(&mut out, data.header.combat_id);
    out.push(0);
    write_u32(&mut out, data.agents.len() as u32);
    for agent in &data.agents {
        write_u64(&mut out, agent.addr);
        write_u32(&mut out, agent.prof);
        write_u32(&mut out, agent.is_elite);
        out.extend_from_slice(&agent.toughness.to_le_bytes());
        out.extend_from_slice(&agent.concentration.to_le_bytes());
        out.extend_from_slice(&agent.healing.to_le_bytes());
        out.extend_from_slice(&[0, 0]);
        out.extend_from_slice(&agent.condition.to_le_bytes());
        out.extend_from_slice(&[0, 0]);
        out.extend_from_slice(&agent.name);
        out.extend_from_slice(&[0, 0, 0, 0]);
    }
    write_u32(&mut out, 0);
    for event in &data.events {
        write_u64(&mut out, event.time);
        write_u64(&mut out, event.src_agent);
        write_u64(&mut out, event.dst_agent);
        out.extend_from_slice(&event.value.to_le_bytes());
        out.extend_from_slice(&event.buff_dmg.to_le_bytes());
        write_u32(&mut out, event.overstack_value);
        write_u32(&mut out, event.skillid);
        write_u16(&mut out, event.src_instid);
        write_u16(&mut out, event.dst_instid);
        write_u16(&mut out, event.src_master_instid);
        write_u16(&mut out, event.dst_master_instid);
        out.push(match event.iff {
            IFF::Friend => 0,
            IFF::Foe => 1,
            _ => 2,
        });
        out.push(event.buff);
        out.push(0);
        out.push(0);
        out.push(0);
        out.push(event.is_ninety as u8);
        out.push(event.is_fifty as u8);
        out.push(event.is_moving as u8);
        out.push(statechange_code(event.is_statechange));
        out.push(event.is_flanking as u8);
        out.push(event.is_shields as u8);
        out.push(event.is_offcycle as u8);
        out.extend_from_slice(&[0, 0, 0, 0]);
    }
    out
}

fn statechange_code(change: CbtStateChange) -> u8 {
    match change {
        CbtStateChange::Unset => 0,
        CbtStateChange::ExitCombat => 2,
        CbtStateChange::ChangeDead => 4,
        CbtStateChange::MaxHealthUpdate => 12,
        CbtStateChange::LogStart => 9,
        CbtStateChange::LogEnd => 10,
        CbtStateChange::Reward => 17,
        CbtStateChange::GwBuild => 15,
        CbtStateChange::Language => 14,
        other => panic!("no code for {:?}", other),
    }
}

#[test]
fn process_stream_parses_and_processes() {
    let data = vale_guardian();
    let bytes = file_bytes(&data);
    let log = process_stream(&bytes, Compression::Uncompressed).unwrap();
    let expected = process(&data).unwrap();
    assert_eq!(log.agents().len(), expected.agents().len());
    assert_eq!(log.events().len(), expected.events().len());
    assert_eq!(log.span(), expected.span());
    assert_eq!(log.encounter(), Some(Encounter::ValeGuardian));
    assert_eq!(log.agent_by_addr(200).unwrap().master_agent(), Some(100));
    let again = process_stream(&bytes, Compression::Uncompressed).unwrap();
    assert_eq!(again.events().len(), 9);
}

#[test]
fn process_stream_reports_parse_errors() {
    let not_evtc = b"this is not an evtc file at all".to_vec();
    assert!(matches!(
        process_stream(&not_evtc, Compression::Uncompressed).unwrap_err().kind(),
        EvtcErrorKind::ParseError(_)
    ));
    assert!(matches!(
        process_stream(&not_evtc, Compression::Zip).unwrap_err().kind(),
        EvtcErrorKind::ParseError(evtclib::raw::ParseErrorKind::InvalidZip)
    ));
}

#[test]
fn players_without_subgroup_digit_still_convert() {
    let mut agent = player(1, 1, 0, b"Al", b"al.1", b'1');
    // The subgroup digit is missing, as in some WvW logs: it wraps around.
    agent.name[8] = 0;
    let mut full = player(2, 1, 0, b"Bo", b"bo.1", b'1');
    // The account name's nul is the last byte: there is no room for a digit.
    full.name = [b'a'; 64];
    full.name[2] = 0;
    full.name[63] = 0;
    let data = evtc(VG, vec![agent], vec![]);
    let log = process_stream(&file_bytes(&data), Compression::Uncompressed).unwrap();
    assert_eq!(log.players()[0].subgroup(), 208);
    assert_eq!(log.players()[0].account_name(), "al.1");
    let no_room = evtc(VG, vec![full], vec![]);
    assert_eq!(process(&no_room).unwrap_err().kind(), EvtcErrorKind::InvalidData);
}

fn damage_log() -> Log {
    let agents = vec![
        player(100, 1, 0, b"Alice", b"alice.1234", b'1'),
        character(300, VG, b"Vale Guardian"),
        character(400, 999, b"Seeker"),
        character(200, 1234, b"Pet"),
    ];
    let mut pet_hit = hit(1030, 200, 9, 300, 50);
    pet_hit.src_master_instid = 7;
    let tick = CbtEvent {
        time: 1040,
        src_agent: 100,
        src_instid: 7,
        dst_agent: 400,
        buff: 1,
        buff_dmg: 30,
        skillid: 736,
        ..CbtEvent::default()
    };
    let events = vec![
        state(1000, CbtStateChange::LogStart, 0, 0, 5, 1_600_000_000),
        state(1010, CbtStateChange::EnterCombat, 100, 1, 0, 0),
        hit(1020, 100, 7, 300, 500),
        pet_hit,
        tick,
        hit(1050, 100, 7, 300, 700),
        state(2000, CbtStateChange::ExitCombat, 100, 0, 0, 0),
    ];
    process(&evtc(VG, agents, events)).unwrap()
}

#[test]
fn statistics_sum_damage_per_target_and_minion() {
    let log = damage_log();
    let stats = evtclib::statistics::calculate(&log).unwrap();
    let alice = &stats.agent_stats[&100];
    let on_boss = alice.per_target_damage[&300];
    assert_eq!(on_boss.total_damage, 1250);
    assert_eq!(on_boss.power_damage, 1200);
    assert_eq!(on_boss.condition_damage, 0);
    assert_eq!(on_boss.add_damage, 50);
    let on_seeker = alice.per_target_damage[&400];
    assert_eq!(on_seeker.total_damage, 30);
    assert_eq!(on_seeker.condition_damage, 30);
    assert_eq!(alice.per_target_damage.len(), 2);
    assert_eq!(alice.total_damage.total_damage, 1280);
    assert_eq!(alice.total_damage.power_damage, 1200);
    assert_eq!(alice.total_damage.condition_damage, 30);
    assert_eq!(alice.total_damage.add_damage, 50);
    assert_eq!(alice.boss_damage, on_boss);
    assert_eq!(alice.enter_combat, 10);
    assert_eq!(alice.exit_combat, 1000);
    assert_eq!(alice.combat_time(), 990);
    let pet = &stats.agent_stats[&200];
    assert_eq!(pet.per_target_damage[&300].power_damage, 50);
    assert_eq!(pet.boss_damage.total_damage, 50);
    assert_eq!(pet.enter_combat, 0);
    // The boss and the seeker deal no damage and never enter combat: they have no entry.
    assert_eq!(stats.agent_stats.len(), 2);
}

#[test]
fn trackers_gather_their_statistics() {
    let log = damage_log();
    let mut damage = DamageTracker::new(&log);
    let mut start = LogStartTracker::new();
    let mut combat = CombatTimeTracker::new();
    let mut mechanics = MechanicTracker::new(vec![300], get_mechanics(VG));
    for event in log.events() {
        damage.feed(event).unwrap();
        start.feed(event).unwrap();
        combat.feed(event).unwrap();
        mechanics.feed(event).unwrap();
    }
    let damage_log = damage.finalize().unwrap();
    // The pet's hit counts for its master.
    assert_eq!(damage_log.damage(|m| m.source == 100).0, 1280);
    assert_eq!(damage_log.damage(|m| m.source == 200).0, 0);
    assert_eq!(damage_log.damage(|m| m.target == 400).0, 30);
    assert_eq!(damage_log.damage_between(1025, 1045, |_| true).0, 80);
    assert_eq!(start.finalize().unwrap(), 1000);
    let times = combat.finalize().unwrap();
    assert_eq!(times.len(), 1);
    assert_eq!(times[&100], (1010, 2000));
    assert_eq!(mechanics.finalize().unwrap().count(|_, _| true), 0);
}

#[test]
fn mechanic_tracker_logs_boss_skill_hits() {
    let mut spike = hit(1500, 300, 3, 100, 900);
    spike.skillid = 31392;
    let mut evaded = spike;
    evaded.time = 1600;
    evaded.result = evtclib::raw::CbtResult::Evade;
    let mut by_player = spike;
    by_player.time = 1700;
    by_player.src_agent = 100;
    by_player.dst_agent = 300;
    let log = boss_log(VG, vec![spike, evaded, by_player]);
    let mut tracker = MechanicTracker::new(vec![300], get_mechanics(VG));
    for event in log.events() {
        tracker.feed(event).unwrap();
    }
    let mechanics = tracker.finalize().unwrap();
    assert_eq!(mechanics.count(|_, _| true), 1);
    assert_eq!(mechanics.count(|_, agent| agent == 100), 1);
    assert_eq!(mechanics.count(|m, _| m.name() == "Unstable Magic Spike"), 1);
}

#[test]
fn zipped_logs_are_read_like_plain_ones() {
    let data = vale_guardian();
    let bytes = file_bytes(&data);
    let mut writer = zip::ZipWriter::new(std::io::Cursor::new(Vec::new()));
    let options =
        zip::write::FileOptions::default().compression_method(zip::CompressionMethod::Deflated);
    writer.start_file("log.evtc", options).unwrap();
    writer.write_all(&bytes).unwrap();
    let zipped = writer.finish().unwrap().into_inner();
    assert_ne!(zipped, bytes);
    let log = process_stream(&zipped, Compression::Zip).unwrap();
    assert_eq!(log.events().len(), 9);
    assert_eq!(log.encounter(), Some(Encounter::ValeGuardian));
    assert_eq!(log.agent_by_addr(100).unwrap().first_aware(), 1010);
}

#[test]
fn unknown_languages_are_errors() {
    let known = evtc(VG, vec![], vec![state(5, CbtStateChange::Language, 2, 0, 0, 0)]);
    let log = process_stream(&file_bytes(&known), Compression::Uncompressed).unwrap();
    assert_eq!(
        *log.events()[0].kind(),
        EventKind::Language { language: evtclib::raw::Language::Fre }
    );
    let raw = state(5, CbtStateChange::Language, 1, 0, 0, 0);
    assert_eq!(
        evtclib::Event::try_from(&raw).unwrap_err(),
        evtclib::event::FromRawEventError::UnknownLanguage
    );
    // Processing leaves the event out.
    let unknown = evtc(VG, vec![], vec![raw]);
    assert!(process(&unknown).unwrap().events().is_empty());
}

#[test]
fn dragonvoid_logs_get_their_analyzer() {
    let log = boss_log(Encounter::Dragonvoid.id(), vec![]);
    assert!(matches!(
        log.analyzer(),
        Some(evtclib::analyzers::EncounterAnalyzer::Dragonvoid(_))
    ));
    assert!(!log.is_cm());
}

#[test]
fn generic_logs_are_wvw() {
    let wvw = process(&evtc(1, vec![player(1, 1, 0, b"Al", b"al.1", b'1')], vec![])).unwrap();
    assert!(wvw.is_generic());
    assert_eq!(wvw.game_mode(), Some(evtclib::GameMode::WvW));
    let vg = vale_guardian_log();
    assert!(!vg.is_generic());
    assert_eq!(vg.game_mode(), Some(evtclib::GameMode::Raid));
    let unknown = process(&evtc(0x1234, vec![], vec![])).unwrap();
    assert_eq!(unknown.game_mode(), None);
}
