use evtclib::raw::cstr_up_to_nul;

#[test]
fn test_cstr_up_to_nul_terminated() {
    let bytes = b"foo\0";
    let cstr = cstr_up_to_nul(bytes).unwrap();
    assert_eq!(cstr, b"foo");
}

#[test]
fn test_cstr_up_to_nul_multiple() {
    let bytes = b"foo\0\0\0";
    let cstr = cstr_up_to_nul(bytes).unwrap();
    assert_eq!(cstr, b"foo");

    let bytes = b"foo\0bar\0\0";
    let cstr = cstr_up_to_nul(bytes).unwrap();
    assert_eq!(cstr, b"foo");
}

#[test]
fn test_cstr_up_to_nul_unterminated() {
    let bytes = b"foo";
    let cstr = cstr_up_to_nul(bytes);
    assert!(cstr.is_none());
}

use evtclib::event::{get_api_guild_string, Event, EventKind, FromRawEventError};
use evtclib::raw::parser::{
    parse_agent, parse_event_rev1, parse_events, parse_header, parse_skill, ParseErrorKind,
    PartialEvtc,
};
use evtclib::raw::{CbtEvent, CbtResult, CbtStateChange, IFF};

fn header_bytes(build: &[u8], revision: u8, combat_id: u16, agents: u32) -> Vec<u8> {
    let mut out = b"EVTC".to_vec();
    out.extend_from_slice(build);
    out.push(revision);
    out.extend_from_slice(&combat_id.to_le_bytes());
    out.push(0);
    out.extend_from_slice(&agents.to_le_bytes());
    out
}

#[test]
fn header_parses_build_revision_and_counts() {
    let header = parse_header(&header_bytes(b"20220101", 1, 0x3C4E, 7)).unwrap();
    assert_eq!(header.arcdps_build, "20220101");
    assert_eq!(header.revision, 1);
    assert_eq!(header.combat_id, 0x3C4E);
    assert_eq!(header.agent_count, 7);
}

#[test]
fn header_errors() {
    assert_eq!(parse_header(b"EVT").unwrap_err().kind(), ParseErrorKind::UnexpectedEof);
    assert_eq!(parse_header(b"XVTC20220101").unwrap_err().kind(), ParseErrorKind::MalformedHeader);
    assert_eq!(parse_header(b"EVTC2022").unwrap_err().kind(), ParseErrorKind::UnexpectedEof);
    let bad_utf8 = header_bytes(&[0xff, b'0', b'2', b'2', b'0', b'1', b'0', b'1'], 1, 1, 0);
    assert_eq!(parse_header(&bad_utf8).unwrap_err().kind(), ParseErrorKind::Utf8Error);
    let mut bad_padding = header_bytes(b"20220101", 1, 1, 0);
    bad_padding[15] = 1;
    assert_eq!(parse_header(&bad_padding).unwrap_err().kind(), ParseErrorKind::MalformedHeader);
    let short = header_bytes(b"20220101", 1, 1, 0);
    assert_eq!(parse_header(&short[..18]).unwrap_err().kind(), ParseErrorKind::UnexpectedEof);
}

#[test]
fn agent_and_skill_records() {
    let mut bytes = Vec::new();
    bytes.extend_from_slice(&0x1122u64.to_le_bytes());
    bytes.extend_from_slice(&3u32.to_le_bytes());
    bytes.extend_from_slice(&5u32.to_le_bytes());
    bytes.extend_from_slice(&(-2i16).to_le_bytes());
    bytes.extend_from_slice(&4i16.to_le_bytes());
    bytes.extend_from_slice(&6i16.to_le_bytes());
    bytes.extend_from_slice(&[0, 0]);
    bytes.extend_from_slice(&8i16.to_le_bytes());
    bytes.extend_from_slice(&[0, 0]);
    let mut name = [0u8; 64];
    name[..3].copy_from_slice(b"Bob");
    bytes.extend_from_slice(&name);
    bytes.extend_from_slice(&[0, 0, 0, 0]);
    let agent = parse_agent(&bytes).unwrap();
    assert_eq!(agent.addr, 0x1122);
    assert_eq!(agent.prof, 3);
    assert_eq!(agent.is_elite, 5);
    assert_eq!(agent.toughness, -2);
    assert_eq!(agent.concentration, 4);
    assert_eq!(agent.healing, 6);
    assert_eq!(agent.condition, 8);
    assert_eq!(&agent.name[..4], b"Bob\0");
    assert_eq!(parse_agent(&bytes[..95]).unwrap_err().kind(), ParseErrorKind::UnexpectedEof);

    let mut skill = (-7i32).to_le_bytes().to_vec();
    skill.extend_from_slice(&name);
    let parsed = parse_skill(&skill).unwrap();
    assert_eq!(parsed.id, -7);
    assert_eq!(parsed.name_string(), Some("Bob".to_string()));
    assert!(parse_skill(&skill[..67]).is_err());
}

fn event_rev1_bytes(time: u64, src: u64, dst: u64, value: i32, iff: u8, statechange: u8) -> Vec<u8> {
    let mut out = Vec::new();
    out.extend_from_slice(&time.to_le_bytes());
    out.extend_from_slice(&src.to_le_bytes());
    out.extend_from_slice(&dst.to_le_bytes());
    out.extend_from_slice(&value.to_le_bytes());
    out.extend_from_slice(&0i32.to_le_bytes());
    out.extend_from_slice(&0u32.to_le_bytes());
    out.extend_from_slice(&42u32.to_le_bytes());
    out.extend_from_slice(&[1, 0, 0, 0, 2, 0, 0, 0]);
    out.push(iff);
    out.extend_from_slice(&[0, 0, 0, 0, 0, 0, 0]);
    out.push(statechange);
    out.extend_from_slice(&[0, 0, 0, 0, 0, 0, 0]);
    out
}

#[test]
fn events_of_revision_one() {
    let bytes = event_rev1_bytes(1000, 5, 6, 250, 1, 0);
    assert_eq!(bytes.len(), 64);
    let event = parse_event_rev1(&bytes).unwrap();
    assert_eq!(event.time, 1000);
    assert_eq!(event.src_agent, 5);
    assert_eq!(event.dst_agent, 6);
    assert_eq!(event.value, 250);
    assert_eq!(event.skillid, 42);
    assert_eq!(event.src_instid, 1);
    assert_eq!(event.src_master_instid, 2);
    assert_eq!(event.iff, IFF::Foe);
    assert_eq!(event.is_statechange, CbtStateChange::Unset);
    let mut two = bytes.clone();
    two.extend_from_slice(&event_rev1_bytes(2000, 5, 0, 0, 0, 9));
    // An incomplete record at the end is left out.
    two.extend_from_slice(&[1, 2, 3]);
    let events = parse_events(&two, 1);
    assert_eq!(events.len(), 2);
    assert_eq!(events[1].is_statechange, CbtStateChange::LogStart);
}

#[test]
fn high_level_events_from_raw_ones() {
    let hit = CbtEvent {
        time: 5,
        src_agent: 1,
        dst_agent: 2,
        value: 300,
        iff: IFF::Foe,
        skillid: 9,
        result: CbtResult::Crit,
        is_ninety: true,
        ..CbtEvent::default()
    };
    let event = Event::try_from(&hit).unwrap();
    assert_eq!(event.time(), 5);
    assert!(event.is_ninety());
    assert!(!event.is_fifty());
    assert_eq!(
        *event.kind(),
        EventKind::Physical {
            source_agent_addr: 1,
            destination_agent_addr: 2,
            skill_id: 9,
            damage: 300,
            result: CbtResult::Crit,
        }
    );
    let exit = CbtEvent {
        is_statechange: CbtStateChange::ExitCombat,
        src_agent: 4,
        ..CbtEvent::default()
    };
    assert_eq!(*Event::try_from(&exit).unwrap().kind(), EventKind::ExitCombat { agent_addr: 4 });
    let nothing = CbtEvent::default();
    assert_eq!(Event::try_from(&nothing).unwrap_err(), FromRawEventError::UnknownDamageEvent);
}

#[test]
fn guild_ids_in_api_form() {
    assert_eq!(get_api_guild_string(&[0; 16]), None);
    let bytes = [
        0x01, 0x02, 0x03, 0x04, 0x05, 0x06, 0x07, 0x08, 0x09, 0x0A, 0x0B, 0x0C, 0x0D, 0x0E, 0x0F,
        0xAB,
    ];
    assert_eq!(
        get_api_guild_string(&bytes),
        Some("05060708-0304-0102-0C0B-0A09AB0F0E0D".to_string())
    );
}

#[test]
fn error_events_decode_text_lossily() {
    let raw = CbtEvent {
        is_statechange: CbtStateChange::Error,
        time: u64::from_le_bytes(*b"Oops\xff\0\0\0"),
        ..CbtEvent::default()
    };
    assert_eq!(
        *Event::try_from(&raw).unwrap().kind(),
        EventKind::Error { text: "Oops\u{FFFD}".to_string() }
    );
    let unterminated = CbtEvent {
        is_statechange: CbtStateChange::Error,
        time: u64::MAX,
        src_agent: u64::MAX,
        dst_agent: u64::MAX,
        value: -1,
        buff_dmg: -1,
        ..CbtEvent::default()
    };
    assert_eq!(Event::try_from(&unterminated).unwrap_err(), FromRawEventError::InvalidText);
}

#[test]
fn partial_evtc_keeps_all_but_the_events() {

    let mut evtc = evtclib::raw::Evtc::default();
    evtc.header.combat_id = 0x3C4E;
    evtc.skill_count = 2;
    evtc.events.push(CbtEvent::default());
    let partial = PartialEvtc::from(evtc);
    assert_eq!(partial.header.combat_id, 0x3C4E);
    assert_eq!(partial.skill_count, 2);
    assert!(partial.agents.is_empty());
    assert!(partial.skills.is_empty());
}

#[test]
fn buff_stack_events() {
    let initial = CbtEvent {
        is_statechange: CbtStateChange::BuffInitial,
        src_agent: 1,
        dst_agent: 2,
        skillid: 740,
        value: 5000,
        overstack_value: 7,
        ..CbtEvent::default()
    };
    assert_eq!(
        *Event::try_from(&initial).unwrap().kind(),
        EventKind::BuffInitial {
            source_agent_addr: 1,
            destination_agent_addr: 2,
            buff_id: 740,
            duration: 5000,
            overstack: 7,
        }
    );
    let active = CbtEvent {
        is_statechange: CbtStateChange::StackActive,
        src_agent: 3,
        dst_agent: 9,
        ..CbtEvent::default()
    };
    assert_eq!(
        *Event::try_from(&active).unwrap().kind(),
        EventKind::StackActive { agent_addr: 3, stack_id: 9 }
    );
    let reset = CbtEvent {
        is_statechange: CbtStateChange::StackReset,
        src_agent: 3,
        value: 1200,
        ..CbtEvent::default()
    };
    assert_eq!(
        *Event::try_from(&reset).unwrap().kind(),
        EventKind::StackReset { agent_addr: 3, duration: 1200 }
    );
    let info = CbtEvent { is_statechange: CbtStateChange::BuffInfo, ..CbtEvent::default() };
    assert_eq!(
        Event::try_from(&info).unwrap_err(),
        FromRawEventError::UnknownStateChange(CbtStateChange::BuffInfo)
    );
}
