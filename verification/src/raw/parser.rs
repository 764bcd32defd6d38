//! This module contains functions to parse an EVTC file.
//!
//! # Layout
//!
//! The general layout of the EVTC file is as follows:
//!
//! ```raw
//! magic number: b'EVTC'
//! arcdps build: yyyymmdd
//! revision byte
//! encounter id
//! nullbyte
//! agent count
//! agents
//! skill count
//! skills
//! events
//! ```
//!
//! (refer to
//! [example.cpp](https://www.deltaconnected.com/arcdps/evtc/example.cpp) for
//! the exact data types).
//!
//! The parsing functions mirror the layout of the file and allow you to parse single parts of
//! the data: each of them reads from the start of the byte slice that it is given.
//!
//! All numbers are stored as little endian.
//!
//! arcdps stores the structs by just byte-dumping them. This means that you
//! have to be careful of the padding. `parse_agent` reads 96 bytes, even though
//! the struct definition only has 92.
//!
//! # Error handling
//!
//! Errors are wrapped in [`ParseError`](enum.ParseError.html). Running out of input is reported
//! as `ParseError::UnexpectedEof`, except while reading the events: they go until the end of the
//! file, and a trailing partial event is ignored.
//!
//! Compared to the enum definitions of arcdps, we also add
//! [`IFF::Unset`](../enum.IFF.html) and
//! [`CbtResult::Unset`](../enum.CbtResult.html). This makes parsing easier, as
//! we can use those values instead of some other garbage. The other enums
//! already have the `Unset` variant, and the corresponding byte is zeroed, so
//! there's no problem with those.
//!
//! # Resources
//!
//! * [evtc readme](https://www.deltaconnected.com/arcdps/evtc/README.txt)
//! * [C++ output code](https://www.deltaconnected.com/arcdps/evtc/writeencounter.cpp)
use std::string::FromUtf8Error;
use vstd::prelude::*;
use vstd::utf8::{decode_utf8, valid_utf8};
use zip::result::ZipError;

use super::types::{
    Agent, CbtActivation, CbtBuffRemove, CbtEvent, CbtResult, CbtStateChange, Skill, IFF,
};
use crate::bytes::{
    i16_at, i32_at, le_bytes, le_value, lemma_le_bytes_value, read_i16_le, read_i32_le,
    read_u16_le, read_u32_le, read_u64_le, u16_at, u32_at, u64_at,
};
use vstd::arithmetic::power::pow;

verus! {

broadcast use vstd::slice::group_slice_axioms;

#[verifier::external_type_specification]
#[verifier::external_body]
pub struct ExZipError(ZipError);

/// EVTC file header.
#[derive(Clone, Debug, PartialEq, Eq, Hash)]
pub struct Header {
    /// arcpds build date, as `yyyymmdd` string.
    pub arcdps_build: String,
    /// Target species id.
    pub combat_id: u16,
    /// Agent count.
    pub agent_count: u32,
    /// Evtc revision
    pub revision: u8,
}

impl Default for Header {
    fn default() -> (r: Self)
        ensures
            r.arcdps_build@ == Seq::<char>::empty(),
            r.combat_id == 0 && r.agent_count == 0 && r.revision == 0,
    {
        Header { arcdps_build: String::new(), combat_id: 0, agent_count: 0, revision: 0 }
    }
}

/// A completely parsed (raw) EVTC file.
///
/// Note that this struct does not yet do any preprocessing of the events. It is simply a
/// representation of the input file as a structured object.
#[derive(Clone, Debug, PartialEq, Eq, Hash)]
pub struct Evtc {
    /// The file header values.
    pub header: Header,
    /// The skill count.
    pub skill_count: u32,
    /// The actual agents.
    pub agents: Vec<Agent>,
    /// The skills.
    pub skills: Vec<Skill>,
    /// The combat events.
    pub events: Vec<CbtEvent>,
}

impl Default for Evtc {
    fn default() -> (r: Self)
        ensures
            r.header.arcdps_build@ == Seq::<char>::empty(),
            r.header.combat_id == 0 && r.header.agent_count == 0 && r.header.revision == 0,
            r.skill_count == 0,
            r.agents@ == Seq::<Agent>::empty(),
            r.skills@ == Seq::<Skill>::empty(),
            r.events@ == Seq::<CbtEvent>::empty(),
    {
        Evtc {
            header: Header::default(),
            skill_count: 0,
            agents: Vec::new(),
            skills: Vec::new(),
            events: Vec::new(),
        }
    }
}

/// A partially-parsed EVTC file, containing everything but the events.
///
/// This can speed up parsing for applications which can work with the header, as the event stream
/// is the largest chunk of data that has to be parsed.
#[derive(Clone, Debug, PartialEq, Eq, Hash)]
pub struct PartialEvtc {
    /// The file header values.
    pub header: Header,
    /// The skill count.
    pub skill_count: u32,
    /// The actual agents.
    pub agents: Vec<Agent>,
    /// The skills.
    pub skills: Vec<Skill>,
}

impl Default for PartialEvtc {
    fn default() -> (r: Self)
        ensures
            r.header.arcdps_build@ == Seq::<char>::empty(),
            r.header.combat_id == 0 && r.header.agent_count == 0 && r.header.revision == 0,
            r.skill_count == 0,
            r.agents@ == Seq::<Agent>::empty(),
            r.skills@ == Seq::<Skill>::empty(),
    {
        PartialEvtc {
            header: Header::default(),
            skill_count: 0,
            agents: Vec::new(),
            skills: Vec::new(),
        }
    }
}

impl From<Evtc> for PartialEvtc {
    /// Drop the events of a complete EVTC, keeping everything else.
    fn from(evtc: Evtc) -> (r: PartialEvtc) {
        PartialEvtc {
            header: evtc.header,
            skill_count: evtc.skill_count,
            agents: evtc.agents,
            skills: evtc.skills,
        }
    }
}

impl vstd::std_specs::convert::FromSpecImpl<Evtc> for PartialEvtc {
    open spec fn obeys_from_spec() -> bool {
        true
    }

    open spec fn from_spec(evtc: Evtc) -> PartialEvtc {
        PartialEvtc {
            header: evtc.header,
            skill_count: evtc.skill_count,
            agents: evtc.agents,
            skills: evtc.skills,
        }
    }
}

/// Any error that can occur during parsing.
#[derive(Debug)]
pub enum ParseError {
    /// The input ended before a complete structure could be read.
    UnexpectedEof,
    /// The error is caused by invalid UTF-8 data in the file.
    ///
    /// Names in the evtc are expected to be encoded with UTF-8.
    Utf8Error(FromUtf8Error),
    /// A generic error to signal invalid data has been encountered.
    InvalidData,
    /// The header is malformed.
    ///
    /// This is the error that you get when you try to parse a non-evtc file.
    MalformedHeader,
    /// The revision used by the file is not known.
    UnknownRevision(u8),
    /// The event contains a statechange that we don't know about.
    UnknownStateChange(u8),
    /// The given ZIP archive is invalid.
    InvalidZip(ZipError),
}

/// The kind of a [`ParseError`], without the payload of the underlying library errors.
#[derive(Clone, Copy, Debug, PartialEq, Eq, Structural)]
pub enum ParseErrorKind {
    /// See [`ParseError::UnexpectedEof`].
    UnexpectedEof,
    /// See [`ParseError::Utf8Error`].
    Utf8Error,
    /// See [`ParseError::InvalidData`].
    InvalidData,
    /// See [`ParseError::MalformedHeader`].
    MalformedHeader,
    /// See [`ParseError::UnknownRevision`].
    UnknownRevision(u8),
    /// See [`ParseError::UnknownStateChange`].
    UnknownStateChange(u8),
    /// See [`ParseError::InvalidZip`].
    InvalidZip,
}

impl ParseError {
    /// The kind of this error.
    pub open spec fn spec_kind(&self) -> ParseErrorKind {
        match self {
            ParseError::UnexpectedEof => ParseErrorKind::UnexpectedEof,
            ParseError::Utf8Error(_) => ParseErrorKind::Utf8Error,
            ParseError::InvalidData => ParseErrorKind::InvalidData,
            ParseError::MalformedHeader => ParseErrorKind::MalformedHeader,
            ParseError::UnknownRevision(r) => ParseErrorKind::UnknownRevision(*r),
            ParseError::UnknownStateChange(s) => ParseErrorKind::UnknownStateChange(*s),
            ParseError::InvalidZip(_) => ParseErrorKind::InvalidZip,
        }
    }

    /// The kind of this error.
    #[verifier::when_used_as_spec(spec_kind)]
    pub fn kind(&self) -> (r: ParseErrorKind)
        ensures
            r == self.spec_kind(),
    {
        match self {
            ParseError::UnexpectedEof => ParseErrorKind::UnexpectedEof,
            ParseError::Utf8Error(_) => ParseErrorKind::Utf8Error,
            ParseError::InvalidData => ParseErrorKind::InvalidData,
            ParseError::MalformedHeader => ParseErrorKind::MalformedHeader,
            ParseError::UnknownRevision(r) => ParseErrorKind::UnknownRevision(*r),
            ParseError::UnknownStateChange(s) => ParseErrorKind::UnknownStateChange(*s),
            ParseError::InvalidZip(_) => ParseErrorKind::InvalidZip,
        }
    }
}

/// A type indicating the parse result.
pub type ParseResult<T> = Result<T, ParseError>;

/// The view of a byte slice is no longer than what a `usize` counts.
proof fn lemma_len_fits(b: &[u8])
    ensures
        b@.len() <= usize::MAX,
{
    assert(b@.len() == b.len());
}

/// The magic number that every evtc file starts with.
pub open spec fn magic() -> Seq<u8> {
    seq![0x45u8, 0x56u8, 0x54u8, 0x43u8]
}

/// The error that reading a header from `b` gives, if any.
///
/// The header is read front to back: magic number (checked right away), build date (checked for
/// UTF-8), revision, combat id, a zero byte (checked) and the agent count.
pub open spec fn header_error(b: Seq<u8>) -> Option<ParseErrorKind> {
    if b.len() < 4 {
        Some(ParseErrorKind::UnexpectedEof)
    } else if b.subrange(0, 4) != magic() {
        Some(ParseErrorKind::MalformedHeader)
    } else if b.len() < 12 {
        Some(ParseErrorKind::UnexpectedEof)
    } else if !valid_utf8(b.subrange(4, 12)) {
        Some(ParseErrorKind::Utf8Error)
    } else if b.len() < 16 {
        Some(ParseErrorKind::UnexpectedEof)
    } else if b[15] != 0 {
        Some(ParseErrorKind::MalformedHeader)
    } else if b.len() < 20 {
        Some(ParseErrorKind::UnexpectedEof)
    } else {
        None
    }
}

/// `h` holds the header stored at the start of `b`.
pub open spec fn header_of(b: Seq<u8>, h: Header) -> bool {
    &&& h.arcdps_build@ == decode_utf8(b.subrange(4, 12))
    &&& h.revision == b[12]
    &&& h.combat_id == u16_at(b, 13)
    &&& h.agent_count == u32_at(b, 16)
}

/// The 20 bytes of an evtc header in arcdps's layout: the magic `EVTC`, the 8 bytes of the build
/// date, the revision, the combat id (2 bytes), a zero byte, and the agent count (4 bytes), each
/// number least significant byte first.
pub open spec fn encode_header(build: Seq<u8>, revision: u8, combat_id: u16, agent_count: u32) -> Seq<
    u8,
> {
    magic() + build + seq![revision] + le_bytes(combat_id as nat, 2) + seq![0u8] + le_bytes(
        agent_count as nat,
        4,
    )
}

/// Reading a header gives back what was encoded: the build date, the revision, the combat id and
/// the agent count, each from its own offset; the header is well-formed where the build date is
/// valid UTF-8.
pub proof fn lemma_header_round_trip(build: Seq<u8>, h: Header)
    requires
        build.len() == 8,
        valid_utf8(build),
        h.arcdps_build@ == decode_utf8(build),
    ensures
        ({
            let b = encode_header(build, h.revision, h.combat_id, h.agent_count);
            &&& b.len() == 20
            &&& header_error(b) is None
            &&& header_of(b, h)
        }),
{
    let b = encode_header(build, h.revision, h.combat_id, h.agent_count);
    assert(b.subrange(0, 4) =~= magic());
    assert(b.subrange(4, 12) =~= build);
    assert(b.subrange(13, 15) =~= le_bytes(h.combat_id as nat, 2));
    assert(b.subrange(16, 20) =~= le_bytes(h.agent_count as nat, 4));
    lemma_byte_powers();
    lemma_read_back(b, 13, h.combat_id as nat, 2);
    lemma_read_back(b, 16, h.agent_count as nat, 4);
}

/// `a` holds the agent record stored at `pos` in `b`.
pub open spec fn agent_at(b: Seq<u8>, pos: int, a: Agent) -> bool {
    &&& a.addr == u64_at(b, pos)
    &&& a.prof == u32_at(b, pos + 8)
    &&& a.is_elite == u32_at(b, pos + 12)
    &&& a.toughness == i16_at(b, pos + 16)
    &&& a.concentration == i16_at(b, pos + 18)
    &&& a.healing == i16_at(b, pos + 20)
    &&& a.condition == i16_at(b, pos + 24)
    &&& a.name@ == b.subrange(pos + 28, pos + 92)
}

/// `v` holds the `count` agent records stored one after another from `pos` in `b`.
pub open spec fn agents_at(b: Seq<u8>, pos: int, count: nat, v: Seq<Agent>) -> bool {
    &&& v.len() == count
    &&& forall|i: int| 0 <= i < count ==> #[trigger] agent_at(b, pos + 96 * i, v[i])
}

/// `s` holds the skill record stored at `pos` in `b`.
pub open spec fn skill_at(b: Seq<u8>, pos: int, s: Skill) -> bool {
    &&& s.id == i32_at(b, pos)
    &&& s.name@ == b.subrange(pos + 4, pos + 68)
}

/// `v` holds the `count` skill records stored one after another from `pos` in `b`.
pub open spec fn skills_at(b: Seq<u8>, pos: int, count: nat, v: Seq<Skill>) -> bool {
    &&& v.len() == count
    &&& forall|i: int| 0 <= i < count ==> #[trigger] skill_at(b, pos + 68 * i, v[i])
}

/// The 96 bytes of an agent record in arcdps's layout: `addr` (8 bytes), `prof` and `is_elite`
/// (4 bytes each), `toughness`, `concentration` and `healing` (2 bytes each), two bytes of
/// padding, `condition` (2 bytes), two bytes of padding, all least significant byte first; then
/// the 64 bytes of the name and four bytes of padding.
pub open spec fn encode_agent(a: Agent) -> Seq<u8> {
    le_bytes(a.addr as nat, 8) + le_bytes(a.prof as nat, 4) + le_bytes(a.is_elite as nat, 4)
        + le_bytes((a.toughness as u16) as nat, 2) + le_bytes((a.concentration as u16) as nat, 2)
        + le_bytes((a.healing as u16) as nat, 2) + seq![0u8, 0u8] + le_bytes(
        (a.condition as u16) as nat,
        2,
    ) + seq![0u8, 0u8] + a.name@ + seq![0u8, 0u8, 0u8, 0u8]
}

/// Where the agent layout puts each field.
#[verifier::spinoff_prover]
#[verifier::rlimit(100)]
proof fn lemma_agent_layout(a: Agent)
    ensures
        ({
            let b = encode_agent(a);
            &&& b.len() == 96
            &&& b.subrange(0, 8) == le_bytes(a.addr as nat, 8)
            &&& b.subrange(8, 12) == le_bytes(a.prof as nat, 4)
            &&& b.subrange(12, 16) == le_bytes(a.is_elite as nat, 4)
            &&& b.subrange(16, 18) == le_bytes((a.toughness as u16) as nat, 2)
            &&& b.subrange(18, 20) == le_bytes((a.concentration as u16) as nat, 2)
            &&& b.subrange(20, 22) == le_bytes((a.healing as u16) as nat, 2)
            &&& b.subrange(24, 26) == le_bytes((a.condition as u16) as nat, 2)
            &&& b.subrange(28, 92) == a.name@
        }),
{
    let b = encode_agent(a);
    assert(a.name@.len() == 64);
    assert(b.subrange(0, 8) =~= le_bytes(a.addr as nat, 8));
    assert(b.subrange(8, 12) =~= le_bytes(a.prof as nat, 4));
    assert(b.subrange(12, 16) =~= le_bytes(a.is_elite as nat, 4));
    assert(b.subrange(16, 18) =~= le_bytes((a.toughness as u16) as nat, 2));
    assert(b.subrange(18, 20) =~= le_bytes((a.concentration as u16) as nat, 2));
    assert(b.subrange(20, 22) =~= le_bytes((a.healing as u16) as nat, 2));
    assert(b.subrange(24, 26) =~= le_bytes((a.condition as u16) as nat, 2));
    assert(b.subrange(28, 92) =~= a.name@);
}

/// Reading an agent record gives back the agent that was encoded: every field is read from its
/// own offset of arcdps's agent layout.
#[verifier::spinoff_prover]
pub proof fn lemma_agent_round_trip(a: Agent)
    ensures
        encode_agent(a).len() == 96,
        agent_at(encode_agent(a), 0, a),
{
    let b = encode_agent(a);
    lemma_agent_layout(a);
    lemma_byte_powers();
    lemma_read_back(b, 0, a.addr as nat, 8);
    lemma_read_back(b, 8, a.prof as nat, 4);
    lemma_read_back(b, 12, a.is_elite as nat, 4);
    lemma_read_back(b, 16, (a.toughness as u16) as nat, 2);
    lemma_read_back(b, 18, (a.concentration as u16) as nat, 2);
    lemma_read_back(b, 20, (a.healing as u16) as nat, 2);
    lemma_read_back(b, 24, (a.condition as u16) as nat, 2);
    let (t, c, h, d) = (a.toughness, a.concentration, a.healing, a.condition);
    assert((t as u16) as i16 == t) by (bit_vector);
    assert((c as u16) as i16 == c) by (bit_vector);
    assert((h as u16) as i16 == h) by (bit_vector);
    assert((d as u16) as i16 == d) by (bit_vector);
}

/// The 68 bytes of a skill record in arcdps's layout: the id (4 bytes, least significant byte
/// first), then the 64 bytes of the name.
pub open spec fn encode_skill(s: Skill) -> Seq<u8> {
    le_bytes((s.id as u32) as nat, 4) + s.name@
}

/// Reading a skill record gives back the skill that was encoded.
pub proof fn lemma_skill_round_trip(s: Skill)
    ensures
        encode_skill(s).len() == 68,
        skill_at(encode_skill(s), 0, s),
{
    let b = encode_skill(s);
    assert(s.name@.len() == 64);
    assert(b.subrange(0, 4) =~= le_bytes((s.id as u32) as nat, 4));
    assert(b.subrange(4, 68) =~= s.name@);
    lemma_byte_powers();
    lemma_read_back(b, 0, (s.id as u32) as nat, 4);
    let i = s.id;
    assert((i as u32) as i32 == i) by (bit_vector);
}

/// The IFF that a byte stands for; bytes that stand for none give `IFF::Unset`.
pub open spec fn iff_of(v: u8) -> IFF {
    if v < 4 { choose|x: IFF| x.code() == v } else { IFF::Unset }
}

/// The result that a byte stands for; bytes that stand for none give `CbtResult::Unset`.
pub open spec fn result_of(v: u8) -> CbtResult {
    if v < 11 { choose|x: CbtResult| x.code() == v } else { CbtResult::Unset }
}

/// The activation that a byte stands for; bytes that stand for none give `CbtActivation::Unset`.
pub open spec fn activation_of(v: u8) -> CbtActivation {
    if v < 6 { choose|x: CbtActivation| x.code() == v } else { CbtActivation::Unset }
}

/// The buff removal that a byte stands for; bytes that stand for none give `CbtBuffRemove::Unset`.
pub open spec fn buffremove_of(v: u8) -> CbtBuffRemove {
    if v < 4 { choose|x: CbtBuffRemove| x.code() == v } else { CbtBuffRemove::Unset }
}

/// The state change that a byte stands for (meaningful for bytes below 38).
pub open spec fn statechange_of(v: u8) -> CbtStateChange {
    choose|x: CbtStateChange| x.code() == v
}

/// The event stored at `pos` in `b` in the revision 0 layout, or `None` if its state change byte
/// stands for no known state change.
pub open spec fn event_rev0_at(b: Seq<u8>, pos: int) -> Option<CbtEvent> {
    if b[pos + 59] >= 38 {
        None
    } else {
        Some(CbtEvent {
            time: u64_at(b, pos),
            src_agent: u64_at(b, pos + 8),
            dst_agent: u64_at(b, pos + 16),
            value: i32_at(b, pos + 24),
            buff_dmg: i32_at(b, pos + 28),
            overstack_value: u16_at(b, pos + 32) as u32,
            skillid: u16_at(b, pos + 34) as u32,
            src_instid: u16_at(b, pos + 36),
            dst_instid: u16_at(b, pos + 38),
            src_master_instid: u16_at(b, pos + 40),
            dst_master_instid: 0,
            iff: iff_of(b[pos + 51]),
            buff: b[pos + 52],
            result: result_of(b[pos + 53]),
            is_activation: activation_of(b[pos + 54]),
            is_buffremove: buffremove_of(b[pos + 55]),
            is_ninety: b[pos + 56] != 0,
            is_fifty: b[pos + 57] != 0,
            is_moving: b[pos + 58] != 0,
            is_statechange: statechange_of(b[pos + 59]),
            is_flanking: b[pos + 60] != 0,
            is_shields: b[pos + 61] != 0,
            is_offcycle: false,
        })
    }
}

/// The event stored at `pos` in `b` in the revision 1 layout, or `None` if its state change byte
/// stands for no known state change.
pub open spec fn event_rev1_at(b: Seq<u8>, pos: int) -> Option<CbtEvent> {
    if b[pos + 56] >= 38 {
        None
    } else {
        Some(CbtEvent {
            time: u64_at(b, pos),
            src_agent: u64_at(b, pos + 8),
            dst_agent: u64_at(b, pos + 16),
            value: i32_at(b, pos + 24),
            buff_dmg: i32_at(b, pos + 28),
            overstack_value: u32_at(b, pos + 32),
            skillid: u32_at(b, pos + 36),
            src_instid: u16_at(b, pos + 40),
            dst_instid: u16_at(b, pos + 42),
            src_master_instid: u16_at(b, pos + 44),
            dst_master_instid: u16_at(b, pos + 46),
            iff: iff_of(b[pos + 48]),
            buff: b[pos + 49],
            result: result_of(b[pos + 50]),
            is_activation: activation_of(b[pos + 51]),
            is_buffremove: buffremove_of(b[pos + 52]),
            is_ninety: b[pos + 53] != 0,
            is_fifty: b[pos + 54] != 0,
            is_moving: b[pos + 55] != 0,
            is_statechange: statechange_of(b[pos + 56]),
            is_flanking: b[pos + 57] != 0,
            is_shields: b[pos + 58] != 0,
            is_offcycle: b[pos + 59] != 0,
        })
    }
}

/// The byte of a flag: 1 where it is set.
pub open spec fn flag_byte(f: bool) -> u8 {
    if f {
        1
    } else {
        0
    }
}

/// The 64 bytes of an event record in arcdps's revision 1 layout (`cbtevent`): `time`,
/// `src_agent` and `dst_agent` (8 bytes each), `value`, `buff_dmg`, `overstack_value` and
/// `skillid` (4 bytes each), the four instance ids (2 bytes each), all least significant byte
/// first; then one byte each for `iff`, `buff`, `result`, `is_activation`, `is_buffremove`,
/// `is_ninety`, `is_fifty`, `is_moving`, `is_statechange`, `is_flanking`, `is_shields` and
/// `is_offcycle`; then four bytes of padding.
pub open spec fn encode_event_rev1(e: CbtEvent) -> Seq<u8> {
    le_bytes(e.time as nat, 8) + le_bytes(e.src_agent as nat, 8) + le_bytes(e.dst_agent as nat, 8)
        + le_bytes((e.value as u32) as nat, 4) + le_bytes((e.buff_dmg as u32) as nat, 4)
        + le_bytes(e.overstack_value as nat, 4) + le_bytes(e.skillid as nat, 4) + le_bytes(
        e.src_instid as nat,
        2,
    ) + le_bytes(e.dst_instid as nat, 2) + le_bytes(e.src_master_instid as nat, 2) + le_bytes(
        e.dst_master_instid as nat,
        2,
    ) + seq![
        e.iff.code(),
        e.buff,
        e.result.code(),
        e.is_activation.code(),
        e.is_buffremove.code(),
        flag_byte(e.is_ninety),
        flag_byte(e.is_fifty),
        flag_byte(e.is_moving),
        e.is_statechange.code(),
        flag_byte(e.is_flanking),
        flag_byte(e.is_shields),
        flag_byte(e.is_offcycle),
        0u8,
        0u8,
        0u8,
        0u8,
    ]
}

/// The powers of 256 that bound the integer fields.
proof fn lemma_byte_powers()
    ensures
        pow(256, 2) == 0x1_0000,
        pow(256, 4) == 0x1_0000_0000,
        pow(256, 8) == 0x1_0000_0000_0000_0000,
{
    reveal_with_fuel(pow, 9);
}

/// Reading `width` bytes back at `pos` gives the number that `le_bytes` wrote there.
proof fn lemma_read_back(b: Seq<u8>, pos: int, n: nat, width: nat)
    requires
        0 <= pos,
        pos + width <= b.len(),
        b.subrange(pos, pos + width) == le_bytes(n, width),
        n < pow(256, width),
    ensures
        le_value(b.subrange(pos, pos + width)) == n,
{
    lemma_le_bytes_value(n, width);
    vstd::arithmetic::div_mod::lemma_small_mod(n, pow(256, width) as nat);
}

/// Where the revision 1 layout puts each field: the bytes of each integer at its offset, and each
/// one-byte field at its own.
#[verifier::spinoff_prover]
#[verifier::rlimit(100)]
proof fn lemma_rev1_layout(e: CbtEvent)
    ensures
        ({
            let b = encode_event_rev1(e);
            &&& b.len() == 64
            &&& b.subrange(0, 8) == le_bytes(e.time as nat, 8)
            &&& b.subrange(8, 16) == le_bytes(e.src_agent as nat, 8)
            &&& b.subrange(16, 24) == le_bytes(e.dst_agent as nat, 8)
            &&& b.subrange(24, 28) == le_bytes((e.value as u32) as nat, 4)
            &&& b.subrange(28, 32) == le_bytes((e.buff_dmg as u32) as nat, 4)
            &&& b.subrange(32, 36) == le_bytes(e.overstack_value as nat, 4)
            &&& b.subrange(36, 40) == le_bytes(e.skillid as nat, 4)
            &&& b.subrange(40, 42) == le_bytes(e.src_instid as nat, 2)
            &&& b.subrange(42, 44) == le_bytes(e.dst_instid as nat, 2)
            &&& b.subrange(44, 46) == le_bytes(e.src_master_instid as nat, 2)
            &&& b.subrange(46, 48) == le_bytes(e.dst_master_instid as nat, 2)
            &&& b[48] == e.iff.code()
            &&& b[49] == e.buff
            &&& b[50] == e.result.code()
            &&& b[51] == e.is_activation.code()
            &&& b[52] == e.is_buffremove.code()
            &&& b[53] == flag_byte(e.is_ninety)
            &&& b[54] == flag_byte(e.is_fifty)
            &&& b[55] == flag_byte(e.is_moving)
            &&& b[56] == e.is_statechange.code()
            &&& b[57] == flag_byte(e.is_flanking)
            &&& b[58] == flag_byte(e.is_shields)
            &&& b[59] == flag_byte(e.is_offcycle)
        }),
{
    let b = encode_event_rev1(e);
    assert(b.subrange(0, 8) =~= le_bytes(e.time as nat, 8));
    assert(b.subrange(8, 16) =~= le_bytes(e.src_agent as nat, 8));
    assert(b.subrange(16, 24) =~= le_bytes(e.dst_agent as nat, 8));
    assert(b.subrange(24, 28) =~= le_bytes((e.value as u32) as nat, 4));
    assert(b.subrange(28, 32) =~= le_bytes((e.buff_dmg as u32) as nat, 4));
    assert(b.subrange(32, 36) =~= le_bytes(e.overstack_value as nat, 4));
    assert(b.subrange(36, 40) =~= le_bytes(e.skillid as nat, 4));
    assert(b.subrange(40, 42) =~= le_bytes(e.src_instid as nat, 2));
    assert(b.subrange(42, 44) =~= le_bytes(e.dst_instid as nat, 2));
    assert(b.subrange(44, 46) =~= le_bytes(e.src_master_instid as nat, 2));
    assert(b.subrange(46, 48) =~= le_bytes(e.dst_master_instid as nat, 2));
}

/// Decoding an event record in the revision 1 layout gives back the event that was encoded: every
/// field is read from its own offset of arcdps's `cbtevent`.
#[verifier::spinoff_prover]
pub proof fn lemma_event_rev1_round_trip(e: CbtEvent)
    ensures
        encode_event_rev1(e).len() == 64,
        event_rev1_at(encode_event_rev1(e), 0) == Some(e),
{
    let b = encode_event_rev1(e);
    lemma_rev1_layout(e);
    lemma_byte_powers();
    lemma_read_back(b, 0, e.time as nat, 8);
    lemma_read_back(b, 8, e.src_agent as nat, 8);
    lemma_read_back(b, 16, e.dst_agent as nat, 8);
    lemma_read_back(b, 24, (e.value as u32) as nat, 4);
    lemma_read_back(b, 28, (e.buff_dmg as u32) as nat, 4);
    lemma_read_back(b, 32, e.overstack_value as nat, 4);
    lemma_read_back(b, 36, e.skillid as nat, 4);
    lemma_read_back(b, 40, e.src_instid as nat, 2);
    lemma_read_back(b, 42, e.dst_instid as nat, 2);
    lemma_read_back(b, 44, e.src_master_instid as nat, 2);
    lemma_read_back(b, 46, e.dst_master_instid as nat, 2);
    let (v, d) = (e.value, e.buff_dmg);
    assert((v as u32) as i32 == v) by (bit_vector);
    assert((d as u32) as i32 == d) by (bit_vector);
    lemma_iff_of(b[48], e.iff);
    lemma_result_of(b[50], e.result);
    lemma_activation_of(b[51], e.is_activation);
    lemma_buffremove_of(b[52], e.is_buffremove);
    lemma_statechange_of(b[56], e.is_statechange);
    assert(event_rev1_at(b, 0) =~= Some(e));
}

/// The 64 bytes of an event record in arcdps's revision 0 layout: `time`, `src_agent` and
/// `dst_agent` (8 bytes each), `value` and `buff_dmg` (4 bytes each), `overstack_value`,
/// `skillid`, `src_instid`, `dst_instid` and `src_master_instid` (2 bytes each), all least
/// significant byte first; nine bytes of padding; one byte each for `iff`, `buff`, `result`,
/// `is_activation`, `is_buffremove`, `is_ninety`, `is_fifty`, `is_moving`, `is_statechange`,
/// `is_flanking` and `is_shields`; then two bytes of padding.
pub open spec fn encode_event_rev0(e: CbtEvent) -> Seq<u8> {
    le_bytes(e.time as nat, 8) + le_bytes(e.src_agent as nat, 8) + le_bytes(e.dst_agent as nat, 8)
        + le_bytes((e.value as u32) as nat, 4) + le_bytes((e.buff_dmg as u32) as nat, 4)
        + le_bytes(e.overstack_value as nat, 2) + le_bytes(e.skillid as nat, 2) + le_bytes(
        e.src_instid as nat,
        2,
    ) + le_bytes(e.dst_instid as nat, 2) + le_bytes(e.src_master_instid as nat, 2) + Seq::new(
        9,
        |i: int| 0u8,
    ) + seq![
        e.iff.code(),
        e.buff,
        e.result.code(),
        e.is_activation.code(),
        e.is_buffremove.code(),
        flag_byte(e.is_ninety),
        flag_byte(e.is_fifty),
        flag_byte(e.is_moving),
        e.is_statechange.code(),
        flag_byte(e.is_flanking),
        flag_byte(e.is_shields),
        0u8,
        0u8,
    ]
}

/// Where the revision 0 layout puts each field.
#[verifier::spinoff_prover]
#[verifier::rlimit(100)]
proof fn lemma_rev0_layout(e: CbtEvent)
    ensures
        ({
            let b = encode_event_rev0(e);
            &&& b.len() == 64
            &&& b.subrange(0, 8) == le_bytes(e.time as nat, 8)
            &&& b.subrange(8, 16) == le_bytes(e.src_agent as nat, 8)
            &&& b.subrange(16, 24) == le_bytes(e.dst_agent as nat, 8)
            &&& b.subrange(24, 28) == le_bytes((e.value as u32) as nat, 4)
            &&& b.subrange(28, 32) == le_bytes((e.buff_dmg as u32) as nat, 4)
            &&& b.subrange(32, 34) == le_bytes(e.overstack_value as nat, 2)
            &&& b.subrange(34, 36) == le_bytes(e.skillid as nat, 2)
            &&& b.subrange(36, 38) == le_bytes(e.src_instid as nat, 2)
            &&& b.subrange(38, 40) == le_bytes(e.dst_instid as nat, 2)
            &&& b.subrange(40, 42) == le_bytes(e.src_master_instid as nat, 2)
            &&& b[51] == e.iff.code()
            &&& b[52] == e.buff
            &&& b[53] == e.result.code()
            &&& b[54] == e.is_activation.code()
            &&& b[55] == e.is_buffremove.code()
            &&& b[56] == flag_byte(e.is_ninety)
            &&& b[57] == flag_byte(e.is_fifty)
            &&& b[58] == flag_byte(e.is_moving)
            &&& b[59] == e.is_statechange.code()
            &&& b[60] == flag_byte(e.is_flanking)
            &&& b[61] == flag_byte(e.is_shields)
        }),
{
    let b = encode_event_rev0(e);
    assert(b.subrange(0, 8) =~= le_bytes(e.time as nat, 8));
    assert(b.subrange(8, 16) =~= le_bytes(e.src_agent as nat, 8));
    assert(b.subrange(16, 24) =~= le_bytes(e.dst_agent as nat, 8));
    assert(b.subrange(24, 28) =~= le_bytes((e.value as u32) as nat, 4));
    assert(b.subrange(28, 32) =~= le_bytes((e.buff_dmg as u32) as nat, 4));
    assert(b.subrange(32, 34) =~= le_bytes(e.overstack_value as nat, 2));
    assert(b.subrange(34, 36) =~= le_bytes(e.skillid as nat, 2));
    assert(b.subrange(36, 38) =~= le_bytes(e.src_instid as nat, 2));
    assert(b.subrange(38, 40) =~= le_bytes(e.dst_instid as nat, 2));
    assert(b.subrange(40, 42) =~= le_bytes(e.src_master_instid as nat, 2));
}

/// Decoding an event record in the revision 0 layout gives back the event that was encoded, for
/// every event that the layout can hold: skill ids and overstack values of 16 bits, no master of
/// the destination and no off-cycle flag.
#[verifier::spinoff_prover]
pub proof fn lemma_event_rev0_round_trip(e: CbtEvent)
    requires
        e.overstack_value < 0x1_0000,
        e.skillid < 0x1_0000,
        e.dst_master_instid == 0,
        !e.is_offcycle,
    ensures
        encode_event_rev0(e).len() == 64,
        event_rev0_at(encode_event_rev0(e), 0) == Some(e),
{
    let b = encode_event_rev0(e);
    lemma_rev0_layout(e);
    lemma_byte_powers();
    lemma_read_back(b, 0, e.time as nat, 8);
    lemma_read_back(b, 8, e.src_agent as nat, 8);
    lemma_read_back(b, 16, e.dst_agent as nat, 8);
    lemma_read_back(b, 24, (e.value as u32) as nat, 4);
    lemma_read_back(b, 28, (e.buff_dmg as u32) as nat, 4);
    lemma_read_back(b, 32, e.overstack_value as nat, 2);
    lemma_read_back(b, 34, e.skillid as nat, 2);
    lemma_read_back(b, 36, e.src_instid as nat, 2);
    lemma_read_back(b, 38, e.dst_instid as nat, 2);
    lemma_read_back(b, 40, e.src_master_instid as nat, 2);
    let (v, d) = (e.value, e.buff_dmg);
    assert((v as u32) as i32 == v) by (bit_vector);
    assert((d as u32) as i32 == d) by (bit_vector);
    lemma_iff_of(b[51], e.iff);
    lemma_result_of(b[53], e.result);
    lemma_activation_of(b[54], e.is_activation);
    lemma_buffremove_of(b[55], e.is_buffremove);
    lemma_statechange_of(b[59], e.is_statechange);
    assert(event_rev0_at(b, 0) =~= Some(e));
}

/// The event stored at `pos` in `b` in the layout of the given revision (0 or 1).
pub open spec fn event_at(b: Seq<u8>, pos: int, revision: u8) -> Option<CbtEvent> {
    if revision == 0 { event_rev0_at(b, pos) } else { event_rev1_at(b, pos) }
}

/// The events among the first `k` event records of `b`, skipping the records whose state change
/// is unknown.
pub open spec fn events_upto(b: Seq<u8>, revision: u8, k: nat) -> Seq<CbtEvent>
    decreases k,
{
    if k == 0 {
        Seq::empty()
    } else {
        let prev = events_upto(b, revision, (k - 1) as nat);
        match event_at(b, 64 * (k - 1), revision) {
            Some(e) => prev.push(e),
            None => prev,
        }
    }
}

/// The events stored in `b`: one per complete 64-byte record, except the records whose state
/// change is unknown. A trailing partial record is ignored.
pub open spec fn events_of(b: Seq<u8>, revision: u8) -> Seq<CbtEvent> {
    events_upto(b, revision, b.len() / 64)
}

/// The offset of the skill count in a file with `agent_count` agents.
pub open spec fn skill_count_pos(agent_count: u32) -> int {
    20 + 96 * agent_count
}

/// The offset of the first skill record in a file with `agent_count` agents.
pub open spec fn skills_pos(agent_count: u32) -> int {
    skill_count_pos(agent_count) + 4
}

/// The offset of the first event record in a file with the given agent and skill counts.
pub open spec fn events_pos(agent_count: u32, skill_count: u32) -> int {
    skills_pos(agent_count) + 68 * skill_count
}

/// The error that parsing everything but the events of `b` gives, if any.
pub open spec fn partial_error(b: Seq<u8>) -> Option<ParseErrorKind> {
    if header_error(b) is Some {
        header_error(b)
    } else if b.len() < skills_pos(u32_at(b, 16)) {
        Some(ParseErrorKind::UnexpectedEof)
    } else if b.len() < events_pos(u32_at(b, 16), u32_at(b, skill_count_pos(u32_at(b, 16)))) {
        Some(ParseErrorKind::UnexpectedEof)
    } else {
        None
    }
}

/// `p` holds everything but the events of the file `b`.
pub open spec fn partial_of(b: Seq<u8>, p: PartialEvtc) -> bool {
    &&& header_of(b, p.header)
    &&& agents_at(b, 20, p.header.agent_count as nat, p.agents@)
    &&& p.skill_count == u32_at(b, skill_count_pos(p.header.agent_count))
    &&& skills_at(b, skills_pos(p.header.agent_count), p.skill_count as nat, p.skills@)
}

/// The bytes of the file `b` that follow the skills.
pub open spec fn event_bytes(b: Seq<u8>) -> Seq<u8> {
    b.subrange(events_pos(u32_at(b, 16), u32_at(b, skill_count_pos(u32_at(b, 16)))), b.len() as int)
}

/// The error that parsing the whole file `b` gives, if any.
pub open spec fn file_error(b: Seq<u8>) -> Option<ParseErrorKind> {
    if partial_error(b) is Some {
        partial_error(b)
    } else if b[12] > 1 {
        Some(ParseErrorKind::UnknownRevision(b[12]))
    } else {
        None
    }
}

/// `e` holds the file `b`.
pub open spec fn evtc_of(b: Seq<u8>, e: Evtc) -> bool {
    &&& header_of(b, e.header)
    &&& agents_at(b, 20, e.header.agent_count as nat, e.agents@)
    &&& e.skill_count == u32_at(b, skill_count_pos(e.header.agent_count))
    &&& skills_at(b, skills_pos(e.header.agent_count), e.skill_count as nat, e.skills@)
    &&& e.events@ == events_of(event_bytes(b), e.header.revision)
}

proof fn lemma_iff_of(v: u8, x: IFF)
    requires
        x.code() == v,
    ensures
        iff_of(v) == x,
{
    let y = choose|y: IFF| y.code() == v;
    assert(y.code() == v);
}

proof fn lemma_result_of(v: u8, x: CbtResult)
    requires
        x.code() == v,
    ensures
        result_of(v) == x,
{
    let y = choose|y: CbtResult| y.code() == v;
    assert(y.code() == v);
}

proof fn lemma_activation_of(v: u8, x: CbtActivation)
    requires
        x.code() == v,
    ensures
        activation_of(v) == x,
{
    let y = choose|y: CbtActivation| y.code() == v;
    assert(y.code() == v);
}

proof fn lemma_buffremove_of(v: u8, x: CbtBuffRemove)
    requires
        x.code() == v,
    ensures
        buffremove_of(v) == x,
{
    let y = choose|y: CbtBuffRemove| y.code() == v;
    assert(y.code() == v);
}

proof fn lemma_statechange_of(v: u8, x: CbtStateChange)
    requires
        x.code() == v,
    ensures
        statechange_of(v) == x,
{
    let y = choose|y: CbtStateChange| y.code() == v;
    assert(y.code() == v);
}

fn read_iff(v: u8) -> (r: IFF)
    ensures
        r == iff_of(v),
{
    match IFF::from_u8(v) {
        Some(x) => {
            proof {
                lemma_iff_of(v, x);
            }
            x
        },
        None => IFF::Unset,
    }
}

fn read_result(v: u8) -> (r: CbtResult)
    ensures
        r == result_of(v),
{
    match CbtResult::from_u8(v) {
        Some(x) => {
            proof {
                lemma_result_of(v, x);
            }
            x
        },
        None => CbtResult::Unset,
    }
}

fn read_activation(v: u8) -> (r: CbtActivation)
    ensures
        r == activation_of(v),
{
    match CbtActivation::from_u8(v) {
        Some(x) => {
            proof {
                lemma_activation_of(v, x);
            }
            x
        },
        None => CbtActivation::Unset,
    }
}

fn read_buffremove(v: u8) -> (r: CbtBuffRemove)
    ensures
        r == buffremove_of(v),
{
    match CbtBuffRemove::from_u8(v) {
        Some(x) => {
            proof {
                lemma_buffremove_of(v, x);
            }
            x
        },
        None => CbtBuffRemove::Unset,
    }
}

/// Parse the header of an evtc file.
///
/// The header is read from the very first byte of `input`.
pub fn parse_header(input: &[u8]) -> (r: ParseResult<Header>)
    ensures
        r is Ok <==> header_error(input@) is None,
        r matches Ok(h) ==> header_of(input@, h),
        r matches Err(e) ==> header_error(input@) == Some(e.kind()),
{
    if input.len() < 4 {
        return Err(ParseError::UnexpectedEof);
    }
    if !(input[0] == 0x45 && input[1] == 0x56 && input[2] == 0x54 && input[3] == 0x43) {
        proof {
            if input@.subrange(0, 4) == magic() {
                assert(input@[0] == input@.subrange(0, 4)[0]);
                assert(input@[1] == input@.subrange(0, 4)[1]);
                assert(input@[2] == input@.subrange(0, 4)[2]);
                assert(input@[3] == input@.subrange(0, 4)[3]);
            }
        }
        return Err(ParseError::MalformedHeader);
    }
    assert(input@.subrange(0, 4) =~= magic());
    if input.len() < 12 {
        return Err(ParseError::UnexpectedEof);
    }
    let build = vstd::slice::slice_to_vec(vstd::slice::slice_subrange(input, 4, 12));
    let build_string = match crate::text::string_from_utf8(build) {
        Ok(s) => s,
        Err(e) => return Err(ParseError::Utf8Error(e)),
    };
    if input.len() < 16 {
        return Err(ParseError::UnexpectedEof);
    }
    let revision = input[12];
    let combat_id = read_u16_le(input, 13);
    if input[15] != 0 {
        return Err(ParseError::MalformedHeader);
    }
    if input.len() < 20 {
        return Err(ParseError::UnexpectedEof);
    }
    let agent_count = read_u32_le(input, 16);
    Ok(Header { arcdps_build: build_string, combat_id, agent_count, revision })
}

/// Parse a single agent record at `pos`.
fn parse_agent_at(input: &[u8], pos: usize) -> (r: Agent)
    requires
        pos + 96 <= input@.len(),
    ensures
        agent_at(input@, pos as int, r),
{
    proof {
        lemma_len_fits(input);
    }
    let addr = read_u64_le(input, pos);
    let prof = read_u32_le(input, pos + 8);
    let is_elite = read_u32_le(input, pos + 12);
    let toughness = read_i16_le(input, pos + 16);
    let concentration = read_i16_le(input, pos + 18);
    let healing = read_i16_le(input, pos + 20);
    let condition = read_i16_le(input, pos + 24);
    let mut name = [0u8;64];
    let mut i: usize = 0;
    while i < 64
        invariant
            i <= 64,
            pos + 96 <= input@.len(),
            input@.len() <= usize::MAX,
            name@.len() == 64,
            forall|j: int| 0 <= j < i ==> name@[j] == input@[pos + 28 + j],
        decreases 64 - i,
    {
        name[i] = input[pos + 28 + i];
        i = i + 1;
    }
    assert(name@ =~= input@.subrange(pos + 28, pos + 92));
    Agent { addr, prof, is_elite, toughness, concentration, healing, condition, name }
}

/// Parse a single agent.
///
/// The agent record (96 bytes, including 4 bytes of padding) is read from the start of `input`.
pub fn parse_agent(input: &[u8]) -> (r: ParseResult<Agent>)
    ensures
        r is Ok <==> input@.len() >= 96,
        r matches Ok(a) ==> agent_at(input@, 0, a),
        r matches Err(e) ==> e.kind() == ParseErrorKind::UnexpectedEof,
{
    if input.len() < 96 {
        return Err(ParseError::UnexpectedEof);
    }
    Ok(parse_agent_at(input, 0))
}

/// Parse `count` agent records that follow each other from `pos`.
fn parse_agents_at(input: &[u8], pos: usize, count: u32) -> (r: ParseResult<Vec<Agent>>)
    requires
        pos <= input@.len(),
    ensures
        r is Ok <==> pos + 96 * count <= input@.len(),
        r matches Ok(v) ==> agents_at(input@, pos as int, count as nat, v@),
        r matches Err(e) ==> e.kind() == ParseErrorKind::UnexpectedEof,
{
    proof {
        lemma_len_fits(input);
    }
    let available: u64 = (input.len() - pos) as u64;
    if available < 96 * (count as u64) {
        return Err(ParseError::UnexpectedEof);
    }
    let mut result: Vec<Agent> = Vec::new();
    let mut i: u32 = 0;
    let mut p: usize = pos;
    while i < count
        invariant
            i <= count,
            p == pos + 96 * i,
            pos + 96 * count <= input@.len(),
            input@.len() <= usize::MAX,
            result@.len() == i,
            forall|j: int| 0 <= j < i ==> #[trigger] agent_at(input@, pos + 96 * j, result@[j]),
        decreases count - i,
    {
        let a = parse_agent_at(input, p);
        result.push(a);
        i = i + 1;
        p = p + 96;
    }
    Ok(result)
}

/// Parse the agent array.
///
/// The `count` agent records are read from the start of `input`.
pub fn parse_agents(input: &[u8], count: u32) -> (r: ParseResult<Vec<Agent>>)
    ensures
        r is Ok <==> 96 * count <= input@.len(),
        r matches Ok(v) ==> agents_at(input@, 0, count as nat, v@),
        r matches Err(e) ==> e.kind() == ParseErrorKind::UnexpectedEof,
{
    parse_agents_at(input, 0, count)
}

/// Parse a single skill record at `pos`.
fn parse_skill_at(input: &[u8], pos: usize) -> (r: Skill)
    requires
        pos + 68 <= input@.len(),
    ensures
        skill_at(input@, pos as int, r),
{
    proof {
        lemma_len_fits(input);
    }
    let id = read_i32_le(input, pos);
    let mut name = [0u8;64];
    let mut i: usize = 0;
    while i < 64
        invariant
            i <= 64,
            pos + 68 <= input@.len(),
            input@.len() <= usize::MAX,
            name@.len() == 64,
            forall|j: int| 0 <= j < i ==> name@[j] == input@[pos + 4 + j],
        decreases 64 - i,
    {
        name[i] = input[pos + 4 + i];
        i = i + 1;
    }
    assert(name@ =~= input@.subrange(pos + 4, pos + 68));
    Skill { id, name }
}

/// Parse a single skill.
///
/// The skill record (68 bytes) is read from the start of `input`.
pub fn parse_skill(input: &[u8]) -> (r: ParseResult<Skill>)
    ensures
        r is Ok <==> input@.len() >= 68,
        r matches Ok(s) ==> skill_at(input@, 0, s),
        r matches Err(e) ==> e.kind() == ParseErrorKind::UnexpectedEof,
{
    if input.len() < 68 {
        return Err(ParseError::UnexpectedEof);
    }
    Ok(parse_skill_at(input, 0))
}

/// Parse `count` skill records that follow each other from `pos`.
fn parse_skills_at(input: &[u8], pos: usize, count: u32) -> (r: ParseResult<Vec<Skill>>)
    requires
        pos <= input@.len(),
    ensures
        r is Ok <==> pos + 68 * count <= input@.len(),
        r matches Ok(v) ==> skills_at(input@, pos as int, count as nat, v@),
        r matches Err(e) ==> e.kind() == ParseErrorKind::UnexpectedEof,
{
    proof {
        lemma_len_fits(input);
    }
    let available: u64 = (input.len() - pos) as u64;
    if available < 68 * (count as u64) {
        return Err(ParseError::UnexpectedEof);
    }
    let mut result: Vec<Skill> = Vec::new();
    let mut i: u32 = 0;
    let mut p: usize = pos;
    while i < count
        invariant
            i <= count,
            p == pos + 68 * i,
            pos + 68 * count <= input@.len(),
            input@.len() <= usize::MAX,
            result@.len() == i,
            forall|j: int| 0 <= j < i ==> #[trigger] skill_at(input@, pos + 68 * j, result@[j]),
        decreases count - i,
    {
        let s = parse_skill_at(input, p);
        result.push(s);
        i = i + 1;
        p = p + 68;
    }
    Ok(result)
}

/// Parse the skill array.
///
/// The `count` skill records are read from the start of `input`.
pub fn parse_skills(input: &[u8], count: u32) -> (r: ParseResult<Vec<Skill>>)
    ensures
        r is Ok <==> 68 * count <= input@.len(),
        r matches Ok(v) ==> skills_at(input@, 0, count as nat, v@),
        r matches Err(e) ==> e.kind() == ParseErrorKind::UnexpectedEof,
{
    parse_skills_at(input, 0, count)
}

/// Decode the revision 0 event record at `pos`; `Err` holds an unknown state change byte.
fn decode_event_rev0(input: &[u8], pos: usize) -> (r: Result<CbtEvent, u8>)
    requires
        pos + 64 <= input@.len(),
    ensures
        r is Ok <==> event_rev0_at(input@, pos as int) is Some,
        r matches Ok(e) ==> event_rev0_at(input@, pos as int) == Some(e),
        r matches Err(s) ==> s == input@[pos + 59],
{
    proof {
        lemma_len_fits(input);
    }
    let statechange = input[pos + 59];
    let is_statechange = match CbtStateChange::from_u8(statechange) {
        Some(x) => {
            proof {
                lemma_statechange_of(statechange, x);
            }
            x
        },
        None => return Err(statechange),
    };
    let overstack: u16 = read_u16_le(input, pos + 32);
    let skillid: u16 = read_u16_le(input, pos + 34);
    Ok(CbtEvent {
        time: read_u64_le(input, pos),
        src_agent: read_u64_le(input, pos + 8),
        dst_agent: read_u64_le(input, pos + 16),
        value: read_i32_le(input, pos + 24),
        buff_dmg: read_i32_le(input, pos + 28),
        overstack_value: overstack as u32,
        skillid: skillid as u32,
        src_instid: read_u16_le(input, pos + 36),
        dst_instid: read_u16_le(input, pos + 38),
        src_master_instid: read_u16_le(input, pos + 40),
        dst_master_instid: 0,
        iff: read_iff(input[pos + 51]),
        buff: input[pos + 52],
        result: read_result(input[pos + 53]),
        is_activation: read_activation(input[pos + 54]),
        is_buffremove: read_buffremove(input[pos + 55]),
        is_ninety: input[pos + 56] != 0,
        is_fifty: input[pos + 57] != 0,
        is_moving: input[pos + 58] != 0,
        is_statechange,
        is_flanking: input[pos + 60] != 0,
        is_shields: input[pos + 61] != 0,
        is_offcycle: false,
    })
}

/// Decode the revision 1 event record at `pos`; `Err` holds an unknown state change byte.
fn decode_event_rev1(input: &[u8], pos: usize) -> (r: Result<CbtEvent, u8>)
    requires
        pos + 64 <= input@.len(),
    ensures
        r is Ok <==> event_rev1_at(input@, pos as int) is Some,
        r matches Ok(e) ==> event_rev1_at(input@, pos as int) == Some(e),
        r matches Err(s) ==> s == input@[pos + 56],
{
    proof {
        lemma_len_fits(input);
    }
    let statechange = input[pos + 56];
    let is_statechange = match CbtStateChange::from_u8(statechange) {
        Some(x) => {
            proof {
                lemma_statechange_of(statechange, x);
            }
            x
        },
        None => return Err(statechange),
    };
    Ok(CbtEvent {
        time: read_u64_le(input, pos),
        src_agent: read_u64_le(input, pos + 8),
        dst_agent: read_u64_le(input, pos + 16),
        value: read_i32_le(input, pos + 24),
        buff_dmg: read_i32_le(input, pos + 28),
        overstack_value: read_u32_le(input, pos + 32),
        skillid: read_u32_le(input, pos + 36),
        src_instid: read_u16_le(input, pos + 40),
        dst_instid: read_u16_le(input, pos + 42),
        src_master_instid: read_u16_le(input, pos + 44),
        dst_master_instid: read_u16_le(input, pos + 46),
        iff: read_iff(input[pos + 48]),
        buff: input[pos + 49],
        result: read_result(input[pos + 50]),
        is_activation: read_activation(input[pos + 51]),
        is_buffremove: read_buffremove(input[pos + 52]),
        is_ninety: input[pos + 53] != 0,
        is_fifty: input[pos + 54] != 0,
        is_moving: input[pos + 55] != 0,
        is_statechange,
        is_flanking: input[pos + 57] != 0,
        is_shields: input[pos + 58] != 0,
        is_offcycle: input[pos + 59] != 0,
    })
}

/// Parse a single combat event.
///
/// This works for old combat events, i.e. files with revision == 0. The 64-byte record is read
/// from the start of `input`.
pub fn parse_event_rev0(input: &[u8]) -> (r: ParseResult<CbtEvent>)
    ensures
        input@.len() < 64 ==> (r matches Err(e) && e.kind() == ParseErrorKind::UnexpectedEof),
        input@.len() >= 64 ==> match event_rev0_at(input@, 0) {
            Some(ev) => r == Ok::<CbtEvent, ParseError>(ev),
            None => (r matches Err(e) && e.kind() == ParseErrorKind::UnknownStateChange(input@[59])),
        },
{
    if input.len() < 64 {
        return Err(ParseError::UnexpectedEof);
    }
    match decode_event_rev0(input, 0) {
        Ok(e) => Ok(e),
        Err(s) => Err(ParseError::UnknownStateChange(s)),
    }
}

/// Parse a single combat event.
///
/// This works for new combat events, i.e. files with revision == 1. The 64-byte record is read
/// from the start of `input`.
pub fn parse_event_rev1(input: &[u8]) -> (r: ParseResult<CbtEvent>)
    ensures
        input@.len() < 64 ==> (r matches Err(e) && e.kind() == ParseErrorKind::UnexpectedEof),
        input@.len() >= 64 ==> match event_rev1_at(input@, 0) {
            Some(ev) => r == Ok::<CbtEvent, ParseError>(ev),
            None => (r matches Err(e) && e.kind() == ParseErrorKind::UnknownStateChange(input@[56])),
        },
{
    if input.len() < 64 {
        return Err(ParseError::UnexpectedEof);
    }
    match decode_event_rev1(input, 0) {
        Ok(e) => Ok(e),
        Err(s) => Err(ParseError::UnknownStateChange(s)),
    }
}

/// Parse all combat events.
///
/// The event records of the given revision (0 or 1) fill `input` up to its end. Records with an
/// unknown state change are skipped, as advised by arcdps, and a trailing partial record is
/// ignored.
pub fn parse_events(input: &[u8], revision: u8) -> (r: Vec<CbtEvent>)
    requires
        revision <= 1,
    ensures
        r@ == events_of(input@, revision),
{
    proof {
        lemma_len_fits(input);
    }
    let mut result: Vec<CbtEvent> = Vec::new();
    let count: usize = input.len() / 64;
    let mut k: usize = 0;
    while k < count
        invariant
            k <= count,
            count == input@.len() / 64,
            input@.len() <= usize::MAX,
            revision <= 1,
            result@ == events_upto(input@, revision, k as nat),
        decreases count - k,
    {
        assert(64 * k + 64 <= input@.len()) by (nonlinear_arith)
            requires
                k < count,
                count == input@.len() / 64,
        ;
        let pos: usize = 64 * k;
        let decoded = if revision == 0 {
            decode_event_rev0(input, pos)
        } else {
            decode_event_rev1(input, pos)
        };
        match decoded {
            Ok(e) => result.push(e),
            Err(_) => {},
        }
        k = k + 1;
    }
    result
}

/// Parse a partial EVTC file.
///
/// Everything but the events is read, from the start of `input`.
pub fn parse_partial_file(input: &[u8]) -> (r: ParseResult<PartialEvtc>)
    ensures
        r is Ok <==> partial_error(input@) is None,
        r matches Ok(p) ==> partial_of(input@, p),
        r matches Err(e) ==> partial_error(input@) == Some(e.kind()),
{
    proof {
        lemma_len_fits(input);
    }
    let header = parse_header(input)?;
    let agents = match parse_agents_at(input, 20, header.agent_count) {
        Ok(a) => a,
        Err(e) => return Err(e),
    };
    let skill_count_pos: usize = 20 + 96 * (header.agent_count as usize);
    if input.len() - skill_count_pos < 4 {
        return Err(ParseError::UnexpectedEof);
    }
    let skill_count = read_u32_le(input, skill_count_pos);
    let skills = match parse_skills_at(input, skill_count_pos + 4, skill_count) {
        Ok(s) => s,
        Err(e) => return Err(e),
    };
    Ok(PartialEvtc { header, skill_count, agents, skills })
}

/// Finish a partial EVTC by reading the events.
///
/// * `partial` - The partial EVTC.
/// * `input` - The bytes that follow the skills, up to the end of the file.
pub fn finish_parsing(partial: PartialEvtc, input: &[u8]) -> (r: ParseResult<Evtc>)
    ensures
        r is Ok <==> partial.header.revision <= 1,
        r matches Ok(e) ==> {
            &&& e.header == partial.header
            &&& e.skill_count == partial.skill_count
            &&& e.agents == partial.agents
            &&& e.skills == partial.skills
            &&& e.events@ == events_of(input@, partial.header.revision)
        },
        r matches Err(e) ==> e.kind() == ParseErrorKind::UnknownRevision(partial.header.revision),
{
    let revision = partial.header.revision;
    if revision > 1 {
        return Err(ParseError::UnknownRevision(revision));
    }
    let events = parse_events(input, revision);
    Ok(Evtc {
        header: partial.header,
        skill_count: partial.skill_count,
        agents: partial.agents,
        skills: partial.skills,
        events,
    })
}

/// Parse a complete EVTC file.
pub fn parse_file(input: &[u8]) -> (r: ParseResult<Evtc>)
    ensures
        r is Ok <==> file_error(input@) is None,
        r matches Ok(e) ==> evtc_of(input@, e),
        r matches Err(e) ==> file_error(input@) == Some(e.kind()),
{
    proof {
        lemma_len_fits(input);
    }
    let partial = parse_partial_file(input)?;
    let events_pos: usize = 20 + 96 * (partial.header.agent_count as usize) + 4 + 68
        * (partial.skill_count as usize);
    let rest = vstd::slice::slice_subrange(input, events_pos, input.len());
    finish_parsing(partial, rest)
}

/// What the first entry of a zip archive holds, decompressed; `None` where the archive cannot be
/// read, has no entry, or the entry cannot be read to its end. It names the outcome of a chain of
/// three calls of the `zip` crate, not of one function: `ZipArchive::new` opens the archive,
/// `by_index(0)` takes its first entry, and `read_to_end` decompresses that entry.
pub uninterp spec fn zip_first_entry(archive: Seq<u8>) -> Option<Seq<u8>>;

/// Reads the first entry of a zip archive with `zip::ZipArchive` (`new`, `by_index(0)`, then
/// `read_to_end`). It succeeds exactly where `zip_first_entry` names a content, and then returns
/// it; what the archive format admits is left to the name.
#[verifier::external_body]
fn unzip_first_entry(archive: &[u8]) -> (r: Result<Vec<u8>, ZipError>)
    ensures
        r is Ok <==> zip_first_entry(archive@) is Some,
        r matches Ok(v) ==> zip_first_entry(archive@) == Some(v@),
{
    let mut zip = zip::ZipArchive::new(std::io::Cursor::new(archive))?;
    let mut file = zip.by_index(0)?;
    let mut out = Vec::new();
    std::io::Read::read_to_end(&mut file, &mut out)?;
    Ok(out)
}

/// Parse a complete log that was compressed as a zip file.
///
/// The log is the first entry of the archive.
pub fn parse_zip(input: &[u8]) -> (r: ParseResult<Evtc>)
    ensures
        zip_first_entry(input@) is None ==> (r matches Err(e) && e.kind() == ParseErrorKind::InvalidZip),
        zip_first_entry(input@) matches Some(b) ==> {
            &&& r is Ok <==> file_error(b) is None
            &&& r matches Ok(e) ==> evtc_of(b, e)
            &&& r matches Err(e) ==> file_error(b) == Some(e.kind())
        },
{
    match unzip_first_entry(input) {
        Ok(bytes) => parse_file(bytes.as_slice()),
        Err(e) => Err(ParseError::InvalidZip(e)),
    }
}

} // verus!
