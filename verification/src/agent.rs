use std::marker::PhantomData;
use vstd::prelude::*;
use vstd::utf8::{decode_utf8, valid_utf8};

use super::{
    gamedata::{EliteSpec, Profession},
    raw, EvtcError, EvtcErrorKind,
};
use crate::raw::name_prefix;
use crate::text::str_from_utf8;
use vstd::string::StringSliceAdditionalSpecFns;

verus! {

/// Player-specific agent data.
///
/// Player agents are characters controlled by a player and as such, they contain data about the
/// account and character used (name, profession), as well as the squad composition.
///
/// Note that a `Player` is only the player character itself. Any additional entities that are
/// spawned by the player (clones, illusions, banners, ...) are either a [`Character`][Character]
/// or a [`Gadget`][Gadget].
#[derive(Debug, Clone, Hash, PartialEq, Eq)]
pub struct Player {
    profession: Profession,
    elite: Option<EliteSpec>,
    character_name: String,
    account_name: String,
    subgroup: u8,
}

impl Player {
    /// The player's profession.
    pub closed spec fn spec_profession(&self) -> Profession {
        self.profession
    }

    /// The player's elite specialization.
    pub closed spec fn spec_elite(&self) -> Option<EliteSpec> {
        self.elite
    }

    /// The player's character name.
    pub closed spec fn spec_character_name(&self) -> Seq<char> {
        self.character_name@
    }

    /// The player's account name.
    pub closed spec fn spec_account_name(&self) -> Seq<char> {
        self.account_name@
    }

    /// The player's subgroup.
    pub closed spec fn spec_subgroup(&self) -> u8 {
        self.subgroup
    }

    /// The player's profession.
    #[verifier::when_used_as_spec(spec_profession)]
    pub fn profession(&self) -> (r: Profession)
        ensures
            r == self.spec_profession(),
    {
        self.profession
    }

    /// The player's elite specialization, if any is equipped.
    #[verifier::when_used_as_spec(spec_elite)]
    pub fn elite(&self) -> (r: Option<EliteSpec>)
        ensures
            r == self.spec_elite(),
    {
        self.elite
    }

    /// The subgroup the player was in.
    #[verifier::when_used_as_spec(spec_subgroup)]
    pub fn subgroup(&self) -> (r: u8)
        ensures
            r == self.spec_subgroup(),
    {
        self.subgroup
    }

    /// The player's character name.
    pub fn character_name(&self) -> (r: &str)
        ensures
            r@ == self.spec_character_name(),
    {
        self.character_name.as_str()
    }

    /// The player's account name.
    ///
    /// This includes the leading colon and the 4-digit denominator.
    pub fn account_name(&self) -> (r: &str)
        ensures
            r@ == self.spec_account_name(),
    {
        self.account_name.as_str()
    }

    /// A copy of this player.
    pub fn copied(&self) -> (r: Player)
        ensures
            r == *self,
    {
        Player {
            profession: self.profession,
            elite: self.elite,
            character_name: self.character_name.clone(),
            account_name: self.account_name.clone(),
            subgroup: self.subgroup,
        }
    }
}

/// Gadget-specific agent data.
///
/// Gadgets are entities that are spawned by certain skills. They are mostly inanimate objects that
/// only exist to achieve a certain skill effect.
///
/// Examples of this include the [banners](https://wiki.guildwars2.com/wiki/Banner) spawned by
/// Warriors, but also skill effects like the roots created by
/// [Entangle](https://wiki.guildwars2.com/wiki/Entangle) or the other objects in the arena.
#[derive(Debug, Clone, Hash, PartialEq, Eq)]
pub struct Gadget {
    id: u16,
    name: String,
}

impl Gadget {
    /// The id of the gadget.
    pub closed spec fn spec_id(&self) -> u16 {
        self.id
    }

    /// The name of the gadget.
    pub closed spec fn spec_name(&self) -> Seq<char> {
        self.name@
    }

    /// The id of the gadget.
    ///
    /// Note that gadgets do not have true ids and the id is generated "through a combination of
    /// gadget parameters".
    #[verifier::when_used_as_spec(spec_id)]
    pub fn id(&self) -> (r: u16)
        ensures
            r == self.spec_id(),
    {
        self.id
    }

    /// The name of the gadget.
    pub fn name(&self) -> (r: &str)
        ensures
            r@ == self.spec_name(),
    {
        self.name.as_str()
    }

    /// A copy of this gadget.
    pub fn copied(&self) -> (r: Gadget)
        ensures
            r == *self,
    {
        Gadget { id: self.id, name: self.name.clone() }
    }
}

/// Character-specific agent data.
///
/// Characters are NPCs such as the bosses themselves, additional mobs that they spawn, but also
/// friendly characters like Mesmer's clones and illusions, Necromancer minions, and so on.
#[derive(Debug, Clone, Hash, PartialEq, Eq)]
pub struct Character {
    id: u16,
    name: String,
}

impl Character {
    /// The id of the character.
    pub closed spec fn spec_id(&self) -> u16 {
        self.id
    }

    /// The name of the character.
    pub closed spec fn spec_name(&self) -> Seq<char> {
        self.name@
    }

    /// The id of the character.
    #[verifier::when_used_as_spec(spec_id)]
    pub fn id(&self) -> (r: u16)
        ensures
            r == self.spec_id(),
    {
        self.id
    }

    /// The name of the character.
    pub fn name(&self) -> (r: &str)
        ensures
            r@ == self.spec_name(),
    {
        self.name.as_str()
    }

    /// A copy of this character.
    pub fn copied(&self) -> (r: Character)
        ensures
            r == *self,
    {
        Character { id: self.id, name: self.name.clone() }
    }
}

/// The type of an agent.
///
/// arcdps differentiates between three types of agents: [`Player`][Player],
/// [`Character`][Character] and [`Gadget`][Gadget]. This enum unifies handling between them by
/// allowing you to pattern match or use one of the accessor methods.
///
/// The main way to obtain a `AgentKind` is by using the [`.kind()`][Agent::kind] method on an
/// [`Agent`][Agent]. In cases where you already have a [`raw::Agent`][raw::Agent] available, you
/// can also use [`AgentKind::try_from`].
#[derive(Debug, Clone, Hash, PartialEq, Eq)]
pub enum AgentKind {
    /// The agent is a player.
    ///
    /// The player-specific data is in the included [`Player`][Player] struct.
    Player(Player),
    /// The agent is a gadget.
    ///
    /// The gadget-specific data is in the included [`Gadget`][Gadget] struct.
    Gadget(Gadget),
    /// The agent is a character.
    ///
    /// The character-specific data is in the included [`Character`][Character] struct.
    Character(Character),
}

/// The bytes of the character name in a player's name field: those before the first nul byte.
pub open spec fn character_name_bytes(name: Seq<u8>) -> Seq<u8> {
    name_prefix(name)
}

/// The bytes of the account name in a player's name field: those between the first and the
/// second nul byte.
pub open spec fn account_name_bytes(name: Seq<u8>) -> Seq<u8> {
    name_prefix(name.skip(name_prefix(name).len() as int + 1))
}

/// The field holds a nul byte.
pub open spec fn has_nul(name: Seq<u8>) -> bool {
    exists|i: int| 0 <= i < name.len() && name[i] == 0
}

/// The position of the subgroup digit in a player's name field: right after the account name's
/// nul byte.
pub open spec fn subgroup_pos(name: Seq<u8>) -> int {
    character_name_bytes(name).len() as int + account_name_bytes(name).len() as int + 2
}

/// The subgroup that a digit byte stands for: the byte minus `'0'`, wrapping around below it.
pub open spec fn subgroup_of(digit: u8) -> u8 {
    if digit >= 48 {
        (digit - 48) as u8
    } else {
        (digit + 208) as u8
    }
}

/// The error that converting a character or gadget name field gives, if any.
pub open spec fn npc_error(name: Seq<u8>) -> Option<EvtcErrorKind> {
    if !has_nul(name) {
        Some(EvtcErrorKind::InvalidData)
    } else if !valid_utf8(character_name_bytes(name)) {
        Some(EvtcErrorKind::Utf8Error)
    } else {
        None
    }
}

/// The error that converting a player agent gives, if any.
pub open spec fn player_error(raw_agent: raw::Agent) -> Option<EvtcErrorKind> {
    let name = raw_agent.name@;
    if !has_nul(name) {
        Some(EvtcErrorKind::InvalidData)
    } else if !valid_utf8(character_name_bytes(name)) {
        Some(EvtcErrorKind::Utf8Error)
    } else if !has_nul(name.skip(character_name_bytes(name).len() as int + 1)) {
        Some(EvtcErrorKind::InvalidData)
    } else if !valid_utf8(account_name_bytes(name)) {
        Some(EvtcErrorKind::Utf8Error)
    } else if subgroup_pos(name) >= name.len() {
        Some(EvtcErrorKind::InvalidData)
    } else if raw_agent.is_elite != 0 && (forall|e: EliteSpec| e.code() != raw_agent.is_elite) {
        Some(EvtcErrorKind::InvalidEliteSpec(raw_agent.is_elite))
    } else if forall|p: Profession| p.code() != raw_agent.prof {
        Some(EvtcErrorKind::InvalidProfession(raw_agent.prof))
    } else {
        None
    }
}

/// The error that converting a raw agent gives, if any.
pub open spec fn kind_error(raw_agent: raw::Agent) -> Option<EvtcErrorKind> {
    if raw_agent.spec_is_character() || raw_agent.spec_is_gadget() {
        npc_error(raw_agent.name@)
    } else {
        player_error(raw_agent)
    }
}

/// `k` is what a raw agent converts to.
pub open spec fn kind_of(raw_agent: raw::Agent, k: AgentKind) -> bool {
    let name = raw_agent.name@;
    if raw_agent.spec_is_character() {
        k matches AgentKind::Character(c) && c.spec_id() == raw_agent.prof as u16
            && c.spec_name() == decode_utf8(character_name_bytes(name))
    } else if raw_agent.spec_is_gadget() {
        k matches AgentKind::Gadget(g) && g.spec_id() == raw_agent.prof as u16
            && g.spec_name() == decode_utf8(character_name_bytes(name))
    } else {
        k matches AgentKind::Player(p) && {
            &&& p.spec_character_name() == decode_utf8(character_name_bytes(name))
            &&& p.spec_account_name() == decode_utf8(account_name_bytes(name))
            &&& p.spec_subgroup() == subgroup_of(name[subgroup_pos(name)])
            &&& p.spec_profession().code() == raw_agent.prof
            &&& if raw_agent.is_elite == 0 {
                p.spec_elite() is None
            } else {
                p.spec_elite() matches Some(e) && e.code() == raw_agent.is_elite
            }
        }
    }
}

/// Reads a nul-terminated name at the start of `bytes`.
#[verifier::rlimit(50)]
fn read_name(bytes: &[u8]) -> (r: Result<&str, EvtcError>)
    ensures
        !has_nul(bytes@) ==> (r matches Err(e) && e.kind() == EvtcErrorKind::InvalidData),
        has_nul(bytes@) && !valid_utf8(name_prefix(bytes@)) ==> (r matches Err(e) && e.kind()
            == EvtcErrorKind::Utf8Error),
        has_nul(bytes@) && valid_utf8(name_prefix(bytes@)) ==> (r matches Ok(s) && s@
            == decode_utf8(name_prefix(bytes@)) && s.spec_bytes() == name_prefix(bytes@)),
{
    let cstr = match raw::cstr_up_to_nul(bytes) {
        Some(c) => c,
        None => return Err(EvtcError::InvalidData),
    };
    let ghost prefix = name_prefix(bytes@);
    assert(cstr@ == prefix);
    match str_from_utf8(cstr) {
        Ok(s) => {
            proof {
                lemma_decoded_bytes(cstr@, s@);
            }
            Ok(s)
        },
        Err(e) => Err(EvtcError::Utf8Error(e)),
    }
}

/// Decoding valid UTF-8 and encoding the characters again gives the same bytes.
proof fn lemma_decoded_bytes(b: Seq<u8>, chars: Seq<char>)
    requires
        valid_utf8(b),
        chars == decode_utf8(b),
    ensures
        vstd::utf8::encode_utf8(chars) == b,
{
    vstd::utf8::decode_utf8_encode_utf8(b);
}

impl AgentKind {
    fn from_raw_character(raw_agent: &raw::Agent) -> (r: Result<Character, EvtcError>)
        requires
            raw_agent.spec_is_character(),
        ensures
            r is Ok <==> npc_error(raw_agent.name@) is None,
            r matches Err(e) ==> npc_error(raw_agent.name@) == Some(e.kind()),
            r matches Ok(c) ==> kind_of(*raw_agent, AgentKind::Character(c)),
    {
        let name = read_name(&raw_agent.name)?;
        Ok(Character { id: raw_agent.prof as u16, name: name.to_owned() })
    }

    fn from_raw_gadget(raw_agent: &raw::Agent) -> (r: Result<Gadget, EvtcError>)
        requires
            raw_agent.spec_is_gadget(),
        ensures
            r is Ok <==> npc_error(raw_agent.name@) is None,
            r matches Err(e) ==> npc_error(raw_agent.name@) == Some(e.kind()),
            r matches Ok(g) ==> kind_of(*raw_agent, AgentKind::Gadget(g)),
    {
        let name = read_name(&raw_agent.name)?;
        Ok(Gadget { id: raw_agent.prof as u16, name: name.to_owned() })
    }

    #[verifier::rlimit(100)]
    fn from_raw_player(raw_agent: &raw::Agent) -> (r: Result<Player, EvtcError>)
        requires
            raw_agent.spec_is_player(),
            !raw_agent.spec_is_character(),
            !raw_agent.spec_is_gadget(),
        ensures
            r is Ok <==> player_error(*raw_agent) is None,
            r matches Err(e) ==> player_error(*raw_agent) == Some(e.kind()),
            r matches Ok(p) ==> kind_of(*raw_agent, AgentKind::Player(p)),
    {
        let ghost name = raw_agent.name@;
        let character_name = read_name(&raw_agent.name)?;
        let clen = character_name.len();
        assert(clen == character_name_bytes(name).len());
        assert(clen < 64) by {
            let f = raw::first_nul(name);
            assert(0 <= f < 64);
        }
        let rest = vstd::slice::slice_subrange(&raw_agent.name, clen + 1, 64);
        assert(rest@ =~= name.skip(clen + 1));
        let account_name = read_name(rest)?;
        let alen = account_name.len();
        let pos = clen + alen + 2;
        assert(pos == subgroup_pos(name));
        if pos >= 64 {
            return Err(EvtcError::InvalidData);
        }
        // A missing digit (such as in some WvW logs) wraps around instead of failing.
        let digit = raw_agent.name[pos];
        let subgroup = if digit >= 48 {
            digit - 48
        } else {
            digit + 208
        };
        let elite = if raw_agent.is_elite == 0 {
            None
        } else {
            match EliteSpec::from_u32(raw_agent.is_elite) {
                Some(e) => Some(e),
                None => return Err(EvtcError::InvalidEliteSpec(raw_agent.is_elite)),
            }
        };
        let profession = match Profession::from_u32(raw_agent.prof) {
            Some(p) => p,
            None => {
                assert(forall|p: Profession| p.code() != raw_agent.prof);
                return Err(EvtcError::InvalidProfession(raw_agent.prof));
            },
        };
        Ok(Player {
            profession,
            elite,
            character_name: character_name.to_owned(),
            account_name: account_name.to_owned(),
            subgroup,
        })
    }

    /// Extract the correct `AgentKind` from the given [raw agent][raw::Agent].
    ///
    /// This automatically discerns between player, gadget and characters.
    ///
    /// Note that in most cases, you probably want to use `Agent::try_from` or even
    /// [`process`][super::process] instead of this function.
    pub fn try_from(raw_agent: &raw::Agent) -> (r: Result<AgentKind, EvtcError>)
        ensures
            r is Ok <==> kind_error(*raw_agent) is None,
            r matches Err(e) ==> kind_error(*raw_agent) == Some(e.kind()),
            r matches Ok(k) ==> kind_of(*raw_agent, k),
    {
        if raw_agent.is_character() {
            Ok(AgentKind::Character(AgentKind::from_raw_character(raw_agent)?))
        } else if raw_agent.is_gadget() {
            Ok(AgentKind::Gadget(AgentKind::from_raw_gadget(raw_agent)?))
        } else if raw_agent.is_player() {
            Ok(AgentKind::Player(AgentKind::from_raw_player(raw_agent)?))
        } else {
            Err(EvtcError::InvalidData)
        }
    }

    /// Accesses the inner [`Player`][Player] struct, if available.
    pub fn as_player(&self) -> (r: Option<&Player>)
        ensures
            r is Some <==> self is Player,
            r matches Some(p) ==> *self == AgentKind::Player(*p),
    {
        if let AgentKind::Player(ref player) = *self {
            Some(player)
        } else {
            None
        }
    }

    /// Determines whether this `AgentKind` contains a player.
    pub fn is_player(&self) -> (r: bool)
        ensures
            r == self is Player,
    {
        self.as_player().is_some()
    }

    /// Accesses the inner [`Gadget`][Gadget] struct, if available.
    pub fn as_gadget(&self) -> (r: Option<&Gadget>)
        ensures
            r is Some <==> self is Gadget,
            r matches Some(g) ==> *self == AgentKind::Gadget(*g),
    {
        if let AgentKind::Gadget(ref gadget) = *self {
            Some(gadget)
        } else {
            None
        }
    }

    /// Determines whether this `AgentKind` contains a gadget.
    pub fn is_gadget(&self) -> (r: bool)
        ensures
            r == self is Gadget,
    {
        self.as_gadget().is_some()
    }

    /// Accesses the inner [`Character`][Character] struct, if available.
    pub fn as_character(&self) -> (r: Option<&Character>)
        ensures
            r is Some <==> self is Character,
            r matches Some(c) ==> *self == AgentKind::Character(*c),
    {
        if let AgentKind::Character(ref character) = *self {
            Some(character)
        } else {
            None
        }
    }

    /// Determines whether this `AgentKind` contains a character.
    pub fn is_character(&self) -> (r: bool)
        ensures
            r == self is Character,
    {
        self.as_character().is_some()
    }

    /// A copy of this kind.
    pub fn copied(&self) -> (r: AgentKind)
        ensures
            r == *self,
    {
        match self {
            AgentKind::Player(p) => AgentKind::Player(p.copied()),
            AgentKind::Gadget(g) => AgentKind::Gadget(g.copied()),
            AgentKind::Character(c) => AgentKind::Character(c.copied()),
        }
    }
}

/// The agent kinds that a type tag of [`Agent`] admits.
pub trait KindTag {
    /// The tag admits agents of this kind.
    spec fn admits(kind: AgentKind) -> bool;
}

impl KindTag for () {
    open spec fn admits(kind: AgentKind) -> bool {
        true
    }
}

impl KindTag for Player {
    open spec fn admits(kind: AgentKind) -> bool {
        kind is Player
    }
}

impl KindTag for Gadget {
    open spec fn admits(kind: AgentKind) -> bool {
        kind is Gadget
    }
}

impl KindTag for Character {
    open spec fn admits(kind: AgentKind) -> bool {
        kind is Character
    }
}

/// The data that an [`Agent`] holds.
#[derive(Debug, Clone, PartialEq, Eq)]
pub struct AgentView {
    /// See [`Agent::addr`].
    pub addr: u64,
    /// See [`Agent::kind`].
    pub kind: AgentKind,
    /// See [`Agent::toughness`].
    pub toughness: i16,
    /// See [`Agent::concentration`].
    pub concentration: i16,
    /// See [`Agent::healing`].
    pub healing: i16,
    /// See [`Agent::condition`].
    pub condition: i16,
    /// See [`Agent::instance_id`].
    pub instance_id: u16,
    /// See [`Agent::first_aware`].
    pub first_aware: u64,
    /// See [`Agent::last_aware`].
    pub last_aware: u64,
    /// See [`Agent::master_agent`].
    pub master_agent: Option<u64>,
}

/// An agent.
///
/// Agents in arcdps are very versatile, as a lot of things end up being an "agent". This includes:
/// * Players
/// * Bosses
/// * Any additional mobs that spawn
/// * Mesmer illusions
/// * Ranger spirits, pets
/// * Guardian spirit weapons
/// * ...
///
/// Generally, you can divide them into three kinds ([`AgentKind`][AgentKind]):
/// * [`Player`][Player]: All players themselves.
/// * [`Character`][Character]: Non-player mobs, including most bosses, "adds" and player-generated
///   characters.
/// * [`Gadget`][Gadget]: Some additional gadgets, such as ley rifts, continuum split, ...
///
/// All of these agents share some common fields, which are the ones accessible in `Agent<Kind>`.
/// The kind can be retrieved using [`.kind()`][Agent::kind], which can be matched on.
///
/// # The `Kind` parameter
///
/// The type parameter only exists at the type level. It tags `Agent`s containing a known kind:
/// an `Agent<Player>` always holds a player, and so on (this is the type's invariant). For
/// example, `Agent<Player>` implements [`.player()`][Agent::player], which returns a `&Player`
/// directly (instead of a `Option<&Player>`). Such tagged agents are obtained with
/// [`.as_player()`][Agent::as_player], [`.as_gadget()`][Agent::as_gadget] or
/// [`.as_character()`][Agent::as_character].
///
/// The unit type `()` is used to tag `Agent`s which contain an undetermined type, and it is the
/// default if you write `Agent` without any parameters. [`.erase()`][Agent::erase] gives the
/// untagged agent.
#[derive(Debug, Hash, PartialEq, Eq)]
pub struct Agent<Kind: KindTag = ()> {
    addr: u64,
    kind: AgentKind,
    toughness: i16,
    concentration: i16,
    healing: i16,
    condition: i16,
    instance_id: u16,
    first_aware: u64,
    last_aware: u64,
    master_agent: Option<u64>,
    phantom_data: PhantomData<Kind>,
}

impl<Kind: KindTag> View for Agent<Kind> {
    type V = AgentView;

    closed spec fn view(&self) -> AgentView {
        AgentView {
            addr: self.addr,
            kind: self.kind,
            toughness: self.toughness,
            concentration: self.concentration,
            healing: self.healing,
            condition: self.condition,
            instance_id: self.instance_id,
            first_aware: self.first_aware,
            last_aware: self.last_aware,
            master_agent: self.master_agent,
        }
    }
}

/// The agent that a raw agent converts to, given its converted kind.
pub open spec fn agent_view_of(raw_agent: raw::Agent, kind: AgentKind) -> AgentView {
    AgentView {
        addr: raw_agent.addr,
        kind,
        toughness: raw_agent.toughness,
        concentration: raw_agent.concentration,
        healing: raw_agent.healing,
        condition: raw_agent.condition,
        instance_id: 0,
        first_aware: 0,
        last_aware: u64::MAX,
        master_agent: None,
    }
}

impl Agent {
    /// Parse a raw agent.
    pub fn try_from(raw_agent: &raw::Agent) -> (r: Result<Agent, EvtcError>)
        ensures
            r is Ok <==> kind_error(*raw_agent) is None,
            r matches Err(e) ==> kind_error(*raw_agent) == Some(e.kind()),
            r matches Ok(a) ==> kind_of(*raw_agent, a@.kind) && a@ == agent_view_of(
                *raw_agent,
                a@.kind,
            ),
    {
        let kind = AgentKind::try_from(raw_agent)?;
        Ok(Agent {
            addr: raw_agent.addr,
            kind,
            toughness: raw_agent.toughness,
            concentration: raw_agent.concentration,
            healing: raw_agent.healing,
            condition: raw_agent.condition,
            instance_id: 0,
            first_aware: 0,
            last_aware: u64::MAX,
            master_agent: None,
            phantom_data: PhantomData,
        })
    }

    /// Sets the instance id.
    pub(crate) fn set_instance_id(&mut self, instance_id: u16)
        ensures
            final(self)@ == (AgentView { instance_id, ..old(self)@ }),
    {
        self.instance_id = instance_id;
    }

    /// Sets the first aware time.
    pub(crate) fn set_first_aware(&mut self, first_aware: u64)
        ensures
            final(self)@ == (AgentView { first_aware, ..old(self)@ }),
    {
        self.first_aware = first_aware;
    }

    /// Sets the last aware time.
    pub(crate) fn set_last_aware(&mut self, last_aware: u64)
        ensures
            final(self)@ == (AgentView { last_aware, ..old(self)@ }),
    {
        self.last_aware = last_aware;
    }

    /// Sets the master agent's address.
    pub(crate) fn set_master_agent(&mut self, master_agent: Option<u64>)
        ensures
            final(self)@ == (AgentView { master_agent, ..old(self)@ }),
    {
        self.master_agent = master_agent;
    }
}

impl<Kind: KindTag> Agent<Kind> {
    /// The agent's data satisfies its tag.
    #[verifier::type_invariant]
    closed spec fn tag_holds(self) -> bool {
        Kind::admits(self.kind)
    }

    /// The address of this agent.
    ///
    /// This is not actually the address of the in-memory Rust object, but rather a serialization
    /// detail of arcdps. You should consider this as an opaque number and only compare it to other
    /// agent addresses.
    pub fn addr(&self) -> (r: u64)
        ensures
            r == self@.addr,
    {
        self.addr
    }

    /// The kind of this agent.
    pub fn kind(&self) -> (r: &AgentKind)
        ensures
            *r == self@.kind,
    {
        &self.kind
    }

    /// The toughness of this agent.
    ///
    /// This is not an absolute number, but a relative indicator that indicates this agent's
    /// toughness relative to the other people in the squad.
    ///
    /// 0 means lowest toughness, 10 means highest toughness.
    pub fn toughness(&self) -> (r: i16)
        ensures
            r == self@.toughness,
    {
        self.toughness
    }

    /// The concentration of this agent.
    ///
    /// This is not an absolute number, but a relative indicator that indicates this agent's
    /// concentration relative to the other people in the squad.
    ///
    /// 0 means lowest concentration, 10 means highest concentration.
    pub fn concentration(&self) -> (r: i16)
        ensures
            r == self@.concentration,
    {
        self.concentration
    }

    /// The healing power of this agent.
    ///
    /// This is not an absolute number, but a relative indicator that indicates this agent's
    /// healing power relative to the other people in the squad.
    ///
    /// 0 means lowest healing power, 10 means highest healing power.
    pub fn healing(&self) -> (r: i16)
        ensures
            r == self@.healing,
    {
        self.healing
    }

    /// The condition damage of this agent.
    ///
    /// This is not an absolute number, but a relative indicator that indicates this agent's
    /// condition damage relative to the other people in the squad.
    ///
    /// 0 means lowest condition damage, 10 means highest condition damage.
    pub fn condition(&self) -> (r: i16)
        ensures
            r == self@.condition,
    {
        self.condition
    }

    /// The instance ID of this agent.
    pub fn instance_id(&self) -> (r: u16)
        ensures
            r == self@.instance_id,
    {
        self.instance_id
    }

    /// The timestamp of the first event entry with this agent.
    pub fn first_aware(&self) -> (r: u64)
        ensures
            r == self@.first_aware,
    {
        self.first_aware
    }

    /// The timestamp of the last event entry with this agent.
    pub fn last_aware(&self) -> (r: u64)
        ensures
            r == self@.last_aware,
    {
        self.last_aware
    }

    /// The master agent's address.
    pub fn master_agent(&self) -> (r: Option<u64>)
        ensures
            r == self@.master_agent,
    {
        self.master_agent
    }

    /// A copy of this agent under another tag, which must admit its kind.
    fn retag<T: KindTag>(&self) -> (r: Agent<T>)
        requires
            T::admits(self@.kind),
        ensures
            r@ == self@,
    {
        Agent {
            addr: self.addr,
            kind: self.kind.copied(),
            toughness: self.toughness,
            concentration: self.concentration,
            healing: self.healing,
            condition: self.condition,
            instance_id: self.instance_id,
            first_aware: self.first_aware,
            last_aware: self.last_aware,
            master_agent: self.master_agent,
            phantom_data: PhantomData,
        }
    }

    /// Erase any extra information about the contained agent kind.
    ///
    /// The result is a copy of this agent, tagged with `()`.
    pub fn erase(&self) -> (r: Agent)
        ensures
            r@ == self@,
    {
        self.retag()
    }

    /// Try to convert this `Agent` to an `Agent` representing a `Player`.
    pub fn as_player(&self) -> (r: Option<Agent<Player>>)
        ensures
            r is Some <==> self@.kind is Player,
            r matches Some(a) ==> a@ == self@,
    {
        if self.kind.is_player() {
            Some(self.retag())
        } else {
            None
        }
    }

    /// Try to convert this `Agent` to an `Agent` representing a `Gadget`.
    pub fn as_gadget(&self) -> (r: Option<Agent<Gadget>>)
        ensures
            r is Some <==> self@.kind is Gadget,
            r matches Some(a) ==> a@ == self@,
    {
        if self.kind.is_gadget() {
            Some(self.retag())
        } else {
            None
        }
    }

    /// Try to convert this `Agent` to an `Agent` representing a `Character`.
    pub fn as_character(&self) -> (r: Option<Agent<Character>>)
        ensures
            r is Some <==> self@.kind is Character,
            r matches Some(a) ==> a@ == self@,
    {
        if self.kind.is_character() {
            Some(self.retag())
        } else {
            None
        }
    }
}

impl<Kind: KindTag> Clone for Agent<Kind> {
    fn clone(&self) -> (r: Self)
        ensures
            r@ == self@,
    {
        proof {
            use_type_invariant(self);
        }
        self.retag()
    }
}

impl Agent<Player> {
    /// Directly access the underlying player data.
    pub fn player(&self) -> (r: &Player)
        ensures
            self@.kind == AgentKind::Player(*r),
    {
        proof {
            use_type_invariant(self);
        }
        match &self.kind {
            AgentKind::Player(p) => p,
            _ => vstd::pervasive::unreached(),
        }
    }

    /// Shorthand to get the player's account name.
    pub fn account_name(&self) -> (r: &str)
        ensures
            self@.kind matches AgentKind::Player(p) && r@ == p.spec_account_name(),
    {
        self.player().account_name()
    }

    /// Shorthand to get the player's character name.
    pub fn character_name(&self) -> (r: &str)
        ensures
            self@.kind matches AgentKind::Player(p) && r@ == p.spec_character_name(),
    {
        self.player().character_name()
    }

    /// Shorthand to get the player's elite specialization.
    pub fn elite(&self) -> (r: Option<EliteSpec>)
        ensures
            self@.kind matches AgentKind::Player(p) && r == p.spec_elite(),
    {
        self.player().elite()
    }

    /// Shorthand to get the player's profession.
    pub fn profession(&self) -> (r: Profession)
        ensures
            self@.kind matches AgentKind::Player(p) && r == p.spec_profession(),
    {
        self.player().profession()
    }

    /// Shorthand to get the player's subgroup.
    pub fn subgroup(&self) -> (r: u8)
        ensures
            self@.kind matches AgentKind::Player(p) && r == p.spec_subgroup(),
    {
        self.player().subgroup()
    }
}

impl Agent<Gadget> {
    /// Directly access the underlying gadget data.
    pub fn gadget(&self) -> (r: &Gadget)
        ensures
            self@.kind == AgentKind::Gadget(*r),
    {
        proof {
            use_type_invariant(self);
        }
        match &self.kind {
            AgentKind::Gadget(g) => g,
            _ => vstd::pervasive::unreached(),
        }
    }

    /// Shorthand to get the gadget's id.
    pub fn id(&self) -> (r: u16)
        ensures
            self@.kind matches AgentKind::Gadget(g) && r == g.spec_id(),
    {
        self.gadget().id()
    }

    /// Shorthand to get the gadget's name.
    pub fn name(&self) -> (r: &str)
        ensures
            self@.kind matches AgentKind::Gadget(g) && r@ == g.spec_name(),
    {
        self.gadget().name()
    }
}

impl Agent<Character> {
    /// Directly access the underlying character data.
    pub fn character(&self) -> (r: &Character)
        ensures
            self@.kind == AgentKind::Character(*r),
    {
        proof {
            use_type_invariant(self);
        }
        match &self.kind {
            AgentKind::Character(c) => c,
            _ => vstd::pervasive::unreached(),
        }
    }

    /// Shorthand to get the character's id.
    pub fn id(&self) -> (r: u16)
        ensures
            self@.kind matches AgentKind::Character(c) && r == c.spec_id(),
    {
        self.character().id()
    }

    /// Shorthand to get the character's name.
    pub fn name(&self) -> (r: &str)
        ensures
            self@.kind matches AgentKind::Character(c) && r@ == c.spec_name(),
    {
        self.character().name()
    }
}

} // verus!
