//! Parsed commands and the parser that reads them from a token sequence.
//!
//! A line is `<branch> <leaf> [flag value]...`. Flags may come in any order,
//! each at most once, and only those that the leaf takes.

use crate::grammar::{Branch, Flag, Leaf};
use crate::values::{FactionArg, WaypointTraitSymbolArg, WaypointTypeArg};
use vstd::prelude::*;

verus! {

/// Account level commands.
#[derive(Clone, Debug)]
pub enum AccountCommand {
    /// Register a new agent.
    Register { callsign: String, faction: FactionArg },
}

/// Agent level commands.
#[derive(Clone, Debug)]
pub enum AgentCommand {
    /// List the known agents.
    ListAgents,
    /// Show information for a given agent.
    Info { callsign: String },
}

/// Contract level commands.
#[derive(Clone, Debug)]
pub enum ContractCommand {
    /// List known contracts for a given agent.
    List { callsign: String },
    /// Show one contract of a given agent.
    Info { callsign: String, id: String },
    /// Accept one contract of a given agent.
    Accept { callsign: String, id: String },
}

/// System level commands.
#[derive(Clone, Debug)]
pub enum SystemCommand {
    /// List the waypoints of a system, optionally filtered by type and trait.
    ListWaypoints {
        system: String,
        waypoint_type: Option<WaypointTypeArg>,
        waypoint_trait: Option<WaypointTraitSymbolArg>,
    },
}

/// A complete command.
#[derive(Clone, Debug)]
#[allow(inconsistent_fields)]
pub enum Commands {
    Account { command: AccountCommand },
    Agent { command: AgentCommand },
    Contract { command: ContractCommand },
    System { command: SystemCommand },
}

/// The result of parsing one line: a command, or nothing for an empty line.
#[derive(Debug)]
pub struct ReplCli {
    pub command: Option<Commands>,
}

/// Why a token sequence is not a command. Positions index the token sequence.
#[derive(Clone, Copy, Debug, PartialEq, Eq, Structural)]
pub enum ParseFailure {
    /// The token at `at` names no branch, or no leaf of its branch.
    UnknownSubcommand { at: usize },
    /// A branch is given without a leaf.
    MissingSubcommand { at: usize },
    /// The token at `at` is no flag of the leaf.
    UnknownArgument { at: usize },
    /// The flag at `at` was already given.
    DuplicateArgument { at: usize },
    /// The flag at `at` is the last token and has no value.
    MissingValue { at: usize },
    /// A flag the leaf requires is absent.
    MissingArgument { flag: Flag },
    /// The value at `at` is not in the flag's value set.
    InvalidValue { at: usize },
}

/// Where each flag's value stands in the token sequence, once seen.
#[derive(Clone, Copy, Debug, PartialEq, Eq, Structural)]
pub struct FlagSlots {
    pub callsign: Option<usize>,
    pub faction: Option<usize>,
    pub id: Option<usize>,
    pub waypoint_type: Option<usize>,
    pub waypoint_trait: Option<usize>,
    pub system: Option<usize>,
}

/// The views of a sequence of strings.
pub open spec fn words(v: Seq<String>) -> Seq<Seq<char>> {
    v.map_values(|s: String| s@)
}

impl FlagSlots {
    pub open spec fn spec_empty() -> FlagSlots {
        FlagSlots {
            callsign: None,
            faction: None,
            id: None,
            waypoint_type: None,
            waypoint_trait: None,
            system: None,
        }
    }

    pub open spec fn spec_get(self, f: Flag) -> Option<usize> {
        match f {
            Flag::Callsign => self.callsign,
            Flag::Faction => self.faction,
            Flag::Id => self.id,
            Flag::Type => self.waypoint_type,
            Flag::Trait => self.waypoint_trait,
            Flag::System => self.system,
        }
    }

    pub open spec fn spec_set(self, f: Flag, p: usize) -> FlagSlots {
        match f {
            Flag::Callsign => FlagSlots { callsign: Some(p), ..self },
            Flag::Faction => FlagSlots { faction: Some(p), ..self },
            Flag::Id => FlagSlots { id: Some(p), ..self },
            Flag::Type => FlagSlots { waypoint_type: Some(p), ..self },
            Flag::Trait => FlagSlots { waypoint_trait: Some(p), ..self },
            Flag::System => FlagSlots { system: Some(p), ..self },
        }
    }

    /// Every recorded position is below `n`.
    pub open spec fn below(self, n: int) -> bool {
        forall|f: Flag| #[trigger] self.spec_get(f) is Some ==> self.spec_get(f)->0 < n
    }

    pub fn empty() -> (r: FlagSlots)
        ensures
            r == FlagSlots::spec_empty(),
    {
        FlagSlots {
            callsign: None,
            faction: None,
            id: None,
            waypoint_type: None,
            waypoint_trait: None,
            system: None,
        }
    }

    pub fn get(&self, f: Flag) -> (r: Option<usize>)
        ensures
            r == self.spec_get(f),
    {
        match f {
            Flag::Callsign => self.callsign,
            Flag::Faction => self.faction,
            Flag::Id => self.id,
            Flag::Type => self.waypoint_type,
            Flag::Trait => self.waypoint_trait,
            Flag::System => self.system,
        }
    }

    pub fn set(&mut self, f: Flag, p: usize)
        ensures
            *final(self) == old(self).spec_set(f, p),
    {
        match f {
            Flag::Callsign => self.callsign = Some(p),
            Flag::Faction => self.faction = Some(p),
            Flag::Id => self.id = Some(p),
            Flag::Type => self.waypoint_type = Some(p),
            Flag::Trait => self.waypoint_trait = Some(p),
            Flag::System => self.system = Some(p),
        }
    }
}

/// Reads the flags of `leaf` from position `i` on, given the slots filled so far.
pub open spec fn scan_flags(t: Seq<Seq<char>>, leaf: Leaf, i: int, acc: FlagSlots) -> Result<
    FlagSlots,
    ParseFailure,
>
    decreases t.len() - i,
{
    if i < 0 || i >= t.len() {
        Ok(acc)
    } else {
        match Flag::spec_from_token(t[i]) {
            None => Err(ParseFailure::UnknownArgument { at: i as usize }),
            Some(f) => if !leaf.spec_accepts(f) {
                Err(ParseFailure::UnknownArgument { at: i as usize })
            } else if acc.spec_get(f) is Some {
                Err(ParseFailure::DuplicateArgument { at: i as usize })
            } else if i + 1 >= t.len() {
                Err(ParseFailure::MissingValue { at: i as usize })
            } else {
                scan_flags(t, leaf, i + 2, acc.spec_set(f, (i + 1) as usize))
            },
        }
    }
}

pub open spec fn is_faction(w: Seq<char>) -> bool {
    exists|v: FactionArg| v.spec_name() == w
}

pub open spec fn is_waypoint_type(w: Seq<char>) -> bool {
    exists|v: WaypointTypeArg| v.spec_name() == w
}

pub open spec fn is_waypoint_trait(w: Seq<char>) -> bool {
    exists|v: WaypointTraitSymbolArg| v.spec_name() == w
}

/// The first problem with the flags that were read: a required flag that is
/// absent (in the leaf's order), else a value outside its set.
pub open spec fn check_slots(t: Seq<Seq<char>>, leaf: Leaf, s: FlagSlots) -> Option<ParseFailure> {
    match leaf {
        Leaf::Register => if s.callsign is None {
            Some(ParseFailure::MissingArgument { flag: Flag::Callsign })
        } else if s.faction is None {
            Some(ParseFailure::MissingArgument { flag: Flag::Faction })
        } else if !is_faction(t[s.faction->0 as int]) {
            Some(ParseFailure::InvalidValue { at: s.faction->0 })
        } else {
            None
        },
        Leaf::ListAgents => None,
        Leaf::AgentInfo | Leaf::ContractList => if s.callsign is None {
            Some(ParseFailure::MissingArgument { flag: Flag::Callsign })
        } else {
            None
        },
        Leaf::ContractInfo | Leaf::ContractAccept => if s.callsign is None {
            Some(ParseFailure::MissingArgument { flag: Flag::Callsign })
        } else if s.id is None {
            Some(ParseFailure::MissingArgument { flag: Flag::Id })
        } else {
            None
        },
        Leaf::ListWaypoints => if s.system is None {
            Some(ParseFailure::MissingArgument { flag: Flag::System })
        } else if s.waypoint_type matches Some(p) && !is_waypoint_type(t[p as int]) {
            Some(ParseFailure::InvalidValue { at: s.waypoint_type->0 })
        } else if s.waypoint_trait matches Some(p) && !is_waypoint_trait(t[p as int]) {
            Some(ParseFailure::InvalidValue { at: s.waypoint_trait->0 })
        } else {
            None
        },
    }
}

/// What a token sequence resolves to: nothing (no tokens), a leaf with the
/// positions of its flag values, or the first error.
pub open spec fn resolve(t: Seq<Seq<char>>) -> Result<Option<(Leaf, FlagSlots)>, ParseFailure> {
    if t.len() == 0 {
        Ok(None)
    } else {
        match Branch::spec_from_word(t[0]) {
            None => Err(ParseFailure::UnknownSubcommand { at: 0 }),
            Some(b) => if t.len() == 1 {
                Err(ParseFailure::MissingSubcommand { at: 1 })
            } else {
                match Leaf::spec_from_word(b, t[1]) {
                    None => Err(ParseFailure::UnknownSubcommand { at: 1 }),
                    Some(leaf) => match scan_flags(t, leaf, 2, FlagSlots::spec_empty()) {
                        Err(e) => Err(e),
                        Ok(s) => match check_slots(t, leaf, s) {
                            Some(e) => Err(e),
                            None => Ok(Some((leaf, s))),
                        },
                    },
                }
            },
        }
    }
}

/// The value at an optional position is `v`'s word, or both are absent.
pub open spec fn optional_type_at(t: Seq<Seq<char>>, p: Option<usize>, v: Option<WaypointTypeArg>) -> bool {
    match p {
        None => v is None,
        Some(i) => v matches Some(x) && x.spec_name() == t[i as int],
    }
}

pub open spec fn optional_trait_at(
    t: Seq<Seq<char>>,
    p: Option<usize>,
    v: Option<WaypointTraitSymbolArg>,
) -> bool {
    match p {
        None => v is None,
        Some(i) => v matches Some(x) && x.spec_name() == t[i as int],
    }
}

/// `c` is the command that `leaf` with the flag values at `s` stands for.
pub open spec fn denotes(t: Seq<Seq<char>>, leaf: Leaf, s: FlagSlots, c: Commands) -> bool {
    match leaf {
        Leaf::Register => c matches Commands::Account {
            command: AccountCommand::Register { callsign, faction },
        } && callsign@ == t[s.callsign->0 as int] && faction.spec_name() == t[s.faction->0 as int],
        Leaf::ListAgents => c matches Commands::Agent { command: AgentCommand::ListAgents },
        Leaf::AgentInfo => c matches Commands::Agent { command: AgentCommand::Info { callsign } }
            && callsign@ == t[s.callsign->0 as int],
        Leaf::ContractList => c matches Commands::Contract {
            command: ContractCommand::List { callsign },
        } && callsign@ == t[s.callsign->0 as int],
        Leaf::ContractInfo => c matches Commands::Contract {
            command: ContractCommand::Info { callsign, id },
        } && callsign@ == t[s.callsign->0 as int] && id@ == t[s.id->0 as int],
        Leaf::ContractAccept => c matches Commands::Contract {
            command: ContractCommand::Accept { callsign, id },
        } && callsign@ == t[s.callsign->0 as int] && id@ == t[s.id->0 as int],
        Leaf::ListWaypoints => c matches Commands::System {
            command: SystemCommand::ListWaypoints { system, waypoint_type, waypoint_trait },
        } && system@ == t[s.system->0 as int] && optional_type_at(t, s.waypoint_type, waypoint_type)
            && optional_trait_at(t, s.waypoint_trait, waypoint_trait),
    }
}

/// What parsing `t` yields: `Ok` with the denoted command exactly when
/// `resolve` succeeds, else the error `resolve` names.
pub open spec fn parsed_as(t: Seq<Seq<char>>, r: Result<ReplCli, ParseFailure>) -> bool {
    match r {
        Ok(cli) => match resolve(t) {
            Ok(None) => cli.command is None,
            Ok(Some((leaf, s))) => cli.command matches Some(c) && denotes(t, leaf, s, c),
            Err(_) => false,
        },
        Err(e) => resolve(t) == Err::<Option<(Leaf, FlagSlots)>, ParseFailure>(e),
    }
}

proof fn lemma_scan_below(t: Seq<Seq<char>>, leaf: Leaf, i: int, acc: FlagSlots)
    requires
        acc.below(t.len() as int),
    ensures
        scan_flags(t, leaf, i, acc) matches Ok(s) ==> s.below(t.len() as int),
    decreases t.len() - i,
{
    if 0 <= i < t.len() {
        if let Some(f) = Flag::spec_from_token(t[i]) {
            if i + 1 < t.len() {
                let next = acc.spec_set(f, (i + 1) as usize);
                assert forall|g: Flag| #[trigger] next.spec_get(g) is Some implies next.spec_get(g)->0
                    < t.len() by {
                    if g != f {
                        assert(next.spec_get(g) == acc.spec_get(g));
                    }
                }
                lemma_scan_below(t, leaf, i + 2, next);
            }
        }
    }
}

/// Reads the flags of `leaf` from the tokens after the leaf word.
fn scan(tokens: &Vec<String>, leaf: Leaf) -> (r: Result<FlagSlots, ParseFailure>)
    requires
        tokens.len() >= 2,
    ensures
        r == scan_flags(words(tokens@), leaf, 2, FlagSlots::spec_empty()),
{
    let ghost t = words(tokens@);
    let n = tokens.len();
    let mut acc = FlagSlots::empty();
    let mut i: usize = 2;
    while i < n
        invariant
            n == tokens.len(),
            t == words(tokens@),
            2 <= i <= n,
            scan_flags(t, leaf, i as int, acc) == scan_flags(t, leaf, 2, FlagSlots::spec_empty()),
        decreases n - i,
    {
        match Flag::from_token(tokens[i].as_str()) {
            None => {
                return Err(ParseFailure::UnknownArgument { at: i });
            },
            Some(f) => {
                if !leaf.accepts(f) {
                    return Err(ParseFailure::UnknownArgument { at: i });
                }
                if acc.get(f).is_some() {
                    return Err(ParseFailure::DuplicateArgument { at: i });
                }
                if i + 1 >= n {
                    return Err(ParseFailure::MissingValue { at: i });
                }
                acc.set(f, i + 1);
                i = i + 2;
            },
        }
    }
    Ok(acc)
}

/// Checks the flags read for `leaf` and builds the command they stand for.
fn build(tokens: &Vec<String>, leaf: Leaf, s: FlagSlots) -> (r: Result<Commands, ParseFailure>)
    requires
        s.below(tokens.len() as int),
    ensures
        match r {
            Ok(c) => check_slots(words(tokens@), leaf, s) is None && denotes(words(tokens@), leaf, s, c),
            Err(e) => check_slots(words(tokens@), leaf, s) == Some(e),
        },
{
    let ghost t = words(tokens@);
    assert(s.spec_get(Flag::Callsign) == s.callsign);
    assert(s.spec_get(Flag::Faction) == s.faction);
    assert(s.spec_get(Flag::Id) == s.id);
    assert(s.spec_get(Flag::Type) == s.waypoint_type);
    assert(s.spec_get(Flag::Trait) == s.waypoint_trait);
    assert(s.spec_get(Flag::System) == s.system);
    match leaf {
        Leaf::Register => {
            let c = match s.callsign {
                None => {
                    return Err(ParseFailure::MissingArgument { flag: Flag::Callsign });
                },
                Some(p) => p,
            };
            let f = match s.faction {
                None => {
                    return Err(ParseFailure::MissingArgument { flag: Flag::Faction });
                },
                Some(p) => p,
            };
            match FactionArg::from_name(tokens[f].as_str()) {
                None => Err(ParseFailure::InvalidValue { at: f }),
                Some(faction) => Ok(
                    Commands::Account {
                        command: AccountCommand::Register { callsign: tokens[c].clone(), faction },
                    },
                ),
            }
        },
        Leaf::ListAgents => Ok(Commands::Agent { command: AgentCommand::ListAgents }),
        Leaf::AgentInfo | Leaf::ContractList => {
            let c = match s.callsign {
                None => {
                    return Err(ParseFailure::MissingArgument { flag: Flag::Callsign });
                },
                Some(p) => p,
            };
            let callsign = tokens[c].clone();
            if leaf == Leaf::AgentInfo {
                Ok(Commands::Agent { command: AgentCommand::Info { callsign } })
            } else {
                Ok(Commands::Contract { command: ContractCommand::List { callsign } })
            }
        },
        Leaf::ContractInfo | Leaf::ContractAccept => {
            let c = match s.callsign {
                None => {
                    return Err(ParseFailure::MissingArgument { flag: Flag::Callsign });
                },
                Some(p) => p,
            };
            let i = match s.id {
                None => {
                    return Err(ParseFailure::MissingArgument { flag: Flag::Id });
                },
                Some(p) => p,
            };
            let callsign = tokens[c].clone();
            let id = tokens[i].clone();
            if leaf == Leaf::ContractInfo {
                Ok(Commands::Contract { command: ContractCommand::Info { callsign, id } })
            } else {
                Ok(Commands::Contract { command: ContractCommand::Accept { callsign, id } })
            }
        },
        Leaf::ListWaypoints => {
            let sys = match s.system {
                None => {
                    return Err(ParseFailure::MissingArgument { flag: Flag::System });
                },
                Some(p) => p,
            };
            let waypoint_type = match s.waypoint_type {
                None => None,
                Some(p) => match WaypointTypeArg::from_name(tokens[p].as_str()) {
                    None => {
                        return Err(ParseFailure::InvalidValue { at: p });
                    },
                    Some(v) => Some(v),
                },
            };
            let waypoint_trait = match s.waypoint_trait {
                None => None,
                Some(p) => match WaypointTraitSymbolArg::from_name(tokens[p].as_str()) {
                    None => {
                        return Err(ParseFailure::InvalidValue { at: p });
                    },
                    Some(v) => Some(v),
                },
            };
            Ok(
                Commands::System {
                    command: SystemCommand::ListWaypoints {
                        system: tokens[sys].clone(),
                        waypoint_type,
                        waypoint_trait,
                    },
                },
            )
        },
    }
}

impl ReplCli {
    /// Parses a token sequence into a command. No tokens give no command.
    pub fn try_parse(tokens: &Vec<String>) -> (r: Result<ReplCli, ParseFailure>)
        ensures
            parsed_as(words(tokens@), r),
    {
        let ghost t = words(tokens@);
        if tokens.len() == 0 {
            return Ok(ReplCli { command: None });
        }
        let b = match Branch::from_word(tokens[0].as_str()) {
            None => {
                return Err(ParseFailure::UnknownSubcommand { at: 0 });
            },
            Some(b) => b,
        };
        if tokens.len() == 1 {
            return Err(ParseFailure::MissingSubcommand { at: 1 });
        }
        let leaf = match Leaf::from_word(b, tokens[1].as_str()) {
            None => {
                return Err(ParseFailure::UnknownSubcommand { at: 1 });
            },
            Some(l) => l,
        };
        let slots = match scan(tokens, leaf) {
            Err(e) => {
                return Err(e);
            },
            Ok(s) => s,
        };
        proof {
            lemma_scan_below(t, leaf, 2, FlagSlots::spec_empty());
        }
        match build(tokens, leaf, slots) {
            Err(e) => Err(e),
            Ok(c) => Ok(ReplCli { command: Some(c) }),
        }
    }
}

/// The token at `i`, or nothing when `i` is out of range.
pub open spec fn word_at(t: Seq<Seq<char>>, i: int) -> Seq<char> {
    if 0 <= i < t.len() {
        t[i]
    } else {
        Seq::empty()
    }
}

/// The message for a parse failure of the tokens `t`.
pub open spec fn failure_text(e: ParseFailure, t: Seq<Seq<char>>) -> Seq<char> {
    match e {
        ParseFailure::UnknownSubcommand { at } => "error: unrecognized subcommand '"@ + word_at(
            t,
            at as int,
        ) + "'"@,
        ParseFailure::MissingSubcommand { at } => "error: '"@ + word_at(t, at - 1) + "' requires a subcommand"@,
        ParseFailure::UnknownArgument { at } => "error: unexpected argument '"@ + word_at(t, at as int)
            + "'"@,
        ParseFailure::DuplicateArgument { at } => "error: the argument '"@ + word_at(t, at as int)
            + "' cannot be used multiple times"@,
        ParseFailure::MissingValue { at } => "error: a value is required for '"@ + word_at(
            t,
            at as int,
        ) + "' but none was supplied"@,
        ParseFailure::MissingArgument { flag } => "error: the following required argument was not provided: "@
            + flag.spec_long(),
        ParseFailure::InvalidValue { at } => "error: invalid value '"@ + word_at(t, at as int)
            + "' for '"@ + word_at(t, at - 1) + "'"@,
    }
}

fn token_at(tokens: &Vec<String>, i: usize) -> (r: &str)
    ensures
        r@ == word_at(words(tokens@), i as int),
{
    if i < tokens.len() {
        tokens[i].as_str()
    } else {
        proof {
            reveal_strlit("");
        }
        ""
    }
}

fn before(tokens: &Vec<String>, i: usize) -> (r: &str)
    ensures
        r@ == word_at(words(tokens@), i - 1),
{
    if i == 0 {
        proof {
            reveal_strlit("");
        }
        ""
    } else {
        token_at(tokens, i - 1)
    }
}

fn three(a: &str, b: &str, c: &str) -> (r: String)
    ensures
        r@ == a@ + b@ + c@,
{
    let mut r = String::from_str(a);
    r.append(b);
    r.append(c);
    r
}

impl ParseFailure {
    /// A human-readable description of this failure of `tokens`.
    pub fn message(&self, tokens: &Vec<String>) -> (r: String)
        ensures
            r@ == failure_text(*self, words(tokens@)),
    {
        match *self {
            ParseFailure::UnknownSubcommand { at } => three(
                "error: unrecognized subcommand '",
                token_at(tokens, at),
                "'",
            ),
            ParseFailure::MissingSubcommand { at } => three(
                "error: '",
                before(tokens, at),
                "' requires a subcommand",
            ),
            ParseFailure::UnknownArgument { at } => three(
                "error: unexpected argument '",
                token_at(tokens, at),
                "'",
            ),
            ParseFailure::DuplicateArgument { at } => three(
                "error: the argument '",
                token_at(tokens, at),
                "' cannot be used multiple times",
            ),
            ParseFailure::MissingValue { at } => three(
                "error: a value is required for '",
                token_at(tokens, at),
                "' but none was supplied",
            ),
            ParseFailure::MissingArgument { flag } => {
                let mut r = String::from_str(
                    "error: the following required argument was not provided: ",
                );
                r.append(flag.long());
                r
            },
            ParseFailure::InvalidValue { at } => {
                let mut r = three("error: invalid value '", token_at(tokens, at), "' for '");
                r.append(before(tokens, at));
                r.append("'");
                r
            },
        }
    }
}

} // verus!
