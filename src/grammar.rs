//! The static command grammar: branches, their leaf commands, and the flags
//! each leaf takes. The parser and the completion list both read these tables.

use crate::text::str_eq;
use vstd::prelude::*;

verus! {

/// A top-level command group.
#[derive(Clone, Copy, Debug, PartialEq, Eq, Structural)]
pub enum Branch {
    Account,
    Agent,
    Contract,
    System,
}

/// A command that performs one action, always reached through its branch.
#[derive(Clone, Copy, Debug, PartialEq, Eq, Structural)]
pub enum Leaf {
    Register,
    ListAgents,
    AgentInfo,
    ContractList,
    ContractInfo,
    ContractAccept,
    ListWaypoints,
}

/// A named argument that takes one value.
#[derive(Clone, Copy, Debug, PartialEq, Eq, Structural)]
pub enum Flag {
    Callsign,
    Faction,
    Id,
    Type,
    Trait,
    System,
}

/// The branches in the order the grammar lists them.
pub open spec fn all_branches() -> Seq<Branch> {
    seq![Branch::Account, Branch::Agent, Branch::Contract, Branch::System]
}

impl Branch {
    pub open spec fn spec_name(self) -> Seq<char> {
        match self {
            Branch::Account => "account"@,
            Branch::Agent => "agent"@,
            Branch::Contract => "contract"@,
            Branch::System => "system"@,
        }
    }

    /// The leaves of this branch, in the order the grammar lists them.
    pub open spec fn spec_leaves(self) -> Seq<Leaf> {
        match self {
            Branch::Account => seq![Leaf::Register],
            Branch::Agent => seq![Leaf::ListAgents, Leaf::AgentInfo],
            Branch::Contract => seq![Leaf::ContractList, Leaf::ContractInfo, Leaf::ContractAccept],
            Branch::System => seq![Leaf::ListWaypoints],
        }
    }

    /// The branch a word selects, if any.
    pub open spec fn spec_from_word(w: Seq<char>) -> Option<Branch> {
        if w == "account"@ {
            Some(Branch::Account)
        } else if w == "agent"@ {
            Some(Branch::Agent)
        } else if w == "contract"@ {
            Some(Branch::Contract)
        } else if w == "system"@ {
            Some(Branch::System)
        } else {
            None
        }
    }

    pub fn name(&self) -> (r: &'static str)
        ensures
            r@ == self.spec_name(),
    {
        match self {
            Branch::Account => "account",
            Branch::Agent => "agent",
            Branch::Contract => "contract",
            Branch::System => "system",
        }
    }

    pub fn from_word(w: &str) -> (r: Option<Branch>)
        ensures
            r == Branch::spec_from_word(w@),
    {
        if str_eq(w, "account") {
            Some(Branch::Account)
        } else if str_eq(w, "agent") {
            Some(Branch::Agent)
        } else if str_eq(w, "contract") {
            Some(Branch::Contract)
        } else if str_eq(w, "system") {
            Some(Branch::System)
        } else {
            None
        }
    }

    pub fn leaves(&self) -> (r: Vec<Leaf>)
        ensures
            r@ == self.spec_leaves(),
    {
        let r = match self {
            Branch::Account => vec![Leaf::Register],
            Branch::Agent => vec![Leaf::ListAgents, Leaf::AgentInfo],
            Branch::Contract => vec![Leaf::ContractList, Leaf::ContractInfo, Leaf::ContractAccept],
            Branch::System => vec![Leaf::ListWaypoints],
        };
        assert(r@ =~= self.spec_leaves());
        r
    }
}

impl Leaf {
    pub open spec fn spec_name(self) -> Seq<char> {
        match self {
            Leaf::Register => "register"@,
            Leaf::ListAgents => "list-agents"@,
            Leaf::AgentInfo => "info"@,
            Leaf::ContractList => "list"@,
            Leaf::ContractInfo => "info"@,
            Leaf::ContractAccept => "accept"@,
            Leaf::ListWaypoints => "list-waypoints"@,
        }
    }

    pub open spec fn spec_branch(self) -> Branch {
        match self {
            Leaf::Register => Branch::Account,
            Leaf::ListAgents | Leaf::AgentInfo => Branch::Agent,
            Leaf::ContractList | Leaf::ContractInfo | Leaf::ContractAccept => Branch::Contract,
            Leaf::ListWaypoints => Branch::System,
        }
    }

    /// The leaf that a word selects under branch `b`, if any.
    pub open spec fn spec_from_word(b: Branch, w: Seq<char>) -> Option<Leaf> {
        match b {
            Branch::Account => if w == "register"@ {
                Some(Leaf::Register)
            } else {
                None
            },
            Branch::Agent => if w == "list-agents"@ {
                Some(Leaf::ListAgents)
            } else if w == "info"@ {
                Some(Leaf::AgentInfo)
            } else {
                None
            },
            Branch::Contract => if w == "list"@ {
                Some(Leaf::ContractList)
            } else if w == "info"@ {
                Some(Leaf::ContractInfo)
            } else if w == "accept"@ {
                Some(Leaf::ContractAccept)
            } else {
                None
            },
            Branch::System => if w == "list-waypoints"@ {
                Some(Leaf::ListWaypoints)
            } else {
                None
            },
        }
    }

    /// The flags this leaf takes, in the order the grammar lists them.
    pub open spec fn spec_flags(self) -> Seq<Flag> {
        match self {
            Leaf::Register => seq![Flag::Callsign, Flag::Faction],
            Leaf::ListAgents => seq![],
            Leaf::AgentInfo | Leaf::ContractList => seq![Flag::Callsign],
            Leaf::ContractInfo | Leaf::ContractAccept => seq![Flag::Callsign, Flag::Id],
            Leaf::ListWaypoints => seq![Flag::System, Flag::Type, Flag::Trait],
        }
    }

    pub open spec fn spec_accepts(self, f: Flag) -> bool {
        self.spec_flags().contains(f)
    }

    pub fn name(&self) -> (r: &'static str)
        ensures
            r@ == self.spec_name(),
    {
        match self {
            Leaf::Register => "register",
            Leaf::ListAgents => "list-agents",
            Leaf::AgentInfo => "info",
            Leaf::ContractList => "list",
            Leaf::ContractInfo => "info",
            Leaf::ContractAccept => "accept",
            Leaf::ListWaypoints => "list-waypoints",
        }
    }

    pub fn branch(&self) -> (r: Branch)
        ensures
            r == self.spec_branch(),
    {
        match self {
            Leaf::Register => Branch::Account,
            Leaf::ListAgents | Leaf::AgentInfo => Branch::Agent,
            Leaf::ContractList | Leaf::ContractInfo | Leaf::ContractAccept => Branch::Contract,
            Leaf::ListWaypoints => Branch::System,
        }
    }

    pub fn from_word(b: Branch, w: &str) -> (r: Option<Leaf>)
        ensures
            r == Leaf::spec_from_word(b, w@),
    {
        match b {
            Branch::Account => if str_eq(w, "register") {
                Some(Leaf::Register)
            } else {
                None
            },
            Branch::Agent => if str_eq(w, "list-agents") {
                Some(Leaf::ListAgents)
            } else if str_eq(w, "info") {
                Some(Leaf::AgentInfo)
            } else {
                None
            },
            Branch::Contract => if str_eq(w, "list") {
                Some(Leaf::ContractList)
            } else if str_eq(w, "info") {
                Some(Leaf::ContractInfo)
            } else if str_eq(w, "accept") {
                Some(Leaf::ContractAccept)
            } else {
                None
            },
            Branch::System => if str_eq(w, "list-waypoints") {
                Some(Leaf::ListWaypoints)
            } else {
                None
            },
        }
    }

    pub fn flags(&self) -> (r: Vec<Flag>)
        ensures
            r@ == self.spec_flags(),
    {
        let r = match self {
            Leaf::Register => vec![Flag::Callsign, Flag::Faction],
            Leaf::ListAgents => vec![],
            Leaf::AgentInfo | Leaf::ContractList => vec![Flag::Callsign],
            Leaf::ContractInfo | Leaf::ContractAccept => vec![Flag::Callsign, Flag::Id],
            Leaf::ListWaypoints => vec![Flag::System, Flag::Type, Flag::Trait],
        };
        assert(r@ =~= self.spec_flags());
        r
    }

    pub fn accepts(&self, f: Flag) -> (r: bool)
        ensures
            r == self.spec_accepts(f),
    {
        let fs = self.flags();
        let mut i: usize = 0;
        while i < fs.len()
            invariant
                fs@ == self.spec_flags(),
                i <= fs.len(),
                forall|k: int| 0 <= k < i ==> fs@[k] != f,
            decreases fs.len() - i,
        {
            if fs[i] == f {
                return true;
            }
            i = i + 1;
        }
        false
    }
}

impl Flag {
    /// The long spelling, `--name`.
    pub open spec fn spec_long(self) -> Seq<char> {
        match self {
            Flag::Callsign => "--callsign"@,
            Flag::Faction => "--faction"@,
            Flag::Id => "--id"@,
            Flag::Type => "--type"@,
            Flag::Trait => "--trait"@,
            Flag::System => "--system"@,
        }
    }

    /// The one-letter spelling, where the flag has one.
    pub open spec fn spec_short(self) -> Option<Seq<char>> {
        match self {
            Flag::Callsign => Some("-c"@),
            Flag::Faction => Some("-f"@),
            Flag::Id => Some("-i"@),
            _ => None,
        }
    }

    /// The spelling offered for completion: the short one where there is one.
    pub open spec fn spec_label(self) -> Seq<char> {
        match self.spec_short() {
            Some(s) => s,
            None => self.spec_long(),
        }
    }

    /// The flag a token spells, if any.
    pub open spec fn spec_from_token(t: Seq<char>) -> Option<Flag> {
        if t == "--callsign"@ || t == "-c"@ {
            Some(Flag::Callsign)
        } else if t == "--faction"@ || t == "-f"@ {
            Some(Flag::Faction)
        } else if t == "--id"@ || t == "-i"@ {
            Some(Flag::Id)
        } else if t == "--type"@ {
            Some(Flag::Type)
        } else if t == "--trait"@ {
            Some(Flag::Trait)
        } else if t == "--system"@ {
            Some(Flag::System)
        } else {
            None
        }
    }

    pub fn label(&self) -> (r: &'static str)
        ensures
            r@ == self.spec_label(),
    {
        match self {
            Flag::Callsign => "-c",
            Flag::Faction => "-f",
            Flag::Id => "-i",
            Flag::Type => "--type",
            Flag::Trait => "--trait",
            Flag::System => "--system",
        }
    }

    pub fn long(&self) -> (r: &'static str)
        ensures
            r@ == self.spec_long(),
    {
        match self {
            Flag::Callsign => "--callsign",
            Flag::Faction => "--faction",
            Flag::Id => "--id",
            Flag::Type => "--type",
            Flag::Trait => "--trait",
            Flag::System => "--system",
        }
    }

    pub fn from_token(t: &str) -> (r: Option<Flag>)
        ensures
            r == Flag::spec_from_token(t@),
    {
        if str_eq(t, "--callsign") || str_eq(t, "-c") {
            Some(Flag::Callsign)
        } else if str_eq(t, "--faction") || str_eq(t, "-f") {
            Some(Flag::Faction)
        } else if str_eq(t, "--id") || str_eq(t, "-i") {
            Some(Flag::Id)
        } else if str_eq(t, "--type") {
            Some(Flag::Type)
        } else if str_eq(t, "--trait") {
            Some(Flag::Trait)
        } else if str_eq(t, "--system") {
            Some(Flag::System)
        } else {
            None
        }
    }
}

/// The parser accepts exactly the names the grammar lists: each branch word
/// selects its branch, each leaf word selects its leaf under its own branch,
/// and both spellings of each flag select that flag.
pub proof fn lemma_grammar_round_trip()
    ensures
        forall|b: Branch| Branch::spec_from_word(#[trigger] b.spec_name()) == Some(b),
        forall|l: Leaf|
            Leaf::spec_from_word(l.spec_branch(), #[trigger] l.spec_name()) == Some(l)
                && l.spec_branch().spec_leaves().contains(l),
        forall|f: Flag|
            Flag::spec_from_token(#[trigger] f.spec_label()) == Some(f) && Flag::spec_from_token(
                f.spec_long(),
            ) == Some(f),
{
    reveal_strlit("account");
    reveal_strlit("agent");
    reveal_strlit("contract");
    reveal_strlit("system");
    reveal_strlit("register");
    reveal_strlit("list-agents");
    reveal_strlit("info");
    reveal_strlit("list");
    reveal_strlit("accept");
    reveal_strlit("list-waypoints");
    reveal_strlit("--callsign");
    reveal_strlit("-c");
    reveal_strlit("--faction");
    reveal_strlit("-f");
    reveal_strlit("--id");
    reveal_strlit("-i");
    reveal_strlit("--type");
    reveal_strlit("--trait");
    reveal_strlit("--system");
    assert forall|b: Branch| Branch::spec_from_word(#[trigger] b.spec_name()) == Some(b) by {
        match b {
            Branch::Account => {},
            Branch::Agent => {
                assert("agent"@[1] != "account"@[1]);
            },
            Branch::Contract => {
                assert("contract"@[0] != "account"@[0]);
                assert("contract"@[0] != "agent"@[0]);
            },
            Branch::System => {
                assert("system"@[0] != "account"@[0]);
                assert("system"@[0] != "agent"@[0]);
                assert("system"@[0] != "contract"@[0]);
            },
        }
    }
    assert forall|l: Leaf|
        Leaf::spec_from_word(l.spec_branch(), #[trigger] l.spec_name()) == Some(l)
            && l.spec_branch().spec_leaves().contains(l) by {
        match l {
            Leaf::AgentInfo => {
                assert("info"@.len() != "list-agents"@.len());
                assert(Branch::Agent.spec_leaves()[1] == l);
            },
            Leaf::ContractInfo => {
                assert("info"@.len() != "list"@.len() || "info"@[1] != "list"@[1]);
                assert(Branch::Contract.spec_leaves()[1] == l);
            },
            Leaf::ContractAccept => {
                assert("accept"@.len() != "list"@.len());
                assert("accept"@.len() != "info"@.len());
                assert(Branch::Contract.spec_leaves()[2] == l);
            },
            _ => {
                assert(l.spec_branch().spec_leaves()[0] == l);
            },
        }
    }
    assert forall|f: Flag|
        Flag::spec_from_token(#[trigger] f.spec_label()) == Some(f) && Flag::spec_from_token(
            f.spec_long(),
        ) == Some(f) by {
        match f {
            Flag::Callsign => {},
            Flag::Faction => {
                assert("--faction"@.len() != "--callsign"@.len());
                assert("-f"@[1] != "-c"@[1]);
                assert("--faction"@.len() != "-c"@.len());
                assert("-f"@.len() != "--callsign"@.len());
            },
            Flag::Id => {
                assert("--id"@.len() != "--callsign"@.len());
                assert("--id"@.len() != "--faction"@.len());
                assert("--id"@.len() != "-c"@.len());
                assert("--id"@.len() != "-f"@.len());
                assert("-i"@[1] != "-c"@[1]);
                assert("-i"@[1] != "-f"@[1]);
                assert("-i"@.len() != "--callsign"@.len());
                assert("-i"@.len() != "--faction"@.len());
            },
            _ => {
                assert(f.spec_long().len() >= 6);
                assert(f.spec_long()[2] != "--callsign"@[2]);
                assert(f.spec_long()[2] != "--faction"@[2]);
                assert(f.spec_long()[2] != "--id"@[2]);
                assert("--type"@[3] != "--trait"@[3]);
                assert("--system"@[2] != "--type"@[2]);
                assert("--system"@[2] != "--trait"@[2]);
            },
        }
    }
}

/// Every leaf, grouped by branch in the grammar's order.
pub open spec fn all_leaves() -> Seq<Leaf> {
    seq![
        Leaf::Register,
        Leaf::ListAgents,
        Leaf::AgentInfo,
        Leaf::ContractList,
        Leaf::ContractInfo,
        Leaf::ContractAccept,
        Leaf::ListWaypoints,
    ]
}

impl Flag {
    /// The placeholder for the flag's value in usage text.
    pub open spec fn spec_placeholder(self) -> Seq<char> {
        match self {
            Flag::Callsign => "<CALLSIGN>"@,
            Flag::Faction => "<FACTION>"@,
            Flag::Id => "<ID>"@,
            Flag::Type => "<TYPE>"@,
            Flag::Trait => "<TRAIT>"@,
            Flag::System => "<SYSTEM>"@,
        }
    }

    pub fn placeholder(&self) -> (r: &'static str)
        ensures
            r@ == self.spec_placeholder(),
    {
        match self {
            Flag::Callsign => "<CALLSIGN>",
            Flag::Faction => "<FACTION>",
            Flag::Id => "<ID>",
            Flag::Type => "<TYPE>",
            Flag::Trait => "<TRAIT>",
            Flag::System => "<SYSTEM>",
        }
    }
}

impl Leaf {
    /// Whether the leaf cannot run without the flag.
    pub open spec fn spec_requires(self, f: Flag) -> bool {
        self.spec_accepts(f) && !(self == Leaf::ListWaypoints && (f == Flag::Type || f == Flag::Trait))
    }

    pub fn requires_flag(&self, f: Flag) -> (r: bool)
        ensures
            r == self.spec_requires(f),
    {
        self.accepts(f) && !(*self == Leaf::ListWaypoints && (f == Flag::Type || f == Flag::Trait))
    }
}

/// How one flag of `l` is shown in usage text; optional flags are bracketed.
pub open spec fn flag_usage(l: Leaf, f: Flag) -> Seq<char> {
    let core = f.spec_long() + seq![' '] + f.spec_placeholder();
    if l.spec_requires(f) {
        core
    } else {
        seq!['['] + core + seq![']']
    }
}

/// The usage text of the flags `fs` of `l`, each after a space.
pub open spec fn flags_usage(l: Leaf, fs: Seq<Flag>) -> Seq<char>
    decreases fs.len(),
{
    if fs.len() == 0 {
        Seq::empty()
    } else {
        flags_usage(l, fs.drop_last()) + seq![' '] + flag_usage(l, fs.last())
    }
}

/// The usage line of a leaf.
pub open spec fn leaf_usage(l: Leaf) -> Seq<char> {
    "  "@ + l.spec_branch().spec_name() + seq![' '] + l.spec_name() + flags_usage(l, l.spec_flags())
}

/// The overview that `help` prints.
pub open spec fn usage_text() -> Seq<Seq<char>> {
    seq!["Available commands:"@] + all_leaves().map_values(|l: Leaf| leaf_usage(l)) + seq![
        "  help"@,
        "  exit"@,
    ]
}

fn leaf_usage_line(l: Leaf) -> (r: String)
    ensures
        r@ == leaf_usage(l),
{
    proof {
        reveal_strlit(" ");
    }
    let mut r = String::from_str("  ");
    r.append(l.branch().name());
    r.append(" ");
    r.append(l.name());
    let ghost head = r@;
    let fs = l.flags();
    let mut i: usize = 0;
    while i < fs.len()
        invariant
            fs@ == l.spec_flags(),
            i <= fs.len(),
            r@ == head + flags_usage(l, fs@.take(i as int)),
        decreases fs.len() - i,
    {
        let f = fs[i];
        let ghost before = r@;
        let req = l.requires_flag(f);
        proof {
            reveal_strlit(" ");
            reveal_strlit("[");
            reveal_strlit("]");
        }
        r.append(" ");
        let mut part = String::from_str(f.long());
        part.append(" ");
        part.append(f.placeholder());
        if req {
            r.append(part.as_str());
        } else {
            r.append("[");
            r.append(part.as_str());
            r.append("]");
        }
        assert(fs@.take(i + 1).drop_last() =~= fs@.take(i as int));
        assert(r@ =~= before + seq![' '] + flag_usage(l, f));
        i = i + 1;
    }
    assert(fs@.take(i as int) =~= fs@);
    assert(r@ =~= leaf_usage(l));
    r
}

/// The overview that `help` prints, one line per command.
pub fn usage_lines() -> (r: Vec<String>)
    ensures
        crate::command::words(r@) == usage_text(),
{
    let leaves = vec![
        Leaf::Register,
        Leaf::ListAgents,
        Leaf::AgentInfo,
        Leaf::ContractList,
        Leaf::ContractInfo,
        Leaf::ContractAccept,
        Leaf::ListWaypoints,
    ];
    assert(leaves@ =~= all_leaves());
    let mut r: Vec<String> = Vec::new();
    r.push(String::from_str("Available commands:"));
    let mut i: usize = 0;
    while i < leaves.len()
        invariant
            leaves@ == all_leaves(),
            i <= leaves.len(),
            r@.len() == i + 1,
            r@[0]@ == "Available commands:"@,
            forall|k: int| 0 <= k < i ==> #[trigger] r@[k + 1]@ == leaf_usage(leaves@[k]),
        decreases leaves.len() - i,
    {
        r.push(leaf_usage_line(leaves[i]));
        i = i + 1;
    }
    r.push(String::from_str("  help"));
    r.push(String::from_str("  exit"));
    let ghost body = all_leaves().map_values(|l: Leaf| leaf_usage(l));
    assert forall|k: int| 0 <= k < r@.len() implies #[trigger] crate::command::words(r@)[k]
        == usage_text()[k] by {
        if 1 <= k <= 7 {
            assert(r@[(k - 1) + 1]@ == leaf_usage(leaves@[k - 1]));
        }
    }
    assert(crate::command::words(r@) =~= usage_text());
    r
}

} // verus!
