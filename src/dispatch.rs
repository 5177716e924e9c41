//! The command dispatcher. A command is planned against the application
//! state: local queries are answered at once, and work that needs the remote
//! service is handed back as a step whose outcome is then applied here.

use crate::command::{words, AccountCommand, AgentCommand, Commands, ContractCommand, SystemCommand};
use crate::config::{Agent, Config};
use crate::records::{AgentInfo, ContractSession, Waypoint};
use crate::registry::{
    accept_model, callsigns, contract_lookup, contract_slot, has_contract, is_known, slot_of,
    AgentModel, AgentRegistry, AgentSession, RegistryError,
};
use crate::render::{
    agent_lines, agent_text, contract_line, contract_lines, contract_short_text, contract_text,
    waypoint_line, waypoint_short_text, waypoints_heading, waypoints_heading_text,
};
use crate::values::{FactionArg, WaypointTraitSymbolArg, WaypointTypeArg};
use vstd::prelude::*;

verus! {

/// The state one command works on.
#[derive(Debug)]
pub struct Application {
    pub config: Config,
    pub agents: AgentRegistry,
}

/// What to do next for a command.
#[derive(Debug)]
pub enum Step {
    /// Print these lines; the command is done.
    Print(Vec<String>),
    /// Register an agent with the remote service, then apply the outcome with
    /// `Application::finish_register`.
    Register { callsign: String, faction: FactionArg },
    /// Fetch the agent's contracts, store them, and plan the command again.
    FetchContracts { callsign: String },
    /// Ask the remote service to accept the contract, then apply the outcome
    /// with `Application::finish_accept`.
    Accept { callsign: String, id: String },
    /// Ask the remote service for the waypoints, then render the outcome with
    /// `waypoint_listing`.
    ListWaypoints {
        system: String,
        waypoint_type: Option<WaypointTypeArg>,
        waypoint_trait: Option<WaypointTraitSymbolArg>,
    },
}

/// What applying a remote outcome produced.
#[derive(Debug)]
pub struct Outcome {
    pub lines: Vec<String>,
    /// The configuration changed and has to be written out.
    pub save_config: bool,
    /// The command failed.
    pub failed: bool,
}

pub open spec fn unknown_agent_text() -> Seq<Seq<char>> {
    seq!["No known agent with that callsign"@]
}

pub open spec fn unknown_contract_text() -> Seq<Seq<char>> {
    seq!["No known contract with that id"@]
}

/// The one-line forms of the contracts `cs`, in order.
pub open spec fn contract_list_text(cs: Seq<ContractSession>) -> Seq<Seq<char>> {
    cs.map_values(|c: ContractSession| contract_short_text(c))
}

pub open spec fn prints(s: Step, text: Seq<Seq<char>>) -> bool {
    s is Print && words(s->Print_0@) == text
}

/// The callsign a contract command names.
pub open spec fn contract_callsign(c: ContractCommand) -> String {
    match c {
        ContractCommand::List { callsign } => callsign,
        ContractCommand::Info { callsign, .. } => callsign,
        ContractCommand::Accept { callsign, .. } => callsign,
    }
}

/// The step for a contract command in state `m`.
pub open spec fn contract_planned(m: Seq<AgentModel>, c: ContractCommand, s: Step) -> bool {
    let cs = contract_callsign(c);
    if !is_known(m, cs@) {
        prints(s, unknown_agent_text())
    } else if m[slot_of(m, cs@)].contracts is None {
        s == (Step::FetchContracts { callsign: cs })
    } else {
        let list = m[slot_of(m, cs@)].contracts->0;
        match c {
            ContractCommand::List { .. } => prints(s, contract_list_text(list)),
            ContractCommand::Info { id, .. } => if has_contract(list, id@) {
                prints(s, contract_text(list[contract_slot(list, id@)]))
            } else {
                prints(s, unknown_contract_text())
            },
            ContractCommand::Accept { callsign, id } => if has_contract(list, id@) {
                s == (Step::Accept { callsign, id })
            } else {
                prints(s, unknown_contract_text())
            },
        }
    }
}

/// The step for any command in state `m`.
pub open spec fn planned(m: Seq<AgentModel>, cmd: Commands, s: Step) -> bool {
    match cmd {
        Commands::Account { command: AccountCommand::Register { callsign, faction } } => s == (
        Step::Register { callsign, faction }),
        Commands::Agent { command: AgentCommand::ListAgents } => prints(s, callsigns(m)),
        Commands::Agent { command: AgentCommand::Info { callsign } } => if is_known(m, callsign@) {
            prints(s, agent_text(m[slot_of(m, callsign@)].info))
        } else {
            prints(s, unknown_agent_text())
        },
        Commands::Contract { command } => contract_planned(m, command, s),
        Commands::System {
            command: SystemCommand::ListWaypoints { system, waypoint_type, waypoint_trait },
        } => s == (Step::ListWaypoints { system, waypoint_type, waypoint_trait }),
    }
}

fn line(s: &str) -> (r: Vec<String>)
    ensures
        words(r@) == seq![s@],
{
    let mut r: Vec<String> = Vec::new();
    r.push(String::from_str(s));
    assert(words(r@) =~= seq![s@]);
    r
}

fn text_after(a: &str, b: &str) -> (r: String)
    ensures
        r@ == a@ + b@,
{
    let mut r = String::from_str(a);
    r.append(b);
    r
}

fn contract_list(list: &Vec<ContractSession>) -> (r: Vec<String>)
    ensures
        words(r@) == contract_list_text(list@),
{
    let mut r: Vec<String> = Vec::new();
    let mut i: usize = 0;
    while i < list.len()
        invariant
            i <= list.len(),
            r@.len() == i,
            forall|k: int| 0 <= k < i ==> #[trigger] r@[k]@ == contract_short_text(list@[k]),
        decreases list.len() - i,
    {
        r.push(contract_line(&list[i]));
        i = i + 1;
    }
    assert(words(r@) =~= contract_list_text(list@));
    r
}

/// Renders the outcome of a waypoint listing.
pub fn waypoint_listing(
    system: &str,
    t: Option<WaypointTypeArg>,
    tr: Option<WaypointTraitSymbolArg>,
    result: Result<Vec<Waypoint>, String>,
) -> (r: Vec<String>)
    ensures
        match result {
            Ok(ws) => words(r@) == waypoints_heading_text(system@, t, tr) + ws@.map_values(
                |w: Waypoint| waypoint_short_text(w),
            ),
            Err(e) => words(r@) == seq!["Error listing waypoints: "@ + e@],
        },
{
    match result {
        Err(e) => line(text_after("Error listing waypoints: ", e.as_str()).as_str()),
        Ok(ws) => {
            let mut r = waypoints_heading(system, t, tr);
            let ghost head = words(r@);
            let mut i: usize = 0;
            while i < ws.len()
                invariant
                    i <= ws.len(),
                    r@.len() == head.len() + i,
                    forall|k: int| 0 <= k < head.len() ==> #[trigger] r@[k]@ == head[k],
                    forall|k: int|
                        0 <= k < i ==> #[trigger] r@[head.len() + k]@ == waypoint_short_text(ws@[k]),
                decreases ws.len() - i,
            {
                r.push(waypoint_line(&ws[i]));
                i = i + 1;
            }
            let ghost lines = ws@.map_values(|w: Waypoint| waypoint_short_text(w));
            assert forall|k: int| 0 <= k < r@.len() implies #[trigger] words(r@)[k] == (head
                + lines)[k] by {
                if k >= head.len() {
                    assert(r@[head.len() + (k - head.len())]@ == lines[k - head.len()]);
                }
            }
            assert(words(r@) =~= head + lines);
            r
        },
    }
}

impl Application {
    pub open spec fn wf(&self) -> bool {
        self.agents.wf()
    }

    /// Decides what a command needs. Only local state is read.
    pub fn plan(&self, cmd: Commands) -> (r: Step)
        requires
            self.wf(),
        ensures
            planned(self.agents@, cmd, r),
    {
        match cmd {
            Commands::Account { command: AccountCommand::Register { callsign, faction } } => {
                Step::Register { callsign, faction }
            },
            Commands::Agent { command: AgentCommand::ListAgents } => {
                Step::Print(self.agents.list_callsigns())
            },
            Commands::Agent { command: AgentCommand::Info { callsign } } => {
                match self.agents.get(callsign.as_str()) {
                    Some(a) => Step::Print(agent_lines(&a.info)),
                    None => Step::Print(line("No known agent with that callsign")),
                }
            },
            Commands::Contract { command } => self.plan_contract(command),
            Commands::System {
                command: SystemCommand::ListWaypoints { system, waypoint_type, waypoint_trait },
            } => Step::ListWaypoints { system, waypoint_type, waypoint_trait },
        }
    }

    fn plan_contract(&self, c: ContractCommand) -> (r: Step)
        requires
            self.wf(),
        ensures
            contract_planned(self.agents@, c, r),
    {
        let ghost m = self.agents@;
        let callsign = match &c {
            ContractCommand::List { callsign } => callsign,
            ContractCommand::Info { callsign, .. } => callsign,
            ContractCommand::Accept { callsign, .. } => callsign,
        };
        let list = match self.agents.contracts(callsign.as_str()) {
            Err(RegistryError::UnknownAgent) => {
                return Step::Print(line("No known agent with that callsign"));
            },
            Err(_) => {
                return Step::FetchContracts { callsign: callsign.clone() };
            },
            Ok(list) => list,
        };
        match c {
            ContractCommand::List { .. } => Step::Print(contract_list(list)),
            ContractCommand::Info { callsign, id } => {
                match self.agents.contract(callsign.as_str(), id.as_str()) {
                    Ok(found) => Step::Print(contract_lines(found)),
                    Err(_) => Step::Print(line("No known contract with that id")),
                }
            },
            ContractCommand::Accept { callsign, id } => {
                match self.agents.contract(callsign.as_str(), id.as_str()) {
                    Ok(_) => Step::Accept { callsign, id },
                    Err(_) => Step::Print(line("No known contract with that id")),
                }
            },
        }
    }

    /// Applies the remote service's answer to a registration: the new agent
    /// and its token, or the reason it failed. A failure, or a callsign that
    /// is already known, leaves the state as it was.
    pub fn finish_register(&mut self, callsign: &str, result: Result<(AgentInfo, String), String>) -> (r:
        Outcome)
        requires
            old(self).wf(),
        ensures
            final(self).wf(),
            match result {
                Err(e) => final(self).agents@ == old(self).agents@ && final(self).config.agents@
                    == old(self).config.agents@ && words(r.lines@) == seq!["Error: "@ + e@] && r.failed
                    && !r.save_config,
                Ok((info, token)) => if is_known(old(self).agents@, info.symbol@) {
                    final(self).agents@ == old(self).agents@ && final(self).config.agents@
                        == old(self).config.agents@ && words(r.lines@) == seq![
                        "An agent with that callsign is already known"@,
                    ] && r.failed && !r.save_config
                } else {
                    final(self).agents@ == old(self).agents@.push(
                        AgentModel { info, token: token@, contracts: None },
                    ) && final(self).config.agents@ == old(self).config.agents@.push(
                        Agent { id: info.symbol, token },
                    ) && words(r.lines@) == seq!["Successfully registered agent "@ + callsign@]
                        && !r.failed && r.save_config
                },
            },
            final(self).config.account_token == old(self).config.account_token,
    {
        match result {
            Err(e) => Outcome {
                lines: line(text_after("Error: ", e.as_str()).as_str()),
                save_config: false,
                failed: true,
            },
            Ok((info, token)) => {
                let id = info.symbol.clone();
                let kept = token.clone();
                match self.agents.insert(AgentSession::new(info, token)) {
                    Err(_) => Outcome {
                        lines: line("An agent with that callsign is already known"),
                        save_config: false,
                        failed: true,
                    },
                    Ok(()) => {
                        self.config.add_agent(id, kept);
                        Outcome {
                            lines: line(text_after("Successfully registered agent ", callsign).as_str()),
                            save_config: true,
                            failed: false,
                        }
                    },
                }
            },
        }
    }

    /// Applies the remote service's answer to accepting a contract.
    pub fn finish_accept(&mut self, callsign: &str, id: &str, result: Result<(), String>) -> (r: Vec<
        String,
    >)
        requires
            old(self).wf(),
        ensures
            final(self).wf(),
            final(self).config == old(self).config,
            match result {
                Err(e) => final(self).agents@ == old(self).agents@ && words(r@) == seq![
                    "Failed to accept contract: "@ + e@,
                ],
                Ok(()) => final(self).agents@ == accept_model(old(self).agents@, callsign@, id@)
                    && match contract_lookup(final(self).agents@, callsign@, id@) {
                    Ok(c) => words(r@) == seq!["Contract accepted:"@] + contract_text(c),
                    Err(_) => words(r@) == unknown_contract_text(),
                },
            },
    {
        match result {
            Err(e) => line(text_after("Failed to accept contract: ", e.as_str()).as_str()),
            Ok(()) => {
                let _ = self.agents.accept_contract(callsign, id);
                match self.agents.contract(callsign, id) {
                    Ok(c) => {
                        let mut r = line("Contract accepted:");
                        let mut rest = contract_lines(c);
                        let ghost a = words(r@);
                        let ghost b = words(rest@);
                        r.append(&mut rest);
                        assert(words(r@) =~= a + b);
                        r
                    },
                    Err(_) => line("No known contract with that id"),
                }
            },
        }
    }
}

} // verus!
