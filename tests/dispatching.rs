use space_traders_cli::command::{
    AccountCommand, AgentCommand, Commands, ContractCommand, SystemCommand,
};
use space_traders_cli::config::Config;
use space_traders_cli::dispatch::{waypoint_listing, Application, Step};
use space_traders_cli::records::{AgentInfo, ContractSession, ContractTerms, Waypoint};
use space_traders_cli::registry::AgentRegistry;
use space_traders_cli::values::{FactionArg, WaypointTypeArg};

fn info(symbol: &str) -> AgentInfo {
    AgentInfo {
        symbol: symbol.to_string(),
        headquarters: "X1-HQ".to_string(),
        credits: 10,
        starting_faction: "VOID".to_string(),
        account_id: None,
    }
}

fn contract(id: &str) -> ContractSession {
    ContractSession {
        id: id.to_string(),
        contract_type: "TRANSPORT".to_string(),
        faction: "VOID".to_string(),
        terms: ContractTerms {
            deadline: "soon".to_string(),
            on_accepted: 1,
            on_fulfilled: 2,
            deliver: None,
        },
        accepted: false,
        fulfilled: false,
    }
}

fn app() -> Application {
    Application { config: Config::empty(), agents: AgentRegistry::new() }
}

fn printed(s: Step) -> Vec<String> {
    match s {
        Step::Print(v) => v,
        other => panic!("unexpected {:?}", other),
    }
}

fn contract_cmd(c: ContractCommand) -> Commands {
    Commands::Contract { command: c }
}

#[test]
fn registration_adds_the_agent_and_config_entry() {
    let mut a = app();
    let step = a.plan(Commands::Account {
        command: AccountCommand::Register { callsign: "zeta".to_string(), faction: FactionArg::Cosmic },
    });
    assert!(matches!(step, Step::Register { faction: FactionArg::Cosmic, .. }));
    let out = a.finish_register("zeta", Ok((info("ZETA"), "tok".to_string())));
    assert_eq!(out.lines, vec!["Successfully registered agent zeta"]);
    assert!(out.save_config && !out.failed);
    assert_eq!(a.config.agents.len(), 1);
    assert_eq!(a.config.agents[0].id, "ZETA");
    assert_eq!(a.config.agents[0].token, "tok");
    assert_eq!(a.agents.list_callsigns(), vec!["ZETA".to_string()]);
}

#[test]
fn failed_or_repeated_registration_changes_nothing() {
    let mut a = app();
    let out = a.finish_register("zeta", Err("409 conflict".to_string()));
    assert_eq!(out.lines, vec!["Error: 409 conflict"]);
    assert!(out.failed && !out.save_config);
    assert_eq!(a.agents.len(), 0);
    assert!(a.config.agents.is_empty());
    a.finish_register("zeta", Ok((info("ZETA"), "one".to_string())));
    let again = a.finish_register("zeta", Ok((info("ZETA"), "two".to_string())));
    assert_eq!(again.lines, vec!["An agent with that callsign is already known"]);
    assert!(again.failed);
    assert_eq!(a.config.agents.len(), 1);
    assert_eq!(a.agents.get("ZETA").unwrap().token, "one");
}

#[test]
fn agent_queries() {
    let mut a = app();
    a.finish_register("b", Ok((info("B"), "t".to_string())));
    a.finish_register("a", Ok((info("A"), "t".to_string())));
    assert_eq!(
        printed(a.plan(Commands::Agent { command: AgentCommand::ListAgents })),
        vec!["B", "A"]
    );
    assert_eq!(
        printed(a.plan(Commands::Agent { command: AgentCommand::Info { callsign: "A".to_string() } }))[1],
        "Agent: A"
    );
    assert_eq!(
        printed(a.plan(Commands::Agent { command: AgentCommand::Info { callsign: "Q".to_string() } })),
        vec!["No known agent with that callsign"]
    );
}

#[test]
fn contract_commands_fetch_then_answer() {
    let mut a = app();
    assert_eq!(
        printed(a.plan(contract_cmd(ContractCommand::List { callsign: "A".to_string() }))),
        vec!["No known agent with that callsign"]
    );
    a.finish_register("a", Ok((info("A"), "t".to_string())));
    match a.plan(contract_cmd(ContractCommand::List { callsign: "A".to_string() })) {
        Step::FetchContracts { callsign } => assert_eq!(callsign, "A"),
        other => panic!("unexpected {:?}", other),
    }
    a.agents.store_contracts("A", vec![contract("c1")]).unwrap();
    assert_eq!(
        printed(a.plan(contract_cmd(ContractCommand::List { callsign: "A".to_string() }))),
        vec!["ID: c1 | Type: \"TRANSPORT\" | Faction: \"VOID\" | Accepted: no | Fulfilled: no"]
    );
    assert_eq!(
        printed(a.plan(contract_cmd(ContractCommand::Info {
            callsign: "A".to_string(),
            id: "c1".to_string()
        })))[1],
        "Contract ID: c1"
    );
    assert_eq!(
        printed(a.plan(contract_cmd(ContractCommand::Info {
            callsign: "A".to_string(),
            id: "zz".to_string()
        }))),
        vec!["No known contract with that id"]
    );
    assert_eq!(
        printed(a.plan(contract_cmd(ContractCommand::Accept {
            callsign: "A".to_string(),
            id: "zz".to_string()
        }))),
        vec!["No known contract with that id"]
    );
    match a.plan(contract_cmd(ContractCommand::Accept { callsign: "A".to_string(), id: "c1".to_string() })) {
        Step::Accept { callsign, id } => {
            assert_eq!(callsign, "A");
            assert_eq!(id, "c1");
        }
        other => panic!("unexpected {:?}", other),
    }
}

#[test]
fn accept_outcomes() {
    let mut a = app();
    a.finish_register("a", Ok((info("A"), "t".to_string())));
    a.agents.store_contracts("A", vec![contract("c1")]).unwrap();
    let lines = a.finish_accept("A", "c1", Err("timeout".to_string()));
    assert_eq!(lines, vec!["Failed to accept contract: timeout"]);
    assert!(!a.agents.contract("A", "c1").unwrap().accepted);
    let lines = a.finish_accept("A", "c1", Ok(()));
    assert_eq!(lines[0], "Contract accepted:");
    assert_eq!(lines[11], "Accepted: yes");
    assert!(a.agents.contract("A", "c1").unwrap().accepted);
    let again = a.finish_accept("A", "c1", Ok(()));
    assert_eq!(again, lines);
}

#[test]
fn waypoint_commands() {
    let a = app();
    match a.plan(Commands::System {
        command: SystemCommand::ListWaypoints {
            system: "X1".to_string(),
            waypoint_type: Some(WaypointTypeArg::Moon),
            waypoint_trait: None,
        },
    }) {
        Step::ListWaypoints { system, waypoint_type, waypoint_trait } => {
            assert_eq!(system, "X1");
            assert_eq!(waypoint_type, Some(WaypointTypeArg::Moon));
            assert_eq!(waypoint_trait, None);
        }
        other => panic!("unexpected {:?}", other),
    }
    let w = Waypoint {
        symbol: "X1-M".to_string(),
        waypoint_type: "MOON".to_string(),
        system_symbol: "X1".to_string(),
        x: 0,
        y: 0,
        orbitals: vec![],
        traits: vec![],
        faction: None,
        chart: None,
    };
    assert_eq!(
        waypoint_listing("X1", Some(WaypointTypeArg::Moon), None, Ok(vec![w])),
        vec![
            "",
            "Waypoints in system X1, with type \"MOON\"",
            "------------------------------",
            "X1-M [\"MOON\"] with traits No traits",
        ]
    );
    assert_eq!(
        waypoint_listing("X1", None, None, Err("down".to_string())),
        vec!["Error listing waypoints: down"]
    );
}

#[test]
fn config_token_and_agents() {
    let mut c = Config::empty();
    assert!(c.needs_token());
    c.account_token = "SECRET-REDACTED".to_string();
    assert!(!c.needs_token());
    c.add_agent("A".to_string(), "t".to_string());
    assert_eq!(c.agents.len(), 1);
}
