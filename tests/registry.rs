use space_traders_cli::records::{AgentInfo, ContractSession, ContractTerms, Deliverable};
use space_traders_cli::registry::{AgentRegistry, AgentSession, RegistryError};

fn info(symbol: &str) -> AgentInfo {
    AgentInfo {
        symbol: symbol.to_string(),
        headquarters: "X1-HQ".to_string(),
        credits: 175000,
        starting_faction: "COSMIC".to_string(),
        account_id: None,
    }
}

fn contract(id: &str) -> ContractSession {
    ContractSession {
        id: id.to_string(),
        contract_type: "PROCUREMENT".to_string(),
        faction: "COSMIC".to_string(),
        terms: ContractTerms {
            deadline: "2030-01-01T00:00:00Z".to_string(),
            on_accepted: 1000,
            on_fulfilled: 5000,
            deliver: Some(vec![Deliverable {
                trade_symbol: "IRON_ORE".to_string(),
                destination: "X1-DEST".to_string(),
                units_required: 40,
                units_fulfilled: 0,
            }]),
        },
        accepted: false,
        fulfilled: false,
    }
}

fn registry_with(names: &[&str]) -> AgentRegistry {
    let mut r = AgentRegistry::new();
    for n in names {
        r.insert(AgentSession::new(info(n), format!("tok-{}", n))).unwrap();
    }
    r
}

#[test]
fn unknown_agent_is_reported_and_nothing_changes() {
    let mut r = registry_with(&["ALPHA"]);
    assert!(r.get("GHOST").is_none());
    assert_eq!(r.needs_fetch("GHOST"), Err(RegistryError::UnknownAgent));
    assert_eq!(r.contracts("GHOST").unwrap_err(), RegistryError::UnknownAgent);
    assert_eq!(r.contract("GHOST", "c1").unwrap_err(), RegistryError::UnknownAgent);
    assert_eq!(
        r.store_contracts("GHOST", vec![contract("c1")]),
        Err(RegistryError::UnknownAgent)
    );
    assert_eq!(r.accept_contract("GHOST", "c1"), Err(RegistryError::UnknownAgent));
    assert_eq!(r.len(), 1);
    assert_eq!(r.list_callsigns(), vec!["ALPHA".to_string()]);
    assert_eq!(r.needs_fetch("ALPHA"), Ok(true));
}

#[test]
fn a_known_callsign_is_never_overwritten() {
    let mut r = AgentRegistry::new();
    assert!(r.insert(AgentSession::new(info("ZETA-1"), "first".to_string())).is_ok());
    let second = r.insert(AgentSession::new(info("ZETA-1"), "second".to_string()));
    assert_eq!(second, Err(RegistryError::DuplicateAgent));
    assert_eq!(r.len(), 1);
    assert_eq!(r.get("ZETA-1").unwrap().token, "first");
}

#[test]
fn callsigns_keep_insertion_order() {
    let r = registry_with(&["C", "A", "B"]);
    assert_eq!(
        r.list_callsigns(),
        vec!["C".to_string(), "A".to_string(), "B".to_string()]
    );
    assert_eq!(r.get("A").unwrap().info.symbol, "A");
}

#[test]
fn contracts_are_fetched_once() {
    let mut r = registry_with(&["ALPHA"]);
    assert_eq!(r.contracts("ALPHA").unwrap_err(), RegistryError::ContractsNotFetched);
    assert_eq!(r.needs_fetch("ALPHA"), Ok(true));
    r.store_contracts("ALPHA", vec![contract("c1"), contract("c2")]).unwrap();
    assert_eq!(r.needs_fetch("ALPHA"), Ok(false));
    let first: Vec<ContractSession> = r.contracts("ALPHA").unwrap().clone();
    r.store_contracts("ALPHA", vec![contract("other")]).unwrap();
    let second: Vec<ContractSession> = r.contracts("ALPHA").unwrap().clone();
    assert_eq!(first, second);
    assert_eq!(second.len(), 2);
    assert_eq!(r.needs_fetch("ALPHA"), Ok(false));
}

#[test]
fn an_empty_fetch_is_still_cached() {
    let mut r = registry_with(&["ALPHA"]);
    r.store_contracts("ALPHA", vec![]).unwrap();
    assert_eq!(r.needs_fetch("ALPHA"), Ok(false));
    assert!(r.contracts("ALPHA").unwrap().is_empty());
}

#[test]
fn accepting_sets_the_flag_once() {
    let mut r = registry_with(&["ALPHA"]);
    assert_eq!(r.accept_contract("ALPHA", "c1"), Err(RegistryError::ContractsNotFetched));
    r.store_contracts("ALPHA", vec![contract("c1"), contract("c2")]).unwrap();
    assert!(!r.contract("ALPHA", "c1").unwrap().accepted);
    assert_eq!(r.accept_contract("ALPHA", "c1"), Ok(()));
    let after_first = r.contracts("ALPHA").unwrap().clone();
    assert!(after_first[0].accepted);
    assert!(!after_first[1].accepted);
    assert_eq!(r.accept_contract("ALPHA", "c1"), Ok(()));
    assert_eq!(r.contracts("ALPHA").unwrap(), &after_first);
    assert_eq!(r.accept_contract("ALPHA", "nope"), Err(RegistryError::UnknownContract));
    assert_eq!(r.contract("ALPHA", "nope").unwrap_err(), RegistryError::UnknownContract);
}
