use space_traders_cli::json::{choose_display, json_display};
use space_traders_cli::records::{AgentInfo, Chart, ContractSession, ContractTerms, Deliverable, Waypoint};
use space_traders_cli::render::{
    agent_lines, contract_line, contract_lines, join_texts, signed_text, unsigned_text, waypoint_line,
    waypoint_lines, waypoints_heading,
};
use space_traders_cli::values::{WaypointTraitSymbolArg, WaypointTypeArg};

fn contract() -> ContractSession {
    ContractSession {
        id: "c1".to_string(),
        contract_type: "PROCUREMENT".to_string(),
        faction: "COSMIC".to_string(),
        terms: ContractTerms {
            deadline: "2030-01-01T00:00:00Z".to_string(),
            on_accepted: 1000,
            on_fulfilled: 5000,
            deliver: Some(vec![Deliverable {
                trade_symbol: "IRON_ORE".to_string(),
                destination: "X1-DEST".to_string(),
                units_required: 40,
                units_fulfilled: 3,
            }]),
        },
        accepted: false,
        fulfilled: false,
    }
}

fn waypoint() -> Waypoint {
    Waypoint {
        symbol: "X1-AB-C1".to_string(),
        waypoint_type: "PLANET".to_string(),
        system_symbol: "X1-AB".to_string(),
        x: -12,
        y: 7,
        orbitals: vec!["X1-AB-C2".to_string(), "X1-AB-C3".to_string()],
        traits: vec!["MARKETPLACE".to_string()],
        faction: None,
        chart: Some(Chart { submitted_by: None }),
    }
}

#[test]
fn numbers_in_decimal() {
    assert_eq!(unsigned_text(0), "0");
    assert_eq!(unsigned_text(42), "42");
    assert_eq!(unsigned_text(u64::MAX), "18446744073709551615");
    assert_eq!(signed_text(-7), "-7");
    assert_eq!(signed_text(i64::MIN), "-9223372036854775808");
    assert_eq!(signed_text(175000), "175000");
}

#[test]
fn joining() {
    assert_eq!(join_texts(&vec![], ", "), "");
    assert_eq!(join_texts(&vec!["a".to_string()], ", "), "a");
    assert_eq!(join_texts(&vec!["a".to_string(), "b".to_string()], ", "), "a, b");
}

#[test]
fn agent_long_form() {
    let mut a = AgentInfo {
        symbol: "ZETA-1".to_string(),
        headquarters: "X1-HQ".to_string(),
        credits: 175000,
        starting_faction: "COSMIC".to_string(),
        account_id: None,
    };
    assert_eq!(
        agent_lines(&a),
        vec![
            "",
            "Agent: ZETA-1",
            "------------------------------",
            "  Headquarters: X1-HQ",
            "  Credits: 175000",
            "  Starting Faction: \"COSMIC\"",
        ]
    );
    a.account_id = Some("acc-9".to_string());
    assert_eq!(agent_lines(&a)[6], "  Account ID: acc-9");
}

#[test]
fn contract_forms() {
    let mut c = contract();
    assert_eq!(
        contract_lines(&c),
        vec![
            "",
            "Contract ID: c1",
            "------------------------------",
            "Type: \"PROCUREMENT\"",
            "Faction: \"COSMIC\"",
            "Terms:",
            "  Deadline: 2030-01-01T00:00:00Z",
            "  Payment: 1000 up front, 5000 on completion",
            "  Deliverables:",
            "    3 of 40 \"IRON_ORE\" to \"X1-DEST\"",
            "Accepted: no",
            "Fulfilled: no",
            "",
        ]
    );
    assert_eq!(
        contract_line(&c),
        "ID: c1 | Type: \"PROCUREMENT\" | Faction: \"COSMIC\" | Accepted: no | Fulfilled: no"
    );
    c.terms.deliver = None;
    c.accepted = true;
    let lines = contract_lines(&c);
    assert_eq!(lines[9], "    None");
    assert_eq!(lines[10], "Accepted: yes");
}

#[test]
fn waypoint_forms() {
    let mut w = waypoint();
    assert_eq!(
        waypoint_lines(&w),
        vec![
            "Waypoint: X1-AB-C1",
            "------------------------------",
            "Type: \"PLANET\"",
            "System Symbol: X1-AB",
            "X: -12",
            "Y: 7",
            "Orbitals: X1-AB-C2, X1-AB-C3",
            "Traits: \"MARKETPLACE\"",
            "Faction: None",
            "Chart: Unknown",
            "",
        ]
    );
    assert_eq!(waypoint_line(&w), "X1-AB-C1 [\"PLANET\"] with traits \"MARKETPLACE\"");
    w.traits.clear();
    w.orbitals.clear();
    w.faction = Some("VOID".to_string());
    w.chart = None;
    let lines = waypoint_lines(&w);
    assert_eq!(lines[6], "Orbitals: None");
    assert_eq!(lines[7], "Traits: None");
    assert_eq!(lines[8], "Faction: \"VOID\"");
    assert_eq!(lines[9], "Chart: None");
    assert_eq!(waypoint_line(&w), "X1-AB-C1 [\"PLANET\"] with traits No traits");
}

#[test]
fn listing_heading() {
    assert_eq!(
        waypoints_heading(
            "X1-AB",
            Some(WaypointTypeArg::GasGiant),
            Some(WaypointTraitSymbolArg::BlackMarket)
        ),
        vec![
            "",
            "Waypoints in system X1-AB, with type \"GAS_GIANT\", with trait \"BLACK_MARKET\"",
            "------------------------------",
        ]
    );
    assert_eq!(waypoints_heading("X1-AB", None, None)[1], "Waypoints in system X1-AB");
}

#[test]
fn json_is_indented_when_it_parses() {
    assert_eq!(json_display("{\"a\":1}"), "{\n  \"a\": 1\n}");
    assert_eq!(json_display("not json"), "not json");
    assert_eq!(choose_display("raw", None), "raw");
    assert_eq!(choose_display("raw", Some("pretty".to_string())), "pretty");
}
