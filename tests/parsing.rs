use space_traders_cli::command::{
    AccountCommand, AgentCommand, Commands, ContractCommand, ParseFailure, ReplCli, SystemCommand,
};
use space_traders_cli::grammar::Flag;
use space_traders_cli::repl::{interpret_line, LineAction};
use space_traders_cli::values::{FactionArg, WaypointTraitSymbolArg, WaypointTypeArg};

fn toks(s: &[&str]) -> Vec<String> {
    s.iter().map(|x| x.to_string()).collect()
}

fn parse(s: &[&str]) -> Result<ReplCli, ParseFailure> {
    ReplCli::try_parse(&toks(s))
}

#[test]
fn register_line_parses_to_register_command() {
    match interpret_line("account register --callsign ZETA-1 --faction cosmic") {
        LineAction::Run(Commands::Account {
            command: AccountCommand::Register { callsign, faction },
        }) => {
            assert_eq!(callsign, "ZETA-1");
            assert_eq!(faction, FactionArg::Cosmic);
        }
        other => panic!("unexpected {:?}", other),
    }
}

#[test]
fn unknown_faction_is_a_parse_error() {
    match interpret_line("account register --callsign ZETA-1 --faction fooian") {
        LineAction::Invalid { error, words } => {
            assert_eq!(error, ParseFailure::InvalidValue { at: 5 });
            assert_eq!(
                error.message(&words),
                "error: invalid value 'fooian' for '--faction'"
            );
        }
        other => panic!("unexpected {:?}", other),
    }
}

#[test]
fn short_flags_in_any_order() {
    let cli = parse(&["account", "register", "-f", "void", "-c", "ABC"]).unwrap();
    match cli.command {
        Some(Commands::Account {
            command: AccountCommand::Register { callsign, faction },
        }) => {
            assert_eq!(callsign, "ABC");
            assert_eq!(faction, FactionArg::Void);
        }
        other => panic!("unexpected {:?}", other),
    }
}

#[test]
fn quoted_words_stay_together() {
    match interpret_line("contract info --callsign 'A B' --id \"c 1\"") {
        LineAction::Run(Commands::Contract {
            command: ContractCommand::Info { callsign, id },
        }) => {
            assert_eq!(callsign, "A B");
            assert_eq!(id, "c 1");
        }
        other => panic!("unexpected {:?}", other),
    }
}

#[test]
fn every_leaf_parses() {
    assert!(matches!(
        parse(&["agent", "list-agents"]).unwrap().command,
        Some(Commands::Agent { command: AgentCommand::ListAgents })
    ));
    match parse(&["agent", "info", "--callsign", "X"]).unwrap().command {
        Some(Commands::Agent { command: AgentCommand::Info { callsign } }) => assert_eq!(callsign, "X"),
        other => panic!("unexpected {:?}", other),
    }
    match parse(&["contract", "list", "-c", "X"]).unwrap().command {
        Some(Commands::Contract { command: ContractCommand::List { callsign } }) => {
            assert_eq!(callsign, "X")
        }
        other => panic!("unexpected {:?}", other),
    }
    match parse(&["contract", "accept", "-i", "k", "-c", "X"]).unwrap().command {
        Some(Commands::Contract { command: ContractCommand::Accept { callsign, id } }) => {
            assert_eq!(callsign, "X");
            assert_eq!(id, "k");
        }
        other => panic!("unexpected {:?}", other),
    }
    match parse(&[
        "system",
        "list-waypoints",
        "--system",
        "X1-AB",
        "--type",
        "gas-giant",
        "--trait",
        "black-market",
    ])
    .unwrap()
    .command
    {
        Some(Commands::System {
            command: SystemCommand::ListWaypoints { system, waypoint_type, waypoint_trait },
        }) => {
            assert_eq!(system, "X1-AB");
            assert_eq!(waypoint_type, Some(WaypointTypeArg::GasGiant));
            assert_eq!(waypoint_trait, Some(WaypointTraitSymbolArg::BlackMarket));
        }
        other => panic!("unexpected {:?}", other),
    }
    match parse(&["system", "list-waypoints", "--system", "X1-AB"]).unwrap().command {
        Some(Commands::System {
            command: SystemCommand::ListWaypoints { waypoint_type, waypoint_trait, .. },
        }) => {
            assert_eq!(waypoint_type, None);
            assert_eq!(waypoint_trait, None);
        }
        other => panic!("unexpected {:?}", other),
    }
}

#[test]
fn no_tokens_give_no_command() {
    assert!(parse(&[]).unwrap().command.is_none());
}

#[test]
fn each_failure_kind() {
    assert_eq!(parse(&["fleet"]).unwrap_err(), ParseFailure::UnknownSubcommand { at: 0 });
    assert_eq!(parse(&["agent"]).unwrap_err(), ParseFailure::MissingSubcommand { at: 1 });
    assert_eq!(parse(&["agent", "fly"]).unwrap_err(), ParseFailure::UnknownSubcommand { at: 1 });
    assert_eq!(
        parse(&["agent", "info", "--id", "1"]).unwrap_err(),
        ParseFailure::UnknownArgument { at: 2 }
    );
    assert_eq!(
        parse(&["agent", "info", "bogus"]).unwrap_err(),
        ParseFailure::UnknownArgument { at: 2 }
    );
    assert_eq!(
        parse(&["agent", "info", "-c", "A", "--callsign", "B"]).unwrap_err(),
        ParseFailure::DuplicateArgument { at: 4 }
    );
    assert_eq!(
        parse(&["agent", "info", "-c"]).unwrap_err(),
        ParseFailure::MissingValue { at: 2 }
    );
    assert_eq!(
        parse(&["contract", "info", "-c", "A"]).unwrap_err(),
        ParseFailure::MissingArgument { flag: Flag::Id }
    );
    assert_eq!(
        parse(&["account", "register", "-f", "void"]).unwrap_err(),
        ParseFailure::MissingArgument { flag: Flag::Callsign }
    );
    assert_eq!(
        parse(&["system", "list-waypoints", "--system", "S", "--trait", "shiny"]).unwrap_err(),
        ParseFailure::InvalidValue { at: 5 }
    );
}

#[test]
fn failure_messages() {
    let t = toks(&["agent", "info", "-c", "A", "--callsign", "B"]);
    assert_eq!(
        ParseFailure::DuplicateArgument { at: 4 }.message(&t),
        "error: the argument '--callsign' cannot be used multiple times"
    );
    assert_eq!(
        ParseFailure::UnknownSubcommand { at: 0 }.message(&t),
        "error: unrecognized subcommand 'agent'"
    );
    assert_eq!(
        ParseFailure::MissingSubcommand { at: 1 }.message(&t),
        "error: 'agent' requires a subcommand"
    );
    assert_eq!(
        ParseFailure::UnknownArgument { at: 3 }.message(&t),
        "error: unexpected argument 'A'"
    );
    assert_eq!(
        ParseFailure::MissingValue { at: 2 }.message(&t),
        "error: a value is required for '-c' but none was supplied"
    );
    assert_eq!(
        ParseFailure::MissingArgument { flag: Flag::Id }.message(&t),
        "error: the following required argument was not provided: --id"
    );
    assert_eq!(
        ParseFailure::UnknownArgument { at: 9 }.message(&t),
        "error: unexpected argument ''"
    );
}
