use space_traders_cli::command::{AgentCommand, Commands, ParseFailure};
use space_traders_cli::grammar::usage_lines;
use space_traders_cli::repl::{interpret_line, interpret_words, step, Effect, LineAction, ShellEvent, ShellState};

#[test]
fn exit_terminates_and_saves_history() {
    let action = interpret_line("exit");
    assert!(matches!(action, LineAction::Exit));
    let (next, effect) = step(ShellState::Reading, ShellEvent::Line(action));
    assert_eq!(next, ShellState::Terminated);
    assert!(matches!(effect, Effect::SaveHistory));
}

#[test]
fn exit_with_trailing_words_still_exits() {
    assert!(matches!(interpret_line("exit now"), LineAction::Exit));
}

#[test]
fn empty_line_dispatches_nothing() {
    for line in ["", "   ", "\t", "# only a comment"] {
        let action = interpret_line(line);
        assert!(matches!(action, LineAction::Empty), "line {:?}", line);
        let (next, effect) = step(ShellState::Reading, ShellEvent::Line(action));
        assert_eq!(next, ShellState::Idle);
        assert!(matches!(effect, Effect::Nothing));
    }
}

#[test]
fn help_shows_the_overview() {
    let action = interpret_line("help");
    assert!(matches!(action, LineAction::Help));
    let (next, effect) = step(ShellState::Reading, ShellEvent::Line(action));
    assert_eq!(next, ShellState::Idle);
    assert!(matches!(effect, Effect::ShowHelp));
    let lines = usage_lines();
    assert_eq!(lines[0], "Available commands:");
    assert_eq!(lines[1], "  account register --callsign <CALLSIGN> --faction <FACTION>");
    assert_eq!(lines[2], "  agent list-agents");
    assert_eq!(
        lines[7],
        "  system list-waypoints --system <SYSTEM> [--type <TYPE>] [--trait <TRAIT>]"
    );
    assert_eq!(lines.len(), 10);
}

#[test]
fn a_command_line_is_dispatched_then_idle() {
    let action = interpret_line("agent list-agents");
    let (next, effect) = step(ShellState::Reading, ShellEvent::Line(action));
    assert_eq!(next, ShellState::Dispatching);
    assert!(matches!(
        effect,
        Effect::Dispatch(Commands::Agent { command: AgentCommand::ListAgents })
    ));
    let (next, effect) = step(next, ShellEvent::Finished);
    assert_eq!(next, ShellState::Idle);
    assert!(matches!(effect, Effect::Nothing));
    let (next, _) = step(next, ShellEvent::Ready);
    assert_eq!(next, ShellState::Reading);
}

#[test]
fn bad_lines_are_reported_and_the_loop_goes_on() {
    let action = interpret_line("agent info \"unclosed");
    assert!(matches!(action, LineAction::Unbalanced));
    let (next, effect) = step(ShellState::Reading, ShellEvent::Line(action));
    assert_eq!(next, ShellState::Idle);
    assert!(matches!(effect, Effect::ShowUnbalanced));

    let action = interpret_line("fleet go");
    let (next, effect) = step(ShellState::Reading, ShellEvent::Line(action));
    assert_eq!(next, ShellState::Idle);
    match effect {
        Effect::ShowError { error, words } => {
            assert_eq!(error, ParseFailure::UnknownSubcommand { at: 0 });
            assert_eq!(words, vec!["fleet".to_string(), "go".to_string()]);
        }
        other => panic!("unexpected {:?}", other),
    }
}

#[test]
fn end_of_input_and_interrupt_save_history_failure_does_not() {
    let (next, effect) = step(ShellState::Reading, ShellEvent::EndOfInput);
    assert_eq!(next, ShellState::Terminated);
    assert!(matches!(effect, Effect::SaveHistory));
    let (next, effect) = step(ShellState::Reading, ShellEvent::Interrupted);
    assert_eq!(next, ShellState::Terminated);
    assert!(matches!(effect, Effect::SaveHistory));
    let (next, effect) = step(ShellState::Reading, ShellEvent::ReadFailed);
    assert_eq!(next, ShellState::Terminated);
    assert!(matches!(effect, Effect::Fail));
    let (next, effect) = step(ShellState::Terminated, ShellEvent::Ready);
    assert_eq!(next, ShellState::Terminated);
    assert!(matches!(effect, Effect::Nothing));
}

#[test]
fn words_are_interpreted_without_splitting() {
    assert!(matches!(interpret_words(vec![]), LineAction::Empty));
    assert!(matches!(interpret_words(vec!["help".to_string()]), LineAction::Help));
    assert!(matches!(
        interpret_words(vec!["agent".to_string()]),
        LineAction::Invalid { error: ParseFailure::MissingSubcommand { at: 1 }, .. }
    ));
}
