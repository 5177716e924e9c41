//! The interactive shell's decisions: how a typed line is read, and how the
//! shell moves between reading, dispatching and stopping.

use crate::command::{words, Commands, ParseFailure, ReplCli, parsed_as};
use crate::text::str_eq;
use vstd::prelude::*;

verus! {

#[verifier::external_type_specification]
#[verifier::external_body]
pub struct ExShellWordsError(shell_words::ParseError);

/// The words that shell quoting rules split a line into, or `None` when a
/// quote is left open. Depends on the line alone.
pub uninterp spec fn shell_split(line: Seq<char>) -> Option<Seq<Seq<char>>>;

/// Relies on shell_words::split: splits a line into words by shell quoting and
/// escaping rules, failing only on an unclosed quote; an empty line has no words.
#[verifier::external_body]
fn split_line(line: &str) -> (r: Result<Vec<String>, shell_words::ParseError>)
    ensures
        r is Ok ==> shell_split(line@) == Some(words(r->Ok_0@)),
        r is Err ==> shell_split(line@) is None,
        line@.len() == 0 ==> r is Ok && r->Ok_0@.len() == 0,
{
    shell_words::split(line)
}

/// What a typed line asks the shell to do.
#[derive(Debug)]
pub enum LineAction {
    /// No words: nothing to do.
    Empty,
    /// Leave the shell.
    Exit,
    /// Print the command overview.
    Help,
    /// Run a command.
    Run(Commands),
    /// The words are no command.
    Invalid { error: ParseFailure, words: Vec<String> },
    /// A quote is left open.
    Unbalanced,
}

/// `a` is what the words `t` ask for.
pub open spec fn acts_on(t: Seq<Seq<char>>, a: LineAction) -> bool {
    if t.len() == 0 {
        a is Empty
    } else if t[0] == "exit"@ {
        a is Exit
    } else if t[0] == "help"@ {
        a is Help
    } else {
        match a {
            LineAction::Run(c) => parsed_as(t, Ok(ReplCli { command: Some(c) })),
            LineAction::Invalid { error, words: w } => words(w@) == t && parsed_as(
                t,
                Err(error),
            ),
            _ => false,
        }
    }
}

/// Decides what a line's words ask for. `exit` and `help` as the first word
/// are the shell's own; anything else is parsed as a command.
pub fn interpret_words(tokens: Vec<String>) -> (r: LineAction)
    ensures
        acts_on(words(tokens@), r),
{
    let ghost t = words(tokens@);
    if tokens.len() == 0 {
        return LineAction::Empty;
    }
    if str_eq(tokens[0].as_str(), "exit") {
        return LineAction::Exit;
    }
    if str_eq(tokens[0].as_str(), "help") {
        return LineAction::Help;
    }
    match ReplCli::try_parse(&tokens) {
        Ok(cli) => match cli.command {
            Some(c) => LineAction::Run(c),
            None => LineAction::Empty,
        },
        Err(error) => LineAction::Invalid { error, words: tokens },
    }
}

/// Splits a typed line into words and decides what it asks for.
pub fn interpret_line(line: &str) -> (r: LineAction)
    ensures
        match shell_split(line@) {
            None => r is Unbalanced,
            Some(t) => acts_on(t, r),
        },
        line@.len() == 0 ==> r is Empty,
{
    match split_line(line) {
        Err(_) => LineAction::Unbalanced,
        Ok(v) => interpret_words(v),
    }
}

/// Where the shell's loop stands.
#[derive(Clone, Copy, Debug, PartialEq, Eq, Structural)]
pub enum ShellState {
    /// Waiting for a line.
    Reading,
    /// Running one command.
    Dispatching,
    /// Between lines.
    Idle,
    /// The loop is over.
    Terminated,
}

/// What happened while the shell was in some state.
#[derive(Debug)]
pub enum ShellEvent {
    /// A line was read and interpreted.
    Line(LineAction),
    /// The reader was interrupted.
    Interrupted,
    /// The input ended.
    EndOfInput,
    /// The reader failed.
    ReadFailed,
    /// The running command completed.
    Finished,
    /// The loop is ready to read the next line.
    Ready,
}

/// What the loop must do on a transition.
#[derive(Debug)]
pub enum Effect {
    Nothing,
    Dispatch(Commands),
    ShowHelp,
    ShowError { error: ParseFailure, words: Vec<String> },
    ShowUnbalanced,
    /// Write the history out; the loop ends.
    SaveHistory,
    /// The loop ends with the reader's failure, history unsaved.
    Fail,
}

/// The shell's transition function.
pub fn step(state: ShellState, event: ShellEvent) -> (r: (ShellState, Effect))
    ensures
        match (state, event) {
            (ShellState::Reading, ShellEvent::Line(LineAction::Empty)) => r.0 == ShellState::Idle
                && r.1 is Nothing,
            (ShellState::Reading, ShellEvent::Line(LineAction::Exit)) => r.0 == ShellState::Terminated
                && r.1 is SaveHistory,
            (ShellState::Reading, ShellEvent::Line(LineAction::Help)) => r.0 == ShellState::Idle
                && r.1 is ShowHelp,
            (ShellState::Reading, ShellEvent::Line(LineAction::Run(c))) => r.0
                == ShellState::Dispatching && r.1 == Effect::Dispatch(c),
            (ShellState::Reading, ShellEvent::Line(LineAction::Invalid { error, words })) => r.0
                == ShellState::Idle && r.1 == (Effect::ShowError { error, words }),
            (ShellState::Reading, ShellEvent::Line(LineAction::Unbalanced)) => r.0 == ShellState::Idle
                && r.1 is ShowUnbalanced,
            (ShellState::Reading, ShellEvent::Interrupted) => r.0 == ShellState::Terminated
                && r.1 is SaveHistory,
            (ShellState::Reading, ShellEvent::EndOfInput) => r.0 == ShellState::Terminated
                && r.1 is SaveHistory,
            (ShellState::Reading, ShellEvent::ReadFailed) => r.0 == ShellState::Terminated
                && r.1 is Fail,
            (ShellState::Dispatching, ShellEvent::Finished) => r.0 == ShellState::Idle
                && r.1 is Nothing,
            (ShellState::Idle, ShellEvent::Ready) => r.0 == ShellState::Reading && r.1 is Nothing,
            _ => r.0 == state && r.1 is Nothing,
        },
{
    match state {
        ShellState::Reading => match event {
            ShellEvent::Line(action) => match action {
                LineAction::Empty => (ShellState::Idle, Effect::Nothing),
                LineAction::Exit => (ShellState::Terminated, Effect::SaveHistory),
                LineAction::Help => (ShellState::Idle, Effect::ShowHelp),
                LineAction::Run(c) => (ShellState::Dispatching, Effect::Dispatch(c)),
                LineAction::Invalid { error, words } => (
                    ShellState::Idle,
                    Effect::ShowError { error, words },
                ),
                LineAction::Unbalanced => (ShellState::Idle, Effect::ShowUnbalanced),
            },
            ShellEvent::Interrupted | ShellEvent::EndOfInput => (
                ShellState::Terminated,
                Effect::SaveHistory,
            ),
            ShellEvent::ReadFailed => (ShellState::Terminated, Effect::Fail),
            _ => (state, Effect::Nothing),
        },
        ShellState::Dispatching => match event {
            ShellEvent::Finished => (ShellState::Idle, Effect::Nothing),
            _ => (state, Effect::Nothing),
        },
        ShellState::Idle => match event {
            ShellEvent::Ready => (ShellState::Reading, Effect::Nothing),
            _ => (state, Effect::Nothing),
        },
        ShellState::Terminated => (state, Effect::Nothing),
    }
}

} // verus!
