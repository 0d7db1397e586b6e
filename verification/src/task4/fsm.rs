//! The session that checks the parentheses of a line.

use crate::common::InvalidEnumValueError;
use crate::common::Res;
use crate::common::Step;
use crate::task4::parentheses::parentheses;
use crate::task4::parentheses::spec_balance;
use crate::task4::parentheses::surplus;
use crate::task4::parentheses::Balance;
use crate::text::same_text;
use crate::text::trim;
use crate::text::trimmed;
use vstd::prelude::*;

verus! {

#[derive(Debug, Clone, Copy, PartialEq, Eq)]
pub enum ParenthesesState {
    Start,
    AwaitingSting,
}

#[derive(Debug, Clone, Copy, PartialEq, Eq)]
pub enum ParenthesesCommands {
    EnterString,
    MainMenu,
    Exit,
}

impl ParenthesesCommands {
    /// The command that a keyword names.
    pub open spec fn spec_from_text(value: Seq<char>) -> Result<Self, InvalidEnumValueError> {
        if value == "string"@ {
            Ok(ParenthesesCommands::EnterString)
        } else if value == "main"@ {
            Ok(ParenthesesCommands::MainMenu)
        } else if value == "exit"@ {
            Ok(ParenthesesCommands::Exit)
        } else {
            Err(InvalidEnumValueError)
        }
    }

    pub fn from_text(value: &str) -> (command: Result<Self, InvalidEnumValueError>)
        ensures
            command == Self::spec_from_text(value@),
    {
        if same_text(value, "string") {
            Ok(ParenthesesCommands::EnterString)
        } else if same_text(value, "main") {
            Ok(ParenthesesCommands::MainMenu)
        } else if same_text(value, "exit") {
            Ok(ParenthesesCommands::Exit)
        } else {
            Err(InvalidEnumValueError)
        }
    }

    /// The line of the menu that describes the command.
    pub fn to_text(&self) -> (text: &'static str)
        ensures
            text@ == match self {
                ParenthesesCommands::EnterString => "'string' - Enter string"@,
                ParenthesesCommands::MainMenu => "'main' - Return to main menu"@,
                ParenthesesCommands::Exit => "'exit' - Exit program"@,
            },
    {
        match self {
            ParenthesesCommands::EnterString => "'string' - Enter string",
            ParenthesesCommands::MainMenu => "'main' - Return to main menu",
            ParenthesesCommands::Exit => "'exit' - Exit program",
        }
    }
}

/// What the parentheses session has to say after a line.
#[derive(Debug, Clone, Copy, PartialEq, Eq)]
pub enum ParenthesesNotice {
    /// Nothing to say.
    Nothing,
    /// The balance of the line that was checked.
    Checked(Balance),
    /// The command is not offered in this state, or the line names none.
    InvalidCommand,
}

/// A session after one line: its state and its answer.
pub struct ParenthesesOutcome {
    pub state: ParenthesesState,
    pub step: Step<(), ParenthesesNotice>,
}

/// The session that, once asked to, checks every line it gets.
pub struct CheckParenthesesStateMachine {
    state: ParenthesesState,
}

impl CheckParenthesesStateMachine {
    pub closed spec fn state(&self) -> ParenthesesState {
        self.state
    }

    /// The answer of the session to a line that is already trimmed.
    pub open spec fn spec_step(state: ParenthesesState, line: Seq<char>) -> ParenthesesOutcome {
        let command = ParenthesesCommands::spec_from_text(line);
        let reply = |state: ParenthesesState, signal: Res<()>, notice: ParenthesesNotice|
            ParenthesesOutcome { state, step: Step { signal, notice } };
        if command == Ok::<ParenthesesCommands, InvalidEnumValueError>(
            ParenthesesCommands::MainMenu,
        ) {
            reply(state, Res::MainMenu, ParenthesesNotice::Nothing)
        } else if command == Ok::<ParenthesesCommands, InvalidEnumValueError>(
            ParenthesesCommands::Exit,
        ) {
            reply(state, Res::Exit, ParenthesesNotice::Nothing)
        } else {
            match state {
                ParenthesesState::Start => if command == Ok::<
                    ParenthesesCommands,
                    InvalidEnumValueError,
                >(ParenthesesCommands::EnterString) {
                    reply(ParenthesesState::AwaitingSting, Res::Repeat, ParenthesesNotice::Nothing)
                } else {
                    reply(state, Res::Repeat, ParenthesesNotice::InvalidCommand)
                },
                ParenthesesState::AwaitingSting => reply(
                    state,
                    Res::Repeat,
                    ParenthesesNotice::Checked(spec_balance(surplus(line))),
                ),
            }
        }
    }

    pub fn new() -> (machine: Self)
        ensures
            machine.state() == ParenthesesState::Start,
    {
        CheckParenthesesStateMachine { state: ParenthesesState::Start }
    }

    pub fn current_state(&self) -> (state: ParenthesesState)
        ensures
            state == self.state(),
    {
        self.state
    }

    /// The commands that the prompt of the current state offers.
    pub fn menu(&self) -> (offered: Vec<ParenthesesCommands>)
        ensures
            offered@ == match self.state() {
                ParenthesesState::Start => seq![
                    ParenthesesCommands::EnterString,
                    ParenthesesCommands::MainMenu,
                    ParenthesesCommands::Exit,
                ],
                ParenthesesState::AwaitingSting => seq![
                    ParenthesesCommands::MainMenu,
                    ParenthesesCommands::Exit,
                ],
            },
    {
        match self.state {
            ParenthesesState::Start => vec![
                ParenthesesCommands::EnterString,
                ParenthesesCommands::MainMenu,
                ParenthesesCommands::Exit,
            ],
            ParenthesesState::AwaitingSting => vec![
                ParenthesesCommands::MainMenu,
                ParenthesesCommands::Exit,
            ],
        }
    }

    /// Answers one line as it was read.
    pub fn handle_input(&mut self, input: &str) -> (step: Step<(), ParenthesesNotice>)
        ensures
            (ParenthesesOutcome { state: final(self).state(), step }) == Self::spec_step(
                old(self).state(),
                trimmed(input@),
            ),
    {
        self.handle_line(trim(input))
    }

    /// Answers one line that is already trimmed.
    pub fn handle_line(&mut self, line: &str) -> (step: Step<(), ParenthesesNotice>)
        ensures
            (ParenthesesOutcome { state: final(self).state(), step }) == Self::spec_step(
                old(self).state(),
                line@,
            ),
    {
        let command = self.parse_command(line);
        match command {
            Some(ParenthesesCommands::MainMenu) => {
                return Step { signal: Res::MainMenu, notice: ParenthesesNotice::Nothing };
            },
            Some(ParenthesesCommands::Exit) => {
                return Step { signal: Res::Exit, notice: ParenthesesNotice::Nothing };
            },
            _ => {},
        }
        match self.state {
            ParenthesesState::Start => match command {
                Some(ParenthesesCommands::EnterString) => {
                    self.state = ParenthesesState::AwaitingSting;
                    Step { signal: Res::Repeat, notice: ParenthesesNotice::Nothing }
                },
                _ => Step { signal: Res::Repeat, notice: ParenthesesNotice::InvalidCommand },
            },
            ParenthesesState::AwaitingSting => self.handle_string(line),
        }
    }

    fn handle_string(&mut self, line: &str) -> (step: Step<(), ParenthesesNotice>)
        ensures
            final(self).state() == old(self).state(),
            step == (Step {
                signal: Res::<()>::Repeat,
                notice: ParenthesesNotice::Checked(spec_balance(surplus(line@))),
            }),
    {
        Step { signal: Res::Repeat, notice: ParenthesesNotice::Checked(parentheses(line)) }
    }

    fn parse_command(&self, line: &str) -> (command: Option<ParenthesesCommands>)
        ensures
            command == match ParenthesesCommands::spec_from_text(line@) {
                Ok(c) => Some(c),
                Err(_) => None,
            },
    {
        match ParenthesesCommands::from_text(line) {
            Ok(command) => Some(command),
            Err(_) => None,
        }
    }
}

} // verus!
