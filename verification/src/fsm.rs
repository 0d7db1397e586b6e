//! The main menu, which leads to the five sessions.

use crate::common::InvalidEnumValueError;
use crate::common::Res;
use crate::common::Step;
use crate::text::parse_usize;
use crate::text::same_text;
use crate::text::spec_parse_usize;
use crate::text::trim;
use crate::text::trimmed;
use vstd::prelude::*;

verus! {

#[derive(Debug, Clone, Copy, PartialEq, Eq)]
pub enum MainState {
    AwaitingTaskNumber,
}

#[derive(Debug, Clone, Copy, PartialEq, Eq)]
pub enum MainCommands {
    Exit,
}

impl MainCommands {
    /// The command that a keyword names.
    pub open spec fn spec_from_text(value: Seq<char>) -> Result<Self, InvalidEnumValueError> {
        if value == "exit"@ {
            Ok(MainCommands::Exit)
        } else {
            Err(InvalidEnumValueError)
        }
    }

    pub fn from_text(value: &str) -> (command: Result<Self, InvalidEnumValueError>)
        ensures
            command == Self::spec_from_text(value@),
    {
        if same_text(value, "exit") {
            Ok(MainCommands::Exit)
        } else {
            Err(InvalidEnumValueError)
        }
    }

    /// The line of the menu that describes the command.
    pub fn to_text(&self) -> (text: &'static str)
        ensures
            text@ == "'exit' - Exit program"@,
    {
        match self {
            MainCommands::Exit => "'exit' - Exit program",
        }
    }
}

/// What the main menu asks of the loop that drives it.
#[derive(Debug, Clone, Copy, PartialEq, Eq)]
pub enum MainNotice {
    /// Run the sorting session.
    RunSort,
    /// Run the menu of the search sessions.
    RunSearch,
    /// Run the substring session.
    RunSubstring,
    /// Run the parentheses session.
    RunParentheses,
    /// Run the drawing session.
    RunKoch,
    /// The line is no number from 1 to 5.
    InvalidTask,
}

/// The menu at the top.
pub struct MainStateMachine {
    state: MainState,
}

impl MainStateMachine {
    pub closed spec fn state(&self) -> MainState {
        self.state
    }

    /// What the menu asks for on a line that is already trimmed: the
    /// session of the number that the line holds. Every line is read as a
    /// number, the keyword of the one command too.
    pub open spec fn spec_step(line: Seq<char>) -> Step<(), MainNotice> {
        Step {
            signal: Res::Repeat,
            notice: match spec_parse_usize(line) {
                Some(1) => MainNotice::RunSort,
                Some(2) => MainNotice::RunSearch,
                Some(3) => MainNotice::RunSubstring,
                Some(4) => MainNotice::RunParentheses,
                Some(5) => MainNotice::RunKoch,
                _ => MainNotice::InvalidTask,
            },
        }
    }

    /// Whether the menu goes on after a signal: it reads on after its own
    /// answer and shows itself again when a session asked for the main menu.
    pub open spec fn spec_keeps_running(signal: Res<()>) -> bool {
        signal is Repeat || signal is MainMenu
    }

    pub fn new() -> (machine: Self)
        ensures
            machine.state() == MainState::AwaitingTaskNumber,
    {
        MainStateMachine { state: MainState::AwaitingTaskNumber }
    }

    /// The commands that the menu names.
    pub fn menu(&self) -> (offered: Vec<MainCommands>)
        ensures
            offered@ == seq![MainCommands::Exit],
    {
        vec![MainCommands::Exit]
    }

    /// Answers one line as it was read.
    pub fn handle_input(&mut self, input: &str) -> (step: Step<(), MainNotice>)
        ensures
            step == Self::spec_step(trimmed(input@)),
            final(self).state() == old(self).state(),
    {
        self.handle_line(trim(input))
    }

    /// Answers one line that is already trimmed.
    pub fn handle_line(&mut self, line: &str) -> (step: Step<(), MainNotice>)
        ensures
            step == Self::spec_step(line@),
            final(self).state() == old(self).state(),
    {
        match (&self.state, self.parse_command(line)) {
            (MainState::AwaitingTaskNumber, _) => self.parse_task_number(line),
        }
    }

    /// The signal of the menu once a session that it launched has ended:
    /// the session's own.
    pub fn handle_session_end(&mut self, outcome: Res<()>) -> (signal: Res<()>)
        ensures
            signal == outcome,
            final(self).state() == old(self).state(),
    {
        outcome
    }

    /// Whether the menu goes on after a signal.
    pub fn keeps_running(&self, signal: &Res<()>) -> (goes_on: bool)
        ensures
            goes_on == Self::spec_keeps_running(*signal),
    {
        match signal {
            Res::Repeat => true,
            Res::MainMenu => true,
            _ => false,
        }
    }

    fn parse_task_number(&self, line: &str) -> (step: Step<(), MainNotice>)
        ensures
            step == Self::spec_step(line@),
    {
        let notice = match parse_usize(line) {
            Some(number) => match number {
                1 => MainNotice::RunSort,
                2 => MainNotice::RunSearch,
                3 => MainNotice::RunSubstring,
                4 => MainNotice::RunParentheses,
                5 => MainNotice::RunKoch,
                _ => MainNotice::InvalidTask,
            },
            None => MainNotice::InvalidTask,
        };
        Step { signal: Res::Repeat, notice }
    }

    fn parse_command(&self, line: &str) -> (command: Option<MainCommands>)
        ensures
            command == match MainCommands::spec_from_text(line@) {
                Ok(c) => Some(c),
                Err(_) => None,
            },
    {
        match MainCommands::from_text(line) {
            Ok(command) => Some(command),
            Err(_) => None,
        }
    }
}

/// A session that ends with the signal for the main menu brings the menu
/// back, and one that ends with the signal to leave ends the menu too.
pub proof fn lemma_menu_resumes()
    ensures
        MainStateMachine::spec_keeps_running(Res::MainMenu),
        !MainStateMachine::spec_keeps_running(Res::Exit),
{
}

} // verus!
