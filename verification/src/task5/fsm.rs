//! The session that reads the depth of the curve to draw.

use crate::common::InvalidEnumValueError;
use crate::common::Res;
use crate::common::Step;
use crate::text::parse_usize;
use crate::text::same_text;
use crate::text::spec_parse_usize;
use crate::text::trim;
use crate::text::trimmed;
use vstd::prelude::*;

verus! {

#[derive(Debug, Clone, Copy, PartialEq, Eq)]
pub enum FractalDrawerState {
    Start,
    AwaitingDepth,
}

#[derive(Debug, Clone, Copy, PartialEq, Eq)]
pub enum DrawerCommands {
    EnterDepth,
    MainMenu,
    Exit,
}

impl DrawerCommands {
    /// The command that a keyword names.
    pub open spec fn spec_from_text(value: Seq<char>) -> Result<Self, InvalidEnumValueError> {
        if value == "depth"@ {
            Ok(DrawerCommands::EnterDepth)
        } else if value == "main"@ {
            Ok(DrawerCommands::MainMenu)
        } else if value == "exit"@ {
            Ok(DrawerCommands::Exit)
        } else {
            Err(InvalidEnumValueError)
        }
    }

    pub fn from_text(value: &str) -> (command: Result<Self, InvalidEnumValueError>)
        ensures
            command == Self::spec_from_text(value@),
    {
        if same_text(value, "depth") {
            Ok(DrawerCommands::EnterDepth)
        } else if same_text(value, "main") {
            Ok(DrawerCommands::MainMenu)
        } else if same_text(value, "exit") {
            Ok(DrawerCommands::Exit)
        } else {
            Err(InvalidEnumValueError)
        }
    }

    /// The line of the menu that describes the command.
    pub fn to_text(&self) -> (text: &'static str)
        ensures
            text@ == match self {
                DrawerCommands::EnterDepth => "'depth' - Enter fractal depth"@,
                DrawerCommands::MainMenu => "'main' - Return to main menu"@,
                DrawerCommands::Exit => "'exit' - Exit program"@,
            },
    {
        match self {
            DrawerCommands::EnterDepth => "'depth' - Enter fractal depth",
            DrawerCommands::MainMenu => "'main' - Return to main menu",
            DrawerCommands::Exit => "'exit' - Exit program",
        }
    }
}

/// What the drawing session has to say after a line.
#[derive(Debug, Clone, Copy, PartialEq, Eq)]
pub enum DrawerNotice {
    /// Nothing to say.
    Nothing,
    /// Draw the curve of this depth.
    Draw { depth: usize },
    /// The line is no depth.
    InvalidDepth,
    /// The command is not offered in this state, or the line names none.
    InvalidCommand,
}

/// A session after one line: its state and its answer.
pub struct DrawerOutcome {
    pub state: FractalDrawerState,
    pub step: Step<(), DrawerNotice>,
}

/// The session that, once asked to, takes every line as a depth.
pub struct KochCurveDrawerStateMachine {
    state: FractalDrawerState,
}

impl KochCurveDrawerStateMachine {
    pub closed spec fn state(&self) -> FractalDrawerState {
        self.state
    }

    /// The answer of the session to a line that is already trimmed.
    pub open spec fn spec_step(state: FractalDrawerState, line: Seq<char>) -> DrawerOutcome {
        let command = DrawerCommands::spec_from_text(line);
        let reply = |state: FractalDrawerState, signal: Res<()>, notice: DrawerNotice|
            DrawerOutcome { state, step: Step { signal, notice } };
        if command == Ok::<DrawerCommands, InvalidEnumValueError>(DrawerCommands::MainMenu) {
            reply(state, Res::MainMenu, DrawerNotice::Nothing)
        } else if command == Ok::<DrawerCommands, InvalidEnumValueError>(DrawerCommands::Exit) {
            reply(state, Res::Exit, DrawerNotice::Nothing)
        } else {
            match state {
                FractalDrawerState::Start => if command == Ok::<
                    DrawerCommands,
                    InvalidEnumValueError,
                >(DrawerCommands::EnterDepth) {
                    reply(FractalDrawerState::AwaitingDepth, Res::Repeat, DrawerNotice::Nothing)
                } else {
                    reply(state, Res::Repeat, DrawerNotice::InvalidCommand)
                },
                FractalDrawerState::AwaitingDepth => match spec_parse_usize(line) {
                    Some(depth) => reply(state, Res::Repeat, DrawerNotice::Draw { depth }),
                    None => reply(state, Res::Repeat, DrawerNotice::InvalidDepth),
                },
            }
        }
    }

    pub fn new() -> (machine: Self)
        ensures
            machine.state() == FractalDrawerState::Start,
    {
        KochCurveDrawerStateMachine { state: FractalDrawerState::Start }
    }

    pub fn current_state(&self) -> (state: FractalDrawerState)
        ensures
            state == self.state(),
    {
        self.state
    }

    /// The commands that the prompt of the current state offers.
    pub fn menu(&self) -> (offered: Vec<DrawerCommands>)
        ensures
            offered@ == match self.state() {
                FractalDrawerState::Start => seq![
                    DrawerCommands::EnterDepth,
                    DrawerCommands::MainMenu,
                    DrawerCommands::Exit,
                ],
                FractalDrawerState::AwaitingDepth => seq![
                    DrawerCommands::MainMenu,
                    DrawerCommands::Exit,
                ],
            },
    {
        match self.state {
            FractalDrawerState::Start => vec![
                DrawerCommands::EnterDepth,
                DrawerCommands::MainMenu,
                DrawerCommands::Exit,
            ],
            FractalDrawerState::AwaitingDepth => vec![DrawerCommands::MainMenu, DrawerCommands::Exit],
        }
    }

    /// Answers one line as it was read.
    pub fn handle_input(&mut self, input: &str) -> (step: Step<(), DrawerNotice>)
        ensures
            (DrawerOutcome { state: final(self).state(), step }) == Self::spec_step(
                old(self).state(),
                trimmed(input@),
            ),
    {
        self.handle_line(trim(input))
    }

    /// Answers one line that is already trimmed.
    pub fn handle_line(&mut self, line: &str) -> (step: Step<(), DrawerNotice>)
        ensures
            (DrawerOutcome { state: final(self).state(), step }) == Self::spec_step(
                old(self).state(),
                line@,
            ),
    {
        let command = self.parse_command(line);
        match command {
            Some(DrawerCommands::MainMenu) => {
                return Step { signal: Res::MainMenu, notice: DrawerNotice::Nothing };
            },
            Some(DrawerCommands::Exit) => {
                return Step { signal: Res::Exit, notice: DrawerNotice::Nothing };
            },
            _ => {},
        }
        match self.state {
            FractalDrawerState::Start => match command {
                Some(DrawerCommands::EnterDepth) => {
                    self.state = FractalDrawerState::AwaitingDepth;
                    Step { signal: Res::Repeat, notice: DrawerNotice::Nothing }
                },
                _ => Step { signal: Res::Repeat, notice: DrawerNotice::InvalidCommand },
            },
            FractalDrawerState::AwaitingDepth => self.draw(line),
        }
    }

    /// Takes the line as the depth of the curve to draw.
    fn draw(&mut self, line: &str) -> (step: Step<(), DrawerNotice>)
        ensures
            final(self).state() == old(self).state(),
            step == (Step {
                signal: Res::<()>::Repeat,
                notice: match spec_parse_usize(line@) {
                    Some(depth) => DrawerNotice::Draw { depth },
                    None => DrawerNotice::InvalidDepth,
                },
            }),
    {
        let notice = match self.parse_depth(line) {
            Some(depth) => DrawerNotice::Draw { depth },
            None => DrawerNotice::InvalidDepth,
        };
        Step { signal: Res::Repeat, notice }
    }

    fn parse_depth(&self, line: &str) -> (depth: Option<usize>)
        ensures
            depth == spec_parse_usize(line@),
    {
        parse_usize(line)
    }

    fn parse_command(&self, line: &str) -> (command: Option<DrawerCommands>)
        ensures
            command == match DrawerCommands::spec_from_text(line@) {
                Ok(c) => Some(c),
                Err(_) => None,
            },
    {
        match DrawerCommands::from_text(line) {
            Ok(command) => Some(command),
            Err(_) => None,
        }
    }
}

} // verus!
