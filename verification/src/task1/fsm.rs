//! The session that generates a sequence and has it sorted over and over.

use crate::common::InvalidEnumValueError;
use crate::common::Res;
use crate::common::Step;
use crate::text::same_text;
use crate::text::trim;
use crate::text::trimmed;
use vstd::prelude::*;

verus! {

#[derive(Debug, Clone, Copy, PartialEq, Eq)]
pub enum SortState {
    Start,
    /// The sequence generator is at work.
    AwaitingArray,
    ReadyToWork,
}

#[derive(Debug, Clone, Copy, PartialEq, Eq)]
pub enum SortCommands {
    Generate,
    Sort,
    Stat,
    MainMenu,
    Exit,
}

impl SortCommands {
    /// The command that a keyword names.
    pub open spec fn spec_from_str(value: Seq<char>) -> Result<Self, InvalidEnumValueError> {
        if value == "generate"@ {
            Ok(SortCommands::Generate)
        } else if value == "sort"@ {
            Ok(SortCommands::Sort)
        } else if value == "stat"@ {
            Ok(SortCommands::Stat)
        } else if value == "main"@ {
            Ok(SortCommands::MainMenu)
        } else if value == "exit"@ {
            Ok(SortCommands::Exit)
        } else {
            Err(InvalidEnumValueError)
        }
    }

    pub fn from_str(value: &str) -> (command: Result<Self, InvalidEnumValueError>)
        ensures
            command == Self::spec_from_str(value@),
    {
        if same_text(value, "generate") {
            Ok(SortCommands::Generate)
        } else if same_text(value, "sort") {
            Ok(SortCommands::Sort)
        } else if same_text(value, "stat") {
            Ok(SortCommands::Stat)
        } else if same_text(value, "main") {
            Ok(SortCommands::MainMenu)
        } else if same_text(value, "exit") {
            Ok(SortCommands::Exit)
        } else {
            Err(InvalidEnumValueError)
        }
    }

    /// The line of the menu that describes the command.
    pub fn to_text(&self) -> (text: &'static str)
        ensures
            text@ == match self {
                SortCommands::Generate => "'generate' - Generate array"@,
                SortCommands::Sort => "'sort' - Sort array"@,
                SortCommands::Stat => "'stat' - Print statistics"@,
                SortCommands::MainMenu => "'main' - Return to main menu"@,
                SortCommands::Exit => "'exit' - Exit program"@,
            },
    {
        match self {
            SortCommands::Generate => "'generate' - Generate array",
            SortCommands::Sort => "'sort' - Sort array",
            SortCommands::Stat => "'stat' - Print statistics",
            SortCommands::MainMenu => "'main' - Return to main menu",
            SortCommands::Exit => "'exit' - Exit program",
        }
    }
}

/// What the sorting session has to say after a line.
#[derive(Debug, Clone, Copy, PartialEq, Eq)]
pub enum SortNotice {
    /// Nothing to say.
    Nothing,
    /// Run the sequence generator and hand its outcome to `handle_generate`.
    StartGeneration,
    /// A command came that needs a sequence, and there is none yet.
    CreateFirst,
    /// Sort copies of the sequence, take the times and call `record_run`.
    RunSorts,
    /// Show the average times of the runs so far.
    ShowStats,
    /// The command is not offered in this state, or the line names none.
    InvalidCommand,
}

/// A session after one line: its state and its answer.
pub struct SortOutcome {
    pub state: SortState,
    pub step: Step<(), SortNotice>,
}

/// The session that holds a generated sequence and counts how often it was
/// sorted.
pub struct SortStateMachine {
    state: SortState,
    vec: Vec<i32>,
    iter_number: usize,
}

impl SortStateMachine {
    pub closed spec fn state(&self) -> SortState {
        self.state
    }

    /// The sequence that the session owns.
    pub closed spec fn items(&self) -> Seq<i32> {
        self.vec@
    }

    /// The number of runs that were recorded.
    pub closed spec fn iterations(&self) -> nat {
        self.iter_number as nat
    }

    /// The answer of the session to a line that is already trimmed.
    pub open spec fn spec_step(state: SortState, line: Seq<char>) -> SortOutcome {
        let reply = |state: SortState, signal: Res<()>, notice: SortNotice|
            SortOutcome { state, step: Step { signal, notice } };
        match (state, SortCommands::spec_from_str(line)) {
            (_, Ok(SortCommands::MainMenu)) => reply(state, Res::MainMenu, SortNotice::Nothing),
            (_, Ok(SortCommands::Exit)) => reply(state, Res::Exit, SortNotice::Nothing),
            (SortState::Start, Ok(SortCommands::Generate)) => reply(
                SortState::AwaitingArray,
                Res::Repeat,
                SortNotice::StartGeneration,
            ),
            (SortState::Start, Ok(SortCommands::Sort)) | (
                SortState::Start,
                Ok(SortCommands::Stat),
            ) => reply(state, Res::Repeat, SortNotice::CreateFirst),
            (SortState::ReadyToWork, Ok(SortCommands::Sort)) => reply(
                state,
                Res::Repeat,
                SortNotice::RunSorts,
            ),
            (SortState::ReadyToWork, Ok(SortCommands::Stat)) => reply(
                state,
                Res::Repeat,
                SortNotice::ShowStats,
            ),
            _ => reply(state, Res::Repeat, SortNotice::InvalidCommand),
        }
    }

    pub fn new() -> (machine: Self)
        ensures
            machine.state() == SortState::Start,
            machine.items() == Seq::<i32>::empty(),
            machine.iterations() == 0,
    {
        SortStateMachine { state: SortState::Start, vec: Vec::new(), iter_number: 0 }
    }

    pub fn current_state(&self) -> (state: SortState)
        ensures
            state == self.state(),
    {
        self.state
    }

    /// The sequence, for sorting copies of it.
    pub fn values(&self) -> (values: &Vec<i32>)
        ensures
            values@ == self.items(),
    {
        &self.vec
    }

    /// The number of runs that were recorded.
    pub fn iteration(&self) -> (count: usize)
        ensures
            count == self.iterations(),
    {
        self.iter_number
    }

    /// The commands that the prompt of the current state offers; none while
    /// the generator is at work.
    pub fn menu(&self) -> (offered: Vec<SortCommands>)
        ensures
            offered@ == match self.state() {
                SortState::Start => seq![
                    SortCommands::Generate,
                    SortCommands::MainMenu,
                    SortCommands::Exit,
                ],
                SortState::ReadyToWork => seq![
                    SortCommands::Sort,
                    SortCommands::Stat,
                    SortCommands::MainMenu,
                    SortCommands::Exit,
                ],
                SortState::AwaitingArray => Seq::<SortCommands>::empty(),
            },
    {
        match self.state {
            SortState::Start => vec![
                SortCommands::Generate,
                SortCommands::MainMenu,
                SortCommands::Exit,
            ],
            SortState::ReadyToWork => vec![
                SortCommands::Sort,
                SortCommands::Stat,
                SortCommands::MainMenu,
                SortCommands::Exit,
            ],
            SortState::AwaitingArray => Vec::new(),
        }
    }

    /// Answers one line as it was read.
    pub fn handle_input(&mut self, input: &str) -> (step: Step<(), SortNotice>)
        ensures
            (SortOutcome { state: final(self).state(), step }) == Self::spec_step(
                old(self).state(),
                trimmed(input@),
            ),
            final(self).items() == old(self).items(),
            final(self).iterations() == old(self).iterations(),
    {
        self.handle_line(trim(input))
    }

    /// Answers one line that is already trimmed.
    pub fn handle_line(&mut self, line: &str) -> (step: Step<(), SortNotice>)
        ensures
            (SortOutcome { state: final(self).state(), step }) == Self::spec_step(
                old(self).state(),
                line@,
            ),
            final(self).items() == old(self).items(),
            final(self).iterations() == old(self).iterations(),
    {
        let command = self.parse_command(line);
        match command {
            Some(SortCommands::MainMenu) => {
                return Step { signal: Res::MainMenu, notice: SortNotice::Nothing };
            },
            Some(SortCommands::Exit) => {
                return Step { signal: Res::Exit, notice: SortNotice::Nothing };
            },
            _ => {},
        }
        let notice = match self.state {
            SortState::Start => match command {
                Some(SortCommands::Generate) => {
                    self.state = SortState::AwaitingArray;
                    SortNotice::StartGeneration
                },
                Some(SortCommands::Sort) | Some(SortCommands::Stat) => SortNotice::CreateFirst,
                _ => SortNotice::InvalidCommand,
            },
            SortState::ReadyToWork => match command {
                Some(SortCommands::Sort) => SortNotice::RunSorts,
                Some(SortCommands::Stat) => SortNotice::ShowStats,
                _ => SortNotice::InvalidCommand,
            },
            SortState::AwaitingArray => SortNotice::InvalidCommand,
        };
        Step { signal: Res::Repeat, notice }
    }

    /// Takes what the sequence generator ended with. A generated sequence
    /// becomes the session's own, as it is; any other signal of the
    /// generator passes through unchanged.
    pub fn handle_generate(&mut self, outcome: Res<Vec<i32>>) -> (signal: Res<()>)
        ensures
            final(self).iterations() == old(self).iterations(),
            match outcome {
                Res::Result(generated) => {
                    &&& signal is Repeat
                    &&& final(self).state() == SortState::ReadyToWork
                    &&& final(self).items() == generated@
                },
                Res::MainMenu => signal is MainMenu && *final(self) == *old(self),
                Res::Back => signal is Back && *final(self) == *old(self),
                Res::Exit => signal is Exit && *final(self) == *old(self),
                Res::Repeat => signal is Repeat && *final(self) == *old(self),
            },
    {
        match outcome {
            Res::Result(vec) => {
                self.vec = vec;
                self.state = SortState::ReadyToWork;
                Res::Repeat
            },
            Res::MainMenu => Res::MainMenu,
            Res::Back => Res::Back,
            Res::Exit => Res::Exit,
            Res::Repeat => Res::Repeat,
        }
    }

    /// Counts one more run of the sorts.
    pub fn record_run(&mut self)
        requires
            old(self).iterations() < usize::MAX,
        ensures
            final(self).iterations() == old(self).iterations() + 1,
            final(self).state() == old(self).state(),
            final(self).items() == old(self).items(),
    {
        self.iter_number += 1;
    }

    fn parse_command(&self, line: &str) -> (command: Option<SortCommands>)
        ensures
            command == match SortCommands::spec_from_str(line@) {
                Ok(c) => Some(c),
                Err(_) => None,
            },
    {
        match SortCommands::from_str(line) {
            Ok(command) => Some(command),
            Err(_) => None,
        }
    }
}

} // verus!
