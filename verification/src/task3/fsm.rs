//! The session that takes a text and a pattern and searches one in the other.

use crate::common::InvalidEnumValueError;
use crate::common::Res;
use crate::common::Step;
use crate::task3::substr_search::folded;
use crate::task3::substr_search::positions;
use crate::task3::substr_search::scan_from;
use crate::task3::substr_search::search_if_searchable;
use crate::task3::substr_search::searchable;
use crate::text::same_text;
use crate::text::trim;
use crate::text::trimmed;
use vstd::prelude::*;

verus! {

#[derive(Debug, Clone, Copy, PartialEq, Eq)]
pub enum FinderState {
    Start,
    AwaitingSting,
    AwaitingPattern,
    AwaitingCommand,
}

#[derive(Debug, Clone, Copy, PartialEq, Eq)]
pub enum FinderCommands {
    EnterString,
    EnterPattern,
    Search,
    SearchCaseInsensitive,
    MainMenu,
    Exit,
}

impl FinderCommands {
    /// The command that a keyword names.
    pub open spec fn spec_from_text(value: Seq<char>) -> Result<Self, InvalidEnumValueError> {
        if value == "string"@ {
            Ok(FinderCommands::EnterString)
        } else if value == "pattern"@ {
            Ok(FinderCommands::EnterPattern)
        } else if value == "search"@ {
            Ok(FinderCommands::Search)
        } else if value == "searchi"@ {
            Ok(FinderCommands::SearchCaseInsensitive)
        } else if value == "main"@ {
            Ok(FinderCommands::MainMenu)
        } else if value == "exit"@ {
            Ok(FinderCommands::Exit)
        } else {
            Err(InvalidEnumValueError)
        }
    }

    pub fn from_text(value: &str) -> (command: Result<Self, InvalidEnumValueError>)
        ensures
            command == Self::spec_from_text(value@),
    {
        if same_text(value, "string") {
            Ok(FinderCommands::EnterString)
        } else if same_text(value, "pattern") {
            Ok(FinderCommands::EnterPattern)
        } else if same_text(value, "search") {
            Ok(FinderCommands::Search)
        } else if same_text(value, "searchi") {
            Ok(FinderCommands::SearchCaseInsensitive)
        } else if same_text(value, "main") {
            Ok(FinderCommands::MainMenu)
        } else if same_text(value, "exit") {
            Ok(FinderCommands::Exit)
        } else {
            Err(InvalidEnumValueError)
        }
    }

    /// The line of the menu that describes the command.
    pub fn to_text(&self) -> (text: &'static str)
        ensures
            text@ == match self {
                FinderCommands::EnterString => "'string' - Enter string"@,
                FinderCommands::EnterPattern => "'pattern' - Enter pattern"@,
                FinderCommands::Search => "'search' - Search"@,
                FinderCommands::SearchCaseInsensitive => "'searchi' - Search case insensitive"@,
                FinderCommands::MainMenu => "'main' - Return to main menu"@,
                FinderCommands::Exit => "'exit' - Exit program"@,
            },
    {
        match self {
            FinderCommands::EnterString => "'string' - Enter string",
            FinderCommands::EnterPattern => "'pattern' - Enter pattern",
            FinderCommands::Search => "'search' - Search",
            FinderCommands::SearchCaseInsensitive => "'searchi' - Search case insensitive",
            FinderCommands::MainMenu => "'main' - Return to main menu",
            FinderCommands::Exit => "'exit' - Exit program",
        }
    }
}

/// What the substring session has to say after a line.
#[derive(Debug, Clone, Copy, PartialEq, Eq)]
pub enum FinderNotice {
    /// Nothing to say.
    Nothing,
    /// Search the text for the pattern, with `search`, and show what it finds.
    RunSearch { case_insensitive: bool },
    /// The command is not offered in this state, or the line names none.
    InvalidCommand,
}

/// A session after one line: its state, its text, its pattern and its answer.
pub struct FinderOutcome {
    pub state: FinderState,
    pub string: Seq<char>,
    pub pattern: Seq<char>,
    pub step: Step<(), FinderNotice>,
}

/// The session that reads a text, then a pattern, and then searches.
pub struct SimplifiedBoyerMoorStateMachine {
    state: FinderState,
    string: String,
    pattern: String,
}

impl SimplifiedBoyerMoorStateMachine {
    pub closed spec fn state(&self) -> FinderState {
        self.state
    }

    /// The text that is searched.
    pub closed spec fn string(&self) -> Seq<char> {
        self.string@
    }

    /// The pattern that is looked for.
    pub closed spec fn pattern(&self) -> Seq<char> {
        self.pattern@
    }

    /// What this session is after a step.
    pub open spec fn outcome(&self, step: Step<(), FinderNotice>) -> FinderOutcome {
        FinderOutcome { state: self.state(), string: self.string(), pattern: self.pattern(), step }
    }

    /// The answer of the session to a line that is already trimmed. A
    /// return to the main menu and an exit are taken in every state; the
    /// commands to enter a text or a pattern are taken wherever the line is
    /// not itself awaited as that text or pattern.
    pub open spec fn spec_step(
        state: FinderState,
        string: Seq<char>,
        pattern: Seq<char>,
        line: Seq<char>,
    ) -> FinderOutcome {
        let command = FinderCommands::spec_from_text(line);
        let quiet = |state: FinderState, signal: Res<()>|
            FinderOutcome {
                state,
                string,
                pattern,
                step: Step { signal, notice: FinderNotice::Nothing },
            };
        let tell = |notice: FinderNotice|
            FinderOutcome { state, string, pattern, step: Step { signal: Res::Repeat, notice } };
        if command == Ok::<FinderCommands, InvalidEnumValueError>(FinderCommands::MainMenu) {
            quiet(state, Res::MainMenu)
        } else if command == Ok::<FinderCommands, InvalidEnumValueError>(FinderCommands::Exit) {
            quiet(state, Res::Exit)
        } else if command == Ok::<FinderCommands, InvalidEnumValueError>(
            FinderCommands::EnterString,
        ) && state != FinderState::AwaitingSting {
            quiet(FinderState::AwaitingSting, Res::Repeat)
        } else if command == Ok::<FinderCommands, InvalidEnumValueError>(
            FinderCommands::EnterPattern,
        ) && state != FinderState::AwaitingPattern {
            quiet(FinderState::AwaitingPattern, Res::Repeat)
        } else {
            match state {
                FinderState::AwaitingSting => FinderOutcome {
                    string: line,
                    ..quiet(FinderState::AwaitingPattern, Res::Repeat)
                },
                FinderState::AwaitingPattern => FinderOutcome {
                    pattern: line,
                    ..quiet(FinderState::AwaitingCommand, Res::Repeat)
                },
                FinderState::AwaitingCommand => match command {
                    Ok(FinderCommands::Search) => tell(
                        FinderNotice::RunSearch { case_insensitive: false },
                    ),
                    Ok(FinderCommands::SearchCaseInsensitive) => tell(
                        FinderNotice::RunSearch { case_insensitive: true },
                    ),
                    _ => tell(FinderNotice::InvalidCommand),
                },
                FinderState::Start => tell(FinderNotice::InvalidCommand),
            }
        }
    }

    pub fn new() -> (machine: Self)
        ensures
            machine.state() == FinderState::Start,
            machine.string() == Seq::<char>::empty(),
            machine.pattern() == Seq::<char>::empty(),
    {
        SimplifiedBoyerMoorStateMachine {
            state: FinderState::Start,
            string: String::new(),
            pattern: String::new(),
        }
    }

    pub fn current_state(&self) -> (state: FinderState)
        ensures
            state == self.state(),
    {
        self.state
    }

    /// The text, for showing it.
    pub fn text(&self) -> (text: &str)
        ensures
            text@ == self.string(),
    {
        self.string.as_str()
    }

    /// The pattern, for showing it.
    pub fn template(&self) -> (text: &str)
        ensures
            text@ == self.pattern(),
    {
        self.pattern.as_str()
    }

    /// The commands that the prompt of the current state offers.
    pub fn menu(&self) -> (offered: Vec<FinderCommands>)
        ensures
            offered@ == match self.state() {
                FinderState::Start => seq![
                    FinderCommands::EnterString,
                    FinderCommands::MainMenu,
                    FinderCommands::Exit,
                ],
                FinderState::AwaitingSting => seq![FinderCommands::MainMenu, FinderCommands::Exit],
                FinderState::AwaitingPattern => seq![
                    FinderCommands::EnterString,
                    FinderCommands::MainMenu,
                    FinderCommands::Exit,
                ],
                FinderState::AwaitingCommand => seq![
                    FinderCommands::EnterString,
                    FinderCommands::EnterPattern,
                    FinderCommands::Search,
                    FinderCommands::SearchCaseInsensitive,
                    FinderCommands::MainMenu,
                    FinderCommands::Exit,
                ],
            },
    {
        match self.state {
            FinderState::Start => vec![
                FinderCommands::EnterString,
                FinderCommands::MainMenu,
                FinderCommands::Exit,
            ],
            FinderState::AwaitingSting => vec![FinderCommands::MainMenu, FinderCommands::Exit],
            FinderState::AwaitingPattern => vec![
                FinderCommands::EnterString,
                FinderCommands::MainMenu,
                FinderCommands::Exit,
            ],
            FinderState::AwaitingCommand => vec![
                FinderCommands::EnterString,
                FinderCommands::EnterPattern,
                FinderCommands::Search,
                FinderCommands::SearchCaseInsensitive,
                FinderCommands::MainMenu,
                FinderCommands::Exit,
            ],
        }
    }

    /// Answers one line as it was read.
    pub fn handle_input(&mut self, input: &str) -> (step: Step<(), FinderNotice>)
        ensures
            final(self).outcome(step) == Self::spec_step(
                old(self).state(),
                old(self).string(),
                old(self).pattern(),
                trimmed(input@),
            ),
    {
        self.handle_line(trim(input))
    }

    /// Answers one line that is already trimmed.
    pub fn handle_line(&mut self, line: &str) -> (step: Step<(), FinderNotice>)
        ensures
            final(self).outcome(step) == Self::spec_step(
                old(self).state(),
                old(self).string(),
                old(self).pattern(),
                line@,
            ),
    {
        let command = self.parse_command(line);
        match command {
            Some(FinderCommands::MainMenu) => {
                return Step { signal: Res::MainMenu, notice: FinderNotice::Nothing };
            },
            Some(FinderCommands::Exit) => {
                return Step { signal: Res::Exit, notice: FinderNotice::Nothing };
            },
            Some(FinderCommands::EnterString) => {
                if !matches!(self.state, FinderState::AwaitingSting) {
                    self.state = FinderState::AwaitingSting;
                    return Step { signal: Res::Repeat, notice: FinderNotice::Nothing };
                }
            },
            Some(FinderCommands::EnterPattern) => {
                if !matches!(self.state, FinderState::AwaitingPattern) {
                    self.state = FinderState::AwaitingPattern;
                    return Step { signal: Res::Repeat, notice: FinderNotice::Nothing };
                }
            },
            _ => {},
        }
        match self.state {
            FinderState::AwaitingSting => self.handle_string(line),
            FinderState::AwaitingPattern => self.handle_pattern(line),
            FinderState::AwaitingCommand => match command {
                Some(FinderCommands::Search) => Step {
                    signal: Res::Repeat,
                    notice: FinderNotice::RunSearch { case_insensitive: false },
                },
                Some(FinderCommands::SearchCaseInsensitive) => Step {
                    signal: Res::Repeat,
                    notice: FinderNotice::RunSearch { case_insensitive: true },
                },
                _ => Step { signal: Res::Repeat, notice: FinderNotice::InvalidCommand },
            },
            FinderState::Start => Step { signal: Res::Repeat, notice: FinderNotice::InvalidCommand },
        }
    }

    /// Searches the text for the pattern. There is nothing to report where
    /// the pattern, as it is compared, is empty or longer than the text.
    pub fn search(&self, case_insensitive: bool) -> (found: Option<Vec<usize>>)
        ensures
            found is Some == searchable(self.string(), self.pattern(), !case_insensitive),
            found matches Some(offsets) ==> positions(offsets@) == scan_from(
                folded(self.string(), !case_insensitive),
                folded(self.pattern(), !case_insensitive),
                0,
            ),
    {
        search_if_searchable(self.string.as_str(), self.pattern.as_str(), !case_insensitive)
    }

    fn handle_pattern(&mut self, line: &str) -> (step: Step<(), FinderNotice>)
        ensures
            final(self).state() == FinderState::AwaitingCommand,
            final(self).string() == old(self).string(),
            final(self).pattern() == line@,
            step == (Step { signal: Res::<()>::Repeat, notice: FinderNotice::Nothing }),
    {
        self.pattern = self.parse_string(line);
        self.state = FinderState::AwaitingCommand;
        Step { signal: Res::Repeat, notice: FinderNotice::Nothing }
    }

    fn handle_string(&mut self, line: &str) -> (step: Step<(), FinderNotice>)
        ensures
            final(self).state() == FinderState::AwaitingPattern,
            final(self).string() == line@,
            final(self).pattern() == old(self).pattern(),
            step == (Step { signal: Res::<()>::Repeat, notice: FinderNotice::Nothing }),
    {
        self.string = self.parse_string(line);
        self.state = FinderState::AwaitingPattern;
        Step { signal: Res::Repeat, notice: FinderNotice::Nothing }
    }

    fn parse_string(&self, line: &str) -> (owned: String)
        ensures
            owned@ == line@,
    {
        line.to_owned()
    }

    fn parse_command(&self, line: &str) -> (command: Option<FinderCommands>)
        ensures
            command == match FinderCommands::spec_from_text(line@) {
                Ok(c) => Some(c),
                Err(_) => None,
            },
    {
        match FinderCommands::from_text(line) {
            Ok(command) => Some(command),
            Err(_) => None,
        }
    }
}

} // verus!
