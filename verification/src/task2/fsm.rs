//! The sessions of the search menu: the menu itself, the session on a sorted
//! sequence and the session on a probing set.

use crate::common::is_sorted;
use crate::common::sort_unstable;
use crate::common::InvalidEnumValueError;
use crate::common::Res;
use crate::common::Step;
use crate::task2::fibonacci::delete;
use crate::task2::fibonacci::fib_search;
use crate::task2::fibonacci::insert;
use crate::task2::fibonacci::spec_delete;
use crate::task2::fibonacci::spec_fib_search;
use crate::task2::fibonacci::spec_insert;
use crate::task2::hash::spec_add;
use crate::task2::hash::spec_add_outcome;
use crate::task2::hash::spec_contains;
use crate::task2::hash::CustomHasSet;
use crate::text::parse_usize;
use crate::text::spec_parse_usize;
use crate::text::parse_i32;
use crate::text::same_text;
use crate::text::spec_parse_i32;
use crate::text::trim;
use crate::text::trimmed;
use vstd::prelude::*;

verus! {

#[derive(Debug, Clone, Copy, PartialEq, Eq)]
pub enum Task2State {
    AwaitingCommand,
}

#[derive(Debug, Clone, Copy, PartialEq, Eq)]
pub enum Task2Commands {
    Finder,
    Hasher,
    MainMenu,
    Exit,
}

impl Task2Commands {
    /// The command that a keyword names.
    pub open spec fn spec_from_text(value: Seq<char>) -> Result<Self, InvalidEnumValueError> {
        if value == "finder"@ {
            Ok(Task2Commands::Finder)
        } else if value == "hasher"@ {
            Ok(Task2Commands::Hasher)
        } else if value == "main"@ {
            Ok(Task2Commands::MainMenu)
        } else if value == "exit"@ {
            Ok(Task2Commands::Exit)
        } else {
            Err(InvalidEnumValueError)
        }
    }

    pub fn from_text(value: &str) -> (command: Result<Self, InvalidEnumValueError>)
        ensures
            command == Self::spec_from_text(value@),
    {
        if same_text(value, "finder") {
            Ok(Task2Commands::Finder)
        } else if same_text(value, "hasher") {
            Ok(Task2Commands::Hasher)
        } else if same_text(value, "main") {
            Ok(Task2Commands::MainMenu)
        } else if same_text(value, "exit") {
            Ok(Task2Commands::Exit)
        } else {
            Err(InvalidEnumValueError)
        }
    }

    /// The line of the menu that describes the command.
    pub fn to_text(&self) -> (text: &'static str)
        ensures
            text@ == match self {
                Task2Commands::Finder => "'finder' - Fibonacci search implementation"@,
                Task2Commands::Hasher => "'hasher' - Simple rehash implementation"@,
                Task2Commands::MainMenu => "'main' - Return to main menu"@,
                Task2Commands::Exit => "'exit' - Exit program"@,
            },
    {
        match self {
            Task2Commands::Finder => "'finder' - Fibonacci search implementation",
            Task2Commands::Hasher => "'hasher' - Simple rehash implementation",
            Task2Commands::MainMenu => "'main' - Return to main menu",
            Task2Commands::Exit => "'exit' - Exit program",
        }
    }
}

/// What the search menu asks of the loop that drives it.
#[derive(Debug, Clone, Copy, PartialEq, Eq)]
pub enum Task2Notice {
    /// Nothing to say: the signal ends the session.
    Nothing,
    /// Run the session on a sorted sequence and report how it ended.
    LaunchFinder,
    /// Run the session on a probing set and report how it ended.
    LaunchHasher,
    /// The line names no command of this menu.
    InvalidCommand,
}

/// The menu that leads to the two search sessions.
pub struct Task2StateMachine {
    state: Task2State,
}

impl Task2StateMachine {
    pub closed spec fn state(&self) -> Task2State {
        self.state
    }

    /// What the menu answers to a line that is already trimmed.
    pub open spec fn spec_step(line: Seq<char>) -> Step<(), Task2Notice> {
        match Task2Commands::spec_from_text(line) {
            Ok(Task2Commands::MainMenu) => Step {
                signal: Res::MainMenu,
                notice: Task2Notice::Nothing,
            },
            Ok(Task2Commands::Exit) => Step { signal: Res::Exit, notice: Task2Notice::Nothing },
            Ok(Task2Commands::Finder) => Step {
                signal: Res::Repeat,
                notice: Task2Notice::LaunchFinder,
            },
            Ok(Task2Commands::Hasher) => Step {
                signal: Res::Repeat,
                notice: Task2Notice::LaunchHasher,
            },
            Err(_) => Step { signal: Res::Repeat, notice: Task2Notice::InvalidCommand },
        }
    }

    pub fn new() -> (machine: Self)
        ensures
            machine.state() == Task2State::AwaitingCommand,
    {
        Task2StateMachine { state: Task2State::AwaitingCommand }
    }

    /// The commands that the menu offers.
    pub fn menu(&self) -> (offered: Vec<Task2Commands>)
        ensures
            offered@ == seq![
                Task2Commands::Finder,
                Task2Commands::Hasher,
                Task2Commands::MainMenu,
                Task2Commands::Exit,
            ],
    {
        vec![
            Task2Commands::Finder,
            Task2Commands::Hasher,
            Task2Commands::MainMenu,
            Task2Commands::Exit,
        ]
    }

    /// Answers one line as it was read.
    pub fn handle_input(&mut self, input: &str) -> (step: Step<(), Task2Notice>)
        ensures
            step == Self::spec_step(trimmed(input@)),
            final(self).state() == old(self).state(),
    {
        self.handle_line(trim(input))
    }

    /// Answers one line that is already trimmed.
    pub fn handle_line(&mut self, line: &str) -> (step: Step<(), Task2Notice>)
        ensures
            step == Self::spec_step(line@),
            final(self).state() == old(self).state(),
    {
        match self.parse_command(line) {
            Some(Task2Commands::MainMenu) => Step {
                signal: Res::MainMenu,
                notice: Task2Notice::Nothing,
            },
            Some(Task2Commands::Exit) => Step { signal: Res::Exit, notice: Task2Notice::Nothing },
            Some(Task2Commands::Finder) => Step {
                signal: Res::Repeat,
                notice: Task2Notice::LaunchFinder,
            },
            Some(Task2Commands::Hasher) => Step {
                signal: Res::Repeat,
                notice: Task2Notice::LaunchHasher,
            },
            None => Step { signal: Res::Repeat, notice: Task2Notice::InvalidCommand },
        }
    }

    /// The signal of the menu once a session that it launched has ended: the
    /// session's own, so that a return to the main menu or an exit unwinds
    /// through the menu without another prompt.
    pub fn handle_session_end(&mut self, outcome: Res<()>) -> (signal: Res<()>)
        ensures
            signal == outcome,
            final(self).state() == old(self).state(),
    {
        outcome
    }

    fn parse_command(&self, line: &str) -> (command: Option<Task2Commands>)
        ensures
            command == match Task2Commands::spec_from_text(line@) {
                Ok(c) => Some(c),
                Err(_) => None,
            },
    {
        match Task2Commands::from_text(line) {
            Ok(command) => Some(command),
            Err(_) => None,
        }
    }
}

#[derive(Debug, Clone, Copy, PartialEq, Eq)]
pub enum FibState {
    /// No sequence yet.
    Start,
    /// A sorted sequence is there.
    ReadyToWork,
    AwaitingItemToSearch,
    AwaitingItemToInsert,
    AwaitingItemToDelete,
}

#[derive(Debug, Clone, Copy, PartialEq, Eq)]
pub enum FibCommands {
    Generate,
    Search,
    Insert,
    Delete,
    Print,
    MainMenu,
    Exit,
}

impl FibCommands {
    /// The command that a keyword names.
    pub open spec fn spec_from_text(value: Seq<char>) -> Result<Self, InvalidEnumValueError> {
        if value == "generate"@ {
            Ok(FibCommands::Generate)
        } else if value == "search"@ {
            Ok(FibCommands::Search)
        } else if value == "insert"@ {
            Ok(FibCommands::Insert)
        } else if value == "delete"@ {
            Ok(FibCommands::Delete)
        } else if value == "print"@ {
            Ok(FibCommands::Print)
        } else if value == "main"@ {
            Ok(FibCommands::MainMenu)
        } else if value == "exit"@ {
            Ok(FibCommands::Exit)
        } else {
            Err(InvalidEnumValueError)
        }
    }

    pub fn from_text(value: &str) -> (command: Result<Self, InvalidEnumValueError>)
        ensures
            command == Self::spec_from_text(value@),
    {
        if same_text(value, "generate") {
            Ok(FibCommands::Generate)
        } else if same_text(value, "search") {
            Ok(FibCommands::Search)
        } else if same_text(value, "insert") {
            Ok(FibCommands::Insert)
        } else if same_text(value, "delete") {
            Ok(FibCommands::Delete)
        } else if same_text(value, "print") {
            Ok(FibCommands::Print)
        } else if same_text(value, "main") {
            Ok(FibCommands::MainMenu)
        } else if same_text(value, "exit") {
            Ok(FibCommands::Exit)
        } else {
            Err(InvalidEnumValueError)
        }
    }

    /// The line of the menu that describes the command.
    pub fn to_text(&self) -> (text: &'static str)
        ensures
            text@ == match self {
                FibCommands::Generate => "'generate' - Generate array"@,
                FibCommands::Search => "'search' - Search element"@,
                FibCommands::Insert => "'insert' - Insert element"@,
                FibCommands::Delete => "'delete' - Delete element"@,
                FibCommands::Print => "'print' - Print array"@,
                FibCommands::MainMenu => "'main' - Return to main menu"@,
                FibCommands::Exit => "'exit' - Exit program"@,
            },
    {
        match self {
            FibCommands::Generate => "'generate' - Generate array",
            FibCommands::Search => "'search' - Search element",
            FibCommands::Insert => "'insert' - Insert element",
            FibCommands::Delete => "'delete' - Delete element",
            FibCommands::Print => "'print' - Print array",
            FibCommands::MainMenu => "'main' - Return to main menu",
            FibCommands::Exit => "'exit' - Exit program",
        }
    }
}

/// What the session on a sorted sequence has to say after a line.
#[derive(Debug, Clone, Copy, PartialEq, Eq)]
pub enum FibNotice {
    /// Nothing to say: the signal ends the session.
    Nothing,
    /// Run the sequence generator and hand its outcome to `handle_generation`.
    StartGeneration,
    /// A command came that needs a sequence, and there is none yet.
    GenerateFirst,
    /// The command is not offered in this state.
    InvalidCommand,
    /// The line names no command.
    InvalidInput,
    /// Show the whole sequence.
    ShowItems,
    /// Ask for the number to search.
    AskSearch,
    /// Ask for the number to insert.
    AskInsert,
    /// Ask for the number to delete.
    AskDelete,
    Found { value: i32, index: usize },
    NotFound { value: i32 },
    Inserted { value: i32, index: usize },
    Deleted { value: i32, index: usize },
    NothingToDelete { value: i32 },
    /// The line is no number to search.
    InvalidSearchItem,
    /// The line is no number to insert.
    InvalidInsertItem,
    /// The line is no number to delete.
    InvalidDeleteItem,
}

/// A session after one line: its state, its sequence and its answer.
pub struct FibOutcome {
    pub state: FibState,
    pub items: Seq<i32>,
    pub step: Step<(), FibNotice>,
}

/// The session that generates a sorted sequence and then searches it,
/// inserts into it and deletes from it.
pub struct FibStateMachine {
    state: FibState,
    vec: Vec<i32>,
}

impl FibStateMachine {
    pub closed spec fn state(&self) -> FibState {
        self.state
    }

    /// The sequence that the session owns.
    pub closed spec fn items(&self) -> Seq<i32> {
        self.vec@
    }

    /// Once generated, the sequence is sorted.
    pub open spec fn wf(&self) -> bool {
        self.state() != FibState::Start ==> is_sorted(self.items())
    }

    /// An answer that leaves state and sequence as they are.
    pub open spec fn stay(
        state: FibState,
        items: Seq<i32>,
        signal: Res<()>,
        notice: FibNotice,
    ) -> FibOutcome {
        FibOutcome { state, items, step: Step { signal, notice } }
    }

    /// The answer to a command before a sequence exists.
    pub open spec fn spec_handle_start(items: Seq<i32>, command: FibCommands) -> FibOutcome {
        let notice = match command {
            FibCommands::Generate => FibNotice::StartGeneration,
            FibCommands::Insert | FibCommands::Search | FibCommands::Delete => {
                FibNotice::GenerateFirst
            },
            _ => FibNotice::InvalidCommand,
        };
        Self::stay(FibState::Start, items, Res::Repeat, notice)
    }

    /// The answer to a command once a sequence exists.
    pub open spec fn spec_handle_work(items: Seq<i32>, command: FibCommands) -> FibOutcome {
        match command {
            FibCommands::Print => Self::stay(
                FibState::ReadyToWork,
                items,
                Res::Repeat,
                FibNotice::ShowItems,
            ),
            FibCommands::Search => Self::stay(
                FibState::AwaitingItemToSearch,
                items,
                Res::Repeat,
                FibNotice::AskSearch,
            ),
            FibCommands::Insert => Self::stay(
                FibState::AwaitingItemToInsert,
                items,
                Res::Repeat,
                FibNotice::AskInsert,
            ),
            FibCommands::Delete => Self::stay(
                FibState::AwaitingItemToDelete,
                items,
                Res::Repeat,
                FibNotice::AskDelete,
            ),
            _ => Self::stay(FibState::ReadyToWork, items, Res::Repeat, FibNotice::InvalidCommand),
        }
    }

    /// The answer to a line where a number to search is awaited.
    pub open spec fn spec_handle_search(items: Seq<i32>, line: Seq<char>) -> FibOutcome {
        match spec_parse_i32(line) {
            Some(value) => Self::stay(
                FibState::ReadyToWork,
                items,
                Res::Repeat,
                match spec_fib_search(items, value).0 {
                    Some(i) => FibNotice::Found { value, index: i as usize },
                    None => FibNotice::NotFound { value },
                },
            ),
            None => Self::stay(
                FibState::AwaitingItemToSearch,
                items,
                Res::Repeat,
                FibNotice::InvalidSearchItem,
            ),
        }
    }

    /// The answer to a line where a number to insert is awaited.
    pub open spec fn spec_handle_insert(items: Seq<i32>, line: Seq<char>) -> FibOutcome {
        match spec_parse_i32(line) {
            Some(value) => Self::stay(
                FibState::ReadyToWork,
                spec_insert(items, value),
                Res::Repeat,
                FibNotice::Inserted { value, index: spec_fib_search(items, value).1 as usize },
            ),
            None => Self::stay(
                FibState::AwaitingItemToInsert,
                items,
                Res::Repeat,
                FibNotice::InvalidInsertItem,
            ),
        }
    }

    /// The answer to a line where a number to delete is awaited.
    pub open spec fn spec_handle_delete(items: Seq<i32>, line: Seq<char>) -> FibOutcome {
        match spec_parse_i32(line) {
            Some(value) => Self::stay(
                FibState::ReadyToWork,
                spec_delete(items, value),
                Res::Repeat,
                match spec_fib_search(items, value).0 {
                    Some(i) => FibNotice::Deleted { value, index: i as usize },
                    None => FibNotice::NothingToDelete { value },
                },
            ),
            None => Self::stay(
                FibState::AwaitingItemToDelete,
                items,
                Res::Repeat,
                FibNotice::InvalidDeleteItem,
            ),
        }
    }

    /// The answer of the session in `state`, owning `items`, to a line that
    /// is already trimmed. A return to the main menu and an exit are taken in
    /// every state, before the state is looked at.
    pub open spec fn spec_step(state: FibState, items: Seq<i32>, line: Seq<char>) -> FibOutcome {
        let command = FibCommands::spec_from_text(line);
        if command == Ok::<FibCommands, InvalidEnumValueError>(FibCommands::MainMenu) {
            Self::stay(state, items, Res::MainMenu, FibNotice::Nothing)
        } else if command == Ok::<FibCommands, InvalidEnumValueError>(FibCommands::Exit) {
            Self::stay(state, items, Res::Exit, FibNotice::Nothing)
        } else {
            match state {
                FibState::Start => match command {
                    Ok(c) => Self::spec_handle_start(items, c),
                    Err(_) => Self::stay(state, items, Res::Repeat, FibNotice::InvalidInput),
                },
                FibState::ReadyToWork => match command {
                    Ok(c) => Self::spec_handle_work(items, c),
                    Err(_) => Self::stay(state, items, Res::Repeat, FibNotice::InvalidInput),
                },
                FibState::AwaitingItemToSearch => Self::spec_handle_search(items, line),
                FibState::AwaitingItemToInsert => Self::spec_handle_insert(items, line),
                FibState::AwaitingItemToDelete => Self::spec_handle_delete(items, line),
            }
        }
    }

    /// What this session is after a step.
    pub open spec fn outcome(&self, step: Step<(), FibNotice>) -> FibOutcome {
        FibOutcome { state: self.state(), items: self.items(), step }
    }

    pub fn new() -> (machine: Self)
        ensures
            machine.state() == FibState::Start,
            machine.items() == Seq::<i32>::empty(),
            machine.wf(),
    {
        FibStateMachine { state: FibState::Start, vec: Vec::new() }
    }

    pub fn current_state(&self) -> (state: FibState)
        ensures
            state == self.state(),
    {
        self.state
    }

    /// The sequence, for showing it.
    pub fn values(&self) -> (values: &Vec<i32>)
        ensures
            values@ == self.items(),
    {
        &self.vec
    }

    /// The commands that the prompt of the current state offers; none while
    /// a number is awaited.
    pub fn menu(&self) -> (offered: Vec<FibCommands>)
        ensures
            offered@ == match self.state() {
                FibState::Start => seq![
                    FibCommands::Generate,
                    FibCommands::MainMenu,
                    FibCommands::Exit,
                ],
                FibState::ReadyToWork => seq![
                    FibCommands::Search,
                    FibCommands::Insert,
                    FibCommands::Delete,
                    FibCommands::Print,
                    FibCommands::MainMenu,
                    FibCommands::Exit,
                ],
                _ => Seq::<FibCommands>::empty(),
            },
    {
        match self.state {
            FibState::Start => vec![
                FibCommands::Generate,
                FibCommands::MainMenu,
                FibCommands::Exit,
            ],
            FibState::ReadyToWork => vec![
                FibCommands::Search,
                FibCommands::Insert,
                FibCommands::Delete,
                FibCommands::Print,
                FibCommands::MainMenu,
                FibCommands::Exit,
            ],
            _ => Vec::new(),
        }
    }

    /// Answers one line as it was read.
    pub fn handle_input(&mut self, input: &str) -> (step: Step<(), FibNotice>)
        requires
            old(self).wf(),
        ensures
            final(self).wf(),
            final(self).outcome(step) == Self::spec_step(
                old(self).state(),
                old(self).items(),
                trimmed(input@),
            ),
    {
        self.handle_line(trim(input))
    }

    /// Answers one line that is already trimmed.
    pub fn handle_line(&mut self, line: &str) -> (step: Step<(), FibNotice>)
        requires
            old(self).wf(),
        ensures
            final(self).wf(),
            final(self).outcome(step) == Self::spec_step(
                old(self).state(),
                old(self).items(),
                line@,
            ),
    {
        let command = self.parse_command(line);
        match command {
            Some(FibCommands::MainMenu) => {
                return Step { signal: Res::MainMenu, notice: FibNotice::Nothing };
            },
            Some(FibCommands::Exit) => {
                return Step { signal: Res::Exit, notice: FibNotice::Nothing };
            },
            _ => {},
        }
        match self.state {
            FibState::Start => match command {
                Some(command) => self.handle_start(command),
                None => Step { signal: Res::Repeat, notice: FibNotice::InvalidInput },
            },
            FibState::ReadyToWork => match command {
                Some(command) => self.handle_work(command),
                None => Step { signal: Res::Repeat, notice: FibNotice::InvalidInput },
            },
            FibState::AwaitingItemToSearch => self.handle_search(line),
            FibState::AwaitingItemToInsert => self.handle_insert(line),
            FibState::AwaitingItemToDelete => self.handle_delete(line),
        }
    }

    /// Takes what the sequence generator ended with. A generated sequence is
    /// sorted and becomes the session's own; any other signal of the
    /// generator passes through unchanged.
    pub fn handle_generation(&mut self, outcome: Res<Vec<i32>>) -> (signal: Res<()>)
        requires
            old(self).wf(),
        ensures
            final(self).wf(),
            match outcome {
                Res::Result(generated) => {
                    &&& signal is Repeat
                    &&& final(self).state() == FibState::ReadyToWork
                    &&& is_sorted(final(self).items())
                    &&& final(self).items().to_multiset() == generated@.to_multiset()
                },
                Res::MainMenu => signal is MainMenu && *final(self) == *old(self),
                Res::Back => signal is Back && *final(self) == *old(self),
                Res::Exit => signal is Exit && *final(self) == *old(self),
                Res::Repeat => signal is Repeat && *final(self) == *old(self),
            },
    {
        match outcome {
            Res::Result(mut vec) => {
                sort_unstable(&mut vec);
                self.vec = vec;
                self.state = FibState::ReadyToWork;
                Res::Repeat
            },
            Res::MainMenu => Res::MainMenu,
            Res::Back => Res::Back,
            Res::Exit => Res::Exit,
            Res::Repeat => Res::Repeat,
        }
    }

    fn handle_start(&mut self, command: FibCommands) -> (step: Step<(), FibNotice>)
        requires
            old(self).state() == FibState::Start,
        ensures
            final(self).outcome(step) == Self::spec_handle_start(old(self).items(), command),
    {
        match command {
            FibCommands::Generate => Step {
                signal: Res::Repeat,
                notice: FibNotice::StartGeneration,
            },
            FibCommands::Insert | FibCommands::Search | FibCommands::Delete => Step {
                signal: Res::Repeat,
                notice: FibNotice::GenerateFirst,
            },
            _ => Step { signal: Res::Repeat, notice: FibNotice::InvalidCommand },
        }
    }

    fn handle_work(&mut self, command: FibCommands) -> (step: Step<(), FibNotice>)
        requires
            old(self).state() == FibState::ReadyToWork,
        ensures
            final(self).outcome(step) == Self::spec_handle_work(old(self).items(), command),
    {
        let notice = match command {
            FibCommands::Print => FibNotice::ShowItems,
            FibCommands::Search => {
                self.state = FibState::AwaitingItemToSearch;
                FibNotice::AskSearch
            },
            FibCommands::Insert => {
                self.state = FibState::AwaitingItemToInsert;
                FibNotice::AskInsert
            },
            FibCommands::Delete => {
                self.state = FibState::AwaitingItemToDelete;
                FibNotice::AskDelete
            },
            _ => FibNotice::InvalidCommand,
        };
        Step { signal: Res::Repeat, notice }
    }

    fn handle_search(&mut self, line: &str) -> (step: Step<(), FibNotice>)
        requires
            old(self).state() == FibState::AwaitingItemToSearch,
        ensures
            final(self).outcome(step) == Self::spec_handle_search(old(self).items(), line@),
    {
        match self.parse_item(line) {
            Some(num) => {
                let (res, _) = fib_search(self.vec.as_slice(), &num);
                self.state = FibState::ReadyToWork;
                let notice = match res {
                    Some(idx) => FibNotice::Found { value: num, index: idx },
                    None => FibNotice::NotFound { value: num },
                };
                Step { signal: Res::Repeat, notice }
            },
            None => Step { signal: Res::Repeat, notice: FibNotice::InvalidSearchItem },
        }
    }

    fn handle_insert(&mut self, line: &str) -> (step: Step<(), FibNotice>)
        requires
            old(self).state() == FibState::AwaitingItemToInsert,
        ensures
            final(self).outcome(step) == Self::spec_handle_insert(old(self).items(), line@),
            is_sorted(old(self).items()) ==> is_sorted(final(self).items()),
    {
        match self.parse_item(line) {
            Some(num) => {
                let idx = insert(&mut self.vec, num);
                self.state = FibState::ReadyToWork;
                Step { signal: Res::Repeat, notice: FibNotice::Inserted { value: num, index: idx } }
            },
            None => Step { signal: Res::Repeat, notice: FibNotice::InvalidInsertItem },
        }
    }

    fn handle_delete(&mut self, line: &str) -> (step: Step<(), FibNotice>)
        requires
            old(self).state() == FibState::AwaitingItemToDelete,
        ensures
            final(self).outcome(step) == Self::spec_handle_delete(old(self).items(), line@),
            is_sorted(old(self).items()) ==> is_sorted(final(self).items()),
    {
        match self.parse_item(line) {
            Some(num) => {
                let notice = match delete(&mut self.vec, &num) {
                    Some(idx) => FibNotice::Deleted { value: num, index: idx },
                    None => FibNotice::NothingToDelete { value: num },
                };
                self.state = FibState::ReadyToWork;
                Step { signal: Res::Repeat, notice }
            },
            None => Step { signal: Res::Repeat, notice: FibNotice::InvalidDeleteItem },
        }
    }

    fn parse_item(&self, line: &str) -> (item: Option<i32>)
        ensures
            item == spec_parse_i32(line@),
    {
        parse_i32(line)
    }

    fn parse_command(&self, line: &str) -> (command: Option<FibCommands>)
        ensures
            command == match FibCommands::spec_from_text(line@) {
                Ok(c) => Some(c),
                Err(_) => None,
            },
    {
        match FibCommands::from_text(line) {
            Ok(command) => Some(command),
            Err(_) => None,
        }
    }
}

#[derive(Debug, Clone, Copy, PartialEq, Eq)]
pub enum HashCommands {
    Add,
    Contains,
    MainMenu,
    Exit,
}

impl HashCommands {
    /// The command that a keyword names.
    pub open spec fn spec_from_str(value: Seq<char>) -> Result<Self, InvalidEnumValueError> {
        if value == "add"@ {
            Ok(HashCommands::Add)
        } else if value == "search"@ {
            Ok(HashCommands::Contains)
        } else if value == "main"@ {
            Ok(HashCommands::MainMenu)
        } else if value == "exit"@ {
            Ok(HashCommands::Exit)
        } else {
            Err(InvalidEnumValueError)
        }
    }

    pub fn from_str(value: &str) -> (command: Result<Self, InvalidEnumValueError>)
        ensures
            command == Self::spec_from_str(value@),
    {
        if same_text(value, "add") {
            Ok(HashCommands::Add)
        } else if same_text(value, "search") {
            Ok(HashCommands::Contains)
        } else if same_text(value, "main") {
            Ok(HashCommands::MainMenu)
        } else if same_text(value, "exit") {
            Ok(HashCommands::Exit)
        } else {
            Err(InvalidEnumValueError)
        }
    }

    /// The line of the menu that describes the command.
    pub fn to_text(&self) -> (text: &'static str)
        ensures
            text@ == match self {
                HashCommands::Add => "'add' - Add an element to the set"@,
                HashCommands::Contains => "'search' - Search an element in the set"@,
                HashCommands::MainMenu => "'main' - Return to main menu"@,
                HashCommands::Exit => "'exit' - Exit program"@,
            },
    {
        match self {
            HashCommands::Add => "'add' - Add an element to the set",
            HashCommands::Contains => "'search' - Search an element in the set",
            HashCommands::MainMenu => "'main' - Return to main menu",
            HashCommands::Exit => "'exit' - Exit program",
        }
    }
}

#[derive(Debug, Clone, Copy, PartialEq, Eq)]
pub enum HashState {
    /// No set yet: a capacity is awaited.
    Start,
    /// A set is there.
    ReadyToWork,
    AwaitingItemToAdd,
    AwaitingItemToSearch,
}

/// What the session on a probing set has to say after a line.
#[derive(Debug, Clone, Copy, PartialEq, Eq)]
pub enum HashNotice {
    /// Nothing to say.
    Nothing,
    /// A set of that many slots was made.
    Created { size: usize },
    /// The line is no capacity.
    InvalidSize,
    /// The command is not offered in this state.
    InvalidCommand,
    /// The line names no command.
    InvalidInput,
    Added { value: i32 },
    AlreadyExists { value: i32 },
    /// Probing found no slot for the value.
    Full,
    Found { value: i32 },
    NotFound { value: i32 },
    /// The line is no number to add.
    InvalidAddItem,
    /// The line is no number to search.
    InvalidSearchItem,
}

/// A session after one line: its state, the slots of its set and its answer.
pub struct HashOutcome {
    pub state: HashState,
    pub slots: Seq<Option<i32>>,
    pub step: Step<(), HashNotice>,
}

/// The session that makes a probing set of a given capacity and then adds
/// to it and searches it.
pub struct HashStateMachine {
    state: HashState,
    set: CustomHasSet,
}

impl HashStateMachine {
    pub closed spec fn state(&self) -> HashState {
        self.state
    }

    /// The slots of the set that the session owns.
    pub closed spec fn slots(&self) -> Seq<Option<i32>> {
        self.set.slots()
    }

    /// The set is well formed.
    pub closed spec fn wf(&self) -> bool {
        self.set.wf()
    }

    /// An answer with the given state and slots.
    pub open spec fn stay(
        state: HashState,
        slots: Seq<Option<i32>>,
        signal: Res<()>,
        notice: HashNotice,
    ) -> HashOutcome {
        HashOutcome { state, slots, step: Step { signal, notice } }
    }

    /// The answer to a line where a capacity is awaited.
    pub open spec fn spec_handle_start(slots: Seq<Option<i32>>, line: Seq<char>) -> HashOutcome {
        match spec_parse_usize(line) {
            Some(size) => Self::stay(
                HashState::ReadyToWork,
                Seq::new(size as nat, |i: int| None::<i32>),
                Res::Repeat,
                HashNotice::Created { size },
            ),
            None => Self::stay(HashState::Start, slots, Res::Repeat, HashNotice::InvalidSize),
        }
    }

    /// The answer to a command once a set exists.
    pub open spec fn spec_handle_work(slots: Seq<Option<i32>>, command: HashCommands) -> HashOutcome {
        match command {
            HashCommands::Add => Self::stay(
                HashState::AwaitingItemToAdd,
                slots,
                Res::Repeat,
                HashNotice::Nothing,
            ),
            HashCommands::Contains => Self::stay(
                HashState::AwaitingItemToSearch,
                slots,
                Res::Repeat,
                HashNotice::Nothing,
            ),
            _ => Self::stay(HashState::ReadyToWork, slots, Res::Repeat, HashNotice::InvalidCommand),
        }
    }

    /// The answer to a line where a number to add is awaited.
    pub open spec fn spec_handle_add(slots: Seq<Option<i32>>, line: Seq<char>) -> HashOutcome {
        match spec_parse_i32(line) {
            Some(value) => Self::stay(
                HashState::ReadyToWork,
                spec_add(slots, value),
                Res::Repeat,
                match spec_add_outcome(slots, value) {
                    Ok(true) => HashNotice::Added { value },
                    Ok(false) => HashNotice::AlreadyExists { value },
                    Err(_) => HashNotice::Full,
                },
            ),
            None => Self::stay(
                HashState::AwaitingItemToAdd,
                slots,
                Res::Repeat,
                HashNotice::InvalidAddItem,
            ),
        }
    }

    /// The answer to a line where a number to search is awaited.
    pub open spec fn spec_handle_search(slots: Seq<Option<i32>>, line: Seq<char>) -> HashOutcome {
        match spec_parse_i32(line) {
            Some(value) => Self::stay(
                HashState::ReadyToWork,
                slots,
                Res::Repeat,
                if spec_contains(slots, value) {
                    HashNotice::Found { value }
                } else {
                    HashNotice::NotFound { value }
                },
            ),
            None => Self::stay(
                HashState::AwaitingItemToSearch,
                slots,
                Res::Repeat,
                HashNotice::InvalidSearchItem,
            ),
        }
    }

    /// The answer of the session in `state`, whose set has `slots`, to a
    /// line that is already trimmed. A return to the main menu and an exit
    /// are taken in every state, before the state is looked at.
    pub open spec fn spec_step(
        state: HashState,
        slots: Seq<Option<i32>>,
        line: Seq<char>,
    ) -> HashOutcome {
        let command = HashCommands::spec_from_str(line);
        if command == Ok::<HashCommands, InvalidEnumValueError>(HashCommands::MainMenu) {
            Self::stay(state, slots, Res::MainMenu, HashNotice::Nothing)
        } else if command == Ok::<HashCommands, InvalidEnumValueError>(HashCommands::Exit) {
            Self::stay(state, slots, Res::Exit, HashNotice::Nothing)
        } else {
            match state {
                HashState::Start => Self::spec_handle_start(slots, line),
                HashState::ReadyToWork => match command {
                    Ok(c) => Self::spec_handle_work(slots, c),
                    Err(_) => Self::stay(state, slots, Res::Repeat, HashNotice::InvalidInput),
                },
                HashState::AwaitingItemToAdd => Self::spec_handle_add(slots, line),
                HashState::AwaitingItemToSearch => Self::spec_handle_search(slots, line),
            }
        }
    }

    /// What this session is after a step.
    pub open spec fn outcome(&self, step: Step<(), HashNotice>) -> HashOutcome {
        HashOutcome { state: self.state(), slots: self.slots(), step }
    }

    pub fn new() -> (machine: Self)
        ensures
            machine.state() == HashState::Start,
            machine.slots() == Seq::<Option<i32>>::empty(),
            machine.wf(),
    {
        HashStateMachine { state: HashState::Start, set: CustomHasSet::new(0) }
    }

    pub fn current_state(&self) -> (state: HashState)
        ensures
            state == self.state(),
    {
        self.state
    }

    /// The number of slots of the set.
    pub fn set_size(&self) -> (size: usize)
        requires
            self.wf(),
        ensures
            size == self.slots().len(),
    {
        self.set.get_size()
    }

    /// The commands that the prompt of the current state offers.
    pub fn menu(&self) -> (offered: Vec<HashCommands>)
        ensures
            offered@ == match self.state() {
                HashState::ReadyToWork => seq![
                    HashCommands::Add,
                    HashCommands::Contains,
                    HashCommands::MainMenu,
                    HashCommands::Exit,
                ],
                _ => seq![HashCommands::MainMenu, HashCommands::Exit],
            },
    {
        match self.state {
            HashState::ReadyToWork => vec![
                HashCommands::Add,
                HashCommands::Contains,
                HashCommands::MainMenu,
                HashCommands::Exit,
            ],
            _ => vec![HashCommands::MainMenu, HashCommands::Exit],
        }
    }

    /// Answers one line as it was read.
    pub fn handle_input(&mut self, input: &str) -> (step: Step<(), HashNotice>)
        requires
            old(self).wf(),
        ensures
            final(self).wf(),
            final(self).outcome(step) == Self::spec_step(
                old(self).state(),
                old(self).slots(),
                trimmed(input@),
            ),
    {
        self.handle_line(trim(input))
    }

    /// Answers one line that is already trimmed.
    pub fn handle_line(&mut self, line: &str) -> (step: Step<(), HashNotice>)
        requires
            old(self).wf(),
        ensures
            final(self).wf(),
            final(self).outcome(step) == Self::spec_step(
                old(self).state(),
                old(self).slots(),
                line@,
            ),
    {
        let command = self.parse_command(line);
        match command {
            Some(HashCommands::MainMenu) => {
                return Step { signal: Res::MainMenu, notice: HashNotice::Nothing };
            },
            Some(HashCommands::Exit) => {
                return Step { signal: Res::Exit, notice: HashNotice::Nothing };
            },
            _ => {},
        }
        match self.state {
            HashState::Start => self.handle_start(line),
            HashState::ReadyToWork => match command {
                Some(command) => self.handle_work(command),
                None => Step { signal: Res::Repeat, notice: HashNotice::InvalidInput },
            },
            HashState::AwaitingItemToAdd => self.handle_add(line),
            HashState::AwaitingItemToSearch => self.handle_search(line),
        }
    }

    fn handle_start(&mut self, line: &str) -> (step: Step<(), HashNotice>)
        requires
            old(self).wf(),
            old(self).state() == HashState::Start,
        ensures
            final(self).wf(),
            final(self).outcome(step) == Self::spec_handle_start(old(self).slots(), line@),
    {
        let notice = match parse_usize(line) {
            Some(size) => {
                self.set = CustomHasSet::new(size);
                self.state = HashState::ReadyToWork;
                HashNotice::Created { size }
            },
            None => HashNotice::InvalidSize,
        };
        Step { signal: Res::Repeat, notice }
    }

    fn handle_work(&mut self, command: HashCommands) -> (step: Step<(), HashNotice>)
        requires
            old(self).wf(),
            old(self).state() == HashState::ReadyToWork,
        ensures
            final(self).wf(),
            final(self).outcome(step) == Self::spec_handle_work(old(self).slots(), command),
    {
        let notice = match command {
            HashCommands::Add => {
                self.state = HashState::AwaitingItemToAdd;
                HashNotice::Nothing
            },
            HashCommands::Contains => {
                self.state = HashState::AwaitingItemToSearch;
                HashNotice::Nothing
            },
            _ => HashNotice::InvalidCommand,
        };
        Step { signal: Res::Repeat, notice }
    }

    fn handle_add(&mut self, line: &str) -> (step: Step<(), HashNotice>)
        requires
            old(self).wf(),
            old(self).state() == HashState::AwaitingItemToAdd,
        ensures
            final(self).wf(),
            final(self).outcome(step) == Self::spec_handle_add(old(self).slots(), line@),
    {
        let notice = match parse_i32(line) {
            Some(num) => {
                let res = self.set.add(num);
                self.state = HashState::ReadyToWork;
                match res {
                    Ok(true) => HashNotice::Added { value: num },
                    Ok(false) => HashNotice::AlreadyExists { value: num },
                    Err(_) => HashNotice::Full,
                }
            },
            None => HashNotice::InvalidAddItem,
        };
        Step { signal: Res::Repeat, notice }
    }

    fn handle_search(&mut self, line: &str) -> (step: Step<(), HashNotice>)
        requires
            old(self).wf(),
            old(self).state() == HashState::AwaitingItemToSearch,
        ensures
            final(self).wf(),
            final(self).outcome(step) == Self::spec_handle_search(old(self).slots(), line@),
    {
        let notice = match parse_i32(line) {
            Some(num) => {
                let res = self.set.contains(num);
                self.state = HashState::ReadyToWork;
                if res {
                    HashNotice::Found { value: num }
                } else {
                    HashNotice::NotFound { value: num }
                }
            },
            None => HashNotice::InvalidSearchItem,
        };
        Step { signal: Res::Repeat, notice }
    }

    fn parse_command(&self, line: &str) -> (command: Option<HashCommands>)
        ensures
            command == match HashCommands::spec_from_str(line@) {
                Ok(c) => Some(c),
                Err(_) => None,
            },
    {
        match HashCommands::from_str(line) {
            Ok(command) => Some(command),
            Err(_) => None,
        }
    }
}

/// Each keyword of the session on a sorted sequence names its own command.
pub proof fn lemma_fib_keywords()
    ensures
        FibCommands::spec_from_text("generate"@) == Ok::<FibCommands, InvalidEnumValueError>(
            FibCommands::Generate,
        ),
        FibCommands::spec_from_text("search"@) == Ok::<FibCommands, InvalidEnumValueError>(
            FibCommands::Search,
        ),
        FibCommands::spec_from_text("insert"@) == Ok::<FibCommands, InvalidEnumValueError>(
            FibCommands::Insert,
        ),
        FibCommands::spec_from_text("delete"@) == Ok::<FibCommands, InvalidEnumValueError>(
            FibCommands::Delete,
        ),
        FibCommands::spec_from_text("print"@) == Ok::<FibCommands, InvalidEnumValueError>(
            FibCommands::Print,
        ),
        FibCommands::spec_from_text("main"@) == Ok::<FibCommands, InvalidEnumValueError>(
            FibCommands::MainMenu,
        ),
        FibCommands::spec_from_text("exit"@) == Ok::<FibCommands, InvalidEnumValueError>(
            FibCommands::Exit,
        ),
{
    reveal_strlit("generate");
    reveal_strlit("search");
    reveal_strlit("insert");
    reveal_strlit("delete");
    reveal_strlit("print");
    reveal_strlit("main");
    reveal_strlit("exit");
    assert("generate"@[0] == 'g');
    assert("search"@[0] == 's');
    assert("insert"@[0] == 'i');
    assert("delete"@[0] == 'd');
    assert("print"@[0] == 'p');
    assert("main"@[0] == 'm');
    assert("exit"@[0] == 'e');
}

/// Before a sequence is generated, a command to search, insert or delete is
/// turned down: the session stays where it is, reads on, and says that a
/// sequence has to be generated first.
pub proof fn lemma_generate_first(items: Seq<i32>, line: Seq<char>)
    requires
        line == "search"@ || line == "insert"@ || line == "delete"@,
    ensures
        FibStateMachine::spec_step(FibState::Start, items, line) == FibStateMachine::stay(
            FibState::Start,
            items,
            Res::Repeat,
            FibNotice::GenerateFirst,
        ),
{
    lemma_fib_keywords();
}

/// In every state, also where a number is awaited, the keyword for the main
/// menu ends the session with that signal and changes nothing, and the
/// search menu above hands the signal on as it is.
pub proof fn lemma_main_unwinds(state: FibState, items: Seq<i32>)
    ensures
        FibStateMachine::spec_step(state, items, "main"@) == FibStateMachine::stay(
            state,
            items,
            Res::MainMenu,
            FibNotice::Nothing,
        ),
        FibStateMachine::spec_step(state, items, "exit"@) == FibStateMachine::stay(
            state,
            items,
            Res::Exit,
            FibNotice::Nothing,
        ),
{
    lemma_fib_keywords();
}

/// A line that is no number never changes the state or the sequence of the
/// session while a number is awaited, unless it is the keyword to leave.
pub proof fn lemma_malformed_number_keeps_state(state: FibState, items: Seq<i32>, line: Seq<char>)
    requires
        state == FibState::AwaitingItemToSearch || state == FibState::AwaitingItemToInsert || state
            == FibState::AwaitingItemToDelete,
        spec_parse_i32(line) is None,
    ensures
        FibStateMachine::spec_step(state, items, line).state == state,
        FibStateMachine::spec_step(state, items, line).items == items,
{
}

/// Each keyword of the session on a probing set names its own command.
pub proof fn lemma_hash_keywords()
    ensures
        HashCommands::spec_from_str("add"@) == Ok::<HashCommands, InvalidEnumValueError>(
            HashCommands::Add,
        ),
        HashCommands::spec_from_str("search"@) == Ok::<HashCommands, InvalidEnumValueError>(
            HashCommands::Contains,
        ),
        HashCommands::spec_from_str("main"@) == Ok::<HashCommands, InvalidEnumValueError>(
            HashCommands::MainMenu,
        ),
        HashCommands::spec_from_str("exit"@) == Ok::<HashCommands, InvalidEnumValueError>(
            HashCommands::Exit,
        ),
{
    reveal_strlit("add");
    reveal_strlit("search");
    reveal_strlit("main");
    reveal_strlit("exit");
    assert("add"@[0] == 'a');
    assert("search"@[0] == 's');
    assert("main"@[0] == 'm');
    assert("exit"@[0] == 'e');
}

/// In every state of the session on a probing set the keywords for the main
/// menu and for leaving end the session with that signal and change nothing.
pub proof fn lemma_hash_session_unwinds(state: HashState, slots: Seq<Option<i32>>)
    ensures
        HashStateMachine::spec_step(state, slots, "main"@) == HashStateMachine::stay(
            state,
            slots,
            Res::MainMenu,
            HashNotice::Nothing,
        ),
        HashStateMachine::spec_step(state, slots, "exit"@) == HashStateMachine::stay(
            state,
            slots,
            Res::Exit,
            HashNotice::Nothing,
        ),
{
    lemma_hash_keywords();
}

/// A line that is no number never changes the state or the set of the
/// session where a number is awaited: the session reads on.
pub proof fn lemma_hash_session_keeps_state(
    state: HashState,
    slots: Seq<Option<i32>>,
    line: Seq<char>,
)
    requires
        state == HashState::Start && spec_parse_usize(line) is None || (state
            == HashState::AwaitingItemToAdd || state == HashState::AwaitingItemToSearch)
            && spec_parse_i32(line) is None,
    ensures
        HashStateMachine::spec_step(state, slots, line).state == state,
        HashStateMachine::spec_step(state, slots, line).slots == slots,
{
}

} // verus!
