use exercise_runner::common::{Res, Step};
use exercise_runner::task2::fsm::{
    FibCommands, FibNotice, FibState, FibStateMachine, Task2Commands, Task2Notice,
    Task2StateMachine,
};

fn ready(items: Vec<i32>) -> FibStateMachine {
    let mut m = FibStateMachine::new();
    assert_eq!(m.handle_generation(Res::Result(items)), Res::Repeat);
    m
}

fn told(signal: Res<()>, notice: FibNotice) -> Step<(), FibNotice> {
    Step { signal, notice }
}

#[test]
fn finder_turns_down_work_before_a_sequence_exists() {
    for word in ["insert", "search", "delete"] {
        let mut m = FibStateMachine::new();
        let step = m.handle_input(word);
        assert_eq!(step, told(Res::Repeat, FibNotice::GenerateFirst));
        assert_eq!(m.current_state(), FibState::Start);
        assert!(m.values().is_empty());
    }
}

#[test]
fn finder_start_state_answers() {
    let mut m = FibStateMachine::new();
    assert_eq!(m.handle_input("generate\n"), told(Res::Repeat, FibNotice::StartGeneration));
    assert_eq!(m.current_state(), FibState::Start);
    assert_eq!(m.handle_input("print"), told(Res::Repeat, FibNotice::InvalidCommand));
    assert_eq!(m.handle_input("12"), told(Res::Repeat, FibNotice::InvalidInput));
    assert_eq!(m.handle_input(""), told(Res::Repeat, FibNotice::InvalidInput));
    assert_eq!(m.handle_input("Generate"), told(Res::Repeat, FibNotice::InvalidInput));
    assert_eq!(m.current_state(), FibState::Start);
}

#[test]
fn finder_sorts_the_generated_sequence() {
    let m = ready(vec![5, 1, 9, 3, 7, 3]);
    assert_eq!(m.current_state(), FibState::ReadyToWork);
    assert_eq!(m.values(), &vec![1, 3, 3, 5, 7, 9]);
}

#[test]
fn finder_passes_the_generator_signals_on() {
    for (from, to) in [
        (Res::MainMenu, Res::MainMenu),
        (Res::Back, Res::Back),
        (Res::Exit, Res::Exit),
        (Res::Repeat, Res::Repeat),
    ] {
        let mut m = FibStateMachine::new();
        assert_eq!(m.handle_generation(from), to);
        assert_eq!(m.current_state(), FibState::Start);
        assert!(m.values().is_empty());
    }
}

#[test]
fn finder_searches_a_number() {
    let mut m = ready(vec![9, 7, 5, 3, 1]);
    assert_eq!(m.handle_input("search"), told(Res::Repeat, FibNotice::AskSearch));
    assert_eq!(m.current_state(), FibState::AwaitingItemToSearch);
    assert_eq!(
        m.handle_input("5\n"),
        told(Res::Repeat, FibNotice::Found { value: 5, index: 2 })
    );
    assert_eq!(m.current_state(), FibState::ReadyToWork);
    m.handle_input("search");
    assert_eq!(m.handle_input("4"), told(Res::Repeat, FibNotice::NotFound { value: 4 }));
    assert_eq!(m.current_state(), FibState::ReadyToWork);
    assert_eq!(m.values(), &vec![1, 3, 5, 7, 9]);
}

#[test]
fn finder_inserts_a_number() {
    let mut m = ready(vec![1, 3, 5, 7, 9]);
    assert_eq!(m.handle_input("insert"), told(Res::Repeat, FibNotice::AskInsert));
    assert_eq!(m.current_state(), FibState::AwaitingItemToInsert);
    assert_eq!(
        m.handle_input("4"),
        told(Res::Repeat, FibNotice::Inserted { value: 4, index: 2 })
    );
    assert_eq!(m.current_state(), FibState::ReadyToWork);
    assert_eq!(m.values(), &vec![1, 3, 4, 5, 7, 9]);
}

#[test]
fn finder_deletes_a_number() {
    let mut m = ready(vec![1, 3, 5, 7, 9]);
    assert_eq!(m.handle_input("delete"), told(Res::Repeat, FibNotice::AskDelete));
    assert_eq!(m.current_state(), FibState::AwaitingItemToDelete);
    assert_eq!(
        m.handle_input("5"),
        told(Res::Repeat, FibNotice::Deleted { value: 5, index: 2 })
    );
    assert_eq!(m.values(), &vec![1, 3, 7, 9]);
    m.handle_input("delete");
    assert_eq!(
        m.handle_input("5"),
        told(Res::Repeat, FibNotice::NothingToDelete { value: 5 })
    );
    assert_eq!(m.current_state(), FibState::ReadyToWork);
    assert_eq!(m.values(), &vec![1, 3, 7, 9]);
}

#[test]
fn finder_asks_again_after_a_malformed_number() {
    for (word, state, notice) in [
        ("search", FibState::AwaitingItemToSearch, FibNotice::InvalidSearchItem),
        ("insert", FibState::AwaitingItemToInsert, FibNotice::InvalidInsertItem),
        ("delete", FibState::AwaitingItemToDelete, FibNotice::InvalidDeleteItem),
    ] {
        let mut m = ready(vec![1, 2, 3]);
        m.handle_input(word);
        for line in ["", "x", "1 2", "search", "print", "99999999999", "back"] {
            assert_eq!(m.handle_input(line), told(Res::Repeat, notice));
            assert_eq!(m.current_state(), state);
            assert_eq!(m.values(), &vec![1, 2, 3]);
        }
    }
}

#[test]
fn finder_unwinds_on_main_and_exit_from_every_state() {
    for word in [None, Some("search"), Some("insert"), Some("delete")] {
        for (leave, signal) in [("main", Res::MainMenu), (" exit\n", Res::Exit)] {
            let mut m = ready(vec![1, 2, 3]);
            if let Some(word) = word {
                m.handle_input(word);
            }
            let state = m.current_state();
            assert_eq!(m.handle_input(leave), told(signal, FibNotice::Nothing));
            assert_eq!(m.current_state(), state);
            assert_eq!(m.values(), &vec![1, 2, 3]);
        }
    }
    let mut m = FibStateMachine::new();
    assert_eq!(m.handle_input("main"), told(Res::MainMenu, FibNotice::Nothing));
    assert_eq!(m.handle_input("exit"), told(Res::Exit, FibNotice::Nothing));
}

#[test]
fn finder_ready_state_answers() {
    let mut m = ready(vec![2, 1]);
    assert_eq!(m.handle_input("print"), told(Res::Repeat, FibNotice::ShowItems));
    assert_eq!(m.handle_input("generate"), told(Res::Repeat, FibNotice::InvalidCommand));
    assert_eq!(m.handle_input("5"), told(Res::Repeat, FibNotice::InvalidInput));
    assert_eq!(m.current_state(), FibState::ReadyToWork);
    assert_eq!(m.values(), &vec![1, 2]);
}

#[test]
fn finder_menu_depends_on_the_state() {
    let mut m = FibStateMachine::new();
    assert_eq!(
        m.menu(),
        vec![FibCommands::Generate, FibCommands::MainMenu, FibCommands::Exit]
    );
    m.handle_generation(Res::Result(vec![]));
    assert_eq!(
        m.menu(),
        vec![
            FibCommands::Search,
            FibCommands::Insert,
            FibCommands::Delete,
            FibCommands::Print,
            FibCommands::MainMenu,
            FibCommands::Exit
        ]
    );
    m.handle_input("search");
    assert!(m.menu().is_empty());
}

#[test]
fn finder_works_on_an_empty_sequence() {
    let mut m = ready(vec![]);
    m.handle_input("search");
    assert_eq!(m.handle_input("1"), told(Res::Repeat, FibNotice::NotFound { value: 1 }));
    m.handle_input("delete");
    assert_eq!(
        m.handle_input("1"),
        told(Res::Repeat, FibNotice::NothingToDelete { value: 1 })
    );
    m.handle_input("insert");
    assert_eq!(
        m.handle_input("1"),
        told(Res::Repeat, FibNotice::Inserted { value: 1, index: 0 })
    );
    assert_eq!(m.values(), &vec![1]);
}

#[test]
fn finder_commands_have_keywords_and_descriptions() {
    assert_eq!(FibCommands::from_text("generate"), Ok(FibCommands::Generate));
    assert_eq!(FibCommands::from_text("search"), Ok(FibCommands::Search));
    assert_eq!(FibCommands::from_text("insert"), Ok(FibCommands::Insert));
    assert_eq!(FibCommands::from_text("delete"), Ok(FibCommands::Delete));
    assert_eq!(FibCommands::from_text("print"), Ok(FibCommands::Print));
    assert_eq!(FibCommands::from_text("main"), Ok(FibCommands::MainMenu));
    assert_eq!(FibCommands::from_text("exit"), Ok(FibCommands::Exit));
    assert!(FibCommands::from_text("exit ").is_err());
    assert!(FibCommands::from_text("").is_err());
    assert_eq!(FibCommands::Generate.to_text(), "'generate' - Generate array");
    assert_eq!(FibCommands::Search.to_text(), "'search' - Search element");
    assert_eq!(FibCommands::Insert.to_text(), "'insert' - Insert element");
    assert_eq!(FibCommands::Delete.to_text(), "'delete' - Delete element");
    assert_eq!(FibCommands::Print.to_text(), "'print' - Print array");
    assert_eq!(FibCommands::MainMenu.to_text(), "'main' - Return to main menu");
    assert_eq!(FibCommands::Exit.to_text(), "'exit' - Exit program");
}

#[test]
fn search_menu_launches_sessions_and_hands_their_signal_on() {
    let mut m = Task2StateMachine::new();
    assert_eq!(
        m.handle_input("finder\n"),
        Step { signal: Res::Repeat, notice: Task2Notice::LaunchFinder }
    );
    assert_eq!(
        m.handle_input("hasher"),
        Step { signal: Res::Repeat, notice: Task2Notice::LaunchHasher }
    );
    assert_eq!(
        m.handle_input("main"),
        Step { signal: Res::MainMenu, notice: Task2Notice::Nothing }
    );
    assert_eq!(m.handle_input("exit"), Step { signal: Res::Exit, notice: Task2Notice::Nothing });
    assert_eq!(
        m.handle_input("search"),
        Step { signal: Res::Repeat, notice: Task2Notice::InvalidCommand }
    );
    assert_eq!(m.handle_session_end(Res::MainMenu), Res::MainMenu);
    assert_eq!(m.handle_session_end(Res::Exit), Res::Exit);
    assert_eq!(m.handle_session_end(Res::Back), Res::Back);
    assert_eq!(
        m.menu(),
        vec![
            Task2Commands::Finder,
            Task2Commands::Hasher,
            Task2Commands::MainMenu,
            Task2Commands::Exit
        ]
    );
}

#[test]
fn search_menu_commands_have_keywords_and_descriptions() {
    assert_eq!(Task2Commands::from_text("finder"), Ok(Task2Commands::Finder));
    assert_eq!(Task2Commands::from_text("hasher"), Ok(Task2Commands::Hasher));
    assert_eq!(Task2Commands::from_text("main"), Ok(Task2Commands::MainMenu));
    assert_eq!(Task2Commands::from_text("exit"), Ok(Task2Commands::Exit));
    assert!(Task2Commands::from_text("Finder").is_err());
    assert_eq!(
        Task2Commands::Finder.to_text(),
        "'finder' - Fibonacci search implementation"
    );
    assert_eq!(Task2Commands::Hasher.to_text(), "'hasher' - Simple rehash implementation");
    assert_eq!(Task2Commands::MainMenu.to_text(), "'main' - Return to main menu");
    assert_eq!(Task2Commands::Exit.to_text(), "'exit' - Exit program");
}
