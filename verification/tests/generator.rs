use exercise_runner::common::{
    ArrayGenerationInputStateMachine, ArrayManualInputState, GenerationNotice, Res, Step,
};

fn machine() -> ArrayGenerationInputStateMachine {
    ArrayGenerationInputStateMachine::new(rand::thread_rng())
}

fn quiet(step: &Step<Vec<i32>, GenerationNotice>) -> bool {
    step.notice == GenerationNotice::Nothing
}

#[test]
fn generator_asks_for_size_then_left_then_right() {
    let mut m = machine();
    assert_eq!(m.current_state(), ArrayManualInputState::AwaitingInputSize);
    let step = m.handle_input("5\n");
    assert_eq!(step.signal, Res::Repeat);
    assert!(quiet(&step));
    assert_eq!(m.current_state(), ArrayManualInputState::AwaitingInputLeft);
    let step = m.handle_input("-3\n");
    assert_eq!(step.signal, Res::Repeat);
    assert_eq!(m.current_state(), ArrayManualInputState::AwaitingInputRight);
    let step = m.handle_input("4\n");
    match step.signal {
        Res::Result(items) => {
            assert_eq!(items.len(), 5);
            assert!(items.iter().all(|&x| -3 <= x && x < 4));
        }
        other => panic!("no sequence: {:?}", other),
    }
    assert!(quiet(&step_after_result()));
}

fn step_after_result() -> Step<Vec<i32>, GenerationNotice> {
    let mut m = machine();
    m.handle_input("0");
    m.handle_input("1");
    m.handle_input("2")
}

#[test]
fn generator_draws_different_values_from_a_wide_range() {
    let mut m = machine();
    m.handle_input("200");
    m.handle_input("0");
    match m.handle_input("1000000").signal {
        Res::Result(items) => {
            assert_eq!(items.len(), 200);
            assert!(items.iter().all(|&x| 0 <= x && x < 1000000));
            assert!(items.iter().any(|&x| x != items[0]));
        }
        other => panic!("no sequence: {:?}", other),
    }
}

#[test]
fn generator_with_size_zero_gives_an_empty_sequence() {
    let mut m = machine();
    m.handle_input("0");
    m.handle_input("1");
    assert_eq!(m.handle_input("1").signal, Res::Result(vec![]));
}

#[test]
fn generator_with_equal_bounds_repeats_the_bound() {
    let mut m = machine();
    m.handle_input("3");
    m.handle_input("7");
    assert_eq!(m.handle_input("7").signal, Res::Result(vec![7, 7, 7]));
}

#[test]
fn generator_with_a_range_of_one_value_repeats_it() {
    let mut m = machine();
    m.handle_input("4");
    m.handle_input("-1");
    assert_eq!(m.handle_input("0").signal, Res::Result(vec![-1, -1, -1, -1]));
}

#[test]
fn generator_turns_down_a_right_bound_below_the_left() {
    let mut m = machine();
    m.handle_input("3");
    m.handle_input("10");
    let step = m.handle_input("9");
    assert_eq!(step.signal, Res::Repeat);
    assert_eq!(step.notice, GenerationNotice::RightBelowLeft);
    assert_eq!(m.current_state(), ArrayManualInputState::AwaitingInputRight);
}

#[test]
fn generator_asks_again_after_a_malformed_number() {
    let mut m = machine();
    let step = m.handle_input("many");
    assert_eq!(step.signal, Res::Repeat);
    assert_eq!(step.notice, GenerationNotice::InvalidSize);
    assert_eq!(m.current_state(), ArrayManualInputState::AwaitingInputSize);
    let step = m.handle_input("-1");
    assert_eq!(step.notice, GenerationNotice::InvalidSize);
    m.handle_input("2");
    let step = m.handle_input("1.5");
    assert_eq!(step.notice, GenerationNotice::InvalidLeft);
    assert_eq!(m.current_state(), ArrayManualInputState::AwaitingInputLeft);
    m.handle_input("1");
    let step = m.handle_input("2147483648");
    assert_eq!(step.notice, GenerationNotice::InvalidRight);
    assert_eq!(step.signal, Res::Repeat);
    assert_eq!(m.current_state(), ArrayManualInputState::AwaitingInputRight);
}

#[test]
fn generator_goes_back_one_question() {
    let mut m = machine();
    assert_eq!(m.handle_input("back").signal, Res::Back);
    assert_eq!(m.current_state(), ArrayManualInputState::AwaitingInputSize);
    m.handle_input("2");
    assert_eq!(m.handle_input(" back \n").signal, Res::Repeat);
    assert_eq!(m.current_state(), ArrayManualInputState::AwaitingInputSize);
    m.handle_input("2");
    m.handle_input("0");
    assert_eq!(m.handle_input("back").signal, Res::Repeat);
    assert_eq!(m.current_state(), ArrayManualInputState::AwaitingInputLeft);
}

#[test]
fn generator_leaves_on_main_and_exit_in_every_state() {
    for answered in 0..3 {
        for (word, signal) in [("main", Res::MainMenu), ("exit", Res::Exit)] {
            let mut m = machine();
            for line in ["1", "2"].iter().take(answered) {
                m.handle_input(line);
            }
            let state = m.current_state();
            let step = m.handle_input(word);
            assert_eq!(step.signal, signal);
            assert_eq!(m.current_state(), state);
        }
    }
}

#[test]
fn generator_prompts_name_the_question() {
    let mut m = machine();
    assert!(m.prompt().starts_with("Input array size"));
    m.handle_input("1");
    assert!(m.prompt().starts_with("Input left bound"));
    m.handle_input("1");
    assert!(m.prompt().starts_with("Input right bound"));
}

#[test]
fn generator_takes_a_trimmed_line() {
    let mut m = machine();
    assert!(quiet(&m.handle_line("3")));
    assert_eq!(m.current_state(), ArrayManualInputState::AwaitingInputLeft);
    let step = m.handle_line(" 3");
    assert_eq!(step.notice, GenerationNotice::InvalidLeft);
}
