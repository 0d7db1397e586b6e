//! What every session shares: the control-flow signal, the order of sorted
//! sequences, and the generator of random sequences.

use crate::text::parse_i32;
use crate::text::parse_usize;
use crate::text::same_text;
use crate::text::spec_parse_i32;
use crate::text::spec_parse_usize;
use crate::text::trim;
use crate::text::trimmed;
use vstd::prelude::*;
use vstd::seq_lib::lemma_sorted_unique;
use vstd::seq_lib::to_multiset_update;

verus! {

/// A keyword that names no command.
#[derive(Debug, Clone, Copy, PartialEq, Eq)]
pub struct InvalidEnumValueError;

/// What a session tells the loop that drives it.
#[derive(Debug, PartialEq, Eq)]
pub enum Res<T> {
    /// Leave the program.
    Exit,
    /// Go back to the previous prompt.
    Back,
    /// Read another line.
    Repeat,
    /// Unwind to the main menu.
    MainMenu,
    /// The session produced its result.
    Result(T),
}

impl<T> Res<T> {
    /// Whether the session that produced this signal reads another line.
    pub fn is_repeat(&self) -> (again: bool)
        ensures
            again == (self is Repeat),
    {
        match self {
            Res::Repeat => true,
            _ => false,
        }
    }
}

/// One step of a session: the signal for the driving loop and the notice for the user.
#[derive(Debug, PartialEq, Eq)]
pub struct Step<T, N> {
    pub signal: Res<T>,
    pub notice: N,
}

/// Ascending order, duplicates allowed.
pub open spec fn is_sorted(s: Seq<i32>) -> bool {
    forall|i: int, j: int| 0 <= i <= j < s.len() ==> s[i] <= s[j]
}

/// Two sorted sequences that hold the same elements, each as often as the
/// other, are the same sequence.
pub proof fn lemma_sorted_same_elements(x: Seq<i32>, y: Seq<i32>)
    requires
        is_sorted(x),
        is_sorted(y),
        x.to_multiset() == y.to_multiset(),
    ensures
        x == y,
{
    let leq = |a: i32, b: i32| a <= b;
    lemma_sorted_unique(x, y, leq);
}

/// The sequence with the elements at `i` and `j` exchanged.
pub open spec fn swapped(s: Seq<i32>, i: int, j: int) -> Seq<i32> {
    s.update(i, s[j]).update(j, s[i])
}

/// Exchanging two elements keeps every element as often as it was there.
pub proof fn lemma_swapped_same_elements(s: Seq<i32>, i: int, j: int)
    requires
        0 <= i < s.len(),
        0 <= j < s.len(),
    ensures
        swapped(s, i, j).to_multiset() == s.to_multiset(),
{
    broadcast use vstd::multiset::group_multiset_axioms;

    let once = s.update(i, s[j]);
    to_multiset_update(s, i, s[j]);
    to_multiset_update(once, j, s[i]);
    s.to_multiset_ensures();
}

/// Exchanges the elements at `i` and `j`.
pub fn swap_items(slice: &mut [i32], i: usize, j: usize)
    requires
        i < old(slice)@.len(),
        j < old(slice)@.len(),
    ensures
        final(slice)@ == swapped(old(slice)@, i as int, j as int),
        final(slice)@.to_multiset() == old(slice)@.to_multiset(),
{
    proof {
        lemma_swapped_same_elements(slice@, i as int, j as int);
    }
    let a = slice[i];
    let b = slice[j];
    slice[i] = b;
    slice[j] = a;
}

/// Calls `<[i32]>::sort_unstable`: afterwards the elements are in ascending
/// order and each occurs as often as it did before.
#[verifier::external_body]
pub(crate) fn sort_unstable(values: &mut Vec<i32>)
    ensures
        is_sorted(final(values)@),
        final(values)@.to_multiset() == old(values)@.to_multiset(),
{
    values.sort_unstable();
}

/// The random number generator of the thread, `rand::rngs::ThreadRng`.
#[verifier::external_type_specification]
#[verifier::external_body]
pub struct ExThreadRng(rand::rngs::ThreadRng);

/// Calls `rand::Rng::gen_range` on the half-open range from `left` to
/// `right`, which must not be empty: the value drawn lies in that range.
/// Nothing else is known of it. The generator of the thread gives up, with a
/// panic, only when the random source of the system fails as it takes a new
/// seed.
#[verifier::external_body]
fn gen_range(rng: &mut rand::rngs::ThreadRng, left: i32, right: i32) -> (value: i32)
    requires
        left < right,
    ensures
        left <= value < right,
{
    rand::Rng::gen_range(rng, left..right)
}

/// A signal without what it carries.
pub open spec fn without_result<T>(signal: Res<T>) -> Res<()> {
    match signal {
        Res::Exit => Res::Exit,
        Res::Back => Res::Back,
        Res::Repeat => Res::Repeat,
        Res::MainMenu => Res::MainMenu,
        Res::Result(_) => Res::Result(()),
    }
}

/// A sequence of `size` values, each at least `left` and below `right`;
/// where the two bounds are equal, each value is that bound.
pub open spec fn drawn_from(items: Seq<i32>, size: nat, left: i32, right: i32) -> bool {
    &&& items.len() == size
    &&& forall|i: int|
        0 <= i < items.len() ==> left <= #[trigger] items[i] && if left < right {
            items[i] < right
        } else {
            items[i] == left
        }
}

#[derive(Debug, Clone, Copy, PartialEq, Eq)]
pub enum ArrayManualInputState {
    AwaitingInputSize,
    AwaitingInputLeft,
    AwaitingInputRight,
}

/// What the sequence generator has to say after a line.
#[derive(Debug, Clone, Copy, PartialEq, Eq)]
pub enum GenerationNotice {
    /// Nothing to say.
    Nothing,
    /// The line is no size.
    InvalidSize,
    /// The line is no left bound.
    InvalidLeft,
    /// The line is no right bound.
    InvalidRight,
    /// The right bound lies below the left one.
    RightBelowLeft,
}

/// The generator after one line: its state, what it has read so far, and
/// its answer, in which `Result` stands for a sequence that was generated.
pub struct GenerationOutcome {
    pub state: ArrayManualInputState,
    pub size: usize,
    pub left: i32,
    pub right: i32,
    pub step: Step<(), GenerationNotice>,
}

/// Asks in turn for a size, a left bound and a right bound, and then
/// generates a sequence of that size from random values within the bounds.
pub struct ArrayGenerationInputStateMachine {
    state: ArrayManualInputState,
    rng: rand::rngs::ThreadRng,
    size: usize,
    left: i32,
    right: i32,
}

impl ArrayGenerationInputStateMachine {
    pub closed spec fn state(&self) -> ArrayManualInputState {
        self.state
    }

    pub closed spec fn size(&self) -> usize {
        self.size
    }

    pub closed spec fn left(&self) -> i32 {
        self.left
    }

    pub closed spec fn right(&self) -> i32 {
        self.right
    }

    /// The random number generator that the sequence is drawn from.
    pub closed spec fn rng(&self) -> rand::rngs::ThreadRng {
        self.rng
    }

    /// What the generator has read after a step, with its answer.
    pub open spec fn outcome(&self, step: Step<(), GenerationNotice>) -> GenerationOutcome {
        GenerationOutcome {
            state: self.state(),
            size: self.size(),
            left: self.left(),
            right: self.right(),
            step,
        }
    }

    /// The answer of the generator to a line that is already trimmed. The
    /// keywords for the main menu, for leaving and for going back one
    /// question are taken before the line is read as a number.
    pub open spec fn spec_step(
        state: ArrayManualInputState,
        size: usize,
        left: i32,
        right: i32,
        line: Seq<char>,
    ) -> GenerationOutcome {
        let quiet = |state: ArrayManualInputState, signal: Res<()>|
            GenerationOutcome {
                state,
                size,
                left,
                right,
                step: Step { signal, notice: GenerationNotice::Nothing },
            };
        let refuse = |notice: GenerationNotice|
            GenerationOutcome {
                state,
                size,
                left,
                right,
                step: Step { signal: Res::Repeat, notice },
            };
        if line == "main"@ {
            quiet(state, Res::MainMenu)
        } else if line == "exit"@ {
            quiet(state, Res::Exit)
        } else if line == "back"@ {
            match state {
                ArrayManualInputState::AwaitingInputSize => quiet(state, Res::Back),
                ArrayManualInputState::AwaitingInputLeft => quiet(
                    ArrayManualInputState::AwaitingInputSize,
                    Res::Repeat,
                ),
                ArrayManualInputState::AwaitingInputRight => quiet(
                    ArrayManualInputState::AwaitingInputLeft,
                    Res::Repeat,
                ),
            }
        } else {
            match state {
                ArrayManualInputState::AwaitingInputSize => match spec_parse_usize(line) {
                    Some(n) => GenerationOutcome {
                        size: n,
                        ..quiet(ArrayManualInputState::AwaitingInputLeft, Res::Repeat)
                    },
                    None => refuse(GenerationNotice::InvalidSize),
                },
                ArrayManualInputState::AwaitingInputLeft => match spec_parse_i32(line) {
                    Some(n) => GenerationOutcome {
                        left: n,
                        ..quiet(ArrayManualInputState::AwaitingInputRight, Res::Repeat)
                    },
                    None => refuse(GenerationNotice::InvalidLeft),
                },
                ArrayManualInputState::AwaitingInputRight => match spec_parse_i32(line) {
                    Some(n) => if n < left {
                        refuse(GenerationNotice::RightBelowLeft)
                    } else {
                        GenerationOutcome { right: n, ..quiet(state, Res::Result(())) }
                    },
                    None => refuse(GenerationNotice::InvalidRight),
                },
            }
        }
    }

    /// A generator that awaits a size and will draw from `rng`.
    pub fn new(rng: rand::rngs::ThreadRng) -> (machine: Self)
        ensures
            machine.state() == ArrayManualInputState::AwaitingInputSize,
            machine.rng() == rng,
            machine.size() == 0,
            machine.left() == 0,
            machine.right() == 0,
    {
        ArrayGenerationInputStateMachine {
            state: ArrayManualInputState::AwaitingInputSize,
            rng,
            size: 0,
            left: 0,
            right: 0,
        }
    }

    pub fn current_state(&self) -> (state: ArrayManualInputState)
        ensures
            state == self.state(),
    {
        self.state
    }

    /// The question of the current state.
    pub fn prompt(&self) -> (text: &'static str)
        ensures
            text@ == match self.state() {
                ArrayManualInputState::AwaitingInputSize => "Input array size or 'main' to return to main menu, or 'exit' to exit program:"@,
                ArrayManualInputState::AwaitingInputLeft => "Input left bound or 'back' to input size again or 'main' to return to main menu, or 'exit' to exit program:"@,
                ArrayManualInputState::AwaitingInputRight => "Input right bound or 'back' to input left bound again or 'main' to return to main menu, or 'exit' to exit program:"@,
            },
    {
        match self.state {
            ArrayManualInputState::AwaitingInputSize => "Input array size or 'main' to return to main menu, or 'exit' to exit program:",
            ArrayManualInputState::AwaitingInputLeft => "Input left bound or 'back' to input size again or 'main' to return to main menu, or 'exit' to exit program:",
            ArrayManualInputState::AwaitingInputRight => "Input right bound or 'back' to input left bound again or 'main' to return to main menu, or 'exit' to exit program:",
        }
    }

    /// Answers one line as it was read. Where the answer carries a sequence,
    /// it is drawn within the bounds that were read.
    pub fn handle_input(&mut self, input: &str) -> (step: Step<Vec<i32>, GenerationNotice>)
        ensures
            final(self).outcome(Step { signal: without_result(step.signal), notice: step.notice })
                == Self::spec_step(
                old(self).state(),
                old(self).size(),
                old(self).left(),
                old(self).right(),
                trimmed(input@),
            ),
            step.signal matches Res::Result(items) ==> drawn_from(
                items@,
                final(self).size() as nat,
                final(self).left(),
                final(self).right(),
            ),
    {
        self.handle_line(trim(input))
    }

    /// Answers one line that is already trimmed.
    pub fn handle_line(&mut self, line: &str) -> (step: Step<Vec<i32>, GenerationNotice>)
        ensures
            final(self).outcome(Step { signal: without_result(step.signal), notice: step.notice })
                == Self::spec_step(
                old(self).state(),
                old(self).size(),
                old(self).left(),
                old(self).right(),
                line@,
            ),
            step.signal matches Res::Result(items) ==> drawn_from(
                items@,
                final(self).size() as nat,
                final(self).left(),
                final(self).right(),
            ),
    {
        if same_text(line, "main") {
            return Step { signal: Res::MainMenu, notice: GenerationNotice::Nothing };
        }
        if same_text(line, "exit") {
            return Step { signal: Res::Exit, notice: GenerationNotice::Nothing };
        }
        if same_text(line, "back") {
            let signal = match self.state {
                ArrayManualInputState::AwaitingInputSize => Res::Back,
                ArrayManualInputState::AwaitingInputLeft => {
                    self.state = ArrayManualInputState::AwaitingInputSize;
                    Res::Repeat
                },
                ArrayManualInputState::AwaitingInputRight => {
                    self.state = ArrayManualInputState::AwaitingInputLeft;
                    Res::Repeat
                },
            };
            return Step { signal, notice: GenerationNotice::Nothing };
        }
        match self.state {
            ArrayManualInputState::AwaitingInputSize => match parse_usize(line) {
                Some(size) => {
                    self.size = size;
                    self.state = ArrayManualInputState::AwaitingInputLeft;
                    Step { signal: Res::Repeat, notice: GenerationNotice::Nothing }
                },
                None => Step { signal: Res::Repeat, notice: GenerationNotice::InvalidSize },
            },
            ArrayManualInputState::AwaitingInputLeft => match parse_i32(line) {
                Some(left) => {
                    self.left = left;
                    self.state = ArrayManualInputState::AwaitingInputRight;
                    Step { signal: Res::Repeat, notice: GenerationNotice::Nothing }
                },
                None => Step { signal: Res::Repeat, notice: GenerationNotice::InvalidLeft },
            },
            ArrayManualInputState::AwaitingInputRight => match parse_i32(line) {
                Some(right) => {
                    if right < self.left {
                        return Step {
                            signal: Res::Repeat,
                            notice: GenerationNotice::RightBelowLeft,
                        };
                    }
                    self.right = right;
                    Step { signal: Res::Result(self.gen()), notice: GenerationNotice::Nothing }
                },
                None => Step { signal: Res::Repeat, notice: GenerationNotice::InvalidRight },
            },
        }
    }

    /// Draws the sequence: as many values as the size says, each within the
    /// bounds. Where the bounds are equal there is nothing to draw from, and
    /// each value is the bound itself.
    fn gen(&mut self) -> (items: Vec<i32>)
        requires
            old(self).left() <= old(self).right(),
        ensures
            drawn_from(items@, old(self).size() as nat, old(self).left(), old(self).right()),
            final(self).state() == old(self).state(),
            final(self).size() == old(self).size(),
            final(self).left() == old(self).left(),
            final(self).right() == old(self).right(),
    {
        let mut items: Vec<i32> = Vec::new();
        let mut drawn: usize = 0;
        while drawn < self.size
            invariant
                drawn <= self.size,
                self.state == old(self).state,
                self.size == old(self).size,
                self.left == old(self).left,
                self.right == old(self).right,
                self.left <= self.right,
                drawn_from(items@, drawn as nat, self.left, self.right),
            decreases self.size - drawn,
        {
            let value = if self.left < self.right {
                gen_range(&mut self.rng, self.left, self.right)
            } else {
                self.left
            };
            items.push(value);
            drawn += 1;
        }
        items
    }
}

/// In every state of the generator the keywords for the main menu and for
/// leaving end it with that signal, and nothing that was read changes.
pub proof fn lemma_generator_unwinds(
    state: ArrayManualInputState,
    size: usize,
    left: i32,
    right: i32,
)
    ensures
        ArrayGenerationInputStateMachine::spec_step(state, size, left, right, "main"@)
            == (GenerationOutcome {
            state,
            size,
            left,
            right,
            step: Step { signal: Res::MainMenu, notice: GenerationNotice::Nothing },
        }),
        ArrayGenerationInputStateMachine::spec_step(state, size, left, right, "exit"@)
            == (GenerationOutcome {
            state,
            size,
            left,
            right,
            step: Step { signal: Res::Exit, notice: GenerationNotice::Nothing },
        }),
{
    reveal_strlit("main");
    reveal_strlit("exit");
    assert("main"@[0] == 'm');
    assert("exit"@[0] == 'e');
}

/// A line that is no number of the kind awaited, and none of the three
/// keywords, changes nothing of what the generator has read: it asks again.
pub proof fn lemma_generator_keeps_state(
    state: ArrayManualInputState,
    size: usize,
    left: i32,
    right: i32,
    line: Seq<char>,
)
    requires
        line != "main"@,
        line != "exit"@,
        line != "back"@,
        match state {
            ArrayManualInputState::AwaitingInputSize => spec_parse_usize(line) is None,
            ArrayManualInputState::AwaitingInputLeft => spec_parse_i32(line) is None,
            ArrayManualInputState::AwaitingInputRight => spec_parse_i32(line) matches Some(n)
                ==> n < left,
        },
    ensures
        ({
            let after = ArrayGenerationInputStateMachine::spec_step(state, size, left, right, line);
            &&& after.state == state
            &&& after.size == size
            &&& after.left == left
            &&& after.right == right
            &&& after.step.signal is Repeat
        }),
{
}

} // verus!
