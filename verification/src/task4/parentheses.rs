//! Whether a text has as many opening as closing parentheses.

use crate::task4::stack::Stack;
use crate::text::lemma_chars_within_bytes;
use vstd::prelude::*;

verus! {

/// What the count of the parentheses of a text comes to.
#[derive(Debug, Clone, Copy, PartialEq, Eq)]
pub enum Balance {
    /// As many opening as closing parentheses.
    Balanced,
    /// `count` parentheses of the given kind have no partner.
    Extra { count: usize, kind: char },
}

/// By how many the opening parentheses of a text outnumber the closing
/// ones; negative where the closing ones are more.
pub open spec fn surplus(s: Seq<char>) -> int
    decreases s.len(),
{
    if s.len() == 0 {
        0
    } else {
        surplus(s.drop_last()) + if s.last() == '(' {
            1int
        } else if s.last() == ')' {
            -1int
        } else {
            0int
        }
    }
}

/// The balance that belongs to a surplus.
pub open spec fn spec_balance(surplus: int) -> Balance {
    if surplus == 0 {
        Balance::Balanced
    } else if surplus > 0 {
        Balance::Extra { count: surplus as usize, kind: '(' }
    } else {
        Balance::Extra { count: (-surplus) as usize, kind: ')' }
    }
}

/// The stack that stands for a surplus: as many parentheses as its size,
/// opening ones where it is positive and closing ones where it is negative.
pub open spec fn pile(surplus: int) -> Seq<char> {
    if surplus >= 0 {
        Seq::new(surplus as nat, |i: int| '(')
    } else {
        Seq::new((-surplus) as nat, |i: int| ')')
    }
}

/// The surplus of a text is at most its length, either way.
pub proof fn lemma_surplus_bounded(s: Seq<char>)
    ensures
        -s.len() <= surplus(s) <= s.len(),
    decreases s.len(),
{
    if s.len() > 0 {
        lemma_surplus_bounded(s.drop_last());
    }
}

/// Counts the parentheses of a text against each other. Every parenthesis
/// either joins those of its kind on the stack or cancels one of the other
/// kind, so what is left on the stack is the surplus of one kind.
pub fn parentheses(string: &str) -> (balance: Balance)
    ensures
        balance == spec_balance(surplus(string@)),
{
    broadcast use vstd::string::group_string_axioms;

    let mut parentheses_stack: Stack<char> = Stack::new(string.as_bytes().len());
    proof {
        lemma_chars_within_bytes(string@);
    }
    for c in it: string.chars()
        invariant
            it.seq() == string@,
            string@.len() <= parentheses_stack.capacity(),
            parentheses_stack.wf(),
            parentheses_stack@ == pile(surplus(string@.take(it.index()))),
    {
        let ghost before = string@.take(it.index());
        let ghost after = string@.take(it.index() + 1);
        proof {
            assert(after.drop_last() =~= before);
            lemma_surplus_bounded(before);
        }
        if c == '(' || c == ')' {
            let same = match parentheses_stack.peek() {
                Some(l) => Some(c == *l),
                None => None,
            };
            match same {
                Some(false) => {
                    parentheses_stack.pop().unwrap();
                },
                _ => {
                    parentheses_stack.push(c).unwrap();
                },
            }
            assert(parentheses_stack@ =~= pile(surplus(after)));
        }
    }
    proof {
        assert(string@.take(string@.len() as int) =~= string@);
    }
    match parentheses_stack.get_len() {
        0 => Balance::Balanced,
        count => Balance::Extra { count, kind: *parentheses_stack.peek().unwrap() },
    }
}

} // verus!
