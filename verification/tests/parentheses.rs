use exercise_runner::task4::parentheses::{parentheses, Balance};

#[test]
fn text_without_parentheses_is_balanced() {
    assert_eq!(parentheses(""), Balance::Balanced);
    assert_eq!(parentheses("no brackets [here]"), Balance::Balanced);
}

#[test]
fn pairs_cancel() {
    assert_eq!(parentheses("()"), Balance::Balanced);
    assert_eq!(parentheses("(a(b)c)"), Balance::Balanced);
    assert_eq!(parentheses("(()())(())"), Balance::Balanced);
}

#[test]
fn only_the_counts_matter_not_the_order() {
    assert_eq!(parentheses(")("), Balance::Balanced);
    assert_eq!(parentheses("))(("), Balance::Balanced);
}

#[test]
fn extra_opening_parentheses_are_counted() {
    assert_eq!(parentheses("("), Balance::Extra { count: 1, kind: '(' });
    assert_eq!(parentheses("((a)(b"), Balance::Extra { count: 2, kind: '(' });
}

#[test]
fn extra_closing_parentheses_are_counted() {
    assert_eq!(parentheses(")"), Balance::Extra { count: 1, kind: ')' });
    assert_eq!(parentheses("a)b)c)(d"), Balance::Extra { count: 2, kind: ')' });
}

#[test]
fn characters_of_several_bytes_are_passed_over() {
    assert_eq!(parentheses("(é)(ß"), Balance::Extra { count: 1, kind: '(' });
    assert_eq!(parentheses("日本(語)"), Balance::Balanced);
}
