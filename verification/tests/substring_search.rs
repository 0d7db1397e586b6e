use exercise_runner::task3::substr_search::{boyer_moor_search, search_chars, search_if_searchable};

#[test]
fn search_reports_every_offset_of_a_simple_pattern() {
    assert_eq!(boyer_moor_search("abcabcabc", "abc", true), vec![0, 3, 6]);
    assert_eq!(boyer_moor_search("hello world", "o", true), vec![4, 7]);
    assert_eq!(boyer_moor_search("hello world", "world", true), vec![6]);
    assert_eq!(boyer_moor_search("hello world", "xyz", true), Vec::<usize>::new());
}

#[test]
fn search_reports_overlapping_occurrences() {
    assert_eq!(boyer_moor_search("aaaa", "aa", true), vec![0, 1, 2]);
}

#[test]
fn pattern_as_long_as_the_text() {
    assert_eq!(boyer_moor_search("abc", "abc", true), vec![0]);
    assert_eq!(boyer_moor_search("abc", "abd", true), Vec::<usize>::new());
}

#[test]
fn case_counts_only_where_asked() {
    assert_eq!(boyer_moor_search("xABCx", "abc", true), Vec::<usize>::new());
    assert_eq!(boyer_moor_search("xABCx", "abc", false), vec![1]);
    assert_eq!(boyer_moor_search("xabcx", "ABC", false), vec![1]);
}

#[test]
fn offsets_count_characters_not_bytes() {
    assert_eq!(boyer_moor_search("äöü-äöü", "öü", true), vec![1, 5]);
}

#[test]
fn search_can_step_over_an_occurrence() {
    // after the difference at index 2 the window moves behind it, past the
    // occurrence at offset 2
    assert_eq!(boyer_moor_search("aaccxcx", "ccxcx", true), Vec::<usize>::new());
}

#[test]
fn search_on_characters_agrees_with_the_search_on_text() {
    let text: Vec<char> = "abracadabra".chars().collect();
    let pattern: Vec<char> = "abra".chars().collect();
    assert_eq!(search_chars(&text, &pattern), vec![0, 7]);
    assert_eq!(boyer_moor_search("abracadabra", "abra", true), vec![0, 7]);
}

#[test]
fn search_is_refused_for_an_empty_or_too_long_pattern() {
    assert_eq!(search_if_searchable("abc", "", true), None);
    assert_eq!(search_if_searchable("", "", true), None);
    assert_eq!(search_if_searchable("ab", "abc", true), None);
    assert_eq!(search_if_searchable("ab", "abc", false), None);
    assert_eq!(search_if_searchable("abcabc", "bc", true), Some(vec![1, 4]));
    assert_eq!(search_if_searchable("aBcAbC", "bc", false), Some(vec![1, 4]));
}

#[test]
fn every_reported_offset_is_an_occurrence() {
    let texts = ["abababab", "mississippi", "aaaaaaaa", "the cat sat on the mat"];
    let patterns = ["ab", "ss", "aaa", "at", "issi", "b", "the"];
    for text in texts {
        for pattern in patterns {
            if let Some(found) = search_if_searchable(text, pattern, true) {
                for at in found {
                    assert_eq!(&text[at..at + pattern.len()], pattern);
                }
            }
        }
    }
}
