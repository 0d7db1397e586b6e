use exercise_runner::task2::fibonacci::{delete, fib_search, insert};

fn is_sorted(v: &[i32]) -> bool {
    v.windows(2).all(|w| w[0] <= w[1])
}

fn count(v: &[i32], x: i32) -> usize {
    v.iter().filter(|&&y| y == x).count()
}

#[test]
fn search_reports_index_and_insertion_point() {
    let s = vec![1, 3, 5, 7, 9];
    assert_eq!(fib_search(&s, &5), (Some(2), 3));
    assert_eq!(fib_search(&s, &4), (None, 2));
    assert_eq!(fib_search(&s, &10), (None, 5));
}

#[test]
fn search_in_empty_sequence_finds_nothing() {
    let s: Vec<i32> = vec![];
    assert_eq!(fib_search(&s, &7), (None, 0));
}

#[test]
fn search_below_every_element_gives_insertion_point_zero() {
    let s = vec![1, 3, 5, 7, 9];
    assert_eq!(fib_search(&s, &0), (None, 0));
    assert_eq!(fib_search(&s, &i32::MIN), (None, 0));
}

#[test]
fn search_above_every_element_gives_the_length() {
    let s = vec![1, 3, 5, 7, 9, 11, 13, 15];
    assert_eq!(fib_search(&s, &16), (None, 8));
    assert_eq!(fib_search(&s, &i32::MAX), (None, 8));
}

#[test]
fn search_in_single_element_sequence() {
    let s = vec![4];
    assert_eq!(fib_search(&s, &4), (Some(0), 1));
    assert_eq!(fib_search(&s, &3), (None, 0));
    assert_eq!(fib_search(&s, &5), (None, 1));
}

#[test]
fn search_finds_every_element_of_a_sequence_without_repeats() {
    for len in 0..40usize {
        let s: Vec<i32> = (0..len as i32).map(|i| 2 * i + 1).collect();
        for (i, x) in s.iter().enumerate() {
            assert_eq!(fib_search(&s, x), (Some(i), i + 1));
        }
        for gap in 0..=len {
            let absent = 2 * gap as i32;
            assert_eq!(fib_search(&s, &absent), (None, gap));
        }
    }
}

#[test]
fn search_returns_the_first_match_in_probing_order_not_the_leftmost() {
    // probes look at the indices 0, 1, 1, 2, 3, 5: index 4 is stepped over
    let s = vec![1, 2, 3, 4, 7, 7, 9];
    assert_eq!(fib_search(&s, &7), (Some(5), 6));
}

#[test]
fn search_among_equal_elements_stops_at_the_first_probe() {
    let s = vec![5, 5, 5, 5];
    assert_eq!(fib_search(&s, &5), (Some(0), 1));
    let t = vec![1, 5, 5, 5];
    assert_eq!(fib_search(&t, &5), (Some(1), 2));
}

#[test]
fn search_narrows_into_the_range_below_a_greater_probe() {
    // 6 lies between the probes at the indices 5 and 8
    let s = vec![0, 1, 2, 3, 4, 5, 6, 7, 8, 9];
    assert_eq!(fib_search(&s, &6), (Some(6), 7));
    assert_eq!(fib_search(&s, &7), (Some(7), 8));
}

#[test]
fn insert_keeps_the_order_and_adds_one_occurrence() {
    for v in -2..12 {
        let mut s = vec![1, 3, 3, 5, 7, 9, 9, 9];
        let before = s.clone();
        let at = insert(&mut s, v);
        assert!(is_sorted(&s));
        assert_eq!(s.len(), before.len() + 1);
        assert_eq!(s[at], v);
        assert_eq!(count(&s, v), count(&before, v) + 1);
        let mut without = s.clone();
        without.remove(at);
        assert_eq!(without, before);
    }
}

#[test]
fn insert_into_empty_sequence() {
    let mut s: Vec<i32> = vec![];
    assert_eq!(insert(&mut s, 3), 0);
    assert_eq!(s, vec![3]);
}

#[test]
fn insert_places_the_value_where_the_search_points() {
    let mut s = vec![1, 3, 5, 7, 9];
    assert_eq!(insert(&mut s, 4), 2);
    assert_eq!(s, vec![1, 3, 4, 5, 7, 9]);
    assert_eq!(insert(&mut s, 10), 6);
    assert_eq!(s, vec![1, 3, 4, 5, 7, 9, 10]);
    assert_eq!(insert(&mut s, 0), 0);
    assert_eq!(s, vec![0, 1, 3, 4, 5, 7, 9, 10]);
}

#[test]
fn delete_removes_one_occurrence_and_keeps_the_order() {
    for v in [1, 3, 5, 7, 9] {
        let mut s = vec![1, 3, 3, 5, 7, 9, 9, 9];
        let before = s.clone();
        let at = delete(&mut s, &v);
        assert!(at.is_some());
        assert_eq!(before[at.unwrap()], v);
        assert!(is_sorted(&s));
        assert_eq!(count(&s, v) + 1, count(&before, v));
        assert_eq!(s.len() + 1, before.len());
    }
}

#[test]
fn delete_of_absent_value_changes_nothing() {
    let mut s = vec![1, 3, 5, 7, 9];
    assert_eq!(delete(&mut s, &4), None);
    assert_eq!(s, vec![1, 3, 5, 7, 9]);
    let mut empty: Vec<i32> = vec![];
    assert_eq!(delete(&mut empty, &4), None);
    assert!(empty.is_empty());
}

#[test]
fn delete_returns_the_former_index() {
    let mut s = vec![1, 3, 5, 7, 9];
    assert_eq!(delete(&mut s, &5), Some(2));
    assert_eq!(s, vec![1, 3, 7, 9]);
}

#[test]
fn delete_after_insert_restores_the_sequence() {
    for v in -1..12 {
        let before = vec![1, 3, 3, 5, 7, 9, 9, 9];
        let mut s = before.clone();
        insert(&mut s, v);
        assert!(delete(&mut s, &v).is_some());
        assert_eq!(s, before);
    }
}

#[test]
fn search_agrees_with_membership_on_sorted_sequences_with_repeats() {
    let mut seed: u32 = 12345;
    for len in 0..60usize {
        let mut s: Vec<i32> = Vec::new();
        for _ in 0..len {
            seed = seed.wrapping_mul(1664525).wrapping_add(1013904223);
            s.push((seed >> 24) as i32 % 20);
        }
        s.sort();
        for v in -1..21 {
            let (found, point) = fib_search(&s, &v);
            assert_eq!(found.is_some(), s.contains(&v));
            if let Some(i) = found {
                assert_eq!(s[i], v);
                assert_eq!(point, i + 1);
            }
            assert!(s[..point].iter().all(|&x| x <= v));
            assert!(s[point..].iter().all(|&x| x >= v));
        }
    }
}
