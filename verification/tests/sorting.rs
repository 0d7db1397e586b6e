use exercise_runner::task1::quicksort::quicksort;
use exercise_runner::task1::selection_sort::selection_sort;

fn samples() -> Vec<Vec<i32>> {
    let mut all = vec![
        vec![],
        vec![1],
        vec![2, 1],
        vec![1, 2],
        vec![3, 3, 3],
        vec![5, 4, 3, 2, 1],
        vec![1, 2, 3, 4, 5],
        vec![i32::MAX, i32::MIN, 0, -1, 1],
        vec![2, 7, 1, 8, 2, 8, 1, 8, 2, 8],
    ];
    let mut seed: u32 = 99;
    for len in 0..50usize {
        let mut v = Vec::new();
        for _ in 0..len {
            seed = seed.wrapping_mul(1103515245).wrapping_add(12345);
            v.push((seed >> 16) as i32 % 30 - 15);
        }
        all.push(v);
    }
    all
}

#[test]
fn quicksort_sorts_like_the_standard_sort() {
    for sample in samples() {
        let mut expected = sample.clone();
        expected.sort();
        let mut sorted = sample.clone();
        quicksort(&mut sorted);
        assert_eq!(sorted, expected);
    }
}

#[test]
fn selection_sort_sorts_like_the_standard_sort() {
    for sample in samples() {
        let mut expected = sample.clone();
        expected.sort();
        let mut sorted = sample.clone();
        selection_sort(&mut sorted);
        assert_eq!(sorted, expected);
    }
}

#[test]
fn quicksort_of_a_known_sequence() {
    let mut v = vec![3, 1, 2, 3, 0];
    quicksort(&mut v);
    assert_eq!(v, vec![0, 1, 2, 3, 3]);
}

#[test]
fn selection_sort_of_a_known_sequence() {
    let mut v = vec![3, 1, 2, 3, 0];
    selection_sort(&mut v);
    assert_eq!(v, vec![0, 1, 2, 3, 3]);
}

#[test]
fn selection_sort_leaves_an_empty_sequence_empty() {
    let mut v: Vec<i32> = vec![];
    selection_sort(&mut v);
    assert!(v.is_empty());
}
