use exercise_runner::task2::hash::{CustomHasSet, CustomSetExceedsCapacityError};

#[test]
fn colliding_values_land_in_different_slots() {
    let mut set = CustomHasSet::new(3);
    assert_eq!(set.add(1), Ok(true));
    // 4 has the same primary slot as 1 and must go one slot further
    assert_eq!(set.add(4), Ok(true));
    assert_eq!(set.add(2), Ok(true));
    assert_eq!(set.add(3), Err(CustomSetExceedsCapacityError));
    assert!(set.contains(1));
    assert!(set.contains(4));
    assert!(set.contains(2));
    assert!(!set.contains(3));
}

#[test]
fn third_value_with_the_same_primary_slot_finds_the_table_exhausted() {
    let mut set = CustomHasSet::new(3);
    assert_eq!(set.add(1), Ok(true));
    assert_eq!(set.add(4), Ok(true));
    // every slot but the primary one of 7 is taken, and that one is never tried
    assert_eq!(set.add(7), Err(CustomSetExceedsCapacityError));
    assert!(!set.contains(7));
}

#[test]
fn set_without_slots_takes_nothing_and_holds_nothing() {
    let mut set = CustomHasSet::new(0);
    assert_eq!(set.get_size(), 0);
    for v in [0, 1, -1, 17, i32::MIN, i32::MAX] {
        assert_eq!(set.add(v), Err(CustomSetExceedsCapacityError));
        assert!(!set.contains(v));
    }
}

#[test]
fn set_with_one_slot_is_always_full() {
    let mut set = CustomHasSet::new(1);
    assert_eq!(set.get_size(), 1);
    assert_eq!(set.add(0), Err(CustomSetExceedsCapacityError));
    assert_eq!(set.add(5), Err(CustomSetExceedsCapacityError));
    assert!(!set.contains(0));
    assert!(!set.contains(5));
}

#[test]
fn adding_again_reports_the_value_as_present() {
    let mut set = CustomHasSet::new(5);
    assert_eq!(set.add(12), Ok(true));
    assert_eq!(set.add(12), Ok(false));
    assert_eq!(set.add(12), Ok(false));
    assert_eq!(set.add(7), Ok(true));
    assert_eq!(set.add(12), Ok(false));
    assert_eq!(set.add(7), Ok(false));
    // repeated adds took no further slot: two more values still fit
    assert_eq!(set.add(1), Ok(true));
    assert_eq!(set.add(3), Ok(true));
}

#[test]
fn get_size_is_the_capacity_and_never_changes() {
    let mut set = CustomHasSet::new(4);
    assert_eq!(set.get_size(), 4);
    let _ = set.add(1);
    let _ = set.add(2);
    let _ = set.add(3);
    let _ = set.add(4);
    let _ = set.add(5);
    assert_eq!(set.get_size(), 4);
}

#[test]
fn primary_slot_is_the_absolute_value_modulo_the_capacity() {
    // -7 and 7 share the primary slot 2 of 5; the first goes to slot 3, the second to slot 4
    let mut set = CustomHasSet::new(5);
    assert_eq!(set.add(-7), Ok(true));
    assert_eq!(set.add(7), Ok(true));
    // 3 has the primary slot 3 and starts at slot 4, which is taken, so it lands in slot 0
    assert_eq!(set.add(3), Ok(true));
    // 4 has the primary slot 4 and starts at slot 0, which is taken, so it lands in slot 1
    assert_eq!(set.add(4), Ok(true));
    // slot 2 is the only empty one; 2 has it as primary slot and so cannot use it
    assert_eq!(set.add(2), Err(CustomSetExceedsCapacityError));
    // 6 has the primary slot 1 and reaches slot 2
    assert_eq!(set.add(6), Ok(true));
    for v in [-7, 7, 3, 4, 6] {
        assert!(set.contains(v));
    }
    assert!(!set.contains(2));
}

#[test]
fn least_integer_has_a_primary_slot() {
    let mut set = CustomHasSet::new(7);
    assert_eq!(set.add(i32::MIN), Ok(true));
    assert!(set.contains(i32::MIN));
    assert_eq!(set.add(i32::MIN), Ok(false));
    assert_eq!(set.add(i32::MAX), Ok(true));
    assert!(set.contains(i32::MAX));
}

#[test]
fn contains_on_a_full_table_still_answers_for_absent_values() {
    let mut set = CustomHasSet::new(4);
    assert_eq!(set.add(0), Ok(true));
    assert_eq!(set.add(1), Ok(true));
    assert_eq!(set.add(2), Ok(true));
    assert_eq!(set.add(3), Ok(true));
    assert_eq!(set.add(8), Err(CustomSetExceedsCapacityError));
    assert!(!set.contains(8));
    assert!(!set.contains(100));
    for v in 0..4 {
        assert!(set.contains(v));
    }
}

#[test]
fn no_value_is_stored_twice() {
    let mut set = CustomHasSet::new(8);
    let mut inserted = 0;
    for round in 0..3 {
        for v in [5, 13, 21, 29, -5, 6, 14] {
            match set.add(v) {
                Ok(true) => {
                    assert_eq!(round, 0);
                    inserted += 1;
                }
                Ok(false) => assert!(round > 0),
                Err(_) => assert!(!set.contains(v)),
            }
        }
    }
    assert!(inserted <= 8);
    assert!(inserted >= 6);
}
