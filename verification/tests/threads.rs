use multi_group_mining::groups::{get_group_processor_count, num_groups};
use multi_group_mining::threads::{
    available_parallelism, get_active_processor_count_all_groups, parallelism_from,
    positive_parallelism_from,
};

#[test]
fn test_available_parallelism_returns_positive() {
    let count = available_parallelism(None, None);
    assert!(
        count > 0,
        "available_parallelism should return a positive number"
    );
}

#[test]
fn processors_are_detected_where_nothing_is_reported() {
    let count = available_parallelism(None, None);
    assert!(count > 0);
    assert_eq!(available_parallelism(Some(&vec![]), None), count);
    assert_eq!(available_parallelism(Some(&vec![0, 0]), None), count);
    assert_eq!(get_active_processor_count_all_groups(&vec![0], None), count);
}

#[test]
fn a_report_is_taken_as_it_is() {
    assert_eq!(available_parallelism(None, Some(12)), 12);
    assert_eq!(available_parallelism(Some(&vec![0, 0]), Some(7)), 7);
    assert_eq!(available_parallelism(Some(&vec![]), Some(7)), 7);
}

#[test]
fn the_number_is_positive() {
    assert_eq!(available_parallelism(None, Some(0)), 1);
    assert_eq!(available_parallelism(Some(&vec![0]), Some(0)), 1);
    assert_eq!(get_active_processor_count_all_groups(&vec![], Some(0)), 1);
    assert_eq!(positive_parallelism_from(None, None, 0), 1);
    assert_eq!(positive_parallelism_from(None, None, 6), 6);
    assert_eq!(positive_parallelism_from(Some(&vec![64, 8]), None, 6), 72);
}

#[test]
fn groups_are_added_up() {
    assert_eq!(available_parallelism(Some(&vec![64, 32]), Some(64)), 96);
    assert_eq!(
        get_active_processor_count_all_groups(&vec![64, 0, 64, 64], Some(64)),
        192
    );
    assert_eq!(
        available_parallelism(Some(&vec![u32::MAX - 1, 1]), None),
        u32::MAX as usize
    );
}

#[test]
fn every_reading_is_weighed() {
    assert_eq!(parallelism_from(Some(&vec![60, 4]), Some(1), 2), 64);
    assert_eq!(parallelism_from(Some(&vec![0]), Some(1), 2), 1);
    assert_eq!(parallelism_from(Some(&vec![0]), None, 2), 2);
    assert_eq!(parallelism_from(None, Some(1), 2), 1);
    assert_eq!(parallelism_from(None, None, 2), 2);
    assert_eq!(parallelism_from(None, None, 0), 0);
}

#[test]
fn no_groups_without_groups() {
    assert_eq!(num_groups(), 0);
    assert_eq!(get_group_processor_count(0), 0);
    assert_eq!(get_group_processor_count(u16::MAX), 0);
}
