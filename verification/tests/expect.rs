use core_tester::expect::{
    compare_bytes, compare_text, counts_from, same_ids, sorted_ids, Comparison,
};

#[test]
fn identical_payloads_compare_same() {
    assert_eq!(compare_bytes(&[], &[]), Comparison::Same);
    assert_eq!(compare_bytes(&[1, 2, 3], &[1, 2, 3]), Comparison::Same);
    let long: Vec<u8> = (0..10000).map(|i| (i % 251) as u8).collect();
    assert_eq!(compare_bytes(&long, &long.clone()), Comparison::Same);
}

#[test]
fn first_difference_is_reported() {
    assert_eq!(compare_bytes(&[1, 2, 3], &[9, 2, 3]), Comparison::DiffersAt(0));
    assert_eq!(compare_bytes(&[1, 2, 3], &[1, 2, 4]), Comparison::DiffersAt(2));
    assert_eq!(compare_bytes(&[1, 2, 3, 4], &[1, 0, 3, 0]), Comparison::DiffersAt(1));
}

#[test]
fn lengths_are_compared_first() {
    assert_eq!(compare_bytes(&[], &[0]), Comparison::LengthsDiffer);
    assert_eq!(compare_bytes(&[1, 2, 3], &[9, 2]), Comparison::LengthsDiffer);
    assert_eq!(compare_bytes(&[1, 2], &[1, 2, 3]), Comparison::LengthsDiffer);
}

#[test]
fn texts_compare_by_their_bytes() {
    assert_eq!(compare_text("", ""), Comparison::Same);
    assert_eq!(compare_text("hello", "hello"), Comparison::Same);
    assert_eq!(compare_text("hello", "help!"), Comparison::DiffersAt(3));
    assert_eq!(compare_text("hello", "hell"), Comparison::LengthsDiffer);
    assert_eq!(compare_text("é", "e"), Comparison::LengthsDiffer);
    assert_eq!(compare_text("aé", "aè"), Comparison::DiffersAt(2));
}

#[test]
fn counting_sequences_are_accepted() {
    assert!(counts_from(&vec![], 0));
    assert!(counts_from(&vec![], 17));
    assert!(counts_from(&vec![0], 0));
    assert!(counts_from(&vec![0, 1, 2, 3], 0));
    assert!(counts_from(&vec![1, 2, 3], 1));
    assert!(counts_from(&vec![-2, -1, 0, 1], -2));
    assert!(counts_from(&vec![i32::MAX - 1, i32::MAX], i32::MAX - 1));
    let many: Vec<i32> = (0..10000).collect();
    assert!(counts_from(&many, 0));
}

#[test]
fn gaps_duplicates_and_wrong_starts_are_rejected() {
    assert!(!counts_from(&vec![0, 1, 3], 0));
    assert!(!counts_from(&vec![0, 1, 1], 0));
    assert!(!counts_from(&vec![0, 2, 1], 0));
    assert!(!counts_from(&vec![1, 2, 3], 0));
    assert!(!counts_from(&vec![0], 1));
    assert!(!counts_from(&vec![i32::MAX, i32::MIN], i32::MAX));
    assert!(!counts_from(&vec![i32::MAX, i32::MAX], i32::MAX));
}

#[test]
fn sorting_puts_identifiers_in_ascending_order() {
    assert_eq!(sorted_ids(vec![]), Vec::<i32>::new());
    assert_eq!(sorted_ids(vec![-2, -3, -1]), vec![-3, -2, -1]);
    assert_eq!(sorted_ids(vec![3, 1, 2, 1]), vec![1, 1, 2, 3]);
    assert_eq!(sorted_ids(vec![i32::MAX, 0, i32::MIN]), vec![i32::MIN, 0, i32::MAX]);
}

#[test]
fn same_ids_ignores_order_but_not_multiplicity() {
    assert!(same_ids(vec![], vec![]));
    assert!(same_ids(vec![-2, -3, -1], vec![-3, -2, -1]));
    assert!(same_ids(vec![1, 1, 2], vec![2, 1, 1]));
    assert!(!same_ids(vec![1, 1, 2], vec![1, 2, 2]));
    assert!(!same_ids(vec![1, 2], vec![1, 2, 2]));
    assert!(!same_ids(vec![-2, -3, -1], vec![-3, -2, 1]));
    assert!(!same_ids(vec![1], vec![]));
}
