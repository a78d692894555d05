use propverify::regressions::{
    binary_heap_pops_largest, test1, test2, test3, test4, test5, test_int1, test_range1,
    test_range2, test_tuple1, vec_in_range,
};
use propverify::{
    verifier_assume, verifier_reject, verifier_report_error, verifier_verify, Halt, Outcome, Path,
    Strategy,
};

fn path(words: &[u128]) -> Path {
    Path::new(words.to_vec())
}

fn word_i32(v: i32) -> u128 {
    v as u32 as u128
}

#[test]
fn primitives_end_paths_as_described() {
    assert_eq!(verifier_assume(true), Ok(()));
    assert_eq!(verifier_assume(false), Err(Halt::Pruned));
    assert_eq!(verifier_reject(), Halt::Rejected);
    assert_eq!(verifier_verify(true), Ok(()));
    let f = verifier_verify(false).unwrap_err();
    assert_eq!(f.message, "verification failed");
    assert_eq!(verifier_report_error("boom").message, "boom");
}

#[test]
fn arithmetic_programs_pass_or_prune() {
    assert_eq!(test1(&mut path(&[5])), Outcome::Passed);
    assert_eq!(test1(&mut path(&[u32::MAX as u128])), Outcome::Halted(Halt::Pruned));
    assert_eq!(test2(&mut path(&[7, 9])), Outcome::Passed);
    assert_eq!(test2(&mut path(&[u32::MAX as u128, 9])), Outcome::Halted(Halt::Pruned));
    assert_eq!(test3(&mut path(&[word_i32(-1000), word_i32(1000)])), Outcome::Passed);
    assert_eq!(test3(&mut path(&[word_i32(i32::MIN), 0])), Outcome::Halted(Halt::Pruned));
    assert_eq!(test4(&mut path(&[8, 3])), Outcome::Passed);
    assert_eq!(test5(&mut path(&[1, 2])), Outcome::Halted(Halt::Rejected));
}

#[test]
fn strategy_programs_pass_or_prune() {
    assert_eq!(test_int1(&mut path(&[9])), Outcome::Passed);
    assert_eq!(test_int1(&mut path(&[10])), Outcome::Halted(Halt::Pruned));
    assert_eq!(test_tuple1(&mut path(&[4, 2])), Outcome::Passed);
    let a = word_i32(i32::MAX / 2 - 1);
    let b = word_i32(i32::MIN / 2);
    assert_eq!(test_range1(&mut path(&[a, b])), Outcome::Passed);
    assert_eq!(test_range2(&mut path(&[b, a])), Outcome::Passed);
    assert_eq!(test_range1(&mut path(&[word_i32(i32::MAX / 2), b])), Outcome::Halted(Halt::Pruned));
}

#[test]
fn half_range_sums_commute() {
    let s = (i32::MIN / 2..i32::MAX / 2, i32::MIN / 2..i32::MAX / 2);
    for (x, y) in [(i32::MIN / 2, i32::MIN / 2), (i32::MAX / 2 - 1, i32::MAX / 2 - 1), (-3, 8)] {
        let (a, b) = s.value(&mut path(&[word_i32(x), word_i32(y)])).unwrap();
        assert_eq!(a.checked_add(b), b.checked_add(a));
        assert!(a.checked_add(b).is_some());
    }
}

#[test]
fn full_range_sum_overflows_on_some_path() {
    let s = (0..i32::MAX, 0..i32::MAX);
    let (a, b) = s.value(&mut path(&[word_i32(i32::MAX - 1), word_i32(i32::MAX - 1)])).unwrap();
    assert!(a.checked_add(b).is_none());
}

#[test]
fn abort_and_replay() {
    assert_eq!(propverify::verifier_abort().message, "aborted");
    assert!(!propverify::verifier_is_replay(&path(&[1])));
    assert!(propverify::verifier_is_replay(&Path::replayed(vec![1])));
}


#[test]
fn collection_programs_pass_or_prune() {
    assert_eq!(vec_in_range(&mut path(&[0, 1, 2, 3, 9])), Outcome::Passed);
    assert_eq!(vec_in_range(&mut path(&[0, 1, 12, 3, 9])), Outcome::Halted(Halt::Pruned));
    assert_eq!(binary_heap_pops_largest(&mut path(&[1, 5, 5, 50, 99, 99])), Outcome::Passed);
    assert_eq!(binary_heap_pops_largest(&mut path(&[1, 5, 4, 50, 99, 99])), Outcome::Halted(Halt::Pruned));
}
