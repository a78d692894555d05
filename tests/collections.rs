use propverify::collection::{binary_heap, btree_map, btree_set, linked_list, vec_deque};
use propverify::queue::PriorityQueue;
use propverify::symbolic::symbolic_iter;
use propverify::{verifier_verify, Halt, Path, Strategy};

fn path(words: &[u128]) -> Path {
    Path::new(words.to_vec())
}

fn word_i32(v: i32) -> u128 {
    v as u32 as u128
}

#[test]
fn vec_of_five_stays_in_range() {
    let s = propverify::collection::vec(0u32..10u32, 5);
    let v = s.value(&mut path(&[1, 9, 0, 4, 7])).unwrap();
    assert_eq!(v, vec![1, 9, 0, 4, 7]);
    for start in 0u128..10 {
        let words: Vec<u128> = (0..5).map(|i| (start + 3 * i) % 10).collect();
        let v = s.value(&mut path(&words)).unwrap();
        assert_eq!(v.len(), 5);
        assert!(v.iter().all(|x| *x < 10));
    }
    assert_eq!(s.value(&mut path(&[1, 9, 10, 4, 7])), Err(Halt::Pruned));
}

#[test]
fn vec_check_below_five_fails_on_some_path() {
    let v = propverify::collection::vec(0u32..10u32, 5).value(&mut path(&[1, 2, 7, 3, 4])).unwrap();
    let verdict = v.iter().map(|x| verifier_verify(*x < 5)).find(|r| r.is_err());
    assert!(verdict.is_some());
}

#[test]
fn empty_vec_draws_nothing() {
    let mut p = path(&[3]);
    assert_eq!(propverify::collection::vec(0u8..1u8, 0).value(&mut p), Ok(vec![]));
    assert_eq!(p.remaining(), 1);
}

#[test]
fn vec_deque_prepends_each_element() {
    let d = vec_deque(0u32..10u32, 5).value(&mut path(&[1, 2, 3, 4, 5])).unwrap();
    assert_eq!(d.iter().copied().collect::<Vec<u32>>(), vec![5, 4, 3, 2, 1]);
    assert!(d.iter().all(|x| *x < 10));
}

#[test]
fn linked_list_prepends_each_element() {
    let l = linked_list(0u32..10u32, 5).value(&mut path(&[9, 8, 7, 6, 5])).unwrap();
    assert_eq!(l.len(), 5);
    assert_eq!(l.iter().copied().collect::<Vec<u32>>(), vec![5, 6, 7, 8, 9]);
    assert_eq!(linked_list(0u32..10u32, 2).value(&mut path(&[9, 18])), Err(Halt::Pruned));
}

#[test]
fn btree_set_coalesces_equal_keys() {
    let s = btree_set(-100i32..100i32, 5);
    let words: Vec<u128> = [-7, -7, 3, 3, 50, 60].iter().map(|v| word_i32(*v)).collect();
    let set = s.value(&mut path(&words)).unwrap();
    assert_eq!(set.into_iter().collect::<Vec<i32>>(), vec![-7, 3, 50]);
}

#[test]
fn btree_set_prunes_decreasing_keys() {
    let s = btree_set(-100i32..100i32, 3);
    let words: Vec<u128> = [5, 4, 9, 10].iter().map(|v| word_i32(*v)).collect();
    assert_eq!(s.value(&mut path(&words)), Err(Halt::Pruned));
    let outside: Vec<u128> = [5, 6, 100, 101].iter().map(|v| word_i32(*v)).collect();
    assert_eq!(s.value(&mut path(&outside)), Err(Halt::Pruned));
}

#[test]
fn btree_set_of_size_zero_draws_one_key() {
    let mut p = path(&[4, 1]);
    let set = btree_set(0u8..10u8, 0).value(&mut p).unwrap();
    assert!(set.is_empty());
    assert_eq!(p.remaining(), 1);
}

#[test]
fn btree_map_of_five_stays_in_ranges() {
    let s = btree_map(-5i32..5i32, 10u32..20u32, 5);
    // k0, then (value, next key) five times.
    let words: Vec<u128> = vec![
        word_i32(-5), 12, word_i32(-3), 15, word_i32(-3), 19, word_i32(0), 11, word_i32(4), 17,
        word_i32(4),
    ];
    let m = s.value(&mut path(&words)).unwrap();
    assert!(m.len() <= 5);
    assert_eq!(m.len(), 4);
    assert_eq!(m.get(&-3), Some(&19));
    for (k, v) in m.iter() {
        assert!((-5..5).contains(k));
        assert!((10..20).contains(v));
    }
    let failed = m.values().map(|v| verifier_verify(*v > 15)).find(|r| r.is_err());
    assert!(failed.is_some());
}

#[test]
fn btree_map_halts_on_value_or_key() {
    let s = btree_map(-5i32..5i32, 10u32..20u32, 2);
    assert_eq!(s.value(&mut path(&[word_i32(1), 25])), Err(Halt::Pruned));
    assert_eq!(s.value(&mut path(&[word_i32(1), 12, word_i32(0)])), Err(Halt::Pruned));
    assert_eq!(s.value(&mut path(&[word_i32(7)])), Err(Halt::Pruned));
}

#[test]
fn binary_heap_pops_largest_first() {
    let s = binary_heap(0u32..100u32, 5);
    let mut q = s.value(&mut path(&[3, 3, 40, 41, 99, 99])).unwrap();
    assert_eq!(q.len(), 5);
    assert_eq!(q.to_vec(), vec![3, 3, 40, 41, 99]);
    assert_eq!(q.peek(), Some(99));
    let x0 = q.pop().unwrap();
    assert_eq!(x0, 99);
    for x in q.to_vec() {
        assert!(x <= x0);
        assert!(x < 100);
    }
}

#[test]
fn binary_heap_with_equal_keys_has_no_strictly_largest() {
    let mut q = binary_heap(0u32..100u32, 2).value(&mut path(&[7, 7, 8])).unwrap();
    let x0 = q.pop().unwrap();
    assert!(q.to_vec().iter().any(|x| !(*x < x0)));
}

#[test]
fn priority_queue_keeps_order() {
    let mut q: PriorityQueue<i64> = PriorityQueue::new();
    for k in [5i64, -2, 9, 5, 0] {
        q.push(k);
    }
    assert_eq!(q.to_vec(), vec![-2, 0, 5, 5, 9]);
    assert_eq!(q.pop(), Some(9));
    assert_eq!(q.pop(), Some(5));
    assert_eq!(q.len(), 3);
    let mut e: PriorityQueue<u8> = PriorityQueue::new();
    assert_eq!(e.pop(), None);
    assert_eq!(e.peek(), None);
}

#[test]
fn symbolic_iter_hands_out_drawn_count() {
    let mut p = path(&[2, 11, 12, 13]);
    let mut it = symbolic_iter::<u8>(&mut p).unwrap();
    assert_eq!(it.size, 2);
    assert_eq!(it.next(&mut p), Some(Ok(11)));
    assert_eq!(it.next(&mut p), Some(Ok(12)));
    assert_eq!(it.next(&mut p), None);
    assert_eq!(p.remaining(), 1);
}
