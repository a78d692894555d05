use propverify::scalar::Scalar;
use propverify::strategy::{Any, ArrayStrategy, OptionStrategy, ResultStrategy};
use propverify::symbolic::Symbolic;
use propverify::{Halt, Just, Path, Strategy, StrategyExt};

fn path(words: &[u128]) -> Path {
    Path::new(words.to_vec())
}

fn word_i32(v: i32) -> u128 {
    v as u32 as u128
}

#[test]
fn half_open_range_keeps_bounds() {
    let s = 3u32..7u32;
    for w in 0u128..20 {
        let r = s.value(&mut path(&[w]));
        if (3..7).contains(&w) {
            assert_eq!(r, Ok(w as u32));
        } else {
            assert_eq!(r, Err(Halt::Pruned));
        }
    }
}

#[test]
fn range_reads_low_bits_of_a_word() {
    let s = 0u8..10u8;
    assert_eq!(s.value(&mut path(&[0x1_0000_0005])), Ok(5));
    let t = -10i8..10i8;
    assert_eq!(t.value(&mut path(&[0xFB])), Ok(-5));
}

#[test]
fn every_range_shape_prunes_outside() {
    assert_eq!((5u16..=9u16).value(&mut path(&[9])), Ok(9));
    assert_eq!((5u16..=9u16).value(&mut path(&[10])), Err(Halt::Pruned));
    assert_eq!((5u16..=9u16).value(&mut path(&[4])), Err(Halt::Pruned));
    assert_eq!((100u64..).value(&mut path(&[100])), Ok(100));
    assert_eq!((100u64..).value(&mut path(&[99])), Err(Halt::Pruned));
    assert_eq!((..-3i64).value(&mut path(&[u64::MAX as u128 - 3])), Ok(-4));
    assert_eq!((..-3i64).value(&mut path(&[u64::MAX as u128 - 2])), Err(Halt::Pruned));
    assert_eq!((..=-3i64).value(&mut path(&[u64::MAX as u128 - 2])), Ok(-3));
    assert_eq!((..=7usize).value(&mut path(&[8])), Err(Halt::Pruned));
}

#[test]
fn exhausted_path_reads_zero() {
    let mut p = path(&[]);
    assert_eq!((0u32..1u32).value(&mut p), Ok(0));
    assert_eq!(p.remaining(), 0);
}

#[test]
fn range_achieves_each_value_once_drawn() {
    for v in -4i32..4 {
        assert_eq!((-4i32..4i32).value(&mut path(&[word_i32(v)])), Ok(v));
    }
    assert_eq!((-4i32..4i32).value(&mut path(&[word_i32(4)])), Err(Halt::Pruned));
    assert_eq!((-4i32..4i32).value(&mut path(&[word_i32(-5)])), Err(Halt::Pruned));
}

#[test]
fn any_bool_keeps_zero_and_one() {
    let s = Any::<bool>::new();
    assert_eq!(s.value(&mut path(&[0])), Ok(false));
    assert_eq!(s.value(&mut path(&[1])), Ok(true));
    assert_eq!(s.value(&mut path(&[2])), Err(Halt::Pruned));
    assert_eq!(s.value(&mut path(&[0x100])), Ok(false));
}

#[test]
fn any_char_rejects_non_code_points() {
    let s = Any::<char>::new();
    assert_eq!(s.value(&mut path(&['x' as u128])), Ok('x'));
    assert_eq!(s.value(&mut path(&[0x1F600])), Ok('\u{1F600}'));
    assert_eq!(s.value(&mut path(&[0xD800])), Err(Halt::Rejected));
    assert_eq!(s.value(&mut path(&[0x110000])), Err(Halt::Rejected));
}

#[test]
fn just_gives_its_value() {
    let mut p = path(&[7]);
    assert_eq!(Just(41u8).value(&mut p), Ok(41));
    assert_eq!(p.remaining(), 1);
}

#[test]
fn map_applies_to_each_value() {
    let s = (0u32..10u32).prop_map(|x: u32| x * 3);
    assert_eq!(s.value(&mut path(&[4])), Ok(12));
    assert_eq!(s.value(&mut path(&[11])), Err(Halt::Pruned));
}

#[test]
fn map_into_converts() {
    let s = (0u8..).prop_map_into::<u32>();
    assert_eq!(s.value(&mut path(&[0x1FF])), Ok(255u32));
}

#[test]
fn filter_prunes_rejected_values() {
    let s = (0u32..).prop_filter("multiple of four", |x: &u32| x % 4 == 0);
    assert_eq!(s.value(&mut path(&[8])), Ok(8));
    assert_eq!(s.value(&mut path(&[6])), Err(Halt::Pruned));
    for w in 0u128..64 {
        if let Ok(a) = s.value(&mut path(&[w])) {
            assert_eq!(a % 2, 0);
        }
    }
}

#[test]
fn filter_map_rejects_missing_values() {
    let s = (0u32..).prop_filter_map("even", |x: u32| if x % 2 == 0 { Some(x * 2) } else { None });
    assert_eq!(s.value(&mut path(&[6])), Ok(12));
    assert_eq!(s.value(&mut path(&[7])), Err(Halt::Rejected));
    for w in 0u128..64 {
        if let Ok(a) = s.value(&mut path(&[w])) {
            assert_eq!(a % 4, 0);
        }
    }
}

#[test]
fn flat_map_draws_from_built_strategy() {
    let s = (1i32..65536i32).prop_flat_map(|a: i32| (Just(a), 0..a));
    assert_eq!(s.value(&mut path(&[10, 3])), Ok((10, 3)));
    assert_eq!(s.value(&mut path(&[10, 10])), Err(Halt::Pruned));
    let t = (1i32..65536i32).prop_ind_flat_map(|a: i32| (Just(a), 0..a));
    assert_eq!(t.value(&mut path(&[5, 4])), Ok((5, 4)));
    assert_eq!(t.value(&mut path(&[0, 0])), Err(Halt::Pruned));
}

#[test]
fn ind_flat_map2_pairs_both_values() {
    let s = (1i32..65536i32).prop_ind_flat_map2(|a: i32| 0..a);
    assert_eq!(s.value(&mut path(&[9, 8])), Ok((9, 8)));
    assert_eq!(s.value(&mut path(&[9, 9])), Err(Halt::Pruned));
    for w in 0u128..20 {
        if let Ok((a, b)) = s.value(&mut path(&[7, w])) {
            assert!(a > b);
        }
    }
}

#[test]
fn union_picks_by_selector_parity() {
    let s = (0i32..10i32).prop_union(20i32..30i32);
    assert_eq!(s.value(&mut path(&[0, 4])), Ok(4));
    assert_eq!(s.value(&mut path(&[2, 4])), Ok(4));
    assert_eq!(s.value(&mut path(&[1, 24])), Ok(24));
    assert_eq!(s.value(&mut path(&[1, 4])), Err(Halt::Pruned));
    for sel in 0u128..4 {
        for w in 0u128..40 {
            if let Ok(a) = s.value(&mut path(&[sel, w])) {
                assert!(a != 15);
                assert!((0..10).contains(&a) || (20..30).contains(&a));
            }
        }
    }
}

#[test]
fn tuple_draws_left_to_right() {
    let s = (0u8..10u8, 0u16.., Just(5i64));
    assert_eq!(s.value(&mut path(&[3, 700])), Ok((3, 700, 5)));
    assert_eq!(s.value(&mut path(&[30, 700])), Err(Halt::Pruned));
    let big = (0u8..1, 0u8..2, 0u8..3, 0u8..4, 0u8..5, 0u8..6, 0u8..7, 0u8..8, 0u8..9, 0u8..10, 0u8..11, 0u8..12);
    let r = big.value(&mut path(&[0, 1, 2, 3, 4, 5, 6, 7, 8, 9, 10, 11]));
    assert_eq!(r, Ok((0, 1, 2, 3, 4, 5, 6, 7, 8, 9, 10, 11)));
}

#[test]
fn array_draws_each_item() {
    let s: ArrayStrategy<_, [u32; 3]> = ArrayStrategy::new(0u32..10u32);
    assert_eq!(s.value(&mut path(&[1, 2, 3])), Ok([1, 2, 3]));
    assert_eq!(s.value(&mut path(&[1, 12, 3])), Err(Halt::Pruned));
    let e: ArrayStrategy<_, [u32; 0]> = ArrayStrategy::new(0u32..10u32);
    assert_eq!(e.value(&mut path(&[])), Ok([]));
}

#[test]
fn option_strategy_follows_drawn_bool() {
    let s = OptionStrategy::new(0u8..5u8);
    assert_eq!(s.value(&mut path(&[1, 3])), Ok(Some(3)));
    assert_eq!(s.value(&mut path(&[0, 3])), Ok(None));
    assert_eq!(s.value(&mut path(&[2, 3])), Err(Halt::Pruned));
    assert_eq!(s.value(&mut path(&[1, 9])), Err(Halt::Pruned));
}

#[test]
fn result_strategy_follows_drawn_bool() {
    let s = ResultStrategy::new(0u8..5u8, Any::<char>::new());
    assert_eq!(s.value(&mut path(&[1, 3])), Ok(Ok(3)));
    assert_eq!(s.value(&mut path(&[0, 'q' as u128])), Ok(Err('q')));
    assert_eq!(s.value(&mut path(&[0, 0xDFFF])), Err(Halt::Rejected));
}

#[test]
fn boxed_strategy_draws_as_the_hidden_one() {
    let s = (0u32..4u32).prop_map(|x: u32| x + 100).boxed();
    assert_eq!(s.value(&mut path(&[2])), Ok(102));
    assert_eq!(s.value(&mut path(&[5])), Err(Halt::Pruned));
}

#[test]
fn scalar_bits_round_trip() {
    assert_eq!(<i16 as Scalar>::from_bits((-300i16) as u128), -300);
    assert_eq!(<u64 as Scalar>::from_bits(u128::MAX), u64::MAX);
    assert!(<i8 as Scalar>::less(-1, 0));
    assert!(<u8 as Scalar>::leq(7, 7));
}

#[test]
fn symbolic_values_of_compound_types() {
    assert_eq!(<(u8, bool)>::symbolic(&mut path(&[9, 1])), Ok((9, true)));
    assert_eq!(<Option<u16>>::symbolic(&mut path(&[1, 65])), Ok(Some(65)));
    assert_eq!(<Option<u16>>::symbolic(&mut path(&[0, 65])), Ok(None));
    assert_eq!(<Result<u8, char>>::symbolic(&mut path(&[0, 'z' as u128])), Ok(Err('z')));
    assert_eq!(<Vec<u8>>::symbolic(&mut path(&[3, 4, 5, 6, 7])), Ok(vec![4, 5, 6]));
    assert_eq!(<Vec<bool>>::symbolic(&mut path(&[2, 1, 5])), Err(Halt::Pruned));
    assert_eq!(<Box<u32>>::symbolic(&mut path(&[77])), Ok(Box::new(77)));
    assert_eq!(<()>::symbolic(&mut path(&[])), Ok(()));
}

#[test]
fn symbolic_ranges_order_their_bounds() {
    assert_eq!(<core::ops::Range<u32>>::symbolic(&mut path(&[9, 2])), Ok(2..9));
    assert_eq!(<core::ops::Range<u32>>::symbolic(&mut path(&[2, 9])), Ok(2..9));
    assert_eq!(<core::ops::RangeFrom<u8>>::symbolic(&mut path(&[4])), Ok(4..));
    assert_eq!(<core::ops::RangeTo<u8>>::symbolic(&mut path(&[4])), Ok(..4));
    assert_eq!(<core::ops::RangeToInclusive<u8>>::symbolic(&mut path(&[4])), Ok(..=4));
}

#[test]
fn symbolic_strings_reject_invalid_bytes() {
    assert_eq!(String::symbolic(&mut path(&[2, 0x68, 0x69])), Ok("hi".to_string()));
    assert_eq!(String::symbolic(&mut path(&[2, 0xC3, 0xA9])), Ok("\u{e9}".to_string()));
    assert_eq!(String::symbolic(&mut path(&[1, 0xFF])), Err(Halt::Rejected));
    assert_eq!(String::symbolic(&mut path(&[0])), Ok(String::new()));
}

#[test]
fn symbolic_tuples_and_arrays() {
    let t = <(u8, i16, bool)>::symbolic(&mut path(&[1, 0xFFFF, 1])).unwrap();
    assert_eq!(t, (1, -1, true));
    assert_eq!(<(u8, bool, u8)>::symbolic(&mut path(&[1, 3, 1])), Err(Halt::Pruned));
    assert_eq!(<[u16; 3]>::symbolic(&mut path(&[4, 5, 6])), Ok([4, 5, 6]));
    assert_eq!(<[bool; 2]>::symbolic(&mut path(&[1, 7])), Err(Halt::Pruned));
}

#[test]
fn symbolic_queues_and_sets() {
    let d = <std::collections::VecDeque<u8>>::symbolic(&mut path(&[3, 1, 2, 3])).unwrap();
    assert_eq!(d.into_iter().collect::<Vec<u8>>(), vec![1, 2, 3]);
    let s = <std::collections::BTreeSet<u8>>::symbolic(&mut path(&[4, 9, 1, 9, 4])).unwrap();
    assert_eq!(s.into_iter().collect::<Vec<u8>>(), vec![1, 4, 9]);
}

#[test]
fn symbolic_inclusive_ranges_maps_and_durations() {
    assert_eq!(<core::ops::RangeInclusive<u8>>::symbolic(&mut path(&[9, 2])), Ok(2..=9));
    assert_eq!(<core::ops::RangeInclusive<i8>>::symbolic(&mut path(&[1, 0xFF])), Ok(-1..=1));
    let m = <std::collections::BTreeMap<u8, bool>>::symbolic(&mut path(&[3, 4, 1, 2, 0, 4, 0]))
        .unwrap();
    assert_eq!(m.into_iter().collect::<Vec<(u8, bool)>>(), vec![(2, false), (4, false)]);
    assert_eq!(
        <std::collections::BTreeMap<u8, bool>>::symbolic(&mut path(&[1, 4, 7])),
        Err(Halt::Pruned)
    );
    let d = core::time::Duration::symbolic(&mut path(&[5, 1_500_000_000])).unwrap();
    assert_eq!(d, core::time::Duration::new(5, 500_000_000));
}
