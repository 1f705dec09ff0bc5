use par_array::array::PrimitiveArray;
use par_array::par_iter::{DataProducer, ParDataIter};

/// Collects a producer in parallel with rayon's fork-join primitive:
/// splits recursively down to `min_len` elements, drains each leaf on
/// whatever thread it landed on, and concatenates the results in order.
fn par_collect(p: DataProducer<i32>, min_len: usize) -> Vec<Option<i32>> {
    let n = p.len();
    if n < 2 || n <= min_len {
        p.into_iter()
    } else {
        let (l, r) = p.split_at(n / 2);
        let (mut a, b) = rayon::join(|| par_collect(l, min_len), || par_collect(r, min_len));
        a.extend(b);
        a
    }
}

fn dense(values: &[i32]) -> PrimitiveArray<i32> {
    PrimitiveArray::new(values.to_vec(), None)
}

fn nullable(values: &[i32], presence: &[bool]) -> PrimitiveArray<i32> {
    PrimitiveArray::new(values.to_vec(), Some(presence.to_vec()))
}

#[test]
fn test_par_iter() {
    let arr = dense(&[1, 2, 3, 4, 5]);
    let iter = ParDataIter::new(arr);
    let v = par_collect(iter.with_producer(), 2);
    assert_eq!(v, vec![Some(1), Some(2), Some(3), Some(4), Some(5)]);
}

#[test]
fn test_serial_matches_parallel_dense() {
    let expected = vec![Some(1), Some(2), Some(3), Some(4), Some(5)];
    let serial = ParDataIter::new(dense(&[1, 2, 3, 4, 5])).with_producer().into_iter();
    assert_eq!(serial, expected);
    for min_len in [0, 1, 2, 3, 10] {
        let parallel = par_collect(ParDataIter::new(dense(&[1, 2, 3, 4, 5])).with_producer(), min_len);
        assert_eq!(parallel, expected);
    }
}

#[test]
fn test_parallel_matches_serial_any_granularity() {
    let values: Vec<i32> = (0..97).collect();
    let presence: Vec<bool> = (0..97).map(|i| i % 3 != 1).collect();
    let serial = ParDataIter::new(nullable(&values, &presence)).with_producer().into_iter();
    for min_len in [0, 1, 2, 5, 16, 64, 1000] {
        let arr = nullable(&values, &presence);
        let parallel = par_collect(ParDataIter::new(arr).with_producer(), min_len);
        assert_eq!(parallel, serial);
    }
}

#[test]
fn test_split_concat_every_index() {
    let values = [1, 2, 3];
    let presence = [true, false, true];
    let full = ParDataIter::new(nullable(&values, &presence)).with_producer().into_iter();
    for k in 0..=values.len() {
        let p = ParDataIter::new(nullable(&values, &presence)).with_producer();
        let (l, r) = p.split_at(k);
        let mut joined = l.into_iter();
        joined.extend(r.into_iter());
        assert_eq!(joined, full);
    }
}

#[test]
fn test_split_lengths_sum() {
    for k in 0..=4 {
        let p = ParDataIter::new(dense(&[9, 8, 7, 6])).with_producer();
        let n = p.len();
        let (l, r) = p.split_at(k);
        assert_eq!(l.len() + r.len(), n);
        assert_eq!(l.len(), k);
    }
}

#[test]
fn test_split_at_zero_and_len() {
    let p = ParDataIter::new(nullable(&[4, 5], &[false, true])).with_producer();
    let (l, r) = p.split_at(0);
    assert_eq!(l.into_iter(), vec![]);
    assert_eq!(r.into_iter(), vec![None, Some(5)]);

    let p = ParDataIter::new(nullable(&[4, 5], &[false, true])).with_producer();
    let (l, r) = p.split_at(2);
    assert_eq!(l.into_iter(), vec![None, Some(5)]);
    assert_eq!(r.into_iter(), vec![]);
}

#[test]
fn test_scenario_presence_bitmap() {
    let arr = nullable(&[1, 2, 3], &[true, false, true]);
    let seq = ParDataIter::new(arr).with_producer().into_iter();
    assert_eq!(seq, vec![Some(1), None, Some(3)]);

    let p = ParDataIter::new(nullable(&[1, 2, 3], &[true, false, true])).with_producer();
    let (l, r) = p.split_at(1);
    assert_eq!(l.into_iter(), vec![Some(1)]);
    assert_eq!(r.into_iter(), vec![None, Some(3)]);
}

#[test]
fn test_scenario_empty_array() {
    let iter = ParDataIter::new(dense(&[]));
    assert_eq!(iter.len(), 0);
    assert_eq!(iter.opt_len(), Some(0));
    let v = par_collect(iter.with_producer(), 1);
    assert_eq!(v, vec![]);

    let p = ParDataIter::new(dense(&[])).with_producer();
    let (l, r) = p.split_at(0);
    assert_eq!(l.len(), 0);
    assert_eq!(r.len(), 0);
    assert_eq!(l.into_iter(), vec![]);
    assert_eq!(r.into_iter(), vec![]);
}

#[test]
fn test_scenario_all_null() {
    let expected = vec![None, None, None, None];
    let serial = ParDataIter::new(nullable(&[0, 0, 0, 0], &[false; 4])).with_producer().into_iter();
    assert_eq!(serial, expected);
    for min_len in [0, 1, 2, 4] {
        let arr = nullable(&[0, 0, 0, 0], &[false; 4]);
        let v = par_collect(ParDataIter::new(arr).with_producer(), min_len);
        assert_eq!(v, expected);
    }
    // An uneven split pattern gives the same sequence.
    let p = ParDataIter::new(nullable(&[0, 0, 0, 0], &[false; 4])).with_producer();
    let (l, r) = p.split_at(1);
    let (rl, rr) = r.split_at(2);
    let mut joined = l.into_iter();
    joined.extend(rl.into_iter());
    joined.extend(rr.into_iter());
    assert_eq!(joined, expected);
}

#[test]
fn test_adapter_reports_exact_length() {
    let iter = ParDataIter::new(nullable(&[1, 2, 3], &[true, true, false]));
    assert_eq!(iter.len(), 3);
    assert_eq!(iter.opt_len(), Some(3));
    let p = iter.with_producer();
    assert_eq!(p.len(), 3);
}

#[test]
fn test_slicing_is_zero_copy_sharing() {
    // Slices of the same array agree with the subranges of the whole view.
    let arr = nullable(&[10, 20, 30, 40], &[true, false, true, true]);
    let whole = ParDataIter::new(arr.clone()).with_producer().into_iter();
    let middle = arr.sliced(1, 2);
    let part = ParDataIter::new(middle).with_producer().into_iter();
    assert_eq!(part, whole[1..3].to_vec());
}
