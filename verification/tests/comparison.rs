use rev_slice::SliceExt;
use std::cmp::Ordering;

#[test]
fn views_are_equal_when_they_show_equal_elements() {
    let a = [1, 2, 3];
    let b = vec![1, 2, 3];
    let c = [1, 2, 4];
    let d = [2, 3];
    assert!(a.rev() == b.rev());
    assert!(a.rev() != c.rev());
    assert!(a.rev() != d.rev());
    assert!(a.rev().index_range(0..2) == d.rev());
    let e: [i32; 0] = [];
    assert!(e.rev() == e.rev());
    assert!(e.rev() != a.rev());
}

#[test]
fn order_goes_by_what_the_views_show() {
    // stored, [1, 9] comes before [2, 3]; shown, [9, 1] comes after [3, 2]
    let a = [1, 9];
    let b = [2, 3];
    assert!(a < b);
    assert_eq!(a.rev().partial_cmp(&b.rev()), Some(Ordering::Greater));
    assert!(a.rev() > b.rev());
    assert!(b.rev() < a.rev());
    assert!(a.rev() >= a.rev());
    assert_eq!(a.rev().partial_cmp(&a.rev()), Some(Ordering::Equal));
}

#[test]
fn a_view_comes_after_the_views_that_it_starts_with() {
    let a = [1, 2, 3];
    let r = a.rev();
    let start = r.index_range(0..2);
    assert_eq!(start.partial_cmp(&r), Some(Ordering::Less));
    assert_eq!(r.partial_cmp(&start), Some(Ordering::Greater));
    let none = r.index_range(0..0);
    assert_eq!(none.partial_cmp(&r), Some(Ordering::Less));
    assert_eq!(none.partial_cmp(&none), Some(Ordering::Equal));
}

#[test]
fn elements_without_an_order_leave_the_views_without_one() {
    let a = [f64::NAN, 1.0];
    let b = [2.0, 1.0];
    assert_eq!(a.rev().partial_cmp(&b.rev()), None);
    assert!(a.rev() != a.rev());
    let c = [3.0, f64::NAN];
    let d = [4.0, f64::NAN];
    assert_eq!(c.rev().partial_cmp(&d.rev()), None);
    let e = [f64::NAN, 1.0];
    let f = [f64::NAN, 2.0];
    assert_eq!(e.rev().partial_cmp(&f.rev()), Some(Ordering::Less));
}

fn sequences_up_to(len: usize, values: &[u8]) -> Vec<Vec<u8>> {
    let mut all = vec![Vec::new()];
    let mut last = vec![Vec::new()];
    for _ in 0..len {
        let mut next = Vec::new();
        for s in &last {
            for v in values {
                let mut t: Vec<u8> = s.clone();
                t.push(*v);
                next.push(t);
            }
        }
        all.extend(next.iter().cloned());
        last = next;
    }
    all
}

#[test]
fn views_compare_as_reversed_copies_do() {
    let all = sequences_up_to(3, &[0, 1, 2]);
    assert_eq!(all.len(), 40);
    for a in &all {
        for b in &all {
            let ra: Vec<u8> = a.iter().rev().cloned().collect();
            let rb: Vec<u8> = b.iter().rev().cloned().collect();
            assert_eq!(a.rev() == b.rev(), ra == rb);
            assert_eq!(a.rev() == b.rev(), a == b);
            assert_eq!(a.rev().partial_cmp(&b.rev()), ra.partial_cmp(&rb));
            assert_eq!(a.rev() < b.rev(), ra < rb);
            assert_eq!(a.rev() <= b.rev(), ra <= rb);
        }
    }
}
