use rev_slice::RevSlice;
use rev_slice::SliceExt;

#[test]
fn writing_through_the_view_shows_in_the_slice() {
    let mut a = [1, 2, 3, 4, 5];
    let n = a.len();
    for i in 0..n {
        let v = 100 + i as i32;
        a.rev_mut()[i] = v;
        assert_eq!(a[n - 1 - i], v);
    }
    assert_eq!(a, [104, 103, 102, 101, 100]);
}

#[test]
fn writing_to_the_slice_shows_in_the_view() {
    let mut a = [1, 2, 3, 4, 5];
    let n = a.len();
    for i in 0..n {
        let v = 100 + i as i32;
        a[i] = v;
        assert_eq!(a.rev()[n - 1 - i], v);
    }
    a.rev_mut().rev_mut()[0] = 7;
    assert_eq!(a.rev()[4], 7);
    assert_eq!(a.rev_mut()[4], 7);
}

#[test]
fn rev_mut_of_the_view_is_the_slice_itself() {
    let mut a = [1, 2, 3];
    let mut r = a.rev_mut();
    assert_eq!(r.rev_mut(), &mut [1, 2, 3]);
    r.rev_mut()[0] = 9;
    assert_eq!(r.rev(), &[9, 2, 3]);
    assert_eq!(r[2], 9);
    assert_eq!(a, [9, 2, 3]);
}

#[test]
fn first_mut_and_last_mut_change_places() {
    let mut a = [1, 2, 3];
    let mut r = a.rev_mut();
    assert_eq!(r.first_mut(), Some(&mut 3));
    assert_eq!(r.last_mut(), Some(&mut 1));
    *r.first_mut().unwrap() = 30;
    *r.last_mut().unwrap() = 10;
    assert_eq!(a, [10, 2, 30]);
}

#[test]
fn split_at_mut_gives_two_parts_to_write_at_once() {
    let mut a = [1, 2, 3, 4, 5, 6, 7];
    {
        let mut r = a.rev_mut();
        let (mut front, mut back) = r.split_at_mut(3);
        assert_eq!(front.len(), 3);
        assert_eq!(back.len(), 4);
        assert_eq!(front.rev(), &[5, 6, 7]);
        assert_eq!(back.rev(), &[1, 2, 3, 4]);
        front[0] = 70;
        back[0] = 40;
        front[2] = 50;
        back[3] = 10;
    }
    assert_eq!(a, [10, 2, 3, 40, 50, 6, 70]);
}

#[test]
fn split_at_mut_at_the_ends() {
    let mut a = [1, 2];
    let mut r = a.rev_mut();
    {
        let (front, back) = r.split_at_mut(0);
        assert!(front.is_empty());
        assert_eq!(back.rev(), &[1, 2]);
    }
    {
        let (front, back) = r.split_at_mut(2);
        assert_eq!(front.rev(), &[1, 2]);
        assert!(back.is_empty());
    }
}

#[test]
fn split_first_mut_and_split_last_mut_take_from_the_far_end() {
    let mut a = [1, 2, 3, 4];
    {
        let mut r = a.rev_mut();
        let (item, mut rest) = r.split_first_mut().unwrap();
        assert_eq!(*item, 4);
        assert_eq!(rest.rev(), &[1, 2, 3]);
        *item = 40;
        rest[0] = 30;
    }
    assert_eq!(a, [1, 2, 30, 40]);
    {
        let mut r = a.rev_mut();
        let (item, mut rest) = r.split_last_mut().unwrap();
        assert_eq!(*item, 1);
        assert_eq!(rest.rev(), &[2, 30, 40]);
        *item = 10;
        rest[2] = 20;
    }
    assert_eq!(a, [10, 20, 30, 40]);
}

#[test]
fn index_range_mut_writes_inside_the_range_only() {
    let mut a = [1, 2, 3, 4, 5, 6, 7];
    {
        let mut r = a.rev_mut();
        let mut part = r.index_range_mut(1..4);
        assert_eq!(part.len(), 3);
        assert_eq!(part.rev(), &[4, 5, 6]);
        assert_eq!(part[0], 6);
        part[0] = 60;
        part[1] = 50;
        part[2] = 40;
    }
    assert_eq!(a, [1, 2, 3, 40, 50, 60, 7]);
    let mut r = a.rev_mut();
    assert!(r.index_range_mut(7..7).is_empty());
    assert!(r.index_range_mut(0..0).is_empty());
    assert_eq!(r.index_range_mut(0..7).rev(), &[1, 2, 3, 40, 50, 60, 7]);
}

#[test]
fn empty_exclusive_view_has_nothing() {
    let mut a: [u8; 0] = [];
    let mut r = a.rev_mut();
    assert_eq!(r.len(), 0);
    assert!(r.is_empty());
    assert!(r.first_mut().is_none());
    assert!(r.last_mut().is_none());
    assert!(r.split_first_mut().is_none());
    assert!(r.split_last_mut().is_none());
    assert!(r.as_ref().first().is_none());
}

#[test]
fn as_ref_reads_what_the_exclusive_view_shows() {
    let mut a = [1, 2, 3];
    let mut r = RevSlice(&mut a[..]);
    r[0] = 30;
    let shared = r.as_ref();
    assert_eq!(shared.first(), Some(&30));
    assert_eq!(shared.last(), Some(&1));
    assert_eq!(shared.index_range(0..2).rev(), &[2, 30]);
    assert_eq!(shared.iter().cloned().collect::<Vec<i32>>(), vec![30, 2, 1]);
    assert_eq!(r.len(), 3);
}
