use dc_cell::checked::DcRefCell;
use dc_cell::checked::Ref;
use dc_cell::checked::RefMut;

#[test]
fn ref_map_preserves_the_claim() {
    let mut c = DcRefCell::new((3i32, 4i32));
    let g = c.borrow().unwrap();
    assert_eq!(c.borrow_state(), 1);
    let first = Ref::map(g, |p: (i32, i32)| p.0);
    assert_eq!(*first.get(), 3);
    // The transformation did not touch the cell; releasing the mapped guard
    // returns the cell to exactly the state before the borrow.
    assert_eq!(c.borrow_state(), 1);
    c.release(first);
    assert_eq!(c.borrow_state(), 0);
}

#[test]
fn ref_filter_map_found() {
    let mut c = DcRefCell::new(7i32);
    let g = c.borrow().unwrap();
    let even = Ref::filter_map(g, |v: i32| if v % 2 == 1 { Some(v + 1) } else { None });
    let even = even.unwrap();
    assert_eq!(*even.get(), 8);
    c.release(even);
    assert_eq!(c.borrow_state(), 0);
}

#[test]
fn ref_filter_map_absent_returns_original() {
    let mut c = DcRefCell::new(8i32);
    let g = c.borrow().unwrap();
    let odd = Ref::filter_map(g, |v: i32| if v % 2 == 1 { Some(v) } else { None });
    let original = odd.unwrap_err();
    assert_eq!(*original.get(), 8);
    c.release(original);
    assert_eq!(c.borrow_state(), 0);
}

#[test]
fn ref_map_split_covers_both_halves() {
    let mut c = DcRefCell::new((1i32, 2i32));
    let g = c.borrow().unwrap();
    let (a, b) = Ref::map_split(&mut c, g, |p: (i32, i32)| (p.0, p.1));
    assert_eq!(*a.get(), 1);
    assert_eq!(*b.get(), 2);
    // One claim split over two guards takes one more unit of capacity, and
    // each half releases on its own.
    assert_eq!(c.borrow_state(), 2);
    c.release(a);
    c.release(b);
    assert_eq!(c.borrow_state(), 0);
}

#[test]
fn ref_clone_never_fails_while_shared() {
    let mut c = DcRefCell::new(5i32);
    let a = c.borrow().unwrap();
    let b = Ref::clone(&mut c, &a);
    let d = Ref::clone(&mut c, &b);
    assert_eq!(c.borrow_state(), 3);
    assert_eq!(*d.get(), 5);
    c.release(a);
    c.release(b);
    c.release(d);
    assert_eq!(c.borrow_state(), 0);
}

#[test]
fn ref_mut_map_and_rebuild() {
    let mut c = DcRefCell::new((2i32, String::from("keep")));
    let g = c.borrow_mut().unwrap();
    assert_eq!(c.borrow_state(), -1);
    let mut doubled = RefMut::map(g, |p: (i32, String)| (p.0 * 2, p.1));
    assert_eq!(doubled.get().0, 4);
    doubled.get_mut().0 += 1;
    assert_eq!(c.borrow_state(), -1);
    c.release_mut_with(doubled, |p: (i32, String)| p);
    assert_eq!(c.borrow_state(), 0);
    let result = c.into_inner();
    assert_eq!(result.0, 5);
    assert_eq!(result.1, "keep");
}

#[test]
fn ref_mut_filter_map_found() {
    let mut c = DcRefCell::new(vec![10i32, 11]);
    let g = c.borrow_mut().unwrap();
    let head = RefMut::filter_map(g, |v: Vec<i32>| {
        if v.is_empty() {
            Err(v)
        } else {
            Ok((v[0], v))
        }
    });
    let mut head = head.unwrap();
    head.get_mut().0 = 99;
    c.release_mut_with(head, |(first, mut rest): (i32, Vec<i32>)| {
        rest[0] = first;
        rest
    });
    assert_eq!(c.into_inner(), vec![99, 11]);
}

#[test]
fn ref_mut_filter_map_absent_returns_original() {
    let mut c = DcRefCell::new(vec![] as Vec<i32>);
    let g = c.borrow_mut().unwrap();
    let head = RefMut::filter_map(g, |v: Vec<i32>| {
        if v.is_empty() {
            Err(v)
        } else {
            Ok((v[0], v))
        }
    });
    let original = head.unwrap_err();
    assert_eq!(c.borrow_state(), -1);
    c.release_mut(original);
    assert_eq!(c.borrow_state(), 0);
    assert!(c.into_inner().is_empty());
}

#[test]
fn ref_mut_replace_hands_back_previous() {
    let mut c = DcRefCell::new(5i32);
    let mut g = c.borrow_mut().unwrap();
    assert_eq!(g.replace(6), 5);
    assert_eq!(*g.get(), 6);
    c.release_mut(g);
    assert_eq!(c.into_inner(), 6);
}

#[test]
fn ref_mut_leak_keeps_the_cell_exclusive() {
    let mut c = DcRefCell::new(3i32);
    let g = c.borrow_mut().unwrap();
    let carried = RefMut::leak(g);
    assert_eq!(carried, 3);
    assert_eq!(c.borrow_state(), -1);
    assert!(c.borrow().is_err());
    assert!(c.borrow_mut().is_err());
}

#[test]
fn map_split_mutations_reach_into_inner() {
    // Cell around a two-element vector; split the exclusive guard into one
    // independently mutable view per element; both mutations survive the
    // rebuild and are seen by into_inner.
    let mut c = DcRefCell::new(vec![1i32, 2]);
    let g = c.borrow_mut().unwrap();
    let (mut left, mut right) = RefMut::map_split(g, |v: Vec<i32>| (v[0], v[1]));
    left.set(100);
    right.set(200);
    assert_eq!(c.borrow_state(), -1);
    c.release_mut_pair(left, right, |x: i32, y: i32| vec![x, y]);
    assert_eq!(c.borrow_state(), 0);
    assert_eq!(c.into_inner(), vec![100, 200]);
}
