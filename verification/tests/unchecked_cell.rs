use dc_cell::unchecked::DcRefCell;
use dc_cell::unchecked::Ref;
use dc_cell::unchecked::RefMut;

#[test]
fn unchecked_new_and_into_inner() {
    let c = DcRefCell::new(41i32);
    assert_eq!(c.into_inner(), 41);
}

#[test]
fn unchecked_borrow_twice_observes_same_value() {
    let mut c = DcRefCell::new(9i32);
    let a = c.borrow();
    let b = c.borrow();
    assert_eq!(*a.get(), 9);
    assert_eq!(*b.get(), 9);
    c.release(a);
    c.release(b);
    assert_eq!(c.into_inner(), 9);
}

#[test]
fn unchecked_write_then_read_then_clone_guard() {
    let mut c = DcRefCell::new(5i32);
    let mut g = c.borrow_mut();
    g.set(7);
    c.release_mut(g);
    let r1 = c.borrow_expect("free");
    assert_eq!(*r1.get(), 7);
    let r2 = Ref::clone(&mut c, &r1);
    assert_eq!(*r2.get(), 7);
    c.release(r1);
    c.release(r2);
    assert_eq!(c.into_inner(), 7);
}

#[test]
fn unchecked_replace_round_trip() {
    let mut c = DcRefCell::new(10i32);
    assert_eq!(c.replace(20), 10);
    assert_eq!(c.replace_expect(30, "free"), 20);
    assert_eq!(c.replace_with(|v: &i32| v + 1), 30);
    assert_eq!(c.replace_with_expect(|v: &i32| v * 2, "free"), 31);
    assert_eq!(c.into_inner(), 62);
}

#[test]
fn unchecked_swap_exchanges_values() {
    let mut a = DcRefCell::new(1i32);
    let mut b = DcRefCell::new(2i32);
    a.swap(&mut b);
    a.swap_expect(&mut b, "free");
    a.swap(&mut b);
    assert_eq!(a.into_inner(), 2);
    assert_eq!(b.into_inner(), 1);
}

#[test]
fn unchecked_get_mut_and_borrow_mut_expect() {
    let mut c = DcRefCell::new(5i32);
    *c.get_mut() = 8;
    let mut g = c.borrow_mut_expect("free");
    assert_eq!(*g.get(), 8);
    g.set(9);
    c.release_mut(g);
    assert_eq!(c.into_inner(), 9);
}

#[test]
fn unchecked_clone_and_comparisons() {
    let a = DcRefCell::new(1i32);
    let b = DcRefCell::new(2i32);
    let d = a.clone();
    let e = a.clone_expect("free");
    assert_eq!(d.into_inner(), 1);
    assert_eq!(e.into_inner(), 1);
    assert_eq!(a.eq(&b), false);
    assert_eq!(a.eq_expect(&a, "free"), true);
    assert_eq!(a.lt(&b), true);
    assert_eq!(a.le_expect(&b, "free"), true);
    assert_eq!(a.gt(&b), false);
    assert_eq!(a.ge_expect(&b, "free"), false);
    assert_eq!(a.partial_cmp(&b), Some(std::cmp::Ordering::Less));
    assert_eq!(a.cmp_expect(&b, "free"), std::cmp::Ordering::Less);
    let mut f = DcRefCell::new(3i32);
    let g = f.clone_mut();
    assert_eq!(g.into_inner(), 3);
    assert_eq!(f.into_inner(), 3);
}

#[test]
fn unchecked_guard_transformations() {
    let mut c = DcRefCell::new((3i32, 4i32));
    let g = c.borrow();
    let first = Ref::map(g, |p: (i32, i32)| p.0);
    assert_eq!(*first.get(), 3);
    c.release(first);
    let g = c.borrow();
    let (a, b) = Ref::map_split(&mut c, g, |p: (i32, i32)| (p.0, p.1));
    assert_eq!(*a.get(), 3);
    assert_eq!(*b.get(), 4);
    c.release(a);
    c.release(b);
    let g = c.borrow();
    let found = Ref::filter_map(g, |p: (i32, i32)| if p.0 > 0 { Some(p.0) } else { None });
    let found = found.unwrap();
    assert_eq!(Ref::leak(found), 3);
    assert_eq!(*c.borrow().get(), (3, 4));
}

#[test]
fn unchecked_exclusive_transformations() {
    let mut c = DcRefCell::new(vec![1i32, 2]);
    let g = c.borrow_mut();
    let (mut left, mut right) = RefMut::map_split(g, |v: Vec<i32>| (v[0], v[1]));
    left.set(100);
    *right.get_mut() = 200;
    c.release_mut_pair(left, right, |x: i32, y: i32| vec![x, y]);
    assert_eq!(c.into_inner(), vec![100, 200]);

    let mut c = DcRefCell::new(vec![5i32]);
    let g = c.borrow_mut();
    let head = RefMut::filter_map(g, |v: Vec<i32>| {
        if v.is_empty() {
            Err(v)
        } else {
            Ok((v[0], v))
        }
    });
    let mut head = head.unwrap();
    assert_eq!(head.replace((6, vec![5])).0, 5);
    c.release_mut_with(head, |(first, mut rest): (i32, Vec<i32>)| {
        rest[0] = first;
        rest
    });
    assert_eq!(c.into_inner(), vec![6]);

    let mut c = DcRefCell::new(7i32);
    let g = c.borrow_mut();
    let negated = RefMut::map(g, |v: i32| -v);
    assert_eq!(RefMut::leak(negated), -7);
}

#[test]
fn unchecked_default_and_from() {
    let c: DcRefCell<i32> = Default::default();
    assert_eq!(c.into_inner(), 0);
    let c = DcRefCell::from(17i32);
    assert_eq!(c.into_inner(), 17);
}
