use dc_cell::checked::DcRefCell;
use dc_cell::checked::Ref;

#[test]
fn new_starts_unborrowed() {
    let c = DcRefCell::new(41i32);
    assert_eq!(c.borrow_state(), 0);
    assert_eq!(c.into_inner(), 41);
}

#[test]
fn borrow_twice_observes_same_value() {
    let mut c = DcRefCell::new(9i32);
    let a = c.borrow().unwrap();
    let b = c.borrow().unwrap();
    assert_eq!(*a.get(), 9);
    assert_eq!(*b.get(), 9);
    assert_eq!(c.borrow_state(), 2);
    let r = c.borrow_mut();
    assert!(r.is_err());
    assert_eq!(c.borrow_state(), 2);
    c.release(a);
    c.release(b);
    assert_eq!(c.borrow_state(), 0);
}

#[test]
fn borrow_mut_excludes_everything() {
    let mut c = DcRefCell::new(1i32);
    let g = c.borrow_mut().unwrap();
    assert_eq!(c.borrow_state(), -1);
    assert!(c.borrow().is_err());
    assert!(c.borrow_mut().is_err());
    assert!(c.replace(5).is_err());
    assert_eq!(c.borrow_state(), -1);
    c.release_mut(g);
    assert_eq!(c.borrow_state(), 0);
    assert_eq!(c.into_inner(), 1);
}

#[test]
fn replace_round_trip() {
    let mut c = DcRefCell::new(10i32);
    assert_eq!(c.replace(20).unwrap(), 10);
    assert_eq!(c.replace(30).unwrap(), 20);
    assert_eq!(c.borrow_state(), 0);
    assert_eq!(c.into_inner(), 30);
}

#[test]
fn replace_fails_while_shared() {
    let mut c = DcRefCell::new(10i32);
    let g = c.borrow().unwrap();
    assert!(c.replace(20).is_err());
    assert_eq!(*g.get(), 10);
    c.release(g);
    assert_eq!(c.replace(20).unwrap(), 10);
}

#[test]
fn replace_with_computes_from_old() {
    let mut c = DcRefCell::new(6i32);
    let old = c.replace_with(|v: &i32| v * 7).unwrap();
    assert_eq!(old, 6);
    assert_eq!(c.into_inner(), 42);
}

#[test]
fn expect_failures_carry_message() {
    let mut c = DcRefCell::new(0i32);
    let g = c.borrow_mut().unwrap();
    let e = c.borrow_expect("still writing").unwrap_err();
    assert_eq!(e.message.as_deref(), Some("still writing"));
    let e = c.borrow_mut_expect("one writer only").unwrap_err();
    assert_eq!(e.message.as_deref(), Some("one writer only"));
    let e = c.replace_expect(9, "busy").unwrap_err();
    assert_eq!(e.message.as_deref(), Some("busy"));
    let e = c.replace_with_expect(|v: &i32| *v, "busy too").unwrap_err();
    assert_eq!(e.message.as_deref(), Some("busy too"));
    let e = c.clone_expect("no copy now").unwrap_err();
    assert_eq!(e.message.as_deref(), Some("no copy now"));
    c.release_mut(g);
    let plain = c.borrow_mut().unwrap();
    let e = c.borrow().unwrap_err();
    assert!(e.message.is_none());
    c.release_mut(plain);
}

#[test]
fn swap_exchanges_values() {
    let mut a = DcRefCell::new(1i32);
    let mut b = DcRefCell::new(2i32);
    a.swap(&mut b).unwrap();
    assert_eq!(a.borrow_state(), 0);
    assert_eq!(b.borrow_state(), 0);
    assert_eq!(*a.borrow().unwrap().get(), 2);
    assert_eq!(*b.borrow().unwrap().get(), 1);
}

#[test]
fn swap_fails_while_borrowed() {
    let mut a = DcRefCell::new(1i32);
    let mut b = DcRefCell::new(2i32);
    let g = a.borrow().unwrap();
    let e = a.swap_expect(&mut b, "held").unwrap_err();
    assert_eq!(e.message.as_deref(), Some("held"));
    a.release(g);
    assert_eq!(a.into_inner(), 1);
    assert_eq!(b.into_inner(), 2);
}

#[test]
fn get_mut_needs_no_guard() {
    let mut c = DcRefCell::new(5i32);
    *c.get_mut() = 8;
    assert_eq!(c.borrow_state(), 0);
    assert_eq!(c.into_inner(), 8);
}

#[test]
fn clone_copies_the_value() {
    let c = DcRefCell::new(vec![1i32, 2]);
    let d = c.clone().unwrap();
    assert_eq!(d.into_inner(), vec![1, 2]);
    assert_eq!(c.into_inner(), vec![1, 2]);
}

#[test]
fn clone_fails_while_borrowed() {
    let mut c = DcRefCell::new(3i32);
    let g = c.borrow().unwrap();
    assert!(c.clone().is_err());
    c.release(g);
    assert!(c.clone().is_ok());
}

#[test]
fn clone_mut_always_succeeds() {
    let mut c = DcRefCell::new(3i32);
    let d = c.clone_mut();
    assert_eq!(d.into_inner(), 3);
    assert_eq!(c.into_inner(), 3);
}

#[test]
fn comparisons_forward_to_the_values() {
    let a = DcRefCell::new(1i32);
    let b = DcRefCell::new(2i32);
    assert_eq!(a.eq(&b).unwrap(), false);
    assert_eq!(a.eq(&a).unwrap(), true);
    assert_eq!(a.lt(&b).unwrap(), true);
    assert_eq!(a.le(&b).unwrap(), true);
    assert_eq!(a.gt(&b).unwrap(), false);
    assert_eq!(a.ge(&b).unwrap(), false);
    assert_eq!(b.ge(&a).unwrap(), true);
    assert_eq!(a.partial_cmp(&b).unwrap(), Some(std::cmp::Ordering::Less));
    assert_eq!(a.cmp(&b).unwrap(), std::cmp::Ordering::Less);
    assert_eq!(b.cmp(&b).unwrap(), std::cmp::Ordering::Equal);
}

#[test]
fn comparisons_fail_while_exclusively_borrowed() {
    let mut a = DcRefCell::new(1i32);
    let b = DcRefCell::new(2i32);
    let g = a.borrow_mut().unwrap();
    assert!(a.eq(&b).is_err());
    assert!(a.lt(&b).is_err());
    let e = a.cmp_expect(&b, "locked").unwrap_err();
    assert_eq!(e.message.as_deref(), Some("locked"));
    a.release_mut(g);
    assert_eq!(a.eq(&b).unwrap(), false);
}

#[test]
fn comparisons_allowed_while_shared() {
    let mut a = DcRefCell::new(4i32);
    let g = a.borrow().unwrap();
    let b = DcRefCell::new(4i32);
    assert_eq!(a.eq_expect(&b, "unused").unwrap(), true);
    assert_eq!(a.partial_cmp_expect(&b, "unused").unwrap(), Some(std::cmp::Ordering::Equal));
    assert_eq!(a.lt_expect(&b, "unused").unwrap(), false);
    assert_eq!(a.le_expect(&b, "unused").unwrap(), true);
    assert_eq!(a.gt_expect(&b, "unused").unwrap(), false);
    assert_eq!(a.ge_expect(&b, "unused").unwrap(), true);
    c_release(&mut a, g);
}

fn c_release(cell: &mut DcRefCell<i32>, guard: Ref<i32>) {
    cell.release(guard);
    assert_eq!(cell.borrow_state(), 0);
}

#[test]
fn write_then_read_then_clone_guard() {
    // Cell::new(5); write 7 under the exclusive guard; read it back through
    // two shared guards; end unborrowed.
    let mut c = DcRefCell::new(5i32);
    let mut g = c.borrow_mut().unwrap();
    g.set(7);
    c.release_mut(g);
    let r1 = c.borrow().unwrap();
    assert_eq!(*r1.get(), 7);
    let r2 = Ref::clone(&mut c, &r1);
    assert_eq!(*r2.get(), 7);
    assert_eq!(c.borrow_state(), 2);
    c.release(r1);
    c.release(r2);
    assert_eq!(c.borrow_state(), 0);
}

#[test]
fn leak_permanently_consumes_capacity() {
    let mut c = DcRefCell::new(13i32);
    let g = c.borrow().unwrap();
    let observed = Ref::leak(g);
    assert_eq!(observed, 13);
    // The claim was never returned: the cell still counts one shared claim
    // and refuses the exclusive claim forever.
    assert_eq!(c.borrow_state(), 1);
    assert!(c.borrow_mut().is_err());
    // Further shared claims still work.
    let g2 = c.borrow().unwrap();
    assert_eq!(*g2.get(), 13);
    c.release(g2);
    assert_eq!(c.borrow_state(), 1);
}

#[test]
fn default_and_from_start_unborrowed() {
    let c: DcRefCell<i32> = Default::default();
    assert_eq!(c.borrow_state(), 0);
    assert_eq!(c.into_inner(), 0);
    let c = DcRefCell::from(17i32);
    assert_eq!(c.borrow_state(), 0);
    assert_eq!(c.into_inner(), 17);
}
