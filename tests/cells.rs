use smart_pointers::{Cell, RefCell, SharingState};

#[test]
fn cell_get_returns_initial_value() {
    let c = Cell::new(17u64);
    assert_eq!(c.get(), 17);
    let t = Cell::new((3i32, 'z'));
    assert_eq!(t.get(), (3, 'z'));
}

#[test]
fn cell_get_after_set_returns_new_value() {
    let mut c = Cell::new(1u8);
    c.set(2);
    assert_eq!(c.get(), 2);
    c.set(255);
    assert_eq!(c.get(), 255);
}

#[test]
fn cell_holds_sharing_state() {
    let mut c = Cell::new(SharingState::Unshared);
    assert!(matches!(c.get(), SharingState::Unshared));
    c.set(SharingState::Shared(4));
    assert!(matches!(c.get(), SharingState::Shared(4)));
}

#[test]
fn fresh_cell_first_borrow_yields_value() {
    let mut cell = RefCell::new(String::from("hello"));
    let a = cell.borrow();
    assert_eq!(a.map(|s| s.as_str()), Some("hello"));
}

#[test]
fn fresh_cell_first_borrow_mut_succeeds() {
    let mut cell = RefCell::new(5u32);
    let m = cell.borrow_mut();
    assert_eq!(m.copied(), Some(5));
}

#[test]
fn borrow_after_borrow_mut_is_refused() {
    let mut cell = RefCell::new(vec![1u8, 2, 3]);
    assert!(cell.borrow_mut().is_some());
    assert!(cell.borrow().is_none());
    assert!(cell.borrow().is_none());
}

#[test]
fn borrow_mut_after_borrow_is_refused() {
    let mut cell = RefCell::new(9i64);
    assert!(cell.borrow().is_some());
    assert!(cell.borrow_mut().is_none());
}

#[test]
fn borrow_mut_after_borrow_mut_is_refused() {
    let mut cell = RefCell::new(9i64);
    assert!(cell.borrow_mut().is_some());
    assert!(cell.borrow_mut().is_none());
}

#[test]
fn repeated_borrows_all_succeed_and_block_writes() {
    let mut cell = RefCell::new(7u16);
    for _ in 0..100 {
        assert_eq!(cell.borrow().copied(), Some(7));
        assert!(cell.borrow_mut().is_none());
    }
}

#[test]
fn shared_scenario_with_integer() {
    let mut cell = RefCell::new(42);
    let a = cell.borrow();
    assert_eq!(a.copied(), Some(42));
    let b = cell.borrow();
    assert_eq!(b.copied(), Some(42));
    let m = cell.borrow_mut();
    assert!(m.is_none());
}

#[test]
fn exclusive_scenario_with_str() {
    let mut cell = RefCell::new("x");
    let m = cell.borrow_mut();
    assert!(m.is_some());
    let a = cell.borrow();
    assert!(a.is_none());
}

#[test]
fn write_through_view_keeps_cell_exclusive() {
    let mut cell = RefCell::new(1u64);
    if let Some(v) = cell.borrow_mut() {
        *v = 99;
    }
    assert!(cell.borrow().is_none());
    assert!(cell.borrow_mut().is_none());
}
