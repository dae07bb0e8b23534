use pointers::cell::Cell;

#[test]
fn cell_last_set_wins() {
    let mut c = Cell::new(1u32);
    c.set(2);
    c.set(7);
    assert_eq!(c.get(), 7);
}

#[test]
fn cell_overwrite_regardless_of_prior_value() {
    let mut c = Cell::new(i64::MIN);
    c.set(i64::MAX);
    assert_eq!(c.get(), i64::MAX);
    c.set(0);
    assert_eq!(c.get(), 0);
}

#[test]
fn cell_copies_do_not_alias() {
    let mut c = Cell::new(5u32);
    let first = c.get();
    let mut second = c.get();
    second += 1;
    assert_eq!(first, 5);
    assert_eq!(c.get(), 5);
    c.set(9);
    assert_eq!(first, 5);
    assert_eq!(second, 6);
    assert_eq!(c.get(), 9);
}

#[test]
fn cell_new_holds_initial_value() {
    let c = Cell::new(true);
    assert!(c.get());
}
