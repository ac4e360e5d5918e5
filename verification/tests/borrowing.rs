use ownership::borrow_cell::BorrowCell;
use ownership::exclusive_box::ExclusiveBox;

#[test]
fn exclusive_box_round_trip() {
    let mut b = ExclusiveBox::new(41);
    assert_eq!(*b.get(), 41);
    b.set(42);
    assert_eq!(b.into_inner(), 42);
}

#[test]
fn read_views_share_and_write_view_excludes() {
    let mut cell = BorrowCell::new(String::from("payload"));

    let r1 = cell.try_borrow().expect("first read view is granted");
    let r2 = cell.try_borrow().expect("read views share");
    assert_eq!(cell.read(&r1), "payload");
    assert_eq!(cell.read(&r2), "payload");

    assert!(cell.try_borrow_mut().is_err(), "no write view while reads are out");

    cell.release_read(r1);
    assert!(cell.try_borrow_mut().is_err(), "one read view still blocks writing");

    cell.release_read(r2);
    let w = cell.try_borrow_mut().expect("free cell grants the write view");
    assert!(cell.try_borrow().is_err(), "no read view under the write view");
    assert!(cell.try_borrow_mut().is_err(), "no second write view");
    cell.release_write(w);
}

#[test]
fn try_borrow_release_then_borrow_mut_succeeds() {
    let mut cell = BorrowCell::new(5);

    let r = cell.try_borrow().expect("free cell grants a read view");
    assert_eq!(*cell.read(&r), 5);
    cell.release_read(r);

    let w = cell.try_borrow_mut().expect("released cell is free again");
    *cell.get_mut(&w) = 6;
    assert_eq!(*cell.read_mut(&w), 6);
    cell.release_write(w);
}

#[test]
fn write_view_mutates_payload() {
    let mut cell = BorrowCell::new(1);
    let w = cell.try_borrow_mut().expect("free cell grants the write view");
    *cell.get_mut(&w) = 99;
    assert_eq!(*cell.read_mut(&w), 99);
    let old = cell.replace(&w, 100);
    assert_eq!(old, 99);
    cell.release_write(w);
    let r = cell.try_borrow().expect("free again after the write view");
    assert_eq!(*cell.read(&r), 100);
    cell.release_read(r);
}

#[test]
fn borrow_after_proof_of_no_conflict() {
    let mut cell = BorrowCell::new(3);
    let r = cell.borrow();
    assert_eq!(*cell.read(&r), 3);
    cell.release_read(r);
    let w = cell.borrow_mut();
    assert_eq!(*cell.read_mut(&w), 3);
    cell.release_write(w);
}
