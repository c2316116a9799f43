use holder::{Direction, Hold, LedgerError, Shelf, Shelving};

#[test]
fn hold_zero_capacity() {
    let mut hold: Hold<u32> = Hold::new(0);
    assert_eq!(
        Err(LedgerError::ExceedsCapacity { free: 0 }),
        hold.allocate(Direction::Forward, 1)
    );
    assert_eq!(
        Err(LedgerError::ExceedsCapacity { free: 0 }),
        hold.allocate(Direction::Reverse, 2)
    );
    assert_eq!(
        Err(LedgerError::ExceedsAllocation { used: 0 }),
        hold.deallocate(Direction::Forward, 1)
    );
}

#[test]
fn hold_allocate_and_lend() {
    let mut hold: Hold<&str> = Hold::new(3);

    assert_eq!(Ok(0), hold.allocate(Direction::Forward, "first"));
    assert_eq!(Ok(2), hold.allocate(Direction::Reverse, "last"));
    assert_eq!(Ok(1), hold.allocate(Direction::Forward, "second"));

    assert_eq!("first", *hold.lend(0));
    assert_eq!("second", *hold.lend(1));
    assert_eq!("last", *hold.lend(2));

    assert_eq!(
        Err(LedgerError::ExceedsCapacity { free: 0 }),
        hold.allocate(Direction::Forward, "overflow")
    );
    // The failed request changed nothing.
    assert_eq!("second", *hold.lend(1));
}

#[test]
fn hold_lend_mut_updates_slot() {
    let mut hold: Hold<u64> = Hold::new(2);
    assert_eq!(Ok(0), hold.allocate(Direction::Forward, 7));

    *hold.lend_mut(0) = 70;
    assert_eq!(70, *hold.lend(0));
}

#[test]
fn hold_deallocate_is_lifo() {
    let mut hold: Hold<u8> = Hold::new(3);
    assert_eq!(Ok(0), hold.allocate(Direction::Forward, 1));
    assert_eq!(Ok(1), hold.allocate(Direction::Forward, 2));

    assert_eq!(
        Err(LedgerError::ExceedsAllocation { used: 2 }),
        hold.deallocate(Direction::Forward, 3)
    );
    assert_eq!(Ok(()), hold.deallocate(Direction::Forward, 2));

    // The freed slots are reused from the top of the forward stack.
    assert_eq!(Ok(0), hold.allocate(Direction::Forward, 3));
    assert_eq!(3, *hold.lend(0));
}

#[test]
fn hold_mark_release_rewinds() {
    let mut hold: Hold<u16> = Hold::new(4);
    assert_eq!(Ok(0), hold.allocate(Direction::Forward, 1));

    let mark = hold.mark();

    assert_eq!(Ok(1), hold.allocate(Direction::Forward, 2));
    assert_eq!(Ok(3), hold.allocate(Direction::Reverse, 3));
    assert_eq!(Ok(()), hold.deallocate(Direction::Reverse, 1));

    hold.release(mark);

    // Back to one forward slot in use and three free: the next requests see
    // exactly the pre-mark cursors again.
    assert_eq!(Ok(1), hold.allocate(Direction::Forward, 9));
    assert_eq!(Ok(3), hold.allocate(Direction::Reverse, 8));
    assert_eq!(1, *hold.lend(0));
    assert_eq!(9, *hold.lend(1));
    assert_eq!(8, *hold.lend(3));
}

#[test]
fn shelf_shelve_and_lend() {
    let mut shelf: Shelf<i32> = Shelf::new(2);

    *shelf.shelve(0, -4) += 1;
    shelf.shelve(1, 9);

    assert_eq!(-3, *shelf.lend(0));
    assert_eq!(9, *shelf.lend(1));

    *shelf.lend_mut(1) = 10;
    assert_eq!(10, *shelf.lend(1));

    // Shelving again replaces the previous value.
    shelf.shelve(0, 5);
    assert_eq!(5, *shelf.lend(0));
}
