use grantcore::grant::Grant;
use grantcore::kernel::Kernel;
use grantcore::process::{AppId, Error};

#[test]
fn first_enter_allocates_then_reuses_the_same_address() {
    let mut kernel = Kernel::new(4, 1);
    let app = kernel.add_process(1024).unwrap();
    let mut grant: Grant<u32> = Grant::new(&kernel, 0);

    let b1 = grant.enter(&mut kernel, app).unwrap();
    let addr = b1.region_address();
    grant.exit(&mut kernel, b1);

    let b2 = grant.enter(&mut kernel, app).unwrap();
    assert_eq!(b2.region_address(), addr);
    grant.exit(&mut kernel, b2);

    let b3 = grant.enter(&mut kernel, app).unwrap();
    assert_eq!(b3.region_address(), addr);
    grant.exit(&mut kernel, b3);
}

#[test]
fn fresh_region_reads_as_the_default_value() {
    let mut kernel = Kernel::new(2, 2);
    let app = kernel.add_process(256).unwrap();

    let mut counters: Grant<u32> = Grant::new(&kernel, 0);
    let b = counters.enter(&mut kernel, app).unwrap();
    assert_eq!(*b.get(), 0u32);
    counters.exit(&mut kernel, b);

    let mut pairs: Grant<(u32, u32)> = Grant::new(&kernel, 1);
    let b = pairs.enter(&mut kernel, app).unwrap();
    assert_eq!(*b.get(), (0u32, 0u32));
    pairs.exit(&mut kernel, b);
}

#[test]
fn reentrant_enter_fails_and_outer_borrow_survives() {
    let mut kernel = Kernel::new(2, 1);
    let app = kernel.add_process(256).unwrap();
    let mut grant: Grant<u32> = Grant::new(&kernel, 0);

    let mut outer = grant.enter(&mut kernel, app).unwrap();
    outer.set(41);

    // A second access for the same (process, grant) while the guard is out
    // observes the sentinel and fails; it neither panics nor corrupts the
    // outer borrow.
    assert_eq!(grant.enter(&mut kernel, app).unwrap_err(), Error::AlreadyInUse);

    outer.set(*outer.get() + 1);
    grant.exit(&mut kernel, outer);

    let b = grant.enter(&mut kernel, app).unwrap();
    assert_eq!(*b.get(), 42);
    grant.exit(&mut kernel, b);
}

#[test]
fn slot_is_not_left_borrowed_after_a_normal_exit() {
    let mut kernel = Kernel::new(2, 1);
    let app = kernel.add_process(256).unwrap();
    let mut grant: Grant<u32> = Grant::new(&kernel, 0);

    let b = grant.enter(&mut kernel, app).unwrap();
    grant.exit(&mut kernel, b);
    assert!(grant.enter(&mut kernel, app).is_ok());
}

#[test]
fn each_visits_exactly_the_published_regions_once() {
    let mut kernel = Kernel::new(8, 1);
    let a = kernel.add_process(256).unwrap();
    let b = kernel.add_process(256).unwrap();
    let c = kernel.add_process(256).unwrap();
    let mut grant: Grant<u32> = Grant::new(&kernel, 0);

    let g = grant.enter(&mut kernel, a).unwrap();
    grant.exit(&mut kernel, g);
    let mut g = grant.enter(&mut kernel, b).unwrap();
    g.set(7);
    grant.exit(&mut kernel, g);
    // c never uses the grant: no region is allocated for it.

    grant.each(&mut kernel, |_app, v: u32| v + 100);

    let g = grant.enter(&mut kernel, a).unwrap();
    assert_eq!(*g.get(), 100); // visited exactly once
    grant.exit(&mut kernel, g);
    let g = grant.enter(&mut kernel, b).unwrap();
    assert_eq!(*g.get(), 107); // visited exactly once
    grant.exit(&mut kernel, g);
    let g = grant.enter(&mut kernel, c).unwrap();
    assert_eq!(*g.get(), 0); // never visited: freshly allocated only now
    grant.exit(&mut kernel, g);
}

#[test]
fn each_skips_a_region_that_is_borrowed_elsewhere() {
    let mut kernel = Kernel::new(4, 1);
    let a = kernel.add_process(256).unwrap();
    let b = kernel.add_process(256).unwrap();
    let mut grant: Grant<u32> = Grant::new(&kernel, 0);

    let g = grant.enter(&mut kernel, a).unwrap();
    grant.exit(&mut kernel, g);
    let mut held = grant.enter(&mut kernel, b).unwrap();
    held.set(3);

    // b's region is checked out, so the walk silently skips it.
    grant.each(&mut kernel, |_app, v: u32| v + 100);

    grant.exit(&mut kernel, held);
    let g = grant.enter(&mut kernel, a).unwrap();
    assert_eq!(*g.get(), 100);
    grant.exit(&mut kernel, g);
    let g = grant.enter(&mut kernel, b).unwrap();
    assert_eq!(*g.get(), 3);
    grant.exit(&mut kernel, g);
}

#[test]
fn allocation_failure_reports_out_of_memory_and_records_nothing() {
    let mut kernel = Kernel::new(2, 1);
    let app = kernel.add_process(3).unwrap(); // a u32 needs 4 bytes
    let mut grant: Grant<u32> = Grant::new(&kernel, 0);

    assert_eq!(grant.enter(&mut kernel, app).unwrap_err(), Error::OutOfMemory);
    // The slot stayed unallocated: the same failure again, not already-in-use.
    assert_eq!(grant.enter(&mut kernel, app).unwrap_err(), Error::OutOfMemory);
}

#[test]
fn allocation_succeeds_exactly_at_the_budget_boundary() {
    let mut kernel = Kernel::new(2, 1);
    let app = kernel.add_process(4).unwrap();
    let mut grant: Grant<u32> = Grant::new(&kernel, 0);
    assert!(grant.enter(&mut kernel, app).is_ok());
}

#[test]
fn zero_sized_state_fits_in_an_empty_budget() {
    let mut kernel = Kernel::new(2, 1);
    let app = kernel.add_process(0).unwrap();
    let mut grant: Grant<()> = Grant::new(&kernel, 0);
    let b = grant.enter(&mut kernel, app).unwrap();
    grant.exit(&mut kernel, b);
}

#[test]
fn unknown_identity_reports_no_such_process() {
    let mut kernel = Kernel::new(2, 1);
    let mut grant: Grant<u32> = Grant::new(&kernel, 0);
    let ghostly = AppId { idx: 0, uid: 7 };
    assert_eq!(grant.enter(&mut kernel, ghostly).unwrap_err(), Error::NoSuchApp);
}

#[test]
fn departed_process_reports_no_such_process() {
    let mut kernel = Kernel::new(2, 1);
    let app = kernel.add_process(256).unwrap();
    let mut grant: Grant<u32> = Grant::new(&kernel, 0);

    let b = grant.enter(&mut kernel, app).unwrap();
    grant.exit(&mut kernel, b);
    kernel.remove_process(app);
    assert_eq!(grant.enter(&mut kernel, app).unwrap_err(), Error::NoSuchApp);
}

#[test]
fn successor_in_the_same_slot_is_a_different_process() {
    let mut kernel = Kernel::new(1, 1);
    let first = kernel.add_process(256).unwrap();
    let mut grant: Grant<u32> = Grant::new(&kernel, 0);

    let mut b = grant.enter(&mut kernel, first).unwrap();
    b.set(9);
    grant.exit(&mut kernel, b);

    kernel.remove_process(first);
    let second = kernel.add_process(256).unwrap();
    assert_eq!(first.idx, second.idx);
    assert_ne!(first, second);

    // The old identity no longer resolves; the successor starts fresh.
    assert_eq!(grant.enter(&mut kernel, first).unwrap_err(), Error::NoSuchApp);
    let b = grant.enter(&mut kernel, second).unwrap();
    assert_eq!(*b.get(), 0);
    grant.exit(&mut kernel, b);
}

#[test]
fn guard_for_a_departed_process_is_discarded_on_exit() {
    let mut kernel = Kernel::new(1, 1);
    let app = kernel.add_process(256).unwrap();
    let mut grant: Grant<u32> = Grant::new(&kernel, 0);

    let mut b = grant.enter(&mut kernel, app).unwrap();
    b.set(5);
    kernel.remove_process(app);
    grant.exit(&mut kernel, b); // nothing to commit to; the value is dropped

    let successor = kernel.add_process(256).unwrap();
    let b = grant.enter(&mut kernel, successor).unwrap();
    assert_eq!(*b.get(), 0);
    grant.exit(&mut kernel, b);
}

#[test]
fn inactive_process_reports_inactive_until_reactivated() {
    let mut kernel = Kernel::new(2, 1);
    let app = kernel.add_process(256).unwrap();
    let mut grant: Grant<u32> = Grant::new(&kernel, 0);

    assert!(kernel.set_process_active(app, false));
    assert_eq!(grant.enter(&mut kernel, app).unwrap_err(), Error::InactiveApp);

    assert!(kernel.set_process_active(app, true));
    let b = grant.enter(&mut kernel, app).unwrap();
    grant.exit(&mut kernel, b);
}

#[test]
fn iterator_walks_published_regions_in_table_order() {
    let mut kernel = Kernel::new(8, 1);
    let a = kernel.add_process(256).unwrap();
    let b = kernel.add_process(256).unwrap();
    let c = kernel.add_process(256).unwrap();
    let mut grant: Grant<u32> = Grant::new(&kernel, 0);

    let g = grant.enter(&mut kernel, c).unwrap();
    grant.exit(&mut kernel, g);
    let g = grant.enter(&mut kernel, a).unwrap();
    grant.exit(&mut kernel, g);
    // b has no region allocated.
    let _ = b;

    let mut it = grant.iter();
    assert_eq!(it.next(&kernel), Some(a));
    assert_eq!(it.next(&kernel), Some(c));
    assert_eq!(it.next(&kernel), None);
    // One-shot: the cursor stays exhausted.
    assert_eq!(it.next(&kernel), None);
}

#[test]
fn iterator_reflects_the_table_at_each_step() {
    let mut kernel = Kernel::new(8, 1);
    let a = kernel.add_process(256).unwrap();
    let b = kernel.add_process(256).unwrap();
    let mut grant: Grant<u32> = Grant::new(&kernel, 0);

    let g = grant.enter(&mut kernel, a).unwrap();
    grant.exit(&mut kernel, g);
    let g = grant.enter(&mut kernel, b).unwrap();
    grant.exit(&mut kernel, g);

    let mut it = grant.iter();
    assert_eq!(it.next(&kernel), Some(a));
    // b's region is borrowed by the time the walk reaches it: skipped.
    let held = grant.enter(&mut kernel, b).unwrap();
    assert_eq!(it.next(&kernel), None);
    grant.exit(&mut kernel, held);
}

#[test]
fn regions_of_different_processes_and_grants_are_independent() {
    let mut kernel = Kernel::new(4, 2);
    let a = kernel.add_process(256).unwrap();
    let b = kernel.add_process(256).unwrap();
    let mut left: Grant<u32> = Grant::new(&kernel, 0);
    let mut right: Grant<u32> = Grant::new(&kernel, 1);

    let mut g = left.enter(&mut kernel, a).unwrap();
    g.set(1);
    left.exit(&mut kernel, g);
    let mut g = left.enter(&mut kernel, b).unwrap();
    g.set(2);
    left.exit(&mut kernel, g);
    let mut g = right.enter(&mut kernel, a).unwrap();
    g.set(3);
    right.exit(&mut kernel, g);

    let g = left.enter(&mut kernel, a).unwrap();
    assert_eq!(*g.get(), 1);
    left.exit(&mut kernel, g);
    let g = left.enter(&mut kernel, b).unwrap();
    assert_eq!(*g.get(), 2);
    left.exit(&mut kernel, g);
    let g = right.enter(&mut kernel, a).unwrap();
    assert_eq!(*g.get(), 3);
    right.exit(&mut kernel, g);
}

#[test]
fn process_table_fills_up() {
    let mut kernel = Kernel::new(1, 1);
    assert!(kernel.add_process(16).is_some());
    assert!(kernel.add_process(16).is_none());
}

#[test]
fn counter_scenario() {
    let mut kernel = Kernel::new(2, 1);
    let a = kernel.add_process(256).unwrap();
    let mut grant: Grant<u32> = Grant::new(&kernel, 0);

    // First access allocates, sees the default 0, increments to 1.
    let mut b = grant.enter(&mut kernel, a).unwrap();
    let addr = b.region_address();
    assert_eq!(b.appid(), a);
    *b.data_mut() += 1;
    assert_eq!(*b.get(), 1);

    // A nested access from within the first one collides.
    assert_eq!(grant.enter(&mut kernel, a).unwrap_err(), Error::AlreadyInUse);

    // The outer access still completes normally.
    grant.exit(&mut kernel, b);

    // Second access reuses the identical region and increments to 2.
    let mut b = grant.enter(&mut kernel, a).unwrap();
    assert_eq!(b.region_address(), addr);
    *b.data_mut() += 1;
    assert_eq!(*b.get(), 2);
    grant.exit(&mut kernel, b);
}
