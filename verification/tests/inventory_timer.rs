use spacegame::inventory::{Inventory, InventoryError};
use spacegame::timer::Timer;

#[test]
fn inventory_starts_empty() {
    let inv = Inventory::default();
    assert_eq!(inv.scratch(), 0);
}

#[test]
fn add_then_remove_restores_scratch() {
    let mut inv = Inventory::default();
    inv.add_scratch(30);
    inv.add_scratch(45);
    assert_eq!(inv.scratch(), 75);
    assert!(inv.remove_scratch(45).is_ok());
    assert_eq!(inv.scratch(), 30);
}

#[test]
fn remove_more_than_held_is_refused_and_changes_nothing() {
    let mut inv = Inventory::default();
    inv.add_scratch(49);
    assert_eq!(inv.remove_scratch(50), Err(InventoryError::NotEnoughCash));
    assert_eq!(inv.scratch(), 49);
}

#[test]
fn remove_exactly_what_is_held() {
    let mut inv = Inventory::default();
    inv.add_scratch(50);
    assert_eq!(inv.remove_scratch(50), Ok(()));
    assert_eq!(inv.scratch(), 0);
}

#[test]
fn drain_empties_the_inventory() {
    let mut inv = Inventory::default();
    inv.add_scratch(1234);
    inv.drain_scratch();
    assert_eq!(inv.scratch(), 0);
}

#[test]
fn inventory_error_message() {
    assert_eq!(InventoryError::NotEnoughCash.message(), "Not enough cash");
}

#[test]
fn new_timer_is_stopped_and_not_finished() {
    let t = Timer::of_micros(1_000_000);
    assert_eq!(t.deadline(), 1_000_000);
    assert_eq!(t.elapsed(), 0);
    assert!(!t.is_enabled());
    assert!(!t.finished());
    assert_eq!(t.remaining(), 1_000_000);
}

#[test]
fn timer_finishes_when_deadline_reached() {
    let mut t = Timer::running(1_000_000);
    t.tick(400_000);
    assert!(!t.finished());
    assert_eq!(t.remaining(), 600_000);
    t.tick(600_000);
    assert!(t.finished());
    assert_eq!(t.remaining(), 0);
    t.tick(1);
    assert!(t.finished());
    assert_eq!(t.remaining(), 0);
}

#[test]
fn timer_reset_restarts_countdown() {
    let mut t = Timer::running(10);
    t.tick(15);
    assert!(t.finished());
    t.reset();
    assert_eq!(t.elapsed(), 0);
    assert!(!t.finished());
    assert_eq!(t.deadline(), 10);
}

#[test]
fn timer_start_and_stop() {
    let mut t = Timer::of_micros(10);
    t.start();
    assert!(t.is_enabled());
    t.tick(3);
    t.stop();
    assert!(!t.is_enabled());
    assert_eq!(t.elapsed(), 3);
}

#[test]
fn stopped_timer_keeps_its_time() {
    let mut t = Timer::with_elapsed(10, 3, false);
    t.tick(100);
    assert_eq!(t.elapsed(), 3);
    assert!(!t.finished());
    t.start();
    t.tick(7);
    assert_eq!(t.elapsed(), 10);
    assert!(t.finished());
    t.stop();
    t.reset();
    t.tick(5);
    assert_eq!(t.elapsed(), 0);
}

#[test]
fn running_timer_is_started() {
    let t = Timer::running(42);
    assert!(t.is_enabled());
    assert_eq!((t.deadline(), t.elapsed()), (42, 0));
}

#[test]
fn timer_tick_saturates() {
    let mut t = Timer::with_elapsed(5, u64::MAX - 1, true);
    t.tick(10);
    assert_eq!(t.elapsed(), u64::MAX);
    assert!(t.finished());
}

#[test]
fn zero_deadline_timer_is_finished_at_once() {
    let t = Timer::of_micros(0);
    assert!(t.finished());
}

#[test]
fn adding_scratch_never_fails() {
    let mut inv = Inventory::default();
    inv.add_scratch(u32::MAX - 1);
    inv.add_scratch(5);
    assert_eq!(inv.scratch(), u32::MAX);
}
