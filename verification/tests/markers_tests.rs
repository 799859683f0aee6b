use std::cell::Cell;
use std::rc::Rc;

use certain_map::{Available, MaybeAvailable, OccupiedM, Vacancy};

/// A value that counts how often it is released.
struct Counted {
    tag: u32,
    drops: Rc<Cell<u32>>,
}

impl Drop for Counted {
    fn drop(&mut self) {
        self.drops.set(self.drops.get() + 1);
    }
}

#[test]
fn set_then_ref_round_trips() {
    let mut cell: Option<String> = None;
    Vacancy::do_set(&mut cell, "a".to_string());
    assert_eq!(OccupiedM::do_ref(&cell), "a");
}

#[test]
fn second_set_replaces_and_releases_exactly_once() {
    let drops = Rc::new(Cell::new(0));
    let mut cell: Option<Counted> = None;
    Vacancy::do_set(&mut cell, Counted { tag: 1, drops: drops.clone() });
    assert_eq!(drops.get(), 0);
    OccupiedM::do_set(&mut cell, Counted { tag: 2, drops: drops.clone() });
    assert_eq!(drops.get(), 1);
    assert_eq!(OccupiedM::do_ref(&cell).tag, 2);
    OccupiedM::do_drop(&mut cell);
    assert_eq!(drops.get(), 2);
}

#[test]
fn take_after_set_returns_the_value_and_vacates() {
    let mut cell: Option<String> = None;
    Vacancy::do_set(&mut cell, "a".to_string());
    let v = OccupiedM::do_take(&mut cell);
    assert_eq!(v, "a");
    assert!(cell.is_none());
    Vacancy::do_drop(&mut cell);
    assert!(cell.is_none());
}

#[test]
fn take_does_not_release_the_moved_value() {
    let drops = Rc::new(Cell::new(0));
    let mut cell: Option<Counted> = None;
    Vacancy::do_set(&mut cell, Counted { tag: 7, drops: drops.clone() });
    let v = OccupiedM::do_take(&mut cell);
    assert_eq!(v.tag, 7);
    assert_eq!(drops.get(), 0);
    drop(v);
    assert_eq!(drops.get(), 1);
}

#[test]
fn remove_on_vacant_slot_is_a_no_op() {
    let mut cell: Option<u8> = None;
    Vacancy::do_drop(&mut cell);
    assert!(cell.is_none());
    Vacancy::do_drop(&mut cell);
    assert!(cell.is_none());
}

#[test]
fn maybe_reads_follow_the_marker() {
    let mut occupied: Option<u8> = Some(5);
    let mut vacant: Option<u8> = None;
    assert_eq!(OccupiedM::do_maybe_ref(&occupied), Some(&5));
    assert_eq!(Vacancy::do_maybe_ref(&vacant), None);
    if let Some(v) = OccupiedM::do_maybe_mut(&mut occupied) {
        *v = 6;
    }
    assert_eq!(occupied, Some(6));
    assert_eq!(Vacancy::do_maybe_mut(&mut vacant), None);
}

#[test]
fn mutable_read_writes_through() {
    let mut cell: Option<String> = Some("a".to_string());
    OccupiedM::do_mut(&mut cell).push('b');
    assert_eq!(OccupiedM::do_ref(&cell), "ab");
}

#[test]
fn owned_read_clones_without_consuming() {
    let cell: Option<String> = Some("a".to_string());
    let v: String = OccupiedM::do_read(&cell);
    assert_eq!(v, "a");
    assert_eq!(cell, Some("a".to_string()));
}

#[test]
fn clone_for_fork_follows_occupancy() {
    let occupied: Option<String> = Some("a".to_string());
    let vacant: Option<String> = None;
    assert_eq!(OccupiedM::do_clone(&occupied), Some("a".to_string()));
    assert_eq!(Vacancy::do_clone(&vacant), None);
}
