use lazy_cell::Lazy;
use std::cell::Cell;
use std::rc::Rc;

fn counting_cell(count: &Rc<Cell<u32>>, value: i32) -> Lazy<i32, impl FnOnce() -> i32> {
    let count = Rc::clone(count);
    Lazy::lazy(move || {
        count.set(count.get() + 1);
        value
    })
}

#[test]
fn deferred_evaluates_once_on_demand() {
    let count = Rc::new(Cell::new(0u32));
    let count_in_closure = Rc::clone(&count);
    let cell = Lazy::lazy(move || {
        count_in_closure.set(count_in_closure.get() + 1);
        1 + 1
    });
    assert_eq!(count.get(), 0);
    assert_eq!(cell.force(), 2);
    assert_eq!(cell.force(), 2);
    assert_eq!(count.get(), 1);
}

#[test]
fn strict_returns_value_with_no_computation() {
    let cell: Lazy<i32, fn() -> i32> = Lazy::strict(42);
    assert_eq!(cell.force(), 42);
}

#[test]
fn strict_survives_repeated_forces() {
    let cell: Lazy<i32, fn() -> i32> = Lazy::strict(-7);
    for _ in 0..10 {
        assert_eq!(cell.force(), -7);
    }
    let other = cell.duplicate();
    assert_eq!(other.force(), -7);
}

#[test]
fn at_most_once_across_many_handles() {
    let count = Rc::new(Cell::new(0u32));
    let cell = counting_cell(&count, 11);
    let mut handles = Vec::new();
    for _ in 0..4 {
        handles.push(cell.duplicate());
    }
    assert_eq!(cell.force(), 11);
    for handle in &handles {
        assert_eq!(handle.force(), 11);
    }
    assert_eq!(count.get(), 1);
}

#[test]
fn memoized_across_two_handles() {
    let count = Rc::new(Cell::new(0u32));
    let first = counting_cell(&count, 5);
    let second = first.duplicate();
    let r1 = first.force();
    let r2 = second.force();
    assert_eq!(r1, r2);
    assert_eq!(count.get(), 1);
}

#[test]
fn forcing_one_handle_is_visible_through_its_duplicate() {
    let count = Rc::new(Cell::new(0u32));
    let a = counting_cell(&count, 9);
    let b = a.duplicate();
    let forced_via_a = a.force();
    let read_via_b = b.force();
    assert_eq!(read_via_b, forced_via_a);
    assert_eq!(count.get(), 1);
}

#[test]
fn three_handles_forced_middle_first() {
    let count = Rc::new(Cell::new(0u32));
    let a = counting_cell(&count, 30);
    let b = a.duplicate();
    let c = a.duplicate();
    assert_eq!(count.get(), 0);
    assert_eq!(b.force(), 30);
    assert_eq!(a.force(), 30);
    assert_eq!(c.force(), 30);
    assert_eq!(count.get(), 1);
}

#[test]
fn non_copy_payload_is_read_by_clone() {
    let count = Rc::new(Cell::new(0u32));
    let count_in_closure = Rc::clone(&count);
    let cell = Lazy::lazy(move || {
        count_in_closure.set(count_in_closure.get() + 1);
        String::from("memo")
    });
    assert_eq!(count.get(), 0);
    assert_eq!(cell.force_cloned(), "memo");
    assert_eq!(cell.duplicate().force_cloned(), "memo");
    assert_eq!(count.get(), 1);
}

#[test]
fn strict_non_copy_payload() {
    let cell: Lazy<String, fn() -> String> = Lazy::strict(String::from("42"));
    assert_eq!(cell.force_cloned(), "42");
}

#[test]
fn duplicate_of_duplicate_still_shares() {
    let count = Rc::new(Cell::new(0u32));
    let a = counting_cell(&count, 1);
    let b = a.duplicate();
    let c = b.duplicate();
    drop(a);
    drop(b);
    assert_eq!(c.force(), 1);
    assert_eq!(count.get(), 1);
}
