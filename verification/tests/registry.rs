use current::Registry;

const FOO: u64 = 1;
const BAR: u64 = 2;

#[test]
fn new_registry_has_nothing_current() {
    let registry = Registry::new();
    assert_eq!(registry.lookup(0), None);
    assert_eq!(registry.lookup(FOO), None);
    assert_eq!(registry.lookup(u64::MAX), None);
}

#[test]
fn register_on_empty_slot_returns_none() {
    let mut registry = Registry::new();
    assert_eq!(registry.register(FOO, 10), None);
    assert_eq!(registry.lookup(FOO), Some(10));
}

#[test]
fn register_on_occupied_slot_returns_previous() {
    let mut registry = Registry::new();
    assert_eq!(registry.register(FOO, 10), None);
    assert_eq!(registry.register(FOO, 20), Some(10));
    assert_eq!(registry.lookup(FOO), Some(20));
    assert_eq!(registry.register(FOO, 20), Some(20));
    assert_eq!(registry.lookup(FOO), Some(20));
}

#[test]
fn restore_with_none_removes_the_entry() {
    let mut registry = Registry::new();
    registry.register(FOO, 10);
    registry.restore(FOO, None);
    assert_eq!(registry.lookup(FOO), None);
    assert_eq!(registry.register(FOO, 30), None);
}

#[test]
fn restore_with_none_on_empty_slot_changes_nothing() {
    let mut registry = Registry::new();
    registry.register(BAR, 5);
    registry.restore(FOO, None);
    assert_eq!(registry.lookup(FOO), None);
    assert_eq!(registry.lookup(BAR), Some(5));
}

#[test]
fn restore_with_some_reinstalls_the_address() {
    let mut registry = Registry::new();
    registry.register(FOO, 10);
    registry.register(FOO, 20);
    registry.restore(FOO, Some(10));
    assert_eq!(registry.lookup(FOO), Some(10));
}

#[test]
fn restore_with_some_on_empty_slot_installs_the_address() {
    let mut registry = Registry::new();
    registry.restore(FOO, Some(77));
    assert_eq!(registry.lookup(FOO), Some(77));
}

#[test]
fn restore_undoes_the_register_that_gave_its_argument() {
    let mut registry = Registry::new();
    registry.register(BAR, 5);

    let previous = registry.register(FOO, 10);
    assert_eq!(previous, None);
    registry.restore(FOO, previous);
    assert_eq!(registry.lookup(FOO), None);
    assert_eq!(registry.lookup(BAR), Some(5));

    let previous = registry.register(BAR, 6);
    assert_eq!(previous, Some(5));
    registry.restore(BAR, previous);
    assert_eq!(registry.lookup(BAR), Some(5));
    assert_eq!(registry.lookup(FOO), None);
}

#[test]
fn register_leaves_other_types_alone() {
    let mut registry = Registry::new();
    registry.register(BAR, 5);
    assert_eq!(registry.lookup(FOO), None);
    registry.register(FOO, 10);
    assert_eq!(registry.lookup(BAR), Some(5));
    assert_eq!(registry.lookup(3), None);
    registry.register(FOO, 11);
    assert_eq!(registry.lookup(BAR), Some(5));
    assert_eq!(registry.lookup(3), None);
}

#[test]
fn restore_leaves_other_types_alone() {
    let mut registry = Registry::new();
    registry.register(BAR, 5);
    registry.register(FOO, 10);
    registry.restore(FOO, Some(9));
    assert_eq!(registry.lookup(BAR), Some(5));
    registry.restore(FOO, None);
    assert_eq!(registry.lookup(BAR), Some(5));
    assert_eq!(registry.lookup(FOO), None);
}

#[test]
fn lookup_does_not_change_the_registry() {
    let mut registry = Registry::new();
    registry.register(FOO, 10);
    assert_eq!(registry.lookup(FOO), Some(10));
    assert_eq!(registry.lookup(FOO), Some(10));
    assert_eq!(registry.lookup(BAR), None);
    assert_eq!(registry.lookup(BAR), None);
    assert_eq!(registry.register(FOO, 11), Some(10));
    assert_eq!(registry.register(BAR, 1), None);
}

#[test]
fn extreme_keys_and_addresses_are_kept() {
    let mut registry = Registry::new();
    assert_eq!(registry.register(u64::MAX, usize::MAX), None);
    assert_eq!(registry.register(0, 0), None);
    assert_eq!(registry.lookup(u64::MAX), Some(usize::MAX));
    assert_eq!(registry.lookup(0), Some(0));
    assert_eq!(registry.register(u64::MAX, 0), Some(usize::MAX));
    registry.restore(u64::MAX, Some(usize::MAX));
    assert_eq!(registry.lookup(u64::MAX), Some(usize::MAX));
}

#[test]
fn many_types_each_keep_their_own_slot() {
    let mut registry = Registry::new();
    let mut key: u64 = 0;
    while key < 100 {
        assert_eq!(registry.register(key, (key as usize) * 3), None);
        key += 1;
    }
    let mut key: u64 = 0;
    while key < 100 {
        assert_eq!(registry.lookup(key), Some((key as usize) * 3));
        key += 1;
    }
    assert_eq!(registry.lookup(100), None);
}
