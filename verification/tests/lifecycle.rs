use intrusive::{Intrusive, RefCounted};

/// One foreign object: its text, its owner count, and how often it was reclaimed.
struct Slot {
    text: String,
    owners: usize,
    reclaimed: usize,
}

/// An instrumented family of text objects, named by their index.
struct Registry {
    slots: Vec<Slot>,
    increments: usize,
    decrements: usize,
}

impl Registry {
    fn new() -> Self {
        Registry { slots: Vec::new(), increments: 0, decrements: 0 }
    }

    /// Makes an object that has `owners` owners from the start.
    fn create(&mut self, text: &str, owners: usize) -> usize {
        self.slots.push(Slot { text: String::from(text), owners, reclaimed: 0 });
        self.slots.len() - 1
    }
}

impl RefCounted<str> for Registry {
    type Pointer = usize;

    fn increment(&mut self, pointer: usize) {
        self.increments += 1;
        self.slots[pointer].owners += 1;
    }

    fn decrement(&mut self, pointer: usize) {
        self.decrements += 1;
        let slot = &mut self.slots[pointer];
        slot.owners -= 1;
        if slot.owners == 0 {
            slot.reclaimed += 1;
        }
    }

    fn count(&self, pointer: usize) -> Option<usize> {
        let owners = self.slots[pointer].owners;
        if owners > 0 {
            Some(owners)
        } else {
            None
        }
    }

    fn deref(&self, pointer: usize) -> &str {
        &self.slots[pointer].text
    }
}

#[test]
fn adopt_clone_release_release() {
    let mut family = Registry::new();
    let object = family.create("shared", 1);

    let first = Intrusive::<str, Registry>::adopt(&family, object);
    assert_eq!(family.count(object), Some(1));

    let second = first.clone(&mut family);
    assert_eq!(family.count(object), Some(2));

    first.release(&mut family);
    assert_eq!(family.count(object), Some(1));
    assert_eq!(family.slots[object].reclaimed, 0);

    second.release(&mut family);
    assert_eq!(family.slots[object].owners, 0);
    assert_eq!(family.count(object), None);
    assert_eq!(family.slots[object].reclaimed, 1);
    assert_eq!(family.increments, 1);
    assert_eq!(family.decrements, 2);
}

#[test]
fn retain_then_release_restores_count() {
    let mut family = Registry::new();
    let object = family.create("kept", 3);
    let before = family.count(object);

    let handle = Intrusive::<str, Registry>::retain(&mut family, object);
    assert_eq!(family.count(object), Some(4));
    handle.release(&mut family);

    assert_eq!(family.count(object), before);
    assert_eq!(family.count(object), Some(3));
    assert_eq!(family.increments, 1);
    assert_eq!(family.decrements, 1);
    assert_eq!(family.slots[object].reclaimed, 0);
}

#[test]
fn retain_then_release_restores_single_owner() {
    let mut family = Registry::new();
    let object = family.create("kept", 1);

    let handle = Intrusive::<str, Registry>::retain(&mut family, object);
    handle.release(&mut family);

    assert_eq!(family.count(object), Some(1));
    assert_eq!(family.slots[object].reclaimed, 0);
    assert_eq!(family.deref(object), "kept");
}

#[test]
fn clone_shares_object_and_counts_one_more() {
    let mut family = Registry::new();
    let object = family.create("one object", 1);
    let source = Intrusive::<str, Registry>::adopt(&family, object);
    let before = family.count(object).unwrap();

    let copy = source.clone(&mut family);

    assert_eq!(family.count(object), Some(before + 1));
    assert_eq!(source.deref(&family), copy.deref(&family));
    assert!(std::ptr::eq(source.deref(&family), copy.deref(&family)));
    assert_eq!(copy.deref(&family), "one object");
    assert_eq!(family.increments, 1);
    assert_eq!(family.decrements, 0);
}

#[test]
fn clone_of_clone_counts_each_owner() {
    let mut family = Registry::new();
    let object = family.create("tree", 1);
    let first = Intrusive::<str, Registry>::adopt(&family, object);
    let second = first.clone(&mut family);
    let third = second.clone(&mut family);
    assert_eq!(family.count(object), Some(3));
    assert_eq!(third.deref(&family), "tree");
    second.release(&mut family);
    assert_eq!(family.count(object), Some(2));
    assert_eq!(first.deref(&family), "tree");
    assert_eq!(third.deref(&family), "tree");
}

#[test]
fn releasing_every_handle_reclaims_once() {
    let mut family = Registry::new();
    let object = family.create("short-lived", 1);
    let mut handles = vec![Intrusive::<str, Registry>::adopt(&family, object)];
    for _ in 0..4 {
        let copy = handles[0].clone(&mut family);
        handles.push(copy);
    }
    assert_eq!(family.count(object), Some(5));

    let mut left = 5;
    for handle in handles {
        assert_eq!(family.slots[object].reclaimed, 0);
        assert_eq!(family.count(object), Some(left));
        handle.release(&mut family);
        left -= 1;
    }

    assert_eq!(family.slots[object].owners, 0);
    assert_eq!(family.slots[object].reclaimed, 1);
    assert_eq!(family.increments, 4);
    assert_eq!(family.decrements, 5);
}

#[test]
fn foreign_owner_keeps_object_alive() {
    let mut family = Registry::new();
    let object = family.create("also held elsewhere", 2);
    let handle = Intrusive::<str, Registry>::adopt(&family, object);
    handle.release(&mut family);
    assert_eq!(family.count(object), Some(1));
    assert_eq!(family.slots[object].reclaimed, 0);
    assert_eq!(family.deref(object), "also held elsewhere");
}

#[test]
fn adopt_makes_no_counting_call() {
    let mut family = Registry::new();
    let object = family.create("adopted", 1);
    let handle = Intrusive::<str, Registry>::adopt(&family, object);
    assert_eq!(family.increments, 0);
    assert_eq!(family.decrements, 0);
    assert_eq!(family.count(object), Some(1));
    assert_eq!(handle.deref(&family), "adopted");
}

#[test]
fn retain_makes_one_increment() {
    let mut family = Registry::new();
    let object = family.create("retained", 1);
    let handle = Intrusive::<str, Registry>::retain(&mut family, object);
    assert_eq!(family.increments, 1);
    assert_eq!(family.decrements, 0);
    assert_eq!(family.count(object), Some(2));
    assert_eq!(handle.deref(&family), "retained");
}

#[test]
fn adopted_handle_derefs_to_object() {
    let mut family = Registry::new();
    let _other = family.create("another", 1);
    let object = family.create("the very object", 1);
    let handle = Intrusive::<str, Registry>::adopt(&family, object);
    let seen: &str = handle.deref(&family);
    assert_eq!(seen, "the very object");
    assert!(std::ptr::eq(seen, family.slots[object].text.as_str()));
}

#[test]
fn release_calls_decrement_once() {
    let mut family = Registry::new();
    let object = family.create("once", 2);
    let handle = Intrusive::<str, Registry>::adopt(&family, object);
    handle.release(&mut family);
    assert_eq!(family.decrements, 1);
    assert_eq!(family.increments, 0);
    assert_eq!(family.count(object), Some(1));
}

#[test]
fn objects_are_counted_apart() {
    let mut family = Registry::new();
    let left = family.create("left", 1);
    let right = family.create("right", 1);
    let on_left = Intrusive::<str, Registry>::adopt(&family, left);
    let on_right = Intrusive::<str, Registry>::adopt(&family, right);

    let second_left = on_left.clone(&mut family);
    assert_eq!(family.count(left), Some(2));
    assert_eq!(family.count(right), Some(1));

    on_left.release(&mut family);
    second_left.release(&mut family);
    assert_eq!(family.slots[left].reclaimed, 1);
    assert_eq!(family.count(right), Some(1));
    assert_eq!(on_right.deref(&family), "right");

    on_right.release(&mut family);
    assert_eq!(family.slots[right].reclaimed, 1);
    assert_eq!(family.slots[left].reclaimed, 1);
}
