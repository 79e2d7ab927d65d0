use kadai::SelectableCollection;

fn with_items(n: usize) -> SelectableCollection<u32> {
    let mut items: Vec<u32> = Vec::new();
    let mut i: u32 = 0;
    while (i as usize) < n {
        items.push(i * 10);
        i += 1;
    }
    SelectableCollection::from_items(items)
}

fn invariant_holds(c: &SelectableCollection<u32>) -> bool {
    match c.selected {
        None => c.items.is_empty(),
        Some(i) => i < c.items.len(),
    }
}

#[test]
fn new_collection_is_empty_and_unselected() {
    let c: SelectableCollection<u32> = SelectableCollection::new();
    assert!(c.items.is_empty());
    assert_eq!(c.selected, None);
}

#[test]
fn from_items_selects_first_when_nonempty() {
    let c = with_items(3);
    assert_eq!(c.selected, Some(0));
    let e: SelectableCollection<u32> = SelectableCollection::from_items(Vec::new());
    assert_eq!(e.selected, None);
}

#[test]
fn push_selects_only_first_element() {
    let mut c: SelectableCollection<u32> = SelectableCollection::new();
    c.push(5);
    assert_eq!(c.selected, Some(0));
    c.select(Some(0));
    c.push(6);
    assert_eq!(c.selected, Some(0));
    assert_eq!(c.items, vec![5, 6]);
}

#[test]
fn remove_at_tail_pulls_selection_back() {
    // A three-item list selected at index 2: removing index 2 leaves Some(1).
    let mut c = with_items(3);
    c.select(Some(2));
    let removed = c.remove(2);
    assert_eq!(removed, 20);
    assert_eq!(c.selected, Some(1));
    assert!(invariant_holds(&c));
}

#[test]
fn remove_at_front_with_tail_selection_pulls_back_too() {
    // Removing index 0 while index 2 is selected: 2 now equals the new
    // length, so the selection becomes Some(1) as well.
    let mut c = with_items(3);
    c.select(Some(2));
    let removed = c.remove(0);
    assert_eq!(removed, 0);
    assert_eq!(c.selected, Some(1));
    assert!(invariant_holds(&c));
}

#[test]
fn remove_before_selection_keeps_slot_stationary() {
    let mut c = with_items(4);
    c.select(Some(2));
    c.remove(0);
    assert_eq!(c.selected, Some(2));
    assert!(invariant_holds(&c));
}

#[test]
fn remove_last_item_clears_selection() {
    let mut c = with_items(1);
    assert_eq!(c.selected, Some(0));
    c.remove(0);
    assert_eq!(c.selected, None);
    assert!(c.items.is_empty());
    assert!(invariant_holds(&c));
}

#[test]
fn remove_down_to_one_item() {
    let mut c = with_items(2);
    c.select(Some(1));
    c.remove(1);
    assert_eq!(c.selected, Some(0));
    assert_eq!(c.items, vec![0]);
    assert!(invariant_holds(&c));
}

#[test]
fn move_next_wraps_cyclically() {
    let mut c = with_items(3);
    c.select(Some(2));
    c.move_next();
    assert_eq!(c.selected, Some(0));
    c.move_next();
    assert_eq!(c.selected, Some(1));
}

#[test]
fn move_next_full_cycle_returns_to_start() {
    // Advancing as many times as there are items lands on the original index.
    for start in 0..4 {
        let mut c = with_items(4);
        c.select(Some(start));
        for _ in 0..4 {
            c.move_next();
        }
        assert_eq!(c.selected, Some(start));
    }
}

#[test]
fn move_prev_wraps_cyclically() {
    let mut c = with_items(3);
    c.select(Some(0));
    c.move_prev();
    assert_eq!(c.selected, Some(2));
    c.move_prev();
    assert_eq!(c.selected, Some(1));
}

#[test]
fn moves_on_empty_collection_are_no_ops() {
    let mut c: SelectableCollection<u32> = SelectableCollection::new();
    c.move_next();
    assert_eq!(c.selected, None);
    c.move_prev();
    assert_eq!(c.selected, None);
    c.jump_to_top();
    assert_eq!(c.selected, None);
    c.jump_to_bottom();
    assert_eq!(c.selected, None);
}

#[test]
fn jumps_move_selection_to_the_ends() {
    let mut c = with_items(5);
    c.select(Some(2));
    c.jump_to_bottom();
    assert_eq!(c.selected, Some(4));
    c.jump_to_top();
    assert_eq!(c.selected, Some(0));
}

#[test]
fn swap_exchanges_items_and_keeps_selection() {
    let mut c = with_items(3);
    c.select(Some(1));
    c.swap(1, 2);
    assert_eq!(c.items, vec![0, 20, 10]);
    assert_eq!(c.selected, Some(1));
    assert!(invariant_holds(&c));
}

#[test]
fn insert_keeps_selection_for_caller_to_fix() {
    let mut c = with_items(3);
    c.select(Some(2));
    c.insert(1, 99);
    assert_eq!(c.items, vec![0, 99, 10, 20]);
    assert_eq!(c.selected, Some(2));
    assert!(invariant_holds(&c));
}

#[test]
fn invariant_survives_mixed_mutation_sequences() {
    // A representative burst of push, insert, remove and swap calls keeps
    // the selection consistent with the contents after every step.
    let mut c: SelectableCollection<u32> = SelectableCollection::new();
    c.push(1);
    assert!(invariant_holds(&c));
    c.push(2);
    assert!(invariant_holds(&c));
    c.insert(1, 3);
    assert!(invariant_holds(&c));
    c.swap(0, 2);
    assert!(invariant_holds(&c));
    c.remove(1);
    assert!(invariant_holds(&c));
    c.remove(0);
    assert!(invariant_holds(&c));
    c.remove(0);
    assert!(invariant_holds(&c));
    c.push(9);
    assert!(invariant_holds(&c));
    assert_eq!(c.selected, Some(0));
}
