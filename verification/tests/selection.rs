use hash_quest::selection::{SelectionMulti, SelectionMultiList};

fn places(l: &SelectionMultiList) -> Vec<(usize, String, usize)> {
    l.selections.iter().map(|s| (s.index, s.name.clone(), s.selection_index)).collect()
}

#[test]
fn new_list_allows_one_pick() {
    let l = SelectionMultiList::new();
    assert!(l.selections.is_empty());
    assert_eq!(l.max_selectable, 1);
    assert!(l.get_first_selection().is_none());
}

#[test]
fn picking_when_full_replaces_oldest() {
    let mut l = SelectionMultiList::new();
    l.make_selection(3, "Coin-3", false);
    assert_eq!(places(&l), vec![(3, "Coin-3".to_string(), 0)]);
    l.make_selection(5, "Coin-5", false);
    assert_eq!(places(&l), vec![(5, "Coin-5".to_string(), 0)]);
    assert!(l.is_selected(5));
    assert!(!l.is_selected(3));
}

#[test]
fn picks_take_lowest_free_place() {
    let mut l = SelectionMultiList::new();
    l.increment_max_selectable();
    l.increment_max_selectable();
    assert_eq!(l.max_selectable, 3);
    l.make_selection(1, "Coin-1", false);
    l.make_selection(2, "Coin-2", false);
    l.make_selection(7, "Coin-7", false);
    assert_eq!(
        places(&l),
        vec![(1, "Coin-1".to_string(), 0), (2, "Coin-2".to_string(), 1), (7, "Coin-7".to_string(), 2)]
    );
    l.unmake_selection(2);
    assert_eq!(places(&l), vec![(1, "Coin-1".to_string(), 0), (7, "Coin-7".to_string(), 2)]);
    l.make_selection(4, "Coin-4", false);
    assert_eq!(
        places(&l),
        vec![(1, "Coin-1".to_string(), 0), (4, "Coin-4".to_string(), 1), (7, "Coin-7".to_string(), 2)]
    );
    l.make_selection(9, "Coin-9", false);
    assert_eq!(
        places(&l),
        vec![(9, "Coin-9".to_string(), 0), (4, "Coin-4".to_string(), 1), (7, "Coin-7".to_string(), 2)]
    );
    assert_eq!(l.selection_by_index(1).map(|s| s.index), Some(4));
    assert!(l.selection_by_index(5).is_none());
    assert_eq!(l.get_first_selection().map(|s| s.index), Some(9));
}

#[test]
fn toggling_unpicks() {
    let mut l = SelectionMultiList::new();
    l.increment_max_selectable();
    l.make_selection(1, "Coin-1", true);
    l.make_selection(2, "Coin-2", true);
    l.make_selection(1, "Coin-1", true);
    assert_eq!(places(&l), vec![(2, "Coin-2".to_string(), 1)]);
    l.make_selection(2, "Coin-2", false);
    assert_eq!(places(&l), vec![(2, "Coin-2".to_string(), 0), (2, "Coin-2".to_string(), 1)]);
}

#[test]
fn limit_stops_at_ten_and_costs_grow() {
    let mut l = SelectionMultiList::new();
    assert_eq!(l.get_upgrade_cost(), 10_000);
    l.increment_max_selectable();
    assert_eq!(l.get_upgrade_cost(), 100_000);
    for _ in 0..20 {
        l.increment_max_selectable();
    }
    assert_eq!(l.max_selectable, 10);
    assert_eq!(l.get_upgrade_cost(), 1_000_000_000_000);
}

#[test]
fn get_selected_copies_and_clear_empties() {
    let mut l = SelectionMultiList::new();
    l.make_selection(8, "Coin-8", false);
    let copy: Vec<SelectionMulti> = l.get_selected();
    assert_eq!(copy.len(), 1);
    assert_eq!(copy[0].name, "Coin-8");
    l.clear();
    assert!(l.selections.is_empty());
    assert_eq!(l.max_selectable, 1);
}

#[test]
fn distinct_places_check() {
    let mut l = SelectionMultiList::new();
    assert!(l.has_distinct_places());
    l.increment_max_selectable();
    l.make_selection(1, "Coin-1", false);
    l.make_selection(2, "Coin-2", false);
    assert!(l.has_distinct_places());
    let pick = |index: usize, place: usize| SelectionMulti {
        name: format!("Coin-{}", index),
        index,
        selection_index: place,
    };
    let swapped = SelectionMultiList { selections: vec![pick(1, 1), pick(2, 0)], max_selectable: 2 };
    assert!(swapped.has_distinct_places());
    let shared = SelectionMultiList { selections: vec![pick(1, 0), pick(2, 0)], max_selectable: 2 };
    assert!(!shared.has_distinct_places());
    let too_far = SelectionMultiList { selections: vec![pick(1, 2)], max_selectable: 2 };
    assert!(!too_far.has_distinct_places());
    let no_room = SelectionMultiList { selections: Vec::new(), max_selectable: 0 };
    assert!(!no_room.has_distinct_places());
}

#[test]
fn picking_into_unordered_places() {
    let pick = |index: usize, place: usize| SelectionMulti {
        name: format!("Coin-{}", index),
        index,
        selection_index: place,
    };
    let mut l = SelectionMultiList { selections: vec![pick(1, 2), pick(2, 0)], max_selectable: 3 };
    l.make_selection(3, "Coin-3", false);
    assert_eq!(places(&l), vec![(1, "Coin-1".to_string(), 2), (3, "Coin-3".to_string(), 1), (2, "Coin-2".to_string(), 0)]);
    assert!(l.has_distinct_places());
}

#[test]
fn toggling_off_works_on_any_list() {
    let pick = |index: usize, place: usize| SelectionMulti {
        name: format!("Coin-{}", index),
        index,
        selection_index: place,
    };
    let mut l = SelectionMultiList { selections: vec![pick(1, 0), pick(2, 0), pick(3, 7)], max_selectable: 0 };
    l.make_selection(2, "Coin-2", true);
    assert_eq!(places(&l), vec![(1, "Coin-1".to_string(), 0), (3, "Coin-3".to_string(), 7)]);
    assert!(!l.is_selected(2));
}
