use blackhole_importer::selection::{Instance, SelectionModel};
use std::path::PathBuf;

fn instance(name: &str, path: &str) -> Instance {
    Instance { name: name.to_string(), path: PathBuf::from(path) }
}

fn three() -> SelectionModel {
    SelectionModel::new(vec![instance("A", "/a"), instance("B", "/b"), instance("C", "/c")])
}

#[test]
fn cursor_starts_unset() {
    let model = three();
    assert_eq!(model.selected(), None);
    assert!(model.selected_instance().is_none());
    assert_eq!(model.len(), 3);
}

#[test]
fn instances_keep_their_order() {
    let model = three();
    let names: Vec<&str> = model.instances().iter().map(|i| i.name.as_str()).collect();
    assert_eq!(names, vec!["A", "B", "C"]);
}

#[test]
fn first_next_selects_first_entry() {
    let mut model = three();
    model.select_next();
    assert_eq!(model.selected(), Some(0));
}

#[test]
fn next_advances_by_one() {
    let mut model = three();
    model.select_next();
    model.select_next();
    assert_eq!(model.selected(), Some(1));
    assert_eq!(model.selected_instance().map(|i| i.name.as_str()), Some("B"));
}

#[test]
fn repeated_next_stops_at_last_entry() {
    let mut model = three();
    for step in 0..10 {
        model.select_next();
        let cursor = model.selected().unwrap();
        assert!(cursor <= 2);
        assert_eq!(cursor, std::cmp::min(step, 2));
    }
    assert_eq!(model.selected(), Some(2));
}

#[test]
fn first_previous_selects_last_entry() {
    let mut model = three();
    model.select_previous();
    assert_eq!(model.selected(), Some(2));
}

#[test]
fn repeated_previous_stops_at_first_entry() {
    let mut model = three();
    model.select_index(2);
    for _ in 0..10 {
        model.select_previous();
        assert!(model.selected().is_some());
    }
    assert_eq!(model.selected(), Some(0));
    model.select_previous();
    assert_eq!(model.selected(), Some(0));
}

#[test]
fn previous_steps_back_by_one() {
    let mut model = three();
    model.select_index(2);
    model.select_previous();
    assert_eq!(model.selected(), Some(1));
}

#[test]
fn select_index_in_range_moves_cursor() {
    let mut model = three();
    model.select_index(2);
    assert_eq!(model.selected(), Some(2));
    model.select_index(0);
    assert_eq!(model.selected(), Some(0));
}

#[test]
fn select_index_out_of_range_keeps_cursor() {
    let mut model = three();
    model.select_index(3);
    assert_eq!(model.selected(), None);
    model.select_index(1);
    model.select_index(3);
    assert_eq!(model.selected(), Some(1));
    model.select_index(usize::MAX);
    assert_eq!(model.selected(), Some(1));
}

#[test]
fn single_entry_list_clamps_both_ways() {
    let mut model = SelectionModel::new(vec![instance("only", "/only")]);
    model.select_next();
    model.select_next();
    assert_eq!(model.selected(), Some(0));
    model.select_previous();
    assert_eq!(model.selected(), Some(0));
}

#[test]
fn empty_list_never_gets_a_cursor() {
    let mut model = SelectionModel::new(Vec::new());
    model.select_next();
    assert_eq!(model.selected(), None);
    model.select_previous();
    assert_eq!(model.selected(), None);
    model.select_index(0);
    assert_eq!(model.selected(), None);
}
