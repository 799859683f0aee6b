use certain_map::iters::{IgnoreIter, ReplaceIter};
use certain_map::names::{generic_type, occupied_m_type, occupied_type, vacancy_type};

#[test]
fn generic_type_formats_slot_numbers() {
    assert_eq!(generic_type(0), "_CMT_0");
    assert_eq!(generic_type(3), "_CMT_3");
    assert_eq!(generic_type(10), "_CMT_10");
    assert_eq!(generic_type(12345), "_CMT_12345");
}

#[test]
fn marker_type_paths() {
    assert_eq!(occupied_m_type(), "::certain_map::OccupiedM");
    assert_eq!(vacancy_type(), "::certain_map::Vacancy");
    assert_eq!(occupied_type("u8"), "::certain_map::Occupied<u8>");
    assert_eq!(
        occupied_type("Vec<String>"),
        "::certain_map::Occupied<Vec<String>>"
    );
}

fn strings(items: &[&str]) -> Vec<String> {
    items.iter().map(|s| s.to_string()).collect()
}

fn drain_ignore(items: &Vec<String>, idx: usize) -> Vec<String> {
    let mut it = IgnoreIter::new(items, idx);
    let mut out = Vec::new();
    while let Some(x) = it.next() {
        out.push(x.clone());
    }
    out
}

fn drain_replace(items: &Vec<String>, idx: usize, item: &String) -> Vec<String> {
    let mut it = ReplaceIter::new(items, idx, item);
    let mut out = Vec::new();
    while let Some(x) = it.next() {
        out.push(x.clone());
    }
    out
}

#[test]
fn ignore_iter_leaves_out_the_chosen_position() {
    let items = strings(&["a", "b", "c"]);
    assert_eq!(drain_ignore(&items, 0), strings(&["b", "c"]));
    assert_eq!(drain_ignore(&items, 1), strings(&["a", "c"]));
    assert_eq!(drain_ignore(&items, 2), strings(&["a", "b"]));
}

#[test]
fn ignore_iter_out_of_range_yields_everything() {
    let items = strings(&["a", "b"]);
    assert_eq!(drain_ignore(&items, 5), strings(&["a", "b"]));
}

#[test]
fn replace_iter_substitutes_the_chosen_position() {
    let items = strings(&["a", "b", "c"]);
    let x = "X".to_string();
    assert_eq!(drain_replace(&items, 0, &x), strings(&["X", "b", "c"]));
    assert_eq!(drain_replace(&items, 1, &x), strings(&["a", "X", "c"]));
    assert_eq!(drain_replace(&items, 2, &x), strings(&["a", "b", "X"]));
}

#[test]
fn replace_iter_out_of_range_yields_everything_unchanged() {
    let items = strings(&["a", "b"]);
    let x = "X".to_string();
    assert_eq!(drain_replace(&items, 2, &x), strings(&["a", "b"]));
}
