use glyph_preview::stateful_vec::StatefulVec;

fn paths(names: &[&str]) -> Vec<String> {
    names.iter().map(|name| name.to_string()).collect()
}

#[test]
fn cursor_starts_at_given_index() {
    let nav = StatefulVec::new(paths(&["a.ttf", "b.ttf", "c.ttf"]), Some(1));
    assert_eq!(nav.current_item(), Some(&"b.ttf".to_string()));
    assert_eq!(nav.current_index(), Some(1));
    assert_eq!(nav.len(), 3);
}

#[test]
fn index_outside_the_list_gives_no_cursor() {
    let nav = StatefulVec::new(paths(&["a.ttf"]), Some(1));
    assert_eq!(nav.current_index(), None);
    assert_eq!(nav.current_item(), None);
    assert!(!nav.has_previous());
    assert!(!nav.has_next());
}

#[test]
fn empty_list_has_no_cursor() {
    let mut nav: StatefulVec<String> = StatefulVec::new(Vec::new(), Some(0));
    assert_eq!(nav.current_item(), None);
    nav.select_next();
    nav.select_previous();
    nav.select_if_found(&"a.ttf".to_string());
    assert_eq!(nav.current_index(), None);
}

#[test]
fn no_initial_index_gives_no_cursor() {
    let nav = StatefulVec::new(paths(&["a.ttf", "b.ttf"]), None);
    assert_eq!(nav.current_index(), None);
}

#[test]
fn first_item_has_no_previous_and_stepping_back_stays() {
    let mut nav = StatefulVec::new(paths(&["a.ttf", "b.ttf", "c.ttf"]), Some(0));
    assert!(!nav.has_previous());
    assert!(nav.has_next());
    nav.select_previous();
    assert_eq!(nav.current_index(), Some(0));
    assert_eq!(nav.current_item(), Some(&"a.ttf".to_string()));
}

#[test]
fn last_item_has_no_next_and_stepping_forward_stays() {
    let mut nav = StatefulVec::new(paths(&["a.ttf", "b.ttf", "c.ttf"]), Some(2));
    assert!(nav.has_previous());
    assert!(!nav.has_next());
    nav.select_next();
    assert_eq!(nav.current_index(), Some(2));
    assert_eq!(nav.current_item(), Some(&"c.ttf".to_string()));
}

#[test]
fn middle_item_has_both_neighbours() {
    let nav = StatefulVec::new(paths(&["a.ttf", "b.ttf", "c.ttf"]), Some(1));
    assert!(nav.has_previous());
    assert!(nav.has_next());
}

#[test]
fn single_item_has_no_neighbours() {
    let mut nav = StatefulVec::new(paths(&["a.ttf"]), Some(0));
    assert!(!nav.has_previous());
    assert!(!nav.has_next());
    nav.select_next();
    assert_eq!(nav.current_index(), Some(0));
    nav.select_previous();
    assert_eq!(nav.current_index(), Some(0));
}

#[test]
fn stepping_moves_by_one() {
    let mut nav = StatefulVec::new(paths(&["a.ttf", "b.ttf", "c.ttf"]), Some(0));
    nav.select_next();
    assert_eq!(nav.current_item(), Some(&"b.ttf".to_string()));
    nav.select_next();
    assert_eq!(nav.current_item(), Some(&"c.ttf".to_string()));
    nav.select_previous();
    assert_eq!(nav.current_item(), Some(&"b.ttf".to_string()));
}

#[test]
fn back_then_forward_returns_to_start() {
    for start in 1..4 {
        let mut nav = StatefulVec::new(paths(&["a", "b", "c", "d"]), Some(start));
        nav.select_previous();
        assert_eq!(nav.current_index(), Some(start - 1));
        nav.select_next();
        assert_eq!(nav.current_index(), Some(start));
    }
}

#[test]
fn search_moves_to_the_first_equal_item() {
    let mut nav = StatefulVec::new(paths(&["a", "b", "c", "b"]), Some(0));
    nav.select_if_found(&"b".to_string());
    assert_eq!(nav.current_index(), Some(1));
    nav.select_if_found(&"c".to_string());
    assert_eq!(nav.current_index(), Some(2));
    nav.select_if_found(&"a".to_string());
    assert_eq!(nav.current_index(), Some(0));
}

#[test]
fn search_miss_leaves_the_cursor() {
    let mut nav = StatefulVec::new(paths(&["a", "b", "c"]), Some(2));
    nav.select_if_found(&"z".to_string());
    assert_eq!(nav.current_index(), Some(2));
    assert_eq!(nav.current_item(), Some(&"c".to_string()));
}

#[test]
fn search_hit_gives_a_list_without_cursor_one() {
    let mut nav = StatefulVec::new(paths(&["a", "b"]), None);
    nav.select_if_found(&"b".to_string());
    assert_eq!(nav.current_index(), Some(1));
}
