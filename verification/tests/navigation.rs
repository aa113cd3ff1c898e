use explorer_rs::explorer::{Action, ExplorerApp};
use explorer_rs::navigation::NavigationState;
use std::path::PathBuf;

fn path(text: &str) -> PathBuf {
    PathBuf::from(text)
}

#[test]
fn new_state_has_no_history() {
    let nav = NavigationState::new(path("/home/u"));
    assert_eq!(nav.current, path("/home/u"));
    assert!(nav.back.is_empty());
    assert!(nav.forward.is_empty());
}

#[test]
fn navigate_leaves_the_current_path_behind() {
    let mut nav = NavigationState::new(path("/q"));
    nav.navigate(path("/p"));
    assert_eq!(nav.current, path("/p"));
    assert_eq!(nav.back, vec![path("/q")]);
    assert!(nav.forward.is_empty());
    nav.navigate(path("/r"));
    assert_eq!(nav.back, vec![path("/q"), path("/p")]);
}

#[test]
fn back_after_navigate_restores_and_offers_the_way_forward() {
    let mut nav = NavigationState::new(path("/start"));
    nav.navigate(path("/q"));
    let before = nav.clone();
    nav.navigate(path("/p"));
    assert!(nav.go_back());
    assert_eq!(nav.current, path("/q"));
    assert_eq!(nav.back, before.back);
    assert_eq!(nav.forward, vec![path("/p")]);
    assert!(nav.go_forward());
    assert_eq!(nav.current, path("/p"));
    assert_eq!(nav.back, vec![path("/start"), path("/q")]);
    assert!(nav.forward.is_empty());
    assert!(nav.go_back());
    assert!(nav.go_back());
    assert_eq!(nav.current, path("/start"));
    assert_eq!(nav.forward, vec![path("/p"), path("/q")]);
}

#[test]
fn back_without_history_changes_nothing() {
    let mut nav = NavigationState::new(path("/q"));
    let before = nav.clone();
    assert!(!nav.go_back());
    assert_eq!(nav, before);
}

#[test]
fn forward_without_history_changes_nothing() {
    let mut nav = NavigationState::new(path("/q"));
    nav.navigate(path("/p"));
    let before = nav.clone();
    assert!(!nav.go_forward());
    assert_eq!(nav, before);
}

#[test]
fn navigate_keeps_the_forward_history() {
    let mut nav = NavigationState::new(path("/a"));
    nav.navigate(path("/b"));
    assert!(nav.go_back());
    nav.navigate(path("/c"));
    assert_eq!(nav.current, path("/c"));
    assert_eq!(nav.back, vec![path("/a")]);
    assert_eq!(nav.forward, vec![path("/b")]);
}

#[test]
fn up_goes_to_the_parent_as_a_new_path() {
    let mut nav = NavigationState::new(path("/a/b"));
    nav.navigate(path("/a/b/c"));
    assert!(nav.go_back());
    assert!(nav.go_up());
    assert_eq!(nav.current, path("/a"));
    assert_eq!(nav.back, vec![path("/a/b")]);
    assert_eq!(nav.forward, vec![path("/a/b/c")]);
}

#[test]
fn up_from_the_root_changes_nothing() {
    let mut nav = NavigationState::new(path("/"));
    let before = nav.clone();
    assert!(!nav.go_up());
    assert_eq!(nav, before);
    let mut empty = NavigationState::new(path(""));
    assert!(!empty.go_up());
    assert_eq!(empty.current, path(""));
}

#[test]
fn up_to_a_given_parent() {
    let mut nav = NavigationState::new(path("/a/b"));
    assert!(nav.go_up_to(Some(path("/elsewhere"))));
    assert_eq!(nav.current, path("/elsewhere"));
    assert_eq!(nav.back, vec![path("/a/b")]);
    assert!(!nav.go_up_to(None));
    assert_eq!(nav.current, path("/elsewhere"));
    assert_eq!(nav.back, vec![path("/a/b")]);
}

#[test]
fn window_starts_at_its_initial_path() {
    let app = ExplorerApp::new(path("/home/u"));
    assert_eq!(app.initial_path, path("/home/u"));
    assert_eq!(app.navigation, NavigationState::new(path("/home/u")));
    assert_eq!(app.selected_entry, None);
    assert_eq!(app.renaming_entry, None);
    assert_eq!(app.renaming_string, "");
    assert!(app.current_dir_items.is_empty());
    assert!(!app.listing_failed);
}

#[test]
fn changing_directory_drops_the_selection() {
    let mut app = ExplorerApp::new(path("/q"));
    app.select_entry(3);
    assert_eq!(app.selected_entry, Some(3));
    assert_eq!(app.change_dir(path("/p")), Action::Relist);
    assert_eq!(app.selected_entry, None);
    assert_eq!(app.navigation.current, path("/p"));
    assert_eq!(app.navigation.back, vec![path("/q")]);
    assert_eq!(app.initial_path, path("/q"));
}

#[test]
fn stepping_back_and_forward_in_the_window() {
    let mut app = ExplorerApp::new(path("/q"));
    app.change_dir(path("/p"));
    app.select_entry(1);
    assert_eq!(app.previous_dir(), Action::Relist);
    assert_eq!(app.selected_entry, None);
    assert_eq!(app.navigation.current, path("/q"));
    app.select_entry(2);
    assert_eq!(app.previous_dir(), Action::Nothing);
    assert_eq!(app.selected_entry, Some(2));
    assert_eq!(app.forward_dir(), Action::Relist);
    assert_eq!(app.selected_entry, None);
    assert_eq!(app.navigation.current, path("/p"));
    app.select_entry(0);
    assert_eq!(app.forward_dir(), Action::Nothing);
    assert_eq!(app.selected_entry, Some(0));
}

#[test]
fn going_up_a_level_in_the_window() {
    let mut app = ExplorerApp::new(path("/a/b"));
    app.select_entry(0);
    assert_eq!(app.previous_level(), Action::Relist);
    assert_eq!(app.navigation.current, path("/a"));
    assert_eq!(app.navigation.back, vec![path("/a/b")]);
    assert_eq!(app.selected_entry, None);
    assert_eq!(app.previous_level(), Action::Relist);
    assert_eq!(app.navigation.current, path("/"));
    app.select_entry(5);
    assert_eq!(app.previous_level(), Action::Nothing);
    assert_eq!(app.navigation.current, path("/"));
    assert_eq!(app.navigation.back, vec![path("/a/b"), path("/a")]);
    assert_eq!(app.selected_entry, Some(5));
}
