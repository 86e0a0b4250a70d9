use redactor::home::HomePage;
use redactor::navigation::{AppNavigation, AppView};
use std::path::PathBuf;

#[test]
fn submit_hands_over_files_in_order_and_empties() {
    let mut home = HomePage::default();
    assert!(!home.has_files());
    assert_eq!(home.submit(), None);
    home.add_files(vec![PathBuf::from("a.pdf")]);
    home.add_files(vec![PathBuf::from("b.png"), PathBuf::from("c.docx")]);
    assert!(home.has_files());
    let files = home.submit().unwrap();
    assert_eq!(files, vec![PathBuf::from("a.pdf"), PathBuf::from("b.png"), PathBuf::from("c.docx")]);
    assert!(!home.has_files());
    assert!(home.uploaded_files().is_empty());
}

#[test]
fn clear_files_empties_the_list() {
    let mut home = HomePage::default();
    home.add_files(vec![PathBuf::from("x.pdf")]);
    home.clear_files();
    assert!(!home.has_files());
}

#[test]
fn drag_hover_is_remembered() {
    let mut home = HomePage::default();
    assert!(!home.drag_hover());
    home.set_drag_hover(true);
    assert!(home.drag_hover());
}

#[test]
fn navigation_between_screens() {
    let mut nav = AppNavigation::new();
    assert_eq!(nav.current_view, AppView::Home);
    assert!(!nav.shows_back_button());
    nav.files_submitted();
    assert_eq!(nav.current_view, AppView::Editor);
    assert!(nav.shows_back_button());
    nav.toggle_about();
    assert!(nav.show_about);
    nav.back_to_home();
    assert_eq!(nav.current_view, AppView::Home);
    assert!(nav.show_about);
    nav.toggle_about();
    assert!(!nav.show_about);
    nav.toggle_about();
    nav.close_about();
    assert!(!nav.show_about);
}
