use gravily::location::Location;
use gravily::manager::FileManager;
use gravily::text::{phrase, sentence};

#[test]
fn phrase_puts_three_texts_together() {
    assert_eq!(phrase("a", "b", "c"), "abc");
    assert_eq!(phrase("", "", ""), "");
    assert_eq!(phrase("Are you sure? ", "\u{4e16}", "!"), "Are you sure? \u{4e16}!");
}

#[test]
fn sentence_puts_four_texts_together() {
    assert_eq!(sentence("a", "b", "c", "d"), "abcd");
    assert_eq!(sentence("", "x", "", ""), "x");
    assert_eq!(sentence("Error making ", "a.txt", ": ", "exists"), "Error making a.txt: exists");
}

#[test]
fn hovered_index_needs_a_listing_that_is_up_to_date() {
    let mut manager = FileManager::new(Location::new("/".to_string()));
    assert_eq!(manager.hovered_index(), None);
    manager.render_file_items(Ok(vec!["a".to_string(), "b".to_string()]));
    assert_eq!(manager.hovered_index(), Some(0));
    manager.select_next();
    assert_eq!(manager.hovered_index(), Some(1));
    manager.exit_dir();
    assert_eq!(manager.hovered_index(), None);
    manager.render_file_items(Ok(vec![]));
    assert_eq!(manager.hovered_index(), None);
}
