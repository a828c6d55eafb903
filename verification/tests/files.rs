use gravily::location::Location;
use gravily::manager::events::Effect;
use gravily::manager::FileManager;
use gravily::mode::{InputMode, Key};

fn names(list: &[&str]) -> Vec<String> {
    list.iter().map(|name| name.to_string()).collect()
}

fn browser(listing: &[&str]) -> FileManager {
    let mut manager =
        FileManager::new(Location::from_parts("/".to_string(), names(&["home", "user"])));
    manager.render_file_items(Ok(names(listing)));
    manager
}

fn type_text(manager: &mut FileManager, text: &str) {
    for c in text.chars() {
        manager.handle_events(Key::Char(c));
    }
}

/// A directory tree in memory: the texts of the directories and of the files.
struct Disk {
    dirs: Vec<String>,
    files: Vec<String>,
}

impl Disk {
    fn list(&self, dir: &Location) -> Result<Vec<String>, String> {
        let at = dir.text();
        if !self.dirs.contains(&at) {
            return Err("No such file or directory (os error 2)".to_string());
        }
        let prefix = if at.ends_with('/') { at } else { format!("{}/", at) };
        let mut found = Vec::new();
        for entry in self.dirs.iter().chain(self.files.iter()) {
            if let Some(rest) = entry.strip_prefix(&prefix) {
                if !rest.is_empty() && !rest.contains('/') {
                    found.push(rest.to_string());
                }
            }
        }
        Ok(found)
    }

    fn is_dir(&self, at: &Location) -> Result<bool, String> {
        let text = at.text();
        if self.dirs.contains(&text) {
            Ok(true)
        } else if self.files.contains(&text) {
            Ok(false)
        } else {
            Err("No such file or directory (os error 2)".to_string())
        }
    }

    fn create(&mut self, at: &Location) -> Result<(), String> {
        let text = at.text();
        if self.dirs.contains(&text) || self.files.contains(&text) {
            return Err("File exists (os error 17)".to_string());
        }
        self.files.push(text);
        Ok(())
    }

    fn rename(&mut self, from: &Location, to: &Location) -> Result<(), String> {
        let (from, to) = (from.text(), to.text());
        match self.files.iter().position(|file| *file == from) {
            Some(index) => {
                self.files[index] = to;
                Ok(())
            }
            None => Err("No such file or directory (os error 2)".to_string()),
        }
    }

    fn remove(&mut self, at: &Location) -> Result<(), String> {
        let text = at.text();
        match self.files.iter().position(|file| *file == text) {
            Some(index) => {
                self.files.remove(index);
                Ok(())
            }
            None => Err("Is a directory (os error 21)".to_string()),
        }
    }
}

/// One turn of the caller's loop: read the directory, then handle the key and
/// do what it asks for.
fn turn(manager: &mut FileManager, disk: &mut Disk, key: Key) {
    manager.render_file_items(disk.list(manager.path()));
    match manager.handle_events(key) {
        Effect::Nothing => {}
        Effect::Probe(at) => manager.enter_hovered_dir(disk.is_dir(&at)),
        Effect::Create(at) => manager.create_file(disk.create(&at)),
        Effect::Rename(from, to) => manager.rename_file(disk.rename(&from, &to)),
        Effect::Remove(at) => manager.remove_file(disk.remove(&at)),
    }
}

fn home_disk() -> Disk {
    Disk {
        dirs: names(&["/", "/home", "/home/user", "/home/user/sub"]),
        files: names(&["/home/user/a.txt", "/home/user/sub/inner.txt"]),
    }
}

fn at_home() -> FileManager {
    FileManager::new(Location::from_parts("/".to_string(), names(&["home", "user"])))
}

#[test]
fn a_created_file_leaves_no_error() {
    let mut manager = browser(&["a.txt"]);
    manager.enter_hovered_dir(Err("old".to_string()));
    manager.handle_events(Key::Char('a'));
    type_text(&mut manager, "new.txt");
    manager.handle_events(Key::Enter);
    manager.handle_events(Key::Char('y'));
    manager.create_file(Ok(()));
    assert_eq!(manager.error(), "");
    assert_eq!(manager.input_value(), "");
    assert_eq!(manager.input_cursor(), 0);
    assert!(manager.is_stale());
    assert_eq!(manager.path_items(), &names(&["a.txt"]));
    assert_eq!(manager.selected(), Some(0));
}

#[test]
fn a_failed_create_is_recorded() {
    let mut manager = browser(&["a.txt"]);
    manager.handle_events(Key::Char('a'));
    type_text(&mut manager, "a.txt");
    manager.handle_events(Key::Enter);
    manager.handle_events(Key::Char('y'));
    manager.create_file(Err("File exists (os error 17)".to_string()));
    assert_eq!(manager.error(), "Error making a.txt: File exists (os error 17)");
    assert_eq!(manager.input_value(), "");
    assert!(!manager.is_stale());
    assert_eq!(manager.path_items(), &names(&["a.txt"]));
    assert_eq!(manager.selected(), Some(0));
}

#[test]
fn a_renamed_entry_leaves_no_error() {
    let mut manager = browser(&["a.txt"]);
    manager.enter_hovered_dir(Err("old".to_string()));
    manager.handle_events(Key::Char('r'));
    type_text(&mut manager, "b.txt");
    manager.handle_events(Key::Enter);
    manager.handle_events(Key::Char('y'));
    manager.rename_file(Ok(()));
    assert_eq!(manager.error(), "");
    assert_eq!(manager.input_value(), "");
    assert!(manager.is_stale());
}

#[test]
fn a_failed_rename_is_recorded() {
    let mut manager = browser(&["a.txt"]);
    manager.handle_events(Key::Char('r'));
    type_text(&mut manager, "b.txt");
    manager.handle_events(Key::Enter);
    manager.handle_events(Key::Char('y'));
    manager.rename_file(Err("Permission denied (os error 13)".to_string()));
    assert_eq!(
        manager.error(),
        "Error renaming file \"/home/user/a.txt\": Permission denied (os error 13)"
    );
    assert_eq!(manager.input_value(), "");
    assert!(!manager.is_stale());
    assert_eq!(manager.selected(), Some(0));
}

#[test]
fn a_rename_message_escapes_the_path() {
    let mut manager = browser(&["a \"quoted\" name"]);
    manager.rename_file(Err("no".to_string()));
    assert_eq!(
        manager.error(),
        "Error renaming file \"/home/user/a \\\"quoted\\\" name\": no"
    );
}

#[test]
fn a_rename_of_nothing_is_refused() {
    let mut manager = browser(&[]);
    manager.rename_file(Ok(()));
    assert_eq!(
        manager.error(),
        "Error renaming file \"/home/user\": File must not be current directory."
    );
    assert!(!manager.is_stale());
    manager.rename_file(Err("ignored".to_string()));
    assert_eq!(
        manager.error(),
        "Error renaming file \"/home/user\": File must not be current directory."
    );
}

#[test]
fn a_removed_entry_leaves_no_error() {
    let mut manager = browser(&["a.txt", "b.txt"]);
    manager.enter_hovered_dir(Err("old".to_string()));
    manager.handle_events(Key::Char('d'));
    manager.handle_events(Key::Char('y'));
    manager.remove_file(Ok(()));
    assert_eq!(manager.error(), "");
    assert!(manager.is_stale());
    assert_eq!(manager.input_mode(), InputMode::Navigation);
}

#[test]
fn a_failed_remove_is_recorded() {
    let mut manager = browser(&["a.txt", "sub"]);
    manager.handle_events(Key::Down);
    manager.handle_events(Key::Char('d'));
    manager.handle_events(Key::Char('y'));
    manager.remove_file(Err("Is a directory (os error 21)".to_string()));
    assert_eq!(manager.error(), "Error deleting /home/user/sub: Is a directory (os error 21)");
    assert!(!manager.is_stale());
    assert_eq!(manager.path_items(), &names(&["a.txt", "sub"]));
    assert_eq!(manager.selected(), Some(1));
}

#[test]
fn a_remove_of_nothing_is_refused() {
    let mut manager = browser(&[]);
    manager.remove_file(Ok(()));
    assert_eq!(manager.error(), "Error deleting /home/user: File must not be current directory.");
    assert!(!manager.is_stale());
}

#[test]
fn add_file_end_to_end() {
    let mut disk = home_disk();
    let mut manager = at_home();
    turn(&mut manager, &mut disk, Key::Char('a'));
    assert_eq!(manager.input_mode(), InputMode::Operation(gravily::mode::OperationType::Add));
    for c in "new.txt".chars() {
        turn(&mut manager, &mut disk, Key::Char(c));
    }
    turn(&mut manager, &mut disk, Key::Enter);
    assert_eq!(manager.input_mode(), InputMode::Confirmation(gravily::mode::OperationType::Add));
    turn(&mut manager, &mut disk, Key::Char('y'));
    assert!(disk.files.contains(&"/home/user/new.txt".to_string()));
    assert_eq!(manager.input_mode(), InputMode::Navigation);
    assert_eq!(manager.error(), "");
    manager.render_file_items(disk.list(manager.path()));
    assert!(manager.path_items().contains(&"new.txt".to_string()));
}

#[test]
fn creating_an_existing_name_keeps_the_listing() {
    let mut disk = home_disk();
    let mut manager = at_home();
    manager.render_file_items(disk.list(manager.path()));
    let before = manager.path_items().clone();
    turn(&mut manager, &mut disk, Key::Char('a'));
    for c in "a.txt".chars() {
        turn(&mut manager, &mut disk, Key::Char(c));
    }
    turn(&mut manager, &mut disk, Key::Enter);
    turn(&mut manager, &mut disk, Key::Char('y'));
    assert!(!manager.error().is_empty());
    assert_eq!(manager.error(), "Error making a.txt: File exists (os error 17)");
    assert_eq!(manager.path_items(), &before);
    manager.render_file_items(disk.list(manager.path()));
    assert_eq!(manager.path_items(), &before);
}

#[test]
fn a_deleted_entry_leaves_the_listing() {
    let mut disk = home_disk();
    let mut manager = at_home();
    manager.render_file_items(disk.list(manager.path()));
    let index = manager.path_items().iter().position(|name| name == "a.txt").unwrap();
    while manager.selected() != Some(index) {
        turn(&mut manager, &mut disk, Key::Down);
    }
    turn(&mut manager, &mut disk, Key::Char('d'));
    turn(&mut manager, &mut disk, Key::Char('y'));
    assert_eq!(manager.error(), "");
    manager.render_file_items(disk.list(manager.path()));
    assert!(!manager.path_items().contains(&"a.txt".to_string()));
    assert_eq!(manager.path_items(), &names(&["sub"]));
    assert_eq!(manager.selected(), Some(0));
}

#[test]
fn a_renamed_entry_shows_under_its_new_name() {
    let mut disk = home_disk();
    let mut manager = at_home();
    manager.render_file_items(disk.list(manager.path()));
    let index = manager.path_items().iter().position(|name| name == "a.txt").unwrap();
    while manager.selected() != Some(index) {
        turn(&mut manager, &mut disk, Key::Down);
    }
    turn(&mut manager, &mut disk, Key::Char('r'));
    for c in "z.txt".chars() {
        turn(&mut manager, &mut disk, Key::Char(c));
    }
    turn(&mut manager, &mut disk, Key::Enter);
    turn(&mut manager, &mut disk, Key::Enter);
    assert_eq!(manager.error(), "");
    manager.render_file_items(disk.list(manager.path()));
    assert!(manager.path_items().contains(&"z.txt".to_string()));
    assert!(!manager.path_items().contains(&"a.txt".to_string()));
}

#[test]
fn deleting_a_directory_is_rejected() {
    let mut disk = home_disk();
    let mut manager = at_home();
    manager.render_file_items(disk.list(manager.path()));
    let index = manager.path_items().iter().position(|name| name == "sub").unwrap();
    while manager.selected() != Some(index) {
        turn(&mut manager, &mut disk, Key::Down);
    }
    turn(&mut manager, &mut disk, Key::Char('d'));
    turn(&mut manager, &mut disk, Key::Char('y'));
    assert_eq!(manager.error(), "Error deleting /home/user/sub: Is a directory (os error 21)");
    manager.render_file_items(disk.list(manager.path()));
    assert!(manager.path_items().contains(&"sub".to_string()));
}

#[test]
fn a_directory_deleted_from_under_the_browser_is_left() {
    let mut disk = home_disk();
    let mut manager = at_home();
    manager.render_file_items(disk.list(manager.path()));
    let index = manager.path_items().iter().position(|name| name == "sub").unwrap();
    while manager.selected() != Some(index) {
        turn(&mut manager, &mut disk, Key::Down);
    }
    turn(&mut manager, &mut disk, Key::Enter);
    assert_eq!(manager.path().text(), "/home/user/sub");
    disk.dirs.retain(|dir| dir != "/home/user/sub");
    disk.files.retain(|file| file != "/home/user/sub/inner.txt");
    manager.render_file_items(disk.list(manager.path()));
    assert_eq!(manager.path().text(), "/home/user");
    assert_eq!(
        manager.error(),
        "Error entering dir: \"/home/user/sub\": No such file or directory (os error 2)"
    );
    manager.render_file_items(disk.list(manager.path()));
    assert_eq!(manager.path_items(), &names(&["a.txt"]));
    assert_eq!(manager.selected(), Some(0));
}
