use clide::component::Action;
use clide::error::ClideError;
use clide::event::{Event, KeyCode, KeyEvent, MouseEvent, MouseEventKind};
use clide::explorer::Explorer;
use clide::path::{normalize, EntryMeta};
use clide::tree::{build_tree, FsEntry, TreeNode};

fn file(name: &str) -> FsEntry {
    FsEntry { name: name.to_string(), is_dir: false, listing: None }
}

fn dir(name: &str, entries: Vec<FsEntry>) -> FsEntry {
    FsEntry { name: name.to_string(), is_dir: true, listing: Some(entries) }
}

fn project() -> Option<Vec<FsEntry>> {
    Some(vec![dir("z", vec![file("c.txt")]), file("b.txt"), file("a.txt")])
}

fn names(n: &TreeNode) -> Vec<String> {
    n.children.iter().map(|c| c.display_name.clone()).collect()
}

#[test]
fn children_listed_in_lexicographic_order() {
    let root = build_tree("/tmp/proj", true, &project()).unwrap();
    assert_eq!(root.identity, "/tmp/proj");
    assert_eq!(root.display_name, "proj");
    assert_eq!(names(&root), vec!["a.txt", "b.txt", "z"]);
    let z = &root.children[2];
    assert!(z.is_directory);
    assert_eq!(z.identity, "/tmp/proj/z");
    assert_eq!(names(z), vec!["c.txt"]);
    assert_eq!(z.children[0].identity, "/tmp/proj/z/c.txt");
    assert!(!z.children[0].is_directory);
}

#[test]
fn expanding_z_reveals_its_file() {
    let mut x = Explorer::new("/tmp/proj", true, &project()).unwrap();
    let items = x.tree_items.children();
    assert_eq!(items.len(), 3);
    assert_eq!(items[2].identifier(), "/tmp/proj/z");
    assert_eq!(items[2].children()[0].identifier(), "/tmp/proj/z/c.txt");
    x.tree_state.select(vec!["/tmp/proj/z".to_string()]);
    assert!(!x.selected_is_file());
    assert_eq!(x.handle_key_events(KeyEvent::press(KeyCode::Enter)), Action::Handled);
    assert!(x.tree_state.opened().contains(&vec!["/tmp/proj/z".to_string()]));
    let flat = x.tree_state.flatten(x.tree_items.children());
    let shown: Vec<String> = flat.iter().map(|f| f.identifier.last().unwrap().clone()).collect();
    assert_eq!(
        shown,
        vec!["/tmp/proj/a.txt", "/tmp/proj/b.txt", "/tmp/proj/z", "/tmp/proj/z/c.txt"]
    );
}

#[test]
fn enter_on_a_file_asks_to_open_it() {
    let mut x = Explorer::new("/tmp/proj", true, &project()).unwrap();
    x.tree_state.select(vec!["/tmp/proj/z".to_string(), "/tmp/proj/z/c.txt".to_string()]);
    assert!(x.selected_is_file());
    assert_eq!(x.handle_event(Event::Key(KeyEvent::press(KeyCode::Enter))), Action::OpenTab);
    assert_eq!(x.selected(), Ok("/tmp/proj/z/c.txt".to_string()));
}

#[test]
fn collapsing_a_collapsed_node_keeps_selection() {
    let mut x = Explorer::new("/tmp/proj", true, &project()).unwrap();
    x.tree_state.select(vec!["/tmp/proj/z".to_string()]);
    assert_eq!(x.handle_key_events(KeyEvent::press(KeyCode::Left)), Action::Noop);
    assert_eq!(x.selected(), Ok("/tmp/proj/z".to_string()));
    assert_eq!(x.handle_key_events(KeyEvent::press(KeyCode::Char('l'))), Action::Handled);
    assert_eq!(x.handle_key_events(KeyEvent::press(KeyCode::Char('h'))), Action::Handled);
    assert_eq!(x.handle_key_events(KeyEvent::press(KeyCode::Char('h'))), Action::Noop);
    assert_eq!(x.selected(), Ok("/tmp/proj/z".to_string()));
}

#[test]
fn nothing_selected_at_start() {
    let mut x = Explorer::new("/tmp/proj", true, &project()).unwrap();
    assert_eq!(x.selected(), Err(ClideError::NoSelection));
    assert_eq!(x.handle_event(Event::Other), Action::Pass);
    assert_eq!(x.handle_key_events(KeyEvent::press(KeyCode::Char(' '))), Action::Noop);
}

#[test]
fn unreadable_root_fails_with_io() {
    assert_eq!(build_tree("/tmp/proj", true, &None).err(), Some(ClideError::Io));
    assert_eq!(build_tree("/", true, &Some(vec![])).err(), Some(ClideError::NoFileName));
}

#[test]
fn unlistable_subdirectory_is_empty() {
    let listing = Some(vec![FsEntry { name: "locked".to_string(), is_dir: true, listing: None }]);
    let root = build_tree("/tmp/proj/", true, &listing).unwrap();
    assert_eq!(root.identity, "/tmp/proj");
    assert!(root.children[0].children.is_empty());
    assert!(root.children[0].is_directory);
}

#[test]
fn duplicate_names_are_refused() {
    let listing = Some(vec![file("a"), file("a")]);
    assert_eq!(Explorer::new("/tmp/proj", true, &listing).err(), Some(ClideError::DuplicateEntry));
}

#[test]
fn normalize_resolves_dots_lexically() {
    assert_eq!(normalize("/a/./b/../c"), "/a/c");
    assert_eq!(normalize("/.."), "/");
    assert_eq!(normalize("a/../../b"), "b");
    assert_eq!(normalize("//x//y/"), "/x/y");
    assert_eq!(normalize("./"), "");
}

#[test]
fn entry_meta_names_the_last_component() {
    let m = EntryMeta::new("/home/u/../v/file.rs", false).unwrap();
    assert_eq!(m.abs_path, "/home/v/file.rs");
    assert_eq!(m.file_name, "file.rs");
    assert!(!m.is_dir);
    assert_eq!(EntryMeta::new("/", true).err(), Some(ClideError::NoFileName));
    assert_eq!(EntryMeta::new("a/..", true).err(), Some(ClideError::NoFileName));
}

fn collect_ids(n: &TreeNode, out: &mut Vec<String>) {
    out.push(n.identity.clone());
    for c in &n.children {
        collect_ids(c, out);
    }
}

#[test]
fn identities_are_unique() {
    let listing = Some(vec![
        dir("src", vec![file("main.rs"), dir("src", vec![file("main.rs")])]),
        file("src.rs"),
        dir("a", vec![file("b")]),
        file("a b"),
    ]);
    let root = build_tree("/w", true, &listing).unwrap();
    let mut ids = Vec::new();
    collect_ids(&root, &mut ids);
    assert_eq!(ids.len(), 9);
    let mut sorted = ids.clone();
    sorted.sort();
    sorted.dedup();
    assert_eq!(sorted.len(), ids.len());
    assert!(ids.contains(&"/w/src/src/main.rs".to_string()));
    assert_eq!(names(&root), vec!["a", "a b", "src", "src.rs"]);
}

#[test]
fn scrolling_before_any_render_changes_nothing() {
    let mut x = Explorer::new("/tmp/proj", true, &project()).unwrap();
    let down = MouseEvent { kind: MouseEventKind::ScrollDown, column: 0, row: 0 };
    let up = MouseEvent { kind: MouseEventKind::ScrollUp, column: 0, row: 0 };
    assert_eq!(x.handle_mouse_events(down), Action::Noop);
    assert_eq!(x.handle_mouse_events(up), Action::Noop);
    assert_eq!(x.tree_state.get_offset(), 0);
    let moved = MouseEvent { kind: MouseEventKind::Moved, column: 0, row: 0 };
    assert_eq!(x.handle_event(Event::Mouse(moved)), Action::Pass);
}
