use dualpane::DirPath;
use dualpane::FileItem;
use dualpane::listing::FileList;

fn path(parts: &[&str]) -> DirPath {
    DirPath::from_components(parts.iter().map(|p| p.to_string()).collect())
}

fn parts(p: &DirPath) -> Vec<String> {
    p.components().clone()
}

fn names(l: &FileList) -> Vec<String> {
    l.items().iter().map(|it| it.name().to_string()).collect()
}

#[test]
fn refresh_synthesizes_sentinel_first() {
    let mut list = FileList::new(
        path(&["a"]),
        vec![
            FileItem::new("beta".to_string(), true),
            FileItem::new("alpha.txt".to_string(), false),
            FileItem::new("gamma".to_string(), true),
        ],
    );
    assert_eq!(names(&list), vec!["..", "beta", "alpha.txt", "gamma"]);
    assert_eq!(list.selected_index(), Some(0));
    assert!(!list.items()[0].is_directory());

    // A refresh with two entries yields three, the sentinel first, the rest
    // in their given order.
    list.refresh(vec![
        FileItem::new("only".to_string(), false),
        FileItem::new("other".to_string(), true),
    ]);
    assert_eq!(names(&list), vec!["..", "only", "other"]);
    assert_eq!(list.selected_index(), Some(0));
}

#[test]
fn refresh_of_empty_directory_shows_only_sentinel() {
    let list = FileList::new(path(&["a"]), vec![]);
    assert_eq!(names(&list), vec![".."]);
    assert_eq!(list.selected_index(), Some(0));
}

#[test]
fn selection_clamps_at_both_ends() {
    let mut list = FileList::new(
        path(&["a"]),
        vec![
            FileItem::new("one".to_string(), false),
            FileItem::new("two".to_string(), false),
        ],
    );
    // Three entries: sentinel, one, two. Stepping down past the end stays at
    // the last index.
    for _ in 0..10 {
        list.select_next();
    }
    assert_eq!(list.selected_index(), Some(2));
    // Stepping up past the start converges to 0 and stays there.
    for _ in 0..10 {
        list.select_previous();
    }
    assert_eq!(list.selected_index(), Some(0));
    list.select_previous();
    assert_eq!(list.selected_index(), Some(0));
}

#[test]
fn selected_entry_follows_the_cursor() {
    let mut list = FileList::new(path(&["a"]), vec![FileItem::new("one".to_string(), true)]);
    assert_eq!(list.selected_entry().unwrap().name(), "..");
    list.select_next();
    let entry = list.selected_entry().unwrap();
    assert_eq!(entry.name(), "one");
    assert!(entry.is_directory());
}

#[test]
fn parent_round_trip_returns_to_the_same_path() {
    // From /a/b/c, go to the parent, then re-enter the entry named "c".
    let mut list = FileList::new(path(&["a", "b", "c"]), vec![]);
    let up = list.parent_target().expect("a nested path has a parent");
    assert_eq!(parts(&up), vec!["a", "b"]);
    let moved = list.navigate_up(vec![
        FileItem::new("c".to_string(), true),
        FileItem::new("d".to_string(), true),
    ]);
    assert!(moved);
    assert_eq!(parts(list.current_path()), vec!["a", "b"]);

    list.select_next(); // onto "c"
    assert_eq!(list.selected_entry().unwrap().name(), "c");
    let entered = list.enter_selected(vec![]);
    assert!(entered);
    assert_eq!(parts(list.current_path()), vec!["a", "b", "c"]);
}

#[test]
fn navigate_up_at_root_is_a_noop() {
    let mut list = FileList::new(
        DirPath::root(),
        vec![FileItem::new("home".to_string(), true)],
    );
    assert!(list.parent_target().is_none());
    let moved = list.navigate_up(vec![]);
    assert!(!moved);
    assert!(list.current_path().is_root());
    // Entries and cursor are untouched as well.
    assert_eq!(names(&list), vec!["..", "home"]);
    assert_eq!(list.selected_index(), Some(0));
}

#[test]
fn entering_the_sentinel_goes_to_the_parent() {
    let mut list = FileList::new(path(&["a", "b"]), vec![]);
    assert_eq!(list.selected_entry().unwrap().name(), "..");
    let entered = list.enter_selected(vec![FileItem::new("b".to_string(), true)]);
    assert!(entered);
    assert_eq!(parts(list.current_path()), vec!["a"]);
}

#[test]
fn entering_the_sentinel_at_root_is_a_noop() {
    let mut list = FileList::new(DirPath::root(), vec![]);
    assert!(list.enter_target().is_none());
    let entered = list.enter_selected(vec![]);
    assert!(!entered);
    assert!(list.current_path().is_root());
}

#[test]
fn entering_a_regular_file_is_a_noop() {
    let mut list = FileList::new(path(&["a"]), vec![FileItem::new("notes.txt".to_string(), false)]);
    list.select_next();
    assert!(list.enter_target().is_none());
    let entered = list.enter_selected(vec![]);
    assert!(!entered);
    assert_eq!(parts(list.current_path()), vec!["a"]);
    assert_eq!(list.selected_index(), Some(1));
}

#[test]
fn entering_a_directory_descends_into_it() {
    let mut list = FileList::new(path(&["a"]), vec![FileItem::new("sub".to_string(), true)]);
    list.select_next();
    let target = list.enter_target().expect("a directory entry has a target");
    assert_eq!(parts(&target), vec!["a", "sub"]);
    let entered = list.enter_selected(vec![FileItem::new("inner".to_string(), false)]);
    assert!(entered);
    assert_eq!(parts(list.current_path()), vec!["a", "sub"]);
    assert_eq!(names(&list), vec!["..", "inner"]);
    assert_eq!(list.selected_index(), Some(0));
}

#[test]
fn dir_path_operations() {
    let p = path(&["a", "b"]);
    assert_eq!(p.depth(), 2);
    assert!(!p.is_root());
    assert_eq!(p.last_component().unwrap().as_str(), "b");
    let c = p.child(&"c".to_string());
    assert_eq!(parts(&c), vec!["a", "b", "c"]);
    let q = c.parent().unwrap();
    assert!(q.equals(&p));
    assert!(!q.equals(&c));
    assert!(DirPath::root().parent().is_none());
    assert!(DirPath::root().last_component().is_none());
}
