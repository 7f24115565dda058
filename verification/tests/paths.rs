use fpicker::order::{name_comes_first, path_comes_first};
use fpicker::AbsPath;

fn path(components: &[&str]) -> AbsPath {
    AbsPath::new(components.iter().map(|c| c.to_string()).collect())
}

#[test]
fn root_has_no_parent_and_no_name() {
    let root = AbsPath::root();
    assert!(root.is_root());
    assert_eq!(root.parent(), None);
    assert_eq!(root.file_name(), None);
    assert_eq!(root.components().len(), 0);
    assert_eq!(root, path(&[]));
}

#[test]
fn parent_drops_the_last_component() {
    let p = path(&["home", "user", "notes.txt"]);
    assert!(!p.is_root());
    assert_eq!(p.parent(), Some(path(&["home", "user"])));
    assert_eq!(p.file_name(), Some(&"notes.txt".to_string()));
    assert_eq!(path(&["home"]).parent(), Some(AbsPath::root()));
}

#[test]
fn join_adds_a_component() {
    let p = path(&["home"]).join("user");
    assert_eq!(p, path(&["home", "user"]));
    assert_eq!(p.components(), &vec!["home".to_string(), "user".to_string()]);
    assert_eq!(AbsPath::root().join("etc"), path(&["etc"]));
}

#[test]
fn parent_of_join_is_the_path() {
    let p = path(&["a", "b"]);
    assert_eq!(p.join("c").parent(), Some(p));
}

#[test]
fn paths_are_equal_by_components() {
    assert_eq!(path(&["a", "b"]), path(&["a", "b"]));
    assert_ne!(path(&["a", "b"]), path(&["a", "c"]));
    assert_ne!(path(&["a", "b"]), path(&["a"]));
    assert_ne!(path(&["a"]), path(&["a", "b"]));
    assert_ne!(path(&["ab"]), path(&["a", "b"]));
}

#[test]
fn clone_is_equal() {
    let p = path(&["one", "two", "three"]);
    assert_eq!(p.clone(), p);
}

#[test]
fn display_puts_a_separator_before_every_component() {
    assert_eq!(AbsPath::root().display(), "/");
    assert_eq!(path(&["etc"]).display(), "/etc");
    assert_eq!(path(&["home", "user", "a b.txt"]).display(), "/home/user/a b.txt");
}

#[test]
fn names_are_ordered_by_characters() {
    assert!(name_comes_first("", ""));
    assert!(name_comes_first("", "a"));
    assert!(!name_comes_first("a", ""));
    assert!(name_comes_first("a", "a"));
    assert!(name_comes_first("a", "b"));
    assert!(!name_comes_first("b", "a"));
    assert!(name_comes_first("a", "ab"));
    assert!(!name_comes_first("ab", "a"));
    assert!(name_comes_first("Z", "a"));
    assert!(name_comes_first("a.txt", "z.txt"));
    assert!(name_comes_first("abc", "abd"));
    assert!(!name_comes_first("abd", "abc"));
}

#[test]
fn names_are_ordered_as_strings_are() {
    let names = ["", "a", "ab", "b", "B", "é", "z", "日本", "a.b", "a/", "~", "0", "10", "9"];
    for a in names {
        for b in names {
            assert_eq!(name_comes_first(a, b), a <= b, "{:?} and {:?}", a, b);
        }
    }
}

#[test]
fn paths_are_ordered_by_components() {
    assert!(path_comes_first(&AbsPath::root(), &AbsPath::root()));
    assert!(path_comes_first(&AbsPath::root(), &path(&["a"])));
    assert!(!path_comes_first(&path(&["a"]), &AbsPath::root()));
    assert!(path_comes_first(&path(&["a"]), &path(&["a", "b"])));
    assert!(!path_comes_first(&path(&["a", "b"]), &path(&["a"])));
    assert!(path_comes_first(&path(&["a", "b"]), &path(&["a", "b"])));
    assert!(path_comes_first(&path(&["a", "z"]), &path(&["b"])));
    assert!(!path_comes_first(&path(&["b"]), &path(&["a", "z"])));
    assert!(path_comes_first(&path(&["a", "b"]), &path(&["a", "c"])));
    assert!(path_comes_first(&path(&["a"]), &path(&["ab"])));
    assert!(path_comes_first(&path(&["a", "z"]), &path(&["ab"])));
}

#[test]
fn paths_are_ordered_as_lists_of_strings_are() {
    let paths = [
        vec![],
        vec!["a"],
        vec!["a", "b"],
        vec!["a", "b", "c"],
        vec!["a", "c"],
        vec!["ab"],
        vec!["b"],
        vec!["B", "x"],
        vec!["", "x"],
    ];
    for a in &paths {
        for b in &paths {
            assert_eq!(path_comes_first(&path(a), &path(b)), a <= b, "{:?} and {:?}", a, b);
        }
    }
}
