use fpicker::listing::{entry_comes_first, list, sort_entries};
use fpicker::{AbsPath, DirEntry, DirectoryRead, File};

fn path(components: &[&str]) -> AbsPath {
    AbsPath::new(components.iter().map(|c| c.to_string()).collect())
}

fn dir(name: &str) -> DirEntry {
    DirEntry { name: name.to_string(), is_dir: true }
}

fn file(name: &str) -> DirEntry {
    DirEntry { name: name.to_string(), is_dir: false }
}

fn shown(files: &Vec<File>) -> Vec<(String, bool)> {
    files.iter().map(|f| (f.path().display(), f.is_dir())).collect()
}

fn expect(items: &[(&str, bool)]) -> Vec<(String, bool)> {
    items.iter().map(|(p, d)| (p.to_string(), *d)).collect()
}

#[test]
fn directories_come_first_and_each_group_is_sorted() {
    let read = DirectoryRead::Entries(vec![dir("b"), dir("a"), file("z.txt"), file("a.txt")]);
    let files = list(&AbsPath::root(), &read);
    assert_eq!(
        shown(&files),
        expect(&[("/a", true), ("/b", true), ("/a.txt", false), ("/z.txt", false)])
    );
}

#[test]
fn listing_does_not_depend_on_the_order_of_the_entries() {
    let orders = [
        vec![dir("b"), dir("a"), file("z.txt"), file("a.txt")],
        vec![file("a.txt"), file("z.txt"), dir("a"), dir("b")],
        vec![file("z.txt"), dir("b"), file("a.txt"), dir("a")],
        vec![dir("a"), file("a.txt"), dir("b"), file("z.txt")],
    ];
    for entries in orders {
        let files = list(&path(&["srv"]), &DirectoryRead::Entries(entries));
        assert_eq!(
            shown(&files),
            expect(&[
                ("/", true),
                ("/srv/a", true),
                ("/srv/b", true),
                ("/srv/a.txt", false),
                ("/srv/z.txt", false)
            ])
        );
    }
}

#[test]
fn listing_begins_with_the_parent() {
    let files = list(&path(&["home", "user"]), &DirectoryRead::Entries(vec![file("x")]));
    assert_eq!(shown(&files), expect(&[("/home", true), ("/home/user/x", false)]));
    assert_eq!(files[0].path(), &path(&["home"]));
    assert!(files[0].is_dir());
}

#[test]
fn empty_directory_lists_the_parent_alone() {
    let files = list(&path(&["tmp"]), &DirectoryRead::Entries(vec![]));
    assert_eq!(shown(&files), expect(&[("/", true)]));
}

#[test]
fn empty_root_lists_nothing() {
    let files = list(&AbsPath::root(), &DirectoryRead::Entries(vec![]));
    assert!(files.is_empty());
}

#[test]
fn failed_read_lists_the_parent_alone() {
    for read in [DirectoryRead::Unreadable, DirectoryRead::Missing, DirectoryRead::NotADirectory] {
        let files = list(&path(&["var", "log"]), &read);
        assert_eq!(shown(&files), expect(&[("/var", true)]));
        assert!(list(&AbsPath::root(), &read).is_empty());
    }
}

#[test]
fn a_file_and_a_directory_of_one_name() {
    let read = DirectoryRead::Entries(vec![file("x"), dir("x")]);
    let files = list(&AbsPath::root(), &read);
    assert_eq!(shown(&files), expect(&[("/x", true), ("/x", false)]));
}

#[test]
fn sort_keeps_every_entry() {
    let entries = vec![file("b"), dir("z"), file("a"), file("b"), dir("m"), file("B")];
    let sorted = sort_entries(&entries);
    assert_eq!(sorted, vec![dir("m"), dir("z"), file("B"), file("a"), file("b"), file("b")]);
    assert_eq!(sort_entries(&vec![]), vec![]);
    assert_eq!(sort_entries(&vec![file("only")]), vec![file("only")]);
}

#[test]
fn sort_is_idempotent() {
    let entries = vec![file("q"), dir("c"), file("A"), dir("b"), file("a")];
    let once = sort_entries(&entries);
    assert_eq!(sort_entries(&once), once);
}

#[test]
fn entries_compare_by_kind_and_then_by_name() {
    assert!(entry_comes_first(&dir("z"), &file("a")));
    assert!(!entry_comes_first(&file("a"), &dir("z")));
    assert!(entry_comes_first(&dir("a"), &dir("b")));
    assert!(!entry_comes_first(&dir("b"), &dir("a")));
    assert!(entry_comes_first(&file("a"), &file("a")));
    assert!(entry_comes_first(&file("a"), &file("ab")));
}

#[test]
fn files_are_equal_by_path() {
    let a = File::new(path(&["x"]), true);
    let b = File::new(path(&["x"]), false);
    let c = File::new(path(&["y"]), true);
    assert_eq!(a, b);
    assert_ne!(a, c);
    assert_eq!(a.name(), Some(&"x".to_string()));
    assert_eq!(File::new(AbsPath::root(), true).name(), None);
    assert_eq!(a.clone(), a);
    assert_eq!(a.clone().is_dir(), true);
}

#[test]
fn sort_agrees_with_the_order_of_strings() {
    let mut seed: u32 = 7;
    let mut entries = Vec::new();
    for _ in 0..300 {
        seed = seed.wrapping_mul(1103515245).wrapping_add(12345);
        let len = (seed >> 16) % 4;
        let mut name = String::new();
        for _ in 0..len {
            seed = seed.wrapping_mul(1103515245).wrapping_add(12345);
            name.push(['a', 'b', 'B', '.', 'é'][((seed >> 16) % 5) as usize]);
        }
        seed = seed.wrapping_mul(1103515245).wrapping_add(12345);
        entries.push(DirEntry { name, is_dir: (seed >> 16) % 3 == 0 });
    }
    let mut expected: Vec<(bool, String)> =
        entries.iter().map(|e| (!e.is_dir, e.name.clone())).collect();
    expected.sort();
    let sorted: Vec<(bool, String)> =
        sort_entries(&entries).into_iter().map(|e| (!e.is_dir, e.name)).collect();
    assert_eq!(sorted, expected);
}
