use dirls::listing::{list_entries, DirEntryInfo};

fn entry(name: &str, is_dir: Option<bool>) -> Option<DirEntryInfo> {
    Some(DirEntryInfo { name: name.to_string(), path: format!("d/{name}"), is_dir })
}

fn sample() -> Vec<Option<DirEntryInfo>> {
    vec![
        entry("b.txt", Some(false)),
        entry(".git", Some(true)),
        None,
        entry("src", Some(true)),
        entry(".env", Some(false)),
        entry("a.txt", Some(false)),
        entry("lib", Some(true)),
    ]
}

#[test]
fn dot_names_hidden_without_show_dots() {
    let l = list_entries(&sample(), false).unwrap();
    assert_eq!(l.dirs, vec!["d/src", "d/lib"]);
    assert_eq!(l.files, vec!["d/b.txt", "d/a.txt"]);
}

#[test]
fn dot_names_shown_with_show_dots() {
    let l = list_entries(&sample(), true).unwrap();
    assert_eq!(l.dirs, vec!["d/.git", "d/src", "d/lib"]);
    assert_eq!(l.files, vec!["d/b.txt", "d/.env", "d/a.txt"]);
}

#[test]
fn every_shown_entry_lands_in_exactly_one_list() {
    let entries = sample();
    let l = list_entries(&entries, true).unwrap();
    for e in entries.iter().flatten() {
        let in_dirs = l.dirs.contains(&e.path);
        let in_files = l.files.contains(&e.path);
        assert!(in_dirs != in_files);
        assert_eq!(in_dirs, e.is_dir == Some(true));
    }
    assert_eq!(l.dirs.len() + l.files.len(), 6);
}

#[test]
fn empty_directory_lists_nothing() {
    let l = list_entries(&vec![], false).unwrap();
    assert!(l.dirs.is_empty());
    assert!(l.files.is_empty());
}

#[test]
fn unreadable_type_of_shown_entry_fails() {
    let entries = vec![entry("a", Some(false)), entry(".x", None), entry("y", None), entry("z", None)];
    assert_eq!(list_entries(&entries, false).err(), Some(2));
    assert_eq!(list_entries(&entries, true).err(), Some(1));
}
