use dirls::size::{size_of, FsNode};

fn file(len: u64) -> FsNode {
    FsNode::File { len }
}

fn dir(children: Vec<FsNode>) -> FsNode {
    FsNode::Dir { children }
}

#[test]
fn file_size_is_its_length() {
    assert_eq!(size_of(&file(42)), Some(42));
    assert_eq!(size_of(&file(0)), Some(0));
    assert_eq!(size_of(&file(u64::MAX)), Some(u64::MAX));
}

#[test]
fn empty_dir_has_no_size() {
    assert_eq!(size_of(&dir(vec![])), Some(0));
}

#[test]
fn dir_size_sums_nested_files() {
    let tree = dir(vec![
        file(10),
        dir(vec![file(5), dir(vec![file(7), file(3)])]),
        file(100),
        dir(vec![]),
    ]);
    assert_eq!(size_of(&tree), Some(125));
}

#[test]
fn dir_size_ignores_order() {
    let a = dir(vec![file(1), dir(vec![file(20), file(300)]), file(4000)]);
    let b = dir(vec![file(4000), file(1), dir(vec![file(300), file(20)])]);
    assert_eq!(size_of(&a), size_of(&b));
    assert_eq!(size_of(&a), Some(4321));
}

#[test]
fn overflowing_size_is_none() {
    let tree = dir(vec![file(u64::MAX), dir(vec![file(1)])]);
    assert_eq!(size_of(&tree), None);
    let fits = dir(vec![file(u64::MAX - 1), dir(vec![file(1)])]);
    assert_eq!(size_of(&fits), Some(u64::MAX));
}
