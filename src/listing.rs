//! Partitioning a directory's immediate children into directories and files.
use vstd::prelude::*;

verus! {

/// One child of a directory, as enumeration reported it.
#[derive(Debug)]
pub struct DirEntryInfo {
    /// The child's own name.
    pub name: String,
    /// The child's path, as it is displayed.
    pub path: String,
    /// Whether the child is a directory; `None` where its file type could
    /// not be read.
    pub is_dir: Option<bool>,
}

/// The children of a directory to display: directories, then files, each in
/// enumeration order.
#[derive(Debug)]
pub struct Listing {
    pub dirs: Vec<String>,
    pub files: Vec<String>,
}

/// A name that begins with `.`.
pub open spec fn is_hidden(name: Seq<char>) -> bool {
    name.len() > 0 && name[0] == '.'
}

/// An entry that was read and is not hidden by the dot rule. An entry whose
/// own read failed (`None`) is skipped.
pub open spec fn shown(e: Option<DirEntryInfo>, show_dots: bool) -> bool {
    e matches Some(x) && (show_dots || !is_hidden(x.name@))
}

/// A shown entry whose file type could not be read.
pub open spec fn untyped(e: Option<DirEntryInfo>, show_dots: bool) -> bool {
    shown(e, show_dots) && e->Some_0.is_dir is None
}

/// A shown entry that is a directory (`want_dir`) or is not one (`!want_dir`).
pub open spec fn picked(e: Option<DirEntryInfo>, show_dots: bool, want_dir: bool) -> bool {
    shown(e, show_dots) && e->Some_0.is_dir == Some(want_dir)
}

/// The paths of the picked entries, in order.
pub open spec fn listed_paths(
    s: Seq<Option<DirEntryInfo>>,
    show_dots: bool,
    want_dir: bool,
) -> Seq<Seq<char>>
    decreases s.len(),
{
    if s.len() == 0 {
        Seq::empty()
    } else {
        let rest = listed_paths(s.drop_last(), show_dots, want_dir);
        if picked(s.last(), show_dots, want_dir) {
            rest.push(s.last()->Some_0.path@)
        } else {
            rest
        }
    }
}

/// A path is listed exactly where some picked entry has it.
proof fn lemma_listed_contains(
    s: Seq<Option<DirEntryInfo>>,
    show_dots: bool,
    want_dir: bool,
    p: Seq<char>,
)
    ensures
        listed_paths(s, show_dots, want_dir).contains(p) <==> exists|i: int|
            0 <= i < s.len() && picked(s[i], show_dots, want_dir) && s[i]->Some_0.path@ == p,
    decreases s.len(),
{
    if s.len() > 0 {
        let t = s.drop_last();
        lemma_listed_contains(t, show_dots, want_dir, p);
        let rest = listed_paths(t, show_dots, want_dir);
        if exists|i: int|
            0 <= i < s.len() && picked(s[i], show_dots, want_dir) && s[i]->Some_0.path@ == p {
            let i = choose|i: int|
                0 <= i < s.len() && picked(s[i], show_dots, want_dir) && s[i]->Some_0.path@ == p;
            if i < s.len() - 1 {
                assert(t[i] == s[i]);
                assert(rest.contains(p));
                if picked(s.last(), show_dots, want_dir) {
                    let k = choose|k: int| 0 <= k < rest.len() && rest[k] == p;
                    assert(rest.push(s.last()->Some_0.path@)[k] == p);
                }
            } else {
                assert(listed_paths(s, show_dots, want_dir).last() == p);
            }
        }
        if listed_paths(s, show_dots, want_dir).contains(p) {
            if picked(s.last(), show_dots, want_dir) && s.last()->Some_0.path@ == p {
                assert(picked(s[s.len() - 1], show_dots, want_dir));
            } else {
                let k = choose|k: int|
                    0 <= k < listed_paths(s, show_dots, want_dir).len() && listed_paths(
                        s,
                        show_dots,
                        want_dir,
                    )[k] == p;
                assert(rest[k] == p);
                let i = choose|i: int|
                    0 <= i < t.len() && picked(t[i], show_dots, want_dir) && t[i]->Some_0.path@
                        == p;
                assert(s[i] == t[i]);
            }
        }
    }
}

/// Without `show_dots`, nothing listed comes from a name that begins with
/// `.`; with it, every child whose type was read is listed, hidden or not.
pub proof fn lemma_dot_rule(s: Seq<Option<DirEntryInfo>>, p: Seq<char>, want_dir: bool)
    ensures
        listed_paths(s, false, want_dir).contains(p) ==> exists|i: int|
            0 <= i < s.len() && s[i] is Some && !is_hidden(s[i]->Some_0.name@) && s[i]->Some_0.path@
                == p,
        forall|i: int|
            0 <= i < s.len() && #[trigger] s[i] is Some && s[i]->Some_0.is_dir == Some(want_dir)
                ==> listed_paths(s, true, want_dir).contains(s[i]->Some_0.path@),
{
    lemma_listed_contains(s, false, want_dir, p);
    assert forall|i: int|
        0 <= i < s.len() && #[trigger] s[i] is Some && s[i]->Some_0.is_dir == Some(
            want_dir,
        ) implies listed_paths(s, true, want_dir).contains(s[i]->Some_0.path@) by {
        lemma_listed_contains(s, true, want_dir, s[i]->Some_0.path@);
    }
}

/// When the children have distinct paths, every shown child whose type was
/// read is listed in exactly one of the two sequences: among the
/// directories if it is one, else among the files.
pub proof fn lemma_partition_exact(s: Seq<Option<DirEntryInfo>>, show_dots: bool, i: int)
    requires
        0 <= i < s.len(),
        shown(s[i], show_dots),
        s[i]->Some_0.is_dir is Some,
        forall|a: int, b: int|
            0 <= a < b < s.len() && s[a] is Some && s[b] is Some ==> s[a]->Some_0.path@
                != s[b]->Some_0.path@,
    ensures
        listed_paths(s, show_dots, true).contains(s[i]->Some_0.path@) == (s[i]->Some_0.is_dir
            == Some(true)),
        listed_paths(s, show_dots, false).contains(s[i]->Some_0.path@) == (s[i]->Some_0.is_dir
            == Some(false)),
{
    let p = s[i]->Some_0.path@;
    lemma_listed_contains(s, show_dots, true, p);
    lemma_listed_contains(s, show_dots, false, p);
}

/// Partitions the children of a directory, in enumeration order, into the
/// paths of directories and of other files. Children whose own read failed
/// are skipped, as are names beginning with `.` unless `show_dots` is set.
/// Fails with the index of the first shown child whose file type could not
/// be read.
pub fn list_entries(entries: &Vec<Option<DirEntryInfo>>, show_dots: bool) -> (r: Result<
    Listing,
    usize,
>)
    ensures
        match r {
            Ok(l) => (forall|j: int| 0 <= j < entries@.len() ==> !untyped(#[trigger] entries@[j], show_dots))
                && l.dirs.deep_view() == listed_paths(entries@, show_dots, true)
                && l.files.deep_view() == listed_paths(entries@, show_dots, false),
            Err(i) => i < entries@.len() && untyped(entries@[i as int], show_dots) && forall|j: int|
                0 <= j < i ==> !untyped(#[trigger] entries@[j], show_dots),
        },
{
    let mut dirs: Vec<String> = Vec::new();
    let mut files: Vec<String> = Vec::new();
    let mut i: usize = 0;
    proof {
        assert(dirs.deep_view() =~= Seq::<Seq<char>>::empty());
        assert(files.deep_view() =~= Seq::<Seq<char>>::empty());
    }
    while i < entries.len()
        invariant
            i <= entries@.len(),
            forall|j: int| 0 <= j < i ==> !untyped(#[trigger] entries@[j], show_dots),
            dirs.deep_view() == listed_paths(entries@.subrange(0, i as int), show_dots, true),
            files.deep_view() == listed_paths(entries@.subrange(0, i as int), show_dots, false),
        decreases entries@.len() - i,
    {
        let ghost pre = entries@.subrange(0, i as int + 1);
        proof {
            assert(pre.drop_last() =~= entries@.subrange(0, i as int));
            assert(pre.last() == entries@[i as int]);
        }
        let ghost d0 = dirs.deep_view();
        let ghost f0 = files.deep_view();
        match &entries[i] {
            None => {},
            Some(e) => {
                let hidden = e.name.unicode_len() > 0 && e.name.as_str().get_char(0) == '.';
                if show_dots || !hidden {
                    match e.is_dir {
                        None => {
                            return Err(i);
                        },
                        Some(true) => {
                            dirs.push(e.path.clone());
                            proof {
                                assert(dirs.deep_view() =~= d0.push(e.path@));
                            }
                        },
                        Some(false) => {
                            files.push(e.path.clone());
                            proof {
                                assert(files.deep_view() =~= f0.push(e.path@));
                            }
                        },
                    }
                }
            },
        }
        i = i + 1;
    }
    proof {
        assert(entries@.subrange(0, i as int) =~= entries@);
    }
    Ok(Listing { dirs, files })
}

} // verus!
