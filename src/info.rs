//! Classification of a path and the one-line description of its metadata.
use vstd::prelude::*;
use crate::format::{decimal, decimal_string, format_bytes, pretty_format_bytes};

verus! {

/// The kind of a path.
#[derive(Clone, Copy, PartialEq, Eq, Structural, Debug)]
pub enum Kind {
    Dir,
    File,
    Symlink,
    Unknown,
}

/// Classifies a path from what was observed of it, in priority order: a
/// directory, then a regular file, then a symbolic link, else unknown.
pub fn classify(is_dir: bool, is_file: bool, is_symlink: bool) -> (r: Kind)
    ensures
        r == (if is_dir {
            Kind::Dir
        } else if is_file {
            Kind::File
        } else if is_symlink {
            Kind::Symlink
        } else {
            Kind::Unknown
        }),
{
    if is_dir {
        Kind::Dir
    } else if is_file {
        Kind::File
    } else if is_symlink {
        Kind::Symlink
    } else {
        Kind::Unknown
    }
}

/// The short label of a kind.
pub open spec fn kind_label(k: Kind) -> Seq<char> {
    match k {
        Kind::Dir => "Dir"@,
        Kind::File => "File"@,
        Kind::Symlink => "Sym"@,
        Kind::Unknown => "???"@,
    }
}

/// The metadata of a path.
#[derive(Clone, Copy, PartialEq, Eq, Structural, Debug)]
pub struct PathInfo {
    pub kind: Kind,
    /// The number of immediate children of a directory, `None` where they
    /// could not be enumerated. Read only for a directory.
    pub entry_count: Option<usize>,
    /// The recursive size in bytes.
    pub size: u64,
    /// Whether the path's own permissions forbid writing.
    pub read_only: bool,
}

/// The indentation of detail lines.
pub open spec fn indent_text(indent: bool) -> Seq<char> {
    if indent {
        "  "@
    } else {
        ""@
    }
}

/// The entry-count part of a description: present for a directory only.
pub open spec fn count_text(info: PathInfo) -> Seq<char> {
    if info.kind == Kind::Dir {
        "Entries Count: "@ + match info.entry_count {
            Some(n) => decimal(n as nat),
            None => "???"@,
        } + " - "@
    } else {
        ""@
    }
}

/// The one-line description of a path's metadata.
pub open spec fn info_text(info: PathInfo, indent: bool) -> Seq<char> {
    indent_text(indent) + "Type: `"@ + kind_label(info.kind) + "` - "@ + count_text(info)
        + "Size: "@ + format_bytes(info.size as nat) + " - ReadOnly: "@ + if info.read_only {
        "true"@
    } else {
        "false"@
    }
}

/// Renders the description of a path's metadata, for instance
/// ``Type: `Dir` - Entries Count: 3 - Size: 1.200KB - ReadOnly: false``.
pub fn render_info(info: &PathInfo, indent: bool) -> (r: String)
    ensures
        r@ == info_text(*info, indent),
{
    let mut s = String::new();
    if indent {
        s.append("  ");
    }
    s.append("Type: `");
    let label = match info.kind {
        Kind::Dir => "Dir",
        Kind::File => "File",
        Kind::Symlink => "Sym",
        Kind::Unknown => "???",
    };
    s.append(label);
    s.append("` - ");
    let ghost head = s@;
    if info.kind == Kind::Dir {
        s.append("Entries Count: ");
        let ghost mid = s@;
        match info.entry_count {
            Some(n) => {
                let c = decimal_string(n as u64);
                s.append(c.as_str());
                proof {
                    assert(s@ == mid + decimal(n as nat));
                }
            },
            None => {
                s.append("???");
            },
        }
        s.append(" - ");
    } else {
        proof {
            reveal_strlit("");
        }
    }
    proof {
        reveal_strlit("");
        assert(s@ =~= head + count_text(*info));
    }
    s.append("Size: ");
    let size = pretty_format_bytes(info.size);
    s.append(size.as_str());
    s.append(" - ReadOnly: ");
    if info.read_only {
        s.append("true");
    } else {
        s.append("false");
    }
    proof {
        reveal_strlit("");
        assert(s@ =~= info_text(*info, indent));
    }
    s
}

} // verus!
