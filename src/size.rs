//! Recursive size accounting over a snapshot of a directory tree.
use vstd::prelude::*;

verus! {

broadcast use vstd::std_specs::vec::group_vec_axioms, vstd::seq_lib::group_to_multiset_ensures;

/// A snapshot of a file system entry: a file with its byte length, or a
/// directory with its immediate children in enumeration order.
pub enum FsNode {
    File { len: u64 },
    Dir { children: Vec<FsNode> },
}

/// The apparent size of a node: a file's own length, or the sum over
/// everything transitively below a directory.
pub open spec fn node_size(n: FsNode) -> nat
    decreases n,
{
    match n {
        FsNode::File { len } => len as nat,
        FsNode::Dir { children } => forest_size(children@),
    }
}

/// The total size of a sequence of sibling nodes.
pub open spec fn forest_size(s: Seq<FsNode>) -> nat
    decreases s,
{
    if s.len() == 0 {
        0
    } else {
        forest_size(s.drop_last()) + node_size(s.last())
    }
}

/// A prefix of a sequence of siblings never weighs more than the whole.
proof fn lemma_prefix_size_le(s: Seq<FsNode>, j: int)
    requires
        0 <= j <= s.len(),
    ensures
        forest_size(s.subrange(0, j)) <= forest_size(s),
    decreases s.len(),
{
    if j < s.len() {
        assert(s.subrange(0, j) =~= s.drop_last().subrange(0, j));
        lemma_prefix_size_le(s.drop_last(), j);
    } else {
        assert(s.subrange(0, j) =~= s);
    }
}

/// Taking one node out of a sequence of siblings takes exactly its size out
/// of the total.
proof fn lemma_remove_size(s: Seq<FsNode>, i: int)
    requires
        0 <= i < s.len(),
    ensures
        forest_size(s) == forest_size(s.remove(i)) + node_size(s[i]),
    decreases s.len(),
{
    if i == s.len() - 1 {
        assert(s.remove(i) =~= s.drop_last());
    } else {
        assert(s.remove(i).drop_last() =~= s.drop_last().remove(i));
        assert(s.remove(i).last() == s.last());
        lemma_remove_size(s.drop_last(), i);
    }
}

/// Two sequences of siblings that hold the same nodes, in whatever order,
/// have the same total size.
proof fn lemma_forest_size_permutation(a: Seq<FsNode>, b: Seq<FsNode>)
    requires
        a.to_multiset() == b.to_multiset(),
    ensures
        forest_size(a) == forest_size(b),
    decreases a.len(),
{
    a.to_multiset_ensures();
    b.to_multiset_ensures();
    if a.len() == 0 {
        assert(b.len() == 0);
    } else {
        let x = a.last();
        assert(a.to_multiset().count(x) > 0) by {
            assert(a.drop_last().push(x) =~= a);
            a.drop_last().to_multiset_ensures();
        }
        assert(b.contains(x));
        let j = choose|j: int| 0 <= j < b.len() && b[j] == x;
        vstd::seq_lib::to_multiset_remove(b, j);
        assert(a.drop_last().push(x) =~= a);
        a.drop_last().to_multiset_ensures();
        assert(a.drop_last().to_multiset() =~= b.remove(j).to_multiset());
        lemma_forest_size_permutation(a.drop_last(), b.remove(j));
        lemma_remove_size(b, j);
    }
}

/// The size of a directory is the sum of the sizes of its children, and it
/// does not depend on the order in which the children are enumerated.
pub proof fn lemma_dir_size_order_independent(a: FsNode, b: FsNode)
    requires
        a is Dir,
        b is Dir,
        a->children@.to_multiset() == b->children@.to_multiset(),
    ensures
        node_size(a) == forest_size(a->children@),
        node_size(a) == node_size(b),
{
    lemma_forest_size_permutation(a->children@, b->children@);
}

/// Computes the apparent size of `n`; `None` when it does not fit in a `u64`.
pub fn size_of(n: &FsNode) -> (r: Option<u64>)
    ensures
        r matches Some(v) ==> v as nat == node_size(*n),
        r is None <==> node_size(*n) > u64::MAX,
    decreases n,
{
    match n {
        FsNode::File { len } => Some(*len),
        FsNode::Dir { children } => {
            let mut total: u64 = 0;
            let mut i: usize = 0;
            while i < children.len()
                invariant
                    i <= children@.len(),
                    total as nat == forest_size(children@.subrange(0, i as int)),
                    forest_size(children@) == node_size(*n),
                    *n is Dir,
                    (*n)->children == *children,
                decreases children@.len() - i,
            {
                proof {
                    let c = *children;
                    assert(decreases_to!(c => c[i as int]));
                    assert(decreases_to!(*n => (*n)->children));
                    assert(decreases_to!(*n => c[i as int]));
                }
                let part = size_of(&children[i]);
                proof {
                    let s = children@.subrange(0, i as int + 1);
                    assert(s.drop_last() =~= children@.subrange(0, i as int));
                    lemma_prefix_size_le(children@, i as int + 1);
                }
                match part {
                    None => {
                        return None;
                    },
                    Some(v) => match total.checked_add(v) {
                        None => {
                            return None;
                        },
                        Some(t) => {
                            total = t;
                        },
                    },
                }
                i = i + 1;
            }
            assert(children@.subrange(0, i as int) =~= children@);
            Some(total)
        },
    }
}

} // verus!
