//! Small helpers over staged trees.

use vstd::prelude::*;

use crate::archive::{TarEntry, TarEntryV};
use crate::error::Error;

verus! {

/// The byte size of the first `n` entries of a staged tree: the sum of the
/// regular files' lengths; directories contribute zero.
pub open spec fn spec_tree_size(es: Seq<TarEntryV>, n: int) -> nat
    decreases n,
{
    if n <= 0 {
        0
    } else {
        spec_tree_size(es, n - 1) + if es[n - 1].is_dir {
            0nat
        } else {
            es[n - 1].data.len()
        }
    }
}

/// The size of a prefix never exceeds the size of the whole tree.
pub proof fn lemma_tree_size_monotonic(es: Seq<TarEntryV>, i: int, n: int)
    requires
        i <= n,
    ensures
        spec_tree_size(es, i) <= spec_tree_size(es, n),
    decreases n - i,
{
    if i < n {
        lemma_tree_size_monotonic(es, i, n - 1);
    }
}

/// Sums the byte length of every regular file of a staged tree.
pub fn get_folder_size(entries: &Vec<TarEntry>) -> (size: u64)
    requires
        spec_tree_size(
            entries@.map_values(|e: TarEntry| e@),
            entries@.len() as int,
        ) <= u64::MAX,
    ensures
        size == spec_tree_size(entries@.map_values(|e: TarEntry| e@), entries@.len() as int),
{
    let ghost views = entries@.map_values(|e: TarEntry| e@);
    let mut size: u64 = 0;
    let mut i: usize = 0;
    while i < entries.len()
        invariant
            i <= entries@.len(),
            views == entries@.map_values(|e: TarEntry| e@),
            spec_tree_size(views, views.len() as int) <= u64::MAX,
            size == spec_tree_size(views, i as int),
        decreases entries@.len() - i,
    {
        let e = &entries[i];
        proof {
            assert(views[i as int] == entries@[i as int]@);
            lemma_tree_size_monotonic(views, i + 1int, views.len() as int);
        }
        if !e.is_dir {
            size = size + e.data.len() as u64;
        }
        i += 1;
    }
    size
}

/// Moving build outputs is left to the caller; recorded here as the
/// always-successful step of the pipeline.
pub fn mv(_src_pattern: &str, _dest: &str) -> (r: Result<(), Error>)
    ensures
        r is Ok,
{
    Ok(())
}

} // verus!
