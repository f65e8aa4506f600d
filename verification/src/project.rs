//! What `cargo simd doctor` reports about the Cargo project around it.
use vstd::prelude::*;

verus! {

/// The project root and what was found in it.
#[derive(Debug)]
pub struct ProjectInfo {
    pub root: Option<String>,
    pub has_lockfile: bool,
    pub target_directory: Option<String>,
    pub target_size_bytes: Option<u64>,
}

/// Assembles the project information from what the file system showed:
/// without a root nothing else is reported, and the target directory's size
/// only on a deep inspection of a directory that exists.
pub fn inspect(
    deep: bool,
    root: Option<String>,
    has_lockfile: bool,
    target_directory: Option<String>,
    target_size_bytes: Option<u64>,
) -> (info: ProjectInfo)
    ensures
        root is None ==> info.root is None && !info.has_lockfile && info.target_directory is None
            && info.target_size_bytes is None,
        root is Some ==> info.root == root && info.has_lockfile == has_lockfile
            && info.target_directory == target_directory && info.target_size_bytes == (if deep
            && target_directory is Some {
            target_size_bytes
        } else {
            None
        }),
{
    match root {
        None => ProjectInfo {
            root: None,
            has_lockfile: false,
            target_directory: None,
            target_size_bytes: None,
        },
        Some(root) => {
            let size = if deep && target_directory.is_some() {
                target_size_bytes
            } else {
                None
            };
            ProjectInfo {
                root: Some(root),
                has_lockfile,
                target_directory,
                target_size_bytes: size,
            }
        },
    }
}

/// The sum of `sizes`, saturating at `u64::MAX`.
pub open spec fn saturating_total(sizes: Seq<u64>) -> nat
    decreases sizes.len(),
{
    if sizes.len() == 0 {
        0
    } else {
        let before = saturating_total(sizes.drop_last());
        if before + sizes.last() > u64::MAX {
            u64::MAX as nat
        } else {
            (before + sizes.last()) as nat
        }
    }
}

/// Adds up the sizes of a directory's entries (files, and the totals of its
/// subdirectories), saturating instead of overflowing.
pub fn directory_total(sizes: &[u64]) -> (total: u64)
    ensures
        total == saturating_total(sizes@),
{
    let mut total: u64 = 0;
    let mut i: usize = 0;
    while i < sizes.len()
        invariant
            i <= sizes@.len(),
            total == saturating_total(sizes@.subrange(0, i as int)),
        decreases sizes@.len() - i,
    {
        proof {
            assert(sizes@.subrange(0, i + 1).drop_last() =~= sizes@.subrange(0, i as int));
        }
        total = total.saturating_add(sizes[i]);
        i += 1;
    }
    assert(sizes@.subrange(0, i as int) =~= sizes@);
    total
}

} // verus!
